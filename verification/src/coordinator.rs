//! The refresh coordinator: wait, look whether the calendar is still there, run one
//! attempt, and wait again for as long as its outcome asks for.

use crate::action::{Action, Reply, Screen};
use crate::attempt::{attempt_outcome, Attempt, AttemptError, AttemptStage};
use crate::refresh_state::{RefreshEvent, RefreshState, REFRESH_INTERVAL};
use crate::window::WindowSlot;
use vstd::prelude::*;

verus! {

/// What the coordinator is doing.
#[derive(Debug)]
pub enum CoordinatorStage {
    Sleep { millis: u64 },
    FindActive,
    Refresh { attempt: Attempt },
    Stopped,
}

/// The coordinator of all refresh attempts.
#[derive(Debug)]
pub struct Coordinator {
    pub state: RefreshState,
    pub stage: CoordinatorStage,
}

impl Coordinator {
    /// The coordinator at the start.
    pub open spec fn initial() -> Coordinator {
        Coordinator {
            state: RefreshState::initial(),
            stage: CoordinatorStage::Sleep { millis: REFRESH_INTERVAL },
        }
    }

    /// The attempt that is run is the pending one and goes on; at other times none
    /// is pending.
    pub open spec fn wf(self) -> bool {
        &&& self.state.wf()
        &&& match self.stage {
            CoordinatorStage::Refresh { attempt } => self.state.pending == Some(attempt.target)
                && attempt.asks() is Some,
            _ => self.state.pending is None,
        }
    }

    /// What is asked of the desktop at this point.
    pub open spec fn asks(self) -> Option<Action> {
        match self.stage {
            CoordinatorStage::Sleep { millis } => Some(Action::Sleep { millis }),
            CoordinatorStage::FindActive => Some(Action::FindWindow { window: self.state.active }),
            CoordinatorStage::Refresh { attempt } => attempt.asks(),
            CoordinatorStage::Stopped => None,
        }
    }

    /// The coordinator after an answer. It stops when the active window is gone.
    pub open spec fn next(self, reply: Reply) -> Coordinator {
        match self.stage {
            CoordinatorStage::Sleep { .. } => Coordinator {
                stage: CoordinatorStage::FindActive,
                ..self
            },
            CoordinatorStage::FindActive => if reply is Missing {
                Coordinator { stage: CoordinatorStage::Stopped, ..self }
            } else {
                Coordinator {
                    state: self.state.begun(),
                    stage: CoordinatorStage::Refresh {
                        attempt: Attempt::started(self.state.next_target()),
                    },
                }
            },
            CoordinatorStage::Refresh { attempt } => match attempt.next(self.state, reply) {
                AttemptStage::Ended { result } => {
                    let outcome = crate::attempt::outcome_of(result);
                    Coordinator {
                        state: self.state.finished(attempt.target, outcome),
                        stage: CoordinatorStage::Sleep {
                            millis: self.state.delay_after(attempt.target, outcome),
                        },
                    }
                },
                stage => Coordinator {
                    stage: CoordinatorStage::Refresh {
                        attempt: Attempt { target: attempt.target, stage },
                    },
                    ..self
                },
            },
            CoordinatorStage::Stopped => self,
        }
    }

    /// The failure, if any, with which an answer ends the attempt under way.
    pub open spec fn failure(self, reply: Reply) -> Option<AttemptError> {
        match self.stage {
            CoordinatorStage::Refresh { attempt } => match attempt.next(self.state, reply) {
                AttemptStage::Ended { result: Err(error) } => Some(error),
                _ => None,
            },
            _ => None,
        }
    }

    /// Returns the coordinator at the start.
    pub fn new() -> (coordinator: Coordinator)
        ensures
            coordinator == Coordinator::initial(),
            coordinator.wf(),
    {
        Coordinator {
            state: RefreshState::new(),
            stage: CoordinatorStage::Sleep { millis: REFRESH_INTERVAL },
        }
    }

    /// Returns what is asked of the desktop at this point, nothing once stopped.
    pub fn action(&self) -> (action: Option<Action>)
        ensures
            action == self.asks(),
    {
        match &self.stage {
            CoordinatorStage::Sleep { millis } => Some(Action::Sleep { millis: *millis }),
            CoordinatorStage::FindActive => Some(Action::FindWindow { window: self.state.active }),
            CoordinatorStage::Refresh { attempt } => attempt.action(),
            CoordinatorStage::Stopped => None,
        }
    }

    /// Takes an answer and moves on. Returns the failure to report where the answer
    /// ends an attempt without success.
    pub fn step(self, reply: Reply) -> (next: (Coordinator, Option<AttemptError>))
        requires
            self.asks() is Some,
            reply.answers(self.asks()->0),
            self.stage is FindActive && reply is Done ==> self.state.next_token < u64::MAX,
        ensures
            next.0 == self.next(reply),
            next.1 == self.failure(reply),
            self.wf() ==> next.0.wf(),
    {
        let mut state = self.state;
        match self.stage {
            CoordinatorStage::Sleep { .. } => {
                (Coordinator { state, stage: CoordinatorStage::FindActive }, None)
            },
            CoordinatorStage::FindActive => {
                if let Reply::Missing = reply {
                    (Coordinator { state, stage: CoordinatorStage::Stopped }, None)
                } else {
                    let target = state.begin();
                    let attempt = Attempt::start(target);
                    (Coordinator { state, stage: CoordinatorStage::Refresh { attempt } }, None)
                }
            },
            CoordinatorStage::Refresh { attempt } => {
                let attempt = attempt.step(&state, reply);
                let target = attempt.target;
                match attempt.stage {
                    AttemptStage::Ended { result } => {
                        let millis = state.finish(target, attempt_outcome(&result));
                        let failure = match result {
                            Ok(_) => None,
                            Err(error) => Some(error),
                        };
                        (Coordinator { state, stage: CoordinatorStage::Sleep { millis } }, failure)
                    },
                    stage => {
                        let attempt = Attempt { target, stage };
                        (Coordinator { state, stage: CoordinatorStage::Refresh { attempt } }, None)
                    },
                }
            },
            CoordinatorStage::Stopped => {
                (Coordinator { state, stage: CoordinatorStage::Stopped }, None)
            },
        }
    }
}

/// The coordinator after the given answers.
pub open spec fn coordinator_after(replies: Seq<Reply>) -> Coordinator
    decreases replies.len(),
{
    if replies.len() == 0 {
        Coordinator::initial()
    } else {
        coordinator_after(replies.drop_last()).next(replies.last())
    }
}

/// Whether each answer is one that the action before it can have.
pub open spec fn coordinator_answered(replies: Seq<Reply>) -> bool
    decreases replies.len(),
{
    replies.len() > 0 ==> {
        let asked = coordinator_after(replies.drop_last()).asks();
        &&& coordinator_answered(replies.drop_last())
        &&& asked is Some
        &&& replies.last().answers(asked->0)
    }
}

/// What is visible after the given answers.
pub open spec fn coordinator_screen(screen: Screen, replies: Seq<Reply>) -> Screen
    decreases replies.len(),
{
    if replies.len() == 0 {
        screen
    } else {
        coordinator_screen(screen, replies.drop_last()).after(
            coordinator_after(replies.drop_last()).asks()->0,
            replies.last(),
        )
    }
}

impl Coordinator {
    /// Whether a handoff is under way.
    pub open spec fn hands_over(self) -> bool {
        self.stage matches CoordinatorStage::Refresh { attempt } && attempt.stage is HandOver
    }

    /// What is visible at each point: the active window, but for a handoff, where it
    /// is what the handoff has reached.
    pub open spec fn matches_screen(self, screen: Screen) -> bool {
        match self.stage {
            CoordinatorStage::Refresh { attempt } => match attempt.stage {
                AttemptStage::HandOver { stage } => stage.matches_screen(
                    attempt.target.window,
                    screen,
                ),
                _ => screen.shows(self.state.active),
            },
            _ => screen.shows(self.state.active),
        }
    }
}

/// Every answer keeps the coordinator consistent.
proof fn lemma_step_keeps_wf(coordinator: Coordinator, reply: Reply)
    requires
        coordinator.wf(),
    ensures
        coordinator.next(reply).wf(),
{
}

proof fn lemma_step_matches_screen(coordinator: Coordinator, screen: Screen, reply: Reply)
    requires
        coordinator.wf(),
        coordinator.matches_screen(screen),
        coordinator.asks() is Some,
        reply.answers(coordinator.asks()->0),
    ensures
        coordinator.next(reply).matches_screen(screen.after(coordinator.asks()->0, reply)),
{
    if let CoordinatorStage::Refresh { attempt } = coordinator.stage {
        if let AttemptStage::HandOver { stage } = attempt.stage {
            crate::handoff::lemma_step_matches_screen(stage, attempt.target.window, screen, reply);
        }
    }
}

/// The coordinator is consistent at every point, whatever is answered.
pub proof fn law_coordinator_stays_consistent(replies: Seq<Reply>)
    ensures
        coordinator_after(replies).wf(),
    decreases replies.len(),
{
    if replies.len() > 0 {
        law_coordinator_stays_consistent(replies.drop_last());
        lemma_step_keeps_wf(coordinator_after(replies.drop_last()), replies.last());
    }
}

/// The calendar never disappears: from a start with the primary window visible, some
/// window is visible at every point, and outside a handoff it is the active one.
pub proof fn law_calendar_stays_visible(screen: Screen, replies: Seq<Reply>)
    requires
        screen.shows(WindowSlot::Primary),
        coordinator_answered(replies),
    ensures
        coordinator_after(replies).matches_screen(coordinator_screen(screen, replies)),
        coordinator_screen(screen, replies).shows(WindowSlot::Primary) || coordinator_screen(
            screen,
            replies,
        ).shows(WindowSlot::Buffer),
        !coordinator_after(replies).hands_over() ==> coordinator_screen(screen, replies).shows(
            coordinator_after(replies).state.active,
        ),
    decreases replies.len(),
{
    if replies.len() > 0 {
        law_calendar_stays_visible(screen, replies.drop_last());
        law_coordinator_stays_consistent(replies.drop_last());
        lemma_step_matches_screen(
            coordinator_after(replies.drop_last()),
            coordinator_screen(screen, replies.drop_last()),
            replies.last(),
        );
    }
}

/// A page is loaded out of sight only: never in the active window, and under the
/// token whose event the attempt under way then awaits.
pub proof fn law_pages_load_out_of_sight(coordinator: Coordinator, window: WindowSlot, token: u64)
    requires
        coordinator.wf(),
        coordinator.asks() == Some(Action::Navigate { window, token }),
    ensures
        window == coordinator.state.active.opposite(),
        token == coordinator.state.next_token,
        coordinator.state.awaits(RefreshEvent { window, token }),
{
}

/// The active window changes at one point only: when the window that was active has
/// been hidden in favour of the other one.
pub proof fn law_active_window_changes_when_hidden(coordinator: Coordinator, reply: Reply)
    requires
        coordinator.wf(),
        coordinator.asks() is Some,
        reply.answers(coordinator.asks()->0),
        coordinator.next(reply).state.active != coordinator.state.active,
    ensures
        coordinator.asks() == Some(Action::Hide { window: coordinator.state.active }),
        reply is Done,
        coordinator.next(reply).state.active == coordinator.state.active.opposite(),
{
}

/// The coordinator stops for one reason only: the active window was looked for and is
/// missing.
pub proof fn law_coordinator_stops_only_without_its_window(coordinator: Coordinator, reply: Reply)
    requires
        coordinator.asks() is Some,
        coordinator.next(reply).asks() is None,
        coordinator.wf(),
    ensures
        coordinator.asks() == Some(Action::FindWindow { window: coordinator.state.active }),
        coordinator.stage is FindActive,
        reply is Missing,
{
}

/// Once an attempt has ended, the wait is the regular interval after a success and
/// the one for the number of failures in a row after a failure.
pub proof fn law_wait_follows_the_outcome(coordinator: Coordinator, reply: Reply)
    requires
        coordinator.wf(),
        coordinator.stage is Refresh,
        coordinator.next(reply).stage is Sleep,
        coordinator.state.retry_count < usize::MAX,
    ensures
        coordinator.next(reply).stage->millis == (if coordinator.failure(reply) is None {
            REFRESH_INTERVAL
        } else {
            crate::refresh_state::backoff((coordinator.state.retry_count + 1) as nat)
        }),
{
}

/// Each attempt has a token of its own: beginning one raises the token, and nothing
/// else changes it.
pub proof fn law_tokens_are_never_reused(coordinator: Coordinator, reply: Reply)
    requires
        coordinator.state.next_token < u64::MAX,
    ensures
        coordinator.stage is FindActive && !(reply is Missing) ==> coordinator.next(
            reply,
        ).state.next_token == coordinator.state.next_token + 1,
        !(coordinator.stage is FindActive && !(reply is Missing)) ==> coordinator.next(
            reply,
        ).state.next_token == coordinator.state.next_token,
{
}

/// The loop goes on: when a wait is over, whatever went before it, the active window is
/// looked for; where it is found, the next attempt begins at once, and where it is
/// missing, nothing more is asked. Waiting and looking change nothing.
pub proof fn law_every_wait_leads_to_an_attempt(coordinator: Coordinator)
    requires
        coordinator.stage is Sleep,
    ensures
        ({
            let looking = coordinator.next(Reply::Done);
            let trying = looking.next(Reply::Done);
            let stopped = looking.next(Reply::Missing);
            &&& looking.state == coordinator.state
            &&& looking.asks() == Some(Action::FindWindow { window: coordinator.state.active })
            &&& trying.state == coordinator.state.begun()
            &&& trying.stage == (CoordinatorStage::Refresh {
                attempt: Attempt {
                    target: coordinator.state.next_target(),
                    stage: AttemptStage::FindBuffer,
                },
            })
            &&& trying.asks() == Some(
                Action::FindWindow { window: coordinator.state.active.opposite() },
            )
            &&& stopped.state == coordinator.state
            &&& stopped.stage is Stopped
            &&& stopped.asks() is None
            &&& coordinator.failure(Reply::Done) is None
            &&& looking.failure(Reply::Done) is None
            &&& looking.failure(Reply::Missing) is None
        }),
{
}

/// The same holds wherever the coordinator looks for the active window: found, the next
/// attempt begins; missing, the coordinator stops with the state as it is.
pub proof fn law_finding_the_active_window_begins_an_attempt(coordinator: Coordinator)
    requires
        coordinator.stage is FindActive,
    ensures
        coordinator.asks() == Some(Action::FindWindow { window: coordinator.state.active }),
        coordinator.next(Reply::Done).state == coordinator.state.begun(),
        coordinator.next(Reply::Done).stage == (CoordinatorStage::Refresh {
            attempt: Attempt {
                target: coordinator.state.next_target(),
                stage: AttemptStage::FindBuffer,
            },
        }),
        coordinator.next(Reply::Missing).state == coordinator.state,
        coordinator.next(Reply::Missing).stage is Stopped,
{
}

/// A wait is asked for as long as it is meant to be.
pub proof fn law_waits_are_asked_for(coordinator: Coordinator, millis: u64)
    requires
        coordinator.stage == (CoordinatorStage::Sleep { millis }),
    ensures
        coordinator.asks() == Some(Action::Sleep { millis }),
{
}

/// The first wait is the regular one, with the primary window active.
pub proof fn law_first_wait_is_the_regular_one()
    ensures
        Coordinator::initial().asks() == Some(Action::Sleep { millis: 300_000 }),
        Coordinator::initial().state.active == WindowSlot::Primary,
        Coordinator::initial().state.pending is None,
        Coordinator::initial().state.retry_count == 0,
{
}

/// While an attempt goes on, the coordinator asks what the attempt asks and moves with it,
/// its own state unchanged and nothing reported.
pub proof fn law_coordinator_follows_its_attempt(
    coordinator: Coordinator,
    attempt: Attempt,
    reply: Reply,
)
    requires
        coordinator.stage == (CoordinatorStage::Refresh { attempt }),
        !(attempt.next(coordinator.state, reply) is Ended),
    ensures
        coordinator.asks() == attempt.asks(),
        coordinator.next(reply).state == coordinator.state,
        coordinator.next(reply).stage == (CoordinatorStage::Refresh {
            attempt: Attempt {
                target: attempt.target,
                stage: attempt.next(coordinator.state, reply),
            },
        }),
        coordinator.failure(reply) is None,
{
}

/// When the pending attempt ends, the coordinator always waits again, so the next attempt
/// comes. After a success the windows have changed places, failures are forgotten, the
/// wait is five minutes and nothing is reported. After a failure, whichever it is, the
/// active window stays, the failure is counted and reported, and the wait is the one for
/// the failures in a row.
pub proof fn law_every_attempt_is_followed_by_a_wait(
    coordinator: Coordinator,
    attempt: Attempt,
    reply: Reply,
)
    requires
        coordinator.wf(),
        coordinator.stage == (CoordinatorStage::Refresh { attempt }),
        attempt.next(coordinator.state, reply) is Ended,
    ensures
        ({
            let before = coordinator.state;
            let after = coordinator.next(reply);
            let result = attempt.next(coordinator.state, reply)->result;
            &&& after.stage is Sleep
            &&& after.state.pending is None
            &&& after.state.next_token == before.next_token
            &&& result is Ok ==> {
                &&& after.state.active == before.active.opposite()
                &&& after.state.retry_count == 0
                &&& after.stage->millis == 300_000
                &&& coordinator.failure(reply) is None
            }
            &&& result is Err ==> {
                &&& after.state.active == before.active
                &&& after.state.retry_count == before.retry_count + 1 || after.state.retry_count
                    == before.retry_count == usize::MAX
                &&& after.stage->millis == crate::refresh_state::backoff(
                    after.state.retry_count as nat,
                )
                &&& coordinator.failure(reply) == Some(result->Err_0)
            }
        }),
{
}

} // verus!
