//! One refresh attempt: the calendar is loaded in the window out of sight, and once
//! that window reports it as loaded, it takes the place of the visible one.

use crate::action::{Action, Reply};
use crate::decimal::to_decimal;
use crate::handoff::{HandoffError, HandoffStage};
use crate::refresh_state::{AttemptOutcome, RefreshEvent, RefreshState, RefreshTarget};
use crate::text::joined_by_colon;
use vstd::prelude::*;
use vstd::string::*;

verus! {

/// How long a page may take to load, in milliseconds.
pub const LOAD_TIMEOUT: u64 = 30_000;

/// Why an attempt failed.
#[derive(Debug)]
pub enum AttemptError {
    BufferMissing,
    NavigationFailed { error: String },
    EventsClosed,
    TimedOut { retry_count: usize },
    HandoffFailed { cause: HandoffError },
}

/// The point that an attempt has reached.
#[derive(Debug)]
pub enum AttemptStage {
    FindBuffer,
    Navigate,
    StartTimer,
    AwaitEvent,
    HandOver { stage: HandoffStage },
    Ended { result: Result<(), AttemptError> },
}

/// An attempt under way.
#[derive(Debug)]
pub struct Attempt {
    pub target: RefreshTarget,
    pub stage: AttemptStage,
}

/// The outcome of an attempt that ended with `result`.
pub open spec fn outcome_of(result: Result<(), AttemptError>) -> AttemptOutcome {
    match result {
        Ok(()) => AttemptOutcome::Success,
        Err(AttemptError::TimedOut { .. }) => AttemptOutcome::TimedOut,
        Err(AttemptError::HandoffFailed { .. }) => AttemptOutcome::HandoffFailed,
        Err(_) => AttemptOutcome::NavigationFailed,
    }
}

/// Returns the outcome of an attempt that ended with `result`.
pub fn attempt_outcome(result: &Result<(), AttemptError>) -> (outcome: AttemptOutcome)
    ensures
        outcome == outcome_of(*result),
{
    match result {
        Ok(_) => AttemptOutcome::Success,
        Err(AttemptError::TimedOut { .. }) => AttemptOutcome::TimedOut,
        Err(AttemptError::HandoffFailed { .. }) => AttemptOutcome::HandoffFailed,
        Err(_) => AttemptOutcome::NavigationFailed,
    }
}

impl AttemptError {
    /// What is reported of this failure.
    pub open spec fn message_text(self) -> Seq<char> {
        match self {
            AttemptError::BufferMissing => "refresh buffer window is missing"@,
            AttemptError::NavigationFailed { error } => "couldn't navigate refresh buffer"@ + ": "@
                + error@,
            AttemptError::EventsClosed => "refresh event channel closed"@,
            AttemptError::TimedOut { retry_count } => "background refresh timed out (attempt "@
                + crate::decimal::decimal((retry_count + 1) as nat) + ")"@,
            AttemptError::HandoffFailed { cause } => "refresh handoff failed"@ + ": "@
                + cause.message_text(),
        }
    }

    /// Returns what is reported of this failure.
    pub fn message(&self) -> (message: String)
        requires
            *self matches AttemptError::TimedOut { retry_count } ==> retry_count < usize::MAX,
        ensures
            message@ == self.message_text(),
    {
        match self {
            AttemptError::BufferMissing => "refresh buffer window is missing".to_owned(),
            AttemptError::NavigationFailed { error } => {
                joined_by_colon("couldn't navigate refresh buffer", error.as_str())
            },
            AttemptError::EventsClosed => "refresh event channel closed".to_owned(),
            AttemptError::TimedOut { retry_count } => {
                let number = to_decimal((*retry_count + 1) as u64);
                let start = "background refresh timed out (attempt ".to_owned();
                start.concat(number.as_str()).concat(")")
            },
            AttemptError::HandoffFailed { cause } => {
                let message = cause.message();
                joined_by_colon("refresh handoff failed", message.as_str())
            },
        }
    }
}

impl AttemptStage {
    /// The stage once the handoff has reached `stage`.
    pub open spec fn handing_over(stage: HandoffStage) -> AttemptStage {
        match stage {
            HandoffStage::Ended { result: Ok(()) } => AttemptStage::Ended { result: Ok(()) },
            HandoffStage::Ended { result: Err(cause) } => AttemptStage::Ended {
                result: Err(AttemptError::HandoffFailed { cause }),
            },
            _ => AttemptStage::HandOver { stage },
        }
    }
}

impl Attempt {
    /// An attempt that has just begun.
    pub open spec fn started(target: RefreshTarget) -> Attempt {
        Attempt { target, stage: AttemptStage::FindBuffer }
    }

    /// What is asked of the desktop at this point.
    pub open spec fn asks(self) -> Option<Action> {
        let window = self.target.window;
        match self.stage {
            AttemptStage::FindBuffer => Some(Action::FindWindow { window }),
            AttemptStage::Navigate => Some(Action::Navigate { window, token: self.target.token }),
            AttemptStage::StartTimer => Some(Action::StartTimer { millis: LOAD_TIMEOUT }),
            AttemptStage::AwaitEvent => Some(Action::AwaitEvent),
            AttemptStage::HandOver { stage } => stage.asks(window),
            AttemptStage::Ended { .. } => None,
        }
    }

    /// The stage after an answer, where `state` knows which event is awaited. An
    /// event that is not awaited is passed over.
    pub open spec fn next(self, state: RefreshState, reply: Reply) -> AttemptStage {
        match self.stage {
            AttemptStage::FindBuffer => if reply is Missing {
                AttemptStage::Ended { result: Err(AttemptError::BufferMissing) }
            } else {
                AttemptStage::Navigate
            },
            AttemptStage::Navigate => if reply is Failed {
                AttemptStage::Ended {
                    result: Err(AttemptError::NavigationFailed { error: reply->error }),
                }
            } else {
                AttemptStage::StartTimer
            },
            AttemptStage::StartTimer => AttemptStage::AwaitEvent,
            AttemptStage::AwaitEvent => match reply {
                Reply::Event { event } => if state.awaits(event) {
                    AttemptStage::HandOver { stage: HandoffStage::FindVisible }
                } else {
                    AttemptStage::AwaitEvent
                },
                Reply::Closed => AttemptStage::Ended { result: Err(AttemptError::EventsClosed) },
                _ => AttemptStage::Ended {
                    result: Err(AttemptError::TimedOut { retry_count: self.target.retry_count }),
                },
            },
            AttemptStage::HandOver { stage } => AttemptStage::handing_over(stage.next(reply)),
            AttemptStage::Ended { result } => AttemptStage::Ended { result },
        }
    }

    /// Starts an attempt.
    pub fn start(target: RefreshTarget) -> (attempt: Attempt)
        ensures
            attempt == Attempt::started(target),
    {
        Attempt { target, stage: AttemptStage::FindBuffer }
    }

    /// Returns what is asked of the desktop at this point.
    pub fn action(&self) -> (action: Option<Action>)
        ensures
            action == self.asks(),
    {
        let window = self.target.window;
        match &self.stage {
            AttemptStage::FindBuffer => Some(Action::FindWindow { window }),
            AttemptStage::Navigate => Some(Action::Navigate { window, token: self.target.token }),
            AttemptStage::StartTimer => Some(Action::StartTimer { millis: LOAD_TIMEOUT }),
            AttemptStage::AwaitEvent => Some(Action::AwaitEvent),
            AttemptStage::HandOver { stage } => stage.action(window),
            AttemptStage::Ended { .. } => None,
        }
    }

    /// Takes an answer and moves on.
    pub fn step(self, state: &RefreshState, reply: Reply) -> (attempt: Attempt)
        requires
            self.asks() is Some,
            reply.answers(self.asks()->0),
        ensures
            attempt.target == self.target,
            attempt.stage == self.next(*state, reply),
    {
        let target = self.target;
        let stage = match (self.stage, reply) {
            (AttemptStage::FindBuffer, Reply::Missing) => {
                AttemptStage::Ended { result: Err(AttemptError::BufferMissing) }
            },
            (AttemptStage::FindBuffer, _) => AttemptStage::Navigate,
            (AttemptStage::Navigate, Reply::Failed { error }) => {
                AttemptStage::Ended { result: Err(AttemptError::NavigationFailed { error }) }
            },
            (AttemptStage::Navigate, _) => AttemptStage::StartTimer,
            (AttemptStage::StartTimer, _) => AttemptStage::AwaitEvent,
            (AttemptStage::AwaitEvent, Reply::Event { event }) => {
                if state.matches(event) {
                    AttemptStage::HandOver { stage: HandoffStage::FindVisible }
                } else {
                    AttemptStage::AwaitEvent
                }
            },
            (AttemptStage::AwaitEvent, Reply::Closed) => {
                AttemptStage::Ended { result: Err(AttemptError::EventsClosed) }
            },
            (AttemptStage::AwaitEvent, _) => AttemptStage::Ended {
                result: Err(AttemptError::TimedOut { retry_count: target.retry_count }),
            },
            (AttemptStage::HandOver { stage }, reply) => {
                match stage.step(target.window, reply) {
                    HandoffStage::Ended { result: Ok(_) } => AttemptStage::Ended { result: Ok(()) },
                    HandoffStage::Ended { result: Err(cause) } => {
                        AttemptStage::Ended { result: Err(AttemptError::HandoffFailed { cause }) }
                    },
                    stage => AttemptStage::HandOver { stage },
                }
            },
            (stage, _) => stage,
        };
        Attempt { target, stage }
    }
}

/// The point that an attempt has reached after the given answers.
pub open spec fn attempt_after(
    target: RefreshTarget,
    state: RefreshState,
    replies: Seq<Reply>,
) -> Attempt
    decreases replies.len(),
{
    if replies.len() == 0 {
        Attempt::started(target)
    } else {
        Attempt {
            target,
            stage: attempt_after(target, state, replies.drop_last()).next(state, replies.last()),
        }
    }
}

/// Whether an answer reports the awaited page as loaded.
pub open spec fn reports_load(state: RefreshState, reply: Reply) -> bool {
    reply is Event && state.awaits(reply->event)
}

/// The visible window is not touched before the awaited page is reported as loaded:
/// an attempt that hands over, or has done so, was told of it.
pub proof fn law_handover_waits_for_the_page(
    target: RefreshTarget,
    state: RefreshState,
    replies: Seq<Reply>,
)
    requires
        match attempt_after(target, state, replies).stage {
            AttemptStage::HandOver { .. } => true,
            AttemptStage::Ended { result: Ok(()) } => true,
            AttemptStage::Ended { result: Err(error) } => error is HandoffFailed,
            _ => false,
        },
    ensures
        exists|i: int| 0 <= i < replies.len() && #[trigger] reports_load(state, replies[i]),
    decreases replies.len(),
{
    if replies.len() > 0 {
        let before = attempt_after(target, state, replies.drop_last());
        if before.stage is AwaitEvent {
            assert(reports_load(state, replies[replies.len() - 1]));
        } else {
            law_handover_waits_for_the_page(target, state, replies.drop_last());
            let i = choose|i: int|
                0 <= i < replies.len() - 1 && #[trigger] reports_load(
                    state,
                    replies.drop_last()[i],
                );
            assert(reports_load(state, replies[i]));
        }
    }
}

/// The page is asked for once, and its deadline fixed once: neither is reached again
/// from a later stage.
pub proof fn law_deadline_is_fixed_once(attempt: Attempt, state: RefreshState, reply: Reply)
    ensures
        !(attempt.next(state, reply) is FindBuffer),
        attempt.next(state, reply) is Navigate ==> attempt.stage is FindBuffer,
        attempt.next(state, reply) is StartTimer ==> attempt.stage is Navigate,
{
}

/// A stale event is passed over: the attempt goes on waiting, under the deadline it
/// has.
pub proof fn law_stale_event_is_passed_over(
    attempt: Attempt,
    state: RefreshState,
    event: RefreshEvent,
)
    requires
        attempt.stage is AwaitEvent,
        !state.awaits(event),
    ensures
        attempt.next(state, Reply::Event { event }) == attempt.stage,
{
}

/// Every attempt, whichever its window, token and number of failures before it, finds
/// its window, loads its own page there, fixes the deadline half a minute ahead and
/// waits for events.
pub proof fn law_attempt_loads_its_page(target: RefreshTarget, state: RefreshState, n: nat)
    requires
        n <= 3,
    ensures
        ({
            let asked = attempt_after(target, state, Seq::new(n, |i: int| Reply::Done)).asks();
            &&& n == 0 ==> asked == Some(Action::FindWindow { window: target.window })
            &&& n == 1 ==> asked == Some(
                Action::Navigate { window: target.window, token: target.token },
            )
            &&& n == 2 ==> asked == Some(Action::StartTimer { millis: 30_000 })
            &&& n == 3 ==> asked == Some(Action::AwaitEvent)
        }),
{
    lemma_loading_stage(target, state, n);
}

proof fn lemma_loading_stage(target: RefreshTarget, state: RefreshState, n: nat)
    requires
        n <= 3,
    ensures
        ({
            let attempt = attempt_after(target, state, Seq::new(n, |i: int| Reply::Done));
            &&& attempt.target == target
            &&& n == 0 ==> attempt.stage is FindBuffer
            &&& n == 1 ==> attempt.stage is Navigate
            &&& n == 2 ==> attempt.stage is StartTimer
            &&& n == 3 ==> attempt.stage is AwaitEvent
        }),
    decreases n,
{
    if n > 0 {
        lemma_loading_stage(target, state, (n - 1) as nat);
        assert(Seq::new(n, |i: int| Reply::Done).drop_last() =~= Seq::new(
            (n - 1) as nat,
            |i: int| Reply::Done,
        ));
    }
}

/// While the page is asked for, each failure ends the attempt for its own reason, with
/// its cause: a missing window, a navigation that fails.
pub proof fn law_loading_fails_for_its_reason(
    attempt: Attempt,
    state: RefreshState,
    reply: Reply,
)
    ensures
        attempt.stage is FindBuffer && reply is Missing ==> attempt.next(state, reply)
            == (AttemptStage::Ended { result: Err(AttemptError::BufferMissing) }),
        attempt.stage is FindBuffer && reply is Done ==> attempt.next(state, reply) is Navigate,
        attempt.stage is Navigate && reply is Failed ==> attempt.next(state, reply)
            == (AttemptStage::Ended {
            result: Err(AttemptError::NavigationFailed { error: reply->error }),
        }),
        attempt.stage is Navigate && reply is Done ==> attempt.next(state, reply) is StartTimer,
        attempt.stage is StartTimer && reply is Done ==> attempt.next(state, reply) is AwaitEvent,
{
}

/// While it waits, an attempt goes over to the handoff with the event of the pending
/// window and token, goes on waiting with any other event, and fails once no event can
/// come or the deadline has passed, at any number of failures before it.
pub proof fn law_waiting_ends_with_the_awaited_event(
    attempt: Attempt,
    state: RefreshState,
    reply: Reply,
)
    requires
        attempt.stage is AwaitEvent,
        reply is Event || reply is Closed || reply is Expired,
    ensures
        ({
            let next = attempt.next(state, reply);
            let awaited = reply is Event && state.pending is Some && state.pending->0.window
                == reply->event.window && state.pending->0.token == reply->event.token;
            &&& next is HandOver <==> awaited
            &&& next is AwaitEvent <==> reply is Event && !awaited
            &&& awaited ==> next == (AttemptStage::HandOver { stage: HandoffStage::FindVisible })
            &&& reply is Closed ==> next == (AttemptStage::Ended {
                result: Err(AttemptError::EventsClosed),
            })
            &&& reply is Expired ==> next == (AttemptStage::Ended {
                result: Err(AttemptError::TimedOut { retry_count: attempt.target.retry_count }),
            })
        }),
{
}

/// Once it hands over, an attempt does what the handoff does: it asks what the handoff
/// asks, moves with it, and ends with it, with success or with the handoff's failure.
pub proof fn law_attempt_follows_its_handoff(
    attempt: Attempt,
    stage: HandoffStage,
    state: RefreshState,
    reply: Reply,
)
    requires
        attempt.stage == (AttemptStage::HandOver { stage }),
    ensures
        attempt.asks() == stage.asks(attempt.target.window),
        !(stage.next(reply) is Ended) ==> attempt.next(state, reply) == (AttemptStage::HandOver {
            stage: stage.next(reply),
        }),
        stage.next(reply) == (HandoffStage::Ended { result: Ok(()) }) ==> attempt.next(state, reply)
            == (AttemptStage::Ended { result: Ok(()) }),
        stage.next(reply) is Ended && stage.next(reply)->result is Err ==> attempt.next(
            state,
            reply,
        ) == (AttemptStage::Ended {
            result: Err(
                AttemptError::HandoffFailed { cause: stage.next(reply)->result->Err_0 },
            ),
        }),
{
}

/// The answers of an attempt that goes well: its window is found, navigates and gets its
/// deadline, some stale events come, then its own, and the handoff is answered.
pub open spec fn good_answers(
    target: RefreshTarget,
    stale: Seq<Reply>,
    handoff: Seq<Reply>,
) -> Seq<Reply> {
    Seq::new(3, |i: int| Reply::Done) + stale + seq![Reply::Event { event: target.loaded() }]
        + handoff
}

proof fn lemma_waiting_through_stale_events(
    target: RefreshTarget,
    state: RefreshState,
    stale: Seq<Reply>,
)
    requires
        forall|i: int|
            0 <= i < stale.len() ==> #[trigger] stale[i] is Event && !reports_load(state, stale[i]),
    ensures
        attempt_after(target, state, Seq::new(3, |i: int| Reply::Done) + stale)
            == (Attempt { target, stage: AttemptStage::AwaitEvent }),
    decreases stale.len(),
{
    let start = Seq::new(3, |i: int| Reply::Done);
    if stale.len() == 0 {
        lemma_loading_stage(target, state, 3);
        assert(start + stale =~= start);
    } else {
        lemma_waiting_through_stale_events(target, state, stale.drop_last());
        assert((start + stale).drop_last() =~= start + stale.drop_last());
        assert(stale.last() == stale[stale.len() - 1]);
        assert((start + stale).last() == stale.last());
    }
}

proof fn lemma_handing_over(
    target: RefreshTarget,
    state: RefreshState,
    stale: Seq<Reply>,
    handoff: Seq<Reply>,
)
    requires
        state.pending == Some(target),
        forall|i: int|
            0 <= i < stale.len() ==> #[trigger] stale[i] is Event && !reports_load(state, stale[i]),
        crate::handoff::handoff_answered(target.window, handoff),
    ensures
        attempt_after(target, state, good_answers(target, stale, handoff)).stage
            == AttemptStage::handing_over(crate::handoff::handoff_after(handoff)),
    decreases handoff.len(),
{
    let answers = good_answers(target, stale, handoff);
    let start = Seq::new(3, |i: int| Reply::Done) + stale;
    if handoff.len() == 0 {
        lemma_waiting_through_stale_events(target, state, stale);
        assert(answers.drop_last() =~= start);
        assert(answers.last() == (Reply::Event { event: target.loaded() }));
    } else {
        let shorter = good_answers(target, stale, handoff.drop_last());
        lemma_handing_over(target, state, stale, handoff.drop_last());
        assert(answers.drop_last() =~= shorter);
        assert(answers.last() == handoff.last());
        assert(!(crate::handoff::handoff_after(handoff.drop_last()) is Ended));
    }
}

/// An attempt whose window is found and navigates, whose page is reported as loaded after
/// any number of stale events, and whose handoff goes well, succeeds: for every window
/// and token, and however many attempts failed before it.
pub proof fn law_attempt_succeeds_if_nothing_fails(
    target: RefreshTarget,
    state: RefreshState,
    stale: Seq<Reply>,
    handoff: Seq<Reply>,
)
    requires
        state.pending == Some(target),
        forall|i: int|
            0 <= i < stale.len() ==> #[trigger] stale[i] is Event && (stale[i]->event.window
                != target.window || stale[i]->event.token != target.token),
        crate::handoff::handoff_answered(target.window, handoff),
        crate::handoff::all_went_well(handoff),
        handoff.len() == 12,
    ensures
        attempt_after(target, state, good_answers(target, stale, handoff)).stage
            == (AttemptStage::Ended { result: Ok(()) }),
        outcome_of(Ok(())) == AttemptOutcome::Success,
{
    lemma_handing_over(target, state, stale, handoff);
    crate::handoff::law_smooth_handoff_asks_in_order(target.window, handoff);
}

/// The outcome tells success from failure, and the three kinds of failure apart, whatever
/// the failure holds.
pub proof fn law_outcome_tells_the_failures_apart(result: Result<(), AttemptError>)
    ensures
        outcome_of(result) == AttemptOutcome::Success <==> result is Ok,
        outcome_of(result) == AttemptOutcome::TimedOut <==> result is Err && result->Err_0
            is TimedOut,
        outcome_of(result) == AttemptOutcome::HandoffFailed <==> result is Err && result->Err_0
            is HandoffFailed,
{
}

/// The report of a failure ends with the whole cause, and that of a timeout numbers the
/// attempt, counting from one.
pub proof fn law_attempt_report_holds_the_cause(error: String, cause: HandoffError, retries: usize)
    requires
        retries < usize::MAX,
    ensures
        (AttemptError::NavigationFailed { error }).message_text()
            == "couldn't navigate refresh buffer"@ + seq![':', ' '] + error@,
        (AttemptError::HandoffFailed { cause }).message_text() == "refresh handoff failed"@
            + seq![':', ' '] + cause.message_text(),
        ({
            let report = (AttemptError::TimedOut { retry_count: retries }).message_text();
            let start = "background refresh timed out (attempt "@;
            &&& report.len() > start.len() + 1
            &&& report.take(start.len() as int) == start
            &&& report.last() == ')'
            &&& crate::decimal::parsed(report.subrange(start.len() as int, report.len() - 1))
                == Some((retries + 1) as u64)
        }),
{
    reveal_strlit(": ");
    reveal_strlit(")");
    assert(": "@ =~= seq![':', ' ']);
    let report = (AttemptError::TimedOut { retry_count: retries }).message_text();
    let start = "background refresh timed out (attempt "@;
    let number = crate::decimal::decimal((retries + 1) as nat);
    crate::decimal::law_decimal_text_is_canonical((retries + 1) as nat);
    crate::decimal::law_decimal_reads_back((retries + 1) as u64);
    assert(report.take(start.len() as int) =~= start);
    assert(report.subrange(start.len() as int, report.len() - 1) =~= number);
}

/// An attempt that has ended asks for nothing more; any other does.
pub proof fn law_attempt_asks_until_it_ends(attempt: Attempt)
    requires
        !(attempt.stage matches AttemptStage::HandOver { stage } && stage is Ended),
    ensures
        attempt.asks() is None <==> attempt.stage is Ended,
{
}

} // verus!
