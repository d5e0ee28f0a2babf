//! The handoff: a freshly loaded window takes the place of the visible one.
//!
//! The fresh window first takes over the position, the size and the glance mode of
//! the visible one. It is shown on top of it, and only then is the visible one
//! hidden. Where a call fails, the fresh window is hidden and the other one shown.

use crate::action::{Action, Reply, Screen};
use crate::text::joined_by_colon;
use crate::window::WindowSlot;
use vstd::prelude::*;

verus! {

/// How long a window may take to put its first frame on the screen, in milliseconds.
pub const COMPOSITOR_SETTLE_TIME: u64 = 100;

/// A call of the handoff that can fail.
#[derive(Clone, Copy, Debug, PartialEq, Eq, Structural)]
pub enum HandoffCall {
    ReadPosition,
    SetPosition,
    ReadSize,
    SetSize,
    IgnoreCursor,
    Show,
    Hide,
}

/// Why a handoff failed.
#[derive(Debug)]
pub enum HandoffError {
    VisibleMissing,
    FreshMissing,
    CallFailed { call: HandoffCall, error: String },
}

/// The point that a handoff has reached; the fresh window is kept beside it.
#[derive(Debug)]
pub enum HandoffStage {
    FindVisible,
    FindFresh,
    ReadPosition,
    SetPosition { x: i32, y: i32 },
    ReadSize,
    SetSize { width: u32, height: u32 },
    ReadGlance,
    IgnoreCursor { ignore: bool },
    SettleHidden,
    ShowFresh,
    SettleShown,
    HideVisible,
    UndoShow { error: HandoffError },
    UndoHide { error: HandoffError },
    Ended { result: Result<(), HandoffError> },
}

impl HandoffCall {
    /// What is said of a failure of this call, before the cause.
    pub open spec fn complaint_text(self) -> Seq<char> {
        match self {
            HandoffCall::ReadPosition => "couldn't read visible window position"@,
            HandoffCall::SetPosition => "couldn't synchronize buffer position"@,
            HandoffCall::ReadSize => "couldn't read visible window size"@,
            HandoffCall::SetSize => "couldn't synchronize buffer size"@,
            HandoffCall::IgnoreCursor => "couldn't synchronize glance mode"@,
            HandoffCall::Show => "couldn't show refreshed window"@,
            HandoffCall::Hide => "couldn't hide previous window"@,
        }
    }

    /// Returns what is said of a failure of this call, before the cause.
    pub fn complaint(self) -> (text: &'static str)
        ensures
            text@ == self.complaint_text(),
    {
        match self {
            HandoffCall::ReadPosition => "couldn't read visible window position",
            HandoffCall::SetPosition => "couldn't synchronize buffer position",
            HandoffCall::ReadSize => "couldn't read visible window size",
            HandoffCall::SetSize => "couldn't synchronize buffer size",
            HandoffCall::IgnoreCursor => "couldn't synchronize glance mode",
            HandoffCall::Show => "couldn't show refreshed window",
            HandoffCall::Hide => "couldn't hide previous window",
        }
    }
}

impl HandoffError {
    /// What is reported of this failure.
    pub open spec fn message_text(self) -> Seq<char> {
        match self {
            HandoffError::VisibleMissing => "visible calendar window is missing"@,
            HandoffError::FreshMissing => "refresh buffer window is missing"@,
            HandoffError::CallFailed { call, error } => call.complaint_text() + ": "@ + error@,
        }
    }

    /// Returns what is reported of this failure.
    pub fn message(&self) -> (message: String)
        ensures
            message@ == self.message_text(),
    {
        match self {
            HandoffError::VisibleMissing => "visible calendar window is missing".to_owned(),
            HandoffError::FreshMissing => "refresh buffer window is missing".to_owned(),
            HandoffError::CallFailed { call, error } => {
                joined_by_colon(call.complaint(), error.as_str())
            },
        }
    }
}

impl HandoffStage {
    /// What is asked of the desktop at this stage, where `fresh` takes over.
    pub open spec fn asks(self, fresh: WindowSlot) -> Option<Action> {
        let visible = fresh.opposite();
        match self {
            HandoffStage::FindVisible => Some(Action::FindWindow { window: visible }),
            HandoffStage::FindFresh => Some(Action::FindWindow { window: fresh }),
            HandoffStage::ReadPosition => Some(Action::ReadPosition { window: visible }),
            HandoffStage::SetPosition { x, y } => Some(Action::SetPosition { window: fresh, x, y }),
            HandoffStage::ReadSize => Some(Action::ReadSize { window: visible }),
            HandoffStage::SetSize { width, height } => Some(
                Action::SetSize { window: fresh, width, height },
            ),
            HandoffStage::ReadGlance => Some(Action::ReadGlance),
            HandoffStage::IgnoreCursor { ignore } => Some(
                Action::IgnoreCursor { window: fresh, ignore },
            ),
            HandoffStage::SettleHidden | HandoffStage::SettleShown => Some(
                Action::Sleep { millis: COMPOSITOR_SETTLE_TIME },
            ),
            HandoffStage::ShowFresh => Some(Action::Show { window: fresh }),
            HandoffStage::HideVisible => Some(Action::Hide { window: visible }),
            HandoffStage::UndoShow { .. } => Some(Action::Hide { window: fresh }),
            HandoffStage::UndoHide { .. } => Some(Action::Show { window: visible }),
            HandoffStage::Ended { .. } => None,
        }
    }

    /// The call of this stage whose failure ends the handoff.
    pub open spec fn call(self) -> Option<HandoffCall> {
        match self {
            HandoffStage::ReadPosition => Some(HandoffCall::ReadPosition),
            HandoffStage::SetPosition { .. } => Some(HandoffCall::SetPosition),
            HandoffStage::ReadSize => Some(HandoffCall::ReadSize),
            HandoffStage::SetSize { .. } => Some(HandoffCall::SetSize),
            HandoffStage::IgnoreCursor { .. } => Some(HandoffCall::IgnoreCursor),
            HandoffStage::ShowFresh => Some(HandoffCall::Show),
            HandoffStage::HideVisible => Some(HandoffCall::Hide),
            _ => None,
        }
    }

    /// The stage that follows when the work of this one is done.
    pub open spec fn following(self, reply: Reply) -> HandoffStage {
        match self {
            HandoffStage::FindVisible => HandoffStage::FindFresh,
            HandoffStage::FindFresh => HandoffStage::ReadPosition,
            HandoffStage::ReadPosition => HandoffStage::SetPosition {
                x: reply->Position_x,
                y: reply->Position_y,
            },
            HandoffStage::SetPosition { .. } => HandoffStage::ReadSize,
            HandoffStage::ReadSize => HandoffStage::SetSize {
                width: reply->Size_width,
                height: reply->Size_height,
            },
            HandoffStage::SetSize { .. } => HandoffStage::ReadGlance,
            HandoffStage::ReadGlance => HandoffStage::IgnoreCursor { ignore: reply->Glance_on },
            HandoffStage::IgnoreCursor { .. } => HandoffStage::SettleHidden,
            HandoffStage::SettleHidden => HandoffStage::ShowFresh,
            HandoffStage::ShowFresh => HandoffStage::SettleShown,
            HandoffStage::SettleShown => HandoffStage::HideVisible,
            HandoffStage::HideVisible => HandoffStage::Ended { result: Ok(()) },
            HandoffStage::UndoShow { error } => HandoffStage::UndoHide { error },
            HandoffStage::UndoHide { error } => HandoffStage::Ended { result: Err(error) },
            HandoffStage::Ended { result } => HandoffStage::Ended { result },
        }
    }

    /// The stage after an answer: a missing window ends the handoff at once, a call
    /// that fails is undone first, and whether undoing fails makes no difference.
    pub open spec fn next(self, reply: Reply) -> HandoffStage {
        if reply is Missing {
            HandoffStage::Ended {
                result: Err(
                    if self is FindVisible {
                        HandoffError::VisibleMissing
                    } else {
                        HandoffError::FreshMissing
                    },
                ),
            }
        } else if reply is Failed && self.call() is Some {
            HandoffStage::UndoShow {
                error: HandoffError::CallFailed { call: self.call()->0, error: reply->error },
            }
        } else {
            self.following(reply)
        }
    }

    /// Returns what is asked of the desktop at this stage.
    pub fn action(&self, fresh: WindowSlot) -> (action: Option<Action>)
        ensures
            action == self.asks(fresh),
    {
        let visible = fresh.other();
        match self {
            HandoffStage::FindVisible => Some(Action::FindWindow { window: visible }),
            HandoffStage::FindFresh => Some(Action::FindWindow { window: fresh }),
            HandoffStage::ReadPosition => Some(Action::ReadPosition { window: visible }),
            HandoffStage::SetPosition { x, y } => Some(
                Action::SetPosition { window: fresh, x: *x, y: *y },
            ),
            HandoffStage::ReadSize => Some(Action::ReadSize { window: visible }),
            HandoffStage::SetSize { width, height } => Some(
                Action::SetSize { window: fresh, width: *width, height: *height },
            ),
            HandoffStage::ReadGlance => Some(Action::ReadGlance),
            HandoffStage::IgnoreCursor { ignore } => Some(
                Action::IgnoreCursor { window: fresh, ignore: *ignore },
            ),
            HandoffStage::SettleHidden | HandoffStage::SettleShown => Some(
                Action::Sleep { millis: COMPOSITOR_SETTLE_TIME },
            ),
            HandoffStage::ShowFresh => Some(Action::Show { window: fresh }),
            HandoffStage::HideVisible => Some(Action::Hide { window: visible }),
            HandoffStage::UndoShow { .. } => Some(Action::Hide { window: fresh }),
            HandoffStage::UndoHide { .. } => Some(Action::Show { window: visible }),
            HandoffStage::Ended { .. } => None,
        }
    }

    fn failure(call: HandoffCall, error: String) -> (stage: HandoffStage)
        ensures
            stage == (HandoffStage::UndoShow { error: HandoffError::CallFailed { call, error } }),
    {
        HandoffStage::UndoShow { error: HandoffError::CallFailed { call, error } }
    }

    /// Takes an answer and moves on.
    pub fn step(self, fresh: WindowSlot, reply: Reply) -> (stage: HandoffStage)
        requires
            self.asks(fresh) is Some,
            reply.answers(self.asks(fresh)->0),
        ensures
            stage == self.next(reply),
    {
        match (self, reply) {
            (HandoffStage::FindVisible, Reply::Missing) => {
                HandoffStage::Ended { result: Err(HandoffError::VisibleMissing) }
            },
            (HandoffStage::FindVisible, _) => HandoffStage::FindFresh,
            (HandoffStage::FindFresh, Reply::Missing) => {
                HandoffStage::Ended { result: Err(HandoffError::FreshMissing) }
            },
            (HandoffStage::FindFresh, _) => HandoffStage::ReadPosition,
            (HandoffStage::ReadPosition, Reply::Position { x, y }) => {
                HandoffStage::SetPosition { x, y }
            },
            (HandoffStage::ReadPosition, Reply::Failed { error }) => {
                Self::failure(HandoffCall::ReadPosition, error)
            },
            (HandoffStage::SetPosition { .. }, Reply::Failed { error }) => {
                Self::failure(HandoffCall::SetPosition, error)
            },
            (HandoffStage::SetPosition { .. }, _) => HandoffStage::ReadSize,
            (HandoffStage::ReadSize, Reply::Size { width, height }) => {
                HandoffStage::SetSize { width, height }
            },
            (HandoffStage::ReadSize, Reply::Failed { error }) => {
                Self::failure(HandoffCall::ReadSize, error)
            },
            (HandoffStage::SetSize { .. }, Reply::Failed { error }) => {
                Self::failure(HandoffCall::SetSize, error)
            },
            (HandoffStage::SetSize { .. }, _) => HandoffStage::ReadGlance,
            (HandoffStage::ReadGlance, Reply::Glance { on }) => {
                HandoffStage::IgnoreCursor { ignore: on }
            },
            (HandoffStage::IgnoreCursor { .. }, Reply::Failed { error }) => {
                Self::failure(HandoffCall::IgnoreCursor, error)
            },
            (HandoffStage::IgnoreCursor { .. }, _) => HandoffStage::SettleHidden,
            (HandoffStage::SettleHidden, _) => HandoffStage::ShowFresh,
            (HandoffStage::ShowFresh, Reply::Failed { error }) => {
                Self::failure(HandoffCall::Show, error)
            },
            (HandoffStage::ShowFresh, _) => HandoffStage::SettleShown,
            (HandoffStage::SettleShown, _) => HandoffStage::HideVisible,
            (HandoffStage::HideVisible, Reply::Failed { error }) => {
                Self::failure(HandoffCall::Hide, error)
            },
            (HandoffStage::HideVisible, _) => HandoffStage::Ended { result: Ok(()) },
            (HandoffStage::UndoShow { error }, _) => HandoffStage::UndoHide { error },
            (HandoffStage::UndoHide { error }, _) => HandoffStage::Ended { result: Err(error) },
            (stage, _) => stage,
        }
    }
}

/// The stage that a handoff has reached after the given answers.
pub open spec fn handoff_after(replies: Seq<Reply>) -> HandoffStage
    decreases replies.len(),
{
    if replies.len() == 0 {
        HandoffStage::FindVisible
    } else {
        handoff_after(replies.drop_last()).next(replies.last())
    }
}

/// Whether each answer is one that the action before it can have.
pub open spec fn handoff_answered(fresh: WindowSlot, replies: Seq<Reply>) -> bool
    decreases replies.len(),
{
    replies.len() > 0 ==> {
        let asked = handoff_after(replies.drop_last()).asks(fresh);
        &&& handoff_answered(fresh, replies.drop_last())
        &&& asked is Some
        &&& replies.last().answers(asked->0)
    }
}

/// What is visible after the given answers.
pub open spec fn handoff_screen(fresh: WindowSlot, screen: Screen, replies: Seq<Reply>) -> Screen
    decreases replies.len(),
{
    if replies.len() == 0 {
        screen
    } else {
        handoff_screen(fresh, screen, replies.drop_last()).after(
            handoff_after(replies.drop_last()).asks(fresh)->0,
            replies.last(),
        )
    }
}

impl HandoffStage {
    /// What is visible at each stage, if the window to be replaced was at the start.
    pub open spec fn matches_screen(self, fresh: WindowSlot, screen: Screen) -> bool {
        match self {
            HandoffStage::SettleShown | HandoffStage::HideVisible => screen.shows(fresh)
                && screen.shows(fresh.opposite()),
            HandoffStage::Ended { result: Ok(()) } => screen.shows(fresh) && !screen.shows(
                fresh.opposite(),
            ),
            _ => screen.shows(fresh.opposite()),
        }
    }

    /// How many more answers a handoff can take at this stage.
    pub open spec fn answers_left(self) -> nat {
        match self {
            HandoffStage::FindVisible => 14,
            HandoffStage::FindFresh => 13,
            HandoffStage::ReadPosition => 12,
            HandoffStage::SetPosition { .. } => 11,
            HandoffStage::ReadSize => 10,
            HandoffStage::SetSize { .. } => 9,
            HandoffStage::ReadGlance => 8,
            HandoffStage::IgnoreCursor { .. } => 7,
            HandoffStage::SettleHidden => 6,
            HandoffStage::ShowFresh => 5,
            HandoffStage::SettleShown => 4,
            HandoffStage::HideVisible => 3,
            HandoffStage::UndoShow { .. } => 2,
            HandoffStage::UndoHide { .. } => 1,
            HandoffStage::Ended { .. } => 0,
        }
    }
}

/// Each answer keeps what is visible in step with the stage.
pub(crate) proof fn lemma_step_matches_screen(
    stage: HandoffStage,
    fresh: WindowSlot,
    screen: Screen,
    reply: Reply,
)
    requires
        stage.matches_screen(fresh, screen),
        stage.asks(fresh) is Some,
        reply.answers(stage.asks(fresh)->0),
    ensures
        stage.next(reply).matches_screen(fresh, screen.after(stage.asks(fresh)->0, reply)),
{
}

/// The visible window is given up only once the fresh one is shown: at every point
/// of a handoff some window is visible, after a success it is the fresh one alone,
/// and after a failure it is the one that was visible before.
pub proof fn law_handoff_keeps_a_window_visible(
    fresh: WindowSlot,
    screen: Screen,
    replies: Seq<Reply>,
)
    requires
        screen.shows(fresh.opposite()),
        handoff_answered(fresh, replies),
    ensures
        handoff_after(replies).matches_screen(fresh, handoff_screen(fresh, screen, replies)),
        handoff_screen(fresh, screen, replies).shows(fresh) || handoff_screen(
            fresh,
            screen,
            replies,
        ).shows(fresh.opposite()),
    decreases replies.len(),
{
    if replies.len() > 0 {
        law_handoff_keeps_a_window_visible(fresh, screen, replies.drop_last());
        lemma_step_matches_screen(
            handoff_after(replies.drop_last()),
            fresh,
            handoff_screen(fresh, screen, replies.drop_last()),
            replies.last(),
        );
    }
}

/// A handoff ends: it takes at most fourteen answers.
pub proof fn law_handoff_ends(fresh: WindowSlot, replies: Seq<Reply>)
    requires
        handoff_answered(fresh, replies),
    ensures
        replies.len() + handoff_after(replies).answers_left() <= 14,
    decreases replies.len(),
{
    if replies.len() > 0 {
        law_handoff_ends(fresh, replies.drop_last());
    }
}

/// A handoff in which no window is missing and no call fails succeeds with the
/// twelfth answer, and not before.
pub proof fn law_handoff_succeeds_if_nothing_fails(fresh: WindowSlot, replies: Seq<Reply>)
    requires
        handoff_answered(fresh, replies),
        forall|i: int| 0 <= i < replies.len() ==> !(#[trigger] replies[i] is Missing) && !(
        replies[i] is Failed),
    ensures
        replies.len() <= 12,
        replies.len() == 12 <==> handoff_after(replies) is Ended,
        replies.len() == 12 ==> handoff_after(replies)->result is Ok,
        replies.len() < 12 ==> handoff_after(replies).answers_left() == 14 - replies.len(),
    decreases replies.len(),
{
    if replies.len() > 0 {
        assert(replies.last() == replies[replies.len() - 1]);
        law_handoff_succeeds_if_nothing_fails(fresh, replies.drop_last());
    }
}

/// A handoff that has not failed, nor is being undone, has met no missing window and
/// no failing call; so a handoff that succeeded has met none at all.
pub proof fn law_handoff_succeeds_only_if_nothing_fails(fresh: WindowSlot, replies: Seq<Reply>)
    requires
        handoff_answered(fresh, replies),
        match handoff_after(replies) {
            HandoffStage::UndoShow { .. } | HandoffStage::UndoHide { .. } => false,
            HandoffStage::Ended { result } => result is Ok,
            _ => true,
        },
    ensures
        forall|i: int| 0 <= i < replies.len() ==> !(#[trigger] replies[i] is Missing) && !(
        replies[i] is Failed),
    decreases replies.len(),
{
    if replies.len() > 0 {
        law_handoff_succeeds_only_if_nothing_fails(fresh, replies.drop_last());
        assert forall|i: int| 0 <= i < replies.len() implies !(#[trigger] replies[i] is Missing)
            && !(replies[i] is Failed) by {
            if i < replies.len() - 1 {
                assert(replies[i] == replies.drop_last()[i]);
            }
        }
    }
}

/// The fresh window is given the position, the size and the glance mode that were
/// read.
pub proof fn law_fresh_window_takes_over_what_was_read(
    fresh: WindowSlot,
    x: i32,
    y: i32,
    width: u32,
    height: u32,
    on: bool,
)
    ensures
        HandoffStage::ReadPosition.next(Reply::Position { x, y }).asks(fresh) == Some(
            Action::SetPosition { window: fresh, x, y },
        ),
        HandoffStage::ReadSize.next(Reply::Size { width, height }).asks(fresh) == Some(
            Action::SetSize { window: fresh, width, height },
        ),
        HandoffStage::ReadGlance.next(Reply::Glance { on }).asks(fresh) == Some(
            Action::IgnoreCursor { window: fresh, ignore: on },
        ),
{
}

/// Where a call fails, whatever happens while it is undone, the handoff fails with
/// that call and its cause, having asked to hide the fresh window and to show the
/// other one.
pub proof fn law_failed_call_is_undone(
    stage: HandoffStage,
    fresh: WindowSlot,
    failed: Reply,
    hidden: Reply,
    shown: Reply,
)
    requires
        stage.call() is Some,
        failed is Failed,
        !(hidden is Missing),
        !(shown is Missing),
    ensures
        stage.next(failed).asks(fresh) == Some(Action::Hide { window: fresh }),
        stage.next(failed).next(hidden).asks(fresh) == Some(
            Action::Show { window: fresh.opposite() },
        ),
        stage.next(failed).next(hidden).next(shown) == (HandoffStage::Ended {
            result: Err(
                HandoffError::CallFailed { call: stage.call()->0, error: failed->error },
            ),
        }),
{
}

/// Whether none of the answers reports a missing window or a failed call.
pub open spec fn all_went_well(replies: Seq<Reply>) -> bool {
    forall|i: int| 0 <= i < replies.len() ==> !(#[trigger] replies[i] is Missing) && !(
    replies[i] is Failed)
}

/// The stage that a handoff has reached when all has gone well so far.
proof fn lemma_smooth_stage(fresh: WindowSlot, replies: Seq<Reply>)
    requires
        handoff_answered(fresh, replies),
        all_went_well(replies),
    ensures
        replies.len() <= 12,
        replies.len() == 0 ==> handoff_after(replies) is FindVisible,
        replies.len() == 1 ==> handoff_after(replies) is FindFresh,
        replies.len() == 2 ==> handoff_after(replies) is ReadPosition,
        replies.len() == 3 ==> replies[2] is Position && handoff_after(replies)
            == (HandoffStage::SetPosition { x: replies[2]->Position_x, y: replies[2]->Position_y }),
        replies.len() == 4 ==> handoff_after(replies) is ReadSize,
        replies.len() == 5 ==> replies[4] is Size && handoff_after(replies)
            == (HandoffStage::SetSize {
            width: replies[4]->Size_width,
            height: replies[4]->Size_height,
        }),
        replies.len() == 6 ==> handoff_after(replies) is ReadGlance,
        replies.len() == 7 ==> replies[6] is Glance && handoff_after(replies)
            == (HandoffStage::IgnoreCursor { ignore: replies[6]->Glance_on }),
        replies.len() == 8 ==> handoff_after(replies) is SettleHidden,
        replies.len() == 9 ==> handoff_after(replies) is ShowFresh,
        replies.len() == 10 ==> handoff_after(replies) is SettleShown,
        replies.len() == 11 ==> handoff_after(replies) is HideVisible,
        replies.len() == 12 ==> handoff_after(replies) == (HandoffStage::Ended { result: Ok(()) }),
    decreases replies.len(),
{
    if replies.len() > 0 {
        assert(replies.last() == replies[replies.len() - 1]);
        assert(all_went_well(replies.drop_last()));
        lemma_smooth_stage(fresh, replies.drop_last());
    }
}

/// What a handoff asks for while all goes well, whichever window takes over and
/// whatever was read: it finds both windows, gives the fresh one the position, the size
/// and the glance mode that were read, those of the visible window, lets it settle,
/// shows it, lets it settle again and hides the visible one; then it is over.
pub proof fn law_smooth_handoff_asks_in_order(fresh: WindowSlot, replies: Seq<Reply>)
    requires
        handoff_answered(fresh, replies),
        all_went_well(replies),
    ensures
        ({
            let visible = fresh.opposite();
            let asked = handoff_after(replies).asks(fresh);
            let n = replies.len();
            &&& visible != fresh
            &&& n <= 12
            &&& n == 0 ==> asked == Some(Action::FindWindow { window: visible })
            &&& n == 1 ==> asked == Some(Action::FindWindow { window: fresh })
            &&& n == 2 ==> asked == Some(Action::ReadPosition { window: visible })
            &&& n == 3 ==> (replies[2] matches Reply::Position { x, y } && asked == Some(
                Action::SetPosition { window: fresh, x, y },
            ))
            &&& n == 4 ==> asked == Some(Action::ReadSize { window: visible })
            &&& n == 5 ==> (replies[4] matches Reply::Size { width, height } && asked == Some(
                Action::SetSize { window: fresh, width, height },
            ))
            &&& n == 6 ==> asked == Some(Action::ReadGlance)
            &&& n == 7 ==> (replies[6] matches Reply::Glance { on } && asked == Some(
                Action::IgnoreCursor { window: fresh, ignore: on },
            ))
            &&& n == 8 || n == 10 ==> asked == Some(Action::Sleep { millis: 100 })
            &&& n == 9 ==> asked == Some(Action::Show { window: fresh })
            &&& n == 11 ==> asked == Some(Action::Hide { window: visible })
            &&& n == 12 ==> asked is None && handoff_after(replies) == (HandoffStage::Ended {
                result: Ok(()),
            })
        }),
{
    lemma_smooth_stage(fresh, replies);
}

/// A window that is missing ends the handoff with nothing left to ask, and the error
/// tells which of the two it was.
pub proof fn law_missing_window_ends_the_handoff(
    fresh: WindowSlot,
    replies: Seq<Reply>,
    missing: Reply,
)
    requires
        handoff_answered(fresh, replies.push(missing)),
        all_went_well(replies),
        missing is Missing,
    ensures
        replies.len() <= 1,
        handoff_after(replies.push(missing)) == (HandoffStage::Ended {
            result: Err(
                if replies.len() == 0 {
                    HandoffError::VisibleMissing
                } else {
                    HandoffError::FreshMissing
                },
            ),
        }),
        handoff_after(replies.push(missing)).asks(fresh) is None,
{
    assert(replies.push(missing).drop_last() =~= replies);
    lemma_smooth_stage(fresh, replies);
}

/// Wherever a call fails, and whatever its cause, the handoff hides the fresh window and
/// shows the other one, however that goes, and ends with the call that failed and its
/// cause.
pub proof fn law_failure_ends_the_handoff(
    fresh: WindowSlot,
    replies: Seq<Reply>,
    failed: Reply,
    hidden: Reply,
    shown: Reply,
)
    requires
        handoff_answered(fresh, replies.push(failed)),
        all_went_well(replies),
        failed is Failed,
        hidden is Done || hidden is Failed,
        shown is Done || shown is Failed,
    ensures
        ({
            let n = replies.len();
            let first = handoff_after(replies.push(failed));
            let second = first.next(hidden);
            &&& n == 2 || n == 3 || n == 4 || n == 5 || n == 7 || n == 9 || n == 11
            &&& first.asks(fresh) == Some(Action::Hide { window: fresh })
            &&& second.asks(fresh) == Some(Action::Show { window: fresh.opposite() })
            &&& second.next(shown).asks(fresh) is None
            &&& second.next(shown) == (HandoffStage::Ended {
                result: Err(
                    HandoffError::CallFailed {
                        call: if n == 2 {
                            HandoffCall::ReadPosition
                        } else if n == 3 {
                            HandoffCall::SetPosition
                        } else if n == 4 {
                            HandoffCall::ReadSize
                        } else if n == 5 {
                            HandoffCall::SetSize
                        } else if n == 7 {
                            HandoffCall::IgnoreCursor
                        } else if n == 9 {
                            HandoffCall::Show
                        } else {
                            HandoffCall::Hide
                        },
                        error: failed->error,
                    },
                ),
            })
        }),
{
    assert(replies.push(failed).drop_last() =~= replies);
    lemma_smooth_stage(fresh, replies);
}

/// Undoing asks to hide the fresh window and then to show the other one, and brings the
/// failure through unchanged, whatever it was.
pub proof fn law_undoing_keeps_the_failure(
    fresh: WindowSlot,
    error: HandoffError,
    hidden: Reply,
    shown: Reply,
)
    requires
        hidden is Done || hidden is Failed,
        shown is Done || shown is Failed,
    ensures
        ({
            let first = HandoffStage::UndoShow { error };
            let second = HandoffStage::UndoHide { error };
            &&& first.asks(fresh) == Some(Action::Hide { window: fresh })
            &&& first.next(hidden) == second
            &&& second.asks(fresh) == Some(Action::Show { window: fresh.opposite() })
            &&& second.next(shown) == (HandoffStage::Ended { result: Err(error) })
            &&& second.next(shown).asks(fresh) is None
        }),
{
}

/// The report of a failed call begins with what failed and ends with the whole cause.
pub proof fn law_failure_report_holds_the_cause(call: HandoffCall, error: String)
    ensures
        ({
            let report = (HandoffError::CallFailed { call, error }).message_text();
            let start = (match call {
                HandoffCall::ReadPosition => "couldn't read visible window position"@,
                HandoffCall::SetPosition => "couldn't synchronize buffer position"@,
                HandoffCall::ReadSize => "couldn't read visible window size"@,
                HandoffCall::SetSize => "couldn't synchronize buffer size"@,
                HandoffCall::IgnoreCursor => "couldn't synchronize glance mode"@,
                HandoffCall::Show => "couldn't show refreshed window"@,
                HandoffCall::Hide => "couldn't hide previous window"@,
            }) + seq![':', ' '];
            &&& report.len() == start.len() + error@.len()
            &&& report.take(start.len() as int) == start
            &&& report.skip(start.len() as int) == error@
        }),
{
    reveal_strlit(": ");
    let report = (HandoffError::CallFailed { call, error }).message_text();
    let start = call.complaint_text() + seq![':', ' '];
    assert(": "@ =~= seq![':', ' ']);
    assert(report.take(start.len() as int) =~= start);
    assert(report.skip(start.len() as int) =~= error@);
}

} // verus!
