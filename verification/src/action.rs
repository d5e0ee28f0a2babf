//! What the decisions ask of the desktop, and what the desktop answers.

use crate::refresh_state::RefreshEvent;
use crate::window::WindowSlot;
use vstd::prelude::*;

verus! {

/// One piece of work for the desktop shell.
#[derive(Clone, Copy, Debug, PartialEq, Eq, Structural)]
pub enum Action {
    /// Let some time pass.
    Sleep { millis: u64 },
    /// Look whether a window exists.
    FindWindow { window: WindowSlot },
    /// Load the calendar in a window, under the URL that carries the token.
    Navigate { window: WindowSlot, token: u64 },
    /// Fix the deadline for loading, counted from now.
    StartTimer { millis: u64 },
    /// Wait for the next load event until the deadline.
    AwaitEvent,
    /// Read the outer position of a window.
    ReadPosition { window: WindowSlot },
    /// Move a window.
    SetPosition { window: WindowSlot, x: i32, y: i32 },
    /// Read the inner size of a window.
    ReadSize { window: WindowSlot },
    /// Resize a window.
    SetSize { window: WindowSlot, width: u32, height: u32 },
    /// Read whether glance mode is on.
    ReadGlance,
    /// Let clicks pass through a window, or not.
    IgnoreCursor { window: WindowSlot, ignore: bool },
    /// Make a window visible.
    Show { window: WindowSlot },
    /// Make a window invisible.
    Hide { window: WindowSlot },
}

/// The answer to an [`Action`].
#[derive(Debug)]
pub enum Reply {
    /// The work is done; for a window that was looked for, it exists.
    Done,
    /// The window that was looked for does not exist.
    Missing,
    /// The call failed, and changed nothing.
    Failed { error: String },
    /// The position that was read.
    Position { x: i32, y: i32 },
    /// The size that was read.
    Size { width: u32, height: u32 },
    /// Whether glance mode is on.
    Glance { on: bool },
    /// A window reported that it finished loading.
    Event { event: RefreshEvent },
    /// No further event can come.
    Closed,
    /// The deadline passed before an event came.
    Expired,
}

impl Reply {
    /// Whether this is an answer that the action can have.
    pub open spec fn answers(self, action: Action) -> bool {
        match action {
            Action::Sleep { .. } | Action::StartTimer { .. } => self is Done,
            Action::FindWindow { .. } => self is Done || self is Missing,
            Action::ReadPosition { .. } => self is Position || self is Failed,
            Action::ReadSize { .. } => self is Size || self is Failed,
            Action::ReadGlance => self is Glance,
            Action::AwaitEvent => self is Event || self is Closed || self is Expired,
            _ => self is Done || self is Failed,
        }
    }

    /// Tells whether this is an answer that the action can have.
    pub fn fits(&self, action: Action) -> (fits: bool)
        ensures
            fits == self.answers(action),
    {
        match action {
            Action::Sleep { .. } | Action::StartTimer { .. } => matches!(self, Reply::Done),
            Action::FindWindow { .. } => matches!(self, Reply::Done | Reply::Missing),
            Action::ReadPosition { .. } => {
                matches!(self, Reply::Position { .. } | Reply::Failed { .. })
            },
            Action::ReadSize { .. } => matches!(self, Reply::Size { .. } | Reply::Failed { .. }),
            Action::ReadGlance => matches!(self, Reply::Glance { .. }),
            Action::AwaitEvent => {
                matches!(self, Reply::Event { .. } | Reply::Closed | Reply::Expired)
            },
            _ => matches!(self, Reply::Done | Reply::Failed { .. }),
        }
    }
}

/// Which windows are visible.
pub struct Screen {
    pub primary: bool,
    pub buffer: bool,
}

impl Screen {
    /// Whether a window is visible.
    pub open spec fn shows(self, window: WindowSlot) -> bool {
        match window {
            WindowSlot::Primary => self.primary,
            WindowSlot::Buffer => self.buffer,
        }
    }

    /// The screen with a window made visible or invisible.
    pub open spec fn with(self, window: WindowSlot, visible: bool) -> Screen {
        match window {
            WindowSlot::Primary => Screen { primary: visible, ..self },
            WindowSlot::Buffer => Screen { buffer: visible, ..self },
        }
    }

    /// The screen once an action has been answered: showing and hiding take effect
    /// when they are reported as done, and nothing else changes what is visible.
    pub open spec fn after(self, action: Action, reply: Reply) -> Screen {
        match action {
            Action::Show { window } if reply is Done => self.with(window, true),
            Action::Hide { window } if reply is Done => self.with(window, false),
            _ => self,
        }
    }
}

/// Each kind of answer belongs to the actions that can have it, whatever it holds: a
/// failure to every call of a window, a missing window to the search for one, a value
/// to the action that reads it, an event, a closed channel and a passed deadline to
/// the wait for events, and plain success to what has nothing to hand back.
pub proof fn law_answers_belong_to_their_actions(reply: Reply, action: Action)
    ensures
        reply is Failed ==> (reply.answers(action) <==> action is Navigate || action is ReadPosition
            || action is SetPosition || action is ReadSize || action is SetSize
            || action is IgnoreCursor || action is Show || action is Hide),
        reply is Missing ==> (reply.answers(action) <==> action is FindWindow),
        reply is Position ==> (reply.answers(action) <==> action is ReadPosition),
        reply is Size ==> (reply.answers(action) <==> action is ReadSize),
        reply is Glance ==> (reply.answers(action) <==> action is ReadGlance),
        reply is Event || reply is Closed || reply is Expired ==> (reply.answers(action)
            <==> action is AwaitEvent),
        reply is Done ==> (reply.answers(action) <==> !(action is ReadPosition || action is ReadSize
            || action is ReadGlance || action is AwaitEvent)),
{
}

/// A window is visible after an answer exactly if it was just shown, or if it was
/// visible and was not just hidden.
pub proof fn law_only_showing_and_hiding_change_the_screen(
    screen: Screen,
    action: Action,
    reply: Reply,
    window: WindowSlot,
)
    ensures
        screen.after(action, reply).shows(window) <==> (reply is Done && action == Action::Show {
            window,
        }) || (screen.shows(window) && !(reply is Done && action == Action::Hide { window })),
{
}

} // verus!
