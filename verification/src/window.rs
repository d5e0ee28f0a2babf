//! The two windows that take turns showing the calendar.

use crate::text::same_text;
use vstd::prelude::*;

verus! {

/// One of the two windows. At any time one of them shows the calendar and the other
/// loads the next generation out of sight.
#[derive(Clone, Copy, Debug, PartialEq, Eq, Structural)]
pub enum WindowSlot {
    Primary,
    Buffer,
}

impl WindowSlot {
    /// The label under which the window is registered.
    pub open spec fn label_text(self) -> Seq<char> {
        match self {
            WindowSlot::Primary => "gcal"@,
            WindowSlot::Buffer => "gcal-buffer"@,
        }
    }

    /// The window that is not this one.
    pub open spec fn opposite(self) -> WindowSlot {
        match self {
            WindowSlot::Primary => WindowSlot::Buffer,
            WindowSlot::Buffer => WindowSlot::Primary,
        }
    }

    /// The window that is registered under a label.
    pub open spec fn labelled(label: Seq<char>) -> Option<WindowSlot> {
        if label == WindowSlot::Primary.label_text() {
            Some(WindowSlot::Primary)
        } else if label == WindowSlot::Buffer.label_text() {
            Some(WindowSlot::Buffer)
        } else {
            None
        }
    }

    /// Returns the label under which the window is registered.
    pub fn label(self) -> (label: &'static str)
        ensures
            label@ == self.label_text(),
    {
        match self {
            WindowSlot::Primary => "gcal",
            WindowSlot::Buffer => "gcal-buffer",
        }
    }

    /// Returns the window that is not this one.
    pub fn other(self) -> (other: WindowSlot)
        ensures
            other == self.opposite(),
    {
        match self {
            WindowSlot::Primary => WindowSlot::Buffer,
            WindowSlot::Buffer => WindowSlot::Primary,
        }
    }

    /// Finds the window that is registered under a label.
    pub fn from_label(label: &str) -> (slot: Option<WindowSlot>)
        ensures
            slot == WindowSlot::labelled(label@),
    {
        if same_text(label, WindowSlot::Primary.label()) {
            Some(WindowSlot::Primary)
        } else if same_text(label, WindowSlot::Buffer.label()) {
            Some(WindowSlot::Buffer)
        } else {
            None
        }
    }
}

/// Labels and windows correspond: a label finds the one window that has it.
pub proof fn law_labels_find_their_windows(label: Seq<char>, slot: WindowSlot)
    ensures
        WindowSlot::labelled(label) == Some(slot) <==> label == slot.label_text(),
{
    reveal_strlit("gcal");
    reveal_strlit("gcal-buffer");
    assert("gcal"@.len() != "gcal-buffer"@.len());
}

/// The opposite of a window is another window, whose opposite is the first.
pub proof fn law_opposites(slot: WindowSlot)
    ensures
        slot.opposite() != slot,
        slot.opposite().opposite() == slot,
{
}

} // verus!
