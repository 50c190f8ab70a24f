//! Suspension of edits while a command chord is held.

use vstd::prelude::*;

verus! {

/// Whether edits are suspended because a command modifier is held.
#[derive(Clone, Copy, Debug, PartialEq, Eq, Structural)]
pub struct InputGate {
    pub suspended: bool,
}

impl InputGate {
    /// A gate that lets edits through.
    pub fn new() -> (r: Self)
        ensures
            !r.suspended,
    {
        InputGate { suspended: false }
    }

    /// A command modifier went down: edits are suspended until it is
    /// released. Returns whether plain edits must now be ignored.
    pub fn on_modifier_press(&mut self) -> (r: bool)
        ensures
            final(self).suspended,
            r == final(self).suspended,
    {
        self.suspended = true;
        self.suspended
    }

    /// A key went up with no command modifier held: edits apply again. The
    /// gate does not count modifiers, so one release clears it outright.
    pub fn on_modifier_release(&mut self)
        ensures
            !final(self).suspended,
    {
        self.suspended = false;
    }

    /// False while suspended, true otherwise.
    pub fn should_apply_edit(&self) -> (r: bool)
        ensures
            r == !self.suspended,
    {
        !self.suspended
    }
}

} // verus!
