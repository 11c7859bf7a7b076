//! The render gate: one flag that says whether the screen is out of date.

use vstd::prelude::*;

verus! {

/// Records whether visible state changed since the last render.
///
/// Any number of marks between two renders collapse into one pending render.
#[derive(Clone, Copy, Debug, PartialEq, Eq, Structural)]
pub struct RenderGate {
    /// Whether a render is pending.
    pub dirty: bool,
}

impl RenderGate {
    /// The flag after `k` marks in a row with no render between them.
    pub open spec fn after_marks(self, k: nat) -> RenderGate
        decreases k,
    {
        if k == 0 {
            self
        } else {
            RenderGate { dirty: true }.after_marks((k - 1) as nat)
        }
    }

    /// The check that precedes a render: whether one is due, and the flag
    /// cleared.
    pub open spec fn checked(self) -> (bool, RenderGate) {
        (self.dirty, RenderGate { dirty: false })
    }

    /// A gate with a render pending, so that the first frame is drawn.
    pub fn new() -> (g: Self)
        ensures
            g.dirty,
    {
        RenderGate { dirty: true }
    }

    /// A gate with nothing pending.
    pub fn clean() -> (g: Self)
        ensures
            !g.dirty,
    {
        RenderGate { dirty: false }
    }

    /// Reads the flag without changing it.
    pub fn pending(&self) -> (b: bool)
        ensures
            b == self.dirty,
    {
        self.dirty
    }

    /// Records that visible state changed.
    pub fn mark(&mut self)
        ensures
            final(self).dirty,
            *final(self) == old(self).after_marks(1),
    {
        self.dirty = true;
        assert(RenderGate { dirty: true }.after_marks(0) == RenderGate { dirty: true });
    }

    /// Reads the flag and clears it: `true` means that one render is due now.
    pub fn take(&mut self) -> (due: bool)
        ensures
            (due, *final(self)) == old(self).checked(),
            due == old(self).dirty,
            !final(self).dirty,
    {
        let due = self.dirty;
        self.dirty = false;
        due
    }

    /// Marks coalesce. After one mark or after many, with no check between
    /// them, the next check finds one render due and the check after it
    /// finds none. Without a mark the flag is as it was, so a clean flag
    /// makes no render.
    pub proof fn marks_coalesce(self, k: nat)
        ensures
            k >= 1 ==> self.after_marks(k) == (RenderGate { dirty: true }),
            k >= 1 ==> self.after_marks(k).checked().0,
            k >= 1 ==> !self.after_marks(k).checked().1.checked().0,
            k == 0 ==> self.after_marks(k) == self,
            !self.dirty ==> !self.after_marks(0).checked().0,
        decreases k,
    {
        if k >= 1 {
            RenderGate { dirty: true }.marks_coalesce((k - 1) as nat);
        }
    }
}

} // verus!
