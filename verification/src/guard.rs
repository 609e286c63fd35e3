//! The reentrancy guard: one slot per service, taken by an operation that
//! waits for an outside reply and given back on every way out of it.

use vstd::prelude::*;

verus! {

/// A lock with a single slot. It is not re-entrant: while it is held, nobody
/// can take it, the holder included.
#[derive(Clone, Copy, Debug, PartialEq, Eq, Structural)]
pub struct ReentrancyGuard {
    locked: bool,
}

impl View for ReentrancyGuard {
    type V = bool;

    /// Whether the slot is taken.
    closed spec fn view(&self) -> bool {
        self.locked
    }
}

impl ReentrancyGuard {
    /// A free guard.
    pub fn new() -> (guard: ReentrancyGuard)
        ensures
            !guard@,
    {
        ReentrancyGuard { locked: false }
    }

    /// Whether the slot is taken.
    pub fn is_locked(&self) -> (locked: bool)
        ensures
            locked == self@,
    {
        self.locked
    }

    /// Takes the slot. Returns `false`, and changes nothing, where it was
    /// taken already.
    pub fn acquire(&mut self) -> (acquired: bool)
        ensures
            acquired == !old(self)@,
            final(self)@,
    {
        if self.locked {
            false
        } else {
            self.locked = true;
            true
        }
    }

    /// Gives the slot back.
    pub fn release(&mut self)
        ensures
            !final(self)@,
    {
        self.locked = false;
    }
}

} // verus!
