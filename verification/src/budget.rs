//! The action budget: a bounded counter of how many further marks the player
//! may place before resolving or unmarking.

use vstd::prelude::*;

verus! {

/// Number of additional marks the player may place. Never negative; it moves
/// by exactly one per mark/unmark transition the board observes.
#[derive(Debug, Clone, Copy, PartialEq, Eq, Structural)]
pub struct ActionBudget {
    pub remaining: u32,
}

impl ActionBudget {
    /// A fresh budget with the given allowance.
    pub fn new(initial: u32) -> (b: ActionBudget)
        ensures
            b.remaining == initial,
    {
        ActionBudget { remaining: initial }
    }

    /// Whether at least one further mark may be placed.
    pub fn has_remaining(&self) -> (r: bool)
        ensures
            r == (self.remaining > 0),
    {
        self.remaining > 0
    }

    /// Consumes one slot for a newly placed mark.
    pub fn spend(&mut self)
        requires
            old(self).remaining > 0,
        ensures
            final(self).remaining == old(self).remaining - 1,
    {
        self.remaining = self.remaining - 1;
    }

    /// Returns one slot for a mark taken back or applied.
    pub fn refund(&mut self)
        requires
            old(self).remaining < u32::MAX,
        ensures
            final(self).remaining == old(self).remaining + 1,
    {
        self.remaining = self.remaining + 1;
    }
}

} // verus!
