//! Holds the ordered list of levels and the cursor into it.

use vstd::prelude::*;

use crate::level::Level;

verus! {

/// The level list and a one-based cursor pointing at the current level.
#[derive(Debug)]
pub struct Levelmanager {
    pub current_level: usize,
    pub levels: Vec<Level>,
}

impl Levelmanager {
    /// The cursor always points inside the list, one-based.
    pub open spec fn wf(self) -> bool {
        1 <= self.current_level <= self.levels@.len()
    }

    /// A manager starting at the given one-based level over the given list.
    pub fn new(starting_level: usize, levels: Vec<Level>) -> (m: Levelmanager)
        requires
            1 <= starting_level <= levels@.len(),
        ensures
            m.wf(),
            m.current_level == starting_level,
            m.levels@ == levels@,
    {
        Levelmanager { current_level: starting_level, levels }
    }

    /// The level the cursor points at.
    pub fn get_current_level(&self) -> (l: &Level)
        requires
            self.wf(),
        ensures
            *l == self.levels@[self.current_level - 1],
    {
        &self.levels[self.current_level - 1]
    }

    /// Moves the cursor one level forward if one is left, reporting whether
    /// it moved.
    pub fn advance_next_level(&mut self) -> (advanced: bool)
        requires
            old(self).wf(),
        ensures
            final(self).wf(),
            final(self).levels@ == old(self).levels@,
            advanced == (old(self).current_level < old(self).levels@.len()),
            final(self).current_level == (if advanced {
                old(self).current_level + 1
            } else {
                old(self).current_level as int
            }),
    {
        if self.current_level < self.levels.len() {
            self.current_level += 1;
            return true;
        }
        false
    }
}

} // verus!
