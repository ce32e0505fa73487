//! A per-level configuration snapshot: initial values, enabled mask, initial
//! marks, and the move budget. Loaded once, consumed to initialize or reset a
//! board, immutable afterwards.

use vstd::prelude::*;

use crate::tile::MAXNUMBER;
use crate::tile::TileState;

verus! {

/// One level definition. `remaining_moves` is a display "par" threshold used
/// by the presentation layer to decide whether to offer the resolve control;
/// the core carries it through without interpreting it.
#[derive(Debug)]
pub struct Level {
    pub name: String,
    pub number: u8,
    pub values: Vec<u8>,
    pub states: Vec<bool>,
    pub flagged: Vec<TileState>,
    pub moves: u8,
    pub remaining_moves: u8,
}

impl Level {
    /// Structural validity: all three per-cell arrays hold exactly nine
    /// entries, and every value lies in `[0, 4]`.
    pub open spec fn wf(self) -> bool {
        &&& self.values@.len() == 9
        &&& self.states@.len() == 9
        &&& self.flagged@.len() == 9
        &&& forall|i: int| 0 <= i < 9 ==> #[trigger] self.values@[i] <= MAXNUMBER
    }

    /// Checks structural validity; a level failing this must abort the level
    /// load rather than reach the board.
    pub fn is_valid(&self) -> (r: bool)
        ensures
            r == self.wf(),
    {
        if self.values.len() != 9 || self.states.len() != 9 || self.flagged.len() != 9 {
            return false;
        }
        let mut i: usize = 0;
        while i < 9
            invariant
                i <= 9,
                self.values@.len() == 9,
                forall|j: int| 0 <= j < i ==> #[trigger] self.values@[j] <= MAXNUMBER,
            decreases 9 - i,
        {
            if self.values[i] > MAXNUMBER {
                return false;
            }
            i += 1;
        }
        true
    }
}

/// The default initial marks: nine unmarked cells.
pub fn default_flagged() -> (r: Vec<TileState>)
    ensures
        r@.len() == 9,
        forall|i: int| 0 <= i < 9 ==> r@[i] == TileState::Normal,
{
    let mut v: Vec<TileState> = Vec::new();
    let mut i: usize = 0;
    while i < 9
        invariant
            i <= 9,
            v@.len() == i,
            forall|j: int| 0 <= j < i ==> v@[j] == TileState::Normal,
        decreases 9 - i,
    {
        v.push(TileState::Normal);
        i += 1;
    }
    v
}

/// The default enabled mask: all nine cells enabled.
pub fn default_states() -> (r: Vec<bool>)
    ensures
        r@.len() == 9,
        forall|i: int| 0 <= i < 9 ==> r@[i] == true,
{
    let mut v: Vec<bool> = Vec::new();
    let mut i: usize = 0;
    while i < 9
        invariant
            i <= 9,
            v@.len() == i,
            forall|j: int| 0 <= j < i ==> v@[j] == true,
        decreases 9 - i,
    {
        v.push(true);
        i += 1;
    }
    v
}

} // verus!
