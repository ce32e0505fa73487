//! The 3x3 board: owns the nine tiles and the action budget, gates mark
//! requests against the budget, and runs the cascade-and-elimination
//! resolution algorithm.
//!
//! Board positions are row-major: index = row * 3 + col, row and col in
//! `[0, 2]`. Rows are the triples `{0,1,2}, {3,4,5}, {6,7,8}`; columns are
//! `{0,3,6}, {1,4,7}, {2,5,8}`. Exactly these six triples are checked for
//! matches — no diagonals.

use vstd::prelude::*;

use crate::budget::ActionBudget;
use crate::effect::Direction;
use crate::effect::Effect;
use crate::game::GameState;
use crate::level::Level;
use crate::tile::Tile;
use crate::tile::TileState;
use crate::tile::future_tile;
use crate::tile::spec_is_marked;
use crate::tile::tile_wf;

verus! {

// ---------------------------------------------------------------------------
// Counting and summing over the tile sequence
// ---------------------------------------------------------------------------

/// Number of marked tiles among the first `n`.
pub open spec fn marked_upto(s: Seq<Tile>, n: int) -> int
    decreases n,
{
    if n <= 0 {
        0
    } else {
        marked_upto(s, n - 1) + if spec_is_marked(s[n - 1]) {
            1int
        } else {
            0int
        }
    }
}

/// Number of marked tiles on the board.
pub open spec fn marked_count(s: Seq<Tile>) -> int {
    marked_upto(s, s.len() as int)
}

/// Sum of the values of the first `n` tiles.
pub open spec fn sum_upto(s: Seq<Tile>, n: int) -> int
    decreases n,
{
    if n <= 0 {
        0
    } else {
        sum_upto(s, n - 1) + s[n - 1].number
    }
}

/// Sum of all values on the board.
pub open spec fn board_sum(s: Seq<Tile>) -> int {
    sum_upto(s, s.len() as int)
}

// ---------------------------------------------------------------------------
// Step 1: applying pending marks
// ---------------------------------------------------------------------------

/// The board after every pending mark has been applied: marked tiles step
/// their value (wrap-around), lose the mark and are re-enabled; unmarked
/// tiles are untouched.
pub open spec fn apply_marks(s: Seq<Tile>) -> Seq<Tile> {
    Seq::new(s.len(), |i: int| future_tile(s[i]))
}

/// The effects emitted while applying marks among the first `n` tiles: one
/// upward effect per marked tile, in index order, carrying the value the
/// tile had before stepping.
pub open spec fn mark_effects_upto(s: Seq<Tile>, n: int) -> Seq<Effect>
    decreases n,
{
    if n <= 0 {
        Seq::empty()
    } else {
        mark_effects_upto(s, n - 1) + if spec_is_marked(s[n - 1]) {
            seq![Effect { index: (n - 1) as usize, direction: Direction::MinusY, value: s[n - 1].number }]
        } else {
            Seq::empty()
        }
    }
}

/// All effects emitted while applying pending marks.
pub open spec fn mark_effects(s: Seq<Tile>) -> Seq<Effect> {
    mark_effects_upto(s, s.len() as int)
}

// ---------------------------------------------------------------------------
// Match detection
// ---------------------------------------------------------------------------

/// Whether row `r` (indices `3r, 3r+1, 3r+2`) holds three equal nonzero
/// values.
pub open spec fn row_matched(s: Seq<Tile>, r: int) -> bool {
    &&& s[3 * r].number == s[3 * r + 1].number
    &&& s[3 * r].number == s[3 * r + 2].number
    &&& s[3 * r].number != 0
}

/// Whether column `c` (indices `c, c+3, c+6`) holds three equal nonzero
/// values.
pub open spec fn col_matched(s: Seq<Tile>, c: int) -> bool {
    &&& s[c].number == s[c + 3].number
    &&& s[c].number == s[c + 6].number
    &&& s[c].number != 0
}

/// Whether cell `i` belongs to a matched row or a matched column. Matching
/// reads values only: the enabled flag plays no part.
pub open spec fn cell_matched(s: Seq<Tile>, i: int) -> bool {
    row_matched(s, i / 3) || col_matched(s, i % 3)
}

// ---------------------------------------------------------------------------
// One cascade round
// ---------------------------------------------------------------------------

/// Cell `i` after one round: a matched cell is re-enabled and its value drops
/// by exactly one (no wrap — a 1 becomes 0, and a cell reaching 0 loses any
/// mark); an unmatched cell is untouched.
pub open spec fn round_tile(s: Seq<Tile>, i: int) -> Tile {
    if cell_matched(s, i) {
        Tile {
            number: (s[i].number - 1) as u8,
            state: if s[i].number - 1 == 0 {
                TileState::Normal
            } else {
                s[i].state
            },
            disabled: false,
        }
    } else {
        s[i]
    }
}

/// The whole board after one cascade round.
pub open spec fn apply_round(s: Seq<Tile>) -> Seq<Tile> {
    Seq::new(s.len(), |i: int| round_tile(s, i))
}

/// The effects of one round among the first `n` cells: one effect per
/// matched cell, in index order, in the round's direction, carrying the
/// value the cell had at the start of the round.
pub open spec fn round_effects_upto(s: Seq<Tile>, d: Direction, n: int) -> Seq<Effect>
    decreases n,
{
    if n <= 0 {
        Seq::empty()
    } else {
        round_effects_upto(s, d, n - 1) + if cell_matched(s, n - 1) {
            seq![Effect { index: (n - 1) as usize, direction: d, value: s[n - 1].number }]
        } else {
            Seq::empty()
        }
    }
}

/// All effects of one round over the board.
pub open spec fn round_effects(s: Seq<Tile>, d: Direction) -> Seq<Effect> {
    round_effects_upto(s, d, s.len() as int)
}

/// The direction assigned to cascade round `r`: `+x, +y, -x, -y` for rounds
/// 0 to 3.
pub open spec fn dir_of_round(r: int) -> Direction {
    if r == 0 {
        Direction::PlusX
    } else if r == 1 {
        Direction::PlusY
    } else if r == 2 {
        Direction::MinusX
    } else {
        Direction::MinusY
    }
}

// ---------------------------------------------------------------------------
// The full cascade and resolution
// ---------------------------------------------------------------------------

/// The board after `rounds` cascade rounds. Rounds compound: each one reads
/// the board state the previous one left.
pub open spec fn cascade_tiles(s: Seq<Tile>, rounds: int) -> Seq<Tile>
    decreases rounds,
{
    if rounds <= 0 {
        s
    } else {
        apply_round(cascade_tiles(s, rounds - 1))
    }
}

/// The effects of `rounds` cascade rounds, grouped by round in round order.
pub open spec fn cascade_effects(s: Seq<Tile>, rounds: int) -> Seq<Effect>
    decreases rounds,
{
    if rounds <= 0 {
        Seq::empty()
    } else {
        cascade_effects(s, rounds - 1) + round_effects(
            cascade_tiles(s, rounds - 1),
            dir_of_round(rounds - 1),
        )
    }
}

/// The board a resolution leaves behind: pending marks applied, then — only
/// if the board did not already clear — exactly four cascade rounds.
pub open spec fn resolve_tiles(s: Seq<Tile>) -> Seq<Tile> {
    let s1 = apply_marks(s);
    if board_sum(s1) == 0 {
        s1
    } else {
        cascade_tiles(s1, 4)
    }
}

/// The ordered effect sequence a resolution emits: all mark effects first,
/// then — unless the board cleared immediately — the four rounds' effects in
/// round order.
pub open spec fn resolve_effects(s: Seq<Tile>) -> Seq<Effect> {
    let s1 = apply_marks(s);
    if board_sum(s1) == 0 {
        mark_effects(s)
    } else {
        mark_effects(s) + cascade_effects(s1, 4)
    }
}

/// The verdict of a resolution: `Win` exactly when the board it leaves
/// behind sums to zero.
pub open spec fn resolve_verdict(s: Seq<Tile>) -> GameState {
    if board_sum(resolve_tiles(s)) == 0 {
        GameState::Win
    } else {
        GameState::Lost
    }
}

// ---------------------------------------------------------------------------
// The gated mark request
// ---------------------------------------------------------------------------

/// The tiles after a mark request: out-of-range indices and inert (disabled
/// or cleared) tiles change nothing; marking an unmarked tile needs budget;
/// re-requesting the held mark takes it back; requesting the other mark
/// replaces it.
pub open spec fn request_mark_tiles(s: Seq<Tile>, rem: u32, index: int, kind: TileState) -> Seq<
    Tile,
> {
    if !(0 <= index < s.len()) {
        s
    } else {
        let t = s[index];
        if t.disabled || t.number == 0 {
            s
        } else if t.state == TileState::Normal {
            if rem > 0 {
                s.update(index, Tile { state: kind, ..t })
            } else {
                s
            }
        } else if t.state == kind {
            s.update(index, Tile { state: TileState::Normal, ..t })
        } else {
            s.update(index, Tile { state: kind, ..t })
        }
    }
}

/// The budget after a mark request: down one for a newly placed mark, up one
/// for a mark taken back, unchanged otherwise.
pub open spec fn request_mark_remaining(s: Seq<Tile>, rem: u32, index: int, kind: TileState) -> int {
    if !(0 <= index < s.len()) {
        rem as int
    } else {
        let t = s[index];
        if t.disabled || t.number == 0 {
            rem as int
        } else if t.state == TileState::Normal {
            if rem > 0 {
                rem - 1
            } else {
                rem as int
            }
        } else if t.state == kind {
            rem + 1
        } else {
            rem as int
        }
    }
}

// ---------------------------------------------------------------------------
// Reset from a level
// ---------------------------------------------------------------------------

/// The tile a level slot produces: the slot's value and enabled flag, and
/// the slot's initial mark where the tile can carry one (nonzero value,
/// enabled), `Normal` otherwise.
pub open spec fn reset_tile(value: u8, enabled: bool, mark: TileState) -> Tile {
    Tile {
        number: value,
        state: if value > 0 && enabled {
            mark
        } else {
            TileState::Normal
        },
        disabled: !enabled,
    }
}

/// The whole board a level produces.
pub open spec fn reset_tiles(level: Level) -> Seq<Tile> {
    Seq::new(9, |i: int| reset_tile(level.values@[i], level.states@[i], level.flagged@[i]))
}

// ---------------------------------------------------------------------------
// Lemmas about the counters
// ---------------------------------------------------------------------------

/// The marked-tile count over a prefix is between 0 and the prefix length,
/// and grows with the prefix.
pub proof fn lemma_marked_upto_bounds(s: Seq<Tile>, n: int)
    ensures
        0 <= marked_upto(s, n),
        marked_upto(s, n) <= if n <= 0 {
            0int
        } else {
            n
        },
    decreases n,
{
    if n > 0 {
        lemma_marked_upto_bounds(s, n - 1);
    }
}

/// Monotonicity of the marked-tile count in the prefix length.
pub proof fn lemma_marked_upto_mono(s: Seq<Tile>, n: int, m: int)
    requires
        n <= m,
    ensures
        marked_upto(s, n) <= marked_upto(s, m),
    decreases m - n,
{
    if n < m {
        lemma_marked_upto_mono(s, n, m - 1);
    }
}

/// A marked tile below the prefix bound contributes at least one to the
/// count.
pub proof fn lemma_marked_upto_at_least_one(s: Seq<Tile>, i: int, n: int)
    requires
        0 <= i < n,
        spec_is_marked(s[i]),
    ensures
        marked_upto(s, n) >= 1,
    decreases n,
{
    lemma_marked_upto_bounds(s, i);
    lemma_marked_upto_mono(s, i + 1, n);
}

/// Updating one tile moves the marked count by the difference the update
/// makes at that slot.
pub proof fn lemma_marked_upto_update(s: Seq<Tile>, i: int, t: Tile, n: int)
    requires
        0 <= i < s.len(),
        n <= s.len(),
    ensures
        marked_upto(s.update(i, t), n) == marked_upto(s, n) + if i < n {
            (if spec_is_marked(t) {
                1int
            } else {
                0int
            }) - (if spec_is_marked(s[i]) {
                1int
            } else {
                0int
            })
        } else {
            0int
        },
    decreases n,
{
    if n > 0 {
        lemma_marked_upto_update(s, i, t, n - 1);
    }
}

/// A board with no marked tile among its first `n` counts zero.
pub proof fn lemma_marked_upto_zero(s: Seq<Tile>, n: int)
    requires
        forall|j: int| 0 <= j < n ==> !spec_is_marked(#[trigger] s[j]),
    ensures
        marked_upto(s, n) == 0,
    decreases n,
{
    if n > 0 {
        lemma_marked_upto_zero(s, n - 1);
    }
}

/// A matched cell holds a nonzero value: matching demands a nonzero triple,
/// and the cell is one of the three.
pub proof fn lemma_matched_nonzero(s: Seq<Tile>, i: int)
    requires
        s.len() == 9,
        0 <= i < 9,
        cell_matched(s, i),
    ensures
        s[i].number != 0,
{
    if row_matched(s, i / 3) {
        assert(i == 3 * (i / 3) + i % 3);
    } else {
        assert(i == (i % 3) + 3 * (i / 3));
    }
}

/// Applying pending marks leaves nine unmarked tiles with in-range values.
pub proof fn lemma_apply_marks_props(s: Seq<Tile>)
    requires
        s.len() == 9,
        forall|i: int| 0 <= i < 9 ==> tile_wf(#[trigger] s[i]),
    ensures
        apply_marks(s).len() == 9,
        forall|i: int|
            0 <= i < 9 ==> (#[trigger] apply_marks(s)[i]).number <= 4 && apply_marks(s)[i].state
                == TileState::Normal,
{
    assert forall|i: int|
        0 <= i < 9 implies (#[trigger] apply_marks(s)[i]).number <= 4 && apply_marks(s)[i].state
        == TileState::Normal by {
        assert(tile_wf(s[i]));
    }
}

/// Any number of cascade rounds preserves the board shape: nine unmarked
/// tiles with in-range values.
pub proof fn lemma_cascade_props(s: Seq<Tile>, rounds: int)
    requires
        s.len() == 9,
        forall|i: int|
            0 <= i < 9 ==> (#[trigger] s[i]).number <= 4 && s[i].state == TileState::Normal,
    ensures
        cascade_tiles(s, rounds).len() == 9,
        forall|i: int|
            0 <= i < 9 ==> (#[trigger] cascade_tiles(s, rounds)[i]).number <= 4 && cascade_tiles(
                s,
                rounds,
            )[i].state == TileState::Normal,
    decreases rounds,
{
    if rounds > 0 {
        lemma_cascade_props(s, rounds - 1);
    }
}

// ---------------------------------------------------------------------------
// Laws of the resolution algorithm
// ---------------------------------------------------------------------------

/// Budget conservation: one mark request never changes the sum of the
/// remaining budget and the number of marked tiles, and the budget itself
/// can never go negative (it is an unsigned count). Since every request
/// preserves the sum, any sequence of requests on a fixed board does too.
pub proof fn lemma_budget_conservation(s: Seq<Tile>, rem: u32, index: int, kind: TileState)
    requires
        s.len() == 9,
        forall|i: int| 0 <= i < 9 ==> tile_wf(#[trigger] s[i]),
        kind != TileState::Normal,
    ensures
        request_mark_remaining(s, rem, index, kind) + marked_count(
            request_mark_tiles(s, rem, index, kind),
        ) == rem + marked_count(s),
        request_mark_remaining(s, rem, index, kind) >= 0,
{
    if 0 <= index < 9 {
        let t = s[index];
        if !t.disabled && t.number > 0 {
            if t.state == TileState::Normal {
                if rem > 0 {
                    lemma_marked_upto_update(s, index, Tile { state: kind, ..t }, 9);
                }
            } else if t.state == kind {
                lemma_marked_upto_update(s, index, Tile { state: TileState::Normal, ..t }, 9);
            } else {
                lemma_marked_upto_update(s, index, Tile { state: kind, ..t }, 9);
            }
        }
    }
}

/// Deterministic cascade: resolution is a pure function of the board, so
/// equal boards yield the same final tiles, the same effect sequence, and
/// the same verdict. No hidden randomness takes part in match resolution.
pub proof fn lemma_resolve_deterministic(a: Seq<Tile>, b: Seq<Tile>)
    requires
        a == b,
    ensures
        resolve_tiles(a) == resolve_tiles(b),
        resolve_effects(a) == resolve_effects(b),
        resolve_verdict(a) == resolve_verdict(b),
{
}

/// Row/column-only matching: a cell in no matched row and no matched column
/// survives a round untouched. In particular a diagonal triple of equal
/// nonzero values (say indices 0, 4, 8) is never eliminated on its own
/// account: diagonals take no part in match detection.
pub proof fn lemma_row_column_only(s: Seq<Tile>, i: int)
    requires
        s.len() == 9,
        0 <= i < 9,
        !row_matched(s, i / 3),
        !col_matched(s, i % 3),
    ensures
        apply_round(s)[i] == s[i],
{
}

/// Immediate win shortcut: a board that sums to zero once the pending marks
/// are applied wins at once, and only the mark effects are emitted — no
/// cascade round runs.
pub proof fn lemma_immediate_win(s: Seq<Tile>)
    requires
        board_sum(apply_marks(s)) == 0,
    ensures
        resolve_verdict(s) == GameState::Win,
        resolve_effects(s) == mark_effects(s),
        resolve_tiles(s) == apply_marks(s),
{
}

/// No round-effect is emitted over a matchless prefix.
proof fn lemma_round_effects_upto_empty(s: Seq<Tile>, d: Direction, n: int)
    requires
        forall|i: int| 0 <= i < n ==> !cell_matched(s, i),
    ensures
        round_effects_upto(s, d, n) == Seq::<Effect>::empty(),
    decreases n,
{
    if n > 0 {
        lemma_round_effects_upto_empty(s, d, n - 1);
        assert(round_effects_upto(s, d, n) =~= Seq::<Effect>::empty());
    }
}

/// Round count: a round that finds no match changes nothing and emits
/// nothing — yet it is still counted; the cascade always performs its four
/// rounds, matchless rounds included.
pub proof fn lemma_noop_round(s: Seq<Tile>, d: Direction)
    requires
        s.len() == 9,
        forall|i: int| 0 <= i < 9 ==> !cell_matched(s, i),
    ensures
        apply_round(s) == s,
        round_effects(s, d) == Seq::<Effect>::empty(),
{
    assert(apply_round(s) =~= s);
    lemma_round_effects_upto_empty(s, d, 9);
}

/// Reset isolation: the board a reset builds depends on the level's cell
/// data alone — nothing of the board that stood before survives, so two
/// resets from the same data coincide however the boards differed.
pub proof fn lemma_reset_isolation(a: Level, b: Level)
    requires
        a.values@ == b.values@,
        a.states@ == b.states@,
        a.flagged@ == b.flagged@,
    ensures
        reset_tiles(a) == reset_tiles(b),
{
    assert(reset_tiles(a) =~= reset_tiles(b));
}

// ---------------------------------------------------------------------------
// The board
// ---------------------------------------------------------------------------

/// The 3x3 board: nine tiles in row-major order, and the action budget for
/// the current level attempt.
#[derive(Debug)]
pub struct Tilemanager {
    pub tiles: Vec<Tile>,
    pub budget: ActionBudget,
}

impl Tilemanager {
    /// Well-formedness: exactly nine well-formed tiles, and enough headroom
    /// that refunding every outstanding mark cannot overflow the budget.
    pub open spec fn wf(self) -> bool {
        &&& self.tiles@.len() == 9
        &&& forall|i: int| 0 <= i < 9 ==> tile_wf(#[trigger] self.tiles@[i])
        &&& self.budget.remaining + marked_count(self.tiles@) <= u32::MAX
    }

    /// An empty board: nine cleared, enabled, unmarked tiles and no budget.
    pub fn new() -> (m: Tilemanager)
        ensures
            m.wf(),
            m.tiles@.len() == 9,
            forall|i: int| 0 <= i < 9 ==> #[trigger] m.tiles@[i] == (Tile {
                number: 0u8,
                state: TileState::Normal,
                disabled: false,
            }),
            m.budget.remaining == 0,
    {
        let mut tiles: Vec<Tile> = Vec::new();
        let mut i: usize = 0;
        while i < 9
            invariant
                i <= 9,
                tiles@.len() == i,
                forall|j: int| 0 <= j < i ==> #[trigger] tiles@[j] == (Tile {
                    number: 0u8,
                    state: TileState::Normal,
                    disabled: false,
                }),
            decreases 9 - i,
        {
            tiles.push(Tile::new(0));
            i += 1;
        }
        let m = Tilemanager { tiles, budget: ActionBudget::new(0) };
        proof {
            lemma_marked_upto_zero(m.tiles@, 9);
        }
        m
    }

    /// Overwrites every tile from the level — value, enabled flag, initial
    /// mark (forced to `Normal` on inert slots) — and resets the budget to
    /// the level's move allowance. No state survives from before: the result
    /// is a function of the level alone.
    pub fn reset(&mut self, level: &Level)
        requires
            level.wf(),
        ensures
            final(self).wf(),
            final(self).tiles@ == reset_tiles(*level),
            final(self).budget.remaining == level.moves,
    {
        let mut tiles: Vec<Tile> = Vec::new();
        let mut i: usize = 0;
        while i < 9
            invariant
                i <= 9,
                level.wf(),
                tiles@.len() == i,
                forall|j: int| 0 <= j < i ==> #[trigger] tiles@[j] == reset_tile(
                    level.values@[j],
                    level.states@[j],
                    level.flagged@[j],
                ),
                forall|j: int| 0 <= j < i ==> tile_wf(#[trigger] tiles@[j]),
            decreases 9 - i,
        {
            let mut t = Tile::new(level.values[i]);
            t.set_enabled(level.states[i]);
            t.mark(level.flagged[i]);
            tiles.push(t);
            i += 1;
        }
        self.tiles = tiles;
        self.budget = ActionBudget::new(level.moves as u32);
        proof {
            assert(self.tiles@ =~= reset_tiles(*level));
            lemma_marked_upto_bounds(self.tiles@, 9);
        }
    }

    /// Match detection over the current values: `mask[i]` says whether cell
    /// `i` lies in a row or column of three equal nonzero values.
    fn after_work(&self) -> (mask: Vec<bool>)
        requires
            self.tiles@.len() == 9,
        ensures
            mask@.len() == 9,
            forall|k: int| 0 <= k < 9 ==> #[trigger] mask@[k] == cell_matched(self.tiles@, k),
    {
        let n0 = self.tiles[0].number;
        let n1 = self.tiles[1].number;
        let n2 = self.tiles[2].number;
        let n3 = self.tiles[3].number;
        let n4 = self.tiles[4].number;
        let n5 = self.tiles[5].number;
        let n6 = self.tiles[6].number;
        let n7 = self.tiles[7].number;
        let n8 = self.tiles[8].number;
        let r0 = n0 == n1 && n0 == n2 && n0 != 0;
        let r1 = n3 == n4 && n3 == n5 && n3 != 0;
        let r2 = n6 == n7 && n6 == n8 && n6 != 0;
        let c0 = n0 == n3 && n0 == n6 && n0 != 0;
        let c1 = n1 == n4 && n1 == n7 && n1 != 0;
        let c2 = n2 == n5 && n2 == n8 && n2 != 0;
        let mut mask: Vec<bool> = Vec::new();
        mask.push(r0 || c0);
        mask.push(r0 || c1);
        mask.push(r0 || c2);
        mask.push(r1 || c0);
        mask.push(r1 || c1);
        mask.push(r1 || c2);
        mask.push(r2 || c0);
        mask.push(r2 || c1);
        mask.push(r2 || c2);
        proof {
            let s = self.tiles@;
            assert(mask@[0] == cell_matched(s, 0));
            assert(mask@[1] == cell_matched(s, 1));
            assert(mask@[2] == cell_matched(s, 2));
            assert(mask@[3] == cell_matched(s, 3));
            assert(mask@[4] == cell_matched(s, 4));
            assert(mask@[5] == cell_matched(s, 5));
            assert(mask@[6] == cell_matched(s, 6));
            assert(mask@[7] == cell_matched(s, 7));
            assert(mask@[8] == cell_matched(s, 8));
        }
        mask
    }

    /// The gated mark toggle (spec: `request_mark_tiles` /
    /// `request_mark_remaining`). An out-of-range index or an inert tile is
    /// a silent no-op. On an unmarked tile the requested mark is placed only
    /// while budget remains, spending one slot; re-requesting the held mark
    /// takes it back and refunds the slot; requesting the other mark
    /// replaces it at no cost. The sum of the budget and the number of
    /// marked tiles is invariant across every call.
    pub fn request_mark(&mut self, index: usize, kind: TileState)
        requires
            old(self).wf(),
            kind != TileState::Normal,
        ensures
            final(self).wf(),
            final(self).tiles@ == request_mark_tiles(
                old(self).tiles@,
                old(self).budget.remaining,
                index as int,
                kind,
            ),
            final(self).budget.remaining == request_mark_remaining(
                old(self).tiles@,
                old(self).budget.remaining,
                index as int,
                kind,
            ),
            final(self).budget.remaining + marked_count(final(self).tiles@) == old(
                self,
            ).budget.remaining + marked_count(old(self).tiles@),
    {
        let ghost s0 = self.tiles@;
        if index < 9 {
            let t = self.tiles[index];
            if !t.disabled && t.number > 0 {
                if t.state == TileState::Normal {
                    if self.budget.has_remaining() {
                        let mut t2 = t;
                        t2.mark(kind);
                        self.tiles[index] = t2;
                        self.budget.spend();
                        proof {
                            lemma_marked_upto_update(s0, index as int, t2, 9);
                        }
                    }
                } else if t.state == kind {
                    let mut t2 = t;
                    t2.mark(TileState::Normal);
                    self.tiles[index] = t2;
                    proof {
                        lemma_marked_upto_at_least_one(s0, index as int, 9);
                        lemma_marked_upto_update(s0, index as int, t2, 9);
                    }
                    self.budget.refund();
                } else {
                    let mut t2 = t;
                    t2.mark(kind);
                    self.tiles[index] = t2;
                    proof {
                        lemma_marked_upto_update(s0, index as int, t2, 9);
                    }
                }
            }
        }
    }

    /// Sum of all nine values.
    fn sum_numbers(&self) -> (sum: u32)
        requires
            self.tiles@.len() == 9,
            forall|i: int| 0 <= i < 9 ==> (#[trigger] self.tiles@[i]).number <= 4,
        ensures
            sum == board_sum(self.tiles@),
    {
        let mut sum: u32 = 0;
        let mut i: usize = 0;
        while i < 9
            invariant
                i <= 9,
                self.tiles@.len() == 9,
                forall|j: int| 0 <= j < 9 ==> (#[trigger] self.tiles@[j]).number <= 4,
                sum == sum_upto(self.tiles@, i as int),
                sum <= 4 * i,
            decreases 9 - i,
        {
            sum = sum + self.tiles[i].number as u32;
            i += 1;
        }
        sum
    }

    /// The direction of cascade round `r`.
    fn round_direction(r: usize) -> (d: Direction)
        requires
            r < 4,
        ensures
            d == dir_of_round(r as int),
    {
        if r == 0 {
            Direction::PlusX
        } else if r == 1 {
            Direction::PlusY
        } else if r == 2 {
            Direction::MinusX
        } else {
            Direction::MinusY
        }
    }

    /// Runs one resolution (spec: `resolve_tiles`, `resolve_effects`,
    /// `resolve_verdict`). In order: every pending mark is applied (wrapping
    /// its value, re-enabling the tile, refunding its budget slot, and
    /// emitting one upward effect with the value before stepping); if the
    /// board then sums to zero the verdict is an immediate `Win` with no
    /// cascade; otherwise exactly four cascade rounds run — match, emit in
    /// the round's direction, decrement by one — whether or not any round
    /// finds a match, and the verdict is `Win` exactly when the final sum is
    /// zero.
    pub fn resolve(&mut self) -> (r: (GameState, Vec<Effect>))
        requires
            old(self).wf(),
        ensures
            final(self).wf(),
            final(self).tiles@ == resolve_tiles(old(self).tiles@),
            r.1@ == resolve_effects(old(self).tiles@),
            r.0 == resolve_verdict(old(self).tiles@),
            final(self).budget.remaining == old(self).budget.remaining + marked_count(
                old(self).tiles@,
            ),
            marked_count(final(self).tiles@) == 0,
    {
        let ghost s0 = self.tiles@;
        let ghost rem0 = self.budget.remaining;
        let mut effects: Vec<Effect> = Vec::new();

        // Step 1: apply pending marks, refund their budget slots, emit
        // upward effects carrying the pre-step values.
        let mut i: usize = 0;
        while i < 9
            invariant
                i <= 9,
                s0.len() == 9,
                forall|j: int| 0 <= j < 9 ==> tile_wf(#[trigger] s0[j]),
                rem0 + marked_count(s0) <= u32::MAX,
                self.tiles@.len() == 9,
                forall|j: int| 0 <= j < i ==> #[trigger] self.tiles@[j] == future_tile(s0[j]),
                forall|j: int| i <= j < 9 ==> #[trigger] self.tiles@[j] == s0[j],
                self.budget.remaining == rem0 + marked_upto(s0, i as int),
                effects@ == mark_effects_upto(s0, i as int),
            decreases 9 - i,
        {
            let t = self.tiles[i];
            if t.is_marked() {
                proof {
                    lemma_marked_upto_bounds(s0, i as int);
                    lemma_marked_upto_mono(s0, i as int + 1, 9);
                }
                let mut t2 = t;
                effects.push(
                    Effect { index: i, direction: Direction::MinusY, value: t2.number },
                );
                t2.enable();
                t2.go_future();
                self.tiles[i] = t2;
                self.budget.refund();
            }
            i += 1;
        }
        proof {
            assert(self.tiles@ =~= apply_marks(s0));
            assert(effects@ == mark_effects(s0));
            lemma_apply_marks_props(s0);
        }
        let ghost s1 = self.tiles@;

        // Step 2: an immediately cleared board is a win; no cascade runs.
        let sum = self.sum_numbers();
        if sum == 0 {
            proof {
                lemma_marked_upto_zero(s1, 9);
            }
            return (GameState::Win, effects);
        }

        // Step 3: exactly four cascade rounds, counted whether or not they
        // find a match.
        let ghost rem1 = self.budget.remaining;
        let mut r: usize = 0;
        while r < 4
            invariant
                r <= 4,
                s1.len() == 9,
                forall|j: int|
                    0 <= j < 9 ==> (#[trigger] s1[j]).number <= 4 && s1[j].state
                        == TileState::Normal,
                self.tiles@ == cascade_tiles(s1, r as int),
                effects@ == mark_effects(s0) + cascade_effects(s1, r as int),
                self.budget.remaining == rem1,
            decreases 4 - r,
        {
            proof {
                lemma_cascade_props(s1, r as int);
            }
            let ghost sr = self.tiles@;
            let ghost eff0 = effects@;
            let d = Self::round_direction(r);
            let mask = self.after_work();

            // Emit this round's effects and re-enable the matched tiles.
            let mut i: usize = 0;
            while i < 9
                invariant
                    i <= 9,
                    sr.len() == 9,
                    mask@.len() == 9,
                    forall|k: int| 0 <= k < 9 ==> #[trigger] mask@[k] == cell_matched(sr, k),
                    self.tiles@.len() == 9,
                    forall|j: int|
                        0 <= j < i ==> #[trigger] self.tiles@[j] == (if cell_matched(sr, j) {
                            Tile { number: sr[j].number, state: sr[j].state, disabled: false }
                        } else {
                            sr[j]
                        }),
                    forall|j: int| i <= j < 9 ==> #[trigger] self.tiles@[j] == sr[j],
                    effects@ == eff0 + round_effects_upto(sr, d, i as int),
                    self.budget.remaining == rem1,
                decreases 9 - i,
            {
                if mask[i] {
                    let mut t = self.tiles[i];
                    effects.push(Effect { index: i, direction: d, value: t.number });
                    t.enable();
                    self.tiles[i] = t;
                }
                i += 1;
            }

            // Decrement every matched tile by exactly one.
            let mut i: usize = 0;
            while i < 9
                invariant
                    i <= 9,
                    sr.len() == 9,
                    mask@.len() == 9,
                    forall|k: int| 0 <= k < 9 ==> #[trigger] mask@[k] == cell_matched(sr, k),
                    forall|j: int|
                        0 <= j < 9 ==> (#[trigger] sr[j]).number <= 4 && sr[j].state
                            == TileState::Normal,
                    self.tiles@.len() == 9,
                    forall|j: int| 0 <= j < i ==> #[trigger] self.tiles@[j] == round_tile(sr, j),
                    forall|j: int|
                        i <= j < 9 ==> #[trigger] self.tiles@[j] == (if cell_matched(sr, j) {
                            Tile { number: sr[j].number, state: sr[j].state, disabled: false }
                        } else {
                            sr[j]
                        }),
                    self.budget.remaining == rem1,
                decreases 9 - i,
            {
                if mask[i] {
                    proof {
                        lemma_matched_nonzero(sr, i as int);
                    }
                    let mut t = self.tiles[i];
                    let n = t.number - 1;
                    t.number(n);
                    self.tiles[i] = t;
                }
                i += 1;
            }
            proof {
                assert(self.tiles@ =~= apply_round(sr));
                assert(effects@ == eff0 + round_effects(sr, d));
                assert(effects@ =~= mark_effects(s0) + cascade_effects(s1, r as int + 1));
            }
            r += 1;
        }

        // Step 4: the final verdict from the sum the cascade left behind.
        proof {
            lemma_cascade_props(s1, 4);
            lemma_marked_upto_zero(self.tiles@, 9);
        }
        let sum = self.sum_numbers();
        if sum == 0 {
            (GameState::Win, effects)
        } else {
            (GameState::Lost, effects)
        }
    }
}

} // verus!
