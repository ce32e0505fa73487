//! A single grid slot: a numeric value in `[0, 4]`, an enabled flag, and a
//! pending mark (`Plus` / `Minus` / `Normal`).

use vstd::prelude::*;

use crate::assets::AnimationName;
use crate::assets::TextureName;

verus! {

/// Largest numeric value a tile can hold; increments wrap from here back to 1.
pub const MAXNUMBER: u8 = 4;

/// The mark state of a tile. `Plus` and `Minus` are pending requests to
/// increment or decrement the value at the next resolution; `Normal` is the
/// rest state.
#[derive(Debug, Clone, Copy, PartialEq, Eq, Hash, Structural)]
pub enum TileState {
    Normal,
    Minus,
    Plus,
}

/// One cell of the 3x3 board.
///
/// Invariant (see [`Tile::wf`]): the value stays in `[0, 4]`, and a tile may
/// hold a mark only while its value is nonzero and it is enabled.
#[derive(Debug, Clone, Copy, PartialEq, Eq, Structural)]
pub struct Tile {
    pub number: u8,
    pub state: TileState,
    pub disabled: bool,
}

/// A tile counts as marked when it holds either mark kind.
pub open spec fn spec_is_marked(t: Tile) -> bool {
    t.state == TileState::Plus || t.state == TileState::Minus
}

/// Well-formedness of a single tile: value in range, and marks only on
/// enabled, nonzero tiles.
pub open spec fn tile_wf(t: Tile) -> bool {
    &&& t.number <= MAXNUMBER
    &&& (t.state != TileState::Normal ==> t.number > 0 && !t.disabled)
}

/// The wrap-around increment over the value domain: `1,2,3,4,1,2,...`.
/// A cleared tile (value 0) steps to 1.
pub open spec fn plus_value(n: u8) -> u8 {
    if n < MAXNUMBER {
        (n + 1) as u8
    } else {
        1u8
    }
}

/// The wrap-around decrement over the value domain: `4,3,2,1,4,3,...`.
/// A cleared tile (value 0) steps to 4.
pub open spec fn minus_value(n: u8) -> u8 {
    if n > 1 {
        (n - 1) as u8
    } else {
        MAXNUMBER
    }
}

/// The tile left behind once its pending mark has been applied: the value
/// steps by the mark's direction, the mark is cleared, and the tile is
/// re-enabled. An unmarked tile is left untouched.
pub open spec fn future_tile(t: Tile) -> Tile {
    match t.state {
        TileState::Plus => Tile { number: plus_value(t.number), state: TileState::Normal, disabled: false },
        TileState::Minus => Tile { number: minus_value(t.number), state: TileState::Normal, disabled: false },
        TileState::Normal => t,
    }
}

/// Wrap-around law: `Plus` on a value of 4 yields 1 and `Minus` on a value
/// of 1 yields 4, and on every in-range value both steps land strictly
/// within `[1, 4]` — a mark application never produces 0; only the cascade
/// can clear a tile.
pub proof fn lemma_wrap_around(n: u8)
    requires
        n <= MAXNUMBER,
    ensures
        plus_value(4) == 1,
        minus_value(1) == 4,
        1 <= plus_value(n) <= MAXNUMBER,
        1 <= minus_value(n) <= MAXNUMBER,
{
}

/// The texture the presentation layer should draw for a tile: one picture
/// per value, in an "on" or "off" variant by the enabled flag. Out-of-range
/// values fall back to the picture for 1.
pub open spec fn texture_for_tile(t: Tile) -> TextureName {
    if t.number == 0 {
        if t.disabled { TextureName::Pic0Off } else { TextureName::Pic0On }
    } else if t.number == 1 {
        if t.disabled { TextureName::Pic1Off } else { TextureName::Pic1On }
    } else if t.number == 2 {
        if t.disabled { TextureName::Pic2Off } else { TextureName::Pic2On }
    } else if t.number == 3 {
        if t.disabled { TextureName::Pic3Off } else { TextureName::Pic3On }
    } else if t.number == 4 {
        if t.disabled { TextureName::Pic4Off } else { TextureName::Pic4On }
    } else {
        if t.disabled { TextureName::Pic1Off } else { TextureName::Pic1On }
    }
}

/// The overlay animation for a tile's pending mark, if it holds one.
pub open spec fn animation_for_tile(t: Tile) -> Option<AnimationName> {
    match t.state {
        TileState::Plus => Some(AnimationName::Plus),
        TileState::Minus => Some(AnimationName::Minus),
        TileState::Normal => None,
    }
}

impl Tile {
    /// A fresh, enabled, unmarked tile holding the given value.
    pub fn new(number: u8) -> (t: Tile)
        requires
            number <= MAXNUMBER,
        ensures
            t == (Tile { number, state: TileState::Normal, disabled: false }),
            tile_wf(t),
    {
        Tile { number, state: TileState::Normal, disabled: false }
    }

    /// Overwrites the value. A tile whose value becomes 0 is forced back to
    /// the `Normal` mark state.
    pub fn number(&mut self, number: u8)
        requires
            number <= MAXNUMBER,
            tile_wf(*old(self)),
        ensures
            final(self).number == number,
            final(self).disabled == old(self).disabled,
            final(self).state == (if number == 0 { TileState::Normal } else { old(self).state }),
            tile_wf(*final(self)),
    {
        self.number = number;
        if number == 0 {
            self.state = TileState::Normal;
        }
    }

    /// The wrap-around decrement: values above 1 step down by one, and a
    /// value of 1 (or a cleared tile) wraps to 4. Clears any pending mark.
    pub fn subtract(&mut self)
        ensures
            final(self).number == minus_value(old(self).number),
            final(self).state == TileState::Normal,
            final(self).disabled == old(self).disabled,
    {
        self.state = TileState::Normal;
        if self.number > 1 {
            self.number -= 1;
        } else {
            self.number = MAXNUMBER;
        }
    }

    /// The wrap-around increment: values below 4 step up by one, and a value
    /// of 4 wraps to 1. Clears any pending mark.
    pub fn add_up(&mut self)
        requires
            old(self).number <= MAXNUMBER,
        ensures
            final(self).number == plus_value(old(self).number),
            final(self).state == TileState::Normal,
            final(self).disabled == old(self).disabled,
    {
        self.state = TileState::Normal;
        if self.number < MAXNUMBER {
            self.number += 1;
        } else {
            self.number = 1;
        }
    }

    /// Whether the tile holds a pending mark of either kind.
    pub fn is_marked(&self) -> (r: bool)
        ensures
            r == spec_is_marked(*self),
    {
        self.state == TileState::Plus || self.state == TileState::Minus
    }

    /// Applies the pending mark, if any: `Plus` increments, `Minus`
    /// decrements (both wrap-around), and the mark is cleared. An unmarked
    /// tile is left untouched.
    pub fn go_future(&mut self)
        requires
            old(self).number <= MAXNUMBER,
        ensures
            final(self).number == future_tile(*old(self)).number,
            final(self).state == future_tile(*old(self)).state,
            final(self).disabled == old(self).disabled,
    {
        match self.state {
            TileState::Plus => self.add_up(),
            TileState::Minus => self.subtract(),
            _ => (),
        }
    }

    /// Sets the enabled flag; disabling forces the mark back to `Normal`.
    pub fn set_enabled(&mut self, enabled: bool)
        ensures
            final(self).disabled == !enabled,
            final(self).number == old(self).number,
            final(self).state == (if enabled { old(self).state } else { TileState::Normal }),
    {
        if enabled {
            self.enable()
        } else {
            self.disable()
        }
    }

    /// Disables the tile for interaction. A tile whose enabled flag is
    /// withdrawn cannot keep a pending mark, so the mark is forced to
    /// `Normal`.
    pub fn disable(&mut self)
        ensures
            final(self).disabled,
            final(self).number == old(self).number,
            final(self).state == TileState::Normal,
    {
        self.disabled = true;
        self.state = TileState::Normal;
    }

    /// Enables the tile for interaction.
    pub fn enable(&mut self)
        ensures
            final(self).disabled == false,
            final(self).number == old(self).number,
            final(self).state == old(self).state,
    {
        self.disabled = false;
    }

    /// Places the given mark on the tile, provided the tile can carry one: it
    /// must be enabled and hold a nonzero value. On an inert tile the mark is
    /// forced to `Normal` instead.
    pub fn mark(&mut self, state: TileState)
        requires
            tile_wf(*old(self)),
        ensures
            final(self).number == old(self).number,
            final(self).disabled == old(self).disabled,
            final(self).state == (if old(self).number > 0 && !old(self).disabled { state } else { TileState::Normal }),
            tile_wf(*final(self)),
    {
        if self.number > 0 && !self.disabled {
            self.state = state;
        } else {
            self.state = TileState::Normal;
        }
    }

    /// The overlay animation for the pending mark, if any.
    pub fn get_animation_name(&self) -> (r: Option<AnimationName>)
        ensures
            r == animation_for_tile(*self),
    {
        match self.state {
            TileState::Plus => Some(AnimationName::Plus),
            TileState::Minus => Some(AnimationName::Minus),
            _ => None,
        }
    }

    /// The texture to draw for this tile's value and enabled flag.
    pub fn get_texture_name(&self) -> (r: TextureName)
        ensures
            r == texture_for_tile(*self),
    {
        match self.number {
            0 => {
                if self.disabled {
                    TextureName::Pic0Off
                } else {
                    TextureName::Pic0On
                }
            },
            1 => {
                if self.disabled {
                    TextureName::Pic1Off
                } else {
                    TextureName::Pic1On
                }
            },
            2 => {
                if self.disabled {
                    TextureName::Pic2Off
                } else {
                    TextureName::Pic2On
                }
            },
            3 => {
                if self.disabled {
                    TextureName::Pic3Off
                } else {
                    TextureName::Pic3On
                }
            },
            4 => {
                if self.disabled {
                    TextureName::Pic4Off
                } else {
                    TextureName::Pic4On
                }
            },
            _ => {
                if self.disabled {
                    TextureName::Pic1Off
                } else {
                    TextureName::Pic1On
                }
            },
        }
    }
}

} // verus!
