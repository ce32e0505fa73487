//! A two-valued enabled/disabled flag with a conversion to `bool` and an
//! inversion.

use vstd::prelude::*;

verus! {

/// Whether something is switched off (`On` means "disabling is on").
#[derive(Clone, Copy, Debug, PartialEq, Eq, Structural)]
pub enum Disabled {
    On,
    Off,
}

impl Disabled {
    /// The opposite flag.
    pub fn not(self) -> (r: Disabled)
        ensures
            r == (match self {
                Disabled::Off => Disabled::On,
                Disabled::On => Disabled::Off,
            }),
    {
        match self {
            Disabled::Off => Disabled::On,
            Disabled::On => Disabled::Off,
        }
    }
}

impl From<Disabled> for bool {
    fn from(f: Disabled) -> (r: bool) {
        match f {
            Disabled::On => true,
            Disabled::Off => false,
        }
    }
}

impl vstd::std_specs::convert::FromSpecImpl<Disabled> for bool {
    open spec fn obeys_from_spec() -> bool {
        true
    }

    open spec fn from_spec(f: Disabled) -> bool {
        match f {
            Disabled::On => true,
            Disabled::Off => false,
        }
    }
}

} // verus!
