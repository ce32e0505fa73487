//! Button kinds and states, and the pure mapping from a button's kind to the
//! art it is drawn with. Hit-testing and drawing live outside the core.

use vstd::prelude::*;

use crate::assets::AnimationName;
use crate::assets::TextureName;

verus! {

/// Interaction state of a button.
#[derive(Debug, Clone, Copy, PartialEq, Eq, Hash, Structural)]
pub enum State {
    Normal,
    Hover,
    Disabled,
}

/// What a button does: trigger a resolution, retry the level, or advance.
#[derive(Debug, Clone, Copy, PartialEq, Eq, Hash, Structural)]
pub enum ButtonType {
    Future,
    Back,
    Next,
}

/// The animation strip each button kind is drawn with while hovered.
pub open spec fn animation_of_button(b: ButtonType) -> AnimationName {
    match b {
        ButtonType::Future => AnimationName::Future,
        ButtonType::Back => AnimationName::Back,
        ButtonType::Next => AnimationName::Next,
    }
}

/// The texture each button kind is drawn with at rest.
pub open spec fn texture_of_button(b: ButtonType) -> TextureName {
    match b {
        ButtonType::Future => TextureName::Future,
        ButtonType::Back => TextureName::Back,
        ButtonType::Next => TextureName::Next,
    }
}

impl ButtonType {
    /// The animation strip for this button kind.
    pub fn animation_name(&self) -> (r: AnimationName)
        ensures
            r == animation_of_button(*self),
    {
        match self {
            ButtonType::Future => AnimationName::Future,
            ButtonType::Back => AnimationName::Back,
            ButtonType::Next => AnimationName::Next,
        }
    }

    /// The rest texture for this button kind.
    pub fn texture_name(&self) -> (r: TextureName)
        ensures
            r == texture_of_button(*self),
    {
        match self {
            ButtonType::Future => TextureName::Future,
            ButtonType::Back => TextureName::Back,
            ButtonType::Next => TextureName::Next,
        }
    }
}

} // verus!
