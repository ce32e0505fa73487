//! Names of the art assets the presentation layer draws with. The core only
//! selects names; loading and drawing happen outside.

use vstd::prelude::*;

verus! {

/// Name of a static texture.
#[derive(Debug, Clone, Copy, PartialEq, Eq, Hash, Structural)]
pub enum TextureName {
    Pic0On,
    Pic0Off,
    Pic1On,
    Pic1Off,
    Pic2On,
    Pic2Off,
    Pic3On,
    Pic3Off,
    Pic4On,
    Pic4Off,
    Black,
    Future,
    Back,
    Next,
    JamLogo,
    Logo,
    Thx,
}

/// Name of an animation strip.
#[derive(Debug, Clone, Copy, PartialEq, Eq, Hash, Structural)]
pub enum AnimationName {
    Plus,
    Minus,
    Back,
    Future,
    Next,
    Action,
    Tile43,
    Tile32,
    Tile21,
    Tile10,
    Tile14,
    Tile41,
}

/// Name of a shader.
#[derive(Debug, Clone, Copy, PartialEq, Eq, Hash, Structural)]
pub enum ShaderName {
    LevelTransition,
}

/// The texture name a string designates: the ten tile pictures by their own
/// names, anything else falling back to `Pic0On`.
pub open spec fn texture_name_of(s: Seq<char>) -> TextureName {
    if s == "Pic0On"@ {
        TextureName::Pic0On
    } else if s == "Pic0Off"@ {
        TextureName::Pic0Off
    } else if s == "Pic1On"@ {
        TextureName::Pic1On
    } else if s == "Pic1Off"@ {
        TextureName::Pic1Off
    } else if s == "Pic2On"@ {
        TextureName::Pic2On
    } else if s == "Pic2Off"@ {
        TextureName::Pic2Off
    } else if s == "Pic3On"@ {
        TextureName::Pic3On
    } else if s == "Pic3Off"@ {
        TextureName::Pic3Off
    } else if s == "Pic4On"@ {
        TextureName::Pic4On
    } else if s == "Pic4Off"@ {
        TextureName::Pic4Off
    } else {
        TextureName::Pic0On
    }
}

/// String equality by contents.
fn str_eq(a: &str, b: &str) -> (r: bool)
    ensures
        r == (a@ == b@),
{
    let sa: String = a.to_string();
    let sb: String = b.to_string();
    sa == sb
}

impl TextureName {
    /// Parses a tile-picture name; unknown strings fall back to `Pic0On`.
    pub fn from_str(s: &str) -> (r: TextureName)
        ensures
            r == texture_name_of(s@),
    {
        if str_eq(s, "Pic0On") {
            TextureName::Pic0On
        } else if str_eq(s, "Pic0Off") {
            TextureName::Pic0Off
        } else if str_eq(s, "Pic1On") {
            TextureName::Pic1On
        } else if str_eq(s, "Pic1Off") {
            TextureName::Pic1Off
        } else if str_eq(s, "Pic2On") {
            TextureName::Pic2On
        } else if str_eq(s, "Pic2Off") {
            TextureName::Pic2Off
        } else if str_eq(s, "Pic3On") {
            TextureName::Pic3On
        } else if str_eq(s, "Pic3Off") {
            TextureName::Pic3Off
        } else if str_eq(s, "Pic4On") {
            TextureName::Pic4On
        } else if str_eq(s, "Pic4Off") {
            TextureName::Pic4Off
        } else {
            TextureName::Pic0On
        }
    }
}

} // verus!
