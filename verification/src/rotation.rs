//! Display rotation: the four orientations, their display-server argument
//! form, and their numeric encoding.

use crate::strutil::{lower_of, str_eq, to_lowercase};
use vstd::prelude::*;

verus! {

/// Display rotation options.
#[derive(Debug, Clone, Copy, PartialEq, Eq, Structural)]
pub enum Rotation {
    Normal,
    Left,
    Right,
    Inverted,
}

impl Default for Rotation {
    /// The unrotated orientation.
    fn default() -> (r: Self)
        ensures
            r == Rotation::Normal,
    {
        Rotation::Normal
    }
}

/// The display-server argument of a rotation.
pub open spec fn spec_rotation_arg(r: Rotation) -> Seq<char> {
    match r {
        Rotation::Normal => "normal"@,
        Rotation::Left => "left"@,
        Rotation::Right => "right"@,
        Rotation::Inverted => "inverted"@,
    }
}

/// The rotation a lowercased word names; anything unknown is the unrotated
/// orientation.
pub open spec fn spec_rotation_from(low: Seq<char>) -> Rotation {
    if low == "left"@ {
        Rotation::Left
    } else if low == "right"@ {
        Rotation::Right
    } else if low == "inverted"@ {
        Rotation::Inverted
    } else {
        Rotation::Normal
    }
}

impl Rotation {
    /// Convert to the display-server rotation argument.
    pub fn to_xrandr_arg(&self) -> (r: &'static str)
        ensures
            r@ == spec_rotation_arg(*self),
    {
        match self {
            Rotation::Normal => "normal",
            Rotation::Left => "left",
            Rotation::Right => "right",
            Rotation::Inverted => "inverted",
        }
    }

    /// Parse a rotation word from display-server output, case-insensitively.
    pub fn from_xrandr(s: &str) -> (r: Self)
        ensures
            r == spec_rotation_from(lower_of(s@)),
    {
        let low = to_lowercase(s);
        if str_eq(low.as_str(), "left") {
            Rotation::Left
        } else if str_eq(low.as_str(), "right") {
            Rotation::Right
        } else if str_eq(low.as_str(), "inverted") {
            Rotation::Inverted
        } else {
            Rotation::Normal
        }
    }

    /// The numeric rotation encoding of the display-configuration protocol:
    /// 1 is identity, 2 a quarter turn clockwise, 3 a half turn, 4 a quarter
    /// turn counter-clockwise.
    pub fn to_u32(&self) -> (r: u32)
        ensures
            r == (match *self {
                Rotation::Normal => 1u32,
                Rotation::Right => 2u32,
                Rotation::Inverted => 3u32,
                Rotation::Left => 4u32,
            }),
    {
        match self {
            Rotation::Normal => 1,
            Rotation::Right => 2,
            Rotation::Inverted => 3,
            Rotation::Left => 4,
        }
    }
}

} // verus!
