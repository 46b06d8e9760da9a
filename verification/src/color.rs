//! Piece / player color.

use vstd::prelude::*;

verus! {

#[derive(Copy, Clone, PartialEq, Eq, Structural, Debug, Hash)]
pub enum Color {
    White,
    Black,
}

impl Color {
    /// The other color.
    pub open spec fn spec_other(self) -> Color {
        if self == Color::White {
            Color::Black
        } else {
            Color::White
        }
    }

    pub open spec fn str_spec(self) -> Seq<char> {
        match self {
            Color::White => "White"@,
            Color::Black => "Black"@,
        }
    }

    pub fn to_string(self) -> (res: String)
        ensures
            res@ == self.str_spec(),
    {
        match self {
            Color::White => "White".to_owned(),
            Color::Black => "Black".to_owned(),
        }
    }
}

} // verus!
