//! Pieces: a kind, a color and movement metadata. `has_moved` is
//! rules-relevant (castling and pawn double-step eligibility); `highlight`
//! only tags squares for rendering.

use vstd::prelude::*;

use crate::color::Color;

verus! {

pub const HIGHLIGHT1: &'static str = "\x1b[48;2;200;170;0m";

pub const HIGHLIGHT2: &'static str = "\x1b[48;2;200;0;0m";

#[derive(Copy, Clone, PartialEq, Eq, Structural, Debug)]
pub enum PieceKind {
    Empty,
    Pawn,
    Knight,
    Bishop,
    Rook,
    Queen,
    King,
}

impl PieceKind {
    pub open spec fn debug_str_spec(self) -> Seq<char> {
        match self {
            PieceKind::Empty => "None"@,
            PieceKind::Pawn => "Pawn"@,
            PieceKind::Bishop => "Bishop"@,
            PieceKind::Knight => "Knight"@,
            PieceKind::Rook => "Rook"@,
            PieceKind::Queen => "Queen"@,
            PieceKind::King => "King"@,
        }
    }

    pub fn debug_string(self) -> (res: String)
        ensures
            res@ == self.debug_str_spec(),
    {
        match self {
            PieceKind::Empty => "None".to_owned(),
            PieceKind::Pawn => "Pawn".to_owned(),
            PieceKind::Bishop => "Bishop".to_owned(),
            PieceKind::Knight => "Knight".to_owned(),
            PieceKind::Rook => "Rook".to_owned(),
            PieceKind::Queen => "Queen".to_owned(),
            PieceKind::King => "King".to_owned(),
        }
    }

    /// The letter naming the kind in algebraic notation; pawns have none.
    pub open spec fn letter_spec(self) -> Seq<char> {
        match self {
            PieceKind::Empty => Seq::empty(),
            PieceKind::Pawn => Seq::empty(),
            PieceKind::Bishop => "B"@,
            PieceKind::Knight => "N"@,
            PieceKind::Rook => "R"@,
            PieceKind::Queen => "Q"@,
            PieceKind::King => "K"@,
        }
    }

    pub fn to_letter(self) -> (res: String)
        ensures
            res@ == self.letter_spec(),
    {
        match self {
            PieceKind::Empty => String::new(),
            PieceKind::Pawn => String::new(),
            PieceKind::Bishop => "B".to_owned(),
            PieceKind::Knight => "N".to_owned(),
            PieceKind::Rook => "R".to_owned(),
            PieceKind::Queen => "Q".to_owned(),
            PieceKind::King => "K".to_owned(),
        }
    }
}

#[derive(Copy, Clone, PartialEq, Eq, Structural, Debug)]
pub struct Piece {
    pub kind: PieceKind,
    pub color: Color,
    pub has_moved: bool,
    pub highlight: u8,
}

impl Piece {
    pub fn make(kind: PieceKind, color: Color, has_moved: bool, highlight: u8) -> (res: Self)
        ensures
            res == (Piece { kind, color, has_moved, highlight }),
    {
        Piece { kind, color, has_moved, highlight }
    }

    /// The terminal glyph of the piece itself, black-foreground escape included.
    pub open spec fn glyph_spec(self) -> Seq<char> {
        match (self.kind, self.color) {
            (PieceKind::Empty, _) => "  "@,
            (PieceKind::Pawn, Color::White) => "\x1b[30m\u{2659} "@,
            (PieceKind::Pawn, Color::Black) => "\x1b[30m\u{265f} "@,
            (PieceKind::Bishop, Color::White) => "\x1b[30m\u{2657} "@,
            (PieceKind::Bishop, Color::Black) => "\x1b[30m\u{265d} "@,
            (PieceKind::Knight, Color::White) => "\x1b[30m\u{2658} "@,
            (PieceKind::Knight, Color::Black) => "\x1b[30m\u{265e} "@,
            (PieceKind::Rook, Color::White) => "\x1b[30m\u{2656} "@,
            (PieceKind::Rook, Color::Black) => "\x1b[30m\u{265c} "@,
            (PieceKind::Queen, Color::White) => "\x1b[30m\u{2655} "@,
            (PieceKind::Queen, Color::Black) => "\x1b[30m\u{265b} "@,
            (PieceKind::King, Color::White) => "\x1b[30m\u{2654} "@,
            (PieceKind::King, Color::Black) => "\x1b[30m\u{265a} "@,
        }
    }

    /// The highlight escape put before the glyph, empty unless highlighted.
    pub open spec fn highlight_spec(self) -> Seq<char> {
        if self.highlight == 1 {
            HIGHLIGHT1@
        } else if self.highlight == 2 {
            HIGHLIGHT2@
        } else {
            Seq::empty()
        }
    }

    pub open spec fn str_spec(self) -> Seq<char> {
        self.highlight_spec() + self.glyph_spec()
    }

    pub fn get_string(self) -> (res: String)
        ensures
            res@ == self.str_spec(),
    {
        let mut s = String::new();
        if self.highlight == 1 {
            s.append(HIGHLIGHT1);
        } else if self.highlight == 2 {
            s.append(HIGHLIGHT2);
        }
        let glyph: &str = match (self.kind, self.color) {
            (PieceKind::Empty, _) => "  ",
            (PieceKind::Pawn, Color::White) => "\x1b[30m\u{2659} ",
            (PieceKind::Pawn, Color::Black) => "\x1b[30m\u{265f} ",
            (PieceKind::Bishop, Color::White) => "\x1b[30m\u{2657} ",
            (PieceKind::Bishop, Color::Black) => "\x1b[30m\u{265d} ",
            (PieceKind::Knight, Color::White) => "\x1b[30m\u{2658} ",
            (PieceKind::Knight, Color::Black) => "\x1b[30m\u{265e} ",
            (PieceKind::Rook, Color::White) => "\x1b[30m\u{2656} ",
            (PieceKind::Rook, Color::Black) => "\x1b[30m\u{265c} ",
            (PieceKind::Queen, Color::White) => "\x1b[30m\u{2655} ",
            (PieceKind::Queen, Color::Black) => "\x1b[30m\u{265b} ",
            (PieceKind::King, Color::White) => "\x1b[30m\u{2654} ",
            (PieceKind::King, Color::Black) => "\x1b[30m\u{265a} ",
        };
        s.append(glyph);
        proof {
            assert(s@ =~= self.str_spec());
        }
        s
    }

    pub fn debug_string(self) -> (res: String)
        ensures
            res@ == self.kind.debug_str_spec(),
    {
        self.kind.debug_string()
    }

    pub fn to_letter(self) -> (res: String)
        ensures
            res@ == self.kind.letter_spec(),
    {
        self.kind.to_letter()
    }

    /// Two pieces match iff kind and color are equal; movement metadata is ignored.
    pub open spec fn matches_spec(self, other: Piece) -> bool {
        self.kind == other.kind && self.color == other.color
    }

    pub fn matches(self, other: Piece) -> (res: bool)
        ensures
            res == self.matches_spec(other),
    {
        self.kind == other.kind && self.color == other.color
    }

    /// An empty square, as the board stores it.
    pub open spec fn spec_empty() -> Piece {
        Piece { kind: PieceKind::Empty, color: Color::White, has_moved: false, highlight: 0 }
    }

    pub fn empty() -> (res: Self)
        ensures
            res == Piece::spec_empty(),
    {
        Piece { kind: PieceKind::Empty, color: Color::White, has_moved: false, highlight: 0 }
    }
}

} // verus!
