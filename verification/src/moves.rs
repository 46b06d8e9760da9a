//! A move record: one ply's description, with derived flags. A `Move` also
//! carries non-board commands (`meta`) that the controller intercepts before
//! touching board state.

use vstd::prelude::*;

use crate::color::Color;
use crate::piece::{Piece, PieceKind};
use crate::rankfile::{square_str_spec, tuple_to_square, File, Rank};

verus! {

#[derive(Copy, Clone, PartialEq, Eq, Structural, Debug)]
pub enum MetaMove {
    /// An ordinary board move, not a command.
    Ordinary,
    Quit,
    Concede,
    Flip,
}

#[derive(Copy, Clone, Debug)]
pub struct Move {
    pub dest: (File, Rank),
    pub origin: (File, Rank),
    pub piece: Piece,
    pub takes: bool,
    pub check: bool,
    pub checkmate: bool,
    pub castle: bool,
    pub long_castle: bool,
    pub pawn_double: bool,
    /// The captured pawn's square for an en-passant capture.
    pub en_passant: Option<(File, Rank)>,
    pub promotion: PieceKind,
    pub meta: MetaMove,
}

impl Move {
    /// The empty move every parse starts from.
    pub open spec fn spec_new() -> Move {
        Move {
            dest: (File(None), Rank(None)),
            origin: (File(None), Rank(None)),
            piece: Piece::spec_empty(),
            takes: false,
            check: false,
            checkmate: false,
            castle: false,
            long_castle: false,
            pawn_double: false,
            en_passant: None,
            promotion: PieceKind::Empty,
            meta: MetaMove::Ordinary,
        }
    }

    pub fn new() -> (res: Self)
        ensures
            res == Move::spec_new(),
    {
        Move {
            dest: (File(None), Rank(None)),
            origin: (File(None), Rank(None)),
            piece: Piece::empty(),
            takes: false,
            check: false,
            checkmate: false,
            castle: false,
            long_castle: false,
            pawn_double: false,
            en_passant: None,
            promotion: PieceKind::Empty,
            meta: MetaMove::Ordinary,
        }
    }

    /// A bare origin-to-destination move of a piece, no flags set; used to
    /// ask whether a piece can attack a specific square.
    pub open spec fn spec_basic(p: Piece, o: (File, Rank), d: (File, Rank)) -> Move {
        Move { dest: d, origin: o, piece: p, ..Move::spec_new() }
    }

    pub fn basic(p: Piece, o: (File, Rank), d: (File, Rank)) -> (res: Self)
        ensures
            res == Move::spec_basic(p, o, d),
    {
        let mut m = Move::new();
        m.dest = d;
        m.origin = o;
        m.piece = p;
        m
    }

    pub open spec fn spec_new_meta(meta: MetaMove) -> Move {
        Move { meta, ..Move::spec_new() }
    }

    pub fn new_meta(m: MetaMove) -> (res: Self)
        ensures
            res == Move::spec_new_meta(m),
    {
        let mut res = Move::new();
        res.meta = m;
        res
    }

    /// All coordinate components are unset or in range.
    pub open spec fn coords_wf(self) -> bool {
        &&& self.dest.0.wf()
        &&& self.dest.1.wf()
        &&& self.origin.0.wf()
        &&& self.origin.1.wf()
        &&& match self.en_passant {
            Some(sq) => sq.0.valid() && sq.1.valid(),
            None => true,
        }
    }

    /// Origin is a fully specified board square.
    pub open spec fn origin_set(self) -> bool {
        self.origin.0.valid() && self.origin.1.valid()
    }

    /// Destination is a fully specified board square.
    pub open spec fn dest_set(self) -> bool {
        self.dest.0.valid() && self.dest.1.valid()
    }

    pub open spec fn debug_str_spec(self) -> Seq<char> {
        if self.castle {
            "Castles"@
        } else if self.long_castle {
            "Long Castles"@
        } else {
            let o = if square_str_spec(self.origin).len() > 0 {
                "on "@ + square_str_spec(self.origin) + " "@
            } else {
                Seq::empty()
            };
            let t = if self.takes {
                "takes on"@
            } else {
                "to"@
            };
            let p = if self.promotion != PieceKind::Empty {
                "promotes to "@ + self.promotion.debug_str_spec()
            } else {
                Seq::empty()
            };
            let c = if self.check {
                "with check"@
            } else if self.checkmate {
                "with checkmate"@
            } else {
                Seq::empty()
            };
            self.piece.kind.debug_str_spec() + " "@ + o + t + " "@ + square_str_spec(self.dest)
                + " "@ + p + " "@ + c
        }
    }

    #[verifier::rlimit(50)]
    pub fn debug(self) -> (res: String)
        requires
            self.coords_wf(),
        ensures
            res@ == self.debug_str_spec(),
    {
        if self.castle {
            return "Castles".to_owned();
        } else if self.long_castle {
            return "Long Castles".to_owned();
        }
        let ghost goal = self.debug_str_spec();
        let mut o = String::new();
        let origin_sq = tuple_to_square(self.origin);
        if origin_sq.as_str().unicode_len() > 0 {
            o.append("on ");
            o.append(origin_sq.as_str());
            o.append(" ");
        }
        let t: &str = if self.takes {
            "takes on"
        } else {
            "to"
        };
        let mut p = String::new();
        if self.promotion != PieceKind::Empty {
            p.append("promotes to ");
            p.append(self.promotion.debug_string().as_str());
        }
        let c: &str = if self.check {
            "with check"
        } else if self.checkmate {
            "with checkmate"
        } else {
            ""
        };
        proof {
            reveal_strlit("");
        }
        let mut s = self.piece.kind.debug_string();
        s.append(" ");
        s.append(o.as_str());
        s.append(t);
        s.append(" ");
        s.append(tuple_to_square(self.dest).as_str());
        s.append(" ");
        s.append(p.as_str());
        s.append(" ");
        s.append(c);
        proof {
            assert(s@ =~= goal);
        }
        s
    }

    /// The algebraic notation of the move: castles are the two fixed forms;
    /// otherwise piece letter, origin, capture marker, destination, promotion
    /// suffix and check/checkmate marker, in that order.
    pub open spec fn notation_spec(self) -> Seq<char> {
        if self.castle {
            "O-O"@
        } else if self.long_castle {
            "O-O-O"@
        } else {
            let t = if self.takes {
                "x"@
            } else {
                Seq::empty()
            };
            let p = if self.promotion != PieceKind::Empty {
                "="@ + self.promotion.letter_spec()
            } else {
                Seq::empty()
            };
            let c = if self.checkmate {
                "#"@
            } else if self.check {
                "+"@
            } else {
                Seq::empty()
            };
            self.piece.kind.letter_spec() + square_str_spec(self.origin) + t + square_str_spec(
                self.dest,
            ) + p + c
        }
    }

    pub fn notation(self) -> (res: String)
        requires
            self.coords_wf(),
        ensures
            res@ == self.notation_spec(),
    {
        if self.castle {
            return "O-O".to_owned();
        } else if self.long_castle {
            return "O-O-O".to_owned();
        }
        let mut s = self.piece.to_letter();
        s.append(tuple_to_square(self.origin).as_str());
        if self.takes {
            s.append("x");
        }
        s.append(tuple_to_square(self.dest).as_str());
        if self.promotion != PieceKind::Empty {
            s.append("=");
            s.append(self.promotion.to_letter().as_str());
        }
        if self.checkmate {
            s.append("#");
        } else if self.check {
            s.append("+");
        }
        proof {
            assert(s@ =~= self.notation_spec());
        }
        s
    }
}

} // verus!
