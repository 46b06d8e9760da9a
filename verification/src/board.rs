//! The 8x8 board: one `Piece` per square (absence modeled as
//! `PieceKind::Empty`), stored file-major and indexed by 0-based
//! (file, rank) pairs.

use vstd::prelude::*;

use crate::piece::Piece;

verus! {

/// Linear index of the square at 0-based (file, rank).
pub open spec fn sq_index(f: int, r: int) -> int {
    f * 8 + r
}

pub struct Board {
    pub squares: Vec<Piece>,
}

impl Board {
    /// One piece per square, all 64 squares present.
    pub open spec fn wf(self) -> bool {
        self.squares@.len() == 64
    }

    /// The squares, file-major.
    pub open spec fn view(self) -> Seq<Piece> {
        self.squares@
    }

    /// The piece at 0-based (file, rank).
    pub open spec fn at(self, f: int, r: int) -> Piece
        recommends
            0 <= f < 8,
            0 <= r < 8,
    {
        self.squares@[sq_index(f, r)]
    }

    pub fn new() -> (res: Self)
        ensures
            res.wf(),
            forall|i: int| 0 <= i < 64 ==> res@[i] == Piece::spec_empty(),
    {
        Board { squares: vec![Piece::empty(); 64] }
    }

    pub fn get(&self, f: usize, r: usize) -> (res: Piece)
        requires
            self.wf(),
            f < 8,
            r < 8,
        ensures
            res == self.at(f as int, r as int),
    {
        self.squares[f * 8 + r]
    }

    pub fn set(&mut self, f: usize, r: usize, p: Piece)
        requires
            old(self).wf(),
            f < 8,
            r < 8,
        ensures
            final(self).wf(),
            final(self)@ == old(self)@.update(sq_index(f as int, r as int), p),
    {
        self.squares[f * 8 + r] = p;
    }

    /// A copy whose squares are equal to this board's.
    pub fn duplicate(&self) -> (res: Self)
        requires
            self.wf(),
        ensures
            res.wf(),
            res@ == self@,
    {
        let copy = self.squares.clone();
        proof {
            assert(copy@ =~= self.squares@);
        }
        Board { squares: copy }
    }
}

} // verus!
