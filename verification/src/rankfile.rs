//! Validated file/rank coordinates. A coordinate component is either a value
//! in range (rank 1..=8, file 'a'..='h') or a distinct "none" state used for
//! partially specified notation input.

use vstd::prelude::*;

use crate::color::Color;

verus! {

/// A board rank: 1..=8 when set; `None` marks an unset component.
#[derive(Copy, Clone, Debug)]
pub struct Rank(pub Option<u32>);

impl Rank {
    /// The rank holds a value in 1..=8.
    pub open spec fn valid(self) -> bool {
        match self.0 {
            Some(r) => 1 <= r <= 8,
            None => false,
        }
    }

    /// Either unset or in range; every constructor establishes this.
    pub open spec fn wf(self) -> bool {
        self.0 is Some ==> self.valid()
    }

    /// The 0-based index of a valid rank.
    pub open spec fn idx(self) -> int {
        self.0->0 - 1
    }

    pub fn new(r: u32) -> (res: Self)
        ensures
            res.wf(),
            1 <= r <= 8 ==> res.0 == Some(r),
            !(1 <= r <= 8) ==> res.0 is None,
    {
        if r <= 8 && r > 0 {
            Rank(Some(r))
        } else {
            Rank(None)
        }
    }

    /// The rank whose 0-based index is `i`.
    pub open spec fn spec_from_index(i: int) -> Rank {
        if 0 <= i <= 7 {
            Rank(Some((i + 1) as u32))
        } else {
            Rank(None)
        }
    }

    pub fn from_index(i: usize) -> (res: Self)
        ensures
            res == Rank::spec_from_index(i as int),
            res.wf(),
            i <= 7 ==> res.valid() && res.idx() == i,
            i > 7 ==> res.0 is None,
    {
        if i <= 7 {
            Rank(Some(i as u32 + 1))
        } else {
            Rank(None)
        }
    }

    pub fn is_valid(self) -> (res: bool)
        ensures
            res == self.valid(),
    {
        if let Some(r) = self.0 {
            r <= 8 && r > 0
        } else {
            false
        }
    }

    pub fn index(self) -> (res: Option<usize>)
        requires
            self.wf(),
        ensures
            self.valid() ==> res == Some(self.idx() as usize),
            !self.valid() ==> res is None,
    {
        if let Some(i) = self.0 {
            Some(i as usize - 1)
        } else {
            None
        }
    }

    /// The decimal digit of a valid rank, or the empty string.
    pub open spec fn str_spec(self) -> Seq<char> {
        match self.0 {
            Some(r) => {
                if r == 1 {
                    "1"@
                } else if r == 2 {
                    "2"@
                } else if r == 3 {
                    "3"@
                } else if r == 4 {
                    "4"@
                } else if r == 5 {
                    "5"@
                } else if r == 6 {
                    "6"@
                } else if r == 7 {
                    "7"@
                } else {
                    "8"@
                }
            },
            None => Seq::empty(),
        }
    }

    pub fn to_string(self) -> (res: String)
        requires
            self.wf(),
        ensures
            res@ == self.str_spec(),
    {
        match self.0 {
            Some(r) => {
                if r == 1 {
                    "1".to_owned()
                } else if r == 2 {
                    "2".to_owned()
                } else if r == 3 {
                    "3".to_owned()
                } else if r == 4 {
                    "4".to_owned()
                } else if r == 5 {
                    "5".to_owned()
                } else if r == 6 {
                    "6".to_owned()
                } else if r == 7 {
                    "7".to_owned()
                } else {
                    "8".to_owned()
                }
            },
            None => String::new(),
        }
    }

    /// Reads a rank from a digit character, as notation input supplies it.
    pub fn from_digit(c: Option<char>) -> (res: Rank)
        ensures
            res.wf(),
            match c {
                Some(ch) => {
                    &&& ('1' <= ch <= '8') ==> res.0 == Some((ch as u32 - '0' as u32) as u32)
                    &&& !('1' <= ch <= '8') ==> res.0 is None
                },
                None => res.0 is None,
            },
    {
        if let Some(c) = c {
            if c >= '1' && c <= '8' {
                return Rank(Some(c as u32 - '0' as u32));
            }
        }
        Rank(None)
    }
}

impl PartialEq for Rank {
    fn eq(&self, other: &Rank) -> (r: bool) {
        match (self.0, other.0) {
            (Some(a), Some(b)) => a == b,
            (None, None) => true,
            _ => false,
        }
    }
}

impl vstd::std_specs::cmp::PartialEqSpecImpl for Rank {
    open spec fn obeys_eq_spec() -> bool {
        true
    }

    open spec fn eq_spec(&self, other: &Rank) -> bool {
        self.0 == other.0
    }
}

/// A board file: 'a'..='h' when set; `None` marks an unset component.
#[derive(Copy, Clone, Debug)]
pub struct File(pub Option<char>);

impl File {
    /// The file holds a letter in 'a'..='h'.
    pub open spec fn valid(self) -> bool {
        match self.0 {
            Some(f) => 'a' <= f <= 'h',
            None => false,
        }
    }

    /// Either unset or in range; every constructor establishes this.
    pub open spec fn wf(self) -> bool {
        self.0 is Some ==> self.valid()
    }

    /// The 0-based index of a valid file.
    pub open spec fn idx(self) -> int {
        self.0->0 as int - 'a' as int
    }

    pub fn new(f: char) -> (res: Self)
        ensures
            res.wf(),
            'a' <= f <= 'h' ==> res.0 == Some(f),
            !('a' <= f <= 'h') ==> res.0 is None,
    {
        if f >= 'a' && f <= 'h' {
            File(Some(f))
        } else {
            File(None)
        }
    }

    /// The file whose 0-based index is `i`.
    pub open spec fn spec_from_index(i: int) -> File {
        if 0 <= i <= 7 {
            File(Some((('a' as u32 + i as u32) as char)))
        } else {
            File(None)
        }
    }

    pub fn from_index(i: usize) -> (res: Self)
        ensures
            res == File::spec_from_index(i as int),
            res.wf(),
            i <= 7 ==> res.valid() && res.idx() == i,
            i > 7 ==> res.0 is None,
    {
        if i <= 7 {
            File(Some(('a' as u8 + i as u8) as char))
        } else {
            File(None)
        }
    }

    pub fn is_valid(self) -> (res: bool)
        ensures
            res == self.valid(),
    {
        if let Some(f) = self.0 {
            f >= 'a' && f <= 'h'
        } else {
            false
        }
    }

    pub fn index(self) -> (res: Option<usize>)
        requires
            self.wf(),
        ensures
            self.valid() ==> res == Some(self.idx() as usize),
            !self.valid() ==> res is None,
    {
        if let Some(f) = self.0 {
            Some(f as usize - 'a' as usize)
        } else {
            None
        }
    }

    /// The letter of a valid file, or the empty string.
    pub open spec fn str_spec(self) -> Seq<char> {
        match self.0 {
            Some(f) => {
                if f == 'a' {
                    "a"@
                } else if f == 'b' {
                    "b"@
                } else if f == 'c' {
                    "c"@
                } else if f == 'd' {
                    "d"@
                } else if f == 'e' {
                    "e"@
                } else if f == 'f' {
                    "f"@
                } else if f == 'g' {
                    "g"@
                } else {
                    "h"@
                }
            },
            None => Seq::empty(),
        }
    }

    pub fn to_string(self) -> (res: String)
        requires
            self.wf(),
        ensures
            res@ == self.str_spec(),
    {
        match self.0 {
            Some(f) => {
                if f == 'a' {
                    "a".to_owned()
                } else if f == 'b' {
                    "b".to_owned()
                } else if f == 'c' {
                    "c".to_owned()
                } else if f == 'd' {
                    "d".to_owned()
                } else if f == 'e' {
                    "e".to_owned()
                } else if f == 'f' {
                    "f".to_owned()
                } else if f == 'g' {
                    "g".to_owned()
                } else {
                    "h".to_owned()
                }
            },
            None => String::new(),
        }
    }
}

impl PartialEq for File {
    fn eq(&self, other: &File) -> (r: bool) {
        match (self.0, other.0) {
            (Some(a), Some(b)) => a == b,
            (None, None) => true,
            _ => false,
        }
    }
}

impl vstd::std_specs::cmp::PartialEqSpecImpl for File {
    open spec fn obeys_eq_spec() -> bool {
        true
    }

    open spec fn eq_spec(&self, other: &File) -> bool {
        self.0 == other.0
    }
}

/// A valid rank is determined by its index.
pub proof fn lemma_rank_of_idx(a: Rank, i: int)
    requires
        a.valid(),
        a.idx() == i,
    ensures
        a == Rank::spec_from_index(i),
{
}

/// A valid file is determined by its index.
pub proof fn lemma_file_of_idx(a: File, i: int)
    requires
        a.valid(),
        a.idx() == i,
    ensures
        a == File::spec_from_index(i),
{
}

/// The notation of a square: file letter then rank digit, each empty when unset.
pub open spec fn square_str_spec(tuple: (File, Rank)) -> Seq<char> {
    tuple.0.str_spec() + tuple.1.str_spec()
}

pub fn tuple_to_square(tuple: (File, Rank)) -> (res: String)
    requires
        tuple.0.wf(),
        tuple.1.wf(),
    ensures
        res@ == square_str_spec(tuple),
{
    let (file, rank) = tuple;
    let s = file.to_string();
    s.concat(rank.to_string().as_str())
}

/// 0-based rank index of the given color's home (back) rank.
pub open spec fn spec_back_rank_index(c: Color) -> int {
    if c == Color::White {
        0
    } else {
        7
    }
}

pub fn back_rank_index(c: Color) -> (res: usize)
    ensures
        res == spec_back_rank_index(c),
{
    if c == Color::White {
        0
    } else {
        7
    }
}

/// 0-based rank index of the rank a pawn of the given color promotes on.
pub open spec fn spec_promotion_rank_index(c: Color) -> int {
    if c == Color::White {
        7
    } else {
        0
    }
}

pub fn promotion_rank_index(c: Color) -> (res: usize)
    ensures
        res == spec_promotion_rank_index(c),
{
    if c == Color::White {
        7
    } else {
        0
    }
}

/// 0-based file index of the rook taking part in a castle.
pub open spec fn spec_rook_castle_file(long_castle: bool) -> int {
    if long_castle {
        0
    } else {
        7
    }
}

pub fn rook_castle_file(long_castle: bool) -> (res: usize)
    ensures
        res == spec_rook_castle_file(long_castle),
{
    if long_castle {
        0
    } else {
        7
    }
}

} // verus!
