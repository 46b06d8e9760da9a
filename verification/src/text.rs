//! Small verified text helpers: decimal formatting of counters and
//! space padding, as the fixed-width board surround needs them.

use vstd::prelude::*;
use vstd::string::StrSliceExecFns;

verus! {

/// The digit character for a value below ten.
pub open spec fn sp_digit(d: int) -> char {
    (('0' as u32 + d as u32) as char)
}

/// The decimal numeral of `n`, most significant digit first.
pub open spec fn sp_dec(n: int) -> Seq<char>
    decreases n,
{
    if n < 10 {
        seq![sp_digit(n)]
    } else {
        sp_dec(n / 10).push(sp_digit(n % 10))
    }
}

/// `k` spaces (none for `k <= 0`).
pub open spec fn sp_spaces(k: int) -> Seq<char>
    decreases k,
{
    if k <= 0 {
        Seq::empty()
    } else {
        sp_spaces(k - 1).push(' ')
    }
}

fn digit_str(d: u32) -> (res: &'static str)
    requires
        d < 10,
    ensures
        res@ == seq![sp_digit(d as int)],
{
    proof {
        reveal_strlit("0");
        reveal_strlit("1");
        reveal_strlit("2");
        reveal_strlit("3");
        reveal_strlit("4");
        reveal_strlit("5");
        reveal_strlit("6");
        reveal_strlit("7");
        reveal_strlit("8");
        reveal_strlit("9");
    }
    if d == 0 {
        "0"
    } else if d == 1 {
        "1"
    } else if d == 2 {
        "2"
    } else if d == 3 {
        "3"
    } else if d == 4 {
        "4"
    } else if d == 5 {
        "5"
    } else if d == 6 {
        "6"
    } else if d == 7 {
        "7"
    } else if d == 8 {
        "8"
    } else {
        "9"
    }
}

/// The decimal numeral of `n`.
pub fn u32_to_string(n: u32) -> (res: String)
    ensures
        res@ == sp_dec(n as int),
    decreases n,
{
    if n < 10 {
        digit_str(n).to_owned()
    } else {
        let mut s = u32_to_string(n / 10);
        s.append(digit_str(n % 10));
        proof {
            assert(s@ =~= sp_dec(n as int));
        }
        s
    }
}

/// `s` right-aligned to width `w`: spaces in front when it is shorter.
pub fn pad_left(s: &str, w: usize) -> (res: String)
    ensures
        res@ == sp_spaces(w - s@.len()) + s@,
{
    let n = s.unicode_len();
    let mut res = String::new();
    let mut i: usize = n;
    while i < w
        invariant
            n <= i,
            i <= w || i == n,
            n == s@.len(),
            res@ == sp_spaces(i - n),
        decreases w - i,
    {
        res.append(" ");
        proof {
            reveal_strlit(" ");
            assert(res@ =~= sp_spaces(i + 1 - n));
        }
        i = i + 1;
    }
    res.append(s);
    proof {
        assert(res@ =~= sp_spaces(w - s@.len()) + s@);
    }
    res
}

/// `s` left-aligned to width `w`: spaces behind when it is shorter.
pub fn pad_right(s: &str, w: usize) -> (res: String)
    ensures
        res@ == s@ + sp_spaces(w - s@.len()),
{
    let n = s.unicode_len();
    let mut res = s.to_owned();
    let mut i: usize = n;
    while i < w
        invariant
            n <= i,
            i <= w || i == n,
            n == s@.len(),
            res@ == s@ + sp_spaces(i - n),
        decreases w - i,
    {
        res.append(" ");
        proof {
            reveal_strlit(" ");
            assert(res@ =~= s@ + sp_spaces(i + 1 - n));
        }
        i = i + 1;
    }
    proof {
        assert(res@ =~= s@ + sp_spaces(w - s@.len()));
    }
    res
}

} // verus!
