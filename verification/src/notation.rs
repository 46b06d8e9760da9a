//! Algebraic-notation parsing. Parsing proceeds destructively from the end
//! of the string: check/checkmate marker, castle forms, promotion suffix,
//! destination square, capture marker, disambiguation hint, piece letter.
//! The output move's origin may be partially or fully unset; it is not yet
//! legality-checked or disambiguated.

use vstd::prelude::*;
use vstd::string::StrSliceExecFns;
use vstd::utf8::is_ascii_chars;

use crate::color::Color;
use crate::moves::{MetaMove, Move};
use crate::piece::{Piece, PieceKind};
use crate::rankfile::{File, Rank};

verus! {

pub open spec fn is_file_char(c: char) -> bool {
    'a' <= c <= 'h'
}

pub open spec fn is_rank_char(c: char) -> bool {
    '1' <= c <= '8'
}

pub open spec fn file_of_char(c: char) -> File {
    if is_file_char(c) {
        File(Some(c))
    } else {
        File(None)
    }
}

pub open spec fn rank_of_char(c: char) -> Rank {
    if is_rank_char(c) {
        Rank(Some((c as u32 - '0' as u32) as u32))
    } else {
        Rank(None)
    }
}

/// The coordinates read from a two-character square like "e4".
pub open spec fn sq_of_str(s: Seq<char>) -> (File, Rank)
    recommends
        s.len() == 2,
{
    (file_of_char(s[0]), rank_of_char(s[1]))
}

/// A two-character string is a valid square: file letter then rank digit.
pub open spec fn valid_square_spec(s: Seq<char>) -> bool {
    s.len() == 2 && is_file_char(s[0]) && is_rank_char(s[1])
}

/// The coordinates read from a disambiguation hint: a bare file, a bare
/// rank, a full square, or nothing.
pub open spec fn partial_sq_spec(s: Seq<char>) -> (File, Rank) {
    if s.len() == 1 {
        if is_file_char(s[0]) {
            (File(Some(s[0])), Rank(None))
        } else if is_rank_char(s[0]) {
            (File(None), rank_of_char(s[0]))
        } else {
            (File(None), Rank(None))
        }
    } else if s.len() == 2 && is_file_char(s[0]) && is_rank_char(s[1]) {
        sq_of_str(s)
    } else {
        (File(None), Rank(None))
    }
}

/// How many trailing characters of `s` form a square pattern: a file letter
/// then a rank digit scores 2; a single trailing rank digit, or a trailing
/// file letter not preceded by one, scores 1.
pub open spec fn ending_count_spec(s: Seq<char>) -> int {
    let c1: int = if s.len() >= 2 && is_file_char(s[s.len() - 2]) {
        1
    } else {
        0
    };
    if s.len() >= 1 && (is_rank_char(s[s.len() - 1]) || (c1 == 0 && is_file_char(
        s[s.len() - 1],
    ))) {
        c1 + 1
    } else {
        c1
    }
}

/// The piece selected by a notation letter; an unrecognized letter gives
/// `PieceKind::Empty`, which no board piece matches.
pub open spec fn piece_of_letter(c: char, to_move: Color) -> Piece {
    let kind = if c == 'P' {
        PieceKind::Pawn
    } else if c == 'B' {
        PieceKind::Bishop
    } else if c == 'N' {
        PieceKind::Knight
    } else if c == 'R' {
        PieceKind::Rook
    } else if c == 'Q' {
        PieceKind::Queen
    } else if c == 'K' {
        PieceKind::King
    } else {
        PieceKind::Empty
    };
    Piece { kind, color: to_move, has_moved: false, highlight: 0 }
}

/// The piece selected by a notation prefix; an empty prefix defaults to a pawn.
pub open spec fn piece_of_prefix(s: Seq<char>, to_move: Color) -> Piece {
    if s.len() == 0 {
        Piece { kind: PieceKind::Pawn, color: to_move, has_moved: false, highlight: 0 }
    } else {
        piece_of_letter(s[0], to_move)
    }
}

/// Whether `s` ends in a promotion suffix `=<letter>`; only meaningful when
/// at least one character would remain before it.
pub open spec fn promo_suffix_present(s: Seq<char>) -> bool {
    s.len() > 2 && s[s.len() - 2] == '='
}

/// What `parse_notation` returns, as a function of the input characters and
/// the side to move.
pub open spec fn parse_spec(s: Seq<char>, to_move: Color) -> Result<Move, Seq<char>> {
    if s == "quit"@ || s == "exit"@ {
        Ok(Move::spec_new_meta(MetaMove::Quit))
    } else if s == "concede"@ {
        Ok(Move::spec_new_meta(MetaMove::Concede))
    } else if s == "flip"@ {
        Ok(Move::spec_new_meta(MetaMove::Flip))
    } else if !is_ascii_chars(s) {
        Err("Non-ascii input"@)
    } else if s.len() < 2 {
        Err("Input is too short"@)
    } else if s.len() > 9 {
        Err("Input is too long"@)
    } else {
        let cm = s[s.len() - 1] == '#';
        let e1: int = if cm {
            s.len() - 1
        } else {
            s.len() as int
        };
        let ck = e1 >= 1 && s[e1 - 1] == '+';
        let e2: int = if ck {
            e1 - 1
        } else {
            e1
        };
        if cm && ck {
            Err("Both check and checkmate"@)
        } else if s.take(e2) == "O-O"@ {
            Ok(
                Move {
                    castle: true,
                    check: ck,
                    checkmate: cm,
                    piece: Piece {
                        kind: PieceKind::King,
                        color: to_move,
                        has_moved: false,
                        highlight: 0,
                    },
                    ..Move::spec_new()
                },
            )
        } else if s.take(e2) == "O-O-O"@ {
            Ok(
                Move {
                    long_castle: true,
                    check: ck,
                    checkmate: cm,
                    piece: Piece {
                        kind: PieceKind::King,
                        color: to_move,
                        has_moved: false,
                        highlight: 0,
                    },
                    ..Move::spec_new()
                },
            )
        } else {
            let promo = promo_suffix_present(s.take(e2));
            let promotion = if promo {
                piece_of_letter(s[e2 - 1], to_move).kind
            } else {
                PieceKind::Empty
            };
            let e3: int = if promo {
                e2 - 2
            } else {
                e2
            };
            if e3 < 2 {
                Err("Invalid square"@)
            } else if !valid_square_spec(s.subrange(e3 - 2, e3)) {
                Err("Invalid square"@)
            } else {
                let dest = sq_of_str(s.subrange(e3 - 2, e3));
                let e4 = e3 - 2;
                let takes = e4 >= 1 && s[e4 - 1] == 'x';
                let e5: int = if takes {
                    e4 - 1
                } else {
                    e4
                };
                let k = ending_count_spec(s.take(e5));
                let origin = partial_sq_spec(s.subrange(e5 - k, e5));
                let piece = piece_of_prefix(s.take(e5 - k), to_move);
                if piece.kind == PieceKind::Empty {
                    Err("Unrecognized piece letter"@)
                } else {
                    Ok(
                        Move {
                            dest,
                            origin,
                            piece,
                            takes,
                            check: ck,
                            checkmate: cm,
                            promotion,
                            ..Move::spec_new()
                        },
                    )
                }
            }
        }
    }
}

/// The executable result agrees with `parse_spec`, message text included.
pub open spec fn parse_result_matches(
    res: Result<Move, String>,
    s: Seq<char>,
    to_move: Color,
) -> bool {
    match (res, parse_spec(s, to_move)) {
        (Ok(m), Ok(pm)) => m == pm,
        (Err(e), Err(msg)) => e@ == msg,
        _ => false,
    }
}

/// Character-wise string equality.
pub fn str_eq(a: &str, b: &str) -> (res: bool)
    ensures
        res == (a@ == b@),
{
    let n = a.unicode_len();
    if n != b.unicode_len() {
        return false;
    }
    let mut i: usize = 0;
    while i < n
        invariant
            i <= n,
            n == a@.len(),
            n == b@.len(),
            forall|j: int| 0 <= j < i ==> a@[j] == b@[j],
        decreases n - i,
    {
        if a.get_char(i) != b.get_char(i) {
            return false;
        }
        i += 1;
    }
    proof {
        assert(a@ =~= b@);
    }
    true
}

/// The input must be ASCII and between 2 and 9 characters.
pub fn validate_notation(input: &str) -> (res: Option<String>)
    ensures
        match res {
            Some(e) => {
                ||| (!is_ascii_chars(input@) && e@ == "Non-ascii input"@)
                ||| (is_ascii_chars(input@) && input@.len() < 2 && e@ == "Input is too short"@)
                ||| (is_ascii_chars(input@) && input@.len() > 9 && e@ == "Input is too long"@)
            },
            None => is_ascii_chars(input@) && 2 <= input@.len() <= 9,
        },
{
    if !input.is_ascii() {
        return Some("Non-ascii input".to_owned());
    }
    let n = input.unicode_len();
    if n < 2 {
        return Some("Input is too short".to_owned());
    }
    if n > 9 {
        return Some("Input is too long".to_owned());
    }
    None
}

/// Reads a two-character square; out-of-range components come back unset.
pub fn square_to_tuple(input: &str) -> (res: (File, Rank))
    requires
        input@.len() == 2,
    ensures
        res == sq_of_str(input@),
{
    let file = input.get_char(0);
    let rank = input.get_char(1);
    (File::new(file), Rank::from_digit(Some(rank)))
}

pub fn partial_square_to_tuple(input: &str) -> (res: (File, Rank))
    ensures
        res == partial_sq_spec(input@),
{
    let n = input.unicode_len();
    if n == 1 {
        let c = input.get_char(0);
        if File::new(c).is_valid() {
            return (File(Some(c)), Rank(None));
        } else if Rank::from_digit(Some(c)).is_valid() {
            return (File(None), Rank::from_digit(Some(c)));
        }
    } else if n == 2 {
        let c0 = input.get_char(0);
        let c1 = input.get_char(1);
        if File::new(c0).is_valid() && Rank::from_digit(Some(c1)).is_valid() {
            return square_to_tuple(input);
        }
    }
    (File(None), Rank(None))
}

pub fn find_square_notation_ending(input: &str) -> (res: usize)
    ensures
        res == ending_count_spec(input@),
        res <= input@.len(),
{
    let n = input.unicode_len();
    let mut count: usize = 0;
    if n >= 2 {
        let file = input.get_char(n - 2);
        if file >= 'a' && file <= 'h' {
            count = count + 1;
        }
    }
    if n >= 1 {
        let rank = input.get_char(n - 1);
        if (rank >= '1' && rank <= '8') || (count == 0 && rank >= 'a' && rank <= 'h') {
            count = count + 1;
        }
    }
    count
}

pub fn validate_square(input: &str) -> (res: bool)
    ensures
        res == valid_square_spec(input@),
{
    let n = input.unicode_len();
    if n != 2 {
        return false;
    }
    if find_square_notation_ending(input) != 2 {
        return false;
    }
    let (file, rank) = square_to_tuple(input);
    if !rank.is_valid() {
        return false;
    }
    if !file.is_valid() {
        return false;
    }
    true
}

/// Selects the moving piece from a 0-or-more character prefix; an empty
/// prefix defaults to a pawn of the side to move.
pub fn notation_find_piece(input: &str, to_move: Color) -> (res: Piece)
    ensures
        res == piece_of_prefix(input@, to_move),
{
    if input.unicode_len() == 0 {
        return Piece::make(PieceKind::Pawn, to_move, false, 0);
    }
    let c = input.get_char(0);
    let kind = if c == 'P' {
        PieceKind::Pawn
    } else if c == 'B' {
        PieceKind::Bishop
    } else if c == 'N' {
        PieceKind::Knight
    } else if c == 'R' {
        PieceKind::Rook
    } else if c == 'Q' {
        PieceKind::Queen
    } else if c == 'K' {
        PieceKind::King
    } else {
        PieceKind::Empty
    };
    Piece::make(kind, to_move, false, 0)
}

/// Strips a trailing `=<letter>` promotion suffix if present, recording the
/// promotion kind on the move; returns how many characters were consumed.
pub fn handle_promotion(input: &str, m: &mut Move, to_move: Color) -> (consumed: usize)
    ensures
        promo_suffix_present(input@) ==> *final(m) == (Move {
            promotion: piece_of_letter(input@[input@.len() - 1], to_move).kind,
            ..*old(m)
        }) && consumed == 2,
        !promo_suffix_present(input@) ==> *final(m) == *old(m) && consumed == 0,
{
    let n = input.unicode_len();
    if n <= 2 {
        return 0;
    }
    if input.get_char(n - 2) != '=' {
        return 0;
    }
    m.promotion = notation_find_piece_letter(input.get_char(n - 1), to_move);
    2
}

fn notation_find_piece_letter(c: char, to_move: Color) -> (res: PieceKind)
    ensures
        res == piece_of_letter(c, to_move).kind,
{
    if c == 'P' {
        PieceKind::Pawn
    } else if c == 'B' {
        PieceKind::Bishop
    } else if c == 'N' {
        PieceKind::Knight
    } else if c == 'R' {
        PieceKind::Rook
    } else if c == 'Q' {
        PieceKind::Queen
    } else if c == 'K' {
        PieceKind::King
    } else {
        PieceKind::Empty
    }
}

/// Parses one line of move input for the given side. Recognized literal
/// commands short-circuit to a `meta` move; anything else must be algebraic
/// notation whose shape is checked here, while legality and disambiguation
/// are left to the game.
#[verifier::rlimit(100)]
pub fn parse_notation(input: String, to_move: Color) -> (res: Result<Move, String>)
    ensures
        parse_result_matches(res, input@, to_move),
        res matches Ok(m) ==> m.coords_wf() && m.en_passant is None,
{
    if str_eq(input.as_str(), "quit") || str_eq(input.as_str(), "exit") {
        return Ok(Move::new_meta(MetaMove::Quit));
    }
    if str_eq(input.as_str(), "concede") {
        return Ok(Move::new_meta(MetaMove::Concede));
    }
    if str_eq(input.as_str(), "flip") {
        return Ok(Move::new_meta(MetaMove::Flip));
    }
    let s = input.as_str();
    if let Some(e) = validate_notation(s) {
        return Err(e);
    }
    let n = s.unicode_len();
    let mut m = Move::new();
    let mut end = n;
    m.checkmate = s.get_char(end - 1) == '#';
    if m.checkmate {
        end = end - 1;
    }
    m.check = end >= 1 && s.get_char(end - 1) == '+';
    if m.check {
        end = end - 1;
    }
    if m.check && m.checkmate {
        return Err("Both check and checkmate".to_owned());
    }
    let cur = s.substring_ascii(0, end);
    if str_eq(cur, "O-O") {
        m.castle = true;
        m.piece = Piece::make(PieceKind::King, to_move, false, 0);
        return Ok(m);
    }
    if str_eq(cur, "O-O-O") {
        m.long_castle = true;
        m.piece = Piece::make(PieceKind::King, to_move, false, 0);
        return Ok(m);
    }
    let consumed = handle_promotion(cur, &mut m, to_move);
    end = end - consumed;
    if end < 2 {
        return Err("Invalid square".to_owned());
    }
    let dest_str = s.substring_ascii(end - 2, end);
    if !validate_square(dest_str) {
        return Err("Invalid square".to_owned());
    }
    m.dest = square_to_tuple(dest_str);
    end = end - 2;
    m.takes = end >= 1 && s.get_char(end - 1) == 'x';
    if m.takes {
        end = end - 1;
    }
    let hint = s.substring_ascii(0, end);
    let square_size = find_square_notation_ending(hint);
    let origin_str = s.substring_ascii(end - square_size, end);
    m.origin = partial_square_to_tuple(origin_str);
    let prefix = s.substring_ascii(0, end - square_size);
    m.piece = notation_find_piece(prefix, to_move);
    if m.piece.kind == PieceKind::Empty {
        return Err("Unrecognized piece letter".to_owned());
    }
    Ok(m)
}

/// A valid square's notation is its file letter then its rank digit, and
/// reading them back gives the same coordinates.
pub proof fn lemma_square_str_round_trip(t: (File, Rank))
    requires
        t.0.valid(),
        t.1.valid(),
    ensures
        crate::rankfile::square_str_spec(t).len() == 2,
        is_file_char(crate::rankfile::square_str_spec(t)[0]),
        is_rank_char(crate::rankfile::square_str_spec(t)[1]),
        file_of_char(crate::rankfile::square_str_spec(t)[0]) == t.0,
        rank_of_char(crate::rankfile::square_str_spec(t)[1]) == t.1,
{
    reveal_strlit("a");
    reveal_strlit("b");
    reveal_strlit("c");
    reveal_strlit("d");
    reveal_strlit("e");
    reveal_strlit("f");
    reveal_strlit("g");
    reveal_strlit("h");
    reveal_strlit("1");
    reveal_strlit("2");
    reveal_strlit("3");
    reveal_strlit("4");
    reveal_strlit("5");
    reveal_strlit("6");
    reveal_strlit("7");
    reveal_strlit("8");
}

/// A piece letter names exactly its kind, and is none of the characters
/// the parser strips for other purposes.
pub proof fn lemma_letter_round_trip(k: PieceKind, c: Color)
    requires
        k != PieceKind::Empty,
        k != PieceKind::Pawn,
    ensures
        k.letter_spec().len() == 1,
        piece_of_letter(k.letter_spec()[0], c).kind == k,
        !is_file_char(k.letter_spec()[0]),
        !is_rank_char(k.letter_spec()[0]),
        k.letter_spec()[0] != '#',
        k.letter_spec()[0] != '+',
        k.letter_spec()[0] != 'x',
        k.letter_spec()[0] != '=',
        k.letter_spec()[0] != '-',
        '\0' <= k.letter_spec()[0] <= '\u{7f}',
{
    reveal_strlit("B");
    reveal_strlit("N");
    reveal_strlit("R");
    reveal_strlit("Q");
    reveal_strlit("K");
}

/// Parsing a move's own notation gives it back: for a fully specified
/// non-castle move with no check or checkmate marker, whose piece kind is
/// set and whose promotion is not the (unprintable) pawn kind, `parse_spec`
/// of its notation recovers origin, destination, piece kind, capture flag
/// and promotion, with the piece colored for the side given to the parser.
#[verifier::rlimit(100)]
pub proof fn lemma_parse_notation_round_trip(m: Move, to_move: Color)
    requires
        m.origin_set(),
        m.dest_set(),
        !m.castle,
        !m.long_castle,
        !m.check,
        !m.checkmate,
        m.piece.kind != PieceKind::Empty,
        m.promotion != PieceKind::Pawn,
    ensures
        parse_spec(m.notation_spec(), to_move) matches Ok(p) && p.origin == m.origin && p.dest
            == m.dest && p.piece.kind == m.piece.kind && p.piece.color == to_move && p.takes
            == m.takes && p.promotion == m.promotion && !p.check && !p.checkmate && !p.castle
            && !p.long_castle && p.en_passant is None,
{
    let s = m.notation_spec();
    let lpart = m.piece.kind.letter_spec();
    let opart = crate::rankfile::square_str_spec(m.origin);
    let xpart: Seq<char> = if m.takes {
        "x"@
    } else {
        Seq::empty()
    };
    let dpart = crate::rankfile::square_str_spec(m.dest);
    let ppart: Seq<char> = if m.promotion != PieceKind::Empty {
        "="@ + m.promotion.letter_spec()
    } else {
        Seq::empty()
    };
    assert(s == lpart + opart + xpart + dpart + ppart);
    lemma_square_str_round_trip(m.origin);
    lemma_square_str_round_trip(m.dest);
    if m.piece.kind != PieceKind::Pawn {
        lemma_letter_round_trip(m.piece.kind, to_move);
    }
    if m.promotion != PieceKind::Empty {
        lemma_letter_round_trip(m.promotion, to_move);
    }
    reveal_strlit("x");
    reveal_strlit("=");
    reveal_strlit("quit");
    reveal_strlit("exit");
    reveal_strlit("concede");
    reveal_strlit("flip");
    reveal_strlit("O-O");
    reveal_strlit("O-O-O");
    let ll = lpart.len() as int;
    let xl = xpart.len() as int;
    let pl = ppart.len() as int;
    let n = s.len() as int;
    assert(n == ll + 4 + xl + pl);
    // The character after any piece letter is from the origin square, so
    // the string is none of the recognized command words.
    assert(s[1] == (opart + xpart + dpart + ppart)[1 - ll]);
    assert(is_file_char(s[1]) || is_rank_char(s[1]));
    assert(s != "quit"@ && s != "exit"@ && s != "concede"@ && s != "flip"@);
    assert(is_ascii_chars(s)) by {
        assert forall|i: int| 0 <= i < s.len() implies '\0' <= #[trigger] s[i] <= '\u{7f}' by {
            if i < ll {
                assert(s[i] == lpart[i]);
            } else if i < ll + 2 {
                assert(s[i] == opart[i - ll]);
            } else if i < ll + 2 + xl {
                assert(s[i] == xpart[i - ll - 2]);
            } else if i < ll + 2 + xl + 2 {
                assert(s[i] == dpart[i - ll - 2 - xl]);
            } else {
                assert(s[i] == ppart[i - ll - 4 - xl]);
            }
        }
    }
    assert(2 <= n <= 9);
    // No trailing checkmate or check marker: the last character is a rank
    // digit or a promotion letter.
    assert(s[n - 1] == if pl > 0 {
        ppart[pl - 1]
    } else {
        dpart[1]
    });
    assert(s[n - 1] != '#' && s[n - 1] != '+');
    // Not a castle form: the second character is never '-'.
    assert(s.take(n) =~= s);
    assert(s.take(n) != "O-O"@ && s.take(n) != "O-O-O"@);
    // The promotion suffix is recognized exactly when present.
    if m.promotion != PieceKind::Empty {
        assert(s[n - 2] == ppart[pl - 2]);
        assert(promo_suffix_present(s.take(n)));
        assert(s[n - 1] == ppart[1]);
    } else {
        assert(s[n - 2] == dpart[0]);
        assert(!promo_suffix_present(s.take(n)));
    }
    let e3 = n - pl;
    assert(e3 >= 4);
    // The destination square reads back.
    assert(s.subrange(e3 - 2, e3) =~= dpart);
    assert(valid_square_spec(s.subrange(e3 - 2, e3)));
    assert(sq_of_str(s.subrange(e3 - 2, e3)) == m.dest);
    let e4 = e3 - 2;
    // The capture marker is recognized exactly when present.
    assert(s[e4 - 1] == if m.takes {
        xpart[0]
    } else {
        opart[1]
    });
    assert((e4 >= 1 && s[e4 - 1] == 'x') == m.takes);
    let e5 = if m.takes {
        e4 - 1
    } else {
        e4
    };
    assert(e5 == ll + 2);
    // The trailing two characters of the remainder are the full origin.
    assert(s.take(e5) =~= lpart + opart);
    assert(s.take(e5)[e5 - 1] == opart[1] && s.take(e5)[e5 - 2] == opart[0]);
    assert(ending_count_spec(s.take(e5)) == 2);
    assert(s.subrange(e5 - 2, e5) =~= opart);
    assert(partial_sq_spec(s.subrange(e5 - 2, e5)) == m.origin);
    // What is left selects the piece kind.
    assert(s.take(e5 - 2) =~= lpart);
    assert(piece_of_prefix(s.take(e5 - 2), to_move).kind == m.piece.kind);
    assert(piece_of_prefix(s.take(e5 - 2), to_move).color == to_move);
}

} // verus!
