use jchess::color::Color;
use jchess::moves::MetaMove;
use jchess::notation::parse_notation;
use jchess::piece::PieceKind;
use jchess::rankfile::{File, Rank};

#[test]
fn meta_commands_short_circuit() {
    let m = parse_notation(String::from("quit"), Color::White).unwrap();
    assert_eq!(m.meta, MetaMove::Quit);
    let m = parse_notation(String::from("exit"), Color::Black).unwrap();
    assert_eq!(m.meta, MetaMove::Quit);
    let m = parse_notation(String::from("concede"), Color::White).unwrap();
    assert_eq!(m.meta, MetaMove::Concede);
    let m = parse_notation(String::from("flip"), Color::White).unwrap();
    assert_eq!(m.meta, MetaMove::Flip);
}

#[test]
fn rejects_non_ascii() {
    let e = parse_notation(String::from("\u{e9}4"), Color::White).unwrap_err();
    assert_eq!(e, "Non-ascii input");
}

#[test]
fn rejects_wrong_lengths() {
    let e = parse_notation(String::from("e"), Color::White).unwrap_err();
    assert_eq!(e, "Input is too short");
    let e = parse_notation(String::from("abcdefghij"), Color::White).unwrap_err();
    assert_eq!(e, "Input is too long");
}

#[test]
fn rejects_double_marker() {
    let e = parse_notation(String::from("e4+#"), Color::White).unwrap_err();
    assert_eq!(e, "Both check and checkmate");
}

#[test]
fn rejects_bad_square() {
    let e = parse_notation(String::from("xx"), Color::White).unwrap_err();
    assert_eq!(e, "Invalid square");
    let e = parse_notation(String::from("e9"), Color::White).unwrap_err();
    assert_eq!(e, "Invalid square");
}

#[test]
fn parses_plain_pawn_push() {
    let m = parse_notation(String::from("e4"), Color::White).unwrap();
    assert_eq!(m.piece.kind, PieceKind::Pawn);
    assert_eq!(m.piece.color, Color::White);
    assert_eq!(m.dest.0, File(Some('e')));
    assert_eq!(m.dest.1, Rank(Some(4)));
    assert_eq!(m.origin.0, File(None));
    assert_eq!(m.origin.1, Rank(None));
    assert!(!m.takes);
}

#[test]
fn parses_piece_letter_and_full_origin() {
    let m = parse_notation(String::from("Ng1f3"), Color::White).unwrap();
    assert_eq!(m.piece.kind, PieceKind::Knight);
    assert_eq!(m.origin.0, File(Some('g')));
    assert_eq!(m.origin.1, Rank(Some(1)));
    assert_eq!(m.dest.0, File(Some('f')));
    assert_eq!(m.dest.1, Rank(Some(3)));
}

#[test]
fn parses_file_hint_capture() {
    let m = parse_notation(String::from("bxc4"), Color::Black).unwrap();
    assert_eq!(m.piece.kind, PieceKind::Pawn);
    assert!(m.takes);
    assert_eq!(m.origin.0, File(Some('b')));
    assert_eq!(m.origin.1, Rank(None));
    assert_eq!(m.dest.0, File(Some('c')));
    assert_eq!(m.dest.1, Rank(Some(4)));
}

#[test]
fn parses_rank_hint() {
    let m = parse_notation(String::from("R1a3"), Color::White).unwrap();
    assert_eq!(m.piece.kind, PieceKind::Rook);
    assert_eq!(m.origin.0, File(None));
    assert_eq!(m.origin.1, Rank(Some(1)));
    assert_eq!(m.dest.0, File(Some('a')));
    assert_eq!(m.dest.1, Rank(Some(3)));
}

#[test]
fn parses_promotion_suffix() {
    let m = parse_notation(String::from("e8=Q"), Color::White).unwrap();
    assert_eq!(m.piece.kind, PieceKind::Pawn);
    assert_eq!(m.promotion, PieceKind::Queen);
    assert_eq!(m.dest.0, File(Some('e')));
    assert_eq!(m.dest.1, Rank(Some(8)));
}

#[test]
fn parses_castles_with_markers() {
    let m = parse_notation(String::from("O-O"), Color::White).unwrap();
    assert!(m.castle);
    assert!(!m.long_castle);
    assert_eq!(m.piece.kind, PieceKind::King);
    let m = parse_notation(String::from("O-O-O#"), Color::Black).unwrap();
    assert!(m.long_castle);
    assert!(m.checkmate);
    assert_eq!(m.piece.color, Color::Black);
}

#[test]
fn parses_check_marker() {
    let m = parse_notation(String::from("Qh4+"), Color::Black).unwrap();
    assert!(m.check);
    assert!(!m.checkmate);
    assert_eq!(m.piece.kind, PieceKind::Queen);
}

#[test]
fn notation_formats_moves() {
    let m = parse_notation(String::from("Ng1f3"), Color::White).unwrap();
    assert_eq!(m.notation(), "Ng1f3");
    let m = parse_notation(String::from("O-O"), Color::White).unwrap();
    assert_eq!(m.notation(), "O-O");
    let m = parse_notation(String::from("e7xd8=Q"), Color::White).unwrap();
    assert_eq!(m.notation(), "e7xd8=Q");
}

#[test]
fn debug_formats_moves() {
    let m = parse_notation(String::from("e2e4"), Color::White).unwrap();
    assert_eq!(m.debug(), "Pawn on e2 to e4  ");
}

#[test]
fn rejects_unknown_piece_letter() {
    let e = parse_notation(String::from("Zc4"), Color::White).unwrap_err();
    assert_eq!(e, "Unrecognized piece letter");
    let e = parse_notation(String::from("zc4"), Color::Black).unwrap_err();
    assert_eq!(e, "Unrecognized piece letter");
}
