use jchess::color::Color;
use jchess::game::{Game, PrintMode};
use jchess::piece::{Piece, PieceKind};
use jchess::rankfile::{File, Rank};

fn fresh_game() -> Game {
    let mut game = Game::new();
    game.default_board();
    game
}

/// Parses, disambiguates, performs and finishes one ply, as the input loop
/// would.
fn play(game: &mut Game, text: &str) {
    let mut m = game.parse_notation(String::from(text)).unwrap();
    assert!(game.disambiguate(&mut m).is_none(), "move {} did not resolve", text);
    game.do_move(m);
    game.next_turn();
}

#[test]
fn start_position_has_twenty_moves() {
    let game = fresh_game();
    assert_eq!(game.list_valid_moves().len(), 20);
}

#[test]
fn listed_moves_never_leave_own_king_attacked() {
    // A white knight on e4 sits between the black rook on e8 and its own
    // king on e1: it is pinned, and no listed move may move it.
    let mut game = Game::new();
    game.board.set(4, 0, Piece::make(PieceKind::King, Color::White, false, 0));
    game.board.set(4, 3, Piece::make(PieceKind::Knight, Color::White, false, 0));
    game.board.set(4, 7, Piece::make(PieceKind::Rook, Color::Black, false, 0));
    game.board.set(0, 7, Piece::make(PieceKind::King, Color::Black, false, 0));
    let moves = game.list_valid_moves();
    assert!(moves.len() > 0);
    for m in moves {
        let mut copy = game.snapshot();
        copy.do_move(m);
        assert!(!copy.is_check());
        assert!(
            !(m.origin.0 == File(Some('e')) && m.origin.1 == Rank(Some(4))),
            "pinned knight was allowed to move"
        );
    }
}

#[test]
fn opening_pawn_double_step() {
    let game = fresh_game();
    let mut m = game.parse_notation(String::from("e4")).unwrap();
    assert!(game.disambiguate(&mut m).is_none());
    assert_eq!(m.origin.0, File(Some('e')));
    assert_eq!(m.origin.1, Rank(Some(2)));
    assert_eq!(m.dest.0, File(Some('e')));
    assert_eq!(m.dest.1, Rank(Some(4)));
    assert!(m.pawn_double);
    assert!(!m.takes);
}

#[test]
fn knight_development_resolves_unambiguously() {
    let game = fresh_game();
    let mut m = game.parse_notation(String::from("Nf3")).unwrap();
    assert!(game.disambiguate(&mut m).is_none());
    assert_eq!(m.origin.0, File(Some('g')));
    assert_eq!(m.origin.1, Rank(Some(1)));
    assert_eq!(m.dest.0, File(Some('f')));
    assert_eq!(m.dest.1, Rank(Some(3)));
}

#[test]
fn fools_mate_is_checkmate() {
    let mut game = fresh_game();
    play(&mut game, "f3");
    play(&mut game, "e5");
    play(&mut game, "g4");
    play(&mut game, "Qh4");
    // White to move, mated.
    assert_eq!(game.current_color(), Color::White);
    assert!(game.is_check());
    assert!(!game.any_valid_moves());
    game.set_checkmate();
    let last = game.history[game.history.len() - 1];
    assert!(last.checkmate);
    assert!(!last.check);
}

#[test]
fn kingside_castle_repositions_king_and_rook() {
    let mut game = fresh_game();
    // Empty f1 and g1, as after developing bishop and knight.
    game.board.set(5, 0, Piece::empty());
    game.board.set(6, 0, Piece::empty());
    let mut m = game.parse_notation(String::from("O-O")).unwrap();
    assert!(game.disambiguate(&mut m).is_none());
    game.do_move(m);
    let king = game.board.get(6, 0);
    assert_eq!(king.kind, PieceKind::King);
    assert!(king.has_moved);
    let rook = game.board.get(5, 0);
    assert_eq!(rook.kind, PieceKind::Rook);
    assert!(rook.has_moved);
    assert_eq!(game.board.get(4, 0).kind, PieceKind::Empty);
    assert_eq!(game.board.get(7, 0).kind, PieceKind::Empty);
}

#[test]
fn castle_refused_when_path_blocked_or_king_moved() {
    let game = fresh_game();
    let mut m = game.parse_notation(String::from("O-O")).unwrap();
    let err = game.disambiguate(&mut m).unwrap();
    assert_eq!(err, "Castle path is not clear");

    let mut game = fresh_game();
    game.board.set(5, 0, Piece::empty());
    game.board.set(6, 0, Piece::empty());
    let mut king = game.board.get(4, 0);
    king.has_moved = true;
    game.board.set(4, 0, king);
    let mut m = game.parse_notation(String::from("O-O")).unwrap();
    let err = game.disambiguate(&mut m).unwrap();
    assert_eq!(err, "King/Rook are not valid");
}

#[test]
fn ambiguous_knights_are_refused() {
    let mut game = Game::new();
    game.board.set(1, 0, Piece::make(PieceKind::Knight, Color::White, false, 0));
    game.board.set(5, 2, Piece::make(PieceKind::Knight, Color::White, false, 0));
    let mut m = game.parse_notation(String::from("Nd2")).unwrap();
    let err = game.disambiguate(&mut m).unwrap();
    assert_eq!(err, "No pieces can make that move");
}

#[test]
fn no_matching_piece_is_its_own_error() {
    let mut game = Game::new();
    let mut m = game.parse_notation(String::from("Nd2")).unwrap();
    let err = game.disambiguate(&mut m).unwrap();
    assert_eq!(err, "No pieces match");
    // An unresolved move must leave the original untouched.
    assert_eq!(m.origin.0, File(None));
    assert_eq!(m.origin.1, Rank(None));
    let _ = &mut game;
}

#[test]
fn en_passant_captures_the_double_stepped_pawn() {
    let mut game = fresh_game();
    play(&mut game, "e4");
    play(&mut game, "a6");
    play(&mut game, "e5");
    play(&mut game, "d5");
    // The black d-pawn just double-stepped past the e5 pawn.
    let mut m = game.parse_notation(String::from("exd6")).unwrap();
    assert!(game.disambiguate(&mut m).is_none());
    assert_eq!(m.en_passant, Some((File(Some('d')), Rank(Some(5)))));
    game.do_move(m);
    // The capturer landed on d6 and the double-stepped pawn is gone from d5.
    assert_eq!(game.board.get(3, 5).kind, PieceKind::Pawn);
    assert_eq!(game.board.get(3, 5).color, Color::White);
    assert_eq!(game.board.get(3, 4).kind, PieceKind::Empty);
}

#[test]
fn en_passant_expires_after_one_ply() {
    let mut game = fresh_game();
    play(&mut game, "e4");
    play(&mut game, "a6");
    play(&mut game, "e5");
    play(&mut game, "d5");
    play(&mut game, "h3");
    play(&mut game, "a5");
    // Two plies later the en-passant capture is no longer available.
    let mut m = game.parse_notation(String::from("exd6")).unwrap();
    assert!(game.disambiguate(&mut m).is_some());
}

#[test]
fn promotion_rules() {
    let mut game = Game::new();
    game.board.set(0, 6, Piece::make(PieceKind::Pawn, Color::White, true, 0));

    // Promotion to a queen on the far rank is accepted and applied.
    let mut m = game.parse_notation(String::from("a8=Q")).unwrap();
    assert!(game.disambiguate(&mut m).is_none());
    game.do_move(m);
    assert_eq!(game.board.get(0, 7).kind, PieceKind::Queen);

    // Reaching the far rank without naming a promotion is refused.
    let mut game = Game::new();
    game.board.set(0, 6, Piece::make(PieceKind::Pawn, Color::White, true, 0));
    let mut m = game.parse_notation(String::from("a8")).unwrap();
    assert!(game.disambiguate(&mut m).is_some());

    // Promoting to a king is refused.
    let mut m = game.parse_notation(String::from("a8=K")).unwrap();
    assert!(game.disambiguate(&mut m).is_some());

    // A promotion away from the far rank is refused.
    let mut game = Game::new();
    game.board.set(0, 1, Piece::make(PieceKind::Pawn, Color::White, false, 0));
    let mut m = game.parse_notation(String::from("a4=Q")).unwrap();
    assert!(game.disambiguate(&mut m).is_some());
}

#[test]
fn captures_are_recorded() {
    let mut game = fresh_game();
    play(&mut game, "e4");
    play(&mut game, "d5");
    play(&mut game, "exd5");
    assert_eq!(game.white_cap.len(), 1);
    assert_eq!(game.white_cap[0].kind, PieceKind::Pawn);
    assert_eq!(game.white_cap[0].color, Color::Black);
    assert_eq!(game.black_cap.len(), 0);
}

#[test]
fn next_turn_counts_rounds() {
    let mut game = fresh_game();
    assert_eq!(game.turn_count, 1);
    play(&mut game, "e4");
    assert_eq!(game.current_color(), Color::Black);
    assert_eq!(game.turn_count, 1);
    play(&mut game, "e5");
    assert_eq!(game.current_color(), Color::White);
    assert_eq!(game.turn_count, 2);
}

#[test]
fn do_move_flags_check_on_history() {
    let mut game = Game::new();
    game.board.set(4, 0, Piece::make(PieceKind::King, Color::White, false, 0));
    game.board.set(4, 7, Piece::make(PieceKind::King, Color::Black, false, 0));
    game.board.set(0, 0, Piece::make(PieceKind::Rook, Color::White, false, 0));
    // Ra1-a8 gives check to the black king.
    let mut m = game.parse_notation(String::from("Ra8")).unwrap();
    assert!(game.disambiguate(&mut m).is_none());
    game.do_move(m);
    let last = game.history[game.history.len() - 1];
    assert!(last.check);
}

#[test]
fn rook_cannot_jump() {
    let game = fresh_game();
    let mut m = game.parse_notation(String::from("Ra1a3")).unwrap();
    let err = game.disambiguate(&mut m).unwrap();
    assert_eq!(err, "No pieces can make that move");
}

#[test]
fn own_piece_blocks_destination() {
    let game = fresh_game();
    let mut m = game.parse_notation(String::from("Ke1d1")).unwrap();
    // With a full origin the single candidate fails with the precise error.
    let err = game.disambiguate(&mut m).unwrap();
    assert_eq!(err, "No pieces can make that move");
}

#[test]
fn stalemate_and_concede_modes() {
    let mut game = Game::new();
    game.set_stalemate();
    assert_eq!(game.print_mode, PrintMode::Stalemate);
    game.set_concede();
    assert_eq!(game.print_mode, PrintMode::Checkmate);
}

#[test]
fn snapshot_allows_rollback() {
    let mut game = fresh_game();
    let before = game.snapshot();
    play(&mut game, "e4");
    assert_eq!(game.history.len(), 1);
    assert_eq!(before.history.len(), 0);
    assert_eq!(before.board.get(4, 1).kind, PieceKind::Pawn);
    assert_eq!(game.board.get(4, 1).kind, PieceKind::Empty);
}

#[test]
fn notation_round_trips_through_parse_and_disambiguate() {
    let game = fresh_game();
    for m in game.list_valid_moves() {
        if m.castle || m.long_castle {
            continue;
        }
        let text = m.notation();
        let mut back = game.parse_notation(text.clone()).unwrap();
        assert!(
            game.disambiguate(&mut back).is_none(),
            "reparsed {} did not resolve",
            text
        );
        assert_eq!(back.origin.0, m.origin.0);
        assert_eq!(back.origin.1, m.origin.1);
        assert_eq!(back.dest.0, m.dest.0);
        assert_eq!(back.dest.1, m.dest.1);
        assert_eq!(back.piece.kind, m.piece.kind);
        assert_eq!(back.promotion, m.promotion);
    }
}

#[test]
fn stalemate_position_has_no_moves_and_no_check() {
    // Black king a8, White queen b6, White king h1: Black to move has no
    // legal move but is not in check.
    let mut game = Game::new();
    game.board.set(0, 7, Piece::make(PieceKind::King, Color::Black, true, 0));
    game.board.set(1, 5, Piece::make(PieceKind::Queen, Color::White, true, 0));
    game.board.set(7, 0, Piece::make(PieceKind::King, Color::White, true, 0));
    game.to_move = Color::Black;
    assert!(!game.is_check());
    assert!(!game.any_valid_moves());
    game.set_stalemate();
    assert_eq!(game.print_mode, PrintMode::Stalemate);
}

#[test]
fn validation_error_messages() {
    let game = fresh_game();

    // A claimed capture onto an empty square with no en-passant match.
    let mut m = game.parse_notation(String::from("e2xd3")).unwrap();
    assert_eq!(
        game.is_valid_move(&mut m).unwrap(),
        "There is no piece to take"
    );

    // Standing still on an empty square.
    let mut m = game.parse_notation(String::from("e4e4")).unwrap();
    assert_eq!(
        game.is_valid_move(&mut m).unwrap(),
        "Origin and Destination are the same"
    );

    // A friendly piece on the destination.
    let mut m = game.parse_notation(String::from("Ke1d1")).unwrap();
    assert_eq!(
        game.is_valid_move(&mut m).unwrap(),
        "There is a piece at the destination"
    );

    // A shape the piece cannot make.
    let mut m = game.parse_notation(String::from("Ng1g3")).unwrap();
    assert_eq!(
        game.is_valid_move(&mut m).unwrap(),
        "Selected piece cannot make that move"
    );
}

#[test]
fn promotion_on_non_pawn_is_rejected() {
    let game = fresh_game();
    // A knight move carrying a promotion request must not pass validation.
    let mut m = game.parse_notation(String::from("Ng1f3=Q")).unwrap();
    assert_eq!(
        game.is_valid_move(&mut m).unwrap(),
        "Selected piece cannot make that move"
    );
    let mut m = game.parse_notation(String::from("Ng1f3=Q")).unwrap();
    assert!(game.disambiguate(&mut m).is_some());
    // The same move without the request is fine.
    let mut m = game.parse_notation(String::from("Ng1f3")).unwrap();
    assert!(game.is_valid_move(&mut m).is_none());
}

#[test]
fn listed_moves_include_all_four_promotions() {
    let mut game = Game::new();
    game.board.set(0, 6, Piece::make(PieceKind::Pawn, Color::White, true, 0));
    game.board.set(7, 0, Piece::make(PieceKind::King, Color::White, true, 0));
    game.board.set(7, 7, Piece::make(PieceKind::King, Color::Black, true, 0));
    let moves = game.list_valid_moves();
    let promotions: Vec<_> = moves
        .iter()
        .filter(|m| m.origin.0 == File(Some('a')) && m.origin.1 == Rank(Some(7)))
        .collect();
    assert_eq!(promotions.len(), 4);
    assert!(promotions.iter().any(|m| m.promotion == PieceKind::Knight));
    assert!(promotions.iter().any(|m| m.promotion == PieceKind::Bishop));
    assert!(promotions.iter().any(|m| m.promotion == PieceKind::Rook));
    assert!(promotions.iter().any(|m| m.promotion == PieceKind::Queen));
}

#[test]
fn any_valid_moves_agrees_with_the_list() {
    // Start position: moves exist.
    let game = fresh_game();
    assert_eq!(game.any_valid_moves(), !game.list_valid_moves().is_empty());
    assert!(game.any_valid_moves());
    // Lone kings: moves exist for the mover.
    let mut game = Game::new();
    game.board.set(0, 0, Piece::make(PieceKind::King, Color::White, true, 0));
    game.board.set(7, 7, Piece::make(PieceKind::King, Color::Black, true, 0));
    assert_eq!(game.any_valid_moves(), !game.list_valid_moves().is_empty());
    // Empty board: no moves at all.
    let game = Game::new();
    assert_eq!(game.any_valid_moves(), !game.list_valid_moves().is_empty());
    assert!(!game.any_valid_moves());
}

#[test]
fn castling_counts_as_a_valid_move() {
    // Kingside castle available: the position has moves, and the castle
    // itself is among them.
    let mut game = fresh_game();
    game.board.set(5, 0, Piece::empty());
    game.board.set(6, 0, Piece::empty());
    assert!(game.any_valid_moves());
    let moves = game.list_valid_moves();
    assert!(moves.iter().any(|m| m.castle));
}
