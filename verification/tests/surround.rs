use jchess::bots::{Bogobot, Human};
use jchess::color::Color;
use jchess::game::{Game, GameMode, PrintMode, StartColor};
use jchess::piece::{Piece, PieceKind};
use jchess::player::{Player, PlayerKind};
use jchess::rankfile::{
    back_rank_index, promotion_rank_index, rook_castle_file, tuple_to_square, File, Rank,
};
use jchess::setup::{Entry, Setup};

#[test]
fn rank_and_file_conversions() {
    assert_eq!(Rank::new(3), Rank(Some(3)));
    assert_eq!(Rank::new(0), Rank(None));
    assert_eq!(Rank::new(9), Rank(None));
    assert_eq!(Rank::from_index(0), Rank(Some(1)));
    assert_eq!(Rank::from_index(8), Rank(None));
    assert!(Rank(Some(8)).is_valid());
    assert!(!Rank(None).is_valid());
    assert_eq!(Rank(Some(5)).index(), Some(4));
    assert_eq!(Rank(None).index(), None);
    assert_eq!(Rank(Some(7)).to_string(), "7");

    assert_eq!(File::new('c'), File(Some('c')));
    assert_eq!(File::new('z'), File(None));
    assert_eq!(File::from_index(7), File(Some('h')));
    assert_eq!(File::from_index(9), File(None));
    assert!(File(Some('a')).is_valid());
    assert!(!File(Some('i')).is_valid());
    assert_eq!(File(Some('d')).index(), Some(3));
    assert_eq!(File(Some('b')).to_string(), "b");

    assert_eq!(tuple_to_square((File(Some('e')), Rank(Some(4)))), "e4");
    assert_eq!(tuple_to_square((File(None), Rank(None))), "");
}

#[test]
fn board_geometry_constants() {
    assert_eq!(back_rank_index(Color::White), 0);
    assert_eq!(back_rank_index(Color::Black), 7);
    assert_eq!(promotion_rank_index(Color::White), 7);
    assert_eq!(promotion_rank_index(Color::Black), 0);
    assert_eq!(rook_castle_file(false), 7);
    assert_eq!(rook_castle_file(true), 0);
}

#[test]
fn piece_strings() {
    assert_eq!(Color::White.to_string(), "White");
    assert_eq!(Color::Black.to_string(), "Black");
    assert_eq!(PieceKind::Knight.debug_string(), "Knight");
    assert_eq!(PieceKind::Knight.to_letter(), "N");
    assert_eq!(PieceKind::Pawn.to_letter(), "");
    let p = Piece::make(PieceKind::Queen, Color::Black, false, 0);
    assert_eq!(p.to_letter(), "Q");
    assert_eq!(p.debug_string(), "Queen");
    assert!(p.get_string().contains('\u{265b}'));
    assert!(p.matches(Piece::make(PieceKind::Queen, Color::Black, true, 2)));
    assert!(!p.matches(Piece::make(PieceKind::Queen, Color::White, false, 0)));
}

#[test]
fn bot_always_picks_a_legal_move() {
    let mut game = Game::new();
    game.default_board();
    let bot = Bogobot::new();
    for _ in 0..50 {
        let m = bot.get_move(&game).unwrap();
        // Each draw must be playable: apply it to a copy without self-check.
        let mut copy = game.snapshot();
        copy.do_move(m);
        assert!(!copy.is_check());
    }
    let empty = Game::new();
    assert_eq!(bot.get_move(&empty).unwrap_err(), "No valid moves for BogoBot!");
}

#[test]
fn player_kinds() {
    let human = Human::new();
    assert!(human.is_human());
    assert!(!human.is_bot());
    assert_eq!(human.id_string(), "Human");
    assert_eq!(human.kind(), PlayerKind::Human);
    let bot = Bogobot::new();
    assert!(bot.is_bot());
    assert_eq!(bot.id_string(), "BogoBot");
    assert_eq!(bot.kind(), PlayerKind::Bogobot);
}

#[test]
fn start_game_against_bot_assigns_colors() {
    let mut game = Game::new();
    game.set_player_two(PlayerKind::Bogobot);
    game.set_start_color(StartColor::Black);
    game.start_game();
    assert_eq!(game.print_mode, PrintMode::Game);
    assert_eq!(game.player_one.color, Color::Black);
    assert_eq!(game.player_two.color, Color::White);
    assert_eq!(game.board.get(4, 0).kind, PieceKind::King);
    assert_eq!(game.board.get(3, 7).kind, PieceKind::Queen);
    assert_eq!(game.current_color(), Color::White);
    assert_eq!(game.player(Color::White), PlayerKind::Bogobot);
    assert_eq!(game.current_player(), PlayerKind::Bogobot);
}

#[test]
fn game_mode_follows_seats() {
    let mut game = Game::new();
    assert_eq!(game.game_mode, GameMode::AgainstHumanLocal);
    assert_eq!(game.game_mode_string(), "2 Player Local");
    game.set_player_two(PlayerKind::Bogobot);
    assert_eq!(game.game_mode, GameMode::AgainstBotLocal);
    assert_eq!(game.game_mode_string(), "Against Bot");
    game.set_player_two(PlayerKind::Human);
    assert_eq!(game.game_mode, GameMode::AgainstHumanLocal);
}

#[test]
fn error_notes_and_flip() {
    let mut game = Game::new();
    game.set_error(String::from("bad move"));
    assert_eq!(game.error, "Error: bad move");
    game.clear_notes();
    assert_eq!(game.error, "");
    assert_eq!(game.orientation, Color::White);
    game.flip_board();
    assert_eq!(game.orientation, Color::Black);
    assert!(game.toggle_flip());
    assert!(!game.toggle_flip());
}

#[test]
fn setup_menu_navigation() {
    let mut setup = Setup::new();
    let mut game = Game::new();
    assert!(matches!(setup.current().this(), Entry::Base));
    assert_eq!(setup.current().print_entry(0), "1. Change Opponent");
    assert_eq!(setup.current().print_entry(9), "");
    // Descend into opponent selection, pick the bot.
    assert!(!setup.select(0, &mut game));
    assert!(matches!(setup.current().this(), Entry::SelectOpponent));
    assert!(!setup.select(1, &mut game));
    assert!(matches!(setup.current().this(), Entry::BotOpp));
    assert!(!setup.select(0, &mut game));
    assert_eq!(setup.confirm_string(), "Set Opponent: BogoBot");
    assert_eq!(game.player_two.player, PlayerKind::Bogobot);
    // Back out to the root, then leave.
    assert!(!setup.select(1, &mut game));
    assert!(!setup.select(2, &mut game));
    assert!(matches!(setup.current().this(), Entry::Base));
    assert!(setup.select(3, &mut game));
}

#[test]
fn setup_color_and_flip_entries() {
    let mut setup = Setup::new();
    let mut game = Game::new();
    assert!(!setup.select(1, &mut game));
    assert!(!setup.select(2, &mut game));
    assert_eq!(setup.confirm_string(), "Set Player Color: Random");
    assert_eq!(game.start_color, StartColor::Random);
    assert!(!setup.select(3, &mut game));
    assert!(!setup.select(2, &mut game));
    assert_eq!(setup.confirm_string(), "Toggled Board Flip: true");
    assert!(game.do_flip);
    assert_eq!(Entry::DoFlip.string(), "Toggle Board Flip");
}

#[test]
fn rendered_board_lines() {
    let mut game = Game::new();
    game.default_board();
    // The white back rank shows the king glyph on a colored square.
    let rank = game.print_rank(0);
    assert!(rank.contains('\u{2654}'));
    assert!(rank.ends_with("\x1b[0m"));
    assert_eq!(game.print_rank_label(), "a b c d e f g h ");
    game.flip_board();
    assert_eq!(game.print_rank_label(), "h g f e d c b a ");
    let sq = game.board_square(0, 0);
    assert!(sq.contains('\u{2656}'));
}

#[test]
fn notation_history_lines() {
    let mut game = Game::new();
    game.default_board();
    let mut m = game.parse_notation(String::from("e4")).unwrap();
    assert!(game.disambiguate(&mut m).is_none());
    game.do_move(m);
    game.next_turn();
    let mut m = game.parse_notation(String::from("e5")).unwrap();
    assert!(game.disambiguate(&mut m).is_none());
    game.do_move(m);
    game.next_turn();
    assert_eq!(game.print_notation_history(0), "   1. e2e4       e7e5      ");
    assert_eq!(game.print_notation_history(1), "");
}

#[test]
fn captured_piece_line() {
    let mut game = Game::new();
    game.default_board();
    let mut m = game.parse_notation(String::from("e4")).unwrap();
    assert!(game.disambiguate(&mut m).is_none());
    game.do_move(m);
    game.next_turn();
    let mut m = game.parse_notation(String::from("d5")).unwrap();
    assert!(game.disambiguate(&mut m).is_none());
    game.do_move(m);
    game.next_turn();
    let mut m = game.parse_notation(String::from("exd5")).unwrap();
    assert!(game.disambiguate(&mut m).is_none());
    game.do_move(m);
    assert_eq!(game.cap_string(Color::Black), "");
    assert!(game.cap_string(Color::White).contains('\u{265f}'));
}

#[test]
fn highlight_marks_king_and_clears() {
    let mut game = Game::new();
    game.default_board();
    game.hl_king();
    assert_eq!(game.board.get(4, 0).highlight, 2);
    game.clear_hl();
    assert_eq!(game.board.get(4, 0).highlight, 0);
}
