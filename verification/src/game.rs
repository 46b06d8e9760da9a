//! The game controller: board state, turn and history bookkeeping, move
//! legality (movement rules, castling, en passant, promotion, and the
//! self-check filter), disambiguation of parsed moves, and terminal-state
//! transitions.

use vstd::prelude::*;

use crate::board::{sq_index, Board};
use crate::color::Color;
use crate::moves::{MetaMove, Move};
use crate::notation::parse_spec;
use crate::piece::{Piece, PieceKind};
use crate::player::PlayerKind;
use crate::rankfile::{
    back_rank_index, promotion_rank_index, rook_castle_file, spec_back_rank_index,
    spec_promotion_rank_index, spec_rook_castle_file, File, Rank,
};

verus! {

#[derive(Copy, Clone, PartialEq, Eq, Structural, Debug)]
pub enum GameMode {
    AgainstHumanLocal,
    AgainstBotLocal,
}

#[derive(Copy, Clone, PartialEq, Eq, Structural, Debug)]
pub enum StartColor {
    White,
    Black,
    Random,
}

/// What the surrounding presentation should show; the rules never read it
/// except to refuse moves in terminal states.
#[derive(Copy, Clone, PartialEq, Eq, Structural, Debug)]
pub enum PrintMode {
    Title,
    Setup,
    Game,
    /// Also shown for concedes.
    Checkmate,
    /// Also shown for draws.
    Stalemate,
}

/// A seat: which kind of move source plays it, and with which color.
#[derive(Copy, Clone, PartialEq, Eq, Structural, Debug)]
pub struct ActionablePlayer {
    pub player: PlayerKind,
    pub color: Color,
}

impl ActionablePlayer {
    pub fn is_human(&self) -> (res: bool)
        ensures
            res == (self.player == PlayerKind::Human),
    {
        self.player.is_human()
    }

    pub fn is_bot(&self) -> (res: bool)
        ensures
            res == (self.player == PlayerKind::Bogobot),
    {
        self.player.is_bot()
    }

    pub fn color(&self) -> (res: Color)
        ensures
            res == self.color,
    {
        self.color
    }

    pub fn reset(&mut self)
        ensures
            *final(self) == *old(self),
    {
    }
}

pub struct Game {
    /// Board coordinates are in the order (file, rank), 0-based.
    pub board: Board,
    pub to_move: Color,
    /// In human-bot matches the human is player one; in human-human matches
    /// player one is White.
    pub player_one: ActionablePlayer,
    pub player_two: ActionablePlayer,
    pub turn_count: u32,
    pub history: Vec<Move>,
    pub white_cap: Vec<Piece>,
    pub black_cap: Vec<Piece>,
    pub error: String,
    pub orientation: Color,
    pub do_flip: bool,
    pub game_mode: GameMode,
    pub start_color: StartColor,
    pub print_mode: PrintMode,
}

impl Game {
    /// The board has its 64 squares.
    pub open spec fn wf(self) -> bool {
        self.board.wf()
    }

    /// The standard starting piece of the back rank at the given file.
    pub open spec fn sp_back_kind(f: int) -> PieceKind {
        if f == 0 || f == 7 {
            PieceKind::Rook
        } else if f == 1 || f == 6 {
            PieceKind::Knight
        } else if f == 2 || f == 5 {
            PieceKind::Bishop
        } else if f == 3 {
            PieceKind::Queen
        } else {
            PieceKind::King
        }
    }

    pub fn new() -> (res: Self)
        ensures
            res.wf(),
            forall|i: int| 0 <= i < 64 ==> res.board@[i] == Piece::spec_empty(),
            res.to_move == Color::White,
            res.player_one == (ActionablePlayer {
                player: PlayerKind::Human,
                color: Color::White,
            }),
            res.player_two == (ActionablePlayer {
                player: PlayerKind::Human,
                color: Color::Black,
            }),
            res.turn_count == 1,
            res.history@ == Seq::<Move>::empty(),
            res.white_cap@ == Seq::<Piece>::empty(),
            res.black_cap@ == Seq::<Piece>::empty(),
            res.error@ == Seq::<char>::empty(),
            res.orientation == Color::White,
            !res.do_flip,
            res.game_mode == GameMode::AgainstHumanLocal,
            res.start_color == StartColor::White,
            res.print_mode == PrintMode::Title,
    {
        Game {
            board: Board::new(),
            to_move: Color::White,
            player_one: ActionablePlayer { player: PlayerKind::Human, color: Color::White },
            player_two: ActionablePlayer { player: PlayerKind::Human, color: Color::Black },
            turn_count: 1,
            history: Vec::new(),
            white_cap: Vec::new(),
            black_cap: Vec::new(),
            error: String::new(),
            orientation: Color::White,
            do_flip: false,
            game_mode: GameMode::AgainstHumanLocal,
            start_color: StartColor::White,
            print_mode: PrintMode::Title,
        }
    }

    fn back_kind(f: usize) -> (res: PieceKind)
        requires
            f < 8,
        ensures
            res == Game::sp_back_kind(f as int),
    {
        if f == 0 || f == 7 {
            PieceKind::Rook
        } else if f == 1 || f == 6 {
            PieceKind::Knight
        } else if f == 2 || f == 5 {
            PieceKind::Bishop
        } else if f == 3 {
            PieceKind::Queen
        } else {
            PieceKind::King
        }
    }

    /// Fills the four home ranks with the standard starting position; the
    /// middle of the board is left as it was.
    pub fn default_board(&mut self)
        requires
            old(self).wf(),
        ensures
            final(self).wf(),
            forall|f: int, r: int|
                0 <= f < 8 && 0 <= r < 8 ==> final(self).board.at(f, r) == {
                    if r == 0 {
                        Piece {
                            kind: Game::sp_back_kind(f),
                            color: Color::White,
                            has_moved: false,
                            highlight: 0,
                        }
                    } else if r == 1 {
                        Piece {
                            kind: PieceKind::Pawn,
                            color: Color::White,
                            has_moved: false,
                            highlight: 0,
                        }
                    } else if r == 6 {
                        Piece {
                            kind: PieceKind::Pawn,
                            color: Color::Black,
                            has_moved: false,
                            highlight: 0,
                        }
                    } else if r == 7 {
                        Piece {
                            kind: Game::sp_back_kind(f),
                            color: Color::Black,
                            has_moved: false,
                            highlight: 0,
                        }
                    } else {
                        old(self).board.at(f, r)
                    }
                },
            final(self).to_move == Color::White,
            *final(self) == (Game {
                board: final(self).board,
                to_move: Color::White,
                ..*old(self)
            }),
    {
        self.to_move = Color::White;
        let mut f: usize = 0;
        while f < 8
            invariant
                f <= 8,
                self.wf(),
                forall|f0: int, r0: int|
                    0 <= f0 < 8 && 0 <= r0 < 8 && f0 >= f ==> self.board.at(f0, r0) == old(
                        self,
                    ).board.at(f0, r0),
                forall|f0: int, r0: int|
                    0 <= f0 < f && 0 <= r0 < 8 ==> self.board.at(f0, r0) == {
                        if r0 == 0 {
                            Piece {
                                kind: Game::sp_back_kind(f0),
                                color: Color::White,
                                has_moved: false,
                                highlight: 0,
                            }
                        } else if r0 == 1 {
                            Piece {
                                kind: PieceKind::Pawn,
                                color: Color::White,
                                has_moved: false,
                                highlight: 0,
                            }
                        } else if r0 == 6 {
                            Piece {
                                kind: PieceKind::Pawn,
                                color: Color::Black,
                                has_moved: false,
                                highlight: 0,
                            }
                        } else if r0 == 7 {
                            Piece {
                                kind: Game::sp_back_kind(f0),
                                color: Color::Black,
                                has_moved: false,
                                highlight: 0,
                            }
                        } else {
                            old(self).board.at(f0, r0)
                        }
                    },
                *self == (Game { board: self.board, to_move: Color::White, ..*old(self) }),
            decreases 8 - f,
        {
            let kind = Game::back_kind(f);
            self.board.set(f, 0, Piece::make(kind, Color::White, false, 0));
            self.board.set(f, 1, Piece::make(PieceKind::Pawn, Color::White, false, 0));
            self.board.set(f, 6, Piece::make(PieceKind::Pawn, Color::Black, false, 0));
            self.board.set(f, 7, Piece::make(kind, Color::Black, false, 0));
            f = f + 1;
        }
    }

    pub fn title(&mut self)
        ensures
            *final(self) == (Game { print_mode: PrintMode::Title, ..*old(self) }),
    {
        self.print_mode = PrintMode::Title;
    }

    pub fn start_setup(&mut self)
        ensures
            *final(self) == (Game { print_mode: PrintMode::Setup, ..*old(self) }),
    {
        self.print_mode = PrintMode::Setup;
    }

    /// Forgets the game in progress: empty board and history, White to move.
    pub fn clear(&mut self)
        ensures
            final(self).wf(),
            forall|i: int| 0 <= i < 64 ==> final(self).board@[i] == Piece::spec_empty(),
            final(self).history@ == Seq::<Move>::empty(),
            final(self).white_cap@ == Seq::<Piece>::empty(),
            final(self).black_cap@ == Seq::<Piece>::empty(),
            final(self).to_move == Color::White,
            final(self).turn_count == 1,
            final(self).orientation == Color::White,
            final(self).player_one == (ActionablePlayer {
                player: old(self).player_one.player,
                color: Color::White,
            }),
            final(self).player_two == (ActionablePlayer {
                player: old(self).player_two.player,
                color: Color::Black,
            }),
            final(self).error == old(self).error,
            final(self).do_flip == old(self).do_flip,
            final(self).game_mode == old(self).game_mode,
            final(self).start_color == old(self).start_color,
            final(self).print_mode == old(self).print_mode,
    {
        self.history.clear();
        self.white_cap.clear();
        self.black_cap.clear();
        self.board = Board::new();
        self.to_move = Color::White;
        self.turn_count = 1;
        self.orientation = Color::White;
        self.player_one.reset();
        self.player_one.color = Color::White;
        self.player_two.reset();
        self.player_two.color = Color::Black;
    }

    pub fn toggle_flip(&mut self) -> (res: bool)
        ensures
            *final(self) == (Game { do_flip: !old(self).do_flip, ..*old(self) }),
            res == !old(self).do_flip,
    {
        self.do_flip = !self.do_flip;
        self.do_flip
    }

    pub fn set_start_color(&mut self, color: StartColor)
        ensures
            *final(self) == (Game { start_color: color, ..*old(self) }),
    {
        self.start_color = color;
    }

    pub fn current_player(&self) -> (res: PlayerKind)
        ensures
            res == self.spec_player(self.to_move),
    {
        self.player(self.to_move)
    }

    /// The seat playing the given color; player one's color decides.
    pub open spec fn spec_player(self, color: Color) -> PlayerKind {
        if color == self.player_one.color {
            self.player_one.player
        } else {
            self.player_two.player
        }
    }

    pub fn player(&self, color: Color) -> (res: PlayerKind)
        ensures
            res == self.spec_player(color),
    {
        if color == self.player_one.color() {
            self.player_one.player
        } else {
            self.player_two.player
        }
    }

    pub fn current_color(&self) -> (res: Color)
        ensures
            res == self.to_move,
    {
        self.to_move
    }

    /// The game mode implied by the two seats, where one is implied.
    pub open spec fn sp_updated_mode(self) -> GameMode {
        if self.player_two.player == PlayerKind::Bogobot && self.player_one.player
            == PlayerKind::Human {
            GameMode::AgainstBotLocal
        } else if self.player_two.player == PlayerKind::Human && self.player_one.player
            == PlayerKind::Human {
            GameMode::AgainstHumanLocal
        } else {
            self.game_mode
        }
    }

    fn update_game_mode(&mut self)
        ensures
            *final(self) == (Game { game_mode: old(self).sp_updated_mode(), ..*old(self) }),
    {
        if self.player_two.player.is_bot() && self.player_one.player.is_human() {
            self.game_mode = GameMode::AgainstBotLocal;
        } else if self.player_two.player.is_human() && self.player_one.player.is_human() {
            self.game_mode = GameMode::AgainstHumanLocal;
        }
    }

    pub fn set_player_one(&mut self, player: PlayerKind)
        ensures
            *final(self) == (Game {
                player_one: ActionablePlayer { player, color: old(self).player_one.color },
                game_mode: (Game {
                    player_one: ActionablePlayer { player, color: old(self).player_one.color },
                    ..*old(self)
                }).sp_updated_mode(),
                ..*old(self)
            }),
    {
        self.player_one.player = player;
        self.update_game_mode();
    }

    pub fn set_player_two(&mut self, player: PlayerKind)
        ensures
            *final(self) == (Game {
                player_two: ActionablePlayer { player, color: old(self).player_two.color },
                game_mode: (Game {
                    player_two: ActionablePlayer { player, color: old(self).player_two.color },
                    ..*old(self)
                }).sp_updated_mode(),
                ..*old(self)
            }),
    {
        self.player_two.player = player;
        self.update_game_mode();
    }

    pub fn set_player_one_color(&mut self, color: Color)
        ensures
            *final(self) == (Game {
                player_one: ActionablePlayer { player: old(self).player_one.player, color },
                ..*old(self)
            }),
    {
        self.player_one.color = color;
    }

    pub fn set_player_two_color(&mut self, color: Color)
        ensures
            *final(self) == (Game {
                player_two: ActionablePlayer { player: old(self).player_two.player, color },
                ..*old(self)
            }),
    {
        self.player_two.color = color;
    }

    pub fn set_error(&mut self, e: String)
        ensures
            final(self).error@ == "Error: "@ + e@,
            *final(self) == (Game { error: final(self).error, ..*old(self) }),
    {
        let mut msg = "Error: ".to_owned();
        msg.append(e.as_str());
        self.error = msg;
    }

    pub fn clear_notes(&mut self)
        ensures
            final(self).error@ == Seq::<char>::empty(),
            *final(self) == (Game { error: final(self).error, ..*old(self) }),
    {
        self.error = String::new();
    }

    pub fn flip_board(&mut self)
        ensures
            *final(self) == (Game {
                orientation: old(self).orientation.spec_other(),
                ..*old(self)
            }),
    {
        self.orientation = if self.orientation == Color::White {
            Color::Black
        } else {
            Color::White
        };
    }

    pub fn set_stalemate(&mut self)
        ensures
            *final(self) == (Game { print_mode: PrintMode::Stalemate, ..*old(self) }),
    {
        self.print_mode = PrintMode::Stalemate;
    }

    pub fn set_concede(&mut self)
        ensures
            *final(self) == (Game { print_mode: PrintMode::Checkmate, ..*old(self) }),
    {
        self.print_mode = PrintMode::Checkmate;
    }

    /// Flips the side to move; the turn counter advances when play returns
    /// to White.
    pub fn next_turn(&mut self)
        requires
            old(self).turn_count < 0xffff_ffffu32,
        ensures
            final(self).to_move == old(self).to_move.spec_other(),
            final(self).turn_count == old(self).turn_count + (if final(self).to_move
                == Color::White {
                1int
            } else {
                0int
            }),
            final(self).orientation == (if old(self).do_flip {
                final(self).to_move
            } else {
                old(self).orientation
            }),
            *final(self) == (Game {
                to_move: final(self).to_move,
                turn_count: final(self).turn_count,
                orientation: final(self).orientation,
                ..*old(self)
            }),
    {
        self.to_move = if self.to_move == Color::White {
            Color::Black
        } else {
            Color::White
        };
        self.turn_count = self.turn_count + (if self.to_move == Color::White {
            1
        } else {
            0
        });
        if self.do_flip {
            self.orientation = self.to_move;
        }
    }

    /// A copy observationally equal to this game.
    pub fn snapshot(&self) -> (res: Game)
        requires
            self.wf(),
        ensures
            res.wf(),
            res.board@ == self.board@,
            res.history@ == self.history@,
            res.white_cap@ == self.white_cap@,
            res.black_cap@ == self.black_cap@,
            res.error@ == self.error@,
            res.to_move == self.to_move,
            res.player_one == self.player_one,
            res.player_two == self.player_two,
            res.turn_count == self.turn_count,
            res.orientation == self.orientation,
            res.do_flip == self.do_flip,
            res.game_mode == self.game_mode,
            res.start_color == self.start_color,
            res.print_mode == self.print_mode,
    {
        let history = self.history.clone();
        let white_cap = self.white_cap.clone();
        let black_cap = self.black_cap.clone();
        proof {
            assert(history@ =~= self.history@);
            assert(white_cap@ =~= self.white_cap@);
            assert(black_cap@ =~= self.black_cap@);
        }
        Game {
            board: self.board.duplicate(),
            to_move: self.to_move,
            player_one: self.player_one,
            player_two: self.player_two,
            turn_count: self.turn_count,
            history,
            white_cap,
            black_cap,
            error: self.error.clone(),
            orientation: self.orientation,
            do_flip: self.do_flip,
            game_mode: self.game_mode,
            start_color: self.start_color,
            print_mode: self.print_mode,
        }
    }
}

/// The standard starting position: back ranks, pawn ranks, empty middle.
pub open spec fn sp_start_piece(f: int, r: int) -> Piece {
    if r == 0 {
        Piece { kind: Game::sp_back_kind(f), color: Color::White, has_moved: false, highlight: 0 }
    } else if r == 1 {
        Piece { kind: PieceKind::Pawn, color: Color::White, has_moved: false, highlight: 0 }
    } else if r == 6 {
        Piece { kind: PieceKind::Pawn, color: Color::Black, has_moved: false, highlight: 0 }
    } else if r == 7 {
        Piece { kind: Game::sp_back_kind(f), color: Color::Black, has_moved: false, highlight: 0 }
    } else {
        Piece::spec_empty()
    }
}

pub const LIGHT: &'static str = "\x1b[48;2;255;193;132m";

pub const DARK: &'static str = "\x1b[48;2;110;75;41m";

pub const RESET: &'static str = "\x1b[0m";

/// One rendered square: its checkerboard background, then its piece.
pub open spec fn sp_board_square(g: Game, f: int, r: int) -> Seq<char> {
    (if (f + r) % 2 == 0 {
        DARK@
    } else {
        LIGHT@
    }) + sp_at(g.board@, f, r).str_spec()
}

/// The first `n` rendered squares of rank `r`, in the orientation's file
/// order.
pub open spec fn sp_rank_prefix(g: Game, r: int, n: int) -> Seq<char>
    decreases n,
{
    if n <= 0 {
        Seq::empty()
    } else {
        sp_rank_prefix(g, r, n - 1) + sp_board_square(
            g,
            if g.orientation == Color::White {
                n - 1
            } else {
                8 - n
            },
            r,
        )
    }
}

/// The first `n` captured-piece glyphs, in capture order.
pub open spec fn sp_caps_prefix(s: Seq<Piece>, n: int) -> Seq<char>
    decreases n,
{
    if n <= 0 {
        Seq::empty()
    } else {
        sp_caps_prefix(s, n - 1) + s[n - 1].str_spec()
    }
}

/// A history line's layout: the turn number right-aligned to three
/// columns, then each move's notation left-aligned to ten.
pub open spec fn sp_history_line(num: Seq<char>, s1: Seq<char>, s2: Seq<char>) -> Seq<char> {
    " "@ + crate::text::sp_spaces(3 - num.len()) + num + ". "@ + s1 + crate::text::sp_spaces(
        10 - s1.len(),
    ) + " "@ + s2 + crate::text::sp_spaces(10 - s2.len())
}

/// One line of the two-column move record beside the board, `offset` full
/// turns back from the latest: turn number, White's move, Black's move.
pub open spec fn sp_notation_line(g: Game, offset: int) -> Seq<char> {
    let len = g.history@.len() as int;
    if len < 2 * offset {
        Seq::empty()
    } else {
        let parity: int = if len % 2 == 0 {
            1
        } else {
            0
        };
        let index = len - 2 * offset - parity;
        if index - 1 < 0 {
            Seq::empty()
        } else {
            sp_history_line(
                crate::text::sp_dec(g.turn_count - offset - parity),
                g.history@[index - 1].notation_spec(),
                if index < len {
                    g.history@[index].notation_spec()
                } else {
                    Seq::empty()
                },
            )
        }
    }
}

/// The piece at 0-based (file, rank) in a board view.
pub open spec fn sp_at(b: Seq<Piece>, f: int, r: int) -> Piece {
    b[sq_index(f, r)]
}

/// The square at 0-based (file, rank) is empty.
pub open spec fn sp_empty(b: Seq<Piece>, f: int, r: int) -> bool {
    sp_at(b, f, r).kind == PieceKind::Empty
}

/// The rank direction a pawn of the given color advances in.
pub open spec fn pawn_dir(c: Color) -> int {
    if c == Color::White {
        1
    } else {
        -1
    }
}

pub open spec fn sp_abs(x: int) -> int {
    if x < 0 {
        -x
    } else {
        x
    }
}

pub open spec fn sp_sgn(x: int) -> int {
    if x > 0 {
        1
    } else if x < 0 {
        -1
    } else {
        0
    }
}

/// 0-based origin file of a move.
pub open spec fn o_f(m: Move) -> int {
    m.origin.0.idx()
}

/// 0-based origin rank of a move.
pub open spec fn o_r(m: Move) -> int {
    m.origin.1.idx()
}

/// 0-based destination file of a move.
pub open spec fn d_f(m: Move) -> int {
    m.dest.0.idx()
}

/// 0-based destination rank of a move.
pub open spec fn d_r(m: Move) -> int {
    m.dest.1.idx()
}

/// How many single steps the straight or diagonal ray from origin to
/// destination takes.
pub open spec fn sp_steps(of: int, or: int, df: int, dr: int) -> int {
    if sp_abs(df - of) > sp_abs(dr - or) {
        sp_abs(df - of)
    } else {
        sp_abs(dr - or)
    }
}

/// The k-th square of the ray from `o` toward `d`, one component.
pub open spec fn sp_ray(o: int, d: int, k: int) -> int {
    o + k * sp_sgn(d - o)
}

/// No pieces strictly between origin and destination along the ray.
pub open spec fn sp_range_clear(b: Seq<Piece>, of: int, or: int, df: int, dr: int) -> bool {
    forall|k: int|
        1 <= k < sp_steps(of, or, df, dr) ==> sp_empty(b, sp_ray(of, df, k), sp_ray(or, dr, k))
}

/// A pawn's capture shape: one file to the side, one rank forward.
pub open spec fn sp_pawn_shape(c: Color, of: int, or: int, df: int, dr: int) -> bool {
    (df - of == 1 || of - df == 1) && dr - or == pawn_dir(c)
}

/// An en-passant capture of (df, dr) is available to a pawn of color `c`:
/// the square is empty and the immediately preceding move was an enemy
/// pawn's double step landing one rank behind it.
pub open spec fn sp_ep_avail(b: Seq<Piece>, hist: Seq<Move>, c: Color, df: int, dr: int) -> bool {
    &&& sp_empty(b, df, dr)
    &&& hist.len() > 0
    &&& hist.last().piece.kind == PieceKind::Pawn
    &&& hist.last().dest.0.valid()
    &&& hist.last().dest.0.idx() == df
    &&& hist.last().dest.1 == Rank(Some((dr - pawn_dir(c) + 1) as u32))
    &&& hist.last().pawn_double
}

/// The pawn attack rule: capture shape, onto an occupied square or an
/// available en-passant square.
pub open spec fn sp_pawn_attacks(
    b: Seq<Piece>,
    hist: Seq<Move>,
    c: Color,
    of: int,
    or: int,
    df: int,
    dr: int,
) -> bool {
    sp_pawn_shape(c, of, or, df, dr) && (!sp_empty(b, df, dr) || sp_ep_avail(b, hist, c, df, dr))
}

/// The pawn attack is specifically the en-passant one.
pub open spec fn sp_pawn_ep(
    b: Seq<Piece>,
    hist: Seq<Move>,
    c: Color,
    of: int,
    or: int,
    df: int,
    dr: int,
) -> bool {
    sp_pawn_shape(c, of, or, df, dr) && sp_ep_avail(b, hist, c, df, dr)
}

/// The square of the pawn captured en passant, as recorded on the move.
pub open spec fn sp_ep_square(m: Move) -> (File, Rank) {
    (m.dest.0, Rank(Some((d_r(m) - pawn_dir(m.piece.color) + 1) as u32)))
}

/// A pawn's single step forward, onto an empty square.
pub open spec fn sp_pawn_fwd(b: Seq<Piece>, c: Color, of: int, or: int, df: int, dr: int) -> bool {
    df - of == 0 && sp_empty(b, df, dr) && dr - or == pawn_dir(c)
}

/// A pawn double step's own conditions: straight ahead two ranks onto an
/// empty square, from a pawn that has not moved. The intervening square
/// is checked separately.
pub open spec fn sp_pawn_dbl_guard(
    b: Seq<Piece>,
    c: Color,
    of: int,
    or: int,
    df: int,
    dr: int,
) -> bool {
    df - of == 0 && sp_empty(b, df, dr) && dr - or == 2 * pawn_dir(c) && !sp_at(
        b,
        of,
        or,
    ).has_moved
}

/// The pawn forward-move rule: one step, or an eligible double step with
/// the intervening square empty.
pub open spec fn sp_pawn_moves(b: Seq<Piece>, c: Color, of: int, or: int, df: int, dr: int) -> bool {
    sp_pawn_fwd(b, c, of, or, df, dr) || (sp_pawn_dbl_guard(b, c, of, or, df, dr) && sp_empty(
        b,
        of,
        or + pawn_dir(c),
    ))
}

/// The bishop rule: a proper diagonal with nothing in between.
pub open spec fn sp_bishop(b: Seq<Piece>, of: int, or: int, df: int, dr: int) -> bool {
    &&& !(sp_abs(dr - or) == 0 && sp_abs(df - of) == 0)
    &&& sp_abs(dr - or) == sp_abs(df - of)
    &&& sp_range_clear(b, of, or, df, dr)
}

/// The knight rule: the eight (1,2)/(2,1) offsets.
pub open spec fn sp_knight(of: int, or: int, df: int, dr: int) -> bool {
    (sp_abs(dr - or) == 2 && sp_abs(df - of) == 1) || (sp_abs(dr - or) == 1 && sp_abs(df - of)
        == 2)
}

/// The rook rule: a proper straight line with nothing in between.
pub open spec fn sp_rook(b: Seq<Piece>, of: int, or: int, df: int, dr: int) -> bool {
    &&& !((dr - or) + (df - of) == 0 || (dr - or != 0 && df - of != 0))
    &&& sp_range_clear(b, of, or, df, dr)
}

pub open spec fn sp_queen(b: Seq<Piece>, of: int, or: int, df: int, dr: int) -> bool {
    sp_rook(b, of, or, df, dr) || sp_bishop(b, of, or, df, dr)
}

/// The king rule: one step in any direction.
pub open spec fn sp_king(of: int, or: int, df: int, dr: int) -> bool {
    sp_abs(dr - or) + sp_abs(df - of) > 0 && sp_abs(dr - or) <= 1 && sp_abs(df - of) <= 1
}

/// Whether the given piece, standing at (af, ar), attacks (tf, tr) under
/// its kind's attack rule.
pub open spec fn sp_piece_attacks(
    b: Seq<Piece>,
    hist: Seq<Move>,
    p: Piece,
    af: int,
    ar: int,
    tf: int,
    tr: int,
) -> bool {
    match p.kind {
        PieceKind::Pawn => sp_pawn_attacks(b, hist, p.color, af, ar, tf, tr),
        PieceKind::Bishop => sp_bishop(b, af, ar, tf, tr),
        PieceKind::Knight => sp_knight(af, ar, tf, tr),
        PieceKind::Rook => sp_rook(b, af, ar, tf, tr),
        PieceKind::Queen => sp_queen(b, af, ar, tf, tr),
        PieceKind::King => sp_king(af, ar, tf, tr),
        PieceKind::Empty => false,
    }
}

/// An enemy of `c` stands at (af, ar) and attacks (tf, tr).
pub open spec fn sp_attacker_at(
    b: Seq<Piece>,
    hist: Seq<Move>,
    af: int,
    ar: int,
    tf: int,
    tr: int,
    c: Color,
) -> bool {
    &&& sp_at(b, af, ar).kind != PieceKind::Empty
    &&& sp_at(b, af, ar).color != c
    &&& sp_piece_attacks(b, hist, sp_at(b, af, ar), af, ar, tf, tr)
}

/// Some enemy of `c` attacks (tf, tr).
pub open spec fn sp_attacked(
    b: Seq<Piece>,
    hist: Seq<Move>,
    tf: int,
    tr: int,
    c: Color,
) -> bool {
    exists|af: int, ar: int|
        0 <= af < 8 && 0 <= ar < 8 && sp_attacker_at(b, hist, af, ar, tf, tr, c)
}

impl Game {
    /// Whether the straight or diagonal ray from the move's origin to its
    /// destination crosses only empty squares (origin and destination
    /// themselves excluded).
    pub fn is_valid_move_range(&self, m: &Move) -> (res: bool)
        requires
            self.wf(),
            m.origin_set(),
            m.dest_set(),
            o_f(*m) == d_f(*m) || o_r(*m) == d_r(*m) || sp_abs(d_f(*m) - o_f(*m)) == sp_abs(
                d_r(*m) - o_r(*m),
            ),
        ensures
            res == sp_range_clear(self.board@, o_f(*m), o_r(*m), d_f(*m), d_r(*m)),
    {
        let fo = m.origin.0.index().unwrap();
        let ro = m.origin.1.index().unwrap();
        let df = m.dest.0.index().unwrap();
        let dr = m.dest.1.index().unwrap();
        let fdiff = if df > fo {
            df - fo
        } else {
            fo - df
        };
        let rdiff = if dr > ro {
            dr - ro
        } else {
            ro - dr
        };
        let steps = if fdiff > rdiff {
            fdiff
        } else {
            rdiff
        };
        proof {
            assert(steps == sp_steps(fo as int, ro as int, df as int, dr as int));
        }
        let mut k: usize = 1;
        while k < steps
            invariant
                self.wf(),
                1 <= k,
                k <= steps || steps == 0,
                fo < 8 && ro < 8 && df < 8 && dr < 8,
                fo == o_f(*m) && ro == o_r(*m) && df == d_f(*m) && dr == d_r(*m),
                fo == df || ro == dr || sp_abs(df as int - fo as int) == sp_abs(
                    dr as int - ro as int,
                ),
                steps == sp_steps(fo as int, ro as int, df as int, dr as int),
                forall|j: int|
                    1 <= j < k ==> sp_empty(
                        self.board@,
                        sp_ray(fo as int, df as int, j),
                        sp_ray(ro as int, dr as int, j),
                    ),
            decreases steps - k,
        {
            let cf = if df > fo {
                fo + k
            } else if df < fo {
                fo - k
            } else {
                fo
            };
            let cr = if dr > ro {
                ro + k
            } else if dr < ro {
                ro - k
            } else {
                ro
            };
            proof {
                assert(cf == sp_ray(fo as int, df as int, k as int));
                assert(cr == sp_ray(ro as int, dr as int, k as int));
                assert(cf < 8 && cr < 8);
            }
            if self.board.get(cf, cr).kind != PieceKind::Empty {
                proof {
                    assert(!sp_empty(
                        self.board@,
                        sp_ray(fo as int, df as int, k as int),
                        sp_ray(ro as int, dr as int, k as int),
                    ));
                }
                return false;
            }
            k = k + 1;
        }
        true
    }

    /// The pawn capture shape against this move's destination, en passant
    /// included; on the en-passant branch the captured pawn's square is
    /// recorded on the move.
    pub fn pawn_attacks(&self, m: &mut Move) -> (res: bool)
        requires
            self.wf(),
            old(m).origin_set(),
            old(m).dest_set(),
        ensures
            res == sp_pawn_attacks(
                self.board@,
                self.history@,
                old(m).piece.color,
                o_f(*old(m)),
                o_r(*old(m)),
                d_f(*old(m)),
                d_r(*old(m)),
            ),
            *final(m) == if sp_pawn_ep(
                self.board@,
                self.history@,
                old(m).piece.color,
                o_f(*old(m)),
                o_r(*old(m)),
                d_f(*old(m)),
                d_r(*old(m)),
            ) {
                Move { en_passant: Some(sp_ep_square(*old(m))), ..*old(m) }
            } else {
                *old(m)
            },
    {
        let white = m.piece.color == Color::White;
        let fo = m.origin.0.index().unwrap();
        let ro = m.origin.1.index().unwrap();
        let df = m.dest.0.index().unwrap();
        let dr = m.dest.1.index().unwrap();
        let shape = (df == fo + 1 || fo == df + 1) && (if white {
            dr == ro + 1
        } else {
            ro == dr + 1
        });
        if !shape {
            return false;
        }
        if self.board.get(df, dr).kind != PieceKind::Empty {
            return true;
        }
        let behind = if white {
            dr - 1
        } else {
            dr + 1
        };
        let behind_rank = Rank::from_index(behind);
        if self.history.len() > 0 {
            let last = self.history[self.history.len() - 1];
            if last.piece.kind == PieceKind::Pawn && last.dest.0 == m.dest.0 && last.dest.1
                == behind_rank && last.pawn_double {
                m.en_passant = Some((m.dest.0, behind_rank));
                return true;
            }
        }
        false
    }

    /// The pawn forward-move rule; an eligible double step is flagged on
    /// the move even when the intervening square then blocks it.
    pub fn pawn_moves(&self, m: &mut Move) -> (res: bool)
        requires
            self.wf(),
            old(m).origin_set(),
            old(m).dest_set(),
        ensures
            res == sp_pawn_moves(
                self.board@,
                old(m).piece.color,
                o_f(*old(m)),
                o_r(*old(m)),
                d_f(*old(m)),
                d_r(*old(m)),
            ),
            *final(m) == if sp_pawn_dbl_guard(
                self.board@,
                old(m).piece.color,
                o_f(*old(m)),
                o_r(*old(m)),
                d_f(*old(m)),
                d_r(*old(m)),
            ) {
                Move { pawn_double: true, ..*old(m) }
            } else {
                *old(m)
            },
    {
        let white = m.piece.color == Color::White;
        let fo = m.origin.0.index().unwrap();
        let ro = m.origin.1.index().unwrap();
        let df = m.dest.0.index().unwrap();
        let dr = m.dest.1.index().unwrap();
        if df == fo && self.board.get(df, dr).kind == PieceKind::Empty {
            if (white && dr == ro + 1) || (!white && ro == dr + 1) {
                return true;
            }
            let double = if white {
                dr == ro + 2
            } else {
                ro == dr + 2
            };
            if double && self.board.get(fo, ro).has_moved == false {
                m.pawn_double = true;
                let mid = if white {
                    ro + 1
                } else {
                    ro - 1
                };
                return self.board.get(fo, mid).kind == PieceKind::Empty;
            }
        }
        false
    }

    /// A promotion is accepted iff the move is a pawn's arrival on its far
    /// rank carrying one of the four promotion kinds; a missing promotion
    /// is accepted only away from that case.
    pub fn is_valid_promotion(&self, m: &Move) -> (res: bool)
        requires
            m.dest_set(),
        ensures
            res == sp_valid_promotion(*m),
    {
        let dr = m.dest.1.index().unwrap();
        if m.promotion == PieceKind::Empty && (m.piece.kind != PieceKind::Pawn || dr
            != promotion_rank_index(m.piece.color)) {
            return true;
        }
        if m.piece.kind == PieceKind::Pawn && dr == promotion_rank_index(m.piece.color) {
            return match m.promotion {
                PieceKind::Knight => true,
                PieceKind::Bishop => true,
                PieceKind::Rook => true,
                PieceKind::Queen => true,
                _ => false,
            };
        }
        false
    }

    pub fn is_valid_pawn_move(&self, m: &mut Move) -> (res: bool)
        requires
            self.wf(),
            old(m).origin_set(),
            old(m).dest_set(),
        ensures
            res == sp_rule_pawn(self.board@, self.history@, *old(m)),
            *final(m) == sp_resolved_pawn(self.board@, self.history@, *old(m)),
    {
        let attacks = self.pawn_attacks(m);
        let ok = if attacks {
            true
        } else {
            self.pawn_moves(m)
        };
        ok && self.is_valid_promotion(m)
    }

    pub fn bishop_attacks(&self, m: &Move) -> (res: bool)
        requires
            self.wf(),
            m.origin_set(),
            m.dest_set(),
        ensures
            res == sp_bishop(self.board@, o_f(*m), o_r(*m), d_f(*m), d_r(*m)),
    {
        let fo = m.origin.0.index().unwrap();
        let ro = m.origin.1.index().unwrap();
        let df = m.dest.0.index().unwrap();
        let dr = m.dest.1.index().unwrap();
        let fdiff = if df > fo {
            df - fo
        } else {
            fo - df
        };
        let rdiff = if dr > ro {
            dr - ro
        } else {
            ro - dr
        };
        if (rdiff == 0 && fdiff == 0) || rdiff != fdiff {
            return false;
        }
        self.is_valid_move_range(m)
    }

    pub fn is_valid_bishop_move(&self, m: &Move) -> (res: bool)
        requires
            self.wf(),
            m.origin_set(),
            m.dest_set(),
        ensures
            res == sp_bishop(self.board@, o_f(*m), o_r(*m), d_f(*m), d_r(*m)),
    {
        self.bishop_attacks(m)
    }

    pub fn knight_attacks(&self, m: &Move) -> (res: bool)
        requires
            m.origin_set(),
            m.dest_set(),
        ensures
            res == sp_knight(o_f(*m), o_r(*m), d_f(*m), d_r(*m)),
    {
        let fo = m.origin.0.index().unwrap();
        let ro = m.origin.1.index().unwrap();
        let df = m.dest.0.index().unwrap();
        let dr = m.dest.1.index().unwrap();
        let fdiff = if df > fo {
            df - fo
        } else {
            fo - df
        };
        let rdiff = if dr > ro {
            dr - ro
        } else {
            ro - dr
        };
        (rdiff == 2 && fdiff == 1) || (rdiff == 1 && fdiff == 2)
    }

    pub fn is_valid_knight_move(&self, m: &Move) -> (res: bool)
        requires
            m.origin_set(),
            m.dest_set(),
        ensures
            res == sp_knight(o_f(*m), o_r(*m), d_f(*m), d_r(*m)),
    {
        self.knight_attacks(m)
    }

    pub fn rook_attacks(&self, m: &Move) -> (res: bool)
        requires
            self.wf(),
            m.origin_set(),
            m.dest_set(),
        ensures
            res == sp_rook(self.board@, o_f(*m), o_r(*m), d_f(*m), d_r(*m)),
    {
        let fo = m.origin.0.index().unwrap();
        let ro = m.origin.1.index().unwrap();
        let df = m.dest.0.index().unwrap();
        let dr = m.dest.1.index().unwrap();
        // A proper straight line: exactly one of the diffs is zero, and the
        // signed diffs do not cancel.
        let sum_zero = (dr + fo) == (ro + df);
        if sum_zero || (dr != ro && df != fo) {
            return false;
        }
        self.is_valid_move_range(m)
    }

    pub fn is_valid_rook_move(&self, m: &Move) -> (res: bool)
        requires
            self.wf(),
            m.origin_set(),
            m.dest_set(),
        ensures
            res == sp_rook(self.board@, o_f(*m), o_r(*m), d_f(*m), d_r(*m)),
    {
        self.rook_attacks(m)
    }

    pub fn queen_attacks(&self, m: &Move) -> (res: bool)
        requires
            self.wf(),
            m.origin_set(),
            m.dest_set(),
        ensures
            res == sp_queen(self.board@, o_f(*m), o_r(*m), d_f(*m), d_r(*m)),
    {
        self.rook_attacks(m) || self.bishop_attacks(m)
    }

    pub fn is_valid_queen_move(&self, m: &Move) -> (res: bool)
        requires
            self.wf(),
            m.origin_set(),
            m.dest_set(),
        ensures
            res == sp_queen(self.board@, o_f(*m), o_r(*m), d_f(*m), d_r(*m)),
    {
        self.queen_attacks(m)
    }

    pub fn king_attacks(&self, m: &Move) -> (res: bool)
        requires
            m.origin_set(),
            m.dest_set(),
        ensures
            res == sp_king(o_f(*m), o_r(*m), d_f(*m), d_r(*m)),
    {
        let fo = m.origin.0.index().unwrap();
        let ro = m.origin.1.index().unwrap();
        let df = m.dest.0.index().unwrap();
        let dr = m.dest.1.index().unwrap();
        let fdiff = if df > fo {
            df - fo
        } else {
            fo - df
        };
        let rdiff = if dr > ro {
            dr - ro
        } else {
            ro - dr
        };
        rdiff + fdiff > 0 && rdiff <= 1 && fdiff <= 1
    }

    pub fn is_valid_king_move(&self, m: &Move) -> (res: bool)
        requires
            m.origin_set(),
            m.dest_set(),
        ensures
            res == sp_king(o_f(*m), o_r(*m), d_f(*m), d_r(*m)),
    {
        self.king_attacks(m)
    }
}

/// The pawn rule as `is_valid_pawn_move` applies it: an attack or a forward
/// move, and the promotion rule.
pub open spec fn sp_rule_pawn(b: Seq<Piece>, hist: Seq<Move>, m: Move) -> bool {
    (sp_pawn_attacks(b, hist, m.piece.color, o_f(m), o_r(m), d_f(m), d_r(m)) || sp_pawn_moves(
        b,
        m.piece.color,
        o_f(m),
        o_r(m),
        d_f(m),
        d_r(m),
    )) && sp_valid_promotion(m)
}

/// How `is_valid_pawn_move` leaves the move: the en-passant square is
/// recorded on the en-passant branch; otherwise an eligible double step is
/// flagged; otherwise the move is untouched.
pub open spec fn sp_resolved_pawn(b: Seq<Piece>, hist: Seq<Move>, m: Move) -> Move {
    if sp_pawn_ep(b, hist, m.piece.color, o_f(m), o_r(m), d_f(m), d_r(m)) {
        Move { en_passant: Some(sp_ep_square(m)), ..m }
    } else if !sp_pawn_attacks(b, hist, m.piece.color, o_f(m), o_r(m), d_f(m), d_r(m))
        && sp_pawn_dbl_guard(b, m.piece.color, o_f(m), o_r(m), d_f(m), d_r(m)) {
        Move { pawn_double: true, ..m }
    } else {
        m
    }
}

/// The first square, in file-major scan order, holding the given color's
/// king, from linear index `i` on.
pub open spec fn sp_first_king_from(b: Seq<Piece>, c: Color, i: int) -> Option<int>
    decreases 64 - i,
{
    if i < 0 || i >= 64 {
        None
    } else if b[i].kind == PieceKind::King && b[i].color == c {
        Some(i)
    } else {
        sp_first_king_from(b, c, i + 1)
    }
}

/// The linear index of the given color's king (the first in scan order,
/// were there several).
pub open spec fn sp_first_king(b: Seq<Piece>, c: Color) -> Option<int> {
    sp_first_king_from(b, c, 0)
}

/// The given color is in check: its king's square is attacked. A board
/// without that king is never "in check"; one king per color is a
/// precondition of the game, not enforced here.
pub open spec fn sp_check(b: Seq<Piece>, hist: Seq<Move>, c: Color) -> bool {
    match sp_first_king(b, c) {
        Some(i) => sp_attacked(b, hist, i / 8, i % 8, c),
        None => false,
    }
}

proof fn lemma_first_king_step(b: Seq<Piece>, c: Color, i: int)
    requires
        0 <= i < 64,
        !(b[i].kind == PieceKind::King && b[i].color == c),
    ensures
        sp_first_king_from(b, c, i) == sp_first_king_from(b, c, i + 1),
{
}

proof fn lemma_first_king_skip_range(b: Seq<Piece>, c: Color, i: int, j: int)
    requires
        0 <= i <= j <= 64,
        forall|k: int| i <= k < j ==> !(b[k].kind == PieceKind::King && b[k].color == c),
    ensures
        sp_first_king_from(b, c, i) == sp_first_king_from(b, c, j),
    decreases j - i,
{
    if i < j {
        lemma_first_king_step(b, c, i);
        lemma_first_king_skip_range(b, c, i + 1, j);
    }
}

/// On a board with exactly one king of the given color — the game's
/// standing precondition — being "in check" is exactly that king's square
/// being attacked.
pub proof fn lemma_check_is_king_attacked(
    b: Seq<Piece>,
    hist: Seq<Move>,
    c: Color,
    f: int,
    r: int,
)
    requires
        b.len() == 64,
        0 <= f < 8,
        0 <= r < 8,
        sp_at(b, f, r).kind == PieceKind::King,
        sp_at(b, f, r).color == c,
        forall|i: int|
            0 <= i < 64 && i != sq_index(f, r) ==> !((#[trigger] b[i]).kind == PieceKind::King
                && b[i].color == c),
    ensures
        sp_check(b, hist, c) == sp_attacked(b, hist, f, r, c),
{
    let i = sq_index(f, r);
    lemma_first_king_skip_range(b, c, 0, i);
    assert(sp_first_king_from(b, c, i) == Some(i));
    assert(i / 8 == f && i % 8 == r);
}

/// The king and the relevant rook stand unmoved on their home squares and
/// the king is not currently attacked.
pub open spec fn sp_castle_ok_pieces(b: Seq<Piece>, hist: Seq<Move>, c: Color, long: bool) -> bool {
    let br = spec_back_rank_index(c);
    let rcf = spec_rook_castle_file(long);
    &&& sp_at(b, 4, br).kind == PieceKind::King
    &&& !sp_at(b, 4, br).has_moved
    &&& sp_at(b, rcf, br).kind == PieceKind::Rook
    &&& !sp_at(b, rcf, br).has_moved
    &&& !sp_attacked(b, hist, 4, br, c)
}

/// Every square the king crosses (destination included) and, for queenside,
/// the adjacent knight-square, is empty and unattacked.
pub open spec fn sp_castle_path_clear(b: Seq<Piece>, hist: Seq<Move>, c: Color, long: bool) -> bool {
    let br = spec_back_rank_index(c);
    if long {
        &&& sp_empty(b, 3, br)
        &&& !sp_attacked(b, hist, 3, br, c)
        &&& sp_empty(b, 2, br)
        &&& !sp_attacked(b, hist, 2, br, c)
        &&& sp_empty(b, 1, br)
        &&& !sp_attacked(b, hist, 1, br, c)
    } else {
        &&& sp_empty(b, 5, br)
        &&& !sp_attacked(b, hist, 5, br, c)
        &&& sp_empty(b, 6, br)
        &&& !sp_attacked(b, hist, 6, br, c)
    }
}

pub open spec fn sp_castle_err(b: Seq<Piece>, hist: Seq<Move>, c: Color, long: bool) -> Option<
    Seq<char>,
> {
    if !sp_castle_ok_pieces(b, hist, c, long) {
        Some("King/Rook are not valid"@)
    } else if !sp_castle_path_clear(b, hist, c, long) {
        Some("Castle path is not clear"@)
    } else {
        None
    }
}

/// The castle is legal for the side to move.
pub open spec fn sp_castle_ok(b: Seq<Piece>, hist: Seq<Move>, c: Color, long: bool) -> bool {
    sp_castle_ok_pieces(b, hist, c, long) && sp_castle_path_clear(b, hist, c, long)
}

/// An executable error message agrees with a specified one, text included.
pub open spec fn sp_err_matches(res: Option<String>, sp: Option<Seq<char>>) -> bool {
    match (res, sp) {
        (None, None) => true,
        (Some(e), Some(msg)) => e@ == msg,
        _ => false,
    }
}

/// The kind-specific movement rule for a non-castle move. A promotion may
/// be carried by a pawn move alone; every other kind must carry none.
pub open spec fn sp_rule_ok(b: Seq<Piece>, hist: Seq<Move>, m: Move) -> bool {
    match m.piece.kind {
        PieceKind::Pawn => sp_rule_pawn(b, hist, m),
        PieceKind::Bishop => m.promotion == PieceKind::Empty && sp_bishop(
            b,
            o_f(m),
            o_r(m),
            d_f(m),
            d_r(m),
        ),
        PieceKind::Knight => m.promotion == PieceKind::Empty && sp_knight(
            o_f(m),
            o_r(m),
            d_f(m),
            d_r(m),
        ),
        PieceKind::Rook => m.promotion == PieceKind::Empty && sp_rook(
            b,
            o_f(m),
            o_r(m),
            d_f(m),
            d_r(m),
        ),
        PieceKind::Queen => m.promotion == PieceKind::Empty && sp_queen(
            b,
            o_f(m),
            o_r(m),
            d_f(m),
            d_r(m),
        ),
        PieceKind::King => m.promotion == PieceKind::Empty && sp_king(
            o_f(m),
            o_r(m),
            d_f(m),
            d_r(m),
        ),
        PieceKind::Empty => false,
    }
}

/// A piece of the mover's own color occupies the destination.
pub open spec fn sp_same_color_dest(b: Seq<Piece>, m: Move) -> bool {
    sp_at(b, d_f(m), d_r(m)).kind != PieceKind::Empty && sp_at(b, d_f(m), d_r(m)).color
        == m.piece.color
}

/// An enemy piece occupies the destination: the move is implicitly a capture.
pub open spec fn sp_enemy_dest(b: Seq<Piece>, m: Move) -> bool {
    sp_at(b, d_f(m), d_r(m)).kind != PieceKind::Empty && sp_at(b, d_f(m), d_r(m)).color
        != m.piece.color
}

/// A caller-specified capture with an empty destination and no en-passant
/// match is an error.
pub open spec fn sp_takes_error(b: Seq<Piece>, hist: Seq<Move>, m: Move) -> bool {
    &&& !sp_enemy_dest(b, m)
    &&& m.takes
    &&& !(m.piece.kind == PieceKind::Pawn && sp_pawn_ep(
        b,
        hist,
        m.piece.color,
        o_f(m),
        o_r(m),
        d_f(m),
        d_r(m),
    ))
}

/// What `is_valid_move` reports: `None` for a legal-shaped move, or the
/// message naming the first rule the move breaks.
pub open spec fn sp_valid_move_err(b: Seq<Piece>, hist: Seq<Move>, to_move: Color, m: Move) -> Option<
    Seq<char>,
> {
    if m.castle || m.long_castle {
        sp_castle_err(b, hist, to_move, m.long_castle)
    } else if sp_same_color_dest(b, m) {
        Some("There is a piece at the destination"@)
    } else if m.dest == m.origin {
        Some("Origin and Destination are the same"@)
    } else if sp_takes_error(b, hist, m) {
        Some("There is no piece to take"@)
    } else if sp_rule_ok(b, hist, m) {
        None
    } else {
        Some("Selected piece cannot make that move"@)
    }
}

/// `is_valid_move` accepts the move.
pub open spec fn sp_move_ok(b: Seq<Piece>, hist: Seq<Move>, to_move: Color, m: Move) -> bool {
    sp_valid_move_err(b, hist, to_move, m) is None
}

/// How `is_valid_move` leaves the move: an implicit capture is recorded,
/// and the pawn rules may record an en-passant square or a double step.
pub open spec fn sp_resolved_move(b: Seq<Piece>, hist: Seq<Move>, m: Move) -> Move {
    if m.castle || m.long_castle {
        m
    } else if sp_same_color_dest(b, m) {
        m
    } else if m.dest == m.origin {
        m
    } else {
        let m1 = if sp_enemy_dest(b, m) {
            Move { takes: true, ..m }
        } else {
            m
        };
        if sp_takes_error(b, hist, m) {
            m
        } else if m.piece.kind == PieceKind::Pawn {
            sp_resolved_pawn(b, hist, m1)
        } else {
            m1
        }
    }
}

impl Game {
    /// The first square, scanning files then ranks, holding the given
    /// color's king.
    pub fn find_king(&self, color: Color) -> (res: Option<(File, Rank)>)
        requires
            self.wf(),
        ensures
            match res {
                Some(sq) => sq.0.valid() && sq.1.valid() && sp_first_king(self.board@, color)
                    == Some(sq_index(sq.0.idx(), sq.1.idx())),
                None => sp_first_king(self.board@, color) is None,
            },
    {
        let mut f: usize = 0;
        while f < 8
            invariant
                self.wf(),
                f <= 8,
                sp_first_king(self.board@, color) == sp_first_king_from(
                    self.board@,
                    color,
                    f as int * 8,
                ),
            decreases 8 - f,
        {
            let mut r: usize = 0;
            while r < 8
                invariant
                    self.wf(),
                    f < 8,
                    r <= 8,
                    sp_first_king(self.board@, color) == sp_first_king_from(
                        self.board@,
                        color,
                        f as int * 8 + r,
                    ),
                decreases 8 - r,
            {
                let p = self.board.get(f, r);
                if p.kind == PieceKind::King && p.color == color {
                    let file = File::from_index(f);
                    let rank = Rank::from_index(r);
                    proof {
                        assert(sp_first_king_from(self.board@, color, f as int * 8 + r) == Some(
                            sq_index(f as int, r as int),
                        ));
                    }
                    return Some((file, rank));
                }
                proof {
                    lemma_first_king_step(self.board@, color, f as int * 8 + r);
                }
                r = r + 1;
            }
            f = f + 1;
        }
        None
    }

    /// True if any enemy (of the given color) piece's attack rule covers the
    /// given square.
    pub fn is_attacked(&self, coord: (File, Rank), color: Color) -> (res: bool)
        requires
            self.wf(),
            coord.0.valid(),
            coord.1.valid(),
        ensures
            res == sp_attacked(self.board@, self.history@, coord.0.idx(), coord.1.idx(), color),
    {
        let ghost tf = coord.0.idx();
        let ghost tr = coord.1.idx();
        let mut f: usize = 0;
        while f < 8
            invariant
                self.wf(),
                coord.0.valid(),
                coord.1.valid(),
                tf == coord.0.idx(),
                tr == coord.1.idx(),
                f <= 8,
                forall|af: int, ar: int|
                    0 <= af < f && 0 <= ar < 8 ==> !sp_attacker_at(
                        self.board@,
                        self.history@,
                        af,
                        ar,
                        tf,
                        tr,
                        color,
                    ),
            decreases 8 - f,
        {
            let mut r: usize = 0;
            while r < 8
                invariant
                    self.wf(),
                    coord.0.valid(),
                    coord.1.valid(),
                    tf == coord.0.idx(),
                    tr == coord.1.idx(),
                    f < 8,
                    r <= 8,
                    forall|af: int, ar: int|
                        0 <= af < f && 0 <= ar < 8 ==> !sp_attacker_at(
                            self.board@,
                            self.history@,
                            af,
                            ar,
                            tf,
                            tr,
                            color,
                        ),
                    forall|ar: int|
                        0 <= ar < r ==> !sp_attacker_at(
                            self.board@,
                            self.history@,
                            f as int,
                            ar,
                            tf,
                            tr,
                            color,
                        ),
                decreases 8 - r,
            {
                let p = self.board.get(f, r);
                if p.kind != PieceKind::Empty && p.color != color {
                    let mut mv = Move::basic(p, (File::from_index(f), Rank::from_index(r)), coord);
                    let hits = match p.kind {
                        PieceKind::Pawn => self.pawn_attacks(&mut mv),
                        PieceKind::Bishop => self.bishop_attacks(&mv),
                        PieceKind::Knight => self.knight_attacks(&mv),
                        PieceKind::Rook => self.rook_attacks(&mv),
                        PieceKind::Queen => self.queen_attacks(&mv),
                        PieceKind::King => self.king_attacks(&mv),
                        PieceKind::Empty => false,
                    };
                    if hits {
                        proof {
                            assert(sp_attacker_at(
                                self.board@,
                                self.history@,
                                f as int,
                                r as int,
                                tf,
                                tr,
                                color,
                            ));
                        }
                        return true;
                    }
                }
                r = r + 1;
            }
            f = f + 1;
        }
        false
    }

    fn is_check_color(&self, color: Color) -> (res: bool)
        requires
            self.wf(),
        ensures
            res == sp_check(self.board@, self.history@, color),
    {
        if let Some((file, rank)) = self.find_king(color) {
            let res = self.is_attacked((file, rank), color);
            proof {
                let i = sp_first_king(self.board@, color).unwrap();
                assert(i / 8 == file.idx() && i % 8 == rank.idx());
            }
            return res;
        }
        // A board without the king cannot be in check; correct play never
        // reaches this.
        false
    }

    /// The side to move is in check.
    pub fn is_check(&self) -> (res: bool)
        requires
            self.wf(),
        ensures
            res == sp_check(self.board@, self.history@, self.to_move),
    {
        self.is_check_color(self.to_move)
    }

    /// Marks the side-to-move's king square for rendering.
    pub fn hl_king(&mut self)
        requires
            old(self).wf(),
        ensures
            final(self).wf(),
            final(self).board@ == sp_hl_king_board(old(self).board@, old(self).to_move),
            *final(self) == (Game { board: final(self).board, ..*old(self) }),
    {
        if let Some((file, rank)) = self.find_king(self.to_move) {
            let f = file.index().unwrap();
            let r = rank.index().unwrap();
            let mut p = self.board.get(f, r);
            p.highlight = 2;
            self.board.set(f, r, p);
        }
    }

    /// Clears every square's rendering highlight.
    pub fn clear_hl(&mut self)
        requires
            old(self).wf(),
        ensures
            final(self).wf(),
            final(self).board@.len() == 64,
            forall|i: int|
                0 <= i < 64 ==> final(self).board@[i] == (Piece {
                    highlight: 0,
                    ..old(self).board@[i]
                }),
            *final(self) == (Game { board: final(self).board, ..*old(self) }),
    {
        let mut f: usize = 0;
        while f < 8
            invariant
                self.wf(),
                f <= 8,
                forall|i: int|
                    0 <= i < 64 && i < f as int * 8 ==> self.board@[i] == (Piece {
                        highlight: 0,
                        ..old(self).board@[i]
                    }),
                forall|i: int|
                    0 <= i < 64 && i >= f as int * 8 ==> self.board@[i] == old(self).board@[i],
                *self == (Game { board: self.board, ..*old(self) }),
            decreases 8 - f,
        {
            let mut r: usize = 0;
            while r < 8
                invariant
                    self.wf(),
                    f < 8,
                    r <= 8,
                    forall|i: int|
                        0 <= i < 64 && i < f as int * 8 + r ==> self.board@[i] == (Piece {
                            highlight: 0,
                            ..old(self).board@[i]
                        }),
                    forall|i: int|
                        0 <= i < 64 && i >= f as int * 8 + r ==> self.board@[i] == old(
                            self,
                        ).board@[i],
                    *self == (Game { board: self.board, ..*old(self) }),
                decreases 8 - r,
            {
                let mut p = self.board.get(f, r);
                p.highlight = 0;
                self.board.set(f, r, p);
                r = r + 1;
            }
            f = f + 1;
        }
    }

    /// Enters the checkmate state: the last history entry's check flag is
    /// retroactively converted to checkmate, and the losing king is marked.
    pub fn set_checkmate(&mut self)
        requires
            old(self).wf(),
        ensures
            final(self).wf(),
            final(self).print_mode == PrintMode::Checkmate,
            final(self).history@ == if old(self).history@.len() > 0 {
                old(self).history@.update(
                    old(self).history@.len() - 1,
                    Move { checkmate: true, check: false, ..old(self).history@.last() },
                )
            } else {
                old(self).history@
            },
            final(self).board@ == sp_hl_king_board(old(self).board@, old(self).to_move),
            *final(self) == (Game {
                board: final(self).board,
                history: final(self).history,
                print_mode: PrintMode::Checkmate,
                ..*old(self)
            }),
    {
        self.print_mode = PrintMode::Checkmate;
        if self.history.len() > 0 {
            let index = self.history.len() - 1;
            let mut last = self.history[index];
            last.checkmate = true;
            last.check = false;
            self.history[index] = last;
            proof {
                assert(self.history@ =~= old(self).history@.update(
                    old(self).history@.len() - 1,
                    Move { checkmate: true, check: false, ..old(self).history@.last() },
                ));
            }
        }
        self.hl_king();
    }

    /// Checks castle legality for the side to move: pieces in place and
    /// unmoved, king not in check, path squares empty and unattacked.
    pub fn is_valid_castle(&self, m: &Move) -> (res: Option<String>)
        requires
            self.wf(),
        ensures
            sp_err_matches(
                res,
                sp_castle_err(self.board@, self.history@, self.to_move, m.long_castle),
            ),
    {
        let br = back_rank_index(self.to_move);
        let rcf = rook_castle_file(m.long_castle);
        let king = self.board.get(4, br);
        let rook = self.board.get(rcf, br);
        if king.kind != PieceKind::King || king.has_moved || rook.kind != PieceKind::Rook
            || rook.has_moved || self.is_attacked(
            (File::from_index(4), Rank::from_index(br)),
            self.to_move,
        ) {
            return Some("King/Rook are not valid".to_owned());
        }
        if m.long_castle {
            if self.board.get(3, br).kind != PieceKind::Empty || self.is_attacked(
                (File::from_index(3), Rank::from_index(br)),
                self.to_move,
            ) || self.board.get(2, br).kind != PieceKind::Empty || self.is_attacked(
                (File::from_index(2), Rank::from_index(br)),
                self.to_move,
            ) || self.board.get(1, br).kind != PieceKind::Empty || self.is_attacked(
                (File::from_index(1), Rank::from_index(br)),
                self.to_move,
            ) {
                return Some("Castle path is not clear".to_owned());
            }
        } else {
            if self.board.get(5, br).kind != PieceKind::Empty || self.is_attacked(
                (File::from_index(5), Rank::from_index(br)),
                self.to_move,
            ) || self.board.get(6, br).kind != PieceKind::Empty || self.is_attacked(
                (File::from_index(6), Rank::from_index(br)),
                self.to_move,
            ) {
                return Some("Castle path is not clear".to_owned());
            }
        }
        None
    }

    /// The en-passant conditions hold for this pawn-shaped move.
    fn en_passant_match(&self, m: &Move) -> (res: bool)
        requires
            self.wf(),
            m.origin_set(),
            m.dest_set(),
        ensures
            res == sp_pawn_ep(
                self.board@,
                self.history@,
                m.piece.color,
                o_f(*m),
                o_r(*m),
                d_f(*m),
                d_r(*m),
            ),
    {
        let white = m.piece.color == Color::White;
        let fo = m.origin.0.index().unwrap();
        let ro = m.origin.1.index().unwrap();
        let df = m.dest.0.index().unwrap();
        let dr = m.dest.1.index().unwrap();
        let shape = (df == fo + 1 || fo == df + 1) && (if white {
            dr == ro + 1
        } else {
            ro == dr + 1
        });
        if !shape {
            return false;
        }
        if self.board.get(df, dr).kind != PieceKind::Empty {
            return false;
        }
        let behind = if white {
            dr - 1
        } else {
            dr + 1
        };
        let behind_rank = Rank::from_index(behind);
        if self.history.len() > 0 {
            let last = self.history[self.history.len() - 1];
            if last.piece.kind == PieceKind::Pawn && last.dest.0 == m.dest.0 && last.dest.1
                == behind_rank && last.pawn_double {
                return true;
            }
        }
        false
    }

    /// Validates a move against the board: destination not blocked by a
    /// friendly piece, origin distinct from destination, captures
    /// consistent, and the piece kind's movement rule; castles go through
    /// the castle-specific rule instead. `None` means the move is accepted
    /// (though it may still leave the mover's own king attacked; the
    /// legality filter checks that separately).
    pub fn is_valid_move(&self, m: &mut Move) -> (res: Option<String>)
        requires
            self.wf(),
            old(m).castle || old(m).long_castle || (old(m).origin_set() && old(m).dest_set()),
        ensures
            sp_err_matches(
                res,
                sp_valid_move_err(self.board@, self.history@, self.to_move, *old(m)),
            ),
            *final(m) == sp_resolved_move(self.board@, self.history@, *old(m)),
    {
        if m.castle || m.long_castle {
            return self.is_valid_castle(m);
        }
        let df = m.dest.0.index().unwrap();
        let dr = m.dest.1.index().unwrap();
        let dp = self.board.get(df, dr);
        if dp.kind != PieceKind::Empty && dp.color == m.piece.color {
            return Some("There is a piece at the destination".to_owned());
        } else if m.dest.0 == m.origin.0 && m.dest.1 == m.origin.1 {
            return Some("Origin and Destination are the same".to_owned());
        }
        if dp.kind != PieceKind::Empty && dp.color != m.piece.color {
            m.takes = true;
        } else if m.takes {
            if !(m.piece.kind == PieceKind::Pawn && self.en_passant_match(m)) {
                return Some("There is no piece to take".to_owned());
            }
        }
        // A promotion is a pawn affair: any other kind carrying one is
        // rejected before its movement rule is consulted.
        let no_promo = m.promotion == PieceKind::Empty;
        let ok = match m.piece.kind {
            PieceKind::Pawn => self.is_valid_pawn_move(m),
            PieceKind::Bishop => no_promo && self.is_valid_bishop_move(m),
            PieceKind::Knight => no_promo && self.is_valid_knight_move(m),
            PieceKind::Rook => no_promo && self.is_valid_rook_move(m),
            PieceKind::Queen => no_promo && self.is_valid_queen_move(m),
            PieceKind::King => no_promo && self.is_valid_king_move(m),
            PieceKind::Empty => false,
        };
        if ok {
            None
        } else {
            Some("Selected piece cannot make that move".to_owned())
        }
    }
}

/// The marker left on a square a piece just moved from or to.
pub open spec fn sp_empty_moved() -> Piece {
    Piece { kind: PieceKind::Empty, color: Color::White, has_moved: false, highlight: 1 }
}

/// The board after the given move is performed by `c`: castling repositions
/// king and rook and marks both moved; otherwise the moved piece lands on
/// the destination (marked moved), the origin empties, an en-passant victim
/// is removed from its recorded square, and a promotion overwrites the
/// landed piece's kind.
pub open spec fn sp_apply_board(b: Seq<Piece>, c: Color, m: Move) -> Seq<Piece> {
    if m.castle || m.long_castle {
        let br = spec_back_rank_index(c);
        let kd: int = if m.castle {
            6
        } else {
            2
        };
        let rd: int = if m.castle {
            5
        } else {
            3
        };
        let rf0: int = if m.castle {
            7
        } else {
            0
        };
        b.update(sq_index(kd, br), Piece { has_moved: true, ..sp_at(b, 4, br) }).update(
            sq_index(4, br),
            sp_empty_moved(),
        ).update(sq_index(rd, br), Piece { has_moved: true, ..sp_at(b, rf0, br) }).update(
            sq_index(rf0, br),
            sp_empty_moved(),
        )
    } else {
        let b1 = b.update(
            sq_index(d_f(m), d_r(m)),
            Piece { has_moved: true, highlight: 1, ..sp_at(b, o_f(m), o_r(m)) },
        );
        let b2 = b1.update(sq_index(o_f(m), o_r(m)), sp_empty_moved());
        let b3 = match m.en_passant {
            Some(sq) => b2.update(sq_index(sq.0.idx(), sq.1.idx()), Piece::spec_empty()),
            None => b2,
        };
        if m.promotion != PieceKind::Empty {
            b3.update(
                sq_index(d_f(m), d_r(m)),
                Piece { kind: m.promotion, ..b3[sq_index(d_f(m), d_r(m))] },
            )
        } else {
            b3
        }
    }
}

/// The piece a capture removes: whatever stands on the destination.
pub open spec fn sp_captured(b: Seq<Piece>, m: Move) -> Piece {
    sp_at(b, d_f(m), d_r(m))
}

/// The move as `do_move` appends it to history: its check flag is raised
/// when the move leaves the opponent in check.
pub open spec fn sp_done_move(b: Seq<Piece>, hist: Seq<Move>, c: Color, m: Move) -> Move {
    Move { check: m.check || sp_check(sp_apply_board(b, c, m), hist, c.spec_other()), ..m }
}

/// Performing the move leaves the mover's own king unattacked; this is the
/// filter that turns a pseudo-legal move into a legal one.
pub open spec fn sp_move_safe(b: Seq<Piece>, hist: Seq<Move>, c: Color, m: Move) -> bool {
    !sp_check(sp_apply_board(b, c, m), hist.push(sp_done_move(b, hist, c, m)), c)
}

/// Observational equality of two games: every field equal up to views.
pub open spec fn sp_same_game(a: Game, b: Game) -> bool {
    &&& a.board@ == b.board@
    &&& a.to_move == b.to_move
    &&& a.player_one == b.player_one
    &&& a.player_two == b.player_two
    &&& a.turn_count == b.turn_count
    &&& a.history@ == b.history@
    &&& a.white_cap@ == b.white_cap@
    &&& a.black_cap@ == b.black_cap@
    &&& a.error@ == b.error@
    &&& a.orientation == b.orientation
    &&& a.do_flip == b.do_flip
    &&& a.game_mode == b.game_mode
    &&& a.start_color == b.start_color
    &&& a.print_mode == b.print_mode
}

impl Game {
    /// Performs a validated move: repositions pieces per the move's flags,
    /// records a capture, raises the appended history entry's check flag if
    /// the opponent is now in check, and returns a snapshot of the state
    /// immediately prior (for rollback on self-check).
    #[verifier::rlimit(100)]
    pub fn do_move(&mut self, m: Move) -> (prev: Game)
        requires
            old(self).wf(),
            m.castle || m.long_castle || (m.origin_set() && m.dest_set() && (match m.en_passant {
                Some(sq) => sq.0.valid() && sq.1.valid(),
                None => true,
            })),
        ensures
            prev.wf(),
            sp_same_game(prev, *old(self)),
            final(self).wf(),
            final(self).board@ == sp_apply_board(old(self).board@, old(self).to_move, m),
            final(self).history@ == old(self).history@.push(
                sp_done_move(old(self).board@, old(self).history@, old(self).to_move, m),
            ),
            final(self).white_cap@ == if !(m.castle || m.long_castle) && m.takes && old(
                self,
            ).to_move == Color::White {
                old(self).white_cap@.push(sp_captured(old(self).board@, m))
            } else {
                old(self).white_cap@
            },
            final(self).black_cap@ == if !(m.castle || m.long_castle) && m.takes && old(
                self,
            ).to_move == Color::Black {
                old(self).black_cap@.push(sp_captured(old(self).board@, m))
            } else {
                old(self).black_cap@
            },
            *final(self) == (Game {
                board: final(self).board,
                history: final(self).history,
                white_cap: final(self).white_cap,
                black_cap: final(self).black_cap,
                ..*old(self)
            }),
    {
        let prev = self.snapshot();
        if m.castle || m.long_castle {
            self.apply_castle_move(&m);
        } else {
            self.apply_standard_move(&m);
        }
        let mut done = m;
        let opp = if self.to_move == Color::White {
            Color::Black
        } else {
            Color::White
        };
        if self.is_check_color(opp) {
            done.check = true;
        }
        self.history.push(done);
        prev
    }

    /// Whether (df, dr) lies on the piece's movement pattern from
    /// (fo, ro): the kind's geometry of spec section "move generator",
    /// occupancy and legality not yet consulted.
    fn pattern_matches(piece: Piece, fo: usize, ro: usize, df: usize, dr: usize) -> (res: bool)
        requires
            fo < 8,
            ro < 8,
            df < 8,
            dr < 8,
        ensures
            res == sp_pattern(
                piece.kind,
                piece.color,
                fo as int,
                ro as int,
                df as int,
                dr as int,
            ),
    {
        let fdiff = if df > fo {
            df - fo
        } else {
            fo - df
        };
        let rdiff = if dr > ro {
            dr - ro
        } else {
            ro - dr
        };
        match piece.kind {
            PieceKind::Pawn => {
                let white = piece.color == Color::White;
                let fwd1 = if white {
                    dr == ro + 1
                } else {
                    ro == dr + 1
                };
                let fwd2 = if white {
                    dr == ro + 2
                } else {
                    ro == dr + 2
                };
                (df == fo && (fwd1 || fwd2)) || (fdiff == 1 && fwd1)
            },
            PieceKind::Knight => (rdiff == 2 && fdiff == 1) || (rdiff == 1 && fdiff == 2),
            PieceKind::Bishop => fdiff == rdiff && df != fo,
            PieceKind::Rook => (df == fo) != (dr == ro),
            PieceKind::Queen => (fdiff == rdiff && df != fo) || ((df == fo) != (dr == ro)),
            PieceKind::King => rdiff + fdiff > 0 && rdiff <= 1 && fdiff <= 1,
            PieceKind::Empty => false,
        }
    }

    /// The pseudo-candidate moves of the piece on the given square, one per
    /// destination on the kind's movement pattern, in destination scan
    /// order; a pawn aimed at its far rank yields the four promotion
    /// candidates instead of one. Occupancy and legality are the callers'
    /// business; an empty square yields nothing.
    pub fn all_piece_moves(&self, file: File, rank: Rank) -> (res: Vec<Move>)
        requires
            self.wf(),
            file.valid(),
            rank.valid(),
        ensures
            res@ == sp_gen_list(self.board@, file.idx(), rank.idx()),
    {
        let fo = file.index().unwrap();
        let ro = rank.index().unwrap();
        let piece = self.board.get(fo, ro);
        let mut moves: Vec<Move> = Vec::new();
        proof {
            crate::rankfile::lemma_file_of_idx(file, fo as int);
            crate::rankfile::lemma_rank_of_idx(rank, ro as int);
        }
        let mut df: usize = 0;
        while df < 8
            invariant
                self.wf(),
                df <= 8,
                fo < 8,
                ro < 8,
                fo == file.idx(),
                ro == rank.idx(),
                piece == sp_at(self.board@, fo as int, ro as int),
                file == File::spec_from_index(fo as int),
                rank == Rank::spec_from_index(ro as int),
                moves@ == sp_gen_upto(self.board@, fo as int, ro as int, df as int * 8),
            decreases 8 - df,
        {
            let mut dr: usize = 0;
            while dr < 8
                invariant
                    self.wf(),
                    df < 8,
                    dr <= 8,
                    fo < 8,
                    ro < 8,
                    fo == file.idx(),
                    ro == rank.idx(),
                    piece == sp_at(self.board@, fo as int, ro as int),
                    file == File::spec_from_index(fo as int),
                    rank == Rank::spec_from_index(ro as int),
                    moves@ == sp_gen_upto(self.board@, fo as int, ro as int, df as int * 8 + dr),
                decreases 8 - dr,
            {
                proof {
                    assert((df * 8 + dr) as int / 8 == df as int && (df * 8 + dr) as int % 8
                        == dr as int);
                }
                if Game::pattern_matches(piece, fo, ro, df, dr) {
                    let base = Move::basic(
                        piece,
                        (file, rank),
                        (File::from_index(df), Rank::from_index(dr)),
                    );
                    if piece.kind == PieceKind::Pawn && dr == promotion_rank_index(piece.color) {
                        let mut mv = base;
                        mv.promotion = PieceKind::Knight;
                        moves.push(mv);
                        mv = base;
                        mv.promotion = PieceKind::Bishop;
                        moves.push(mv);
                        mv = base;
                        mv.promotion = PieceKind::Rook;
                        moves.push(mv);
                        mv = base;
                        mv.promotion = PieceKind::Queen;
                        moves.push(mv);
                    } else {
                        moves.push(base);
                    }
                }
                proof {
                    assert(moves@ =~= sp_gen_upto(
                        self.board@,
                        fo as int,
                        ro as int,
                        df as int * 8 + dr + 1,
                    ));
                }
                dr = dr + 1;
            }
            df = df + 1;
        }
        moves
    }

    /// The two fixed castle candidate moves for the side to move.
    fn castle_candidates(&self) -> (res: Vec<Move>)
        ensures
            res@.len() == 2,
            res@[0] == sp_castle_cand(self.to_move, false),
            res@[1] == sp_castle_cand(self.to_move, true),
    {
        let mut moves: Vec<Move> = Vec::new();
        let mut short = Move::new();
        short.castle = true;
        short.piece = Piece::make(PieceKind::King, self.to_move, false, 0);
        moves.push(short);
        let mut long = Move::new();
        long.long_castle = true;
        long.piece = Piece::make(PieceKind::King, self.to_move, false, 0);
        moves.push(long);
        moves
    }

    /// Whether the side to move has any legal move: every friendly piece's
    /// candidates, and then the two castle candidates, go through
    /// validation and the self-check filter, stopping at the first
    /// survivor. True exactly when the legal-move list is not empty.
    #[verifier::rlimit(100)]
    pub fn any_valid_moves(&self) -> (res: bool)
        requires
            self.wf(),
        ensures
            res == (sp_legal_move_list(*self).len() != 0),
    {
        let mut f: usize = 0;
        while f < 8
            invariant
                self.wf(),
                f <= 8,
                sp_board_legal_upto(*self, f as int * 8) == Seq::<Move>::empty(),
            decreases 8 - f,
        {
            let mut r: usize = 0;
            while r < 8
                invariant
                    self.wf(),
                    f < 8,
                    r <= 8,
                    sp_board_legal_upto(*self, f as int * 8 + r) == Seq::<Move>::empty(),
                decreases 8 - r,
            {
                let p = self.board.get(f, r);
                proof {
                    assert((f as int * 8 + r) / 8 == f as int && (f as int * 8 + r) % 8
                        == r as int);
                }
                if p.kind != PieceKind::Empty && p.color == self.to_move {
                    let piece_moves = self.all_piece_moves(
                        File::from_index(f),
                        Rank::from_index(r),
                    );
                    let mut k: usize = 0;
                    while k < piece_moves.len()
                        invariant
                            self.wf(),
                            f < 8,
                            r < 8,
                            k <= piece_moves@.len(),
                            piece_moves@ == sp_gen_list(self.board@, f as int, r as int),
                            sp_at(self.board@, f as int, r as int).kind != PieceKind::Empty,
                            sp_at(self.board@, f as int, r as int).color == self.to_move,
                            sp_board_legal_upto(*self, f as int * 8 + r) == Seq::<Move>::empty(),
                            sp_filter_upto(*self, f as int, r as int, k as int) == Seq::<
                                Move,
                            >::empty(),
                        decreases piece_moves@.len() - k,
                    {
                        let mut mv = piece_moves[k];
                        let ghost cand = mv;
                        proof {
                            lemma_gen_upto_shape(self.board@, f as int, r as int, 64);
                            lemma_resolved_keeps_coords(self.board@, self.history@, cand);
                        }
                        if self.is_valid_move(&mut mv).is_none() {
                            let mut temp = self.snapshot();
                            let _ = temp.do_move(mv);
                            if !temp.is_check() {
                                proof {
                                    let sq = f as int * 8 + r as int;
                                    assert(sq / 8 == f as int && sq % 8 == r as int);
                                    assert(sp_filter_upto(
                                        *self,
                                        f as int,
                                        r as int,
                                        k as int + 1,
                                    ).len() > 0);
                                    lemma_filter_len_mono(
                                        *self,
                                        f as int,
                                        r as int,
                                        k as int + 1,
                                        piece_moves@.len() as int,
                                    );
                                    assert(sp_square_legal(*self, sq).len() > 0);
                                    lemma_square_in_board(*self, sq, 64);
                                    assert(sp_legal_move_list(*self).len() > 0);
                                }
                                return true;
                            }
                        }
                        proof {
                            assert(sp_filter_upto(*self, f as int, r as int, k as int + 1) =~= Seq::<
                                Move,
                            >::empty());
                        }
                        k = k + 1;
                    }
                    proof {
                        assert(sp_square_legal(*self, f as int * 8 + r) =~= Seq::<Move>::empty());
                        assert(sp_board_legal_upto(*self, f as int * 8 + r + 1) =~= Seq::<
                            Move,
                        >::empty());
                    }
                } else {
                    proof {
                        assert(sp_square_legal(*self, f as int * 8 + r) =~= Seq::<Move>::empty());
                        assert(sp_board_legal_upto(*self, f as int * 8 + r + 1) =~= Seq::<
                            Move,
                        >::empty());
                    }
                }
                r = r + 1;
            }
            f = f + 1;
        }
        let castles = self.castle_candidates();
        let mut c: usize = 0;
        while c < 2
            invariant
                self.wf(),
                c <= 2,
                castles@.len() == 2,
                castles@[0] == sp_castle_cand(self.to_move, false),
                castles@[1] == sp_castle_cand(self.to_move, true),
                sp_board_legal_upto(*self, 64) == Seq::<Move>::empty(),
                c >= 1 ==> !sp_legal_castle_cand(*self, false),
                c >= 2 ==> !sp_legal_castle_cand(*self, true),
            decreases 2 - c,
        {
            let mut mv = castles[c];
            let ghost long = c == 1;
            if self.is_valid_move(&mut mv).is_none() {
                let mut temp = self.snapshot();
                let _ = temp.do_move(mv);
                if !temp.is_check() {
                    proof {
                        assert(sp_legal_castle_cand(*self, long));
                        assert(sp_castle_entry(*self, long).len() == 1);
                        assert(sp_legal_move_list(*self).len() > 0);
                    }
                    return true;
                }
            }
            proof {
                assert(!sp_legal_castle_cand(*self, long));
            }
            c = c + 1;
        }
        proof {
            assert(sp_legal_move_list(*self) =~= Seq::<Move>::empty());
        }
        false
    }

    /// Every legal move of the side to move: by board scan file-major then
    /// rank, each piece's pattern candidates in destination order with the
    /// four promotion candidates where a pawn reaches its far rank, and
    /// the two castle candidates tried last. The result is exactly
    /// `sp_legal_move_list`, and every listed move has passed validation
    /// and the self-check filter.
    #[verifier::rlimit(100)]
    pub fn list_valid_moves(&self) -> (res: Vec<Move>)
        requires
            self.wf(),
        ensures
            res@ == sp_legal_move_list(*self),
            forall|i: int|
                0 <= i < res@.len() ==> sp_listed_move(*self, res@[i]) && sp_move_safe(
                    self.board@,
                    self.history@,
                    self.to_move,
                    res@[i],
                ),
    {
        let mut moves: Vec<Move> = Vec::new();
        let mut f: usize = 0;
        while f < 8
            invariant
                self.wf(),
                f <= 8,
                moves@ == sp_board_legal_upto(*self, f as int * 8),
            decreases 8 - f,
        {
            let mut r: usize = 0;
            while r < 8
                invariant
                    self.wf(),
                    f < 8,
                    r <= 8,
                    moves@ == sp_board_legal_upto(*self, f as int * 8 + r),
                decreases 8 - r,
            {
                let p = self.board.get(f, r);
                proof {
                    assert((f as int * 8 + r) / 8 == f as int && (f as int * 8 + r) % 8
                        == r as int);
                }
                if p.kind != PieceKind::Empty && p.color == self.to_move {
                    let piece_moves = self.all_piece_moves(
                        File::from_index(f),
                        Rank::from_index(r),
                    );
                    let mut k: usize = 0;
                    while k < piece_moves.len()
                        invariant
                            self.wf(),
                            f < 8,
                            r < 8,
                            k <= piece_moves@.len(),
                            piece_moves@ == sp_gen_list(self.board@, f as int, r as int),
                            sp_at(self.board@, f as int, r as int).kind != PieceKind::Empty,
                            sp_at(self.board@, f as int, r as int).color == self.to_move,
                            moves@ == sp_board_legal_upto(*self, f as int * 8 + r)
                                + sp_filter_upto(*self, f as int, r as int, k as int),
                        decreases piece_moves@.len() - k,
                    {
                        let mut mv = piece_moves[k];
                        let ghost cand = mv;
                        proof {
                            lemma_gen_upto_shape(self.board@, f as int, r as int, 64);
                            lemma_resolved_keeps_coords(self.board@, self.history@, cand);
                        }
                        if self.is_valid_move(&mut mv).is_none() {
                            let mut temp = self.snapshot();
                            let _ = temp.do_move(mv);
                            if !temp.is_check() {
                                moves.push(mv);
                            }
                        }
                        proof {
                            assert(moves@ =~= sp_board_legal_upto(*self, f as int * 8 + r)
                                + sp_filter_upto(*self, f as int, r as int, k as int + 1));
                        }
                        k = k + 1;
                    }
                    proof {
                        assert(sp_square_legal(*self, f as int * 8 + r) == sp_filter_upto(
                            *self,
                            f as int,
                            r as int,
                            sp_gen_list(self.board@, f as int, r as int).len() as int,
                        ));
                        assert(moves@ =~= sp_board_legal_upto(*self, f as int * 8 + r + 1));
                    }
                } else {
                    proof {
                        assert(sp_square_legal(*self, f as int * 8 + r) =~= Seq::<Move>::empty());
                        assert(moves@ =~= sp_board_legal_upto(*self, f as int * 8 + r + 1));
                    }
                }
                r = r + 1;
            }
            f = f + 1;
        }
        proof {
            assert(moves@ =~= sp_board_legal_upto(*self, 64) + Seq::<Move>::empty() + Seq::<
                Move,
            >::empty());
        }
        let castles = self.castle_candidates();
        let mut c: usize = 0;
        while c < 2
            invariant
                self.wf(),
                c <= 2,
                castles@.len() == 2,
                castles@[0] == sp_castle_cand(self.to_move, false),
                castles@[1] == sp_castle_cand(self.to_move, true),
                moves@ == sp_board_legal_upto(*self, 64) + (if c >= 1 {
                    sp_castle_entry(*self, false)
                } else {
                    Seq::<Move>::empty()
                }) + (if c >= 2 {
                    sp_castle_entry(*self, true)
                } else {
                    Seq::<Move>::empty()
                }),
            decreases 2 - c,
        {
            let mut mv = castles[c];
            let ghost long = c == 1;
            if self.is_valid_move(&mut mv).is_none() {
                let mut temp = self.snapshot();
                let _ = temp.do_move(mv);
                if !temp.is_check() {
                    moves.push(mv);
                }
            }
            proof {
                if c == 0 {
                    assert(moves@ =~= sp_board_legal_upto(*self, 64) + sp_castle_entry(
                        *self,
                        false,
                    ) + Seq::<Move>::empty());
                } else {
                    assert(moves@ =~= sp_board_legal_upto(*self, 64) + sp_castle_entry(
                        *self,
                        false,
                    ) + sp_castle_entry(*self, true));
                }
            }
            c = c + 1;
        }
        proof {
            lemma_listed_moves_safe(*self);
            assert forall|i: int| 0 <= i < moves@.len() implies sp_listed_move(
                *self,
                moves@[i],
            ) by {
                assert(sp_legal_move_list(*self)[i] == moves@[i]);
            }
        }
        moves
    }

    /// Resolves a parsed move's partial origin against the board: collects
    /// the candidate origins the hint allows, keeps those whose completed
    /// move is valid, and accepts exactly one survivor. For castles this is
    /// just the castle-legality check. Zero matching pieces, and anything
    /// other than exactly one survivor, are errors; the move is only
    /// modified on success.
    #[verifier::rlimit(100)]
    pub fn disambiguate(&self, m: &mut Move) -> (res: Option<String>)
        requires
            self.wf(),
            old(m).castle || old(m).long_castle || (old(m).dest_set() && old(m).origin.0.wf()
                && old(m).origin.1.wf()),
        ensures
            old(m).castle || old(m).long_castle ==> sp_err_matches(
                res,
                sp_castle_err(self.board@, self.history@, self.to_move, old(m).long_castle),
            ) && *final(m) == *old(m),
            !(old(m).castle || old(m).long_castle) ==> ({
                let cands = sp_dis_candidates(*self, *old(m));
                let survivors = sp_dis_survivors(*self, *old(m), cands);
                if cands.len() == 0 {
                    &&& res matches Some(e) && e@ == "No pieces match"@
                    &&& *final(m) == *old(m)
                } else if survivors.len() == 1 {
                    &&& res is None
                    &&& *final(m) == survivors[0]
                } else {
                    &&& res matches Some(e) && e@ == "No pieces can make that move"@
                    &&& *final(m) == *old(m)
                }
            }),
    {
        if m.castle || m.long_castle {
            return self.is_valid_castle(m);
        }
        let ghost cands = sp_dis_candidates(*self, *old(m));
        let mut ambi: Vec<(File, Rank)> = Vec::new();
        let file = m.origin.0;
        let rank = m.origin.1;
        if file.is_valid() && rank.is_valid() {
            ambi.push((file, rank));
            proof {
                crate::rankfile::lemma_file_of_idx(file, file.idx());
                crate::rankfile::lemma_rank_of_idx(rank, rank.idx());
                assert(sp_amb_matches(ambi@, cands));
            }
        } else if file.is_valid() {
            let ff = file.index().unwrap();
            proof {
                crate::rankfile::lemma_file_of_idx(file, ff as int);
            }
            let mut r: usize = 0;
            while r < 8
                invariant
                    self.wf(),
                    r <= 8,
                    ff < 8,
                    file == File::spec_from_index(ff as int),
                    ambi@.len() == sp_file_matches(self.board@, m.piece, ff as int, r as int).len(),
                    ambi@ == Seq::new(
                        ambi@.len(),
                        |i: int|
                            {
                                let t = sp_file_matches(self.board@, m.piece, ff as int, r as int)[i];
                                (File::spec_from_index(t.0), Rank::spec_from_index(t.1))
                            },
                    ),
                    sp_amb_matches(ambi@, sp_file_matches(self.board@, m.piece, ff as int, r as int)),
                    *m == *old(m),
                decreases 8 - r,
            {
                if self.board.get(ff, r).matches(m.piece) {
                    ambi.push((file, Rank::from_index(r)));
                }
                proof {
                    assert(sp_amb_matches(
                        ambi@,
                        sp_file_matches(self.board@, m.piece, ff as int, r as int + 1),
                    ));
                    assert(ambi@ =~= Seq::new(
                        ambi@.len(),
                        |i: int|
                            {
                                let t = sp_file_matches(
                                    self.board@,
                                    m.piece,
                                    ff as int,
                                    r as int + 1,
                                )[i];
                                (File::spec_from_index(t.0), Rank::spec_from_index(t.1))
                            },
                    ));
                }
                r = r + 1;
            }
        } else if rank.is_valid() {
            let rr = rank.index().unwrap();
            proof {
                crate::rankfile::lemma_rank_of_idx(rank, rr as int);
            }
            let mut f: usize = 0;
            while f < 8
                invariant
                    self.wf(),
                    f <= 8,
                    rr < 8,
                    rank == Rank::spec_from_index(rr as int),
                    ambi@.len() == sp_rank_matches(self.board@, m.piece, rr as int, f as int).len(),
                    ambi@ == Seq::new(
                        ambi@.len(),
                        |i: int|
                            {
                                let t = sp_rank_matches(self.board@, m.piece, rr as int, f as int)[i];
                                (File::spec_from_index(t.0), Rank::spec_from_index(t.1))
                            },
                    ),
                    sp_amb_matches(ambi@, sp_rank_matches(self.board@, m.piece, rr as int, f as int)),
                    *m == *old(m),
                decreases 8 - f,
            {
                if self.board.get(f, rr).matches(m.piece) {
                    ambi.push((File::from_index(f), rank));
                }
                proof {
                    assert(sp_amb_matches(
                        ambi@,
                        sp_rank_matches(self.board@, m.piece, rr as int, f as int + 1),
                    ));
                    assert(ambi@ =~= Seq::new(
                        ambi@.len(),
                        |i: int|
                            {
                                let t = sp_rank_matches(
                                    self.board@,
                                    m.piece,
                                    rr as int,
                                    f as int + 1,
                                )[i];
                                (File::spec_from_index(t.0), Rank::spec_from_index(t.1))
                            },
                    ));
                }
                f = f + 1;
            }
        } else {
            let mut f: usize = 0;
            while f < 8
                invariant
                    self.wf(),
                    f <= 8,
                    ambi@.len() == sp_board_matches(self.board@, m.piece, f as int * 8).len(),
                    ambi@ == Seq::new(
                        ambi@.len(),
                        |i: int|
                            {
                                let t = sp_board_matches(self.board@, m.piece, f as int * 8)[i];
                                (File::spec_from_index(t.0), Rank::spec_from_index(t.1))
                            },
                    ),
                    sp_amb_matches(ambi@, sp_board_matches(self.board@, m.piece, f as int * 8)),
                    *m == *old(m),
                decreases 8 - f,
            {
                let mut r: usize = 0;
                while r < 8
                    invariant
                        self.wf(),
                        f < 8,
                        r <= 8,
                        ambi@.len() == sp_board_matches(
                            self.board@,
                            m.piece,
                            f as int * 8 + r,
                        ).len(),
                        ambi@ == Seq::new(
                            ambi@.len(),
                            |i: int|
                                {
                                    let t = sp_board_matches(
                                        self.board@,
                                        m.piece,
                                        f as int * 8 + r,
                                    )[i];
                                    (File::spec_from_index(t.0), Rank::spec_from_index(t.1))
                                },
                        ),
                        sp_amb_matches(ambi@, sp_board_matches(self.board@, m.piece, f as int * 8 + r)),
                        *m == *old(m),
                    decreases 8 - r,
                {
                    proof {
                        assert((f as int * 8 + r) / 8 == f as int && (f as int * 8 + r) % 8
                            == r as int);
                    }
                    if self.board.get(f, r).matches(m.piece) {
                        ambi.push((File::from_index(f), Rank::from_index(r)));
                    }
                    proof {
                        assert(sp_amb_matches(
                            ambi@,
                            sp_board_matches(self.board@, m.piece, f as int * 8 + r + 1),
                        ));
                        assert(ambi@ =~= Seq::new(
                            ambi@.len(),
                            |i: int|
                                {
                                    let t = sp_board_matches(
                                        self.board@,
                                        m.piece,
                                        f as int * 8 + r + 1,
                                    )[i];
                                    (File::spec_from_index(t.0), Rank::spec_from_index(t.1))
                                },
                        ));
                    }
                    r = r + 1;
                }
                f = f + 1;
            }
        }
        proof {
            assert(sp_amb_matches(ambi@, cands));
        }
        if ambi.len() == 0 {
            return Some("No pieces match".to_owned());
        }
        let mut ambi2: Vec<Move> = Vec::new();
        let mut i: usize = 0;
        while i < ambi.len()
            invariant
                self.wf(),
                i <= ambi@.len(),
                sp_amb_matches(ambi@, cands),
                cands == sp_dis_candidates(*self, *old(m)),
                old(m).dest_set(),
                *m == *old(m),
                ambi2@ == sp_dis_survivors(*self, *old(m), cands.take(i as int)),
            decreases ambi@.len() - i,
        {
            let (cf, cr) = ambi[i];
            let cur_piece = self.board.get(cf.index().unwrap(), cr.index().unwrap());
            let mut cur = Move {
                dest: m.dest,
                origin: (cf, cr),
                piece: cur_piece,
                takes: m.takes,
                check: m.check,
                checkmate: m.checkmate,
                castle: m.castle,
                long_castle: m.long_castle,
                pawn_double: m.pawn_double,
                en_passant: m.en_passant,
                promotion: m.promotion,
                meta: MetaMove::Ordinary,
            };
            proof {
                assert(cur == sp_dis_move(*self, *old(m), cands[i as int].0, cands[i as int].1));
                lemma_survivors_step(*self, *old(m), cands, i as int);
            }
            if self.is_valid_move(&mut cur).is_none() {
                ambi2.push(cur);
            }
            proof {
                assert(ambi2@ =~= sp_dis_survivors(*self, *old(m), cands.take(i as int + 1)));
            }
            i = i + 1;
        }
        proof {
            assert(cands.take(cands.len() as int) =~= cands);
        }
        if ambi2.len() == 1 {
            *m = ambi2[0];
            return None;
        }
        Some("No pieces can make that move".to_owned())
    }

    /// Parses one line of move input for the side to move; see the
    /// free-standing parser for the grammar.
    pub fn parse_notation(&self, input: String) -> (res: Result<Move, String>)
        ensures
            crate::notation::parse_result_matches(res, input@, self.to_move),
            res matches Ok(m) ==> m.coords_wf() && m.en_passant is None,
    {
        crate::notation::parse_notation(input, self.to_move)
    }

    /// Resets the board to the starting position and enters play. In a
    /// bot match the seats' colors follow the chosen start color (drawn at
    /// random if so configured), the board faces player one, and flipping
    /// is disabled; the bot must actually sit at seat two.
    pub fn start_game(&mut self)
        requires
            old(self).wf(),
            old(self).game_mode == GameMode::AgainstBotLocal ==> old(self).player_two.player
                == PlayerKind::Bogobot,
        ensures
            final(self).wf(),
            forall|f: int, r: int|
                0 <= f < 8 && 0 <= r < 8 ==> final(self).board.at(f, r) == sp_start_piece(f, r),
            final(self).to_move == Color::White,
            final(self).turn_count == 1,
            final(self).history@ == Seq::<Move>::empty(),
            final(self).white_cap@ == Seq::<Piece>::empty(),
            final(self).black_cap@ == Seq::<Piece>::empty(),
            final(self).print_mode == PrintMode::Game,
            final(self).error == old(self).error,
            final(self).game_mode == old(self).game_mode,
            final(self).start_color == old(self).start_color,
            final(self).player_one.player == old(self).player_one.player,
            final(self).player_two.player == old(self).player_two.player,
            old(self).game_mode != GameMode::AgainstBotLocal ==> {
                &&& final(self).player_one.color == Color::White
                &&& final(self).player_two.color == Color::Black
                &&& final(self).orientation == Color::White
                &&& final(self).do_flip == old(self).do_flip
            },
            old(self).game_mode == GameMode::AgainstBotLocal ==> {
                &&& final(self).player_two.color == final(self).player_one.color.spec_other()
                &&& old(self).start_color == StartColor::White ==> final(self).player_one.color
                    == Color::White
                &&& old(self).start_color == StartColor::Black ==> final(self).player_one.color
                    == Color::Black
                &&& final(self).orientation == final(self).player_one.color
                &&& !final(self).do_flip
            },
    {
        self.clear();
        self.default_board();
        self.to_move = Color::White;
        self.turn_count = 1;
        self.print_mode = PrintMode::Game;
        if self.game_mode == GameMode::AgainstBotLocal {
            let mut actual_start_color = self.start_color;
            if actual_start_color == StartColor::Random {
                if crate::bots::random_flip() {
                    actual_start_color = StartColor::White;
                } else {
                    actual_start_color = StartColor::Black;
                }
            }
            self.player_one.color = if actual_start_color == StartColor::White {
                Color::White
            } else {
                Color::Black
            };
            self.player_two.color = if actual_start_color == StartColor::White {
                Color::Black
            } else {
                Color::White
            };
            self.orientation = self.player_one.color();
            // Flipping while playing against a bot is silly.
            self.do_flip = false;
        }
    }

    pub open spec fn game_mode_str_spec(self) -> Seq<char> {
        match self.game_mode {
            GameMode::AgainstHumanLocal => "2 Player Local"@,
            GameMode::AgainstBotLocal => "Against Bot"@,
        }
    }

    pub fn game_mode_string(&self) -> (res: String)
        ensures
            res@ == self.game_mode_str_spec(),
    {
        match self.game_mode {
            GameMode::AgainstHumanLocal => "2 Player Local".to_owned(),
            GameMode::AgainstBotLocal => "Against Bot".to_owned(),
        }
    }

    /// The rendered square at (f, r): checkerboard background then piece.
    pub fn board_square(&self, f: usize, r: usize) -> (res: String)
        requires
            self.wf(),
            f < 8,
            r < 8,
        ensures
            res@ == sp_board_square(*self, f as int, r as int),
    {
        let mut space = String::new();
        if (f + r) % 2 == 0 {
            space.append(DARK);
        } else {
            space.append(LIGHT);
        }
        space.append(self.board.get(f, r).get_string().as_str());
        space
    }

    /// Rank `r` rendered in the current orientation's file order, with the
    /// closing style reset.
    pub fn print_rank(&self, r: usize) -> (res: String)
        requires
            self.wf(),
            r < 8,
        ensures
            res@ == sp_rank_prefix(*self, r as int, 8) + RESET@,
    {
        let mut rank = String::new();
        let mut i: usize = 0;
        while i < 8
            invariant
                self.wf(),
                r < 8,
                i <= 8,
                rank@ == sp_rank_prefix(*self, r as int, i as int),
            decreases 8 - i,
        {
            let f = if self.orientation == Color::White {
                i
            } else {
                7 - i
            };
            rank.append(self.board_square(f, r).as_str());
            proof {
                assert(rank@ =~= sp_rank_prefix(*self, r as int, i as int + 1));
            }
            i = i + 1;
        }
        rank.append(RESET);
        rank
    }

    /// The file letters under the board, in the current orientation.
    pub fn print_rank_label(&self) -> (res: String)
        ensures
            self.orientation == Color::White ==> res@ == "a b c d e f g h "@,
            self.orientation == Color::Black ==> res@ == "h g f e d c b a "@,
    {
        if self.orientation == Color::White {
            "a b c d e f g h ".to_owned()
        } else {
            "h g f e d c b a ".to_owned()
        }
    }

    /// The given color's captured pieces, concatenated in capture order.
    pub fn cap_string(&self, c: Color) -> (res: String)
        ensures
            c == Color::White ==> res@ == sp_caps_prefix(
                self.white_cap@,
                self.white_cap@.len() as int,
            ),
            c == Color::Black ==> res@ == sp_caps_prefix(
                self.black_cap@,
                self.black_cap@.len() as int,
            ),
    {
        let mut s = String::new();
        if c == Color::White {
            let mut i: usize = 0;
            while i < self.white_cap.len()
                invariant
                    i <= self.white_cap@.len(),
                    s@ == sp_caps_prefix(self.white_cap@, i as int),
                decreases self.white_cap@.len() - i,
            {
                s.append(self.white_cap[i].get_string().as_str());
                proof {
                    assert(s@ =~= sp_caps_prefix(self.white_cap@, i as int + 1));
                }
                i = i + 1;
            }
        } else {
            let mut i: usize = 0;
            while i < self.black_cap.len()
                invariant
                    i <= self.black_cap@.len(),
                    s@ == sp_caps_prefix(self.black_cap@, i as int),
                decreases self.black_cap@.len() - i,
            {
                s.append(self.black_cap[i].get_string().as_str());
                proof {
                    assert(s@ =~= sp_caps_prefix(self.black_cap@, i as int + 1));
                }
                i = i + 1;
            }
        }
        s
    }

    /// One line of the move record beside the board, `offset` full turns
    /// back; empty when the history does not reach back that far.
    #[verifier::rlimit(100)]
    pub fn print_notation_history(&self, offset: usize) -> (res: String)
        requires
            self.wf(),
            offset <= 4,
            offset < self.turn_count,
            forall|i: int| 0 <= i < self.history@.len() ==> (#[trigger] self.history@[i]).coords_wf(),
        ensures
            res@ == sp_notation_line(*self, offset as int),
    {
        let len = self.history.len();
        if len < 2 * offset {
            return String::new();
        }
        let parity: usize = if len % 2 == 0 {
            1
        } else {
            0
        };
        let base = len - 2 * offset;
        if base < parity + 1 {
            return String::new();
        }
        let index = base - parity;
        let s1 = self.history[index - 1].notation();
        let s2 = if index < len {
            self.history[index].notation()
        } else {
            String::new()
        };
        let num = crate::text::u32_to_string(self.turn_count - offset as u32 - parity as u32);
        let mut res = " ".to_owned();
        res.append(crate::text::pad_left(num.as_str(), 3).as_str());
        res.append(". ");
        res.append(crate::text::pad_right(s1.as_str(), 10).as_str());
        res.append(" ");
        res.append(crate::text::pad_right(s2.as_str(), 10).as_str());
        proof {
            assert(res@ =~= sp_history_line(num@, s1@, s2@));
            assert(sp_notation_line(*self, offset as int) == sp_history_line(num@, s1@, s2@));
        }
        res
    }

    /// Repositions king and rook for a castle and marks both moved.
    fn apply_castle_move(&mut self, m: &Move)
        requires
            old(self).wf(),
            m.castle || m.long_castle,
        ensures
            final(self).wf(),
            final(self).board@ == sp_apply_board(old(self).board@, old(self).to_move, *m),
            *final(self) == (Game { board: final(self).board, ..*old(self) }),
    {
        let br = back_rank_index(self.to_move);
        let kd: usize = if m.castle {
            6
        } else {
            2
        };
        let rd: usize = if m.castle {
            5
        } else {
            3
        };
        let rf0: usize = if m.castle {
            7
        } else {
            0
        };
        let mut king = self.board.get(4, br);
        king.has_moved = true;
        self.board.set(kd, br, king);
        self.board.set(4, br, Piece::make(PieceKind::Empty, Color::White, false, 1));
        let mut rook = self.board.get(rf0, br);
        rook.has_moved = true;
        self.board.set(rd, br, rook);
        self.board.set(rf0, br, Piece::make(PieceKind::Empty, Color::White, false, 1));
        proof {
            assert(self.board@ =~= sp_apply_board(old(self).board@, old(self).to_move, *m));
        }
    }

    /// Moves the piece, records a capture, removes an en-passant victim and
    /// applies a promotion.
    fn apply_standard_move(&mut self, m: &Move)
        requires
            old(self).wf(),
            !m.castle && !m.long_castle,
            m.origin_set(),
            m.dest_set(),
            match m.en_passant {
                Some(sq) => sq.0.valid() && sq.1.valid(),
                None => true,
            },
        ensures
            final(self).wf(),
            final(self).board@ == sp_apply_board(old(self).board@, old(self).to_move, *m),
            final(self).white_cap@ == if m.takes && old(self).to_move == Color::White {
                old(self).white_cap@.push(sp_captured(old(self).board@, *m))
            } else {
                old(self).white_cap@
            },
            final(self).black_cap@ == if m.takes && old(self).to_move == Color::Black {
                old(self).black_cap@.push(sp_captured(old(self).board@, *m))
            } else {
                old(self).black_cap@
            },
            *final(self) == (Game {
                board: final(self).board,
                white_cap: final(self).white_cap,
                black_cap: final(self).black_cap,
                ..*old(self)
            }),
    {
        let fo = m.origin.0.index().unwrap();
        let ro = m.origin.1.index().unwrap();
        let df = m.dest.0.index().unwrap();
        let dr = m.dest.1.index().unwrap();
        if m.takes {
            let captured = self.board.get(df, dr);
            if self.to_move == Color::White {
                self.white_cap.push(captured);
            } else {
                self.black_cap.push(captured);
            }
        }
        let mut moved = self.board.get(fo, ro);
        moved.has_moved = true;
        moved.highlight = 1;
        self.board.set(df, dr, moved);
        self.board.set(fo, ro, Piece::make(PieceKind::Empty, Color::White, false, 1));
        if let Some((file, rank)) = m.en_passant {
            self.board.set(file.index().unwrap(), rank.index().unwrap(), Piece::empty());
        }
        if m.promotion != PieceKind::Empty {
            let mut dp = self.board.get(df, dr);
            dp.kind = m.promotion;
            self.board.set(df, dr, dp);
        }
        proof {
            assert(self.board@ =~= sp_apply_board(old(self).board@, old(self).to_move, *m));
        }
    }
}

/// The movement pattern of a piece kind, geometry only: which destination
/// squares the generator enumerates for it. Occupancy, blocking and
/// legality are the validator's business, so a pawn's forward and capture
/// squares and its double step are all enumerated, and rays run to the
/// board's edge.
pub open spec fn sp_pattern(
    kind: PieceKind,
    c: Color,
    of: int,
    or: int,
    df: int,
    dr: int,
) -> bool {
    match kind {
        PieceKind::Pawn => (df == of && (dr - or == pawn_dir(c) || dr - or == 2 * pawn_dir(c)))
            || (sp_abs(df - of) == 1 && dr - or == pawn_dir(c)),
        PieceKind::Knight => sp_knight(of, or, df, dr),
        PieceKind::Bishop => sp_abs(df - of) == sp_abs(dr - or) && df != of,
        PieceKind::Rook => (df == of) != (dr == or),
        PieceKind::Queen => (sp_abs(df - of) == sp_abs(dr - or) && df != of) || ((df == of) != (dr
            == or)),
        PieceKind::King => sp_king(of, or, df, dr),
        PieceKind::Empty => false,
    }
}

/// A generated candidate: the piece standing on the origin, no flags, and
/// the given promotion.
pub open spec fn sp_cand_with(
    b: Seq<Piece>,
    of: int,
    or: int,
    df: int,
    dr: int,
    promo: PieceKind,
) -> Move {
    Move {
        dest: (File::spec_from_index(df), Rank::spec_from_index(dr)),
        origin: (File::spec_from_index(of), Rank::spec_from_index(or)),
        piece: sp_at(b, of, or),
        promotion: promo,
        ..Move::spec_new()
    }
}

/// What the generator emits toward the destination with linear index `j`:
/// nothing off the piece's pattern; the four promotion candidates, knight
/// first, for a pawn aimed at its far rank; one plain candidate otherwise.
pub open spec fn sp_dest_cands(b: Seq<Piece>, of: int, or: int, j: int) -> Seq<Move> {
    let df = j / 8;
    let dr = j % 8;
    let p = sp_at(b, of, or);
    if !sp_pattern(p.kind, p.color, of, or, df, dr) {
        Seq::empty()
    } else if p.kind == PieceKind::Pawn && dr == spec_promotion_rank_index(p.color) {
        seq![
            sp_cand_with(b, of, or, df, dr, PieceKind::Knight),
            sp_cand_with(b, of, or, df, dr, PieceKind::Bishop),
            sp_cand_with(b, of, or, df, dr, PieceKind::Rook),
            sp_cand_with(b, of, or, df, dr, PieceKind::Queen),
        ]
    } else {
        seq![sp_cand_with(b, of, or, df, dr, PieceKind::Empty)]
    }
}

/// The generator's output over the first `n` destinations of the scan.
pub open spec fn sp_gen_upto(b: Seq<Piece>, of: int, or: int, n: int) -> Seq<Move>
    decreases n,
{
    if n <= 0 {
        Seq::empty()
    } else {
        sp_gen_upto(b, of, or, n - 1) + sp_dest_cands(b, of, or, n - 1)
    }
}

/// Exactly what `all_piece_moves` returns for the square (of, or).
pub open spec fn sp_gen_list(b: Seq<Piece>, of: int, or: int) -> Seq<Move> {
    sp_gen_upto(b, of, or, 64)
}

/// One of the two fixed castle candidates of the side to move.
pub open spec fn sp_castle_cand(c: Color, long: bool) -> Move {
    Move {
        castle: !long,
        long_castle: long,
        piece: Piece { kind: PieceKind::King, color: c, has_moved: false, highlight: 0 },
        ..Move::spec_new()
    }
}

/// The castle candidate passes the castle rule and the self-check filter.
pub open spec fn sp_legal_castle_cand(g: Game, long: bool) -> bool {
    &&& sp_castle_ok(g.board@, g.history@, g.to_move, long)
    &&& sp_move_safe(g.board@, g.history@, g.to_move, sp_castle_cand(g.to_move, long))
}

/// The sequence holds the move.
pub open spec fn sp_in(s: Seq<Move>, mv: Move) -> bool {
    exists|i: int| 0 <= i < s.len() && s[i] == mv
}

/// The legal moves among the first `k` generated candidates of the piece
/// on (of, or): those that validation accepts and the self-check filter
/// keeps, each in its resolved form, in candidate order.
pub open spec fn sp_filter_upto(g: Game, of: int, or: int, k: int) -> Seq<Move>
    decreases k,
{
    if k <= 0 {
        Seq::empty()
    } else {
        let cand = sp_gen_list(g.board@, of, or)[k - 1];
        let res = sp_resolved_move(g.board@, g.history@, cand);
        sp_filter_upto(g, of, or, k - 1) + if sp_move_ok(g.board@, g.history@, g.to_move, cand)
            && sp_move_safe(g.board@, g.history@, g.to_move, res) {
            seq![res]
        } else {
            Seq::empty()
        }
    }
}

/// The legal moves of the square with linear index `p`: nothing unless a
/// piece of the side to move stands there.
pub open spec fn sp_square_legal(g: Game, p: int) -> Seq<Move> {
    let of = p / 8;
    let or = p % 8;
    if sp_at(g.board@, of, or).kind != PieceKind::Empty && sp_at(g.board@, of, or).color
        == g.to_move {
        sp_filter_upto(g, of, or, sp_gen_list(g.board@, of, or).len() as int)
    } else {
        Seq::empty()
    }
}

/// The legal ordinary moves of the first `n` board squares, in scan order.
pub open spec fn sp_board_legal_upto(g: Game, n: int) -> Seq<Move>
    decreases n,
{
    if n <= 0 {
        Seq::empty()
    } else {
        sp_board_legal_upto(g, n - 1) + sp_square_legal(g, n - 1)
    }
}

/// The one possible castle entry of the list, empty when the castle is not
/// legal.
pub open spec fn sp_castle_entry(g: Game, long: bool) -> Seq<Move> {
    if sp_legal_castle_cand(g, long) {
        seq![sp_castle_cand(g.to_move, long)]
    } else {
        Seq::empty()
    }
}

/// Exactly what `list_valid_moves` returns: the legal moves of the full
/// board scan, file-major then rank then destination, with the castle
/// candidates last.
pub open spec fn sp_legal_move_list(g: Game) -> Seq<Move> {
    sp_board_legal_upto(g, 64) + sp_castle_entry(g, false) + sp_castle_entry(g, true)
}

/// The move is one of the listed legal moves.
pub open spec fn sp_listed_move(g: Game, mv: Move) -> bool {
    sp_in(sp_legal_move_list(g), mv)
}

/// Every generated candidate is a flagless move of the origin's piece from
/// the origin square to an on-board destination.
proof fn lemma_gen_upto_shape(b: Seq<Piece>, of: int, or: int, n: int)
    requires
        0 <= of < 8,
        0 <= or < 8,
        0 <= n <= 64,
    ensures
        forall|k: int|
            0 <= k < sp_gen_upto(b, of, or, n).len() ==> {
                let m = #[trigger] sp_gen_upto(b, of, or, n)[k];
                &&& m.origin_set()
                &&& m.dest_set()
                &&& o_f(m) == of
                &&& o_r(m) == or
                &&& m.piece == sp_at(b, of, or)
                &&& !m.castle
                &&& !m.long_castle
                &&& m.en_passant is None
            },
    decreases n,
{
    if n > 0 {
        lemma_gen_upto_shape(b, of, or, n - 1);
        assert(0 <= (n - 1) / 8 < 8 && 0 <= (n - 1) % 8 < 8);
    }
}

/// Every move the per-square legal list holds has passed the self-check
/// filter.
proof fn lemma_filter_upto_safe(g: Game, of: int, or: int, k: int)
    ensures
        forall|i: int|
            0 <= i < sp_filter_upto(g, of, or, k).len() ==> sp_move_safe(
                g.board@,
                g.history@,
                g.to_move,
                #[trigger] sp_filter_upto(g, of, or, k)[i],
            ),
    decreases k,
{
    if k > 0 {
        lemma_filter_upto_safe(g, of, or, k - 1);
        let prev = sp_filter_upto(g, of, or, k - 1);
        let cur = sp_filter_upto(g, of, or, k);
        assert forall|i: int| 0 <= i < cur.len() implies sp_move_safe(
            g.board@,
            g.history@,
            g.to_move,
            cur[i],
        ) by {
            if i < prev.len() {
                assert(cur[i] == prev[i]);
            } else {
                assert(cur[i] == sp_resolved_move(
                    g.board@,
                    g.history@,
                    sp_gen_list(g.board@, of, or)[k - 1],
                ));
            }
        }
    }
}

proof fn lemma_board_upto_safe(g: Game, n: int)
    ensures
        forall|i: int|
            0 <= i < sp_board_legal_upto(g, n).len() ==> sp_move_safe(
                g.board@,
                g.history@,
                g.to_move,
                #[trigger] sp_board_legal_upto(g, n)[i],
            ),
    decreases n,
{
    if n > 0 {
        lemma_board_upto_safe(g, n - 1);
        lemma_filter_upto_safe(
            g,
            (n - 1) / 8,
            (n - 1) % 8,
            sp_gen_list(g.board@, (n - 1) / 8, (n - 1) % 8).len() as int,
        );
        let prev = sp_board_legal_upto(g, n - 1);
        let sq = sp_square_legal(g, n - 1);
        let cur = sp_board_legal_upto(g, n);
        assert forall|i: int| 0 <= i < cur.len() implies sp_move_safe(
            g.board@,
            g.history@,
            g.to_move,
            cur[i],
        ) by {
            if i < prev.len() {
                assert(cur[i] == prev[i]);
            } else {
                assert(cur[i] == sq[i - prev.len()]);
            }
        }
    }
}

/// Every move of the legal-move list has passed the self-check filter.
pub proof fn lemma_listed_moves_safe(g: Game)
    ensures
        forall|i: int|
            0 <= i < sp_legal_move_list(g).len() ==> sp_move_safe(
                g.board@,
                g.history@,
                g.to_move,
                #[trigger] sp_legal_move_list(g)[i],
            ),
{
    lemma_board_upto_safe(g, 64);
}

/// The self-check filtering invariant: every listed legal move leaves the
/// mover's own king unattacked once performed.
pub proof fn lemma_legal_moves_avoid_self_check(g: Game, m: Move)
    requires
        sp_listed_move(g, m),
    ensures
        sp_move_safe(g.board@, g.history@, g.to_move, m),
{
    lemma_listed_moves_safe(g);
    let i = choose|i: int|
        0 <= i < sp_legal_move_list(g).len() && sp_legal_move_list(g)[i] == m;
}

/// A longer candidate prefix never loses legal moves.
proof fn lemma_filter_len_mono(g: Game, of: int, or: int, k: int, n: int)
    requires
        0 <= k <= n,
    ensures
        sp_filter_upto(g, of, or, k).len() <= sp_filter_upto(g, of, or, n).len(),
    decreases n,
{
    if n > k {
        lemma_filter_len_mono(g, of, or, k, n - 1);
    }
}

/// The board scan holds at least each one square's legal moves.
proof fn lemma_square_in_board(g: Game, p: int, n: int)
    requires
        0 <= p < n,
    ensures
        sp_board_legal_upto(g, n).len() >= sp_square_legal(g, p).len(),
    decreases n,
{
    if p < n - 1 {
        lemma_square_in_board(g, p, n - 1);
    }
}

/// Validation keeps a candidate's coordinates and castle flags, and only
/// records a valid en-passant square on it.
proof fn lemma_resolved_keeps_coords(b: Seq<Piece>, hist: Seq<Move>, m: Move)
    requires
        m.origin_set(),
        m.dest_set(),
        match m.en_passant {
            Some(sq) => sq.0.valid() && sq.1.valid(),
            None => true,
        },
    ensures
        ({
            let r = sp_resolved_move(b, hist, m);
            &&& r.origin == m.origin
            &&& r.dest == m.dest
            &&& r.castle == m.castle
            &&& r.long_castle == m.long_castle
            &&& r.piece == m.piece
            &&& r.promotion == m.promotion
            &&& match r.en_passant {
                Some(sq) => sq.0.valid() && sq.1.valid(),
                None => true,
            }
        }),
{
    let r = sp_resolved_move(b, hist, m);
    if r.en_passant is Some && m.en_passant is None {
        assert(sp_pawn_ep(b, hist, m.piece.color, o_f(m), o_r(m), d_f(m), d_r(m)));
        assert(r.en_passant == Some(sp_ep_square(m)));
    }
}

/// The squares on file `ff` with rank below `n`, in rank order, whose piece
/// matches `p` in kind and color.
pub open spec fn sp_file_matches(b: Seq<Piece>, p: Piece, ff: int, n: int) -> Seq<(int, int)>
    decreases n,
{
    if n <= 0 {
        Seq::empty()
    } else {
        sp_file_matches(b, p, ff, n - 1) + if sp_at(b, ff, n - 1).matches_spec(p) {
            seq![(ff, n - 1)]
        } else {
            Seq::empty()
        }
    }
}

/// The squares on rank `rr` with file below `n`, in file order, whose piece
/// matches `p` in kind and color.
pub open spec fn sp_rank_matches(b: Seq<Piece>, p: Piece, rr: int, n: int) -> Seq<(int, int)>
    decreases n,
{
    if n <= 0 {
        Seq::empty()
    } else {
        sp_rank_matches(b, p, rr, n - 1) + if sp_at(b, n - 1, rr).matches_spec(p) {
            seq![(n - 1, rr)]
        } else {
            Seq::empty()
        }
    }
}

/// The squares with linear index below `n`, in file-major scan order, whose
/// piece matches `p` in kind and color.
pub open spec fn sp_board_matches(b: Seq<Piece>, p: Piece, n: int) -> Seq<(int, int)>
    decreases n,
{
    if n <= 0 {
        Seq::empty()
    } else {
        sp_board_matches(b, p, n - 1) + if sp_at(b, (n - 1) / 8, (n - 1) % 8).matches_spec(p) {
            seq![((n - 1) / 8, (n - 1) % 8)]
        } else {
            Seq::empty()
        }
    }
}

/// The candidate origin squares the disambiguator considers: the full
/// origin itself when given, else every matching piece on the hinted file
/// or rank, else every matching piece on the board.
pub open spec fn sp_dis_candidates(g: Game, m: Move) -> Seq<(int, int)> {
    if m.origin.0.valid() && m.origin.1.valid() {
        seq![(o_f(m), o_r(m))]
    } else if m.origin.0.valid() {
        sp_file_matches(g.board@, m.piece, o_f(m), 8)
    } else if m.origin.1.valid() {
        sp_rank_matches(g.board@, m.piece, o_r(m), 8)
    } else {
        sp_board_matches(g.board@, m.piece, 64)
    }
}

/// The parsed move completed with one candidate origin: that square's
/// actual piece and the parsed flags.
pub open spec fn sp_dis_move(g: Game, m: Move, cf: int, cr: int) -> Move {
    Move {
        dest: m.dest,
        origin: (File::spec_from_index(cf), Rank::spec_from_index(cr)),
        piece: sp_at(g.board@, cf, cr),
        takes: m.takes,
        check: m.check,
        checkmate: m.checkmate,
        castle: m.castle,
        long_castle: m.long_castle,
        pawn_double: m.pawn_double,
        en_passant: m.en_passant,
        promotion: m.promotion,
        meta: MetaMove::Ordinary,
    }
}

/// The candidates that `is_valid_move` accepts, each in its resolved form,
/// in candidate order.
pub open spec fn sp_dis_survivors(g: Game, m: Move, cands: Seq<(int, int)>) -> Seq<Move>
    decreases cands.len(),
{
    if cands.len() == 0 {
        Seq::empty()
    } else {
        let t = cands.last();
        let dm = sp_dis_move(g, m, t.0, t.1);
        sp_dis_survivors(g, m, cands.drop_last()) + if sp_move_ok(
            g.board@,
            g.history@,
            g.to_move,
            dm,
        ) {
            seq![sp_resolved_move(g.board@, g.history@, dm)]
        } else {
            Seq::empty()
        }
    }
}

/// The collected origin squares agree with the specified candidate list:
/// same length, in-range indices, components determined by them.
pub open spec fn sp_amb_matches(ambi: Seq<(File, Rank)>, cands: Seq<(int, int)>) -> bool {
    &&& ambi.len() == cands.len()
    &&& forall|i: int|
        0 <= i < ambi.len() ==> {
            &&& 0 <= (#[trigger] cands[i]).0 < 8
            &&& 0 <= cands[i].1 < 8
            &&& ambi[i].0 == File::spec_from_index(cands[i].0)
            &&& ambi[i].1 == Rank::spec_from_index(cands[i].1)
        }
}

proof fn lemma_survivors_step(g: Game, m: Move, cands: Seq<(int, int)>, i: int)
    requires
        0 <= i < cands.len(),
    ensures
        sp_dis_survivors(g, m, cands.take(i + 1)) == sp_dis_survivors(g, m, cands.take(i)) + ({
            let dm = sp_dis_move(g, m, cands[i].0, cands[i].1);
            if sp_move_ok(g.board@, g.history@, g.to_move, dm) {
                seq![sp_resolved_move(g.board@, g.history@, dm)]
            } else {
                Seq::<Move>::empty()
            }
        }),
{
    assert(cands.take(i + 1).drop_last() =~= cands.take(i));
    assert(cands.take(i + 1).last() == cands[i]);
}

/// Parsing an unambiguous legal move's own notation and disambiguating it
/// yields the move back: the parse recovers the full origin the notation
/// carries, so exactly one candidate survives, and that survivor agrees
/// with the original in origin, destination, piece kind and promotion.
pub proof fn lemma_notation_round_trip(g: Game, m: Move)
    requires
        m.origin_set(),
        m.dest_set(),
        !m.castle,
        !m.long_castle,
        !m.check,
        !m.checkmate,
        m.piece.kind != PieceKind::Empty,
        m.promotion != PieceKind::Pawn,
        sp_at(g.board@, o_f(m), o_r(m)).kind == m.piece.kind,
        sp_move_ok(
            g.board@,
            g.history@,
            g.to_move,
            Move {
                dest: m.dest,
                origin: m.origin,
                piece: sp_at(g.board@, o_f(m), o_r(m)),
                takes: m.takes,
                promotion: m.promotion,
                ..Move::spec_new()
            },
        ),
    ensures
        parse_spec(m.notation_spec(), g.to_move) matches Ok(p) && {
            let cands = sp_dis_candidates(g, p);
            let survivors = sp_dis_survivors(g, p, cands);
            &&& cands.len() == 1
            &&& survivors.len() == 1
            &&& survivors[0].origin == m.origin
            &&& survivors[0].dest == m.dest
            &&& survivors[0].piece.kind == m.piece.kind
            &&& survivors[0].promotion == m.promotion
        },
{
    crate::notation::lemma_parse_notation_round_trip(m, g.to_move);
    let p = parse_spec(m.notation_spec(), g.to_move)->Ok_0;
    let cands = sp_dis_candidates(g, p);
    assert(cands =~= seq![(o_f(m), o_r(m))]);
    let completed = Move {
        dest: m.dest,
        origin: m.origin,
        piece: sp_at(g.board@, o_f(m), o_r(m)),
        takes: m.takes,
        promotion: m.promotion,
        ..Move::spec_new()
    };
    let dm = sp_dis_move(g, p, o_f(m), o_r(m));
    crate::rankfile::lemma_file_of_idx(m.origin.0, o_f(m));
    crate::rankfile::lemma_rank_of_idx(m.origin.1, o_r(m));
    assert(dm == completed);
    assert(cands.drop_last() =~= Seq::<(int, int)>::empty());
    assert(sp_dis_survivors(g, p, cands.drop_last()) =~= Seq::<Move>::empty());
    assert(sp_move_ok(g.board@, g.history@, g.to_move, dm));
    let survivors = sp_dis_survivors(g, p, cands);
    assert(survivors =~= Seq::<Move>::empty() + seq![
        sp_resolved_move(g.board@, g.history@, completed),
    ]);
    assert(survivors.len() == 1 && survivors[0] == sp_resolved_move(
        g.board@,
        g.history@,
        completed,
    ));
    lemma_resolved_keeps_coords(g.board@, g.history@, completed);
}

/// En passant arises only on the ply immediately following the relevant
/// pawn's double step, and the recorded capture square is that pawn's
/// landing square, not its origin: whenever move validation records an
/// en-passant square on a move, the last history entry is a pawn double
/// step and the recorded square is exactly where it landed.
pub proof fn lemma_en_passant_needs_double_step(g: Game, m: Move)
    requires
        m.origin_set(),
        m.dest_set(),
        m.en_passant is None,
        !m.castle,
        !m.long_castle,
        sp_resolved_move(g.board@, g.history@, m).en_passant is Some,
    ensures
        m.piece.kind == PieceKind::Pawn,
        g.history@.len() > 0,
        g.history@.last().piece.kind == PieceKind::Pawn,
        g.history@.last().pawn_double,
        sp_resolved_move(g.board@, g.history@, m).en_passant == Some(g.history@.last().dest),
        sp_empty(g.board@, d_f(m), d_r(m)),
{
    assert(sp_pawn_ep(g.board@, g.history@, m.piece.color, o_f(m), o_r(m), d_f(m), d_r(m)));
    let last = g.history@.last();
    crate::rankfile::lemma_file_of_idx(m.dest.0, d_f(m));
    crate::rankfile::lemma_file_of_idx(last.dest.0, d_f(m));
    assert(sp_ep_square(m).0 == last.dest.0);
    assert(sp_ep_square(m).1 == last.dest.1);
}

/// An accepted pawn move carries a promotion exactly on the mover's far
/// rank: arriving there it must name one of the four promotion kinds, and
/// anywhere else it must name none.
pub proof fn lemma_promotion_accepted_shape(g: Game, m: Move)
    requires
        !m.castle,
        !m.long_castle,
        m.piece.kind == PieceKind::Pawn,
        sp_move_ok(g.board@, g.history@, g.to_move, m),
    ensures
        d_r(m) == spec_promotion_rank_index(m.piece.color) ==> (m.promotion == PieceKind::Knight
            || m.promotion == PieceKind::Bishop || m.promotion == PieceKind::Rook || m.promotion
            == PieceKind::Queen),
        d_r(m) != spec_promotion_rank_index(m.piece.color) ==> m.promotion == PieceKind::Empty,
{
}

/// No piece but a pawn may carry a promotion: an accepted non-castle move
/// of any other kind names none.
pub proof fn lemma_no_promotion_off_pawns(g: Game, m: Move)
    requires
        !m.castle,
        !m.long_castle,
        m.piece.kind != PieceKind::Pawn,
        sp_move_ok(g.board@, g.history@, g.to_move, m),
    ensures
        m.promotion == PieceKind::Empty,
{
}

/// The rejected side of the promotion rule: a pawn move whose promotion
/// disagrees with its destination rank is never accepted, whatever else
/// holds of it.
pub proof fn lemma_promotion_rejected(g: Game, m: Move)
    requires
        !m.castle,
        !m.long_castle,
        m.piece.kind == PieceKind::Pawn,
        (d_r(m) == spec_promotion_rank_index(m.piece.color) && !(m.promotion == PieceKind::Knight
            || m.promotion == PieceKind::Bishop || m.promotion == PieceKind::Rook || m.promotion
            == PieceKind::Queen)) || (d_r(m) != spec_promotion_rank_index(m.piece.color)
            && m.promotion != PieceKind::Empty),
    ensures
        !sp_move_ok(g.board@, g.history@, g.to_move, m),
{
}

/// The board after the side-to-move's king square is marked for rendering.
pub open spec fn sp_hl_king_board(b: Seq<Piece>, c: Color) -> Seq<Piece> {
    match sp_first_king(b, c) {
        Some(i) => b.update(i, Piece { highlight: 2, ..b[i] }),
        None => b,
    }
}

/// The promotion rule of section "pawn" applied to a move value.
pub open spec fn sp_valid_promotion(m: Move) -> bool {
    if m.promotion == PieceKind::Empty && (m.piece.kind != PieceKind::Pawn || d_r(m)
        != spec_promotion_rank_index(m.piece.color)) {
        true
    } else if m.piece.kind == PieceKind::Pawn && d_r(m) == spec_promotion_rank_index(
        m.piece.color,
    ) {
        m.promotion == PieceKind::Knight || m.promotion == PieceKind::Bishop || m.promotion
            == PieceKind::Rook || m.promotion == PieceKind::Queen
    } else {
        false
    }
}

} // verus!
