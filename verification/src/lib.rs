//! A rules engine for standard chess: board and piece model, pseudo-legal
//! move generation, full legality checking (castling, en passant, promotion,
//! self-check filtering), algebraic-notation parsing with disambiguation,
//! and turn/history bookkeeping.

pub mod board;
pub mod bots;
pub mod color;
pub mod game;
pub mod moves;
pub mod notation;
pub mod piece;
pub mod player;
pub mod rankfile;
pub mod setup;
pub mod text;

pub use board::Board;
pub use bots::{Bogobot, Human};
pub use color::Color;
pub use game::{ActionablePlayer, Game, GameMode, PrintMode, StartColor};
pub use moves::{MetaMove, Move};
pub use notation::parse_notation;
pub use piece::{Piece, PieceKind};
pub use player::{Player, PlayerKind};
pub use rankfile::{File, Rank};
pub use setup::{Entry, Setup, SetupMenu};
