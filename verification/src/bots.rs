//! Move sources: the human seat marker, whose moves arrive as parsed
//! notation, and a bot that draws uniformly at random from the engine's
//! own legal-move list.

use vstd::prelude::*;

use rand::Rng;

use crate::game::{sp_in, sp_legal_move_list, sp_listed_move, sp_move_safe, Game};
use crate::moves::Move;
use crate::player::{Player, PlayerKind};

verus! {

/// Relies on rand::rng and Rng::random: an arbitrary boolean draw; nothing
/// is promised of the outcome.
#[verifier::external_body]
pub(crate) fn random_flip() -> bool {
    let mut rng = rand::rng();
    rng.random()
}

/// Relies on rand::rng and Rng::random_range over 0..n: returns a value of
/// the range, which must not be empty.
#[verifier::external_body]
fn random_below(n: usize) -> (res: usize)
    requires
        n > 0,
    ensures
        res < n,
{
    let mut rng = rand::rng();
    rng.random_range(0..n)
}

/// The console player's seat marker; the surrounding input loop produces
/// its moves by parsing typed notation.
#[derive(Copy, Clone)]
pub struct Human {}

impl Human {
    pub fn new() -> (res: Self) {
        Human {  }
    }
}

impl Player for Human {
    fn reset(&mut self) {
    }

    fn is_human(&self) -> bool {
        true
    }

    fn id_string(&self) -> String {
        "Human".to_owned()
    }

    fn kind(&self) -> PlayerKind {
        PlayerKind::Human
    }
}

/// A silly bot that enumerates all legal moves, then chooses one at random.
#[derive(Copy, Clone)]
pub struct Bogobot {}

impl Bogobot {
    pub fn new() -> (res: Self) {
        Bogobot {  }
    }

    /// One uniformly random legal move, or an error when none exists.
    /// Whatever the draw, the chosen move is legal: validated and free of
    /// self-check.
    pub fn get_move(&self, game: &Game) -> (res: Result<Move, String>)
        requires
            game.wf(),
        ensures
            match res {
                Ok(m) => sp_listed_move(*game, m) && sp_move_safe(
                    game.board@,
                    game.history@,
                    game.to_move,
                    m,
                ),
                Err(e) => e@ == "No valid moves for BogoBot!"@,
            },
            res is Err <==> sp_legal_move_list(*game).len() == 0,
    {
        let all_moves = game.list_valid_moves();
        if all_moves.len() == 0 {
            return Err("No valid moves for BogoBot!".to_owned());
        }
        let choice = random_below(all_moves.len());
        proof {
            assert(sp_in(sp_legal_move_list(*game), all_moves@[choice as int]));
        }
        Ok(all_moves[choice])
    }
}

impl Player for Bogobot {
    fn reset(&mut self) {
    }

    fn is_bot(&self) -> bool {
        true
    }

    fn id_string(&self) -> String {
        "BogoBot".to_owned()
    }

    fn kind(&self) -> PlayerKind {
        PlayerKind::Bogobot
    }
}

} // verus!
