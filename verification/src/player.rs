//! The move-source capability: a player is anything that can be asked for a
//! move. The engine itself only needs to know which kind of source sits at
//! each seat; producing the move happens outside the rules core (console
//! input for a human, a random draw for the bot).

use vstd::prelude::*;

verus! {

/// What can sit at a seat: a human typing notation, or the random bot.
#[derive(Copy, Clone, PartialEq, Eq, Structural, Debug)]
pub enum PlayerKind {
    Human,
    Bogobot,
}

impl PlayerKind {
    pub fn is_human(self) -> (res: bool)
        ensures
            res == (self == PlayerKind::Human),
    {
        self == PlayerKind::Human
    }

    pub fn is_bot(self) -> (res: bool)
        ensures
            res == (self == PlayerKind::Bogobot),
    {
        self == PlayerKind::Bogobot
    }

    pub open spec fn id_str_spec(self) -> Seq<char> {
        match self {
            PlayerKind::Human => "Human"@,
            PlayerKind::Bogobot => "BogoBot"@,
        }
    }

    pub fn id_string(self) -> (res: String)
        ensures
            res@ == self.id_str_spec(),
    {
        match self {
            PlayerKind::Human => "Human".to_owned(),
            PlayerKind::Bogobot => "BogoBot".to_owned(),
        }
    }
}

/// A seat's move source, as the named structs implement it.
pub trait Player {
    /// Clears any per-game state the source keeps.
    fn reset(&mut self);

    fn is_human(&self) -> bool {
        false
    }

    fn is_bot(&self) -> bool {
        false
    }

    fn id_string(&self) -> String {
        "Player".to_owned()
    }

    /// Which seat kind this source is.
    fn kind(&self) -> PlayerKind;
}

} // verus!
