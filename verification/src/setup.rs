//! The setup menu: a small stack of menus through which the opponent kind,
//! the starting color of a bot match and board flipping are configured.
//! This is navigation around the engine, not rules logic; its contracts
//! state well-formedness and that the game's board, history and turn are
//! never touched from here.

use vstd::prelude::*;

use crate::game::{Game, StartColor};
use crate::player::PlayerKind;

verus! {

#[derive(Copy, Clone, Debug)]
pub enum Entry {
    Base,
    SelectOpponent,
    HumanOpp,
    BotOpp,
    Bogobot,
    Auto,
    SelectColor,
    PlayAsWhite,
    PlayAsBlack,
    PlayAsRandom,
    DoFlip,
    Back,
}

impl Entry {
    pub open spec fn str_spec(self) -> Seq<char> {
        match self {
            Entry::Base => "Setup"@,
            Entry::SelectOpponent => "Change Opponent"@,
            Entry::HumanOpp => "Play against Human"@,
            Entry::BotOpp => "Select a Bot"@,
            Entry::Bogobot => "BogoBot"@,
            Entry::Auto => "Auto-play"@,
            Entry::SelectColor => "Change Color"@,
            Entry::PlayAsWhite => "Play as White"@,
            Entry::PlayAsBlack => "Play as Black"@,
            Entry::PlayAsRandom => "Play as Random"@,
            Entry::DoFlip => "Toggle Board Flip"@,
            Entry::Back => "Back"@,
        }
    }

    pub fn string(&self) -> (res: String)
        ensures
            res@ == self.str_spec(),
    {
        match self {
            Entry::Base => "Setup".to_owned(),
            Entry::SelectOpponent => "Change Opponent".to_owned(),
            Entry::HumanOpp => "Play against Human".to_owned(),
            Entry::BotOpp => "Select a Bot".to_owned(),
            Entry::Bogobot => "BogoBot".to_owned(),
            Entry::Auto => "Auto-play".to_owned(),
            Entry::SelectColor => "Change Color".to_owned(),
            Entry::PlayAsWhite => "Play as White".to_owned(),
            Entry::PlayAsBlack => "Play as Black".to_owned(),
            Entry::PlayAsRandom => "Play as Random".to_owned(),
            Entry::DoFlip => "Toggle Board Flip".to_owned(),
            Entry::Back => "Back".to_owned(),
        }
    }
}

/// One menu: its own title entry and its numbered entries.
#[derive(Clone)]
pub struct SetupMenu {
    pub ent: Entry,
    pub entries: Vec<Entry>,
}

impl SetupMenu {
    /// Every menu offers at most four entries.
    pub open spec fn wf(self) -> bool {
        self.entries@.len() <= 4
    }

    pub open spec fn spec_this(self) -> Entry {
        self.ent
    }

    pub open spec fn spec_entries(self) -> Seq<Entry> {
        self.entries@
    }

    pub fn this(&self) -> (res: Entry)
        ensures
            res == self.ent,
    {
        self.ent
    }

    /// The numbered menu line for the entry at `idx`, or an empty string
    /// past the end.
    pub fn print_entry(&self, idx: usize) -> (res: String)
        requires
            self.wf(),
        ensures
            idx >= self.entries@.len() ==> res@ == Seq::<char>::empty(),
            idx < self.entries@.len() ==> res@.len() > 0,
    {
        if idx >= self.entries.len() {
            return String::new();
        }
        let number: &str = if idx == 0 {
            "1. "
        } else if idx == 1 {
            "2. "
        } else if idx == 2 {
            "3. "
        } else {
            "4. "
        };
        let mut s = number.to_owned();
        s.append(self.entries[idx].string().as_str());
        proof {
            reveal_strlit("1. ");
            reveal_strlit("2. ");
            reveal_strlit("3. ");
            reveal_strlit("4. ");
        }
        s
    }
}

/// The menu stack and the last action's confirmation line.
#[derive(Clone)]
pub struct Setup {
    pub stack: Vec<SetupMenu>,
    pub confirm: String,
}

impl Setup {
    /// The stack never empties (back at the root exits instead), and every
    /// menu on it is well formed.
    pub open spec fn wf(self) -> bool {
        &&& self.stack@.len() >= 1
        &&& forall|i: int| 0 <= i < self.stack@.len() ==> (#[trigger] self.stack@[i]).wf()
    }

    pub fn new() -> (res: Self)
        ensures
            res.wf(),
            res.confirm@ == Seq::<char>::empty(),
            res.stack@.len() == 1,
            res.stack@[0].spec_this() == Entry::Base,
    {
        let mut entries: Vec<Entry> = Vec::new();
        entries.push(Entry::SelectOpponent);
        entries.push(Entry::SelectColor);
        entries.push(Entry::DoFlip);
        entries.push(Entry::Back);
        let mut stack: Vec<SetupMenu> = Vec::new();
        stack.push(SetupMenu { ent: Entry::Base, entries });
        Setup { stack, confirm: String::new() }
    }

    pub fn current(&self) -> (res: &SetupMenu)
        requires
            self.wf(),
        ensures
            *res == self.stack@.last(),
    {
        &self.stack[self.stack.len() - 1]
    }

    pub fn confirm_string(&self) -> (res: String)
        ensures
            res@ == self.confirm@,
    {
        self.confirm.clone()
    }

    /// Acts on the selected entry of the current menu: descends into a
    /// submenu, applies a configuration change to the game, or goes back.
    /// Returns true when backing out of the root menu, which leaves setup.
    /// Only configuration fields of the game are touched, never the board,
    /// history or turn.
    pub fn select(&mut self, sel: usize, game: &mut Game) -> (res: bool)
        requires
            old(self).wf(),
            sel != old(self).stack@.last().spec_entries().len(),
        ensures
            final(self).wf(),
            final(game).board@ == old(game).board@,
            final(game).history@ == old(game).history@,
            final(game).to_move == old(game).to_move,
            final(game).turn_count == old(game).turn_count,
            final(game).white_cap@ == old(game).white_cap@,
            final(game).black_cap@ == old(game).black_cap@,
            final(game).print_mode == old(game).print_mode,
    {
        self.confirm = String::new();
        if self.stack.len() == 0 || sel > self.stack[self.stack.len() - 1].entries.len() {
            return false;
        }
        let entry = self.stack[self.stack.len() - 1].entries[sel];
        match entry {
            Entry::Base => {
                return false;
            },
            Entry::SelectOpponent => self.select_menu(Entry::SelectOpponent),
            Entry::HumanOpp => self.select_config(Entry::HumanOpp, game),
            Entry::BotOpp => self.select_menu(Entry::BotOpp),
            Entry::Bogobot => self.select_config(Entry::Bogobot, game),
            Entry::Auto => self.select_config(Entry::Auto, game),
            Entry::SelectColor => self.select_menu(Entry::SelectColor),
            Entry::PlayAsWhite => self.select_config(Entry::PlayAsWhite, game),
            Entry::PlayAsBlack => self.select_config(Entry::PlayAsBlack, game),
            Entry::PlayAsRandom => self.select_config(Entry::PlayAsRandom, game),
            Entry::DoFlip => self.select_config(Entry::DoFlip, game),
            Entry::Back => {
                return self.back();
            },
        };
        false
    }

    /// Pushes the submenu the entry names; other entries open nothing.
    fn select_menu(&mut self, menu: Entry)
        requires
            old(self).wf(),
        ensures
            final(self).wf(),
    {
        match menu {
            Entry::SelectOpponent => {
                let mut entries: Vec<Entry> = Vec::new();
                entries.push(Entry::HumanOpp);
                entries.push(Entry::BotOpp);
                entries.push(Entry::Back);
                self.stack.push(SetupMenu { ent: Entry::SelectOpponent, entries });
            },
            Entry::BotOpp => {
                let mut entries: Vec<Entry> = Vec::new();
                entries.push(Entry::Bogobot);
                entries.push(Entry::Back);
                self.stack.push(SetupMenu { ent: Entry::BotOpp, entries });
            },
            Entry::SelectColor => {
                let mut entries: Vec<Entry> = Vec::new();
                entries.push(Entry::PlayAsWhite);
                entries.push(Entry::PlayAsBlack);
                entries.push(Entry::PlayAsRandom);
                entries.push(Entry::Back);
                self.stack.push(SetupMenu { ent: Entry::SelectColor, entries });
            },
            _ => {
            },
        }
    }

    /// Applies the configuration change the entry names to the game.
    fn select_config(&mut self, menu: Entry, game: &mut Game)
        requires
            old(self).wf(),
        ensures
            final(self).wf(),
            final(game).board@ == old(game).board@,
            final(game).history@ == old(game).history@,
            final(game).to_move == old(game).to_move,
            final(game).turn_count == old(game).turn_count,
            final(game).white_cap@ == old(game).white_cap@,
            final(game).black_cap@ == old(game).black_cap@,
            final(game).print_mode == old(game).print_mode,
    {
        match menu {
            Entry::HumanOpp => self.set_opponent(game, PlayerKind::Human),
            Entry::Bogobot => self.set_opponent(game, PlayerKind::Bogobot),
            Entry::PlayAsWhite => self.set_start_color(game, StartColor::White),
            Entry::PlayAsBlack => self.set_start_color(game, StartColor::Black),
            Entry::PlayAsRandom => self.set_start_color(game, StartColor::Random),
            Entry::DoFlip => self.toggle_flip(game),
            _ => {
            },
        }
    }

    /// Pops one menu; at the root there is nothing to pop and leaving is
    /// signalled instead.
    fn back(&mut self) -> (res: bool)
        requires
            old(self).wf(),
        ensures
            final(self).wf(),
            res == (old(self).stack@.len() <= 1),
    {
        if self.stack.len() <= 1 {
            return true;
        }
        let _ = self.stack.pop();
        false
    }

    fn toggle_flip(&mut self, game: &mut Game)
        requires
            old(self).wf(),
        ensures
            final(self).wf(),
            *final(game) == (Game { do_flip: !old(game).do_flip, ..*old(game) }),
            final(self).confirm@ == if !old(game).do_flip {
                "Toggled Board Flip: true"@
            } else {
                "Toggled Board Flip: false"@
            },
    {
        let res = game.toggle_flip();
        let mut msg = "Toggled Board Flip: ".to_owned();
        if res {
            msg.append("true");
        } else {
            msg.append("false");
        }
        proof {
            reveal_strlit("Toggled Board Flip: ");
            reveal_strlit("Toggled Board Flip: true");
            reveal_strlit("Toggled Board Flip: false");
            reveal_strlit("true");
            reveal_strlit("false");
        }
        self.confirm = msg;
    }

    fn set_start_color(&mut self, game: &mut Game, color: StartColor)
        requires
            old(self).wf(),
        ensures
            final(self).wf(),
            *final(game) == (Game { start_color: color, ..*old(game) }),
    {
        game.set_start_color(color);
        let mut msg = "Set Player Color: ".to_owned();
        match color {
            StartColor::White => msg.append("White"),
            StartColor::Black => msg.append("Black"),
            StartColor::Random => msg.append("Random"),
        }
        self.confirm = msg;
    }

    fn set_opponent(&mut self, game: &mut Game, opp: PlayerKind)
        requires
            old(self).wf(),
        ensures
            final(self).wf(),
            final(game).board@ == old(game).board@,
            final(game).history@ == old(game).history@,
            final(game).to_move == old(game).to_move,
            final(game).turn_count == old(game).turn_count,
            final(game).white_cap@ == old(game).white_cap@,
            final(game).black_cap@ == old(game).black_cap@,
            final(game).print_mode == old(game).print_mode,
            final(game).player_two.player == opp,
    {
        let mut msg = "Set Opponent: ".to_owned();
        msg.append(opp.id_string().as_str());
        self.confirm = msg;
        game.set_player_two(opp);
    }
}

} // verus!
