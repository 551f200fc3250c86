//! The values that the engine is made of.

use vstd::prelude::*;
use vstd::string::*;
use crate::puzzle::types::CodexEntry;
use crate::text::texts;

verus! {

/// Where the game stands.
#[derive(Clone, Copy, Debug, PartialEq, Eq, Structural)]
pub enum GameState {
    /// The title menu. The game starts here.
    TitleScreen,
    /// A room is being solved.
    Playing,
    /// The room's program printed what was expected.
    RoomComplete,
    /// The entry text of the next room is on screen.
    RoomTransition,
    /// The last room of the floor is behind the player.
    LevelComplete,
    /// The codex is open.
    ViewingCodex,
    /// The player's health is used up.
    GameOver,
}

/// An entry of the title menu.
#[derive(Clone, Copy, Debug, PartialEq, Eq, Structural)]
pub enum MenuOption {
    NewGame,
    Quit,
}

impl MenuOption {
    /// The other entry. The menu has two, so a step up and a step down both
    /// lead there.
    pub open spec fn other(self) -> MenuOption {
        match self {
            MenuOption::NewGame => MenuOption::Quit,
            MenuOption::Quit => MenuOption::NewGame,
        }
    }

    /// Moves the highlight to the other entry.
    pub fn next(&self) -> (r: Self)
        ensures
            r == self.other(),
    {
        match self {
            MenuOption::NewGame => MenuOption::Quit,
            MenuOption::Quit => MenuOption::NewGame,
        }
    }
}

/// A colour of the screen.
#[derive(Clone, Copy, Debug, PartialEq, Eq, Structural)]
pub enum Color {
    Black,
    White,
    Yellow,
    Cyan,
    Magenta,
    Green,
    Red,
    DarkGray,
}

/// How a message is drawn.
#[derive(Clone, Copy, Debug, PartialEq, Eq, Structural)]
pub struct MessageStyle {
    pub color: Color,
    pub bold: bool,
}

impl MessageStyle {
    /// The style of this colour that is not bold.
    pub open spec fn plain(color: Color) -> MessageStyle {
        MessageStyle { color, bold: false }
    }

    /// The bold style of this colour.
    pub open spec fn strong(color: Color) -> MessageStyle {
        MessageStyle { color, bold: true }
    }

    /// A style of this colour.
    pub fn of(color: Color) -> (style: MessageStyle)
        ensures
            style == Self::plain(color),
    {
        MessageStyle { color, bold: false }
    }

    /// A bold style of this colour.
    pub fn bold_of(color: Color) -> (style: MessageStyle)
        ensures
            style == Self::strong(color),
    {
        MessageStyle { color, bold: true }
    }
}

/// The health that a game starts with.
pub const STARTING_HEALTH: u32 = 100;

/// What the player has and has used.
#[derive(Debug)]
pub struct PlayerState {
    /// Health. It never falls below zero, and at zero the game is over.
    pub hp: u32,
    /// Currency.
    pub gold: u32,
    /// The names of the items held, in the order in which they came. No name
    /// stands twice.
    pub inventory: Vec<String>,
    /// The lore unlocked, in the order in which it came. No title stands
    /// twice.
    pub codex: Vec<CodexEntry>,
    /// Hints taken in the current room.
    pub hints_used_room: usize,
    /// Hints taken on the current floor.
    pub hints_used_total: usize,
    /// Attempts on the current floor that did not compile.
    pub compile_errors_total: u32,
}

/// Title and description of each of a row of codex entries.
pub open spec fn records(codex: Seq<CodexEntry>) -> Seq<(Seq<char>, Seq<char>)> {
    Seq::new(codex.len(), |i: int| (codex[i].title@, codex[i].description@))
}

/// Whether one of the records has this title.
pub open spec fn has_title(lore: Seq<(Seq<char>, Seq<char>)>, title: Seq<char>) -> bool {
    exists|i: int| 0 <= i < lore.len() && (#[trigger] lore[i]).0 == title
}

/// No two of the records have the same title.
pub open spec fn distinct_titles(lore: Seq<(Seq<char>, Seq<char>)>) -> bool {
    forall|i: int, j: int|
        0 <= i < lore.len() && 0 <= j < lore.len() && i != j ==> (#[trigger] lore[i]).0 != (
        #[trigger] lore[j]).0
}

impl PlayerState {
    /// The names of the items held.
    pub open spec fn items(self) -> Seq<Seq<char>> {
        texts(self.inventory@)
    }

    /// The lore unlocked: title and description of each entry.
    pub open spec fn lore(self) -> Seq<(Seq<char>, Seq<char>)> {
        records(self.codex@)
    }

    /// No item is held twice and no title is unlocked twice.
    pub open spec fn well_formed(self) -> bool {
        self.items().no_duplicates() && distinct_titles(self.lore())
    }

    /// The player as a game starts: full health, and nothing else.
    pub open spec fn is_baseline(self) -> bool {
        &&& self.hp == STARTING_HEALTH
        &&& self.gold == 0
        &&& self.inventory@.len() == 0
        &&& self.codex@.len() == 0
        &&& self.hints_used_room == 0
        &&& self.hints_used_total == 0
        &&& self.compile_errors_total == 0
    }

    /// A player at the start of a game.
    pub fn new() -> (player: PlayerState)
        ensures
            player.is_baseline(),
            player.well_formed(),
    {
        PlayerState {
            hp: STARTING_HEALTH,
            gold: 0,
            inventory: Vec::new(),
            codex: Vec::new(),
            hints_used_room: 0,
            hints_used_total: 0,
            compile_errors_total: 0,
        }
    }

    /// Whether the player keeps the invariant: nothing is held twice and
    /// no title is unlocked twice.
    pub fn check(&self) -> (sound: bool)
        ensures
            sound == self.well_formed(),
    {
        let mut i: usize = 0;
        while i < self.inventory.len()
            invariant
                i <= self.inventory.len(),
                forall|a: int, b: int|
                    0 <= a < b < i ==> (#[trigger] self.items()[a]) != (#[trigger] self.items()[b]),
            decreases self.inventory.len() - i,
        {
            let mut j: usize = 0;
            while j < i
                invariant
                    j <= i < self.inventory.len(),
                    forall|a: int|
                        0 <= a < j ==> (#[trigger] self.items()[a]) != self.items()[i as int],
                decreases i - j,
            {
                if crate::text::same_text(self.inventory[j].as_str(), self.inventory[i].as_str()) {
                    assert(self.items()[j as int] == self.items()[i as int]);
                    return false;
                }
                j += 1;
            }
            i += 1;
        }
        let mut i: usize = 0;
        while i < self.codex.len()
            invariant
                i <= self.codex.len(),
                self.items().no_duplicates(),
                forall|a: int, b: int|
                    0 <= a < b < i ==> (#[trigger] self.lore()[a]).0 != (
                    #[trigger] self.lore()[b]).0,
            decreases self.codex.len() - i,
        {
            let mut j: usize = 0;
            while j < i
                invariant
                    j <= i < self.codex.len(),
                    forall|a: int|
                        0 <= a < j ==> (#[trigger] self.lore()[a]).0 != self.lore()[i as int].0,
                decreases i - j,
            {
                if crate::text::same_text(
                    self.codex[j].title.as_str(),
                    self.codex[i].title.as_str(),
                ) {
                    assert(self.lore()[j as int].0 == self.lore()[i as int].0);
                    return false;
                }
                j += 1;
            }
            i += 1;
        }
        true
    }

    /// Whether the item of this name is held.
    pub fn holds(&self, item: &str) -> (held: bool)
        ensures
            held == self.items().contains(item@),
    {
        let mut i: usize = 0;
        while i < self.inventory.len()
            invariant
                i <= self.inventory.len(),
                forall|j: int| 0 <= j < i ==> self.items()[j] != item@,
            decreases self.inventory.len() - i,
        {
            if crate::text::same_text(self.inventory[i].as_str(), item) {
                assert(self.items()[i as int] == item@);
                return true;
            }
            i += 1;
        }
        false
    }

    /// Whether lore of this title is unlocked.
    pub fn knows(&self, title: &str) -> (known: bool)
        ensures
            known == has_title(self.lore(), title@),
    {
        let mut i: usize = 0;
        while i < self.codex.len()
            invariant
                i <= self.codex.len(),
                forall|j: int| 0 <= j < i ==> (#[trigger] self.lore()[j]).0 != title@,
            decreases self.codex.len() - i,
        {
            if crate::text::same_text(self.codex[i].title.as_str(), title) {
                assert(self.lore()[i as int].0 == title@);
                return true;
            }
            i += 1;
        }
        false
    }
}

/// A condition on going down from a floor: the item that must be held.
#[derive(Debug)]
pub struct Gate {
    /// The floor that it closes, numbered from 1.
    pub level: usize,
    /// The name of the item that opens it.
    pub item: String,
}

/// A key, as far as the engine tells keys apart.
#[derive(Clone, Copy, Debug, PartialEq, Eq, Structural)]
pub enum KeyCode {
    Char(char),
    F(u8),
    Enter,
    Esc,
    Backspace,
    Delete,
    Up,
    Down,
    Home,
    End,
    PageUp,
    PageDown,
    Tab,
    /// Any other key. The engine has no use of its own for it.
    Other,
}

/// A key press: the key, and the modifiers held with it.
#[derive(Clone, Copy, Debug, PartialEq, Eq, Structural)]
pub struct KeyPress {
    pub code: KeyCode,
    pub ctrl: bool,
    pub alt: bool,
    pub shift: bool,
}

impl KeyPress {
    /// The key was pressed with no modifier.
    pub open spec fn is_bare(self) -> bool {
        !self.ctrl && !self.alt && !self.shift
    }

    /// The key was pressed with Ctrl and nothing else.
    pub open spec fn is_ctrl(self) -> bool {
        self.ctrl && !self.alt && !self.shift
    }

    /// The key is the character `c`, pressed with Ctrl and nothing else.
    pub open spec fn is_ctrl_char(self, c: char) -> bool {
        self.code == KeyCode::Char(c) && self.is_ctrl()
    }

    /// The key is one that changes the text when the editor gets it: a
    /// character, Enter, Tab, Backspace or Delete. Characters typed with
    /// Ctrl are among them, and so are the engine's own commands on the
    /// text.
    pub open spec fn is_destructive(self) -> bool {
        self.code is Char || self.code is Backspace || self.code is Delete || self.code is Enter
            || self.code is Tab
    }

    /// Whether this is a key that changes the text.
    pub fn destructive(&self) -> (b: bool)
        ensures
            b == self.is_destructive(),
    {
        match self.code {
            KeyCode::Char(_)
            | KeyCode::Backspace
            | KeyCode::Delete
            | KeyCode::Enter
            | KeyCode::Tab => true,
            _ => false,
        }
    }

    /// The key is Ctrl+Z, which undoes, or Ctrl+Shift+Z, which redoes.
    pub open spec fn is_undo_or_redo(self) -> bool {
        self.is_ctrl_char('z') || self.is_redo()
    }

    /// The key is Ctrl+Shift+Z.
    pub open spec fn is_redo(self) -> bool {
        self.code == KeyCode::Char('Z') && self.ctrl && self.shift && !self.alt
    }

    /// Whether this is the character `c` with Ctrl and nothing else.
    pub fn ctrl_char(&self, c: char) -> (b: bool)
        ensures
            b == self.is_ctrl_char(c),
    {
        match self.code {
            KeyCode::Char(k) => k == c && self.ctrl && !self.alt && !self.shift,
            _ => false,
        }
    }
}

/// What the engine asks of its driver after a key press. The driver does
/// what cannot be done here, compiling and reading files, and hands the
/// outcome back.
#[derive(Clone, Copy, Debug, PartialEq, Eq, Structural)]
pub enum Request {
    /// Nothing: draw the screen and wait for the next key.
    Continue,
    /// Validate the text in the editor against the room's expected output
    /// and hand the outcome to `App::finish_run`.
    Validate,
    /// Load the floor of this level and hand it to `App::enter_level`.
    LoadLevel(usize),
    /// Load the first floor and hand it to `App::restart`.
    Restart,
    /// The game is lost: show the screen for a moment, then leave.
    GameOver,
    /// Leave.
    Quit,
}

} // verus!
