//! The engine's state and the commands that do not touch the editor's text.

use vstd::prelude::*;
use vstd::string::*;
use crate::compiler::runner::{SystemError, ValidationResult};
use crate::editor::{Buffer, Editor};
use crate::game::messages::{
    cleared_message, cleared_text, compile_failure_message, compile_failure_text, fixed,
    gate_message, gate_text, hint_message, hint_text, inventory_message, inventory_text,
    keys_message, keys_text, level_complete_message, level_complete_text, system_error_message,
    system_error_text, transition_message, transition_text, wrong_output_message,
    wrong_output_text, FloorStats, GAME_OVER, NO_MORE_HINTS, ROOM_INTRO, TIMED_OUT,
};
use crate::game::state::{
    has_title, Color, GameState, Gate, MenuOption, MessageStyle, PlayerState, Request,
};
use crate::puzzle::types::Room;
use crate::text::{join, join_strings, split_lines, trimmed};

verus! {

/// The most gold that clearing a room is worth.
pub const FULL_REWARD: u32 = 50;

/// The least gold that clearing a room is worth.
pub const LEAST_REWARD: u32 = 10;

/// The gold that each hint takes off the reward.
pub const HINT_DISCOUNT: u32 = 10;

/// The gold that clearing a room is worth after `hints` hints: the full
/// reward less the discount for each hint, but never less than the least.
pub open spec fn room_reward(hints: nat) -> nat {
    if FULL_REWARD - HINT_DISCOUNT * hints > LEAST_REWARD {
        (FULL_REWARD - HINT_DISCOUNT * hints) as nat
    } else {
        LEAST_REWARD as nat
    }
}

/// `a + b`, or the greatest `u32` where the sum is greater.
pub open spec fn capped_sum(a: u32, b: nat) -> u32 {
    if a + b > u32::MAX {
        u32::MAX
    } else {
        (a + b) as u32
    }
}

/// `a - b`, or zero where `b` is greater.
pub open spec fn floored_difference(a: u32, b: u32) -> u32 {
    if a >= b {
        (a - b) as u32
    } else {
        0
    }
}

/// The buffer of an editor that was opened on `lines`.
pub open spec fn opened(lines: Seq<Seq<char>>) -> Buffer {
    Buffer {
        lines: if lines.len() == 0 {
            seq![Seq::<char>::empty()]
        } else {
            lines
        },
        cursor: (0, 0),
        selection: None,
    }
}

/// The game: the floor, the place on it, the player, the editor, and what
/// is on screen.
pub struct App {
    /// The rooms of the floor, in order.
    pub rooms: Vec<Room>,
    /// The room the player is in, counted from 0.
    pub current_room: usize,
    /// The floor the player is on, counted from 1.
    pub current_level: usize,
    pub editor: Editor,
    /// The locked lines of the current room, numbered from 1.
    pub locked_lines: Vec<usize>,
    /// The line last yanked.
    pub yank_buffer: String,
    pub message: String,
    pub message_style: MessageStyle,
    /// How many lines of the message are scrolled off the top.
    pub message_scroll: u16,
    pub state: GameState,
    pub menu_selection: MenuOption,
    pub player: PlayerState,
    pub codex_scroll: usize,
    /// Whether a command is being typed after a colon.
    pub command_mode: bool,
    pub command_buffer: String,
    /// The gates of the dungeon: for a floor, the item without which nobody
    /// leaves it downwards.
    pub gates: Vec<Gate>,
    /// Whether the keyboard is a Mac's, which names its scroll keys
    /// differently.
    pub mac_keyboard: bool,
}

impl App {
    /// The invariant of the game: there is a current room, its locked lines
    /// are at hand, the player holds nothing twice, and while the entry
    /// text of a next room is shown there is a next room.
    pub open spec fn well_formed(self) -> bool {
        &&& self.rooms@.len() > 0
        &&& self.current_room < self.rooms@.len()
        &&& self.locked_lines@ == self.rooms@[self.current_room as int].challenge.locked_lines@
        &&& self.player.well_formed()
        &&& self.state is RoomTransition ==> self.current_room + 1 < self.rooms@.len()
    }

    /// Whether the game keeps its invariant.
    pub fn check(&self) -> (sound: bool)
        ensures
            sound == self.well_formed(),
    {
        if self.rooms.len() == 0 || self.current_room >= self.rooms.len() {
            return false;
        }
        let locked = &self.rooms[self.current_room].challenge.locked_lines;
        if self.locked_lines.len() != locked.len() {
            return false;
        }
        let mut i: usize = 0;
        while i < locked.len()
            invariant
                i <= locked.len(),
                self.current_room < self.rooms@.len(),
                locked@ == self.rooms@[self.current_room as int].challenge.locked_lines@,
                locked.len() == self.locked_lines.len(),
                self.locked_lines@.take(i as int) == locked@.take(i as int),
            decreases locked.len() - i,
        {
            if self.locked_lines[i] != locked[i] {
                assert(self.locked_lines@[i as int] != locked@[i as int]);
                return false;
            }
            assert(self.locked_lines@.take(i + 1) =~= self.locked_lines@.take(i as int).push(
                self.locked_lines@[i as int],
            ));
            assert(locked@.take(i + 1) =~= locked@.take(i as int).push(locked@[i as int]));
            i += 1;
        }
        assert(self.locked_lines@.take(i as int) =~= self.locked_lines@);
        assert(locked@.take(i as int) =~= locked@);
        if self.state == GameState::RoomTransition && self.current_room + 1 >= self.rooms.len() {
            return false;
        }
        self.player.check()
    }

    /// The current room.
    pub open spec fn current(self) -> Room {
        self.rooms@[self.current_room as int]
    }

    /// Whether the line with index `line`, counted from 0, is locked in the
    /// current room. Locked lines are numbered from 1.
    pub open spec fn locks(self, line: nat) -> bool {
        self.locked_lines@.contains((line + 1) as usize) && line + 1 <= usize::MAX
    }

    /// `post` is `pre` with the message `text` in `style`.
    pub open spec fn told(pre: App, post: App, text: Seq<char>, style: MessageStyle) -> bool {
        &&& post == App { message: post.message, message_style: style, ..pre }
        &&& post.message@ == text
    }

    /// The current room.
    pub fn room(&self) -> (room: &Room)
        requires
            self.well_formed(),
        ensures
            *room == self.current(),
    {
        &self.rooms[self.current_room]
    }

    /// Whether the line with index `line`, counted from 0, is locked.
    pub fn is_line_locked(&self, line: usize) -> (locked: bool)
        ensures
            locked == self.locks(line as nat),
    {
        if line == usize::MAX {
            return false;
        }
        let number = line + 1;
        let mut i: usize = 0;
        while i < self.locked_lines.len()
            invariant
                number == line + 1,
                i <= self.locked_lines.len(),
                forall|j: int| 0 <= j < i ==> self.locked_lines@[j] != number,
            decreases self.locked_lines.len() - i,
        {
            if self.locked_lines[i] == number {
                assert(self.locked_lines@[i as int] == number);
                return true;
            }
            i += 1;
        }
        false
    }

    /// What `load_room` makes of the game: the player stands in room
    /// `index` with its starting code in a fresh editor, its hints unused,
    /// and is solving it.
    pub open spec fn room_loaded(pre: App, index: usize, post: App) -> bool {
        &&& post == App {
            current_room: index,
            editor: post.editor,
            locked_lines: post.locked_lines,
            message: post.message,
            message_style: MessageStyle::plain(Color::Yellow),
            state: GameState::Playing,
            player: PlayerState { hints_used_room: 0, ..pre.player },
            ..pre
        }
        &&& post.editor@ == opened(pre.rooms@[index as int].challenge.starting_lines())
        &&& post.locked_lines@ == pre.rooms@[index as int].challenge.locked_lines@
        &&& post.message@ == ROOM_INTRO@
    }

    /// Enters the room with this index.
    pub fn load_room(&mut self, index: usize)
        requires
            old(self).player.well_formed(),
            index < old(self).rooms@.len(),
        ensures
            final(self).well_formed(),
            Self::room_loaded(*old(self), index, *final(self)),
    {
        self.current_room = index;
        let code = trimmed(self.rooms[index].challenge.code.as_str());
        self.locked_lines = self.rooms[index].challenge.locked_lines.clone();
        self.editor = Editor::new(split_lines(code.as_str()));
        self.message = fixed(ROOM_INTRO);
        self.message_style = MessageStyle::of(Color::Yellow);
        self.state = GameState::Playing;
        self.player.hints_used_room = 0;
    }

    /// What a verdict makes of the game.
    ///
    /// A success clears the room: the player earns the room's reward in
    /// gold, gets the item that the room grants unless it is held already,
    /// and the lore that the room unlocks unless its title is known already.
    /// A candidate that does not compile, prints the wrong output or does
    /// not end in time costs the room's penalty in health, which stops at
    /// zero; the first also counts as a compile error. An attempt that
    /// could not be made costs nothing and changes nothing but the message.
    pub open spec fn judged(
        pre: App,
        outcome: Result<ValidationResult, SystemError>,
        post: App,
    ) -> bool {
        let room = pre.current();
        match outcome {
            Ok(ValidationResult::Success) => {
                let earned = room_reward(pre.player.hints_used_room as nat);
                &&& post == App {
                    state: GameState::RoomComplete,
                    message: post.message,
                    message_style: MessageStyle::plain(Color::Yellow),
                    message_scroll: 0,
                    player: post.player,
                    ..pre
                }
                &&& post.player == PlayerState {
                    gold: capped_sum(pre.player.gold, earned),
                    inventory: post.player.inventory,
                    codex: post.player.codex,
                    ..pre.player
                }
                &&& post.player.items() == collected(pre.player.items(), room.granted_item())
                &&& post.player.lore() == learned(pre.player.lore(), room.lore_entry())
                &&& post.message@ == cleared_text(earned, pre.player.hints_used_room == 0, room)
            },
            Ok(ValidationResult::CompileError(diagnostics)) => {
                &&& post == App {
                    message: post.message,
                    message_style: MessageStyle::plain(Color::Red),
                    message_scroll: 0,
                    player: PlayerState {
                        hp: floored_difference(pre.player.hp, room.wrong_answer_penalty()),
                        compile_errors_total: capped_sum(pre.player.compile_errors_total, 1),
                        ..pre.player
                    },
                    ..pre
                }
                &&& post.message@ == compile_failure_text(room, diagnostics@)
            },
            Ok(ValidationResult::WrongOutput { expected, got }) => {
                &&& post == App {
                    message: post.message,
                    message_style: MessageStyle::plain(Color::Red),
                    message_scroll: 0,
                    player: PlayerState {
                        hp: floored_difference(pre.player.hp, room.wrong_answer_penalty()),
                        ..pre.player
                    },
                    ..pre
                }
                &&& post.message@ == wrong_output_text(room, expected@, got@)
            },
            Ok(ValidationResult::TimedOut) => {
                &&& post == App {
                    message: post.message,
                    message_style: MessageStyle::plain(Color::Red),
                    message_scroll: 0,
                    player: PlayerState {
                        hp: floored_difference(pre.player.hp, room.wrong_answer_penalty()),
                        ..pre.player
                    },
                    ..pre
                }
                &&& post.message@ == TIMED_OUT@
            },
            Err(error) => {
                &&& post == App {
                    message: post.message,
                    message_style: MessageStyle::plain(Color::Magenta),
                    message_scroll: 0,
                    ..pre
                }
                &&& post.message@ == system_error_text(error.message@)
            },
        }
    }

    /// Takes the outcome of a validation attempt on the text in the editor.
    pub fn run_solution(&mut self, outcome: Result<ValidationResult, SystemError>)
        requires
            old(self).well_formed(),
        ensures
            final(self).well_formed(),
            Self::judged(*old(self), outcome, *final(self)),
    {
        self.message_scroll = 0;
        let room = &self.rooms[self.current_room];
        match &outcome {
            Ok(ValidationResult::Success) => {
                self.state = GameState::RoomComplete;
                let hints = self.player.hints_used_room;
                let earned: u32 = if hints >= 4 {
                    LEAST_REWARD
                } else {
                    FULL_REWARD - HINT_DISCOUNT * (hints as u32)
                };
                assert(earned == room_reward(hints as nat));
                self.player.gold = self.player.gold.saturating_add(earned);
                let ghost items = self.player.items();
                let ghost lore = self.player.lore();
                if let Some(rewards) = &room.rewards {
                    if let Some(item) = &rewards.grants_item {
                        if !self.player.holds(item.as_str()) {
                            self.player.inventory.push(item.clone());
                            assert(self.player.items() =~= items.push(item@));
                        }
                    }
                }
                if let Some(entry) = &room.codex {
                    if !self.player.knows(entry.title.as_str()) {
                        self.player.codex.push(entry.clone());
                        assert(self.player.lore() =~= lore.push(
                            (entry.title@, entry.description@),
                        ));
                    }
                }
                self.message = cleared_message(earned, hints == 0, room);
                self.message_style = MessageStyle::of(Color::Yellow);
            },
            Ok(ValidationResult::CompileError(diagnostics)) => {
                self.player.compile_errors_total = self.player.compile_errors_total.saturating_add(
                    1,
                );
                self.player.hp = self.player.hp.saturating_sub(room.penalty_for_wrong_answer());
                self.message = compile_failure_message(room, diagnostics.as_str());
                self.message_style = MessageStyle::of(Color::Red);
            },
            Ok(ValidationResult::WrongOutput { expected, got }) => {
                self.player.hp = self.player.hp.saturating_sub(room.penalty_for_wrong_answer());
                self.message = wrong_output_message(room, expected.as_str(), got.as_str());
                self.message_style = MessageStyle::of(Color::Red);
            },
            Ok(ValidationResult::TimedOut) => {
                self.player.hp = self.player.hp.saturating_sub(room.penalty_for_wrong_answer());
                self.message = fixed(TIMED_OUT);
                self.message_style = MessageStyle::of(Color::Red);
            },
            Err(error) => {
                self.message = system_error_message(error.message.as_str());
                self.message_style = MessageStyle::of(Color::Magenta);
            },
        }
    }

    /// What `advance_room` makes of the game.
    ///
    /// Where a room follows, the player goes on to it: through its entry
    /// text if it has one, else straight into it. After the last room the
    /// floor is complete, unless a gate of the floor asks for an item that
    /// the player does not hold: then nothing changes but the message, which
    /// names the item.
    pub open spec fn advanced(pre: App, post: App) -> bool {
        if pre.current_room + 1 < pre.rooms@.len() {
            match pre.rooms@[pre.current_room + 1].narrative.entry {
                Some(entry) => {
                    &&& post == App {
                        state: GameState::RoomTransition,
                        message: post.message,
                        message_style: MessageStyle::plain(Color::Cyan),
                        message_scroll: 0,
                        ..pre
                    }
                    &&& post.message@ == transition_text(entry@)
                },
                None => Self::room_loaded(pre, (pre.current_room + 1) as usize, post),
            }
        } else {
            match barrier(pre.gates@, pre.current_level, pre.player.items()) {
                Some(item) => {
                    &&& post == App {
                        message: post.message,
                        message_style: MessageStyle::plain(Color::Magenta),
                        ..pre
                    }
                    &&& post.message@ == gate_text(item)
                },
                None => {
                    &&& post == App {
                        state: GameState::LevelComplete,
                        message: post.message,
                        message_style: MessageStyle::strong(Color::Green),
                        ..pre
                    }
                    &&& post.message@ == level_complete_text(pre.stats(), pre.player.items())
                },
            }
        }
    }

    /// The figures of the floor as it stands.
    pub open spec fn stats(self) -> FloorStats {
        FloorStats {
            level: self.current_level,
            rooms: self.rooms@.len() as usize,
            compile_errors: self.player.compile_errors_total,
            hints: self.player.hints_used_total,
            gold: self.player.gold,
            hp: self.player.hp,
        }
    }

    /// The first gate of the current floor whose item the player does not
    /// hold.
    pub fn closed_gate(&self) -> (found: Option<usize>)
        ensures
            match found {
                Some(i) => i < self.gates@.len() && barrier(
                    self.gates@,
                    self.current_level,
                    self.player.items(),
                ) == Some(self.gates@[i as int].item@),
                None => barrier(self.gates@, self.current_level, self.player.items()) is None,
            },
    {
        let mut i: usize = 0;
        assert(self.gates@.skip(0) =~= self.gates@);
        while i < self.gates.len()
            invariant
                i <= self.gates.len(),
                barrier(self.gates@, self.current_level, self.player.items()) == barrier(
                    self.gates@.skip(i as int),
                    self.current_level,
                    self.player.items(),
                ),
            decreases self.gates.len() - i,
        {
            if self.gates[i].level == self.current_level && !self.player.holds(
                self.gates[i].item.as_str(),
            ) {
                return Some(i);
            }
            assert(self.gates@.skip(i as int).skip(1) =~= self.gates@.skip(i + 1));
            i += 1;
        }
        None
    }

    /// Leaves a cleared room.
    pub fn advance_room(&mut self)
        requires
            old(self).well_formed(),
        ensures
            final(self).well_formed(),
            Self::advanced(*old(self), *final(self)),
    {
        let count = self.rooms.len();
        if self.current_room + 1 < count {
            let next = self.current_room + 1;
            match &self.rooms[next].narrative.entry {
                Some(entry) => {
                    self.state = GameState::RoomTransition;
                    self.message = transition_message(entry.as_str());
                    self.message_style = MessageStyle::of(Color::Cyan);
                    self.message_scroll = 0;
                },
                None => {
                    self.load_room(next);
                },
            }
        } else {
            match self.closed_gate() {
                Some(i) => {
                    self.message = gate_message(self.gates[i].item.as_str());
                    self.message_style = MessageStyle::of(Color::Magenta);
                },
                None => {
                    self.state = GameState::LevelComplete;
                    let stats = FloorStats {
                        level: self.current_level,
                        rooms: self.rooms.len(),
                        compile_errors: self.player.compile_errors_total,
                        hints: self.player.hints_used_total,
                        gold: self.player.gold,
                        hp: self.player.hp,
                    };
                    self.message = level_complete_message(&stats, &self.player.inventory);
                    self.message_style = MessageStyle::bold_of(Color::Green);
                },
            }
        }
    }

    /// A game on the first floor, at the title menu. The player is at
    /// baseline, the first room's code is in the editor, and the first floor
    /// is gated by the Sacred Scroll.
    pub fn new(rooms: Vec<Room>) -> (app: App)
        requires
            rooms@.len() > 0,
        ensures
            app.well_formed(),
            app.rooms == rooms,
            app.current_room == 0,
            app.current_level == 1,
            app.state is TitleScreen,
            app.menu_selection is NewGame,
            app.player.is_baseline(),
            app.editor@ == opened(rooms@[0].challenge.starting_lines()),
            app.message@ == ROOM_INTRO@,
            app.message_style == MessageStyle::plain(Color::Yellow),
            app.message_scroll == 0,
            app.codex_scroll == 0,
            !app.command_mode,
            app.command_buffer@.len() == 0,
            app.yank_buffer@.len() == 0,
            app.gates@.len() == 1,
            app.gates@[0].level == 1,
            app.gates@[0].item@ == "Sacred Scroll"@,
            !app.mac_keyboard,
    {
        let code = trimmed(rooms[0].challenge.code.as_str());
        let locked_lines = rooms[0].challenge.locked_lines.clone();
        let editor = Editor::new(split_lines(code.as_str()));
        let mut gates: Vec<Gate> = Vec::new();
        gates.push(Gate { level: 1, item: String::from_str("Sacred Scroll") });
        App {
            rooms,
            current_room: 0,
            current_level: 1,
            editor,
            locked_lines,
            yank_buffer: String::new(),
            message: fixed(ROOM_INTRO),
            message_style: MessageStyle::of(Color::Yellow),
            message_scroll: 0,
            state: GameState::TitleScreen,
            menu_selection: MenuOption::NewGame,
            player: PlayerState::new(),
            codex_scroll: 0,
            command_mode: false,
            command_buffer: String::new(),
            gates,
            mac_keyboard: false,
        }
    }

    /// What `start_game` makes of the game: a player at baseline in the
    /// first room of the first floor.
    pub open spec fn started(pre: App, post: App) -> bool {
        &&& post == App {
            current_room: 0,
            current_level: 1,
            editor: post.editor,
            locked_lines: post.locked_lines,
            message: post.message,
            message_style: MessageStyle::plain(Color::Yellow),
            state: GameState::Playing,
            player: post.player,
            ..pre
        }
        &&& post.player.is_baseline()
        &&& post.editor@ == opened(pre.rooms@[0].challenge.starting_lines())
        &&& post.locked_lines@ == pre.rooms@[0].challenge.locked_lines@
        &&& post.message@ == ROOM_INTRO@
    }

    /// Starts a game on the floor that is loaded, which is taken to be the
    /// first.
    pub fn start_game(&mut self)
        requires
            old(self).well_formed(),
        ensures
            final(self).well_formed(),
            Self::started(*old(self), *final(self)),
    {
        self.player = PlayerState::new();
        self.current_level = 1;
        self.state = GameState::Playing;
        self.load_room(0);
    }

    /// What `show_hint` makes of the game. While the room has hints left,
    /// the next one is shown and costs the room's hint penalty in health,
    /// which stops at zero. After the last one nothing changes but the
    /// message.
    pub open spec fn hinted(pre: App, post: App) -> bool {
        let room = pre.current();
        let used = pre.player.hints_used_room;
        if used < room.narrative.hints@.len() {
            &&& post == App {
                message: post.message,
                message_style: MessageStyle::plain(Color::Cyan),
                message_scroll: 0,
                player: PlayerState {
                    hp: floored_difference(pre.player.hp, room.hint_penalty()),
                    hints_used_room: (used + 1) as usize,
                    hints_used_total: capped_count(pre.player.hints_used_total),
                    ..pre.player
                },
                ..pre
            }
            &&& post.message@ == hint_text(room.narrative.hints@[used as int]@)
        } else {
            &&& post == App {
                message: post.message,
                message_style: MessageStyle::plain(Color::DarkGray),
                message_scroll: 0,
                ..pre
            }
            &&& post.message@ == NO_MORE_HINTS@
        }
    }

    /// Gives the next hint of the room.
    pub fn show_hint(&mut self)
        requires
            old(self).well_formed(),
        ensures
            final(self).well_formed(),
            Self::hinted(*old(self), *final(self)),
    {
        self.message_scroll = 0;
        let room = &self.rooms[self.current_room];
        let used = self.player.hints_used_room;
        if used < room.narrative.hints.len() {
            self.player.hp = self.player.hp.saturating_sub(room.penalty_for_hint());
            self.message = hint_message(room.narrative.hints[used].as_str());
            self.message_style = MessageStyle::of(Color::Cyan);
            self.player.hints_used_room = used + 1;
            self.player.hints_used_total = self.player.hints_used_total.saturating_add(1);
        } else {
            self.message = fixed(NO_MORE_HINTS);
            self.message_style = MessageStyle::of(Color::DarkGray);
        }
    }

    /// What `show_inventory` makes of the game: the message lists what the
    /// player holds.
    pub open spec fn inventory_shown(pre: App, post: App) -> bool {
        &&& post == App {
            message: post.message,
            message_style: MessageStyle::plain(Color::Cyan),
            message_scroll: 0,
            ..pre
        }
        &&& post.message@ == inventory_text(pre.player.items())
    }

    /// Shows the inventory.
    pub fn show_inventory(&mut self)
        ensures
            Self::inventory_shown(*old(self), *final(self)),
    {
        self.message_scroll = 0;
        self.message = inventory_message(&self.player.inventory);
        self.message_style = MessageStyle::of(Color::Cyan);
    }

    /// What `show_keys` makes of the game: the message lists the keys.
    pub open spec fn keys_shown(pre: App, post: App) -> bool {
        &&& post == App {
            message: post.message,
            message_style: MessageStyle::plain(Color::Cyan),
            message_scroll: 0,
            ..pre
        }
        &&& post.message@ == keys_text(pre.mac_keyboard)
    }

    /// Shows the list of keys.
    pub fn show_keys(&mut self)
        ensures
            Self::keys_shown(*old(self), *final(self)),
    {
        self.message_scroll = 0;
        self.message = keys_message(self.mac_keyboard);
        self.message_style = MessageStyle::of(Color::Cyan);
    }

    /// The text in the editor, its lines joined by line feeds: the
    /// candidate that a run validates.
    pub fn solution(&self) -> (code: String)
        ensures
            code@ == join(self.editor@.lines, "\n"@),
    {
        let lines = self.editor.lines();
        join_strings(&lines, "\n")
    }

    /// What the health check makes of the game and of the request that a
    /// command ended with. With no health left the game is over, whatever
    /// the command made of it, and the request is to end: to leave at once
    /// where the command asked for that, else after the player has seen the
    /// end. With health left nothing changes.
    pub open spec fn settled(pre: App, asked: Request, request: Request, post: App) -> bool {
        if pre.player.hp == 0 {
            &&& request == if asked is Quit {
                Request::Quit
            } else {
                Request::GameOver
            }
            &&& post == App {
                state: GameState::GameOver,
                message: post.message,
                message_style: MessageStyle::strong(Color::Red),
                ..pre
            }
            &&& post.message@ == GAME_OVER@
        } else {
            request == asked && post == pre
        }
    }

    /// Checks the player's health. This is the check that follows every
    /// command and every verdict; `asked` is what the command asked of the
    /// driver.
    pub fn settle(&mut self, asked: Request) -> (request: Request)
        requires
            old(self).well_formed(),
        ensures
            final(self).well_formed(),
            Self::settled(*old(self), asked, request, *final(self)),
    {
        if self.player.hp == 0 {
            self.state = GameState::GameOver;
            self.message = fixed(GAME_OVER);
            self.message_style = MessageStyle::bold_of(Color::Red);
            if asked == Request::Quit {
                Request::Quit
            } else {
                Request::GameOver
            }
        } else {
            asked
        }
    }
}

/// `n + 1`, or `n` where it is the greatest `usize`.
pub open spec fn capped_count(n: usize) -> usize {
    if n == usize::MAX {
        n
    } else {
        (n + 1) as usize
    }
}

/// The item that bars the way down from floor `level`: that of the first
/// gate of the floor whose item is not among `items`.
pub open spec fn barrier(gates: Seq<Gate>, level: usize, items: Seq<Seq<char>>) -> Option<
    Seq<char>,
>
    decreases gates.len(),
{
    if gates.len() == 0 {
        None
    } else if gates[0].level == level && !items.contains(gates[0].item@) {
        Some(gates[0].item@)
    } else {
        barrier(gates.skip(1), level, items)
    }
}

/// The items held after `item` is granted: it is added at the end unless it
/// is held already.
pub open spec fn collected(items: Seq<Seq<char>>, item: Option<Seq<char>>) -> Seq<Seq<char>> {
    match item {
        Some(name) => if items.contains(name) {
            items
        } else {
            items.push(name)
        },
        None => items,
    }
}

/// The lore unlocked after `entry` is unlocked: it is added at the end
/// unless an entry of its title is there already.
pub open spec fn learned(
    lore: Seq<(Seq<char>, Seq<char>)>,
    entry: Option<(Seq<char>, Seq<char>)>,
) -> Seq<(Seq<char>, Seq<char>)> {
    match entry {
        Some(record) => if has_title(lore, record.0) {
            lore
        } else {
            lore.push(record)
        },
        None => lore,
    }
}

} // verus!
