//! What a key press does: the engine's transition function.
//!
//! A key means different things in different states of the game, and while
//! a room is being solved it may be part of a command typed after a colon.
//! `dispatch` takes the key to the command it stands for; `handle_key` does
//! the same and then checks the player's health.

use vstd::prelude::*;
use vstd::string::*;
use tui_textarea::Input;
use crate::game::app::{barrier, capped_count, App};
use crate::game::floors::LAST_LEVEL;
use crate::game::messages::{
    cursor_position_message, cursor_position_text, fixed, gate_message, gate_text,
    invalid_line_message, invalid_line_text, unknown_command_message, unknown_command_text,
    COMMAND_HELP, EMPTY_CODEX, NOTHING_HAPPENS, NO_SAVE, QUIT_HINT, RESUME, SEALED_LINE,
    SECRET_ROOM,
};
use crate::game::state::{
    Color, GameState, KeyCode, KeyPress, MenuOption, MessageStyle, Request,
};
use crate::compiler::runner::{SystemError, ValidationResult};
use crate::text::{
    after_prefix, chopped, line_count, lines, parse_number, parsed_number, same_text,
    strip_prefix, trim, trimmed, without_last,
};

verus! {

/// A command typed after a colon.
#[derive(Clone, Copy, Debug, PartialEq, Eq, Structural)]
pub enum Command {
    Quit,
    Save,
    Help,
    Hint,
    Inventory,
    Keys,
    Codex,
    Xyzzy,
    Restart,
    Top,
    Bottom,
    /// Go to the line of this number.
    Goto(usize),
    /// `goto` with something that is no line number.
    BadGoto,
    /// Nothing was typed.
    Empty,
    Unknown,
}

/// The command that `typed` stands for. A number alone is a line to go to,
/// except `0`, which is the top.
pub open spec fn command_of(typed: Seq<char>) -> Command {
    if typed == "q"@ || typed == "quit"@ {
        Command::Quit
    } else if typed == "w"@ {
        Command::Save
    } else if typed == "help"@ {
        Command::Help
    } else if typed == "hint"@ {
        Command::Hint
    } else if typed == "inv"@ || typed == "inventory"@ {
        Command::Inventory
    } else if typed == "keys"@ || typed == "shortcuts"@ || typed == "?"@ {
        Command::Keys
    } else if typed == "codex"@ || typed == "j"@ {
        Command::Codex
    } else if typed == "xyzzy"@ {
        Command::Xyzzy
    } else if typed == "restart"@ {
        Command::Restart
    } else if typed == "top"@ || typed == "0"@ {
        Command::Top
    } else if typed == "bot"@ || typed == "$"@ {
        Command::Bottom
    } else {
        match after_prefix(typed, "goto "@) {
            Some(rest) => match parsed_number(trim(rest)) {
                Some(line) => Command::Goto(line),
                None => Command::BadGoto,
            },
            None => match parsed_number(typed) {
                Some(line) => Command::Goto(line),
                None => if typed.len() > 0 {
                    Command::Unknown
                } else {
                    Command::Empty
                },
            },
        }
    }
}

/// Reads a command.
pub fn parse_command(typed: &str) -> (command: Command)
    ensures
        command == command_of(typed@),
{
    if same_text(typed, "q") || same_text(typed, "quit") {
        Command::Quit
    } else if same_text(typed, "w") {
        Command::Save
    } else if same_text(typed, "help") {
        Command::Help
    } else if same_text(typed, "hint") {
        Command::Hint
    } else if same_text(typed, "inv") || same_text(typed, "inventory") {
        Command::Inventory
    } else if same_text(typed, "keys") || same_text(typed, "shortcuts") || same_text(typed, "?") {
        Command::Keys
    } else if same_text(typed, "codex") || same_text(typed, "j") {
        Command::Codex
    } else if same_text(typed, "xyzzy") {
        Command::Xyzzy
    } else if same_text(typed, "restart") {
        Command::Restart
    } else if same_text(typed, "top") || same_text(typed, "0") {
        Command::Top
    } else if same_text(typed, "bot") || same_text(typed, "$") {
        Command::Bottom
    } else {
        match strip_prefix(typed, "goto ") {
            Some(rest) => {
                let number = trimmed(rest.as_str());
                match parse_number(number.as_str()) {
                    Some(line) => Command::Goto(line),
                    None => Command::BadGoto,
                }
            },
            None => match parse_number(typed) {
                Some(line) => Command::Goto(line),
                None => if typed.is_empty() {
                    Command::Empty
                } else {
                    Command::Unknown
                },
            },
        }
    }
}

/// The height of the message box less its frame and a margin: a message
/// is scrolled down only while more lines than this lie below its top.
pub const SCROLL_MARGIN: u16 = 5;

/// The lines that one key press scrolls by.
pub const SCROLL_STEP: u16 = 3;

/// The number of lines of `message`, or the greatest `u16` where it has
/// more.
pub open spec fn message_height(message: Seq<char>) -> u16 {
    if lines(message).len() > u16::MAX {
        u16::MAX
    } else {
        lines(message).len() as u16
    }
}

/// The scroll position after a step down: a step further, unless the end
/// of the message is near.
pub open spec fn scrolled_down(scroll: u16, message: Seq<char>) -> u16 {
    if scroll + SCROLL_MARGIN < message_height(message) {
        (scroll + SCROLL_STEP) as u16
    } else {
        scroll
    }
}

/// The scroll position after a step up: a step back, but not above the top.
pub open spec fn scrolled_up(scroll: u16) -> u16 {
    if scroll >= SCROLL_STEP {
        (scroll - SCROLL_STEP) as u16
    } else {
        0
    }
}

impl App {
    /// What a scroll key makes of the game, or `None` where `key` is none.
    pub open spec fn scroll_step(pre: App, key: KeyPress) -> Option<App> {
        if key.code is PageDown {
            Some(
                App { message_scroll: scrolled_down(pre.message_scroll, pre.message@), ..pre },
            )
        } else if key.code is PageUp {
            Some(App { message_scroll: scrolled_up(pre.message_scroll), ..pre })
        } else {
            None
        }
    }

    /// Scrolls the message if `key` is a scroll key, and says whether it
    /// was.
    pub fn scroll(&mut self, key: &KeyPress) -> (scrolled: bool)
        ensures
            match Self::scroll_step(*old(self), *key) {
                Some(post) => scrolled && *final(self) == post,
                None => !scrolled && *final(self) == *old(self),
            },
    {
        match key.code {
            KeyCode::PageDown => {
                let count = line_count(self.message.as_str());
                let height: u16 = if count > 0xffff {
                    0xffff
                } else {
                    count as u16
                };
                if height >= SCROLL_MARGIN && self.message_scroll < height - SCROLL_MARGIN {
                    self.message_scroll = self.message_scroll + SCROLL_STEP;
                }
                true
            },
            KeyCode::PageUp => {
                self.message_scroll = self.message_scroll.saturating_sub(SCROLL_STEP);
                true
            },
            _ => false,
        }
    }

    /// A key at the title menu. The arrow keys and `j` and `k` move the
    /// highlight; Enter takes the highlighted entry; `q` leaves. A new game
    /// starts at once on the first floor, and asks for the first floor where
    /// another one is loaded.
    pub open spec fn title_step(pre: App, key: KeyPress, post: App, request: Request) -> bool {
        if key.code is Up || key.code is Down || key.code == KeyCode::Char('j') || key.code
            == KeyCode::Char('k') {
            request is Continue && post == App {
                menu_selection: pre.menu_selection.other(),
                ..pre
            }
        } else if key.code is Enter {
            match pre.menu_selection {
                MenuOption::NewGame => if pre.current_level == 1 {
                    request is Continue && Self::started(pre, post)
                } else {
                    request is Restart && post == pre
                },
                MenuOption::Quit => request is Quit && post == pre,
            }
        } else if key.code == KeyCode::Char('q') {
            request is Quit && post == pre
        } else {
            request is Continue && post == pre
        }
    }

    /// Handles a key at the title menu.
    fn on_title(&mut self, key: &KeyPress) -> (request: Request)
        requires
            old(self).well_formed(),
        ensures
            final(self).well_formed(),
            Self::title_step(*old(self), *key, *final(self), request),
    {
        match key.code {
            KeyCode::Up | KeyCode::Down => {
                self.menu_selection = self.menu_selection.next();
                Request::Continue
            },
            KeyCode::Char(c) => {
                if c == 'j' || c == 'k' {
                    self.menu_selection = self.menu_selection.next();
                    Request::Continue
                } else if c == 'q' {
                    Request::Quit
                } else {
                    Request::Continue
                }
            },
            KeyCode::Enter => match self.menu_selection {
                MenuOption::NewGame => {
                    if self.current_level == 1 {
                        self.start_game();
                        Request::Continue
                    } else {
                        Request::Restart
                    }
                },
                MenuOption::Quit => Request::Quit,
            },
            _ => Request::Continue,
        }
    }

    /// A key after a room is cleared. Enter goes on; Esc goes back to the
    /// editor; the scroll keys scroll the message.
    pub open spec fn cleared_step(pre: App, key: KeyPress, post: App, request: Request) -> bool {
        &&& request is Continue
        &&& if key.code is Enter {
            Self::advanced(pre, post)
        } else if key.code is Esc {
            &&& post == App {
                state: GameState::Playing,
                message: post.message,
                message_style: MessageStyle::plain(Color::Yellow),
                ..pre
            }
            &&& post.message@ == RESUME@
        } else {
            match Self::scroll_step(pre, key) {
                Some(scrolled) => post == scrolled,
                None => post == pre,
            }
        }
    }

    /// Handles a key after a room is cleared.
    fn on_cleared(&mut self, key: &KeyPress) -> (request: Request)
        requires
            old(self).well_formed(),
        ensures
            final(self).well_formed(),
            Self::cleared_step(*old(self), *key, *final(self), request),
    {
        match key.code {
            KeyCode::Enter => {
                self.advance_room();
            },
            KeyCode::Esc => {
                self.state = GameState::Playing;
                self.message = fixed(RESUME);
                self.message_style = MessageStyle::of(Color::Yellow);
            },
            _ => {
                self.scroll(key);
            },
        }
        Request::Continue
    }

    /// A key while the entry text of the next room is shown. Enter enters
    /// the room; the scroll keys scroll the text.
    pub open spec fn transition_step(pre: App, key: KeyPress, post: App, request: Request) -> bool {
        &&& request is Continue
        &&& if key.code is Enter {
            Self::room_loaded(pre, (pre.current_room + 1) as usize, post)
        } else {
            match Self::scroll_step(pre, key) {
                Some(scrolled) => post == scrolled,
                None => post == pre,
            }
        }
    }

    /// Handles a key while an entry text is shown.
    fn on_transition(&mut self, key: &KeyPress) -> (request: Request)
        requires
            old(self).well_formed(),
            old(self).state is RoomTransition,
        ensures
            final(self).well_formed(),
            Self::transition_step(*old(self), *key, *final(self), request),
    {
        match key.code {
            KeyCode::Enter => {
                let count = self.rooms.len();
                self.load_room(self.current_room + 1);
            },
            _ => {
                self.scroll(key);
            },
        }
        Request::Continue
    }

    /// A key at the end of a floor. Enter asks for the next floor, or
    /// leaves after the last; a gate of the floor that is still closed
    /// bars the way and says so. The scroll keys scroll the message.
    pub open spec fn floor_step(pre: App, key: KeyPress, post: App, request: Request) -> bool {
        if key.code is Enter {
            if pre.current_level < LAST_LEVEL {
                match barrier(pre.gates@, pre.current_level, pre.player.items()) {
                    Some(item) => request is Continue && Self::told(
                        pre,
                        post,
                        gate_text(item),
                        MessageStyle::plain(Color::Magenta),
                    ),
                    None => request == Request::LoadLevel((pre.current_level + 1) as usize)
                        && post == pre,
                }
            } else {
                request is Quit && post == pre
            }
        } else {
            &&& request is Continue
            &&& match Self::scroll_step(pre, key) {
                Some(scrolled) => post == scrolled,
                None => post == pre,
            }
        }
    }

    /// Handles a key at the end of a floor.
    fn on_floor_end(&mut self, key: &KeyPress) -> (request: Request)
        requires
            old(self).well_formed(),
        ensures
            final(self).well_formed(),
            Self::floor_step(*old(self), *key, *final(self), request),
    {
        match key.code {
            KeyCode::Enter => {
                if self.current_level < LAST_LEVEL {
                    match self.closed_gate() {
                        Some(i) => {
                            self.message = gate_message(self.gates[i].item.as_str());
                            self.message_style = MessageStyle::of(Color::Magenta);
                            Request::Continue
                        },
                        None => Request::LoadLevel(self.current_level + 1),
                    }
                } else {
                    Request::Quit
                }
            },
            _ => {
                self.scroll(key);
                Request::Continue
            },
        }
    }

    /// A key in the codex. Esc and Enter close it; the arrow keys move
    /// through the entries. Nothing of the player changes.
    pub open spec fn codex_step(pre: App, key: KeyPress, post: App, request: Request) -> bool {
        &&& request is Continue
        &&& if key.code is Esc || key.code is Enter {
            post == App { state: GameState::Playing, ..pre }
        } else if key.code is Up {
            post == App {
                codex_scroll: if pre.codex_scroll > 0 {
                    (pre.codex_scroll - 1) as usize
                } else {
                    0
                },
                ..pre
            }
        } else if key.code is Down {
            post == App {
                codex_scroll: if pre.codex_scroll + 1 < pre.player.codex@.len() {
                    (pre.codex_scroll + 1) as usize
                } else {
                    pre.codex_scroll
                },
                ..pre
            }
        } else {
            post == pre
        }
    }

    /// Handles a key in the codex.
    fn on_codex(&mut self, key: &KeyPress) -> (request: Request)
        requires
            old(self).well_formed(),
        ensures
            final(self).well_formed(),
            Self::codex_step(*old(self), *key, *final(self), request),
    {
        match key.code {
            KeyCode::Esc | KeyCode::Enter => {
                self.state = GameState::Playing;
            },
            KeyCode::Up => {
                self.codex_scroll = self.codex_scroll.saturating_sub(1);
            },
            KeyCode::Down => {
                let count = self.player.codex.len();
                if count > 0 && self.codex_scroll < count - 1 {
                    self.codex_scroll = self.codex_scroll + 1;
                }
            },
            _ => {},
        }
        Request::Continue
    }

    /// What the command on the command line makes of the game. `quit`
    /// leaves at once. Any other command is run with the command line
    /// closed and empty.
    pub open spec fn command_run(pre: App, post: App, request: Request) -> bool {
        let typed = pre.command_buffer@;
        let closed = App { command_mode: false, command_buffer: post.command_buffer, ..pre };
        match command_of(typed) {
            Command::Quit => request is Quit && post == pre,
            Command::Restart => {
                &&& post.command_buffer@.len() == 0
                &&& if pre.current_level == 1 {
                    request is Continue && Self::started(closed, post)
                } else {
                    request is Restart && post == closed
                }
            },
            command => {
                &&& request is Continue
                &&& post.command_buffer@.len() == 0
                &&& match command {
                    Command::Save => Self::told(
                        closed,
                        post,
                        NO_SAVE@,
                        MessageStyle::plain(Color::Yellow),
                    ),
                    Command::Help => Self::told(
                        closed,
                        post,
                        COMMAND_HELP@,
                        MessageStyle::plain(Color::Cyan),
                    ),
                    Command::Hint => Self::hinted(closed, post),
                    Command::Inventory => Self::inventory_shown(closed, post),
                    Command::Keys => Self::keys_shown(closed, post),
                    Command::Codex => if pre.player.codex@.len() == 0 {
                        Self::told(closed, post, EMPTY_CODEX@, MessageStyle::plain(Color::DarkGray))
                    } else {
                        post == App { state: GameState::ViewingCodex, codex_scroll: 0, ..closed }
                    },
                    Command::Xyzzy => if pre.current().meta.id@ == "torch"@ {
                        Self::told(closed, post, SECRET_ROOM@, MessageStyle::strong(Color::Magenta))
                    } else {
                        Self::told(
                            closed,
                            post,
                            NOTHING_HAPPENS@,
                            MessageStyle::plain(Color::DarkGray),
                        )
                    },
                    Command::Top => Self::top_reached(closed, post),
                    Command::Bottom => Self::bottom_reached(closed, post),
                    Command::Goto(line) => Self::line_reached(closed, line, post),
                    Command::BadGoto => Self::told(
                        closed,
                        post,
                        invalid_line_text(typed.skip(5)),
                        MessageStyle::plain(Color::Red),
                    ),
                    Command::Unknown => Self::told(
                        closed,
                        post,
                        unknown_command_text(typed),
                        MessageStyle::plain(Color::Red),
                    ),
                    _ => post == closed,
                }
            },
        }
    }

    /// Runs the command on the command line.
    fn run_command(&mut self) -> (request: Request)
        requires
            old(self).well_formed(),
        ensures
            final(self).well_formed(),
            Self::command_run(*old(self), *final(self), request),
    {
        let command = parse_command(self.command_buffer.as_str());
        if command == Command::Quit {
            return Request::Quit;
        }
        let typed = self.command_buffer.clone();
        self.command_buffer = String::new();
        self.command_mode = false;
        match command {
            Command::Restart => {
                if self.current_level == 1 {
                    self.start_game();
                } else {
                    return Request::Restart;
                }
            },
            Command::Save => {
                self.message = fixed(NO_SAVE);
                self.message_style = MessageStyle::of(Color::Yellow);
            },
            Command::Help => {
                self.message = fixed(COMMAND_HELP);
                self.message_style = MessageStyle::of(Color::Cyan);
            },
            Command::Hint => {
                self.show_hint();
            },
            Command::Inventory => {
                self.show_inventory();
            },
            Command::Keys => {
                self.show_keys();
            },
            Command::Codex => {
                if self.player.codex.len() == 0 {
                    self.message = fixed(EMPTY_CODEX);
                    self.message_style = MessageStyle::of(Color::DarkGray);
                } else {
                    self.state = GameState::ViewingCodex;
                    self.codex_scroll = 0;
                }
            },
            Command::Xyzzy => {
                if same_text(self.rooms[self.current_room].meta.id.as_str(), "torch") {
                    self.message = fixed(SECRET_ROOM);
                    self.message_style = MessageStyle::bold_of(Color::Magenta);
                } else {
                    self.message = fixed(NOTHING_HAPPENS);
                    self.message_style = MessageStyle::of(Color::DarkGray);
                }
            },
            Command::Top => {
                self.goto_top();
            },
            Command::Bottom => {
                self.goto_bottom();
            },
            Command::Goto(line) => {
                self.goto_line(line);
            },
            Command::BadGoto => {
                proof {
                    reveal_strlit("goto ");
                }
                let rest = strip_prefix(typed.as_str(), "goto ");
                match rest {
                    Some(given) => {
                        self.message = invalid_line_message(given.as_str());
                    },
                    None => {
                        self.message = invalid_line_message("");
                    },
                }
                self.message_style = MessageStyle::of(Color::Red);
            },
            Command::Unknown => {
                self.message = unknown_command_message(typed.as_str());
                self.message_style = MessageStyle::of(Color::Red);
            },
            _ => {},
        }
        Request::Continue
    }

    /// A key while a command is being typed. Esc gives the command up;
    /// Enter runs it; Backspace takes its last character back, and with the
    /// last one gone the command line closes; a character is added to it.
    pub open spec fn command_step(pre: App, key: KeyPress, post: App, request: Request) -> bool {
        if key.code is Enter {
            Self::command_run(pre, post, request)
        } else {
            &&& request is Continue
            &&& match key.code {
                KeyCode::Esc => {
                    &&& post == App {
                        command_mode: false,
                        command_buffer: post.command_buffer,
                        ..pre
                    }
                    &&& post.command_buffer@.len() == 0
                },
                KeyCode::Backspace => {
                    &&& post == App {
                        command_mode: pre.command_mode && post.command_buffer@.len() > 0,
                        command_buffer: post.command_buffer,
                        ..pre
                    }
                    &&& post.command_buffer@ == chopped(pre.command_buffer@)
                },
                KeyCode::Char(c) => {
                    &&& post == App { command_buffer: post.command_buffer, ..pre }
                    &&& post.command_buffer@ == pre.command_buffer@.push(c)
                },
                _ => post == pre,
            }
        }
    }

    /// Handles a key on the command line.
    fn on_command_line(&mut self, key: &KeyPress) -> (request: Request)
        requires
            old(self).well_formed(),
        ensures
            final(self).well_formed(),
            Self::command_step(*old(self), *key, *final(self), request),
    {
        match key.code {
            KeyCode::Enter => {
                return self.run_command();
            },
            KeyCode::Esc => {
                self.command_mode = false;
                self.command_buffer = String::new();
            },
            KeyCode::Backspace => {
                self.command_buffer = without_last(self.command_buffer.as_str());
                if self.command_buffer.as_str().is_empty() {
                    self.command_mode = false;
                }
            },
            KeyCode::Char(c) => {
                self.command_buffer.push(c);
            },
            _ => {},
        }
        Request::Continue
    }

    /// A key while a room is being solved and no command is being typed.
    ///
    /// A colon opens the command line. F5 and Ctrl+R ask for a run. F1
    /// gives a hint, F2 lists the keys, Esc says how to leave, the scroll
    /// keys scroll the message. Ctrl+D, Ctrl+Y and Ctrl+P delete, yank and
    /// paste a line; Ctrl+Home and Ctrl+End go to the top and the bottom;
    /// Ctrl+G says where the cursor is. Every other key is the editor's,
    /// Ctrl+Z and Ctrl+Shift+Z among them, which undo and redo. A key of the
    /// editor's that changes the text is refused while the cursor is on a
    /// locked line: then nothing changes but the message.
    pub open spec fn editing_step(pre: App, key: KeyPress, post: App, request: Request) -> bool {
        let cursor = pre.editor@.cursor;
        if key.code == KeyCode::Char(':') && key.is_bare() {
            &&& request is Continue
            &&& post == App {
                command_mode: true,
                command_buffer: post.command_buffer,
                message_scroll: 0,
                ..pre
            }
            &&& post.command_buffer@.len() == 0
        } else if key.code is Esc {
            &&& request is Continue
            &&& post == App {
                message: post.message,
                message_style: MessageStyle::plain(Color::DarkGray),
                message_scroll: 0,
                ..pre
            }
            &&& post.message@ == QUIT_HINT@
        } else if Self::scroll_step(pre, key) is Some {
            request is Continue && post == Self::scroll_step(pre, key)->0
        } else if key.code == KeyCode::F(5) || key.is_ctrl_char('r') {
            request is Validate && post == pre
        } else {
            &&& request is Continue
            &&& if key.code == KeyCode::F(1) {
                Self::hinted(pre, post)
            } else if key.code == KeyCode::F(2) {
                Self::keys_shown(pre, post)
            } else if key.is_ctrl_char('d') {
                Self::line_removed(pre, post)
            } else if key.code is Home && key.is_ctrl() {
                Self::top_reached(pre, post)
            } else if key.code is End && key.is_ctrl() {
                Self::bottom_reached(pre, post)
            } else if key.is_ctrl_char('g') {
                Self::told(
                    pre,
                    post,
                    cursor_position_text(
                        cursor.0 + 1,
                        pre.editor@.lines.len(),
                        capped_count(cursor.1 as usize) as nat,
                    ),
                    MessageStyle::plain(Color::DarkGray),
                )
            } else if key.is_ctrl_char('y') {
                Self::line_yanked(pre, post)
            } else if key.is_ctrl_char('p') {
                Self::line_pasted(pre, post)
            } else if key.is_destructive() && pre.locks(cursor.0) {
                Self::told(pre, post, SEALED_LINE@, MessageStyle::plain(Color::Magenta))
            } else {
                post == App { editor: post.editor, ..pre }
            }
        }
    }

    /// Handles a key while a room is being solved.
    fn on_editing(&mut self, key: &KeyPress, input: Input) -> (request: Request)
        requires
            old(self).well_formed(),
        ensures
            final(self).well_formed(),
            Self::editing_step(*old(self), *key, *final(self), request),
    {
        let bare = !key.ctrl && !key.alt && !key.shift;
        let ctrl = key.ctrl && !key.alt && !key.shift;
        if key.code == KeyCode::Char(':') && bare {
            self.command_mode = true;
            self.command_buffer = String::new();
            self.message_scroll = 0;
        } else if key.code == KeyCode::Esc {
            self.message = fixed(QUIT_HINT);
            self.message_style = MessageStyle::of(Color::DarkGray);
            self.message_scroll = 0;
        } else if self.scroll(key) {
        } else if key.code == KeyCode::F(5) || key.ctrl_char('r') {
            return Request::Validate;
        } else if key.code == KeyCode::F(1) {
            self.show_hint();
        } else if key.code == KeyCode::F(2) {
            self.show_keys();
        } else if key.ctrl_char('d') {
            self.delete_line();
        } else if key.code == KeyCode::Home && ctrl {
            self.goto_top();
        } else if key.code == KeyCode::End && ctrl {
            self.goto_bottom();
        } else if key.ctrl_char('g') {
            proof {
                use_type_invariant(&self.editor);
            }
            let (row, column) = self.editor.cursor();
            let count = self.editor.lines().len();
            self.message = cursor_position_message(row + 1, count, column.saturating_add(1));
            self.message_style = MessageStyle::of(Color::DarkGray);
        } else if key.ctrl_char('y') {
            self.yank_line();
        } else if key.ctrl_char('p') {
            self.paste_line();
        } else {
            let (row, _) = self.editor.cursor();
            if key.destructive() && self.is_line_locked(row) {
                self.message = fixed(SEALED_LINE);
                self.message_style = MessageStyle::of(Color::Magenta);
            } else if key.ctrl_char('z') {
                self.editor.undo();
            } else if key.code == KeyCode::Char('Z') && key.ctrl && key.shift && !key.alt {
                self.editor.redo();
            } else {
                self.editor.input(input);
            }
        }
        Request::Continue
    }

    /// What a key press does before the player's health is checked.
    /// Ctrl+C leaves, whatever the state. After the game is over every key
    /// leaves. Else the state of the game says what the key means.
    pub open spec fn dispatched(pre: App, key: KeyPress, post: App, request: Request) -> bool {
        if key.is_ctrl_char('c') {
            request is Quit && post == pre
        } else {
            match pre.state {
                GameState::TitleScreen => Self::title_step(pre, key, post, request),
                GameState::RoomComplete => Self::cleared_step(pre, key, post, request),
                GameState::RoomTransition => Self::transition_step(pre, key, post, request),
                GameState::LevelComplete => Self::floor_step(pre, key, post, request),
                GameState::ViewingCodex => Self::codex_step(pre, key, post, request),
                GameState::GameOver => request is Quit && post == pre,
                GameState::Playing => if pre.command_mode {
                    Self::command_step(pre, key, post, request)
                } else {
                    Self::editing_step(pre, key, post, request)
                },
            }
        }
    }

    /// Takes a key press to the command it stands for. `input` is the same
    /// key as the editor takes it; it is handed on to the editor where the
    /// key is the editor's, and is not looked at.
    pub fn dispatch(&mut self, key: KeyPress, input: Input) -> (request: Request)
        requires
            old(self).well_formed(),
        ensures
            final(self).well_formed(),
            Self::dispatched(*old(self), key, *final(self), request),
    {
        if key.ctrl_char('c') {
            return Request::Quit;
        }
        match self.state {
            GameState::TitleScreen => self.on_title(&key),
            GameState::RoomComplete => self.on_cleared(&key),
            GameState::RoomTransition => self.on_transition(&key),
            GameState::LevelComplete => self.on_floor_end(&key),
            GameState::ViewingCodex => self.on_codex(&key),
            GameState::GameOver => Request::Quit,
            GameState::Playing => {
                if self.command_mode {
                    self.on_command_line(&key)
                } else {
                    self.on_editing(&key, input)
                }
            },
        }
    }

    /// Takes a key press: does what the key stands for, then checks the
    /// player's health.
    pub fn handle_key(&mut self, key: KeyPress, input: Input) -> (request: Request)
        requires
            old(self).well_formed(),
        ensures
            final(self).well_formed(),
            exists|mid: App, asked: Request|
                Self::dispatched(*old(self), key, mid, asked) && Self::settled(
                    mid,
                    asked,
                    request,
                    *final(self),
                ),
    {
        let asked = self.dispatch(key, input);
        let ghost mid = *self;
        let request = self.settle(asked);
        assert(Self::dispatched(*old(self), key, mid, asked) && Self::settled(
            mid,
            asked,
            request,
            *self,
        ));
        request
    }

    /// Takes the outcome of the run that `Request::Validate` asked for:
    /// applies the verdict, then checks the player's health.
    pub fn finish_run(&mut self, outcome: Result<ValidationResult, SystemError>) -> (request:
        Request)
        requires
            old(self).well_formed(),
        ensures
            final(self).well_formed(),
            exists|mid: App|
                Self::judged(*old(self), outcome, mid) && Self::settled(
                    mid,
                    Request::Continue,
                    request,
                    *final(self),
                ),
    {
        self.run_solution(outcome);
        let ghost mid = *self;
        let request = self.settle(Request::Continue);
        assert(Self::judged(*old(self), outcome, mid) && Self::settled(
            mid,
            Request::Continue,
            request,
            *self,
        ));
        request
    }
}

} // verus!
