//! What is on screen besides the editor: which words stand in the status
//! bar and around the message, and in which colours. Drawing them is the
//! driver's part.

use vstd::prelude::*;
use vstd::string::*;
use crate::game::app::App;
use crate::game::state::{Color, GameState, MessageStyle};
use crate::text::{decimal, line_count, lines, push_decimal};

verus! {

/// The colours of a piece of the screen.
#[derive(Clone, Copy, Debug, PartialEq, Eq, Structural)]
pub struct Paint {
    pub fg: Color,
    /// The background, where it is not the terminal's own.
    pub bg: Option<Color>,
    pub bold: bool,
}

/// The box that the message stands in.
#[derive(Debug)]
pub struct MessageBox {
    /// What stands in the box: the message, or the command being typed.
    pub content: String,
    pub title: String,
    pub paint: Paint,
    /// How many lines are scrolled off the top.
    pub scroll: u16,
}

/// The health above which the health figure is green.
pub const HEALTHY: u32 = 50;

/// The health above which the health figure is not yet red.
pub const WOUNDED: u32 = 20;

/// The lines of a message that the message box shows at once.
pub const MESSAGE_LINES: usize = 8;

/// The lore entries that the dungeon holds: three rooms on each of three
/// floors.
pub const LORE_ENTRIES: usize = 9;

/// The colour of the health figure: green, then yellow, then red as health
/// runs out.
pub open spec fn health_colour(hp: u32) -> Color {
    if hp > HEALTHY {
        Color::Green
    } else if hp > WOUNDED {
        Color::Yellow
    } else {
        Color::Red
    }
}

/// The colour of the health figure.
pub fn health_color(hp: u32) -> (color: Color)
    ensures
        color == health_colour(hp),
{
    if hp > HEALTHY {
        Color::Green
    } else if hp > WOUNDED {
        Color::Yellow
    } else {
        Color::Red
    }
}

/// The words of the status bar that say where the player is.
pub open spec fn progress_text(level: nat, room: nat, rooms: nat) -> Seq<char> {
    " L"@ + decimal(level) + " Room "@ + decimal(room) + "/"@ + decimal(rooms) + " "@
}

impl Paint {
    /// Letters of this colour on the terminal's own background.
    pub open spec fn letters(fg: Color) -> Paint {
        Paint { fg, bg: None, bold: false }
    }

    /// Letters of one colour on a background of another.
    pub open spec fn on(fg: Color, bg: Color) -> Paint {
        Paint { fg, bg: Some(bg), bold: false }
    }

    /// The paint of a message style.
    pub open spec fn of(style: MessageStyle) -> Paint {
        Paint { fg: style.color, bg: None, bold: style.bold }
    }
}

impl App {
    /// The title of the message box and its colours. While a command is
    /// being typed the box is the command line; else the state of the game
    /// names it, and while a room is being solved the message brings its own
    /// colours.
    pub open spec fn frame(self) -> (Seq<char>, Paint) {
        if self.command_mode {
            (" Command "@, Paint::on(Color::White, Color::DarkGray))
        } else {
            match self.state {
                GameState::RoomComplete => (" VICTORY! "@, Paint::on(Color::Black, Color::Green)),
                GameState::RoomTransition => (" Descending... "@, Paint::letters(Color::Cyan)),
                GameState::LevelComplete => (
                    " LEVEL COMPLETE! "@,
                    Paint::on(Color::Black, Color::Yellow),
                ),
                GameState::GameOver => (" GAME OVER "@, Paint::on(Color::White, Color::Red)),
                _ => (" Compiler Whispers "@, Paint::of(self.message_style)),
            }
        }
    }

    /// The name of the keys that scroll the message, as the title of the
    /// message box gives it.
    pub open spec fn scroll_keys(self) -> Seq<char> {
        if self.mac_keyboard {
            "Fn+Up/Down"@
        } else {
            "PgUp/PgDn"@
        }
    }

    /// The message box: the message under the title that the state of the
    /// game gives it, or the command line. A message of more lines than the
    /// box shows at once has the scroll keys named in the title.
    pub open spec fn boxed(self, shown: MessageBox) -> bool {
        &&& shown.content@ == if self.command_mode {
            ":"@ + self.command_buffer@
        } else {
            self.message@
        }
        &&& shown.title@ == if lines(self.message@).len() > MESSAGE_LINES {
            self.frame().0 + " ["@ + self.scroll_keys() + " to scroll]"@
        } else {
            self.frame().0
        }
        &&& shown.paint == self.frame().1
        &&& shown.scroll == self.message_scroll
    }

    /// The message box as it is to be drawn.
    pub fn message_box(&self) -> (shown: MessageBox)
        ensures
            self.boxed(shown),
    {
        let content = if self.command_mode {
            let mut line = String::from_str(":");
            line.append(self.command_buffer.as_str());
            line
        } else {
            self.message.clone()
        };
        let (name, paint): (&'static str, Paint) = if self.command_mode {
            (" Command ", Paint { fg: Color::White, bg: Some(Color::DarkGray), bold: false })
        } else {
            match self.state {
                GameState::RoomComplete => (
                    " VICTORY! ",
                    Paint { fg: Color::Black, bg: Some(Color::Green), bold: false },
                ),
                GameState::RoomTransition => (
                    " Descending... ",
                    Paint { fg: Color::Cyan, bg: None, bold: false },
                ),
                GameState::LevelComplete => (
                    " LEVEL COMPLETE! ",
                    Paint { fg: Color::Black, bg: Some(Color::Yellow), bold: false },
                ),
                GameState::GameOver => (
                    " GAME OVER ",
                    Paint { fg: Color::White, bg: Some(Color::Red), bold: false },
                ),
                _ => (
                    " Compiler Whispers ",
                    Paint {
                        fg: self.message_style.color,
                        bg: None,
                        bold: self.message_style.bold,
                    },
                ),
            }
        };
        let mut title = String::from_str(name);
        if line_count(self.message.as_str()) > MESSAGE_LINES {
            title.append(" [");
            title.append(
                if self.mac_keyboard {
                    "Fn+Up/Down"
                } else {
                    "PgUp/PgDn"
                },
            );
            title.append(" to scroll]");
        }
        MessageBox { content, title, paint, scroll: self.message_scroll }
    }

    /// The words of the status bar that say where the player is: the floor,
    /// and the room among the rooms of the floor.
    pub fn room_progress(&self) -> (text: String)
        requires
            self.well_formed(),
        ensures
            text@ == progress_text(
                self.current_level as nat,
                (self.current_room + 1) as nat,
                self.rooms@.len(),
            ),
    {
        let mut text = String::from_str(" L");
        push_decimal(&mut text, self.current_level as u64);
        text.append(" Room ");
        let count = self.rooms.len();
        push_decimal(&mut text, (self.current_room + 1) as u64);
        text.append("/");
        push_decimal(&mut text, count as u64);
        text.append(" ");
        text
    }

    /// How many lore entries of the dungeon the player has yet to unlock.
    pub fn lore_left(&self) -> (left: usize)
        ensures
            left == if self.player.codex@.len() < LORE_ENTRIES {
                LORE_ENTRIES - self.player.codex@.len()
            } else {
                0
            },
    {
        let unlocked = self.player.codex.len();
        if unlocked < LORE_ENTRIES {
            LORE_ENTRIES - unlocked
        } else {
            0
        }
    }
}

} // verus!
