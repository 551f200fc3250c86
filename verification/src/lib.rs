//! Rust Raid: the engine of a game in which the player mends small broken
//! programs, room by room and floor by floor.
//!
//! The library holds what the game decides; a driver does what the game
//! cannot do by deciding. The driver draws the screen, reads keys, starts
//! the compiler and the player's program, and reads floors from disk. It
//! hands what it got to the library and does what the library asks next:
//!
//! * [`compiler`] judges a candidate from how the compiler and the program
//!   ended.
//! * [`puzzle`] holds the rooms, says which files of a floor are rooms and
//!   in which order, and checks what was read.
//! * [`game`] is the progression engine: [`App`] takes key presses and
//!   verdicts, keeps the player's health, gold, items and lore, guards the
//!   locked lines of a room, and answers each key press with a [`Request`]
//!   to the driver.
//! * [`editor`] is the code editor, a text area of the `tui-textarea` crate
//!   behind contracts.
//! * [`text`] is the text handling that all of it rests on.
//!
//! Every function of the library is verified against its contract, but for
//! the calls into the text area, whose contracts are believed, as is one on
//! `String::push`.

pub mod compiler;
pub mod editor;
pub mod game;
pub mod puzzle;
pub mod text;

pub use compiler::{
    after_compile, after_run, clean_error_output, CompileResult, ProcessEnd, Step, SystemError,
    ValidationResult,
};
pub use game::{
    App, Color, GameState, Gate, KeyCode, KeyPress, MenuOption, MessageStyle, PlayerState, Request,
};
pub use puzzle::{
    check_room, is_room_file, load_floor, room_files, Challenge, CodexEntry, LoadError, Narrative,
    Rewards, Room, RoomMeta, Scoring,
};
