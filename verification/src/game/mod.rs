//! The progression engine: the game's state, and what each command and each
//! verdict does to it.

pub mod app;
pub mod editing;
pub mod floors;
pub mod guarantees;
pub mod keys;
pub mod messages;
pub mod state;
pub mod view;

pub use app::App;
pub use floors::{floor_name, LAST_LEVEL};
pub use keys::{parse_command, Command};
pub use view::{health_color, MessageBox, Paint};
pub use state::{
    Color, GameState, Gate, KeyCode, KeyPress, MenuOption, MessageStyle, PlayerState, Request,
};
