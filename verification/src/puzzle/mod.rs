//! Rooms, floors and how a floor is put together from its room definitions.

pub mod loader;
pub mod types;

pub use loader::{check_room, is_room_file, load_floor, room_files, LoadError};
pub use types::{Challenge, CodexEntry, Narrative, Rewards, Room, RoomMeta, Scoring};
