//! Going from floor to floor. The driver loads the rooms of a floor; here
//! they are taken in, or refused.

use vstd::prelude::*;
use vstd::string::*;
use crate::game::app::App;
use crate::game::messages::{
    cannot_proceed_message, cannot_proceed_text, load_failure_message, load_failure_text,
    no_rooms_message, no_rooms_text, no_such_level_message, no_such_level_text,
};
use crate::game::state::{Color, MessageStyle, PlayerState};
use crate::puzzle::loader::LoadError;
use crate::puzzle::types::Room;

verus! {

/// The deepest floor of the dungeon.
pub const LAST_LEVEL: usize = 3;

/// The directory that holds the rooms of floor `level`.
pub open spec fn floor_directory(level: nat) -> Option<Seq<char>> {
    if level == 1 {
        Some("floor_01_ownership"@)
    } else if level == 2 {
        Some("floor_02_borrowing"@)
    } else if level == 3 {
        Some("floor_03_patterns"@)
    } else {
        None
    }
}

/// The name of the directory that holds the rooms of floor `level`, or
/// `None` where the dungeon has no such floor.
pub fn floor_name(level: usize) -> (name: Option<&'static str>)
    ensures
        match name {
            Some(text) => floor_directory(level as nat) == Some(text@),
            None => floor_directory(level as nat) is None,
        },
{
    if level == 1 {
        Some("floor_01_ownership")
    } else if level == 2 {
        Some("floor_02_borrowing")
    } else if level == 3 {
        Some("floor_03_patterns")
    } else {
        None
    }
}

impl App {
    /// Why floor `level` cannot be entered with what was loaded for it, or
    /// `None` where it can: the dungeon has such a floor, and what was
    /// loaded is at least one room.
    pub open spec fn level_refusal(level: usize, loaded: Result<Vec<Room>, LoadError>) -> Option<
        Seq<char>,
    > {
        if floor_directory(level as nat) is None {
            Some(no_such_level_text(level as nat))
        } else {
            match loaded {
                Ok(rooms) => if rooms@.len() == 0 {
                    Some(no_rooms_text(level as nat))
                } else {
                    None
                },
                Err(LoadError::EmptyFloor) => Some(no_rooms_text(level as nat)),
                Err(error) => Some(load_failure_text(level as nat, error.text())),
            }
        }
    }

    /// What entering floor `level` makes of the game: the player stands in
    /// the first of its rooms, and the counts of hints and compile errors on
    /// the floor start again. Health, gold, items and lore come along.
    pub open spec fn level_loaded(pre: App, level: usize, rooms: Vec<Room>, post: App) -> bool {
        Self::room_loaded(
            App {
                rooms,
                current_level: level,
                current_room: 0,
                player: PlayerState {
                    hints_used_total: 0,
                    compile_errors_total: 0,
                    ..pre.player
                },
                ..pre
            },
            0,
            post,
        )
    }

    /// Enters floor `level` with the rooms that were loaded for it. Where
    /// that cannot be, the game stays as it is and the reason is returned.
    pub fn load_level(&mut self, level: usize, loaded: Result<Vec<Room>, LoadError>) -> (r: Result<
        (),
        String,
    >)
        requires
            old(self).well_formed(),
        ensures
            final(self).well_formed(),
            match Self::level_refusal(level, loaded) {
                Some(reason) => r is Err && r->Err_0@ == reason && *final(self) == *old(self),
                None => r is Ok && Self::level_loaded(
                    *old(self),
                    level,
                    loaded->Ok_0,
                    *final(self),
                ),
            },
    {
        if floor_name(level).is_none() {
            return Err(no_such_level_message(level));
        }
        match loaded {
            Ok(rooms) => {
                if rooms.len() == 0 {
                    return Err(no_rooms_message(level));
                }
                self.rooms = rooms;
                self.current_level = level;
                self.current_room = 0;
                self.player.hints_used_total = 0;
                self.player.compile_errors_total = 0;
                self.load_room(0);
                Ok(())
            },
            Err(LoadError::EmptyFloor) => Err(no_rooms_message(level)),
            Err(error) => {
                let reason = error.message();
                Err(load_failure_message(level, reason.as_str()))
            },
        }
    }

    /// What the arrival of a floor makes of the game: the floor is entered,
    /// or the game stays where it is and the message says why.
    pub open spec fn level_entered(
        pre: App,
        level: usize,
        loaded: Result<Vec<Room>, LoadError>,
        post: App,
    ) -> bool {
        match Self::level_refusal(level, loaded) {
            Some(reason) => Self::told(
                pre,
                post,
                cannot_proceed_text(reason),
                MessageStyle::plain(Color::Red),
            ),
            None => Self::level_loaded(pre, level, loaded->Ok_0, post),
        }
    }

    /// Takes the floor that the driver loaded on a request to load floor
    /// `level`.
    pub fn enter_level(&mut self, level: usize, loaded: Result<Vec<Room>, LoadError>)
        requires
            old(self).well_formed(),
        ensures
            final(self).well_formed(),
            Self::level_entered(*old(self), level, loaded, *final(self)),
    {
        match self.load_level(level, loaded) {
            Ok(()) => {},
            Err(reason) => {
                self.message = cannot_proceed_message(reason.as_str());
                self.message_style = MessageStyle::of(Color::Red);
            },
        }
    }

    /// What the arrival of the first floor for a new game makes of the
    /// game: a new game on that floor, or the game stays where it is and the
    /// message says why.
    pub open spec fn restarted(pre: App, loaded: Result<Vec<Room>, LoadError>, post: App) -> bool {
        match Self::level_refusal(1, loaded) {
            Some(reason) => Self::told(
                pre,
                post,
                cannot_proceed_text(reason),
                MessageStyle::plain(Color::Red),
            ),
            None => Self::started(App { rooms: loaded->Ok_0, ..pre }, post),
        }
    }

    /// Takes the first floor that the driver loaded on a request to
    /// restart.
    pub fn restart(&mut self, loaded: Result<Vec<Room>, LoadError>)
        requires
            old(self).well_formed(),
        ensures
            final(self).well_formed(),
            Self::restarted(*old(self), loaded, *final(self)),
    {
        match self.load_level(1, loaded) {
            Ok(()) => {
                self.start_game();
            },
            Err(reason) => {
                self.message = cannot_proceed_message(reason.as_str());
                self.message_style = MessageStyle::of(Color::Red);
            },
        }
    }
}

} // verus!
