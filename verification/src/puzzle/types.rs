//! The data of a room: its story, its challenge, and what clearing it is worth.

use vstd::prelude::*;
use vstd::string::*;
use crate::text::{lines, trim};

verus! {

/// One puzzle: a broken program to mend, with the story around it.
#[derive(Debug)]
pub struct Room {
    pub meta: RoomMeta,
    pub narrative: Narrative,
    pub challenge: Challenge,
    pub scoring: Option<Scoring>,
    pub rewards: Option<Rewards>,
    pub codex: Option<CodexEntry>,
}

/// An entry of the codex: a piece of lore that clearing a room unlocks.
#[derive(Debug)]
pub struct CodexEntry {
    pub title: String,
    pub description: String,
}

/// What identifies a room and names it on screen.
#[derive(Debug)]
pub struct RoomMeta {
    pub id: String,
    pub room_number: u32,
    pub title: String,
    pub concept: String,
}

/// The texts of a room.
#[derive(Debug)]
pub struct Narrative {
    /// Shown on the way in from the previous room, before the room is loaded.
    pub entry: Option<String>,
    /// Shown beside the editor while the room is being solved.
    pub intro: String,
    pub success: String,
    pub failure_compile: String,
    pub failure_output: String,
    /// Revealed one by one, in this order.
    pub hints: Vec<String>,
    pub alternative_solution: Option<String>,
}

/// What clearing a room puts into the inventory.
#[derive(Debug)]
pub struct Rewards {
    pub grants_item: Option<String>,
    pub item_description: Option<String>,
}

/// The program to mend and what it must print.
#[derive(Debug)]
pub struct Challenge {
    /// The starting source text.
    pub code: String,
    pub expected_output: String,
    /// The lines that may not be edited, numbered from 1.
    pub locked_lines: Vec<usize>,
}

/// Health penalties that a room sets in place of the defaults.
#[derive(Debug)]
pub struct Scoring {
    pub par_time_seconds: Option<u32>,
    pub hint_penalty_hp: Option<u32>,
    pub wrong_answer_penalty_hp: Option<u32>,
}

impl Clone for CodexEntry {
    fn clone(&self) -> (copy: Self)
        ensures
            copy.title@ == self.title@,
            copy.description@ == self.description@,
    {
        CodexEntry { title: self.title.clone(), description: self.description.clone() }
    }
}

impl Default for Rewards {
    fn default() -> (rewards: Self)
        ensures
            rewards.grants_item is None,
            rewards.item_description is None,
    {
        Rewards { grants_item: None, item_description: None }
    }
}

/// The health that a wrong answer costs where the room does not say.
pub const DEFAULT_WRONG_ANSWER_PENALTY: u32 = 2;

/// The health that a hint costs where the room does not say.
pub const DEFAULT_HINT_PENALTY: u32 = 5;

impl Challenge {
    /// The starting code as the editor shows it: trimmed, line by line.
    pub open spec fn starting_lines(self) -> Seq<Seq<char>> {
        lines(trim(self.code@))
    }

    /// The challenge has a program and an expected output, and every locked
    /// line is a line of the starting code.
    pub open spec fn well_formed(self) -> bool {
        &&& self.code@.len() > 0
        &&& self.expected_output@.len() > 0
        &&& forall|i: int|
            0 <= i < self.locked_lines@.len() ==> 1 <= #[trigger] self.locked_lines@[i]
                <= self.starting_lines().len()
    }
}

impl Room {
    /// The invariant of a room that a floor may hold.
    pub open spec fn well_formed(self) -> bool {
        self.challenge.well_formed()
    }

    /// The health that a wrong answer costs in this room.
    pub open spec fn wrong_answer_penalty(self) -> u32 {
        match self.scoring {
            Some(scoring) => match scoring.wrong_answer_penalty_hp {
                Some(penalty) => penalty,
                None => DEFAULT_WRONG_ANSWER_PENALTY,
            },
            None => DEFAULT_WRONG_ANSWER_PENALTY,
        }
    }

    /// The health that a hint costs in this room.
    pub open spec fn hint_penalty(self) -> u32 {
        match self.scoring {
            Some(scoring) => match scoring.hint_penalty_hp {
                Some(penalty) => penalty,
                None => DEFAULT_HINT_PENALTY,
            },
            None => DEFAULT_HINT_PENALTY,
        }
    }

    /// The item that clearing this room grants, if it grants one.
    pub open spec fn granted_item(self) -> Option<Seq<char>> {
        match self.rewards {
            Some(rewards) => match rewards.grants_item {
                Some(item) => Some(item@),
                None => None,
            },
            None => None,
        }
    }

    /// The lore that clearing this room unlocks, if it unlocks any: title
    /// and description.
    pub open spec fn lore_entry(self) -> Option<(Seq<char>, Seq<char>)> {
        match self.codex {
            Some(entry) => Some((entry.title@, entry.description@)),
            None => None,
        }
    }

    /// The health that a wrong answer costs in this room: what its scoring
    /// says, or the default.
    pub fn penalty_for_wrong_answer(&self) -> (penalty: u32)
        ensures
            penalty == self.wrong_answer_penalty(),
    {
        match &self.scoring {
            Some(scoring) => match scoring.wrong_answer_penalty_hp {
                Some(penalty) => penalty,
                None => DEFAULT_WRONG_ANSWER_PENALTY,
            },
            None => DEFAULT_WRONG_ANSWER_PENALTY,
        }
    }

    /// The health that a hint costs in this room: what its scoring says, or
    /// the default.
    pub fn penalty_for_hint(&self) -> (penalty: u32)
        ensures
            penalty == self.hint_penalty(),
    {
        match &self.scoring {
            Some(scoring) => match scoring.hint_penalty_hp {
                Some(penalty) => penalty,
                None => DEFAULT_HINT_PENALTY,
            },
            None => DEFAULT_HINT_PENALTY,
        }
    }
}

} // verus!
