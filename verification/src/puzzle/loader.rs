//! Putting a floor together.
//!
//! A floor is a directory whose room definitions are the files named
//! `room_<NN>.toml`, taken in the order of their names. Reading the directory
//! and the files is the driver's part; which files count, in which order they
//! are taken, and whether what was read makes a floor, is decided here.

use vstd::prelude::*;
use vstd::string::*;
use crate::puzzle::types::Room;
use vstd::seq_lib::{to_multiset_build, to_multiset_insert};
use crate::text::{
    ascending, decimal, ends_with, in_order, lemma_precedes_total, lemma_precedes_transitive,
    line_count, matches_at, precedes, push_decimal, starts_with, texts, to_chars, trimmed,
};

verus! {

/// Why a floor could not be loaded.
#[derive(Debug)]
pub enum LoadError {
    /// A room definition could not be read or understood.
    Malformed { reason: String },
    /// A room has no program to mend.
    EmptyCode { room: String },
    /// A room does not say what its program must print.
    EmptyExpectedOutput { room: String },
    /// A room locks a line that its starting code does not have.
    LockedLineOutOfRange { room: String, line: usize },
    /// The floor has no rooms.
    EmptyFloor,
}

impl LoadError {
    /// The error in words.
    pub open spec fn text(self) -> Seq<char> {
        match self {
            LoadError::Malformed { reason } => reason@,
            LoadError::EmptyCode { room } => "room "@ + room@ + " has no code"@,
            LoadError::EmptyExpectedOutput { room } => "room "@ + room@
                + " has no expected output"@,
            LoadError::LockedLineOutOfRange { room, line } => "room "@ + room@ + " locks line "@
                + decimal(line as nat) + ", which its code does not have"@,
            LoadError::EmptyFloor => "the floor has no rooms"@,
        }
    }

    /// The error in words.
    pub fn message(&self) -> (m: String)
        ensures
            m@ == self.text(),
    {
        match self {
            LoadError::Malformed { reason } => reason.clone(),
            LoadError::EmptyCode { room } => {
                let mut m = String::from_str("room ");
                m.append(room.as_str());
                m.append(" has no code");
                m
            },
            LoadError::EmptyExpectedOutput { room } => {
                let mut m = String::from_str("room ");
                m.append(room.as_str());
                m.append(" has no expected output");
                m
            },
            LoadError::LockedLineOutOfRange { room, line } => {
                let mut m = String::from_str("room ");
                m.append(room.as_str());
                m.append(" locks line ");
                push_decimal(&mut m, *line as u64);
                m.append(", which its code does not have");
                m
            },
            LoadError::EmptyFloor => String::from_str("the floor has no rooms"),
        }
    }
}

/// Whether a file of this name holds a room definition.
pub open spec fn names_room(name: Seq<char>) -> bool {
    starts_with(name, "room_"@) && ends_with(name, ".toml"@)
}

/// Whether a file of this name holds a room definition: its name begins with
/// `room_` and ends with `.toml`.
pub fn is_room_file(name: &str) -> (b: bool)
    ensures
        b == names_room(name@),
{
    let v = to_chars(name);
    let prefix = to_chars("room_");
    let suffix = to_chars(".toml");
    assert(v@.subrange(0, v@.len() as int) =~= v@);
    if suffix.len() > v.len() {
        return false;
    }
    matches_at(&v, 0, v.len(), &prefix, 0) && matches_at(
        &v,
        0,
        v.len(),
        &suffix,
        v.len() - suffix.len(),
    )
}

/// The file names that hold room definitions.
pub open spec fn room_names() -> spec_fn(Seq<char>) -> bool {
    |name: Seq<char>| names_room(name)
}

/// The files of a floor that hold its rooms, in the order in which the
/// rooms follow each other: those of `names` that are named as room
/// definitions, by name.
pub fn room_files(names: &Vec<String>) -> (files: Vec<String>)
    ensures
        ascending(texts(files@)),
        texts(files@).to_multiset() == texts(names@).filter(room_names()).to_multiset(),
{
    let mut files: Vec<String> = Vec::new();
    let mut i: usize = 0;
    proof {
        texts(names@).take(0).lemma_filter_len(room_names());
        assert(texts(names@).take(0).filter(room_names()) =~= Seq::<Seq<char>>::empty());
        assert(texts(files@) =~= Seq::<Seq<char>>::empty());
    }
    while i < names.len()
        invariant
            i <= names.len(),
            ascending(texts(files@)),
            texts(files@).to_multiset() == texts(names@).take(i as int).filter(
                room_names(),
            ).to_multiset(),
        decreases names.len() - i,
    {
        let ghost seen = texts(names@).take(i as int);
        let ghost name = names@[i as int]@;
        proof {
            assert(texts(names@).take(i + 1) =~= seen.push(name));
            Seq::lemma_filter_push(seen, name, room_names());
        }
        if is_room_file(names[i].as_str()) {
            let ghost before = texts(files@);
            let mut at: usize = 0;
            while at < files.len() && in_order(files[at].as_str(), names[i].as_str())
                invariant
                    at <= files.len(),
                    i < names.len(),
                    name == names@[i as int]@,
                    before == texts(files@),
                    forall|j: int| 0 <= j < at ==> precedes(#[trigger] before[j], name),
                decreases files.len() - at,
            {
                at += 1;
            }
            files.insert(at, names[i].clone());
            proof {
                let after = texts(files@);
                assert(after =~= before.insert(at as int, name));
                to_multiset_insert(before, at as int, name);
                to_multiset_build(seen.filter(room_names()), name);
                assert forall|j: int, k: int| 0 <= j < k < after.len() implies precedes(
                    #[trigger] after[j],
                    #[trigger] after[k],
                ) by {
                    if k == at {
                        assert(after[j] == before[j]);
                    } else if j == at {
                        assert(after[k] == before[k - 1]);
                        lemma_precedes_total(before[at as int], name);
                        if k - 1 > at {
                            lemma_precedes_transitive(name, before[at as int], before[k - 1]);
                        }
                    } else {
                        let bj = if j < at {
                            j
                        } else {
                            j - 1
                        };
                        let bk = if k < at {
                            k
                        } else {
                            k - 1
                        };
                        assert(after[j] == before[bj]);
                        assert(after[k] == before[bk]);
                    }
                }
            }
        }
        i += 1;
    }
    assert(texts(names@).take(i as int) =~= texts(names@));
    files
}

/// What is wrong with a room, if anything is: it has no code, or it does
/// not say what to print, or it locks a line that its starting code does
/// not have. The first of these that holds is named.
pub open spec fn defect(room: Room) -> Option<LoadError> {
    if room.challenge.code@.len() == 0 {
        Some(LoadError::EmptyCode { room: room.meta.id })
    } else if room.challenge.expected_output@.len() == 0 {
        Some(LoadError::EmptyExpectedOutput { room: room.meta.id })
    } else {
        match first_stray(room.challenge.locked_lines@, room.challenge.starting_lines().len()) {
            Some(line) => Some(LoadError::LockedLineOutOfRange { room: room.meta.id, line }),
            None => None,
        }
    }
}

/// The first of the line numbers that is none of a text of `count` lines.
pub open spec fn first_stray(locked: Seq<usize>, count: nat) -> Option<usize>
    decreases locked.len(),
{
    if locked.len() == 0 {
        None
    } else if !(1 <= locked[0] <= count) {
        Some(locked[0])
    } else {
        first_stray(locked.skip(1), count)
    }
}

/// No line number is stray exactly where each is a line of the text.
pub proof fn lemma_no_stray(locked: Seq<usize>, count: nat)
    ensures
        first_stray(locked, count) is None <==> forall|i: int|
            0 <= i < locked.len() ==> 1 <= #[trigger] locked[i] <= count,
    decreases locked.len(),
{
    if locked.len() > 0 {
        lemma_no_stray(locked.skip(1), count);
        if first_stray(locked, count) is None {
            assert forall|i: int| 0 <= i < locked.len() implies 1 <= #[trigger] locked[i]
                <= count by {
                if i > 0 {
                    assert(locked.skip(1)[i - 1] == locked[i]);
                }
            }
        } else if 1 <= locked[0] <= count {
            let i = choose|i: int|
                0 <= i < locked.skip(1).len() && !(1 <= #[trigger] locked.skip(1)[i] <= count);
            assert(locked[i + 1] == locked.skip(1)[i]);
        }
    }
}

/// Checks that a room keeps the invariant of rooms.
pub fn check_room(room: &Room) -> (r: Result<(), LoadError>)
    ensures
        r == match defect(*room) {
            Some(error) => Err::<(), LoadError>(error),
            None => Ok(()),
        },
        r is Ok <==> room.well_formed(),
{
    proof {
        lemma_no_stray(room.challenge.locked_lines@, room.challenge.starting_lines().len());
    }
    if room.challenge.code.as_str().is_empty() {
        return Err(LoadError::EmptyCode { room: room.meta.id.clone() });
    }
    if room.challenge.expected_output.as_str().is_empty() {
        return Err(LoadError::EmptyExpectedOutput { room: room.meta.id.clone() });
    }
    let shown = trimmed(room.challenge.code.as_str());
    let count = line_count(shown.as_str());
    let locked = &room.challenge.locked_lines;
    let mut i: usize = 0;
    assert(locked@.skip(0) =~= locked@);
    while i < locked.len()
        invariant
            i <= locked.len(),
            locked@ == room.challenge.locked_lines@,
            count == room.challenge.starting_lines().len(),
            room.challenge.code@.len() > 0,
            room.challenge.expected_output@.len() > 0,
            first_stray(locked@, count as nat) == first_stray(locked@.skip(i as int), count as nat),
            first_stray(locked@, count as nat) is None <==> forall|i: int|
                0 <= i < locked@.len() ==> 1 <= #[trigger] locked@[i] <= count,
        decreases locked.len() - i,
    {
        let line = locked[i];
        assert(locked@.skip(i as int)[0] == line);
        if line < 1 || line > count {
            return Err(LoadError::LockedLineOutOfRange { room: room.meta.id.clone(), line });
        }
        assert(locked@.skip(i as int).skip(1) =~= locked@.skip(i + 1));
        i += 1;
    }
    Ok(())
}

/// What stands in the way of a room: that it could not be read, or what is
/// wrong with it.
pub open spec fn failure(entry: Result<Room, LoadError>) -> Option<LoadError> {
    match entry {
        Err(error) => Some(error),
        Ok(room) => defect(room),
    }
}

/// The first failure among the rooms of a floor.
pub open spec fn first_failure(entries: Seq<Result<Room, LoadError>>) -> Option<LoadError>
    decreases entries.len(),
{
    if entries.len() == 0 {
        None
    } else {
        match failure(entries[0]) {
            Some(error) => Some(error),
            None => first_failure(entries.skip(1)),
        }
    }
}

/// The rooms that were read.
pub open spec fn rooms_of(entries: Seq<Result<Room, LoadError>>) -> Seq<Room> {
    Seq::new(entries.len(), |i: int| entries[i]->Ok_0)
}

/// The floor that the room definitions make, taken in order: its rooms, or
/// the first failure among them, or that there are none.
pub open spec fn floor_of(entries: Seq<Result<Room, LoadError>>) -> Result<Seq<Room>, LoadError> {
    match first_failure(entries) {
        Some(error) => Err(error),
        None => if entries.len() == 0 {
            Err(LoadError::EmptyFloor)
        } else {
            Ok(rooms_of(entries))
        },
    }
}

/// Puts a floor together from its room definitions as they were read, in
/// the order of `room_files`. The floor has at least one room and every room
/// keeps the invariant of rooms; the first definition that could not be
/// read, or whose room does not keep it, fails the floor.
pub fn load_floor(entries: Vec<Result<Room, LoadError>>) -> (floor: Result<Vec<Room>, LoadError>)
    ensures
        match floor {
            Ok(rooms) => {
                &&& floor_of(entries@) == Ok::<Seq<Room>, LoadError>(rooms@)
                &&& rooms@.len() > 0
                &&& forall|i: int| 0 <= i < rooms@.len() ==> (#[trigger] rooms@[i]).well_formed()
            },
            Err(error) => floor_of(entries@) == Err::<Seq<Room>, LoadError>(error),
        },
{
    let mut rest = entries;
    let mut rooms: Vec<Room> = Vec::new();
    let ghost mut done: int = 0;
    assert(entries@.skip(0) =~= entries@);
    while rest.len() > 0
        invariant
            0 <= done <= entries@.len(),
            rest@ == entries@.skip(done),
            rooms@ == rooms_of(entries@.take(done)),
            first_failure(entries@) == first_failure(entries@.skip(done)),
            forall|i: int| 0 <= i < rooms@.len() ==> (#[trigger] rooms@[i]).well_formed(),
        decreases rest.len(),
    {
        let entry = rest.remove(0);
        assert(entry == entries@[done]);
        assert(rest@ =~= entries@.skip(done + 1));
        assert(entries@.skip(done).skip(1) =~= entries@.skip(done + 1));
        match entry {
            Err(error) => {
                return Err(error);
            },
            Ok(room) => {
                match check_room(&room) {
                    Err(error) => {
                        return Err(error);
                    },
                    Ok(()) => {
                        rooms.push(room);
                        assert(rooms@ =~= rooms_of(entries@.take(done + 1)));
                    },
                }
            },
        }
        proof {
            done = done + 1;
        }
    }
    assert(entries@.take(done) =~= entries@);
    if rooms.len() == 0 {
        return Err(LoadError::EmptyFloor);
    }
    Ok(rooms)
}

} // verus!
