//! The texts that the engine shows. Each is given twice: as the sequence of
//! characters that contracts speak of, and, below that, as the function
//! that builds the string.

use vstd::prelude::*;
use vstd::string::*;
use crate::puzzle::types::Room;
use crate::text::{
    decimal, join, lemma_join_push, lines, pad_left, push_decimal, push_decimal_padded, texts,
    trim, trimmed,
};

verus! {

/// Shown when a room is loaded.
pub const ROOM_INTRO: &'static str = "Fix the code. The compiler will guide you...";

/// The refusal to edit a locked line.
pub const SEALED_LINE: &'static str = "That line is sealed by ancient magic. It cannot be changed.";

/// The refusal to paste on a locked line.
pub const LOCKED_PASTE: &'static str = "Cannot paste on a locked line.";

/// Shown when there is nothing to paste.
pub const NOTHING_TO_PASTE: &'static str = "Nothing to paste. Use Ctrl+Y to yank a line first.";

/// Shown after a paste.
pub const PASTED: &'static str = "Pasted line below.";

/// Shown when every hint of the room has been given.
pub const NO_MORE_HINTS: &'static str = "No more hints available. You're on your own...";

/// Shown on the way back from a cleared room to its editor.
pub const RESUME: &'static str = "Press F5 to run your solution.";

/// The answer to `:w`.
pub const NO_SAVE: &'static str = "There is no save... only survival.";

/// The answer to `:help`.
pub const COMMAND_HELP: &'static str = "Commands: :q :keys :inv :codex :hint | Type :? for all shortcuts";

/// Shown in place of an empty codex.
pub const EMPTY_CODEX: &'static str = "Your codex is empty. Solve puzzles to learn!";

/// What `:xyzzy` finds in the right room.
pub const SECRET_ROOM: &'static str = "*** SECRET ROOM ***\n\nYou stand in a room with walls of pure code.\nFlickering runes on the floor read:\n\n   'Made by Bradleyd Smith'   ";

/// What `:xyzzy` finds anywhere else.
pub const NOTHING_HAPPENS: &'static str = "A hollow voice whispers... 'Nothing happens here.'";

/// The answer to Esc while solving.
pub const QUIT_HINT: &'static str = "Type :q to quit";

/// Shown when the player's health is used up.
pub const GAME_OVER: &'static str = "OWNED\n\nThe borrow checker wins. Your HP has reached zero.";

/// The inventory screen of a player who holds nothing.
pub const EMPTY_INVENTORY: &'static str = "🎒 INVENTORY\n\n  (empty)\n\n  Your bag is light. Solve puzzles to collect artifacts!";

/// The list of keys, up to the name of the scroll keys.
pub const KEYS_HELP_HEAD: &'static str = "KEYBOARD SHORTCUTS\n\n GAME\n  F5 / Ctrl+R   Run code\n  F1            Show hint (-5 HP)\n  ";

/// The list of keys, from the name of the scroll keys on.
pub const KEYS_HELP_TAIL: &'static str = "       Scroll messages\n  :             Enter command mode\n\n NAVIGATION\n  ←↑↓→          Move cursor\n  Home/End      Start/end of line\n  Ctrl+←/→      Jump by word\n  Ctrl+Home/End Start/end of file\n\n EDITING\n  Ctrl+Z        Undo\n  Ctrl+Shift+Z  Redo\n  Ctrl+Y        Yank (copy) line\n  Ctrl+P        Paste line below\n  Ctrl+D        Delete entire line\n  Ctrl+K        Delete to end of line\n  Ctrl+U        Delete to start of line\n  Ctrl+W        Delete word before cursor\n\n COMMANDS (:)\n  :q            Quit game\n  :keys         This help screen\n  :inv          Show inventory\n  :codex        Open Codex\n  :5            Jump to line 5\n  :top :bot     Jump to start/end";

/// The keys that scroll the messages on most keyboards.
pub const SCROLL_KEYS: &'static str = "PgUp/Dn";

/// The keys that scroll the messages on a Mac.
pub const SCROLL_KEYS_MAC: &'static str = "Fn+↑/↓";

/// Shown when the candidate did not end within its time.
pub const TIMED_OUT: &'static str = "Time ran out, and your program was stopped.\n\nIs there a loop that never ends?";

/// The text of a string constant as a new string.
pub fn fixed(text: &'static str) -> (s: String)
    ensures
        s@ == text@,
{
    String::from_str(text)
}

/// The hint `hint` as it is shown.
pub open spec fn hint_text(hint: Seq<char>) -> Seq<char> {
    "HINT: "@ + hint
}

pub(crate) fn hint_message(hint: &str) -> (m: String)
    ensures
        m@ == hint_text(hint@),
{
    let mut m = String::from_str("HINT: ");
    m.append(hint);
    m
}

/// The entry text of a room as it is shown on the way in.
pub open spec fn transition_text(entry: Seq<char>) -> Seq<char> {
    trim(entry) + "\n\n─────────────────────────────────\nPress ENTER to continue..."@
}

pub(crate) fn transition_message(entry: &str) -> (m: String)
    ensures
        m@ == transition_text(entry@),
{
    let mut m = trimmed(entry);
    m.append("\n\n─────────────────────────────────\nPress ENTER to continue...");
    m
}

/// What a closed gate says: that the way down is barred without `item`.
pub open spec fn gate_text(item: Seq<char>) -> Seq<char> {
    "The twin doors swing open, but an invisible barrier blocks your path.\n\n\"You cannot pass without the "@
        + item
        + ". There is knowledge\ninscribed upon it that you will need in the depths below.\"\n\nPerhaps you missed something in an earlier chamber..."@
}

pub(crate) fn gate_message(item: &str) -> (m: String)
    ensures
        m@ == gate_text(item@),
{
    let mut m = String::from_str(
        "The twin doors swing open, but an invisible barrier blocks your path.\n\n\"You cannot pass without the ",
    );
    m.append(item);
    m.append(
        ". There is knowledge\ninscribed upon it that you will need in the depths below.\"\n\nPerhaps you missed something in an earlier chamber...",
    );
    m
}

/// The announcement of the item that a room grants, or nothing where it
/// grants none. An item without a description is a mysterious artifact.
pub open spec fn reward_notice(room: Room) -> Seq<char> {
    match room.rewards {
        Some(rewards) => match rewards.grants_item {
            Some(item) => "\n\n** ITEM ACQUIRED: "@ + item@ + " **\n"@ + (match rewards.item_description {
                Some(description) => description@,
                None => "A mysterious artifact"@,
            }),
            None => ""@,
        },
        None => ""@,
    }
}

pub(crate) fn reward_notice_message(room: &Room) -> (m: String)
    ensures
        m@ == reward_notice(*room),
{
    match &room.rewards {
        Some(rewards) => match &rewards.grants_item {
            Some(item) => {
                let mut m = String::from_str("\n\n** ITEM ACQUIRED: ");
                m.append(item.as_str());
                m.append(" **\n");
                match &rewards.item_description {
                    Some(description) => m.append(description.as_str()),
                    None => m.append("A mysterious artifact"),
                }
                m
            },
            None => String::from_str(""),
        },
        None => String::from_str(""),
    }
}

/// The announcement of the lore that a room unlocks, or nothing where it
/// unlocks none.
pub open spec fn lore_notice(room: Room) -> Seq<char> {
    match room.codex {
        Some(entry) => "\n\n** CODEX UPDATED: "@ + entry.title@
            + " **\nType :codex to review your knowledge."@,
        None => ""@,
    }
}

pub(crate) fn lore_notice_message(room: &Room) -> (m: String)
    ensures
        m@ == lore_notice(*room),
{
    match &room.codex {
        Some(entry) => {
            let mut m = String::from_str("\n\n** CODEX UPDATED: ");
            m.append(entry.title.as_str());
            m.append(" **\nType :codex to review your knowledge.");
            m
        },
        None => String::from_str(""),
    }
}

/// The note on another way to solve a room, or nothing where it has none.
pub open spec fn alternative_notice(room: Room) -> Seq<char> {
    match room.narrative.alternative_solution {
        Some(note) => "\n\nALTERNATIVE APPROACH: "@ + note@,
        None => ""@,
    }
}

pub(crate) fn alternative_notice_message(room: &Room) -> (m: String)
    ensures
        m@ == alternative_notice(*room),
{
    match &room.narrative.alternative_solution {
        Some(note) => {
            let mut m = String::from_str("\n\nALTERNATIVE APPROACH: ");
            m.append(note.as_str());
            m
        },
        None => String::from_str(""),
    }
}

/// What is shown when `room` is cleared for `earned` gold. A room cleared
/// without a hint is cleared perfectly.
pub open spec fn cleared_text(earned: nat, perfect: bool, room: Room) -> Seq<char> {
    "*** ROOM CLEARED! ***  +"@ + decimal(earned) + " gold"@ + (if perfect {
        " (perfect!)"@
    } else {
        ""@
    }) + "  [ Press ENTER ]\n\n"@ + room.narrative.success@ + reward_notice(room) + lore_notice(room)
        + alternative_notice(room)
}

pub(crate) fn cleared_message(earned: u32, perfect: bool, room: &Room) -> (m: String)
    ensures
        m@ == cleared_text(earned as nat, perfect, *room),
{
    let mut m = String::from_str("*** ROOM CLEARED! ***  +");
    push_decimal(&mut m, earned as u64);
    m.append(" gold");
    m.append(
        if perfect {
            " (perfect!)"
        } else {
            ""
        },
    );
    m.append("  [ Press ENTER ]\n\n");
    m.append(room.narrative.success.as_str());
    let reward = reward_notice_message(room);
    m.append(reward.as_str());
    let lore = lore_notice_message(room);
    m.append(lore.as_str());
    let alternative = alternative_notice_message(room);
    m.append(alternative.as_str());
    m
}

/// What is shown when the candidate does not compile: the room's text for
/// that, and the diagnostics.
pub open spec fn compile_failure_text(room: Room, diagnostics: Seq<char>) -> Seq<char> {
    room.narrative.failure_compile@ + "\n\n"@ + diagnostics
}

pub(crate) fn compile_failure_message(room: &Room, diagnostics: &str) -> (m: String)
    ensures
        m@ == compile_failure_text(*room, diagnostics@),
{
    let mut m = room.narrative.failure_compile.clone();
    m.append("\n\n");
    m.append(diagnostics);
    m
}

/// The remark on the number of lines printed, where it is not the number
/// expected.
pub open spec fn line_count_remark(got: nat, expected: nat) -> Seq<char> {
    if got > expected {
        "\n\n(Your output has "@ + decimal(got) + " lines, expected "@ + decimal(expected)
            + "—are you printing too much?)"@
    } else if got < expected {
        "\n\n(Your output has "@ + decimal(got) + " lines, expected "@ + decimal(expected)
            + "—are you missing something?)"@
    } else {
        ""@
    }
}

pub(crate) fn line_count_remark_message(got: usize, expected: usize) -> (m: String)
    ensures
        m@ == line_count_remark(got as nat, expected as nat),
{
    if got == expected {
        return String::from_str("");
    }
    let mut m = String::from_str("\n\n(Your output has ");
    push_decimal(&mut m, got as u64);
    m.append(" lines, expected ");
    push_decimal(&mut m, expected as u64);
    if got > expected {
        m.append("—are you printing too much?)");
    } else {
        m.append("—are you missing something?)");
    }
    m
}

/// What is shown when the program prints something else than expected: the
/// room's text for that, both outputs, and a remark where they differ in
/// their number of lines.
pub open spec fn wrong_output_text(room: Room, expected: Seq<char>, got: Seq<char>) -> Seq<char> {
    room.narrative.failure_output@ + "\n\nExpected:\n"@ + expected + "\n\nGot:\n"@ + got
        + line_count_remark(lines(got).len(), lines(expected).len())
}

pub(crate) fn wrong_output_message(room: &Room, expected: &str, got: &str) -> (m: String)
    ensures
        m@ == wrong_output_text(*room, expected@, got@),
{
    let mut m = room.narrative.failure_output.clone();
    m.append("\n\nExpected:\n");
    m.append(expected);
    m.append("\n\nGot:\n");
    m.append(got);
    let remark = line_count_remark_message(
        crate::text::line_count(got),
        crate::text::line_count(expected),
    );
    m.append(remark.as_str());
    m
}

/// What is shown when an attempt could not be made.
pub open spec fn system_error_text(reason: Seq<char>) -> Seq<char> {
    "System error: "@ + reason
}

pub(crate) fn system_error_message(reason: &str) -> (m: String)
    ensures
        m@ == system_error_text(reason@),
{
    let mut m = String::from_str("System error: ");
    m.append(reason);
    m
}

/// The name of the art that a floor teaches.
pub open spec fn level_name(level: nat) -> Seq<char> {
    if level == 1 {
        "Ownership"@
    } else if level == 2 {
        "Borrowing"@
    } else if level == 3 {
        "Patterns"@
    } else {
        "Unknown"@
    }
}

pub(crate) fn level_name_of(level: usize) -> (name: &'static str)
    ensures
        name@ == level_name(level as nat),
{
    if level == 1 {
        "Ownership"
    } else if level == 2 {
        "Borrowing"
    } else if level == 3 {
        "Patterns"
    } else {
        "Unknown"
    }
}

/// What the end of a floor invites the player to do.
pub open spec fn next_action(level: nat) -> Seq<char> {
    if level == 1 {
        "Press ENTER to descend to Level 2: Borrowing..."@
    } else if level == 2 {
        "Press ENTER to descend to Level 3: Patterns..."@
    } else {
        "Press ENTER to continue..."@
    }
}

pub(crate) fn next_action_of(level: usize) -> (text: &'static str)
    ensures
        text@ == next_action(level as nat),
{
    if level == 1 {
        "Press ENTER to descend to Level 2: Borrowing..."
    } else if level == 2 {
        "Press ENTER to descend to Level 3: Patterns..."
    } else {
        "Press ENTER to continue..."
    }
}

/// Each item behind a dash, one to a line; or a note that there are none.
pub open spec fn inventory_list(items: Seq<Seq<char>>) -> Seq<char> {
    if items.len() == 0 {
        "  (empty)"@
    } else {
        join(Seq::new(items.len(), |i: int| "  - "@ + items[i]), "\n"@)
    }
}

pub(crate) fn inventory_list_message(inventory: &Vec<String>) -> (m: String)
    ensures
        m@ == inventory_list(texts(inventory@)),
{
    if inventory.len() == 0 {
        return String::from_str("  (empty)");
    }
    let ghost items = texts(inventory@);
    let ghost rows = Seq::new(items.len(), |i: int| "  - "@ + items[i]);
    let mut m = String::from_str("  - ");
    m.append(inventory[0].as_str());
    let mut i: usize = 1;
    assert(rows.take(1) =~= seq![rows[0]]);
    while i < inventory.len()
        invariant
            1 <= i <= inventory.len(),
            items == texts(inventory@),
            rows == Seq::new(items.len(), |i: int| "  - "@ + items[i]),
            m@ == join(rows.take(i as int), "\n"@),
        decreases inventory.len() - i,
    {
        proof {
            lemma_join_push(rows.take(i as int), "\n"@, rows[i as int]);
            assert(rows.take(i + 1) =~= rows.take(i as int).push(rows[i as int]));
        }
        m.append("\n");
        let mut row = String::from_str("  - ");
        row.append(inventory[i].as_str());
        m.append(row.as_str());
        i += 1;
    }
    assert(rows.take(i as int) =~= rows);
    m
}

/// The figures of a finished floor.
pub struct FloorStats {
    pub level: usize,
    pub rooms: usize,
    pub compile_errors: u32,
    pub hints: usize,
    pub gold: u32,
    pub hp: u32,
}

/// What is shown at the end of a floor: its figures in a box, and what the
/// player carries. A floor done without a hint and without a compile error
/// is a perfect run.
pub open spec fn level_complete_text(stats: FloorStats, items: Seq<Seq<char>>) -> Seq<char> {
    "=== LEVEL "@ + decimal(stats.level as nat) + " COMPLETE! ===\n\nYou've mastered the art of "@
        + level_name(stats.level as nat) + "."@ + (if stats.hints == 0 && stats.compile_errors
        == 0 {
        " PERFECT RUN!"@
    } else {
        ""@
    })
        + "\n\n╔══════════════════════════╗\n║  LEVEL STATS             ║\n╠══════════════════════════╣\n║  Rooms cleared:    "@
        + pad_left(decimal(stats.rooms as nat), 4) + "  ║\n║  Compile errors:   "@ + pad_left(
        decimal(stats.compile_errors as nat),
        4,
    ) + "  ║\n║  Hints used:       "@ + pad_left(decimal(stats.hints as nat), 4)
        + "  ║\n║  Gold earned:      "@ + pad_left(decimal(stats.gold as nat), 4)
        + "  ║\n║  HP remaining:     "@ + pad_left(decimal(stats.hp as nat), 4)
        + "  ║\n╚══════════════════════════╝\n\nINVENTORY:\n"@ + inventory_list(items) + "\n\n"@
        + next_action(stats.level as nat)
}

pub(crate) fn level_complete_message(stats: &FloorStats, inventory: &Vec<String>) -> (m: String)
    ensures
        m@ == level_complete_text(*stats, texts(inventory@)),
{
    let mut m = String::from_str("=== LEVEL ");
    push_decimal(&mut m, stats.level as u64);
    m.append(" COMPLETE! ===\n\nYou've mastered the art of ");
    m.append(level_name_of(stats.level));
    m.append(".");
    m.append(
        if stats.hints == 0 && stats.compile_errors == 0 {
            " PERFECT RUN!"
        } else {
            ""
        },
    );
    m.append(
        "\n\n╔══════════════════════════╗\n║  LEVEL STATS             ║\n╠══════════════════════════╣\n║  Rooms cleared:    ",
    );
    push_decimal_padded(&mut m, stats.rooms as u64, 4);
    m.append("  ║\n║  Compile errors:   ");
    push_decimal_padded(&mut m, stats.compile_errors as u64, 4);
    m.append("  ║\n║  Hints used:       ");
    push_decimal_padded(&mut m, stats.hints as u64, 4);
    m.append("  ║\n║  Gold earned:      ");
    push_decimal_padded(&mut m, stats.gold as u64, 4);
    m.append("  ║\n║  HP remaining:     ");
    push_decimal_padded(&mut m, stats.hp as u64, 4);
    m.append("  ║\n╚══════════════════════════╝\n\nINVENTORY:\n");
    let list = inventory_list_message(inventory);
    m.append(list.as_str());
    m.append("\n\n");
    m.append(next_action_of(stats.level));
    m
}

/// The sign that the inventory screen puts before an item.
pub open spec fn item_sign(item: Seq<char>) -> Seq<char> {
    if item == "Sacred Scroll"@ {
        "📜"@
    } else if item == "Twin Keys"@ {
        "🗝️"@
    } else {
        "✨"@
    }
}

pub(crate) fn item_sign_of(item: &str) -> (sign: &'static str)
    ensures
        sign@ == item_sign(item@),
{
    if crate::text::same_text(item, "Sacred Scroll") {
        "📜"
    } else if crate::text::same_text(item, "Twin Keys") {
        "🗝️"
    } else {
        "✨"
    }
}

/// An item as the inventory screen lists it.
pub open spec fn inventory_row(item: Seq<char>) -> Seq<char> {
    "  "@ + item_sign(item) + " "@ + item
}

pub(crate) fn inventory_row_message(item: &str) -> (m: String)
    ensures
        m@ == inventory_row(item@),
{
    let mut m = String::from_str("  ");
    m.append(item_sign_of(item));
    m.append(" ");
    m.append(item);
    m
}

/// The inventory screen.
pub open spec fn inventory_text(items: Seq<Seq<char>>) -> Seq<char> {
    if items.len() == 0 {
        EMPTY_INVENTORY@
    } else {
        "🎒 INVENTORY\n\n"@ + join(Seq::new(items.len(), |i: int| inventory_row(items[i])), "\n"@)
            + "\n\n  "@ + decimal(items.len()) + " item(s) collected"@
    }
}

pub(crate) fn inventory_message(inventory: &Vec<String>) -> (m: String)
    ensures
        m@ == inventory_text(texts(inventory@)),
{
    if inventory.len() == 0 {
        return String::from_str(EMPTY_INVENTORY);
    }
    let ghost items = texts(inventory@);
    let ghost rows = Seq::new(items.len(), |i: int| inventory_row(items[i]));
    let mut list = inventory_row_message(inventory[0].as_str());
    let mut i: usize = 1;
    assert(rows.take(1) =~= seq![rows[0]]);
    while i < inventory.len()
        invariant
            1 <= i <= inventory.len(),
            items == texts(inventory@),
            rows == Seq::new(items.len(), |i: int| inventory_row(items[i])),
            list@ == join(rows.take(i as int), "\n"@),
        decreases inventory.len() - i,
    {
        proof {
            lemma_join_push(rows.take(i as int), "\n"@, rows[i as int]);
            assert(rows.take(i + 1) =~= rows.take(i as int).push(rows[i as int]));
        }
        list.append("\n");
        let row = inventory_row_message(inventory[i].as_str());
        list.append(row.as_str());
        i += 1;
    }
    assert(rows.take(i as int) =~= rows);
    let mut m = String::from_str("🎒 INVENTORY\n\n");
    m.append(list.as_str());
    m.append("\n\n  ");
    push_decimal(&mut m, inventory.len() as u64);
    m.append(" item(s) collected");
    m
}

/// The list of keys, with the scroll keys that the keyboard has.
pub open spec fn keys_text(mac: bool) -> Seq<char> {
    KEYS_HELP_HEAD@ + (if mac {
        SCROLL_KEYS_MAC@
    } else {
        SCROLL_KEYS@
    }) + KEYS_HELP_TAIL@
}

pub(crate) fn keys_message(mac: bool) -> (m: String)
    ensures
        m@ == keys_text(mac),
{
    let mut m = String::from_str(KEYS_HELP_HEAD);
    m.append(
        if mac {
            SCROLL_KEYS_MAC
        } else {
            SCROLL_KEYS
        },
    );
    m.append(KEYS_HELP_TAIL);
    m
}

/// Where the cursor has gone: the line and the number of lines.
pub open spec fn line_position_text(line: nat, of: nat) -> Seq<char> {
    "Line "@ + decimal(line) + "/"@ + decimal(of)
}

pub(crate) fn line_position_message(line: usize, of: usize) -> (m: String)
    ensures
        m@ == line_position_text(line as nat, of as nat),
{
    let mut m = String::from_str("Line ");
    push_decimal(&mut m, line as u64);
    m.append("/");
    push_decimal(&mut m, of as u64);
    m
}

/// Where the cursor stands: line, number of lines, and column.
pub open spec fn cursor_position_text(line: nat, of: nat, column: nat) -> Seq<char> {
    "Line "@ + decimal(line) + "/"@ + decimal(of) + ", Col "@ + decimal(column)
}

pub(crate) fn cursor_position_message(line: usize, of: usize, column: usize) -> (m: String)
    ensures
        m@ == cursor_position_text(line as nat, of as nat, column as nat),
{
    let mut m = String::from_str("Line ");
    push_decimal(&mut m, line as u64);
    m.append("/");
    push_decimal(&mut m, of as u64);
    m.append(", Col ");
    push_decimal(&mut m, column as u64);
    m
}

/// The longest yanked text that is shown whole.
pub const YANK_PREVIEW: usize = 40;

/// What is shown after a line is yanked: the line, or its first characters
/// and three dots where it is long.
pub open spec fn yanked_text(line: Seq<char>) -> Seq<char> {
    "Yanked: "@ + (if line.len() > YANK_PREVIEW {
        line.take(YANK_PREVIEW as int) + "..."@
    } else {
        line
    })
}

pub(crate) fn yanked_message(line: &str) -> (m: String)
    ensures
        m@ == yanked_text(line@),
{
    let mut m = String::from_str("Yanked: ");
    if line.unicode_len() > YANK_PREVIEW {
        let mut head = String::from_str(line.substring_char(0, YANK_PREVIEW));
        head.append("...");
        m.append(head.as_str());
    } else {
        m.append(line);
    }
    m
}

/// The answer to a command that is no line number where one was asked for.
pub open spec fn invalid_line_text(given: Seq<char>) -> Seq<char> {
    "Invalid line number: "@ + given
}

pub(crate) fn invalid_line_message(given: &str) -> (m: String)
    ensures
        m@ == invalid_line_text(given@),
{
    let mut m = String::from_str("Invalid line number: ");
    m.append(given);
    m
}

/// The answer to a command that the engine does not know.
pub open spec fn unknown_command_text(command: Seq<char>) -> Seq<char> {
    "Unknown command: "@ + command
}

pub(crate) fn unknown_command_message(command: &str) -> (m: String)
    ensures
        m@ == unknown_command_text(command@),
{
    let mut m = String::from_str("Unknown command: ");
    m.append(command);
    m
}

/// What is shown when the next floor cannot be entered.
pub open spec fn cannot_proceed_text(reason: Seq<char>) -> Seq<char> {
    "Cannot proceed: "@ + reason
}

pub(crate) fn cannot_proceed_message(reason: &str) -> (m: String)
    ensures
        m@ == cannot_proceed_text(reason@),
{
    let mut m = String::from_str("Cannot proceed: ");
    m.append(reason);
    m
}

/// What is said of a floor that the dungeon does not have.
pub open spec fn no_such_level_text(level: nat) -> Seq<char> {
    "Level "@ + decimal(level) + " not implemented yet"@
}

pub(crate) fn no_such_level_message(level: usize) -> (m: String)
    ensures
        m@ == no_such_level_text(level as nat),
{
    let mut m = String::from_str("Level ");
    push_decimal(&mut m, level as u64);
    m.append(" not implemented yet");
    m
}

/// What is said of a floor without rooms.
pub open spec fn no_rooms_text(level: nat) -> Seq<char> {
    "No rooms found in level "@ + decimal(level)
}

pub(crate) fn no_rooms_message(level: usize) -> (m: String)
    ensures
        m@ == no_rooms_text(level as nat),
{
    let mut m = String::from_str("No rooms found in level ");
    push_decimal(&mut m, level as u64);
    m
}

/// What is said of a floor that could not be loaded.
pub open spec fn load_failure_text(level: nat, reason: Seq<char>) -> Seq<char> {
    "Failed to load level "@ + decimal(level) + ": "@ + reason
}

pub(crate) fn load_failure_message(level: usize, reason: &str) -> (m: String)
    ensures
        m@ == load_failure_text(level as nat, reason@),
{
    let mut m = String::from_str("Failed to load level ");
    push_decimal(&mut m, level as u64);
    m.append(": ");
    m.append(reason);
    m
}

} // verus!
