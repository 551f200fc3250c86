//! What holds of the engine whatever the game and whatever the key: the
//! statements that players and drivers rely on, each proved from the
//! contracts of the commands.

use vstd::prelude::*;
use crate::compiler::runner::{SystemError, ValidationResult};
use crate::game::app::{
    barrier, capped_sum, collected, floored_difference, learned, room_reward, App,
};
use crate::game::messages::SEALED_LINE;
use crate::game::state::{has_title, Color, KeyPress, MessageStyle, Request};

verus! {

/// The lines that the game locks are the locked lines of the room that the
/// player is in.
pub proof fn lemma_locks_are_the_rooms(game: App, line: nat)
    requires
        game.well_formed(),
        line < usize::MAX,
    ensures
        game.locks(line) <==> game.current().challenge.locked_lines@.contains((line + 1) as usize),
{
}

/// While a room is being solved, a key that changes the text does nothing
/// to the editor or the player as long as the cursor is on a locked line:
/// whether it is typed text, Enter, Tab, Backspace or Delete, or one of the
/// commands on the text such as Ctrl+D, Ctrl+P and Ctrl+Z.
pub proof fn lemma_locked_line_is_kept(pre: App, key: KeyPress, post: App, request: Request)
    requires
        pre.state is Playing,
        !pre.command_mode,
        pre.locks(pre.editor@.cursor.0),
        key.is_destructive(),
        App::dispatched(pre, key, post, request),
    ensures
        post.editor == pre.editor,
        post.player == pre.player,
        post.rooms == pre.rooms,
        post.current_room == pre.current_room,
{
}

/// A key of the editor's that changes the text is answered on a locked
/// line with the refusal, and with nothing else.
pub proof fn lemma_locked_line_refuses(pre: App, key: KeyPress, post: App, request: Request)
    requires
        pre.state is Playing,
        !pre.command_mode,
        pre.locks(pre.editor@.cursor.0),
        key.is_destructive(),
        !key.ctrl,
        !(key.code == crate::game::state::KeyCode::Char(':') && key.is_bare()),
        App::dispatched(pre, key, post, request),
    ensures
        request is Continue,
        App::told(pre, post, SEALED_LINE@, MessageStyle::plain(Color::Magenta)),
{
}

/// Clearing a room is worth 50 gold without a hint, 10 less for each hint,
/// and never less than 10.
pub proof fn lemma_reward_scale(hints: nat)
    ensures
        room_reward(0) == 50,
        room_reward(1) == 40,
        room_reward(2) == 30,
        room_reward(3) == 20,
        hints >= 4 ==> room_reward(hints) == 10,
        10 <= room_reward(hints) <= 50,
{
}

/// A success pays the reward for the hints used in the room, up to the
/// most that a purse holds.
pub proof fn lemma_success_pays(pre: App, post: App)
    requires
        App::judged(pre, Ok(ValidationResult::Success), post),
    ensures
        post.player.gold == capped_sum(
            pre.player.gold,
            room_reward(pre.player.hints_used_room as nat),
        ),
        pre.player.gold + 50 <= u32::MAX ==> post.player.gold == pre.player.gold + room_reward(
            pre.player.hints_used_room as nat,
        ),
        post.player.hp == pre.player.hp,
        post.state is RoomComplete,
{
}

/// A verdict never raises the player's health, and a penalty takes it to
/// zero at the lowest.
pub proof fn lemma_verdict_lowers_health(
    pre: App,
    outcome: Result<ValidationResult, SystemError>,
    post: App,
)
    requires
        App::judged(pre, outcome, post),
    ensures
        0 <= post.player.hp <= pre.player.hp,
        (outcome matches Ok(result) && !(result is Success)) ==> post.player.hp
            == floored_difference(pre.player.hp, pre.current().wrong_answer_penalty()),
{
}

/// A hint never raises the player's health, and its penalty takes it to
/// zero at the lowest.
pub proof fn lemma_hint_lowers_health(pre: App, post: App)
    requires
        App::hinted(pre, post),
    ensures
        0 <= post.player.hp <= pre.player.hp,
{
}

/// A candidate that ran out of time costs what a wrong answer costs, and
/// leaves the player in the room.
pub proof fn lemma_timeout_costs_a_wrong_answer(pre: App, post: App)
    requires
        App::judged(pre, Ok(ValidationResult::TimedOut), post),
    ensures
        post.player.hp == floored_difference(pre.player.hp, pre.current().wrong_answer_penalty()),
        post.state == pre.state,
        post.current_room == pre.current_room,
        post.editor == pre.editor,
{
}

/// An attempt that could not be made costs the player nothing and leaves
/// the game where it is.
pub proof fn lemma_system_error_is_free(pre: App, error: SystemError, post: App)
    requires
        App::judged(pre, Err(error), post),
    ensures
        post.player == pre.player,
        post.state == pre.state,
        post.current_room == pre.current_room,
        post.current_level == pre.current_level,
        post.editor == pre.editor,
{
}

/// Whatever key was pressed in whatever state, if the player has no health
/// left after it, the game is over and the driver is told to end.
pub proof fn lemma_no_health_ends_the_game(
    pre: App,
    key: KeyPress,
    mid: App,
    asked: Request,
    post: App,
    request: Request,
)
    requires
        App::dispatched(pre, key, mid, asked),
        App::settled(mid, asked, request, post),
        post.player.hp == 0,
    ensures
        post.state is GameOver,
        request is GameOver || request is Quit,
{
}

/// However a run was judged, if the player has no health left after it,
/// the game is over and the driver is told to end.
pub proof fn lemma_no_health_ends_the_run(
    pre: App,
    outcome: Result<ValidationResult, SystemError>,
    mid: App,
    post: App,
    request: Request,
)
    requires
        App::judged(pre, outcome, mid),
        App::settled(mid, Request::Continue, request, post),
        post.player.hp == 0,
    ensures
        post.state is GameOver,
        request is GameOver,
{
}

/// Browsing the codex changes nothing of the player.
pub proof fn lemma_codex_is_read_only(pre: App, key: KeyPress, post: App, request: Request)
    requires
        pre.state is ViewingCodex,
        App::dispatched(pre, key, post, request),
    ensures
        post.player == pre.player,
        post.editor == pre.editor,
{
}

/// After the last room of a floor, a gate whose item the player does not
/// hold keeps the player where they are: same room, same floor, same state.
pub proof fn lemma_closed_gate_holds(pre: App, post: App)
    requires
        pre.current_room + 1 >= pre.rooms@.len(),
        barrier(pre.gates@, pre.current_level, pre.player.items()) is Some,
        App::advanced(pre, post),
    ensures
        post.current_room == pre.current_room,
        post.current_level == pre.current_level,
        post.state == pre.state,
        post.player == pre.player,
        post.rooms == pre.rooms,
{
}

/// The way down from a floor is barred exactly while one of its gates
/// asks for an item that is not held.
pub proof fn lemma_barrier_means_missing_item(
    gates: Seq<crate::game::state::Gate>,
    level: usize,
    items: Seq<Seq<char>>,
)
    ensures
        barrier(gates, level, items) is Some <==> exists|i: int|
            0 <= i < gates.len() && (#[trigger] gates[i]).level == level && !items.contains(
                gates[i].item@,
            ),
    decreases gates.len(),
{
    if gates.len() > 0 {
        lemma_barrier_means_missing_item(gates.skip(1), level, items);
        if barrier(gates, level, items) is Some {
            if gates[0].level == level && !items.contains(gates[0].item@) {
            } else {
                let i = choose|i: int|
                    0 <= i < gates.skip(1).len() && (#[trigger] gates.skip(1)[i]).level == level
                        && !items.contains(gates.skip(1)[i].item@);
                assert(gates[i + 1] == gates.skip(1)[i]);
            }
        } else {
            assert forall|i: int|
                0 <= i < gates.len() && (#[trigger] gates[i]).level == level implies items.contains(
                gates[i].item@,
            ) by {
                if i > 0 {
                    assert(gates.skip(1)[i - 1] == gates[i]);
                }
            }
        }
    }
}

/// Clearing a room again grants its item and its lore only once: what is
/// held and what is known is the same after the second time as after the
/// first.
pub proof fn lemma_rewards_come_once(
    items: Seq<Seq<char>>,
    item: Option<Seq<char>>,
    lore: Seq<(Seq<char>, Seq<char>)>,
    entry: Option<(Seq<char>, Seq<char>)>,
)
    ensures
        collected(collected(items, item), item) == collected(items, item),
        learned(learned(lore, entry), entry) == learned(lore, entry),
{
    if let Some(name) = item {
        if !items.contains(name) {
            assert(items.push(name)[items.len() as int] == name);
        }
    }
    if let Some(record) = entry {
        if !has_title(lore, record.0) {
            assert(lore.push(record)[lore.len() as int].0 == record.0);
        }
    }
}

} // verus!
