use rust_raid::game::{parse_command, Command};
use rust_raid::{
    App, Challenge, CodexEntry, Color, GameState, KeyCode, KeyPress, MenuOption, MessageStyle,
    Narrative, Request, Rewards, Room, RoomMeta, Scoring, ValidationResult,
};
use tui_textarea::{Input, Key};

fn room(id: &str, code: &str) -> Room {
    Room {
        meta: RoomMeta {
            id: id.to_string(),
            room_number: 1,
            title: "A Room".to_string(),
            concept: "moves".to_string(),
        },
        narrative: Narrative {
            entry: None,
            intro: "An intro.".to_string(),
            success: "Well done.".to_string(),
            failure_compile: "It does not compile.".to_string(),
            failure_output: "It prints the wrong thing.".to_string(),
            hints: vec!["first".to_string()],
            alternative_solution: None,
        },
        challenge: Challenge {
            code: code.to_string(),
            expected_output: "5".to_string(),
            locked_lines: vec![],
        },
        scoring: None,
        rewards: None,
        codex: None,
    }
}

fn plain(color: Color) -> MessageStyle {
    MessageStyle { color, bold: false }
}

fn press(app: &mut App, code: KeyCode, key: Key) -> Request {
    app.handle_key(
        KeyPress { code, ctrl: false, alt: false, shift: false },
        Input { key, ctrl: false, alt: false, shift: false },
    )
}

fn ctrl(app: &mut App, c: char) -> Request {
    app.handle_key(
        KeyPress { code: KeyCode::Char(c), ctrl: true, alt: false, shift: false },
        Input { key: Key::Char(c), ctrl: true, alt: false, shift: false },
    )
}

fn type_char(app: &mut App, c: char) -> Request {
    press(app, KeyCode::Char(c), Key::Char(c))
}

fn enter(app: &mut App) -> Request {
    press(app, KeyCode::Enter, Key::Enter)
}

fn command(app: &mut App, text: &str) -> Request {
    type_char(app, ':');
    for c in text.chars() {
        type_char(app, c);
    }
    enter(app)
}

fn playing(rooms: Vec<Room>) -> App {
    let mut app = App::new(rooms);
    assert_eq!(enter(&mut app), Request::Continue);
    assert_eq!(app.state, GameState::Playing);
    app
}

#[test]
fn the_title_menu_takes_its_keys() {
    let mut app = App::new(vec![room("torch", "a")]);
    assert_eq!(press(&mut app, KeyCode::Down, Key::Down), Request::Continue);
    assert_eq!(app.menu_selection, MenuOption::Quit);
    assert_eq!(press(&mut app, KeyCode::Up, Key::Up), Request::Continue);
    assert_eq!(app.menu_selection, MenuOption::NewGame);
    type_char(&mut app, 'j');
    assert_eq!(app.menu_selection, MenuOption::Quit);
    type_char(&mut app, 'k');
    assert_eq!(app.menu_selection, MenuOption::NewGame);
    assert_eq!(type_char(&mut app, 'x'), Request::Continue);
    assert_eq!(app.state, GameState::TitleScreen);
    assert_eq!(app.solution(), "a");
    assert_eq!(type_char(&mut app, 'q'), Request::Quit);
    type_char(&mut app, 'j');
    assert_eq!(enter(&mut app), Request::Quit);
    assert_eq!(app.state, GameState::TitleScreen);
    type_char(&mut app, 'j');
    assert_eq!(enter(&mut app), Request::Continue);
    assert_eq!(app.state, GameState::Playing);
}

#[test]
fn a_new_game_on_another_floor_asks_for_the_first() {
    let mut app = App::new(vec![room("torch", "a")]);
    app.current_level = 2;
    assert_eq!(enter(&mut app), Request::Restart);
    assert_eq!(app.state, GameState::TitleScreen);
}

#[test]
fn ctrl_c_leaves_from_anywhere() {
    for state in [
        GameState::TitleScreen,
        GameState::Playing,
        GameState::RoomComplete,
        GameState::LevelComplete,
        GameState::ViewingCodex,
        GameState::GameOver,
    ] {
        let mut app = App::new(vec![room("torch", "a")]);
        app.state = state;
        assert_eq!(ctrl(&mut app, 'c'), Request::Quit);
        assert_eq!(app.state, state);
    }
}

#[test]
fn a_run_is_asked_for() {
    let mut app = playing(vec![room("torch", "a")]);
    assert_eq!(press(&mut app, KeyCode::F(5), Key::F(5)), Request::Validate);
    assert_eq!(ctrl(&mut app, 'r'), Request::Validate);
    assert_eq!(app.state, GameState::Playing);
    assert_eq!(app.solution(), "a");
    assert_eq!(type_char(&mut app, 'r'), Request::Continue);
    assert_eq!(app.solution(), "ra");
}

#[test]
fn function_keys_help() {
    let mut app = playing(vec![room("torch", "a")]);
    press(&mut app, KeyCode::F(1), Key::F(1));
    assert_eq!(app.message, "HINT: first");
    assert_eq!(app.player.hp, 95);
    press(&mut app, KeyCode::F(2), Key::F(2));
    assert!(app.message.starts_with("KEYBOARD SHORTCUTS"));
    press(&mut app, KeyCode::Esc, Key::Esc);
    assert_eq!(app.message, "Type :q to quit");
    assert_eq!(app.message_style, plain(Color::DarkGray));
    assert_eq!(app.solution(), "a");
}

#[test]
fn the_message_scrolls() {
    let mut app = playing(vec![room("torch", "a")]);
    app.message = "1\n2\n3\n4\n5\n6\n7\n8\n9\n10".to_string();
    press(&mut app, KeyCode::PageDown, Key::PageDown);
    assert_eq!(app.message_scroll, 3);
    press(&mut app, KeyCode::PageDown, Key::PageDown);
    assert_eq!(app.message_scroll, 6);
    press(&mut app, KeyCode::PageDown, Key::PageDown);
    assert_eq!(app.message_scroll, 6);
    press(&mut app, KeyCode::PageUp, Key::PageUp);
    assert_eq!(app.message_scroll, 3);
    app.message_scroll = 2;
    press(&mut app, KeyCode::PageUp, Key::PageUp);
    assert_eq!(app.message_scroll, 0);
    app.message = "1\n2\n3\n4\n5".to_string();
    press(&mut app, KeyCode::PageDown, Key::PageDown);
    assert_eq!(app.message_scroll, 0);
    app.message = "1\n2\n3\n4\n5\n6".to_string();
    press(&mut app, KeyCode::PageDown, Key::PageDown);
    assert_eq!(app.message_scroll, 3);
    assert_eq!(app.cursor(), (0, 0));
    app.state = GameState::RoomComplete;
    press(&mut app, KeyCode::PageUp, Key::PageUp);
    assert_eq!(app.message_scroll, 0);
    app.state = GameState::LevelComplete;
    press(&mut app, KeyCode::PageDown, Key::PageDown);
    assert_eq!(app.message_scroll, 3);
}

#[test]
fn commands_are_read() {
    assert_eq!(parse_command("q"), Command::Quit);
    assert_eq!(parse_command("quit"), Command::Quit);
    assert_eq!(parse_command("w"), Command::Save);
    assert_eq!(parse_command("help"), Command::Help);
    assert_eq!(parse_command("hint"), Command::Hint);
    assert_eq!(parse_command("inv"), Command::Inventory);
    assert_eq!(parse_command("inventory"), Command::Inventory);
    assert_eq!(parse_command("keys"), Command::Keys);
    assert_eq!(parse_command("shortcuts"), Command::Keys);
    assert_eq!(parse_command("?"), Command::Keys);
    assert_eq!(parse_command("codex"), Command::Codex);
    assert_eq!(parse_command("j"), Command::Codex);
    assert_eq!(parse_command("xyzzy"), Command::Xyzzy);
    assert_eq!(parse_command("restart"), Command::Restart);
    assert_eq!(parse_command("top"), Command::Top);
    assert_eq!(parse_command("0"), Command::Top);
    assert_eq!(parse_command("bot"), Command::Bottom);
    assert_eq!(parse_command("$"), Command::Bottom);
    assert_eq!(parse_command("goto 12"), Command::Goto(12));
    assert_eq!(parse_command("goto   7  "), Command::Goto(7));
    assert_eq!(parse_command("goto +3"), Command::Goto(3));
    assert_eq!(parse_command("goto 0"), Command::Goto(0));
    assert_eq!(parse_command("goto x"), Command::BadGoto);
    assert_eq!(parse_command("goto "), Command::BadGoto);
    assert_eq!(parse_command("goto"), Command::Unknown);
    assert_eq!(parse_command("5"), Command::Goto(5));
    assert_eq!(parse_command("00"), Command::Goto(0));
    assert_eq!(parse_command(" 5"), Command::Unknown);
    assert_eq!(parse_command("Q"), Command::Unknown);
    assert_eq!(parse_command(""), Command::Empty);
}

#[test]
fn the_command_line_is_typed_into() {
    let mut app = playing(vec![room("torch", "a")]);
    app.message_scroll = 3;
    type_char(&mut app, ':');
    assert!(app.command_mode);
    assert_eq!(app.command_buffer, "");
    assert_eq!(app.message_scroll, 0);
    type_char(&mut app, 'h');
    type_char(&mut app, 'x');
    assert_eq!(app.command_buffer, "hx");
    press(&mut app, KeyCode::Backspace, Key::Backspace);
    assert_eq!(app.command_buffer, "h");
    assert!(app.command_mode);
    press(&mut app, KeyCode::Backspace, Key::Backspace);
    assert_eq!(app.command_buffer, "");
    assert!(!app.command_mode);
    type_char(&mut app, ':');
    type_char(&mut app, 'q');
    press(&mut app, KeyCode::Esc, Key::Esc);
    assert!(!app.command_mode);
    assert_eq!(app.command_buffer, "");
    assert_eq!(app.solution(), "a");
    type_char(&mut app, ':');
    press(&mut app, KeyCode::Backspace, Key::Backspace);
    assert!(!app.command_mode);
    type_char(&mut app, ':');
    assert_eq!(press(&mut app, KeyCode::F(5), Key::F(5)), Request::Continue);
    assert!(app.command_mode);
    assert_eq!(enter(&mut app), Request::Continue);
    assert!(!app.command_mode);
}

#[test]
fn commands_are_run() {
    let mut app = playing(vec![room("torch", "one\ntwo\nthree")]);
    assert_eq!(command(&mut app, "q"), Request::Quit);
    let mut app = playing(vec![room("torch", "one\ntwo\nthree")]);
    assert_eq!(command(&mut app, "quit"), Request::Quit);

    let mut app = playing(vec![room("torch", "one\ntwo\nthree")]);
    assert_eq!(command(&mut app, "w"), Request::Continue);
    assert_eq!(app.message, "There is no save... only survival.");
    assert_eq!(app.message_style, plain(Color::Yellow));
    assert!(!app.command_mode);
    assert_eq!(app.command_buffer, "");

    command(&mut app, "help");
    assert_eq!(app.message, "Commands: :q :keys :inv :codex :hint | Type :? for all shortcuts");
    assert_eq!(app.message_style, plain(Color::Cyan));

    command(&mut app, "hint");
    assert_eq!(app.message, "HINT: first");
    assert_eq!(app.player.hp, 95);

    command(&mut app, "inv");
    assert!(app.message.starts_with("🎒 INVENTORY"));
    command(&mut app, "?");
    assert!(app.message.starts_with("KEYBOARD SHORTCUTS"));

    command(&mut app, "codex");
    assert_eq!(app.message, "Your codex is empty. Solve puzzles to learn!");
    assert_eq!(app.message_style, plain(Color::DarkGray));
    assert_eq!(app.state, GameState::Playing);

    command(&mut app, "xyzzy");
    assert_eq!(
        app.message,
        "*** SECRET ROOM ***\n\nYou stand in a room with walls of pure code.\nFlickering runes on the floor read:\n\n   'Made by Bradleyd Smith'   "
    );
    assert_eq!(app.message_style, MessageStyle { color: Color::Magenta, bold: true });

    command(&mut app, "3");
    assert_eq!(app.cursor(), (2, 0));
    assert_eq!(app.message, "Line 3/3");
    command(&mut app, "top");
    assert_eq!(app.cursor(), (0, 0));
    command(&mut app, "$");
    assert_eq!(app.cursor(), (2, 0));
    command(&mut app, "0");
    assert_eq!(app.cursor(), (0, 0));
    command(&mut app, "goto 2");
    assert_eq!(app.cursor(), (1, 0));
    assert_eq!(app.message, "Line 2/3");

    command(&mut app, "goto two");
    assert_eq!(app.message, "Invalid line number: two");
    assert_eq!(app.message_style, plain(Color::Red));
    command(&mut app, "goto  ");
    assert_eq!(app.message, "Invalid line number:  ");

    command(&mut app, "fly");
    assert_eq!(app.message, "Unknown command: fly");
    assert_eq!(app.message_style, plain(Color::Red));

    app.message = "kept".to_string();
    command(&mut app, "");
    assert_eq!(app.message, "kept");
    assert!(!app.command_mode);
    assert_eq!(app.solution(), "one\ntwo\nthree");
}

#[test]
fn nothing_happens_elsewhere() {
    let mut app = playing(vec![room("well", "a")]);
    command(&mut app, "xyzzy");
    assert_eq!(app.message, "A hollow voice whispers... 'Nothing happens here.'");
    assert_eq!(app.message_style, plain(Color::DarkGray));
}

#[test]
fn restart_starts_again() {
    let mut app = playing(vec![room("torch", "a")]);
    app.player.gold = 70;
    app.player.hp = 4;
    type_char(&mut app, 'x');
    assert_eq!(command(&mut app, "restart"), Request::Continue);
    assert_eq!(app.player.gold, 0);
    assert_eq!(app.player.hp, 100);
    assert_eq!(app.solution(), "a");
    assert!(!app.command_mode);
    app.current_level = 2;
    app.player.gold = 70;
    assert_eq!(command(&mut app, "restart"), Request::Restart);
    assert_eq!(app.player.gold, 70);
    assert!(!app.command_mode);
    assert_eq!(app.command_buffer, "");
}

#[test]
fn the_codex_is_browsed_without_cost() {
    let mut r = room("torch", "a");
    r.codex = Some(CodexEntry { title: "Moves".to_string(), description: "Values move.".to_string() });
    let mut app = playing(vec![r]);
    app.player.codex.push(CodexEntry { title: "Older".to_string(), description: "d".to_string() });
    app.run_solution(Ok(ValidationResult::Success));
    app.state = GameState::Playing;
    app.codex_scroll = 1;
    assert_eq!(command(&mut app, "codex"), Request::Continue);
    assert_eq!(app.state, GameState::ViewingCodex);
    assert_eq!(app.codex_scroll, 0);
    assert!(!app.command_mode);
    assert_eq!(app.command_buffer, "");
    press(&mut app, KeyCode::Up, Key::Up);
    assert_eq!(app.codex_scroll, 0);
    press(&mut app, KeyCode::Down, Key::Down);
    assert_eq!(app.codex_scroll, 1);
    press(&mut app, KeyCode::Down, Key::Down);
    assert_eq!(app.codex_scroll, 1);
    press(&mut app, KeyCode::Up, Key::Up);
    assert_eq!(app.codex_scroll, 0);
    type_char(&mut app, 'x');
    assert_eq!(app.state, GameState::ViewingCodex);
    assert_eq!(app.solution(), "a");
    assert_eq!(app.player.hp, 100);
    assert_eq!(app.player.gold, 50);
    assert_eq!(app.player.codex.len(), 2);
    press(&mut app, KeyCode::Esc, Key::Esc);
    assert_eq!(app.state, GameState::Playing);
    command(&mut app, "j");
    assert_eq!(app.state, GameState::ViewingCodex);
    enter(&mut app);
    assert_eq!(app.state, GameState::Playing);
}

#[test]
fn a_cleared_room_is_left_with_enter() {
    let mut second = room("well", "b");
    second.narrative.entry = Some("Down you go.".to_string());
    let mut app = playing(vec![room("torch", "a"), second]);
    assert_eq!(app.finish_run(Ok(ValidationResult::Success)), Request::Continue);
    assert_eq!(app.state, GameState::RoomComplete);
    type_char(&mut app, 'x');
    assert_eq!(app.state, GameState::RoomComplete);
    assert_eq!(app.solution(), "a");
    press(&mut app, KeyCode::Esc, Key::Esc);
    assert_eq!(app.state, GameState::Playing);
    assert_eq!(app.message, "Press F5 to run your solution.");
    assert_eq!(app.message_style, plain(Color::Yellow));
    app.finish_run(Ok(ValidationResult::Success));
    enter(&mut app);
    assert_eq!(app.state, GameState::RoomTransition);
    type_char(&mut app, 'x');
    assert_eq!(app.state, GameState::RoomTransition);
    assert_eq!(app.current_room, 0);
    enter(&mut app);
    assert_eq!(app.state, GameState::Playing);
    assert_eq!(app.current_room, 1);
    assert_eq!(app.solution(), "b");
}

#[test]
fn the_end_of_a_floor_asks_for_the_next() {
    let mut r = room("torch", "a");
    r.rewards = Some(Rewards {
        grants_item: Some("Sacred Scroll".to_string()),
        item_description: None,
    });
    let mut app = playing(vec![r]);
    app.finish_run(Ok(ValidationResult::Success));
    assert_eq!(enter(&mut app), Request::Continue);
    assert_eq!(app.state, GameState::LevelComplete);
    assert_eq!(enter(&mut app), Request::LoadLevel(2));
    assert_eq!(app.state, GameState::LevelComplete);
    assert_eq!(app.current_level, 1);
    app.enter_level(2, Ok(vec![room("deep", "z")]));
    assert_eq!(app.current_level, 2);
    app.finish_run(Ok(ValidationResult::Success));
    enter(&mut app);
    assert_eq!(app.state, GameState::LevelComplete);
    assert_eq!(enter(&mut app), Request::LoadLevel(3));
    app.enter_level(3, Ok(vec![room("deepest", "z")]));
    app.finish_run(Ok(ValidationResult::Success));
    enter(&mut app);
    assert_eq!(app.state, GameState::LevelComplete);
    assert_eq!(enter(&mut app), Request::Quit);
    assert_eq!(app.state, GameState::LevelComplete);
    assert_eq!(app.current_level, 3);
}

#[test]
fn a_closed_gate_is_checked_again_at_the_end_of_the_floor() {
    let mut app = playing(vec![room("torch", "a")]);
    app.state = GameState::LevelComplete;
    assert_eq!(enter(&mut app), Request::Continue);
    assert_eq!(app.state, GameState::LevelComplete);
    assert!(app.message.contains("You cannot pass without the Sacred Scroll."));
    assert_eq!(app.current_level, 1);
    assert_eq!(app.current_room, 0);
}

#[test]
fn a_blocked_gate_leaves_the_player_in_the_last_room() {
    let mut app = playing(vec![room("torch", "a"), room("end", "b")]);
    app.finish_run(Ok(ValidationResult::Success));
    enter(&mut app);
    assert_eq!(app.current_room, 1);
    app.finish_run(Ok(ValidationResult::Success));
    assert_eq!(enter(&mut app), Request::Continue);
    assert_eq!(app.state, GameState::RoomComplete);
    assert_eq!(app.current_room, 1);
    assert_eq!(app.current_level, 1);
    assert!(!app.player.inventory.iter().any(|i| i == "Sacred Scroll"));
    assert!(app.message.starts_with("The twin doors swing open"));
}

#[test]
fn no_health_ends_the_game_whatever_the_key() {
    let mut r = room("torch", "a");
    r.scoring = Some(Scoring {
        par_time_seconds: None,
        hint_penalty_hp: Some(100),
        wrong_answer_penalty_hp: None,
    });
    let mut app = playing(vec![r.clone_for_test()]);
    assert_eq!(press(&mut app, KeyCode::F(1), Key::F(1)), Request::GameOver);
    assert_eq!(app.player.hp, 0);
    assert_eq!(app.state, GameState::GameOver);
    assert_eq!(app.message, "OWNED\n\nThe borrow checker wins. Your HP has reached zero.");
    assert_eq!(type_char(&mut app, 'x'), Request::Quit);

    let mut app = playing(vec![r.clone_for_test()]);
    assert_eq!(command(&mut app, "hint"), Request::GameOver);
    assert_eq!(app.state, GameState::GameOver);

    for state in [
        GameState::TitleScreen,
        GameState::Playing,
        GameState::RoomComplete,
        GameState::LevelComplete,
        GameState::ViewingCodex,
    ] {
        let mut app = playing(vec![r.clone_for_test()]);
        app.player.hp = 0;
        app.state = state;
        let request = press(&mut app, KeyCode::Other, Key::Left);
        assert_eq!(request, Request::GameOver, "{:?}", state);
        assert_eq!(app.state, GameState::GameOver);
    }
}

trait CloneForTest {
    fn clone_for_test(&self) -> Room;
}

impl CloneForTest for Room {
    fn clone_for_test(&self) -> Room {
        let mut copy = room(&self.meta.id, &self.challenge.code);
        copy.scoring = self.scoring.as_ref().map(|s| Scoring {
            par_time_seconds: s.par_time_seconds,
            hint_penalty_hp: s.hint_penalty_hp,
            wrong_answer_penalty_hp: s.wrong_answer_penalty_hp,
        });
        copy
    }
}
