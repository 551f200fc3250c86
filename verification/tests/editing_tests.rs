use rust_raid::{
    App, Challenge, Color, GameState, KeyCode, KeyPress, MessageStyle, Narrative, Request, Room,
    RoomMeta,
};
use tui_textarea::{Input, Key};

fn room(code: &str, locked: Vec<usize>) -> Room {
    Room {
        meta: RoomMeta {
            id: "torch".to_string(),
            room_number: 1,
            title: "The Torch".to_string(),
            concept: "moves".to_string(),
        },
        narrative: Narrative {
            entry: None,
            intro: "An intro.".to_string(),
            success: "Well done.".to_string(),
            failure_compile: "It does not compile.".to_string(),
            failure_output: "It prints the wrong thing.".to_string(),
            hints: vec!["first".to_string()],
            alternative_solution: None,
        },
        challenge: Challenge {
            code: code.to_string(),
            expected_output: "5".to_string(),
            locked_lines: locked,
        },
        scoring: None,
        rewards: None,
        codex: None,
    }
}

fn playing(code: &str, locked: Vec<usize>) -> App {
    let mut app = App::new(vec![room(code, locked)]);
    app.start_game();
    app
}

fn plain(color: Color) -> MessageStyle {
    MessageStyle { color, bold: false }
}

fn press(app: &mut App, code: KeyCode, key: Key) -> Request {
    app.handle_key(
        KeyPress { code, ctrl: false, alt: false, shift: false },
        Input { key, ctrl: false, alt: false, shift: false },
    )
}

fn ctrl(app: &mut App, c: char) -> Request {
    app.handle_key(
        KeyPress { code: KeyCode::Char(c), ctrl: true, alt: false, shift: false },
        Input { key: Key::Char(c), ctrl: true, alt: false, shift: false },
    )
}

fn type_char(app: &mut App, c: char) -> Request {
    press(app, KeyCode::Char(c), Key::Char(c))
}

fn down(app: &mut App) {
    press(app, KeyCode::Down, Key::Down);
}

const SEALED: &str = "That line is sealed by ancient magic. It cannot be changed.";

#[test]
fn goes_to_a_line() {
    let mut app = playing("one\ntwo\nthree", vec![]);
    app.goto_line(2);
    assert_eq!(app.cursor(), (1, 0));
    assert_eq!(app.message, "Line 2/3");
    assert_eq!(app.message_style, plain(Color::DarkGray));
    app.goto_line(3);
    assert_eq!(app.cursor(), (2, 0));
    assert_eq!(app.message, "Line 3/3");
    app.goto_line(99);
    assert_eq!(app.cursor(), (2, 0));
    assert_eq!(app.message, "Line 3/3");
    app.goto_line(0);
    assert_eq!(app.cursor(), (0, 0));
    assert_eq!(app.message, "Line 1/3");
    app.goto_line(1);
    assert_eq!(app.cursor(), (0, 0));
    assert_eq!(app.message, "Line 1/3");
    assert_eq!(app.solution(), "one\ntwo\nthree");
}

#[test]
fn goes_to_the_top_and_the_bottom() {
    let mut app = playing("one\ntwo\nthree", vec![]);
    app.goto_bottom();
    assert_eq!(app.cursor(), (2, 0));
    type_char(&mut app, 'x');
    assert_eq!(app.cursor(), (2, 1));
    app.goto_top();
    assert_eq!(app.cursor(), (0, 0));
    assert_eq!(app.solution(), "one\ntwo\nxthree");
    app.goto_bottom();
    assert_eq!(app.cursor(), (2, 0));
}

#[test]
fn deletes_a_line() {
    let mut app = playing("one\ntwo\nthree", vec![]);
    app.goto_line(2);
    let message = app.message.clone();
    app.delete_line();
    assert_eq!(app.editor_lines(), vec!["one", "three"]);
    assert_eq!(app.cursor(), (0, 3));
    assert_eq!(app.message, message);
    app.goto_line(2);
    app.delete_line();
    assert_eq!(app.editor_lines(), vec!["one"]);
    assert_eq!(app.cursor(), (0, 3));
    app.delete_line();
    assert_eq!(app.editor_lines(), vec![""]);
    assert_eq!(app.cursor(), (0, 0));
    app.delete_line();
    assert_eq!(app.editor_lines(), vec![""]);
    assert_eq!(app.cursor(), (0, 0));
}

#[test]
fn the_first_line_is_emptied_and_stays() {
    let mut app = playing("one\ntwo", vec![]);
    app.delete_line();
    assert_eq!(app.editor_lines(), vec!["", "two"]);
    assert_eq!(app.cursor(), (0, 0));
}

#[test]
fn deleting_an_empty_line_takes_it_out() {
    let mut app = playing("one\n\nthree", vec![]);
    app.goto_line(2);
    app.delete_line();
    assert_eq!(app.editor_lines(), vec!["one", "three"]);
    assert_eq!(app.cursor(), (0, 3));
}

#[test]
fn deleting_a_line_ends_a_selection_and_keeps_its_text() {
    let mut app = playing("one\ntwo\nthree", vec![]);
    app.handle_key(
        KeyPress { code: KeyCode::Other, ctrl: false, alt: false, shift: true },
        Input { key: Key::Right, ctrl: false, alt: false, shift: true },
    );
    app.handle_key(
        KeyPress { code: KeyCode::Down, ctrl: false, alt: false, shift: true },
        Input { key: Key::Down, ctrl: false, alt: false, shift: true },
    );
    assert_eq!(app.cursor(), (1, 1));
    app.delete_line();
    assert_eq!(app.editor_lines(), vec!["one", "three"]);
    assert_eq!(app.cursor(), (0, 3));
    type_char(&mut app, '!');
    assert_eq!(app.editor_lines(), vec!["one!", "three"]);
}

#[test]
fn yanks_and_pastes_a_line() {
    let mut app = playing("one\ntwo\nthree", vec![]);
    app.goto_line(2);
    app.yank_line();
    assert_eq!(app.yank_buffer, "two");
    assert_eq!(app.message, "Yanked: two");
    assert_eq!(app.message_style, plain(Color::DarkGray));
    assert_eq!(app.solution(), "one\ntwo\nthree");
    app.paste_line();
    assert_eq!(app.editor_lines(), vec!["one", "two", "two", "three"]);
    assert_eq!(app.cursor(), (2, 3));
    assert_eq!(app.message, "Pasted line below.");
    assert_eq!(app.message_style, plain(Color::DarkGray));
    app.goto_bottom();
    app.paste_line();
    assert_eq!(app.editor_lines(), vec!["one", "two", "two", "three", "two"]);
    assert_eq!(app.cursor(), (4, 3));
}

#[test]
fn pasting_from_the_middle_of_a_line_goes_below_it() {
    let mut app = playing("one\ntwo", vec![]);
    app.yank_line();
    press(&mut app, KeyCode::Other, Key::Right);
    assert_eq!(app.cursor(), (0, 1));
    app.paste_line();
    assert_eq!(app.editor_lines(), vec!["one", "one", "two"]);
    assert_eq!(app.cursor(), (1, 3));
}

#[test]
fn pasting_takes_the_place_of_a_selection() {
    let mut app = playing("one\ntwo\nthree", vec![]);
    app.yank_buffer = "new".to_string();
    app.handle_key(
        KeyPress { code: KeyCode::Other, ctrl: false, alt: false, shift: true },
        Input { key: Key::Right, ctrl: false, alt: false, shift: true },
    );
    app.handle_key(
        KeyPress { code: KeyCode::Down, ctrl: false, alt: false, shift: true },
        Input { key: Key::Down, ctrl: false, alt: false, shift: true },
    );
    app.paste_line();
    assert_eq!(app.editor_lines(), vec!["", "new", "three"]);
    assert_eq!(app.cursor(), (1, 3));
}

#[test]
fn pasted_text_with_line_feeds_makes_lines() {
    let mut app = playing("one\ntwo", vec![]);
    app.yank_buffer = "a\r\nb\nc".to_string();
    app.paste_line();
    assert_eq!(app.editor_lines(), vec!["one", "a", "b", "c", "two"]);
    assert_eq!(app.cursor(), (3, 1));
}

#[test]
fn nothing_to_paste() {
    let mut app = playing("one\ntwo", vec![1]);
    app.paste_line();
    assert_eq!(app.message, "Nothing to paste. Use Ctrl+Y to yank a line first.");
    assert_eq!(app.message_style, plain(Color::DarkGray));
    assert_eq!(app.solution(), "one\ntwo");
}

#[test]
fn a_long_yanked_line_is_shown_in_part() {
    let long = "0123456789012345678901234567890123456789X";
    let mut app = playing(long, vec![]);
    app.yank_line();
    assert_eq!(app.yank_buffer, long);
    assert_eq!(app.message, "Yanked: 0123456789012345678901234567890123456789...");
    let exact = "0123456789012345678901234567890123456789";
    let mut app = playing(exact, vec![]);
    app.yank_line();
    assert_eq!(app.message, format!("Yanked: {}", exact));
    let wide = "ééééééééééééééééééééééééééééééééééééééééé";
    let mut app = playing(wide, vec![]);
    app.yank_line();
    assert_eq!(app.message, "Yanked: éééééééééééééééééééééééééééééééééééééééé...");
}

#[test]
fn locked_lines_refuse_every_edit() {
    let code = "let a = 1;\nlet b = 2;\nlet c = 3;";
    let mut app = playing(code, vec![1, 3]);
    app.yank_buffer = "pasted".to_string();
    for row in [0usize, 2] {
        app.goto_line(row + 1);
        press(&mut app, KeyCode::Other, Key::Right);
        assert_eq!(app.cursor(), (row, 1));
        assert!(app.is_line_locked(row));
        let keys: Vec<(KeyPress, Input)> = vec![
            (
                KeyPress { code: KeyCode::Char('x'), ctrl: false, alt: false, shift: false },
                Input { key: Key::Char('x'), ctrl: false, alt: false, shift: false },
            ),
            (
                KeyPress { code: KeyCode::Char('X'), ctrl: false, alt: false, shift: true },
                Input { key: Key::Char('X'), ctrl: false, alt: false, shift: true },
            ),
            (
                KeyPress { code: KeyCode::Enter, ctrl: false, alt: false, shift: false },
                Input { key: Key::Enter, ctrl: false, alt: false, shift: false },
            ),
            (
                KeyPress { code: KeyCode::Backspace, ctrl: false, alt: false, shift: false },
                Input { key: Key::Backspace, ctrl: false, alt: false, shift: false },
            ),
            (
                KeyPress { code: KeyCode::Delete, ctrl: false, alt: false, shift: false },
                Input { key: Key::Delete, ctrl: false, alt: false, shift: false },
            ),
            (
                KeyPress { code: KeyCode::Tab, ctrl: false, alt: false, shift: false },
                Input { key: Key::Tab, ctrl: false, alt: false, shift: false },
            ),
            (
                KeyPress { code: KeyCode::Char('k'), ctrl: true, alt: false, shift: false },
                Input { key: Key::Char('k'), ctrl: true, alt: false, shift: false },
            ),
            (
                KeyPress { code: KeyCode::Char('d'), ctrl: false, alt: true, shift: false },
                Input { key: Key::Char('d'), ctrl: false, alt: true, shift: false },
            ),
            (
                KeyPress { code: KeyCode::Char('d'), ctrl: true, alt: false, shift: false },
                Input { key: Key::Char('d'), ctrl: true, alt: false, shift: false },
            ),
            (
                KeyPress { code: KeyCode::Char('z'), ctrl: true, alt: false, shift: false },
                Input { key: Key::Char('z'), ctrl: true, alt: false, shift: false },
            ),
            (
                KeyPress { code: KeyCode::Char('Z'), ctrl: true, alt: false, shift: true },
                Input { key: Key::Char('Z'), ctrl: true, alt: false, shift: true },
            ),
        ];
        for (key, input) in keys {
            app.message = String::new();
            let request = app.handle_key(key, input);
            assert_eq!(request, Request::Continue);
            assert_eq!(app.solution(), code, "{:?}", key);
            assert_eq!(app.cursor(), (row, 1));
            assert_eq!(app.message, SEALED, "{:?}", key);
            assert_eq!(app.message_style, plain(Color::Magenta));
            assert_eq!(app.player.hp, 100);
            assert_eq!(app.player.gold, 0);
            assert_eq!(app.player.hints_used_room, 0);
            assert_eq!(app.state, GameState::Playing);
        }
        ctrl(&mut app, 'p');
        assert_eq!(app.solution(), code);
        assert_eq!(app.message, "Cannot paste on a locked line.");
        assert_eq!(app.message_style, plain(Color::Magenta));
        app.delete_line();
        assert_eq!(app.solution(), code);
        assert_eq!(app.message, SEALED);
        app.paste_line();
        assert_eq!(app.solution(), code);
        assert_eq!(app.player.hp, 100);
    }
}

#[test]
fn unlocked_lines_take_edits() {
    let mut app = playing("let a = 1;\nlet b = 2;\nlet c = 3;", vec![1, 3]);
    down(&mut app);
    assert_eq!(app.cursor(), (1, 0));
    let message = app.message.clone();
    type_char(&mut app, '/');
    type_char(&mut app, '/');
    assert_eq!(app.solution(), "let a = 1;\n//let b = 2;\nlet c = 3;");
    assert_eq!(app.message, message);
    press(&mut app, KeyCode::Backspace, Key::Backspace);
    assert_eq!(app.solution(), "let a = 1;\n/let b = 2;\nlet c = 3;");
    ctrl(&mut app, 'z');
    assert_eq!(app.solution(), "let a = 1;\n//let b = 2;\nlet c = 3;");
    ctrl(&mut app, 'z');
    ctrl(&mut app, 'z');
    assert_eq!(app.solution(), "let a = 1;\nlet b = 2;\nlet c = 3;");
    app.handle_key(
        KeyPress { code: KeyCode::Char('Z'), ctrl: true, alt: false, shift: true },
        Input { key: Key::Char('z'), ctrl: true, alt: false, shift: true },
    );
    assert_eq!(app.solution(), "let a = 1;\n/let b = 2;\nlet c = 3;");
    ctrl(&mut app, 'd');
    assert_eq!(app.solution(), "let a = 1;\nlet c = 3;");
    assert_eq!(app.player.hp, 100);
}

#[test]
fn moving_on_a_locked_line_is_free() {
    let mut app = playing("one\ntwo", vec![1]);
    let message = app.message.clone();
    press(&mut app, KeyCode::Other, Key::Right);
    press(&mut app, KeyCode::End, Key::End);
    assert_eq!(app.cursor(), (0, 3));
    press(&mut app, KeyCode::Home, Key::Home);
    assert_eq!(app.cursor(), (0, 0));
    assert_eq!(app.message, message);
    assert_eq!(app.solution(), "one\ntwo");
}

#[test]
fn the_cursor_says_where_it_is() {
    let mut app = playing("one\ntwo\nthree", vec![]);
    down(&mut app);
    press(&mut app, KeyCode::Other, Key::Right);
    press(&mut app, KeyCode::Other, Key::Right);
    ctrl(&mut app, 'g');
    assert_eq!(app.message, "Line 2/3, Col 3");
    assert_eq!(app.message_style, plain(Color::DarkGray));
}

#[test]
fn pasting_takes_the_line_from_a_selection_that_started_on_it() {
    let mut app = playing("one\ntwo", vec![]);
    app.yank_buffer = "new".to_string();
    app.handle_key(
        KeyPress { code: KeyCode::Other, ctrl: false, alt: false, shift: true },
        Input { key: Key::Right, ctrl: false, alt: false, shift: true },
    );
    app.handle_key(
        KeyPress { code: KeyCode::Other, ctrl: false, alt: false, shift: true },
        Input { key: Key::Left, ctrl: false, alt: false, shift: true },
    );
    assert_eq!(app.cursor(), (0, 0));
    app.paste_line();
    assert_eq!(app.editor_lines(), vec!["", "new", "two"]);
    assert_eq!(app.cursor(), (1, 3));
}

#[test]
fn pasted_text_loses_a_carriage_return_at_its_end() {
    let mut app = playing("one\ntwo", vec![]);
    app.yank_buffer = "new\r".to_string();
    app.paste_line();
    assert_eq!(app.editor_lines(), vec!["one", "new", "two"]);
    assert_eq!(app.cursor(), (1, 3));
    app.yank_buffer = "\r".to_string();
    app.paste_line();
    assert_eq!(app.editor_lines(), vec!["one", "new", "", "two"]);
    assert_eq!(app.cursor(), (2, 0));
    assert_eq!(app.message, "Pasted line below.");
}
