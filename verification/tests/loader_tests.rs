use rust_raid::{
    check_room, is_room_file, load_floor, room_files, Challenge, LoadError, Narrative, Room,
    RoomMeta,
};

fn room(id: &str, code: &str, expected: &str, locked: Vec<usize>) -> Room {
    Room {
        meta: RoomMeta {
            id: id.to_string(),
            room_number: 1,
            title: "Title".to_string(),
            concept: "Concept".to_string(),
        },
        narrative: Narrative {
            entry: None,
            intro: "intro".to_string(),
            success: "success".to_string(),
            failure_compile: "compile".to_string(),
            failure_output: "output".to_string(),
            hints: vec![],
            alternative_solution: None,
        },
        challenge: Challenge {
            code: code.to_string(),
            expected_output: expected.to_string(),
            locked_lines: locked,
        },
        scoring: None,
        rewards: None,
        codex: None,
    }
}

#[test]
fn room_files_are_told_by_their_names() {
    assert!(is_room_file("room_01.toml"));
    assert!(is_room_file("room_.toml"));
    assert!(is_room_file("room_torch.toml"));
    assert!(!is_room_file("room_01.tom"));
    assert!(!is_room_file("Room_01.toml"));
    assert!(!is_room_file("xroom_01.toml"));
    assert!(!is_room_file("room_01.toml.bak"));
    assert!(!is_room_file(".toml"));
    assert!(!is_room_file("room_"));
    assert!(!is_room_file(""));
}

#[test]
fn room_files_come_in_the_order_of_their_names() {
    let names: Vec<String> = ["room_03.toml", "notes.txt", "room_01.toml", "room_10.toml", "room_02.toml", "floor.toml"]
        .iter()
        .map(|s| s.to_string())
        .collect();
    assert_eq!(
        room_files(&names),
        vec!["room_01.toml", "room_02.toml", "room_03.toml", "room_10.toml"]
    );
}

#[test]
fn room_files_of_an_empty_directory() {
    assert!(room_files(&Vec::new()).is_empty());
    assert!(room_files(&vec!["readme.md".to_string()]).is_empty());
}

#[test]
fn room_files_sort_like_std() {
    let names: Vec<String> = ["room_b.toml", "room_B.toml", "room_1.toml", "room_é.toml", "room_10.toml", "room_.toml"]
        .iter()
        .map(|s| s.to_string())
        .collect();
    let mut expected = names.clone();
    expected.sort();
    assert_eq!(room_files(&names), expected);
}

#[test]
fn a_sound_room_passes() {
    assert!(check_room(&room("a", "fn main() {}\n", "x", vec![])).is_ok());
    assert!(check_room(&room("a", "\n\nl1\nl2\nl3\n\n", "x", vec![1, 3])).is_ok());
}

#[test]
fn a_room_without_code_fails() {
    match check_room(&room("torch", "", "x", vec![])) {
        Err(LoadError::EmptyCode { room }) => assert_eq!(room, "torch"),
        other => panic!("unexpected {:?}", other),
    }
}

#[test]
fn a_room_without_expected_output_fails() {
    match check_room(&room("torch", "code", "", vec![])) {
        Err(LoadError::EmptyExpectedOutput { room }) => assert_eq!(room, "torch"),
        other => panic!("unexpected {:?}", other),
    }
}

#[test]
fn a_locked_line_must_be_a_line_of_the_code() {
    match check_room(&room("torch", "a\nb\n", "x", vec![2, 3, 0])) {
        Err(LoadError::LockedLineOutOfRange { room, line }) => {
            assert_eq!(room, "torch");
            assert_eq!(line, 3);
        }
        other => panic!("unexpected {:?}", other),
    }
    assert!(matches!(
        check_room(&room("torch", "a\nb\n", "x", vec![0])),
        Err(LoadError::LockedLineOutOfRange { line: 0, .. })
    ));
    assert!(matches!(
        check_room(&room("torch", "  \n", "x", vec![1])),
        Err(LoadError::LockedLineOutOfRange { line: 1, .. })
    ));
}

#[test]
fn a_floor_keeps_the_order_of_its_rooms() {
    let floor = load_floor(vec![
        Ok(room("one", "a", "x", vec![])),
        Ok(room("two", "b", "y", vec![1])),
    ])
    .unwrap();
    assert_eq!(floor.len(), 2);
    assert_eq!(floor[0].meta.id, "one");
    assert_eq!(floor[1].meta.id, "two");
}

#[test]
fn an_empty_floor_fails() {
    assert!(matches!(load_floor(vec![]), Err(LoadError::EmptyFloor)));
}

#[test]
fn the_first_failure_fails_the_floor() {
    let result = load_floor(vec![
        Ok(room("one", "a", "x", vec![])),
        Err(LoadError::Malformed { reason: "missing field `meta`".to_string() }),
        Ok(room("three", "", "x", vec![])),
        Err(LoadError::Malformed { reason: "later".to_string() }),
    ]);
    match result {
        Err(LoadError::Malformed { reason }) => assert_eq!(reason, "missing field `meta`"),
        other => panic!("unexpected {:?}", other.map(|r| r.len())),
    }
    let result = load_floor(vec![
        Ok(room("one", "a", "", vec![])),
        Err(LoadError::Malformed { reason: "later".to_string() }),
    ]);
    assert!(matches!(result, Err(LoadError::EmptyExpectedOutput { .. })));
}

#[test]
fn load_errors_say_what_is_wrong() {
    assert_eq!(LoadError::Malformed { reason: "bad toml".to_string() }.message(), "bad toml");
    assert_eq!(LoadError::EmptyCode { room: "r".to_string() }.message(), "room r has no code");
    assert_eq!(
        LoadError::EmptyExpectedOutput { room: "r".to_string() }.message(),
        "room r has no expected output"
    );
    assert_eq!(
        LoadError::LockedLineOutOfRange { room: "r".to_string(), line: 12 }.message(),
        "room r locks line 12, which its code does not have"
    );
    assert_eq!(LoadError::EmptyFloor.message(), "the floor has no rooms");
}
