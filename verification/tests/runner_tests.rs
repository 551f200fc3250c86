use rust_raid::{
    after_compile, after_run, clean_error_output, CompileResult, ProcessEnd, Step,
    ValidationResult,
};

fn failed(stderr: &str) -> ProcessEnd {
    ProcessEnd::Exited(CompileResult {
        success: false,
        stderr: stderr.to_string(),
        stdout: String::new(),
    })
}

fn printed(stdout: &str) -> ProcessEnd {
    ProcessEnd::Exited(CompileResult {
        success: true,
        stderr: String::new(),
        stdout: stdout.to_string(),
    })
}

#[test]
fn drops_progress_notices_and_blank_lines() {
    let stderr = "   Compiling solution v0.1.0\nerror: oops\n\n   \n  --> here\n";
    assert_eq!(clean_error_output(stderr, "/tmp/w/solution.rs"), "error: oops\n  --> here");
}

#[test]
fn rewrites_every_occurrence_of_the_path() {
    let path = "/tmp/.tmpAbC123/solution.rs";
    let stderr = "error[E0382]: borrow of moved value: `s`\n --> /tmp/.tmpAbC123/solution.rs:4:20\n  |\nnote: see /tmp/.tmpAbC123/solution.rs and /tmp/.tmpAbC123/solution.rs:9\n";
    assert_eq!(
        clean_error_output(stderr, path),
        "error[E0382]: borrow of moved value: `s`\n --> solution.rs:4:20\n  |\nnote: see solution.rs and solution.rs:9"
    );
}

#[test]
fn cleaned_text_does_not_depend_on_the_workspace() {
    let a = clean_error_output("error\n --> /tmp/a/solution.rs:1:1\n", "/tmp/a/solution.rs");
    let b = clean_error_output("error\n --> /var/x/y/solution.rs:1:1\n", "/var/x/y/solution.rs");
    assert_eq!(a, b);
    assert_eq!(a, "error\n --> solution.rs:1:1");
}

#[test]
fn an_empty_path_occurs_nowhere() {
    assert_eq!(clean_error_output("error: a\nb", ""), "error: a\nb");
}

#[test]
fn other_files_named_alike_are_kept() {
    assert_eq!(
        clean_error_output(" --> /other/solution.rs:1:1", "/tmp/w/solution.rs"),
        " --> /other/solution.rs:1:1"
    );
}

#[test]
fn nothing_left_is_an_empty_text() {
    assert_eq!(clean_error_output("", "/p"), "");
    assert_eq!(clean_error_output("\n\n  \nCompiling\n", "/p"), "");
}

#[test]
fn a_failed_compile_is_never_run() {
    let step = after_compile(&failed("error: no\n"), "/tmp/w/solution.rs");
    match step {
        Step::Done(ValidationResult::CompileError(text)) => assert_eq!(text, "error: no"),
        other => panic!("unexpected {:?}", other),
    }
}

#[test]
fn a_failed_compile_with_nothing_said_is_still_a_failure() {
    let step = after_compile(&failed(""), "/tmp/w/solution.rs");
    assert!(matches!(step, Step::Done(ValidationResult::CompileError(ref t)) if t.is_empty()));
}

#[test]
fn a_successful_compile_is_run() {
    let compile = ProcessEnd::Exited(CompileResult {
        success: true,
        stderr: "warning: unused variable\n".to_string(),
        stdout: String::new(),
    });
    assert!(matches!(after_compile(&compile, "/tmp/w/solution.rs"), Step::Run));
}

#[test]
fn output_without_the_trailing_newline_succeeds() {
    assert!(matches!(after_run(&printed("5\n3"), "5\n3\n"), ValidationResult::Success));
}

#[test]
fn margins_do_not_count() {
    assert!(matches!(after_run(&printed("\n  5\n3 \n\n"), "5\n3"), ValidationResult::Success));
    assert!(matches!(after_run(&printed(""), "  \n"), ValidationResult::Success));
}

#[test]
fn white_space_inside_counts() {
    match after_run(&printed("5 \n3"), "5\n3") {
        ValidationResult::WrongOutput { expected, got } => {
            assert_eq!(expected, "5\n3");
            assert_eq!(got, "5 \n3");
        }
        other => panic!("unexpected {:?}", other),
    }
    assert!(matches!(after_run(&printed("5\r\n3"), "5\n3"), ValidationResult::WrongOutput { .. }));
}

#[test]
fn more_output_than_expected_is_a_mismatch() {
    match after_run(&printed("5\n3\n1\n"), "5\n3\n") {
        ValidationResult::WrongOutput { expected, got } => {
            assert_eq!(expected, "5\n3");
            assert_eq!(got, "5\n3\n1");
            assert!(got.lines().count() > expected.lines().count());
        }
        other => panic!("unexpected {:?}", other),
    }
}

#[test]
fn the_same_outcome_gets_the_same_verdict() {
    let first = after_run(&printed("a\nb\n"), "a\nc\n");
    let second = after_run(&printed("a\nb\n"), "a\nc\n");
    match (first, second) {
        (
            ValidationResult::WrongOutput { expected: e1, got: g1 },
            ValidationResult::WrongOutput { expected: e2, got: g2 },
        ) => {
            assert_eq!(e1, e2);
            assert_eq!(g1, g2);
        }
        other => panic!("unexpected {:?}", other),
    }
}

#[test]
fn the_exit_status_of_the_program_does_not_count() {
    let run = ProcessEnd::Exited(CompileResult {
        success: false,
        stderr: "thread 'main' panicked".to_string(),
        stdout: "5\n3\n".to_string(),
    });
    assert!(matches!(after_run(&run, "5\n3"), ValidationResult::Success));
}

#[test]
fn a_stopped_compiler_ends_the_attempt() {
    assert!(matches!(
        after_compile(&ProcessEnd::TimedOut, "/tmp/w/solution.rs"),
        Step::Done(ValidationResult::TimedOut)
    ));
}

#[test]
fn a_stopped_program_is_timed_out() {
    assert!(matches!(after_run(&ProcessEnd::TimedOut, "5"), ValidationResult::TimedOut));
}
