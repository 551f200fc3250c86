//! The decisions of the validation harness.
//!
//! The harness compiles a candidate source file in a workspace of its own and,
//! if that succeeds, runs the program. Starting processes, and stopping one
//! that takes too long, is the driver's part. What is decided in between is
//! decided here: after the compiler has ended, whether the program is run
//! at all; after the program has ended, whether its output is the expected
//! one.

use vstd::prelude::*;
use vstd::string::*;
use crate::text::{
    contains, contains_in, cut_out, is_blank, join, lemma_join_push, lemma_trim_margins,
    line_spans, lines, replace_all, replace_into, spans_within, to_chars, to_text, trim,
    trim_range, trimmed,
};

verus! {

/// What a child process left behind when it exited.
#[derive(Debug)]
pub struct CompileResult {
    /// Whether the process reported success in its exit status.
    pub success: bool,
    /// Everything it wrote to its error stream.
    pub stderr: String,
    /// Everything it wrote to its output stream.
    pub stdout: String,
}

/// The outcome of one validation attempt.
#[derive(Debug)]
pub enum ValidationResult {
    /// The candidate did not compile. Carries the cleaned diagnostics.
    CompileError(String),
    /// The candidate ran and printed something else than expected. Both texts
    /// are trimmed.
    WrongOutput { expected: String, got: String },
    /// The candidate ran and printed what was expected.
    Success,
    /// The compiler or the candidate did not end within its time and was
    /// stopped.
    TimedOut,
}

/// How a child process ended.
#[derive(Debug)]
pub enum ProcessEnd {
    /// It exited by itself.
    Exited(CompileResult),
    /// It ran out of time and was stopped.
    TimedOut,
}

/// A validation attempt that could not be made: the workspace could not be
/// created or written, or a process could not be started. This is a fault of
/// the environment, not a mistake of the player.
#[derive(Debug)]
pub struct SystemError {
    pub message: String,
}

/// The mathematical value of a `ValidationResult`.
pub enum Verdict {
    CompileError(Seq<char>),
    WrongOutput { expected: Seq<char>, got: Seq<char> },
    Success,
    TimedOut,
}

/// The mathematical value of a `ProcessEnd`: whether the process exited
/// with success and what it wrote to its error and output streams, or
/// `None` for a process that was stopped.
pub open spec fn ended(end: ProcessEnd) -> Option<(bool, Seq<char>, Seq<char>)> {
    match end {
        ProcessEnd::Exited(result) => Some((result.success, result.stderr@, result.stdout@)),
        ProcessEnd::TimedOut => None,
    }
}

impl View for ValidationResult {
    type V = Verdict;

    open spec fn view(&self) -> Verdict {
        match self {
            ValidationResult::CompileError(text) => Verdict::CompileError(text@),
            ValidationResult::WrongOutput { expected, got } => Verdict::WrongOutput {
                expected: expected@,
                got: got@,
            },
            ValidationResult::Success => Verdict::Success,
            ValidationResult::TimedOut => Verdict::TimedOut,
        }
    }
}

/// The name under which the candidate's source file appears in diagnostics.
pub open spec fn canonical_name() -> Seq<char> {
    "solution.rs"@
}

/// A line of compiler output that tells the player nothing: a progress notice
/// of the build, or a line with nothing but white space on it.
pub open spec fn is_noise(line: Seq<char>) -> bool {
    contains(line, "Compiling"@) || trim(line).len() == 0
}

/// The lines that are kept.
pub open spec fn informative() -> spec_fn(Seq<char>) -> bool {
    |line: Seq<char>| !is_noise(line)
}

/// A line with the workspace path of the source file rewritten to its
/// canonical name.
pub open spec fn relocated(source_path: Seq<char>) -> spec_fn(Seq<char>) -> Seq<char> {
    |line: Seq<char>| replace_all(line, source_path, canonical_name())
}

/// The cleaned diagnostics: the informative lines of `stderr`, each with
/// every occurrence of `source_path` replaced by the canonical file name,
/// joined by line feeds.
pub open spec fn cleaned(stderr: Seq<char>, source_path: Seq<char>) -> Seq<char> {
    join(lines(stderr).filter(informative()).map_values(relocated(source_path)), seq!['\n'])
}

/// What one line more adds to the lines that are shown.
proof fn lemma_cleaned_step(done: Seq<Seq<char>>, line: Seq<char>, source_path: Seq<char>)
    ensures
        done.push(line).filter(informative()).map_values(relocated(source_path)) == if is_noise(
            line,
        ) {
            done.filter(informative()).map_values(relocated(source_path))
        } else {
            done.filter(informative()).map_values(relocated(source_path)).push(
                replace_all(line, source_path, canonical_name()),
            )
        },
{
    Seq::lemma_filter_push(done, line, informative());
    if !is_noise(line) {
        assert(done.filter(informative()).push(line).map_values(relocated(source_path))
            =~= done.filter(informative()).map_values(relocated(source_path)).push(
            replace_all(line, source_path, canonical_name()),
        ));
    }
}

/// Cleans the compiler's diagnostics for display. Progress notices and blank
/// lines are dropped, and wherever the path of the source file in its
/// workspace occurs, the canonical file name stands instead, so that the same
/// mistake gives the same text wherever the workspace was.
pub fn clean_error_output(stderr: &str, source_path: &str) -> (out: String)
    ensures
        out@ == cleaned(stderr@, source_path@),
{
    let hay = to_chars(stderr);
    let path = to_chars(source_path);
    let notice = to_chars("Compiling");
    let name = to_chars("solution.rs");
    let spans = line_spans(&hay);
    let mut out: Vec<char> = Vec::new();
    let mut any = false;
    let mut i: usize = 0;
    let ghost all = lines(hay@);
    assert(all.take(0) =~= Seq::<Seq<char>>::empty());
    while i < spans.len()
        invariant
            i <= spans.len(),
            spans_within(spans@, hay@.len()),
            all == cut_out(hay@, spans@),
            path@ == source_path@,
            notice@ == "Compiling"@,
            name@ == canonical_name(),
            any == (all.take(i as int).filter(informative()).len() > 0),
            out@ == join(
                all.take(i as int).filter(informative()).map_values(relocated(source_path@)),
                seq!['\n'],
            ),
        decreases spans.len() - i,
    {
        let (a, b) = spans[i];
        let ghost line = hay@.subrange(a as int, b as int);
        let ghost done = all.take(i as int);
        let ghost shown = done.filter(informative()).map_values(relocated(source_path@));
        proof {
            assert(all.take(i + 1) =~= done.push(line));
            lemma_cleaned_step(done, line, source_path@);
            lemma_join_push(shown, seq!['\n'], replace_all(line, source_path@, canonical_name()));
            Seq::lemma_filter_push(done, line, informative());
        }
        let (ta, tb) = trim_range(&hay, a, b);
        if !contains_in(&hay, a, b, &notice) && tb > ta {
            if any {
                out.push('\n');
                assert(out@ =~= join(shown, seq!['\n']) + seq!['\n']);
            }
            replace_into(&mut out, &hay, a, b, &path, &name);
            any = true;
        }
        i += 1;
    }
    assert(all.take(i as int) =~= all);
    let text = to_text(&out, 0, out.len());
    assert(out@.subrange(0, out@.len() as int) =~= out@);
    text
}

/// What the harness does once the compiler has exited.
#[derive(Debug)]
pub enum Step {
    /// The candidate compiled: run the program it was compiled to.
    Run,
    /// The attempt is over. Nothing is run.
    Done(ValidationResult),
}

/// The mathematical value of a `Step`.
pub enum StepView {
    Run,
    Done(Verdict),
}

impl View for Step {
    type V = StepView;

    open spec fn view(&self) -> StepView {
        match self {
            Step::Run => StepView::Run,
            Step::Done(result) => StepView::Done(result@),
        }
    }
}

/// The step that follows the end of the compiler. Only a compiler that
/// exited with success is followed by a run.
pub open spec fn step_after_compile(
    compile: Option<(bool, Seq<char>, Seq<char>)>,
    source_path: Seq<char>,
) -> StepView {
    match compile {
        None => StepView::Done(Verdict::TimedOut),
        Some((success, stderr, stdout)) => if success {
            StepView::Run
        } else {
            StepView::Done(Verdict::CompileError(cleaned(stderr, source_path)))
        },
    }
}

/// The verdict on a program that printed `stdout` where `expected_output` was
/// asked for. The two are compared without their leading and trailing white
/// space, and otherwise character by character.
pub open spec fn verdict_on_output(stdout: Seq<char>, expected_output: Seq<char>) -> Verdict {
    if trim(stdout) == trim(expected_output) {
        Verdict::Success
    } else {
        Verdict::WrongOutput { expected: trim(expected_output), got: trim(stdout) }
    }
}

/// The verdict that follows the end of the program. Its exit status and
/// its error stream do not count.
pub open spec fn verdict_after_run(
    run: Option<(bool, Seq<char>, Seq<char>)>,
    expected_output: Seq<char>,
) -> Verdict {
    match run {
        None => Verdict::TimedOut,
        Some((success, stderr, stdout)) => verdict_on_output(stdout, expected_output),
    }
}

/// The verdict of a whole attempt: of a candidate whose compilation ended
/// as `compile` says and whose program, if there was one to run, ended as
/// `run` says.
pub open spec fn verdict_of(
    compile: Option<(bool, Seq<char>, Seq<char>)>,
    source_path: Seq<char>,
    run: Option<(bool, Seq<char>, Seq<char>)>,
    expected_output: Seq<char>,
) -> Verdict {
    match step_after_compile(compile, source_path) {
        StepView::Done(verdict) => verdict,
        StepView::Run => verdict_after_run(run, expected_output),
    }
}

/// Decides what follows the end of the compiler. A compilation that failed
/// ends the attempt with the cleaned diagnostics, one that was stopped ends
/// it as timed out, and in both cases the step returned is not `Run`. A
/// successful one asks for the program to be run.
///
/// `source_path` is the path that the compiler was given for the source file.
pub fn after_compile(compile: &ProcessEnd, source_path: &str) -> (step: Step)
    ensures
        step@ == step_after_compile(ended(*compile), source_path@),
        step is Run <==> (compile matches ProcessEnd::Exited(result) && result.success),
{
    match compile {
        ProcessEnd::TimedOut => Step::Done(ValidationResult::TimedOut),
        ProcessEnd::Exited(result) => {
            if result.success {
                Step::Run
            } else {
                Step::Done(
                    ValidationResult::CompileError(
                        clean_error_output(result.stderr.as_str(), source_path),
                    ),
                )
            }
        },
    }
}

/// Judges what the program printed against what was expected.
pub fn after_run(run: &ProcessEnd, expected_output: &str) -> (result: ValidationResult)
    ensures
        result@ == verdict_after_run(ended(*run), expected_output@),
{
    match run {
        ProcessEnd::TimedOut => ValidationResult::TimedOut,
        ProcessEnd::Exited(output) => {
            let got = trimmed(output.stdout.as_str());
            let expected = trimmed(expected_output);
            if got == expected {
                ValidationResult::Success
            } else {
                ValidationResult::WrongOutput { expected, got }
            }
        },
    }
}

/// A candidate that does not compile is never run: the attempt ends with
/// the compile failure, however a program might have ended. The same holds
/// of a compiler that was stopped.
pub proof fn lemma_failed_compile_is_final(
    stderr: Seq<char>,
    stdout: Seq<char>,
    source_path: Seq<char>,
    run: Option<(bool, Seq<char>, Seq<char>)>,
    expected_output: Seq<char>,
)
    ensures
        step_after_compile(Some((false, stderr, stdout)), source_path) !is Run,
        verdict_of(Some((false, stderr, stdout)), source_path, run, expected_output)
            == Verdict::CompileError(cleaned(stderr, source_path)),
        step_after_compile(None, source_path) !is Run,
        verdict_of(None, source_path, run, expected_output) == Verdict::TimedOut,
{
}

/// An output that equals the expected one after trimming is a success,
/// and only such an output is.
pub proof fn lemma_success_is_trimmed_equality(stdout: Seq<char>, expected_output: Seq<char>)
    ensures
        verdict_on_output(stdout, expected_output) is Success <==> trim(stdout) == trim(
            expected_output,
        ),
{
}

/// White space around the output, or around the expected output, makes no
/// difference to the verdict.
pub proof fn lemma_margins_do_not_count(
    stdout: Seq<char>,
    expected_output: Seq<char>,
    before: Seq<char>,
    after: Seq<char>,
)
    requires
        is_blank(before),
        is_blank(after),
    ensures
        verdict_on_output(before + stdout + after, expected_output) == verdict_on_output(
            stdout,
            expected_output,
        ),
        verdict_on_output(stdout, before + expected_output + after) == verdict_on_output(
            stdout,
            expected_output,
        ),
{
    lemma_trim_margins(before, stdout, after);
    lemma_trim_margins(before, expected_output, after);
}

/// The verdict is decided by how the compiler and the program ended: two
/// attempts on the same paths that agree in that get the same verdict.
pub proof fn lemma_verdict_is_determined(
    first_compile: ProcessEnd,
    first_run: ProcessEnd,
    second_compile: ProcessEnd,
    second_run: ProcessEnd,
    source_path: Seq<char>,
    expected_output: Seq<char>,
)
    requires
        ended(first_compile) == ended(second_compile),
        ended(first_run) == ended(second_run),
    ensures
        verdict_of(ended(first_compile), source_path, ended(first_run), expected_output)
            == verdict_of(
            ended(second_compile),
            source_path,
            ended(second_run),
            expected_output,
        ),
{
}

} // verus!
