use context_budget::error::{ErrorKind, RunError};
use context_budget::render::{render_executed, render_file, CommandOutput};
use context_budget::run::{Action, Event, LineEnding, Note, Run, Stage, Step};
use context_budget::tokenizer::count_tokens;

fn strings(items: &[&str]) -> Vec<String> {
    items.iter().map(|item| item.to_string()).collect()
}

fn run_with(limit: usize, globs: &[&str], commands: &[&str]) -> Run {
    Run::new(limit, &strings(globs), strings(commands), LineEnding::Unchanged).unwrap()
}

fn finished(code: i32, stdout: &str, stderr: &str) -> CommandOutput {
    CommandOutput {
        exit_code: Some(code),
        stdout: stdout.as_bytes().to_vec(),
        stderr: stderr.as_bytes().to_vec(),
    }
}

fn expect_read(step: Step, expected: &str) {
    assert_eq!(step.note, Note::Nothing);
    match step.action {
        Action::ReadFile { path } => assert_eq!(path, expected),
        other => panic!("unexpected action {:?}", other),
    }
}

fn expect_next(step: Step, note: Note) {
    assert_eq!(step.note, note);
    assert!(matches!(step.action, Action::NextFile));
}

fn expect_command(step: Step, expected: &str) {
    match step.action {
        Action::RunCommand { command } => assert_eq!(command, expected),
        other => panic!("unexpected action {:?}", other),
    }
}

fn expect_abort(step: Step, kind: ErrorKind, message: &str) {
    match step.action {
        Action::Abort { error } => {
            assert_eq!(error.kind(), kind);
            assert_eq!(error.message(), message);
        },
        other => panic!("unexpected action {:?}", other),
    }
}

fn expect_delivery(step: Step, text: &str, tokens: usize) {
    match step.action {
        Action::Deliver { result } => {
            assert_eq!(result.text, text);
            assert_eq!(result.token_count, tokens);
        },
        other => panic!("unexpected action {:?}", other),
    }
}

#[test]
fn two_text_files_within_the_limit_are_delivered() {
    let mut run = run_with(40, &["*.txt"], &[]);
    assert!(matches!(run.pending(), Action::NextFile));
    expect_read(run.file_found("./a.txt".to_string()), "./a.txt");
    expect_next(run.file_text_measured("alpha", Some(12)), Note::Admitted { tokens: 12 });
    expect_next(run.file_found("./main.rs".to_string()), Note::Nothing);
    expect_read(run.file_found("./b.txt".to_string()), "./b.txt");
    expect_next(run.file_text_measured("beta", Some(20)), Note::Admitted { tokens: 20 });
    assert_eq!(run.token_count(), 32);
    let expected = format!("{}{}", render_file("./a.txt", "alpha"), render_file("./b.txt", "beta"));
    expect_delivery(run.files_exhausted(), &expected, 32);
    assert_eq!(run.stage(), Stage::Delivered);
}

#[test]
fn two_text_files_over_the_limit_exceed_the_budget() {
    let mut run = run_with(25, &["*.txt"], &["echo never"]);
    expect_read(run.file_found("./a.txt".to_string()), "./a.txt");
    expect_next(run.file_text_measured("alpha", Some(12)), Note::Admitted { tokens: 12 });
    expect_read(run.file_found("./b.txt".to_string()), "./b.txt");
    expect_abort(
        run.file_text_measured("beta", Some(20)),
        ErrorKind::BudgetExceeded,
        "Error: Token limit exceeded",
    );
    assert_eq!(run.stage(), Stage::Aborted);
    assert_eq!(run.token_count(), 12);
    let after = run.files_exhausted();
    assert_eq!(after.note, Note::Ignored);
    assert!(matches!(after.action, Action::Idle));
    assert!(matches!(run.pending(), Action::Idle));
}

#[test]
fn no_files_and_no_commands_is_an_empty_result() {
    let mut run = run_with(40, &[], &[]);
    expect_abort(
        run.files_exhausted(),
        ErrorKind::EmptyResult,
        "Error: No tokens found in the provided files or command outputs",
    );
    assert_eq!(run.stage(), Stage::Aborted);
}

#[test]
fn files_that_match_nothing_give_an_empty_result() {
    let mut run = run_with(40, &["*.txt"], &[]);
    expect_next(run.file_found("./a.rs".to_string()), Note::Nothing);
    expect_next(run.file_found("./b.rs".to_string()), Note::Nothing);
    expect_abort(
        run.files_exhausted(),
        ErrorKind::EmptyResult,
        "Error: No tokens found in the provided files or command outputs",
    );
}

#[test]
fn chunks_without_tokens_give_an_empty_result() {
    let mut run = run_with(40, &["*"], &[]);
    expect_read(run.file_found("./a".to_string()), "./a");
    expect_next(run.file_text_measured("", Some(0)), Note::Admitted { tokens: 0 });
    expect_abort(
        run.files_exhausted(),
        ErrorKind::EmptyResult,
        "Error: No tokens found in the provided files or command outputs",
    );
}

#[test]
fn commands_follow_files_in_the_order_given() {
    let mut run = run_with(100, &["*.txt"], &["first", "second", "third"]);
    expect_read(run.file_found("./a.txt".to_string()), "./a.txt");
    expect_next(run.file_text_measured("A", Some(5)), Note::Admitted { tokens: 5 });
    let step = run.files_exhausted();
    assert_eq!(step.note, Note::Nothing);
    expect_command(step, "first");
    assert_eq!(run.stage(), Stage::Running);
    let one = finished(0, "1", "");
    let two = finished(0, "2", "");
    let three = finished(0, "3", "");
    let step = run.command_finished_measured(&one, Some(7));
    assert_eq!(step.note, Note::Admitted { tokens: 7 });
    expect_command(step, "second");
    expect_command(run.command_finished_measured(&two, Some(0)), "third");
    let expected = format!(
        "{}{}{}",
        render_file("./a.txt", "A"),
        render_executed("first", &one),
        render_executed("third", &three)
    );
    expect_delivery(run.command_finished_measured(&three, Some(9)), &expected, 21);
}

#[test]
fn a_file_reported_after_the_enumeration_ended_is_ignored() {
    let mut run = run_with(100, &["*.txt"], &["date"]);
    expect_command(run.files_exhausted(), "date");
    let step = run.file_found("./late.txt".to_string());
    assert_eq!(step.note, Note::Ignored);
    expect_command(step, "date");
    let step = run.file_text_measured("late", Some(1));
    assert_eq!(step.note, Note::Ignored);
    expect_command(step, "date");
    assert_eq!(run.token_count(), 0);
}

#[test]
fn an_answer_that_was_not_asked_for_is_ignored() {
    let mut run = run_with(100, &["*.txt"], &["date"]);
    let step = run.command_finished_measured(&finished(0, "", ""), Some(4));
    assert_eq!(step.note, Note::Ignored);
    assert!(matches!(step.action, Action::NextFile));
    let step = run.file_not_text();
    assert_eq!(step.note, Note::Ignored);
    expect_read(run.file_found("./a.txt".to_string()), "./a.txt");
    let step = run.files_exhausted();
    assert_eq!(step.note, Note::Ignored);
    match step.action {
        Action::ReadFile { path } => assert_eq!(path, "./a.txt"),
        other => panic!("unexpected action {:?}", other),
    }
    let step = run.command_not_launched();
    assert_eq!(step.note, Note::Ignored);
    assert_eq!(run.stage(), Stage::Reading);
}

#[test]
fn a_file_that_is_not_text_is_skipped() {
    let mut run = run_with(100, &["*"], &[]);
    expect_read(run.file_found("./blob.bin".to_string()), "./blob.bin");
    expect_next(run.file_not_text(), Note::Skipped);
    assert_eq!(run.stage(), Stage::Walking);
    expect_read(run.file_found("./a.txt".to_string()), "./a.txt");
    expect_next(run.file_text_measured("A", Some(3)), Note::Admitted { tokens: 3 });
    expect_delivery(run.files_exhausted(), &render_file("./a.txt", "A"), 3);
}

#[test]
fn a_file_that_cannot_be_read_fails_the_run() {
    let mut run = run_with(100, &["*"], &[]);
    expect_read(run.file_found("./locked.txt".to_string()), "./locked.txt");
    expect_abort(run.file_unreadable(), ErrorKind::FileRead, "Failed to read file: ./locked.txt");
    assert_eq!(run.stage(), Stage::Aborted);
}

#[test]
fn a_broken_enumeration_fails_the_run() {
    let mut run = run_with(100, &["*"], &[]);
    expect_abort(
        run.walk_failed("permission denied"),
        ErrorKind::Enumeration,
        "permission denied",
    );
}

#[test]
fn a_command_that_cannot_be_launched_fails_the_run() {
    let mut run = run_with(100, &[], &["ls", "pwd"]);
    expect_command(run.files_exhausted(), "ls");
    expect_command(run.command_finished_measured(&finished(0, "x", ""), Some(2)), "pwd");
    expect_abort(
        run.command_not_launched(),
        ErrorKind::CommandLaunch,
        "Failed to execute command: pwd",
    );
    assert_eq!(run.token_count(), 2);
}

#[test]
fn a_failing_command_does_not_fail_the_run() {
    let mut run = run_with(100, &[], &["false"]);
    expect_command(run.files_exhausted(), "false");
    let output = finished(1, "", "boom\n");
    let step = run.command_finished_measured(&output, Some(11));
    assert_eq!(step.note, Note::Admitted { tokens: 11 });
    match step.action {
        Action::Deliver { result } => {
            assert!(result.text.contains("Exit Status: 1\n"));
            assert!(result.text.contains("STDERR:\nboom\n\"\"\""));
            assert_eq!(result.token_count, 11);
        },
        other => panic!("unexpected action {:?}", other),
    }
}

#[test]
fn a_command_over_the_limit_exceeds_the_budget() {
    let mut run = run_with(10, &[], &["yes"]);
    expect_command(run.files_exhausted(), "yes");
    expect_abort(
        run.command_finished_measured(&finished(0, "y", ""), Some(11)),
        ErrorKind::BudgetExceeded,
        "Error: Token limit exceeded",
    );
}

#[test]
fn a_chunk_that_cannot_be_measured_fails_the_run() {
    let mut run = run_with(10, &["*"], &[]);
    expect_read(run.file_found("a".to_string()), "a");
    expect_abort(
        run.file_text_measured("text", None),
        ErrorKind::Tokenizer,
        "Error: Failed to count tokens",
    );
}

#[test]
fn a_token_limit_of_zero_is_a_usage_error() {
    let error = Run::new(0, &strings(&["["]), Vec::new(), LineEnding::CrLf).err().unwrap();
    assert_eq!(error.kind(), ErrorKind::Usage);
    assert_eq!(error.message(), "Error: Token limit must be a positive integer");
}

#[test]
fn a_malformed_pattern_fails_before_the_run_starts() {
    let error = Run::new(5, &strings(&["["]), Vec::new(), LineEnding::CrLf).err().unwrap();
    assert_eq!(error.kind(), ErrorKind::Usage);
    assert!(error.message().starts_with("Invalid include glob pattern: "));
}

#[test]
fn line_ends_are_normalized_once_at_delivery() {
    let mut run =
        Run::new(100, &strings(&["*"]), strings(&["ls"]), LineEnding::CrLf).unwrap();
    expect_read(run.file_found("a".to_string()), "a");
    expect_next(run.file_text_measured("x\ny", Some(4)), Note::Admitted { tokens: 4 });
    expect_command(run.files_exhausted(), "ls");
    let output = finished(0, "a\n", "");
    let plain = format!("{}{}", render_file("a", "x\ny"), render_executed("ls", &output));
    let step = run.command_finished_measured(&output, Some(6));
    expect_delivery(step, &plain.replace('\n', "\r\n"), 10);
}

#[test]
fn events_are_measured_by_the_tokenizer() {
    let mut run = run_with(1000, &["*.txt"], &["echo hi"]);
    expect_read(run.step(Event::FileFound { path: "./a.txt".to_string() }), "./a.txt");
    let file_chunk = render_file("./a.txt", "hello world");
    let file_cost = count_tokens(&file_chunk).unwrap();
    assert!(file_cost > 2);
    expect_next(
        run.step(Event::FileText { contents: "hello world".to_string() }),
        Note::Admitted { tokens: file_cost },
    );
    expect_command(run.step(Event::FilesExhausted), "echo hi");
    let output = finished(0, "hi\n", "");
    let command_chunk = render_executed("echo hi", &output);
    let command_cost = count_tokens(&command_chunk).unwrap();
    let step = run.step(Event::CommandFinished { output });
    assert_eq!(step.note, Note::Admitted { tokens: command_cost });
    expect_delivery(step, &format!("{}{}", file_chunk, command_chunk), file_cost + command_cost);
}

#[test]
fn measured_events_go_through_the_same_transitions() {
    let mut run = run_with(10, &["*"], &["ls"]);
    expect_read(run.step_measured(Event::FileFound { path: "a".to_string() }, None), "a");
    expect_next(run.step_measured(Event::FileNotText, None), Note::Skipped);
    expect_read(run.step_measured(Event::FileFound { path: "b".to_string() }, None), "b");
    expect_next(
        run.step_measured(Event::FileText { contents: "B".to_string() }, Some(4)),
        Note::Admitted { tokens: 4 },
    );
    expect_command(run.step_measured(Event::FilesExhausted, None), "ls");
    expect_abort(
        run.step_measured(Event::CommandNotLaunched, None),
        ErrorKind::CommandLaunch,
        "Failed to execute command: ls",
    );
    let mut other = run_with(10, &["*"], &[]);
    expect_abort(
        other.step(Event::WalkFailed { detail: "gone".to_string() }),
        ErrorKind::Enumeration,
        "gone",
    );
    let mut third = run_with(10, &["*"], &[]);
    expect_read(third.step(Event::FileFound { path: "c".to_string() }), "c");
    expect_abort(
        third.step(Event::FileUnreadable),
        ErrorKind::FileRead,
        "Failed to read file: c",
    );
}

#[test]
fn the_same_events_give_the_same_document() {
    let mut documents = Vec::new();
    for _ in 0..2 {
        let mut run = run_with(1000, &["*.md"], &["uname"]);
        run.step(Event::FileFound { path: "./README.md".to_string() });
        run.step(Event::FileText { contents: "# Title\n\nBody.\n".to_string() });
        run.step(Event::FilesExhausted);
        let step = run.step(Event::CommandFinished { output: finished(0, "Linux\n", "") });
        match step.action {
            Action::Deliver { result } => documents.push((result.text, result.token_count)),
            other => panic!("unexpected action {:?}", other),
        }
    }
    assert_eq!(documents[0], documents[1]);
}

#[test]
fn failures_carry_their_kind_and_message() {
    let sink = RunError::sink("clipboard unavailable");
    assert_eq!(sink.kind(), ErrorKind::Sink);
    assert_eq!(sink.message(), "clipboard unavailable");
    let walk = RunError::enumeration("Invalid path");
    assert_eq!(walk.kind(), ErrorKind::Enumeration);
    assert_eq!(walk.message(), "Invalid path");
    let made = RunError::new(ErrorKind::FileRead, "Failed to read file: ", "x");
    assert_eq!(made.message(), "Failed to read file: x");
    let fixed = RunError::fixed(ErrorKind::BudgetExceeded, "Error: Token limit exceeded");
    assert_eq!(fixed.kind(), ErrorKind::BudgetExceeded);
    assert_eq!(fixed.message(), "Error: Token limit exceeded");
}
