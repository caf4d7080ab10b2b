use context_budget::render::{
    command_report, render_command, render_executed, render_file, CommandOutput,
};
use context_budget::text::{push_decimal, push_decimal_nat, to_crlf};

fn decimal(value: i32) -> String {
    let mut out = String::new();
    push_decimal(&mut out, value);
    out
}

#[test]
fn decimal_numerals() {
    assert_eq!(decimal(0), "0");
    assert_eq!(decimal(7), "7");
    assert_eq!(decimal(10), "10");
    assert_eq!(decimal(127), "127");
    assert_eq!(decimal(-1), "-1");
    assert_eq!(decimal(i32::MAX), "2147483647");
    assert_eq!(decimal(i32::MIN), "-2147483648");
}

#[test]
fn decimal_is_appended() {
    let mut out = String::from("n=");
    push_decimal_nat(&mut out, 18446744073709551615);
    assert_eq!(out, "n=18446744073709551615");
    push_decimal(&mut out, -40);
    assert_eq!(out, "n=18446744073709551615-40");
}

#[test]
fn line_feeds_become_crlf() {
    assert_eq!(to_crlf(""), "");
    assert_eq!(to_crlf("abc"), "abc");
    assert_eq!(to_crlf("a\nb\n"), "a\r\nb\r\n");
    assert_eq!(to_crlf("\n\n"), "\r\n\r\n");
    assert_eq!(to_crlf("a\r\nb"), "a\r\r\nb");
    assert_eq!(to_crlf("h\u{e9}\n\u{4e16}"), "h\u{e9}\r\n\u{4e16}");
}

#[test]
fn file_template() {
    assert_eq!(
        render_file("src/a.txt", "hello\n"),
        "File name: \"src/a.txt\"\n\nFile contents: \"\"\"\nhello\n\"\"\"\n----------\n\n"
    );
    assert_eq!(
        render_file("", ""),
        "File name: \"\"\n\nFile contents: \"\"\"\n\"\"\"\n----------\n\n"
    );
}

#[test]
fn report_template() {
    assert_eq!(
        command_report(Some(0), "hi\n", ""),
        "Exit Status: 0\n\nSTDOUT:\nhi\n\n\nSTDERR:\n"
    );
    assert_eq!(
        command_report(Some(2), "", "no such file\n"),
        "Exit Status: 2\n\nSTDOUT:\n\n\nSTDERR:\nno such file\n"
    );
}

#[test]
fn a_command_without_exit_code_reports_minus_one() {
    assert_eq!(command_report(None, "", ""), "Exit Status: -1\n\nSTDOUT:\n\n\nSTDERR:\n");
}

#[test]
fn command_template() {
    assert_eq!(
        render_command("ls", "REPORT"),
        "Command: \"ls\"\n\nCommand output: \"\"\"\nREPORT\"\"\"\n----------\n\n"
    );
}

#[test]
fn echo_hi_renders_status_stdout_and_empty_stderr() {
    let output = CommandOutput { exit_code: Some(0), stdout: b"hi\n".to_vec(), stderr: Vec::new() };
    let chunk = render_executed("echo hi", &output);
    assert!(chunk.contains("Exit Status: 0"));
    assert!(chunk.contains("STDOUT:\nhi\n"));
    assert!(chunk.ends_with("STDERR:\n\"\"\"\n----------\n\n"));
    assert_eq!(
        chunk,
        "Command: \"echo hi\"\n\nCommand output: \"\"\"\nExit Status: 0\n\nSTDOUT:\nhi\n\n\nSTDERR:\n\"\"\"\n----------\n\n"
    );
}

#[test]
fn failing_command_shows_its_code_and_stderr() {
    let output = CommandOutput {
        exit_code: Some(127),
        stdout: Vec::new(),
        stderr: b"sh: nope: not found\n".to_vec(),
    };
    let chunk = render_executed("nope", &output);
    assert!(chunk.contains("Exit Status: 127\n"));
    assert!(chunk.contains("STDERR:\nsh: nope: not found\n\"\"\""));
}

#[test]
fn invalid_bytes_are_decoded_lossily() {
    let output = CommandOutput {
        exit_code: Some(0),
        stdout: vec![b'a', 0xff, b'b'],
        stderr: vec![0xc3, 0xa9],
    };
    let chunk = render_executed("cat blob", &output);
    assert!(chunk.contains("STDOUT:\na\u{fffd}b\n\nSTDERR:\n\u{e9}\"\"\""));
}
