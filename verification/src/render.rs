//! The unit renderer: wraps file contents and command results in their labelled templates.

use vstd::prelude::*;
use crate::text::{decimal, push_decimal};

verus! {

/// What running a command gave: its exit code, if it ended with one, and the raw bytes
/// of its two output streams.
#[derive(Clone, Debug)]
pub struct CommandOutput {
    pub exit_code: Option<i32>,
    pub stdout: Vec<u8>,
    pub stderr: Vec<u8>,
}

/// The text that `String::from_utf8_lossy` gives for a byte sequence.
pub uninterp spec fn utf8_lossy(bytes: Seq<u8>) -> Seq<char>;

/// Decodes bytes as UTF-8 with `String::from_utf8_lossy`, which puts U+FFFD in place of
/// each invalid sequence.
///
/// Trusted: the result is a function of the bytes alone.
#[verifier::external_body]
pub(crate) fn decode_lossy(bytes: &[u8]) -> (text: String)
    ensures
        text@ == utf8_lossy(bytes@),
{
    String::from_utf8_lossy(bytes).into_owned()
}

/// The number reported for a command: its exit code, or -1 when it ended without one.
pub open spec fn exit_status(exit_code: Option<i32>) -> int {
    match exit_code {
        Some(code) => code as int,
        None => -1,
    }
}

/// The report of a finished command: status, standard output, standard error.
pub open spec fn command_report_text(
    exit_code: Option<i32>,
    stdout: Seq<char>,
    stderr: Seq<char>,
) -> Seq<char> {
    "Exit Status: "@ + decimal(exit_status(exit_code)) + "\n\nSTDOUT:\n"@ + stdout
        + "\n\nSTDERR:\n"@ + stderr
}

/// The chunk that stands for a file in the document.
pub open spec fn file_chunk_text(path: Seq<char>, contents: Seq<char>) -> Seq<char> {
    "File name: \""@ + path + "\"\n\nFile contents: \"\"\"\n"@ + contents
        + "\"\"\"\n----------\n\n"@
}

/// The chunk that stands for a command in the document.
pub open spec fn command_chunk_text(command: Seq<char>, report: Seq<char>) -> Seq<char> {
    "Command: \""@ + command + "\"\n\nCommand output: \"\"\"\n"@ + report
        + "\"\"\"\n----------\n\n"@
}

/// The chunk of a command together with its decoded output.
pub open spec fn executed_chunk_text(command: Seq<char>, output: CommandOutput) -> Seq<char> {
    command_chunk_text(
        command,
        command_report_text(
            output.exit_code,
            utf8_lossy(output.stdout@),
            utf8_lossy(output.stderr@),
        ),
    )
}

/// Writes the report of a finished command. A command that ended without an exit code
/// is reported with status -1; a non-zero status is data like any other.
pub fn command_report(exit_code: Option<i32>, stdout: &str, stderr: &str) -> (report: String)
    ensures
        report@ == command_report_text(exit_code, stdout@, stderr@),
{
    let status: i32 = match exit_code {
        Some(code) => code,
        None => -1,
    };
    let mut report = String::new();
    report.push_str("Exit Status: ");
    push_decimal(&mut report, status);
    report.push_str("\n\nSTDOUT:\n");
    report.push_str(stdout);
    report.push_str("\n\nSTDERR:\n");
    report.push_str(stderr);
    assert(report@ =~= command_report_text(exit_code, stdout@, stderr@));
    report
}

/// Renders a file as a chunk: its name, then its raw text between triple quotes, then
/// the delimiter line and a blank line.
pub fn render_file(path: &str, contents: &str) -> (chunk: String)
    ensures
        chunk@ == file_chunk_text(path@, contents@),
{
    let mut chunk = String::new();
    chunk.push_str("File name: \"");
    chunk.push_str(path);
    chunk.push_str("\"\n\nFile contents: \"\"\"\n");
    chunk.push_str(contents);
    chunk.push_str("\"\"\"\n----------\n\n");
    assert(chunk@ =~= file_chunk_text(path@, contents@));
    chunk
}

/// Renders a command and its report as a chunk.
pub fn render_command(command: &str, report: &str) -> (chunk: String)
    ensures
        chunk@ == command_chunk_text(command@, report@),
{
    let mut chunk = String::new();
    chunk.push_str("Command: \"");
    chunk.push_str(command);
    chunk.push_str("\"\n\nCommand output: \"\"\"\n");
    chunk.push_str(report);
    chunk.push_str("\"\"\"\n----------\n\n");
    assert(chunk@ =~= command_chunk_text(command@, report@));
    chunk
}

/// Renders a command with what running it gave: both streams are decoded lossily, then
/// reported and wrapped.
pub fn render_executed(command: &str, output: &CommandOutput) -> (chunk: String)
    ensures
        chunk@ == executed_chunk_text(command@, *output),
{
    let stdout = decode_lossy(output.stdout.as_slice());
    let stderr = decode_lossy(output.stderr.as_slice());
    let report = command_report(output.exit_code, stdout.as_str(), stderr.as_str());
    render_command(command, report.as_str())
}

/// Whether `part` stands in `text` as it is, character for character.
pub open spec fn occurs_in(part: Seq<char>, text: Seq<char>) -> bool {
    exists|head: Seq<char>, tail: Seq<char>| text == #[trigger] head.add(part).add(tail)
}

/// The chunk of a command shows the command, its status and both of its decoded
/// streams as they are, whatever the status is.
pub proof fn lemma_chunk_shows_result(command: Seq<char>, output: CommandOutput)
    ensures
        occurs_in(command, executed_chunk_text(command, output)),
        occurs_in(decimal(exit_status(output.exit_code)), executed_chunk_text(command, output)),
        occurs_in(utf8_lossy(output.stdout@), executed_chunk_text(command, output)),
        occurs_in(utf8_lossy(output.stderr@), executed_chunk_text(command, output)),
{
    let chunk = executed_chunk_text(command, output);
    let status = decimal(exit_status(output.exit_code));
    let stdout = utf8_lossy(output.stdout@);
    let stderr = utf8_lossy(output.stderr@);
    let opening = "Command: \""@;
    let middle = "\"\n\nCommand output: \"\"\"\n"@;
    let closing = "\"\"\"\n----------\n\n"@;
    let label = "Exit Status: "@;
    let out_label = "\n\nSTDOUT:\n"@;
    let err_label = "\n\nSTDERR:\n"@;
    let report = label + status + out_label + stdout + err_label + stderr;
    assert(chunk == opening + command + middle + report + closing);
    assert(chunk == opening.add(command).add(middle + report + closing));
    assert(chunk == (opening + command + middle + label).add(status).add(
        out_label + stdout + err_label + stderr + closing,
    ));
    assert(chunk == (opening + command + middle + label + status + out_label).add(stdout).add(
        err_label + stderr + closing,
    ));
    assert(chunk == (opening + command + middle + label + status + out_label + stdout
        + err_label).add(stderr).add(closing));
}

} // verus!
