//! The failures that end a run.

use vstd::prelude::*;

verus! {

/// The kinds of fatal failure.
#[derive(Clone, Copy, Debug, PartialEq, Eq, Structural)]
pub enum ErrorKind {
    /// A malformed pattern or a token limit that is not positive.
    Usage,
    /// The set of patterns could not be compiled, or walking the directories failed.
    Enumeration,
    /// A selected file could not be read, for a reason other than its encoding.
    FileRead,
    /// A command could not be launched.
    CommandLaunch,
    /// The tokenizer could not measure a chunk.
    Tokenizer,
    /// A chunk would have taken the running count above the limit.
    BudgetExceeded,
    /// Everything was processed and no token was admitted.
    EmptyResult,
    /// The output sink refused the document.
    Sink,
}

/// A fatal failure: its kind and the message shown to the user.
#[derive(Debug)]
pub struct RunError {
    pub kind: ErrorKind,
    pub message: String,
}

/// The mathematical value of a failure.
pub struct RunErrorView {
    pub kind: ErrorKind,
    pub message: Seq<char>,
}

impl View for RunError {
    type V = RunErrorView;

    open spec fn view(&self) -> RunErrorView {
        RunErrorView { kind: self.kind, message: self.message@ }
    }
}

/// The failure of the given kind whose message is a fixed text followed by a detail.
pub open spec fn failure(kind: ErrorKind, lead: Seq<char>, detail: Seq<char>) -> RunErrorView {
    RunErrorView { kind, message: lead + detail }
}

/// The failure of the given kind with a fixed message.
pub open spec fn fixed_failure(kind: ErrorKind, message: Seq<char>) -> RunErrorView {
    RunErrorView { kind, message }
}

/// The failure for a token limit of zero.
pub open spec fn invalid_token_limit() -> RunErrorView {
    fixed_failure(ErrorKind::Usage, "Error: Token limit must be a positive integer"@)
}

/// The failure for an include pattern that does not parse.
pub open spec fn invalid_include_pattern(detail: Seq<char>) -> RunErrorView {
    failure(ErrorKind::Usage, "Invalid include glob pattern: "@, detail)
}

/// The failure for an exclude pattern that does not parse.
pub open spec fn invalid_exclude_pattern(detail: Seq<char>) -> RunErrorView {
    failure(ErrorKind::Usage, "Invalid exclude glob pattern: "@, detail)
}

/// The failure for include patterns that do not compile into a set.
pub open spec fn include_set_failed(detail: Seq<char>) -> RunErrorView {
    failure(ErrorKind::Enumeration, "Failed to build include globset: "@, detail)
}

/// The failure for exclude patterns that do not compile into a set.
pub open spec fn exclude_set_failed(detail: Seq<char>) -> RunErrorView {
    failure(ErrorKind::Enumeration, "Failed to build exclude globset: "@, detail)
}

/// The failure for a directory walk that broke off; its message is the walk's own.
pub open spec fn enumeration_failed(detail: Seq<char>) -> RunErrorView {
    fixed_failure(ErrorKind::Enumeration, detail)
}

/// The failure for a file that could not be read.
pub open spec fn file_read_failed(path: Seq<char>) -> RunErrorView {
    failure(ErrorKind::FileRead, "Failed to read file: "@, path)
}

/// The failure for a command that could not be launched.
pub open spec fn command_launch_failed(command: Seq<char>) -> RunErrorView {
    failure(ErrorKind::CommandLaunch, "Failed to execute command: "@, command)
}

/// The failure for a chunk that the tokenizer could not measure.
pub open spec fn tokenizer_failed() -> RunErrorView {
    fixed_failure(ErrorKind::Tokenizer, "Error: Failed to count tokens"@)
}

/// The failure for a chunk that does not fit the budget.
pub open spec fn budget_exceeded() -> RunErrorView {
    fixed_failure(ErrorKind::BudgetExceeded, "Error: Token limit exceeded"@)
}

/// The failure for a run that admitted nothing.
pub open spec fn empty_result() -> RunErrorView {
    fixed_failure(
        ErrorKind::EmptyResult,
        "Error: No tokens found in the provided files or command outputs"@,
    )
}

/// The failure for a sink that refused the document; its message is the sink's own.
pub open spec fn sink_failed(detail: Seq<char>) -> RunErrorView {
    fixed_failure(ErrorKind::Sink, detail)
}

impl RunError {
    /// A failure of the given kind whose message is `lead` followed by `detail`.
    pub fn new(kind: ErrorKind, lead: &str, detail: &str) -> (error: RunError)
        ensures
            error@ == failure(kind, lead@, detail@),
    {
        let mut message = String::new();
        message.push_str(lead);
        message.push_str(detail);
        assert(message@ =~= lead@ + detail@);
        RunError { kind, message }
    }

    /// A failure of the given kind with the given message.
    pub fn fixed(kind: ErrorKind, message: &str) -> (error: RunError)
        ensures
            error@ == fixed_failure(kind, message@),
    {
        let mut text = String::new();
        text.push_str(message);
        assert(text@ =~= message@);
        RunError { kind, message: text }
    }

    /// The failure for a directory walk that broke off with the given reason.
    pub fn enumeration(detail: &str) -> (error: RunError)
        ensures
            error@ == enumeration_failed(detail@),
    {
        RunError::fixed(ErrorKind::Enumeration, detail)
    }

    /// The failure for a sink that refused the document with the given reason.
    pub fn sink(detail: &str) -> (error: RunError)
        ensures
            error@ == sink_failed(detail@),
    {
        RunError::fixed(ErrorKind::Sink, detail)
    }

    /// The kind of this failure.
    pub fn kind(&self) -> (kind: ErrorKind)
        ensures
            kind == self@.kind,
    {
        self.kind
    }

    /// The message of this failure.
    pub fn message(&self) -> (message: &str)
        ensures
            message@ == self@.message,
    {
        self.message.as_str()
    }
}

} // verus!
