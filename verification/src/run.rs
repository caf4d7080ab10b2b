//! The run driver: a state machine that takes what the outside world reports (a path
//! found, a file read, a command finished) and answers with what to do next.

use vstd::prelude::*;
use crate::budget::{admit_outcome, admit_state, AdmitError, Admission, Budget, BudgetView};
use crate::error::{
    budget_exceeded, command_launch_failed, empty_result, enumeration_failed, file_read_failed,
    invalid_token_limit, tokenizer_failed, ErrorKind, RunError, RunErrorView,
};
use crate::render::{
    executed_chunk_text, file_chunk_text, render_executed, render_file, CommandOutput,
};
use crate::select::{selector_of, texts, Selector, SelectorView};
use crate::text::{to_crlf, with_crlf};
use crate::tokenizer::{cl100k_token_count, count_tokens};

verus! {

/// How line ends are written in the delivered document.
#[derive(Clone, Copy, Debug, PartialEq, Eq, Structural)]
pub enum LineEnding {
    /// As they were admitted.
    Unchanged,
    /// Every line feed becomes a carriage return and a line feed.
    CrLf,
}

/// Where a run stands.
#[derive(Clone, Copy, Debug, PartialEq, Eq, Structural)]
pub enum Stage {
    /// Waiting for the next candidate path, or for the end of the enumeration.
    Walking,
    /// Waiting for the contents of the selected file.
    Reading,
    /// Waiting for the result of the current command.
    Running,
    /// The document was handed out.
    Delivered,
    /// The run failed.
    Aborted,
}

/// What the outside world reports to a run.
#[derive(Clone, Debug)]
pub enum Event {
    /// The enumeration found a regular file.
    FileFound { path: String },
    /// The enumeration is complete.
    FilesExhausted,
    /// The enumeration broke off.
    WalkFailed { detail: String },
    /// The selected file was read as text.
    FileText { contents: String },
    /// The selected file does not hold text.
    FileNotText,
    /// The selected file could not be read.
    FileUnreadable,
    /// The current command ran to its end.
    CommandFinished { output: CommandOutput },
    /// The current command could not be launched.
    CommandNotLaunched,
}

/// The finished document and its token count.
#[derive(Debug)]
pub struct RunResult {
    pub text: String,
    pub token_count: usize,
}

/// What a run asks the outside world to do next.
#[derive(Debug)]
pub enum Action {
    /// Report the next regular file of the enumeration, or its end.
    NextFile,
    /// Read this file and report its contents.
    ReadFile { path: String },
    /// Run this command through the shell and report its result.
    RunCommand { command: String },
    /// Hand the document to the sink: the run succeeded.
    Deliver { result: RunResult },
    /// Report the failure: the run is over and nothing is delivered.
    Abort { error: RunError },
    /// The run is over; there is nothing left to do.
    Idle,
}

/// The mathematical value of an action.
pub enum ActionView {
    NextFile,
    ReadFile { path: Seq<char> },
    RunCommand { command: Seq<char> },
    Deliver { text: Seq<char>, token_count: nat },
    Abort { error: RunErrorView },
    Idle,
}

impl View for Action {
    type V = ActionView;

    open spec fn view(&self) -> ActionView {
        match *self {
            Action::NextFile => ActionView::NextFile,
            Action::ReadFile { path } => ActionView::ReadFile { path: path@ },
            Action::RunCommand { command } => ActionView::RunCommand { command: command@ },
            Action::Deliver { result } => ActionView::Deliver {
                text: result.text@,
                token_count: result.token_count as nat,
            },
            Action::Abort { error } => ActionView::Abort { error: error@ },
            Action::Idle => ActionView::Idle,
        }
    }
}

/// What a step did with the event, for progress reporting.
#[derive(Clone, Copy, Debug, PartialEq, Eq, Structural)]
pub enum Note {
    /// Nothing to report.
    Nothing,
    /// The unit was measured at this many tokens and admitted.
    Admitted { tokens: usize },
    /// The file does not hold text and was left out.
    Skipped,
    /// The event does not answer what the run is waiting for and was ignored.
    Ignored,
}

/// The answer to an event.
#[derive(Debug)]
pub struct Step {
    pub note: Note,
    pub action: Action,
}

/// The mathematical value of a step.
pub struct StepView {
    pub note: Note,
    pub action: ActionView,
}

impl View for Step {
    type V = StepView;

    open spec fn view(&self) -> StepView {
        StepView { note: self.note, action: self.action@ }
    }
}

/// An admitted file: its path as reported, its text and its measured cost.
pub struct FileEntry {
    pub path: Seq<char>,
    pub contents: Seq<char>,
    pub cost: nat,
}

/// An admitted command: its position among the commands, what running it gave and its
/// measured cost.
pub struct CommandEntry {
    pub index: int,
    pub output: CommandOutput,
    pub cost: nat,
}

/// The chunks of the admitted files, in the order of admission.
pub open spec fn file_chunks(files: Seq<FileEntry>) -> Seq<Admission> {
    files.map_values(
        |entry: FileEntry|
            Admission { text: file_chunk_text(entry.path, entry.contents), cost: entry.cost },
    )
}

/// The chunks of the admitted commands, in the order of admission.
pub open spec fn command_chunks(commands: Seq<Seq<char>>, executed: Seq<CommandEntry>) -> Seq<
    Admission,
> {
    executed.map_values(
        |entry: CommandEntry|
            Admission {
                text: executed_chunk_text(commands[entry.index], entry.output),
                cost: entry.cost,
            },
    )
}

/// The delivered form of the accumulated text.
pub open spec fn final_text(line_ending: LineEnding, text: Seq<char>) -> Seq<char> {
    match line_ending {
        LineEnding::Unchanged => text,
        LineEnding::CrLf => with_crlf(text),
    }
}

/// The cost that the tokenizer gives for the chunk that an event yields, if it yields one.
pub open spec fn measured(chunk: Option<Seq<char>>) -> Option<usize> {
    match chunk {
        Some(text) => cl100k_token_count(text),
        None => None,
    }
}

/// The mathematical state of a run.
pub struct RunView {
    pub selector: SelectorView,
    pub commands: Seq<Seq<char>>,
    pub line_ending: LineEnding,
    pub budget: BudgetView,
    pub stage: Stage,
    /// The file being read, while the stage is `Reading`.
    pub pending_path: Seq<char>,
    /// How many commands have been dealt with.
    pub next_command: nat,
    /// The files admitted so far, oldest first.
    pub files: Seq<FileEntry>,
    /// The commands admitted so far, oldest first.
    pub executed: Seq<CommandEntry>,
}

impl RunView {
    /// The state of a run that has not seen any event.
    pub open spec fn initial(
        selector: SelectorView,
        commands: Seq<Seq<char>>,
        line_ending: LineEnding,
        token_limit: nat,
    ) -> RunView {
        RunView {
            selector,
            commands,
            line_ending,
            budget: BudgetView::empty(token_limit),
            stage: Stage::Walking,
            pending_path: Seq::empty(),
            next_command: 0,
            files: Seq::empty(),
            executed: Seq::empty(),
        }
    }

    /// The invariant of a run. The admitted chunks are those of the files followed by
    /// those of the commands; the admitted commands stand in the order in which the
    /// caller gave them; no command is dealt with before the enumeration has ended.
    pub open spec fn wf(self) -> bool {
        &&& self.budget.wf()
        &&& self.budget.token_limit > 0
        &&& self.budget.admitted == file_chunks(self.files) + command_chunks(
            self.commands,
            self.executed,
        )
        &&& self.next_command <= self.commands.len()
        &&& forall|m: int|
            0 <= m < self.executed.len() ==> 0 <= (#[trigger] self.executed[m]).index
                < self.next_command
        &&& forall|m: int, n: int|
            0 <= m < n < self.executed.len() ==> (#[trigger] self.executed[m]).index < (
            #[trigger] self.executed[n]).index
        &&& (self.stage == Stage::Walking || self.stage == Stage::Reading)
            ==> self.next_command == 0
        &&& self.stage == Stage::Running ==> self.next_command < self.commands.len()
    }

    /// What the run is waiting for.
    pub open spec fn pending(self) -> ActionView {
        match self.stage {
            Stage::Walking => ActionView::NextFile,
            Stage::Reading => ActionView::ReadFile { path: self.pending_path },
            Stage::Running => ActionView::RunCommand {
                command: self.commands[self.next_command as int],
            },
            Stage::Delivered => ActionView::Idle,
            Stage::Aborted => ActionView::Idle,
        }
    }

    /// An event that does not answer what the run is waiting for changes nothing, and
    /// the pending action is asked for again.
    pub open spec fn ignored(self) -> (RunView, StepView) {
        (self, StepView { note: Note::Ignored, action: self.pending() })
    }

    /// The run fails with the given error.
    pub open spec fn aborted(self, error: RunErrorView) -> (RunView, StepView) {
        (
            RunView { stage: Stage::Aborted, ..self },
            StepView { note: Note::Nothing, action: ActionView::Abort { error } },
        )
    }

    /// The end of the run: a document without tokens is a failure, any other is
    /// delivered with its line ends normalized.
    pub open spec fn finished(self, note: Note) -> (RunView, StepView) {
        if self.budget.running_token_count == 0 {
            (
                RunView { stage: Stage::Aborted, ..self },
                StepView { note, action: ActionView::Abort { error: empty_result() } },
            )
        } else {
            (
                RunView { stage: Stage::Delivered, ..self },
                StepView {
                    note,
                    action: ActionView::Deliver {
                        text: final_text(self.line_ending, self.budget.accumulated_text),
                        token_count: self.budget.running_token_count,
                    },
                },
            )
        }
    }

    /// Goes on with the next command, or ends the run when none is left.
    pub open spec fn advanced(self, note: Note) -> (RunView, StepView) {
        if self.next_command < self.commands.len() {
            (
                RunView { stage: Stage::Running, ..self },
                StepView {
                    note,
                    action: ActionView::RunCommand {
                        command: self.commands[self.next_command as int],
                    },
                },
            )
        } else {
            self.finished(note)
        }
    }

    /// A regular file was found: it is read if the selector lets its path through.
    pub open spec fn on_file_found(self, path: Seq<char>) -> (RunView, StepView) {
        if self.stage != Stage::Walking {
            self.ignored()
        } else if self.selector.selects(path) {
            (
                RunView { stage: Stage::Reading, pending_path: path, ..self },
                StepView { note: Note::Nothing, action: ActionView::ReadFile { path } },
            )
        } else {
            (self, StepView { note: Note::Nothing, action: ActionView::NextFile })
        }
    }

    /// The enumeration ended: the commands follow.
    pub open spec fn on_files_exhausted(self) -> (RunView, StepView) {
        if self.stage != Stage::Walking {
            self.ignored()
        } else {
            self.advanced(Note::Nothing)
        }
    }

    /// The enumeration broke off: the run fails.
    pub open spec fn on_walk_failed(self, detail: Seq<char>) -> (RunView, StepView) {
        if self.stage != Stage::Walking {
            self.ignored()
        } else {
            self.aborted(enumeration_failed(detail))
        }
    }

    /// The chunk of the file being read, given its contents.
    pub open spec fn file_chunk(self, contents: Seq<char>) -> Seq<char> {
        file_chunk_text(self.pending_path, contents)
    }

    /// The chunk of the current command, given what running it gave.
    pub open spec fn command_chunk(self, output: CommandOutput) -> Seq<char> {
        executed_chunk_text(self.commands[self.next_command as int], output)
    }

    /// The selected file was read: its chunk is offered to the budget at the measured
    /// cost, and the enumeration goes on if it was admitted.
    pub open spec fn on_file_text(self, contents: Seq<char>, cost: Option<usize>) -> (
        RunView,
        StepView,
    ) {
        if self.stage != Stage::Reading {
            self.ignored()
        } else {
            match admit_outcome(self.budget, cost) {
                Ok(tokens) => (
                    RunView {
                        stage: Stage::Walking,
                        budget: admit_state(self.budget, self.file_chunk(contents), cost),
                        files: if tokens > 0 {
                            self.files.push(
                                FileEntry {
                                    path: self.pending_path,
                                    contents,
                                    cost: tokens as nat,
                                },
                            )
                        } else {
                            self.files
                        },
                        ..self
                    },
                    StepView { note: Note::Admitted { tokens }, action: ActionView::NextFile },
                ),
                Err(AdmitError::BudgetExceeded) => self.aborted(budget_exceeded()),
                Err(AdmitError::Unmeasurable) => self.aborted(tokenizer_failed()),
            }
        }
    }

    /// The selected file does not hold text: it is left out and the enumeration goes on.
    pub open spec fn on_file_not_text(self) -> (RunView, StepView) {
        if self.stage != Stage::Reading {
            self.ignored()
        } else {
            (
                RunView { stage: Stage::Walking, ..self },
                StepView { note: Note::Skipped, action: ActionView::NextFile },
            )
        }
    }

    /// The selected file could not be read: the run fails and names the path.
    pub open spec fn on_file_unreadable(self) -> (RunView, StepView) {
        if self.stage != Stage::Reading {
            self.ignored()
        } else {
            self.aborted(file_read_failed(self.pending_path))
        }
    }

    /// The current command finished, with whatever exit code: its chunk is offered to
    /// the budget at the measured cost, and the next command follows if it was admitted.
    pub open spec fn on_command_finished(self, output: CommandOutput, cost: Option<usize>) -> (
        RunView,
        StepView,
    ) {
        if self.stage != Stage::Running {
            self.ignored()
        } else {
            match admit_outcome(self.budget, cost) {
                Ok(tokens) => RunView {
                    budget: admit_state(self.budget, self.command_chunk(output), cost),
                    executed: if tokens > 0 {
                        self.executed.push(
                            CommandEntry {
                                index: self.next_command as int,
                                output,
                                cost: tokens as nat,
                            },
                        )
                    } else {
                        self.executed
                    },
                    next_command: self.next_command + 1,
                    ..self
                }.advanced(Note::Admitted { tokens }),
                Err(AdmitError::BudgetExceeded) => self.aborted(budget_exceeded()),
                Err(AdmitError::Unmeasurable) => self.aborted(tokenizer_failed()),
            }
        }
    }

    /// The current command could not be launched: the run fails and names the command.
    pub open spec fn on_command_not_launched(self) -> (RunView, StepView) {
        if self.stage != Stage::Running {
            self.ignored()
        } else {
            self.aborted(command_launch_failed(self.commands[self.next_command as int]))
        }
    }

    /// The chunk that an event gives the budget to measure, if the run is waiting for it.
    pub open spec fn chunk_of(self, event: Event) -> Option<Seq<char>> {
        match event {
            Event::FileText { contents } => if self.stage == Stage::Reading {
                Some(self.file_chunk(contents@))
            } else {
                None
            },
            Event::CommandFinished { output } => if self.stage == Stage::Running {
                Some(self.command_chunk(output))
            } else {
                None
            },
            _ => None,
        }
    }

    /// The state and the answer after an event, where `cost` is the measured cost of the
    /// chunk that the event yields.
    pub open spec fn on(self, event: Event, cost: Option<usize>) -> (RunView, StepView) {
        match event {
            Event::FileFound { path } => self.on_file_found(path@),
            Event::FilesExhausted => self.on_files_exhausted(),
            Event::WalkFailed { detail } => self.on_walk_failed(detail@),
            Event::FileText { contents } => self.on_file_text(contents@, cost),
            Event::FileNotText => self.on_file_not_text(),
            Event::FileUnreadable => self.on_file_unreadable(),
            Event::CommandFinished { output } => self.on_command_finished(output, cost),
            Event::CommandNotLaunched => self.on_command_not_launched(),
        }
    }
}

/// A run: the selector, the commands, the budget and the stage reached.
pub struct Run {
    selector: Selector,
    commands: Vec<String>,
    line_ending: LineEnding,
    budget: Budget,
    stage: Stage,
    pending_path: String,
    next_command: usize,
    files: Ghost<Seq<FileEntry>>,
    executed: Ghost<Seq<CommandEntry>>,
}

impl View for Run {
    type V = RunView;

    closed spec fn view(&self) -> RunView {
        RunView {
            selector: self.selector@,
            commands: texts(self.commands@),
            line_ending: self.line_ending,
            budget: self.budget@,
            stage: self.stage,
            pending_path: self.pending_path@,
            next_command: self.next_command as nat,
            files: self.files@,
            executed: self.executed@,
        }
    }
}

/// What making a run from its arguments gives: a token limit of zero is a usage error,
/// then the selector's failure; else the initial state.
pub open spec fn run_of(
    token_limit: usize,
    globs: Seq<Seq<char>>,
    commands: Seq<Seq<char>>,
    line_ending: LineEnding,
) -> Result<RunView, RunErrorView> {
    if token_limit == 0 {
        Err(invalid_token_limit())
    } else {
        match selector_of(globs) {
            Ok(selector) => Ok(
                RunView::initial(selector, commands, line_ending, token_limit as nat),
            ),
            Err(error) => Err(error),
        }
    }
}

/// The view of the outcome of making a run.
pub open spec fn made_view(outcome: Result<Run, RunError>) -> Result<RunView, RunErrorView> {
    match outcome {
        Ok(run) => Ok(run@),
        Err(error) => Err(error@),
    }
}

impl Run {
    /// The invariant of a run: that of its view.
    pub open spec fn wf(&self) -> bool {
        self@.wf()
    }

    /// Makes a run from the token limit, the glob arguments, the commands in the order
    /// in which they are to run, and the line ending of the delivered document.
    pub fn new(
        token_limit: usize,
        globs: &Vec<String>,
        commands: Vec<String>,
        line_ending: LineEnding,
    ) -> (outcome: Result<Run, RunError>)
        ensures
            made_view(outcome) == run_of(
                token_limit,
                texts(globs@),
                texts(commands@),
                line_ending,
            ),
            outcome is Ok ==> outcome->Ok_0.wf(),
    {
        if token_limit == 0 {
            return Err(
                RunError::fixed(ErrorKind::Usage, "Error: Token limit must be a positive integer"),
            );
        }
        let selector = match Selector::new(globs) {
            Ok(selector) => selector,
            Err(error) => {
                return Err(error);
            },
        };
        let run = Run {
            selector,
            commands,
            line_ending,
            budget: Budget::new(token_limit),
            stage: Stage::Walking,
            pending_path: String::new(),
            next_command: 0,
            files: Ghost(Seq::empty()),
            executed: Ghost(Seq::empty()),
        };
        proof {
            assert(run@.budget.admitted == file_chunks(run@.files) + command_chunks(
                run@.commands,
                run@.executed,
            ));
        }
        Ok(run)
    }

    /// Where the run stands.
    pub fn stage(&self) -> (stage: Stage)
        ensures
            stage == self@.stage,
    {
        self.stage
    }

    /// The tokens admitted so far.
    pub fn token_count(&self) -> (count: usize)
        ensures
            count == self@.budget.running_token_count,
    {
        self.budget.running_token_count()
    }

    /// What the run is waiting for.
    pub fn pending(&self) -> (action: Action)
        requires
            self.wf(),
        ensures
            action@ == self@.pending(),
    {
        match self.stage {
            Stage::Walking => Action::NextFile,
            Stage::Reading => Action::ReadFile { path: self.pending_path.clone() },
            Stage::Running => Action::RunCommand {
                command: self.commands[self.next_command].clone(),
            },
            Stage::Delivered => Action::Idle,
            Stage::Aborted => Action::Idle,
        }
    }
}

impl RunView {
    /// The part of the invariant that does not speak of the stage.
    pub open spec fn consistent(self) -> bool {
        RunView { stage: Stage::Aborted, ..self }.wf()
    }
}

impl Run {
    /// Answers an event that the run is not waiting for.
    fn ignore(&self) -> (step: Step)
        requires
            self.wf(),
        ensures
            (self@, step@) == self@.ignored(),
    {
        Step { note: Note::Ignored, action: self.pending() }
    }

    /// Fails the run.
    fn abort(&mut self, error: RunError) -> (step: Step)
        requires
            old(self)@.consistent(),
        ensures
            final(self).wf(),
            (final(self)@, step@) == old(self)@.aborted(error@),
    {
        self.stage = Stage::Aborted;
        Step { note: Note::Nothing, action: Action::Abort { error } }
    }

    /// Ends the run.
    fn finish(&mut self, note: Note) -> (step: Step)
        requires
            old(self)@.consistent(),
        ensures
            final(self).wf(),
            (final(self)@, step@) == old(self)@.finished(note),
    {
        let token_count = self.budget.running_token_count();
        if token_count == 0 {
            self.stage = Stage::Aborted;
            let error = RunError::fixed(
                ErrorKind::EmptyResult,
                "Error: No tokens found in the provided files or command outputs",
            );
            return Step { note, action: Action::Abort { error } };
        }
        let text = match self.line_ending {
            LineEnding::Unchanged => self.budget.accumulated_text().to_owned(),
            LineEnding::CrLf => to_crlf(self.budget.accumulated_text()),
        };
        self.stage = Stage::Delivered;
        Step { note, action: Action::Deliver { result: RunResult { text, token_count } } }
    }

    /// Asks for the next command, or ends the run.
    fn advance(&mut self, note: Note) -> (step: Step)
        requires
            old(self)@.consistent(),
        ensures
            final(self).wf(),
            (final(self)@, step@) == old(self)@.advanced(note),
    {
        if self.next_command < self.commands.len() {
            self.stage = Stage::Running;
            let command = self.commands[self.next_command].clone();
            Step { note, action: Action::RunCommand { command } }
        } else {
            self.finish(note)
        }
    }

    /// The enumeration found a regular file at `path`.
    pub fn file_found(&mut self, path: String) -> (step: Step)
        requires
            old(self).wf(),
        ensures
            final(self).wf(),
            (final(self)@, step@) == old(self)@.on_file_found(path@),
    {
        if self.stage != Stage::Walking {
            return self.ignore();
        }
        if self.selector.selects(path.as_str()) {
            self.stage = Stage::Reading;
            self.pending_path = path.clone();
            Step { note: Note::Nothing, action: Action::ReadFile { path } }
        } else {
            Step { note: Note::Nothing, action: Action::NextFile }
        }
    }

    /// The enumeration is complete.
    pub fn files_exhausted(&mut self) -> (step: Step)
        requires
            old(self).wf(),
        ensures
            final(self).wf(),
            (final(self)@, step@) == old(self)@.on_files_exhausted(),
    {
        if self.stage != Stage::Walking {
            return self.ignore();
        }
        self.advance(Note::Nothing)
    }

    /// The enumeration broke off for the given reason.
    pub fn walk_failed(&mut self, detail: &str) -> (step: Step)
        requires
            old(self).wf(),
        ensures
            final(self).wf(),
            (final(self)@, step@) == old(self)@.on_walk_failed(detail@),
    {
        if self.stage != Stage::Walking {
            return self.ignore();
        }
        self.abort(RunError::enumeration(detail))
    }

    /// Offers the rendered chunk of the file being read at the given cost.
    fn offer_file(
        &mut self,
        contents: Ghost<Seq<char>>,
        chunk: &str,
        cost: Option<usize>,
    ) -> (step: Step)
        requires
            old(self).wf(),
            old(self)@.stage == Stage::Reading,
            chunk@ == old(self)@.file_chunk(contents@),
        ensures
            final(self).wf(),
            (final(self)@, step@) == old(self)@.on_file_text(contents@, cost),
    {
        match self.budget.add_measured(chunk, cost) {
            Ok(tokens) => {
                self.stage = Stage::Walking;
                proof {
                    let before = old(self)@;
                    assert(before.executed.len() == 0) by {
                        if before.executed.len() > 0 {
                            assert(0 <= before.executed[0].index < before.next_command);
                        }
                    }
                    if tokens > 0 {
                        let entry = FileEntry {
                            path: before.pending_path,
                            contents: contents@,
                            cost: tokens as nat,
                        };
                        self.files@ = before.files.push(entry);
                        assert(file_chunks(before.files.push(entry)) == file_chunks(
                            before.files,
                        ).push(Admission { text: chunk@, cost: tokens as nat }));
                        assert(self@.budget.admitted == file_chunks(self@.files) + command_chunks(
                            self@.commands,
                            self@.executed,
                        ));
                    }
                }
                Step { note: Note::Admitted { tokens }, action: Action::NextFile }
            },
            Err(AdmitError::BudgetExceeded) => self.abort(
                RunError::fixed(ErrorKind::BudgetExceeded, "Error: Token limit exceeded"),
            ),
            Err(AdmitError::Unmeasurable) => self.abort(
                RunError::fixed(ErrorKind::Tokenizer, "Error: Failed to count tokens"),
            ),
        }
    }

    /// The selected file was read as text, and its chunk costs `cost` tokens.
    pub fn file_text_measured(&mut self, contents: &str, cost: Option<usize>) -> (step: Step)
        requires
            old(self).wf(),
        ensures
            final(self).wf(),
            (final(self)@, step@) == old(self)@.on_file_text(contents@, cost),
    {
        if self.stage != Stage::Reading {
            return self.ignore();
        }
        let chunk = render_file(self.pending_path.as_str(), contents);
        self.offer_file(Ghost(contents@), chunk.as_str(), cost)
    }

    /// The selected file was read as text: its chunk is rendered, measured and offered.
    pub fn file_text(&mut self, contents: &str) -> (step: Step)
        requires
            old(self).wf(),
        ensures
            final(self).wf(),
            (final(self)@, step@) == old(self)@.on_file_text(
                contents@,
                cl100k_token_count(old(self)@.file_chunk(contents@)),
            ),
    {
        if self.stage != Stage::Reading {
            return self.ignore();
        }
        let chunk = render_file(self.pending_path.as_str(), contents);
        let cost = count_tokens(chunk.as_str());
        self.offer_file(Ghost(contents@), chunk.as_str(), cost)
    }

    /// The selected file does not hold text.
    pub fn file_not_text(&mut self) -> (step: Step)
        requires
            old(self).wf(),
        ensures
            final(self).wf(),
            (final(self)@, step@) == old(self)@.on_file_not_text(),
    {
        if self.stage != Stage::Reading {
            return self.ignore();
        }
        self.stage = Stage::Walking;
        Step { note: Note::Skipped, action: Action::NextFile }
    }

    /// The selected file could not be read.
    pub fn file_unreadable(&mut self) -> (step: Step)
        requires
            old(self).wf(),
        ensures
            final(self).wf(),
            (final(self)@, step@) == old(self)@.on_file_unreadable(),
    {
        if self.stage != Stage::Reading {
            return self.ignore();
        }
        let error = RunError::new(
            ErrorKind::FileRead,
            "Failed to read file: ",
            self.pending_path.as_str(),
        );
        self.abort(error)
    }

    /// Offers the rendered chunk of the current command at the given cost.
    fn offer_command(
        &mut self,
        output: Ghost<CommandOutput>,
        chunk: &str,
        cost: Option<usize>,
    ) -> (step: Step)
        requires
            old(self).wf(),
            old(self)@.stage == Stage::Running,
            chunk@ == old(self)@.command_chunk(output@),
        ensures
            final(self).wf(),
            (final(self)@, step@) == old(self)@.on_command_finished(output@, cost),
    {
        match self.budget.add_measured(chunk, cost) {
            Ok(tokens) => {
                proof {
                    let before = old(self)@;
                    if tokens > 0 {
                        let entry = CommandEntry {
                            index: before.next_command as int,
                            output: output@,
                            cost: tokens as nat,
                        };
                        self.executed@ = before.executed.push(entry);
                        assert(command_chunks(before.commands, before.executed.push(entry))
                            == command_chunks(before.commands, before.executed).push(
                            Admission { text: chunk@, cost: tokens as nat },
                        ));
                        assert(self@.budget.admitted == file_chunks(self@.files) + command_chunks(
                            self@.commands,
                            self@.executed,
                        ));
                    }
                }
                assert(self.next_command < self.commands.len()) by {
                    assert(old(self)@.next_command < old(self)@.commands.len());
                }
                self.next_command = self.next_command + 1;
                self.advance(Note::Admitted { tokens })
            },
            Err(AdmitError::BudgetExceeded) => self.abort(
                RunError::fixed(ErrorKind::BudgetExceeded, "Error: Token limit exceeded"),
            ),
            Err(AdmitError::Unmeasurable) => self.abort(
                RunError::fixed(ErrorKind::Tokenizer, "Error: Failed to count tokens"),
            ),
        }
    }

    /// The current command finished with the given output, and its chunk costs `cost`
    /// tokens.
    pub fn command_finished_measured(
        &mut self,
        output: &CommandOutput,
        cost: Option<usize>,
    ) -> (step: Step)
        requires
            old(self).wf(),
        ensures
            final(self).wf(),
            (final(self)@, step@) == old(self)@.on_command_finished(*output, cost),
    {
        if self.stage != Stage::Running {
            return self.ignore();
        }
        let chunk = render_executed(self.commands[self.next_command].as_str(), output);
        self.offer_command(Ghost(*output), chunk.as_str(), cost)
    }

    /// The current command finished with the given output: its chunk is rendered,
    /// measured and offered. A non-zero exit code is data, not a failure.
    pub fn command_finished(&mut self, output: &CommandOutput) -> (step: Step)
        requires
            old(self).wf(),
        ensures
            final(self).wf(),
            (final(self)@, step@) == old(self)@.on_command_finished(
                *output,
                cl100k_token_count(old(self)@.command_chunk(*output)),
            ),
    {
        if self.stage != Stage::Running {
            return self.ignore();
        }
        let chunk = render_executed(self.commands[self.next_command].as_str(), output);
        let cost = count_tokens(chunk.as_str());
        self.offer_command(Ghost(*output), chunk.as_str(), cost)
    }

    /// The current command could not be launched.
    pub fn command_not_launched(&mut self) -> (step: Step)
        requires
            old(self).wf(),
        ensures
            final(self).wf(),
            (final(self)@, step@) == old(self)@.on_command_not_launched(),
    {
        if self.stage != Stage::Running {
            return self.ignore();
        }
        let error = RunError::new(
            ErrorKind::CommandLaunch,
            "Failed to execute command: ",
            self.commands[self.next_command].as_str(),
        );
        self.abort(error)
    }

    /// Takes an event whose chunk, if it yields one, costs `cost` tokens, and answers
    /// with the next action.
    pub fn step_measured(&mut self, event: Event, cost: Option<usize>) -> (step: Step)
        requires
            old(self).wf(),
        ensures
            final(self).wf(),
            (final(self)@, step@) == old(self)@.on(event, cost),
    {
        match event {
            Event::FileFound { path } => self.file_found(path),
            Event::FilesExhausted => self.files_exhausted(),
            Event::WalkFailed { detail } => self.walk_failed(detail.as_str()),
            Event::FileText { contents } => self.file_text_measured(contents.as_str(), cost),
            Event::FileNotText => self.file_not_text(),
            Event::FileUnreadable => self.file_unreadable(),
            Event::CommandFinished { output } => self.command_finished_measured(&output, cost),
            Event::CommandNotLaunched => self.command_not_launched(),
        }
    }

    /// Takes an event and answers with the next action. The chunk that the event
    /// yields is measured by the tokenizer.
    pub fn step(&mut self, event: Event) -> (step: Step)
        requires
            old(self).wf(),
        ensures
            final(self).wf(),
            (final(self)@, step@) == old(self)@.on(
                event,
                measured(old(self)@.chunk_of(event)),
            ),
    {
        match event {
            Event::FileFound { path } => self.file_found(path),
            Event::FilesExhausted => self.files_exhausted(),
            Event::WalkFailed { detail } => self.walk_failed(detail.as_str()),
            Event::FileText { contents } => self.file_text(contents.as_str()),
            Event::FileNotText => self.file_not_text(),
            Event::FileUnreadable => self.file_unreadable(),
            Event::CommandFinished { output } => self.command_finished(&output),
            Event::CommandNotLaunched => self.command_not_launched(),
        }
    }
}

} // verus!
