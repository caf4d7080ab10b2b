//! What holds of every run, proved from the transitions of the state machine.

use vstd::prelude::*;
use crate::budget::{joined_text, lemma_chunks_concat, total_cost, Admission};
use crate::error::{budget_exceeded, empty_result};
use crate::render::CommandOutput;
use crate::run::{
    command_chunks, file_chunks, final_text, measured, ActionView, CommandEntry, Event, FileEntry,
    LineEnding, Note, RunView, Stage, StepView,
};
use crate::select::SelectorView;

verus! {

/// The state after a sequence of events, each chunk measured by the tokenizer, and the
/// answers given on the way.
pub open spec fn replay(run: RunView, events: Seq<Event>) -> (RunView, Seq<StepView>)
    decreases events.len(),
{
    if events.len() == 0 {
        (run, Seq::empty())
    } else {
        let (before, answers) = replay(run, events.drop_last());
        let (after, answer) = before.on(events.last(), measured(before.chunk_of(events.last())));
        (after, answers.push(answer))
    }
}

/// Every transition keeps the invariant of the run.
pub proof fn lemma_step_keeps_invariant(run: RunView, event: Event, cost: Option<usize>)
    requires
        run.wf(),
    ensures
        run.on(event, cost).0.wf(),
{
    let after = run.on(event, cost).0;
    match event {
        Event::FileText { contents } => {
            if run.stage == Stage::Reading && cost is Some && run.budget.fits(cost->0 as nat)
                && cost->0 > 0 {
                let tokens = cost->0 as nat;
                let chunk = Admission { text: run.file_chunk(contents@), cost: tokens };
                let entry = FileEntry { path: run.pending_path, contents: contents@, cost: tokens };
                assert(run.executed.len() == 0) by {
                    if run.executed.len() > 0 {
                        assert(0 <= run.executed[0].index < run.next_command);
                    }
                }
                assert(run.budget.admitted.push(chunk).drop_last() == run.budget.admitted);
                assert(file_chunks(run.files.push(entry)) == file_chunks(run.files).push(chunk));
                assert(after.budget.admitted == file_chunks(after.files) + command_chunks(
                    after.commands,
                    after.executed,
                ));
            }
        },
        Event::CommandFinished { output } => {
            if run.stage == Stage::Running && cost is Some && run.budget.fits(cost->0 as nat)
                && cost->0 > 0 {
                let tokens = cost->0 as nat;
                let chunk = Admission { text: run.command_chunk(output), cost: tokens };
                let entry = CommandEntry { index: run.next_command as int, output, cost: tokens };
                assert(run.budget.admitted.push(chunk).drop_last() == run.budget.admitted);
                assert(command_chunks(run.commands, run.executed.push(entry)) == command_chunks(
                    run.commands,
                    run.executed,
                ).push(chunk));
                assert(after.budget.admitted == file_chunks(after.files) + command_chunks(
                    after.commands,
                    after.executed,
                ));
            }
        },
        _ => {},
    }
}

/// The invariant holds after any sequence of events.
pub proof fn lemma_replay_keeps_invariant(run: RunView, events: Seq<Event>)
    requires
        run.wf(),
    ensures
        replay(run, events).0.wf(),
        replay(run, events).1.len() == events.len(),
    decreases events.len(),
{
    if events.len() > 0 {
        lemma_replay_keeps_invariant(run, events.drop_last());
        let before = replay(run, events.drop_last()).0;
        lemma_step_keeps_invariant(
            before,
            events.last(),
            measured(before.chunk_of(events.last())),
        );
    }
}

/// Two runs that start alike and see the same events give the same answers and end
/// alike: the document and its token count depend on nothing else.
pub proof fn lemma_replay_is_repeatable(first: RunView, second: RunView, events: Seq<Event>)
    requires
        first == second,
    ensures
        replay(first, events) == replay(second, events),
{
}

/// The accumulated text is the chunks of the admitted files followed by the chunks of
/// the admitted commands, these in the order in which the caller gave the commands;
/// the running count is the sum of the costs at which they were admitted.
pub proof fn lemma_files_then_commands(run: RunView)
    requires
        run.wf(),
    ensures
        run.budget.accumulated_text == joined_text(file_chunks(run.files)) + joined_text(
            command_chunks(run.commands, run.executed),
        ),
        run.budget.running_token_count == total_cost(file_chunks(run.files)) + total_cost(
            command_chunks(run.commands, run.executed),
        ),
        forall|m: int, n: int|
            0 <= m < n < run.executed.len() ==> (#[trigger] run.executed[m]).index < (
            #[trigger] run.executed[n]).index,
{
    lemma_chunks_concat(file_chunks(run.files), command_chunks(run.commands, run.executed));
}

/// What is delivered is the accumulated text with its line ends normalized, with a
/// token count that is above zero and is the sum of the admitted costs.
pub proof fn lemma_delivery_is_the_sum(run: RunView, event: Event, cost: Option<usize>)
    requires
        run.wf(),
        run.on(event, cost).1.action is Deliver,
    ensures
        ({
            let (after, answer) = run.on(event, cost);
            &&& after.stage == Stage::Delivered
            &&& answer.action->token_count > 0
            &&& answer.action->token_count == total_cost(file_chunks(after.files)) + total_cost(
                command_chunks(after.commands, after.executed),
            )
            &&& answer.action->text == final_text(
                after.line_ending,
                joined_text(file_chunks(after.files)) + joined_text(
                    command_chunks(after.commands, after.executed),
                ),
            )
        }),
{
    lemma_step_keeps_invariant(run, event, cost);
    lemma_files_then_commands(run.on(event, cost).0);
}

/// A chunk that does not fit ends the run with `BudgetExceeded`: nothing is appended
/// and nothing is delivered.
pub proof fn lemma_over_budget_aborts(run: RunView, event: Event, cost: usize)
    requires
        run.wf(),
        run.chunk_of(event) is Some,
        !run.budget.fits(cost as nat),
    ensures
        ({
            let (after, answer) = run.on(event, Some(cost));
            &&& answer.action == ActionView::Abort { error: budget_exceeded() }
            &&& after.stage == Stage::Aborted
            &&& after.budget == run.budget
        }),
{
}

/// Once a run has ended, no event changes it and no event brings a delivery.
pub proof fn lemma_ended_run_stays(run: RunView, event: Event, cost: Option<usize>)
    requires
        run.stage == Stage::Aborted || run.stage == Stage::Delivered,
    ensures
        run.on(event, cost) == (run, StepView { note: Note::Ignored, action: ActionView::Idle }),
{
}

/// A run without commands, to which only paths that the selector does not let through
/// are reported, stays as it began, and fails with `EmptyResult` when the enumeration
/// ends.
pub proof fn lemma_nothing_selected_is_empty_result(
    selector: SelectorView,
    line_ending: LineEnding,
    token_limit: nat,
    events: Seq<Event>,
)
    requires
        forall|i: int|
            0 <= i < events.len() ==> (#[trigger] events[i]) is FileFound && !selector.selects(
                events[i]->path@,
            ),
    ensures
        ({
            let run = RunView::initial(selector, Seq::empty(), line_ending, token_limit);
            &&& replay(run, events).0 == run
            &&& run.on_files_exhausted().1.action == ActionView::Abort { error: empty_result() }
            &&& run.on_files_exhausted().0.stage == Stage::Aborted
        }),
    decreases events.len(),
{
    if events.len() > 0 {
        lemma_nothing_selected_is_empty_result(
            selector,
            line_ending,
            token_limit,
            events.drop_last(),
        );
    }
}

/// The exit code of a command is data: whatever it is, a command whose chunk fits is
/// admitted, and the run goes on or ends as it would for exit code zero.
pub proof fn lemma_exit_code_is_data(run: RunView, output: CommandOutput, cost: usize)
    requires
        run.wf(),
        run.stage == Stage::Running,
        run.budget.fits(cost as nat),
    ensures
        ({
            let (after, answer) = run.on_command_finished(output, Some(cost));
            &&& answer.note == Note::Admitted { tokens: cost }
            &&& after.next_command == run.next_command + 1
            &&& answer.action is Abort ==> answer.action->error == empty_result()
        }),
{
}

} // verus!
