//! A commit, step by step. Its batch is submitted once; where that fails the store is only read.

use vstd::prelude::*;
use crate::domain::{Command, CommandView, ErrorView, StorageError};
use super::plan::{Effect, EffectView};
use super::revision::{failure, failure_view};
use super::rows::{replay, replay_of, rows_view, ColumnView, Row};
use super::statement::{
    command_query, command_query_of, environment_write, environment_write_of, flag_write,
    flag_write_of, ruleset_write, ruleset_write_of, Statement, StatementView,
};

verus! {

/// The statement that writes an effect, given the JSON text of its record and, for a ruleset, of
/// its definition.
pub open spec fn effect_write_of(
    effect: EffectView,
    record: Seq<char>,
    definition: Seq<char>,
) -> StatementView {
    match effect {
        EffectView::InsertFlag(flag) => flag_write_of(flag, record, true),
        EffectView::UpdateFlag(flag) => flag_write_of(flag, record, false),
        EffectView::PutEnvironment(environment) => environment_write_of(environment, record),
        EffectView::InsertRuleset(_, publication) => ruleset_write_of(
            publication,
            definition,
            record,
        ),
    }
}

/// The statement that writes an effect.
pub fn effect_write(effect: &Effect, record: &str, definition: &str) -> (write: Statement)
    ensures
        write@ == effect_write_of(effect@, record@, definition@),
{
    match effect {
        Effect::InsertFlag(flag) => flag_write(flag, record, true),
        Effect::UpdateFlag(flag) => flag_write(flag, record, false),
        Effect::PutEnvironment(environment) => environment_write(environment, record),
        Effect::InsertRuleset(_, publication) => ruleset_write(publication, definition, record),
    }
}

/// Where a commit stands.
#[derive(Clone, Copy, Debug, PartialEq, Eq, Structural)]
pub enum Stage {
    /// Nothing was submitted.
    Ready,
    /// The batch was submitted.
    Submitted,
    /// The batch failed, and the command's row is being read.
    Reconciling,
    /// The commit was answered.
    Done,
}

/// What a commit learns.
pub enum Event {
    /// The commit begins.
    Begin,
    /// The store took the batch as a whole.
    Accepted,
    /// The batch failed, or it is not known what became of it.
    Rejected,
    /// The rows that the command's query found.
    Found(Vec<Row>),
    /// The command's query failed.
    Unread,
}

/// The model of an `Event`.
pub enum EventView {
    Begin,
    Accepted,
    Rejected,
    Found(Seq<Map<Seq<char>, ColumnView>>),
    Unread,
}

impl View for Event {
    type V = EventView;

    open spec fn view(&self) -> EventView {
        match *self {
            Event::Begin => EventView::Begin,
            Event::Accepted => EventView::Accepted,
            Event::Rejected => EventView::Rejected,
            Event::Found(rows) => EventView::Found(rows_view(rows@)),
            Event::Unread => EventView::Unread,
        }
    }
}

/// What a commit does next.
#[derive(Debug)]
pub enum Action {
    /// Submit the batch.
    Submit,
    /// Read the command's row.
    Read(Statement),
    /// Answer with the response that was submitted.
    Answer,
    /// Answer with the stored response.
    AnswerStored(String),
    /// Answer with an error.
    Fail(StorageError),
    /// Do nothing: the event does not belong here.
    Ignore,
}

/// The model of an `Action`.
pub enum ActionView {
    Submit,
    Read(StatementView),
    Answer,
    AnswerStored(Seq<char>),
    Fail(ErrorView),
    Ignore,
}

impl View for Action {
    type V = ActionView;

    open spec fn view(&self) -> ActionView {
        match *self {
            Action::Submit => ActionView::Submit,
            Action::Read(query) => ActionView::Read(query@),
            Action::Answer => ActionView::Answer,
            Action::AnswerStored(response) => ActionView::AnswerStored(response@),
            Action::Fail(error) => ActionView::Fail(error@),
            Action::Ignore => ActionView::Ignore,
        }
    }
}

/// What a commit answers whose batch failed: the response that is stored for the same request;
/// the error that the command's rows give; and where the command is not stored, a failure.
pub open spec fn reconciled(
    rows: Seq<Map<Seq<char>, ColumnView>>,
    command: CommandView,
) -> ActionView {
    match replay_of(rows, command) {
        Ok(Some(response)) => ActionView::AnswerStored(response),
        Ok(None) => ActionView::Fail(failure_view()),
        Err(error) => ActionView::Fail(error),
    }
}

/// How a commit goes on.
pub open spec fn step_of(
    stage: Stage,
    event: EventView,
    command: CommandView,
    operation: Seq<char>,
) -> (Stage, ActionView) {
    match (stage, event) {
        (Stage::Ready, EventView::Begin) => (Stage::Submitted, ActionView::Submit),
        (Stage::Submitted, EventView::Accepted) => (Stage::Done, ActionView::Answer),
        (Stage::Submitted, EventView::Rejected) => (
            Stage::Reconciling,
            ActionView::Read(command_query_of(command, operation)),
        ),
        (Stage::Reconciling, EventView::Found(rows)) => (Stage::Done, reconciled(rows, command)),
        (Stage::Reconciling, EventView::Unread) => (
            Stage::Done,
            ActionView::Fail(failure_view()),
        ),
        _ => (stage, ActionView::Ignore),
    }
}

/// How a commit goes on from a stage after an event.
pub fn step(stage: Stage, event: Event, command: Command<'_>, operation: &str) -> (next: (
    Stage,
    Action,
))
    ensures
        (next.0, next.1@) == step_of(stage, event@, command@, operation@),
{
    match (stage, event) {
        (Stage::Ready, Event::Begin) => (Stage::Submitted, Action::Submit),
        (Stage::Submitted, Event::Accepted) => (Stage::Done, Action::Answer),
        (Stage::Submitted, Event::Rejected) => (
            Stage::Reconciling,
            Action::Read(command_query(command, operation)),
        ),
        (Stage::Reconciling, Event::Found(rows)) => (
            Stage::Done,
            match replay(&rows, command) {
                Ok(Some(response)) => Action::AnswerStored(response),
                Ok(None) => Action::Fail(failure()),
                Err(error) => Action::Fail(error),
            },
        ),
        (Stage::Reconciling, Event::Unread) => (Stage::Done, Action::Fail(failure())),
        (stage, _) => (stage, Action::Ignore),
    }
}

/// The stage after a run of events.
pub open spec fn stage_after(
    events: Seq<EventView>,
    command: CommandView,
    operation: Seq<char>,
) -> Stage
    decreases events.len(),
{
    if events.len() == 0 {
        Stage::Ready
    } else {
        step_of(
            stage_after(events.drop_last(), command, operation),
            events.last(),
            command,
            operation,
        ).0
    }
}

/// What the commit does on the event at an index of a run.
pub open spec fn action_at(
    events: Seq<EventView>,
    index: int,
    command: CommandView,
    operation: Seq<char>,
) -> ActionView {
    step_of(
        stage_after(events.take(index), command, operation),
        events[index],
        command,
        operation,
    ).1
}

proof fn lemma_never_ready_again(
    events: Seq<EventView>,
    index: int,
    end: int,
    command: CommandView,
    operation: Seq<char>,
)
    requires
        0 <= index < end <= events.len(),
        action_at(events, index, command, operation) is Submit,
    ensures
        stage_after(events.take(end), command, operation) !is Ready,
    decreases end,
{
    assert(events.take(end).drop_last() =~= events.take(end - 1));
    if index < end - 1 {
        lemma_never_ready_again(events, index, end - 1, command, operation);
    }
}

/// A commit never submits its batch twice, whatever it learns and in whatever order.
pub proof fn lemma_submitted_at_most_once(
    events: Seq<EventView>,
    first: int,
    second: int,
    command: CommandView,
    operation: Seq<char>,
)
    requires
        0 <= first < second < events.len(),
        action_at(events, first, command, operation) is Submit,
    ensures
        action_at(events, second, command, operation) !is Submit,
{
    lemma_never_ready_again(events, first, second, command, operation);
}

/// A commit whose batch was taken answers what was submitted; one whose batch failed is answered
/// by the command's row alone.
pub proof fn lemma_commit_is_answered(
    rows: Seq<Map<Seq<char>, ColumnView>>,
    command: CommandView,
    operation: Seq<char>,
)
    ensures
        stage_after(seq![EventView::Begin, EventView::Accepted], command, operation) is Done,
        action_at(seq![EventView::Begin, EventView::Accepted], 1, command, operation) is Answer,
        ({
            let failed = seq![EventView::Begin, EventView::Rejected, EventView::Found(rows)];
            &&& action_at(failed, 1, command, operation) == ActionView::Read(
                command_query_of(command, operation),
            )
            &&& action_at(failed, 2, command, operation) == reconciled(rows, command)
            &&& stage_after(failed, command, operation) is Done
        }),
{
    reveal_with_fuel(stage_after, 4);
    let taken = seq![EventView::Begin, EventView::Accepted];
    assert(taken.drop_last() =~= seq![EventView::Begin]);
    assert(taken.take(1) =~= seq![EventView::Begin]);
    assert(seq![EventView::Begin].drop_last() =~= Seq::<EventView>::empty());
    let failed = seq![EventView::Begin, EventView::Rejected, EventView::Found(rows)];
    assert(failed.take(1) =~= seq![EventView::Begin]);
    assert(failed.take(2) =~= seq![EventView::Begin, EventView::Rejected]);
    assert(failed.drop_last() =~= seq![EventView::Begin, EventView::Rejected]);
    assert(seq![EventView::Begin, EventView::Rejected].drop_last() =~= seq![EventView::Begin]);
}

} // verus!
