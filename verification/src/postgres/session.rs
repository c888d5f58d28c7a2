//! How an operation's transaction goes: the command is admitted, the work is done, the response is
//! stored with the command, and all of it is committed at once.

use vstd::prelude::*;
use crate::domain::{
    optional_text, Command, CommandView, DomainFailure, ErrorView, StorageError,
};
use crate::text::bytes_equal;
use super::query::{
    command_binds, finish_command, finish_command_of, insert_command, insert_command_of,
    read_command, read_command_of, BindView, Query, QueryView,
};

verus! {

/// A command's row: the hash of the request, and the JSON text of the response once there is one.
#[derive(Debug)]
pub struct StoredCommand {
    pub request_hash: Vec<u8>,
    pub response: Option<String>,
}

/// The model of a `StoredCommand`.
pub struct StoredCommandView {
    pub request_hash: Seq<u8>,
    pub response: Option<Seq<char>>,
}

impl View for StoredCommand {
    type V = StoredCommandView;

    open spec fn view(&self) -> StoredCommandView {
        StoredCommandView {
            request_hash: self.request_hash@,
            response: optional_text(self.response),
        }
    }
}

/// An optional row, taken by its model.
pub open spec fn stored_view(row: Option<StoredCommand>) -> Option<StoredCommandView> {
    match row {
        Some(row) => Some(row@),
        None => None,
    }
}

/// What a command's row answers: nothing where there is none; the stored response to the same
/// request; a conflict to another request; and that the operation is in progress where the
/// response is not stored yet.
pub open spec fn admission_of(
    row: Option<StoredCommandView>,
    command: CommandView,
) -> Result<Option<Seq<char>>, DomainFailure> {
    match row {
        None => Ok(None),
        Some(stored) => if stored.request_hash != command.hash {
            Err(DomainFailure::IdempotencyConflict)
        } else {
            match stored.response {
                None => Err(DomainFailure::OperationInProgress),
                Some(response) => Ok(Some(response)),
            }
        },
    }
}

/// Decides whether a command is new, or is answered from its row.
pub fn admit_command(row: Option<StoredCommand>, command: Command<'_>) -> (result: Result<
    Option<String>,
    StorageError,
>)
    ensures
        match admission_of(stored_view(row), command@) {
            Ok(response) => result matches Ok(given) && optional_text(given) == response,
            Err(failure) => result matches Err(error) && error@ == ErrorView::Domain(failure),
        },
{
    match row {
        None => Ok(None),
        Some(stored) => {
            if !bytes_equal(stored.request_hash.as_slice(), command.hash) {
                return Err(StorageError::from(DomainFailure::IdempotencyConflict));
            }
            match stored.response {
                None => Err(StorageError::from(DomainFailure::OperationInProgress)),
                Some(response) => Ok(Some(response)),
            }
        },
    }
}

/// Where a transaction stands.
#[derive(Debug)]
pub enum Stage {
    /// The transaction is being opened.
    Opening,
    /// The command's row is being read.
    Admitting,
    /// The command's row is being inserted.
    Recording,
    /// The command was done before, and the stored response is being read.
    Decoding(String),
    /// The stored response was read, and the transaction is being closed.
    Replaying(String),
    /// The operation does its work.
    Working,
    /// The response is being stored.
    Finishing,
    /// The transaction is being committed.
    Committing,
    /// The operation was answered.
    Done,
}

/// The model of a `Stage`.
pub enum StageView {
    Opening,
    Admitting,
    Recording,
    Decoding(Seq<char>),
    Replaying(Seq<char>),
    Working,
    Finishing,
    Committing,
    Done,
}

impl View for Stage {
    type V = StageView;

    open spec fn view(&self) -> StageView {
        match *self {
            Stage::Opening => StageView::Opening,
            Stage::Admitting => StageView::Admitting,
            Stage::Recording => StageView::Recording,
            Stage::Decoding(response) => StageView::Decoding(response@),
            Stage::Replaying(response) => StageView::Replaying(response@),
            Stage::Working => StageView::Working,
            Stage::Finishing => StageView::Finishing,
            Stage::Committing => StageView::Committing,
            Stage::Done => StageView::Done,
        }
    }
}

/// What a transaction learns.
#[derive(Debug)]
pub enum Event {
    /// The transaction is open.
    Opened,
    /// The command's row, if there is one.
    Found(Option<StoredCommand>),
    /// The statement took effect.
    Ran,
    /// The work is done, with a response of this JSON text.
    Worked(String),
    /// The stored response was read.
    Decoded,
    /// The work was refused, or the stored response could not be read.
    Refused(StorageError),
    /// The database failed, by a broken unique constraint or otherwise.
    Broken { duplicate: bool },
    /// The transaction is committed.
    Committed,
}

/// The model of an `Event`.
pub enum EventView {
    Opened,
    Found(Option<StoredCommandView>),
    Ran,
    Worked(Seq<char>),
    Decoded,
    Refused(ErrorView),
    Broken { duplicate: bool },
    Committed,
}

impl View for Event {
    type V = EventView;

    open spec fn view(&self) -> EventView {
        match *self {
            Event::Opened => EventView::Opened,
            Event::Found(row) => EventView::Found(stored_view(row)),
            Event::Ran => EventView::Ran,
            Event::Worked(response) => EventView::Worked(response@),
            Event::Decoded => EventView::Decoded,
            Event::Refused(error) => EventView::Refused(error@),
            Event::Broken { duplicate } => EventView::Broken { duplicate },
            Event::Committed => EventView::Committed,
        }
    }
}

/// What a transaction does next.
#[derive(Debug)]
pub enum Action {
    /// Run a statement.
    Run(Query),
    /// Read the stored response.
    Decode(String),
    /// Do the operation's work.
    Work,
    /// Commit.
    Commit,
    /// Answer with what the work gave.
    Answer,
    /// Answer with the stored response.
    AnswerStored(String),
    /// Answer with an error, and roll back.
    Fail(StorageError),
    /// Answer with the database's own error, and roll back.
    Report,
    /// Do nothing: the event does not belong here.
    Ignore,
}

/// The model of an `Action`.
pub enum ActionView {
    Run(QueryView),
    Decode(Seq<char>),
    Work,
    Commit,
    Answer,
    AnswerStored(Seq<char>),
    Fail(ErrorView),
    Report,
    Ignore,
}

impl View for Action {
    type V = ActionView;

    open spec fn view(&self) -> ActionView {
        match *self {
            Action::Run(query) => ActionView::Run(query@),
            Action::Decode(response) => ActionView::Decode(response@),
            Action::Work => ActionView::Work,
            Action::Commit => ActionView::Commit,
            Action::Answer => ActionView::Answer,
            Action::AnswerStored(response) => ActionView::AnswerStored(response@),
            Action::Fail(error) => ActionView::Fail(error@),
            Action::Report => ActionView::Report,
            Action::Ignore => ActionView::Ignore,
        }
    }
}

/// The refusal as an action.
pub open spec fn fails(failure: DomainFailure) -> ActionView {
    ActionView::Fail(ErrorView::Domain(failure))
}

/// How a transaction goes on.
pub open spec fn step_of(
    stage: StageView,
    event: EventView,
    command: CommandView,
    operation: Seq<char>,
) -> (StageView, ActionView) {
    match (stage, event) {
        (StageView::Opening, EventView::Opened) => (
            StageView::Admitting,
            ActionView::Run(read_command_of(command, operation)),
        ),
        (StageView::Admitting, EventView::Found(row)) => match admission_of(row, command) {
            Ok(None) => (
                StageView::Recording,
                ActionView::Run(insert_command_of(command, operation)),
            ),
            Ok(Some(response)) => (StageView::Decoding(response), ActionView::Decode(response)),
            Err(failure) => (StageView::Done, fails(failure)),
        },
        (StageView::Decoding(response), EventView::Decoded) => (
            StageView::Replaying(response),
            ActionView::Commit,
        ),
        (StageView::Decoding(_), EventView::Refused(error)) => (
            StageView::Done,
            ActionView::Fail(error),
        ),
        (StageView::Recording, EventView::Ran) => (StageView::Working, ActionView::Work),
        (StageView::Recording, EventView::Broken { duplicate: true }) => (
            StageView::Done,
            fails(DomainFailure::OperationInProgress),
        ),
        (StageView::Working, EventView::Worked(response)) => (
            StageView::Finishing,
            ActionView::Run(finish_command_of(command, operation, response)),
        ),
        (StageView::Working, EventView::Refused(error)) => (
            StageView::Done,
            ActionView::Fail(error),
        ),
        (StageView::Finishing, EventView::Ran) => (StageView::Committing, ActionView::Commit),
        (StageView::Committing, EventView::Committed) => (StageView::Done, ActionView::Answer),
        (StageView::Replaying(response), EventView::Committed) => (
            StageView::Done,
            ActionView::AnswerStored(response),
        ),
        (StageView::Done, _) => (StageView::Done, ActionView::Ignore),
        (_, EventView::Broken { .. }) => (StageView::Done, ActionView::Report),
        _ => (stage, ActionView::Ignore),
    }
}

/// How a transaction goes on from a stage after an event.
pub fn step(stage: Stage, event: Event, command: Command<'_>, operation: &str) -> (next: (
    Stage,
    Action,
))
    ensures
        (next.0@, next.1@) == step_of(stage@, event@, command@, operation@),
{
    match (stage, event) {
        (Stage::Opening, Event::Opened) => (
            Stage::Admitting,
            Action::Run(read_command(command, operation)),
        ),
        (Stage::Admitting, Event::Found(row)) => match admit_command(row, command) {
            Ok(None) => (Stage::Recording, Action::Run(insert_command(command, operation))),
            Ok(Some(response)) => (Stage::Decoding(response.clone()), Action::Decode(response)),
            Err(error) => (Stage::Done, Action::Fail(error)),
        },
        (Stage::Decoding(response), Event::Decoded) => (
            Stage::Replaying(response),
            Action::Commit,
        ),
        (Stage::Decoding(_), Event::Refused(error)) => (Stage::Done, Action::Fail(error)),
        (Stage::Recording, Event::Ran) => (Stage::Working, Action::Work),
        (Stage::Recording, Event::Broken { duplicate: true }) => (
            Stage::Done,
            Action::Fail(StorageError::from(DomainFailure::OperationInProgress)),
        ),
        (Stage::Working, Event::Worked(response)) => (
            Stage::Finishing,
            Action::Run(finish_command(command, operation, response.as_str())),
        ),
        (Stage::Working, Event::Refused(error)) => (Stage::Done, Action::Fail(error)),
        (Stage::Finishing, Event::Ran) => (Stage::Committing, Action::Commit),
        (Stage::Committing, Event::Committed) => (Stage::Done, Action::Answer),
        (Stage::Replaying(response), Event::Committed) => (
            Stage::Done,
            Action::AnswerStored(response),
        ),
        (Stage::Done, _) => (Stage::Done, Action::Ignore),
        (_, Event::Broken { .. }) => (Stage::Done, Action::Report),
        (stage, _) => (stage, Action::Ignore),
    }
}

/// The stage after a run of events.
pub open spec fn stage_after(
    events: Seq<EventView>,
    command: CommandView,
    operation: Seq<char>,
) -> StageView
    decreases events.len(),
{
    if events.len() == 0 {
        StageView::Opening
    } else {
        step_of(
            stage_after(events.drop_last(), command, operation),
            events.last(),
            command,
            operation,
        ).0
    }
}

/// What the transaction does on the event at an index of a run.
pub open spec fn action_at(
    events: Seq<EventView>,
    index: int,
    command: CommandView,
    operation: Seq<char>,
) -> ActionView {
    step_of(
        stage_after(events.take(index), command, operation),
        events[index],
        command,
        operation,
    ).1
}

/// The event tells the response that was stored for the same request.
pub open spec fn tells_stored(event: EventView, command: CommandView, response: Seq<char>) -> bool {
    &&& event is Found
    &&& admission_of(event->Found_0, command) == Ok::<Option<Seq<char>>, DomainFailure>(
        Some(response),
    )
}

/// Some event before the index told the response that was stored for the same request.
pub open spec fn found_before(
    events: Seq<EventView>,
    index: int,
    command: CommandView,
    response: Seq<char>,
) -> bool {
    exists|i: int| 0 <= i < index && #[trigger] tells_stored(events[i], command, response)
}

/// The event at the index tells that the work is done, and upon it the response is stored.
pub open spec fn stores_response(
    events: Seq<EventView>,
    index: int,
    command: CommandView,
    operation: Seq<char>,
) -> bool {
    &&& events[index] is Worked
    &&& action_at(events, index, command, operation) == ActionView::Run(
        finish_command_of(command, operation, events[index]->Worked_0),
    )
}

/// Before the index the work was done, and the response was stored.
pub open spec fn stored_before(
    events: Seq<EventView>,
    index: int,
    command: CommandView,
    operation: Seq<char>,
) -> bool {
    exists|i: int| 0 <= i < index && #[trigger] stores_response(events, i, command, operation)
}

proof fn lemma_stage_has_reason(
    events: Seq<EventView>,
    index: int,
    command: CommandView,
    operation: Seq<char>,
)
    requires
        0 <= index <= events.len(),
    ensures
        match stage_after(events.take(index), command, operation) {
            StageView::Decoding(response) => found_before(events, index, command, response),
            StageView::Replaying(response) => found_before(events, index, command, response),
            StageView::Finishing => stored_before(events, index, command, operation),
            StageView::Committing => stored_before(events, index, command, operation),
            _ => true,
        },
    decreases index,
{
    if index > 0 {
        let before = index - 1;
        assert(events.take(index).drop_last() =~= events.take(before));
        assert(events.take(index).last() == events[before]);
        lemma_stage_has_reason(events, before, command, operation);
        let stage = stage_after(events.take(before), command, operation);
        match stage_after(events.take(index), command, operation) {
            StageView::Decoding(response) => {
                if !(stage is Decoding) {
                    assert(tells_stored(events[before], command, response));
                }
            },
            StageView::Finishing => {
                if !(stage is Finishing) {
                    assert(stores_response(events, before, command, operation));
                }
            },
            _ => {},
        }
    }
}

/// A transaction is committed only once the command's response is stored: by this transaction,
/// after its work was done, or before it, by the same request.
pub proof fn lemma_commit_has_response(
    events: Seq<EventView>,
    index: int,
    command: CommandView,
    operation: Seq<char>,
)
    requires
        0 <= index < events.len(),
        action_at(events, index, command, operation) is Commit,
    ensures
        stored_before(events, index, command, operation) || exists|
            i: int,
            response: Seq<char>,
        |
            0 <= i < index && #[trigger] tells_stored(events[i], command, response),
{
    lemma_stage_has_reason(events, index, command, operation);
    let stage = stage_after(events.take(index), command, operation);
    if stage is Decoding {
        assert(found_before(events, index, command, stage->Decoding_0));
    }
}

proof fn lemma_done_stays(
    events: Seq<EventView>,
    start: int,
    index: int,
    command: CommandView,
    operation: Seq<char>,
)
    requires
        0 <= start <= index <= events.len(),
        stage_after(events.take(start), command, operation) is Done,
    ensures
        stage_after(events.take(index), command, operation) is Done,
    decreases index,
{
    if start < index {
        assert(events.take(index).drop_last() =~= events.take(index - 1));
        lemma_done_stays(events, start, index - 1, command, operation);
    }
}

/// A transaction that was answered with an error is never committed, nor does it do anything else.
pub proof fn lemma_failed_transaction_ends(
    events: Seq<EventView>,
    failed: int,
    index: int,
    command: CommandView,
    operation: Seq<char>,
)
    requires
        0 <= failed < index < events.len(),
        action_at(events, failed, command, operation) is Fail || action_at(
            events,
            failed,
            command,
            operation,
        ) is Report,
    ensures
        action_at(events, index, command, operation) is Ignore,
{
    assert(events.take(failed + 1).drop_last() =~= events.take(failed));
    lemma_done_stays(events, failed + 1, index, command, operation);
}

/// What a statement makes of the command's row: the one that inserts it puts the hash in and leaves
/// the response out, and the one that finishes it puts the response in.
pub open spec fn row_written(
    row: Option<StoredCommandView>,
    action: ActionView,
    command: CommandView,
    operation: Seq<char>,
) -> Option<StoredCommandView> {
    match action {
        ActionView::Run(query) => if query == insert_command_of(command, operation) {
            Some(StoredCommandView { request_hash: command.hash, response: None })
        } else if query == finish_command_of(command, operation, query.binds[4]->Json_0) {
            match row {
                Some(stored) => Some(
                    StoredCommandView { response: Some(query.binds[4]->Json_0), ..stored },
                ),
                None => None,
            }
        } else {
            row
        },
        _ => row,
    }
}

/// The command's row after a run of events that found none, by the statements that were run.
pub open spec fn row_after(
    events: Seq<EventView>,
    command: CommandView,
    operation: Seq<char>,
) -> Option<StoredCommandView>
    decreases events.len(),
{
    if events.len() == 0 {
        None
    } else {
        row_written(
            row_after(events.drop_last(), command, operation),
            step_of(
                stage_after(events.drop_last(), command, operation),
                events.last(),
                command,
                operation,
            ).1,
            command,
            operation,
        )
    }
}

/// The row of a command that was done: the hash of the request, and the response.
pub open spec fn done_row(command: CommandView, response: Seq<char>) -> StoredCommandView {
    StoredCommandView { request_hash: command.hash, response: Some(response) }
}

/// Some event before the index told that the work is done, with the response, and upon it the
/// response was stored.
pub open spec fn responded_before(
    events: Seq<EventView>,
    index: int,
    command: CommandView,
    operation: Seq<char>,
    response: Seq<char>,
) -> bool {
    exists|i: int|
        0 <= i < index && #[trigger] stores_response(events, i, command, operation)
            && events[i]->Worked_0 == response
}

proof fn lemma_row_follows_stage(
    events: Seq<EventView>,
    index: int,
    command: CommandView,
    operation: Seq<char>,
)
    requires
        0 <= index <= events.len(),
    ensures
        ({
            let row = row_after(events.take(index), command, operation);
            match stage_after(events.take(index), command, operation) {
                StageView::Opening => row is None,
                StageView::Admitting => row is None,
                StageView::Recording => row == Some(
                    StoredCommandView { request_hash: command.hash, response: None },
                ),
                StageView::Working => row == Some(
                    StoredCommandView { request_hash: command.hash, response: None },
                ),
                StageView::Finishing => row_responded(events, index, command, operation, row),
                StageView::Committing => row_responded(events, index, command, operation, row),
                _ => true,
            }
        }),
    decreases index,
{
    if index > 0 {
        let before = index - 1;
        assert(events.take(index).drop_last() =~= events.take(before));
        assert(events.take(index).last() == events[before]);
        lemma_row_follows_stage(events, before, command, operation);
        let stage = stage_after(events.take(before), command, operation);
        let row = row_after(events.take(index), command, operation);
        assert(insert_command_of(command, operation).binds.len() == 5);
        assert(insert_command_of(command, operation).binds[4] == BindView::Bytes(command.hash));
        assert(read_command_of(command, operation).binds.len() == 4);
        if stage is Working && events[before] is Worked {
            let response = events[before]->Worked_0;
            let query = finish_command_of(command, operation, response);
            assert(query.binds[4] == BindView::Json(response));
            assert(stores_response(events, before, command, operation));
            assert(row == Some(done_row(command, response)));
            assert(responded_before(events, index, command, operation, response));
        }
        if stage is Finishing || stage is Committing {
            let response = row_after(events.take(before), command, operation)->0.response->0;
            assert(responded_before(events, before, command, operation, response));
            assert(responded_before(events, index, command, operation, response));
        }
    }
}

/// The row is that of the command done, with a response that was stored before the index.
spec fn row_responded(
    events: Seq<EventView>,
    index: int,
    command: CommandView,
    operation: Seq<char>,
    row: Option<StoredCommandView>,
) -> bool {
    &&& row is Some
    &&& row->0.response is Some
    &&& row->0 == done_row(command, row->0.response->0)
    &&& responded_before(events, index, command, operation, row->0.response->0)
}

/// An operation that is answered leaves its command's row done: with the hash of the request, and
/// with the response that the work gave.
pub proof fn lemma_answered_command_is_stored(
    events: Seq<EventView>,
    index: int,
    command: CommandView,
    operation: Seq<char>,
) -> (response: Seq<char>)
    requires
        0 <= index < events.len(),
        action_at(events, index, command, operation) is Answer,
    ensures
        row_after(events.take(index), command, operation) == Some(done_row(command, response)),
        responded_before(events, index, command, operation, response),
{
    lemma_row_follows_stage(events, index, command, operation);
    row_after(events.take(index), command, operation)->0.response->0
}

/// A command that was done is answered from its row, and never done again. Whoever comes later
/// under the same key reads the row that the command left: the same request is answered by the
/// stored response, once that is read, and another request is a conflict. Either way nothing is
/// inserted, no work is done, and nothing else is run.
pub proof fn lemma_done_command_replays(
    first: CommandView,
    response: Seq<char>,
    second: CommandView,
    operation: Seq<char>,
    events: Seq<EventView>,
    index: int,
)
    requires
        second.caller == first.caller,
        second.actor == first.actor,
        second.key == first.key,
        2 <= events.len(),
        events[0] is Opened,
        events[1] == EventView::Found(Some(done_row(first, response))),
        1 <= index < events.len(),
    ensures
        action_at(events, 0, second, operation) == ActionView::Run(
            read_command_of(first, operation),
        ),
        second.hash == first.hash ==> action_at(events, 1, second, operation)
            == ActionView::Decode(response),
        second.hash == first.hash && 2 < events.len() && events[2] is Decoded ==> action_at(
            events,
            2,
            second,
            operation,
        ) is Commit,
        second.hash == first.hash && 3 < events.len() && events[2] is Decoded && events[3]
            is Committed ==> action_at(events, 3, second, operation) == ActionView::AnswerStored(
            response,
        ),
        second.hash != first.hash ==> action_at(events, 1, second, operation) == fails(
            DomainFailure::IdempotencyConflict,
        ) && (index > 1 ==> action_at(events, index, second, operation) is Ignore),
        !(action_at(events, index, second, operation) is Run),
        !(action_at(events, index, second, operation) is Work),
{
    reveal_with_fuel(stage_after, 4);
    assert(command_binds(second, operation) == command_binds(first, operation));
    assert(events.take(0) =~= Seq::<EventView>::empty());
    assert(events.take(1).drop_last() =~= Seq::<EventView>::empty());
    assert(events.take(1).last() == events[0]);
    assert(events.take(2).drop_last() =~= events.take(1));
    assert(events.take(2).last() == events[1]);
    if events.len() > 3 {
        assert(events.take(3).drop_last() =~= events.take(2));
        assert(events.take(3).last() == events[2]);
    }
    if index > 1 {
        if second.hash == first.hash {
            lemma_replaying_stays(response, second, operation, events, index);
        } else {
            lemma_done_stays(events, 2, index, second, operation);
        }
    }
}

proof fn lemma_replaying_stays(
    response: Seq<char>,
    command: CommandView,
    operation: Seq<char>,
    events: Seq<EventView>,
    index: int,
)
    requires
        2 <= index <= events.len(),
        stage_after(events.take(2), command, operation) == StageView::Decoding(response),
    ensures
        ({
            let stage = stage_after(events.take(index), command, operation);
            ||| stage == StageView::Decoding(response)
            ||| stage == StageView::Replaying(response)
            ||| stage is Done
        }),
    decreases index,
{
    if index > 2 {
        assert(events.take(index).drop_last() =~= events.take(index - 1));
        lemma_replaying_stays(response, command, operation, events, index - 1);
    }
}

/// A command is its caller's, its actor's and its operation's own: the row of one is not what
/// another reads.
pub proof fn lemma_rows_are_scoped(
    first: CommandView,
    operation: Seq<char>,
    second: CommandView,
    other: Seq<char>,
)
    requires
        read_command_of(first, operation) == read_command_of(second, other),
    ensures
        first.caller == second.caller,
        first.actor == second.actor,
        first.key == second.key,
        operation == other,
{
    let a = read_command_of(first, operation).binds;
    let b = read_command_of(second, other).binds;
    assert(a[0] == b[0] && a[1] == b[1] && a[2] == b[2] && a[3] == b[3]);
}

} // verus!
