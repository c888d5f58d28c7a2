//! What the functions of the store on PostgreSQL answer, told of the calls themselves.

use vstd::prelude::*;
use crate::decimal::integer_text;
use crate::domain::{
    optional_text, Command, DomainFailure, EnvironmentRecord, ErrorView, EvaluationRecord,
    FlagRecord, ReceiptRecord, StorageError,
};
use crate::evaluation::Request;
use crate::postgres::evaluate;
use crate::postgres::query::{insert_receipt, Query, ReceiptFacts};
use crate::postgres::rows::{
    environment_from_row, flag_from_row, receipt_from_row, require_flag_revision, unique_violation,
    EnvironmentRow, FlagRow, LockedFlag, ReceiptRow,
};
use crate::postgres::session;
use crate::postgres::work;
use crate::ruleset::ruleset_failure;
use crate::stamp::rfc3339_text;
use super::evaluation::{answers_request, lemma_postgres_answers_the_request, request_choice};
use super::receipts::row_holds;
use super::transactions::{
    flag_row_holds, lemma_environment_row_is_read_as_it_is, lemma_flag_row_is_read_as_it_is,
};

verus! {

/// A receipt that an evaluation inserts is listed as it was: read from a row that holds the values
/// bound by the insertion under its columns, it has the receipt id, flag key, environment key,
/// variant key, reason and ruleset revision of the record that was answered, the identifier of the
/// evaluation, and the hash of the context.
pub proof fn lemma_inserted_receipt_is_listed(
    command: Command<'_>,
    facts: ReceiptFacts<'_>,
    record: &EvaluationRecord,
    query: Query,
    row: ReceiptRow,
    result: Result<ReceiptRecord, StorageError>,
)
    requires
        call_ensures(insert_receipt, (command, facts, record), query),
        row_holds(row, query@),
        call_ensures(receipt_from_row, (row,), result),
        rfc3339_text(facts.evaluated_at as int) is Some,
        record.ruleset_revision@ == integer_text(facts.ruleset_number as int),
    ensures
        result is Ok,
        result->Ok_0.receipt_id@ == record.receipt_id@,
        result->Ok_0.evaluation_id@ == facts.evaluation_id@,
        result->Ok_0.flag_key@ == record.flag_key@,
        result->Ok_0.environment_key@ == record.environment_key@,
        result->Ok_0.variant_key@ == record.variant_key@,
        result->Ok_0.reason@ == record.reason@,
        result->Ok_0.ruleset_revision@ == record.ruleset_revision@,
        result->Ok_0.context_hash@ == facts.context_hash@,
        result->Ok_0.evaluated_at@ == rfc3339_text(facts.evaluated_at as int)->0,
        result->Ok_0.row_seq == row.row_seq,
{
    super::receipts::lemma_receipt_is_listed_as_inserted(command, facts, *record, row);
    let receipt = result->Ok_0;
    assert(receipt@.receipt_id == receipt.receipt_id@);
    assert(receipt@.evaluation_id == receipt.evaluation_id@);
    assert(receipt@.flag_key == receipt.flag_key@);
    assert(receipt@.environment_key == receipt.environment_key@);
    assert(receipt@.variant_key == receipt.variant_key@);
    assert(receipt@.reason == receipt.reason@);
    assert(receipt@.ruleset_revision == receipt.ruleset_revision@);
    assert(receipt@.context_hash == receipt.context_hash@);
    assert(receipt@.evaluated_at == receipt.evaluated_at@);
    assert(receipt@.row_seq == receipt.row_seq);
}

/// Every insertion of a receipt can be held by a row: the statement and its places are the ones
/// that a row is read from.
pub proof fn lemma_receipt_insertion_fits_a_row(
    command: Command<'_>,
    facts: ReceiptFacts<'_>,
    record: &EvaluationRecord,
    query: Query,
    row: ReceiptRow,
)
    requires
        call_ensures(insert_receipt, (command, facts, record), query),
        row.receipt_id@ == record.receipt_id@,
        row.evaluation_id@ == facts.evaluation_id@,
        row.flag_key@ == record.flag_key@,
        row.environment_key@ == record.environment_key@,
        row.variant_key@ == record.variant_key@,
        row.reason@ == record.reason@,
        row.ruleset_revision == facts.ruleset_number,
        row.context_hash@ == facts.context_hash@,
        row.evaluated_at == facts.evaluated_at,
    ensures
        row_holds(row, query@),
        query.label@ == "insert evaluation receipt"@,
{
}

/// A flag's row is read as it is: the texts, the revision in decimal, the instants in RFC 3339.
pub proof fn lemma_flag_row_is_read(row: FlagRow, result: Result<FlagRecord, StorageError>)
    requires
        call_ensures(flag_from_row, (row,), result),
    ensures
        result is Err ==> result->Err_0 is Time,
        result is Ok ==> {
            let flag = result->Ok_0;
            &&& flag.organization_id@ == row.organization_id@
            &&& flag.flag_key@ == row.flag_key@
            &&& flag.name@ == row.name@
            &&& optional_text(flag.description) == optional_text(row.description)
            &&& flag.value_type@ == row.value_type@
            &&& flag.archived == row.archived
            &&& flag.revision@ == integer_text(row.revision as int)
            &&& Some(flag.created_at@) == rfc3339_text(row.created_at as int)
            &&& Some(flag.updated_at@) == rfc3339_text(row.updated_at as int)
            &&& (flag.archived_at is Some <==> row.archived_at is Some)
            &&& row.archived_at is Some ==> Some(flag.archived_at->0@) == rfc3339_text(
                row.archived_at->0 as int,
            )
            &&& flag.row_seq == row.row_seq
        },
{
    lemma_flag_row_is_read_as_it_is(row);
    if result is Ok {
        let flag = result->Ok_0;
        assert(flag@.organization_id == flag.organization_id@);
        assert(flag@.flag_key == flag.flag_key@);
        assert(flag@.name == flag.name@);
        assert(flag@.description == optional_text(flag.description));
        assert(flag@.value_type == flag.value_type@);
        assert(flag@.archived == flag.archived);
        assert(flag@.revision == flag.revision@);
        assert(flag@.created_at == flag.created_at@);
        assert(flag@.updated_at == flag.updated_at@);
        assert(flag@.archived_at == optional_text(flag.archived_at));
        assert(flag@.row_seq == flag.row_seq);
    }
}

/// An environment's row is read as it is: the texts, the revision in decimal, the instants in RFC
/// 3339.
pub proof fn lemma_environment_row_is_read(
    row: EnvironmentRow,
    result: Result<EnvironmentRecord, StorageError>,
)
    requires
        call_ensures(environment_from_row, (row,), result),
    ensures
        result is Err ==> result->Err_0 is Time,
        result is Ok ==> {
            let environment = result->Ok_0;
            &&& environment.organization_id@ == row.organization_id@
            &&& environment.environment_key@ == row.environment_key@
            &&& environment.name@ == row.name@
            &&& environment.revision@ == integer_text(row.revision as int)
            &&& Some(environment.created_at@) == rfc3339_text(row.created_at as int)
            &&& Some(environment.updated_at@) == rfc3339_text(row.updated_at as int)
        },
{
    lemma_environment_row_is_read_as_it_is(row);
    if result is Ok {
        let environment = result->Ok_0;
        assert(environment@.organization_id == environment.organization_id@);
        assert(environment@.environment_key == environment.environment_key@);
        assert(environment@.name == environment.name@);
        assert(environment@.revision == environment.revision@);
        assert(environment@.created_at == environment.created_at@);
        assert(environment@.updated_at == environment.updated_at@);
    }
}

/// A locked flag is let through exactly if it is not archived and at the expected revision.
pub proof fn lemma_locked_flag_is_let_through(
    flag: &LockedFlag,
    expected: i64,
    result: Result<(), StorageError>,
)
    requires
        call_ensures(require_flag_revision, (flag, expected), result),
    ensures
        result is Ok <==> !flag.archived && flag.revision == expected,
        flag.archived ==> result is Err && result->Err_0@ == ErrorView::Domain(
            DomainFailure::Archived,
        ),
        !flag.archived && flag.revision != expected ==> result is Err && result->Err_0@
            == ErrorView::Domain(DomainFailure::RevisionConflict),
{
}

/// A broken unique constraint is told by its code, and by no other.
pub proof fn lemma_unique_violation_is_told(code: Option<&str>, unique: bool)
    requires
        call_ensures(unique_violation, (code,), unique),
    ensures
        unique <==> code is Some && code->0@ == "23505"@,
{
}

/// A command's row answers the command by the hash of the request.
pub proof fn lemma_command_is_admitted(
    row: Option<session::StoredCommand>,
    command: Command<'_>,
    result: Result<Option<String>, StorageError>,
)
    requires
        call_ensures(session::admit_command, (row, command), result),
    ensures
        row is None ==> result is Ok && result->Ok_0 is None,
        row is Some && row->0.request_hash@ != command.hash@ ==> result is Err && result->Err_0@
            == ErrorView::Domain(DomainFailure::IdempotencyConflict),
        row is Some && row->0.request_hash@ == command.hash@ && row->0.response is None ==> result
            is Err && result->Err_0@ == ErrorView::Domain(DomainFailure::OperationInProgress),
        row is Some && row->0.request_hash@ == command.hash@ && row->0.response is Some ==> result
            is Ok && result->Ok_0 is Some && result->Ok_0->0@ == row->0.response->0@,
{
}

/// A write that goes on from its locked flag gives it exactly the name and the description that
/// were asked for, and none where none was asked: what is read back of the row is what was asked
/// for.
pub proof fn lemma_update_is_run(
    job: work::Job<'_>,
    flag: LockedFlag,
    changed: (work::Work, work::Next),
    row: FlagRow,
    read: (work::Work, work::Next),
)
    requires
        job.task is UpdateFlag,
        call_ensures(
            work::step,
            (work::Work::LockingFlag, work::Seen::Flag(Some(flag)), job),
            changed,
        ),
        changed.1 is Run,
        flag_row_holds(row, changed.1->Run_0@),
        call_ensures(
            work::step,
            (work::Work::Reading, work::Seen::FlagRow(Some(row)), job),
            read,
        ),
        read.1 is Respond,
    ensures
        !flag.archived,
        flag.revision == job.task->UpdateFlag_expected_revision,
        read.1->Respond_0 is Flag,
        ({
            let answer = read.1->Respond_0->Flag_0;
            &&& answer.organization_id@ == job.organization_id@
            &&& answer.flag_key@ == job.task->UpdateFlag_flag_key@
            &&& answer.name@ == job.task->UpdateFlag_name@
            &&& (answer.description is Some <==> job.task->UpdateFlag_description is Some)
            &&& answer.description is Some ==> answer.description->0@
                == job.task->UpdateFlag_description->0@
        }),
{
    lemma_flag_row_is_read_as_it_is(row);
    let answer = read.1->Respond_0->Flag_0;
    assert(read.1->Respond_0@ == crate::postgres::work::ResponseView::Flag(answer@));
    assert(answer@.organization_id == answer.organization_id@);
    assert(answer@.flag_key == answer.flag_key@);
    assert(answer@.name == answer.name@);
    assert(answer@.description == optional_text(answer.description));
}

/// A publication answers with the numbers that it saw, its actor, its flag and its environment.
pub proof fn lemma_publication_is_answered(
    job: work::Job<'_>,
    number: i64,
    published_at: i128,
    flag_revision: i64,
    environment_revision: i64,
    done: (work::Work, work::Next),
)
    requires
        job.task is PublishRuleset,
        rfc3339_text(published_at as int) is Some,
        call_ensures(
            work::step,
            (
                work::Work::BumpingEnvironment { number, published_at, flag_revision },
                work::Seen::Revision(environment_revision),
                job,
            ),
            done,
        ),
    ensures
        done.0 is Done,
        done.1 is Respond,
        done.1->Respond_0 is Publication,
        ({
            let publication = done.1->Respond_0->Publication_0;
            &&& publication.organization_id@ == job.organization_id@
            &&& publication.flag_key@ == job.task->PublishRuleset_flag_key@
            &&& publication.environment_key@ == job.task->PublishRuleset_environment_key@
            &&& publication.ruleset_revision@ == integer_text(number as int)
            &&& publication.flag_revision@ == integer_text(flag_revision as int)
            &&& publication.environment_revision@ == integer_text(environment_revision as int)
            &&& publication.published_by@ == job.actor@
            &&& Some(publication.published_at@) == rfc3339_text(published_at as int)
        }),
{
    assert(done.1@ is Respond);
    let publication = done.1->Respond_0->Publication_0;
    assert(done.1->Respond_0@ is Publication);
    assert(publication@.organization_id == publication.organization_id@);
    assert(publication@.flag_key == publication.flag_key@);
    assert(publication@.environment_key == publication.environment_key@);
    assert(publication@.ruleset_revision == publication.ruleset_revision@);
    assert(publication@.flag_revision == publication.flag_revision@);
    assert(publication@.environment_revision == publication.environment_revision@);
    assert(publication@.published_by == publication.published_by@);
    assert(publication@.published_at == publication.published_at@);
}

/// What the store keeps for the flag at hand, while its receipt is inserted, is the choice of the
/// latest ruleset in the bucket of the request's own keys and the flag key asked for.
pub proof fn lemma_evaluation_is_run(
    progress: evaluate::Progress,
    ruleset: evaluate::NumberedRuleset,
    stamp: evaluate::InstantStamp,
    request: Request<'_>,
    flags: &[String],
    next: (evaluate::Progress, evaluate::Next),
)
    requires
        call_ensures(
            evaluate::step,
            (progress, evaluate::Seen::Ruleset(Some(ruleset), stamp), request, flags),
            next,
        ),
        progress.stage is ReadingRuleset,
        progress.records@.len() < flags@.len(),
        ruleset_failure(
            progress.stage->ReadingRuleset_value_type@,
            ruleset.definition@,
        ) is None,
        request_choice(
            request,
            flags@[progress.records@.len() as int]@,
            ruleset.definition@,
        ) is Some,
    ensures
        next.0.stage is Storing,
        next.1 is Run,
        answers_request(
            next.0.stage->Storing_record@,
            request,
            flags@[progress.records@.len() as int]@,
            ruleset.definition@,
        ),
        next.0.stage->Storing_record.ruleset_revision@ == integer_text(ruleset.number as int),
        next.0.stage->Storing_record.receipt_id@ == stamp.receipt_id@,
        next.0.stage->Storing_nanos == stamp.nanos,
{
    lemma_postgres_answers_the_request(progress, ruleset, stamp, request, flags@);
    assert(next.0@.stage is Storing);
    assert(next.0.stage is Storing);
    let record = next.0.stage->Storing_record;
    assert(next.0@.stage->Storing_record == record@);
    assert(record@.ruleset_revision == record.ruleset_revision@);
    assert(record@.receipt_id == record.receipt_id@);
}

/// A transaction of a new command reads its row, records it, does its work, stores the response,
/// commits and answers.
pub proof fn lemma_transaction_is_run(
    command: Command<'_>,
    operation: &str,
    response: String,
    opened: (session::Stage, session::Action),
    admitted: (session::Stage, session::Action),
    recorded: (session::Stage, session::Action),
    worked: (session::Stage, session::Action),
    finished: (session::Stage, session::Action),
    committed: (session::Stage, session::Action),
)
    requires
        call_ensures(
            session::step,
            (session::Stage::Opening, session::Event::Opened, command, operation),
            opened,
        ),
        call_ensures(
            session::step,
            (session::Stage::Admitting, session::Event::Found(None), command, operation),
            admitted,
        ),
        call_ensures(
            session::step,
            (session::Stage::Recording, session::Event::Ran, command, operation),
            recorded,
        ),
        call_ensures(
            session::step,
            (session::Stage::Working, session::Event::Worked(response), command, operation),
            worked,
        ),
        call_ensures(
            session::step,
            (session::Stage::Finishing, session::Event::Ran, command, operation),
            finished,
        ),
        call_ensures(
            session::step,
            (session::Stage::Committing, session::Event::Committed, command, operation),
            committed,
        ),
    ensures
        opened.0 is Admitting && opened.1 is Run,
        admitted.0 is Recording && admitted.1 is Run,
        recorded.0 is Working && recorded.1 is Work,
        worked.0 is Finishing && worked.1 is Run,
        finished.0 is Committing && finished.1 is Commit,
        committed.0 is Done && committed.1 is Answer,
        opened.1->Run_0@ == crate::postgres::query::read_command_of(command@, operation@),
        admitted.1->Run_0@ == crate::postgres::query::insert_command_of(command@, operation@),
        worked.1->Run_0@ == crate::postgres::query::finish_command_of(
            command@,
            operation@,
            response@,
        ),
{
    assert(opened.0@ is Admitting && opened.1@ is Run);
    assert(admitted.0@ is Recording && admitted.1@ is Run);
    assert(recorded.0@ is Working && recorded.1@ is Work);
    assert(worked.0@ is Finishing && worked.1@ is Run);
    assert(finished.0@ is Committing && finished.1@ is Commit);
    assert(committed.0@ is Done && committed.1@ is Answer);
}

/// A command that was done is answered by its stored response, once that was read, and never worked
/// on again.
pub proof fn lemma_done_command_is_answered(
    command: Command<'_>,
    operation: &str,
    stored: session::StoredCommand,
    found: (session::Stage, session::Action),
    response: String,
    decoded: (session::Stage, session::Action),
    replayed: (session::Stage, session::Action),
)
    requires
        stored.request_hash@ == command.hash@,
        stored.response is Some,
        response@ == stored.response->0@,
        call_ensures(
            session::step,
            (session::Stage::Admitting, session::Event::Found(Some(stored)), command, operation),
            found,
        ),
        call_ensures(
            session::step,
            (session::Stage::Decoding(response), session::Event::Decoded, command, operation),
            decoded,
        ),
        call_ensures(
            session::step,
            (session::Stage::Replaying(response), session::Event::Committed, command, operation),
            replayed,
        ),
    ensures
        found.0 is Decoding,
        found.0->Decoding_0@ == stored.response->0@,
        found.1 is Decode,
        found.1->Decode_0@ == stored.response->0@,
        decoded.0 is Replaying,
        decoded.0->Replaying_0@ == stored.response->0@,
        decoded.1 is Commit,
        replayed.0 is Done,
        replayed.1 is AnswerStored,
        replayed.1->AnswerStored_0@ == stored.response->0@,
{
    assert(found.0@ is Decoding && found.1@ is Decode);
    assert(decoded.0@ is Replaying && decoded.1@ is Commit);
    assert(replayed.0@ is Done && replayed.1@ is AnswerStored);
}

/// A write that finds no row to read back is refused, as nothing is found; and whatever the database
/// fails by, but for a broken unique constraint where a row is inserted, is reported.
pub proof fn lemma_write_ends_without_its_row(
    job: work::Job<'_>,
    stage: work::Work,
    duplicate: bool,
    flag: (work::Work, work::Next),
    environment: (work::Work, work::Next),
    broken: (work::Work, work::Next),
    after: (work::Work, work::Next),
)
    requires
        call_ensures(work::step, (work::Work::Reading, work::Seen::FlagRow(None), job), flag),
        call_ensures(
            work::step,
            (work::Work::Reading, work::Seen::EnvironmentRow(None), job),
            environment,
        ),
        call_ensures(work::step, (stage, work::Seen::Broken { duplicate }, job), broken),
        call_ensures(work::step, (work::Work::Done, work::Seen::Broken { duplicate }, job), after),
    ensures
        flag.0 is Done,
        flag.1 is Fail,
        flag.1->Fail_0@ == ErrorView::Domain(DomainFailure::NotFound),
        environment.0 is Done,
        environment.1 is Fail,
        environment.1->Fail_0@ == ErrorView::Domain(DomainFailure::NotFound),
        stage is Inserting && duplicate ==> broken.0 is Done && broken.1 is Fail
            && broken.1->Fail_0@ == ErrorView::Domain(DomainFailure::AlreadyExists),
        !(stage is Inserting && duplicate) && !(stage is Done) ==> broken.0 is Done && broken.1
            is Report,
        after.0 is Done,
        after.1 is Ignore,
{
    assert(flag.1@ is Fail);
    assert(environment.1@ is Fail);
    assert(broken.1@ is Fail || broken.1@ is Report || broken.1@ is Ignore);
    assert(after.1@ is Ignore);
}

/// A transaction that fails is rolled back and answered by what failed it: the refusal of the work
/// or of the stored response, the database's own error, or, where the command's row is there
/// already, that the operation is in progress. What is done with does nothing more.
pub proof fn lemma_transaction_ends_by_what_failed_it(
    command: Command<'_>,
    operation: &str,
    response: String,
    error: StorageError,
    stage: session::Stage,
    duplicate: bool,
    refused: (session::Stage, session::Action),
    unread: (session::Stage, session::Action),
    broken: (session::Stage, session::Action),
)
    requires
        call_ensures(
            session::step,
            (session::Stage::Working, session::Event::Refused(error), command, operation),
            refused,
        ),
        call_ensures(
            session::step,
            (
                session::Stage::Decoding(response),
                session::Event::Refused(error),
                command,
                operation,
            ),
            unread,
        ),
        call_ensures(
            session::step,
            (stage, session::Event::Broken { duplicate }, command, operation),
            broken,
        ),
    ensures
        refused.0 is Done,
        refused.1 is Fail,
        refused.1->Fail_0@ == error@,
        unread.0 is Done,
        unread.1 is Fail,
        unread.1->Fail_0@ == error@,
        stage is Recording && duplicate ==> broken.0 is Done && broken.1 is Fail
            && broken.1->Fail_0@ == ErrorView::Domain(DomainFailure::OperationInProgress),
        !(stage is Recording && duplicate) && !(stage is Done) ==> broken.0 is Done && broken.1
            is Report,
        stage is Done ==> broken.0 is Done && broken.1 is Ignore,
{
    assert(refused.0@ is Done && refused.1@ is Fail);
    assert(unread.0@ is Done && unread.1@ is Fail);
    assert(broken.0@ is Done);
    assert(broken.1@ is Fail || broken.1@ is Report || broken.1@ is Ignore);
}

} // verus!
