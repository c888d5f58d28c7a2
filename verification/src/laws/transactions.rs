//! How the writes on PostgreSQL go, statement by statement, and what they answer.

use vstd::prelude::*;
use crate::decimal::{i64_value, integer_text, lemma_integer_round_trip};
use crate::domain::{optional_str, optional_text, Command, DomainFailure, ErrorView, StorageError};
use crate::postgres::query::{
    finish_command_of, insert_command_of, insert_flag_of, insert_ruleset_of, keyed_of, placed_of,
    read_command_of, update_flag_of, write_environment_of, BindView, QueryView,
};
use crate::postgres::rows::{
    environment_of_row, flag_of_row, lock_refusal, EnvironmentRow, FlagRow, LockedFlag,
    UNIQUE_VIOLATION,
};
use crate::postgres::session;
use crate::postgres::session::{admission_of, stored_view, StoredCommand};
use crate::postgres::work::{step_of, Job, NextView, ResponseView, SeenView, Work};
use crate::ruleset::ruleset_failure;
use crate::stamp::rfc3339_text;

verus! {

/// A locked flag can be changed exactly if it is not archived and its revision is the expected one;
/// an archived flag is refused as such, and any other as a conflict.
pub proof fn lemma_locked_flag_is_refused_for_its_state(flag: LockedFlag, expected: i64)
    ensures
        lock_refusal(flag@, expected as int) is None <==> !flag.archived && flag.revision
            == expected,
        lock_refusal(flag@, expected as int) == Some(DomainFailure::Archived) <==> flag.archived,
        lock_refusal(flag@, expected as int) == Some(DomainFailure::RevisionConflict)
            <==> !flag.archived && flag.revision != expected,
{
}

/// The record of a flag's row has what the row has: the texts as they are, the revision in decimal,
/// and the instants in RFC 3339.
pub proof fn lemma_flag_row_is_read_as_it_is(row: FlagRow)
    ensures
        flag_of_row(row) is Some <==> rfc3339_text(row.created_at as int) is Some && rfc3339_text(
            row.updated_at as int,
        ) is Some && (row.archived_at is Some ==> rfc3339_text(
            row.archived_at->0 as int,
        ) is Some),
        flag_of_row(row) matches Some(flag) ==> {
            &&& flag.organization_id == row.organization_id@
            &&& flag.flag_key == row.flag_key@
            &&& flag.name == row.name@
            &&& flag.description == optional_text(row.description)
            &&& flag.value_type == row.value_type@
            &&& flag.archived == row.archived
            &&& i64_value(flag.revision) == Some(row.revision as int)
            &&& Some(flag.created_at) == rfc3339_text(row.created_at as int)
            &&& Some(flag.updated_at) == rfc3339_text(row.updated_at as int)
            &&& (flag.archived_at is Some <==> row.archived_at is Some)
            &&& row.archived_at is Some ==> flag.archived_at == rfc3339_text(
                row.archived_at->0 as int,
            )
            &&& flag.row_seq == row.row_seq
        },
{
    lemma_integer_round_trip(row.revision as int);
}

/// The record of an environment's row has what the row has: the texts as they are, the revision in
/// decimal, and the instants in RFC 3339.
pub proof fn lemma_environment_row_is_read_as_it_is(row: EnvironmentRow)
    ensures
        environment_of_row(row) is Some <==> rfc3339_text(row.created_at as int) is Some
            && rfc3339_text(row.updated_at as int) is Some,
        environment_of_row(row) matches Some(environment) ==> {
            &&& environment.organization_id == row.organization_id@
            &&& environment.environment_key == row.environment_key@
            &&& environment.name == row.name@
            &&& i64_value(environment.revision) == Some(row.revision as int)
            &&& Some(environment.created_at) == rfc3339_text(row.created_at as int)
            &&& Some(environment.updated_at) == rfc3339_text(row.updated_at as int)
        },
{
    lemma_integer_round_trip(row.revision as int);
}

/// The flag's row holds the values that an insertion or an update of the flag binds: the
/// organization, the key, the name and the description, in this order.
pub open spec fn flag_row_holds(row: FlagRow, query: QueryView) -> bool {
    &&& query.binds[0] == BindView::Text(row.organization_id@)
    &&& query.binds[1] == BindView::Text(row.flag_key@)
    &&& query.binds[2] == BindView::Text(row.name@)
    &&& query.binds[3] == BindView::OptionalText(optional_text(row.description))
}

/// The environment's row holds the values that an insertion or an update of it binds: the
/// organization, the key and the name, in this order.
pub open spec fn environment_row_holds(row: EnvironmentRow, query: QueryView) -> bool {
    &&& query.binds[0] == BindView::Text(row.organization_id@)
    &&& query.binds[1] == BindView::Text(row.environment_key@)
    &&& query.binds[2] == BindView::Text(row.name@)
}

/// A creation inserts the flag that was asked for, reads it back, and answers with what it read:
/// the name, the description and the type that were asked for. A key that is taken is refused.
pub proof fn lemma_creation_goes_through(job: Job<'_>, row: FlagRow)
    requires
        job.task is CreateFlag,
        flag_of_row(row) is Some,
        ({
            let insertion = step_of(Work::Start, SeenView::Begin, job@).1;
            &&& insertion is Run
            &&& flag_row_holds(row, insertion->Run_0)
            &&& insertion->Run_0.binds[4] == BindView::Text(row.value_type@)
        }),
    ensures
        ({
            let task = job.task;
            let begun = step_of(Work::Start, SeenView::Begin, job@);
            let written = step_of(begun.0, SeenView::Ran, job@);
            let read = step_of(written.0, SeenView::FlagRow(Some(row)), job@);
            let flag = read.1->Respond_0->Flag_0;
            &&& begun.1 == NextView::Run(
                insert_flag_of(
                    job.organization_id@,
                    task->CreateFlag_flag_key@,
                    task->CreateFlag_name@,
                    optional_str(task->CreateFlag_description),
                    task->CreateFlag_value_type@,
                ),
            )
            &&& step_of(begun.0, SeenView::Broken { duplicate: true }, job@) == (
                Work::Done,
                NextView::Fail(DomainFailure::AlreadyExists),
            )
            &&& written.1 == NextView::Run(
                keyed_of(
                    "read flag"@,
                    "SELECT * FROM feature_flags WHERE organization_id=$1 AND flag_key=$2"@,
                    job.organization_id@,
                    task->CreateFlag_flag_key@,
                ),
            )
            &&& read.0 is Done
            &&& read.1 is Respond
            &&& read.1->Respond_0 is Flag
            &&& flag.organization_id == job.organization_id@
            &&& flag.flag_key == task->CreateFlag_flag_key@
            &&& flag.name == task->CreateFlag_name@
            &&& flag.description == optional_str(task->CreateFlag_description)
            &&& flag.value_type == task->CreateFlag_value_type@
        }),
{
    lemma_flag_row_is_read_as_it_is(row);
}

/// An update locks the flag, changes it only unarchived and at the expected revision, reads it
/// back, and answers with what it read: exactly the name and the description that were asked for,
/// and none where none was asked.
pub proof fn lemma_update_goes_through(job: Job<'_>, flag: LockedFlag, row: FlagRow)
    requires
        job.task is UpdateFlag,
        flag_of_row(row) is Some,
        ({
            let locked = step_of(Work::LockingFlag, SeenView::Flag(Some(flag@)), job@).1;
            locked is Run ==> flag_row_holds(row, locked->Run_0)
        }),
    ensures
        ({
            let task = job.task;
            let key = task->UpdateFlag_flag_key@;
            let begun = step_of(Work::Start, SeenView::Begin, job@);
            let locked = step_of(begun.0, SeenView::Flag(Some(flag@)), job@);
            &&& begun.1 == NextView::Run(
                keyed_of(
                    "lock flag"@,
                    "SELECT revision,archived,value_type FROM feature_flags WHERE organization_id=$1 AND flag_key=$2 FOR UPDATE"@,
                    job.organization_id@,
                    key,
                ),
            )
            &&& step_of(begun.0, SeenView::Flag(None), job@) == (
                Work::Done,
                NextView::Fail(DomainFailure::NotFound),
            )
            &&& if flag.archived {
                locked == (Work::Done, NextView::Fail(DomainFailure::Archived))
            } else if flag.revision != task->UpdateFlag_expected_revision {
                locked == (Work::Done, NextView::Fail(DomainFailure::RevisionConflict))
            } else {
                let written = step_of(locked.0, SeenView::Ran, job@);
                let read = step_of(written.0, SeenView::FlagRow(Some(row)), job@);
                let answer = read.1->Respond_0->Flag_0;
                &&& locked.1 == NextView::Run(
                    update_flag_of(
                        job.organization_id@,
                        key,
                        task->UpdateFlag_name@,
                        optional_str(task->UpdateFlag_description),
                    ),
                )
                &&& written.1 == NextView::Run(
                    keyed_of(
                        "read flag"@,
                        "SELECT * FROM feature_flags WHERE organization_id=$1 AND flag_key=$2"@,
                        job.organization_id@,
                        key,
                    ),
                )
                &&& read.0 is Done
                &&& read.1 is Respond
                &&& read.1->Respond_0 is Flag
                &&& answer.organization_id == job.organization_id@
                &&& answer.flag_key == key
                &&& answer.name == task->UpdateFlag_name@
                &&& answer.description == optional_str(task->UpdateFlag_description)
            }
        }),
{
    lemma_flag_row_is_read_as_it_is(row);
}

/// An archival locks the flag, archives it only unarchived and at the expected revision, and reads
/// it back.
pub proof fn lemma_archival_goes_through(job: Job<'_>, flag: LockedFlag, row: FlagRow)
    requires
        job.task is ArchiveFlag,
    ensures
        ({
            let task = job.task;
            let key = task->ArchiveFlag_flag_key@;
            let begun = step_of(Work::Start, SeenView::Begin, job@);
            let locked = step_of(begun.0, SeenView::Flag(Some(flag@)), job@);
            &&& begun.1 == NextView::Run(
                keyed_of(
                    "lock flag"@,
                    "SELECT revision,archived,value_type FROM feature_flags WHERE organization_id=$1 AND flag_key=$2 FOR UPDATE"@,
                    job.organization_id@,
                    key,
                ),
            )
            &&& step_of(begun.0, SeenView::Flag(None), job@) == (
                Work::Done,
                NextView::Fail(DomainFailure::NotFound),
            )
            &&& if flag.archived {
                locked == (Work::Done, NextView::Fail(DomainFailure::Archived))
            } else if flag.revision != task->ArchiveFlag_expected_revision {
                locked == (Work::Done, NextView::Fail(DomainFailure::RevisionConflict))
            } else {
                let written = step_of(locked.0, SeenView::Ran, job@);
                let read = step_of(written.0, SeenView::FlagRow(Some(row)), job@);
                &&& locked.1 == NextView::Run(
                    keyed_of(
                        "archive flag"@,
                        "UPDATE feature_flags SET archived=true,archived_at=clock_timestamp(),revision=revision+1,updated_at=clock_timestamp() WHERE organization_id=$1 AND flag_key=$2"@,
                        job.organization_id@,
                        key,
                    ),
                )
                &&& written.1 == NextView::Run(
                    keyed_of(
                        "read flag"@,
                        "SELECT * FROM feature_flags WHERE organization_id=$1 AND flag_key=$2"@,
                        job.organization_id@,
                        key,
                    ),
                )
                &&& read.0 is Done
                &&& match flag_of_row(row) {
                    Some(answer) => read.1 == NextView::Respond(ResponseView::Flag(answer)),
                    None => read.1 is Untimed,
                }
                &&& step_of(written.0, SeenView::FlagRow(None), job@).1 == NextView::Fail(
                    DomainFailure::NotFound,
                )
            }
        }),
{
}

/// A put locks the environment; it inserts one where none is there and none is expected, renames
/// the one that is there at the expected revision, and is refused otherwise; it then reads the
/// environment back and answers with what it read, which has the name that was asked for.
pub proof fn lemma_put_goes_through(job: Job<'_>, revision: Option<i64>, row: EnvironmentRow)
    requires
        job.task is PutEnvironment,
        environment_of_row(row) is Some,
        ({
            let seen = match revision {
                Some(n) => Some(n as int),
                None => None,
            };
            let locked = step_of(Work::LockingEnvironment, SeenView::Environment(seen), job@).1;
            locked is Run ==> environment_row_holds(row, locked->Run_0)
        }),
    ensures
        ({
            let task = job.task;
            let key = task->PutEnvironment_environment_key@;
            let expected = task->PutEnvironment_expected_revision;
            let seen = match revision {
                Some(n) => Some(n as int),
                None => None,
            };
            let begun = step_of(Work::Start, SeenView::Begin, job@);
            let locked = step_of(begun.0, SeenView::Environment(seen), job@);
            &&& begun.1 == NextView::Run(
                keyed_of(
                    "lock environment"@,
                    "SELECT revision FROM feature_environments WHERE organization_id=$1 AND environment_key=$2 FOR UPDATE"@,
                    job.organization_id@,
                    key,
                ),
            )
            &&& if revision is Some && expected is None {
                locked == (Work::Done, NextView::Fail(DomainFailure::AlreadyExists))
            } else if revision is None && expected is Some {
                locked == (Work::Done, NextView::Fail(DomainFailure::NotFound))
            } else if revision != expected {
                locked == (Work::Done, NextView::Fail(DomainFailure::RevisionConflict))
            } else {
                let written = step_of(locked.0, SeenView::Ran, job@);
                let read = step_of(written.0, SeenView::EnvironmentRow(Some(row)), job@);
                let answer = read.1->Respond_0->Environment_0;
                &&& locked.1 == NextView::Run(
                    write_environment_of(
                        revision is None,
                        job.organization_id@,
                        key,
                        task->PutEnvironment_name@,
                    ),
                )
                &&& revision is None ==> step_of(
                    locked.0,
                    SeenView::Broken { duplicate: true },
                    job@,
                ) == (Work::Done, NextView::Fail(DomainFailure::AlreadyExists))
                &&& written.1 == NextView::Run(
                    keyed_of(
                        "read environment"@,
                        "SELECT * FROM feature_environments WHERE organization_id=$1 AND environment_key=$2"@,
                        job.organization_id@,
                        key,
                    ),
                )
                &&& read.0 is Done
                &&& read.1 is Respond
                &&& read.1->Respond_0 is Environment
                &&& answer.organization_id == job.organization_id@
                &&& answer.environment_key == key
                &&& answer.name == task->PutEnvironment_name@
            }
        }),
{
    lemma_environment_row_is_read_as_it_is(row);
}

/// A publication locks the flag, finds the ruleset valid for the flag's type, locks the
/// environment, takes the next number, inserts the ruleset under it, and advances the flag and the
/// environment; and it answers with the numbers that it saw, its actor and the time of the
/// insertion. It is refused for the first thing that is wrong: the flag, the ruleset, the
/// environment.
pub proof fn lemma_publication_goes_through(
    job: Job<'_>,
    flag: LockedFlag,
    revision: Option<i64>,
    number: i64,
    published_at: i128,
    flag_revision: i64,
    environment_revision: i64,
)
    requires
        job.task is PublishRuleset,
    ensures
        ({
            let task = job.task;
            let key = task->PublishRuleset_flag_key@;
            let place = task->PublishRuleset_environment_key@;
            let organization_id = job.organization_id@;
            let failure = ruleset_failure(flag.value_type@, task->PublishRuleset_definition@);
            let begun = step_of(Work::Start, SeenView::Begin, job@);
            let locked = step_of(begun.0, SeenView::Flag(Some(flag@)), job@);
            let seen = match revision {
                Some(n) => Some(n as int),
                None => None,
            };
            &&& begun.1 == NextView::Run(
                keyed_of(
                    "lock flag"@,
                    "SELECT revision,archived,value_type FROM feature_flags WHERE organization_id=$1 AND flag_key=$2 FOR UPDATE"@,
                    organization_id,
                    key,
                ),
            )
            &&& step_of(begun.0, SeenView::Flag(None), job@) == (
                Work::Done,
                NextView::Fail(DomainFailure::NotFound),
            )
            &&& if flag.archived {
                locked == (Work::Done, NextView::Fail(DomainFailure::Archived))
            } else if flag.revision != task->PublishRuleset_expected_flag_revision {
                locked == (Work::Done, NextView::Fail(DomainFailure::RevisionConflict))
            } else if failure is Some {
                locked == (Work::Done, NextView::Fail(failure->0))
            } else {
                let placed = step_of(locked.0, SeenView::Environment(seen), job@);
                &&& locked.1 == NextView::Run(
                    keyed_of(
                        "lock ruleset environment"@,
                        "SELECT revision FROM feature_environments WHERE organization_id=$1 AND environment_key=$2 FOR UPDATE"@,
                        organization_id,
                        place,
                    ),
                )
                &&& if revision is None {
                    placed == (Work::Done, NextView::Fail(DomainFailure::NotFound))
                } else if revision != Some(task->PublishRuleset_expected_environment_revision) {
                    placed == (Work::Done, NextView::Fail(DomainFailure::RevisionConflict))
                } else {
                    let numbered = step_of(placed.0, SeenView::Number(number), job@);
                    let inserted = step_of(numbered.0, SeenView::PublishedAt(published_at), job@);
                    let bumped = step_of(inserted.0, SeenView::Revision(flag_revision), job@);
                    let done = step_of(bumped.0, SeenView::Revision(environment_revision), job@);
                    let publication = done.1->Respond_0->Publication_0;
                    &&& placed.1 == NextView::Run(
                        placed_of(
                            "allocate ruleset revision"@,
                            "SELECT COALESCE(MAX(ruleset_revision),0)+1 FROM feature_rulesets WHERE organization_id=$1 AND flag_key=$2 AND environment_key=$3"@,
                            organization_id,
                            key,
                            place,
                        ),
                    )
                    &&& numbered.1 == NextView::Run(
                        insert_ruleset_of(
                            organization_id,
                            key,
                            place,
                            number as int,
                            task->PublishRuleset_ruleset@,
                            job.actor@,
                        ),
                    )
                    &&& inserted.1 == NextView::Run(
                        keyed_of(
                            "bump flag"@,
                            "UPDATE feature_flags SET revision=revision+1,updated_at=clock_timestamp() WHERE organization_id=$1 AND flag_key=$2 RETURNING revision"@,
                            organization_id,
                            key,
                        ),
                    )
                    &&& bumped.1 == NextView::Run(
                        keyed_of(
                            "bump environment"@,
                            "UPDATE feature_environments SET revision=revision+1,updated_at=clock_timestamp() WHERE organization_id=$1 AND environment_key=$2 RETURNING revision"@,
                            organization_id,
                            place,
                        ),
                    )
                    &&& done.0 is Done
                    &&& if rfc3339_text(published_at as int) is None {
                        done.1 is Untimed
                    } else {
                        &&& done.1 is Respond
                        &&& done.1->Respond_0 is Publication
                        &&& publication.organization_id == organization_id
                        &&& publication.flag_key == key
                        &&& publication.environment_key == place
                        &&& publication.ruleset_revision == integer_text(number as int)
                        &&& publication.flag_revision == integer_text(flag_revision as int)
                        &&& publication.environment_revision == integer_text(
                            environment_revision as int,
                        )
                        &&& publication.published_by == job.actor@
                        &&& Some(publication.published_at) == rfc3339_text(published_at as int)
                    }
                }
            }
        }),
{
}

/// A write that the database fails ends with the database's own error, but for a key that is taken
/// on an insertion; and a write that was answered does nothing more.
pub proof fn lemma_broken_write_is_reported(job: Job<'_>, work: Work, duplicate: bool)
    requires
        !(work is Done),
        !(work is Inserting && duplicate),
    ensures
        step_of(work, SeenView::Broken { duplicate }, job@) == (Work::Done, NextView::Report),
        step_of(Work::Done, SeenView::Broken { duplicate }, job@) == (
            Work::Done,
            NextView::Ignore,
        ),
{
}

/// A command's row answers the command by the hash of the request: no row, no answer; the hash of
/// another request, a conflict; the same hash, the stored response, or that the operation is in
/// progress where there is none yet.
pub proof fn lemma_admission_goes_by_the_hash(row: Option<StoredCommand>, command: Command<'_>)
    ensures
        row is None ==> admission_of(stored_view(row), command@) == Ok::<
            Option<Seq<char>>,
            DomainFailure,
        >(None),
        row is Some && row->0.request_hash@ != command.hash@ ==> admission_of(
            stored_view(row),
            command@,
        ) == Err::<Option<Seq<char>>, DomainFailure>(DomainFailure::IdempotencyConflict),
        row is Some && row->0.request_hash@ == command.hash@ && row->0.response is None
            ==> admission_of(stored_view(row), command@) == Err::<Option<Seq<char>>, DomainFailure>(
            DomainFailure::OperationInProgress,
        ),
        row is Some && row->0.request_hash@ == command.hash@ && row->0.response is Some
            ==> admission_of(stored_view(row), command@) == Ok::<Option<Seq<char>>, DomainFailure>(
            Some(row->0.response->0@),
        ),
{
}

/// A new command's transaction reads the command's row, inserts it, does the work, stores the
/// response of the work, commits, and answers; in this order, and no step before the one ahead of
/// it succeeded.
pub proof fn lemma_transaction_goes_through(
    command: Command<'_>,
    operation: &str,
    response: &str,
)
    ensures
        ({
            let at = |stage: session::StageView, event: session::EventView|
                session::step_of(stage, event, command@, operation@);
            &&& at(session::StageView::Opening, session::EventView::Opened) == (
                session::StageView::Admitting,
                session::ActionView::Run(read_command_of(command@, operation@)),
            )
            &&& at(session::StageView::Admitting, session::EventView::Found(None)) == (
                session::StageView::Recording,
                session::ActionView::Run(insert_command_of(command@, operation@)),
            )
            &&& at(session::StageView::Recording, session::EventView::Ran) == (
                session::StageView::Working,
                session::ActionView::Work,
            )
            &&& at(session::StageView::Working, session::EventView::Worked(response@)) == (
                session::StageView::Finishing,
                session::ActionView::Run(
                    finish_command_of(command@, operation@, response@),
                ),
            )
            &&& at(session::StageView::Finishing, session::EventView::Ran) == (
                session::StageView::Committing,
                session::ActionView::Commit,
            )
            &&& at(session::StageView::Committing, session::EventView::Committed) == (
                session::StageView::Done,
                session::ActionView::Answer,
            )
        }),
{
}

/// A transaction whose command is being recorded by another one answers that the operation is in
/// progress; one that the database fails otherwise reports the database's own error; one whose work
/// is refused fails with that refusal. All of them end there.
pub proof fn lemma_transaction_fails_for_its_reason(
    command: Command<'_>,
    operation: &str,
    stage: session::Stage,
    error: StorageError,
    duplicate: bool,
)
    ensures
        session::step_of(
            session::StageView::Recording,
            session::EventView::Broken { duplicate: true },
            command@,
            operation@,
        ) == (
            session::StageView::Done,
            session::ActionView::Fail(ErrorView::Domain(DomainFailure::OperationInProgress)),
        ),
        !(stage is Done) && !(stage is Recording && duplicate) ==> session::step_of(
            stage@,
            session::EventView::Broken { duplicate },
            command@,
            operation@,
        ) == (session::StageView::Done, session::ActionView::Report),
        stage is Working || stage is Decoding ==> session::step_of(
            stage@,
            session::Event::Refused(error)@,
            command@,
            operation@,
        ) == (session::StageView::Done, session::ActionView::Fail(error@)),
{
}

/// A broken unique constraint has the code that the SQL standard gives it.
pub proof fn lemma_unique_violation_has_its_code()
    ensures
        UNIQUE_VIOLATION@ == "23505"@,
{
}

} // verus!
