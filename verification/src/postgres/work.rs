//! The work of the operations that write: which statement comes next, and when to refuse.

use vstd::prelude::*;
use crate::decimal::{i64_text, integer_text};
use crate::domain::{
    optional_str, DefinitionView, DomainFailure, EnvironmentRecord, EnvironmentView, ErrorView,
    FlagRecord, FlagView, PublishRecord, PublishView, RulesetDefinition, StorageError,
};
use crate::ruleset::{ruleset_failure, validate_ruleset};
use crate::stamp::{format_timestamp, rfc3339_text};
use super::query::{
    insert_flag, insert_flag_of, insert_ruleset, insert_ruleset_of, keyed, keyed_of, placed,
    placed_of, update_flag, update_flag_of, write_environment, write_environment_of, Query,
    QueryView, ARCHIVE_FLAG, BUMP_ENVIRONMENT, BUMP_FLAG, LOCK_ENVIRONMENT, LOCK_FLAG,
    NEXT_RULESET, READ_ENVIRONMENT, READ_FLAG,
};
use super::rows::{
    environment_from_row, environment_of_row, flag_from_row, flag_of_row, lock_refusal,
    require_flag_revision, EnvironmentRow, FlagRow, LockedFlag, LockedFlagView,
};

verus! {

/// What a write was asked for.
#[derive(Clone, Copy, Debug)]
#[allow(inconsistent_fields)]
pub enum Task<'a> {
    CreateFlag {
        flag_key: &'a str,
        name: &'a str,
        description: Option<&'a str>,
        value_type: &'a str,
    },
    UpdateFlag {
        flag_key: &'a str,
        expected_revision: i64,
        name: &'a str,
        description: Option<&'a str>,
    },
    ArchiveFlag { flag_key: &'a str, expected_revision: i64 },
    PutEnvironment { environment_key: &'a str, name: &'a str, expected_revision: Option<i64> },
    PublishRuleset {
        flag_key: &'a str,
        environment_key: &'a str,
        expected_flag_revision: i64,
        expected_environment_revision: i64,
        definition: &'a RulesetDefinition,
        /// The JSON text of the definition.
        ruleset: &'a str,
    },
}

/// A write: the organization and the actor it is for, and what it was asked for.
#[derive(Clone, Copy, Debug)]
pub struct Job<'a> {
    pub organization_id: &'a str,
    pub actor: &'a str,
    pub task: Task<'a>,
}

/// The model of a `Task`.
#[allow(inconsistent_fields)]
pub enum TaskView {
    CreateFlag {
        flag_key: Seq<char>,
        name: Seq<char>,
        description: Option<Seq<char>>,
        value_type: Seq<char>,
    },
    UpdateFlag {
        flag_key: Seq<char>,
        expected_revision: int,
        name: Seq<char>,
        description: Option<Seq<char>>,
    },
    ArchiveFlag { flag_key: Seq<char>, expected_revision: int },
    PutEnvironment {
        environment_key: Seq<char>,
        name: Seq<char>,
        expected_revision: Option<i64>,
    },
    PublishRuleset {
        flag_key: Seq<char>,
        environment_key: Seq<char>,
        expected_flag_revision: int,
        expected_environment_revision: int,
        definition: DefinitionView,
        ruleset: Seq<char>,
    },
}

impl<'a> View for Task<'a> {
    type V = TaskView;

    open spec fn view(&self) -> TaskView {
        match *self {
            Task::CreateFlag { flag_key, name, description, value_type } => TaskView::CreateFlag {
                flag_key: flag_key@,
                name: name@,
                description: optional_str(description),
                value_type: value_type@,
            },
            Task::UpdateFlag { flag_key, expected_revision, name, description } => {
                TaskView::UpdateFlag {
                    flag_key: flag_key@,
                    expected_revision: expected_revision as int,
                    name: name@,
                    description: optional_str(description),
                }
            },
            Task::ArchiveFlag { flag_key, expected_revision } => TaskView::ArchiveFlag {
                flag_key: flag_key@,
                expected_revision: expected_revision as int,
            },
            Task::PutEnvironment { environment_key, name, expected_revision } => {
                TaskView::PutEnvironment {
                    environment_key: environment_key@,
                    name: name@,
                    expected_revision,
                }
            },
            Task::PublishRuleset {
                flag_key,
                environment_key,
                expected_flag_revision,
                expected_environment_revision,
                definition,
                ruleset,
            } => TaskView::PublishRuleset {
                flag_key: flag_key@,
                environment_key: environment_key@,
                expected_flag_revision: expected_flag_revision as int,
                expected_environment_revision: expected_environment_revision as int,
                definition: definition@,
                ruleset: ruleset@,
            },
        }
    }
}

/// The model of a `Job`.
pub struct JobView {
    pub organization_id: Seq<char>,
    pub actor: Seq<char>,
    pub task: TaskView,
}

impl<'a> View for Job<'a> {
    type V = JobView;

    open spec fn view(&self) -> JobView {
        JobView {
            organization_id: self.organization_id@,
            actor: self.actor@,
            task: self.task@,
        }
    }
}

/// How far a write has come.
#[derive(Clone, Copy, Debug, PartialEq, Eq, Structural)]
pub enum Work {
    /// Nothing was done yet.
    Start,
    /// The flag is being locked.
    LockingFlag,
    /// The environment is being locked.
    LockingEnvironment,
    /// The ruleset's number is being taken.
    Numbering,
    /// The ruleset is being inserted.
    Publishing { number: i64 },
    /// The flag's revision is being advanced.
    BumpingFlag { number: i64, published_at: i128 },
    /// The environment's revision is being advanced.
    BumpingEnvironment { number: i64, published_at: i128, flag_revision: i64 },
    /// A row is being inserted.
    Inserting,
    /// A row is being changed.
    Updating,
    /// The row is being read back.
    Reading,
    /// The write was answered.
    Done,
}

/// What a write learns.
#[derive(Debug)]
pub enum Seen {
    /// The write begins.
    Begin,
    /// The locked flag, if there is one.
    Flag(Option<LockedFlag>),
    /// The revision of the locked environment, if there is one.
    Environment(Option<i64>),
    /// The statement took effect.
    Ran,
    /// The next number of the rulesets.
    Number(i64),
    /// When the ruleset was published, in nanoseconds since the Unix epoch.
    PublishedAt(i128),
    /// The revision that a row was advanced to.
    Revision(i64),
    /// The flag that was read back, if there is one.
    FlagRow(Option<FlagRow>),
    /// The environment that was read back, if there is one.
    EnvironmentRow(Option<EnvironmentRow>),
    /// The database failed, by a broken unique constraint or otherwise.
    Broken { duplicate: bool },
}

/// The model of a `Seen`.
pub enum SeenView {
    Begin,
    Flag(Option<LockedFlagView>),
    Environment(Option<int>),
    Ran,
    Number(i64),
    PublishedAt(i128),
    Revision(i64),
    FlagRow(Option<FlagRow>),
    EnvironmentRow(Option<EnvironmentRow>),
    Broken { duplicate: bool },
}

impl View for Seen {
    type V = SeenView;

    open spec fn view(&self) -> SeenView {
        match *self {
            Seen::Begin => SeenView::Begin,
            Seen::Flag(flag) => SeenView::Flag(
                match flag {
                    Some(flag) => Some(flag@),
                    None => None,
                },
            ),
            Seen::Environment(revision) => SeenView::Environment(
                match revision {
                    Some(revision) => Some(revision as int),
                    None => None,
                },
            ),
            Seen::Ran => SeenView::Ran,
            Seen::Number(number) => SeenView::Number(number),
            Seen::PublishedAt(instant) => SeenView::PublishedAt(instant),
            Seen::Revision(revision) => SeenView::Revision(revision),
            Seen::FlagRow(row) => SeenView::FlagRow(row),
            Seen::EnvironmentRow(row) => SeenView::EnvironmentRow(row),
            Seen::Broken { duplicate } => SeenView::Broken { duplicate },
        }
    }
}

/// What a write answers.
#[derive(Debug)]
pub enum Response {
    Flag(FlagRecord),
    Environment(EnvironmentRecord),
    Publication(PublishRecord),
}

/// The model of a `Response`.
pub enum ResponseView {
    Flag(FlagView),
    Environment(EnvironmentView),
    Publication(PublishView),
}

impl View for Response {
    type V = ResponseView;

    open spec fn view(&self) -> ResponseView {
        match *self {
            Response::Flag(record) => ResponseView::Flag(record@),
            Response::Environment(record) => ResponseView::Environment(record@),
            Response::Publication(record) => ResponseView::Publication(record@),
        }
    }
}

/// What a write does next.
#[derive(Debug)]
pub enum Next {
    /// Run a statement.
    Run(Query),
    /// The work is done.
    Respond(Response),
    /// The work is refused, or cannot be done.
    Fail(StorageError),
    /// The work ends with the database's own error.
    Report,
    /// Do nothing: what was seen does not belong here.
    Ignore,
}

/// The model of a `Next`. An instant that has no text is a failure of its own: which error the
/// formatter gave is not told.
pub enum NextView {
    Run(QueryView),
    Respond(ResponseView),
    Fail(DomainFailure),
    Untimed,
    Other(ErrorView),
    Report,
    Ignore,
}

impl View for Next {
    type V = NextView;

    open spec fn view(&self) -> NextView {
        match *self {
            Next::Run(query) => NextView::Run(query@),
            Next::Respond(response) => NextView::Respond(response@),
            Next::Fail(error) => match error@ {
                ErrorView::Domain(failure) => NextView::Fail(failure),
                ErrorView::Time(_) => NextView::Untimed,
                other => NextView::Other(other),
            },
            Next::Report => NextView::Report,
            Next::Ignore => NextView::Ignore,
        }
    }
}

/// What a write begins with.
pub open spec fn started(job: JobView) -> (Work, NextView) {
    let organization_id = job.organization_id;
    match job.task {
        TaskView::CreateFlag { flag_key, name, description, value_type } => (
            Work::Inserting,
            NextView::Run(
                insert_flag_of(organization_id, flag_key, name, description, value_type),
            ),
        ),
        TaskView::UpdateFlag { flag_key, .. } => (
            Work::LockingFlag,
            NextView::Run(keyed_of("lock flag"@, LOCK_FLAG@, organization_id, flag_key)),
        ),
        TaskView::ArchiveFlag { flag_key, .. } => (
            Work::LockingFlag,
            NextView::Run(keyed_of("lock flag"@, LOCK_FLAG@, organization_id, flag_key)),
        ),
        TaskView::PutEnvironment { environment_key, .. } => (
            Work::LockingEnvironment,
            NextView::Run(
                keyed_of(
                    "lock environment"@,
                    LOCK_ENVIRONMENT@,
                    organization_id,
                    environment_key,
                ),
            ),
        ),
        TaskView::PublishRuleset { flag_key, .. } => (
            Work::LockingFlag,
            NextView::Run(keyed_of("lock flag"@, LOCK_FLAG@, organization_id, flag_key)),
        ),
    }
}

fn start(job: Job<'_>) -> (next: (Work, Next))
    ensures
        (next.0, next.1@) == started(job@),
{
    let organization_id = job.organization_id;
    match job.task {
        Task::CreateFlag { flag_key, name, description, value_type } => (
            Work::Inserting,
            Next::Run(insert_flag(organization_id, flag_key, name, description, value_type)),
        ),
        Task::UpdateFlag { flag_key, .. } => (
            Work::LockingFlag,
            Next::Run(keyed("lock flag", LOCK_FLAG, organization_id, flag_key)),
        ),
        Task::ArchiveFlag { flag_key, .. } => (
            Work::LockingFlag,
            Next::Run(keyed("lock flag", LOCK_FLAG, organization_id, flag_key)),
        ),
        Task::PutEnvironment { environment_key, .. } => (
            Work::LockingEnvironment,
            Next::Run(
                keyed("lock environment", LOCK_ENVIRONMENT, organization_id, environment_key),
            ),
        ),
        Task::PublishRuleset { flag_key, .. } => (
            Work::LockingFlag,
            Next::Run(keyed("lock flag", LOCK_FLAG, organization_id, flag_key)),
        ),
    }
}

/// A refusal.
pub open spec fn refuses(failure: DomainFailure) -> (Work, NextView) {
    (Work::Done, NextView::Fail(failure))
}

fn refuse(failure: DomainFailure) -> (next: (Work, Next))
    ensures
        (next.0, next.1@) == refuses(failure),
{
    (Work::Done, Next::Fail(StorageError::from(failure)))
}

/// How a write goes on once the flag is locked. It is refused where there is no such flag, where
/// the flag is archived, and at another revision; and a ruleset that the flag cannot take is
/// refused next.
pub open spec fn flag_locked(flag: Option<LockedFlagView>, job: JobView) -> (Work, NextView) {
    let organization_id = job.organization_id;
    match flag {
        None => refuses(DomainFailure::NotFound),
        Some(flag) => match job.task {
            TaskView::UpdateFlag { flag_key, expected_revision, name, description } => {
                match lock_refusal(flag, expected_revision) {
                    Some(failure) => refuses(failure),
                    None => (
                        Work::Updating,
                        NextView::Run(update_flag_of(organization_id, flag_key, name, description)),
                    ),
                }
            },
            TaskView::ArchiveFlag { flag_key, expected_revision } => {
                match lock_refusal(flag, expected_revision) {
                    Some(failure) => refuses(failure),
                    None => (
                        Work::Updating,
                        NextView::Run(
                            keyed_of("archive flag"@, ARCHIVE_FLAG@, organization_id, flag_key),
                        ),
                    ),
                }
            },
            TaskView::PublishRuleset {
                environment_key,
                expected_flag_revision,
                definition,
                ..
            } => match lock_refusal(flag, expected_flag_revision) {
                Some(failure) => refuses(failure),
                None => match ruleset_failure(flag.value_type, definition) {
                    Some(failure) => refuses(failure),
                    None => (
                        Work::LockingEnvironment,
                        NextView::Run(
                            keyed_of(
                                "lock ruleset environment"@,
                                LOCK_ENVIRONMENT@,
                                organization_id,
                                environment_key,
                            ),
                        ),
                    ),
                },
            },
            _ => (Work::LockingFlag, NextView::Ignore),
        },
    }
}

fn on_flag_locked(flag: Option<LockedFlag>, job: Job<'_>) -> (next: (Work, Next))
    ensures
        (next.0, next.1@) == flag_locked(
            match flag {
                Some(flag) => Some(flag@),
                None => None,
            },
            job@,
        ),
{
    let organization_id = job.organization_id;
    let flag = match flag {
        Some(flag) => flag,
        None => return refuse(DomainFailure::NotFound),
    };
    match job.task {
        Task::UpdateFlag { flag_key, expected_revision, name, description } => {
            if let Err(error) = require_flag_revision(&flag, expected_revision) {
                return (Work::Done, Next::Fail(error));
            }
            (
                Work::Updating,
                Next::Run(update_flag(organization_id, flag_key, name, description)),
            )
        },
        Task::ArchiveFlag { flag_key, expected_revision } => {
            if let Err(error) = require_flag_revision(&flag, expected_revision) {
                return (Work::Done, Next::Fail(error));
            }
            (
                Work::Updating,
                Next::Run(keyed("archive flag", ARCHIVE_FLAG, organization_id, flag_key)),
            )
        },
        Task::PublishRuleset { environment_key, expected_flag_revision, definition, .. } => {
            if let Err(error) = require_flag_revision(&flag, expected_flag_revision) {
                return (Work::Done, Next::Fail(error));
            }
            if let Err(error) = validate_ruleset(flag.value_type.as_str(), definition) {
                return (Work::Done, Next::Fail(error));
            }
            (
                Work::LockingEnvironment,
                Next::Run(
                    keyed(
                        "lock ruleset environment",
                        LOCK_ENVIRONMENT,
                        organization_id,
                        environment_key,
                    ),
                ),
            )
        },
        _ => (Work::LockingFlag, Next::Ignore),
    }
}

/// How a write goes on once the environment is locked. A put inserts where there is none and none
/// is expected, and changes what there is at the expected revision; a publication takes its number
/// at the expected revision; all else is refused.
pub open spec fn environment_locked(revision: Option<int>, job: JobView) -> (Work, NextView) {
    let organization_id = job.organization_id;
    match job.task {
        TaskView::PutEnvironment { environment_key, name, expected_revision } => match (
            revision,
            expected_revision,
        ) {
            (None, None) => (
                Work::Inserting,
                NextView::Run(write_environment_of(true, organization_id, environment_key, name)),
            ),
            (Some(current), Some(expected)) => if current != expected as int {
                refuses(DomainFailure::RevisionConflict)
            } else {
                (
                    Work::Updating,
                    NextView::Run(
                        write_environment_of(false, organization_id, environment_key, name),
                    ),
                )
            },
            (Some(_), None) => refuses(DomainFailure::AlreadyExists),
            (None, Some(_)) => refuses(DomainFailure::NotFound),
        },
        TaskView::PublishRuleset {
            flag_key,
            environment_key,
            expected_environment_revision,
            ..
        } => match revision {
            None => refuses(DomainFailure::NotFound),
            Some(current) => if current != expected_environment_revision {
                refuses(DomainFailure::RevisionConflict)
            } else {
                (
                    Work::Numbering,
                    NextView::Run(
                        placed_of(
                            "allocate ruleset revision"@,
                            NEXT_RULESET@,
                            organization_id,
                            flag_key,
                            environment_key,
                        ),
                    ),
                )
            },
        },
        _ => (Work::LockingEnvironment, NextView::Ignore),
    }
}

fn on_environment_locked(revision: Option<i64>, job: Job<'_>) -> (next: (Work, Next))
    ensures
        (next.0, next.1@) == environment_locked(
            match revision {
                Some(revision) => Some(revision as int),
                None => None,
            },
            job@,
        ),
{
    let organization_id = job.organization_id;
    match job.task {
        Task::PutEnvironment { environment_key, name, expected_revision } => match (
            revision,
            expected_revision,
        ) {
            (None, None) => (
                Work::Inserting,
                Next::Run(write_environment(true, organization_id, environment_key, name)),
            ),
            (Some(current), Some(expected)) => if current != expected {
                refuse(DomainFailure::RevisionConflict)
            } else {
                (
                    Work::Updating,
                    Next::Run(write_environment(false, organization_id, environment_key, name)),
                )
            },
            (Some(_), None) => refuse(DomainFailure::AlreadyExists),
            (None, Some(_)) => refuse(DomainFailure::NotFound),
        },
        Task::PublishRuleset {
            flag_key,
            environment_key,
            expected_environment_revision,
            ..
        } => match revision {
            None => refuse(DomainFailure::NotFound),
            Some(current) => if current != expected_environment_revision {
                refuse(DomainFailure::RevisionConflict)
            } else {
                (
                    Work::Numbering,
                    Next::Run(
                        placed(
                            "allocate ruleset revision",
                            NEXT_RULESET,
                            organization_id,
                            flag_key,
                            environment_key,
                        ),
                    ),
                )
            },
        },
        _ => (Work::LockingEnvironment, Next::Ignore),
    }
}

/// How a publication goes on once it has its number: the ruleset is inserted.
pub open spec fn numbered(number: i64, job: JobView) -> (Work, NextView) {
    match job.task {
        TaskView::PublishRuleset { flag_key, environment_key, ruleset, .. } => (
            Work::Publishing { number },
            NextView::Run(
                insert_ruleset_of(
                    job.organization_id,
                    flag_key,
                    environment_key,
                    number as int,
                    ruleset,
                    job.actor,
                ),
            ),
        ),
        _ => (Work::Numbering, NextView::Ignore),
    }
}

/// How a publication goes on once its ruleset is inserted: the flag's revision is advanced.
pub open spec fn published(number: i64, published_at: i128, job: JobView) -> (Work, NextView) {
    match job.task {
        TaskView::PublishRuleset { flag_key, .. } => (
            Work::BumpingFlag { number, published_at },
            NextView::Run(keyed_of("bump flag"@, BUMP_FLAG@, job.organization_id, flag_key)),
        ),
        _ => (Work::Publishing { number }, NextView::Ignore),
    }
}

/// How a publication goes on once the flag's revision is advanced: the environment's is next.
pub open spec fn flag_bumped(
    number: i64,
    published_at: i128,
    flag_revision: i64,
    job: JobView,
) -> (Work, NextView) {
    match job.task {
        TaskView::PublishRuleset { environment_key, .. } => (
            Work::BumpingEnvironment { number, published_at, flag_revision },
            NextView::Run(
                keyed_of(
                    "bump environment"@,
                    BUMP_ENVIRONMENT@,
                    job.organization_id,
                    environment_key,
                ),
            ),
        ),
        _ => (Work::BumpingFlag { number, published_at }, NextView::Ignore),
    }
}

/// What a publication answers.
pub open spec fn publication_of(
    number: i64,
    published_at: Seq<char>,
    flag_revision: i64,
    environment_revision: i64,
    job: JobView,
    flag_key: Seq<char>,
    environment_key: Seq<char>,
) -> PublishView {
    PublishView {
        organization_id: job.organization_id,
        flag_key,
        environment_key,
        ruleset_revision: integer_text(number as int),
        flag_revision: integer_text(flag_revision as int),
        environment_revision: integer_text(environment_revision as int),
        published_by: job.actor,
        published_at,
    }
}

/// How a publication ends, once the environment's revision is advanced too.
pub open spec fn environment_bumped(
    number: i64,
    published_at: i128,
    flag_revision: i64,
    environment_revision: i64,
    job: JobView,
) -> (Work, NextView) {
    match job.task {
        TaskView::PublishRuleset { flag_key, environment_key, .. } => (
            Work::Done,
            match rfc3339_text(published_at as int) {
                None => NextView::Untimed,
                Some(text) => NextView::Respond(
                    ResponseView::Publication(
                        publication_of(
                            number,
                            text,
                            flag_revision,
                            environment_revision,
                            job,
                            flag_key,
                            environment_key,
                        ),
                    ),
                ),
            },
        ),
        _ => (
            Work::BumpingEnvironment { number, published_at, flag_revision },
            NextView::Ignore,
        ),
    }
}

/// How a write goes on once its row is written: the row is read back.
pub open spec fn written(job: JobView, work: Work) -> (Work, NextView) {
    let organization_id = job.organization_id;
    match job.task {
        TaskView::CreateFlag { flag_key, .. } => (
            Work::Reading,
            NextView::Run(keyed_of("read flag"@, READ_FLAG@, organization_id, flag_key)),
        ),
        TaskView::UpdateFlag { flag_key, .. } => (
            Work::Reading,
            NextView::Run(keyed_of("read flag"@, READ_FLAG@, organization_id, flag_key)),
        ),
        TaskView::ArchiveFlag { flag_key, .. } => (
            Work::Reading,
            NextView::Run(keyed_of("read flag"@, READ_FLAG@, organization_id, flag_key)),
        ),
        TaskView::PutEnvironment { environment_key, .. } => (
            Work::Reading,
            NextView::Run(
                keyed_of(
                    "read environment"@,
                    READ_ENVIRONMENT@,
                    organization_id,
                    environment_key,
                ),
            ),
        ),
        TaskView::PublishRuleset { .. } => (work, NextView::Ignore),
    }
}

fn on_written(job: Job<'_>, work: Work) -> (next: (Work, Next))
    ensures
        (next.0, next.1@) == written(job@, work),
{
    let organization_id = job.organization_id;
    let read = match job.task {
        Task::CreateFlag { flag_key, .. } => keyed(
            "read flag",
            READ_FLAG,
            organization_id,
            flag_key,
        ),
        Task::UpdateFlag { flag_key, .. } => keyed(
            "read flag",
            READ_FLAG,
            organization_id,
            flag_key,
        ),
        Task::ArchiveFlag { flag_key, .. } => keyed(
            "read flag",
            READ_FLAG,
            organization_id,
            flag_key,
        ),
        Task::PutEnvironment { environment_key, .. } => keyed(
            "read environment",
            READ_ENVIRONMENT,
            organization_id,
            environment_key,
        ),
        Task::PublishRuleset { .. } => return (work, Next::Ignore),
    };
    (Work::Reading, Next::Run(read))
}

/// How a write ends, on the flag that was read back.
pub open spec fn flag_read(row: Option<FlagRow>) -> (Work, NextView) {
    match row {
        None => refuses(DomainFailure::NotFound),
        Some(row) => (
            Work::Done,
            match flag_of_row(row) {
                Some(flag) => NextView::Respond(ResponseView::Flag(flag)),
                None => NextView::Untimed,
            },
        ),
    }
}

/// How a write ends, on the environment that was read back.
pub open spec fn environment_read(row: Option<EnvironmentRow>) -> (Work, NextView) {
    match row {
        None => refuses(DomainFailure::NotFound),
        Some(row) => (
            Work::Done,
            match environment_of_row(row) {
                Some(environment) => NextView::Respond(ResponseView::Environment(environment)),
                None => NextView::Untimed,
            },
        ),
    }
}

/// How a write goes on.
pub open spec fn step_of(work: Work, seen: SeenView, job: JobView) -> (Work, NextView) {
    match (work, seen) {
        (Work::Start, SeenView::Begin) => started(job),
        (Work::LockingFlag, SeenView::Flag(flag)) => flag_locked(flag, job),
        (Work::LockingEnvironment, SeenView::Environment(revision)) => environment_locked(
            revision,
            job,
        ),
        (Work::Numbering, SeenView::Number(number)) => numbered(number, job),
        (Work::Publishing { number }, SeenView::PublishedAt(at)) => published(number, at, job),
        (Work::BumpingFlag { number, published_at }, SeenView::Revision(revision)) => flag_bumped(
            number,
            published_at,
            revision,
            job,
        ),
        (
            Work::BumpingEnvironment { number, published_at, flag_revision },
            SeenView::Revision(revision),
        ) => environment_bumped(number, published_at, flag_revision, revision, job),
        (Work::Inserting, SeenView::Ran) => written(job, work),
        (Work::Inserting, SeenView::Broken { duplicate: true }) => refuses(
            DomainFailure::AlreadyExists,
        ),
        (Work::Updating, SeenView::Ran) => written(job, work),
        (Work::Reading, SeenView::FlagRow(row)) => flag_read(row),
        (Work::Reading, SeenView::EnvironmentRow(row)) => environment_read(row),
        (Work::Done, _) => (Work::Done, NextView::Ignore),
        (_, SeenView::Broken { .. }) => (Work::Done, NextView::Report),
        _ => (work, NextView::Ignore),
    }
}

/// How a write goes on after what it saw.
pub fn step(work: Work, seen: Seen, job: Job<'_>) -> (next: (Work, Next))
    ensures
        (next.0, next.1@) == step_of(work, seen@, job@),
{
    match (work, seen) {
        (Work::Start, Seen::Begin) => start(job),
        (Work::LockingFlag, Seen::Flag(flag)) => on_flag_locked(flag, job),
        (Work::LockingEnvironment, Seen::Environment(revision)) => on_environment_locked(
            revision,
            job,
        ),
        (Work::Numbering, Seen::Number(number)) => match job.task {
            Task::PublishRuleset { flag_key, environment_key, ruleset, .. } => (
                Work::Publishing { number },
                Next::Run(
                    insert_ruleset(
                        job.organization_id,
                        flag_key,
                        environment_key,
                        number,
                        ruleset,
                        job.actor,
                    ),
                ),
            ),
            _ => (Work::Numbering, Next::Ignore),
        },
        (Work::Publishing { number }, Seen::PublishedAt(published_at)) => match job.task {
            Task::PublishRuleset { flag_key, .. } => (
                Work::BumpingFlag { number, published_at },
                Next::Run(keyed("bump flag", BUMP_FLAG, job.organization_id, flag_key)),
            ),
            _ => (Work::Publishing { number }, Next::Ignore),
        },
        (Work::BumpingFlag { number, published_at }, Seen::Revision(flag_revision)) => {
            match job.task {
                Task::PublishRuleset { environment_key, .. } => (
                    Work::BumpingEnvironment { number, published_at, flag_revision },
                    Next::Run(
                        keyed(
                            "bump environment",
                            BUMP_ENVIRONMENT,
                            job.organization_id,
                            environment_key,
                        ),
                    ),
                ),
                _ => (Work::BumpingFlag { number, published_at }, Next::Ignore),
            }
        },
        (
            Work::BumpingEnvironment { number, published_at, flag_revision },
            Seen::Revision(environment_revision),
        ) => match job.task {
            Task::PublishRuleset { flag_key, environment_key, .. } => (
                Work::Done,
                match format_timestamp(published_at) {
                    Err(error) => Next::Fail(error),
                    Ok(published_at) => Next::Respond(
                        Response::Publication(
                            PublishRecord {
                                organization_id: job.organization_id.to_owned(),
                                flag_key: flag_key.to_owned(),
                                environment_key: environment_key.to_owned(),
                                ruleset_revision: i64_text(number),
                                flag_revision: i64_text(flag_revision),
                                environment_revision: i64_text(environment_revision),
                                published_by: job.actor.to_owned(),
                                published_at,
                            },
                        ),
                    ),
                },
            ),
            _ => (
                Work::BumpingEnvironment { number, published_at, flag_revision },
                Next::Ignore,
            ),
        },
        (Work::Inserting, Seen::Ran) => on_written(job, work),
        (Work::Inserting, Seen::Broken { duplicate: true }) => refuse(
            DomainFailure::AlreadyExists,
        ),
        (Work::Updating, Seen::Ran) => on_written(job, work),
        (Work::Reading, Seen::FlagRow(row)) => match row {
            None => refuse(DomainFailure::NotFound),
            Some(row) => (
                Work::Done,
                match flag_from_row(row) {
                    Ok(record) => Next::Respond(Response::Flag(record)),
                    Err(error) => Next::Fail(error),
                },
            ),
        },
        (Work::Reading, Seen::EnvironmentRow(row)) => match row {
            None => refuse(DomainFailure::NotFound),
            Some(row) => (
                Work::Done,
                match environment_from_row(row) {
                    Ok(record) => Next::Respond(Response::Environment(record)),
                    Err(error) => Next::Fail(error),
                },
            ),
        },
        (Work::Done, _) => (Work::Done, Next::Ignore),
        (_, Seen::Broken { .. }) => (Work::Done, Next::Report),
        (work, _) => (work, Next::Ignore),
    }
}

/// The write has run a statement that changes something.
pub open spec fn writes(work: Work) -> bool {
    work is Inserting || work is Updating || work is Publishing || work is BumpingFlag
        || work is BumpingEnvironment
}

/// Whatever a write sees: before its first change it has seen that the change is allowed. A flag
/// is changed only unarchived and at the expected revision; an environment at the expected
/// revision, or new where none is expected and there is none.
pub proof fn lemma_change_follows_its_check(work: Work, seen: SeenView, job: JobView)
    requires
        !writes(work),
        writes(step_of(work, seen, job).0),
    ensures
        match job.task {
            TaskView::CreateFlag { .. } => work is Start,
            TaskView::UpdateFlag { expected_revision, .. } => seen matches SeenView::Flag(
                Some(flag),
            ) && !flag.archived && flag.revision == expected_revision,
            TaskView::ArchiveFlag { expected_revision, .. } => seen matches SeenView::Flag(
                Some(flag),
            ) && !flag.archived && flag.revision == expected_revision,
            TaskView::PutEnvironment { expected_revision, .. } => {
                seen matches SeenView::Environment(revision) && match expected_revision {
                    Some(expected) => revision == Some(expected as int),
                    None => revision is None,
                }
            },
            TaskView::PublishRuleset { .. } => work is Numbering && seen is Number,
        },
{
}

/// A publication takes a number only after the flag was seen unarchived and at the expected
/// revision, the ruleset found valid for the flag's type, and the environment seen at the expected
/// revision.
pub proof fn lemma_publication_follows_its_checks(
    flag: Option<LockedFlagView>,
    revision: Option<int>,
    job: JobView,
)
    requires
        job.task is PublishRuleset,
        step_of(Work::LockingFlag, SeenView::Flag(flag), job).0 is LockingEnvironment,
        step_of(Work::LockingEnvironment, SeenView::Environment(revision), job).0 is Numbering,
    ensures
        flag matches Some(flag) && !flag.archived && flag.revision
            == job.task->expected_flag_revision && ruleset_failure(
            flag.value_type,
            job.task->definition,
        ) is None,
        revision == Some(job.task->expected_environment_revision),
{
}

/// The flag's revision that a write expects; nothing for a write that expects none.
pub open spec fn expected_flag(job: JobView) -> Option<int> {
    match job.task {
        TaskView::UpdateFlag { expected_revision, .. } => Some(expected_revision),
        TaskView::ArchiveFlag { expected_revision, .. } => Some(expected_revision),
        TaskView::PublishRuleset { expected_flag_revision, .. } => Some(expected_flag_revision),
        _ => None,
    }
}

/// The environment's revision that a write expects; nothing for a write that expects none.
pub open spec fn expected_environment(job: JobView) -> Option<int> {
    match job.task {
        TaskView::PutEnvironment { expected_revision: Some(expected), .. } => Some(expected as int),
        TaskView::PublishRuleset { expected_environment_revision, .. } => Some(
            expected_environment_revision,
        ),
        _ => None,
    }
}

/// Of two changes of a flag at the same expected revision only one is made. Where one write goes on
/// from the flag that it locked, and another one locks the flag at the next revision or a later one,
/// the other is refused: as a conflict, or because the flag is archived by then.
pub proof fn lemma_second_flag_change_is_refused(
    locked: LockedFlagView,
    first: JobView,
    later: LockedFlagView,
    second: JobView,
)
    requires
        expected_flag(first) is Some,
        step_of(Work::LockingFlag, SeenView::Flag(Some(locked)), first).1 is Run,
        later.revision >= locked.revision + 1,
        expected_flag(second) == expected_flag(first),
    ensures
        expected_flag(first) == Some(locked.revision),
        step_of(Work::LockingFlag, SeenView::Flag(Some(later)), second) == refuses(
            if later.archived {
                DomainFailure::Archived
            } else {
                DomainFailure::RevisionConflict
            },
        ),
{
}

/// Of two changes of an environment at the same expected revision only one is made. Where one write
/// goes on from the environment that it locked, and another one locks it at the next revision or a
/// later one, the other is refused as a conflict.
pub proof fn lemma_second_environment_change_is_refused(
    locked: int,
    first: JobView,
    later: int,
    second: JobView,
)
    requires
        expected_environment(first) is Some,
        step_of(Work::LockingEnvironment, SeenView::Environment(Some(locked)), first).1 is Run,
        later >= locked + 1,
        expected_environment(second) == expected_environment(first),
    ensures
        expected_environment(first) == Some(locked),
        step_of(Work::LockingEnvironment, SeenView::Environment(Some(later)), second) == refuses(
            DomainFailure::RevisionConflict,
        ),
{
}

} // verus!
