use feature_flag::domain::{
    Command, DomainFailure, EvaluationRecord, RulesetDefinition, StorageError, ValueRecord,
    VariantRecord,
};
use feature_flag::evaluation::Request;
use feature_flag::keyed::KeyedMap;
use feature_flag::postgres::evaluate as evaluating;
use feature_flag::postgres::evaluate::{
    instant_stamp, EvaluationFlag, InstantStamp, NumberedRuleset, Progress,
};
use feature_flag::postgres::query::{list_flags, list_receipts, Bind, Query};
use feature_flag::postgres::rows::{
    environment_from_row, flag_from_row, receipt_from_row, require_flag_revision,
    unique_violation, EnvironmentRow, FlagRow, LockedFlag, ReceiptRow,
};
use feature_flag::postgres::session;
use feature_flag::postgres::session::{admit_command, StoredCommand};
use feature_flag::postgres::work::step as work_step;
use feature_flag::postgres::work::{Job, Next, Response, Seen, Task, Work};

const NANOS: i128 = 1_700_000_000_000_000_000;
const TIME: &str = "2023-11-14T22:13:20Z";
const BEFORE_TIME: i128 = -70_000_000_000 * 1_000_000_000;

fn command<'a>(hash: &'a [u8]) -> Command<'a> {
    Command { caller: "api", actor: "usr_1", key: "key", hash }
}

fn text(value: &str) -> Bind {
    Bind::Text(value.to_owned())
}

fn ruleset() -> RulesetDefinition {
    RulesetDefinition {
        variants: vec![VariantRecord {
            variant_key: "on".to_owned(),
            value: ValueRecord {
                value_type: "boolean".to_owned(),
                boolean_value: Some(true),
                string_value: None,
                integer_value: None,
                double_value: None,
                json_value: None,
            },
        }],
        targeting_rules: vec![],
        percentage_rollout: vec![],
        fallthrough_variant: "on".to_owned(),
    }
}

fn flag_row() -> FlagRow {
    FlagRow {
        organization_id: "org".to_owned(),
        flag_key: "checkout".to_owned(),
        name: "Checkout".to_owned(),
        description: Some("d".to_owned()),
        value_type: "boolean".to_owned(),
        archived: true,
        revision: 12,
        created_at: 0,
        updated_at: NANOS,
        archived_at: Some(NANOS),
        row_seq: 5,
    }
}

fn environment_row() -> EnvironmentRow {
    EnvironmentRow {
        organization_id: "org".to_owned(),
        environment_key: "prod".to_owned(),
        name: "Production".to_owned(),
        revision: 3,
        created_at: 0,
        updated_at: NANOS,
    }
}

fn locked(revision: i64, archived: bool) -> Option<LockedFlag> {
    Some(LockedFlag { revision, archived, value_type: "boolean".to_owned() })
}

#[test]
fn rows_become_records() {
    let flag = flag_from_row(flag_row()).unwrap();
    assert_eq!(flag.revision, "12");
    assert_eq!(flag.created_at, "1970-01-01T00:00:00Z");
    assert_eq!(flag.updated_at, TIME);
    assert_eq!(flag.archived_at.as_deref(), Some(TIME));
    assert_eq!(flag.description.as_deref(), Some("d"));
    assert_eq!(flag.row_seq, 5);
    let environment = environment_from_row(environment_row()).unwrap();
    assert_eq!((environment.revision.as_str(), environment.updated_at.as_str()), ("3", TIME));
    let receipt = receipt_from_row(ReceiptRow {
        receipt_id: "r".to_owned(),
        evaluation_id: "e".to_owned(),
        flag_key: "checkout".to_owned(),
        environment_key: "prod".to_owned(),
        variant_key: "on".to_owned(),
        reason: "fallthrough".to_owned(),
        ruleset_revision: 7,
        context_hash: "hash".to_owned(),
        evaluated_at: NANOS,
        row_seq: 9,
    })
    .unwrap();
    assert_eq!((receipt.ruleset_revision.as_str(), receipt.evaluated_at.as_str()), ("7", TIME));
    let odd = FlagRow { updated_at: BEFORE_TIME, ..flag_row() };
    assert!(matches!(flag_from_row(odd), Err(StorageError::Time(_))));
    let odd = EnvironmentRow { created_at: BEFORE_TIME, ..environment_row() };
    assert!(matches!(environment_from_row(odd), Err(StorageError::Time(_))));
}

#[test]
fn a_locked_flag_is_required_at_its_revision() {
    assert!(require_flag_revision(&locked(2, false).unwrap(), 2).is_ok());
    assert!(matches!(
        require_flag_revision(&locked(2, false).unwrap(), 1),
        Err(StorageError::Domain(DomainFailure::RevisionConflict))
    ));
    assert!(matches!(
        require_flag_revision(&locked(2, true).unwrap(), 1),
        Err(StorageError::Domain(DomainFailure::Archived))
    ));
}

#[test]
fn unique_violations_are_told_by_their_code() {
    assert!(unique_violation(Some("23505")));
    assert!(!unique_violation(Some("23503")));
    assert!(!unique_violation(None));
}

#[test]
fn commands_are_admitted_once() {
    assert!(admit_command(None, command(&[1])).unwrap().is_none());
    let stored = |response: Option<&str>| {
        Some(StoredCommand {
            request_hash: vec![1],
            response: response.map(str::to_owned),
        })
    };
    assert_eq!(admit_command(stored(Some("{}")), command(&[1])).unwrap().as_deref(), Some("{}"));
    assert!(matches!(
        admit_command(stored(Some("{}")), command(&[2])),
        Err(StorageError::Domain(DomainFailure::IdempotencyConflict))
    ));
    assert!(matches!(
        admit_command(stored(None), command(&[1])),
        Err(StorageError::Domain(DomainFailure::OperationInProgress))
    ));
}

fn session_step(stage: session::Stage, event: session::Event) -> (session::Stage, session::Action) {
    session::step(stage, event, command(&[1, 2]), "create_flag")
}

#[test]
fn a_new_command_is_recorded_worked_finished_and_committed() {
    let (stage, action) = session_step(session::Stage::Opening, session::Event::Opened);
    let session::Action::Run(query) = action else { panic!("the command is read") };
    assert_eq!(query.label, "read command receipt");
    assert_eq!(query.binds, vec![text("api"), text("usr_1"), text("create_flag"), text("key")]);
    let (stage, action) = session_step(stage, session::Event::Found(None));
    let session::Action::Run(query) = action else { panic!("the command is inserted") };
    assert_eq!(query.binds[4], Bind::Bytes(vec![1, 2]));
    let (stage, action) = session_step(stage, session::Event::Ran);
    assert!(matches!(action, session::Action::Work));
    let (stage, action) = session_step(stage, session::Event::Worked("{r}".to_owned()));
    let session::Action::Run(query) = action else { panic!("the response is stored") };
    assert_eq!(query.binds[4], Bind::Json("{r}".to_owned()));
    let (stage, action) = session_step(stage, session::Event::Ran);
    assert!(matches!(action, session::Action::Commit));
    let (stage, action) = session_step(stage, session::Event::Committed);
    assert!(matches!(action, session::Action::Answer));
    let (_, action) = session_step(stage, session::Event::Opened);
    assert!(matches!(action, session::Action::Ignore));
}

#[test]
fn a_stored_command_is_answered_and_a_broken_one_reported() {
    let stored = StoredCommand { request_hash: vec![1, 2], response: Some("{r}".to_owned()) };
    let (stage, action) =
        session_step(session::Stage::Admitting, session::Event::Found(Some(stored)));
    assert!(matches!(action, session::Action::Decode(text) if text == "{r}"));
    let (stage, action) = session_step(stage, session::Event::Decoded);
    assert!(matches!(action, session::Action::Commit));
    let (_, action) = session_step(stage, session::Event::Committed);
    assert!(matches!(action, session::Action::AnswerStored(text) if text == "{r}"));
    let unread = session::Event::Refused(StorageError::Backend("unread".to_owned()));
    let (stage, action) = session_step(session::Stage::Decoding("{r}".to_owned()), unread);
    assert!(matches!(action, session::Action::Fail(StorageError::Backend(_))));
    assert!(matches!(session_step(stage, session::Event::Decoded).1, session::Action::Ignore));
    let another = StoredCommand { request_hash: vec![9], response: Some("{r}".to_owned()) };
    let (stage, action) =
        session_step(session::Stage::Admitting, session::Event::Found(Some(another)));
    assert!(matches!(
        action,
        session::Action::Fail(StorageError::Domain(DomainFailure::IdempotencyConflict))
    ));
    assert!(matches!(session_step(stage, session::Event::Ran).1, session::Action::Ignore));
    let (_, action) =
        session_step(session::Stage::Recording, session::Event::Broken { duplicate: true });
    assert!(matches!(
        action,
        session::Action::Fail(StorageError::Domain(DomainFailure::OperationInProgress))
    ));
    let (_, action) =
        session_step(session::Stage::Recording, session::Event::Broken { duplicate: false });
    assert!(matches!(action, session::Action::Report));
    let (_, action) =
        session_step(session::Stage::Finishing, session::Event::Broken { duplicate: true });
    assert!(matches!(action, session::Action::Report));
    let refused = session::Event::Refused(StorageError::Domain(DomainFailure::NotFound));
    let (stage, action) = session_step(session::Stage::Working, refused);
    assert!(matches!(
        action,
        session::Action::Fail(StorageError::Domain(DomainFailure::NotFound))
    ));
    let (_, action) = session_step(stage, session::Event::Ran);
    assert!(matches!(action, session::Action::Ignore));
}

fn job(task: Task<'_>) -> Job<'_> {
    Job { organization_id: "org", actor: "usr_1", task }
}

fn run(next: Next) -> Query {
    match next {
        Next::Run(query) => query,
        other => panic!("a statement was expected, not {other:?}"),
    }
}

fn refusal(next: Next) -> DomainFailure {
    match next {
        Next::Fail(StorageError::Domain(failure)) => failure,
        other => panic!("a refusal was expected, not {other:?}"),
    }
}

const CREATE: Task<'static> = Task::CreateFlag {
    flag_key: "checkout",
    name: "Checkout",
    description: None,
    value_type: "boolean",
};

#[test]
fn a_flag_is_inserted_and_read_back() {
    let (work, next) = work_step(Work::Start, Seen::Begin, job(CREATE));
    let query = run(next);
    assert_eq!(query.label, "insert flag");
    assert_eq!(
        query.binds,
        vec![text("org"), text("checkout"), text("Checkout"), Bind::OptionalText(None), text("boolean")]
    );
    let (_, next) = work_step(work, Seen::Broken { duplicate: true }, job(CREATE));
    assert_eq!(refusal(next), DomainFailure::AlreadyExists);
    let (_, next) = work_step(work, Seen::Broken { duplicate: false }, job(CREATE));
    assert!(matches!(next, Next::Report));
    let (work, next) = work_step(work, Seen::Ran, job(CREATE));
    assert_eq!(run(next).label, "read flag");
    let (done, next) = work_step(work, Seen::FlagRow(Some(flag_row())), job(CREATE));
    assert!(matches!(next, Next::Respond(Response::Flag(record)) if record.revision == "12"));
    assert_eq!(done, Work::Done);
    let (_, next) = work_step(work, Seen::FlagRow(None), job(CREATE));
    assert_eq!(refusal(next), DomainFailure::NotFound);
    let odd = FlagRow { created_at: BEFORE_TIME, ..flag_row() };
    let (_, next) = work_step(work, Seen::FlagRow(Some(odd)), job(CREATE));
    assert!(matches!(next, Next::Fail(StorageError::Time(_))));
}

#[test]
fn updates_and_archivals_lock_the_flag_first() {
    let update = Task::UpdateFlag {
        flag_key: "checkout",
        expected_revision: 2,
        name: "New",
        description: Some("d"),
    };
    let archive = Task::ArchiveFlag { flag_key: "checkout", expected_revision: 2 };
    for (task, label) in [(update, "update flag"), (archive, "archive flag")] {
        let (work, next) = work_step(Work::Start, Seen::Begin, job(task));
        assert_eq!(run(next).label, "lock flag");
        let (_, next) = work_step(work, Seen::Flag(None), job(task));
        assert_eq!(refusal(next), DomainFailure::NotFound);
        let (_, next) = work_step(work, Seen::Flag(locked(2, true)), job(task));
        assert_eq!(refusal(next), DomainFailure::Archived);
        let (_, next) = work_step(work, Seen::Flag(locked(3, false)), job(task));
        assert_eq!(refusal(next), DomainFailure::RevisionConflict);
        let (work, next) = work_step(work, Seen::Flag(locked(2, false)), job(task));
        assert_eq!(run(next).label, label);
        let (_, next) = work_step(work, Seen::Broken { duplicate: true }, job(task));
        assert!(matches!(next, Next::Report));
        let (work, _) = work_step(work, Seen::Ran, job(task));
        assert_eq!(work, Work::Reading);
    }
}

#[test]
fn a_second_change_at_the_same_revision_is_refused() {
    let definition = ruleset();
    let update = Task::UpdateFlag {
        flag_key: "checkout",
        expected_revision: 1,
        name: "New",
        description: None,
    };
    let archive = Task::ArchiveFlag { flag_key: "checkout", expected_revision: 1 };
    let publish = Task::PublishRuleset {
        flag_key: "checkout",
        environment_key: "prod",
        expected_flag_revision: 1,
        expected_environment_revision: 1,
        definition: &definition,
        ruleset: "{}",
    };
    let put = Task::PutEnvironment {
        environment_key: "prod",
        name: "Production",
        expected_revision: Some(1),
    };
    for task in [update, archive, publish] {
        let (_, next) = work_step(Work::LockingFlag, Seen::Flag(locked(1, false)), job(task));
        assert!(matches!(next, Next::Run(_)));
        let (_, next) = work_step(Work::LockingFlag, Seen::Flag(locked(2, false)), job(task));
        assert_eq!(refusal(next), DomainFailure::RevisionConflict);
        let (_, next) = work_step(Work::LockingFlag, Seen::Flag(locked(2, true)), job(task));
        assert_eq!(refusal(next), DomainFailure::Archived);
    }
    for task in [publish, put] {
        let (_, next) = work_step(Work::LockingEnvironment, Seen::Environment(Some(1)), job(task));
        assert!(matches!(next, Next::Run(_)));
        let (_, next) = work_step(Work::LockingEnvironment, Seen::Environment(Some(2)), job(task));
        assert_eq!(refusal(next), DomainFailure::RevisionConflict);
    }
}

#[test]
fn an_environment_is_inserted_or_changed() {
    let put = |expected_revision| Task::PutEnvironment {
        environment_key: "prod",
        name: "Production",
        expected_revision,
    };
    let (work, next) = work_step(Work::Start, Seen::Begin, job(put(None)));
    assert_eq!(run(next).label, "lock environment");
    let (inserting, next) = work_step(work, Seen::Environment(None), job(put(None)));
    assert_eq!(run(next).label, "insert environment");
    assert_eq!(inserting, Work::Inserting);
    let (_, next) = work_step(inserting, Seen::Broken { duplicate: true }, job(put(None)));
    assert_eq!(refusal(next), DomainFailure::AlreadyExists);
    let (reading, next) = work_step(inserting, Seen::Ran, job(put(None)));
    assert_eq!(run(next).label, "read environment");
    let (_, next) =
        work_step(reading, Seen::EnvironmentRow(Some(environment_row())), job(put(None)));
    assert!(matches!(next, Next::Respond(Response::Environment(record)) if record.revision == "3"));
    let (_, next) = work_step(work, Seen::Environment(Some(4)), job(put(Some(4))));
    assert_eq!(run(next).label, "update environment");
    let (_, next) = work_step(work, Seen::Environment(Some(4)), job(put(Some(3))));
    assert_eq!(refusal(next), DomainFailure::RevisionConflict);
    let (_, next) = work_step(work, Seen::Environment(Some(4)), job(put(None)));
    assert_eq!(refusal(next), DomainFailure::AlreadyExists);
    let (_, next) = work_step(work, Seen::Environment(None), job(put(Some(1))));
    assert_eq!(refusal(next), DomainFailure::NotFound);
}

#[test]
fn a_publication_checks_numbers_inserts_and_advances() {
    let definition = ruleset();
    let publish = |definition| Task::PublishRuleset {
        flag_key: "checkout",
        environment_key: "prod",
        expected_flag_revision: 1,
        expected_environment_revision: 2,
        definition,
        ruleset: "{ruleset}",
    };
    let task = publish(&definition);
    let (work, next) = work_step(Work::Start, Seen::Begin, job(task));
    assert_eq!(run(next).label, "lock flag");
    let mut broken = ruleset();
    broken.variants.clear();
    let (_, next) = work_step(work, Seen::Flag(locked(9, false)), job(publish(&broken)));
    assert_eq!(refusal(next), DomainFailure::RevisionConflict);
    let (_, next) = work_step(work, Seen::Flag(locked(1, false)), job(publish(&broken)));
    assert_eq!(refusal(next), DomainFailure::InvalidRuleset);
    let (work, next) = work_step(work, Seen::Flag(locked(1, false)), job(task));
    assert_eq!(run(next).label, "lock ruleset environment");
    let (_, next) = work_step(work, Seen::Environment(None), job(task));
    assert_eq!(refusal(next), DomainFailure::NotFound);
    let (_, next) = work_step(work, Seen::Environment(Some(1)), job(task));
    assert_eq!(refusal(next), DomainFailure::RevisionConflict);
    let (work, next) = work_step(work, Seen::Environment(Some(2)), job(task));
    assert_eq!(run(next).label, "allocate ruleset revision");
    let (work, next) = work_step(work, Seen::Number(4), job(task));
    let query = run(next);
    assert_eq!(
        query.binds,
        vec![
            text("org"),
            text("checkout"),
            text("prod"),
            Bind::Number(4),
            Bind::Json("{ruleset}".to_owned()),
            text("usr_1")
        ]
    );
    let (work, next) = work_step(work, Seen::PublishedAt(NANOS), job(task));
    assert_eq!(run(next).label, "bump flag");
    let (work, next) = work_step(work, Seen::Revision(2), job(task));
    assert_eq!(run(next).label, "bump environment");
    let (done, next) = work_step(work, Seen::Revision(3), job(task));
    assert_eq!(done, Work::Done);
    let Next::Respond(Response::Publication(record)) = next else { panic!("a publication") };
    assert_eq!(record.ruleset_revision, "4");
    assert_eq!(record.flag_revision, "2");
    assert_eq!(record.environment_revision, "3");
    assert_eq!(record.published_by, "usr_1");
    assert_eq!(record.published_at, TIME);
}

fn request<'a>(
    operation: &'a str,
    attributes: &'a KeyedMap<feature_flag::json::JsonValue>,
) -> Request<'a> {
    Request {
        operation,
        command: command(&[1]),
        organization_id: "org",
        environment_key: "prod",
        targeting_key: "user-1",
        attributes,
        context_hash: "hash",
    }
}

fn boolean() -> evaluating::Seen {
    evaluating::Seen::Flag(Some(EvaluationFlag {
        value_type: "boolean".to_owned(),
        archived: false,
    }))
}

fn latest(id: &str) -> evaluating::Seen {
    evaluating::Seen::Ruleset(
        Some(NumberedRuleset { number: 6, definition: ruleset() }),
        InstantStamp { receipt_id: id.to_owned(), nanos: NANOS },
    )
}

fn start() -> Progress {
    Progress { stage: evaluating::Stage::Start, records: vec![] }
}

#[test]
fn a_batch_is_evaluated_flag_by_flag_with_receipts() {
    let nobody = KeyedMap::new();
    let keys = ["a".to_owned(), "b".to_owned()];
    let asked = request("evaluate_batch", &nobody);
    let mut progress = start();
    let mut seen = evaluating::Seen::Begin;
    let mut answer: Option<Vec<EvaluationRecord>> = None;
    let mut labels = vec![];
    let mut receipts = vec![];
    while answer.is_none() {
        let (next_progress, next) = evaluating::step(progress, seen, asked, &keys);
        progress = next_progress;
        seen = match next {
            evaluating::Next::Run(query) => {
                labels.push(query.label);
                match query.label {
                    "read evaluation flag" => boolean(),
                    "read evaluation environment" => evaluating::Seen::Environment(true),
                    "read evaluation ruleset" => latest("r"),
                    _ => {
                        receipts.push(query.binds);
                        evaluating::Seen::Ran
                    }
                }
            }
            evaluating::Next::Respond(records) => {
                answer = Some(records);
                evaluating::Seen::Ran
            }
            other => panic!("{other:?}"),
        };
    }
    let records = answer.unwrap();
    assert_eq!(records.len(), 2);
    assert_eq!((records[0].flag_key.as_str(), records[1].flag_key.as_str()), ("a", "b"));
    assert_eq!(records[0].ruleset_revision, "6");
    assert_eq!(records[0].reason, "fallthrough");
    assert_eq!(records[0].evaluated_at, TIME);
    assert_eq!(labels.len(), 8);
    assert_eq!(
        receipts[1],
        vec![
            Bind::Identifier("r".to_owned()),
            text("api"),
            text("usr_1"),
            text("evaluate_batch"),
            text("key:1"),
            text("org"),
            text("b"),
            text("prod"),
            text("on"),
            text("fallthrough"),
            Bind::Number(6),
            text("hash"),
            Bind::Instant(NANOS)
        ]
    );
}

fn failure_after(seen: Vec<evaluating::Seen>) -> evaluating::Next {
    let nobody = KeyedMap::new();
    let keys = ["a".to_owned()];
    let mut progress = start();
    let mut last = evaluating::Next::Ignore;
    for event in seen {
        let (next_progress, next) =
            evaluating::step(progress, event, request("evaluate", &nobody), &keys);
        progress = next_progress;
        last = next;
    }
    last
}

#[test]
fn an_evaluation_stops_at_what_is_missing() {
    let begin = || evaluating::Seen::Begin;
    let refused = |next, expected| {
        matches!(next, evaluating::Next::Fail(StorageError::Domain(failure)) if failure == expected)
    };
    assert!(refused(
        failure_after(vec![begin(), evaluating::Seen::Flag(None)]),
        DomainFailure::FlagNotFound
    ));
    let gone = EvaluationFlag { value_type: "boolean".to_owned(), archived: true };
    assert!(refused(
        failure_after(vec![begin(), evaluating::Seen::Flag(Some(gone))]),
        DomainFailure::Archived
    ));
    assert!(refused(
        failure_after(vec![begin(), boolean(), evaluating::Seen::Environment(false)]),
        DomainFailure::EnvironmentNotFound
    ));
    let known = || evaluating::Seen::Environment(true);
    let none = evaluating::Seen::Ruleset(None, instant_stamp());
    assert!(refused(
        failure_after(vec![begin(), boolean(), known(), none]),
        DomainFailure::NoPublishedRuleset
    ));
    let typed = evaluating::Seen::Flag(Some(EvaluationFlag {
        value_type: "string".to_owned(),
        archived: false,
    }));
    assert!(refused(
        failure_after(vec![begin(), typed, known(), latest("r")]),
        DomainFailure::TypeMismatch
    ));
    let odd = || {
        evaluating::Seen::Ruleset(
            Some(NumberedRuleset { number: 6, definition: ruleset() }),
            InstantStamp { receipt_id: "r".to_owned(), nanos: BEFORE_TIME },
        )
    };
    assert!(matches!(
        failure_after(vec![begin(), boolean(), known(), odd()]),
        evaluating::Next::Run(query) if query.label == "insert evaluation receipt"
    ));
    assert!(matches!(
        failure_after(vec![begin(), boolean(), known(), odd(), evaluating::Seen::Broken]),
        evaluating::Next::Report
    ));
    assert!(matches!(
        failure_after(vec![begin(), boolean(), known(), odd(), evaluating::Seen::Ran]),
        evaluating::Next::Fail(StorageError::Time(_))
    ));
    assert!(matches!(
        failure_after(vec![begin(), evaluating::Seen::Broken]),
        evaluating::Next::Report
    ));
    assert!(matches!(
        failure_after(vec![begin(), evaluating::Seen::Ran]),
        evaluating::Next::Ignore
    ));
}

#[test]
fn stamps_are_fresh() {
    let (a, b) = (instant_stamp(), instant_stamp());
    assert_ne!(a.receipt_id, b.receipt_id);
    assert!(a.nanos > NANOS);
}

#[test]
fn listings_bind_their_bounds() {
    assert_eq!(
        list_flags("org", true, None, 9).binds,
        vec![text("org"), Bind::Truth(true), Bind::Number(0), Bind::Number(9)]
    );
    assert_eq!(
        list_receipts("org", Some("f"), None, Some(4), 9).binds,
        vec![
            text("org"),
            Bind::OptionalText(Some("f".to_owned())),
            Bind::OptionalText(None),
            Bind::Number(4),
            Bind::Number(9)
        ]
    );
}
