use feature_flag::d1::commit::{effect_write, step, Action, Event, Stage};
use feature_flag::d1::evaluate::{evaluations, evaluations_at, last_record, EvaluationDecision};
use feature_flag::d1::plan::{
    archive_flag, archive_flag_at, create_flag_at, publish_ruleset, publish_ruleset_at,
    put_environment, put_environment_at, update_flag, update_flag_at, Decision, Effect,
};
use feature_flag::d1::revision::{bump, failure, require_flag, revision, FAILURE};
use feature_flag::d1::rows::{
    field, read_column, receipt_from, receipt_from_text, replay, ruleset_row, stored_receipt, Column,
    Row,
};
use feature_flag::d1::snapshot::{answered, assemble, snapshot_rows, KeyedRuleset, Snapshot};
use feature_flag::d1::statement::{
    admits_batch, command_query, commit_batch, flag_page_query, flag_query, params,
    receipt_page_query, receipts_write, snapshot_queries, Param, Statement,
};
use feature_flag::d1::wire::{accept, check_capacity, Receipt, WireError};
use feature_flag::d1::D1Store;
use feature_flag::domain::{
    Command, DomainFailure, EnvironmentRecord, FlagRecord, PublishedRuleset, RolloutRecord,
    RulesetDefinition, StorageError, TargetingRuleRecord, ValueRecord, VariantRecord,
};
use feature_flag::evaluation::{Request, Stamp};
use feature_flag::json::JsonValue;
use feature_flag::keyed::KeyedMap;
use std::collections::BTreeMap;

const TIME: &str = "2024-01-01T00:00:00Z";
const LATER: &str = "2024-01-02T00:00:00Z";

fn at(time: &str) -> Result<String, StorageError> {
    Ok(time.to_owned())
}

fn command<'a>(key: &'a str, hash: &'a [u8]) -> Command<'a> {
    Command { caller: "feature-admin", actor: "usr_1", key, hash }
}

fn row(columns: &[(&str, &str)]) -> Row {
    let mut row = KeyedMap::new();
    for (name, text) in columns {
        row.insert((*name).to_owned(), Column::Text((*text).to_owned()));
    }
    row
}

fn text(value: &str) -> Param {
    Param::Text(value.to_owned())
}

fn truth(value: bool) -> ValueRecord {
    ValueRecord {
        value_type: "boolean".to_owned(),
        boolean_value: Some(value),
        string_value: None,
        integer_value: None,
        double_value: None,
        json_value: None,
    }
}

fn ruleset() -> RulesetDefinition {
    RulesetDefinition {
        variants: vec![
            VariantRecord { variant_key: "off".to_owned(), value: truth(false) },
            VariantRecord { variant_key: "on".to_owned(), value: truth(true) },
        ],
        targeting_rules: vec![TargetingRuleRecord {
            rule_id: "staff".to_owned(),
            attribute: "tier".to_owned(),
            operator: "equals".to_owned(),
            comparison_values: vec!["staff".to_owned()],
            variant_key: "on".to_owned(),
        }],
        percentage_rollout: vec![RolloutRecord {
            variant_key: "on".to_owned(),
            basis_points: 5_000,
        }],
        fallthrough_variant: "off".to_owned(),
    }
}

fn flag(revision: &str) -> FlagRecord {
    FlagRecord {
        organization_id: "org".to_owned(),
        flag_key: "checkout".to_owned(),
        name: "Checkout".to_owned(),
        description: None,
        value_type: "boolean".to_owned(),
        archived: false,
        revision: revision.to_owned(),
        created_at: TIME.to_owned(),
        updated_at: TIME.to_owned(),
        archived_at: None,
        row_seq: 0,
    }
}

fn environment(revision: &str) -> EnvironmentRecord {
    EnvironmentRecord {
        organization_id: "org".to_owned(),
        environment_key: "prod".to_owned(),
        name: "Production".to_owned(),
        revision: revision.to_owned(),
        created_at: TIME.to_owned(),
        updated_at: TIME.to_owned(),
    }
}

fn snapshot(
    flags: Vec<FlagRecord>,
    environment: Option<EnvironmentRecord>,
    published: Vec<(&str, &str, RulesetDefinition)>,
) -> Snapshot {
    let flags = flags.into_iter().map(Ok).collect();
    let rulesets = published
        .into_iter()
        .map(|(key, revision, definition)| {
            Ok(KeyedRuleset {
                flag_key: key.to_owned(),
                ruleset: PublishedRuleset { revision: revision.to_owned(), definition },
            })
        })
        .collect();
    assemble(7, vec![], flags, environment.map(Ok), rulesets).unwrap()
}

fn refusal<T>(result: Result<T, StorageError>) -> DomainFailure {
    match result {
        Err(StorageError::Domain(failure)) => failure,
        _ => panic!("a domain failure was expected"),
    }
}

fn backend<T>(result: Result<T, StorageError>) -> bool {
    matches!(result, Err(StorageError::Backend(text)) if text == FAILURE)
}

#[test]
fn revisions_are_positive_decimal_numbers() {
    assert_eq!(revision("1").unwrap(), 1);
    assert_eq!(revision("9223372036854775807").unwrap(), i64::MAX);
    for text in ["0", "-1", "", "one", "9223372036854775808"] {
        assert!(backend(revision(text)), "{text}");
    }
    assert_eq!(bump("1").unwrap(), "2");
    assert_eq!(bump("9").unwrap(), "10");
    assert!(backend(bump("9223372036854775807")));
    assert!(backend(bump("0")));
    assert!(matches!(failure(), StorageError::Backend(text) if text == "D1 operation failed; a submitted write may have committed; retry only with the same idempotency key"));
}

#[test]
fn a_flag_is_required_unarchived_and_at_its_revision() {
    assert!(require_flag(&flag("2"), 2).is_ok());
    assert_eq!(refusal(require_flag(&flag("2"), 1)), DomainFailure::RevisionConflict);
    let mut gone = flag("2");
    gone.archived = true;
    assert_eq!(refusal(require_flag(&gone, 1)), DomainFailure::Archived);
    assert!(backend(require_flag(&flag("x"), 1)));
}

#[test]
fn a_stored_command_replays_and_another_request_conflicts() {
    let stored = vec![row(&[("request_hash", "[1,20,255]"), ("response", "{\"a\":1}")])];
    assert_eq!(
        replay(&stored, command("k", &[1, 20, 255])).unwrap().as_deref(),
        Some("{\"a\":1}")
    );
    assert_eq!(refusal(replay(&stored, command("k", &[1]))), DomainFailure::IdempotencyConflict);
    assert!(replay(&vec![], command("k", &[1])).unwrap().is_none());
    let empty = vec![row(&[("request_hash", "[]"), ("response", "1")])];
    assert!(replay(&empty, command("k", &[])).unwrap().is_some());
    let unanswered = vec![row(&[("request_hash", "[1]")])];
    assert!(backend(replay(&unanswered, command("k", &[1]))));
    let twice = vec![row(&[("request_hash", "[1]")]), row(&[("request_hash", "[1]")])];
    assert!(backend(replay(&twice, command("k", &[1]))));
}

#[test]
fn columns_are_read_as_texts() {
    let mut given = row(&[("name", "x")]);
    given.insert("count".to_owned(), Column::Other);
    assert_eq!(read_column(&given, "name"), Some("x"));
    assert_eq!(read_column(&given, "count"), None);
    assert_eq!(field(&given, "name").unwrap(), "x");
    assert!(backend(field(&given, "count")));
    assert!(backend(field(&given, "none")));
}

#[test]
fn receipts_and_rulesets_are_read_from_their_rows() {
    let mut record = row(&[
        ("receipt_id", "r"),
        ("evaluation_id", "e"),
        ("flag_key", "checkout"),
        ("environment_key", "prod"),
        ("variant_key", "on"),
        ("reason", "target_match"),
        ("ruleset_revision", "3"),
        ("context_hash", "hash"),
        ("evaluated_at", TIME),
    ]);
    let receipt = receipt_from(&record, &row(&[("row_seq", "12")])).unwrap();
    assert_eq!(receipt.receipt_id, "r");
    assert_eq!(receipt.context_hash, "hash");
    assert_eq!(receipt.row_seq, 12);
    assert!(backend(receipt_from(&record, &row(&[("row_seq", "0")]))));
    assert!(backend(receipt_from(&record, &row(&[]))));
    record.insert("reason".to_owned(), Column::Other);
    assert!(backend(receipt_from(&record, &row(&[("row_seq", "12")]))));
    let text = format!(
        "{{\"receipt_id\":\"r\",\"evaluation_id\":\"e\",\"flag_key\":\"checkout\",\"environment_key\":\"prod\",\"variant_key\":\"on\",\"reason\":\"target\\u005fmatch\",\"ruleset_revision\":\"3\",\"context_hash\":\"hash\",\"evaluated_at\":\"{TIME}\"}}"
    );
    assert_eq!(receipt_from_text(&text, &row(&[("row_seq", "12")])).unwrap(), receipt);
    assert_eq!(stored_receipt(&row(&[("row_seq", "12"), ("record", &text)])).unwrap(), receipt);
    assert!(backend(stored_receipt(&row(&[("row_seq", "12")]))));
    assert!(backend(receipt_from_text(&text, &row(&[("row_seq", "0")]))));
    assert!(backend(receipt_from_text("[]", &row(&[("row_seq", "12")]))));
    let numbered = text.replace("\"3\"", "3");
    assert!(backend(receipt_from_text(&numbered, &row(&[("row_seq", "12")]))));
    assert!(matches!(
        receipt_from_text("{", &row(&[("row_seq", "12")])),
        Err(StorageError::Json(_))
    ));
    let found = ruleset_row(&row(&[("flag_key", "f"), ("revision", "2"), ("definition", "{}")]));
    let found = found.unwrap();
    assert_eq!((found.flag_key.as_str(), found.revision.as_str()), ("f", "2"));
    assert_eq!(found.definition, "{}");
    assert!(backend(ruleset_row(&row(&[("flag_key", "f"), ("revision", "2")]))));
}

#[test]
fn a_snapshot_reads_all_it_needs_in_one_batch() {
    let queries = snapshot_queries(command("k", &[1]), "evaluate", "org", &["a\"b".to_owned(), "c".to_owned()], "prod");
    assert_eq!(queries.len(), 5);
    assert!(queries[0].params.is_empty());
    assert_eq!(queries[1].params, vec![text("feature-admin"), text("usr_1"), text("evaluate"), text("k")]);
    assert_eq!(queries[2].params, vec![text("org"), text("[\"a\\\"b\",\"c\"]")]);
    assert_eq!(queries[3].params, vec![text("org"), text("prod")]);
    assert_eq!(queries[4].params, vec![text("org"), text("prod"), text("[\"a\\\"b\",\"c\"]")]);
    assert!(admits_batch(&queries));
    assert_eq!(command_query(command("k", &[1]), "evaluate"), queries.into_iter().nth(1).unwrap());
    assert_eq!(params(command("k", &[1]), "op")[2], text("op"));
    let odd = ["\u{0}\u{8}\t\n\u{b}\u{c}\r\u{1f} \"\\/\u{7f}\u{e9}\u{1f600}".to_owned()];
    let queries = snapshot_queries(command("k", &[1]), "evaluate", "org", &odd, "prod");
    assert_eq!(
        queries[2].params[1],
        text("[\"\\u0000\\b\\t\\n\\u000b\\f\\r\\u001f \\\"\\\\/\u{7f}\u{e9}\u{1f600}\"]")
    );
    let queries = snapshot_queries(command("k", &[1]), "put_environment", "org", &[], "prod");
    assert_eq!(queries[2].params[1], text("[]"));
}

#[test]
fn a_snapshot_is_split_into_its_sets() {
    let sets = || {
        vec![
            vec![row(&[("revision", "7")])],
            vec![row(&[("request_hash", "[1]")])],
            vec![row(&[("record", "f")])],
            vec![row(&[("record", "e")]), row(&[("record", "x")])],
            vec![],
        ]
    };
    let rows = snapshot_rows(sets()).unwrap();
    assert_eq!(rows.epoch, 7);
    assert_eq!(rows.command.len(), 1);
    assert_eq!(rows.flags.len(), 1);
    assert_eq!(read_column(rows.environment.as_ref().unwrap(), "record"), Some("e"));
    assert!(rows.rulesets.is_empty());
    let mut short = sets();
    short.pop();
    assert!(backend(snapshot_rows(short)));
    let mut unnumbered = sets();
    unnumbered[0] = vec![];
    assert!(backend(snapshot_rows(unnumbered)));
    let mut zero = sets();
    zero[0] = vec![row(&[("revision", "0")])];
    assert!(backend(snapshot_rows(zero)));
    assert!(answered(5, sets()).is_ok());
    assert!(backend(answered(4, sets())));
}

#[test]
fn the_first_error_of_a_snapshot_is_its_error() {
    let broken: Vec<Result<FlagRecord, StorageError>> =
        vec![Ok(flag("1")), Err(StorageError::Backend("flags".to_owned()))];
    let place = Some(Err(StorageError::Backend("environment".to_owned())));
    let assembled = assemble(7, vec![], broken, place, vec![]);
    assert!(matches!(assembled, Err(StorageError::Backend(text)) if text == "flags"));
    let place = Some(Err(StorageError::Backend("environment".to_owned())));
    let assembled = assemble(7, vec![], vec![], place, vec![]);
    assert!(matches!(assembled, Err(StorageError::Backend(text)) if text == "environment"));
    let broken = vec![Err(StorageError::Backend("rulesets".to_owned()))];
    let assembled = assemble(7, vec![], vec![], None, broken);
    assert!(matches!(assembled, Err(StorageError::Backend(text)) if text == "rulesets"));
}

#[test]
fn a_new_flag_is_at_revision_one_in_the_epochs_row() {
    let empty = snapshot(vec![], None, vec![]);
    let decision = create_flag_at(
        &empty, command("create", &[1]), "org", "checkout", "Checkout", Some("d"), "boolean", at(TIME),
    );
    let Ok(Decision::Commit(plan)) = decision else { panic!("a new flag is committed") };
    assert_eq!(plan.response.revision, "1");
    assert_eq!(plan.response.row_seq, 7);
    assert_eq!(plan.response.description.as_deref(), Some("d"));
    assert_eq!((plan.response.created_at.as_str(), plan.response.updated_at.as_str()), (TIME, TIME));
    assert!(!plan.response.archived && plan.response.archived_at.is_none());
    assert!(matches!(&plan.effects[..], [Effect::InsertFlag(flag)] if *flag == plan.response));
    let taken = snapshot(vec![flag("1")], None, vec![]);
    let second = create_flag_at(
        &taken, command("create", &[1]), "org", "checkout", "Checkout", None, "boolean", at(TIME),
    );
    assert_eq!(refusal(second), DomainFailure::AlreadyExists);
}

#[test]
fn an_update_changes_the_name_at_the_expected_revision() {
    let seen = snapshot(vec![flag("2")], None, vec![]);
    let decision =
        update_flag_at(&seen, command("u", &[1]), "checkout", 2, "New", Some("d"), at(LATER));
    let Ok(Decision::Commit(plan)) = decision else { panic!("an update is committed") };
    let mut expected = flag("3");
    expected.name = "New".to_owned();
    expected.description = Some("d".to_owned());
    expected.updated_at = LATER.to_owned();
    assert_eq!(plan.response, expected);
    assert!(matches!(&plan.effects[..], [Effect::UpdateFlag(flag)] if *flag == expected));
    let stale = update_flag(&seen, command("u", &[1]), "checkout", 1, "New", None);
    assert_eq!(refusal(stale), DomainFailure::RevisionConflict);
    let lost = update_flag(&seen, command("u", &[1]), "other", 2, "New", None);
    assert_eq!(refusal(lost), DomainFailure::NotFound);
}

#[test]
fn an_archived_flag_is_final() {
    let seen = snapshot(vec![flag("2")], Some(environment("1")), vec![]);
    let Ok(Decision::Commit(plan)) =
        archive_flag_at(&seen, command("a", &[1]), "checkout", 2, at(LATER))
    else {
        panic!("an archival is committed")
    };
    assert!(plan.response.archived);
    assert_eq!(plan.response.revision, "3");
    assert_eq!(plan.response.archived_at.as_deref(), Some(LATER));
    assert_eq!(plan.response.updated_at, LATER);
    let gone = snapshot(vec![plan.response], Some(environment("1")), vec![("checkout", "1", ruleset())]);
    let again = archive_flag(&gone, command("b", &[2]), "checkout", 3);
    assert_eq!(refusal(again), DomainFailure::Archived);
    let renamed = update_flag(&gone, command("b", &[2]), "checkout", 3, "New", None);
    assert_eq!(refusal(renamed), DomainFailure::Archived);
    let published = publish_ruleset(
        &gone, command("b", &[2]), "org", "checkout", "prod", 3, 1, &ruleset(),
    );
    assert_eq!(refusal(published), DomainFailure::Archived);
    let context = KeyedMap::new();
    let evaluated = evaluations(&gone, request("evaluate", command("b", &[2]), &context), &["checkout".to_owned()]);
    assert_eq!(refusal(evaluated), DomainFailure::Archived);
}

#[test]
fn an_environment_is_put_anew_or_at_its_revision() {
    let none = snapshot(vec![], None, vec![]);
    let some = snapshot(vec![], Some(environment("4")), vec![]);
    let put = |seen: &Snapshot, expected| {
        put_environment_at(seen, command("p", &[1]), "org", "prod", "Live", expected, at(LATER))
    };
    let Ok(Decision::Commit(plan)) = put(&none, None) else { panic!("a new one is committed") };
    assert_eq!(plan.response.revision, "1");
    assert_eq!(plan.response.created_at, LATER);
    let Ok(Decision::Commit(plan)) = put(&some, Some(4)) else { panic!("a rename is committed") };
    assert_eq!(plan.response.revision, "5");
    assert_eq!(plan.response.name, "Live");
    assert_eq!((plan.response.created_at.as_str(), plan.response.updated_at.as_str()), (TIME, LATER));
    assert!(matches!(&plan.effects[..], [Effect::PutEnvironment(record)] if *record == plan.response));
    assert_eq!(refusal(put(&some, Some(3))), DomainFailure::RevisionConflict);
    assert_eq!(refusal(put(&some, None)), DomainFailure::AlreadyExists);
    assert_eq!(refusal(put(&none, Some(1))), DomainFailure::NotFound);
    let now = put_environment(&none, command("p", &[1]), "org", "prod", "Live", None);
    assert!(matches!(now, Ok(Decision::Commit(_))));
}

#[test]
fn a_publication_advances_flag_environment_and_ruleset() {
    let seen = snapshot(vec![flag("1")], Some(environment("1")), vec![("checkout", "9", ruleset())]);
    let publish = |seen: &Snapshot, flag, environment, definition: &RulesetDefinition| {
        publish_ruleset_at(
            seen, command("p", &[1]), "org", "checkout", "prod", flag, environment, definition, at(LATER),
        )
    };
    let Ok(Decision::Commit(plan)) = publish(&seen, 1, 1, &ruleset()) else {
        panic!("a publication is committed")
    };
    assert_eq!(plan.response.ruleset_revision, "10");
    assert_eq!(plan.response.flag_revision, "2");
    assert_eq!(plan.response.environment_revision, "2");
    assert_eq!(plan.response.published_by, "usr_1");
    assert_eq!(plan.response.published_at, LATER);
    let [Effect::UpdateFlag(flag_after), Effect::PutEnvironment(place), Effect::InsertRuleset(definition, record)] =
        &plan.effects[..]
    else {
        panic!("three effects were expected")
    };
    assert_eq!((flag_after.revision.as_str(), flag_after.updated_at.as_str()), ("2", LATER));
    assert_eq!((place.revision.as_str(), place.updated_at.as_str()), ("2", LATER));
    assert_eq!(*definition, ruleset());
    assert_eq!(*record, plan.response);
    let first = snapshot(vec![flag("1")], Some(environment("1")), vec![]);
    let Ok(Decision::Commit(plan)) = publish(&first, 1, 1, &ruleset()) else {
        panic!("a first publication is committed")
    };
    assert_eq!(plan.response.ruleset_revision, "1");
    let mut broken = ruleset();
    broken.fallthrough_variant = "neither".to_owned();
    assert_eq!(refusal(publish(&seen, 2, 2, &broken)), DomainFailure::RevisionConflict);
    assert_eq!(refusal(publish(&seen, 1, 2, &broken)), DomainFailure::InvalidRuleset);
    assert_eq!(refusal(publish(&seen, 1, 2, &ruleset())), DomainFailure::RevisionConflict);
    let nowhere = snapshot(vec![flag("1")], None, vec![]);
    assert_eq!(refusal(publish(&nowhere, 1, 1, &ruleset())), DomainFailure::NotFound);
    let nothing = snapshot(vec![], Some(environment("1")), vec![]);
    assert_eq!(refusal(publish(&nothing, 1, 1, &ruleset())), DomainFailure::NotFound);
}

fn request<'a>(
    operation: &'a str,
    command: Command<'a>,
    attributes: &'a KeyedMap<JsonValue>,
) -> Request<'a> {
    Request {
        operation,
        command,
        organization_id: "org",
        environment_key: "prod",
        targeting_key: "usr_1",
        attributes,
        context_hash: "context-hash",
    }
}

fn stamp(id: &str) -> Stamp {
    Stamp { receipt_id: id.to_owned(), evaluated_at: at(TIME) }
}

#[test]
fn a_batch_is_answered_as_a_whole_or_not_at_all() {
    let mut other = flag("1");
    other.flag_key = "search".to_owned();
    let seen = snapshot(
        vec![flag("1"), other],
        Some(environment("1")),
        vec![("checkout", "1", ruleset()), ("search", "2", ruleset())],
    );
    let mut staff = KeyedMap::new();
    staff.insert("tier".to_owned(), JsonValue::Text("staff".to_owned()));
    let keys = ["search".to_owned(), "checkout".to_owned(), "search".to_owned()];
    let asked = request("evaluate_batch", command("batch", &[1]), &staff);
    let decision = evaluations_at(&seen, asked, &keys, vec![stamp("a"), stamp("b"), stamp("c")]);
    let Ok(EvaluationDecision::Commit(done)) = decision else { panic!("a batch is committed") };
    let keys_of: Vec<&str> = done.records.iter().map(|record| record.flag_key.as_str()).collect();
    assert_eq!(keys_of, ["search", "checkout", "search"]);
    let ids: Vec<&str> = done.receipts.iter().map(|r| r.evaluation_id.as_str()).collect();
    assert_eq!(ids, ["batch:0", "batch:1", "batch:2"]);
    assert!(done.receipts.iter().all(|receipt| receipt.context_hash == "context-hash"));
    assert_eq!(done.records[0].ruleset_revision, "2");
    assert_eq!(done.records[1].receipt_id, "b");
    let asked = request("evaluate_batch", command("batch", &[1]), &staff);
    let missing = ["checkout".to_owned(), "lost".to_owned()];
    assert_eq!(refusal(evaluations(&seen, asked, &missing)), DomainFailure::FlagNotFound);
    let asked = request("evaluate_batch", command("batch", &[1]), &staff);
    assert!(matches!(
        evaluations(&seen, asked, &[]),
        Ok(EvaluationDecision::Commit(done)) if done.records.is_empty() && done.receipts.is_empty()
    ));
}

#[test]
fn a_single_evaluation_answers_its_record() {
    let seen = snapshot(vec![flag("1")], Some(environment("1")), vec![("checkout", "1", ruleset())]);
    let nobody = KeyedMap::new();
    let asked = request("evaluate", command("eval-1", &[4]), &nobody);
    let Ok(EvaluationDecision::Commit(done)) = evaluations(&seen, asked, &["checkout".to_owned()])
    else {
        panic!("an evaluation is committed")
    };
    assert_eq!(done.receipts[0].evaluation_id, "eval-1");
    assert_eq!(done.receipts[0].receipt_id, done.records[0].receipt_id);
    let id = done.records[0].receipt_id.clone();
    assert_eq!(last_record(done.records).unwrap().receipt_id, id);
    assert!(backend(last_record(vec![])));
}

#[test]
fn a_replayed_evaluation_is_answered_from_its_row() {
    let mut seen = snapshot(vec![], None, vec![]);
    seen.command = vec![row(&[("request_hash", "[4]"), ("response", "stored")])];
    let nobody = KeyedMap::new();
    let asked = request("evaluate", command("eval-1", &[4]), &nobody);
    assert!(matches!(
        evaluations(&seen, asked, &["checkout".to_owned()]),
        Ok(EvaluationDecision::Replay(response)) if response == "stored"
    ));
    let asked = request("evaluate", command("eval-1", &[5]), &nobody);
    assert_eq!(
        refusal(evaluations(&seen, asked, &["checkout".to_owned()])),
        DomainFailure::IdempotencyConflict
    );
}

#[test]
fn a_commit_is_one_guarded_batch() {
    let insert = effect_write(&Effect::InsertFlag(flag("1")), "{record}", "");
    assert_eq!(insert.params, vec![text("org"), text("checkout"), Param::Integer(0), text("{record}")]);
    let change = effect_write(&Effect::UpdateFlag(flag("1")), "{record}", "");
    assert_eq!(change.params, vec![text("org"), text("checkout"), text("{record}")]);
    let put = effect_write(&Effect::PutEnvironment(environment("1")), "{record}", "");
    assert_eq!(put.params, vec![text("org"), text("prod"), text("{record}")]);
    let batch = commit_batch(7, command("k", &[1, 2]), "create_flag", "{response}", vec![insert, change]);
    assert_eq!(batch.len(), 6);
    assert!(batch[0].sql.starts_with("INSERT INTO feature_guard"));
    assert_eq!(batch[0].params, vec![text("7")]);
    assert!(batch[1].sql.starts_with("INSERT INTO feature_commands"));
    assert_eq!(
        batch[1].params,
        vec![text("feature-admin"), text("usr_1"), text("create_flag"), text("k"), text("[1,2]"), text("{response}")]
    );
    assert!(batch[2].sql.starts_with("INSERT INTO feature_flags"));
    assert_eq!(batch[4].sql, "UPDATE feature_epoch SET revision=revision+1 WHERE singleton=1");
    assert_eq!(batch[5].sql, "DELETE FROM feature_guard");
    assert!(admits_batch(&batch));
    let receipts = receipts_write("org", command("k", &[1]), "evaluate", "[]");
    assert_eq!(receipts.params, vec![text("org"), text("feature-admin"), text("usr_1"), text("evaluate"), text("[]")]);
}

#[test]
fn pages_bind_their_bounds() {
    assert_eq!(flag_query("org", "f").params, vec![text("org"), text("f")]);
    assert_eq!(
        flag_page_query("org", true, None, 5).params,
        vec![text("org"), Param::Integer(1), Param::Integer(0), Param::Integer(5)]
    );
    assert_eq!(
        flag_page_query("org", false, Some(3), 5).params,
        vec![text("org"), Param::Integer(0), Param::Integer(3), Param::Integer(5)]
    );
    assert_eq!(
        receipt_page_query("org", Some("f"), None, Some(3), 10).params,
        vec![text("org"), text("f"), Param::Null, Param::Integer(3), Param::Integer(10)]
    );
}

/// The rows that a page's statement reads, of rows with an organization, a place, and whether they
/// are archived.
fn read_page(stored: &[(&str, i64, bool)], page: &[Param]) -> Vec<i64> {
    let [Param::Text(org), Param::Integer(all), Param::Integer(start), Param::Integer(limit)] = page
    else {
        panic!("four values are bound")
    };
    let mut places: Vec<i64> = stored
        .iter()
        .filter(|row| row.0 == org && (*all != 0 || !row.2) && row.1 > *start)
        .map(|row| row.1)
        .collect();
    places.sort_unstable();
    places.truncate(usize::try_from(*limit).unwrap());
    places
}

#[test]
fn pages_leave_no_gap_and_never_overlap() {
    let stored = [
        ("org", 9, false),
        ("other", 4, false),
        ("org", 2, true),
        ("org", 3, false),
        ("org", 7, false),
    ];
    for all in [true, false] {
        let first = read_page(&stored, &flag_page_query("org", all, Some(1), 2).params);
        let last = first.last().copied();
        let next = read_page(&stored, &flag_page_query("org", all, last, 5).params);
        let whole = read_page(&stored, &flag_page_query("org", all, Some(1), 7).params);
        assert_eq!([first, next].concat(), whole);
        assert_eq!(whole, if all { vec![2, 3, 7, 9] } else { vec![3, 7, 9] });
    }
}

#[test]
fn a_failed_commit_is_only_read_back() {
    let submitted = step(Stage::Ready, Event::Begin, command("k", &[1]), "create_flag");
    assert!(matches!(submitted, (Stage::Submitted, Action::Submit)));
    let taken = step(Stage::Submitted, Event::Accepted, command("k", &[1]), "create_flag");
    assert!(matches!(taken, (Stage::Done, Action::Answer)));
    let failed = step(Stage::Submitted, Event::Rejected, command("k", &[1]), "create_flag");
    let (Stage::Reconciling, Action::Read(query)) = failed else { panic!("the row is read") };
    assert_eq!(query, command_query(command("k", &[1]), "create_flag"));
    let stored = vec![row(&[("request_hash", "[1]"), ("response", "stored")])];
    let found = step(Stage::Reconciling, Event::Found(stored), command("k", &[1]), "create_flag");
    assert!(matches!(found, (Stage::Done, Action::AnswerStored(text)) if text == "stored"));
    let other = vec![row(&[("request_hash", "[2]"), ("response", "stored")])];
    let found = step(Stage::Reconciling, Event::Found(other), command("k", &[1]), "create_flag");
    assert!(matches!(
        found,
        (Stage::Done, Action::Fail(StorageError::Domain(DomainFailure::IdempotencyConflict)))
    ));
    for event in [Event::Found(vec![]), Event::Unread] {
        let lost = step(Stage::Reconciling, event, command("k", &[1]), "create_flag");
        assert!(matches!(lost, (Stage::Done, Action::Fail(StorageError::Backend(text))) if text == FAILURE));
    }
    let again = step(Stage::Submitted, Event::Begin, command("k", &[1]), "create_flag");
    assert!(matches!(again, (Stage::Submitted, Action::Ignore)));
}

#[test]
fn batches_are_bounded() {
    let statement = |count: usize| Statement {
        sql: String::new(),
        params: (0..count).map(|_| Param::Null).collect(),
    };
    assert!(!admits_batch(&vec![]));
    assert_eq!(check_capacity(&vec![]), Err(WireError::Capacity));
    let fits: Vec<Statement> = (0..128).map(|_| statement(100)).collect();
    assert!(admits_batch(&fits));
    assert_eq!(check_capacity(&fits), Ok(()));
    let many: Vec<Statement> = (0..129).map(|_| statement(0)).collect();
    assert!(!admits_batch(&many));
    assert!(!admits_batch(&vec![statement(0), statement(101)]));
}

#[test]
fn the_host_must_answer_every_statement_with_success() {
    let receipt = |success, rows: &[u32]| Receipt { success, results: rows.to_vec() };
    let sets = accept(2, vec![receipt(true, &[1, 2]), receipt(true, &[])]).unwrap();
    assert_eq!(sets, vec![vec![1, 2], vec![]]);
    assert_eq!(accept(2, vec![receipt(true, &[])]), Err(WireError::Transport));
    assert_eq!(
        accept(2, vec![receipt(true, &[]), receipt(false, &[1])]),
        Err(WireError::Transport)
    );
    assert_eq!(D1Store(3u8).clone().0, 3);
}

/// The tables of the store, in memory.
struct Tables {
    epoch: i64,
    commands: BTreeMap<(String, String), (Vec<u8>, String)>,
    flags: BTreeMap<String, FlagRecord>,
    environments: BTreeMap<String, EnvironmentRecord>,
    rulesets: BTreeMap<String, Vec<(String, RulesetDefinition)>>,
    receipts: usize,
}

impl Tables {
    fn seen(&self, operation: &str, command: Command<'_>, flag: &str, environment: &str) -> Snapshot {
        let stored = self.commands.get(&(operation.to_owned(), command.key.to_owned()));
        let rows = stored.map(|(hash, response)| {
            let hash = format!("[{}]", hash.iter().map(u8::to_string).collect::<Vec<_>>().join(","));
            row(&[("request_hash", &hash), ("response", response)])
        });
        let latest = self.rulesets.get(flag).and_then(|all| all.last());
        assemble(
            self.epoch,
            rows.into_iter().collect(),
            self.flags.get(flag).cloned().map(Ok).into_iter().collect(),
            self.environments.get(environment).cloned().map(Ok),
            latest
                .map(|(revision, definition)| {
                    Ok(KeyedRuleset {
                        flag_key: flag.to_owned(),
                        ruleset: PublishedRuleset {
                            revision: revision.clone(),
                            definition: definition.clone(),
                        },
                    })
                })
                .into_iter()
                .collect(),
        )
        .unwrap()
    }

    fn commit(
        &mut self,
        epoch: i64,
        operation: &str,
        command: Command<'_>,
        response: &str,
        effects: Vec<Effect>,
        receipts: usize,
    ) -> bool {
        let key = (operation.to_owned(), command.key.to_owned());
        if self.epoch != epoch || self.commands.contains_key(&key) {
            return false;
        }
        self.commands.insert(key, (command.hash.to_vec(), response.to_owned()));
        for effect in effects {
            match effect {
                Effect::InsertFlag(flag) | Effect::UpdateFlag(flag) => {
                    self.flags.insert(flag.flag_key.clone(), flag);
                }
                Effect::PutEnvironment(place) => {
                    self.environments.insert(place.environment_key.clone(), place);
                }
                Effect::InsertRuleset(definition, publication) => self
                    .rulesets
                    .entry(publication.flag_key)
                    .or_default()
                    .push((publication.ruleset_revision, definition)),
            }
        }
        self.receipts += receipts;
        self.epoch += 1;
        true
    }
}

#[test]
fn idempotency_cas_ruleset_evaluation_and_receipts_go_together() {
    let mut tables = Tables {
        epoch: 1,
        commands: BTreeMap::new(),
        flags: BTreeMap::new(),
        environments: BTreeMap::new(),
        rulesets: BTreeMap::new(),
        receipts: 0,
    };
    let create = command("create", &[1]);
    let seen = tables.seen("create_flag", create, "checkout", "");
    let Ok(Decision::Commit(plan)) =
        create_flag_at(&seen, create, "org", "checkout", "Checkout", None, "boolean", at(TIME))
    else {
        panic!("a new flag is committed")
    };
    assert!(tables.commit(seen.epoch, "create_flag", create, "created", plan.effects, 0));
    let seen = tables.seen("create_flag", create, "checkout", "");
    assert_eq!(seen.flags.get("checkout"), Some(&plan.response));
    assert!(matches!(
        create_flag_at(&seen, create, "org", "checkout", "Checkout", None, "boolean", at(TIME)),
        Ok(Decision::Replay(response)) if response == "created"
    ));
    let place = command("environment", &[2]);
    let seen = tables.seen("put_environment", place, "", "prod");
    let Ok(Decision::Commit(plan)) =
        put_environment_at(&seen, place, "org", "prod", "Production", None, at(TIME))
    else {
        panic!("a new environment is committed")
    };
    assert!(tables.commit(seen.epoch, "put_environment", place, "put", plan.effects, 0));
    let publish = command("publish", &[3]);
    let seen = tables.seen("publish_ruleset", publish, "checkout", "prod");
    assert_eq!(seen.environment, Some(plan.response));
    let Ok(Decision::Commit(plan)) = publish_ruleset_at(
        &seen, publish, "org", "checkout", "prod", 1, 1, &ruleset(), at(TIME),
    ) else {
        panic!("a publication is committed")
    };
    assert_eq!(plan.response.ruleset_revision, "1");
    assert!(tables.commit(seen.epoch, "publish_ruleset", publish, "published", plan.effects, 0));
    let evaluate = Command { caller: "feature-api", actor: "usr_1", key: "eval-1", hash: &[4] };
    let mut staff = KeyedMap::new();
    staff.insert("tier".to_owned(), JsonValue::Text("staff".to_owned()));
    let seen = tables.seen("evaluate", evaluate, "checkout", "prod");
    let keys = ["checkout".to_owned()];
    let Ok(EvaluationDecision::Commit(done)) =
        evaluations(&seen, request("evaluate", evaluate, &staff), &keys)
    else {
        panic!("an evaluation is committed")
    };
    assert_eq!(done.records[0].variant_key, "on");
    assert_eq!(done.records[0].reason, "target_match");
    assert!(tables.commit(seen.epoch, "evaluate", evaluate, "evaluated", vec![], done.receipts.len()));
    let seen = tables.seen("evaluate", evaluate, "checkout", "prod");
    assert!(matches!(
        evaluations(&seen, request("evaluate", evaluate, &staff), &keys),
        Ok(EvaluationDecision::Replay(response)) if response == "evaluated"
    ));
    assert_eq!(tables.receipts, 1);
    let (first, second) = (command("update-a", &[5]), command("update-b", &[6]));
    let seen_first = tables.seen("update_flag", first, "checkout", "");
    let seen_second = tables.seen("update_flag", second, "checkout", "");
    let Ok(Decision::Commit(one)) =
        update_flag_at(&seen_first, first, "checkout", 2, "Checkout A", None, at(LATER))
    else {
        panic!("an update is planned")
    };
    let Ok(Decision::Commit(two)) =
        update_flag_at(&seen_second, second, "checkout", 2, "Checkout B", None, at(LATER))
    else {
        panic!("an update is planned")
    };
    assert!(tables.commit(seen_first.epoch, "update_flag", first, "a", one.effects, 0));
    assert!(!tables.commit(seen_second.epoch, "update_flag", second, "b", two.effects, 0));
    let retried = tables.seen("update_flag", second, "checkout", "");
    let conflict = update_flag(&retried, second, "checkout", 2, "Checkout B", None);
    assert_eq!(refusal(conflict), DomainFailure::RevisionConflict);
    assert_eq!(tables.flags["checkout"].name, "Checkout A");
    assert_eq!(tables.flags["checkout"].value_type, "boolean");
}
