use feature_flag::domain::{same_value_given, Double, EvaluationRecord, FlagRecord, ValueRecord};
use feature_flag::json::JsonValue;
use feature_flag::keyed::KeyedMap;
use feature_flag::qualification::composition::{composed, composition, Capabilities, Capability};
use feature_flag::qualification::exercise::{
    audience_covers, binding_name, exercise, make_staff_ruleset, meant_for, on_reevaluated,
    same_evaluation, same_flag, Action, Event, Request, Stage, CONFIGURATION,
};
use feature_flag::qualification::order::{sort_texts, text_before};
use feature_flag::tools::AdminError;

fn texts(list: &[&str]) -> Vec<String> {
    list.iter().map(|text| (*text).to_owned()).collect()
}

#[test]
fn texts_are_sorted_as_the_standard_library_sorts_them() {
    let list = texts(&["update", "archive", "a", "", "archive_flag", "é", "z", "a"]);
    let mut expected = list.clone();
    expected.sort_unstable();
    assert_eq!(sort_texts(list), expected);
    for (a, b) in [("", "a"), ("a", ""), ("a", "a"), ("a", "ab"), ("ab", "b"), ("é", "z")] {
        assert_eq!(text_before(a, b), a < b);
    }
}

fn capability(id: &str, operations: &[&str]) -> Capability {
    Capability { id: id.to_owned(), version: "1.0.0".to_owned(), operations: texts(operations) }
}

fn capabilities() -> Capabilities {
    Capabilities {
        evaluation: capability("lenso.feature-evaluation@1", &["evaluate_batch", "evaluate"]),
        admin: capability("lenso.feature-flag-admin@1", &["update_flag", "create_flag"]),
        membership: capability("lenso.organization-membership@1", &["check_membership"]),
        access: capability("lenso.access-control@1", &["check_permission"]),
    }
}

#[test]
fn the_application_is_composed_of_five_instances_and_six_bindings() {
    let (instances, bindings) = composed("lenso.feature-flag.d1", "{}", &capabilities());
    let keys: Vec<&str> = instances.iter().map(|instance| instance.key.as_str()).collect();
    assert_eq!(keys, ["caller", "denied", "feature", "membership", "access"]);
    assert_eq!(instances[2].package, "lenso.feature-flag.d1");
    assert_eq!(instances[2].capabilities[0].operations, ["evaluate", "evaluate_batch"]);
    assert_eq!(instances[2].capabilities[1].operations, ["create_flag", "update_flag"]);
    assert_eq!(instances[0].requirements.len(), 2);
    let ends: Vec<(&str, &str)> = bindings
        .iter()
        .map(|binding| (binding.consumer.as_str(), binding.provider.as_str()))
        .collect();
    assert_eq!(
        ends,
        [
            ("caller", "feature"),
            ("caller", "feature"),
            ("denied", "feature"),
            ("denied", "feature"),
            ("feature", "membership"),
            ("feature", "access")
        ]
    );
}

#[test]
fn the_application_resolves() {
    let plan = composition("lenso.feature-flag.d1", CONFIGURATION, &capabilities()).unwrap();
    let plan: serde_json::Value = serde_json::from_str(&plan).unwrap();
    assert_eq!(plan["plugin_instances"].as_array().unwrap().len(), 5);
    assert_eq!(plan["capability_bindings"].as_array().unwrap().len(), 6);
    let mut broken = capabilities();
    broken.admin.id = broken.evaluation.id.clone();
    assert!(composition("lenso.feature-flag.d1", "{}", &broken).is_none());
}

#[test]
fn the_configuration_is_json() {
    let value: serde_json::Value = serde_json::from_str(CONFIGURATION).unwrap();
    assert_eq!(value["binding"], "FEATURES");
    assert_eq!(value["max_batch_size"], 50);
    assert_eq!(value["evaluation_callers"][0], "caller");
}

fn flag(revision: &str) -> FlagRecord {
    FlagRecord {
        organization_id: "org".to_owned(),
        flag_key: "checkout".to_owned(),
        name: "Checkout".to_owned(),
        description: Some("fixture".to_owned()),
        value_type: "boolean".to_owned(),
        archived: false,
        revision: revision.to_owned(),
        created_at: "t".to_owned(),
        updated_at: "t".to_owned(),
        archived_at: None,
        row_seq: 1,
    }
}

fn evaluation(variant: &str, receipt: &str) -> EvaluationRecord {
    EvaluationRecord {
        flag_key: "checkout".to_owned(),
        environment_key: "prod".to_owned(),
        variant_key: variant.to_owned(),
        value: ValueRecord {
            value_type: "boolean".to_owned(),
            boolean_value: Some(true),
            string_value: None,
            integer_value: None,
            double_value: None,
            json_value: None,
        },
        reason: "target_match".to_owned(),
        ruleset_revision: "1".to_owned(),
        receipt_id: receipt.to_owned(),
        evaluated_at: "t".to_owned(),
    }
}

#[test]
fn records_are_compared_in_every_field() {
    assert!(same_flag(&flag("1"), &flag("1")));
    assert!(!same_flag(&flag("1"), &flag("2")));
    let mut other = flag("1");
    other.description = None;
    assert!(!same_flag(&flag("1"), &other));
    assert!(same_evaluation(&evaluation("on", "r"), &evaluation("on", "r")));
    assert!(!same_evaluation(&evaluation("on", "r"), &evaluation("on", "s")));
    let mut other = evaluation("on", "r");
    other.value.boolean_value = Some(false);
    assert!(!same_evaluation(&evaluation("on", "r"), &other));
}

fn of_value(double: Option<f64>, json: Option<&str>) -> EvaluationRecord {
    let mut record = evaluation("on", "r");
    record.value.double_value = double.map(|number| Double { bits: number.to_bits() });
    record.value.json_value = json.map(str::to_owned);
    record
}

#[test]
fn doubles_are_compared_as_numbers() {
    let numbers = [0.0, -0.0, 1.5, -1.5, f64::INFINITY, f64::NEG_INFINITY, f64::NAN, -f64::NAN];
    for a in numbers {
        for b in numbers {
            assert_eq!(Double { bits: a.to_bits() } == Double { bits: b.to_bits() }, a == b);
            assert_eq!(same_evaluation(&of_value(Some(a), None), &of_value(Some(b), None)), a == b);
        }
        assert_eq!(Double { bits: a.to_bits() }.is_nan(), a.is_nan());
        assert!(!same_evaluation(&of_value(Some(a), None), &of_value(None, None)));
    }
    let mut events = full(1);
    events[5] = Event::Evaluation(of_value(Some(0.0), None));
    events[6] = Event::Evaluation(of_value(Some(-0.0), None));
    assert!(matches!(run("full", events).last(), Some(Action::Finish("passed"))));
    let mut events = full(1);
    events[5] = Event::Evaluation(of_value(Some(f64::NAN), None));
    events[6] = Event::Evaluation(of_value(Some(f64::NAN), None));
    assert!(matches!(run("full", events)[6], Action::Fail));
}

#[test]
fn json_values_are_compared_as_objects() {
    let one = of_value(None, Some("{\"a\":{\"x\":1,\"y\":0.0},\"b\":[]}"));
    let same = of_value(None, Some("{ \"b\":[], \"a\":{\"y\":-0.0,\"x\":1} }"));
    let other = of_value(None, Some("{\"a\":{\"x\":1,\"y\":0},\"b\":[]}"));
    assert!(same_evaluation(&one, &same));
    assert!(one.value == same.value);
    assert!(!same_evaluation(&one, &other));
    assert!(!same_evaluation(&one, &of_value(None, None)));
    assert!(same_value_given(&one.value, &other.value, Some(true)));
    assert!(!same_value_given(&one.value, &same.value, Some(false)));
    assert!(!same_value_given(&one.value, &same.value, None));
    assert!(matches!(on_reevaluated(&one, false).1, Action::Fail));
    assert!(matches!(on_reevaluated(&one, true).1, Action::Invoke { .. }));
}

fn run(mode: &str, events: Vec<Event>) -> Vec<Action> {
    let mut stage = Stage::Starting;
    let mut actions = vec![];
    for event in events {
        let (next, action) = exercise(stage, event, mode, "7");
        stage = next;
        actions.push(action);
    }
    actions
}

fn full(last_receipts: usize) -> Vec<Event> {
    vec![
        Event::Started(true),
        Event::Flag(flag("1")),
        Event::Flag(flag("1")),
        Event::Environment("1".to_owned()),
        Event::Publication("1".to_owned()),
        Event::Evaluation(evaluation("on", "r")),
        Event::Evaluation(evaluation("on", "r")),
        Event::Receipts(last_receipts),
        Event::Stopped(true),
    ]
}

#[test]
fn a_full_exercise_passes() {
    let actions = run("full", full(1));
    assert!(matches!(actions.last(), Some(Action::Finish("passed"))));
    let Action::Invoke { instance, signed, request } = &actions[0] else { panic!("a call") };
    assert_eq!((*instance, *signed), ("caller", true));
    assert!(matches!(
        request,
        Request::CreateFlag { idempotency_key, description: Some(_), .. }
            if idempotency_key == "create-7"
    ));
    let Action::Invoke { request, .. } = &actions[3] else { panic!("a call") };
    assert!(matches!(
        request,
        Request::PublishRuleset { idempotency_key, definition, .. }
            if idempotency_key == "publish-7" && *definition == make_staff_ruleset()
    ));
    let Action::Invoke { request, .. } = &actions[6] else { panic!("a call") };
    assert!(matches!(request, Request::ListReceipts { limit: 10, .. }));
}

#[test]
fn the_rulesets_variant_for_staff_is_on() {
    let ruleset = make_staff_ruleset();
    assert!(feature_flag::ruleset::validate_ruleset("boolean", &ruleset).is_ok());
    let mut staff = KeyedMap::new();
    staff.insert("tier".to_owned(), JsonValue::Text("staff".to_owned()));
    let chosen =
        feature_flag::choice::choose_variant("org", "prod", "checkout", "usr_1", &staff, &ruleset);
    let (variant, reason) = chosen.unwrap();
    assert_eq!((variant.variant_key.as_str(), reason), ("on", "target_match"));
}

#[test]
fn a_wrong_answer_fails_the_exercise() {
    for at in 1..9 {
        let mut events = full(1);
        events.truncate(at);
        events.push(Event::Broken);
        let actions = run("full", events);
        if at < 8 {
            assert!(matches!(actions.last(), Some(Action::Fail)), "{at}");
        }
    }
    assert!(run("full", full(2)).iter().any(|action| matches!(action, Action::Fail)));
    let mut changed = full(1);
    changed[2] = Event::Flag(flag("2"));
    assert!(matches!(run("full", changed)[2], Action::Fail));
    let mut off = full(1);
    off[5] = Event::Evaluation(evaluation("off", "r"));
    off[6] = Event::Evaluation(evaluation("off", "r"));
    assert!(matches!(run("full", off)[6], Action::Fail));
    let mut unclean = full(1);
    unclean[8] = Event::Stopped(false);
    assert!(matches!(run("full", unclean)[8], Action::Fail));
}

#[test]
fn startups_that_must_fail_are_rejected() {
    for mode in ["missing-schema", "wrong-binding", "throws", "malformed"] {
        let actions = run(mode, vec![Event::Started(false)]);
        assert!(matches!(actions[0], Action::Finish("startup-rejected")));
        assert!(matches!(run(mode, vec![Event::Started(true)])[0], Action::Fail));
    }
    assert!(matches!(run("full", vec![Event::Started(false)])[0], Action::Fail));
    assert_eq!(binding_name("wrong-binding"), "WRONG");
    assert_eq!(binding_name("full"), "FEATURES");
}

#[test]
fn a_caller_that_may_not_is_forbidden() {
    let events = vec![Event::Started(true), Event::Refused(AdminError::Forbidden), Event::Stopped(true)];
    let actions = run("forbidden", events);
    let Action::Invoke { instance, signed, request } = &actions[0] else { panic!("a call") };
    assert_eq!((*instance, *signed), ("denied", false));
    assert!(matches!(
        request,
        Request::CreateFlag { idempotency_key, description: None, .. } if idempotency_key == "7"
    ));
    assert!(matches!(actions[1], Action::Stop));
    assert!(matches!(actions[2], Action::Finish("passed")));
    let other = vec![Event::Started(true), Event::Refused(AdminError::NotFound)];
    assert!(matches!(run("forbidden", other)[1], Action::Fail));
    let allowed = vec![Event::Started(true), Event::Flag(flag("1"))];
    assert!(matches!(run("forbidden", allowed)[1], Action::Fail));
}

#[test]
fn an_assertion_covers_its_audience_only() {
    let audiences = texts(&["a@1:read", "a@1:write"]);
    assert!(audience_covers(&audiences, "a@1:write"));
    assert!(!audience_covers(&audiences, "a@1"));
    assert!(!audience_covers(&[], "a@1"));
    assert!(meant_for(&audiences, "a@1", "read"));
    assert!(!meant_for(&audiences, "a@1", "delete"));
    assert!(!meant_for(&audiences, "b@1", "read"));
}
