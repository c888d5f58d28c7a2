use feature_flag::bucket::deterministic_bucket;
use feature_flag::choice::{choose_variant, choose_variant_in_bucket, rule_matches};
use feature_flag::domain::{
    DomainFailure, Double, PublishedRuleset, RolloutRecord, RulesetDefinition, StorageError,
    TargetingRuleRecord, ValueRecord, VariantRecord,
};
use feature_flag::evaluation::{
    evaluate_one, evaluation_id, receipt_draft, FlagState, Stamp, Subject,
};
use feature_flag::json::JsonValue;
use feature_flag::keyed::KeyedMap;
use feature_flag::ruleset::{valid_value, valid_value_on_wire, validate_ruleset};

fn nothing(value_type: &str) -> ValueRecord {
    ValueRecord {
        value_type: value_type.to_owned(),
        boolean_value: None,
        string_value: None,
        integer_value: None,
        double_value: None,
        json_value: None,
    }
}

fn truth(value: bool) -> ValueRecord {
    ValueRecord { boolean_value: Some(value), ..nothing("boolean") }
}

fn variant(key: &str, value: bool) -> VariantRecord {
    VariantRecord { variant_key: key.to_owned(), value: truth(value) }
}

fn rule(id: &str, operator: &str, values: &[&str], variant: &str) -> TargetingRuleRecord {
    TargetingRuleRecord {
        rule_id: id.to_owned(),
        attribute: "tier".to_owned(),
        operator: operator.to_owned(),
        comparison_values: values.iter().map(|value| (*value).to_owned()).collect(),
        variant_key: variant.to_owned(),
    }
}

fn share(variant: &str, basis_points: i64) -> RolloutRecord {
    RolloutRecord { variant_key: variant.to_owned(), basis_points }
}

fn definition() -> RulesetDefinition {
    RulesetDefinition {
        variants: vec![variant("off", false), variant("on", true)],
        targeting_rules: vec![rule("staff", "equals", &["staff"], "on")],
        percentage_rollout: vec![share("on", 5_000)],
        fallthrough_variant: "off".to_owned(),
    }
}

fn attributes(pairs: &[(&str, &str)]) -> KeyedMap<JsonValue> {
    let mut map = KeyedMap::new();
    for (key, text) in pairs {
        map.insert((*key).to_owned(), JsonValue::parse(text).unwrap());
    }
    map
}

fn failure(value_type: &str, definition: &RulesetDefinition) -> Option<DomainFailure> {
    match validate_ruleset(value_type, definition) {
        Ok(()) => None,
        Err(StorageError::Domain(failure)) => Some(failure),
        Err(_) => panic!("only a domain failure can refuse a ruleset"),
    }
}

#[test]
fn typed_ruleset_rejects_mismatched_values() {
    let definition = RulesetDefinition {
        variants: vec![VariantRecord {
            variant_key: "on".to_owned(),
            value: ValueRecord {
                value_type: "string".to_owned(),
                boolean_value: None,
                string_value: Some("yes".to_owned()),
                integer_value: None,
                double_value: None,
                json_value: None,
            },
        }],
        targeting_rules: Vec::new(),
        percentage_rollout: Vec::new(),
        fallthrough_variant: "on".to_owned(),
    };
    assert!(matches!(
        validate_ruleset("boolean", &definition),
        Err(StorageError::Domain(DomainFailure::TypeMismatch))
    ));
}

#[test]
fn a_sound_ruleset_is_accepted() {
    assert_eq!(failure("boolean", &definition()), None);
}

#[test]
fn variants_are_named_apart_and_the_fallthrough_is_one_of_them() {
    let mut none = definition();
    none.variants.clear();
    assert_eq!(failure("boolean", &none), Some(DomainFailure::InvalidRuleset));
    let mut twice = definition();
    twice.variants.push(variant("on", true));
    assert_eq!(failure("boolean", &twice), Some(DomainFailure::InvalidRuleset));
    let mut lost = definition();
    lost.fallthrough_variant = "neither".to_owned();
    assert_eq!(failure("boolean", &lost), Some(DomainFailure::InvalidRuleset));
}

#[test]
fn a_type_mismatch_comes_before_a_bad_rule_and_after_a_bad_name() {
    let mut both = definition();
    both.variants[0].value = nothing("boolean");
    both.targeting_rules[0].operator = "like".to_owned();
    assert_eq!(failure("boolean", &both), Some(DomainFailure::TypeMismatch));
    both.fallthrough_variant = "neither".to_owned();
    assert_eq!(failure("boolean", &both), Some(DomainFailure::InvalidRuleset));
}

#[test]
fn rules_have_operators_with_their_operands() {
    for (operator, values, fine) in [
        ("equals", vec!["a"], true),
        ("equals", vec![], false),
        ("equals", vec!["a", "b"], false),
        ("not_equals", vec!["a"], true),
        ("not_equals", vec![], false),
        ("contains", vec!["a"], true),
        ("contains", vec!["a", "b"], false),
        ("one_of", vec!["a", "b"], true),
        ("one_of", vec![], false),
        ("starts_with", vec!["a"], false),
    ] {
        let mut ruleset = definition();
        ruleset.targeting_rules = vec![rule("r", operator, &values, "on")];
        assert_eq!(failure("boolean", &ruleset).is_none(), fine, "{operator} {values:?}");
    }
}

#[test]
fn rules_are_named_apart_and_lead_to_variants() {
    let mut twice = definition();
    twice.targeting_rules.push(rule("staff", "equals", &["x"], "off"));
    assert_eq!(failure("boolean", &twice), Some(DomainFailure::InvalidRuleset));
    let mut lost = definition();
    lost.targeting_rules[0].variant_key = "neither".to_owned();
    assert_eq!(failure("boolean", &lost), Some(DomainFailure::InvalidRuleset));
}

#[test]
fn a_rollout_is_positive_within_the_whole_and_named_apart() {
    for (items, fine) in [
        (vec![share("on", 10_000)], true),
        (vec![share("on", 10_001)], false),
        (vec![share("on", 5_000), share("off", 5_000)], true),
        (vec![share("on", 5_000), share("off", 5_001)], false),
        (vec![share("on", 0)], false),
        (vec![share("on", -1)], false),
        (vec![share("on", 1), share("on", 1)], false),
        (vec![share("neither", 1)], false),
        (vec![share("on", i64::MAX), share("off", i64::MAX)], false),
        (vec![], true),
    ] {
        let mut ruleset = definition();
        ruleset.percentage_rollout = items;
        assert_eq!(failure("boolean", &ruleset).is_none(), fine);
    }
}

#[test]
fn values_are_exactly_one_of_their_type() {
    assert!(valid_value("boolean", &truth(true)));
    assert!(!valid_value("string", &truth(true)));
    assert!(!valid_value("boolean", &nothing("boolean")));
    let two = ValueRecord { string_value: Some("x".to_owned()), ..truth(true) };
    assert!(!valid_value("boolean", &two));
    let other = ValueRecord { string_value: Some("x".to_owned()), ..nothing("boolean") };
    assert!(!valid_value("boolean", &other));
    let odd = ValueRecord { boolean_value: Some(true), ..nothing("odd") };
    assert!(!valid_value("odd", &odd));
}

#[test]
fn strings_are_bounded_in_bytes() {
    let text = |text: String| ValueRecord { string_value: Some(text), ..nothing("string") };
    assert!(valid_value("string", &text("x".repeat(4_000))));
    assert!(!valid_value("string", &text("x".repeat(4_001))));
    assert!(valid_value("string", &text("é".repeat(2_000))));
    assert!(!valid_value("string", &text("é".repeat(2_001))));
}

#[test]
fn integers_are_decimal_texts_of_64_bits() {
    let number = |text: &str| ValueRecord {
        integer_value: Some(text.to_owned()),
        ..nothing("integer")
    };
    assert!(valid_value("integer", &number("-42")));
    assert!(!valid_value("integer", &number("4.2")));
    assert!(!valid_value("integer", &number("9223372036854775808")));
}

#[test]
fn doubles_are_finite() {
    let number = |value: f64| ValueRecord {
        double_value: Some(Double { bits: value.to_bits() }),
        ..nothing("double")
    };
    for value in [0.0, -0.0, 1.5, f64::MAX, f64::MIN_POSITIVE, 5e-324] {
        assert!(valid_value("double", &number(value)));
    }
    for value in [f64::NAN, f64::INFINITY, f64::NEG_INFINITY] {
        assert!(!valid_value("double", &number(value)));
    }
}

#[test]
fn json_values_are_objects_bounded_on_the_wire() {
    let json = |text: String| ValueRecord { json_value: Some(text), ..nothing("json") };
    assert!(valid_value("json", &json("{ \"a\" : 1 }".to_owned())));
    assert!(!valid_value("json", &json("[1]".to_owned())));
    assert!(!valid_value("json", &json("{".to_owned())));
    let padding = "x".repeat(16_384 - "{\"a\":\"\"}".len());
    assert!(valid_value("json", &json(format!("{{\"a\":  \"{padding}\"}}"))));
    assert!(!valid_value("json", &json(format!("{{\"a\":\"{padding}x\"}}"))));
    let value = json("{}".to_owned());
    assert!(valid_value_on_wire("json", &value, Some(vec![0; 16_384])));
    assert!(!valid_value_on_wire("json", &value, Some(vec![0; 16_385])));
    assert!(!valid_value_on_wire("json", &value, None));
}

#[test]
fn rules_match_as_their_operators_say() {
    let text = JsonValue::parse("\"gold-member\"").unwrap();
    let number = JsonValue::parse("7").unwrap();
    for (operator, values, of_text, of_number) in [
        ("equals", vec!["gold-member"], true, false),
        ("equals", vec!["7"], false, true),
        ("not_equals", vec!["7"], true, false),
        ("contains", vec!["old"], true, false),
        ("contains", vec![""], true, true),
        ("one_of", vec!["x", "7", "gold-member"], true, true),
        ("one_of", vec!["x"], false, false),
        ("starts_with", vec!["gold"], false, false),
        ("equals", vec![], false, false),
        ("not_equals", vec![], true, true),
        ("contains", vec![], false, false),
    ] {
        let rule = rule("r", operator, &values, "on");
        assert_eq!(rule_matches(&text, &rule), of_text, "{operator} {values:?}");
        assert_eq!(rule_matches(&number, &rule), of_number, "{operator} {values:?}");
    }
}

#[test]
fn the_first_rule_that_applies_decides_before_the_rollout() {
    let mut ruleset = definition();
    ruleset.targeting_rules = vec![
        rule("not-free", "not_equals", &["free"], "off"),
        rule("staff", "equals", &["staff"], "on"),
    ];
    let context = attributes(&[("tier", "\"staff\"")]);
    for bucket in [0, 4_999, 9_999] {
        let (variant, reason) = choose_variant_in_bucket(bucket, &context, &ruleset).unwrap();
        assert_eq!((variant.variant_key.as_str(), reason), ("off", "target_match"));
    }
    let (variant, reason) = choose_variant_in_bucket(0, &attributes(&[]), &ruleset).unwrap();
    assert_eq!((variant.variant_key.as_str(), reason), ("on", "percentage_rollout"));
}

#[test]
fn shares_lie_side_by_side_from_bucket_zero_on() {
    let mut ruleset = definition();
    ruleset.percentage_rollout = vec![share("on", 100), share("off", 50)];
    ruleset.fallthrough_variant = "on".to_owned();
    let nobody = attributes(&[]);
    for (bucket, key, reason) in [
        (0, "on", "percentage_rollout"),
        (99, "on", "percentage_rollout"),
        (100, "off", "percentage_rollout"),
        (149, "off", "percentage_rollout"),
        (150, "on", "fallthrough"),
        (9_999, "on", "fallthrough"),
    ] {
        let (variant, why) = choose_variant_in_bucket(bucket, &nobody, &ruleset).unwrap();
        assert_eq!((variant.variant_key.as_str(), why), (key, reason), "{bucket}");
    }
}

#[test]
fn a_share_that_grows_keeps_its_buckets() {
    let mut ruleset = definition();
    let nobody = attributes(&[]);
    ruleset.percentage_rollout = vec![share("on", 100)];
    assert_eq!(choose_variant_in_bucket(99, &nobody, &ruleset).unwrap().1, "percentage_rollout");
    ruleset.percentage_rollout = vec![share("on", 200)];
    assert_eq!(choose_variant_in_bucket(99, &nobody, &ruleset).unwrap().1, "percentage_rollout");
    ruleset.percentage_rollout = vec![share("on", 10_000)];
    assert_eq!(choose_variant_in_bucket(9_999, &nobody, &ruleset).unwrap().1, "percentage_rollout");
}

#[test]
fn a_broken_ruleset_is_not_evaluated() {
    let nobody = attributes(&[]);
    let mut negative = definition();
    negative.percentage_rollout = vec![share("on", -1)];
    assert!(matches!(
        choose_variant_in_bucket(0, &nobody, &negative),
        Err(StorageError::Domain(DomainFailure::InvalidRuleset))
    ));
    let mut lost = definition();
    lost.percentage_rollout.clear();
    lost.fallthrough_variant = "neither".to_owned();
    assert!(matches!(
        choose_variant_in_bucket(0, &nobody, &lost),
        Err(StorageError::Domain(DomainFailure::InvalidRuleset))
    ));
}

#[test]
fn the_keys_decide_the_bucket_of_an_evaluation() {
    let ruleset = definition();
    let nobody = attributes(&[]);
    assert_eq!(deterministic_bucket("org", "prod", "checkout", "user-1"), 9_205);
    let first = choose_variant("org", "prod", "checkout", "user-1", &nobody, &ruleset).unwrap();
    assert_eq!((first.0.variant_key.as_str(), first.1), ("off", "fallthrough"));
    let second = choose_variant("org", "prod", "checkout", "user-2", &nobody, &ruleset).unwrap();
    assert_eq!((second.0.variant_key.as_str(), second.1), ("on", "percentage_rollout"));
}

fn stamp(id: &str) -> Stamp {
    Stamp { receipt_id: id.to_owned(), evaluated_at: Ok("2024-01-01T00:00:00Z".to_owned()) }
}

fn subject(attributes: &KeyedMap<JsonValue>) -> Subject<'_> {
    Subject {
        organization_id: "org",
        environment_key: "prod",
        flag_key: "checkout",
        targeting_key: "user-1",
        attributes,
    }
}

#[test]
fn an_evaluation_looks_at_the_flag_then_the_environment_then_the_ruleset() {
    let context = attributes(&[("tier", "\"staff\"")]);
    let published = PublishedRuleset { revision: "3".to_owned(), definition: definition() };
    let live = FlagState { value_type: "boolean", archived: false };
    let gone = FlagState { value_type: "boolean", archived: true };
    let typed = FlagState { value_type: "string", archived: false };
    for (flag, known, ruleset, expected) in [
        (None, false, None, DomainFailure::FlagNotFound),
        (Some(gone), false, None, DomainFailure::Archived),
        (Some(live), false, None, DomainFailure::EnvironmentNotFound),
        (Some(live), true, None, DomainFailure::NoPublishedRuleset),
        (Some(typed), true, Some(&published), DomainFailure::TypeMismatch),
    ] {
        let refused = evaluate_one(flag, known, ruleset, subject(&context), stamp("r"));
        assert!(matches!(refused, Err(StorageError::Domain(failure)) if failure == expected));
    }
    let record = evaluate_one(Some(live), true, Some(&published), subject(&context), stamp("r"));
    let record = record.unwrap();
    assert_eq!(record.flag_key, "checkout");
    assert_eq!(record.environment_key, "prod");
    assert_eq!(record.variant_key, "on");
    assert_eq!(record.value, truth(true));
    assert_eq!(record.reason, "target_match");
    assert_eq!(record.ruleset_revision, "3");
    assert_eq!(record.receipt_id, "r");
    assert_eq!(record.evaluated_at, "2024-01-01T00:00:00Z");
}

#[test]
fn evaluations_are_reproducible_and_receipts_hide_the_value() {
    let context = attributes(&[("tier", "\"staff\"")]);
    let published = PublishedRuleset { revision: "3".to_owned(), definition: definition() };
    let live = FlagState { value_type: "boolean", archived: false };
    let first = evaluate_one(Some(live), true, Some(&published), subject(&context), stamp("a"));
    let second = evaluate_one(Some(live), true, Some(&published), subject(&context), stamp("b"));
    let (mut first, second) = (first.unwrap(), second.unwrap());
    assert_ne!(first, second);
    first.receipt_id = "b".to_owned();
    assert_eq!(first, second);
    let receipt = receipt_draft(&first, "eval-1".to_owned(), "hash");
    first.value = truth(false);
    assert_eq!(receipt, receipt_draft(&first, "eval-1".to_owned(), "hash"));
    assert_eq!(receipt.evaluation_id, "eval-1");
    assert_eq!(receipt.context_hash, "hash");
    assert_eq!(receipt.variant_key, "on");
}

#[test]
fn a_batch_numbers_its_evaluations() {
    assert_eq!(evaluation_id("evaluate", "key", 0), "key");
    assert_eq!(evaluation_id("evaluate_batch", "key", 0), "key:0");
    assert_eq!(evaluation_id("evaluate_batch", "key", 12), "key:12");
}
