//! Which rulesets can be published for a flag of a given type.

use vstd::prelude::*;
use vstd::string::*;
use vstd::utf8::encode_utf8;
use crate::decimal::{i64_value, parse_i64};
use crate::domain::{
    DefinitionView, DomainFailure, RolloutView, RuleView, RulesetDefinition, StorageError,
    TargetingRuleRecord, ValueRecord, ValueView, VariantView,
};
use crate::json::{json_object_wire, object_wire};
use crate::text::text_equal;

verus! {

/// The longest string value, in bytes.
pub const MAX_STRING_BYTES: usize = 4_000;

/// The longest JSON value, in bytes on the wire.
pub const MAX_JSON_BYTES: usize = 16_384;

/// The basis points of the whole.
pub const WHOLE: i64 = 10_000;

/// How many of the five typed fields hold a value.
pub open spec fn values_present(value: ValueView) -> int {
    (if value.boolean_value is Some { 1int } else { 0 })
        + (if value.string_value is Some { 1int } else { 0 })
        + (if value.integer_value is Some { 1int } else { 0 })
        + (if value.double_value is Some { 1int } else { 0 })
        + (if value.json_value is Some { 1int } else { 0 })
}

/// The value is of the expected type: it says so, it holds one value, of that type, and the value
/// is within the bounds of the type. `wire` is what the JSON value takes on the wire.
pub open spec fn value_fits(
    expected_type: Seq<char>,
    value: ValueView,
    wire: Option<Seq<u8>>,
) -> bool {
    &&& values_present(value) == 1
    &&& value.value_type == expected_type
    &&& if expected_type == "boolean"@ {
        value.boolean_value is Some
    } else if expected_type == "string"@ {
        value.string_value matches Some(text) && encode_utf8(text).len() <= MAX_STRING_BYTES
    } else if expected_type == "integer"@ {
        value.integer_value matches Some(text) && i64_value(text) is Some
    } else if expected_type == "double"@ {
        value.double_value matches Some(number) && number.finite()
    } else if expected_type == "json"@ {
        value.json_value is Some && (wire matches Some(bytes) && bytes.len() <= MAX_JSON_BYTES)
    } else {
        false
    }
}

/// What the JSON value takes on the wire, where there is one and it is a JSON object.
pub open spec fn value_wire(value: ValueView) -> Option<Seq<u8>> {
    match value.json_value {
        Some(text) => json_object_wire(text),
        None => None,
    }
}

/// The value is of the expected type.
pub open spec fn value_valid(expected_type: Seq<char>, value: ValueView) -> bool {
    value_fits(expected_type, value, value_wire(value))
}

/// The bytes of an optional run of bytes.
pub open spec fn optional_bytes(wire: Option<Vec<u8>>) -> Option<Seq<u8>> {
    match wire {
        Some(bytes) => Some(bytes@),
        None => None,
    }
}

fn count(present: bool) -> (n: u8)
    ensures
        n == (if present { 1int } else { 0 }),
{
    if present {
        1
    } else {
        0
    }
}

/// Whether the value is of the expected type, given what its JSON value takes on the wire.
pub fn valid_value_on_wire(expected_type: &str, value: &ValueRecord, wire: Option<Vec<u8>>) -> (valid:
    bool)
    ensures
        valid == value_fits(expected_type@, value@, optional_bytes(wire)),
{
    let present: u8 = count(value.boolean_value.is_some()) + count(value.string_value.is_some())
        + count(value.integer_value.is_some()) + count(value.double_value.is_some()) + count(
        value.json_value.is_some(),
    );
    if present != 1 || !text_equal(value.value_type.as_str(), expected_type) {
        return false;
    }
    if text_equal(expected_type, "boolean") {
        value.boolean_value.is_some()
    } else if text_equal(expected_type, "string") {
        match &value.string_value {
            Some(text) => text.as_str().as_bytes().len() <= MAX_STRING_BYTES,
            None => false,
        }
    } else if text_equal(expected_type, "integer") {
        match &value.integer_value {
            Some(text) => parse_i64(text.as_str()).is_some(),
            None => false,
        }
    } else if text_equal(expected_type, "double") {
        match value.double_value {
            Some(number) => number.is_finite(),
            None => false,
        }
    } else if text_equal(expected_type, "json") {
        match wire {
            Some(bytes) => value.json_value.is_some() && bytes.len() <= MAX_JSON_BYTES,
            None => false,
        }
    } else {
        false
    }
}

/// Whether the value is of the expected type.
pub fn valid_value(expected_type: &str, value: &ValueRecord) -> (valid: bool)
    ensures
        valid == value_valid(expected_type@, value@),
{
    let wire = match &value.json_value {
        Some(text) => match object_wire(text.as_str()) {
            Ok(bytes) => Some(bytes),
            Err(_) => None,
        },
        None => None,
    };
    valid_value_on_wire(expected_type, value, wire)
}

/// The keys of the variants, in order.
pub open spec fn variant_keys(definition: DefinitionView) -> Seq<Seq<char>> {
    definition.variants.map_values(|variant: VariantView| variant.variant_key)
}

/// The ids of the targeting rules, in order.
pub open spec fn rule_ids(definition: DefinitionView) -> Seq<Seq<char>> {
    definition.targeting_rules.map_values(|rule: RuleView| rule.rule_id)
}

/// The variants' keys that the rollout names, in order.
pub open spec fn rollout_keys(definition: DefinitionView) -> Seq<Seq<char>> {
    definition.percentage_rollout.map_values(|item: RolloutView| item.variant_key)
}

/// There are variants, each with a key of its own, and the fallthrough is one of them.
pub open spec fn variants_named(definition: DefinitionView) -> bool {
    &&& definition.variants.len() > 0
    &&& variant_keys(definition).no_duplicates()
    &&& variant_keys(definition).contains(definition.fallthrough_variant)
}

/// Every variant's value is of the expected type.
pub open spec fn values_typed(value_type: Seq<char>, definition: DefinitionView) -> bool {
    forall|i: int|
        0 <= i < definition.variants.len() ==> value_valid(
            value_type,
            (#[trigger] definition.variants[i]).value,
        )
}

/// The operator is known, and the rule has as many comparison values as it takes.
pub open spec fn operands_fit(rule: RuleView) -> bool {
    if rule.operator == "equals"@ || rule.operator == "not_equals"@ || rule.operator
        == "contains"@ {
        rule.comparison_values.len() == 1
    } else if rule.operator == "one_of"@ {
        rule.comparison_values.len() > 0
    } else {
        false
    }
}

/// The rules have ids of their own, name variants, and have the operands that they take.
pub open spec fn rules_sound(definition: DefinitionView) -> bool {
    &&& rule_ids(definition).no_duplicates()
    &&& forall|i: int|
        0 <= i < definition.targeting_rules.len() ==> variant_keys(definition).contains(
            (#[trigger] definition.targeting_rules[i]).variant_key,
        ) && operands_fit(definition.targeting_rules[i])
}

/// The basis points of a rollout.
pub open spec fn total_points(rollout: Seq<RolloutView>) -> int
    decreases rollout.len(),
{
    if rollout.len() == 0 {
        0
    } else {
        total_points(rollout.drop_last()) + rollout.last().basis_points
    }
}

/// The rollout names variants, each at most once and with a positive share, and gives away no more
/// than the whole.
pub open spec fn rollout_sound(definition: DefinitionView) -> bool {
    &&& rollout_keys(definition).no_duplicates()
    &&& total_points(definition.percentage_rollout) <= WHOLE
    &&& forall|i: int|
        0 <= i < definition.percentage_rollout.len() ==> (
        #[trigger] definition.percentage_rollout[i]).basis_points > 0 && variant_keys(
            definition,
        ).contains(definition.percentage_rollout[i].variant_key)
}

/// Why a ruleset cannot be published for a flag of the type; nothing where it can.
pub open spec fn ruleset_failure(
    value_type: Seq<char>,
    definition: DefinitionView,
) -> Option<DomainFailure> {
    if !variants_named(definition) {
        Some(DomainFailure::InvalidRuleset)
    } else if !values_typed(value_type, definition) {
        Some(DomainFailure::TypeMismatch)
    } else if !rules_sound(definition) || !rollout_sound(definition) {
        Some(DomainFailure::InvalidRuleset)
    } else {
        None
    }
}

/// The characters of each text of a list.
pub open spec fn keys_of(list: Seq<&str>) -> Seq<Seq<char>> {
    list.map_values(|key: &str| key@)
}

/// Whether the list holds the key.
fn lists(keys: &Vec<&str>, key: &str) -> (found: bool)
    ensures
        found == keys_of(keys@).contains(key@),
{
    let mut i: usize = 0;
    while i < keys.len()
        invariant
            i <= keys@.len(),
            forall|j: int| 0 <= j < i ==> keys_of(keys@)[j] != key@,
        decreases keys@.len() - i,
    {
        if text_equal(keys[i], key) {
            assert(keys_of(keys@)[i as int] == key@);
            return true;
        }
        i += 1;
    }
    false
}

/// Whether no key stands in the list twice.
fn all_distinct(keys: &Vec<&str>) -> (distinct: bool)
    ensures
        distinct == keys_of(keys@).no_duplicates(),
{
    let ghost list = keys_of(keys@);
    let mut i: usize = 0;
    while i < keys.len()
        invariant
            i <= keys@.len(),
            list == keys_of(keys@),
            forall|a: int, b: int| 0 <= a < b < i ==> list[a] != list[b],
        decreases keys@.len() - i,
    {
        let mut j: usize = 0;
        while j < i
            invariant
                j <= i < keys@.len(),
                list == keys_of(keys@),
                forall|a: int| 0 <= a < j ==> list[a] != list[i as int],
            decreases i - j,
        {
            if text_equal(keys[j], keys[i]) {
                assert(list[j as int] == list[i as int]);
                return false;
            }
            j += 1;
        }
        i += 1;
    }
    true
}

/// Lists the variants' keys.
fn list_variant_keys(definition: &RulesetDefinition) -> (keys: Vec<&str>)
    ensures
        keys_of(keys@) == variant_keys(definition@),
{
    let mut keys: Vec<&str> = Vec::new();
    let mut i: usize = 0;
    while i < definition.variants.len()
        invariant
            i <= definition.variants@.len(),
            keys@.len() == i,
            forall|j: int|
                0 <= j < i ==> (#[trigger] keys@[j])@ == definition.variants@[j].variant_key@,
        decreases definition.variants@.len() - i,
    {
        keys.push(definition.variants[i].variant_key.as_str());
        i += 1;
    }
    assert(keys_of(keys@) =~= variant_keys(definition@));
    keys
}

/// Lists the rules' ids.
fn list_rule_ids(definition: &RulesetDefinition) -> (keys: Vec<&str>)
    ensures
        keys_of(keys@) == rule_ids(definition@),
{
    let mut keys: Vec<&str> = Vec::new();
    let mut i: usize = 0;
    while i < definition.targeting_rules.len()
        invariant
            i <= definition.targeting_rules@.len(),
            keys@.len() == i,
            forall|j: int|
                0 <= j < i ==> (#[trigger] keys@[j])@ == definition.targeting_rules@[j].rule_id@,
        decreases definition.targeting_rules@.len() - i,
    {
        keys.push(definition.targeting_rules[i].rule_id.as_str());
        i += 1;
    }
    assert(keys_of(keys@) =~= rule_ids(definition@));
    keys
}

/// Lists the variants' keys that the rollout names.
fn list_rollout_keys(definition: &RulesetDefinition) -> (keys: Vec<&str>)
    ensures
        keys_of(keys@) == rollout_keys(definition@),
{
    let mut keys: Vec<&str> = Vec::new();
    let mut i: usize = 0;
    while i < definition.percentage_rollout.len()
        invariant
            i <= definition.percentage_rollout@.len(),
            keys@.len() == i,
            forall|j: int|
                0 <= j < i ==> (#[trigger] keys@[j])@
                    == definition.percentage_rollout@[j].variant_key@,
        decreases definition.percentage_rollout@.len() - i,
    {
        keys.push(definition.percentage_rollout[i].variant_key.as_str());
        i += 1;
    }
    assert(keys_of(keys@) =~= rollout_keys(definition@));
    keys
}

/// Whether every variant's value is of the type.
fn check_values(value_type: &str, definition: &RulesetDefinition) -> (typed: bool)
    ensures
        typed == values_typed(value_type@, definition@),
{
    let mut i: usize = 0;
    while i < definition.variants.len()
        invariant
            i <= definition.variants@.len(),
            forall|j: int|
                0 <= j < i ==> value_valid(
                    value_type@,
                    (#[trigger] definition@.variants[j]).value,
                ),
        decreases definition.variants@.len() - i,
    {
        assert(definition@.variants[i as int] == definition.variants@[i as int]@);
        if !valid_value(value_type, &definition.variants[i].value) {
            return false;
        }
        i += 1;
    }
    true
}

/// Whether the operator is known and the rule has the operands that it takes.
fn check_operands(rule: &TargetingRuleRecord) -> (fit: bool)
    ensures
        fit == operands_fit(rule@),
{
    let operator = rule.operator.as_str();
    if text_equal(operator, "equals") || text_equal(operator, "not_equals") || text_equal(
        operator,
        "contains",
    ) {
        rule.comparison_values.len() == 1
    } else if text_equal(operator, "one_of") {
        rule.comparison_values.len() > 0
    } else {
        false
    }
}

/// Whether the rules are sound.
fn check_rules(definition: &RulesetDefinition, variants: &Vec<&str>) -> (sound: bool)
    requires
        keys_of(variants@) == variant_keys(definition@),
    ensures
        sound == rules_sound(definition@),
{
    let ids = list_rule_ids(definition);
    if !all_distinct(&ids) {
        return false;
    }
    let mut i: usize = 0;
    while i < definition.targeting_rules.len()
        invariant
            i <= definition.targeting_rules@.len(),
            keys_of(variants@) == variant_keys(definition@),
            forall|j: int|
                0 <= j < i ==> variant_keys(definition@).contains(
                    (#[trigger] definition@.targeting_rules[j]).variant_key,
                ) && operands_fit(definition@.targeting_rules[j]),
        decreases definition.targeting_rules@.len() - i,
    {
        let rule = &definition.targeting_rules[i];
        assert(definition@.targeting_rules[i as int] == rule@);
        if !lists(variants, rule.variant_key.as_str()) {
            return false;
        }
        if !check_operands(rule) {
            return false;
        }
        i += 1;
    }
    true
}

/// The basis points of a rollout grow with each item of a positive share.
proof fn lemma_total_grows(rollout: Seq<RolloutView>, k: int)
    requires
        0 <= k <= rollout.len(),
        forall|i: int| k <= i < rollout.len() ==> (#[trigger] rollout[i]).basis_points > 0,
    ensures
        total_points(rollout.take(k)) <= total_points(rollout),
    decreases rollout.len(),
{
    if k < rollout.len() {
        assert(rollout.take(k) =~= rollout.drop_last().take(k));
        lemma_total_grows(rollout.drop_last(), k);
        assert(rollout[rollout.len() - 1].basis_points > 0);
    } else {
        assert(rollout.take(k) =~= rollout);
    }
}

/// Whether the rollout is sound.
fn check_rollout(definition: &RulesetDefinition, variants: &Vec<&str>) -> (sound: bool)
    requires
        keys_of(variants@) == variant_keys(definition@),
    ensures
        sound == rollout_sound(definition@),
{
    let named = list_rollout_keys(definition);
    if !all_distinct(&named) {
        return false;
    }
    let ghost rollout = definition@.percentage_rollout;
    let mut total: i64 = 0;
    let mut i: usize = 0;
    assert(rollout.take(0) =~= Seq::<RolloutView>::empty());
    while i < definition.percentage_rollout.len()
        invariant
            i <= definition.percentage_rollout@.len(),
            rollout == definition@.percentage_rollout,
            rollout.len() == definition.percentage_rollout@.len(),
            keys_of(variants@) == variant_keys(definition@),
            total == total_points(rollout.take(i as int)),
            0 <= total <= WHOLE,
            forall|j: int|
                0 <= j < i ==> (#[trigger] rollout[j]).basis_points > 0 && variant_keys(
                    definition@,
                ).contains(rollout[j].variant_key),
        decreases definition.percentage_rollout@.len() - i,
    {
        let item = &definition.percentage_rollout[i];
        assert(rollout[i as int] == item@);
        if item.basis_points <= 0 {
            return false;
        }
        if !lists(variants, item.variant_key.as_str()) {
            return false;
        }
        let ghost longer = rollout.take(i + 1);
        assert(longer.drop_last() =~= rollout.take(i as int));
        assert(longer.last() == rollout[i as int]);
        if item.basis_points > WHOLE - total {
            proof {
                if rollout_sound(definition@) {
                    lemma_total_grows(rollout, i + 1);
                }
            }
            return false;
        }
        total = total + item.basis_points;
        i += 1;
    }
    assert(rollout.take(i as int) =~= rollout);
    true
}

/// Whether a ruleset can be published for a flag of the type. `TypeMismatch` is for a variant
/// whose value is not of the type, `InvalidRuleset` for everything else; the variants' keys are
/// looked at before their values, and their values before the rules and the rollout.
pub fn validate_ruleset(value_type: &str, definition: &RulesetDefinition) -> (result: Result<
    (),
    StorageError,
>)
    ensures
        result == (match ruleset_failure(value_type@, definition@) {
            None => Ok(()),
            Some(failure) => Err(StorageError::Domain(failure)),
        }),
{
    let variants = list_variant_keys(definition);
    if definition.variants.len() == 0 || !all_distinct(&variants) || !lists(
        &variants,
        definition.fallthrough_variant.as_str(),
    ) {
        return Err(StorageError::from(DomainFailure::InvalidRuleset));
    }
    if !check_values(value_type, definition) {
        return Err(StorageError::from(DomainFailure::TypeMismatch));
    }
    if !check_rules(definition, &variants) || !check_rollout(definition, &variants) {
        return Err(StorageError::from(DomainFailure::InvalidRuleset));
    }
    Ok(())
}

} // verus!
