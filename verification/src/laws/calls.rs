//! What the functions of an evaluation answer, told of the calls themselves.

use vstd::prelude::*;
use vstd::utf8::encode_utf8;
use crate::bucket::{bucket_of, deterministic_bucket, digest_bucket, sha256_digest};
use crate::choice::{
    attributes_view, choice, choose_variant, choose_variant_in_bucket, rule_matches, variant,
};
use crate::decimal::{
    i64_text, i64_value, integer_text, lemma_integer_round_trip, parse_i64, u64_text,
};
use crate::domain::{
    optional_str, optional_text, owned_option, same_value, same_value_given, DomainFailure, Double,
    ErrorView, EvaluationRecord, PublishedRuleset, RulesetDefinition, StorageError,
    TargetingRuleRecord, ValueRecord, VariantRecord,
};
use crate::evaluation::{
    evaluate_one, evaluation_id, receipt_draft, subject_of, FlagState, ReceiptDraft, Request, Stamp,
    Subject,
};
use crate::json::{json_object_wire, JsonValue};
use crate::keyed::KeyedMap;
use crate::page::start_after;
use crate::ruleset::{ruleset_failure, valid_value, valid_value_on_wire, validate_ruleset};
use crate::stamp::{format_timestamp, optional_timestamp, rfc3339_text};
use crate::text::{
    bytes_equal, characters, occurs, occurs_at, text_contains, text_equal, text_replaced,
};
use super::buckets::{leading_number, lemma_bucket_is_of_the_four_keys, lemma_bucket_of_digest};
use super::rules::{
    attribute_text, first_rule, first_with_key, in_share, lemma_first_rule_names_the_variant,
    lemma_first_variant, lemma_rest_falls_through, lemma_share_names_the_variant, no_rule,
    points_before,
};
use super::rulesets::{
    has_named_variants, has_sound_rollout, has_sound_rules, has_typed_values,
    lemma_ruleset_is_refused_for_what_it_lacks,
};
use super::texts::{lemma_replacing_goes_on, lemma_text_without_it_is_kept};
use super::values::{
    holds_boolean, holds_double, holds_integer, holds_json, holds_string,
    lemma_json_is_valid_by_its_object, lemma_magnitude_tells_finite_from_nan,
    lemma_value_is_valid_for_its_type, lemma_values_are_equal_by_their_fields, magnitude, opposite,
};

verus! {

/// A value meets a rule with the operator `equals` and one comparison value exactly if its text is
/// that value; and then it does not meet the rule with `not_equals` and the same value, nor the
/// other way round.
pub proof fn lemma_value_equals_or_not(
    value: &JsonValue,
    rule: &TargetingRuleRecord,
    other: &TargetingRuleRecord,
    matched: bool,
    unmatched: bool,
)
    requires
        call_ensures(rule_matches, (value, rule), matched),
        call_ensures(rule_matches, (value, other), unmatched),
        rule.operator@ == "equals"@,
        other.operator@ == "not_equals"@,
        rule.comparison_values@.len() == 1,
        other.comparison_values@ == rule.comparison_values@,
    ensures
        matched <==> attribute_text(*value) == rule.comparison_values@[0]@,
        unmatched <==> attribute_text(*value) != rule.comparison_values@[0]@,
        matched == !unmatched,
{
    reveal_strlit("equals");
    reveal_strlit("not_equals");
    assert("equals"@.len() != "not_equals"@.len());
    assert(rule@.comparison_values[0] == rule.comparison_values@[0]@);
    assert(other@.comparison_values[0] == rule.comparison_values@[0]@);
}

/// A value meets a rule with the operator `contains` and one comparison value exactly if its text
/// is that value with some characters before it and some after it.
pub proof fn lemma_value_contains(value: &JsonValue, rule: &TargetingRuleRecord, matched: bool)
    requires
        call_ensures(rule_matches, (value, rule), matched),
        rule.operator@ == "contains"@,
        rule.comparison_values@.len() == 1,
    ensures
        matched <==> exists|before: Seq<char>, after: Seq<char>|
            attribute_text(*value) == #[trigger] (before + rule.comparison_values@[0]@ + after),
{
    reveal_strlit("equals");
    reveal_strlit("not_equals");
    reveal_strlit("contains");
    assert("contains"@.len() == 8 && "equals"@.len() == 6 && "not_equals"@.len() == 10);
    let wanted = rule.comparison_values@[0]@;
    assert(rule@.comparison_values[0] == wanted);
    lemma_occurs_between(attribute_text(*value), wanted);
}

/// A text holds another exactly if it is that text with some characters before it and some after
/// it.
proof fn lemma_occurs_between(text: Seq<char>, wanted: Seq<char>)
    ensures
        occurs(text, wanted) <==> exists|before: Seq<char>, after: Seq<char>|
            text == #[trigger] (before + wanted + after),
{
    if occurs(text, wanted) {
        let at = choose|at: int| occurs_at(text, wanted, at);
        let before = text.take(at);
        let after = text.skip(at + wanted.len());
        assert(text =~= before + wanted + after);
    }
    if exists|before: Seq<char>, after: Seq<char>| text == #[trigger] (before + wanted + after) {
        let (before, after) = choose|before: Seq<char>, after: Seq<char>|
            text == #[trigger] (before + wanted + after);
        let at = before.len() as int;
        assert(text.subrange(at, at + wanted.len()) =~= wanted);
        assert(occurs_at(text, wanted, at));
    }
}

/// A value meets a rule with the operator `one_of` exactly if its text is one of the comparison
/// values.
pub proof fn lemma_value_is_one_of(value: &JsonValue, rule: &TargetingRuleRecord, matched: bool)
    requires
        call_ensures(rule_matches, (value, rule), matched),
        rule.operator@ == "one_of"@,
    ensures
        matched <==> exists|i: int|
            0 <= i < rule.comparison_values@.len() && attribute_text(*value) == (
            #[trigger] rule.comparison_values@[i])@,
{
    reveal_strlit("equals");
    reveal_strlit("not_equals");
    reveal_strlit("contains");
    reveal_strlit("one_of");
    assert("one_of"@[0] == 'o' && "equals"@[0] == 'e' && "not_equals"@[0] == 'n' && "contains"@[0]
        == 'c');
    let values = rule@.comparison_values;
    let text = attribute_text(*value);
    assert forall|i: int| 0 <= i < values.len() implies values[i] == (
    #[trigger] rule.comparison_values@[i])@ by {}
    if values.contains(text) {
        let i = choose|i: int| 0 <= i < values.len() && values[i] == text;
        assert(rule.comparison_values@[i]@ == text);
    }
    if exists|i: int|
        0 <= i < rule.comparison_values@.len() && text == (
        #[trigger] rule.comparison_values@[i])@ {
        let i = choose|i: int|
            0 <= i < rule.comparison_values@.len() && text == (
            #[trigger] rule.comparison_values@[i])@;
        assert(values[i] == text);
    }
}

/// No value meets a rule whose operator has any other name.
pub proof fn lemma_value_meets_no_unknown_operator(
    value: &JsonValue,
    rule: &TargetingRuleRecord,
    matched: bool,
)
    requires
        call_ensures(rule_matches, (value, rule), matched),
        rule.operator@ != "equals"@,
        rule.operator@ != "not_equals"@,
        rule.operator@ != "contains"@,
        rule.operator@ != "one_of"@,
    ensures
        !matched,
{
}

/// A variant is found by its key: the first that has it, and a ruleset without it is invalid.
pub proof fn lemma_variant_is_found_by_its_key(
    definition: &RulesetDefinition,
    key: &str,
    result: Result<&VariantRecord, StorageError>,
)
    requires
        call_ensures(variant, (definition, key), result),
    ensures
        match result {
            Ok(found) => exists|i: int|
                0 <= i < definition.variants@.len() && #[trigger] definition.variants@[i] == *found
                    && found.variant_key@ == key@ && forall|j: int|
                    0 <= j < i ==> (#[trigger] definition.variants@[j]).variant_key@ != key@,
            Err(error) => error == StorageError::Domain(DomainFailure::InvalidRuleset)
                && forall|j: int|
                0 <= j < definition.variants@.len() ==> (
                #[trigger] definition.variants@[j]).variant_key@ != key@,
        },
{
    let variants = definition@.variants;
    assert forall|j: int| 0 <= j < variants.len() implies variants[j] == (
    #[trigger] definition.variants@[j])@ by {}
    lemma_first_variant(variants, key@);
    match crate::choice::variant_position(variants, key@) {
        Some(i) => {
            assert(definition.variants@[i] == *result->Ok_0);
            assert forall|j: int| 0 <= j < i implies (
            #[trigger] definition.variants@[j]).variant_key@ != key@ by {
                assert(variants[j].variant_key != key@);
            }
        },
        None => {
            assert forall|j: int| 0 <= j < definition.variants@.len() implies (
            #[trigger] definition.variants@[j]).variant_key@ != key@ by {
                assert(variants[j].variant_key != key@);
            }
        },
    }
}

/// The bucket of the four keys is the number in the first eight bytes of the digest of the keys,
/// each followed by a zero byte, modulo ten thousand.
pub proof fn lemma_bucket_is_computed(
    organization_id: &str,
    environment_key: &str,
    flag_key: &str,
    targeting_key: &str,
    bucket: u64,
)
    requires
        call_ensures(
            deterministic_bucket,
            (organization_id, environment_key, flag_key, targeting_key),
            bucket,
        ),
    ensures
        bucket < 10_000,
        ({
            let digest = sha256_digest(
                encode_utf8(organization_id@) + seq![0u8] + encode_utf8(environment_key@) + seq![
                    0u8,
                ] + encode_utf8(flag_key@) + seq![0u8] + encode_utf8(targeting_key@) + seq![0u8],
            );
            digest.len() >= 8 ==> bucket == leading_number(digest) % 10_000
        }),
{
    lemma_bucket_is_of_the_four_keys(
        organization_id@,
        environment_key@,
        flag_key@,
        targeting_key@,
    );
    let digest = sha256_digest(
        encode_utf8(organization_id@) + seq![0u8] + encode_utf8(environment_key@) + seq![0u8]
            + encode_utf8(flag_key@) + seq![0u8] + encode_utf8(targeting_key@) + seq![0u8],
    );
    if digest.len() >= 8 {
        lemma_bucket_of_digest(digest);
    }
}

/// The bucket of a digest is the number in its first eight bytes, modulo ten thousand.
pub proof fn lemma_digest_gives_the_bucket(digest: &[u8], bucket: u64)
    requires
        call_ensures(digest_bucket, (digest,), bucket),
        digest@.len() >= 8,
    ensures
        bucket == leading_number(digest@) % 10_000,
{
    lemma_bucket_of_digest(digest@);
}

/// What a choice gives in a bucket: the variant that the first applicable rule names; else the
/// variant of the share that the bucket lies in; else the fallthrough; and why.
pub proof fn lemma_choice_in_bucket(
    bucket: u64,
    attributes: &KeyedMap<JsonValue>,
    definition: &RulesetDefinition,
    result: Result<(&VariantRecord, &'static str), StorageError>,
    i: int,
    at: int,
)
    requires
        call_ensures(choose_variant_in_bucket, (bucket, attributes, definition), result),
        forall|j: int|
            0 <= j < definition@.percentage_rollout.len() ==> (
            #[trigger] definition@.percentage_rollout[j]).basis_points >= 0,
    ensures
        ({
            let rules = definition@.targeting_rules;
            let rollout = definition@.percentage_rollout;
            let context = attributes_view(attributes@);
            let variants = definition@.variants;
            &&& first_rule(rules, context, i) && first_with_key(
                variants,
                at,
                rules[i].variant_key,
            ) ==> given(result, definition, at, "target_match"@)
            &&& no_rule(rules, context) && in_share(rollout, i, bucket as int) && first_with_key(
                variants,
                at,
                rollout[i].variant_key,
            ) ==> given(result, definition, at, "percentage_rollout"@)
            &&& no_rule(rules, context) && points_before(rollout, rollout.len() as int) <= bucket
                && first_with_key(variants, at, definition.fallthrough_variant@) ==> given(
                result,
                definition,
                at,
                "fallthrough"@,
            )
        }),
{
    lemma_choice_given(
        bucket as int,
        attributes,
        definition,
        result,
        i,
        at,
    );
}

/// The result is the variant at the position, for the reason.
pub open spec fn given(
    result: Result<(&VariantRecord, &'static str), StorageError>,
    definition: &RulesetDefinition,
    at: int,
    reason: Seq<char>,
) -> bool {
    &&& result is Ok
    &&& *result->Ok_0.0 == definition.variants@[at]
    &&& result->Ok_0.1@ == reason
}

proof fn lemma_choice_given(
    bucket: int,
    attributes: &KeyedMap<JsonValue>,
    definition: &RulesetDefinition,
    result: Result<(&VariantRecord, &'static str), StorageError>,
    i: int,
    at: int,
)
    requires
        bucket >= 0,
        crate::choice::picks(
            result,
            definition,
            choice(definition@, attributes_view(attributes@), bucket),
        ),
        forall|j: int|
            0 <= j < definition@.percentage_rollout.len() ==> (
            #[trigger] definition@.percentage_rollout[j]).basis_points >= 0,
    ensures
        ({
            let rules = definition@.targeting_rules;
            let rollout = definition@.percentage_rollout;
            let context = attributes_view(attributes@);
            let variants = definition@.variants;
            &&& first_rule(rules, context, i) && first_with_key(
                variants,
                at,
                rules[i].variant_key,
            ) ==> given(result, definition, at, "target_match"@)
            &&& no_rule(rules, context) && in_share(rollout, i, bucket) && first_with_key(
                variants,
                at,
                rollout[i].variant_key,
            ) ==> given(result, definition, at, "percentage_rollout"@)
            &&& no_rule(rules, context) && points_before(rollout, rollout.len() as int) <= bucket
                && first_with_key(variants, at, definition.fallthrough_variant@) ==> given(
                result,
                definition,
                at,
                "fallthrough"@,
            )
        }),
{
    let rules = definition@.targeting_rules;
    let rollout = definition@.percentage_rollout;
    let context = attributes_view(attributes@);
    let variants = definition@.variants;
    if first_rule(rules, context, i) && first_with_key(variants, at, rules[i].variant_key) {
        lemma_first_rule_names_the_variant(definition@, context, bucket, i, at);
    }
    if no_rule(rules, context) {
        if in_share(rollout, i, bucket) && first_with_key(variants, at, rollout[i].variant_key) {
            lemma_share_names_the_variant(definition@, context, bucket, i, at);
        }
        if points_before(rollout, rollout.len() as int) <= bucket && first_with_key(
            variants,
            at,
            definition.fallthrough_variant@,
        ) {
            lemma_rest_falls_through(definition@, context, bucket, at);
        }
    }
}

/// What a choice gives is what it gives in the bucket of the four keys.
pub proof fn lemma_choice_is_in_the_bucket_of_the_keys(
    organization_id: &str,
    environment_key: &str,
    flag_key: &str,
    targeting_key: &str,
    attributes: &KeyedMap<JsonValue>,
    definition: &RulesetDefinition,
    result: Result<(&VariantRecord, &'static str), StorageError>,
    i: int,
    at: int,
)
    requires
        call_ensures(
            choose_variant,
            (
                organization_id,
                environment_key,
                flag_key,
                targeting_key,
                attributes,
                definition,
            ),
            result,
        ),
        forall|j: int|
            0 <= j < definition@.percentage_rollout.len() ==> (
            #[trigger] definition@.percentage_rollout[j]).basis_points >= 0,
    ensures
        ({
            let bucket = bucket_of(
                organization_id@,
                environment_key@,
                flag_key@,
                targeting_key@,
            );
            let rules = definition@.targeting_rules;
            let rollout = definition@.percentage_rollout;
            let context = attributes_view(attributes@);
            let variants = definition@.variants;
            &&& first_rule(rules, context, i) && first_with_key(
                variants,
                at,
                rules[i].variant_key,
            ) ==> given(result, definition, at, "target_match"@)
            &&& no_rule(rules, context) && in_share(rollout, i, bucket) && first_with_key(
                variants,
                at,
                rollout[i].variant_key,
            ) ==> given(result, definition, at, "percentage_rollout"@)
            &&& no_rule(rules, context) && points_before(rollout, rollout.len() as int) <= bucket
                && first_with_key(variants, at, definition.fallthrough_variant@) ==> given(
                result,
                definition,
                at,
                "fallthrough"@,
            )
        }),
{
    let bucket = bucket_of(organization_id@, environment_key@, flag_key@, targeting_key@);
    assert(bucket >= 0);
    lemma_choice_given(bucket, attributes, definition, result, i, at);
}

/// A value is found valid exactly if it says the type, holds a value of that type and nothing else,
/// and the value is within the bounds of the type.
pub proof fn lemma_value_is_found_valid(
    expected: &str,
    value: &ValueRecord,
    wire: Option<Vec<u8>>,
    on_wire: bool,
    valid: bool,
)
    requires
        call_ensures(valid_value_on_wire, (expected, value, wire), on_wire),
        call_ensures(valid_value, (expected, value), valid),
    ensures
        on_wire <==> value.value_type@ == expected@ && {
            ||| holds_boolean(*value)
            ||| holds_string(*value) && encode_utf8(value.string_value->0@).len() <= 4000
            ||| holds_integer(*value) && i64_value(value.integer_value->0@) is Some
            ||| holds_double(*value) && magnitude(value.double_value->0) < 0x7ff0_0000_0000_0000
            ||| holds_json(*value) && wire is Some && wire->0@.len() <= 16384
        },
        valid <==> value.value_type@ == expected@ && {
            ||| holds_boolean(*value)
            ||| holds_string(*value) && encode_utf8(value.string_value->0@).len() <= 4000
            ||| holds_integer(*value) && i64_value(value.integer_value->0@) is Some
            ||| holds_double(*value) && magnitude(value.double_value->0) < 0x7ff0_0000_0000_0000
            ||| holds_json(*value) && json_object_wire(value.json_value->0@) is Some
                && json_object_wire(value.json_value->0@)->0.len() <= 16384
        },
{
    let bytes = crate::ruleset::optional_bytes(wire);
    lemma_value_is_valid_for_its_type(expected@, *value, bytes);
    let object = crate::ruleset::value_wire(value@);
    lemma_value_is_valid_for_its_type(expected@, *value, object);
    lemma_json_is_valid_by_its_object(expected@, *value);
}

/// A double and its opposite are both found valid, or neither is.
pub proof fn lemma_sign_of_a_double_does_not_matter(
    value: &ValueRecord,
    other: &ValueRecord,
    valid: bool,
    other_valid: bool,
)
    requires
        call_ensures(valid_value, ("double", value), valid),
        call_ensures(valid_value, ("double", other), other_valid),
        holds_double(*value),
        holds_double(*other),
        opposite(value.double_value->0, other.double_value->0),
    ensures
        valid == other_valid,
{
    super::values::lemma_validity_ignores_the_sign(*value, *other, None);
}

/// A number is found finite or a NaN by its magnitude.
pub proof fn lemma_number_is_told_by_its_magnitude(number: &Double, finite: bool, nan: bool)
    requires
        call_ensures(Double::is_finite, (number,), finite),
        call_ensures(Double::is_nan, (number,), nan),
    ensures
        finite <==> magnitude(*number) < 0x7ff0_0000_0000_0000,
        nan <==> magnitude(*number) > 0x7ff0_0000_0000_0000,
{
    lemma_magnitude_tells_finite_from_nan(*number);
}

/// Values are found equal exactly if they are equal field by field.
pub proof fn lemma_values_are_found_equal(a: &ValueRecord, b: &ValueRecord, same: bool)
    requires
        call_ensures(same_value, (a, b), same),
    ensures
        same ==> a.value_type@ == b.value_type@ && a.boolean_value == b.boolean_value
            && optional_text(a.string_value) == optional_text(b.string_value) && optional_text(
            a.integer_value,
        ) == optional_text(b.integer_value) && (a.json_value is Some <==> b.json_value is Some),
        a.double_value is None && a.json_value is None ==> (same <==> a@ == b@),
{
    lemma_values_are_equal_by_their_fields(*a, *b);
    if a.double_value is None && a.json_value is None && same {
        assert(a@.string_value == b@.string_value);
        assert(a@.integer_value == b@.integer_value);
    }
}

/// Given what comparing the JSON objects gave, values are found equal by their other fields and by
/// that.
pub proof fn lemma_values_are_found_equal_given(
    a: &ValueRecord,
    b: &ValueRecord,
    objects: Option<bool>,
    same: bool,
)
    requires
        call_ensures(same_value_given, (a, b, objects), same),
        a.json_value is Some,
        b.json_value is Some,
    ensures
        same ==> objects == Some(true) && a.value_type@ == b.value_type@ && a.boolean_value
            == b.boolean_value,
        objects == Some(true) && a.value_type@ == b.value_type@ && a.boolean_value
            == b.boolean_value && a@.string_value == b@.string_value && a@.integer_value
            == b@.integer_value && a.double_value is None && b.double_value is None ==> same,
{
}

/// A ruleset is found valid exactly if its variants are named and of the type, and its rules and
/// its rollout are sound; a value of another type is a mismatch, and anything else invalid.
pub proof fn lemma_ruleset_is_validated(
    value_type: &str,
    definition: &RulesetDefinition,
    result: Result<(), StorageError>,
)
    requires
        call_ensures(validate_ruleset, (value_type, definition), result),
    ensures
        result is Ok <==> has_named_variants(*definition) && has_typed_values(
            value_type@,
            *definition,
        ) && has_sound_rules(*definition) && has_sound_rollout(*definition),
        result is Err && has_named_variants(*definition) && !has_typed_values(
            value_type@,
            *definition,
        ) ==> result->Err_0 == StorageError::Domain(DomainFailure::TypeMismatch),
        result is Err && (!has_named_variants(*definition) || has_typed_values(
            value_type@,
            *definition,
        )) ==> result->Err_0 == StorageError::Domain(DomainFailure::InvalidRuleset),
{
    lemma_ruleset_is_refused_for_what_it_lacks(value_type@, *definition);
}

/// The subject of an evaluation has the request's own organization, environment, targeting key and
/// attributes, and the flag that was asked for.
pub proof fn lemma_subject_is_made(request: Request<'_>, flag_key: &str, subject: Subject<'_>)
    requires
        call_ensures(subject_of, (request, flag_key), subject),
    ensures
        subject.organization_id@ == request.organization_id@,
        subject.environment_key@ == request.environment_key@,
        subject.flag_key@ == flag_key@,
        subject.targeting_key@ == request.targeting_key@,
        attributes_view(subject.attributes@) == attributes_view(request.attributes@),
{
    assert(subject@.organization_id == request.organization_id@);
    assert(subject@.environment_key == request.environment_key@);
    assert(subject@.flag_key == flag_key@);
    assert(subject@.targeting_key == request.targeting_key@);
    assert(subject@.attributes == attributes_view(request.attributes@));
}

/// An evaluation answers the variant, with its value, that the ruleset gives in the bucket of the
/// subject's own keys, the reason, the flag and the environment asked for, the ruleset's revision,
/// and the stamp.
pub proof fn lemma_evaluation_is_made(
    flag: FlagState<'_>,
    ruleset: &PublishedRuleset,
    subject: Subject<'_>,
    stamp: Stamp,
    result: Result<EvaluationRecord, StorageError>,
    at: int,
    reason: Seq<char>,
)
    requires
        call_ensures(evaluate_one, (Some(flag), true, Some(ruleset), subject, stamp), result),
        !flag.archived,
        ruleset_failure(flag.value_type@, ruleset.definition@) is None,
        stamp.evaluated_at is Ok,
        choice(
            ruleset.definition@,
            attributes_view(subject.attributes@),
            bucket_of(
                subject.organization_id@,
                subject.environment_key@,
                subject.flag_key@,
                subject.targeting_key@,
            ),
        ) == Some((at, reason)),
    ensures
        result is Ok,
        result->Ok_0.flag_key@ == subject.flag_key@,
        result->Ok_0.environment_key@ == subject.environment_key@,
        result->Ok_0.variant_key@ == ruleset.definition@.variants[at].variant_key,
        result->Ok_0.value@ == ruleset.definition@.variants[at].value,
        result->Ok_0.reason@ == reason,
        result->Ok_0.ruleset_revision@ == ruleset.revision@,
        result->Ok_0.receipt_id@ == stamp.receipt_id@,
        result->Ok_0.evaluated_at@ == stamp.evaluated_at->Ok_0@,
{
    super::evaluation::lemma_evaluation_answers_the_choice(flag, *ruleset, subject, stamp);
    let record = result->Ok_0;
    assert(record@.flag_key == record.flag_key@);
    assert(record@.environment_key == record.environment_key@);
    assert(record@.variant_key == record.variant_key@);
    assert(record@.reason == record.reason@);
    assert(record@.ruleset_revision == record.ruleset_revision@);
    assert(record@.receipt_id == record.receipt_id@);
    assert(record@.evaluated_at == record.evaluated_at@);
    assert(record@.value == record.value@);
}

/// An evaluation is refused for the first thing that is wrong with the flag, the environment or the
/// ruleset, in this order.
pub proof fn lemma_evaluation_is_refused(
    flag: Option<FlagState<'_>>,
    environment_known: bool,
    ruleset: Option<&PublishedRuleset>,
    subject: Subject<'_>,
    stamp: Stamp,
    result: Result<EvaluationRecord, StorageError>,
)
    requires
        call_ensures(evaluate_one, (flag, environment_known, ruleset, subject, stamp), result),
    ensures
        flag is None ==> result is Err && result->Err_0@ == ErrorView::Domain(
            DomainFailure::FlagNotFound,
        ),
        flag is Some && flag->0.archived ==> result is Err && result->Err_0@
            == ErrorView::Domain(DomainFailure::Archived),
        flag is Some && !flag->0.archived && !environment_known ==> result is Err
            && result->Err_0@ == ErrorView::Domain(
            DomainFailure::EnvironmentNotFound,
        ),
        flag is Some && !flag->0.archived && environment_known && ruleset is None ==> result
            is Err && result->Err_0@ == ErrorView::Domain(
            DomainFailure::NoPublishedRuleset,
        ),
{
}

/// The identifier of an evaluation is the command's key, and in a batch the key, a colon and the
/// position.
pub proof fn lemma_evaluation_is_named(operation: &str, key: &str, index: usize, id: String)
    requires
        call_ensures(evaluation_id, (operation, key, index), id),
    ensures
        operation@ == "evaluate"@ ==> id@ == key@,
        operation@ != "evaluate"@ ==> id@ == key@ + ":"@ + integer_text(index as int),
{
}

/// A receipt repeats the record that was answered, beside the identifier of the evaluation and the
/// hash of the context.
pub proof fn lemma_receipt_is_drafted(
    record: &EvaluationRecord,
    id: String,
    context_hash: &str,
    draft: ReceiptDraft,
)
    requires
        call_ensures(receipt_draft, (record, id, context_hash), draft),
    ensures
        draft.receipt_id@ == record.receipt_id@,
        draft.evaluation_id@ == id@,
        draft.flag_key@ == record.flag_key@,
        draft.environment_key@ == record.environment_key@,
        draft.variant_key@ == record.variant_key@,
        draft.reason@ == record.reason@,
        draft.ruleset_revision@ == record.ruleset_revision@,
        draft.context_hash@ == context_hash@,
        draft.evaluated_at@ == record.evaluated_at@,
{
    assert(draft@.receipt_id == record.receipt_id@);
    assert(draft@.evaluation_id == id@);
    assert(draft@.flag_key == record.flag_key@);
    assert(draft@.environment_key == record.environment_key@);
    assert(draft@.variant_key == record.variant_key@);
    assert(draft@.reason == record.reason@);
    assert(draft@.ruleset_revision == record.ruleset_revision@);
    assert(draft@.context_hash == context_hash@);
    assert(draft@.evaluated_at == record.evaluated_at@);
}

/// A number that is written is read back as it was, with or without a sign to write.
pub proof fn lemma_written_number_is_read_back(
    n: i64,
    m: u64,
    a: String,
    b: String,
    text: &str,
    read: Option<i64>,
)
    requires
        call_ensures(i64_text, (n,), a),
        call_ensures(u64_text, (m,), b),
        text@ == a@,
        call_ensures(parse_i64, (text,), read),
    ensures
        read == Some(n),
        n >= 0 && m == n ==> a@ == b@,
{
    lemma_integer_round_trip(n as int);
}

/// A text is read as a number exactly if it stands for one of 64 bits.
pub proof fn lemma_number_is_read(text: &str, read: Option<i64>)
    requires
        call_ensures(parse_i64, (text,), read),
    ensures
        read is Some <==> i64_value(text@) is Some,
        read is Some ==> read->0 == i64_value(text@)->0,
{
}

/// Texts are the same exactly if their characters are; one holds another exactly if it is that one
/// with some characters before it and some after it.
pub proof fn lemma_texts_are_compared(
    a: &str,
    b: &str,
    equal: bool,
    found: bool,
    chars: Vec<char>,
)
    requires
        call_ensures(text_equal, (a, b), equal),
        call_ensures(text_contains, (a, b), found),
        call_ensures(characters, (a,), chars),
    ensures
        equal <==> a@ == b@,
        found <==> exists|before: Seq<char>, after: Seq<char>|
            a@ == #[trigger] (before + b@ + after),
        chars@ == a@,
{
    lemma_occurs_between(a@, b@);
}

/// An optional text is kept as it is when it is owned.
pub proof fn lemma_optional_text_is_kept(text: Option<&str>, owned: Option<String>)
    requires
        call_ensures(owned_option, (text,), owned),
    ensures
        owned is Some <==> text is Some,
        text is Some ==> owned->0@ == text->0@,
{
    assert(optional_text(owned) == optional_str(text));
}

/// A page begins behind the given row, or before all rows.
pub proof fn lemma_page_begins(after: Option<i64>, row: i64)
    requires
        call_ensures(start_after, (after,), row),
    ensures
        after is Some ==> row == after->0,
        after is None ==> row == 0,
{
}

/// An instant is written as RFC 3339 has it, or not at all.
pub proof fn lemma_instant_is_formatted(nanos: i128, result: Result<String, StorageError>)
    requires
        call_ensures(format_timestamp, (nanos,), result),
    ensures
        result is Ok <==> rfc3339_text(nanos as int) is Some,
        result is Ok ==> result->Ok_0@ == rfc3339_text(nanos as int)->0,
        result is Err ==> result->Err_0 is Time,
{
}

/// An optional instant is written as the instant is, and no instant as nothing.
pub proof fn lemma_optional_instant_is_formatted(
    nanos: Option<i128>,
    result: Result<Option<String>, StorageError>,
)
    requires
        call_ensures(optional_timestamp, (nanos,), result),
    ensures
        nanos is None ==> result is Ok && result->Ok_0 is None,
        nanos is Some && rfc3339_text(nanos->0 as int) is Some ==> result is Ok && result->Ok_0
            is Some && Some(result->Ok_0->0@) == rfc3339_text(nanos->0 as int),
        nanos is Some && rfc3339_text(nanos->0 as int) is None ==> result is Err && result->Err_0
            is Time,
{
}

/// Bytes are found equal exactly if they are as many and the same at every place.
pub proof fn lemma_bytes_are_compared(a: &[u8], b: &[u8], equal: bool)
    requires
        call_ensures(bytes_equal, (a, b), equal),
    ensures
        equal <==> a@.len() == b@.len() && forall|i: int|
            0 <= i < a@.len() ==> #[trigger] a@[i] == b@[i],
{
    if a@.len() == b@.len() && (forall|i: int| 0 <= i < a@.len() ==> #[trigger] a@[i] == b@[i]) {
        assert(a@ =~= b@);
    }
}

/// What is to be replaced at the beginning of a text is replaced there, and the rest as it is by
/// itself; and a text without it is kept.
pub proof fn lemma_text_is_replaced(
    text: &str,
    rest: &str,
    from: &str,
    to: &str,
    result: String,
    replaced_rest: String,
)
    requires
        from@.len() > 0,
        call_ensures(text_replaced, (text, from, to), result),
        call_ensures(text_replaced, (rest, from, to), replaced_rest),
    ensures
        text@ == from@ + rest@ ==> result@ == to@ + replaced_rest@,
        text@.len() == rest@.len() + 1 && text@.skip(1) == rest@ && !from@.is_prefix_of(text@)
            ==> result@ == seq![text@[0]] + replaced_rest@,
        !occurs(text@, from@) ==> result@ == text@,
{
    if text@.len() > 0 {
        lemma_replacing_goes_on(rest@, from@, to@, text@[0]);
        if text@.skip(1) == rest@ {
            assert(text@ =~= seq![text@[0]] + rest@);
        }
    }
    if !occurs(text@, from@) {
        lemma_text_without_it_is_kept(text@, from@, to@);
    }
}

/// The text that rules compare is the content of a string, and the JSON text of anything else.
pub proof fn lemma_attribute_is_rendered(value: &JsonValue, text: &str)
    requires
        call_ensures(JsonValue::rendered, (value,), text),
    ensures
        text@ == attribute_text(*value),
{
}

/// A value is found under a key exactly if the map has the key, and it is the value under it.
pub proof fn lemma_map_is_read_by_key<V>(
    map: &KeyedMap<V>,
    key: &str,
    value: Option<&V>,
    found: bool,
)
    requires
        call_ensures(KeyedMap::<V>::get, (map, key), value),
        call_ensures(KeyedMap::<V>::contains_key, (map, key), found),
    ensures
        found <==> map@.contains_key(key@),
        found <==> value is Some,
        value is Some ==> *value->0 == map@[key@],
{
}

} // verus!
