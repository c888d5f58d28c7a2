//! Which rulesets can be published.

use vstd::prelude::*;
use crate::domain::{DomainFailure, RuleView, RulesetDefinition, TargetingRuleRecord};
use crate::ruleset::{
    operands_fit, rollout_keys, rollout_sound, rule_ids, rules_sound, ruleset_failure, value_valid,
    values_typed, variant_keys, variants_named,
};
use super::rules::{lemma_points_add_up, points_before};

verus! {

/// One of the variants has the key.
pub open spec fn names_variant(definition: RulesetDefinition, key: Seq<char>) -> bool {
    exists|i: int|
        0 <= i < definition.variants@.len() && (#[trigger] definition.variants@[i]).variant_key@
            == key
}

/// There is a variant, no two have the same key, and the fallthrough is one of them.
pub open spec fn has_named_variants(definition: RulesetDefinition) -> bool {
    let variants = definition.variants@;
    &&& variants.len() > 0
    &&& forall|i: int, j: int|
        0 <= i < j < variants.len() ==> (#[trigger] variants[i]).variant_key@ != (
        #[trigger] variants[j]).variant_key@
    &&& names_variant(definition, definition.fallthrough_variant@)
}

/// Every variant's value is valid for the type.
pub open spec fn has_typed_values(value_type: Seq<char>, definition: RulesetDefinition) -> bool {
    forall|i: int|
        0 <= i < definition.variants@.len() ==> value_valid(
            value_type,
            (#[trigger] definition.variants@[i]).value@,
        )
}

/// The rule compares with one value, or with one of several.
pub open spec fn takes_its_operands(rule: TargetingRuleRecord) -> bool {
    ||| rule.operator@ == "equals"@ && rule.comparison_values@.len() == 1
    ||| rule.operator@ == "not_equals"@ && rule.comparison_values@.len() == 1
    ||| rule.operator@ == "contains"@ && rule.comparison_values@.len() == 1
    ||| rule.operator@ == "one_of"@ && rule.comparison_values@.len() >= 1
}

/// No two rules have the same id, and each names a variant and has the operands that it takes.
pub open spec fn has_sound_rules(definition: RulesetDefinition) -> bool {
    let rules = definition.targeting_rules@;
    &&& forall|i: int, j: int|
        0 <= i < j < rules.len() ==> (#[trigger] rules[i]).rule_id@ != (
        #[trigger] rules[j]).rule_id@
    &&& forall|i: int|
        0 <= i < rules.len() ==> names_variant(definition, (#[trigger] rules[i]).variant_key@)
            && takes_its_operands(rules[i])
}

/// No two shares are of the same variant, each is positive and of a variant that there is, and
/// together they are at most the whole.
pub open spec fn has_sound_rollout(definition: RulesetDefinition) -> bool {
    let items = definition.percentage_rollout@;
    &&& forall|i: int, j: int|
        0 <= i < j < items.len() ==> (#[trigger] items[i]).variant_key@ != (
        #[trigger] items[j]).variant_key@
    &&& forall|i: int|
        0 <= i < items.len() ==> (#[trigger] items[i]).basis_points >= 1 && names_variant(
            definition,
            items[i].variant_key@,
        )
    &&& points_before(definition@.percentage_rollout, items.len() as int) <= 10_000
}

proof fn lemma_names(definition: RulesetDefinition, key: Seq<char>)
    ensures
        variant_keys(definition@).contains(key) == names_variant(definition, key),
{
    let keys = variant_keys(definition@);
    assert forall|i: int| 0 <= i < keys.len() implies keys[i] == (
    #[trigger] definition.variants@[i]).variant_key@ by {}
    if keys.contains(key) {
        let i = choose|i: int| 0 <= i < keys.len() && keys[i] == key;
        assert(definition.variants@[i].variant_key@ == key);
    }
    if names_variant(definition, key) {
        let i = choose|i: int|
            0 <= i < definition.variants@.len() && (
            #[trigger] definition.variants@[i]).variant_key@ == key;
        assert(keys[i] == key);
    }
}

/// A rule has its operands exactly if its operator is one of the four and it has the one comparison
/// value that the operator compares with, or for `one_of` at least one.
pub proof fn lemma_rule_takes_its_operands(rule: TargetingRuleRecord)
    ensures
        operands_fit(rule@) == takes_its_operands(rule),
{
    reveal_strlit("equals");
    reveal_strlit("not_equals");
    reveal_strlit("contains");
    reveal_strlit("one_of");
    assert("equals"@[0] == 'e' && "not_equals"@[0] == 'n' && "contains"@[0] == 'c' && "one_of"@[0]
        == 'o');
}

proof fn lemma_variants_named(definition: RulesetDefinition)
    ensures
        variants_named(definition@) == has_named_variants(definition),
{
    let keys = variant_keys(definition@);
    let variants = definition.variants@;
    assert(keys.len() == variants.len());
    assert forall|i: int| 0 <= i < keys.len() implies keys[i] == (
    #[trigger] variants[i]).variant_key@ by {}
    lemma_names(definition, definition.fallthrough_variant@);
    if keys.no_duplicates() {
        assert forall|i: int, j: int| 0 <= i < j < variants.len() implies (
        #[trigger] variants[i]).variant_key@ != (#[trigger] variants[j]).variant_key@ by {
            assert(keys[i] != keys[j]);
        }
    }
    if has_named_variants(definition) {
        assert forall|i: int, j: int| 0 <= i < keys.len() && 0 <= j < keys.len() && i
            != j implies keys[i] != keys[j] by {
            if i < j {
                assert(variants[i].variant_key@ != variants[j].variant_key@);
            } else {
                assert(variants[j].variant_key@ != variants[i].variant_key@);
            }
        }
    }
}

proof fn lemma_values_typed(value_type: Seq<char>, definition: RulesetDefinition)
    ensures
        values_typed(value_type, definition@) == has_typed_values(value_type, definition),
{
    let views = definition@.variants;
    let variants = definition.variants@;
    assert forall|i: int| 0 <= i < views.len() implies views[i] == (#[trigger] variants[i])@ by {}
    if values_typed(value_type, definition@) {
        assert forall|i: int| 0 <= i < variants.len() implies value_valid(
            value_type,
            (#[trigger] variants[i]).value@,
        ) by {
            assert(value_valid(value_type, views[i].value));
        }
    }
    if has_typed_values(value_type, definition) {
        assert forall|i: int| 0 <= i < views.len() implies value_valid(
            value_type,
            (#[trigger] views[i]).value,
        ) by {
            assert(value_valid(value_type, variants[i].value@));
        }
    }
}

proof fn lemma_rules_sound(definition: RulesetDefinition)
    ensures
        rules_sound(definition@) == has_sound_rules(definition),
{
    let ids = rule_ids(definition@);
    let views = definition@.targeting_rules;
    let rules = definition.targeting_rules@;
    assert(ids.len() == rules.len());
    assert forall|i: int| 0 <= i < rules.len() implies views[i] == (#[trigger] rules[i])@ && ids[i]
        == rules[i].rule_id@ by {}
    if rules_sound(definition@) {
        assert forall|i: int, j: int| 0 <= i < j < rules.len() implies (
        #[trigger] rules[i]).rule_id@ != (#[trigger] rules[j]).rule_id@ by {
            assert(ids[i] != ids[j]);
        }
        assert forall|i: int| 0 <= i < rules.len() implies names_variant(
            definition,
            (#[trigger] rules[i]).variant_key@,
        ) && takes_its_operands(rules[i]) by {
            assert(variant_keys(definition@).contains(views[i].variant_key));
            lemma_names(definition, rules[i].variant_key@);
            lemma_rule_takes_its_operands(rules[i]);
        }
    }
    if has_sound_rules(definition) {
        assert forall|i: int, j: int|
            0 <= i < ids.len() && 0 <= j < ids.len() && i != j implies ids[i] != ids[j] by {
            if i < j {
                assert(rules[i].rule_id@ != rules[j].rule_id@);
            } else {
                assert(rules[j].rule_id@ != rules[i].rule_id@);
            }
        }
        assert forall|i: int| 0 <= i < views.len() implies variant_keys(definition@).contains(
            (#[trigger] views[i]).variant_key,
        ) && operands_fit(views[i]) by {
            assert(names_variant(definition, rules[i].variant_key@));
            lemma_names(definition, rules[i].variant_key@);
            lemma_rule_takes_its_operands(rules[i]);
        }
    }
}

proof fn lemma_rollout_sound(definition: RulesetDefinition)
    ensures
        rollout_sound(definition@) == has_sound_rollout(definition),
{
    let keys = rollout_keys(definition@);
    let views = definition@.percentage_rollout;
    let items = definition.percentage_rollout@;
    assert(keys.len() == items.len());
    assert forall|i: int| 0 <= i < items.len() implies views[i] == (#[trigger] items[i])@ && keys[i]
        == items[i].variant_key@ by {}
    lemma_points_add_up(views, views.len() as int);
    if rollout_sound(definition@) {
        assert forall|i: int, j: int| 0 <= i < j < items.len() implies (
        #[trigger] items[i]).variant_key@ != (#[trigger] items[j]).variant_key@ by {
            assert(keys[i] != keys[j]);
        }
        assert forall|i: int| 0 <= i < items.len() implies (#[trigger] items[i]).basis_points >= 1
            && names_variant(definition, items[i].variant_key@) by {
            assert(views[i].basis_points > 0);
            lemma_names(definition, items[i].variant_key@);
        }
    }
    if has_sound_rollout(definition) {
        assert forall|i: int, j: int| 0 <= i < keys.len() && 0 <= j < keys.len() && i
            != j implies keys[i] != keys[j] by {
            if i < j {
                assert(items[i].variant_key@ != items[j].variant_key@);
            } else {
                assert(items[j].variant_key@ != items[i].variant_key@);
            }
        }
        assert forall|i: int| 0 <= i < views.len() implies (#[trigger] views[i]).basis_points > 0
            && variant_keys(definition@).contains(views[i].variant_key) by {
            assert(items[i].basis_points >= 1);
            lemma_names(definition, items[i].variant_key@);
        }
    }
}

/// A ruleset can be published for a flag of a type exactly if its variants are named and of that
/// type, and its rules and its rollout are sound. A value of another type is a mismatch; anything
/// else makes the ruleset invalid, and so does a want of named variants, whatever the values.
pub proof fn lemma_ruleset_is_refused_for_what_it_lacks(
    value_type: Seq<char>,
    definition: RulesetDefinition,
)
    ensures
        ruleset_failure(value_type, definition@) is None <==> has_named_variants(definition)
            && has_typed_values(value_type, definition) && has_sound_rules(definition)
            && has_sound_rollout(definition),
        ruleset_failure(value_type, definition@) == Some(DomainFailure::TypeMismatch)
            <==> has_named_variants(definition) && !has_typed_values(value_type, definition),
        ruleset_failure(value_type, definition@) == Some(DomainFailure::InvalidRuleset)
            <==> !has_named_variants(definition) || has_typed_values(value_type, definition) && !(
        has_sound_rules(definition) && has_sound_rollout(definition)),
{
    lemma_variants_named(definition);
    lemma_values_typed(value_type, definition);
    lemma_rules_sound(definition);
    lemma_rollout_sound(definition);
}

/// Whether a rule has the operands that it takes depends on its operator and on how many comparison
/// values it has, not on what they are.
pub proof fn lemma_comparison_value_is_free(rule: RuleView, other: RuleView)
    requires
        other.operator == rule.operator,
        other.comparison_values.len() == rule.comparison_values.len(),
    ensures
        operands_fit(other) == operands_fit(rule),
{
}

} // verus!
