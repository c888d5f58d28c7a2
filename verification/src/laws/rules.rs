//! Which contexts a targeting rule takes, and which variant a ruleset gives.

use vstd::prelude::*;
use crate::choice::{
    attributes_view, choice, first_applicable, lemma_first_rule_decides, lemma_shares_side_by_side,
    rollout_slot, rule_applies, share_holds, text_meets, variant_position, Slot,
};
use crate::domain::{DefinitionView, RolloutView, RuleView, TargetingRuleRecord, VariantView};
use crate::json::{JsonValue, JsonView};
use crate::keyed::KeyedMap;
use crate::ruleset::total_points;
use crate::text::{occurs, occurs_at};

verus! {

/// The text by which an attribute is compared: what a string holds, or the JSON text of anything
/// else.
pub open spec fn attribute_text(value: JsonValue) -> Seq<char> {
    match value {
        JsonValue::Text(content) => content@,
        JsonValue::Other(text) => text@,
    }
}

/// The operators have different names.
proof fn lemma_operators_differ()
    ensures
        "equals"@ != "not_equals"@,
        "equals"@ != "contains"@,
        "equals"@ != "one_of"@,
        "not_equals"@ != "contains"@,
        "not_equals"@ != "one_of"@,
        "contains"@ != "one_of"@,
{
    reveal_strlit("equals");
    reveal_strlit("not_equals");
    reveal_strlit("contains");
    reveal_strlit("one_of");
    assert("equals"@.len() == 6 && "one_of"@.len() == 6 && "equals"@[0] != "one_of"@[0]);
    assert("not_equals"@.len() == 10 && "contains"@.len() == 8);
}

/// A rule never applies to a context that lacks its attribute; to any other it applies by the text
/// of that one attribute.
pub proof fn lemma_rule_looks_at_its_attribute(
    rule: TargetingRuleRecord,
    context: KeyedMap<JsonValue>,
)
    ensures
        rule_applies(rule@, attributes_view(context@)) <==> context@.contains_key(
            rule.attribute@,
        ) && text_meets(attribute_text(context@[rule.attribute@]), rule@),
        forall|value: JsonValue| #[trigger] value@.rendered() == attribute_text(value),
{
    assert forall|value: JsonValue| #[trigger] value@.rendered() == attribute_text(value) by {}
}

/// A rule with the operator `equals` and one comparison value applies exactly to the contexts whose
/// attribute has that very text.
pub proof fn lemma_equals_takes_the_very_text(
    rule: TargetingRuleRecord,
    context: KeyedMap<JsonValue>,
)
    requires
        rule.operator@ == "equals"@,
        rule.comparison_values@.len() == 1,
    ensures
        rule_applies(rule@, attributes_view(context@)) <==> context@.contains_key(
            rule.attribute@,
        ) && attribute_text(context@[rule.attribute@]) == rule.comparison_values@[0]@,
{
    assert(rule@.comparison_values[0] == rule.comparison_values@[0]@);
}

/// A rule with the operator `not_equals` and one comparison value applies exactly to the contexts
/// that have the attribute with another text.
pub proof fn lemma_not_equals_takes_every_other_text(
    rule: TargetingRuleRecord,
    context: KeyedMap<JsonValue>,
)
    requires
        rule.operator@ == "not_equals"@,
        rule.comparison_values@.len() == 1,
    ensures
        rule_applies(rule@, attributes_view(context@)) <==> context@.contains_key(
            rule.attribute@,
        ) && attribute_text(context@[rule.attribute@]) != rule.comparison_values@[0]@,
{
    lemma_operators_differ();
    assert(rule@.comparison_values[0] == rule.comparison_values@[0]@);
}

/// For every text, exactly one of two rules on the same attribute and with the same comparison
/// values meets it: the one with `equals`, or the one with `not_equals`.
pub proof fn lemma_equals_and_not_equals_are_complements(
    rule: TargetingRuleRecord,
    opposite: TargetingRuleRecord,
    context: KeyedMap<JsonValue>,
)
    requires
        rule.operator@ == "equals"@,
        opposite.operator@ == "not_equals"@,
        opposite.attribute@ == rule.attribute@,
        opposite.comparison_values@ == rule.comparison_values@,
        context@.contains_key(rule.attribute@),
    ensures
        rule_applies(rule@, attributes_view(context@)) != rule_applies(
            opposite@,
            attributes_view(context@),
        ),
        forall|text: Seq<char>|
            #![trigger text_meets(text, rule@)]
            text_meets(text, rule@) != text_meets(text, opposite@),
{
    lemma_operators_differ();
}

/// A rule with the operator `contains` and one comparison value applies exactly to the contexts
/// whose attribute has that value somewhere in its text: some characters, the value, some
/// characters.
pub proof fn lemma_contains_takes_texts_around_the_value(
    rule: TargetingRuleRecord,
    context: KeyedMap<JsonValue>,
)
    requires
        rule.operator@ == "contains"@,
        rule.comparison_values@.len() == 1,
    ensures
        rule_applies(rule@, attributes_view(context@)) <==> context@.contains_key(
            rule.attribute@,
        ) && exists|before: Seq<char>, after: Seq<char>|
            attribute_text(context@[rule.attribute@]) == #[trigger] (before
                + rule.comparison_values@[0]@ + after),
{
    lemma_operators_differ();
    let value = rule.comparison_values@[0]@;
    assert(rule@.comparison_values[0] == value);
    let text = attribute_text(context@[rule.attribute@]);
    if occurs(text, value) {
        let at = choose|at: int| occurs_at(text, value, at);
        let before = text.take(at);
        let after = text.skip(at + value.len());
        assert(text =~= before + value + after);
    }
    if exists|before: Seq<char>, after: Seq<char>| text == #[trigger] (before + value + after) {
        let (before, after) = choose|before: Seq<char>, after: Seq<char>|
            text == #[trigger] (before + value + after);
        let at = before.len() as int;
        assert(text.subrange(at, at + value.len()) =~= value);
        assert(occurs_at(text, value, at));
    }
}

/// A rule with the operator `one_of` applies exactly to the contexts whose attribute has the text
/// of one of its comparison values.
pub proof fn lemma_one_of_takes_its_values(
    rule: TargetingRuleRecord,
    context: KeyedMap<JsonValue>,
)
    requires
        rule.operator@ == "one_of"@,
    ensures
        rule_applies(rule@, attributes_view(context@)) <==> context@.contains_key(
            rule.attribute@,
        ) && exists|i: int|
            0 <= i < rule.comparison_values@.len() && attribute_text(context@[rule.attribute@])
                == (#[trigger] rule.comparison_values@[i])@,
{
    lemma_operators_differ();
    let text = attribute_text(context@[rule.attribute@]);
    let values = rule@.comparison_values;
    assert forall|i: int| 0 <= i < values.len() implies values[i] == (
    #[trigger] rule.comparison_values@[i])@ by {}
    if values.contains(text) {
        let i = choose|i: int| 0 <= i < values.len() && values[i] == text;
        assert(rule.comparison_values@[i]@ == text);
    }
    if exists|i: int|
        0 <= i < rule.comparison_values@.len() && text == (
        #[trigger] rule.comparison_values@[i])@ {
        let i = choose|i: int|
            0 <= i < rule.comparison_values@.len() && text == (
            #[trigger] rule.comparison_values@[i])@;
        assert(values[i] == text);
    }
}

/// Without a comparison value, `equals`, `contains` and `one_of` take no text and `not_equals`
/// takes every text; and with more than one, all but `one_of` go by the first.
pub proof fn lemma_operators_go_by_the_first_value(rule: RuleView, one: RuleView, text: Seq<char>)
    requires
        rule.operator != "one_of"@,
        one.operator == rule.operator,
        rule.comparison_values.len() > 0 ==> one.comparison_values
            == seq![rule.comparison_values[0]],
    ensures
        rule.comparison_values.len() > 0 ==> text_meets(text, rule) == text_meets(text, one),
        rule.comparison_values.len() == 0 ==> text_meets(text, rule) == (rule.operator
            == "not_equals"@),
{
    lemma_operators_differ();
}

/// An operator of any other name takes no text.
pub proof fn lemma_unknown_operator_takes_nothing(rule: RuleView, text: Seq<char>)
    requires
        rule.operator != "equals"@,
        rule.operator != "not_equals"@,
        rule.operator != "contains"@,
        rule.operator != "one_of"@,
    ensures
        !text_meets(text, rule),
{
}

/// One more comparison value of a rule with the operator `one_of` adds that text and no other.
pub proof fn lemma_one_more_value_adds_one_text(rule: RuleView, more: RuleView, text: Seq<char>)
    requires
        rule.operator == "one_of"@,
        more.operator == "one_of"@,
        more.comparison_values.len() > 0,
        rule.comparison_values == more.comparison_values.drop_last(),
    ensures
        text_meets(text, more) <==> text_meets(text, rule) || text
            == more.comparison_values.last(),
{
    lemma_operators_differ();
    let values = more.comparison_values;
    if values.contains(text) {
        let i = choose|i: int| 0 <= i < values.len() && values[i] == text;
        if i < values.len() - 1 {
            assert(rule.comparison_values[i] == text);
        }
    }
    if rule.comparison_values.contains(text) {
        let i = choose|i: int|
            0 <= i < rule.comparison_values.len() && rule.comparison_values[i] == text;
        assert(values[i] == text);
    }
    assert(values[values.len() - 1] == values.last());
}

/// What the first items of a rollout take, in basis points.
pub open spec fn points_before(rollout: Seq<RolloutView>, k: int) -> int
    decreases k,
{
    if k <= 0 {
        0
    } else {
        points_before(rollout, k - 1) + rollout[k - 1].basis_points
    }
}

/// The basis points of a rollout are those of its items, added up.
pub proof fn lemma_points_add_up(rollout: Seq<RolloutView>, k: int)
    requires
        0 <= k <= rollout.len(),
    ensures
        total_points(rollout.take(k)) == points_before(rollout, k),
        k == rollout.len() ==> total_points(rollout) == points_before(rollout, k),
    decreases k,
{
    if k > 0 {
        lemma_points_add_up(rollout, k - 1);
        assert(rollout.take(k).drop_last() =~= rollout.take(k - 1));
    }
    if k == rollout.len() {
        assert(rollout.take(k) =~= rollout);
    }
}

/// The variant at the position is the first with its key.
pub open spec fn first_with_key(variants: Seq<VariantView>, at: int, key: Seq<char>) -> bool {
    &&& 0 <= at < variants.len()
    &&& variants[at].variant_key == key
    &&& forall|j: int| 0 <= j < at ==> (#[trigger] variants[j]).variant_key != key
}

/// A variant is found by its key, and the first with the key is taken.
pub proof fn lemma_first_variant(variants: Seq<VariantView>, key: Seq<char>)
    ensures
        match variant_position(variants, key) {
            Some(at) => first_with_key(variants, at, key),
            None => forall|j: int|
                0 <= j < variants.len() ==> (#[trigger] variants[j]).variant_key != key,
        },
    decreases variants.len(),
{
    if variants.len() > 0 {
        let before = variants.drop_last();
        lemma_first_variant(before, key);
        assert forall|j: int| 0 <= j < before.len() implies before[j]
            == #[trigger] variants[j] by {}
    }
}

/// The rule at the position is the first that applies.
pub open spec fn first_rule(
    rules: Seq<RuleView>,
    attributes: Map<Seq<char>, JsonView>,
    i: int,
) -> bool {
    &&& 0 <= i < rules.len()
    &&& rule_applies(rules[i], attributes)
    &&& forall|j: int| 0 <= j < i ==> !rule_applies(#[trigger] rules[j], attributes)
}

/// No rule applies.
pub open spec fn no_rule(rules: Seq<RuleView>, attributes: Map<Seq<char>, JsonView>) -> bool {
    forall|j: int| 0 <= j < rules.len() ==> !rule_applies(#[trigger] rules[j], attributes)
}

/// The bucket lies in the share of the item at the position.
pub open spec fn in_share(rollout: Seq<RolloutView>, i: int, bucket: int) -> bool {
    &&& 0 <= i < rollout.len()
    &&& points_before(rollout, i) <= bucket < points_before(rollout, i + 1)
}

/// Where a rule applies, the first such rule names the variant, whatever the rollout.
pub proof fn lemma_first_rule_names_the_variant(
    definition: DefinitionView,
    attributes: Map<Seq<char>, JsonView>,
    bucket: int,
    i: int,
    at: int,
)
    requires
        first_rule(definition.targeting_rules, attributes, i),
        first_with_key(definition.variants, at, definition.targeting_rules[i].variant_key),
    ensures
        choice(definition, attributes, bucket) == Some((at, "target_match"@)),
{
    lemma_first_rule_decides(definition.targeting_rules, attributes);
    lemma_first_variant(definition.variants, definition.targeting_rules[i].variant_key);
    let found = first_applicable(definition.targeting_rules, attributes);
    assert(found is Some) by {
        if found is None {
            assert(!rule_applies(definition.targeting_rules[i], attributes));
        }
    }
    assert(found->0 == i) by {
        if found->0 < i {
            assert(!rule_applies(definition.targeting_rules[found->0], attributes));
        } else if found->0 > i {
            assert(!rule_applies(definition.targeting_rules[i], attributes));
        }
    }
    let key = definition.targeting_rules[i].variant_key;
    let position = variant_position(definition.variants, key);
    assert(position is Some) by {
        if position is None {
            assert(definition.variants[at].variant_key != key);
        }
    }
    if position->0 < at {
        assert(definition.variants[position->0].variant_key != key);
    } else if position->0 > at {
        assert(definition.variants[at].variant_key != key);
    }
}

/// Where no rule applies, the item whose share the bucket lies in names the variant.
pub proof fn lemma_share_names_the_variant(
    definition: DefinitionView,
    attributes: Map<Seq<char>, JsonView>,
    bucket: int,
    i: int,
    at: int,
)
    requires
        bucket >= 0,
        no_rule(definition.targeting_rules, attributes),
        forall|j: int|
            0 <= j < definition.percentage_rollout.len() ==> (
            #[trigger] definition.percentage_rollout[j]).basis_points >= 0,
        in_share(definition.percentage_rollout, i, bucket),
        first_with_key(definition.variants, at, definition.percentage_rollout[i].variant_key),
    ensures
        choice(definition, attributes, bucket) == Some((at, "percentage_rollout"@)),
{
    let rollout = definition.percentage_rollout;
    lemma_first_rule_decides(definition.targeting_rules, attributes);
    lemma_shares_side_by_side(rollout, bucket);
    lemma_points_add_up(rollout, i);
    lemma_points_add_up(rollout, i + 1);
    assert(share_holds(rollout, i, bucket));
    let key = rollout[i].variant_key;
    lemma_first_variant(definition.variants, key);
    let position = variant_position(definition.variants, key);
    assert(position is Some) by {
        if position is None {
            assert(definition.variants[at].variant_key != key);
        }
    }
    if position->0 < at {
        assert(definition.variants[position->0].variant_key != key);
    } else if position->0 > at {
        assert(definition.variants[at].variant_key != key);
    }
}

/// Where no rule applies and the bucket lies past all shares, the variant is the fallthrough.
pub proof fn lemma_rest_falls_through(
    definition: DefinitionView,
    attributes: Map<Seq<char>, JsonView>,
    bucket: int,
    at: int,
)
    requires
        bucket >= 0,
        no_rule(definition.targeting_rules, attributes),
        forall|j: int|
            0 <= j < definition.percentage_rollout.len() ==> (
            #[trigger] definition.percentage_rollout[j]).basis_points >= 0,
        points_before(
            definition.percentage_rollout,
            definition.percentage_rollout.len() as int,
        ) <= bucket,
        first_with_key(definition.variants, at, definition.fallthrough_variant),
    ensures
        choice(definition, attributes, bucket) == Some((at, "fallthrough"@)),
{
    let rollout = definition.percentage_rollout;
    lemma_first_rule_decides(definition.targeting_rules, attributes);
    lemma_shares_side_by_side(rollout, bucket);
    lemma_points_add_up(rollout, rollout.len() as int);
    let key = definition.fallthrough_variant;
    lemma_first_variant(definition.variants, key);
    let position = variant_position(definition.variants, key);
    assert(position is Some) by {
        if position is None {
            assert(definition.variants[at].variant_key != key);
        }
    }
    if position->0 < at {
        assert(definition.variants[position->0].variant_key != key);
    } else if position->0 > at {
        assert(definition.variants[at].variant_key != key);
    }
}

/// Where no rule applies, a rollout that begins with a negative share gives nothing, whatever the
/// bucket.
pub proof fn lemma_negative_share_gives_nothing(
    definition: DefinitionView,
    attributes: Map<Seq<char>, JsonView>,
    bucket: int,
)
    requires
        bucket >= 0,
        no_rule(definition.targeting_rules, attributes),
        definition.percentage_rollout.len() > 0,
        definition.percentage_rollout[0].basis_points < 0,
    ensures
        choice(definition, attributes, bucket) is None,
{
    lemma_first_rule_decides(definition.targeting_rules, attributes);
    lemma_broken_start(definition.percentage_rollout, bucket);
}

proof fn lemma_broken_start(rollout: Seq<RolloutView>, bucket: int)
    requires
        rollout.len() > 0,
        rollout[0].basis_points < 0,
    ensures
        rollout_slot(rollout, bucket) is Broken,
    decreases rollout.len(),
{
    if rollout.len() > 1 {
        lemma_broken_start(rollout.drop_last(), bucket);
    } else {
        reveal_with_fuel(rollout_slot, 2);
        assert(rollout.drop_last() =~= Seq::<RolloutView>::empty());
        assert(rollout_slot(rollout.drop_last(), bucket) == Slot::Past);
    }
}

} // verus!
