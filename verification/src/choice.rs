//! Which variant an evaluation picks, and why.

use vstd::prelude::*;
use crate::bucket::{bucket_of, deterministic_bucket, BUCKETS};
use crate::domain::{
    texts, DefinitionView, DomainFailure, RolloutView, RuleView, RulesetDefinition, StorageError,
    TargetingRuleRecord, VariantRecord, VariantView,
};
use crate::json::{JsonValue, JsonView};
use crate::keyed::KeyedMap;
use crate::ruleset::{
    rollout_sound, rules_sound, ruleset_failure, total_points, value_valid, values_typed,
    variant_keys, variants_named,
};
use crate::text::{occurs, text_contains, text_equal};

verus! {

/// The attributes of a context, with each value taken by its model.
pub open spec fn attributes_view(attributes: Map<Seq<char>, JsonValue>) -> Map<
    Seq<char>,
    JsonView,
> {
    attributes.map_values(|value: JsonValue| value@)
}

/// The attribute's text meets the rule.
pub open spec fn text_meets(rendered: Seq<char>, rule: RuleView) -> bool {
    let values = rule.comparison_values;
    if rule.operator == "equals"@ {
        values.len() > 0 && values[0] == rendered
    } else if rule.operator == "not_equals"@ {
        !(values.len() > 0 && values[0] == rendered)
    } else if rule.operator == "contains"@ {
        values.len() > 0 && occurs(rendered, values[0])
    } else if rule.operator == "one_of"@ {
        values.contains(rendered)
    } else {
        false
    }
}

/// The context has the rule's attribute, and its value meets the rule.
pub open spec fn rule_applies(rule: RuleView, attributes: Map<Seq<char>, JsonView>) -> bool {
    attributes.contains_key(rule.attribute) && text_meets(
        attributes[rule.attribute].rendered(),
        rule,
    )
}

/// Whether the list of texts holds the text.
fn holds(list: &Vec<String>, text: &str) -> (found: bool)
    ensures
        found == texts(list@).contains(text@),
{
    let mut i: usize = 0;
    while i < list.len()
        invariant
            i <= list@.len(),
            forall|j: int| 0 <= j < i ==> texts(list@)[j] != text@,
        decreases list@.len() - i,
    {
        if text_equal(list[i].as_str(), text) {
            assert(texts(list@)[i as int] == text@);
            return true;
        }
        i += 1;
    }
    false
}

/// Whether the value of the rule's attribute meets the rule.
pub fn rule_matches(value: &JsonValue, rule: &TargetingRuleRecord) -> (matched: bool)
    ensures
        matched == text_meets(value@.rendered(), rule@),
{
    let rendered = value.rendered();
    let operator = rule.operator.as_str();
    let values = &rule.comparison_values;
    assert(values@.len() > 0 ==> rule@.comparison_values[0] == values@[0]@);
    if text_equal(operator, "equals") {
        values.len() > 0 && text_equal(values[0].as_str(), rendered)
    } else if text_equal(operator, "not_equals") {
        !(values.len() > 0 && text_equal(values[0].as_str(), rendered))
    } else if text_equal(operator, "contains") {
        values.len() > 0 && text_contains(rendered, values[0].as_str())
    } else if text_equal(operator, "one_of") {
        holds(values, rendered)
    } else {
        false
    }
}

/// The first variant with the key.
pub open spec fn variant_position(variants: Seq<VariantView>, key: Seq<char>) -> Option<int>
    decreases variants.len(),
{
    if variants.len() == 0 {
        None
    } else {
        match variant_position(variants.drop_last(), key) {
            Some(i) => Some(i),
            None => if variants.last().variant_key == key {
                Some(variants.len() - 1)
            } else {
                None
            },
        }
    }
}

/// The first rule that applies.
pub open spec fn first_applicable(
    rules: Seq<RuleView>,
    attributes: Map<Seq<char>, JsonView>,
) -> Option<int>
    decreases rules.len(),
{
    if rules.len() == 0 {
        None
    } else {
        match first_applicable(rules.drop_last(), attributes) {
            Some(i) => Some(i),
            None => if rule_applies(rules.last(), attributes) {
                Some(rules.len() - 1)
            } else {
                None
            },
        }
    }
}

/// Where a bucket falls in a rollout.
pub enum Slot {
    /// Into the share of the item at this position.
    Item(int),
    /// Past the shares of all items.
    Past,
    /// Nowhere: a share is negative.
    Broken,
}

/// Where a bucket falls: into the first item whose share, added to those before it, exceeds the
/// bucket.
pub open spec fn rollout_slot(rollout: Seq<RolloutView>, bucket: int) -> Slot
    decreases rollout.len(),
{
    if rollout.len() == 0 {
        Slot::Past
    } else {
        match rollout_slot(rollout.drop_last(), bucket) {
            Slot::Past => if rollout.last().basis_points < 0 {
                Slot::Broken
            } else if bucket < total_points(rollout) {
                Slot::Item(rollout.len() - 1)
            } else {
                Slot::Past
            },
            slot => slot,
        }
    }
}

/// The key of the variant to pick, and the reason; nothing where the rollout is broken.
pub open spec fn chosen_key(
    definition: DefinitionView,
    attributes: Map<Seq<char>, JsonView>,
    bucket: int,
) -> Option<(Seq<char>, Seq<char>)> {
    match first_applicable(definition.targeting_rules, attributes) {
        Some(i) => Some((definition.targeting_rules[i].variant_key, "target_match"@)),
        None => match rollout_slot(definition.percentage_rollout, bucket) {
            Slot::Item(i) => Some(
                (definition.percentage_rollout[i].variant_key, "percentage_rollout"@),
            ),
            Slot::Past => Some((definition.fallthrough_variant, "fallthrough"@)),
            Slot::Broken => None,
        },
    }
}

/// The position of the variant that an evaluation picks, and the reason; nothing where the ruleset
/// is not valid.
pub open spec fn choice(
    definition: DefinitionView,
    attributes: Map<Seq<char>, JsonView>,
    bucket: int,
) -> Option<(int, Seq<char>)> {
    match chosen_key(definition, attributes, bucket) {
        Some((key, reason)) => match variant_position(definition.variants, key) {
            Some(i) => Some((i, reason)),
            None => None,
        },
        None => None,
    }
}

/// The picked variant and the reason are the ones at the given position.
pub open spec fn picks(
    result: Result<(&VariantRecord, &'static str), StorageError>,
    definition: &RulesetDefinition,
    expected: Option<(int, Seq<char>)>,
) -> bool {
    match expected {
        Some((i, reason)) => {
            &&& 0 <= i < definition.variants@.len()
            &&& result is Ok
            &&& *result->Ok_0.0 == definition.variants@[i]
            &&& result->Ok_0.1@ == reason
        },
        None => result == Err::<(&VariantRecord, &'static str), StorageError>(
            StorageError::Domain(DomainFailure::InvalidRuleset),
        ),
    }
}

/// The first variant with the key.
pub fn variant<'a>(definition: &'a RulesetDefinition, key: &str) -> (result: Result<
    &'a VariantRecord,
    StorageError,
>)
    ensures
        match variant_position(definition@.variants, key@) {
            Some(i) => 0 <= i < definition.variants@.len() && (result matches Ok(found) && *found
                == definition.variants@[i]),
            None => result == Err::<&VariantRecord, StorageError>(
                StorageError::Domain(DomainFailure::InvalidRuleset),
            ),
        },
{
    let ghost variants = definition@.variants;
    let mut i: usize = 0;
    assert(variants.take(0) =~= Seq::<VariantView>::empty());
    while i < definition.variants.len()
        invariant
            i <= definition.variants@.len(),
            variants == definition@.variants,
            variants.len() == definition.variants@.len(),
            variant_position(variants.take(i as int), key@) is None,
        decreases definition.variants@.len() - i,
    {
        let ghost longer = variants.take(i + 1);
        assert(longer.drop_last() =~= variants.take(i as int));
        assert(longer.last() == definition.variants@[i as int]@);
        if text_equal(definition.variants[i].variant_key.as_str(), key) {
            proof {
                lemma_position_stays(variants, key@, i + 1);
            }
            return Ok(&definition.variants[i]);
        }
        i += 1;
    }
    assert(variants.take(i as int) =~= variants);
    Err(StorageError::from(DomainFailure::InvalidRuleset))
}

/// What a prefix decides stays decided.
proof fn lemma_position_stays(variants: Seq<VariantView>, key: Seq<char>, k: int)
    requires
        0 <= k <= variants.len(),
        variant_position(variants.take(k), key) is Some,
    ensures
        variant_position(variants, key) == variant_position(variants.take(k), key),
    decreases variants.len(),
{
    if k < variants.len() {
        assert(variants.take(k) =~= variants.drop_last().take(k));
        lemma_position_stays(variants.drop_last(), key, k);
    } else {
        assert(variants.take(k) =~= variants);
    }
}

proof fn lemma_applicable_stays(
    rules: Seq<RuleView>,
    attributes: Map<Seq<char>, JsonView>,
    k: int,
)
    requires
        0 <= k <= rules.len(),
        first_applicable(rules.take(k), attributes) is Some,
    ensures
        first_applicable(rules, attributes) == first_applicable(rules.take(k), attributes),
    decreases rules.len(),
{
    if k < rules.len() {
        assert(rules.take(k) =~= rules.drop_last().take(k));
        lemma_applicable_stays(rules.drop_last(), attributes, k);
    } else {
        assert(rules.take(k) =~= rules);
    }
}

proof fn lemma_slot_stays(rollout: Seq<RolloutView>, bucket: int, k: int)
    requires
        0 <= k <= rollout.len(),
        !(rollout_slot(rollout.take(k), bucket) is Past),
    ensures
        rollout_slot(rollout, bucket) == rollout_slot(rollout.take(k), bucket),
    decreases rollout.len(),
{
    if k < rollout.len() {
        assert(rollout.take(k) =~= rollout.drop_last().take(k));
        lemma_slot_stays(rollout.drop_last(), bucket, k);
    } else {
        assert(rollout.take(k) =~= rollout);
    }
}

/// The variant that an evaluation in the given bucket picks, and the reason: the first targeting
/// rule that applies decides; then the bucket, in the rollout; then the fallthrough.
pub fn choose_variant_in_bucket<'a>(
    bucket: u64,
    attributes: &KeyedMap<JsonValue>,
    definition: &'a RulesetDefinition,
) -> (result: Result<(&'a VariantRecord, &'static str), StorageError>)
    requires
        bucket < BUCKETS,
    ensures
        picks(
            result,
            definition,
            choice(definition@, attributes_view(attributes@), bucket as int),
        ),
{
    let ghost context = attributes_view(attributes@);
    let ghost rules = definition@.targeting_rules;
    let mut i: usize = 0;
    assert(rules.take(0) =~= Seq::<RuleView>::empty());
    while i < definition.targeting_rules.len()
        invariant
            i <= definition.targeting_rules@.len(),
            rules == definition@.targeting_rules,
            rules.len() == definition.targeting_rules@.len(),
            context == attributes_view(attributes@),
            first_applicable(rules.take(i as int), context) is None,
        decreases definition.targeting_rules@.len() - i,
    {
        let rule = &definition.targeting_rules[i];
        let ghost longer = rules.take(i + 1);
        assert(longer.drop_last() =~= rules.take(i as int));
        assert(longer.last() == rule@);
        let matched = match attributes.get(rule.attribute.as_str()) {
            Some(value) => rule_matches(value, rule),
            None => false,
        };
        if matched {
            proof {
                lemma_applicable_stays(rules, context, i + 1);
            }
            return match variant(definition, rule.variant_key.as_str()) {
                Ok(found) => Ok((found, "target_match")),
                Err(error) => Err(error),
            };
        }
        i += 1;
    }
    assert(rules.take(i as int) =~= rules);
    let ghost rollout = definition@.percentage_rollout;
    let mut upper: u64 = 0;
    let mut k: usize = 0;
    assert(rollout.take(0) =~= Seq::<RolloutView>::empty());
    while k < definition.percentage_rollout.len()
        invariant
            k <= definition.percentage_rollout@.len(),
            rollout == definition@.percentage_rollout,
            rollout.len() == definition.percentage_rollout@.len(),
            rules == definition@.targeting_rules,
            context == attributes_view(attributes@),
            first_applicable(rules, context) is None,
            rollout_slot(rollout.take(k as int), bucket as int) is Past,
            upper == total_points(rollout.take(k as int)),
            upper <= bucket < BUCKETS,
        decreases definition.percentage_rollout@.len() - k,
    {
        let item = &definition.percentage_rollout[k];
        let ghost longer = rollout.take(k + 1);
        assert(longer.drop_last() =~= rollout.take(k as int));
        assert(longer.last() == item@);
        if item.basis_points < 0 {
            proof {
                lemma_slot_stays(rollout, bucket as int, k + 1);
            }
            return Err(StorageError::from(DomainFailure::InvalidRuleset));
        }
        upper = upper + item.basis_points as u64;
        if bucket < upper {
            proof {
                lemma_slot_stays(rollout, bucket as int, k + 1);
            }
            return match variant(definition, item.variant_key.as_str()) {
                Ok(found) => Ok((found, "percentage_rollout")),
                Err(error) => Err(error),
            };
        }
        k += 1;
    }
    assert(rollout.take(k as int) =~= rollout);
    match variant(definition, definition.fallthrough_variant.as_str()) {
        Ok(found) => Ok((found, "fallthrough")),
        Err(error) => Err(error),
    }
}

/// The variant that an evaluation picks, and the reason, with the bucket that the keys decide.
pub fn choose_variant<'a>(
    organization_id: &str,
    environment_key: &str,
    flag_key: &str,
    targeting_key: &str,
    attributes: &KeyedMap<JsonValue>,
    definition: &'a RulesetDefinition,
) -> (result: Result<(&'a VariantRecord, &'static str), StorageError>)
    ensures
        picks(
            result,
            definition,
            choice(
                definition@,
                attributes_view(attributes@),
                bucket_of(organization_id@, environment_key@, flag_key@, targeting_key@),
            ),
        ),
{
    let bucket = deterministic_bucket(organization_id, environment_key, flag_key, targeting_key);
    choose_variant_in_bucket(bucket, attributes, definition)
}

proof fn lemma_position(variants: Seq<VariantView>, key: Seq<char>)
    ensures
        variant_position(variants, key) matches Some(i) ==> 0 <= i < variants.len()
            && variants[i].variant_key == key,
        variant_position(variants, key) is None ==> forall|i: int|
            0 <= i < variants.len() ==> (#[trigger] variants[i]).variant_key != key,
    decreases variants.len(),
{
    if variants.len() > 0 {
        lemma_position(variants.drop_last(), key);
        assert forall|i: int|
            0 <= i < variants.len() && variant_position(variants, key) is None implies (
        #[trigger] variants[i]).variant_key != key by {
            if i < variants.len() - 1 {
                assert(variants.drop_last()[i].variant_key != key);
            }
        }
    }
}

/// The rule that decides is the first that applies: it applies, and none before it does; and where
/// none decides, none applies.
pub proof fn lemma_first_rule_decides(rules: Seq<RuleView>, attributes: Map<Seq<char>, JsonView>)
    ensures
        first_applicable(rules, attributes) matches Some(i) ==> 0 <= i < rules.len()
            && rule_applies(rules[i], attributes) && forall|j: int|
            0 <= j < i ==> !rule_applies(#[trigger] rules[j], attributes),
        first_applicable(rules, attributes) is None ==> forall|j: int|
            0 <= j < rules.len() ==> !rule_applies(#[trigger] rules[j], attributes),
    decreases rules.len(),
{
    if rules.len() > 0 {
        let before = rules.drop_last();
        lemma_first_rule_decides(before, attributes);
        assert forall|j: int| 0 <= j < before.len() implies before[j] == #[trigger] rules[j] by {}
    }
}

/// A bucket lies between what the items before one take and what they take together with it.
pub open spec fn share_holds(rollout: Seq<RolloutView>, i: int, bucket: int) -> bool {
    total_points(rollout.take(i)) <= bucket < total_points(rollout.take(i + 1))
}

/// The shares lie side by side from bucket zero on: where no share is negative, a bucket falls
/// into an item exactly if it lies between what the items before it take and what they take
/// together with it; and past all items exactly if it is at or beyond what they all take.
pub proof fn lemma_shares_side_by_side(rollout: Seq<RolloutView>, bucket: int)
    requires
        bucket >= 0,
        forall|i: int| 0 <= i < rollout.len() ==> (#[trigger] rollout[i]).basis_points >= 0,
    ensures
        !(rollout_slot(rollout, bucket) is Broken),
        rollout_slot(rollout, bucket) is Past <==> total_points(rollout) <= bucket,
        forall|i: int|
            0 <= i < rollout.len() ==> (rollout_slot(rollout, bucket) == Slot::Item(i)
                <==> #[trigger] share_holds(rollout, i, bucket)),
        rollout_slot(rollout, bucket) matches Slot::Item(i) ==> 0 <= i < rollout.len(),
    decreases rollout.len(),
{
    if rollout.len() > 0 {
        let before = rollout.drop_last();
        let last = rollout.len() - 1;
        assert forall|i: int| 0 <= i < before.len() implies (#[trigger] before[i]).basis_points
            >= 0 by {
            assert(rollout[i].basis_points >= 0);
        }
        assert(rollout[last].basis_points >= 0);
        lemma_shares_side_by_side(before, bucket);
        assert(rollout.take(last) =~= before);
        assert(rollout.take(last + 1) =~= rollout);
        assert forall|i: int| 0 <= i < rollout.len() implies (rollout_slot(rollout, bucket)
            == Slot::Item(i) <==> #[trigger] share_holds(rollout, i, bucket)) by {
            if i < last {
                assert(before.take(i) =~= rollout.take(i));
                assert(before.take(i + 1) =~= rollout.take(i + 1));
                assert(share_holds(before, i, bucket) == share_holds(rollout, i, bucket));
                if total_points(rollout.take(i + 1)) > bucket {
                    lemma_prefix_total(before, i + 1);
                }
            }
        }
    }
}

/// A prefix takes no more than the whole.
proof fn lemma_prefix_total(rollout: Seq<RolloutView>, k: int)
    requires
        0 <= k <= rollout.len(),
        forall|i: int| 0 <= i < rollout.len() ==> (#[trigger] rollout[i]).basis_points >= 0,
    ensures
        total_points(rollout.take(k)) <= total_points(rollout),
    decreases rollout.len(),
{
    if k < rollout.len() {
        let before = rollout.drop_last();
        assert forall|i: int| 0 <= i < before.len() implies (#[trigger] before[i]).basis_points
            >= 0 by {
            assert(rollout[i].basis_points >= 0);
        }
        assert(rollout.take(k) =~= before.take(k));
        lemma_prefix_total(before, k);
        assert(rollout[rollout.len() - 1].basis_points >= 0);
    } else {
        assert(rollout.take(k) =~= rollout);
    }
}

/// A ruleset that can be published can be evaluated: in every context and every bucket it gives
/// one of its variants, whose value is of the flag's type.
pub proof fn lemma_published_ruleset_evaluates(
    value_type: Seq<char>,
    definition: DefinitionView,
    attributes: Map<Seq<char>, JsonView>,
    bucket: int,
)
    requires
        ruleset_failure(value_type, definition) is None,
        bucket >= 0,
    ensures
        choice(definition, attributes, bucket) matches Some((i, reason)) && 0 <= i
            < definition.variants.len() && value_valid(value_type, definition.variants[i].value)
            && definition.variants[i].value.value_type == value_type,
{
    let keys = variant_keys(definition);
    assert(variants_named(definition) && values_typed(value_type, definition) && rules_sound(
        definition,
    ) && rollout_sound(definition));
    lemma_first_rule_decides(definition.targeting_rules, attributes);
    lemma_shares_side_by_side(definition.percentage_rollout, bucket);
    let (key, reason) = chosen_key(definition, attributes, bucket)->0;
    assert(keys.contains(key));
    let at = choose|at: int| 0 <= at < keys.len() && keys[at] == key;
    assert(definition.variants[at].variant_key == key);
    lemma_position(definition.variants, key);
    let i = variant_position(definition.variants, key)->0;
    assert(value_valid(value_type, definition.variants[i].value));
}

/// Targeting comes before the rollout: where a rule applies, the first such rule decides, whatever
/// the bucket.
pub proof fn lemma_targeting_ignores_bucket(
    definition: DefinitionView,
    attributes: Map<Seq<char>, JsonView>,
    bucket: int,
    other: int,
    j: int,
)
    requires
        0 <= j < definition.targeting_rules.len(),
        rule_applies(definition.targeting_rules[j], attributes),
    ensures
        choice(definition, attributes, bucket) == choice(definition, attributes, other),
        chosen_key(definition, attributes, bucket) matches Some((key, reason)) && reason
            == "target_match"@,
{
    lemma_first_rule_decides(definition.targeting_rules, attributes);
}

/// A rollout of the whole leaves no bucket to the fallthrough.
pub proof fn lemma_whole_rollout_never_falls_through(
    value_type: Seq<char>,
    definition: DefinitionView,
    attributes: Map<Seq<char>, JsonView>,
    bucket: int,
)
    requires
        ruleset_failure(value_type, definition) is None,
        total_points(definition.percentage_rollout) == crate::ruleset::WHOLE,
        0 <= bucket < BUCKETS,
        first_applicable(definition.targeting_rules, attributes) is None,
    ensures
        chosen_key(definition, attributes, bucket) matches Some((key, reason)) && reason
            == "percentage_rollout"@,
{
    assert(rollout_sound(definition));
    lemma_shares_side_by_side(definition.percentage_rollout, bucket);
}

proof fn lemma_total_update(rollout: Seq<RolloutView>, i: int, item: RolloutView, k: int)
    requires
        0 <= i < rollout.len(),
        0 <= k <= rollout.len(),
    ensures
        total_points(rollout.update(i, item).take(k)) == total_points(rollout.take(k)) + (if i
            < k {
            item.basis_points - rollout[i].basis_points
        } else {
            0
        }),
    decreases k,
{
    let after = rollout.update(i, item);
    if k == 0 {
        assert(after.take(0) =~= rollout.take(0));
    } else {
        lemma_total_update(rollout, i, item, k - 1);
        assert(after.take(k).drop_last() =~= after.take(k - 1));
        assert(rollout.take(k).drop_last() =~= rollout.take(k - 1));
    }
}

/// A growing share keeps its buckets: what falls into an item still does when the item's share is
/// raised.
pub proof fn lemma_growing_share_keeps_buckets(
    rollout: Seq<RolloutView>,
    i: int,
    raised: RolloutView,
    bucket: int,
)
    requires
        bucket >= 0,
        forall|j: int| 0 <= j < rollout.len() ==> (#[trigger] rollout[j]).basis_points >= 0,
        rollout_slot(rollout, bucket) == Slot::Item(i),
        raised.basis_points >= rollout[i].basis_points,
    ensures
        rollout_slot(rollout.update(i, raised), bucket) == Slot::Item(i),
{
    lemma_shares_side_by_side(rollout, bucket);
    let after = rollout.update(i, raised);
    assert forall|j: int| 0 <= j < after.len() implies (#[trigger] after[j]).basis_points >= 0 by {
        assert(rollout[j].basis_points >= 0);
    }
    lemma_shares_side_by_side(after, bucket);
    assert(share_holds(rollout, i, bucket));
    lemma_total_update(rollout, i, raised, i);
    lemma_total_update(rollout, i, raised, i + 1);
    assert(share_holds(after, i, bucket));
}

} // verus!
