//! What the functions of the qualification answer, told of the calls themselves.

use vstd::prelude::*;
use crate::domain::{
    texts, values_equal, EvaluationRecord, FlagRecord, RulesetDefinition, StorageError,
};
use crate::qualification::composition::{
    bindings_view, composed, composition, instances_view, resolved_plan, Binding, Capabilities,
    Capability, Instance,
};
use crate::qualification::exercise::{
    audience_covers, binding_name, exercise, make_staff_ruleset, meant_for, on_reevaluated,
    same_evaluation, same_flag, staff_ruleset, Action, Event, Stage,
};
use crate::qualification::order::{in_order, lemma_ascending, sort_texts, text_before};
use crate::ruleset::{ruleset_failure, validate_ruleset};
use super::qualification::{
    lemma_application_is_bound, lemma_application_is_complete,
    lemma_order_goes_by_the_first_difference, lemma_staff_ruleset_is_valid,
};

verus! {

/// One text is found to come before another exactly if it is a beginning of it, or the first
/// character in which they differ is the lesser.
pub proof fn lemma_order_is_told(a: &str, b: &str, before: bool, k: int)
    requires
        call_ensures(text_before, (a, b), before),
        0 <= k <= a@.len(),
        k <= b@.len(),
        forall|i: int| 0 <= i < k ==> a@[i] == b@[i],
        k == a@.len() || k == b@.len() || a@[k] != b@[k],
    ensures
        k == a@.len() ==> before == (a@.len() < b@.len()),
        k == b@.len() ==> !before,
        k < a@.len() && k < b@.len() ==> before == (a@[k] < b@[k]),
{
    lemma_order_goes_by_the_first_difference(a@, b@, k);
}

/// Sorting keeps the texts of a list, each as often as it was there, and puts none before one that
/// comes before it.
pub proof fn lemma_sorting_keeps_the_texts(list: Vec<String>, sorted: Vec<String>)
    requires
        call_ensures(sort_texts, (list,), sorted),
    ensures
        texts(sorted@).to_multiset() == texts(list@).to_multiset(),
        in_order(texts(sorted@)),
{
    lemma_ascending(texts(list@));
}

/// The instance has the key, the package and the configuration.
pub open spec fn is_instance(
    instance: Instance,
    key: Seq<char>,
    package: Seq<char>,
    configuration: Seq<char>,
) -> bool {
    &&& instance.key@ == key
    &&& instance.package@ == package
    &&& instance.configuration@ == configuration
}

/// The instance requires two capabilities, in this order, and no other.
pub open spec fn requires_two(
    instance: Instance,
    first: Capability,
    second: Capability,
) -> bool {
    &&& instance.requirements@.len() == 2
    &&& instance.requirements@[0].id@ == first.id@
    &&& instance.requirements@[0].version@ == first.version@
    &&& instance.requirements@[1].id@ == second.id@
    &&& instance.requirements@[1].version@ == second.version@
}

/// The capability has the operations of another, each as often as that has it.
pub open spec fn offers(
    capability: Capability,
    wanted: Capability,
) -> bool {
    &&& capability.id@ == wanted.id@
    &&& capability.version@ == wanted.version@
    &&& texts(capability.operations@).to_multiset() == texts(wanted.operations@).to_multiset()
}

/// The binding is of a capability, from a consumer to its provider.
pub open spec fn is_bound(
    binding: Binding,
    consumer: Seq<char>,
    capability: Capability,
    provider: Seq<char>,
) -> bool {
    &&& binding.consumer@ == consumer
    &&& binding.id@ == capability.id@
    &&& binding.version@ == capability.version@
    &&& binding.provider@ == provider
}

/// The application has two callers, which require what the plugin has; the plugin, which has it and
/// requires two capabilities; and a stand-in for each of these. What each requires it gets from the
/// one that has it, and nothing else is bound.
pub proof fn lemma_application_is_composed(
    package: &str,
    configuration: &str,
    capabilities: &Capabilities,
    parts: (Vec<Instance>, Vec<Binding>),
)
    requires
        call_ensures(composed, (package, configuration, capabilities), parts),
    ensures
        parts.0@.len() == 5,
        parts.1@.len() == 6,
        ({
            let (caller, denied, feature) = (parts.0@[0], parts.0@[1], parts.0@[2]);
            let (membership, access) = (parts.0@[3], parts.0@[4]);
            &&& is_instance(caller, "caller"@, "test.feature-flag-caller"@, "{}"@)
            &&& is_instance(denied, "denied"@, "test.feature-flag-caller"@, "{}"@)
            &&& requires_two(caller, capabilities.evaluation, capabilities.admin)
            &&& requires_two(denied, capabilities.evaluation, capabilities.admin)
            &&& caller.capabilities@.len() == 0
            &&& denied.capabilities@.len() == 0
            &&& is_instance(feature, "feature"@, package@, configuration@)
            &&& requires_two(feature, capabilities.membership, capabilities.access)
            &&& feature.capabilities@.len() == 2
            &&& offers(feature.capabilities@[0], capabilities.evaluation)
            &&& offers(feature.capabilities@[1], capabilities.admin)
            &&& in_order(texts(feature.capabilities@[0].operations@))
            &&& in_order(texts(feature.capabilities@[1].operations@))
            &&& is_instance(membership, "membership"@, "fixture.organization-membership"@, "{}"@)
            &&& membership.requirements@.len() == 0
            &&& membership.capabilities@.len() == 1
            &&& offers(membership.capabilities@[0], capabilities.membership)
            &&& is_instance(access, "access"@, "fixture.access-control"@, "{}"@)
            &&& access.requirements@.len() == 0
            &&& access.capabilities@.len() == 1
            &&& offers(access.capabilities@[0], capabilities.access)
        }),
        is_bound(parts.1@[0], "caller"@, capabilities.evaluation, "feature"@),
        is_bound(parts.1@[1], "caller"@, capabilities.admin, "feature"@),
        is_bound(parts.1@[2], "denied"@, capabilities.evaluation, "feature"@),
        is_bound(parts.1@[3], "denied"@, capabilities.admin, "feature"@),
        is_bound(parts.1@[4], "feature"@, capabilities.membership, "membership"@),
        is_bound(parts.1@[5], "feature"@, capabilities.access, "access"@),
{
    lemma_application_is_complete(package@, configuration@, *capabilities);
    lemma_application_is_bound(*capabilities);
    lemma_ascending(capabilities.evaluation@.operations);
    lemma_ascending(capabilities.admin@.operations);
    let instances = instances_view(parts.0@);
    let bindings = bindings_view(parts.1@);
    assert(instances.len() == parts.0@.len());
    assert(bindings.len() == parts.1@.len());
    assert(instances[0] == parts.0@[0]@ && instances[1] == parts.0@[1]@);
    assert(instances[2] == parts.0@[2]@ && instances[3] == parts.0@[3]@);
    assert(instances[4] == parts.0@[4]@);
    assert(bindings[0] == parts.1@[0]@ && bindings[1] == parts.1@[1]@);
    assert(bindings[2] == parts.1@[2]@ && bindings[3] == parts.1@[3]@);
    assert(bindings[4] == parts.1@[4]@ && bindings[5] == parts.1@[5]@);
    lemma_parts(parts.0@[0]);
    lemma_parts(parts.0@[1]);
    lemma_parts(parts.0@[2]);
    lemma_parts(parts.0@[3]);
    lemma_parts(parts.0@[4]);
    let (feature, membership, access) = (parts.0@[2], parts.0@[3], parts.0@[4]);
    assert(feature@.capabilities[0] == feature.capabilities@[0]@);
    assert(feature@.capabilities[1] == feature.capabilities@[1]@);
    assert(membership@.capabilities[0] == membership.capabilities@[0]@);
    assert(access@.capabilities[0] == access.capabilities@[0]@);
    lemma_two_requirements(parts.0@[0]);
    lemma_two_requirements(parts.0@[1]);
    lemma_two_requirements(feature);
}

proof fn lemma_two_requirements(instance: Instance)
    requires
        instance@.requirements.len() == 2,
    ensures
        instance.requirements@.len() == 2,
        instance@.requirements[0] == instance.requirements@[0]@,
        instance@.requirements[1] == instance.requirements@[1]@,
{
}

proof fn lemma_parts(instance: Instance)
    ensures
        instance@.requirements.len() == instance.requirements@.len(),
        forall|i: int|
            0 <= i < instance.requirements@.len() ==> #[trigger] instance@.requirements[i]
                == instance.requirements@[i]@,
        instance@.capabilities.len() == instance.capabilities@.len(),
        forall|i: int|
            0 <= i < instance.capabilities@.len() ==> #[trigger] instance@.capabilities[i]
                == instance.capabilities@[i]@,
{
}

/// The plan of the application is the one that its instances and bindings resolve to.
pub proof fn lemma_application_is_resolved(
    package: &str,
    configuration: &str,
    capabilities: &Capabilities,
    parts: (Vec<Instance>, Vec<Binding>),
    plan: Option<String>,
)
    requires
        call_ensures(composed, (package, configuration, capabilities), parts),
        call_ensures(composition, (package, configuration, capabilities), plan),
    ensures
        plan is Some <==> resolved_plan(
            instances_view(parts.0@),
            bindings_view(parts.1@),
        ) is Some,
        plan is Some ==> Some(plan->0@) == resolved_plan(
            instances_view(parts.0@),
            bindings_view(parts.1@),
        ),
{
}

/// The plugin is started with a wrong binding in one mode alone.
pub proof fn lemma_binding_is_wrong_in_one_mode(mode: &str, name: &'static str)
    requires
        call_ensures(binding_name, (mode,), name),
    ensures
        mode@ == "wrong-binding"@ ==> name@ == "WRONG"@,
        mode@ != "wrong-binding"@ ==> name@ == "FEATURES"@,
{
}

/// An assertion is meant for an operation exactly if one of its audiences is the capability's name
/// and the operation's with a colon between them.
pub proof fn lemma_assertion_is_meant_for_its_audiences(
    audiences: &[String],
    capability: &str,
    operation: &str,
    wanted: &str,
    meant: bool,
    covered: bool,
)
    requires
        call_ensures(meant_for, (audiences, capability, operation), meant),
        call_ensures(audience_covers, (audiences, wanted), covered),
    ensures
        meant <==> exists|i: int|
            0 <= i < audiences@.len() && (#[trigger] audiences@[i])@ == capability@ + seq![':']
                + operation@,
        covered <==> exists|i: int|
            0 <= i < audiences@.len() && (#[trigger] audiences@[i])@ == wanted@,
{
    reveal_strlit(":");
    assert(":"@ =~= seq![':']);
    lemma_listed(audiences@, capability@ + ":"@ + operation@);
    lemma_listed(audiences@, wanted@);
}

proof fn lemma_listed(list: Seq<String>, wanted: Seq<char>)
    ensures
        texts(list).contains(wanted) <==> exists|i: int|
            0 <= i < list.len() && (#[trigger] list[i])@ == wanted,
{
    if texts(list).contains(wanted) {
        let i = choose|i: int| 0 <= i < texts(list).len() && texts(list)[i] == wanted;
        assert(list[i]@ == wanted);
    }
    if exists|i: int| 0 <= i < list.len() && (#[trigger] list[i])@ == wanted {
        let i = choose|i: int| 0 <= i < list.len() && (#[trigger] list[i])@ == wanted;
        assert(texts(list)[i] == wanted);
    }
}

/// The ruleset of the exercise is valid for a flag of truth values.
pub proof fn lemma_exercise_publishes_a_valid_ruleset(
    definition: RulesetDefinition,
    value_type: &str,
    result: Result<(), StorageError>,
)
    requires
        call_ensures(make_staff_ruleset, (), definition),
        value_type@ == "boolean"@,
        call_ensures(validate_ruleset, (value_type, &definition), result),
    ensures
        result is Ok,
        definition@ == staff_ruleset(),
{
    lemma_staff_ruleset_is_valid(seq![]);
    assert(ruleset_failure(value_type@, definition@) is None);
}

/// Two flags are found the same exactly if they agree in every field.
pub proof fn lemma_flags_are_the_same_in_every_field(a: &FlagRecord, b: &FlagRecord, same: bool)
    requires
        call_ensures(same_flag, (a, b), same),
    ensures
        same <==> {
            &&& a.organization_id@ == b.organization_id@
            &&& a.flag_key@ == b.flag_key@
            &&& a.name@ == b.name@
            &&& a.description is Some <==> b.description is Some
            &&& a.description is Some ==> a.description->0@ == b.description->0@
            &&& a.value_type@ == b.value_type@
            &&& a.archived == b.archived
            &&& a.revision@ == b.revision@
            &&& a.created_at@ == b.created_at@
            &&& a.updated_at@ == b.updated_at@
            &&& a.archived_at is Some <==> b.archived_at is Some
            &&& a.archived_at is Some ==> a.archived_at->0@ == b.archived_at->0@
            &&& a.row_seq == b.row_seq
        },
{
    assert(a@ == b@ ==> a@.organization_id == b@.organization_id);
}

/// Two evaluations are found equal exactly if they agree in every field but the value, and their
/// values are equal.
pub proof fn lemma_evaluations_are_the_same_in_every_field(
    a: &EvaluationRecord,
    b: &EvaluationRecord,
    same: bool,
)
    requires
        call_ensures(same_evaluation, (a, b), same),
    ensures
        same <==> {
            &&& a.flag_key@ == b.flag_key@
            &&& a.environment_key@ == b.environment_key@
            &&& a.variant_key@ == b.variant_key@
            &&& values_equal(a.value@, b.value@)
            &&& a.reason@ == b.reason@
            &&& a.ruleset_revision@ == b.ruleset_revision@
            &&& a.receipt_id@ == b.receipt_id@
            &&& a.evaluated_at@ == b.evaluated_at@
        },
{
}

/// The exercise asks signed, as the caller that may.
pub open spec fn asks_signed(action: Action) -> bool {
    action is Invoke && action->instance@ == "caller"@ && action->signed
}

/// The receipts are asked for only if the evaluation was answered alike twice, and with `on`.
pub proof fn lemma_receipts_are_asked_for_on_equal_answers(
    evaluated: &EvaluationRecord,
    equal: bool,
    next: (Stage, Action),
)
    requires
        call_ensures(on_reevaluated, (evaluated, equal), next),
    ensures
        equal && evaluated.variant_key@ == "on"@ ==> next.0 is Listing && asks_signed(next.1)
            && next.1->request is ListReceipts,
        !(equal && evaluated.variant_key@ == "on"@) ==> next.0 is Done && next.1 is Fail,
{
    assert(next.0@ is Listing || next.0@ is Done);
    assert(next.1@ is Invoke || next.1@ is Fail);
    if next.1 is Invoke {
        assert(next.1@->request == next.1->request@);
    }
}

/// Where the exercise must not go on, it fails: an application that started though it must not, or
/// did not though it must; a caller that was not forbidden; another number of receipts than one;
/// and an end that was not clean.
pub proof fn lemma_exercise_fails_on_wrong_answers(
    started: bool,
    count: usize,
    clean: bool,
    mode: &str,
    id: &str,
    start: (Stage, Action),
    listed: (Stage, Action),
    stopped: (Stage, Action),
)
    requires
        call_ensures(exercise, (Stage::Starting, Event::Started(started), mode, id), start),
        call_ensures(exercise, (Stage::Listing, Event::Receipts(count), mode, id), listed),
        call_ensures(exercise, (Stage::Stopping, Event::Stopped(clean), mode, id), stopped),
    ensures
        ({
            let must_not = mode@ == "missing-schema"@ || mode@ == "wrong-binding"@ || mode@
                == "throws"@ || mode@ == "malformed"@;
            &&& started == must_not ==> start.1 is Fail
            &&& must_not && !started ==> start.1 is Finish && start.1->Finish_0@
                == "startup-rejected"@
            &&& !must_not && started && mode@ != "forbidden"@ ==> start.0 is Creating
                && asks_signed(start.1) && start.1->request is CreateFlag
        }),
        count == 1 ==> listed.0 is Stopping && listed.1 is Stop,
        count != 1 ==> listed.0 is Done && listed.1 is Fail,
        clean ==> stopped.1 is Finish && stopped.1->Finish_0@ == "passed"@,
        !clean ==> stopped.1 is Fail,
        stopped.0 is Done,
{
    assert(start.0@ is Done || start.0@ is Denied || start.0@ is Creating);
    assert(listed.0@ is Done || listed.0@ is Stopping);
    assert(stopped.0@ is Done);
    assert(start.1@ is Fail || start.1@ is Finish || start.1@ is Invoke);
    assert(listed.1@ is Fail || listed.1@ is Stop);
    assert(stopped.1@ is Fail || stopped.1@ is Finish);
    if start.1 is Invoke {
        assert(start.1@->request == start.1->request@);
    }
}

/// A flag that was created twice by the same request goes on only if both answers are the same, and
/// the flag is at its first revision; an environment and a publication go on only at theirs.
pub proof fn lemma_exercise_goes_on_from_first_revisions(
    created: FlagRecord,
    again: FlagRecord,
    revision: String,
    mode: &str,
    id: &str,
    recreated: (Stage, Action),
    put: (Stage, Action),
    published: (Stage, Action),
)
    requires
        call_ensures(
            exercise,
            (Stage::Recreating(created), Event::Flag(again), mode, id),
            recreated,
        ),
        call_ensures(exercise, (Stage::Putting, Event::Environment(revision), mode, id), put),
        call_ensures(
            exercise,
            (Stage::Publishing, Event::Publication(revision), mode, id),
            published,
        ),
    ensures
        created@ == again@ && created.revision@ == "1"@ ==> recreated.0 is Putting && asks_signed(
            recreated.1,
        ) && recreated.1->request is PutEnvironment,
        !(created@ == again@ && created.revision@ == "1"@) ==> recreated.0 is Done && recreated.1
            is Fail,
        revision@ == "1"@ ==> put.0 is Publishing && asks_signed(put.1) && put.1->request
            is PublishRuleset && put.1->request->PublishRuleset_definition@ == staff_ruleset(),
        revision@ != "1"@ ==> put.0 is Done && put.1 is Fail,
        revision@ == "1"@ ==> published.0 is Evaluating && asks_signed(published.1)
            && published.1->request is Evaluate,
        revision@ != "1"@ ==> published.0 is Done && published.1 is Fail,
{
    assert(recreated.0@ is Done || recreated.0@ is Putting);
    assert(put.0@ is Done || put.0@ is Publishing);
    assert(published.0@ is Done || published.0@ is Evaluating);
    assert(recreated.1@ is Fail || recreated.1@ is Invoke);
    assert(put.1@ is Fail || put.1@ is Invoke);
    assert(published.1@ is Fail || published.1@ is Invoke);
    if recreated.1 is Invoke {
        assert(recreated.1@->request == recreated.1->request@);
    }
    if put.1 is Invoke {
        assert(put.1@->request == put.1->request@);
    }
    if published.1 is Invoke {
        assert(published.1@->request == published.1->request@);
    }
}

} // verus!
