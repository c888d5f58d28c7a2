//! What the plugin is put through, and in which application.

use vstd::prelude::*;
use crate::choice::{choice, rule_applies};
use crate::domain::{EvaluationView, FlagView};
use crate::json::JsonView;
use crate::qualification::composition::{
    composed_bindings, composed_instances, ordered, BindingView, Capabilities, Capability,
    InstanceView,
};
use crate::qualification::exercise::{
    create_request, denied_request, evaluate_request, evaluations_equal, misbinds, must_not_start,
    publish_request, put_request, receipts_request, staff_ruleset, step_of, ActionView, EventView,
    RequestView, StageView,
};
use crate::qualification::order::{comes_before, in_order, lemma_ascending};
use crate::ruleset::{ruleset_failure, total_points};
use crate::tools::AdminError;
use super::rules::{
    first_rule, first_with_key, lemma_first_rule_names_the_variant, lemma_rest_falls_through,
    no_rule, points_before,
};

verus! {

/// One text comes before another exactly if it is a beginning of it, or the first character in
/// which they differ is the lesser.
pub proof fn lemma_order_goes_by_the_first_difference(a: Seq<char>, b: Seq<char>, k: int)
    requires
        0 <= k <= a.len(),
        k <= b.len(),
        forall|i: int| 0 <= i < k ==> a[i] == b[i],
    ensures
        k == a.len() ==> comes_before(a, b) == (a.len() < b.len()),
        k == b.len() ==> !comes_before(a, b),
        k < a.len() && k < b.len() && a[k] != b[k] ==> comes_before(a, b) == (a[k] < b[k]),
    decreases k,
{
    if k > 0 {
        assert forall|i: int| 0 <= i < k - 1 implies a.skip(1)[i] == b.skip(1)[i] by {
            assert(a[i + 1] == b[i + 1]);
        }
        assert(a[0] == b[0]);
        lemma_order_goes_by_the_first_difference(a.skip(1), b.skip(1), k - 1);
    }
}

/// The plugin's capabilities keep their operations, in ascending order.
pub proof fn lemma_operations_are_put_in_order(capability: Capability)
    ensures
        ordered(capability@).id == capability.id@,
        ordered(capability@).version == capability.version@,
        ordered(capability@).operations.to_multiset() == capability@.operations.to_multiset(),
        in_order(ordered(capability@).operations),
{
    lemma_ascending(capability@.operations);
}

/// The application has two callers that differ in their key alone and require both capabilities of
/// the plugin; the plugin, which has them and requires two others; and a stand-in for each of
/// these.
pub proof fn lemma_application_is_complete(
    package: Seq<char>,
    configuration: Seq<char>,
    capabilities: Capabilities,
)
    ensures
        ({
            let instances = composed_instances(package, configuration, capabilities);
            let feature = instances[2];
            &&& instances.len() == 5
            &&& instances[0].key == "caller"@
            &&& instances[1].key == "denied"@
            &&& instances[1] == (InstanceView { key: "denied"@, ..instances[0] })
            &&& instances[0].package == "test.feature-flag-caller"@
            &&& instances[0].requirements.len() == 2
            &&& instances[0].requirements[0].id == capabilities.evaluation.id@
            &&& instances[0].requirements[0].version == capabilities.evaluation.version@
            &&& instances[0].requirements[1].id == capabilities.admin.id@
            &&& instances[0].requirements[1].version == capabilities.admin.version@
            &&& instances[0].capabilities.len() == 0
            &&& feature.key == "feature"@
            &&& feature.package == package
            &&& feature.configuration == configuration
            &&& feature.requirements.len() == 2
            &&& feature.requirements[0].id == capabilities.membership.id@
            &&& feature.requirements[0].version == capabilities.membership.version@
            &&& feature.requirements[1].id == capabilities.access.id@
            &&& feature.requirements[1].version == capabilities.access.version@
            &&& feature.capabilities.len() == 2
            &&& feature.capabilities[0] == ordered(capabilities.evaluation@)
            &&& feature.capabilities[1] == ordered(capabilities.admin@)
            &&& instances[3].key == "membership"@
            &&& instances[3].package == "fixture.organization-membership"@
            &&& instances[3].requirements.len() == 0
            &&& instances[3].capabilities == seq![capabilities.membership@]
            &&& instances[4].key == "access"@
            &&& instances[4].package == "fixture.access-control"@
            &&& instances[4].requirements.len() == 0
            &&& instances[4].capabilities == seq![capabilities.access@]
            &&& instances[0].configuration == "{}"@
            &&& instances[3].configuration == "{}"@
            &&& instances[4].configuration == "{}"@
        }),
{
}

/// The binding is of a capability, from a consumer to its provider.
pub open spec fn binds(
    binding: BindingView,
    consumer: Seq<char>,
    capability: Capability,
    provider: Seq<char>,
) -> bool {
    &&& binding.consumer == consumer
    &&& binding.id == capability.id@
    &&& binding.version == capability.version@
    &&& binding.provider == provider
}

/// Both callers get the plugin's capabilities from it, the plugin gets the two that it requires
/// from their stand-ins, and nothing else is bound.
pub proof fn lemma_application_is_bound(capabilities: Capabilities)
    ensures
        ({
            let bindings = composed_bindings(capabilities);
            &&& bindings.len() == 6
            &&& binds(bindings[0], "caller"@, capabilities.evaluation, "feature"@)
            &&& binds(bindings[1], "caller"@, capabilities.admin, "feature"@)
            &&& binds(bindings[2], "denied"@, capabilities.evaluation, "feature"@)
            &&& binds(bindings[3], "denied"@, capabilities.admin, "feature"@)
            &&& binds(bindings[4], "feature"@, capabilities.membership, "membership"@)
            &&& binds(bindings[5], "feature"@, capabilities.access, "access"@)
        }),
{
}

proof fn lemma_staff_ruleset_reveals()
    ensures
        "off"@ != "on"@,
        "boolean"@ == staff_ruleset().variants[0].value.value_type,
{
    reveal_strlit("off");
    reveal_strlit("on");
    assert("off"@.len() != "on"@.len());
}

/// The ruleset that is published can be published for the flag that is created.
pub proof fn lemma_staff_ruleset_is_valid(id: Seq<char>)
    ensures
        create_request(id) is CreateFlag,
        ruleset_failure(
            create_request(id)->CreateFlag_value_type,
            staff_ruleset(),
        ) is None,
{
    lemma_staff_ruleset_reveals();
    let definition = staff_ruleset();
    let keys = crate::ruleset::variant_keys(definition);
    assert(keys[0] == "off"@ && keys[1] == "on"@);
    assert(keys.contains("off"@) && keys.contains("on"@));
    assert(crate::ruleset::variants_named(definition));
    assert(crate::ruleset::values_typed("boolean"@, definition));
    reveal_strlit("equals");
    assert(crate::ruleset::rules_sound(definition));
    assert(total_points(definition.percentage_rollout) == 0);
    assert(crate::ruleset::rollout_sound(definition));
}

/// The ruleset is on for staff and off for everyone else, in every bucket: a context whose tier is
/// `staff` is given `on` by the rule, and any other context `off` by the fallthrough.
pub proof fn lemma_staff_ruleset_is_on_for_staff(
    attributes: Map<Seq<char>, JsonView>,
    bucket: int,
)
    requires
        bucket >= 0,
    ensures
        ({
            let given = choice(staff_ruleset(), attributes, bucket);
            let staff = attributes.contains_key("tier"@) && attributes["tier"@].rendered()
                == "staff"@;
            &&& given is Some
            &&& staff ==> given == Some((1int, "target_match"@))
            &&& !staff ==> given == Some((0int, "fallthrough"@))
            &&& staff_ruleset().variants[1].variant_key == "on"@
            &&& staff_ruleset().variants[1].value.boolean_value == Some(true)
            &&& staff_ruleset().variants[0].variant_key == "off"@
            &&& staff_ruleset().variants[0].value.boolean_value == Some(false)
        }),
{
    lemma_staff_ruleset_reveals();
    let definition = staff_ruleset();
    let rules = definition.targeting_rules;
    let staff = attributes.contains_key("tier"@) && attributes["tier"@].rendered() == "staff"@;
    assert(rules[0].comparison_values[0] == "staff"@);
    assert(rule_applies(rules[0], attributes) == staff);
    if staff {
        assert(first_rule(rules, attributes, 0));
        assert(first_with_key(definition.variants, 1, "on"@));
        lemma_first_rule_names_the_variant(definition, attributes, bucket, 0, 1);
    } else {
        assert(no_rule(rules, attributes));
        assert(first_with_key(definition.variants, 0, "off"@));
        assert(points_before(definition.percentage_rollout, 0) == 0);
        lemma_rest_falls_through(definition, attributes, bucket, 0);
    }
}

/// All requests are of the same organization, flag and environment; each write has a key of its own
/// that is made of the run's identifier; the publication expects the revisions that a new flag and
/// a new environment have; and the evaluation asks as staff.
pub proof fn lemma_requests_belong_together(id: Seq<char>)
    ensures
        ({
            let create = create_request(id);
            let denied = denied_request(id);
            let put = put_request(id);
            let publish = publish_request(id);
            let evaluate = evaluate_request(id);
            let receipts = receipts_request();
            let organization = "org"@;
            let flag = "checkout"@;
            let environment = "prod"@;
            &&& create == (RequestView::CreateFlag {
                organization_id: organization,
                flag_key: flag,
                name: "Checkout"@,
                description: Some("fixture"@),
                value_type: "boolean"@,
                idempotency_key: "create-"@ + id,
            })
            &&& denied == (RequestView::CreateFlag {
                organization_id: organization,
                flag_key: flag,
                name: "Checkout"@,
                description: None,
                value_type: "boolean"@,
                idempotency_key: id,
            })
            &&& put == (RequestView::PutEnvironment {
                organization_id: organization,
                environment_key: environment,
                name: "Production"@,
                expected_revision: None,
                idempotency_key: "environment-"@ + id,
            })
            &&& publish == (RequestView::PublishRuleset {
                organization_id: organization,
                flag_key: flag,
                environment_key: environment,
                expected_flag_revision: "1"@,
                expected_environment_revision: "1"@,
                definition: staff_ruleset(),
                idempotency_key: "publish-"@ + id,
            })
            &&& evaluate == (RequestView::Evaluate {
                organization_id: organization,
                flag_key: flag,
                environment_key: environment,
                targeting_key: "usr_1"@,
                attribute: "tier"@,
                content: "staff"@,
                evaluation_id: "evaluation-"@ + id,
            })
            &&& receipts == (RequestView::ListReceipts {
                organization_id: organization,
                flag_key: Some(flag),
                environment_key: Some(environment),
                limit: 10,
            })
        }),
{
}

/// Evaluations are equal only if they agree in every field; and two that agree but for their values
/// are equal exactly if the values are.
pub proof fn lemma_evaluations_are_equal_by_their_fields(a: EvaluationView, b: EvaluationView)
    ensures
        evaluations_equal(a, b) ==> a.flag_key == b.flag_key && a.environment_key
            == b.environment_key && a.variant_key == b.variant_key && a.reason == b.reason
            && a.ruleset_revision == b.ruleset_revision && a.receipt_id == b.receipt_id
            && a.evaluated_at == b.evaluated_at && crate::domain::values_equal(a.value, b.value),
        b == (EvaluationView { value: b.value, ..a }) ==> evaluations_equal(a, b)
            == crate::domain::values_equal(a.value, b.value),
{
}

/// The exercise asks signed, as the caller that may.
pub open spec fn asked(next: (StageView, ActionView), request: RequestView) -> bool {
    next.1 == (ActionView::Invoke { instance: "caller"@, signed: true, request })
}

/// An application that must not start passes by not starting; any other must start. A run that is
/// to be forbidden asks unsigned, as the caller that may not, and must be told that it is
/// forbidden.
pub proof fn lemma_start_is_checked(mode: Seq<char>, id: Seq<char>, error: AdminError)
    ensures
        must_not_start(mode) <==> mode == "missing-schema"@ || mode == "wrong-binding"@ || mode
            == "throws"@ || mode == "malformed"@,
        must_not_start(mode) ==> step_of(
            StageView::Starting,
            EventView::Started(false),
            mode,
            id,
        ).1 == ActionView::Finish("startup-rejected"@) && step_of(
            StageView::Starting,
            EventView::Started(true),
            mode,
            id,
        ).1 is Fail,
        !must_not_start(mode) ==> step_of(
            StageView::Starting,
            EventView::Started(false),
            mode,
            id,
        ).1 is Fail,
        !must_not_start(mode) && mode == "forbidden"@ ==> step_of(
            StageView::Starting,
            EventView::Started(true),
            mode,
            id,
        ) == (
            StageView::Denied,
            ActionView::Invoke {
                instance: "denied"@,
                signed: false,
                request: denied_request(id),
            },
        ),
        !must_not_start(mode) && mode != "forbidden"@ ==> asked(
            step_of(StageView::Starting, EventView::Started(true), mode, id),
            create_request(id),
        ),
        step_of(StageView::Denied, EventView::Refused(error), mode, id).1 == if error
            is Forbidden {
            ActionView::Stop
        } else {
            ActionView::Fail
        },
{
}

/// Writes and evaluations are asked for twice by the same request and must be answered alike; new
/// records must be at their first revision; staff must be given `on`; and there must be one
/// receipt.
pub proof fn lemma_answers_are_checked(
    mode: Seq<char>,
    id: Seq<char>,
    flag: FlagView,
    again: FlagView,
    first: EvaluationView,
    second: EvaluationView,
    revision: Seq<char>,
    count: nat,
)
    ensures
        asked(
            step_of(StageView::Creating, EventView::Flag(flag), mode, id),
            create_request(id),
        ),
        ({
            let next = step_of(StageView::Recreating(flag), EventView::Flag(again), mode, id);
            if flag == again && flag.revision == "1"@ {
                asked(next, put_request(id))
            } else {
                next.1 is Fail
            }
        }),
        ({
            let next = step_of(StageView::Putting, EventView::Environment(revision), mode, id);
            if revision == "1"@ {
                asked(next, publish_request(id))
            } else {
                next.1 is Fail
            }
        }),
        ({
            let next = step_of(StageView::Publishing, EventView::Publication(revision), mode, id);
            if revision == "1"@ {
                asked(next, evaluate_request(id))
            } else {
                next.1 is Fail
            }
        }),
        asked(
            step_of(StageView::Evaluating, EventView::Evaluation(first), mode, id),
            evaluate_request(id),
        ),
        ({
            let next = step_of(
                StageView::Reevaluating(first),
                EventView::Evaluation(second),
                mode,
                id,
            );
            if evaluations_equal(first, second) && first.variant_key == "on"@ {
                asked(next, receipts_request())
            } else {
                next.1 is Fail
            }
        }),
        ({
            let next = step_of(StageView::Listing, EventView::Receipts(count), mode, id);
            if count == 1 {
                next.1 is Stop
            } else {
                next.1 is Fail
            }
        }),
        step_of(StageView::Stopping, EventView::Stopped(true), mode, id).1 == ActionView::Finish(
            "passed"@,
        ),
        step_of(StageView::Stopping, EventView::Stopped(false), mode, id).1 is Fail,
{
}

/// The plugin is started with another binding than the configured one in one mode alone, and must
/// not start then.
pub proof fn lemma_wrong_binding_must_not_start(mode: Seq<char>)
    ensures
        misbinds(mode) <==> mode == "wrong-binding"@,
        misbinds(mode) ==> must_not_start(mode),
{
}

} // verus!
