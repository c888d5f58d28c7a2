//! The application that the plugin is qualified in: the plugin itself, a caller that may, a caller
//! that may not, and stand-ins for what the plugin requires.

use vstd::prelude::*;
use lenso_app_plan::{
    AppComposition, CapabilityBinding, CapabilityEndpointPlan, CapabilityRequirementPlan,
    PluginInstancePlan,
};
use crate::domain::{copy_texts, optional_text, texts};
use super::order::{ascending, sort_texts};

verus! {

/// What identifies a capability, and its operations.
#[derive(Debug)]
pub struct Capability {
    pub id: String,
    pub version: String,
    pub operations: Vec<String>,
}

/// The model of a `Capability`.
pub struct CapabilityView {
    pub id: Seq<char>,
    pub version: Seq<char>,
    pub operations: Seq<Seq<char>>,
}

impl View for Capability {
    type V = CapabilityView;

    open spec fn view(&self) -> CapabilityView {
        CapabilityView {
            id: self.id@,
            version: self.version@,
            operations: texts(self.operations@),
        }
    }
}

impl Capability {
    fn copy(&self) -> (copy: Capability)
        ensures
            copy@ == self@,
    {
        Capability {
            id: self.id.clone(),
            version: self.version.clone(),
            operations: copy_texts(&self.operations),
        }
    }

    fn requirement(&self) -> (requirement: Requirement)
        ensures
            requirement@ == requires_one(self@),
    {
        Requirement { id: self.id.clone(), version: self.version.clone() }
    }
}

/// A capability that exactly one provider must have.
#[derive(Debug)]
pub struct Requirement {
    pub id: String,
    pub version: String,
}

/// The model of a `Requirement`.
pub struct RequirementView {
    pub id: Seq<char>,
    pub version: Seq<char>,
}

impl View for Requirement {
    type V = RequirementView;

    open spec fn view(&self) -> RequirementView {
        RequirementView { id: self.id@, version: self.version@ }
    }
}

/// An instance of a package.
#[derive(Debug)]
pub struct Instance {
    pub key: String,
    pub package: String,
    /// The JSON text of the configuration.
    pub configuration: String,
    pub requirements: Vec<Requirement>,
    pub capabilities: Vec<Capability>,
}

/// The model of an `Instance`.
pub struct InstanceView {
    pub key: Seq<char>,
    pub package: Seq<char>,
    pub configuration: Seq<char>,
    pub requirements: Seq<RequirementView>,
    pub capabilities: Seq<CapabilityView>,
}

impl View for Instance {
    type V = InstanceView;

    open spec fn view(&self) -> InstanceView {
        InstanceView {
            key: self.key@,
            package: self.package@,
            configuration: self.configuration@,
            requirements: self.requirements@.map_values(|r: Requirement| r@),
            capabilities: self.capabilities@.map_values(|c: Capability| c@),
        }
    }
}

/// Who gets a capability from whom.
#[derive(Debug)]
pub struct Binding {
    pub consumer: String,
    pub id: String,
    pub version: String,
    pub provider: String,
}

/// The model of a `Binding`.
pub struct BindingView {
    pub consumer: Seq<char>,
    pub id: Seq<char>,
    pub version: Seq<char>,
    pub provider: Seq<char>,
}

impl View for Binding {
    type V = BindingView;

    open spec fn view(&self) -> BindingView {
        BindingView {
            consumer: self.consumer@,
            id: self.id@,
            version: self.version@,
            provider: self.provider@,
        }
    }
}

/// Instances, each taken by its model.
pub open spec fn instances_view(instances: Seq<Instance>) -> Seq<InstanceView> {
    instances.map_values(|instance: Instance| instance@)
}

/// Bindings, each taken by its model.
pub open spec fn bindings_view(bindings: Seq<Binding>) -> Seq<BindingView> {
    bindings.map_values(|binding: Binding| binding@)
}

/// The JSON text of the plan that `lenso_app_plan` resolves instances and bindings to; nothing
/// where they do not resolve.
pub uninterp spec fn resolved_plan(
    instances: Seq<InstanceView>,
    bindings: Seq<BindingView>,
) -> Option<Seq<char>>;

/// `lenso_app_plan::AppComposition::new` on the given instances and bindings, `resolve`, and
/// `serde_json::to_string` of the resolved plan. What comes out is a function of the instances and
/// bindings alone, under the name `resolved_plan`.
#[verifier::external_body]
fn resolve(instances: &[Instance], bindings: &[Binding]) -> (plan: Option<String>)
    ensures
        optional_text(plan) == resolved_plan(instances_view(instances@), bindings_view(bindings@)),
{
    let instances = instances.iter().map(|i| {
        let plan = PluginInstancePlan::new(&i.key, &i.package).with_configuration(&i.configuration);
        i.capabilities.iter().fold(i.requirements.iter().fold(plan, |plan, r|
            plan.with_requirement(CapabilityRequirementPlan::one(&r.id, &r.version))), |plan, c|
            plan.with_capability(CapabilityEndpointPlan::new(&c.id, &c.version, &c.operations)))
    });
    let composition = AppComposition::new(instances.collect(), bindings.iter().map(|b|
        CapabilityBinding::new(&b.consumer, &b.id, &b.version, &b.provider)).collect());
    serde_json::to_string(&composition.resolve().ok()?).ok()
}

/// The capabilities that the application is composed of: two that the plugin has, and two that it
/// requires.
#[derive(Debug)]
pub struct Capabilities {
    pub evaluation: Capability,
    pub admin: Capability,
    pub membership: Capability,
    pub access: Capability,
}

/// The requirement of exactly one provider of a capability.
pub open spec fn requires_one(capability: CapabilityView) -> RequirementView {
    RequirementView { id: capability.id, version: capability.version }
}

/// The capability with its operations in ascending order.
pub open spec fn ordered(capability: CapabilityView) -> CapabilityView {
    CapabilityView { operations: ascending(capability.operations), ..capability }
}

/// A caller: it requires both capabilities of the plugin.
pub open spec fn caller_of(key: Seq<char>, capabilities: Capabilities) -> InstanceView {
    InstanceView {
        key,
        package: "test.feature-flag-caller"@,
        configuration: "{}"@,
        requirements: seq![
            requires_one(capabilities.evaluation@),
            requires_one(capabilities.admin@),
        ],
        capabilities: seq![],
    }
}

/// A stand-in that has one capability.
pub open spec fn fixture_of(
    key: Seq<char>,
    package: Seq<char>,
    capability: CapabilityView,
) -> InstanceView {
    InstanceView {
        key,
        package,
        configuration: "{}"@,
        requirements: seq![],
        capabilities: seq![capability],
    }
}

/// The plugin under qualification.
pub open spec fn feature_of(
    package: Seq<char>,
    configuration: Seq<char>,
    capabilities: Capabilities,
) -> InstanceView {
    InstanceView {
        key: "feature"@,
        package,
        configuration,
        requirements: seq![
            requires_one(capabilities.membership@),
            requires_one(capabilities.access@),
        ],
        capabilities: seq![ordered(capabilities.evaluation@), ordered(capabilities.admin@)],
    }
}

/// The instances of the application.
pub open spec fn composed_instances(
    package: Seq<char>,
    configuration: Seq<char>,
    capabilities: Capabilities,
) -> Seq<InstanceView> {
    seq![
        caller_of("caller"@, capabilities),
        caller_of("denied"@, capabilities),
        feature_of(package, configuration, capabilities),
        fixture_of(
            "membership"@,
            "fixture.organization-membership"@,
            capabilities.membership@,
        ),
        fixture_of("access"@, "fixture.access-control"@, capabilities.access@),
    ]
}

/// A consumer gets a capability from a provider.
pub open spec fn bound(
    consumer: Seq<char>,
    capability: CapabilityView,
    provider: Seq<char>,
) -> BindingView {
    BindingView { consumer, id: capability.id, version: capability.version, provider }
}

/// The bindings of the application: both callers get the plugin's capabilities from it, and the
/// plugin gets what it requires from the stand-ins.
pub open spec fn composed_bindings(capabilities: Capabilities) -> Seq<BindingView> {
    seq![
        bound("caller"@, capabilities.evaluation@, "feature"@),
        bound("caller"@, capabilities.admin@, "feature"@),
        bound("denied"@, capabilities.evaluation@, "feature"@),
        bound("denied"@, capabilities.admin@, "feature"@),
        bound("feature"@, capabilities.membership@, "membership"@),
        bound("feature"@, capabilities.access@, "access"@),
    ]
}

fn caller(key: &str, capabilities: &Capabilities) -> (instance: Instance)
    ensures
        instance@ == caller_of(key@, *capabilities),
{
    let instance = Instance {
        key: key.to_owned(),
        package: "test.feature-flag-caller".to_owned(),
        configuration: "{}".to_owned(),
        requirements: vec![
            capabilities.evaluation.requirement(),
            capabilities.admin.requirement(),
        ],
        capabilities: vec![],
    };
    assert(instance@.requirements =~= caller_of(key@, *capabilities).requirements);
    assert(instance@.capabilities =~= Seq::<CapabilityView>::empty());
    instance
}

fn fixture(key: &str, package: &str, capability: &Capability) -> (instance: Instance)
    ensures
        instance@ == fixture_of(key@, package@, capability@),
{
    let instance = Instance {
        key: key.to_owned(),
        package: package.to_owned(),
        configuration: "{}".to_owned(),
        requirements: vec![],
        capabilities: vec![capability.copy()],
    };
    assert(instance@.requirements =~= Seq::<RequirementView>::empty());
    assert(instance@.capabilities =~= seq![capability@]);
    instance
}

fn sorted(capability: &Capability) -> (sorted: Capability)
    ensures
        sorted@ == ordered(capability@),
{
    let copy = capability.copy();
    Capability { id: copy.id, version: copy.version, operations: sort_texts(copy.operations) }
}

fn feature(package: &str, configuration: &str, capabilities: &Capabilities) -> (instance: Instance)
    ensures
        instance@ == feature_of(package@, configuration@, *capabilities),
{
    let instance = Instance {
        key: "feature".to_owned(),
        package: package.to_owned(),
        configuration: configuration.to_owned(),
        requirements: vec![
            capabilities.membership.requirement(),
            capabilities.access.requirement(),
        ],
        capabilities: vec![sorted(&capabilities.evaluation), sorted(&capabilities.admin)],
    };
    let ghost wanted = feature_of(package@, configuration@, *capabilities);
    assert(instance@.requirements =~= wanted.requirements);
    assert(instance@.capabilities =~= wanted.capabilities);
    instance
}

fn bind(consumer: &str, capability: &Capability, provider: &str) -> (binding: Binding)
    ensures
        binding@ == bound(consumer@, capability@, provider@),
{
    Binding {
        consumer: consumer.to_owned(),
        id: capability.id.clone(),
        version: capability.version.clone(),
        provider: provider.to_owned(),
    }
}

/// The instances of the application, and their bindings.
pub fn composed(package: &str, configuration: &str, capabilities: &Capabilities) -> (parts: (
    Vec<Instance>,
    Vec<Binding>,
))
    ensures
        instances_view(parts.0@) == composed_instances(package@, configuration@, *capabilities),
        bindings_view(parts.1@) == composed_bindings(*capabilities),
{
    let instances = vec![
        caller("caller", capabilities),
        caller("denied", capabilities),
        feature(package, configuration, capabilities),
        fixture("membership", "fixture.organization-membership", &capabilities.membership),
        fixture("access", "fixture.access-control", &capabilities.access),
    ];
    let bindings = vec![
        bind("caller", &capabilities.evaluation, "feature"),
        bind("caller", &capabilities.admin, "feature"),
        bind("denied", &capabilities.evaluation, "feature"),
        bind("denied", &capabilities.admin, "feature"),
        bind("feature", &capabilities.membership, "membership"),
        bind("feature", &capabilities.access, "access"),
    ];
    assert(instances_view(instances@) =~= composed_instances(
        package@,
        configuration@,
        *capabilities,
    ));
    assert(bindings_view(bindings@) =~= composed_bindings(*capabilities));
    (instances, bindings)
}

/// The JSON text of the application's resolved plan; nothing where it does not resolve.
pub fn composition(package: &str, configuration: &str, capabilities: &Capabilities) -> (plan:
    Option<String>)
    ensures
        optional_text(plan) == resolved_plan(
            composed_instances(package@, configuration@, *capabilities),
            composed_bindings(*capabilities),
        ),
{
    let (instances, bindings) = composed(package, configuration, capabilities);
    resolve(instances.as_slice(), bindings.as_slice())
}

/// Every requirement of every instance is bound, to an instance of the application that has the
/// capability in that version.
pub proof fn lemma_every_requirement_is_bound(
    package: Seq<char>,
    configuration: Seq<char>,
    capabilities: Capabilities,
    i: int,
    r: int,
)
    requires
        0 <= i < 5,
        0 <= r < composed_instances(package, configuration, capabilities)[i].requirements.len(),
    ensures
        ({
            let instances = composed_instances(package, configuration, capabilities);
            let requirement = instances[i].requirements[r];
            exists|b: int, p: int, c: int|
                0 <= b < 6 && 0 <= p < 5 && 0 <= c < instances[p].capabilities.len()
                    && #[trigger] composed_bindings(capabilities)[b] == (BindingView {
                    consumer: instances[i].key,
                    id: requirement.id,
                    version: requirement.version,
                    provider: instances[p].key,
                }) && (#[trigger] instances[p].capabilities[c]).id == requirement.id
                    && instances[p].capabilities[c].version == requirement.version
        }),
{
    let instances = composed_instances(package, configuration, capabilities);
    let bindings = composed_bindings(capabilities);
    assert(i < 3);
    let b: int = if i == 0 {
        r
    } else if i == 1 {
        2 + r
    } else {
        4 + r
    };
    let p: int = if i == 2 {
        3 + r
    } else {
        2
    };
    let c: int = if i == 2 {
        0
    } else {
        r
    };
    assert(bindings[b].consumer == instances[i].key);
    assert(instances[p].capabilities[c].id == instances[i].requirements[r].id);
}

} // verus!
