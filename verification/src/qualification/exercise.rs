//! What the plugin is put through, call by call, and what each answer must be.

use vstd::prelude::*;
use vstd::string::*;
use crate::domain::{
    optional_text, same_optional, same_value, texts, values_equal, DefinitionView,
    EvaluationRecord, EvaluationView, FlagRecord, FlagView, RuleView, RulesetDefinition,
    TargetingRuleRecord, ValueRecord, ValueView, VariantRecord, VariantView,
};
use crate::text::text_equal;
use crate::tools::AdminError;

verus! {

/// The configuration that the plugin is qualified with.
pub const CONFIGURATION: &'static str =
    "{\"binding\":\"FEATURES\",\"auth_issuer\":\"auth.test\",\"auth_assertion_public_key\":\"KXWGlTbYIKmYXJl3YacNv69bI6ZcsmUL_Glc6HDWrbY\",\"evaluation_callers\":[\"caller\"],\"admin_callers\":[\"caller\"],\"max_context_bytes\":16384,\"max_attributes\":32,\"max_batch_size\":50}";

/// The plugin is started with a binding of another name than the configured one.
pub open spec fn misbinds(mode: Seq<char>) -> bool {
    mode == "wrong-binding"@
}

/// The name of the binding that the plugin is started with.
pub fn binding_name(mode: &str) -> (name: &'static str)
    ensures
        name@ == if misbinds(mode@) {
            "WRONG"@
        } else {
            "FEATURES"@
        },
{
    if text_equal(mode, "wrong-binding") {
        "WRONG"
    } else {
        "FEATURES"
    }
}

/// The application must not start.
pub open spec fn must_not_start(mode: Seq<char>) -> bool {
    mode == "missing-schema"@ || mode == "wrong-binding"@ || mode == "throws"@ || mode
        == "malformed"@
}

fn startup_rejected(mode: &str) -> (rejected: bool)
    ensures
        rejected == must_not_start(mode@),
{
    text_equal(mode, "missing-schema") || text_equal(mode, "wrong-binding") || text_equal(
        mode,
        "throws",
    ) || text_equal(mode, "malformed")
}

/// `lenso_auth_sdk::audience`: the capability and the operation, with a colon between them.
#[verifier::external_body]
fn audience(capability: &str, operation: &str) -> (text: String)
    ensures
        text@ == capability@ + ":"@ + operation@,
{
    lenso_auth_sdk::audience(capability, operation)
}

/// Whether an assertion is meant for an operation of a capability.
pub fn meant_for(audiences: &[String], capability: &str, operation: &str) -> (meant: bool)
    ensures
        meant == texts(audiences@).contains(capability@ + ":"@ + operation@),
{
    audience_covers(audiences, audience(capability, operation).as_str())
}

/// Whether an audience is among those of an assertion.
pub fn audience_covers(audiences: &[String], wanted: &str) -> (covered: bool)
    ensures
        covered == texts(audiences@).contains(wanted@),
{
    let mut i: usize = 0;
    while i < audiences.len()
        invariant
            i <= audiences@.len(),
            forall|j: int| 0 <= j < i ==> (#[trigger] texts(audiences@)[j]) != wanted@,
        decreases audiences@.len() - i,
    {
        assert(texts(audiences@)[i as int] == audiences@[i as int]@);
        if text_equal(audiences[i].as_str(), wanted) {
            return true;
        }
        i += 1;
    }
    false
}

/// What is asked of the plugin.
#[derive(Debug)]
#[allow(inconsistent_fields)]
pub enum Request {
    CreateFlag {
        organization_id: String,
        flag_key: String,
        name: String,
        description: Option<String>,
        value_type: String,
        idempotency_key: String,
    },
    PutEnvironment {
        organization_id: String,
        environment_key: String,
        name: String,
        expected_revision: Option<String>,
        idempotency_key: String,
    },
    PublishRuleset {
        organization_id: String,
        flag_key: String,
        environment_key: String,
        expected_flag_revision: String,
        expected_environment_revision: String,
        definition: RulesetDefinition,
        idempotency_key: String,
    },
    Evaluate {
        organization_id: String,
        flag_key: String,
        environment_key: String,
        targeting_key: String,
        attribute: String,
        content: String,
        evaluation_id: String,
    },
    ListReceipts {
        organization_id: String,
        flag_key: Option<String>,
        environment_key: Option<String>,
        limit: i64,
    },
}

/// The model of a `Request`.
#[allow(inconsistent_fields)]
pub enum RequestView {
    CreateFlag {
        organization_id: Seq<char>,
        flag_key: Seq<char>,
        name: Seq<char>,
        description: Option<Seq<char>>,
        value_type: Seq<char>,
        idempotency_key: Seq<char>,
    },
    PutEnvironment {
        organization_id: Seq<char>,
        environment_key: Seq<char>,
        name: Seq<char>,
        expected_revision: Option<Seq<char>>,
        idempotency_key: Seq<char>,
    },
    PublishRuleset {
        organization_id: Seq<char>,
        flag_key: Seq<char>,
        environment_key: Seq<char>,
        expected_flag_revision: Seq<char>,
        expected_environment_revision: Seq<char>,
        definition: DefinitionView,
        idempotency_key: Seq<char>,
    },
    Evaluate {
        organization_id: Seq<char>,
        flag_key: Seq<char>,
        environment_key: Seq<char>,
        targeting_key: Seq<char>,
        attribute: Seq<char>,
        content: Seq<char>,
        evaluation_id: Seq<char>,
    },
    ListReceipts {
        organization_id: Seq<char>,
        flag_key: Option<Seq<char>>,
        environment_key: Option<Seq<char>>,
        limit: int,
    },
}

impl View for Request {
    type V = RequestView;

    open spec fn view(&self) -> RequestView {
        match *self {
            Request::CreateFlag {
                organization_id,
                flag_key,
                name,
                description,
                value_type,
                idempotency_key,
            } => RequestView::CreateFlag {
                organization_id: organization_id@,
                flag_key: flag_key@,
                name: name@,
                description: optional_text(description),
                value_type: value_type@,
                idempotency_key: idempotency_key@,
            },
            Request::PutEnvironment {
                organization_id,
                environment_key,
                name,
                expected_revision,
                idempotency_key,
            } => RequestView::PutEnvironment {
                organization_id: organization_id@,
                environment_key: environment_key@,
                name: name@,
                expected_revision: optional_text(expected_revision),
                idempotency_key: idempotency_key@,
            },
            Request::PublishRuleset {
                organization_id,
                flag_key,
                environment_key,
                expected_flag_revision,
                expected_environment_revision,
                definition,
                idempotency_key,
            } => RequestView::PublishRuleset {
                organization_id: organization_id@,
                flag_key: flag_key@,
                environment_key: environment_key@,
                expected_flag_revision: expected_flag_revision@,
                expected_environment_revision: expected_environment_revision@,
                definition: definition@,
                idempotency_key: idempotency_key@,
            },
            Request::Evaluate {
                organization_id,
                flag_key,
                environment_key,
                targeting_key,
                attribute,
                content,
                evaluation_id,
            } => RequestView::Evaluate {
                organization_id: organization_id@,
                flag_key: flag_key@,
                environment_key: environment_key@,
                targeting_key: targeting_key@,
                attribute: attribute@,
                content: content@,
                evaluation_id: evaluation_id@,
            },
            Request::ListReceipts { organization_id, flag_key, environment_key, limit } => {
                RequestView::ListReceipts {
                    organization_id: organization_id@,
                    flag_key: optional_text(flag_key),
                    environment_key: optional_text(environment_key),
                    limit: limit as int,
                }
            },
        }
    }
}

/// How far the exercise has come.
#[derive(Debug)]
pub enum Stage {
    /// The application is being started.
    Starting,
    /// A caller that may not asks for a flag.
    Denied,
    /// The flag is being created.
    Creating,
    /// The flag is being created again, by the same request.
    Recreating(FlagRecord),
    /// The environment is being put.
    Putting,
    /// The ruleset is being published.
    Publishing,
    /// The flag is being evaluated.
    Evaluating,
    /// The flag is being evaluated again, by the same request.
    Reevaluating(EvaluationRecord),
    /// The receipts are being listed.
    Listing,
    /// The application is being shut down.
    Stopping,
    /// The exercise is over.
    Done,
}

/// The model of a `Stage`.
pub enum StageView {
    Starting,
    Denied,
    Creating,
    Recreating(FlagView),
    Putting,
    Publishing,
    Evaluating,
    Reevaluating(EvaluationView),
    Listing,
    Stopping,
    Done,
}

impl View for Stage {
    type V = StageView;

    open spec fn view(&self) -> StageView {
        match *self {
            Stage::Starting => StageView::Starting,
            Stage::Denied => StageView::Denied,
            Stage::Creating => StageView::Creating,
            Stage::Recreating(created) => StageView::Recreating(created@),
            Stage::Putting => StageView::Putting,
            Stage::Publishing => StageView::Publishing,
            Stage::Evaluating => StageView::Evaluating,
            Stage::Reevaluating(evaluated) => StageView::Reevaluating(evaluated@),
            Stage::Listing => StageView::Listing,
            Stage::Stopping => StageView::Stopping,
            Stage::Done => StageView::Done,
        }
    }
}

/// What the exercise learns.
#[derive(Debug)]
pub enum Event {
    /// The application started, or not.
    Started(bool),
    /// The plugin answered with a flag.
    Flag(FlagRecord),
    /// The plugin answered with an environment of this revision.
    Environment(String),
    /// The plugin answered with a publication of a ruleset of this revision.
    Publication(String),
    /// The plugin answered with an evaluation.
    Evaluation(EvaluationRecord),
    /// The plugin answered with so many receipts.
    Receipts(usize),
    /// The plugin refused.
    Refused(AdminError),
    /// The plugin could not be asked.
    Broken,
    /// The application was shut down, cleanly or not.
    Stopped(bool),
}

/// The model of an `Event`.
pub enum EventView {
    Started(bool),
    Flag(FlagView),
    Environment(Seq<char>),
    Publication(Seq<char>),
    Evaluation(EvaluationView),
    Receipts(nat),
    Refused(AdminError),
    Broken,
    Stopped(bool),
}

impl View for Event {
    type V = EventView;

    open spec fn view(&self) -> EventView {
        match *self {
            Event::Started(started) => EventView::Started(started),
            Event::Flag(flag) => EventView::Flag(flag@),
            Event::Environment(revision) => EventView::Environment(revision@),
            Event::Publication(revision) => EventView::Publication(revision@),
            Event::Evaluation(record) => EventView::Evaluation(record@),
            Event::Receipts(count) => EventView::Receipts(count as nat),
            Event::Refused(error) => EventView::Refused(error),
            Event::Broken => EventView::Broken,
            Event::Stopped(clean) => EventView::Stopped(clean),
        }
    }
}

/// What the exercise does next.
#[derive(Debug)]
pub enum Action {
    /// Ask the plugin, as an instance of the application; signed with the actor's assertion, or
    /// not.
    Invoke { instance: &'static str, signed: bool, request: Request },
    /// Shut the application down.
    Stop,
    /// Report the outcome.
    Finish(&'static str),
    /// Report that the qualification failed.
    Fail,
    /// Do nothing: the event does not belong here.
    Ignore,
}

/// The model of an `Action`.
pub enum ActionView {
    Invoke { instance: Seq<char>, signed: bool, request: RequestView },
    Stop,
    Finish(Seq<char>),
    Fail,
    Ignore,
}

impl View for Action {
    type V = ActionView;

    open spec fn view(&self) -> ActionView {
        match *self {
            Action::Invoke { instance, signed, request } => ActionView::Invoke {
                instance: instance@,
                signed,
                request: request@,
            },
            Action::Stop => ActionView::Stop,
            Action::Finish(outcome) => ActionView::Finish(outcome@),
            Action::Fail => ActionView::Fail,
            Action::Ignore => ActionView::Ignore,
        }
    }
}

/// The request of the flag, by the caller that may not.
pub open spec fn denied_request(id: Seq<char>) -> RequestView {
    RequestView::CreateFlag {
        organization_id: "org"@,
        flag_key: "checkout"@,
        name: "Checkout"@,
        description: None,
        value_type: "boolean"@,
        idempotency_key: id,
    }
}

/// The request of the flag.
pub open spec fn create_request(id: Seq<char>) -> RequestView {
    RequestView::CreateFlag {
        organization_id: "org"@,
        flag_key: "checkout"@,
        name: "Checkout"@,
        description: Some("fixture"@),
        value_type: "boolean"@,
        idempotency_key: "create-"@ + id,
    }
}

/// The request of the environment.
pub open spec fn put_request(id: Seq<char>) -> RequestView {
    RequestView::PutEnvironment {
        organization_id: "org"@,
        environment_key: "prod"@,
        name: "Production"@,
        expected_revision: None,
        idempotency_key: "environment-"@ + id,
    }
}

/// A variant with a truth value.
pub open spec fn truth_variant(key: Seq<char>, truth: bool) -> VariantView {
    VariantView {
        variant_key: key,
        value: ValueView {
            value_type: "boolean"@,
            boolean_value: Some(truth),
            string_value: None,
            integer_value: None,
            double_value: None,
            json_value: None,
        },
    }
}

/// The ruleset: on for staff, else off.
pub open spec fn staff_ruleset() -> DefinitionView {
    DefinitionView {
        variants: seq![truth_variant("off"@, false), truth_variant("on"@, true)],
        targeting_rules: seq![
            RuleView {
                rule_id: "staff"@,
                attribute: "tier"@,
                operator: "equals"@,
                comparison_values: seq!["staff"@],
                variant_key: "on"@,
            },
        ],
        percentage_rollout: seq![],
        fallthrough_variant: "off"@,
    }
}

/// The request of the publication.
pub open spec fn publish_request(id: Seq<char>) -> RequestView {
    RequestView::PublishRuleset {
        organization_id: "org"@,
        flag_key: "checkout"@,
        environment_key: "prod"@,
        expected_flag_revision: "1"@,
        expected_environment_revision: "1"@,
        definition: staff_ruleset(),
        idempotency_key: "publish-"@ + id,
    }
}

/// The request of the evaluation.
pub open spec fn evaluate_request(id: Seq<char>) -> RequestView {
    RequestView::Evaluate {
        organization_id: "org"@,
        flag_key: "checkout"@,
        environment_key: "prod"@,
        targeting_key: "usr_1"@,
        attribute: "tier"@,
        content: "staff"@,
        evaluation_id: "evaluation-"@ + id,
    }
}

/// The request of the receipts.
pub open spec fn receipts_request() -> RequestView {
    RequestView::ListReceipts {
        organization_id: "org"@,
        flag_key: Some("checkout"@),
        environment_key: Some("prod"@),
        limit: 10,
    }
}

fn joined(prefix: &str, id: &str) -> (text: String)
    ensures
        text@ == prefix@ + id@,
{
    let mut text = prefix.to_owned();
    text.append(id);
    text
}

fn make_create_request(id: &str) -> (request: Request)
    ensures
        request@ == create_request(id@),
{
    Request::CreateFlag {
        organization_id: "org".to_owned(),
        flag_key: "checkout".to_owned(),
        name: "Checkout".to_owned(),
        description: Some("fixture".to_owned()),
        value_type: "boolean".to_owned(),
        idempotency_key: joined("create-", id),
    }
}

fn make_truth_variant(key: &str, truth: bool) -> (variant: VariantRecord)
    ensures
        variant@ == truth_variant(key@, truth),
{
    VariantRecord {
        variant_key: key.to_owned(),
        value: ValueRecord {
            value_type: "boolean".to_owned(),
            boolean_value: Some(truth),
            string_value: None,
            integer_value: None,
            double_value: None,
            json_value: None,
        },
    }
}

/// The ruleset that the exercise publishes.
pub fn make_staff_ruleset() -> (definition: RulesetDefinition)
    ensures
        definition@ == staff_ruleset(),
{
    let rule = TargetingRuleRecord {
        rule_id: "staff".to_owned(),
        attribute: "tier".to_owned(),
        operator: "equals".to_owned(),
        comparison_values: vec!["staff".to_owned()],
        variant_key: "on".to_owned(),
    };
    assert(rule@.comparison_values =~= seq!["staff"@]);
    let definition = RulesetDefinition {
        variants: vec![make_truth_variant("off", false), make_truth_variant("on", true)],
        targeting_rules: vec![rule],
        percentage_rollout: vec![],
        fallthrough_variant: "off".to_owned(),
    };
    assert(definition@.variants =~= staff_ruleset().variants);
    assert(definition@.targeting_rules =~= staff_ruleset().targeting_rules);
    assert(definition@.percentage_rollout =~= staff_ruleset().percentage_rollout);
    definition
}

fn make_evaluate_request(id: &str) -> (request: Request)
    ensures
        request@ == evaluate_request(id@),
{
    Request::Evaluate {
        organization_id: "org".to_owned(),
        flag_key: "checkout".to_owned(),
        environment_key: "prod".to_owned(),
        targeting_key: "usr_1".to_owned(),
        attribute: "tier".to_owned(),
        content: "staff".to_owned(),
        evaluation_id: joined("evaluation-", id),
    }
}

/// Whether two flags are the same in every field.
pub fn same_flag(a: &FlagRecord, b: &FlagRecord) -> (same: bool)
    ensures
        same == (a@ == b@),
{
    text_equal(a.organization_id.as_str(), b.organization_id.as_str()) && text_equal(
        a.flag_key.as_str(),
        b.flag_key.as_str(),
    ) && text_equal(a.name.as_str(), b.name.as_str()) && same_optional(
        &a.description,
        &b.description,
    ) && text_equal(a.value_type.as_str(), b.value_type.as_str()) && a.archived == b.archived
        && text_equal(a.revision.as_str(), b.revision.as_str()) && text_equal(
        a.created_at.as_str(),
        b.created_at.as_str(),
    ) && text_equal(a.updated_at.as_str(), b.updated_at.as_str()) && same_optional(
        &a.archived_at,
        &b.archived_at,
    ) && a.row_seq == b.row_seq
}

/// The evaluations are equal, field by field.
pub open spec fn evaluations_equal(a: EvaluationView, b: EvaluationView) -> bool {
    &&& a.flag_key == b.flag_key
    &&& a.environment_key == b.environment_key
    &&& a.variant_key == b.variant_key
    &&& values_equal(a.value, b.value)
    &&& a.reason == b.reason
    &&& a.ruleset_revision == b.ruleset_revision
    &&& a.receipt_id == b.receipt_id
    &&& a.evaluated_at == b.evaluated_at
}

/// Whether two evaluations are equal in every field.
pub fn same_evaluation(a: &EvaluationRecord, b: &EvaluationRecord) -> (same: bool)
    ensures
        same == evaluations_equal(a@, b@),
{
    text_equal(a.flag_key.as_str(), b.flag_key.as_str()) && text_equal(
        a.environment_key.as_str(),
        b.environment_key.as_str(),
    ) && text_equal(a.variant_key.as_str(), b.variant_key.as_str()) && same_value(
        &a.value,
        &b.value,
    ) && text_equal(a.reason.as_str(), b.reason.as_str()) && text_equal(
        a.ruleset_revision.as_str(),
        b.ruleset_revision.as_str(),
    ) && text_equal(a.receipt_id.as_str(), b.receipt_id.as_str()) && text_equal(
        a.evaluated_at.as_str(),
        b.evaluated_at.as_str(),
    )
}

/// The exercise fails.
pub open spec fn fails() -> (StageView, ActionView) {
    (StageView::Done, ActionView::Fail)
}

/// The exercise goes on by asking the plugin, signed, as the caller that may.
pub open spec fn asks(stage: StageView, request: RequestView) -> (StageView, ActionView) {
    (stage, ActionView::Invoke { instance: "caller"@, signed: true, request })
}

/// How the exercise goes on once the flag was evaluated again, the answers being equal or not.
pub open spec fn reevaluated(evaluated: EvaluationView, equal: bool) -> (StageView, ActionView) {
    if equal && evaluated.variant_key == "on"@ {
        asks(StageView::Listing, receipts_request())
    } else {
        fails()
    }
}

/// How the exercise goes on.
pub open spec fn step_of(
    stage: StageView,
    event: EventView,
    mode: Seq<char>,
    id: Seq<char>,
) -> (StageView, ActionView) {
    match (stage, event) {
        (StageView::Starting, EventView::Started(started)) => if must_not_start(mode) {
            if started {
                fails()
            } else {
                (StageView::Done, ActionView::Finish("startup-rejected"@))
            }
        } else if !started {
            fails()
        } else if mode == "forbidden"@ {
            (
                StageView::Denied,
                ActionView::Invoke {
                    instance: "denied"@,
                    signed: false,
                    request: denied_request(id),
                },
            )
        } else {
            asks(StageView::Creating, create_request(id))
        },
        (StageView::Denied, EventView::Refused(error)) => if error is Forbidden {
            (StageView::Stopping, ActionView::Stop)
        } else {
            fails()
        },
        (StageView::Denied, EventView::Flag(_)) => fails(),
        (StageView::Creating, EventView::Flag(created)) => asks(
            StageView::Recreating(created),
            create_request(id),
        ),
        (StageView::Recreating(created), EventView::Flag(again)) => if created == again
            && created.revision == "1"@ {
            asks(StageView::Putting, put_request(id))
        } else {
            fails()
        },
        (StageView::Putting, EventView::Environment(revision)) => if revision == "1"@ {
            asks(StageView::Publishing, publish_request(id))
        } else {
            fails()
        },
        (StageView::Publishing, EventView::Publication(revision)) => if revision == "1"@ {
            asks(StageView::Evaluating, evaluate_request(id))
        } else {
            fails()
        },
        (StageView::Evaluating, EventView::Evaluation(evaluated)) => asks(
            StageView::Reevaluating(evaluated),
            evaluate_request(id),
        ),
        (StageView::Reevaluating(evaluated), EventView::Evaluation(again)) => reevaluated(
            evaluated,
            evaluations_equal(evaluated, again),
        ),
        (StageView::Listing, EventView::Receipts(count)) => if count == 1 {
            (StageView::Stopping, ActionView::Stop)
        } else {
            fails()
        },
        (StageView::Stopping, EventView::Stopped(clean)) => if clean {
            (StageView::Done, ActionView::Finish("passed"@))
        } else {
            fails()
        },
        (StageView::Done, _) => (StageView::Done, ActionView::Ignore),
        (_, EventView::Refused(_)) => fails(),
        (_, EventView::Broken) => fails(),
        _ => (stage, ActionView::Ignore),
    }
}

fn ask(stage: Stage, request: Request) -> (next: (Stage, Action))
    ensures
        (next.0@, next.1@) == asks(stage@, request@),
{
    (stage, Action::Invoke { instance: "caller", signed: true, request })
}

fn fail() -> (next: (Stage, Action))
    ensures
        (next.0@, next.1@) == fails(),
{
    (Stage::Done, Action::Fail)
}

fn on_started(started: bool, mode: &str, id: &str) -> (next: (Stage, Action))
    ensures
        (next.0@, next.1@) == step_of(
            StageView::Starting,
            EventView::Started(started),
            mode@,
            id@,
        ),
{
    if startup_rejected(mode) {
        if started {
            fail()
        } else {
            (Stage::Done, Action::Finish("startup-rejected"))
        }
    } else if !started {
        fail()
    } else if text_equal(mode, "forbidden") {
        (
            Stage::Denied,
            Action::Invoke {
                instance: "denied",
                signed: false,
                request: Request::CreateFlag {
                    organization_id: "org".to_owned(),
                    flag_key: "checkout".to_owned(),
                    name: "Checkout".to_owned(),
                    description: None,
                    value_type: "boolean".to_owned(),
                    idempotency_key: id.to_owned(),
                },
            },
        )
    } else {
        ask(Stage::Creating, make_create_request(id))
    }
}

/// How the exercise goes on once the flag was evaluated again, the answers being equal or not.
pub fn on_reevaluated(evaluated: &EvaluationRecord, equal: bool) -> (next: (Stage, Action))
    ensures
        (next.0@, next.1@) == reevaluated(evaluated@, equal),
{
    if equal && text_equal(evaluated.variant_key.as_str(), "on") {
        ask(
            Stage::Listing,
            Request::ListReceipts {
                organization_id: "org".to_owned(),
                flag_key: Some("checkout".to_owned()),
                environment_key: Some("prod".to_owned()),
                limit: 10,
            },
        )
    } else {
        fail()
    }
}

/// How the exercise goes on after an event.
pub fn exercise(stage: Stage, event: Event, mode: &str, id: &str) -> (next: (Stage, Action))
    ensures
        (next.0@, next.1@) == step_of(stage@, event@, mode@, id@),
{
    match (stage, event) {
        (Stage::Starting, Event::Started(started)) => on_started(started, mode, id),
        (Stage::Denied, Event::Refused(error)) => match error {
            AdminError::Forbidden => (Stage::Stopping, Action::Stop),
            _ => fail(),
        },
        (Stage::Denied, Event::Flag(_)) => fail(),
        (Stage::Creating, Event::Flag(created)) => ask(
            Stage::Recreating(created),
            make_create_request(id),
        ),
        (Stage::Recreating(created), Event::Flag(again)) => if same_flag(&created, &again)
            && text_equal(created.revision.as_str(), "1") {
            ask(
                Stage::Putting,
                Request::PutEnvironment {
                    organization_id: "org".to_owned(),
                    environment_key: "prod".to_owned(),
                    name: "Production".to_owned(),
                    expected_revision: None,
                    idempotency_key: joined("environment-", id),
                },
            )
        } else {
            fail()
        },
        (Stage::Putting, Event::Environment(revision)) => if text_equal(revision.as_str(), "1") {
            ask(
                Stage::Publishing,
                Request::PublishRuleset {
                    organization_id: "org".to_owned(),
                    flag_key: "checkout".to_owned(),
                    environment_key: "prod".to_owned(),
                    expected_flag_revision: "1".to_owned(),
                    expected_environment_revision: "1".to_owned(),
                    definition: make_staff_ruleset(),
                    idempotency_key: joined("publish-", id),
                },
            )
        } else {
            fail()
        },
        (Stage::Publishing, Event::Publication(revision)) => if text_equal(
            revision.as_str(),
            "1",
        ) {
            ask(Stage::Evaluating, make_evaluate_request(id))
        } else {
            fail()
        },
        (Stage::Evaluating, Event::Evaluation(evaluated)) => ask(
            Stage::Reevaluating(evaluated),
            make_evaluate_request(id),
        ),
        (Stage::Reevaluating(evaluated), Event::Evaluation(again)) => on_reevaluated(
            &evaluated,
            same_evaluation(&evaluated, &again),
        ),
        (Stage::Listing, Event::Receipts(count)) => if count == 1 {
            (Stage::Stopping, Action::Stop)
        } else {
            fail()
        },
        (Stage::Stopping, Event::Stopped(clean)) => if clean {
            (Stage::Done, Action::Finish("passed"))
        } else {
            fail()
        },
        (Stage::Done, _) => (Stage::Done, Action::Ignore),
        (_, Event::Refused(_)) => fail(),
        (_, Event::Broken) => fail(),
        (stage, _) => (stage, Action::Ignore),
    }
}

/// The stage after a run of events.
pub open spec fn stage_after(events: Seq<EventView>, mode: Seq<char>, id: Seq<char>) -> StageView
    decreases events.len(),
{
    if events.len() == 0 {
        StageView::Starting
    } else {
        step_of(stage_after(events.drop_last(), mode, id), events.last(), mode, id).0
    }
}

/// What the exercise does on the event at an index of a run.
pub open spec fn action_at(
    events: Seq<EventView>,
    index: int,
    mode: Seq<char>,
    id: Seq<char>,
) -> ActionView {
    step_of(stage_after(events.take(index), mode, id), events[index], mode, id).1
}

/// What was seen by the time that the exercise asked for the receipts: a flag at its first
/// revision, twice the same; an environment and a ruleset at their first; and an evaluation with
/// the variant for staff, twice an equal one.
pub open spec fn checks_passed(events: Seq<EventView>) -> bool {
    &&& events.len() >= 7
    &&& events[0] == EventView::Started(true)
    &&& events[1] is Flag && events[2] == events[1] && events[1]->Flag_0.revision == "1"@
    &&& events[3] == EventView::Environment("1"@)
    &&& events[4] == EventView::Publication("1"@)
    &&& events[5] is Evaluation && events[6] is Evaluation && evaluations_equal(
        events[5]->Evaluation_0,
        events[6]->Evaluation_0,
    )
    &&& events[5]->Evaluation_0.variant_key == "on"@
}

/// The exercise passes only where every check did: where no event went by unheeded, and neither a
/// start to be rejected nor a caller to be denied was asked for, the run that reports that it
/// passed has seen just the answers that it had to see, and one receipt, and a clean end.
pub proof fn lemma_passing_run_passed_every_check(
    events: Seq<EventView>,
    mode: Seq<char>,
    id: Seq<char>,
)
    requires
        events.len() > 0,
        !must_not_start(mode),
        mode != "forbidden"@,
        forall|i: int| 0 <= i < events.len() ==> !(#[trigger] action_at(events, i, mode, id)
            is Ignore),
        action_at(events, events.len() - 1, mode, id) == ActionView::Finish("passed"@),
    ensures
        events.len() == 9,
        checks_passed(events),
        events[7] == EventView::Receipts(1),
        events[8] == EventView::Stopped(true),
{
    let n = events.len() as int;
    reveal_with_fuel(stage_after, 2);
    assert(events.take(0) =~= Seq::<EventView>::empty());
    assert(!(action_at(events, 0, mode, id) is Ignore));
    reveal_strlit("startup-rejected");
    reveal_strlit("passed");
    assert("startup-rejected"@.len() != "passed"@.len());
    lemma_unheeded_none(events, mode, id, n - 1);
    assert(stage_after(events.take(n - 1), mode, id) is Stopping);
}

/// The stage that each number of events leads to, where every one was heeded.
spec fn reached(events: Seq<EventView>, k: int, stage: StageView) -> bool {
    &&& stage !is Denied
    &&& stage is Starting ==> k == 0
    &&& stage is Creating ==> k == 1 && events[0] == EventView::Started(true)
    &&& stage is Recreating ==> k == 2 && events[0] == EventView::Started(true) && events[1]
        == EventView::Flag(stage->Recreating_0)
    &&& stage is Putting ==> k == 3 && flag_checked(events)
    &&& stage is Publishing ==> k == 4 && flag_checked(events) && events[3]
        == EventView::Environment("1"@)
    &&& stage is Evaluating ==> k == 5 && flag_checked(events) && events[3]
        == EventView::Environment("1"@) && events[4] == EventView::Publication("1"@)
    &&& stage is Reevaluating ==> k == 6 && flag_checked(events) && events[3]
        == EventView::Environment("1"@) && events[4] == EventView::Publication("1"@)
        && events[5] == EventView::Evaluation(stage->Reevaluating_0)
    &&& stage is Listing ==> k == 7 && checks_passed(events)
    &&& stage is Stopping ==> k == 8 && checks_passed(events) && events[7]
        == EventView::Receipts(1)
}

spec fn flag_checked(events: Seq<EventView>) -> bool {
    &&& events[0] == EventView::Started(true)
    &&& events[1] is Flag && events[2] == events[1] && events[1]->Flag_0.revision == "1"@
}

proof fn lemma_unheeded_none(events: Seq<EventView>, mode: Seq<char>, id: Seq<char>, k: int)
    requires
        0 <= k < events.len(),
        !must_not_start(mode),
        mode != "forbidden"@,
        forall|i: int| 0 <= i < events.len() ==> !(#[trigger] action_at(events, i, mode, id)
            is Ignore),
    ensures
        reached(events, k, stage_after(events.take(k), mode, id)),
    decreases k,
{
    if k == 0 {
        assert(events.take(0) =~= Seq::<EventView>::empty());
    } else {
        lemma_unheeded_none(events, mode, id, k - 1);
        assert(events.take(k).drop_last() =~= events.take(k - 1));
        assert(events.take(k).last() == events[k - 1]);
        assert(!(action_at(events, k - 1, mode, id) is Ignore));
        assert(!(action_at(events, k, mode, id) is Ignore));
    }
}

} // verus!
