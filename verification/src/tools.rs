//! The tools that an agent has over the administration of flags: their catalog, which tool a
//! request names, and what a request is answered.

use vstd::prelude::*;
use vstd::string::*;
use crate::json::{
    compact_text, json_compact, json_member, json_text_object, json_with, json_without, member,
    text_object, with_member, without_member,
};
use crate::text::{
    lemma_replaced_is_gone, occurs, parts_ways, replaced, text_equal, text_replaced,
};

verus! {

pub const CREATE_FLAG_TOOL: &'static str = "feature_flag_admin_create_flag";

pub const GET_FLAG_TOOL: &'static str = "feature_flag_admin_get_flag";

pub const LIST_FLAGS_TOOL: &'static str = "feature_flag_admin_list_flags";

pub const UPDATE_FLAG_TOOL: &'static str = "feature_flag_admin_update_flag";

pub const ARCHIVE_FLAG_TOOL: &'static str = "feature_flag_admin_archive_flag";

pub const PUT_ENVIRONMENT_TOOL: &'static str = "feature_flag_admin_put_environment";

pub const PUBLISH_RULESET_TOOL: &'static str = "feature_flag_admin_publish_ruleset";

pub const LIST_EVALUATION_RECEIPTS_TOOL: &'static str =
    "feature_flag_admin_list_evaluation_receipts";

/// A tool.
#[derive(Clone, Copy, Debug, PartialEq, Eq, Structural)]
pub enum Tool {
    GetFlag,
    ListFlags,
    ListEvaluationReceipts,
    CreateFlag,
    UpdateFlag,
    ArchiveFlag,
    PutEnvironment,
    PublishRuleset,
}

/// How a tool may run beside others.
#[derive(Clone, Copy, Debug, PartialEq, Eq, Structural)]
pub enum ToolExecutionClass {
    ParallelSafe,
    Exclusive,
}

impl Tool {
    /// The tool's name.
    pub open spec fn text(self) -> Seq<char> {
        match self {
            Tool::GetFlag => GET_FLAG_TOOL@,
            Tool::ListFlags => LIST_FLAGS_TOOL@,
            Tool::ListEvaluationReceipts => LIST_EVALUATION_RECEIPTS_TOOL@,
            Tool::CreateFlag => CREATE_FLAG_TOOL@,
            Tool::UpdateFlag => UPDATE_FLAG_TOOL@,
            Tool::ArchiveFlag => ARCHIVE_FLAG_TOOL@,
            Tool::PutEnvironment => PUT_ENVIRONMENT_TOOL@,
            Tool::PublishRuleset => PUBLISH_RULESET_TOOL@,
        }
    }

    /// The tool's name.
    pub fn name(&self) -> (name: &'static str)
        ensures
            name@ == self.text(),
    {
        match self {
            Tool::GetFlag => GET_FLAG_TOOL,
            Tool::ListFlags => LIST_FLAGS_TOOL,
            Tool::ListEvaluationReceipts => LIST_EVALUATION_RECEIPTS_TOOL,
            Tool::CreateFlag => CREATE_FLAG_TOOL,
            Tool::UpdateFlag => UPDATE_FLAG_TOOL,
            Tool::ArchiveFlag => ARCHIVE_FLAG_TOOL,
            Tool::PutEnvironment => PUT_ENVIRONMENT_TOOL,
            Tool::PublishRuleset => PUBLISH_RULESET_TOOL,
        }
    }

    /// What the tool does, in words.
    pub open spec fn purpose(self) -> Seq<char> {
        match self {
            Tool::GetFlag => {
                "Get one feature flag and its current immutable value type and revision."@
            },
            Tool::ListFlags => {
                "List feature flag summaries with optional archived flags and bounded cursor pagination."@
            },
            Tool::ListEvaluationReceipts => {
                "List durable evaluation receipts by optional flag and environment filters without returning evaluated values or context attributes."@
            },
            Tool::CreateFlag => {
                "Create a typed feature flag. Reuse the same idempotency_key when retrying the same intent."@
            },
            Tool::UpdateFlag => {
                "Update feature flag metadata using its current expected_revision. The value type remains immutable."@
            },
            Tool::ArchiveFlag => {
                "Archive a feature flag using its current expected_revision. Reuse the same idempotency_key for retries."@
            },
            Tool::PutEnvironment => {
                "Create an environment with expected_revision null, or rename it using its current revision. Reuse the same idempotency_key for retries."@
            },
            Tool::PublishRuleset => {
                "Publish an immutable environment ruleset using current flag and environment revisions. Reuse the same idempotency_key for retries."@
            },
        }
    }

    /// What the tool does, in words.
    pub fn description(&self) -> (description: &'static str)
        ensures
            description@ == self.purpose(),
    {
        match self {
            Tool::GetFlag => {
                "Get one feature flag and its current immutable value type and revision."
            },
            Tool::ListFlags => {
                "List feature flag summaries with optional archived flags and bounded cursor pagination."
            },
            Tool::ListEvaluationReceipts => {
                "List durable evaluation receipts by optional flag and environment filters without returning evaluated values or context attributes."
            },
            Tool::CreateFlag => {
                "Create a typed feature flag. Reuse the same idempotency_key when retrying the same intent."
            },
            Tool::UpdateFlag => {
                "Update feature flag metadata using its current expected_revision. The value type remains immutable."
            },
            Tool::ArchiveFlag => {
                "Archive a feature flag using its current expected_revision. Reuse the same idempotency_key for retries."
            },
            Tool::PutEnvironment => {
                "Create an environment with expected_revision null, or rename it using its current revision. Reuse the same idempotency_key for retries."
            },
            Tool::PublishRuleset => {
                "Publish an immutable environment ruleset using current flag and environment revisions. Reuse the same idempotency_key for retries."
            },
        }
    }

    /// The tool changes nothing.
    pub open spec fn reads_only(self) -> bool {
        self is GetFlag || self is ListFlags || self is ListEvaluationReceipts
    }

    /// A tool that changes nothing may run beside others.
    pub fn execution(&self) -> (class: ToolExecutionClass)
        ensures
            class == if self.reads_only() {
                ToolExecutionClass::ParallelSafe
            } else {
                ToolExecutionClass::Exclusive
            },
    {
        match self {
            Tool::GetFlag => ToolExecutionClass::ParallelSafe,
            Tool::ListFlags => ToolExecutionClass::ParallelSafe,
            Tool::ListEvaluationReceipts => ToolExecutionClass::ParallelSafe,
            _ => ToolExecutionClass::Exclusive,
        }
    }
}

/// No two tools have the same name.
pub proof fn lemma_names_differ(a: Tool, b: Tool)
    requires
        a != b,
    ensures
        a.text() != b.text(),
{
    reveal_strlit("feature_flag_admin_create_flag");
    reveal_strlit("feature_flag_admin_get_flag");
    reveal_strlit("feature_flag_admin_list_flags");
    reveal_strlit("feature_flag_admin_update_flag");
    reveal_strlit("feature_flag_admin_archive_flag");
    reveal_strlit("feature_flag_admin_put_environment");
    reveal_strlit("feature_flag_admin_publish_ruleset");
    reveal_strlit("feature_flag_admin_list_evaluation_receipts");
    let (x, y) = (a.text(), b.text());
    if x == y {
        assert(x[19] == y[19] && x[20] == y[20] && x[21] == y[21]);
        assert(x.len() == y.len());
    }
}

/// The tool that a name stands for; nothing for any other name.
pub fn tool_named(name: &str) -> (tool: Option<Tool>)
    ensures
        tool matches Some(found) ==> name@ == found.text(),
        tool is None ==> forall|other: Tool| name@ != #[trigger] other.text(),
{
    if text_equal(name, GET_FLAG_TOOL) {
        Some(Tool::GetFlag)
    } else if text_equal(name, LIST_FLAGS_TOOL) {
        Some(Tool::ListFlags)
    } else if text_equal(name, LIST_EVALUATION_RECEIPTS_TOOL) {
        Some(Tool::ListEvaluationReceipts)
    } else if text_equal(name, CREATE_FLAG_TOOL) {
        Some(Tool::CreateFlag)
    } else if text_equal(name, UPDATE_FLAG_TOOL) {
        Some(Tool::UpdateFlag)
    } else if text_equal(name, ARCHIVE_FLAG_TOOL) {
        Some(Tool::ArchiveFlag)
    } else if text_equal(name, PUT_ENVIRONMENT_TOOL) {
        Some(Tool::PutEnvironment)
    } else if text_equal(name, PUBLISH_RULESET_TOOL) {
        Some(Tool::PublishRuleset)
    } else {
        None
    }
}

/// The JSON schemas of the tools' requests, and that of a flag's value, which a ruleset refers to.
#[derive(Clone, Copy, Debug)]
pub struct Schemas<'a> {
    pub get_flag: &'a str,
    pub list_flags: &'a str,
    pub list_evaluation_receipts: &'a str,
    pub create_flag: &'a str,
    pub update_flag: &'a str,
    pub archive_flag: &'a str,
    pub put_environment: &'a str,
    pub publish_ruleset: &'a str,
    pub flag_value: &'a str,
}

/// Where the schema of a ruleset refers to the schema of a flag's value.
pub const VALUE_REFERENCE: &'static str = "flag-value.schema.json";

/// Where it refers to it once both are one schema.
pub const VALUE_DEFINITION: &'static str = "#/$defs/FlagValue";

/// The member of a member of a JSON object; null where there is none.
pub open spec fn nested_member(text: Seq<char>, outer: Seq<char>, inner: Seq<char>) -> Seq<char> {
    match json_member(text, outer) {
        None => "null"@,
        Some(found) => match json_member(found, inner) {
            None => "null"@,
            Some(value) => value,
        },
    }
}

/// The schema of a ruleset's request, with the schema of a flag's value drawn into its
/// definitions, and that schema's own definition of value types beside it. Nothing where the
/// schemas are no objects with definitions.
pub open spec fn publish_schema(request: Seq<char>, value: Seq<char>) -> Option<Seq<char>> {
    match (
        json_compact(replaced(request, VALUE_REFERENCE@, VALUE_DEFINITION@)),
        json_compact(value),
    ) {
        (Some(schema), Some(value_schema)) => match (
            json_without(value_schema, "$defs"@),
            json_member(schema, "$defs"@),
        ) {
            (Some(bare), Some(definitions)) => match json_with(definitions, "FlagValue"@, bare) {
                None => None,
                Some(with_value) => match json_with(
                    with_value,
                    "ValueType"@,
                    nested_member(value_schema, "$defs"@, "ValueType"@),
                ) {
                    None => None,
                    Some(with_type) => json_with(schema, "$defs"@, with_type),
                },
            },
            _ => None,
        },
        _ => None,
    }
}

/// Once both are one schema, the schema of a ruleset refers to the schema of a flag's value nowhere:
/// the text that is read as the schema holds no such reference.
pub proof fn lemma_reference_is_gone(request: Seq<char>)
    ensures
        !occurs(replaced(request, VALUE_REFERENCE@, VALUE_DEFINITION@), VALUE_REFERENCE@),
{
    reveal_strlit("flag-value.schema.json");
    reveal_strlit("#/$defs/FlagValue");
    let from = VALUE_REFERENCE@;
    let to = VALUE_DEFINITION@;
    assert forall|k: int| 0 <= k < to.len() implies #[trigger] parts_ways(from, to, k) by {
        if k == 5 {
            assert(from[1] != to[k + 1]);
        } else {
            assert(from[0] != to[k + 0]);
        }
    }
    lemma_replaced_is_gone(request, from, to);
}

fn nested(text: &str, outer: &str, inner: &str) -> (value: String)
    ensures
        value@ == nested_member(text@, outer@, inner@),
{
    let found = match member(text, outer) {
        Some(found) => found,
        None => return "null".to_owned(),
    };
    match member(found.as_str(), inner) {
        Some(value) => value,
        None => "null".to_owned(),
    }
}

/// The schema of a ruleset's request as one schema.
pub fn publish_ruleset_schema(request: &str, value: &str) -> (schema: Option<String>)
    ensures
        crate::domain::optional_text(schema) == publish_schema(request@, value@),
{
    proof {
        reveal_strlit("flag-value.schema.json");
    }
    let inlined = text_replaced(request, VALUE_REFERENCE, VALUE_DEFINITION);
    let (schema, value_schema) = match (compact_text(inlined.as_str()), compact_text(value)) {
        (Ok(schema), Ok(value_schema)) => (schema, value_schema),
        _ => return None,
    };
    let value_type = nested(value_schema.as_str(), "$defs", "ValueType");
    let (bare, definitions) = match (
        without_member(value_schema.as_str(), "$defs"),
        member(schema.as_str(), "$defs"),
    ) {
        (Some(bare), Some(definitions)) => (bare, definitions),
        _ => return None,
    };
    let with_value = match with_member(definitions.as_str(), "FlagValue", bare.as_str()) {
        Some(with_value) => with_value,
        None => return None,
    };
    let with_type = match with_member(with_value.as_str(), "ValueType", value_type.as_str()) {
        Some(with_type) => with_type,
        None => return None,
    };
    with_member(schema.as_str(), "$defs", with_type.as_str())
}

/// The schema of a tool's input; nothing where the schemas it is made of are not what they should
/// be.
pub open spec fn input_schema_of(schemas: Schemas<'_>, tool: Tool) -> Option<Seq<char>> {
    match tool {
        Tool::GetFlag => json_compact(schemas.get_flag@),
        Tool::ListFlags => json_compact(schemas.list_flags@),
        Tool::ListEvaluationReceipts => json_compact(schemas.list_evaluation_receipts@),
        Tool::CreateFlag => json_compact(schemas.create_flag@),
        Tool::UpdateFlag => json_compact(schemas.update_flag@),
        Tool::ArchiveFlag => json_compact(schemas.archive_flag@),
        Tool::PutEnvironment => json_compact(schemas.put_environment@),
        Tool::PublishRuleset => publish_schema(schemas.publish_ruleset@, schemas.flag_value@),
    }
}

fn input_schema(schemas: Schemas<'_>, tool: Tool) -> (schema: Option<String>)
    ensures
        crate::domain::optional_text(schema) == input_schema_of(schemas, tool),
{
    let text = match tool {
        Tool::GetFlag => schemas.get_flag,
        Tool::ListFlags => schemas.list_flags,
        Tool::ListEvaluationReceipts => schemas.list_evaluation_receipts,
        Tool::CreateFlag => schemas.create_flag,
        Tool::UpdateFlag => schemas.update_flag,
        Tool::ArchiveFlag => schemas.archive_flag,
        Tool::PutEnvironment => schemas.put_environment,
        Tool::PublishRuleset => {
            return publish_ruleset_schema(schemas.publish_ruleset, schemas.flag_value);
        },
    };
    match compact_text(text) {
        Ok(schema) => Some(schema),
        Err(_) => None,
    }
}

/// An entry of the catalog.
#[derive(Debug, PartialEq)]
pub struct ToolDefinition {
    pub name: String,
    pub description: String,
    pub input_schema_json: String,
    pub execution: ToolExecutionClass,
}

/// The model of a `ToolDefinition`.
pub struct DefinitionView {
    pub name: Seq<char>,
    pub description: Seq<char>,
    pub input_schema_json: Seq<char>,
    pub execution: ToolExecutionClass,
}

impl View for ToolDefinition {
    type V = DefinitionView;

    open spec fn view(&self) -> DefinitionView {
        DefinitionView {
            name: self.name@,
            description: self.description@,
            input_schema_json: self.input_schema_json@,
            execution: self.execution,
        }
    }
}

/// The entry of a tool, with the schema of its input.
pub open spec fn definition_of(tool: Tool, schema: Seq<char>) -> DefinitionView {
    DefinitionView {
        name: tool.text(),
        description: tool.purpose(),
        input_schema_json: schema,
        execution: if tool.reads_only() {
            ToolExecutionClass::ParallelSafe
        } else {
            ToolExecutionClass::Exclusive
        },
    }
}

/// The tools, in the order of the catalog.
pub open spec fn tools() -> Seq<Tool> {
    seq![
        Tool::GetFlag,
        Tool::ListFlags,
        Tool::ListEvaluationReceipts,
        Tool::CreateFlag,
        Tool::UpdateFlag,
        Tool::ArchiveFlag,
        Tool::PutEnvironment,
        Tool::PublishRuleset,
    ]
}

/// The entries of the first tools, in order; nothing where one of their schemas is missing.
pub open spec fn entries(schemas: Schemas<'_>, tools: Seq<Tool>) -> Option<Seq<DefinitionView>>
    decreases tools.len(),
{
    if tools.len() == 0 {
        Some(seq![])
    } else {
        match (entries(schemas, tools.drop_last()), input_schema_of(schemas, tools.last())) {
            (Some(before), Some(schema)) => Some(before.push(definition_of(tools.last(), schema))),
            _ => None,
        }
    }
}

/// Entries, each taken by its model.
pub open spec fn definitions_view(definitions: Seq<ToolDefinition>) -> Seq<DefinitionView> {
    definitions.map_values(|definition: ToolDefinition| definition@)
}

proof fn lemma_missing_schema_stays(schemas: Schemas<'_>, tools: Seq<Tool>, k: int)
    requires
        0 <= k <= tools.len(),
        entries(schemas, tools.take(k)) is None,
    ensures
        entries(schemas, tools) is None,
    decreases tools.len(),
{
    if k < tools.len() {
        assert(tools.drop_last().take(k) =~= tools.take(k));
        lemma_missing_schema_stays(schemas, tools.drop_last(), k);
    } else {
        assert(tools.take(k) =~= tools);
    }
}

/// The catalog: one entry per tool. There is none where a schema is not JSON, or the schemas of a
/// ruleset's request and of a flag's value cannot be made one.
pub fn tool_definitions(schemas: Schemas<'_>) -> (catalog: Option<Vec<ToolDefinition>>)
    ensures
        match entries(schemas, tools()) {
            Some(definitions) => catalog matches Some(list) && definitions_view(list@)
                == definitions,
            None => catalog is None,
        },
{
    let all = [
        Tool::GetFlag,
        Tool::ListFlags,
        Tool::ListEvaluationReceipts,
        Tool::CreateFlag,
        Tool::UpdateFlag,
        Tool::ArchiveFlag,
        Tool::PutEnvironment,
        Tool::PublishRuleset,
    ];
    let mut catalog: Vec<ToolDefinition> = Vec::new();
    assert(all@ =~= tools());
    assert(all@.take(0) =~= Seq::<Tool>::empty());
    assert(definitions_view(catalog@) =~= Seq::<DefinitionView>::empty());
    let mut i: usize = 0;
    while i < 8
        invariant
            i <= 8,
            all@ == tools(),
            entries(schemas, tools().take(i as int)) == Some(definitions_view(catalog@)),
        decreases 8 - i,
    {
        let tool = all[i];
        let ghost longer = tools().take(i + 1);
        assert(longer.drop_last() =~= tools().take(i as int));
        assert(longer.last() == tool);
        let schema = match input_schema(schemas, tool) {
            Some(schema) => schema,
            None => {
                proof {
                    lemma_missing_schema_stays(schemas, tools(), i + 1);
                }
                return None;
            },
        };
        let ghost before = definitions_view(catalog@);
        let definition = ToolDefinition {
            name: tool.name().to_owned(),
            description: tool.description().to_owned(),
            input_schema_json: schema,
            execution: tool.execution(),
        };
        catalog.push(definition);
        assert(definitions_view(catalog@) =~= before.push(definition@));
        i += 1;
    }
    assert(tools().take(8) =~= tools());
    Some(catalog)
}

proof fn lemma_entries(schemas: Schemas<'_>, tools: Seq<Tool>)
    ensures
        entries(schemas, tools) matches Some(list) ==> list.len() == tools.len() && forall|i: int|
            0 <= i < tools.len() ==> input_schema_of(schemas, tools[i]) is Some
                && #[trigger] list[i] == definition_of(
                tools[i],
                input_schema_of(schemas, tools[i])->0,
            ),
    decreases tools.len(),
{
    if tools.len() > 0 {
        lemma_entries(schemas, tools.drop_last());
        if let Some(list) = entries(schemas, tools) {
            let before = entries(schemas, tools.drop_last())->0;
            assert forall|i: int| 0 <= i < tools.len() implies input_schema_of(
                schemas,
                tools[i],
            ) is Some && #[trigger] list[i] == definition_of(
                tools[i],
                input_schema_of(schemas, tools[i])->0,
            ) by {
                if i < tools.len() - 1 {
                    assert(tools.drop_last()[i] == tools[i]);
                    assert(list[i] == before[i]);
                }
            }
        }
    }
}

/// The catalog has three tools that only read, which may run beside others, and then five that
/// change something, which may not; each stands under its own name, and no two under the same.
pub proof fn lemma_catalog_has_three_reads_and_five_mutations(schemas: Schemas<'_>)
    ensures
        entries(schemas, tools()) matches Some(list) ==> {
            &&& list.len() == 8
            &&& forall|i: int|
                0 <= i < 8 ==> (#[trigger] list[i]).name == tools()[i].text() && (
                list[i].execution is ParallelSafe <==> i < 3)
            &&& forall|i: int, j: int|
                0 <= i < j < 8 ==> (#[trigger] list[i]).name != (#[trigger] list[j]).name
        },
{
    lemma_entries(schemas, tools());
    if let Some(list) = entries(schemas, tools()) {
        assert forall|i: int, j: int| 0 <= i < j < 8 implies (#[trigger] list[i]).name != (
        #[trigger] list[j]).name by {
            lemma_names_differ(tools()[i], tools()[j]);
        }
    }
}

/// What the administration answers to a request that it refuses.
#[derive(Clone, Copy, Debug, PartialEq, Eq, Structural)]
pub enum AdminError {
    InvalidRequest,
    NotFound,
    Forbidden,
    Unauthenticated,
    AlreadyExists,
    Archived,
    IdempotencyConflict,
    InvalidRuleset,
    OperationInProgress,
    RevisionConflict,
    TypeMismatch,
    Unknown,
}

/// What is told of a request that failed.
#[derive(Debug, PartialEq)]
pub struct ExecutionFailedPayload {
    pub reason_code: String,
    pub message: String,
    pub details_json: String,
}

/// Why a tool's request is refused.
#[derive(Debug, PartialEq)]
pub enum ExecuteError {
    InvalidArguments,
    NotFound,
    PermissionDenied,
    ExecutionFailed { payload: ExecutionFailedPayload },
}

/// The model of an `ExecuteError`.
pub enum ExecuteErrorView {
    InvalidArguments,
    NotFound,
    PermissionDenied,
    ExecutionFailed { reason_code: Seq<char>, message: Seq<char>, details_json: Seq<char> },
}

impl View for ExecuteError {
    type V = ExecuteErrorView;

    open spec fn view(&self) -> ExecuteErrorView {
        match *self {
            ExecuteError::InvalidArguments => ExecuteErrorView::InvalidArguments,
            ExecuteError::NotFound => ExecuteErrorView::NotFound,
            ExecuteError::PermissionDenied => ExecuteErrorView::PermissionDenied,
            ExecuteError::ExecutionFailed { payload } => ExecuteErrorView::ExecutionFailed {
                reason_code: payload.reason_code@,
                message: payload.message@,
                details_json: payload.details_json@,
            },
        }
    }
}

/// The message of every rejection.
pub const REJECTED: &'static str = "Feature Flag Admin rejected the requested operation.";

/// A rejection for a reason.
pub open spec fn rejected_of(reason: Seq<char>) -> ExecuteErrorView {
    ExecuteErrorView::ExecutionFailed {
        reason_code: reason,
        message: REJECTED@,
        details_json: json_text_object("domain_error"@, reason),
    }
}

/// A rejection for a reason.
pub fn rejected(reason_code: &str) -> (error: ExecuteError)
    ensures
        error@ == rejected_of(reason_code@),
{
    ExecuteError::ExecutionFailed {
        payload: ExecutionFailedPayload {
            reason_code: reason_code.to_owned(),
            message: REJECTED.to_owned(),
            details_json: text_object("domain_error", reason_code),
        },
    }
}

/// What a tool answers where the administration refuses.
pub open spec fn tool_error_of(error: AdminError) -> ExecuteErrorView {
    match error {
        AdminError::InvalidRequest => ExecuteErrorView::InvalidArguments,
        AdminError::NotFound => ExecuteErrorView::NotFound,
        AdminError::Forbidden => ExecuteErrorView::PermissionDenied,
        AdminError::Unauthenticated => ExecuteErrorView::PermissionDenied,
        AdminError::AlreadyExists => rejected_of("already_exists"@),
        AdminError::Archived => rejected_of("archived"@),
        AdminError::IdempotencyConflict => rejected_of("idempotency_conflict"@),
        AdminError::InvalidRuleset => rejected_of("invalid_ruleset"@),
        AdminError::OperationInProgress => rejected_of("operation_in_progress"@),
        AdminError::RevisionConflict => rejected_of("revision_conflict"@),
        AdminError::TypeMismatch => rejected_of("type_mismatch"@),
        AdminError::Unknown => rejected_of("unknown_domain_error"@),
    }
}

/// What a tool answers where the administration refuses.
pub fn map_domain_error(error: AdminError) -> (answer: ExecuteError)
    ensures
        answer@ == tool_error_of(error),
{
    match error {
        AdminError::InvalidRequest => ExecuteError::InvalidArguments,
        AdminError::NotFound => ExecuteError::NotFound,
        AdminError::Forbidden => ExecuteError::PermissionDenied,
        AdminError::Unauthenticated => ExecuteError::PermissionDenied,
        AdminError::AlreadyExists => rejected("already_exists"),
        AdminError::Archived => rejected("archived"),
        AdminError::IdempotencyConflict => rejected("idempotency_conflict"),
        AdminError::InvalidRuleset => rejected("invalid_ruleset"),
        AdminError::OperationInProgress => rejected("operation_in_progress"),
        AdminError::RevisionConflict => rejected("revision_conflict"),
        AdminError::TypeMismatch => rejected("type_mismatch"),
        AdminError::Unknown => rejected("unknown_domain_error"),
    }
}

/// The administration's refusals stay apart in what a tool answers: two of them get the same answer
/// only if they are the same, or both say that the caller may not.
pub proof fn lemma_domain_failures_stay_distinct(a: AdminError, b: AdminError)
    requires
        a != b,
        !((a is Forbidden || a is Unauthenticated) && (b is Forbidden || b is Unauthenticated)),
    ensures
        tool_error_of(a) != tool_error_of(b),
{
    reveal_strlit("already_exists");
    reveal_strlit("archived");
    reveal_strlit("idempotency_conflict");
    reveal_strlit("invalid_ruleset");
    reveal_strlit("operation_in_progress");
    reveal_strlit("revision_conflict");
    reveal_strlit("type_mismatch");
    reveal_strlit("unknown_domain_error");
    if tool_error_of(a) == tool_error_of(b) && tool_error_of(a) is ExecutionFailed {
        let (x, y) = (tool_error_of(a)->reason_code, tool_error_of(b)->reason_code);
        assert(x[0] == y[0] && x[1] == y[1]);
    }
}

/// What a tool answers where the administration does.
#[derive(Debug, PartialEq)]
pub struct ExecuteResponse {
    pub content: String,
    pub metadata_json: String,
}

/// The model of an `ExecuteResponse`.
pub struct ExecuteResponseView {
    pub content: Seq<char>,
    pub metadata_json: Seq<char>,
}

impl View for ExecuteResponse {
    type V = ExecuteResponseView;

    open spec fn view(&self) -> ExecuteResponseView {
        ExecuteResponseView { content: self.content@, metadata_json: self.metadata_json@ }
    }
}

/// What a tool reports where its answer cannot be written, before what the writer said.
pub const UNWRITTEN: &'static str =
    "Feature Flag Admin Tool could not serialize its typed response: ";

/// The answer of a tool, given the JSON text of the administration's response, or what was said
/// where that could not be written.
pub open spec fn success_of(tool: Tool, content: Result<Seq<char>, Seq<char>>) -> Result<
    ExecuteResponseView,
    Seq<char>,
> {
    match content {
        Ok(content) => Ok(
            ExecuteResponseView {
                content,
                metadata_json: json_text_object("tool"@, tool.text()),
            },
        ),
        Err(said) => Err(UNWRITTEN@ + said),
    }
}

/// A result of texts, each taken by its characters.
pub open spec fn texts_of(result: Result<String, String>) -> Result<Seq<char>, Seq<char>> {
    match result {
        Ok(text) => Ok(text@),
        Err(text) => Err(text@),
    }
}

/// The answer of a tool.
pub fn success(tool: Tool, content: Result<String, String>) -> (result: Result<
    ExecuteResponse,
    String,
>)
    ensures
        match success_of(tool, texts_of(content)) {
            Ok(response) => result matches Ok(given) && given@ == response,
            Err(detail) => result matches Err(given) && given@ == detail,
        },
{
    match content {
        Ok(content) => Ok(
            ExecuteResponse { content, metadata_json: text_object("tool", tool.name()) },
        ),
        Err(said) => {
            let mut detail = UNWRITTEN.to_owned();
            detail.append(said.as_str());
            Err(detail)
        },
    }
}

/// How far a tool's request has come.
#[derive(Clone, Copy, Debug, PartialEq, Eq, Structural)]
pub enum Stage {
    /// The request came in.
    Start,
    /// Its arguments are being read.
    Decoding(Tool),
    /// The administration is being asked.
    Asking(Tool),
    /// The request was answered.
    Done,
}

/// What is learned of a tool's request.
#[derive(Debug)]
pub enum Event {
    /// The name of the tool that the request is for.
    Named(String),
    /// The arguments are those of the tool, or not.
    Decoded(bool),
    /// The administration answered, with a response of this JSON text, or one that could not be
    /// written.
    Answered(Result<String, String>),
    /// The administration refused.
    Refused(AdminError),
    /// The administration could not be asked.
    Broken,
}

/// The model of an `Event`.
pub enum EventView {
    Named(Seq<char>),
    Decoded(bool),
    Answered(Result<Seq<char>, Seq<char>>),
    Refused(AdminError),
    Broken,
}

impl View for Event {
    type V = EventView;

    open spec fn view(&self) -> EventView {
        match *self {
            Event::Named(name) => EventView::Named(name@),
            Event::Decoded(accepted) => EventView::Decoded(accepted),
            Event::Answered(content) => EventView::Answered(texts_of(content)),
            Event::Refused(error) => EventView::Refused(error),
            Event::Broken => EventView::Broken,
        }
    }
}

/// What is done with a tool's request next.
#[derive(Debug)]
pub enum Action {
    /// Read the arguments as those of the tool.
    Decode(Tool),
    /// Ask the administration for what the tool does.
    Ask(Tool),
    /// Answer.
    Respond(ExecuteResponse),
    /// Refuse.
    Refuse(ExecuteError),
    /// Report a failure of the tool.
    Fail(String),
    /// Pass on the failure that the administration met.
    Report,
    /// Do nothing: the event does not belong here.
    Ignore,
}

/// The model of an `Action`.
pub enum ActionView {
    Decode(Tool),
    Ask(Tool),
    Respond(ExecuteResponseView),
    Refuse(ExecuteErrorView),
    Fail(Seq<char>),
    Report,
    Ignore,
}

impl View for Action {
    type V = ActionView;

    open spec fn view(&self) -> ActionView {
        match *self {
            Action::Decode(tool) => ActionView::Decode(tool),
            Action::Ask(tool) => ActionView::Ask(tool),
            Action::Respond(response) => ActionView::Respond(response@),
            Action::Refuse(error) => ActionView::Refuse(error@),
            Action::Fail(detail) => ActionView::Fail(detail@),
            Action::Report => ActionView::Report,
            Action::Ignore => ActionView::Ignore,
        }
    }
}

/// A name stands for a tool.
pub open spec fn names_tool(name: Seq<char>) -> bool {
    exists|tool: Tool| name == #[trigger] tool.text()
}

/// The tool that a name stands for.
pub open spec fn tool_of(name: Seq<char>) -> Tool {
    choose|tool: Tool| name == #[trigger] tool.text()
}

/// How a tool's request goes on. A request is never put to the administration unless it names a
/// tool, and its arguments are that tool's.
pub open spec fn execute_of(stage: Stage, event: EventView) -> (Stage, ActionView) {
    match (stage, event) {
        (Stage::Start, EventView::Named(name)) => if names_tool(name) {
            (Stage::Decoding(tool_of(name)), ActionView::Decode(tool_of(name)))
        } else {
            (Stage::Done, ActionView::Refuse(ExecuteErrorView::NotFound))
        },
        (Stage::Decoding(tool), EventView::Decoded(accepted)) => if accepted {
            (Stage::Asking(tool), ActionView::Ask(tool))
        } else {
            (Stage::Done, ActionView::Refuse(ExecuteErrorView::InvalidArguments))
        },
        (Stage::Asking(tool), EventView::Answered(content)) => (
            Stage::Done,
            match success_of(tool, content) {
                Ok(response) => ActionView::Respond(response),
                Err(detail) => ActionView::Fail(detail),
            },
        ),
        (Stage::Asking(_), EventView::Refused(error)) => (
            Stage::Done,
            ActionView::Refuse(tool_error_of(error)),
        ),
        (Stage::Asking(_), EventView::Broken) => (Stage::Done, ActionView::Report),
        _ => (stage, ActionView::Ignore),
    }
}

/// How a tool's request goes on after an event.
pub fn execute(stage: Stage, event: Event) -> (next: (Stage, Action))
    ensures
        (next.0, next.1@) == execute_of(stage, event@),
{
    match (stage, event) {
        (Stage::Start, Event::Named(name)) => match tool_named(name.as_str()) {
            Some(tool) => {
                proof {
                    assert(names_tool(name@));
                    if tool_of(name@) != tool {
                        lemma_names_differ(tool_of(name@), tool);
                    }
                }
                (Stage::Decoding(tool), Action::Decode(tool))
            },
            None => (Stage::Done, Action::Refuse(ExecuteError::NotFound)),
        },
        (Stage::Decoding(tool), Event::Decoded(accepted)) => if accepted {
            (Stage::Asking(tool), Action::Ask(tool))
        } else {
            (Stage::Done, Action::Refuse(ExecuteError::InvalidArguments))
        },
        (Stage::Asking(tool), Event::Answered(content)) => (
            Stage::Done,
            match success(tool, content) {
                Ok(response) => Action::Respond(response),
                Err(detail) => Action::Fail(detail),
            },
        ),
        (Stage::Asking(_), Event::Refused(error)) => (
            Stage::Done,
            Action::Refuse(map_domain_error(error)),
        ),
        (Stage::Asking(_), Event::Broken) => (Stage::Done, Action::Report),
        (stage, _) => (stage, Action::Ignore),
    }
}

} // verus!
