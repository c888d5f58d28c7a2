//! What the tools are called, what they take, and what they answer.

use vstd::prelude::*;
use crate::json::{json_compact, json_member, json_text_object, json_with, json_without};
use crate::text::replaced;
use crate::tools::{
    definition_of, entries, execute_of, input_schema_of, lemma_names_differ, nested_member,
    publish_schema, success_of, tool_error_of, tools, ActionView, AdminError, EventView,
    ExecuteErrorView, Schemas, Stage, Tool, ToolExecutionClass,
};

verus! {

/// Each tool is called by the operation of the administration that it asks for.
pub proof fn lemma_tools_are_called_by_their_operations(tool: Tool)
    ensures
        tool.text() == match tool {
            Tool::GetFlag => "feature_flag_admin_get_flag"@,
            Tool::ListFlags => "feature_flag_admin_list_flags"@,
            Tool::ListEvaluationReceipts => "feature_flag_admin_list_evaluation_receipts"@,
            Tool::CreateFlag => "feature_flag_admin_create_flag"@,
            Tool::UpdateFlag => "feature_flag_admin_update_flag"@,
            Tool::ArchiveFlag => "feature_flag_admin_archive_flag"@,
            Tool::PutEnvironment => "feature_flag_admin_put_environment"@,
            Tool::PublishRuleset => "feature_flag_admin_publish_ruleset"@,
        },
{
}

/// Each tool says what it does.
pub proof fn lemma_tools_say_what_they_do(tool: Tool)
    ensures
        tool.purpose() == match tool {
            Tool::GetFlag => {
                "Get one feature flag and its current immutable value type and revision."@
            },
            Tool::ListFlags => {
                "List feature flag summaries with optional archived flags and bounded cursor pagination."@
            },
            Tool::ListEvaluationReceipts => {
                "List durable evaluation receipts by optional flag and environment filters without returning evaluated values or context attributes."@
            },
            Tool::CreateFlag => {
                "Create a typed feature flag. Reuse the same idempotency_key when retrying the same intent."@
            },
            Tool::UpdateFlag => {
                "Update feature flag metadata using its current expected_revision. The value type remains immutable."@
            },
            Tool::ArchiveFlag => {
                "Archive a feature flag using its current expected_revision. Reuse the same idempotency_key for retries."@
            },
            Tool::PutEnvironment => {
                "Create an environment with expected_revision null, or rename it using its current revision. Reuse the same idempotency_key for retries."@
            },
            Tool::PublishRuleset => {
                "Publish an immutable environment ruleset using current flag and environment revisions. Reuse the same idempotency_key for retries."@
            },
        },
{
}

/// A tool may run beside others exactly if it is one of the three that change nothing.
pub proof fn lemma_tools_that_write_run_alone(tool: Tool, schema: Seq<char>)
    ensures
        definition_of(tool, schema).execution == ToolExecutionClass::ParallelSafe
            <==> tool is GetFlag || tool is ListFlags || tool is ListEvaluationReceipts,
        definition_of(tool, schema).execution == ToolExecutionClass::Exclusive
            <==> tool is CreateFlag || tool is UpdateFlag || tool is ArchiveFlag
            || tool is PutEnvironment || tool is PublishRuleset,
        tool.reads_only() <==> definition_of(tool, schema).execution
            == ToolExecutionClass::ParallelSafe,
{
}

/// Each tool's input is described by the schema of its own request, compactly written; that of a
/// ruleset's publication is made of two schemas.
pub proof fn lemma_tools_take_their_own_requests(schemas: Schemas<'_>)
    ensures
        input_schema_of(schemas, Tool::GetFlag) == json_compact(schemas.get_flag@),
        input_schema_of(schemas, Tool::ListFlags) == json_compact(schemas.list_flags@),
        input_schema_of(schemas, Tool::ListEvaluationReceipts) == json_compact(
            schemas.list_evaluation_receipts@,
        ),
        input_schema_of(schemas, Tool::CreateFlag) == json_compact(schemas.create_flag@),
        input_schema_of(schemas, Tool::UpdateFlag) == json_compact(schemas.update_flag@),
        input_schema_of(schemas, Tool::ArchiveFlag) == json_compact(schemas.archive_flag@),
        input_schema_of(schemas, Tool::PutEnvironment) == json_compact(schemas.put_environment@),
        input_schema_of(schemas, Tool::PublishRuleset) == publish_schema(
            schemas.publish_ruleset@,
            schemas.flag_value@,
        ),
{
}

/// The schema of a publication is the request's own, with the schema of a value among its
/// definitions, without definitions of its own, and the value types beside it: no reference leads
/// outside.
pub proof fn lemma_publication_schema_draws_in_the_value(
    request: Seq<char>,
    value: Seq<char>,
    schema: Seq<char>,
    value_schema: Seq<char>,
    bare: Seq<char>,
    definitions: Seq<char>,
    with_value: Seq<char>,
    with_type: Seq<char>,
)
    requires
        json_compact(replaced(request, "flag-value.schema.json"@, "#/$defs/FlagValue"@)) == Some(
            schema,
        ),
        json_compact(value) == Some(value_schema),
        json_without(value_schema, "$defs"@) == Some(bare),
        json_member(schema, "$defs"@) == Some(definitions),
        json_with(definitions, "FlagValue"@, bare) == Some(with_value),
        json_with(
            with_value,
            "ValueType"@,
            nested_member(value_schema, "$defs"@, "ValueType"@),
        ) == Some(with_type),
    ensures
        publish_schema(request, value) == json_with(schema, "$defs"@, with_type),
{
}

/// There is no schema of a publication where the request or the value is not JSON, or one of them
/// has no definitions to draw on.
pub proof fn lemma_publication_schema_needs_both(request: Seq<char>, value: Seq<char>)
    ensures
        json_compact(value) is None ==> publish_schema(request, value) is None,
        json_compact(
            replaced(request, "flag-value.schema.json"@, "#/$defs/FlagValue"@),
        ) is None ==> publish_schema(request, value) is None,
{
}

/// What stands within a member is found through it; what is not there is null.
pub proof fn lemma_nested_member_is_found(text: Seq<char>, outer: Seq<char>, inner: Seq<char>)
    ensures
        nested_member(text, outer, inner) == match json_member(text, outer) {
            Some(found) => match json_member(found, inner) {
                Some(value) => value,
                None => "null"@,
            },
            None => "null"@,
        },
{
}

proof fn lemma_entry(schemas: Schemas<'_>, list: Seq<Tool>, i: int)
    requires
        0 <= i < list.len(),
    ensures
        entries(schemas, list) is Some ==> {
            &&& entries(schemas, list)->0.len() == list.len()
            &&& input_schema_of(schemas, list[i]) is Some
            &&& entries(schemas, list)->0[i] == definition_of(
                list[i],
                input_schema_of(schemas, list[i])->0,
            )
        },
        input_schema_of(schemas, list[i]) is None ==> entries(schemas, list) is None,
    decreases list.len(),
{
    let before = list.drop_last();
    if list.len() > 1 {
        lemma_entry(
            schemas,
            before,
            if i < before.len() {
                i
            } else {
                0
            },
        );
    } else {
        reveal_with_fuel(entries, 2);
        assert(before =~= Seq::<Tool>::empty());
    }
    if i < before.len() {
        assert(before[i] == list[i]);
    }
}

/// The catalog lists the tools that read before those that write, each with its own name, words,
/// schema and class; and one schema that is missing leaves no catalog at all.
pub proof fn lemma_catalog_lists_every_tool(schemas: Schemas<'_>, i: int)
    requires
        0 <= i < 8,
    ensures
        tools() == seq![
            Tool::GetFlag,
            Tool::ListFlags,
            Tool::ListEvaluationReceipts,
            Tool::CreateFlag,
            Tool::UpdateFlag,
            Tool::ArchiveFlag,
            Tool::PutEnvironment,
            Tool::PublishRuleset,
        ],
        entries(schemas, tools()) is Some ==> {
            let entry = entries(schemas, tools())->0[i];
            &&& entries(schemas, tools())->0.len() == 8
            &&& entry.name == tools()[i].text()
            &&& entry.description == tools()[i].purpose()
            &&& Some(entry.input_schema_json) == input_schema_of(schemas, tools()[i])
        },
        input_schema_of(schemas, tools()[i]) is None ==> entries(schemas, tools()) is None,
{
    lemma_entry(schemas, tools(), i);
}

/// What the administration refuses is answered by what it refused: wrong arguments, nothing found,
/// not permitted, or else a failure whose reason is the refusal's own name.
pub proof fn lemma_refusals_are_answered_by_name(error: AdminError)
    ensures
        match error {
            AdminError::InvalidRequest => tool_error_of(error) is InvalidArguments,
            AdminError::NotFound => tool_error_of(error) is NotFound,
            AdminError::Forbidden => tool_error_of(error) is PermissionDenied,
            AdminError::Unauthenticated => tool_error_of(error) is PermissionDenied,
            AdminError::AlreadyExists => answers_reason(error, "already_exists"@),
            AdminError::Archived => answers_reason(error, "archived"@),
            AdminError::IdempotencyConflict => answers_reason(error, "idempotency_conflict"@),
            AdminError::InvalidRuleset => answers_reason(error, "invalid_ruleset"@),
            AdminError::OperationInProgress => answers_reason(error, "operation_in_progress"@),
            AdminError::RevisionConflict => answers_reason(error, "revision_conflict"@),
            AdminError::TypeMismatch => answers_reason(error, "type_mismatch"@),
            AdminError::Unknown => answers_reason(error, "unknown_domain_error"@),
        },
{
}

/// The refusal is answered as a failure for the reason, which the details repeat.
pub open spec fn answers_reason(error: AdminError, reason: Seq<char>) -> bool {
    &&& tool_error_of(error) is ExecutionFailed
    &&& tool_error_of(error)->reason_code == reason
    &&& tool_error_of(error)->message == "Feature Flag Admin rejected the requested operation."@
    &&& tool_error_of(error)->details_json == json_text_object("domain_error"@, reason)
}

/// A tool answers with the administration's response word for word, and says which tool it is; a
/// response that cannot be written is a failure that repeats what the writer said.
pub proof fn lemma_answers_are_passed_on(tool: Tool, content: Seq<char>, said: Seq<char>)
    ensures
        ({
            let answer = success_of(tool, Ok(content));
            &&& answer is Ok
            &&& answer->Ok_0.content == content
            &&& answer->Ok_0.metadata_json == json_text_object("tool"@, tool.text())
        }),
        success_of(tool, Err(said)) is Err,
        success_of(tool, Err(said))->Err_0
            == "Feature Flag Admin Tool could not serialize its typed response: "@ + said,
{
}

/// A request is put to the administration only under the name of a tool and with that tool's
/// arguments, and it is the named tool that is asked; any other name is not found, and other
/// arguments are invalid.
pub proof fn lemma_request_is_put_to_the_named_tool(tool: Tool, name: Seq<char>)
    ensures
        execute_of(Stage::Start, EventView::Named(tool.text())) == (
            Stage::Decoding(tool),
            ActionView::Decode(tool),
        ),
        (forall|other: Tool| name != #[trigger] other.text()) ==> execute_of(
            Stage::Start,
            EventView::Named(name),
        ) == (Stage::Done, ActionView::Refuse(ExecuteErrorView::NotFound)),
        execute_of(Stage::Decoding(tool), EventView::Decoded(true)) == (
            Stage::Asking(tool),
            ActionView::Ask(tool),
        ),
        execute_of(Stage::Decoding(tool), EventView::Decoded(false)) == (
            Stage::Done,
            ActionView::Refuse(ExecuteErrorView::InvalidArguments),
        ),
{
    let found = crate::tools::tool_of(tool.text());
    assert(crate::tools::names_tool(tool.text()));
    if found != tool {
        lemma_names_differ(found, tool);
    }
}

/// What the administration answered, refused or failed with is what the tool answers, refuses or
/// reports; and then the request is done with.
pub proof fn lemma_request_is_answered(tool: Tool, content: Seq<char>, error: AdminError)
    ensures
        execute_of(Stage::Asking(tool), EventView::Answered(Ok(content))).0 == Stage::Done,
        execute_of(Stage::Asking(tool), EventView::Answered(Ok(content))).1 is Respond,
        execute_of(Stage::Asking(tool), EventView::Answered(Ok(content))).1->Respond_0.content
            == content,
        execute_of(Stage::Asking(tool), EventView::Answered(Ok(content))).1->Respond_0.metadata_json
            == json_text_object("tool"@, tool.text()),
        execute_of(Stage::Asking(tool), EventView::Refused(error)) == (
            Stage::Done,
            ActionView::Refuse(tool_error_of(error)),
        ),
        execute_of(Stage::Asking(tool), EventView::Broken) == (Stage::Done, ActionView::Report),
        forall|event: EventView| #[trigger]
            execute_of(Stage::Done, event) == (Stage::Done, ActionView::Ignore),
{
}

} // verus!
