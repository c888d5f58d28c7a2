//! What the functions of the tools answer, told of the calls themselves.

use vstd::prelude::*;
use crate::json::{json_compact, json_text_object};
use crate::tools::{
    definitions_view, execute, lemma_names_differ, map_domain_error, publish_ruleset_schema,
    publish_schema, rejected, success, tool_definitions, tool_named, tools, Action, AdminError,
    Event, ExecuteError, ExecuteResponse, Schemas, Stage, Tool, ToolDefinition, ToolExecutionClass,
};
use super::tools::{
    lemma_catalog_lists_every_tool, lemma_request_is_answered,
    lemma_request_is_put_to_the_named_tool, lemma_tools_are_called_by_their_operations,
};

verus! {

/// The operation of the administration that a tool asks for, behind what all tools are called by.
pub open spec fn operation_name(tool: Tool) -> Seq<char> {
    match tool {
        Tool::GetFlag => "feature_flag_admin_get_flag"@,
        Tool::ListFlags => "feature_flag_admin_list_flags"@,
        Tool::ListEvaluationReceipts => "feature_flag_admin_list_evaluation_receipts"@,
        Tool::CreateFlag => "feature_flag_admin_create_flag"@,
        Tool::UpdateFlag => "feature_flag_admin_update_flag"@,
        Tool::ArchiveFlag => "feature_flag_admin_archive_flag"@,
        Tool::PutEnvironment => "feature_flag_admin_put_environment"@,
        Tool::PublishRuleset => "feature_flag_admin_publish_ruleset"@,
    }
}

/// A tool is found again under its name, and under no name is another found.
pub proof fn lemma_tool_is_found_by_its_name(tool: &Tool, name: &'static str, found: Option<Tool>)
    requires
        call_ensures(Tool::name, (tool,), name),
        call_ensures(tool_named, (name,), found),
    ensures
        name@ == operation_name(*tool),
        found == Some(*tool),
{
    lemma_tools_are_called_by_their_operations(*tool);
    if found is Some && found->0 != *tool {
        lemma_names_differ(found->0, *tool);
    }
    assert(name@ == tool.text());
}

/// A name finds a tool exactly if it is that tool's.
pub proof fn lemma_name_finds_its_tool(name: &str, found: Option<Tool>, tool: Tool)
    requires
        call_ensures(tool_named, (name,), found),
    ensures
        found == Some(tool) <==> name@ == operation_name(tool),
{
    lemma_tools_are_called_by_their_operations(tool);
    if found is Some {
        lemma_tools_are_called_by_their_operations(found->0);
        if found->0 != tool {
            lemma_names_differ(found->0, tool);
        }
    }
    assert(found is None ==> name@ != tool.text());
}

/// A tool may run beside others exactly if it is one of the three that change nothing.
pub proof fn lemma_reading_tools_run_beside_others(tool: &Tool, class: ToolExecutionClass)
    requires
        call_ensures(Tool::execution, (tool,), class),
    ensures
        class is ParallelSafe <==> *tool is GetFlag || *tool is ListFlags || *tool
            is ListEvaluationReceipts,
        class is Exclusive <==> *tool is CreateFlag || *tool is UpdateFlag || *tool is ArchiveFlag
            || *tool is PutEnvironment || *tool is PublishRuleset,
{
}

/// A rejection has its reason, the message of every rejection, and the reason once more in its
/// details.
pub open spec fn is_rejection(error: ExecuteError, reason: Seq<char>) -> bool {
    &&& error is ExecutionFailed
    &&& error->payload.reason_code@ == reason
    &&& error->payload.message@ == "Feature Flag Admin rejected the requested operation."@
    &&& error->payload.details_json@ == json_text_object("domain_error"@, reason)
}

/// What is rejected for a reason is a rejection for that reason.
pub proof fn lemma_rejection_has_its_reason(reason: &str, error: ExecuteError)
    requires
        call_ensures(rejected, (reason,), error),
    ensures
        is_rejection(error, reason@),
{
}

/// A refusal of the administration is answered as wrong arguments, as nothing found, as not
/// permitted, or else as a rejection for the reason that the refusal is named by.
pub open spec fn answers(refusal: AdminError, answer: ExecuteError) -> bool {
    match refusal {
        AdminError::InvalidRequest => answer is InvalidArguments,
        AdminError::NotFound => answer is NotFound,
        AdminError::Forbidden => answer is PermissionDenied,
        AdminError::Unauthenticated => answer is PermissionDenied,
        AdminError::AlreadyExists => is_rejection(answer, "already_exists"@),
        AdminError::Archived => is_rejection(answer, "archived"@),
        AdminError::IdempotencyConflict => is_rejection(answer, "idempotency_conflict"@),
        AdminError::InvalidRuleset => is_rejection(answer, "invalid_ruleset"@),
        AdminError::OperationInProgress => is_rejection(answer, "operation_in_progress"@),
        AdminError::RevisionConflict => is_rejection(answer, "revision_conflict"@),
        AdminError::TypeMismatch => is_rejection(answer, "type_mismatch"@),
        AdminError::Unknown => is_rejection(answer, "unknown_domain_error"@),
    }
}

/// Every refusal of the administration is answered by what it refused.
pub proof fn lemma_refusal_is_answered(refusal: AdminError, answer: ExecuteError)
    requires
        call_ensures(map_domain_error, (refusal,), answer),
    ensures
        answers(refusal, answer),
{
}

/// The administration's response is passed on word for word, beside the tool's name; what the
/// writer said of one that could not be written is repeated.
pub proof fn lemma_response_is_passed_on(
    tool: Tool,
    content: Result<String, String>,
    result: Result<ExecuteResponse, String>,
)
    requires
        call_ensures(success, (tool, content), result),
    ensures
        content is Ok <==> result is Ok,
        content is Ok ==> result->Ok_0.content@ == content->Ok_0@ && result->Ok_0.metadata_json@
            == json_text_object("tool"@, operation_name(tool)),
        content is Err ==> result->Err_0@
            == "Feature Flag Admin Tool could not serialize its typed response: "@
            + content->Err_0@,
{
    lemma_tools_are_called_by_their_operations(tool);
}

/// A request is put to the administration only once it named a tool and its arguments are that
/// tool's, and then it is that tool that is asked.
pub proof fn lemma_request_reaches_its_tool(
    tool: Tool,
    name: String,
    accepted: bool,
    named: (Stage, Action),
    decoded: (Stage, Action),
)
    requires
        call_ensures(execute, (Stage::Start, Event::Named(name)), named),
        call_ensures(execute, (Stage::Decoding(tool), Event::Decoded(accepted)), decoded),
    ensures
        name@ == operation_name(tool) <==> named == (Stage::Decoding(tool), Action::Decode(tool)),
        (forall|other: Tool| name@ != #[trigger] operation_name(other)) ==> named.0 is Done
            && named.1 is Refuse && named.1->Refuse_0 is NotFound,
        accepted ==> decoded == (Stage::Asking(tool), Action::Ask(tool)),
        !accepted ==> decoded.0 is Done && decoded.1 is Refuse && decoded.1->Refuse_0
            is InvalidArguments,
{
    lemma_request_is_put_to_the_named_tool(tool, name@);
    lemma_tools_are_called_by_their_operations(tool);
    assert(named.1@ == crate::tools::execute_of(
        Stage::Start,
        crate::tools::EventView::Named(name@),
    ).1);
    if named == (Stage::Decoding(tool), Action::Decode(tool)) {
        let found = crate::tools::tool_of(name@);
        assert(name@ == found.text());
    }
    if forall|other: Tool| name@ != #[trigger] operation_name(other) {
        assert forall|other: Tool| name@ != #[trigger] other.text() by {
            lemma_tools_are_called_by_their_operations(other);
            assert(name@ != operation_name(other));
        }
    }
}

/// What the administration answered, refused or could not be asked is what the request is answered,
/// refused or reported; and then it is done with.
pub proof fn lemma_request_ends(
    tool: Tool,
    content: String,
    refusal: AdminError,
    answered: (Stage, Action),
    refused: (Stage, Action),
    broken: (Stage, Action),
)
    requires
        call_ensures(execute, (Stage::Asking(tool), Event::Answered(Ok(content))), answered),
        call_ensures(execute, (Stage::Asking(tool), Event::Refused(refusal)), refused),
        call_ensures(execute, (Stage::Asking(tool), Event::Broken), broken),
    ensures
        answered.0 is Done,
        answered.1 is Respond,
        answered.1->Respond_0.content@ == content@,
        answered.1->Respond_0.metadata_json@ == json_text_object("tool"@, operation_name(tool)),
        refused.0 is Done,
        refused.1 is Refuse,
        answers(refusal, refused.1->Refuse_0),
        broken.0 is Done,
        broken.1 is Report,
{
    lemma_request_is_answered(tool, content@, refusal);
    lemma_tools_are_called_by_their_operations(tool);
    assert(answered.1@ is Respond);
    assert(refused.1@ is Refuse);
    assert(broken.1@ is Report);
    assert(answered.1@->Respond_0 == answered.1->Respond_0@);
    assert(refused.1@->Refuse_0 == refused.1->Refuse_0@);
}

/// The tool at each place of the catalog.
pub open spec fn tool_at(i: int) -> Tool {
    if i == 0 {
        Tool::GetFlag
    } else if i == 1 {
        Tool::ListFlags
    } else if i == 2 {
        Tool::ListEvaluationReceipts
    } else if i == 3 {
        Tool::CreateFlag
    } else if i == 4 {
        Tool::UpdateFlag
    } else if i == 5 {
        Tool::ArchiveFlag
    } else if i == 6 {
        Tool::PutEnvironment
    } else {
        Tool::PublishRuleset
    }
}

/// Each of the eight tools has one entry in the catalog, under its own name, described in its own
/// words, with the schema of its own request, and in the class of those that read or of those that
/// write.
pub proof fn lemma_catalog_is_made(
    schemas: Schemas<'_>,
    catalog: Option<Vec<ToolDefinition>>,
    tool: &Tool,
    words: &'static str,
    i: int,
)
    requires
        call_ensures(tool_definitions, (schemas,), catalog),
        catalog is Some,
        0 <= i < 8,
        *tool == tool_at(i),
        call_ensures(Tool::description, (tool,), words),
    ensures
        catalog->0@.len() == 8,
        ({
            let entry = catalog->0@[i];
            &&& entry.name@ == operation_name(*tool)
            &&& entry.description@ == words@
            &&& entry.execution is ParallelSafe <==> i < 3
            &&& Some(entry.input_schema_json@) == match *tool {
                Tool::GetFlag => json_compact(schemas.get_flag@),
                Tool::ListFlags => json_compact(schemas.list_flags@),
                Tool::ListEvaluationReceipts => json_compact(schemas.list_evaluation_receipts@),
                Tool::CreateFlag => json_compact(schemas.create_flag@),
                Tool::UpdateFlag => json_compact(schemas.update_flag@),
                Tool::ArchiveFlag => json_compact(schemas.archive_flag@),
                Tool::PutEnvironment => json_compact(schemas.put_environment@),
                Tool::PublishRuleset => publish_schema(
                    schemas.publish_ruleset@,
                    schemas.flag_value@,
                ),
            }
        }),
{
    lemma_catalog_lists_every_tool(schemas, i);
    crate::tools::lemma_catalog_has_three_reads_and_five_mutations(schemas);
    lemma_tools_are_called_by_their_operations(*tool);
    assert(tools()[i] == *tool);
    let list = definitions_view(catalog->0@);
    assert(list.len() == catalog->0@.len());
    assert(list[i] == catalog->0@[i]@);
}

/// There is no catalog where one schema is not JSON.
pub proof fn lemma_catalog_needs_every_schema(
    schemas: Schemas<'_>,
    catalog: Option<Vec<ToolDefinition>>,
)
    requires
        call_ensures(tool_definitions, (schemas,), catalog),
        json_compact(schemas.get_flag@) is None || json_compact(schemas.list_flags@) is None
            || json_compact(schemas.list_evaluation_receipts@) is None || json_compact(
            schemas.create_flag@,
        ) is None || json_compact(schemas.update_flag@) is None || json_compact(
            schemas.archive_flag@,
        ) is None || json_compact(schemas.put_environment@) is None || json_compact(
            schemas.flag_value@,
        ) is None,
    ensures
        catalog is None,
{
    lemma_catalog_lists_every_tool(schemas, 0);
    lemma_catalog_lists_every_tool(schemas, 1);
    lemma_catalog_lists_every_tool(schemas, 2);
    lemma_catalog_lists_every_tool(schemas, 3);
    lemma_catalog_lists_every_tool(schemas, 4);
    lemma_catalog_lists_every_tool(schemas, 5);
    lemma_catalog_lists_every_tool(schemas, 6);
    lemma_catalog_lists_every_tool(schemas, 7);
}

/// The schema of a publication is the one that draws in the schema of a value.
pub proof fn lemma_publication_schema_is_made(request: &str, value: &str, schema: Option<String>)
    requires
        call_ensures(publish_ruleset_schema, (request, value), schema),
    ensures
        schema is Some <==> publish_schema(request@, value@) is Some,
        schema is Some ==> Some(schema->0@) == publish_schema(request@, value@),
{
}

} // verus!
