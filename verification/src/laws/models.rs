//! The models tell what the values hold, field by field.

use vstd::prelude::*;
use crate::config::PolicyConfig;
use crate::d1::evaluate::{EvaluationDecision, Evaluations};
use crate::d1::plan::{Decision, Effect};
use crate::d1::rows::{Column, RulesetRow};
use crate::d1::snapshot::{KeyedRuleset, Snapshot};
use crate::d1::statement::{Param, Statement};
use crate::domain::{
    optional_str, optional_text, outcome, texts, Command, EnvironmentRecord, EvaluationRecord,
    FlagRecord, PublishRecord, PublishedRuleset, ReceiptRecord, RolloutRecord, RulesetDefinition,
    StorageError, TargetingRuleRecord, ValueRecord, VariantRecord,
};
use crate::evaluation::{FlagState, ReceiptDraft, Request, Stamp, Subject};
use crate::json::JsonValue;
use crate::postgres::evaluate::{InstantStamp, NumberedRuleset, Progress};
use crate::postgres::query::{Bind, Query, ReceiptFacts};
use crate::postgres::rows::LockedFlag;
use crate::postgres::session::StoredCommand;
use crate::postgres::work::{Job, Task};
use crate::qualification::composition::{Binding, Capability, Instance, Requirement};
use crate::tools::{ExecuteResponse, ToolDefinition};

verus! {

/// The model of a `ValueRecord` repeats it.
pub proof fn lemma_value_record_model(value: ValueRecord)
    ensures
        value@.value_type == value.value_type@,
        value@.boolean_value == value.boolean_value,
        value@.string_value is Some <==> value.string_value is Some,
        value.string_value is Some ==> value@.string_value->0 == value.string_value->0@,
        value@.integer_value is Some <==> value.integer_value is Some,
        value.integer_value is Some ==> value@.integer_value->0 == value.integer_value->0@,
        value@.double_value == value.double_value,
        value@.json_value is Some <==> value.json_value is Some,
        value.json_value is Some ==> value@.json_value->0 == value.json_value->0@,
{
}

/// The model of a `VariantRecord` repeats it.
pub proof fn lemma_variant_record_model(variant: VariantRecord)
    ensures
        variant@.variant_key == variant.variant_key@,
        variant@.value == variant.value@,
{
}

/// The model of a `TargetingRuleRecord` repeats it.
pub proof fn lemma_targeting_rule_record_model(rule: TargetingRuleRecord)
    ensures
        rule@.rule_id == rule.rule_id@,
        rule@.attribute == rule.attribute@,
        rule@.operator == rule.operator@,
        rule@.comparison_values.len() == rule.comparison_values@.len(),
        forall|i: int|
            0 <= i < rule.comparison_values@.len() ==>
                #[trigger] rule@.comparison_values[i] == rule.comparison_values@[i]@,
        rule@.variant_key == rule.variant_key@,
{
}

/// The model of a `RolloutRecord` repeats it.
pub proof fn lemma_rollout_record_model(item: RolloutRecord)
    ensures
        item@.variant_key == item.variant_key@,
        item@.basis_points == item.basis_points,
{
}

/// The model of a `RulesetDefinition` repeats it.
pub proof fn lemma_ruleset_definition_model(definition: RulesetDefinition)
    ensures
        definition@.variants.len() == definition.variants@.len(),
        forall|i: int|
            0 <= i < definition.variants@.len() ==>
                #[trigger] definition@.variants[i] == definition.variants@[i]@,
        definition@.targeting_rules.len() == definition.targeting_rules@.len(),
        forall|i: int|
            0 <= i < definition.targeting_rules@.len() ==>
                #[trigger] definition@.targeting_rules[i] == definition.targeting_rules@[i]@,
        definition@.percentage_rollout.len() == definition.percentage_rollout@.len(),
        forall|i: int|
            0 <= i < definition.percentage_rollout@.len() ==>
                #[trigger] definition@.percentage_rollout[i] == definition.percentage_rollout@[i]@,
        definition@.fallthrough_variant == definition.fallthrough_variant@,
{
}

/// The model of a `PublishedRuleset` repeats it.
pub proof fn lemma_published_ruleset_model(ruleset: PublishedRuleset)
    ensures
        ruleset@.revision == ruleset.revision@,
        ruleset@.definition == ruleset.definition@,
{
}

/// The model of a `FlagRecord` repeats it.
pub proof fn lemma_flag_record_model(flag: FlagRecord)
    ensures
        flag@.organization_id == flag.organization_id@,
        flag@.flag_key == flag.flag_key@,
        flag@.name == flag.name@,
        flag@.description is Some <==> flag.description is Some,
        flag.description is Some ==> flag@.description->0 == flag.description->0@,
        flag@.value_type == flag.value_type@,
        flag@.archived == flag.archived,
        flag@.revision == flag.revision@,
        flag@.created_at == flag.created_at@,
        flag@.updated_at == flag.updated_at@,
        flag@.archived_at is Some <==> flag.archived_at is Some,
        flag.archived_at is Some ==> flag@.archived_at->0 == flag.archived_at->0@,
        flag@.row_seq == flag.row_seq,
{
}

/// The model of an `EnvironmentRecord` repeats it.
pub proof fn lemma_environment_record_model(environment: EnvironmentRecord)
    ensures
        environment@.organization_id == environment.organization_id@,
        environment@.environment_key == environment.environment_key@,
        environment@.name == environment.name@,
        environment@.revision == environment.revision@,
        environment@.created_at == environment.created_at@,
        environment@.updated_at == environment.updated_at@,
{
}

/// The model of a `PublishRecord` repeats it.
pub proof fn lemma_publish_record_model(publication: PublishRecord)
    ensures
        publication@.organization_id == publication.organization_id@,
        publication@.flag_key == publication.flag_key@,
        publication@.environment_key == publication.environment_key@,
        publication@.ruleset_revision == publication.ruleset_revision@,
        publication@.flag_revision == publication.flag_revision@,
        publication@.environment_revision == publication.environment_revision@,
        publication@.published_by == publication.published_by@,
        publication@.published_at == publication.published_at@,
{
}

/// The model of an `EvaluationRecord` repeats it.
pub proof fn lemma_evaluation_record_model(record: EvaluationRecord)
    ensures
        record@.flag_key == record.flag_key@,
        record@.environment_key == record.environment_key@,
        record@.variant_key == record.variant_key@,
        record@.value == record.value@,
        record@.reason == record.reason@,
        record@.ruleset_revision == record.ruleset_revision@,
        record@.receipt_id == record.receipt_id@,
        record@.evaluated_at == record.evaluated_at@,
{
}

/// The model of a `ReceiptRecord` repeats it.
pub proof fn lemma_receipt_record_model(receipt: ReceiptRecord)
    ensures
        receipt@.receipt_id == receipt.receipt_id@,
        receipt@.evaluation_id == receipt.evaluation_id@,
        receipt@.flag_key == receipt.flag_key@,
        receipt@.environment_key == receipt.environment_key@,
        receipt@.variant_key == receipt.variant_key@,
        receipt@.reason == receipt.reason@,
        receipt@.ruleset_revision == receipt.ruleset_revision@,
        receipt@.context_hash == receipt.context_hash@,
        receipt@.evaluated_at == receipt.evaluated_at@,
        receipt@.row_seq == receipt.row_seq,
{
}

/// The model of a `Command` repeats it.
pub proof fn lemma_command_model(command: Command<'_>)
    ensures
        command@.caller == command.caller@,
        command@.actor == command.actor@,
        command@.key == command.key@,
        command@.hash == command.hash@,
{
}

/// The model of a `FlagState` repeats it.
pub proof fn lemma_flag_state_model(flag: FlagState<'_>)
    ensures
        flag@.value_type == flag.value_type@,
        flag@.archived == flag.archived,
{
}

/// The model of a `Subject` repeats it.
pub proof fn lemma_subject_model(subject: Subject<'_>)
    ensures
        subject@.organization_id == subject.organization_id@,
        subject@.environment_key == subject.environment_key@,
        subject@.flag_key == subject.flag_key@,
        subject@.targeting_key == subject.targeting_key@,
        forall|name: Seq<char>| #[trigger]
            subject@.attributes.contains_key(name) <==> subject.attributes@.contains_key(name),
        forall|name: Seq<char>|
            subject.attributes@.contains_key(name) ==>
                #[trigger] subject@.attributes[name] == subject.attributes@[name]@,
{
}

/// The model of a `Request` repeats it.
pub proof fn lemma_request_model(request: Request<'_>)
    ensures
        request@.operation == request.operation@,
        request@.key == request.command.key@,
        request@.organization_id == request.organization_id@,
        request@.environment_key == request.environment_key@,
        request@.targeting_key == request.targeting_key@,
        forall|name: Seq<char>| #[trigger]
            request@.attributes.contains_key(name) <==> request.attributes@.contains_key(name),
        forall|name: Seq<char>|
            request.attributes@.contains_key(name) ==>
                #[trigger] request@.attributes[name] == request.attributes@[name]@,
        request@.context_hash == request.context_hash@,
{
}

/// The model of a `Stamp` repeats it.
pub proof fn lemma_stamp_model(stamp: Stamp)
    ensures
        stamp@.receipt_id == stamp.receipt_id@,
        stamp@.evaluated_at is Ok <==> stamp.evaluated_at is Ok,
        stamp.evaluated_at is Ok ==> stamp@.evaluated_at->Ok_0 == stamp.evaluated_at->Ok_0@,
        stamp.evaluated_at is Err ==> stamp@.evaluated_at->Err_0 == stamp.evaluated_at->Err_0@,
{
}

/// The model of a `ReceiptDraft` repeats it.
pub proof fn lemma_receipt_draft_model(draft: ReceiptDraft)
    ensures
        draft@.receipt_id == draft.receipt_id@,
        draft@.evaluation_id == draft.evaluation_id@,
        draft@.flag_key == draft.flag_key@,
        draft@.environment_key == draft.environment_key@,
        draft@.variant_key == draft.variant_key@,
        draft@.reason == draft.reason@,
        draft@.ruleset_revision == draft.ruleset_revision@,
        draft@.context_hash == draft.context_hash@,
        draft@.evaluated_at == draft.evaluated_at@,
{
}

/// The model of an `Evaluations` repeats it.
pub proof fn lemma_evaluations_model(done: Evaluations)
    ensures
        done@.records.len() == done.records@.len(),
        forall|i: int|
            0 <= i < done.records@.len() ==> #[trigger] done@.records[i] == done.records@[i]@,
        done@.receipts.len() == done.receipts@.len(),
        forall|i: int|
            0 <= i < done.receipts@.len() ==> #[trigger] done@.receipts[i] == done.receipts@[i]@,
{
}

/// The model of a `Statement` repeats it.
pub proof fn lemma_statement_model(statement: Statement)
    ensures
        statement@.sql == statement.sql@,
        statement@.params.len() == statement.params@.len(),
        forall|i: int|
            0 <= i < statement.params@.len() ==>
                #[trigger] statement@.params[i] == statement.params@[i]@,
{
}

/// The model of a `KeyedRuleset` repeats it.
pub proof fn lemma_keyed_ruleset_model(keyed: KeyedRuleset)
    ensures
        keyed@.0 == keyed.flag_key@,
        keyed@.1 == keyed.ruleset@,
{
}

/// The model of a `Snapshot` repeats it.
pub proof fn lemma_snapshot_model(snapshot: Snapshot)
    ensures
        snapshot@.epoch == snapshot.epoch,
        snapshot@.command.len() == snapshot.command@.len(),
        forall|i: int, name: Seq<char>|
            0 <= i < snapshot.command@.len() ==> (#[trigger] snapshot@.command[i].contains_key(name)
                <==> snapshot.command@[i]@.contains_key(name)) && (
            snapshot.command@[i]@.contains_key(name) ==> snapshot@.command[i][name]
                == snapshot.command@[i]@[name]@),
        forall|name: Seq<char>| #[trigger]
            snapshot@.flags.contains_key(name) <==> snapshot.flags@.contains_key(name),
        forall|name: Seq<char>|
            snapshot.flags@.contains_key(name) ==>
                #[trigger] snapshot@.flags[name] == snapshot.flags@[name]@,
        snapshot@.environment is Some <==> snapshot.environment is Some,
        snapshot.environment is Some ==> snapshot@.environment->0 == snapshot.environment->0@,
        forall|name: Seq<char>| #[trigger]
            snapshot@.rulesets.contains_key(name) <==> snapshot.rulesets@.contains_key(name),
        forall|name: Seq<char>|
            snapshot.rulesets@.contains_key(name) ==>
                #[trigger] snapshot@.rulesets[name] == snapshot.rulesets@[name]@,
{
}

/// The model of a `RulesetRow` repeats it.
pub proof fn lemma_ruleset_row_model(row: RulesetRow)
    ensures
        row@.flag_key == row.flag_key@,
        row@.revision == row.revision@,
        row@.definition == row.definition@,
{
}

/// The model of a `Query` repeats it.
pub proof fn lemma_query_model(query: Query)
    ensures
        query@.label == query.label@,
        query@.sql == query.sql@,
        query@.binds.len() == query.binds@.len(),
        forall|i: int|
            0 <= i < query.binds@.len() ==> #[trigger] query@.binds[i] == query.binds@[i]@,
{
}

/// The model of a `ReceiptFacts` repeats it.
pub proof fn lemma_receipt_facts_model(facts: ReceiptFacts<'_>)
    ensures
        facts@.operation == facts.operation@,
        facts@.evaluation_id == facts.evaluation_id@,
        facts@.organization_id == facts.organization_id@,
        facts@.ruleset_number == facts.ruleset_number,
        facts@.context_hash == facts.context_hash@,
        facts@.evaluated_at == facts.evaluated_at,
{
}

/// The model of a `LockedFlag` repeats it.
pub proof fn lemma_locked_flag_model(flag: LockedFlag)
    ensures
        flag@.revision == flag.revision,
        flag@.archived == flag.archived,
        flag@.value_type == flag.value_type@,
{
}

/// The model of a `NumberedRuleset` repeats it.
pub proof fn lemma_numbered_ruleset_model(ruleset: NumberedRuleset)
    ensures
        ruleset@.number == ruleset.number,
        ruleset@.definition == ruleset.definition@,
{
}

/// The model of an `InstantStamp` repeats it.
pub proof fn lemma_instant_stamp_model(stamp: InstantStamp)
    ensures
        stamp@.receipt_id == stamp.receipt_id@,
        stamp@.nanos == stamp.nanos,
{
}

/// The model of a `Progress` repeats it.
pub proof fn lemma_progress_model(progress: Progress)
    ensures
        progress@.stage == progress.stage@,
        progress@.records.len() == progress.records@.len(),
        forall|i: int|
            0 <= i < progress.records@.len() ==>
                #[trigger] progress@.records[i] == progress.records@[i]@,
{
}

/// The model of a `StoredCommand` repeats it.
pub proof fn lemma_stored_command_model(stored: StoredCommand)
    ensures
        stored@.request_hash == stored.request_hash@,
        stored@.response is Some <==> stored.response is Some,
        stored.response is Some ==> stored@.response->0 == stored.response->0@,
{
}

/// The model of a `Job` repeats it.
pub proof fn lemma_job_model(job: Job<'_>)
    ensures
        job@.organization_id == job.organization_id@,
        job@.actor == job.actor@,
        job@.task == job.task@,
{
}

/// The model of a `ToolDefinition` repeats it.
pub proof fn lemma_tool_definition_model(entry: ToolDefinition)
    ensures
        entry@.name == entry.name@,
        entry@.description == entry.description@,
        entry@.input_schema_json == entry.input_schema_json@,
        entry@.execution == entry.execution,
{
}

/// The model of an `ExecuteResponse` repeats it.
pub proof fn lemma_execute_response_model(response: ExecuteResponse)
    ensures
        response@.content == response.content@,
        response@.metadata_json == response.metadata_json@,
{
}

/// The model of a `PolicyConfig` repeats it.
pub proof fn lemma_policy_config_model(policy: PolicyConfig)
    ensures
        policy@.auth_issuer == policy.auth_issuer@,
        policy@.auth_assertion_public_key == policy.auth_assertion_public_key@,
        policy@.evaluation_callers.len() == policy.evaluation_callers@.len(),
        forall|i: int|
            0 <= i < policy.evaluation_callers@.len() ==>
                #[trigger] policy@.evaluation_callers[i] == policy.evaluation_callers@[i]@,
        policy@.admin_callers.len() == policy.admin_callers@.len(),
        forall|i: int|
            0 <= i < policy.admin_callers@.len() ==>
                #[trigger] policy@.admin_callers[i] == policy.admin_callers@[i]@,
        policy@.max_context_bytes == policy.max_context_bytes,
        policy@.max_attributes == policy.max_attributes,
        policy@.max_batch_size == policy.max_batch_size,
{
}

/// The model of a `Capability` repeats it.
pub proof fn lemma_capability_model(capability: Capability)
    ensures
        capability@.id == capability.id@,
        capability@.version == capability.version@,
        capability@.operations.len() == capability.operations@.len(),
        forall|i: int|
            0 <= i < capability.operations@.len() ==>
                #[trigger] capability@.operations[i] == capability.operations@[i]@,
{
}

/// The model of a `Requirement` repeats it.
pub proof fn lemma_requirement_model(requirement: Requirement)
    ensures
        requirement@.id == requirement.id@,
        requirement@.version == requirement.version@,
{
}

/// The model of an `Instance` repeats it.
pub proof fn lemma_instance_model(instance: Instance)
    ensures
        instance@.key == instance.key@,
        instance@.package == instance.package@,
        instance@.configuration == instance.configuration@,
        instance@.requirements.len() == instance.requirements@.len(),
        forall|i: int|
            0 <= i < instance.requirements@.len() ==>
                #[trigger] instance@.requirements[i] == instance.requirements@[i]@,
        instance@.capabilities.len() == instance.capabilities@.len(),
        forall|i: int|
            0 <= i < instance.capabilities@.len() ==>
                #[trigger] instance@.capabilities[i] == instance.capabilities@[i]@,
{
}

/// The model of a `Binding` repeats it.
pub proof fn lemma_binding_model(binding: Binding)
    ensures
        binding@.consumer == binding.consumer@,
        binding@.id == binding.id@,
        binding@.version == binding.version@,
        binding@.provider == binding.provider@,
{
}

/// The model of a list of texts holds their characters, one by one; that of an optional text, what
/// it holds.
pub proof fn lemma_texts_model(list: Seq<String>, text: Option<String>, borrowed: Option<&str>)
    ensures
        texts(list).len() == list.len(),
        forall|i: int| 0 <= i < list.len() ==> #[trigger] texts(list)[i] == list[i]@,
        optional_text(text) is Some <==> text is Some,
        text is Some ==> optional_text(text)->0 == text->0@,
        optional_str(borrowed) is Some <==> borrowed is Some,
        borrowed is Some ==> optional_str(borrowed)->0 == borrowed->0@,
{
}

/// The model of an outcome tells an answer from an error, and repeats what either holds.
pub proof fn lemma_outcome_model<T: View>(result: Result<T, StorageError>)
    ensures
        outcome(result) is Ok <==> result is Ok,
        result is Ok ==> outcome(result)->Ok_0 == result->Ok_0@,
        result is Err ==> outcome(result)->Err_0 == result->Err_0@,
{
}

/// The model of an error is of the same kind and repeats it.
pub proof fn lemma_storage_error_model(error: StorageError)
    ensures
        error@ is Domain <==> error is Domain,
        error is Domain ==> error@->Domain_0 == error->Domain_0,
        error@ is Backend <==> error is Backend,
        error is Backend ==> error@->Backend_0 == error->Backend_0@,
        error@ is Json <==> error is Json,
        error is Json ==> error@->Json_0 == error->Json_0,
        error@ is Time <==> error is Time,
        error is Time ==> error@->Time_0 == error->Time_0,
{
}

/// The model of a JSON value tells a string from anything else, and repeats its text.
pub proof fn lemma_json_value_model(value: JsonValue)
    ensures
        value@ is Text <==> value is Text,
        value is Text ==> value@->Text_0 == value->Text_0@,
        value is Other ==> value@->Other_0 == value->Other_0@,
{
}

/// The model of a column tells a text from anything else, and repeats the text.
pub proof fn lemma_column_model(column: Column)
    ensures
        column@ is Text <==> column is Text,
        column is Text ==> column@->Text_0 == column->Text_0@,
{
}

/// The model of a bound value of a statement on D1 repeats it.
pub proof fn lemma_param_model(param: Param)
    ensures
        param@ is Text <==> param is Text,
        param is Text ==> param@->Text_0 == param->Text_0@,
        param@ is Integer <==> param is Integer,
        param is Integer ==> param@->Integer_0 == param->Integer_0,
{
}

/// The model of a bound value of a statement on PostgreSQL repeats it.
pub proof fn lemma_bind_model(bind: Bind)
    ensures
        bind@ is Text <==> bind is Text,
        bind is Text ==> bind@->Text_0 == bind->Text_0@,
        bind@ is OptionalText <==> bind is OptionalText,
        bind is OptionalText ==> bind@->OptionalText_0 == optional_text(bind->OptionalText_0),
        bind@ is Truth <==> bind is Truth,
        bind is Truth ==> bind@->Truth_0 == bind->Truth_0,
        bind@ is Number <==> bind is Number,
        bind is Number ==> bind@->Number_0 == bind->Number_0,
        bind@ is Bytes <==> bind is Bytes,
        bind is Bytes ==> bind@->Bytes_0 == bind->Bytes_0@,
        bind@ is Json <==> bind is Json,
        bind is Json ==> bind@->Json_0 == bind->Json_0@,
        bind@ is Identifier <==> bind is Identifier,
        bind is Identifier ==> bind@->Identifier_0 == bind->Identifier_0@,
        bind@ is Instant <==> bind is Instant,
        bind is Instant ==> bind@->Instant_0 == bind->Instant_0,
{
}

/// The model of a change of the store is of the same kind and repeats the record.
pub proof fn lemma_effect_model(effect: Effect)
    ensures
        effect@ is InsertFlag <==> effect is InsertFlag,
        effect is InsertFlag ==> effect@->InsertFlag_0 == effect->InsertFlag_0@,
        effect@ is UpdateFlag <==> effect is UpdateFlag,
        effect is UpdateFlag ==> effect@->UpdateFlag_0 == effect->UpdateFlag_0@,
        effect@ is PutEnvironment <==> effect is PutEnvironment,
        effect is PutEnvironment ==> effect@->PutEnvironment_0 == effect->PutEnvironment_0@,
        effect@ is InsertRuleset <==> effect is InsertRuleset,
        effect is InsertRuleset ==> effect@->InsertRuleset_0 == effect->InsertRuleset_0@
            && effect@->InsertRuleset_1 == effect->InsertRuleset_1@,
{
}

/// The model of a plan repeats the response and the effects; that of a decision tells a replay from
/// a commit.
pub proof fn lemma_decision_model<R: View>(decision: Decision<R>)
    ensures
        decision@ is Replay <==> decision is Replay,
        decision is Replay ==> decision@->Replay_0 == decision->Replay_0@,
        decision is Commit ==> {
            let plan = decision->Commit_0;
            &&& decision@->Commit_0.response == plan.response@
            &&& decision@->Commit_0.effects.len() == plan.effects@.len()
            &&& forall|i: int|
                0 <= i < plan.effects@.len() ==> #[trigger] decision@->Commit_0.effects[i]
                    == plan.effects@[i]@
        },
{
}

/// The model of an evaluation's decision tells a replay from a commit, and repeats either.
pub proof fn lemma_evaluation_decision_model(decision: EvaluationDecision)
    ensures
        decision@ is Replay <==> decision is Replay,
        decision is Replay ==> decision@->Replay_0 == decision->Replay_0@,
        decision is Commit ==> decision@->Commit_0 == decision->Commit_0@,
{
}

/// The model of a write repeats what was asked for.
pub proof fn lemma_task_model(task: Task<'_>)
    ensures
        match task {
            Task::CreateFlag { flag_key, name, description, value_type } => {
                &&& task@ is CreateFlag
                &&& task@->CreateFlag_flag_key == flag_key@
                &&& task@->CreateFlag_name == name@
                &&& task@->CreateFlag_description == optional_str(description)
                &&& task@->CreateFlag_value_type == value_type@
            },
            Task::UpdateFlag { flag_key, expected_revision, name, description } => {
                &&& task@ is UpdateFlag
                &&& task@->UpdateFlag_flag_key == flag_key@
                &&& task@->UpdateFlag_expected_revision == expected_revision
                &&& task@->UpdateFlag_name == name@
                &&& task@->UpdateFlag_description == optional_str(description)
            },
            Task::ArchiveFlag { flag_key, expected_revision } => {
                &&& task@ is ArchiveFlag
                &&& task@->ArchiveFlag_flag_key == flag_key@
                &&& task@->ArchiveFlag_expected_revision == expected_revision
            },
            Task::PutEnvironment { environment_key, name, expected_revision } => {
                &&& task@ is PutEnvironment
                &&& task@->PutEnvironment_environment_key == environment_key@
                &&& task@->PutEnvironment_name == name@
                &&& task@->PutEnvironment_expected_revision == expected_revision
            },
            Task::PublishRuleset {
                flag_key,
                environment_key,
                expected_flag_revision,
                expected_environment_revision,
                definition,
                ruleset,
            } => {
                &&& task@ is PublishRuleset
                &&& task@->PublishRuleset_flag_key == flag_key@
                &&& task@->PublishRuleset_environment_key == environment_key@
                &&& task@->PublishRuleset_expected_flag_revision == expected_flag_revision
                &&& task@->PublishRuleset_expected_environment_revision
                    == expected_environment_revision
                &&& task@->PublishRuleset_definition == definition@
                &&& task@->PublishRuleset_ruleset == ruleset@
            },
        },
{
}

} // verus!
