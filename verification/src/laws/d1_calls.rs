//! What the functions of the store on D1 answer, told of the calls themselves.

use vstd::prelude::*;
use crate::d1::commit;
use crate::d1::evaluate::{
    all_evaluated, all_fresh, evaluation_decided, evaluations, evaluations_at, fresh, last_record,
    stamps_view, EvaluationDecision,
};
use crate::d1::plan::{
    archive_flag, archive_flag_at, archive_plan_of, create_flag, create_flag_at, create_plan_of,
    decided, expected_int, publish_plan_of, publish_ruleset, publish_ruleset_at, put_environment,
    put_environment_at, put_plan_of, update_flag, update_flag_at, update_plan_of, Decision,
    PlanView,
};
use crate::d1::revision::{
    bump, failure_view, lemma_bump_advances, require_flag, revision, revision_of, FAILURE,
};
use crate::d1::rows::{
    field, read_column, receipt_from, receipt_from_text, replay, ruleset_row, stored_receipt, Row,
    RulesetRow,
};
use crate::d1::snapshot::{answered, assemble, snapshot_rows, KeyedRuleset, Snapshot, SnapshotRows};
use crate::d1::wire::{accept, Receipt, WireError};
use crate::decimal::i64_value;
use crate::domain::{
    optional_str, outcome, texts, Command, DomainFailure, EnvironmentRecord, ErrorView,
    EvaluationRecord, FlagRecord, PublishRecord, ReceiptRecord, RulesetDefinition, StorageError,
};
use crate::evaluation::{DraftView, Request, Stamp};
use crate::json::json_bytes;
use crate::ruleset::ruleset_failure;
use crate::stamp::{is_random_id, stamped};
use super::evaluation::{
    answers_request, evaluation_name, lemma_d1_answers_the_request, receipt_repeats,
};
use super::receipts::{
    lemma_d1_lists_what_it_drafted, lemma_d1_lists_what_it_stored, record_holds, text_holds,
};
use super::snapshots::lemma_command_is_answered_by_its_row;
use super::writes::{
    advanced, identity_kept, lemma_archive_plan_is_as_asked, lemma_create_plan_is_as_asked,
    lemma_publish_plan_is_as_asked, lemma_put_plan_is_as_asked, lemma_update_plan_is_as_asked,
    next_number,
};

verus! {

/// The error is a refusal for the reason.
pub open spec fn refused_for<T>(result: Result<T, StorageError>, failure: DomainFailure) -> bool {
    result is Err && result->Err_0@ == ErrorView::Domain(failure)
}

/// A command is not stored: no row was found for it.
pub open spec fn unstored(snapshot: &Snapshot) -> bool {
    snapshot.command@.len() == 0
}

/// A write whose command is not stored is decided by its plan.
proof fn lemma_planned<R: View>(
    snapshot: &Snapshot,
    command: Command<'_>,
    plan: Result<PlanView<R::V>, ErrorView>,
    result: Result<Decision<R>, StorageError>,
)
    requires
        outcome(result) == decided(snapshot@.command, command@, plan),
        unstored(snapshot),
    ensures
        plan is Err ==> result is Err && result->Err_0@ == plan->Err_0,
        plan is Ok ==> {
            &&& result is Ok
            &&& result->Ok_0 is Commit
            &&& result->Ok_0->Commit_0.response@ == plan->Ok_0.response
            &&& result->Ok_0->Commit_0.effects@.len() == plan->Ok_0.effects.len()
            &&& forall|i: int|
                0 <= i < plan->Ok_0.effects.len() ==> plan->Ok_0.effects[i] == (
                #[trigger] result->Ok_0->Commit_0.effects@[i])@
        },
{
    assert(snapshot@.command.len() == 0);
    if plan is Ok {
        let made = result->Ok_0->Commit_0;
        assert(made@ == plan->Ok_0);
        assert(made@.effects.len() == made.effects@.len());
        assert forall|i: int| 0 <= i < plan->Ok_0.effects.len() implies plan->Ok_0.effects[i] == (
        #[trigger] made.effects@[i])@ by {
            assert(made@.effects[i] == made.effects@[i]@);
        }
    }
}

/// A new flag is committed with exactly the key, name, description and type that were asked for, at
/// the first revision, created and changed now; where the key is taken it is refused.
pub proof fn lemma_flag_is_created(
    snapshot: &Snapshot,
    command: Command<'_>,
    organization_id: &str,
    flag_key: &str,
    name: &str,
    description: Option<&str>,
    value_type: &str,
    now: Result<String, StorageError>,
    result: Result<Decision<FlagRecord>, StorageError>,
)
    requires
        call_ensures(
            create_flag_at,
            (
                snapshot,
                command,
                organization_id,
                flag_key,
                name,
                description,
                value_type,
                now,
            ),
            result,
        ),
        unstored(snapshot),
        now is Ok,
    ensures
        snapshot.flags@.contains_key(flag_key@) ==> refused_for(
            result,
            DomainFailure::AlreadyExists,
        ),
        !snapshot.flags@.contains_key(flag_key@) ==> {
            let plan = result->Ok_0->Commit_0;
            &&& result is Ok
            &&& result->Ok_0 is Commit
            &&& plan.effects@.len() == 1
            &&& plan.effects@[0] is InsertFlag
            &&& plan.effects@[0]->InsertFlag_0@ == plan.response@
            &&& plan.response.organization_id@ == organization_id@
            &&& plan.response.flag_key@ == flag_key@
            &&& plan.response.name@ == name@
            &&& plan.response@.description == optional_str(description)
            &&& plan.response.value_type@ == value_type@
            &&& !plan.response.archived
            &&& plan.response.archived_at is None
            &&& plan.response.revision@ == "1"@
            &&& plan.response.created_at@ == now->Ok_0@
            &&& plan.response.updated_at@ == now->Ok_0@
            &&& plan.response.row_seq == snapshot.epoch
        },
{
    lemma_create_plan_is_as_asked(
        snapshot@,
        organization_id@,
        flag_key@,
        name@,
        optional_str(description),
        value_type@,
        outcome(now),
    );
    let plan = create_plan_of(
        snapshot@,
        organization_id@,
        flag_key@,
        name@,
        optional_str(description),
        value_type@,
        outcome(now),
    );
    lemma_planned(snapshot, command, plan, result);
    if !snapshot.flags@.contains_key(flag_key@) {
        let plan = result->Ok_0->Commit_0;
        lemma_flag_fields(plan.response);
    }
}

proof fn lemma_flag_fields(flag: FlagRecord)
    ensures
        flag@.organization_id == flag.organization_id@,
        flag@.flag_key == flag.flag_key@,
        flag@.name == flag.name@,
        flag@.value_type == flag.value_type@,
        flag@.archived == flag.archived,
        flag@.revision == flag.revision@,
        flag@.created_at == flag.created_at@,
        flag@.updated_at == flag.updated_at@,
        flag@.archived_at is None <==> flag.archived_at is None,
        flag@.row_seq == flag.row_seq,
{
}

/// An update commits exactly the name and the description that were asked for, and none where none
/// was asked, whatever the flag had before; all else of the flag is kept but its revision, which
/// goes on by one, and the time of its change, which is now. It is refused where there is no such
/// flag, where the flag is archived, and at another revision.
pub proof fn lemma_flag_is_updated(
    snapshot: &Snapshot,
    command: Command<'_>,
    flag_key: &str,
    expected: i64,
    name: &str,
    description: Option<&str>,
    now: Result<String, StorageError>,
    result: Result<Decision<FlagRecord>, StorageError>,
)
    requires
        call_ensures(
            update_flag_at,
            (snapshot, command, flag_key, expected, name, description, now),
            result,
        ),
        unstored(snapshot),
        now is Ok,
        expected < i64::MAX,
        snapshot.flags@.contains_key(flag_key@) ==> revision_of(
            snapshot.flags@[flag_key@].revision@,
        ) is Ok,
    ensures
        ({
            let current = snapshot.flags@[flag_key@];
            let plan = result->Ok_0->Commit_0;
            if !snapshot.flags@.contains_key(flag_key@) {
                refused_for(result, DomainFailure::NotFound)
            } else if current.archived {
                refused_for(result, DomainFailure::Archived)
            } else if i64_value(current.revision@) != Some(expected as int) {
                refused_for(result, DomainFailure::RevisionConflict)
            } else {
                &&& result is Ok
                &&& result->Ok_0 is Commit
                &&& plan.effects@.len() == 1
                &&& plan.effects@[0] is UpdateFlag
                &&& plan.effects@[0]->UpdateFlag_0@ == plan.response@
                &&& plan.response.name@ == name@
                &&& plan.response.description is None <==> description is None
                &&& description is Some ==> plan.response.description->0@ == description->0@
                &&& !plan.response.archived
                &&& plan.response.updated_at@ == now->Ok_0@
                &&& advanced(current.revision@, plan.response.revision@)
                &&& identity_kept(current@, plan.response@)
            }
        }),
{
    assert(snapshot@.flags.contains_key(flag_key@) == snapshot.flags@.contains_key(flag_key@));
    if snapshot.flags@.contains_key(flag_key@) {
        assert(snapshot@.flags[flag_key@] == snapshot.flags@[flag_key@]@);
    }
    lemma_update_plan_is_as_asked(
        snapshot@,
        flag_key@,
        expected as int,
        name@,
        optional_str(description),
        outcome(now),
    );
    let plan = update_plan_of(
        snapshot@,
        flag_key@,
        expected as int,
        name@,
        optional_str(description),
        outcome(now),
    );
    lemma_planned(snapshot, command, plan, result);
    if result is Ok {
        let plan = result->Ok_0->Commit_0;
        lemma_flag_fields(plan.response);
    }
}

/// An archival commits the flag archived, now, and otherwise as it was but for its revision, which
/// goes on by one. It is refused where there is no such flag, where the flag is archived already,
/// and at another revision.
pub proof fn lemma_flag_is_archived(
    snapshot: &Snapshot,
    command: Command<'_>,
    flag_key: &str,
    expected: i64,
    now: Result<String, StorageError>,
    result: Result<Decision<FlagRecord>, StorageError>,
)
    requires
        call_ensures(archive_flag_at, (snapshot, command, flag_key, expected, now), result),
        unstored(snapshot),
        now is Ok,
        expected < i64::MAX,
        snapshot.flags@.contains_key(flag_key@) ==> revision_of(
            snapshot.flags@[flag_key@].revision@,
        ) is Ok,
    ensures
        ({
            let current = snapshot.flags@[flag_key@];
            let plan = result->Ok_0->Commit_0;
            if !snapshot.flags@.contains_key(flag_key@) {
                refused_for(result, DomainFailure::NotFound)
            } else if current.archived {
                refused_for(result, DomainFailure::Archived)
            } else if i64_value(current.revision@) != Some(expected as int) {
                refused_for(result, DomainFailure::RevisionConflict)
            } else {
                &&& result is Ok
                &&& result->Ok_0 is Commit
                &&& plan.effects@.len() == 1
                &&& plan.effects@[0] is UpdateFlag
                &&& plan.effects@[0]->UpdateFlag_0@ == plan.response@
                &&& plan.response.name@ == current.name@
                &&& plan.response@.description == current@.description
                &&& plan.response.archived
                &&& plan.response@.archived_at == Some(now->Ok_0@)
                &&& plan.response.updated_at@ == now->Ok_0@
                &&& advanced(current.revision@, plan.response.revision@)
                &&& identity_kept(current@, plan.response@)
            }
        }),
{
    assert(snapshot@.flags.contains_key(flag_key@) == snapshot.flags@.contains_key(flag_key@));
    if snapshot.flags@.contains_key(flag_key@) {
        assert(snapshot@.flags[flag_key@] == snapshot.flags@[flag_key@]@);
    }
    lemma_archive_plan_is_as_asked(
        snapshot@,
        flag_key@,
        expected as int,
        outcome(now),
    );
    let plan = archive_plan_of(
        snapshot@,
        flag_key@,
        expected as int,
        outcome(now),
    );
    lemma_planned(snapshot, command, plan, result);
    if result is Ok {
        let plan = result->Ok_0->Commit_0;
        lemma_flag_fields(plan.response);
        lemma_flag_fields(snapshot.flags@[flag_key@]);
    }
}

/// A put commits the environment with exactly the name that was asked for: a new one where none is
/// there and none is expected, else the one that is there with its next revision. It is refused
/// where one is there and none expected, where none is there and one expected, and at another
/// revision.
pub proof fn lemma_environment_is_put(
    snapshot: &Snapshot,
    command: Command<'_>,
    organization_id: &str,
    environment_key: &str,
    name: &str,
    expected: Option<i64>,
    now: Result<String, StorageError>,
    result: Result<Decision<EnvironmentRecord>, StorageError>,
)
    requires
        call_ensures(
            put_environment_at,
            (snapshot, command, organization_id, environment_key, name, expected, now),
            result,
        ),
        unstored(snapshot),
        now is Ok,
        expected != Some(i64::MAX),
        snapshot.environment is Some ==> revision_of(
            snapshot.environment->0.revision@,
        ) is Ok,
    ensures
        ({
            let current = snapshot.environment->0;
            let plan = result->Ok_0->Commit_0;
            if snapshot.environment is None && expected is Some {
                refused_for(result, DomainFailure::NotFound)
            } else if snapshot.environment is Some && expected is None {
                refused_for(result, DomainFailure::AlreadyExists)
            } else if snapshot.environment is Some && i64_value(current.revision@) != Some(
                expected->0 as int,
            ) {
                refused_for(result, DomainFailure::RevisionConflict)
            } else {
                &&& result is Ok
                &&& result->Ok_0 is Commit
                &&& plan.effects@.len() == 1
                &&& plan.effects@[0] is PutEnvironment
                &&& plan.effects@[0]->PutEnvironment_0@ == plan.response@
                &&& plan.response.name@ == name@
                &&& plan.response.updated_at@ == now->Ok_0@
                &&& if snapshot.environment is None {
                    &&& plan.response.organization_id@ == organization_id@
                    &&& plan.response.environment_key@ == environment_key@
                    &&& plan.response.revision@ == "1"@
                    &&& plan.response.created_at@ == now->Ok_0@
                } else {
                    &&& plan.response.organization_id@ == current.organization_id@
                    &&& plan.response.environment_key@ == current.environment_key@
                    &&& advanced(current.revision@, plan.response.revision@)
                    &&& plan.response.created_at@ == current.created_at@
                }
            }
        }),
{
    if snapshot.environment is Some {
        assert(snapshot@.environment == Some(snapshot.environment->0@));
        lemma_environment_fields(snapshot.environment->0);
    }
    lemma_put_plan_is_as_asked(
        snapshot@,
        organization_id@,
        environment_key@,
        name@,
        expected_int(expected),
        outcome(now),
    );
    let plan = put_plan_of(
        snapshot@,
        organization_id@,
        environment_key@,
        name@,
        expected_int(expected),
        outcome(now),
    );
    lemma_planned(snapshot, command, plan, result);
    if result is Ok {
        let plan = result->Ok_0->Commit_0;
        lemma_environment_fields(plan.response);
    }
}

proof fn lemma_environment_fields(environment: EnvironmentRecord)
    ensures
        environment@.organization_id == environment.organization_id@,
        environment@.environment_key == environment.environment_key@,
        environment@.name == environment.name@,
        environment@.revision == environment.revision@,
        environment@.created_at == environment.created_at@,
        environment@.updated_at == environment.updated_at@,
{
}

/// A publication commits exactly the ruleset that was given, for the organization, the flag and the
/// environment, by the actor of the command, now; the flag and the environment go on by one
/// revision, which the publication tells.
pub proof fn lemma_ruleset_is_published(
    snapshot: &Snapshot,
    command: Command<'_>,
    organization_id: &str,
    flag_key: &str,
    environment_key: &str,
    expected_flag: i64,
    expected_environment: i64,
    definition: &RulesetDefinition,
    now: Result<String, StorageError>,
    result: Result<Decision<PublishRecord>, StorageError>,
)
    requires
        call_ensures(
            publish_ruleset_at,
            (
                snapshot,
                command,
                organization_id,
                flag_key,
                environment_key,
                expected_flag,
                expected_environment,
                definition,
                now,
            ),
            result,
        ),
        unstored(snapshot),
        now is Ok,
        expected_flag < i64::MAX,
        expected_environment < i64::MAX,
        snapshot.flags@.contains_key(flag_key@) ==> revision_of(
            snapshot.flags@[flag_key@].revision@,
        ) is Ok,
        snapshot.environment is Some ==> revision_of(
            snapshot.environment->0.revision@,
        ) is Ok,
        snapshot.rulesets@.contains_key(flag_key@) ==> revision_of(
            snapshot.rulesets@[flag_key@].revision@,
        ) is Ok,
        next_number(snapshot@, flag_key@) <= i64::MAX,
    ensures
        ({
            let flag = snapshot.flags@[flag_key@];
            let environment = snapshot.environment->0;
            let failure = ruleset_failure(flag.value_type@, definition@);
            let plan = result->Ok_0->Commit_0;
            if !snapshot.flags@.contains_key(flag_key@) {
                refused_for(result, DomainFailure::NotFound)
            } else if flag.archived {
                refused_for(result, DomainFailure::Archived)
            } else if i64_value(flag.revision@) != Some(expected_flag as int) {
                refused_for(result, DomainFailure::RevisionConflict)
            } else if failure is Some {
                refused_for(result, failure->0)
            } else if snapshot.environment is None {
                refused_for(result, DomainFailure::NotFound)
            } else if i64_value(environment.revision@) != Some(expected_environment as int) {
                refused_for(result, DomainFailure::RevisionConflict)
            } else {
                &&& result is Ok
                &&& result->Ok_0 is Commit
                &&& plan.effects@.len() == 3
                &&& plan.effects@[0] is UpdateFlag
                &&& plan.effects@[1] is PutEnvironment
                &&& plan.effects@[2] is InsertRuleset
                &&& plan.effects@[2]->InsertRuleset_0@ == definition@
                &&& plan.effects@[2]->InsertRuleset_1@ == plan.response@
                &&& plan.response.organization_id@ == organization_id@
                &&& plan.response.flag_key@ == flag_key@
                &&& plan.response.environment_key@ == environment_key@
                &&& plan.response.published_by@ == command.actor@
                &&& plan.response.published_at@ == now->Ok_0@
                &&& advanced(flag.revision@, plan.response.flag_revision@)
                &&& advanced(environment.revision@, plan.response.environment_revision@)
                &&& i64_value(plan.response.ruleset_revision@) == Some(
                    next_number(snapshot@, flag_key@),
                )
            }
        }),
{
    assert(snapshot@.flags.contains_key(flag_key@) == snapshot.flags@.contains_key(flag_key@));
    if snapshot.flags@.contains_key(flag_key@) {
        assert(snapshot@.flags[flag_key@] == snapshot.flags@[flag_key@]@);
        lemma_flag_fields(snapshot.flags@[flag_key@]);
    }
    if snapshot.environment is Some {
        assert(snapshot@.environment == Some(snapshot.environment->0@));
        lemma_environment_fields(snapshot.environment->0);
    }
    if snapshot.rulesets@.contains_key(flag_key@) {
        assert(snapshot@.rulesets[flag_key@] == snapshot.rulesets@[flag_key@]@);
        assert(snapshot@.rulesets[flag_key@].revision == snapshot.rulesets@[flag_key@].revision@);
    }
    lemma_publish_plan_is_as_asked(
        snapshot@,
        command.actor@,
        organization_id@,
        flag_key@,
        environment_key@,
        expected_flag as int,
        expected_environment as int,
        definition@,
        outcome(now),
    );
    let plan = publish_plan_of(
        snapshot@,
        command.actor@,
        organization_id@,
        flag_key@,
        environment_key@,
        expected_flag as int,
        expected_environment as int,
        definition@,
        outcome(now),
    );
    lemma_planned(snapshot, command, plan, result);
    if result is Ok {
        let plan = result->Ok_0->Commit_0;
        let publication = plan.response;
        assert(publication@.organization_id == publication.organization_id@);
        assert(publication@.flag_key == publication.flag_key@);
        assert(publication@.environment_key == publication.environment_key@);
        assert(publication@.published_by == publication.published_by@);
        assert(publication@.published_at == publication.published_at@);
        assert(publication@.flag_revision == publication.flag_revision@);
        assert(publication@.environment_revision == publication.environment_revision@);
        assert(publication@.ruleset_revision == publication.ruleset_revision@);
    }
}

/// A write whose command is stored is answered from its row, and nothing of it is decided anew: the
/// same request gets the stored response, and another request is a conflict.
pub proof fn lemma_stored_write_is_replayed(
    snapshot: &Snapshot,
    command: Command<'_>,
    flag_key: &str,
    expected: i64,
    name: &str,
    description: Option<&str>,
    now: Result<String, StorageError>,
    result: Result<Decision<FlagRecord>, StorageError>,
)
    requires
        call_ensures(
            update_flag_at,
            (snapshot, command, flag_key, expected, name, description, now),
            result,
        ),
        snapshot.command@.len() == 1,
        snapshot.command@[0]@.contains_key("request_hash"@),
        snapshot.command@[0]@["request_hash"@] is Text,
        snapshot.command@[0]@.contains_key("response"@),
        snapshot.command@[0]@["response"@] is Text,
    ensures
        ({
            let row = snapshot.command@[0]@;
            if row["request_hash"@]->Text_0@ == json_bytes(command.hash@) {
                &&& result is Ok
                &&& result->Ok_0 is Replay
                &&& result->Ok_0->Replay_0@ == row["response"@]->Text_0@
            } else {
                refused_for(result, DomainFailure::IdempotencyConflict)
            }
        }),
{
    lemma_command_is_answered_by_its_row(snapshot.command@, command);
}

/// The store answers the request that was made: each record of an evaluation that is committed is
/// the choice of the published ruleset in the bucket of the request's own keys and the flag key
/// asked for, and its receipt repeats it.
pub proof fn lemma_evaluations_answer_the_request(
    snapshot: &Snapshot,
    request: Request<'_>,
    flags: &[String],
    stamps: Vec<Stamp>,
    result: Result<EvaluationDecision, StorageError>,
    i: int,
)
    requires
        call_ensures(evaluations_at, (snapshot, request, flags, stamps), result),
        stamps@.len() == flags@.len(),
        result is Ok,
        result->Ok_0 is Commit,
        0 <= i < flags@.len(),
    ensures
        ({
            let done = result->Ok_0->Commit_0;
            let published = snapshot.rulesets@[flags@[i]@];
            &&& done.records@.len() == flags@.len()
            &&& done.receipts@.len() == flags@.len()
            &&& snapshot.rulesets@.contains_key(flags@[i]@)
            &&& answers_request(
                done.records@[i]@,
                request,
                flags@[i]@,
                published.definition@,
            )
            &&& done.records@[i].ruleset_revision@ == published.revision@
            &&& done.records@[i].receipt_id@ == stamps@[i].receipt_id@
            &&& receipt_repeats(
                done.receipts@[i]@,
                done.records@[i]@,
                evaluation_name(request, i),
                request.context_hash@,
            )
        }),
{
    let done = result->Ok_0->Commit_0;
    assert(all_evaluated(snapshot@, request@, texts(flags@), stamps_view(stamps@)) == Ok::<
        crate::d1::evaluate::EvaluationsView,
        ErrorView,
    >(done@));
    lemma_d1_answers_the_request(*snapshot, request, flags@, stamps@, i);
    assert(done@.records.len() == done.records@.len());
    assert(done@.receipts.len() == done.receipts@.len());
    assert(done@.records[i] == done.records@[i]@);
    assert(done@.receipts[i] == done.receipts@[i]@);
    let record = done.records@[i];
    assert(record@.ruleset_revision == record.ruleset_revision@);
    assert(record@.receipt_id == record.receipt_id@);
}

/// The same of evaluations that are stamped now: each has an identifier of its own.
pub proof fn lemma_evaluations_answer_the_request_now(
    snapshot: &Snapshot,
    request: Request<'_>,
    flags: &[String],
    result: Result<EvaluationDecision, StorageError>,
    i: int,
)
    requires
        call_ensures(evaluations, (snapshot, request, flags), result),
        result is Ok,
        result->Ok_0 is Commit,
        0 <= i < flags@.len(),
    ensures
        ({
            let done = result->Ok_0->Commit_0;
            let published = snapshot.rulesets@[flags@[i]@];
            &&& done.records@.len() == flags@.len()
            &&& done.receipts@.len() == flags@.len()
            &&& snapshot.rulesets@.contains_key(flags@[i]@)
            &&& answers_request(
                done.records@[i]@,
                request,
                flags@[i]@,
                published.definition@,
            )
            &&& done.records@[i].ruleset_revision@ == published.revision@
            &&& is_random_id(done.records@[i].receipt_id@)
            &&& receipt_repeats(
                done.receipts@[i]@,
                done.records@[i]@,
                evaluation_name(request, i),
                request.context_hash@,
            )
        }),
{
    let stamps = choose|stamps: Seq<Stamp>| #[trigger]
        all_fresh(stamps, flags@.len()) && outcome(result) == evaluation_decided(
            snapshot@,
            request.command@,
            request@,
            texts(flags@),
            stamps_view(stamps),
        );
    assert(fresh(stamps[i]));
    let done = result->Ok_0->Commit_0;
    lemma_d1_answers_the_request(*snapshot, request, flags@, stamps, i);
    assert(done@.records.len() == done.records@.len());
    assert(done@.receipts.len() == done.receipts@.len());
    assert(done@.records[i] == done.records@[i]@);
    assert(done@.receipts[i] == done.receipts@[i]@);
    let record = done.records@[i];
    assert(record@.ruleset_revision == record.ruleset_revision@);
    assert(record@.receipt_id == record.receipt_id@);
}

/// A single evaluation answers with its last record, and none is a failure.
pub proof fn lemma_last_record_is_answered(
    records: Vec<EvaluationRecord>,
    result: Result<EvaluationRecord, StorageError>,
)
    requires
        call_ensures(last_record, (records,), result),
    ensures
        records@.len() == 0 ==> result is Err && result->Err_0@ == failure_view(),
        records@.len() == 1 ==> result is Ok && result->Ok_0@ == records@[0]@,
{
}

/// A revision is read as a positive number, and the next one is one more.
pub proof fn lemma_revision_is_read_and_advanced(
    text: &str,
    read: Result<i64, StorageError>,
    next: Result<String, StorageError>,
)
    requires
        call_ensures(revision, (text,), read),
        call_ensures(bump, (text,), next),
    ensures
        read is Ok <==> i64_value(text@) is Some && i64_value(text@)->0 >= 1,
        read is Ok ==> read->Ok_0 == i64_value(text@)->0,
        read is Err ==> read->Err_0@ == failure_view(),
        next is Ok <==> read is Ok && read->Ok_0 < i64::MAX,
        next is Ok ==> i64_value(next->Ok_0@) == Some(read->Ok_0 + 1),
{
    assert(outcome(read) == revision_of(text@));
    assert(outcome(next) == crate::d1::revision::bump_of(text@));
    lemma_bump_advances(text@);
}

/// A flag is let through exactly if it is not archived and at the expected revision.
pub proof fn lemma_flag_is_let_through(
    flag: &FlagRecord,
    expected: i64,
    result: Result<(), StorageError>,
)
    requires
        call_ensures(require_flag, (flag, expected), result),
        revision_of(flag.revision@) is Ok,
    ensures
        result is Ok <==> !flag.archived && i64_value(flag.revision@) == Some(expected as int),
        flag.archived ==> refused_for(result, DomainFailure::Archived),
        !flag.archived && i64_value(flag.revision@) != Some(expected as int) ==> refused_for(
            result,
            DomainFailure::RevisionConflict,
        ),
{
}

/// A column is read by its name, where it is there and a text; without it a field is a failure.
pub proof fn lemma_column_is_read(
    row: &Row,
    name: &str,
    text: Option<&str>,
    taken: Result<String, StorageError>,
)
    requires
        call_ensures(read_column, (row, name), text),
        call_ensures(field, (row, name), taken),
    ensures
        text is Some <==> row@.contains_key(name@) && row@[name@] is Text,
        text is Some ==> text->0@ == row@[name@]->Text_0@,
        taken is Ok <==> text is Some,
        taken is Ok ==> taken->Ok_0@ == text->0@,
        taken is Err ==> taken->Err_0@ == failure_view(),
{
}

/// A ruleset's row gives the flag's key, the revision and the definition from the columns of these
/// names.
pub proof fn lemma_ruleset_row_is_taken(row: &Row, result: Result<RulesetRow, StorageError>)
    requires
        call_ensures(ruleset_row, (row,), result),
    ensures
        result is Ok ==> row@.contains_key("flag_key"@) && row@["flag_key"@] is Text
            && result->Ok_0.flag_key@ == row@["flag_key"@]->Text_0@ && row@.contains_key(
            "revision"@,
        ) && row@["revision"@] is Text && result->Ok_0.revision@ == row@["revision"@]->Text_0@
            && row@.contains_key("definition"@) && row@["definition"@] is Text
            && result->Ok_0.definition@ == row@["definition"@]->Text_0@,
        row@.contains_key("flag_key"@) && row@["flag_key"@] is Text && row@.contains_key(
            "revision"@,
        ) && row@["revision"@] is Text && row@.contains_key("definition"@) && row@["definition"@]
            is Text ==> result is Ok,
{
    if result is Ok {
        let taken = result->Ok_0;
        assert(taken@.flag_key == taken.flag_key@);
        assert(taken@.revision == taken.revision@);
        assert(taken@.definition == taken.definition@);
    }
}

/// A receipt that was drafted is listed as it was: its record holds its fields under their names,
/// or is the JSON text of them.
pub proof fn lemma_receipt_is_taken_as_drafted(
    record: &Row,
    text: &str,
    row: &Row,
    draft: DraftView,
    number: i64,
    taken: Result<ReceiptRecord, StorageError>,
    parsed: Result<ReceiptRecord, StorageError>,
)
    requires
        call_ensures(receipt_from, (record, row), taken),
        call_ensures(receipt_from_text, (text, row), parsed),
        record_holds(*record, draft),
        text_holds(text@, draft),
        row@.contains_key("row_seq"@),
        row@["row_seq"@] is Text,
        i64_value(row@["row_seq"@]->Text_0@) == Some(number as int),
        number > 0,
    ensures
        taken is Ok && is_draft(taken->Ok_0, draft, number),
        parsed is Ok && is_draft(parsed->Ok_0, draft, number),
{
    lemma_d1_lists_what_it_drafted(*record, *row, draft, number);
    lemma_d1_lists_what_it_stored(text@, *row, draft, number);
    lemma_receipt_fields(taken->Ok_0);
    lemma_receipt_fields(parsed->Ok_0);
}

/// The receipt is the drafted one, in the row of the number.
pub open spec fn is_draft(receipt: ReceiptRecord, draft: DraftView, number: i64) -> bool {
    &&& receipt.receipt_id@ == draft.receipt_id
    &&& receipt.evaluation_id@ == draft.evaluation_id
    &&& receipt.flag_key@ == draft.flag_key
    &&& receipt.environment_key@ == draft.environment_key
    &&& receipt.variant_key@ == draft.variant_key
    &&& receipt.reason@ == draft.reason
    &&& receipt.ruleset_revision@ == draft.ruleset_revision
    &&& receipt.context_hash@ == draft.context_hash
    &&& receipt.evaluated_at@ == draft.evaluated_at
    &&& receipt.row_seq == number
}

proof fn lemma_receipt_fields(receipt: ReceiptRecord)
    ensures
        receipt@.receipt_id == receipt.receipt_id@,
        receipt@.evaluation_id == receipt.evaluation_id@,
        receipt@.flag_key == receipt.flag_key@,
        receipt@.environment_key == receipt.environment_key@,
        receipt@.variant_key == receipt.variant_key@,
        receipt@.reason == receipt.reason@,
        receipt@.ruleset_revision == receipt.ruleset_revision@,
        receipt@.context_hash == receipt.context_hash@,
        receipt@.evaluated_at == receipt.evaluated_at@,
        receipt@.row_seq == receipt.row_seq,
{
}

/// A stored receipt is taken from the column that holds its record, in the row that holds it.
pub proof fn lemma_stored_receipt_is_taken(
    row: &Row,
    draft: DraftView,
    number: i64,
    result: Result<ReceiptRecord, StorageError>,
)
    requires
        call_ensures(stored_receipt, (row,), result),
        row@.contains_key("record"@),
        row@["record"@] is Text,
        text_holds(row@["record"@]->Text_0@, draft),
        row@.contains_key("row_seq"@),
        row@["row_seq"@] is Text,
        i64_value(row@["row_seq"@]->Text_0@) == Some(number as int),
        number > 0,
    ensures
        result is Ok && is_draft(result->Ok_0, draft, number),
{
    lemma_d1_lists_what_it_stored(row@["record"@]->Text_0@, *row, draft, number);
    lemma_receipt_fields(result->Ok_0);
}

/// What a command's rows answer: nothing without a row, the stored response to the same request, a
/// conflict to another, and a failure where there is more than one row.
pub proof fn lemma_command_is_replayed(
    rows: &Vec<Row>,
    command: Command<'_>,
    result: Result<Option<String>, StorageError>,
)
    requires
        call_ensures(replay, (rows, command), result),
    ensures
        rows@.len() == 0 ==> result is Ok && result->Ok_0 is None,
        rows@.len() > 1 ==> result is Err && result->Err_0@ == failure_view(),
        rows@.len() == 1 && rows@[0]@.contains_key("request_hash"@) && rows@[0]@["request_hash"@]
            is Text && rows@[0]@["request_hash"@]->Text_0@ != json_bytes(command.hash@)
            ==> refused_for(result, DomainFailure::IdempotencyConflict),
        rows@.len() == 1 && rows@[0]@.contains_key("request_hash"@) && rows@[0]@["request_hash"@]
            is Text && rows@[0]@["request_hash"@]->Text_0@ == json_bytes(command.hash@)
            && rows@[0]@.contains_key("response"@) && rows@[0]@["response"@] is Text ==> result
            is Ok && result->Ok_0 is Some && result->Ok_0->0@
            == rows@[0]@["response"@]->Text_0@,
{
    lemma_command_is_answered_by_its_row(rows@, command);
}

/// The answer to a batch is taken exactly if it has as many sets as there were statements; and the
/// host's receipts exactly if each of them is a success, set by set.
pub proof fn lemma_batch_answer_is_taken(
    count: usize,
    sets: Vec<Vec<Row>>,
    taken: Result<Vec<Vec<Row>>, StorageError>,
    receipts: Vec<Receipt<Row>>,
    accepted: Result<Vec<Vec<Row>>, WireError>,
)
    requires
        call_ensures(answered, (count, sets), taken),
        call_ensures(accept::<Row>, (count, receipts), accepted),
    ensures
        taken is Ok <==> sets@.len() == count,
        taken is Ok ==> taken->Ok_0 == sets,
        taken is Err ==> taken->Err_0@ == failure_view(),
        accepted is Ok <==> receipts@.len() == count && forall|i: int|
            0 <= i < receipts@.len() ==> (#[trigger] receipts@[i]).success,
        accepted is Ok ==> accepted->Ok_0@.len() == count && forall|i: int|
            0 <= i < count ==> #[trigger] accepted->Ok_0@[i] == receipts@[i].results,
        accepted is Err ==> accepted->Err_0 is Transport,
{
}

/// A snapshot's answer is split set by set: the epoch, the command, the flags, the environment, the
/// rulesets.
pub proof fn lemma_snapshot_answer_is_split(
    sets: Vec<Vec<Row>>,
    result: Result<SnapshotRows, StorageError>,
)
    requires
        call_ensures(snapshot_rows, (sets,), result),
    ensures
        sets@.len() < 5 ==> result is Err,
        result is Ok ==> {
            &&& result->Ok_0.command == sets@[1]
            &&& result->Ok_0.flags == sets@[2]
            &&& (result->Ok_0.environment is Some <==> sets@[3]@.len() > 0)
            &&& sets@[3]@.len() > 0 ==> result->Ok_0.environment->0 == sets@[3]@[0]
            &&& result->Ok_0.rulesets == sets@[4]
        },
{
}

/// A snapshot is put together from what was read, each part in its place.
pub proof fn lemma_snapshot_is_put_together(
    epoch: i64,
    command: Vec<Row>,
    flags: Vec<Result<FlagRecord, StorageError>>,
    environment: Option<Result<EnvironmentRecord, StorageError>>,
    rulesets: Vec<Result<KeyedRuleset, StorageError>>,
    result: Result<Snapshot, StorageError>,
)
    requires
        call_ensures(assemble, (epoch, command, flags, environment, rulesets), result),
    ensures
        result is Ok ==> {
            &&& result->Ok_0.epoch == epoch
            &&& result->Ok_0@.command == crate::d1::rows::rows_view(command@)
            &&& (result->Ok_0.environment is Some <==> environment is Some)
            &&& environment is Some ==> environment->0 is Ok && result->Ok_0.environment->0@
                == environment->0->Ok_0@
        },
        environment is Some && environment->0 is Err ==> result is Err,
{
    if result is Ok {
        assert(result->Ok_0@.epoch == result->Ok_0.epoch);
        assert(result->Ok_0@.environment is Some <==> result->Ok_0.environment is Some);
    }
}

/// A commit submits, answers what was submitted once that was taken, reads the command's row where
/// it was not, and then answers with what is stored or fails.
pub proof fn lemma_commit_steps(
    command: Command<'_>,
    operation: &str,
    begun: (commit::Stage, commit::Action),
    taken: (commit::Stage, commit::Action),
    failed: (commit::Stage, commit::Action),
    unread: (commit::Stage, commit::Action),
)
    requires
        call_ensures(
            commit::step,
            (commit::Stage::Ready, commit::Event::Begin, command, operation),
            begun,
        ),
        call_ensures(
            commit::step,
            (commit::Stage::Submitted, commit::Event::Accepted, command, operation),
            taken,
        ),
        call_ensures(
            commit::step,
            (commit::Stage::Submitted, commit::Event::Rejected, command, operation),
            failed,
        ),
        call_ensures(
            commit::step,
            (commit::Stage::Reconciling, commit::Event::Unread, command, operation),
            unread,
        ),
    ensures
        begun.0 is Submitted && begun.1 is Submit,
        taken.0 is Done && taken.1 is Answer,
        failed.0 is Reconciling && failed.1 is Read,
        failed.1->Read_0@ == crate::d1::statement::command_query_of(command@, operation@),
        unread.0 is Done && unread.1 is Fail,
        unread.1->Fail_0@ == failure_view(),
        FAILURE@
            == "D1 operation failed; a submitted write may have committed; retry only with the same idempotency key"@,
{
}

/// A write that is decided now is decided as at some time: what it commits has the fields that were
/// asked for.
pub proof fn lemma_flag_is_created_now(
    snapshot: &Snapshot,
    command: Command<'_>,
    organization_id: &str,
    flag_key: &str,
    name: &str,
    description: Option<&str>,
    value_type: &str,
    result: Result<Decision<FlagRecord>, StorageError>,
)
    requires
        call_ensures(
            create_flag,
            (snapshot, command, organization_id, flag_key, name, description, value_type),
            result,
        ),
        unstored(snapshot),
    ensures
        snapshot.flags@.contains_key(flag_key@) ==> refused_for(
            result,
            DomainFailure::AlreadyExists,
        ),
        !snapshot.flags@.contains_key(flag_key@) ==> result is Ok || result->Err_0@ is Time,
        result is Ok ==> {
            let flag = result->Ok_0->Commit_0.response;
            &&& result->Ok_0 is Commit
            &&& flag.organization_id@ == organization_id@
            &&& flag.flag_key@ == flag_key@
            &&& flag.name@ == name@
            &&& flag@.description == optional_str(description)
            &&& flag.value_type@ == value_type@
            &&& flag.revision@ == "1"@
            &&& flag.created_at@ == flag.updated_at@
        },
{
    let (time, nanos) = choose|time: Result<String, StorageError>, nanos: int| #[trigger]
        stamped(time, nanos) && outcome(result) == decided(
            snapshot@.command,
            command@,
            create_plan_of(
                snapshot@,
                organization_id@,
                flag_key@,
                name@,
                optional_str(description),
                value_type@,
                outcome(time),
            ),
        );
    let plan = create_plan_of(
        snapshot@,
        organization_id@,
        flag_key@,
        name@,
        optional_str(description),
        value_type@,
        outcome(time),
    );
    lemma_planned(snapshot, command, plan, result);
    if result is Ok {
        lemma_flag_fields(result->Ok_0->Commit_0.response);
    }
}

/// The same of an update: it commits exactly the name and the description that were asked for.
pub proof fn lemma_flag_is_updated_now(
    snapshot: &Snapshot,
    command: Command<'_>,
    flag_key: &str,
    expected: i64,
    name: &str,
    description: Option<&str>,
    result: Result<Decision<FlagRecord>, StorageError>,
)
    requires
        call_ensures(
            update_flag,
            (snapshot, command, flag_key, expected, name, description),
            result,
        ),
        unstored(snapshot),
    ensures
        !snapshot.flags@.contains_key(flag_key@) ==> refused_for(result, DomainFailure::NotFound),
        result is Ok ==> {
            let flag = result->Ok_0->Commit_0.response;
            &&& result->Ok_0 is Commit
            &&& snapshot.flags@.contains_key(flag_key@)
            &&& !snapshot.flags@[flag_key@].archived
            &&& i64_value(snapshot.flags@[flag_key@].revision@) == Some(expected as int)
            &&& flag.name@ == name@
            &&& flag@.description == optional_str(description)
            &&& identity_kept(snapshot.flags@[flag_key@]@, flag@)
        },
{
    let (time, nanos) = choose|time: Result<String, StorageError>, nanos: int| #[trigger]
        stamped(time, nanos) && outcome(result) == decided(
            snapshot@.command,
            command@,
            update_plan_of(
                snapshot@,
                flag_key@,
                expected as int,
                name@,
                optional_str(description),
                outcome(time),
            ),
        );
    let plan = update_plan_of(
        snapshot@,
        flag_key@,
        expected as int,
        name@,
        optional_str(description),
        outcome(time),
    );
    lemma_planned(snapshot, command, plan, result);
    assert(snapshot@.flags.contains_key(flag_key@) == snapshot.flags@.contains_key(flag_key@));
    if result is Ok {
        assert(snapshot@.flags[flag_key@] == snapshot.flags@[flag_key@]@);
        lemma_flag_fields(result->Ok_0->Commit_0.response);
    }
}

/// The same of an archival: it commits the flag archived, and otherwise as it was.
pub proof fn lemma_flag_is_archived_now(
    snapshot: &Snapshot,
    command: Command<'_>,
    flag_key: &str,
    expected: i64,
    result: Result<Decision<FlagRecord>, StorageError>,
)
    requires
        call_ensures(archive_flag, (snapshot, command, flag_key, expected), result),
        unstored(snapshot),
    ensures
        !snapshot.flags@.contains_key(flag_key@) ==> refused_for(result, DomainFailure::NotFound),
        result is Ok ==> {
            let flag = result->Ok_0->Commit_0.response;
            let current = snapshot.flags@[flag_key@];
            &&& result->Ok_0 is Commit
            &&& snapshot.flags@.contains_key(flag_key@)
            &&& !current.archived
            &&& i64_value(current.revision@) == Some(expected as int)
            &&& flag.archived
            &&& flag.name@ == current.name@
            &&& flag@.description == current@.description
            &&& flag@.archived_at == Some(flag.updated_at@)
            &&& identity_kept(current@, flag@)
        },
{
    let (time, nanos) = choose|time: Result<String, StorageError>, nanos: int| #[trigger]
        stamped(time, nanos) && outcome(result) == decided(
            snapshot@.command,
            command@,
            archive_plan_of(snapshot@, flag_key@, expected as int, outcome(time)),
        );
    let plan = archive_plan_of(snapshot@, flag_key@, expected as int, outcome(time));
    lemma_planned(snapshot, command, plan, result);
    assert(snapshot@.flags.contains_key(flag_key@) == snapshot.flags@.contains_key(flag_key@));
    if result is Ok {
        assert(snapshot@.flags[flag_key@] == snapshot.flags@[flag_key@]@);
        lemma_flag_fields(result->Ok_0->Commit_0.response);
        lemma_flag_fields(snapshot.flags@[flag_key@]);
    }
}

/// The same of a put: it commits the environment with the name that was asked for.
pub proof fn lemma_environment_is_put_now(
    snapshot: &Snapshot,
    command: Command<'_>,
    organization_id: &str,
    environment_key: &str,
    name: &str,
    expected: Option<i64>,
    result: Result<Decision<EnvironmentRecord>, StorageError>,
)
    requires
        call_ensures(
            put_environment,
            (snapshot, command, organization_id, environment_key, name, expected),
            result,
        ),
        unstored(snapshot),
    ensures
        result is Ok ==> {
            let environment = result->Ok_0->Commit_0.response;
            &&& result->Ok_0 is Commit
            &&& (snapshot.environment is Some <==> expected is Some)
            &&& environment.name@ == name@
            &&& snapshot.environment is None ==> environment.organization_id@
                == organization_id@ && environment.environment_key@ == environment_key@
                && environment.revision@ == "1"@
            &&& snapshot.environment is Some ==> i64_value(snapshot.environment->0.revision@)
                == Some(expected->0 as int)
        },
{
    let (time, nanos) = choose|time: Result<String, StorageError>, nanos: int| #[trigger]
        stamped(time, nanos) && outcome(result) == decided(
            snapshot@.command,
            command@,
            put_plan_of(
                snapshot@,
                organization_id@,
                environment_key@,
                name@,
                expected_int(expected),
                outcome(time),
            ),
        );
    let plan = put_plan_of(
        snapshot@,
        organization_id@,
        environment_key@,
        name@,
        expected_int(expected),
        outcome(time),
    );
    lemma_planned(snapshot, command, plan, result);
    if result is Ok {
        lemma_environment_fields(result->Ok_0->Commit_0.response);
        if snapshot.environment is Some {
            lemma_environment_fields(snapshot.environment->0);
        }
    }
}

/// The same of a publication: it commits the ruleset that was given, by the actor of the command.
pub proof fn lemma_ruleset_is_published_now(
    snapshot: &Snapshot,
    command: Command<'_>,
    organization_id: &str,
    flag_key: &str,
    environment_key: &str,
    expected_flag: i64,
    expected_environment: i64,
    definition: &RulesetDefinition,
    result: Result<Decision<PublishRecord>, StorageError>,
)
    requires
        call_ensures(
            publish_ruleset,
            (
                snapshot,
                command,
                organization_id,
                flag_key,
                environment_key,
                expected_flag,
                expected_environment,
                definition,
            ),
            result,
        ),
        unstored(snapshot),
    ensures
        result is Ok ==> {
            let plan = result->Ok_0->Commit_0;
            &&& result->Ok_0 is Commit
            &&& ruleset_failure(
                snapshot.flags@[flag_key@].value_type@,
                definition@,
            ) is None
            &&& plan.effects@.len() == 3
            &&& plan.effects@[2] is InsertRuleset
            &&& plan.effects@[2]->InsertRuleset_0@ == definition@
            &&& plan.effects@[2]->InsertRuleset_1@ == plan.response@
            &&& plan.response.organization_id@ == organization_id@
            &&& plan.response.flag_key@ == flag_key@
            &&& plan.response.environment_key@ == environment_key@
            &&& plan.response.published_by@ == command.actor@
        },
{
    let (time, nanos) = choose|time: Result<String, StorageError>, nanos: int| #[trigger]
        stamped(time, nanos) && outcome(result) == decided(
            snapshot@.command,
            command@,
            publish_plan_of(
                snapshot@,
                command@.actor,
                organization_id@,
                flag_key@,
                environment_key@,
                expected_flag as int,
                expected_environment as int,
                definition@,
                outcome(time),
            ),
        );
    let plan = publish_plan_of(
        snapshot@,
        command@.actor,
        organization_id@,
        flag_key@,
        environment_key@,
        expected_flag as int,
        expected_environment as int,
        definition@,
        outcome(time),
    );
    lemma_planned(snapshot, command, plan, result);
    if result is Ok {
        assert(snapshot@.flags[flag_key@] == snapshot.flags@[flag_key@]@);
        lemma_flag_fields(snapshot.flags@[flag_key@]);
        let publication = result->Ok_0->Commit_0.response;
        assert(publication@.organization_id == publication.organization_id@);
        assert(publication@.flag_key == publication.flag_key@);
        assert(publication@.environment_key == publication.environment_key@);
        assert(publication@.published_by == publication.published_by@);
    }
}

} // verus!
