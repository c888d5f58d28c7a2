//! What the writes on D1 leave in the store, and what they are refused for.

use vstd::prelude::*;
use crate::d1::laws::{
    lemma_environment_changes_at_its_revision, lemma_flag_changes_at_its_revision,
    lemma_publication_takes_its_place,
};
use crate::d1::model::{
    after_effect, after_effects, environment_sound, flag_sound, performed, planned, rulesets_of,
    snapshot_of, StepView, Tables,
};
use crate::d1::plan::{
    archive_plan_of, create_plan_of, decided, publish_plan_of, put_plan_of, update_plan_of,
    DecisionView, EffectView, PlanView,
};
use crate::d1::revision::{bump_of, failure_view, flag_refusal, revision_of};
use crate::d1::rows::{command_row, lemma_stored_command_replays, ColumnView};
use crate::d1::snapshot::SnapshotView;
use crate::decimal::{i64_value, integer_text, lemma_integer_round_trip};
use crate::domain::{
    CommandView, DefinitionView, DomainFailure, EnvironmentView, ErrorView, FlagRecord, FlagView,
    PublishView,
};
use crate::ruleset::ruleset_failure;

verus! {

/// A revision is a positive number of 64 bits; a text that stands for none is a failure.
pub proof fn lemma_revision_is_a_positive_number(text: Seq<char>)
    ensures
        match i64_value(text) {
            Some(n) => if n >= 1 {
                revision_of(text) is Ok && revision_of(text)->Ok_0 == n
            } else {
                revision_of(text) == Err::<i64, ErrorView>(failure_view())
            },
            None => revision_of(text) == Err::<i64, ErrorView>(failure_view()),
        },
{
}

/// The revision after a revision stands for the next number; after the last number of 64 bits there
/// is none.
pub proof fn lemma_next_revision_is_one_more(text: Seq<char>)
    requires
        revision_of(text) is Ok,
    ensures
        revision_of(text)->Ok_0 < i64::MAX ==> bump_of(text) is Ok && i64_value(
            bump_of(text)->Ok_0,
        ) == Some(i64_value(text)->0 + 1),
        revision_of(text)->Ok_0 == i64::MAX ==> bump_of(text) == Err::<Seq<char>, ErrorView>(
            failure_view(),
        ),
{
    let n = revision_of(text)->Ok_0;
    if n < i64::MAX {
        lemma_integer_round_trip(n + 1);
    }
}

/// A flag can be changed exactly if it is not archived and its revision is the expected one; an
/// archived flag is refused as such whatever its revision, and any other as a conflict.
pub proof fn lemma_flag_is_refused_for_its_state(flag: FlagRecord, expected: int)
    requires
        revision_of(flag.revision@) is Ok,
    ensures
        flag_refusal(flag@, expected) is None <==> !flag.archived && i64_value(flag.revision@)
            == Some(expected),
        flag_refusal(flag@, expected) == Some(ErrorView::Domain(DomainFailure::Archived))
            <==> flag.archived,
        flag_refusal(flag@, expected) == Some(ErrorView::Domain(DomainFailure::RevisionConflict))
            <==> !flag.archived && i64_value(flag.revision@) != Some(expected),
{
}

/// A new flag has the name, description and type that were asked for, at the first revision, and
/// is created now, in the row of the epoch.
pub proof fn lemma_create_plan_is_as_asked(
    snapshot: SnapshotView,
    organization_id: Seq<char>,
    flag_key: Seq<char>,
    name: Seq<char>,
    description: Option<Seq<char>>,
    value_type: Seq<char>,
    now: Result<Seq<char>, ErrorView>,
)
    ensures
        ({
            let plan = create_plan_of(
                snapshot,
                organization_id,
                flag_key,
                name,
                description,
                value_type,
                now,
            );
            if snapshot.flags.contains_key(flag_key) {
                plan == Err::<PlanView<FlagView>, ErrorView>(
                    ErrorView::Domain(DomainFailure::AlreadyExists),
                )
            } else if now is Err {
                plan == Err::<PlanView<FlagView>, ErrorView>(now->Err_0)
            } else {
                let flag = plan->Ok_0.response;
                &&& plan is Ok
                &&& plan->Ok_0.effects == seq![EffectView::InsertFlag(flag)]
                &&& flag.organization_id == organization_id
                &&& flag.flag_key == flag_key
                &&& flag.name == name
                &&& flag.description == description
                &&& flag.value_type == value_type
                &&& !flag.archived
                &&& flag.archived_at is None
                &&& flag.revision == "1"@
                &&& flag.created_at == now->Ok_0
                &&& flag.updated_at == now->Ok_0
                &&& flag.row_seq == snapshot.epoch
            }
        }),
{
}

/// What an update or an archival never changes of a flag.
pub open spec fn identity_kept(before: FlagView, after: FlagView) -> bool {
    &&& after.organization_id == before.organization_id
    &&& after.flag_key == before.flag_key
    &&& after.value_type == before.value_type
    &&& after.created_at == before.created_at
    &&& after.row_seq == before.row_seq
}

/// The revision is one more than it was.
pub open spec fn advanced(before: Seq<char>, after: Seq<char>) -> bool {
    &&& i64_value(before) is Some
    &&& i64_value(after) == Some(i64_value(before)->0 + 1)
}

/// An update gives a flag exactly the name and the description that were asked for, and none where
/// none was asked, whatever it had before; the revision goes on by one, the time of the change is
/// now, and nothing else changes.
pub proof fn lemma_update_plan_is_as_asked(
    snapshot: SnapshotView,
    flag_key: Seq<char>,
    expected: int,
    name: Seq<char>,
    description: Option<Seq<char>>,
    now: Result<Seq<char>, ErrorView>,
)
    requires
        snapshot.flags.contains_key(flag_key) ==> revision_of(
            snapshot.flags[flag_key].revision,
        ) is Ok,
    ensures
        ({
            let plan = update_plan_of(snapshot, flag_key, expected, name, description, now);
            let refused = |error: ErrorView| plan == Err::<PlanView<FlagView>, ErrorView>(error);
            let current = snapshot.flags[flag_key];
            if !snapshot.flags.contains_key(flag_key) {
                refused(ErrorView::Domain(DomainFailure::NotFound))
            } else if current.archived {
                refused(ErrorView::Domain(DomainFailure::Archived))
            } else if i64_value(current.revision) != Some(expected) {
                refused(ErrorView::Domain(DomainFailure::RevisionConflict))
            } else if expected == i64::MAX {
                refused(failure_view())
            } else if now is Err {
                refused(now->Err_0)
            } else {
                let flag = plan->Ok_0.response;
                &&& plan is Ok
                &&& plan->Ok_0.effects == seq![EffectView::UpdateFlag(flag)]
                &&& flag.name == name
                &&& flag.description == description
                &&& flag.archived == current.archived
                &&& flag.archived_at == current.archived_at
                &&& flag.updated_at == now->Ok_0
                &&& advanced(current.revision, flag.revision)
                &&& identity_kept(current, flag)
            }
        }),
{
    if snapshot.flags.contains_key(flag_key) {
        lemma_next_revision_is_one_more(snapshot.flags[flag_key].revision);
    }
}

/// An archival archives the flag now; the revision goes on by one, and nothing else changes.
pub proof fn lemma_archive_plan_is_as_asked(
    snapshot: SnapshotView,
    flag_key: Seq<char>,
    expected: int,
    now: Result<Seq<char>, ErrorView>,
)
    requires
        snapshot.flags.contains_key(flag_key) ==> revision_of(
            snapshot.flags[flag_key].revision,
        ) is Ok,
    ensures
        ({
            let plan = archive_plan_of(snapshot, flag_key, expected, now);
            let refused = |error: ErrorView| plan == Err::<PlanView<FlagView>, ErrorView>(error);
            let current = snapshot.flags[flag_key];
            if !snapshot.flags.contains_key(flag_key) {
                refused(ErrorView::Domain(DomainFailure::NotFound))
            } else if current.archived {
                refused(ErrorView::Domain(DomainFailure::Archived))
            } else if i64_value(current.revision) != Some(expected) {
                refused(ErrorView::Domain(DomainFailure::RevisionConflict))
            } else if expected == i64::MAX {
                refused(failure_view())
            } else if now is Err {
                refused(now->Err_0)
            } else {
                let flag = plan->Ok_0.response;
                &&& plan is Ok
                &&& plan->Ok_0.effects == seq![EffectView::UpdateFlag(flag)]
                &&& flag.name == current.name
                &&& flag.description == current.description
                &&& flag.archived
                &&& flag.archived_at == Some(now->Ok_0)
                &&& flag.updated_at == now->Ok_0
                &&& advanced(current.revision, flag.revision)
                &&& identity_kept(current, flag)
            }
        }),
{
    if snapshot.flags.contains_key(flag_key) {
        lemma_next_revision_is_one_more(snapshot.flags[flag_key].revision);
    }
}

/// A put makes an environment where none is expected and none is there, and renames the one that is
/// there at the expected revision; the want of a time comes before all refusals.
pub proof fn lemma_put_plan_is_as_asked(
    snapshot: SnapshotView,
    organization_id: Seq<char>,
    environment_key: Seq<char>,
    name: Seq<char>,
    expected: Option<int>,
    now: Result<Seq<char>, ErrorView>,
)
    requires
        snapshot.environment is Some ==> revision_of(snapshot.environment->0.revision) is Ok,
    ensures
        ({
            let plan = put_plan_of(
                snapshot,
                organization_id,
                environment_key,
                name,
                expected,
                now,
            );
            let refused = |error: ErrorView|
                plan == Err::<PlanView<EnvironmentView>, ErrorView>(error);
            let current = snapshot.environment->0;
            let record = plan->Ok_0.response;
            if now is Err {
                refused(now->Err_0)
            } else if snapshot.environment is None && expected is Some {
                refused(ErrorView::Domain(DomainFailure::NotFound))
            } else if snapshot.environment is Some && expected is None {
                refused(ErrorView::Domain(DomainFailure::AlreadyExists))
            } else if snapshot.environment is None {
                &&& plan is Ok
                &&& plan->Ok_0.effects == seq![EffectView::PutEnvironment(record)]
                &&& record.organization_id == organization_id
                &&& record.environment_key == environment_key
                &&& record.name == name
                &&& record.revision == "1"@
                &&& record.created_at == now->Ok_0
                &&& record.updated_at == now->Ok_0
            } else if i64_value(current.revision) != expected {
                refused(ErrorView::Domain(DomainFailure::RevisionConflict))
            } else if expected == Some(i64::MAX as int) {
                refused(failure_view())
            } else {
                &&& plan is Ok
                &&& plan->Ok_0.effects == seq![EffectView::PutEnvironment(record)]
                &&& record.organization_id == current.organization_id
                &&& record.environment_key == current.environment_key
                &&& record.name == name
                &&& advanced(current.revision, record.revision)
                &&& record.created_at == current.created_at
                &&& record.updated_at == now->Ok_0
            }
        }),
{
    if snapshot.environment is Some {
        lemma_next_revision_is_one_more(snapshot.environment->0.revision);
    }
}

/// The number of the next ruleset: one more than that of the latest, or one.
pub open spec fn next_number(snapshot: SnapshotView, flag_key: Seq<char>) -> int {
    if snapshot.rulesets.contains_key(flag_key) {
        i64_value(snapshot.rulesets[flag_key].revision)->0 + 1
    } else {
        1
    }
}

/// A publication is refused for the first thing that is wrong, in this order: no such flag, an
/// archived flag, another revision of the flag, a ruleset that is not valid for the flag's type, no
/// such environment, another revision of the environment. Otherwise it stores exactly the ruleset
/// that was given, under the next number and by the actor, and the flag and the environment go on
/// by one revision and are otherwise as they were.
pub proof fn lemma_publish_plan_is_as_asked(
    snapshot: SnapshotView,
    actor: Seq<char>,
    organization_id: Seq<char>,
    flag_key: Seq<char>,
    environment_key: Seq<char>,
    expected_flag: int,
    expected_environment: int,
    definition: DefinitionView,
    now: Result<Seq<char>, ErrorView>,
)
    requires
        snapshot.flags.contains_key(flag_key) ==> revision_of(
            snapshot.flags[flag_key].revision,
        ) is Ok,
        snapshot.environment is Some ==> revision_of(snapshot.environment->0.revision) is Ok,
        snapshot.rulesets.contains_key(flag_key) ==> revision_of(
            snapshot.rulesets[flag_key].revision,
        ) is Ok,
        next_number(snapshot, flag_key) <= i64::MAX,
    ensures
        ({
            let plan = publish_plan_of(
                snapshot,
                actor,
                organization_id,
                flag_key,
                environment_key,
                expected_flag,
                expected_environment,
                definition,
                now,
            );
            let refused = |error: ErrorView| plan == Err::<PlanView<PublishView>, ErrorView>(error);
            let flag = snapshot.flags[flag_key];
            let environment = snapshot.environment->0;
            if !snapshot.flags.contains_key(flag_key) {
                refused(ErrorView::Domain(DomainFailure::NotFound))
            } else if flag.archived {
                refused(ErrorView::Domain(DomainFailure::Archived))
            } else if i64_value(flag.revision) != Some(expected_flag) {
                refused(ErrorView::Domain(DomainFailure::RevisionConflict))
            } else if ruleset_failure(flag.value_type, definition) is Some {
                refused(ErrorView::Domain(ruleset_failure(flag.value_type, definition)->0))
            } else if snapshot.environment is None {
                refused(ErrorView::Domain(DomainFailure::NotFound))
            } else if i64_value(environment.revision) != Some(expected_environment) {
                refused(ErrorView::Domain(DomainFailure::RevisionConflict))
            } else if expected_flag == i64::MAX || expected_environment == i64::MAX {
                refused(failure_view())
            } else if now is Err {
                refused(now->Err_0)
            } else {
                let publication = plan->Ok_0.response;
                let effects = plan->Ok_0.effects;
                let new_flag = effects[0]->UpdateFlag_0;
                let new_environment = effects[1]->PutEnvironment_0;
                &&& plan is Ok
                &&& effects.len() == 3
                &&& effects[0] is UpdateFlag
                &&& effects[1] is PutEnvironment
                &&& effects[2] == EffectView::InsertRuleset(definition, publication)
                &&& publication.organization_id == organization_id
                &&& publication.flag_key == flag_key
                &&& publication.environment_key == environment_key
                &&& publication.published_by == actor
                &&& publication.published_at == now->Ok_0
                &&& publication.flag_revision == new_flag.revision
                &&& publication.environment_revision == new_environment.revision
                &&& i64_value(publication.ruleset_revision) == Some(
                    next_number(snapshot, flag_key),
                )
                &&& identity_kept(flag, new_flag)
                &&& new_flag.name == flag.name
                &&& new_flag.description == flag.description
                &&& new_flag.archived == flag.archived
                &&& new_flag.archived_at == flag.archived_at
                &&& new_flag.updated_at == now->Ok_0
                &&& advanced(flag.revision, new_flag.revision)
                &&& new_environment.organization_id == environment.organization_id
                &&& new_environment.environment_key == environment.environment_key
                &&& new_environment.name == environment.name
                &&& new_environment.created_at == environment.created_at
                &&& new_environment.updated_at == now->Ok_0
                &&& advanced(environment.revision, new_environment.revision)
            }
        }),
{
    if snapshot.flags.contains_key(flag_key) {
        lemma_next_revision_is_one_more(snapshot.flags[flag_key].revision);
    }
    if snapshot.environment is Some {
        lemma_next_revision_is_one_more(snapshot.environment->0.revision);
    }
    if snapshot.rulesets.contains_key(flag_key) {
        lemma_next_revision_is_one_more(snapshot.rulesets[flag_key].revision);
    } else {
        crate::d1::laws::lemma_first_revision();
        lemma_integer_round_trip(1);
    }
}

/// A write that is not stored yet is decided by its plan; one that is stored is answered with what
/// was stored if it is the same request, and is a conflict if it is another; and the plan then does
/// not matter.
pub proof fn lemma_stored_write_is_not_planned(
    hash: Seq<u8>,
    response: Seq<char>,
    command: CommandView,
    plan: Result<PlanView<FlagView>, ErrorView>,
)
    ensures
        decided(Seq::<Map<Seq<char>, ColumnView>>::empty(), command, plan) == match plan {
            Ok(plan) => Ok::<DecisionView<FlagView>, ErrorView>(DecisionView::Commit(plan)),
            Err(error) => Err(error),
        },
        decided(seq![command_row(hash, response)], command, plan) == if command.hash == hash {
            Ok::<DecisionView<FlagView>, ErrorView>(DecisionView::Replay(response))
        } else {
            Err(ErrorView::Domain(DomainFailure::IdempotencyConflict))
        },
{
    lemma_stored_command_replays(hash, response, command);
}

proof fn lemma_single(tables: Tables, effects: Seq<EffectView>)
    requires
        effects.len() == 1,
    ensures
        after_effects(tables, effects) == after_effect(tables, effects[0]),
{
    reveal_with_fuel(after_effects, 2);
    assert(effects.drop_last() =~= Seq::<EffectView>::empty());
}

/// After an update is performed, the stored flag has exactly the name and the description asked
/// for, and none where none was asked, whatever it had before; all else of the flag but its
/// revision and the time of its change is as it was, and so are all other flags, the environments,
/// the rulesets and the receipts.
pub proof fn lemma_updated_flag_is_as_asked(tables: Tables, step: StepView, after: Tables)
    requires
        tables.wf(),
        performed(tables, step, after),
        step.operation is UpdateFlag,
    ensures
        ({
            let key = (step.organization_id, step.operation->UpdateFlag_flag_key);
            let before = tables.flags[key].record;
            let flag = after.flags[key].record;
            &&& tables.flags.contains_key(key) && after.flags.contains_key(key)
            &&& flag.name == step.operation->UpdateFlag_name
            &&& flag.description == step.operation->UpdateFlag_description
            &&& flag.archived == before.archived
            &&& flag.archived_at == before.archived_at
            &&& Ok::<Seq<char>, ErrorView>(flag.updated_at) == step.now
            &&& advanced(before.revision, flag.revision)
            &&& identity_kept(before, flag)
            &&& after.flags == tables.flags.insert(key, after.flags[key])
            &&& after.environments == tables.environments
            &&& after.rulesets == tables.rulesets
            &&& after.receipts == tables.receipts
        }),
{
    let flag_key = step.operation->UpdateFlag_flag_key;
    let key = (step.organization_id, flag_key);
    let snapshot = snapshot_of(tables, step);
    assert(step.operation.flags_read()[0] == flag_key);
    if snapshot.flags.contains_key(flag_key) {
        assert(flag_sound(tables, key));
    }
    lemma_update_plan_is_as_asked(
        snapshot,
        flag_key,
        step.operation->UpdateFlag_expected_revision,
        step.operation->UpdateFlag_name,
        step.operation->UpdateFlag_description,
        step.now,
    );
    let changes = planned(snapshot, step)->Ok_0;
    lemma_single(tables, changes.effects);
    assert(after.receipts =~= tables.receipts);
    assert(after.flags =~= tables.flags.insert(key, after.flags[key]));
}

/// After an archival is performed, the stored flag is archived, at the time of the archival; all
/// else of it but its revision and the time of its change is as it was, and so is the rest of the
/// store.
pub proof fn lemma_archived_flag_is_as_it_was(tables: Tables, step: StepView, after: Tables)
    requires
        tables.wf(),
        performed(tables, step, after),
        step.operation is ArchiveFlag,
    ensures
        ({
            let key = (step.organization_id, step.operation->ArchiveFlag_flag_key);
            let before = tables.flags[key].record;
            let flag = after.flags[key].record;
            &&& tables.flags.contains_key(key) && after.flags.contains_key(key)
            &&& flag.name == before.name
            &&& flag.description == before.description
            &&& !before.archived && flag.archived
            &&& step.now is Ok
            &&& flag.archived_at == Some(step.now->Ok_0)
            &&& flag.updated_at == step.now->Ok_0
            &&& advanced(before.revision, flag.revision)
            &&& identity_kept(before, flag)
            &&& after.flags == tables.flags.insert(key, after.flags[key])
            &&& after.environments == tables.environments
            &&& after.rulesets == tables.rulesets
            &&& after.receipts == tables.receipts
        }),
{
    let flag_key = step.operation->ArchiveFlag_flag_key;
    let key = (step.organization_id, flag_key);
    let snapshot = snapshot_of(tables, step);
    assert(step.operation.flags_read()[0] == flag_key);
    if snapshot.flags.contains_key(flag_key) {
        assert(flag_sound(tables, key));
    }
    lemma_archive_plan_is_as_asked(
        snapshot,
        flag_key,
        step.operation->ArchiveFlag_expected_revision,
        step.now,
    );
    let changes = planned(snapshot, step)->Ok_0;
    lemma_single(tables, changes.effects);
    assert(after.receipts =~= tables.receipts);
    assert(after.flags =~= tables.flags.insert(key, after.flags[key]));
}

/// After a creation is performed, the stored flag has exactly the key, name, description and type
/// asked for; it is not archived, at the first revision, and was created and changed at the same
/// time. The rest of the store is as it was.
pub proof fn lemma_created_flag_is_as_asked(tables: Tables, step: StepView, after: Tables)
    requires
        tables.wf(),
        performed(tables, step, after),
        step.operation is CreateFlag,
    ensures
        ({
            let key = (step.organization_id, step.operation->CreateFlag_flag_key);
            let flag = after.flags[key].record;
            &&& !tables.flags.contains_key(key) && after.flags.contains_key(key)
            &&& flag.organization_id == step.organization_id
            &&& flag.flag_key == step.operation->CreateFlag_flag_key
            &&& flag.name == step.operation->CreateFlag_name
            &&& flag.description == step.operation->CreateFlag_description
            &&& flag.value_type == step.operation->CreateFlag_value_type
            &&& !flag.archived
            &&& flag.archived_at is None
            &&& flag.revision == "1"@
            &&& Ok::<Seq<char>, ErrorView>(flag.created_at) == step.now
            &&& flag.updated_at == flag.created_at
            &&& flag.row_seq == tables.epoch
            &&& after.flags[key].row_seq == tables.epoch
            &&& after.flags == tables.flags.insert(key, after.flags[key])
            &&& after.environments == tables.environments
            &&& after.rulesets == tables.rulesets
            &&& after.receipts == tables.receipts
        }),
{
    let flag_key = step.operation->CreateFlag_flag_key;
    let key = (step.organization_id, flag_key);
    let snapshot = snapshot_of(tables, step);
    assert(step.operation.flags_read()[0] == flag_key);
    lemma_create_plan_is_as_asked(
        snapshot,
        step.organization_id,
        flag_key,
        step.operation->CreateFlag_name,
        step.operation->CreateFlag_description,
        step.operation->CreateFlag_value_type,
        step.now,
    );
    let changes = planned(snapshot, step)->Ok_0;
    lemma_single(tables, changes.effects);
    assert(!snapshot.flags.contains_key(flag_key));
    assert(after.receipts =~= tables.receipts);
    assert(after.flags =~= tables.flags.insert(key, after.flags[key]));
}

/// After a put is performed, the stored environment has exactly the name asked for. Where there was
/// none, it is at the first revision and was created and changed at the same time; where there was
/// one, it is that one with its next revision. The rest of the store is as it was.
pub proof fn lemma_put_environment_is_as_asked(tables: Tables, step: StepView, after: Tables)
    requires
        tables.wf(),
        performed(tables, step, after),
        step.operation is PutEnvironment,
    ensures
        ({
            let key = (step.organization_id, step.operation->PutEnvironment_environment_key);
            let before = tables.environments[key];
            let environment = after.environments[key];
            &&& after.environments.contains_key(key)
            &&& (tables.environments.contains_key(key)
                <==> step.operation->PutEnvironment_expected_revision is Some)
            &&& environment.organization_id == step.organization_id
            &&& environment.environment_key == step.operation->PutEnvironment_environment_key
            &&& environment.name == step.operation->PutEnvironment_name
            &&& Ok::<Seq<char>, ErrorView>(environment.updated_at) == step.now
            &&& if tables.environments.contains_key(key) {
                &&& i64_value(before.revision)
                    == step.operation->PutEnvironment_expected_revision
                &&& advanced(before.revision, environment.revision)
                &&& environment.created_at == before.created_at
            } else {
                &&& environment.revision == "1"@
                &&& environment.created_at == environment.updated_at
            }
            &&& after.environments == tables.environments.insert(key, environment)
            &&& after.flags == tables.flags
            &&& after.rulesets == tables.rulesets
            &&& after.receipts == tables.receipts
        }),
{
    let environment_key = step.operation->PutEnvironment_environment_key;
    let key = (step.organization_id, environment_key);
    let snapshot = snapshot_of(tables, step);
    if snapshot.environment is Some {
        assert(environment_sound(tables, key));
    }
    lemma_put_plan_is_as_asked(
        snapshot,
        step.organization_id,
        environment_key,
        step.operation->PutEnvironment_name,
        step.operation->PutEnvironment_expected_revision,
        step.now,
    );
    let changes = planned(snapshot, step)->Ok_0;
    lemma_single(tables, changes.effects);
    assert(after.receipts =~= tables.receipts);
    assert(after.environments =~= tables.environments.insert(key, after.environments[key]));
}

/// After a publication is performed, the ruleset that was given is the latest of its flag in its
/// environment, word for word, and the ones before it are as they were; the flag and the
/// environment have kept everything but their revision and the time of their change, and the rest
/// of the store is as it was.
pub proof fn lemma_published_ruleset_is_as_given(tables: Tables, step: StepView, after: Tables)
    requires
        tables.wf(),
        performed(tables, step, after),
        step.operation is PublishRuleset,
    ensures
        ({
            let flag_key = (step.organization_id, step.operation->PublishRuleset_flag_key);
            let place = (step.organization_id, step.operation->PublishRuleset_environment_key);
            let slot = (flag_key.0, flag_key.1, place.1);
            let published = rulesets_of(after, slot);
            let flag = after.flags[flag_key].record;
            let before = tables.flags[flag_key].record;
            let environment = after.environments[place];
            &&& published.len() == rulesets_of(tables, slot).len() + 1
            &&& published.drop_last() == rulesets_of(tables, slot)
            &&& published.last().definition == step.operation->PublishRuleset_definition
            &&& published.last().revision == integer_text(published.len() as int)
            &&& after.rulesets == tables.rulesets.insert(slot, published)
            &&& identity_kept(before, flag)
            &&& flag.name == before.name
            &&& flag.description == before.description
            &&& !flag.archived
            &&& flag.archived_at == before.archived_at
            &&& Ok::<Seq<char>, ErrorView>(flag.updated_at) == step.now
            &&& environment.name == tables.environments[place].name
            &&& environment.created_at == tables.environments[place].created_at
            &&& Ok::<Seq<char>, ErrorView>(environment.updated_at) == step.now
            &&& after.flags == tables.flags.insert(flag_key, after.flags[flag_key])
            &&& after.environments == tables.environments.insert(place, environment)
            &&& after.receipts == tables.receipts
        }),
{
    let key = (step.organization_id, step.operation->PublishRuleset_flag_key);
    let place = (step.organization_id, step.operation->PublishRuleset_environment_key);
    let slot = (key.0, key.1, place.1);
    let snapshot = snapshot_of(tables, step);
    assert(step.operation.flags_read()[0] == key.1);
    assert(step.operation.flags_read().contains(key.1));
    lemma_publication_takes_its_place(tables, step, after, step);
    lemma_flag_changes_at_its_revision(tables, step, after);
    lemma_environment_changes_at_its_revision(tables, step, after);
    assert(flag_sound(tables, key));
    assert(environment_sound(tables, place));
    let effects = planned(snapshot, step)->Ok_0.effects;
    let (flag, environment) = (effects[0]->UpdateFlag_0, effects[1]->PutEnvironment_0);
    reveal_with_fuel(after_effects, 4);
    assert(effects.drop_last() =~= seq![effects[0], effects[1]]);
    assert(effects.drop_last().drop_last() =~= seq![effects[0]]);
    assert(effects.drop_last().drop_last().drop_last() =~= Seq::<EffectView>::empty());
    assert(after.receipts =~= tables.receipts);
    assert(after.flags =~= tables.flags.insert(key, after.flags[key]));
    assert(after.environments =~= tables.environments.insert(place, after.environments[place]));
    assert(rulesets_of(after, slot).drop_last() =~= rulesets_of(tables, slot));
    assert(after.rulesets =~= tables.rulesets.insert(slot, rulesets_of(after, slot)));
}

} // verus!
