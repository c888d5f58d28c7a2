//! What each write decides on its snapshot: the answer, and what is to be written with it.

use vstd::prelude::*;
use crate::domain::{
    optional_str, outcome, owned_option, Command, CommandView, DefinitionView, DomainFailure,
    EnvironmentRecord, EnvironmentView, ErrorView, FlagRecord, FlagView, PublishRecord,
    PublishView, PublishedView, RulesetDefinition, StorageError,
};
use crate::ruleset::{ruleset_failure, validate_ruleset};
use crate::stamp::{now, stamped};
use super::revision::{bump, bump_of, flag_refusal, require_flag, revision, revision_of};
use super::rows::{replay, replay_of, ColumnView};
use super::snapshot::{Snapshot, SnapshotView};

verus! {

/// A change of the store.
#[derive(Debug)]
pub enum Effect {
    /// A new flag.
    InsertFlag(FlagRecord),
    /// A flag's new record.
    UpdateFlag(FlagRecord),
    /// A new environment, or an environment's new record.
    PutEnvironment(EnvironmentRecord),
    /// A published ruleset, which is never changed afterwards.
    InsertRuleset(RulesetDefinition, PublishRecord),
}

/// The model of an `Effect`.
pub enum EffectView {
    InsertFlag(FlagView),
    UpdateFlag(FlagView),
    PutEnvironment(EnvironmentView),
    InsertRuleset(DefinitionView, PublishView),
}

impl View for Effect {
    type V = EffectView;

    open spec fn view(&self) -> EffectView {
        match *self {
            Effect::InsertFlag(flag) => EffectView::InsertFlag(flag@),
            Effect::UpdateFlag(flag) => EffectView::UpdateFlag(flag@),
            Effect::PutEnvironment(environment) => EffectView::PutEnvironment(environment@),
            Effect::InsertRuleset(definition, publication) => EffectView::InsertRuleset(
                definition@,
                publication@,
            ),
        }
    }
}

/// What a write answers, and what it changes.
#[derive(Debug)]
pub struct Plan<R> {
    pub response: R,
    pub effects: Vec<Effect>,
}

/// The model of a `Plan`.
pub struct PlanView<V> {
    pub response: V,
    pub effects: Seq<EffectView>,
}

impl<R: View> View for Plan<R> {
    type V = PlanView<R::V>;

    open spec fn view(&self) -> PlanView<R::V> {
        PlanView {
            response: self.response@,
            effects: self.effects@.map_values(|effect: Effect| effect@),
        }
    }
}

/// What to do with a write: answer what was stored for it, or commit it.
#[derive(Debug)]
pub enum Decision<R> {
    Replay(String),
    Commit(Plan<R>),
}

/// The model of a `Decision`.
pub enum DecisionView<V> {
    Replay(Seq<char>),
    Commit(PlanView<V>),
}

impl<R: View> View for Decision<R> {
    type V = DecisionView<R::V>;

    open spec fn view(&self) -> DecisionView<R::V> {
        match *self {
            Decision::Replay(response) => DecisionView::Replay(response@),
            Decision::Commit(plan) => DecisionView::Commit(plan@),
        }
    }
}

/// A command that is already stored is answered from its row; any other goes on to its plan.
pub open spec fn decided<V>(
    rows: Seq<Map<Seq<char>, ColumnView>>,
    command: CommandView,
    plan: Result<PlanView<V>, ErrorView>,
) -> Result<DecisionView<V>, ErrorView> {
    match replay_of(rows, command) {
        Err(error) => Err(error),
        Ok(Some(response)) => Ok(DecisionView::Replay(response)),
        Ok(None) => match plan {
            Ok(plan) => Ok(DecisionView::Commit(plan)),
            Err(error) => Err(error),
        },
    }
}

/// The failure as an error.
pub open spec fn refused<V>(failure: DomainFailure) -> Result<V, ErrorView> {
    Err(ErrorView::Domain(failure))
}

/// The plan of a new flag: at revision one, in the row that the epoch gives, unless the key is
/// taken.
pub open spec fn create_plan_of(
    snapshot: SnapshotView,
    organization_id: Seq<char>,
    flag_key: Seq<char>,
    name: Seq<char>,
    description: Option<Seq<char>>,
    value_type: Seq<char>,
    now: Result<Seq<char>, ErrorView>,
) -> Result<PlanView<FlagView>, ErrorView> {
    if snapshot.flags.contains_key(flag_key) {
        refused(DomainFailure::AlreadyExists)
    } else {
        match now {
            Err(error) => Err(error),
            Ok(now) => {
                let flag = FlagView {
                    organization_id,
                    flag_key,
                    name,
                    description,
                    value_type,
                    archived: false,
                    revision: "1"@,
                    created_at: now,
                    updated_at: now,
                    archived_at: None,
                    row_seq: snapshot.epoch,
                };
                Ok(PlanView { response: flag, effects: seq![EffectView::InsertFlag(flag)] })
            },
        }
    }
}

fn create_plan(
    snapshot: &Snapshot,
    organization_id: &str,
    flag_key: &str,
    name: &str,
    description: Option<&str>,
    value_type: &str,
    now: Result<String, StorageError>,
) -> (result: Result<Plan<FlagRecord>, StorageError>)
    ensures
        outcome(result) == create_plan_of(
            snapshot@,
            organization_id@,
            flag_key@,
            name@,
            optional_str(description),
            value_type@,
            outcome(now),
        ),
{
    if snapshot.flags.contains_key(flag_key) {
        return Err(StorageError::from(DomainFailure::AlreadyExists));
    }
    let now = match now {
        Ok(now) => now,
        Err(error) => return Err(error),
    };
    let record = FlagRecord {
        organization_id: organization_id.to_owned(),
        flag_key: flag_key.to_owned(),
        name: name.to_owned(),
        description: owned_option(description),
        value_type: value_type.to_owned(),
        archived: false,
        revision: "1".to_owned(),
        created_at: now.clone(),
        updated_at: now,
        archived_at: None,
        row_seq: snapshot.epoch,
    };
    let plan = Plan { response: record.clone(), effects: vec![Effect::InsertFlag(record)] };
    assert(plan@.effects =~= seq![EffectView::InsertFlag(record@)]);
    Ok(plan)
}

/// Decides a new flag at the given time.
pub fn create_flag_at(
    snapshot: &Snapshot,
    command: Command<'_>,
    organization_id: &str,
    flag_key: &str,
    name: &str,
    description: Option<&str>,
    value_type: &str,
    now: Result<String, StorageError>,
) -> (result: Result<Decision<FlagRecord>, StorageError>)
    ensures
        outcome(result) == decided(
            snapshot@.command,
            command@,
            create_plan_of(
                snapshot@,
                organization_id@,
                flag_key@,
                name@,
                optional_str(description),
                value_type@,
                outcome(now),
            ),
        ),
{
    match replay(&snapshot.command, command) {
        Err(error) => Err(error),
        Ok(Some(response)) => Ok(Decision::Replay(response)),
        Ok(None) => match create_plan(
            snapshot,
            organization_id,
            flag_key,
            name,
            description,
            value_type,
            now,
        ) {
            Ok(plan) => Ok(Decision::Commit(plan)),
            Err(error) => Err(error),
        },
    }
}

/// Decides a new flag, now.
pub fn create_flag(
    snapshot: &Snapshot,
    command: Command<'_>,
    organization_id: &str,
    flag_key: &str,
    name: &str,
    description: Option<&str>,
    value_type: &str,
) -> (result: Result<Decision<FlagRecord>, StorageError>)
    ensures
        exists|time: Result<String, StorageError>, nanos: int| #[trigger]
            stamped(time, nanos) && outcome(result) == decided(
                snapshot@.command,
                command@,
                create_plan_of(
                    snapshot@,
                    organization_id@,
                    flag_key@,
                    name@,
                    optional_str(description),
                    value_type@,
                    outcome(time),
                ),
            ),
{
    create_flag_at(
        snapshot,
        command,
        organization_id,
        flag_key,
        name,
        description,
        value_type,
        now(),
    )
}

/// The plan of a flag's new name and description, at the expected revision.
pub open spec fn update_plan_of(
    snapshot: SnapshotView,
    flag_key: Seq<char>,
    expected_revision: int,
    name: Seq<char>,
    description: Option<Seq<char>>,
    now: Result<Seq<char>, ErrorView>,
) -> Result<PlanView<FlagView>, ErrorView> {
    if !snapshot.flags.contains_key(flag_key) {
        refused(DomainFailure::NotFound)
    } else {
        let current = snapshot.flags[flag_key];
        match flag_refusal(current, expected_revision) {
            Some(error) => Err(error),
            None => match (bump_of(current.revision), now) {
                (Err(error), _) => Err(error),
                (_, Err(error)) => Err(error),
                (Ok(revision), Ok(now)) => {
                    let flag = FlagView { name, description, revision, updated_at: now, ..current };
                    Ok(PlanView { response: flag, effects: seq![EffectView::UpdateFlag(flag)] })
                },
            },
        }
    }
}

fn update_plan(
    snapshot: &Snapshot,
    flag_key: &str,
    expected_revision: i64,
    name: &str,
    description: Option<&str>,
    now: Result<String, StorageError>,
) -> (result: Result<Plan<FlagRecord>, StorageError>)
    ensures
        outcome(result) == update_plan_of(
            snapshot@,
            flag_key@,
            expected_revision as int,
            name@,
            optional_str(description),
            outcome(now),
        ),
{
    let current = match snapshot.flags.get(flag_key) {
        Some(flag) => flag,
        None => return Err(StorageError::from(DomainFailure::NotFound)),
    };
    assert(snapshot@.flags[flag_key@] == current@);
    if let Err(error) = require_flag(current, expected_revision) {
        return Err(error);
    }
    let mut record = current.clone();
    record.name = name.to_owned();
    record.description = owned_option(description);
    record.revision = match bump(current.revision.as_str()) {
        Ok(revision) => revision,
        Err(error) => return Err(error),
    };
    record.updated_at = match now {
        Ok(now) => now,
        Err(error) => return Err(error),
    };
    let plan = Plan { response: record.clone(), effects: vec![Effect::UpdateFlag(record)] };
    assert(plan@.effects =~= seq![EffectView::UpdateFlag(record@)]);
    Ok(plan)
}

/// Decides a flag's new name and description at the given time.
pub fn update_flag_at(
    snapshot: &Snapshot,
    command: Command<'_>,
    flag_key: &str,
    expected_revision: i64,
    name: &str,
    description: Option<&str>,
    now: Result<String, StorageError>,
) -> (result: Result<Decision<FlagRecord>, StorageError>)
    ensures
        outcome(result) == decided(
            snapshot@.command,
            command@,
            update_plan_of(
                snapshot@,
                flag_key@,
                expected_revision as int,
                name@,
                optional_str(description),
                outcome(now),
            ),
        ),
{
    match replay(&snapshot.command, command) {
        Err(error) => Err(error),
        Ok(Some(response)) => Ok(Decision::Replay(response)),
        Ok(None) => match update_plan(
            snapshot,
            flag_key,
            expected_revision,
            name,
            description,
            now,
        ) {
            Ok(plan) => Ok(Decision::Commit(plan)),
            Err(error) => Err(error),
        },
    }
}

/// Decides a flag's new name and description, now.
pub fn update_flag(
    snapshot: &Snapshot,
    command: Command<'_>,
    flag_key: &str,
    expected_revision: i64,
    name: &str,
    description: Option<&str>,
) -> (result: Result<Decision<FlagRecord>, StorageError>)
    ensures
        exists|time: Result<String, StorageError>, nanos: int| #[trigger]
            stamped(time, nanos) && outcome(result) == decided(
                snapshot@.command,
                command@,
                update_plan_of(
                    snapshot@,
                    flag_key@,
                    expected_revision as int,
                    name@,
                    optional_str(description),
                    outcome(time),
                ),
            ),
{
    update_flag_at(snapshot, command, flag_key, expected_revision, name, description, now())
}

/// The plan of a flag's archival, at the expected revision.
pub open spec fn archive_plan_of(
    snapshot: SnapshotView,
    flag_key: Seq<char>,
    expected_revision: int,
    now: Result<Seq<char>, ErrorView>,
) -> Result<PlanView<FlagView>, ErrorView> {
    if !snapshot.flags.contains_key(flag_key) {
        refused(DomainFailure::NotFound)
    } else {
        let current = snapshot.flags[flag_key];
        match flag_refusal(current, expected_revision) {
            Some(error) => Err(error),
            None => match (bump_of(current.revision), now) {
                (Err(error), _) => Err(error),
                (_, Err(error)) => Err(error),
                (Ok(revision), Ok(now)) => {
                    let flag = FlagView {
                        archived: true,
                        archived_at: Some(now),
                        revision,
                        updated_at: now,
                        ..current
                    };
                    Ok(PlanView { response: flag, effects: seq![EffectView::UpdateFlag(flag)] })
                },
            },
        }
    }
}

fn archive_plan(
    snapshot: &Snapshot,
    flag_key: &str,
    expected_revision: i64,
    now: Result<String, StorageError>,
) -> (result: Result<Plan<FlagRecord>, StorageError>)
    ensures
        outcome(result) == archive_plan_of(
            snapshot@,
            flag_key@,
            expected_revision as int,
            outcome(now),
        ),
{
    let current = match snapshot.flags.get(flag_key) {
        Some(flag) => flag,
        None => return Err(StorageError::from(DomainFailure::NotFound)),
    };
    assert(snapshot@.flags[flag_key@] == current@);
    if let Err(error) = require_flag(current, expected_revision) {
        return Err(error);
    }
    let mut record = current.clone();
    record.revision = match bump(current.revision.as_str()) {
        Ok(revision) => revision,
        Err(error) => return Err(error),
    };
    record.updated_at = match now {
        Ok(now) => now,
        Err(error) => return Err(error),
    };
    record.archived = true;
    record.archived_at = Some(record.updated_at.clone());
    let plan = Plan { response: record.clone(), effects: vec![Effect::UpdateFlag(record)] };
    assert(plan@.effects =~= seq![EffectView::UpdateFlag(record@)]);
    Ok(plan)
}

/// Decides a flag's archival at the given time.
pub fn archive_flag_at(
    snapshot: &Snapshot,
    command: Command<'_>,
    flag_key: &str,
    expected_revision: i64,
    now: Result<String, StorageError>,
) -> (result: Result<Decision<FlagRecord>, StorageError>)
    ensures
        outcome(result) == decided(
            snapshot@.command,
            command@,
            archive_plan_of(snapshot@, flag_key@, expected_revision as int, outcome(now)),
        ),
{
    match replay(&snapshot.command, command) {
        Err(error) => Err(error),
        Ok(Some(response)) => Ok(Decision::Replay(response)),
        Ok(None) => match archive_plan(snapshot, flag_key, expected_revision, now) {
            Ok(plan) => Ok(Decision::Commit(plan)),
            Err(error) => Err(error),
        },
    }
}

/// Decides a flag's archival, now.
pub fn archive_flag(
    snapshot: &Snapshot,
    command: Command<'_>,
    flag_key: &str,
    expected_revision: i64,
) -> (result: Result<Decision<FlagRecord>, StorageError>)
    ensures
        exists|time: Result<String, StorageError>, nanos: int| #[trigger]
            stamped(time, nanos) && outcome(result) == decided(
                snapshot@.command,
                command@,
                archive_plan_of(snapshot@, flag_key@, expected_revision as int, outcome(time)),
            ),
{
    archive_flag_at(snapshot, command, flag_key, expected_revision, now())
}

/// An expected revision as a number.
pub open spec fn expected_int(expected: Option<i64>) -> Option<int> {
    match expected {
        Some(n) => Some(n as int),
        None => None,
    }
}

/// The plan of an environment: a new one where none is expected and there is none, else a new name
/// at the expected revision.
pub open spec fn put_plan_of(
    snapshot: SnapshotView,
    organization_id: Seq<char>,
    environment_key: Seq<char>,
    name: Seq<char>,
    expected_revision: Option<int>,
    now: Result<Seq<char>, ErrorView>,
) -> Result<PlanView<EnvironmentView>, ErrorView> {
    match now {
        Err(error) => Err(error),
        Ok(now) => match (snapshot.environment, expected_revision) {
            (None, None) => {
                let record = EnvironmentView {
                    organization_id,
                    environment_key,
                    name,
                    revision: "1"@,
                    created_at: now,
                    updated_at: now,
                };
                Ok(PlanView { response: record, effects: seq![EffectView::PutEnvironment(record)] })
            },
            (Some(current), Some(expected)) => match revision_of(current.revision) {
                Err(error) => Err(error),
                Ok(n) => if n != expected {
                    refused(DomainFailure::RevisionConflict)
                } else {
                    match bump_of(current.revision) {
                        Err(error) => Err(error),
                        Ok(revision) => {
                            let record = EnvironmentView {
                                name,
                                revision,
                                updated_at: now,
                                ..current
                            };
                            Ok(
                                PlanView {
                                    response: record,
                                    effects: seq![EffectView::PutEnvironment(record)],
                                },
                            )
                        },
                    }
                },
            },
            (None, Some(_)) => refused(DomainFailure::NotFound),
            (Some(_), None) => refused(DomainFailure::AlreadyExists),
        },
    }
}

fn put_plan(
    snapshot: &Snapshot,
    organization_id: &str,
    environment_key: &str,
    name: &str,
    expected_revision: Option<i64>,
    now: Result<String, StorageError>,
) -> (result: Result<Plan<EnvironmentRecord>, StorageError>)
    ensures
        outcome(result) == put_plan_of(
            snapshot@,
            organization_id@,
            environment_key@,
            name@,
            expected_int(expected_revision),
            outcome(now),
        ),
{
    let now = match now {
        Ok(now) => now,
        Err(error) => return Err(error),
    };
    let record = match (&snapshot.environment, expected_revision) {
        (None, None) => EnvironmentRecord {
            organization_id: organization_id.to_owned(),
            environment_key: environment_key.to_owned(),
            name: name.to_owned(),
            revision: "1".to_owned(),
            created_at: now.clone(),
            updated_at: now,
        },
        (Some(current), Some(expected)) => {
            match revision(current.revision.as_str()) {
                Ok(n) => if n != expected {
                    return Err(StorageError::from(DomainFailure::RevisionConflict));
                },
                Err(error) => return Err(error),
            }
            let mut record = current.clone();
            record.name = name.to_owned();
            record.revision = match bump(current.revision.as_str()) {
                Ok(revision) => revision,
                Err(error) => return Err(error),
            };
            record.updated_at = now;
            record
        },
        (None, Some(_)) => return Err(StorageError::from(DomainFailure::NotFound)),
        (Some(_), None) => return Err(StorageError::from(DomainFailure::AlreadyExists)),
    };
    let plan = Plan { response: record.clone(), effects: vec![Effect::PutEnvironment(record)] };
    assert(plan@.effects =~= seq![EffectView::PutEnvironment(record@)]);
    Ok(plan)
}

/// Decides an environment at the given time.
pub fn put_environment_at(
    snapshot: &Snapshot,
    command: Command<'_>,
    organization_id: &str,
    environment_key: &str,
    name: &str,
    expected_revision: Option<i64>,
    now: Result<String, StorageError>,
) -> (result: Result<Decision<EnvironmentRecord>, StorageError>)
    ensures
        outcome(result) == decided(
            snapshot@.command,
            command@,
            put_plan_of(
                snapshot@,
                organization_id@,
                environment_key@,
                name@,
                expected_int(expected_revision),
                outcome(now),
            ),
        ),
{
    match replay(&snapshot.command, command) {
        Err(error) => Err(error),
        Ok(Some(response)) => Ok(Decision::Replay(response)),
        Ok(None) => match put_plan(
            snapshot,
            organization_id,
            environment_key,
            name,
            expected_revision,
            now,
        ) {
            Ok(plan) => Ok(Decision::Commit(plan)),
            Err(error) => Err(error),
        },
    }
}

/// Decides an environment, now.
pub fn put_environment(
    snapshot: &Snapshot,
    command: Command<'_>,
    organization_id: &str,
    environment_key: &str,
    name: &str,
    expected_revision: Option<i64>,
) -> (result: Result<Decision<EnvironmentRecord>, StorageError>)
    ensures
        exists|time: Result<String, StorageError>, nanos: int| #[trigger]
            stamped(time, nanos) && outcome(result) == decided(
                snapshot@.command,
                command@,
                put_plan_of(
                    snapshot@,
                    organization_id@,
                    environment_key@,
                    name@,
                    expected_int(expected_revision),
                    outcome(time),
                ),
            ),
{
    put_environment_at(
        snapshot,
        command,
        organization_id,
        environment_key,
        name,
        expected_revision,
        now(),
    )
}

/// The revision of the next ruleset: one more than the latest, or one.
pub open spec fn next_ruleset_revision(
    rulesets: Map<Seq<char>, PublishedView>,
    flag_key: Seq<char>,
) -> Result<Seq<char>, ErrorView> {
    if rulesets.contains_key(flag_key) {
        bump_of(rulesets[flag_key].revision)
    } else {
        Ok("1"@)
    }
}

/// Why a ruleset cannot be published; nothing where it can. The flag is looked at first, then the
/// ruleset, then the environment.
pub open spec fn publish_refusal(
    snapshot: SnapshotView,
    flag_key: Seq<char>,
    expected_flag_revision: int,
    expected_environment_revision: int,
    definition: DefinitionView,
) -> Option<ErrorView> {
    if !snapshot.flags.contains_key(flag_key) {
        Some(ErrorView::Domain(DomainFailure::NotFound))
    } else {
        let flag = snapshot.flags[flag_key];
        match flag_refusal(flag, expected_flag_revision) {
            Some(error) => Some(error),
            None => match ruleset_failure(flag.value_type, definition) {
                Some(failure) => Some(ErrorView::Domain(failure)),
                None => match snapshot.environment {
                    None => Some(ErrorView::Domain(DomainFailure::NotFound)),
                    Some(environment) => match revision_of(environment.revision) {
                        Err(error) => Some(error),
                        Ok(n) => if n != expected_environment_revision {
                            Some(ErrorView::Domain(DomainFailure::RevisionConflict))
                        } else {
                            None
                        },
                    },
                },
            },
        }
    }
}

/// The plan of a publication: the flag and the environment at their next revisions, and the
/// ruleset at its own.
pub open spec fn publish_plan_of(
    snapshot: SnapshotView,
    actor: Seq<char>,
    organization_id: Seq<char>,
    flag_key: Seq<char>,
    environment_key: Seq<char>,
    expected_flag_revision: int,
    expected_environment_revision: int,
    definition: DefinitionView,
    now: Result<Seq<char>, ErrorView>,
) -> Result<PlanView<PublishView>, ErrorView> {
    match publish_refusal(
        snapshot,
        flag_key,
        expected_flag_revision,
        expected_environment_revision,
        definition,
    ) {
        Some(error) => Err(error),
        None => {
            let flag = snapshot.flags[flag_key];
            let environment = snapshot.environment->0;
            match (
                bump_of(flag.revision),
                bump_of(environment.revision),
                now,
                next_ruleset_revision(snapshot.rulesets, flag_key),
            ) {
                (Err(error), _, _, _) => Err(error),
                (_, Err(error), _, _) => Err(error),
                (_, _, Err(error), _) => Err(error),
                (_, _, _, Err(error)) => Err(error),
                (Ok(flag_revision), Ok(environment_revision), Ok(now), Ok(ruleset_revision)) => {
                    let publication = PublishView {
                        organization_id,
                        flag_key,
                        environment_key,
                        ruleset_revision,
                        flag_revision,
                        environment_revision,
                        published_by: actor,
                        published_at: now,
                    };
                    Ok(
                        PlanView {
                            response: publication,
                            effects: seq![
                                EffectView::UpdateFlag(
                                    FlagView { revision: flag_revision, updated_at: now, ..flag },
                                ),
                                EffectView::PutEnvironment(
                                    EnvironmentView {
                                        revision: environment_revision,
                                        updated_at: now,
                                        ..environment
                                    },
                                ),
                                EffectView::InsertRuleset(definition, publication),
                            ],
                        },
                    )
                },
            }
        },
    }
}

fn publish_plan(
    snapshot: &Snapshot,
    actor: &str,
    organization_id: &str,
    flag_key: &str,
    environment_key: &str,
    expected_flag_revision: i64,
    expected_environment_revision: i64,
    definition: &RulesetDefinition,
    now: Result<String, StorageError>,
) -> (result: Result<Plan<PublishRecord>, StorageError>)
    ensures
        outcome(result) == publish_plan_of(
            snapshot@,
            actor@,
            organization_id@,
            flag_key@,
            environment_key@,
            expected_flag_revision as int,
            expected_environment_revision as int,
            definition@,
            outcome(now),
        ),
{
    let current = match snapshot.flags.get(flag_key) {
        Some(flag) => flag,
        None => return Err(StorageError::from(DomainFailure::NotFound)),
    };
    assert(snapshot@.flags[flag_key@] == current@);
    if let Err(error) = require_flag(current, expected_flag_revision) {
        return Err(error);
    }
    if let Err(error) = validate_ruleset(current.value_type.as_str(), definition) {
        return Err(error);
    }
    let place = match &snapshot.environment {
        Some(environment) => environment,
        None => return Err(StorageError::from(DomainFailure::NotFound)),
    };
    match revision(place.revision.as_str()) {
        Ok(n) => if n != expected_environment_revision {
            return Err(StorageError::from(DomainFailure::RevisionConflict));
        },
        Err(error) => return Err(error),
    }
    let mut flag = current.clone();
    let mut environment = place.clone();
    flag.revision = match bump(current.revision.as_str()) {
        Ok(revision) => revision,
        Err(error) => return Err(error),
    };
    environment.revision = match bump(place.revision.as_str()) {
        Ok(revision) => revision,
        Err(error) => return Err(error),
    };
    let now = match now {
        Ok(now) => now,
        Err(error) => return Err(error),
    };
    flag.updated_at = now.clone();
    environment.updated_at = now.clone();
    let next = match snapshot.rulesets.get(flag_key) {
        Some(latest) => match bump(latest.revision.as_str()) {
            Ok(revision) => revision,
            Err(error) => return Err(error),
        },
        None => "1".to_owned(),
    };
    let publication = PublishRecord {
        organization_id: organization_id.to_owned(),
        flag_key: flag_key.to_owned(),
        environment_key: environment_key.to_owned(),
        ruleset_revision: next,
        flag_revision: flag.revision.clone(),
        environment_revision: environment.revision.clone(),
        published_by: actor.to_owned(),
        published_at: now,
    };
    let plan = Plan {
        response: publication.clone(),
        effects: vec![
            Effect::UpdateFlag(flag),
            Effect::PutEnvironment(environment),
            Effect::InsertRuleset(definition.clone(), publication),
        ],
    };
    assert(plan@.effects =~= seq![
        EffectView::UpdateFlag(flag@),
        EffectView::PutEnvironment(environment@),
        EffectView::InsertRuleset(definition@, publication@),
    ]);
    Ok(plan)
}

/// Decides a publication at the given time.
pub fn publish_ruleset_at(
    snapshot: &Snapshot,
    command: Command<'_>,
    organization_id: &str,
    flag_key: &str,
    environment_key: &str,
    expected_flag_revision: i64,
    expected_environment_revision: i64,
    definition: &RulesetDefinition,
    now: Result<String, StorageError>,
) -> (result: Result<Decision<PublishRecord>, StorageError>)
    ensures
        outcome(result) == decided(
            snapshot@.command,
            command@,
            publish_plan_of(
                snapshot@,
                command@.actor,
                organization_id@,
                flag_key@,
                environment_key@,
                expected_flag_revision as int,
                expected_environment_revision as int,
                definition@,
                outcome(now),
            ),
        ),
{
    match replay(&snapshot.command, command) {
        Err(error) => Err(error),
        Ok(Some(response)) => Ok(Decision::Replay(response)),
        Ok(None) => match publish_plan(
            snapshot,
            command.actor,
            organization_id,
            flag_key,
            environment_key,
            expected_flag_revision,
            expected_environment_revision,
            definition,
            now,
        ) {
            Ok(plan) => Ok(Decision::Commit(plan)),
            Err(error) => Err(error),
        },
    }
}

/// Decides a publication, now.
pub fn publish_ruleset(
    snapshot: &Snapshot,
    command: Command<'_>,
    organization_id: &str,
    flag_key: &str,
    environment_key: &str,
    expected_flag_revision: i64,
    expected_environment_revision: i64,
    definition: &RulesetDefinition,
) -> (result: Result<Decision<PublishRecord>, StorageError>)
    ensures
        exists|time: Result<String, StorageError>, nanos: int| #[trigger]
            stamped(time, nanos) && outcome(result) == decided(
                snapshot@.command,
                command@,
                publish_plan_of(
                    snapshot@,
                    command@.actor,
                    organization_id@,
                    flag_key@,
                    environment_key@,
                    expected_flag_revision as int,
                    expected_environment_revision as int,
                    definition@,
                    outcome(time),
                ),
            ),
{
    publish_ruleset_at(
        snapshot,
        command,
        organization_id,
        flag_key,
        environment_key,
        expected_flag_revision,
        expected_environment_revision,
        definition,
        now(),
    )
}

} // verus!
