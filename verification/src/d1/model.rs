//! What the store holds, as a mathematical model, and what every operation keeps of it.
//!
//! A record is read back as it was written. The batch of a commit is one transaction: it takes
//! effect as a whole, or not at all.

use vstd::prelude::*;
use crate::domain::{
    CommandView, DefinitionView, EnvironmentView, ErrorView, FlagView, PublishedView,
};
use crate::decimal::integer_text;
use crate::evaluation::{DraftView, RequestView, StampView};
use crate::ruleset::ruleset_failure;
use super::evaluate::all_evaluated;
use super::plan::{
    archive_plan_of, create_plan_of, publish_plan_of, put_plan_of, update_plan_of, EffectView,
};
use super::revision::revision_of;
use super::rows::{command_row, replay_of};
use super::snapshot::SnapshotView;

verus! {

/// The key under which a command is stored: the same key of another caller, actor or operation is
/// another command.
pub struct CommandKey {
    pub caller: Seq<char>,
    pub actor: Seq<char>,
    pub operation: Seq<char>,
    pub key: Seq<char>,
}

/// What is stored of a command.
pub struct StoredCommand {
    pub hash: Seq<u8>,
    pub response: Seq<char>,
}

/// What is stored of a flag: the row's number, and the record.
pub struct FlagRow {
    pub row_seq: int,
    pub record: FlagView,
}

/// What is stored of an evaluation.
pub struct ReceiptRow {
    pub organization_id: Seq<char>,
    pub receipt: DraftView,
}

/// What the store holds. A flag is found by its organization and key, an environment too, and
/// rulesets by organization, flag and environment, in the order of their publication.
pub struct Tables {
    pub epoch: int,
    pub commands: Map<CommandKey, StoredCommand>,
    pub flags: Map<(Seq<char>, Seq<char>), FlagRow>,
    pub environments: Map<(Seq<char>, Seq<char>), EnvironmentView>,
    pub rulesets: Map<(Seq<char>, Seq<char>, Seq<char>), Seq<PublishedView>>,
    pub receipts: Seq<ReceiptRow>,
}

/// The rulesets of a flag in an environment.
pub open spec fn rulesets_of(tables: Tables, key: (Seq<char>, Seq<char>, Seq<char>)) -> Seq<
    PublishedView,
> {
    if tables.rulesets.contains_key(key) {
        tables.rulesets[key]
    } else {
        seq![]
    }
}

/// The store after one effect.
pub open spec fn after_effect(tables: Tables, effect: EffectView) -> Tables {
    match effect {
        EffectView::InsertFlag(flag) => Tables {
            flags: tables.flags.insert(
                (flag.organization_id, flag.flag_key),
                FlagRow { row_seq: flag.row_seq, record: flag },
            ),
            ..tables
        },
        EffectView::UpdateFlag(flag) => {
            let key = (flag.organization_id, flag.flag_key);
            if tables.flags.contains_key(key) {
                Tables {
                    flags: tables.flags.insert(
                        key,
                        FlagRow { row_seq: tables.flags[key].row_seq, record: flag },
                    ),
                    ..tables
                }
            } else {
                tables
            }
        },
        EffectView::PutEnvironment(environment) => Tables {
            environments: tables.environments.insert(
                (environment.organization_id, environment.environment_key),
                environment,
            ),
            ..tables
        },
        EffectView::InsertRuleset(definition, publication) => {
            let key = (
                publication.organization_id,
                publication.flag_key,
                publication.environment_key,
            );
            Tables {
                rulesets: tables.rulesets.insert(
                    key,
                    rulesets_of(tables, key).push(
                        PublishedView { revision: publication.ruleset_revision, definition },
                    ),
                ),
                ..tables
            }
        },
    }
}

/// The store after some effects, in order.
pub open spec fn after_effects(tables: Tables, effects: Seq<EffectView>) -> Tables
    decreases effects.len(),
{
    if effects.len() == 0 {
        tables
    } else {
        after_effect(after_effects(tables, effects.drop_last()), effects.last())
    }
}

/// What an operation changes: records, and receipts.
pub struct Changes {
    pub effects: Seq<EffectView>,
    pub receipts: Seq<DraftView>,
}

/// The store after a commit that was decided at an epoch. At another epoch, and where the command
/// is already stored, the batch fails and nothing changes.
pub open spec fn committed(
    tables: Tables,
    epoch: int,
    key: CommandKey,
    stored: StoredCommand,
    organization_id: Seq<char>,
    changes: Changes,
) -> Option<Tables> {
    if tables.epoch != epoch || tables.commands.contains_key(key) {
        None
    } else {
        let changed = after_effects(tables, changes.effects);
        Some(
            Tables {
                epoch: tables.epoch + 1,
                commands: tables.commands.insert(key, stored),
                receipts: tables.receipts + changes.receipts.map_values(
                    |receipt: DraftView| ReceiptRow { organization_id, receipt },
                ),
                ..changed
            },
        )
    }
}

/// An operation with what it was asked for.
#[allow(inconsistent_fields)]
pub enum OperationView {
    CreateFlag {
        flag_key: Seq<char>,
        name: Seq<char>,
        description: Option<Seq<char>>,
        value_type: Seq<char>,
    },
    UpdateFlag {
        flag_key: Seq<char>,
        expected_revision: int,
        name: Seq<char>,
        description: Option<Seq<char>>,
    },
    ArchiveFlag { flag_key: Seq<char>, expected_revision: int },
    PutEnvironment {
        environment_key: Seq<char>,
        name: Seq<char>,
        expected_revision: Option<int>,
    },
    PublishRuleset {
        flag_key: Seq<char>,
        environment_key: Seq<char>,
        expected_flag_revision: int,
        expected_environment_revision: int,
        definition: DefinitionView,
    },
    Evaluate { request: RequestView, flags: Seq<Seq<char>> },
}

impl OperationView {
    /// The name under which the operation's commands are stored.
    pub open spec fn name(self) -> Seq<char> {
        match self {
            OperationView::CreateFlag { .. } => "create_flag"@,
            OperationView::UpdateFlag { .. } => "update_flag"@,
            OperationView::ArchiveFlag { .. } => "archive_flag"@,
            OperationView::PutEnvironment { .. } => "put_environment"@,
            OperationView::PublishRuleset { .. } => "publish_ruleset"@,
            OperationView::Evaluate { request, .. } => request.operation,
        }
    }

    /// The flags that the operation reads.
    pub open spec fn flags_read(self) -> Seq<Seq<char>> {
        match self {
            OperationView::CreateFlag { flag_key, .. } => seq![flag_key],
            OperationView::UpdateFlag { flag_key, .. } => seq![flag_key],
            OperationView::ArchiveFlag { flag_key, .. } => seq![flag_key],
            OperationView::PutEnvironment { .. } => seq![],
            OperationView::PublishRuleset { flag_key, .. } => seq![flag_key],
            OperationView::Evaluate { flags, .. } => flags,
        }
    }

    /// The environment that the operation reads.
    pub open spec fn environment_read(self) -> Seq<char> {
        match self {
            OperationView::PutEnvironment { environment_key, .. } => environment_key,
            OperationView::PublishRuleset { environment_key, .. } => environment_key,
            OperationView::Evaluate { request, .. } => request.environment_key,
            _ => ""@,
        }
    }
}

/// An operation as it is run: who asks, for which organization, when, and the JSON text of the
/// response that is stored with it.
pub struct StepView {
    pub organization_id: Seq<char>,
    pub command: CommandView,
    pub operation: OperationView,
    pub now: Result<Seq<char>, ErrorView>,
    pub stamps: Seq<StampView>,
    pub response: Seq<char>,
}

impl StepView {
    /// The key of the step's command.
    pub open spec fn key(self) -> CommandKey {
        CommandKey {
            caller: self.command.caller,
            actor: self.command.actor,
            operation: self.operation.name(),
            key: self.command.key,
        }
    }
}

/// What an operation sees of the store.
pub open spec fn snapshot_of(tables: Tables, step: StepView) -> SnapshotView {
    let organization = step.organization_id;
    let flags = step.operation.flags_read();
    let environment = step.operation.environment_read();
    SnapshotView {
        epoch: tables.epoch,
        command: if tables.commands.contains_key(step.key()) {
            let stored = tables.commands[step.key()];
            seq![command_row(stored.hash, stored.response)]
        } else {
            seq![]
        },
        flags: Map::new(
            |flag: Seq<char>| flags.contains(flag) && tables.flags.contains_key(
                (organization, flag),
            ),
            |flag: Seq<char>| tables.flags[(organization, flag)].record,
        ),
        environment: if tables.environments.contains_key((organization, environment)) {
            Some(tables.environments[(organization, environment)])
        } else {
            None
        },
        rulesets: Map::new(
            |flag: Seq<char>| flags.contains(flag) && rulesets_of(
                tables,
                (organization, flag, environment),
            ).len() > 0,
            |flag: Seq<char>| rulesets_of(tables, (organization, flag, environment)).last(),
        ),
    }
}

/// What an operation decides to change, on what it sees.
pub open spec fn planned(snapshot: SnapshotView, step: StepView) -> Result<Changes, ErrorView> {
    match step.operation {
        OperationView::CreateFlag { flag_key, name, description, value_type } => match (
            create_plan_of(
                snapshot,
                step.organization_id,
                flag_key,
                name,
                description,
                value_type,
                step.now,
            )) {
            Ok(plan) => Ok(Changes { effects: plan.effects, receipts: seq![] }),
            Err(error) => Err(error),
        },
        OperationView::UpdateFlag { flag_key, expected_revision, name, description } => match (
            update_plan_of(snapshot, flag_key, expected_revision, name, description, step.now)) {
            Ok(plan) => Ok(Changes { effects: plan.effects, receipts: seq![] }),
            Err(error) => Err(error),
        },
        OperationView::ArchiveFlag { flag_key, expected_revision } => match archive_plan_of(
            snapshot,
            flag_key,
            expected_revision,
            step.now,
        ) {
            Ok(plan) => Ok(Changes { effects: plan.effects, receipts: seq![] }),
            Err(error) => Err(error),
        },
        OperationView::PutEnvironment { environment_key, name, expected_revision } => match (
            put_plan_of(
                snapshot,
                step.organization_id,
                environment_key,
                name,
                expected_revision,
                step.now,
            )) {
            Ok(plan) => Ok(Changes { effects: plan.effects, receipts: seq![] }),
            Err(error) => Err(error),
        },
        OperationView::PublishRuleset {
            flag_key,
            environment_key,
            expected_flag_revision,
            expected_environment_revision,
            definition,
        } => match (publish_plan_of(
            snapshot,
            step.command.actor,
            step.organization_id,
            flag_key,
            environment_key,
            expected_flag_revision,
            expected_environment_revision,
            definition,
            step.now,
        )) {
            Ok(plan) => Ok(Changes { effects: plan.effects, receipts: seq![] }),
            Err(error) => Err(error),
        },
        OperationView::Evaluate { request, flags } => match all_evaluated(
            snapshot,
            request,
            flags,
            step.stamps,
        ) {
            Ok(done) => Ok(Changes { effects: seq![], receipts: done.receipts }),
            Err(error) => Err(error),
        },
    }
}

/// A step was committed: its command was not stored, it was not refused, and its batch took effect.
pub open spec fn performed(tables: Tables, step: StepView, after: Tables) -> bool {
    let snapshot = snapshot_of(tables, step);
    &&& replay_of(snapshot.command, step.command) == Ok::<Option<Seq<char>>, ErrorView>(None)
    &&& planned(snapshot, step) is Ok
    &&& committed(
        tables,
        snapshot.epoch,
        step.key(),
        StoredCommand { hash: step.command.hash, response: step.response },
        step.organization_id,
        planned(snapshot, step)->Ok_0,
    ) == Some(after)
}

/// A sound flag: it stands under its own key, at a revision, in a row that an epoch before gave.
pub open spec fn flag_sound(tables: Tables, key: (Seq<char>, Seq<char>)) -> bool {
    let row = tables.flags[key];
    &&& row.record.organization_id == key.0
    &&& row.record.flag_key == key.1
    &&& row.record.row_seq == row.row_seq
    &&& 0 < row.row_seq < tables.epoch
    &&& revision_of(row.record.revision) is Ok
}

/// A sound environment: it stands under its own key, at a revision.
pub open spec fn environment_sound(tables: Tables, key: (Seq<char>, Seq<char>)) -> bool {
    let record = tables.environments[key];
    &&& record.organization_id == key.0
    &&& record.environment_key == key.1
    &&& revision_of(record.revision) is Ok
}

/// Sound rulesets: of a flag and an environment that are there, numbered from one on, and each
/// valid for the flag's type.
pub open spec fn rulesets_sound(
    tables: Tables,
    key: (Seq<char>, Seq<char>, Seq<char>),
) -> bool {
    let published = tables.rulesets[key];
    &&& tables.flags.contains_key((key.0, key.1))
    &&& tables.environments.contains_key((key.0, key.2))
    &&& published.len() > 0
    &&& forall|i: int|
        0 <= i < published.len() ==> (#[trigger] published[i]).revision == integer_text(i + 1)
            && ruleset_failure(
            tables.flags[(key.0, key.1)].record.value_type,
            published[i].definition,
        ) is None
}

impl Tables {
    /// The store of a fresh installation.
    pub open spec fn fresh() -> Tables {
        Tables {
            epoch: 1,
            commands: Map::empty(),
            flags: Map::empty(),
            environments: Map::empty(),
            rulesets: Map::empty(),
            receipts: seq![],
        }
    }

    /// What holds of the store at all times.
    pub open spec fn wf(self) -> bool {
        &&& self.epoch > 0
        &&& forall|key: (Seq<char>, Seq<char>)| #[trigger]
            self.flags.contains_key(key) ==> flag_sound(self, key)
        &&& forall|key: (Seq<char>, Seq<char>)| #[trigger]
            self.environments.contains_key(key) ==> environment_sound(self, key)
        &&& forall|key: (Seq<char>, Seq<char>, Seq<char>)| #[trigger]
            self.rulesets.contains_key(key) ==> rulesets_sound(self, key)
        &&& forall|a: (Seq<char>, Seq<char>), b: (Seq<char>, Seq<char>)|
            #![trigger self.flags.contains_key(a), self.flags.contains_key(b)]
            self.flags.contains_key(a) && self.flags.contains_key(b) && a != b
                ==> self.flags[a].row_seq != self.flags[b].row_seq
    }
}

/// What a later store keeps of a flag. Its identity, type, row and time of creation never change;
/// an archived flag does not change at all; and where the record changed, so did the revision,
/// upwards.
pub open spec fn flag_kept(before: FlagRow, after: FlagRow) -> bool {
    &&& after.row_seq == before.row_seq
    &&& after.record.organization_id == before.record.organization_id
    &&& after.record.flag_key == before.record.flag_key
    &&& after.record.value_type == before.record.value_type
    &&& after.record.created_at == before.record.created_at
    &&& before.record.archived ==> after == before
    &&& after == before || revision_of(before.record.revision)->Ok_0 < revision_of(
        after.record.revision,
    )->Ok_0
}

/// What a later store keeps of an environment. Its identity and time of creation never change; and
/// where the record changed, so did the revision, upwards.
pub open spec fn environment_kept(before: EnvironmentView, after: EnvironmentView) -> bool {
    &&& after.organization_id == before.organization_id
    &&& after.environment_key == before.environment_key
    &&& after.created_at == before.created_at
    &&& after == before || revision_of(before.revision)->Ok_0 < revision_of(after.revision)->Ok_0
}

/// What a store keeps of another one's records: every flag and environment, and every published
/// ruleset as it was.
pub open spec fn records_kept(before: Tables, after: Tables) -> bool {
    &&& forall|key: (Seq<char>, Seq<char>)| #[trigger]
        before.flags.contains_key(key) ==> after.flags.contains_key(key) && flag_kept(
            before.flags[key],
            after.flags[key],
        )
    &&& forall|key: (Seq<char>, Seq<char>)| #[trigger]
        before.environments.contains_key(key) ==> after.environments.contains_key(key)
            && environment_kept(before.environments[key], after.environments[key])
    &&& forall|key: (Seq<char>, Seq<char>, Seq<char>)| #[trigger]
        before.rulesets.contains_key(key) ==> after.rulesets.contains_key(key)
            && before.rulesets[key].is_prefix_of(after.rulesets[key])
}

/// What a later store keeps of an earlier one: its records, every command with its response, and
/// every receipt. At the same epoch it is the same.
pub open spec fn later(before: Tables, after: Tables) -> bool {
    &&& before.epoch <= after.epoch
    &&& before.epoch == after.epoch ==> before == after
    &&& forall|key: CommandKey| #[trigger]
        before.commands.contains_key(key) ==> after.commands.contains_key(key)
            && after.commands[key] == before.commands[key]
    &&& records_kept(before, after)
    &&& before.receipts.is_prefix_of(after.receipts)
}

} // verus!
