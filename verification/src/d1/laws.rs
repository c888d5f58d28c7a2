//! What holds of the store through every operation and every run of operations.

use vstd::prelude::*;
use crate::decimal::{integer_text, lemma_integer_round_trip};
use crate::domain::{
    DomainFailure, EnvironmentView, ErrorView, EvaluationView, FlagView, PublishedView,
};
use crate::evaluation::evaluation_refusal;
use crate::page::{flag_place, lemma_page_continues, listed_flags, page_start};
use crate::ruleset::ruleset_failure;
use super::evaluate::{
    all_evaluated, flag_answer, lemma_batch_is_whole, snapshot_flag, snapshot_ruleset,
};
use super::model::{
    after_effect, after_effects, committed, environment_kept, environment_sound, flag_kept,
    flag_sound, later, performed, planned, records_kept, rulesets_of, rulesets_sound, snapshot_of,
    Changes, FlagRow, OperationView, ReceiptRow, StepView, StoredCommand, Tables,
};
use super::plan::{
    archive_plan_of, create_plan_of, next_ruleset_revision, put_plan_of, refused, update_plan_of,
    EffectView,
};
use super::revision::{lemma_bump_advances, revision_of};
use super::rows::{lemma_stored_command_replays, replay_of};
use super::snapshot::SnapshotView;
use super::statement::{flag_page_query_of, reads_flags};

verus! {

/// The first revision is one.
pub proof fn lemma_first_revision()
    ensures
        "1"@ == integer_text(1),
        revision_of("1"@) == Ok::<i64, ErrorView>(1),
{
    reveal_strlit("1");
    assert("1"@ =~= integer_text(1));
    lemma_integer_round_trip(1);
}

proof fn lemma_kept_transitive(a: Tables, b: Tables, c: Tables)
    requires
        records_kept(a, b),
        records_kept(b, c),
    ensures
        records_kept(a, c),
{
    assert forall|key: (Seq<char>, Seq<char>)| #[trigger]
        a.flags.contains_key(key) implies c.flags.contains_key(key) && flag_kept(
        a.flags[key],
        c.flags[key],
    ) by {
        assert(b.flags.contains_key(key));
    }
    assert forall|key: (Seq<char>, Seq<char>)| #[trigger]
        a.environments.contains_key(key) implies c.environments.contains_key(key)
        && environment_kept(a.environments[key], c.environments[key]) by {
        assert(b.environments.contains_key(key));
    }
    assert forall|key: (Seq<char>, Seq<char>, Seq<char>)| #[trigger]
        a.rulesets.contains_key(key) implies c.rulesets.contains_key(key)
        && a.rulesets[key].is_prefix_of(c.rulesets[key]) by {
        assert(b.rulesets.contains_key(key));
        let (x, y, z) = (a.rulesets[key], b.rulesets[key], c.rulesets[key]);
        assert(x.is_prefix_of(z)) by {
            assert(x =~= z.subrange(0, x.len() as int)) by {
                assert forall|i: int| 0 <= i < x.len() implies x[i] == z[i] by {
                    assert(x[i] == y.subrange(0, x.len() as int)[i]);
                    assert(y[i] == z.subrange(0, y.len() as int)[i]);
                }
            }
        }
    }
}

/// A later store is later than whatever it is later than was later than.
pub proof fn lemma_later_transitive(a: Tables, b: Tables, c: Tables)
    requires
        later(a, b),
        later(b, c),
    ensures
        later(a, c),
{
    lemma_kept_transitive(a, b, c);
    assert forall|key| #[trigger] a.commands.contains_key(key) implies c.commands.contains_key(key)
        && c.commands[key] == a.commands[key] by {
        assert(b.commands.contains_key(key));
    }
    assert(a.receipts.is_prefix_of(c.receipts)) by {
        assert(a.receipts =~= c.receipts.subrange(0, a.receipts.len() as int)) by {
            assert forall|i: int| 0 <= i < a.receipts.len() implies a.receipts[i]
                == c.receipts[i] by {
                assert(a.receipts[i] == b.receipts.subrange(0, a.receipts.len() as int)[i]);
                assert(b.receipts[i] == c.receipts.subrange(0, b.receipts.len() as int)[i]);
            }
        }
    }
}

proof fn lemma_records_kept_reflexive(tables: Tables)
    ensures
        records_kept(tables, tables),
{
    assert forall|key: (Seq<char>, Seq<char>, Seq<char>)| #[trigger]
        tables.rulesets.contains_key(key) implies tables.rulesets[key].is_prefix_of(
        tables.rulesets[key],
    ) by {
        let published = tables.rulesets[key];
        assert(published =~= published.subrange(0, published.len() as int));
    }
}

proof fn lemma_epoch_advanced(tables: Tables)
    requires
        tables.wf(),
    ensures
        (Tables { epoch: tables.epoch + 1, ..tables }).wf(),
        records_kept(tables, (Tables { epoch: tables.epoch + 1, ..tables })),
{
    lemma_records_kept_reflexive(tables);
    let after = Tables { epoch: tables.epoch + 1, ..tables };
    assert forall|key: (Seq<char>, Seq<char>)| #[trigger]
        after.flags.contains_key(key) implies flag_sound(after, key) by {
        assert(tables.flags.contains_key(key));
    }
    assert forall|key: (Seq<char>, Seq<char>)| #[trigger]
        after.environments.contains_key(key) implies environment_sound(after, key) by {
        assert(tables.environments.contains_key(key));
    }
    assert forall|key: (Seq<char>, Seq<char>, Seq<char>)| #[trigger]
        after.rulesets.contains_key(key) implies rulesets_sound(after, key) by {
        assert(tables.rulesets.contains_key(key));
    }
}

proof fn lemma_flag_written(tables: Tables, key: (Seq<char>, Seq<char>), row: FlagRow)
    requires
        tables.wf(),
        row.record.organization_id == key.0,
        row.record.flag_key == key.1,
        row.record.row_seq == row.row_seq,
        revision_of(row.record.revision) is Ok,
        tables.flags.contains_key(key) ==> flag_kept(tables.flags[key], row),
        !tables.flags.contains_key(key) ==> row.row_seq == tables.epoch,
    ensures
        ({
            let after = Tables {
                epoch: tables.epoch + 1,
                flags: tables.flags.insert(key, row),
                ..tables
            };
            after.wf() && records_kept(tables, after)
        }),
{
    let after = Tables { epoch: tables.epoch + 1, flags: tables.flags.insert(key, row), ..tables };
    lemma_records_kept_reflexive(tables);
    assert forall|k: (Seq<char>, Seq<char>)| #[trigger]
        after.flags.contains_key(k) implies flag_sound(after, k) by {
        if k != key {
            assert(tables.flags.contains_key(k));
        } else {
            if tables.flags.contains_key(key) {
                assert(flag_sound(tables, key));
            }
        }
    }
    assert forall|k: (Seq<char>, Seq<char>)| #[trigger]
        after.environments.contains_key(k) implies environment_sound(after, k) by {
        assert(tables.environments.contains_key(k));
    }
    assert forall|k: (Seq<char>, Seq<char>, Seq<char>)| #[trigger]
        after.rulesets.contains_key(k) implies rulesets_sound(after, k) by {
        assert(tables.rulesets.contains_key(k));
        assert(rulesets_sound(tables, k));
        assert(tables.flags.contains_key((k.0, k.1)));
        assert(after.flags[(k.0, k.1)].record.value_type == tables.flags[(
            k.0,
            k.1,
        )].record.value_type);
    }
    assert forall|a: (Seq<char>, Seq<char>), b: (Seq<char>, Seq<char>)|
        #![trigger after.flags.contains_key(a), after.flags.contains_key(b)]
        after.flags.contains_key(a) && after.flags.contains_key(b) && a
            != b implies after.flags[a].row_seq != after.flags[b].row_seq by {
        if a != key {
            assert(tables.flags.contains_key(a));
            assert(flag_sound(tables, a));
        }
        if b != key {
            assert(tables.flags.contains_key(b));
            assert(flag_sound(tables, b));
        }
    }
}

proof fn lemma_environment_written(
    tables: Tables,
    key: (Seq<char>, Seq<char>),
    record: EnvironmentView,
)
    requires
        tables.wf(),
        record.organization_id == key.0,
        record.environment_key == key.1,
        revision_of(record.revision) is Ok,
        tables.environments.contains_key(key) ==> environment_kept(
            tables.environments[key],
            record,
        ),
    ensures
        ({
            let after = Tables {
                environments: tables.environments.insert(key, record),
                ..tables
            };
            after.wf() && records_kept(tables, after)
        }),
{
    let after = Tables { environments: tables.environments.insert(key, record), ..tables };
    lemma_records_kept_reflexive(tables);
    assert forall|k: (Seq<char>, Seq<char>)| #[trigger]
        after.flags.contains_key(k) implies flag_sound(after, k) by {
        assert(tables.flags.contains_key(k));
        assert(flag_sound(tables, k));
    }
    assert forall|k: (Seq<char>, Seq<char>)| #[trigger]
        after.environments.contains_key(k) implies environment_sound(after, k) by {
        if k != key {
            assert(tables.environments.contains_key(k));
            assert(environment_sound(tables, k));
        }
    }
    assert forall|k: (Seq<char>, Seq<char>, Seq<char>)| #[trigger]
        after.rulesets.contains_key(k) implies rulesets_sound(after, k) by {
        assert(tables.rulesets.contains_key(k));
        assert(rulesets_sound(tables, k));
    }
}

proof fn lemma_ruleset_published(
    tables: Tables,
    key: (Seq<char>, Seq<char>, Seq<char>),
    published: PublishedView,
)
    requires
        tables.wf(),
        tables.flags.contains_key((key.0, key.1)),
        tables.environments.contains_key((key.0, key.2)),
        published.revision == integer_text(rulesets_of(tables, key).len() as int + 1),
        ruleset_failure(
            tables.flags[(key.0, key.1)].record.value_type,
            published.definition,
        ) is None,
    ensures
        ({
            let after = Tables {
                rulesets: tables.rulesets.insert(key, rulesets_of(tables, key).push(published)),
                ..tables
            };
            after.wf() && records_kept(tables, after)
        }),
{
    let all = rulesets_of(tables, key).push(published);
    let after = Tables { rulesets: tables.rulesets.insert(key, all), ..tables };
    lemma_records_kept_reflexive(tables);
    assert forall|k: (Seq<char>, Seq<char>)| #[trigger]
        after.flags.contains_key(k) implies flag_sound(after, k) by {
        assert(tables.flags.contains_key(k));
        assert(flag_sound(tables, k));
    }
    assert forall|k: (Seq<char>, Seq<char>)| #[trigger]
        after.environments.contains_key(k) implies environment_sound(after, k) by {
        assert(tables.environments.contains_key(k));
        assert(environment_sound(tables, k));
    }
    assert forall|k: (Seq<char>, Seq<char>, Seq<char>)| #[trigger]
        after.rulesets.contains_key(k) implies rulesets_sound(after, k) by {
        if k != key {
            assert(tables.rulesets.contains_key(k));
            assert(rulesets_sound(tables, k));
        } else {
            if tables.rulesets.contains_key(key) {
                assert(rulesets_sound(tables, key));
            }
            let before = rulesets_of(tables, key);
            assert forall|i: int| 0 <= i < all.len() implies (#[trigger] all[i]).revision
                == integer_text(i + 1) && ruleset_failure(
                after.flags[(key.0, key.1)].record.value_type,
                all[i].definition,
            ) is None by {
                if i < before.len() {
                    assert(all[i] == before[i]);
                }
            }
        }
    }
    assert forall|k: (Seq<char>, Seq<char>, Seq<char>)| #[trigger]
        tables.rulesets.contains_key(k) implies after.rulesets.contains_key(k)
        && tables.rulesets[k].is_prefix_of(after.rulesets[k]) by {
        let before = tables.rulesets[k];
        assert(before =~= after.rulesets[k].subrange(0, before.len() as int));
    }
}

/// The store with the changes of a step in its records, one epoch on.
spec fn records_after(tables: Tables, step: StepView) -> Tables {
    let changes = planned(snapshot_of(tables, step), step)->Ok_0;
    Tables { epoch: tables.epoch + 1, ..after_effects(tables, changes.effects) }
}

proof fn lemma_one_effect(tables: Tables, effect: EffectView)
    ensures
        after_effects(tables, seq![effect]) == after_effect(tables, effect),
{
    reveal_with_fuel(after_effects, 2);
    assert(seq![effect].drop_last() =~= Seq::<EffectView>::empty());
}

proof fn lemma_three_effects(tables: Tables, a: EffectView, b: EffectView, c: EffectView)
    ensures
        after_effects(tables, seq![a, b, c]) == after_effect(
            after_effect(after_effect(tables, a), b),
            c,
        ),
{
    reveal_with_fuel(after_effects, 4);
    assert(seq![a, b, c].drop_last() =~= seq![a, b]);
    assert(seq![a, b].drop_last() =~= seq![a]);
    assert(seq![a].drop_last() =~= Seq::<EffectView>::empty());
}

proof fn lemma_create(tables: Tables, step: StepView)
    requires
        tables.wf(),
        step.operation is CreateFlag,
        planned(snapshot_of(tables, step), step) is Ok,
    ensures
        records_after(tables, step).wf(),
        records_kept(tables, records_after(tables, step)),
{
    let snapshot = snapshot_of(tables, step);
    let effects = planned(snapshot, step)->Ok_0.effects;
    let flag = effects[0]->InsertFlag_0;
    assert(effects =~= seq![EffectView::InsertFlag(flag)]);
    lemma_one_effect(tables, effects[0]);
    let key = (flag.organization_id, flag.flag_key);
    assert(step.operation.flags_read()[0] == flag.flag_key);
    assert(!snapshot.flags.contains_key(flag.flag_key));
    assert(!tables.flags.contains_key(key));
    lemma_first_revision();
    lemma_flag_written(tables, key, FlagRow { row_seq: flag.row_seq, record: flag });
}

proof fn lemma_read_flag(tables: Tables, step: StepView, flag_key: Seq<char>)
    requires
        tables.wf(),
        snapshot_of(tables, step).flags.contains_key(flag_key),
    ensures
        ({
            let key = (step.organization_id, flag_key);
            &&& tables.flags.contains_key(key)
            &&& flag_sound(tables, key)
            &&& snapshot_of(tables, step).flags[flag_key] == tables.flags[key].record
        }),
{
}

proof fn lemma_update_or_archive(tables: Tables, step: StepView)
    requires
        tables.wf(),
        step.operation is UpdateFlag || step.operation is ArchiveFlag,
        planned(snapshot_of(tables, step), step) is Ok,
    ensures
        records_after(tables, step).wf(),
        records_kept(tables, records_after(tables, step)),
{
    let snapshot = snapshot_of(tables, step);
    let effects = planned(snapshot, step)->Ok_0.effects;
    let flag = effects[0]->UpdateFlag_0;
    assert(effects =~= seq![EffectView::UpdateFlag(flag)]);
    lemma_one_effect(tables, effects[0]);
    let flag_key = step.operation.flags_read()[0];
    lemma_read_flag(tables, step, flag_key);
    let key = (step.organization_id, flag_key);
    let row = FlagRow { row_seq: tables.flags[key].row_seq, record: flag };
    lemma_bump_advances(tables.flags[key].record.revision);
    lemma_flag_written(tables, key, row);
}

proof fn lemma_read_environment(tables: Tables, step: StepView)
    requires
        tables.wf(),
        snapshot_of(tables, step).environment is Some,
    ensures
        ({
            let key = (step.organization_id, step.operation.environment_read());
            &&& tables.environments.contains_key(key)
            &&& environment_sound(tables, key)
            &&& snapshot_of(tables, step).environment->0 == tables.environments[key]
        }),
{
}

proof fn lemma_put(tables: Tables, step: StepView)
    requires
        tables.wf(),
        step.operation is PutEnvironment,
        planned(snapshot_of(tables, step), step) is Ok,
    ensures
        records_after(tables, step).wf(),
        records_kept(tables, records_after(tables, step)),
{
    let snapshot = snapshot_of(tables, step);
    let effects = planned(snapshot, step)->Ok_0.effects;
    let record = effects[0]->PutEnvironment_0;
    assert(effects =~= seq![EffectView::PutEnvironment(record)]);
    lemma_one_effect(tables, effects[0]);
    let key = (step.organization_id, step.operation.environment_read());
    lemma_first_revision();
    lemma_epoch_advanced(tables);
    let advanced = Tables { epoch: tables.epoch + 1, ..tables };
    if snapshot.environment is Some {
        lemma_read_environment(tables, step);
        lemma_bump_advances(tables.environments[key].revision);
    }
    lemma_environment_written(advanced, key, record);
    lemma_kept_transitive(tables, advanced, records_after(tables, step));
}

proof fn lemma_next_ruleset_revision(tables: Tables, step: StepView, flag_key: Seq<char>)
    requires
        tables.wf(),
        step.operation.flags_read().contains(flag_key),
        next_ruleset_revision(snapshot_of(tables, step).rulesets, flag_key) is Ok,
    ensures
        ({
            let key = (step.organization_id, flag_key, step.operation.environment_read());
            next_ruleset_revision(snapshot_of(tables, step).rulesets, flag_key)->Ok_0
                == integer_text(rulesets_of(tables, key).len() as int + 1)
        }),
{
    let key = (step.organization_id, flag_key, step.operation.environment_read());
    let published = rulesets_of(tables, key);
    lemma_first_revision();
    if published.len() > 0 {
        assert(tables.rulesets.contains_key(key));
        assert(rulesets_sound(tables, key));
        let last = published.len() - 1;
        assert(published[last].revision == integer_text(last + 1));
        lemma_integer_round_trip(last + 1);
    }
}

proof fn lemma_publish(tables: Tables, step: StepView)
    requires
        tables.wf(),
        step.operation is PublishRuleset,
        planned(snapshot_of(tables, step), step) is Ok,
    ensures
        records_after(tables, step).wf(),
        records_kept(tables, records_after(tables, step)),
{
    let snapshot = snapshot_of(tables, step);
    let effects = planned(snapshot, step)->Ok_0.effects;
    let flag = effects[0]->UpdateFlag_0;
    let environment = effects[1]->PutEnvironment_0;
    let definition = effects[2]->InsertRuleset_0;
    let publication = effects[2]->InsertRuleset_1;
    assert(effects =~= seq![
        EffectView::UpdateFlag(flag),
        EffectView::PutEnvironment(environment),
        EffectView::InsertRuleset(definition, publication),
    ]);
    lemma_three_effects(tables, effects[0], effects[1], effects[2]);
    let flag_key = step.operation.flags_read()[0];
    assert(step.operation.flags_read().contains(flag_key));
    let environment_key = step.operation.environment_read();
    lemma_read_flag(tables, step, flag_key);
    lemma_read_environment(tables, step);
    let key = (step.organization_id, flag_key);
    let row = FlagRow { row_seq: tables.flags[key].row_seq, record: flag };
    lemma_bump_advances(tables.flags[key].record.revision);
    lemma_flag_written(tables, key, row);
    let first = Tables { epoch: tables.epoch + 1, flags: tables.flags.insert(key, row), ..tables };
    let place = (step.organization_id, environment_key);
    lemma_bump_advances(tables.environments[place].revision);
    lemma_environment_written(first, place, environment);
    let second = Tables { environments: first.environments.insert(place, environment), ..first };
    lemma_next_ruleset_revision(tables, step, flag_key);
    let published = PublishedView { revision: publication.ruleset_revision, definition };
    let slot = (step.organization_id, flag_key, environment_key);
    assert(rulesets_of(second, slot) == rulesets_of(tables, slot));
    lemma_ruleset_published(second, slot, published);
    lemma_kept_transitive(tables, first, second);
    lemma_kept_transitive(tables, second, records_after(tables, step));
}

/// Every step keeps the store sound, and what was there before it; and it advances the epoch by
/// one.
pub proof fn lemma_step_keeps(tables: Tables, step: StepView, after: Tables)
    requires
        tables.wf(),
        performed(tables, step, after),
    ensures
        after.wf(),
        later(tables, after),
        after.epoch == tables.epoch + 1,
{
    let records = records_after(tables, step);
    let changes = planned(snapshot_of(tables, step), step)->Ok_0;
    match step.operation {
        OperationView::CreateFlag { .. } => lemma_create(tables, step),
        OperationView::UpdateFlag { .. } => lemma_update_or_archive(tables, step),
        OperationView::ArchiveFlag { .. } => lemma_update_or_archive(tables, step),
        OperationView::PutEnvironment { .. } => lemma_put(tables, step),
        OperationView::PublishRuleset { .. } => lemma_publish(tables, step),
        OperationView::Evaluate { .. } => {
            assert(changes.effects =~= Seq::<EffectView>::empty());
            assert(after_effects(tables, changes.effects) == tables);
            lemma_epoch_advanced(tables);
        },
    }
    assert(after.flags == records.flags);
    assert(after.environments == records.environments);
    assert(after.rulesets == records.rulesets);
    assert forall|key: (Seq<char>, Seq<char>)| #[trigger]
        after.flags.contains_key(key) implies flag_sound(after, key) by {
        assert(records.flags.contains_key(key));
        assert(flag_sound(records, key));
    }
    assert forall|key: (Seq<char>, Seq<char>)| #[trigger]
        after.environments.contains_key(key) implies environment_sound(after, key) by {
        assert(records.environments.contains_key(key));
        assert(environment_sound(records, key));
    }
    assert forall|key: (Seq<char>, Seq<char>, Seq<char>)| #[trigger]
        after.rulesets.contains_key(key) implies rulesets_sound(after, key) by {
        assert(records.rulesets.contains_key(key));
        assert(rulesets_sound(records, key));
    }
    assert(tables.receipts =~= after.receipts.subrange(0, tables.receipts.len() as int));
}

/// A fresh store is sound.
pub proof fn lemma_fresh_store_is_sound()
    ensures
        Tables::fresh().wf(),
{
}

/// A run of the store: from each state a step was performed that led to the next.
pub open spec fn history(states: Seq<Tables>, steps: Seq<StepView>) -> bool {
    &&& states.len() == steps.len() + 1
    &&& forall|i: int|
        0 <= i < steps.len() ==> performed(states[i], #[trigger] steps[i], states[i + 1])
}

/// In every run that starts sound, every state is sound, and every state keeps what the states
/// before it held.
pub proof fn lemma_history_is_kept(states: Seq<Tables>, steps: Seq<StepView>, i: int, j: int)
    requires
        history(states, steps),
        states[0].wf(),
        0 <= i <= j < states.len(),
    ensures
        states[i].wf(),
        states[j].wf(),
        later(states[i], states[j]),
        states[j].epoch == states[i].epoch + j - i,
    decreases j,
{
    if j == 0 {
        lemma_records_kept_reflexive(states[0]);
        assert(states[0].receipts =~= states[0].receipts.subrange(
            0,
            states[0].receipts.len() as int,
        ));
    } else if i < j {
        lemma_history_is_kept(states, steps, i, j - 1);
        assert(performed(states[j - 1], steps[j - 1], states[j]));
        lemma_step_keeps(states[j - 1], steps[j - 1], states[j]);
        lemma_later_transitive(states[i], states[j - 1], states[j]);
    } else {
        lemma_history_is_kept(states, steps, j - 1, j - 1);
        assert(performed(states[j - 1], steps[j - 1], states[j]));
        lemma_step_keeps(states[j - 1], steps[j - 1], states[j]);
        lemma_records_kept_reflexive(states[j]);
        assert(states[j].receipts =~= states[j].receipts.subrange(
            0,
            states[j].receipts.len() as int,
        ));
    }
}

/// Once a command is committed, it is answered from what was stored, at any later time: the same
/// request gets the stored response, and another request under the same key gets a conflict. It is
/// never committed again.
pub proof fn lemma_command_replays(
    tables: Tables,
    step: StepView,
    after: Tables,
    state: Tables,
    again: StepView,
)
    requires
        tables.wf(),
        performed(tables, step, after),
        later(after, state),
        again.key() == step.key(),
    ensures
        replay_of(snapshot_of(state, again).command, again.command) == if again.command.hash
            == step.command.hash {
            Ok::<Option<Seq<char>>, ErrorView>(Some(step.response))
        } else {
            Err(ErrorView::Domain(DomainFailure::IdempotencyConflict))
        },
        forall|other: Tables| !performed(state, again, other),
{
    assert(after.commands.contains_key(step.key()));
    lemma_stored_command_replays(step.command.hash, step.response, again.command);
}

/// A command is its caller's, its actor's and its operation's own: under another key nothing
/// changes of what is answered from the store.
pub proof fn lemma_commands_are_scoped(
    tables: Tables,
    step: StepView,
    after: Tables,
    other: StepView,
)
    requires
        performed(tables, step, after),
        other.key() != step.key(),
    ensures
        snapshot_of(after, other).command == snapshot_of(tables, other).command,
{
}

/// Of two commits that were decided on the same state only one takes effect: once one has, the
/// other fails at any later time, and nothing of it is written.
pub proof fn lemma_stale_commit_fails(
    tables: Tables,
    step: StepView,
    after: Tables,
    state: Tables,
    stale: StepView,
)
    requires
        tables.wf(),
        performed(tables, step, after),
        later(after, state),
        planned(snapshot_of(tables, stale), stale) is Ok,
    ensures
        committed(
            state,
            snapshot_of(tables, stale).epoch,
            stale.key(),
            StoredCommand { hash: stale.command.hash, response: stale.response },
            stale.organization_id,
            planned(snapshot_of(tables, stale), stale)->Ok_0,
        ) is None,
{
    lemma_step_keeps(tables, step, after);
}

/// The flag that a step changes at an expected revision, with that revision; nothing for a step
/// that changes no flag so.
pub open spec fn flag_expectation(step: StepView) -> Option<((Seq<char>, Seq<char>), int)> {
    match step.operation {
        OperationView::UpdateFlag { flag_key, expected_revision, .. } => Some(
            ((step.organization_id, flag_key), expected_revision),
        ),
        OperationView::ArchiveFlag { flag_key, expected_revision } => Some(
            ((step.organization_id, flag_key), expected_revision),
        ),
        OperationView::PublishRuleset { flag_key, expected_flag_revision, .. } => Some(
            ((step.organization_id, flag_key), expected_flag_revision),
        ),
        _ => None,
    }
}

proof fn lemma_flag_advances(tables: Tables, step: StepView, after: Tables)
    requires
        tables.wf(),
        performed(tables, step, after),
        flag_expectation(step) is Some,
    ensures
        ({
            let (key, expected) = flag_expectation(step)->0;
            &&& tables.flags.contains_key(key)
            &&& !tables.flags[key].record.archived
            &&& revision_of(tables.flags[key].record.revision) == Ok::<i64, ErrorView>(
                expected as i64,
            )
            &&& revision_of(tables.flags[key].record.revision)->Ok_0 == expected
            &&& after.flags.contains_key(key)
            &&& revision_of(after.flags[key].record.revision) is Ok
            &&& revision_of(after.flags[key].record.revision)->Ok_0 == expected + 1
            &&& after.flags[key].record.archived == (step.operation is ArchiveFlag)
        }),
{
    let (key, expected) = flag_expectation(step)->0;
    let flag_key = step.operation.flags_read()[0];
    assert(key == (step.organization_id, flag_key));
    lemma_read_flag(tables, step, flag_key);
    lemma_bump_advances(tables.flags[key].record.revision);
    let effects = planned(snapshot_of(tables, step), step)->Ok_0.effects;
    let flag = effects[0]->UpdateFlag_0;
    if step.operation is PublishRuleset {
        assert(effects =~= seq![effects[0], effects[1], effects[2]]);
        lemma_three_effects(tables, effects[0], effects[1], effects[2]);
    } else {
        assert(effects =~= seq![effects[0]]);
        lemma_one_effect(tables, effects[0]);
    }
    assert(after.flags == tables.flags.insert(
        key,
        FlagRow { row_seq: tables.flags[key].row_seq, record: flag },
    ));
}

/// A flag is changed at the revision that was expected and at no other, and goes on to the next.
pub proof fn lemma_flag_changes_at_its_revision(tables: Tables, step: StepView, after: Tables)
    requires
        tables.wf(),
        performed(tables, step, after),
        flag_expectation(step) is Some,
    ensures
        ({
            let (key, expected) = flag_expectation(step)->0;
            &&& tables.flags.contains_key(key) && after.flags.contains_key(key)
            &&& !tables.flags[key].record.archived
            &&& revision_of(tables.flags[key].record.revision)->Ok_0 == expected
            &&& revision_of(after.flags[key].record.revision)->Ok_0 == expected + 1
            &&& after.flags[key].record.archived == (step.operation is ArchiveFlag)
        }),
{
    lemma_flag_advances(tables, step, after);
}

/// Of two changes of a flag at the same expected revision only one is made: once one has been, the
/// other is refused at any later time, as a conflict or because the flag is archived by then.
pub proof fn lemma_second_change_is_refused(
    tables: Tables,
    step: StepView,
    after: Tables,
    state: Tables,
    second: StepView,
)
    requires
        tables.wf(),
        performed(tables, step, after),
        later(after, state),
        state.wf(),
        flag_expectation(step) is Some,
        flag_expectation(second) == flag_expectation(step),
    ensures
        ({
            let (key, _) = flag_expectation(step)->0;
            planned(snapshot_of(state, second), second) == Err::<Changes, ErrorView>(
                ErrorView::Domain(
                    if state.flags[key].record.archived {
                        DomainFailure::Archived
                    } else {
                        DomainFailure::RevisionConflict
                    },
                ),
            )
        }),
{
    let (key, expected) = flag_expectation(step)->0;
    lemma_flag_advances(tables, step, after);
    assert(after.flags.contains_key(key));
    assert(state.flags.contains_key(key));
    assert(flag_kept(after.flags[key], state.flags[key]));
    assert(flag_sound(state, key));
    assert(second.operation.flags_read()[0] == key.1);
    assert(snapshot_of(state, second).flags.contains_key(key.1));
}

/// An archived flag is final: at any later time it is as it was, and whatever would change it, or
/// publish a ruleset for it, is refused because it is archived.
pub proof fn lemma_archived_flag_is_final(
    tables: Tables,
    state: Tables,
    key: (Seq<char>, Seq<char>),
    step: StepView,
)
    requires
        later(tables, state),
        tables.flags.contains_key(key),
        tables.flags[key].record.archived,
    ensures
        state.flags.contains_key(key) && state.flags[key] == tables.flags[key],
        flag_expectation(step) matches Some((flag, _)) && flag == key ==> planned(
            snapshot_of(state, step),
            step,
        ) == Err::<Changes, ErrorView>(ErrorView::Domain(DomainFailure::Archived)),
{
    assert(flag_kept(tables.flags[key], state.flags[key]));
    if let Some((flag, _)) = flag_expectation(step) {
        if flag == key {
            assert(step.operation.flags_read()[0] == key.1);
            assert(snapshot_of(state, step).flags.contains_key(key.1));
        }
    }
}

/// The environment that a step changes at an expected revision, with that revision; nothing for a
/// step that changes no environment so.
pub open spec fn environment_expectation(step: StepView) -> Option<
    ((Seq<char>, Seq<char>), int),
> {
    match step.operation {
        OperationView::PutEnvironment { environment_key, expected_revision, .. } => {
            match expected_revision {
                Some(expected) => Some(((step.organization_id, environment_key), expected)),
                None => None,
            }
        },
        OperationView::PublishRuleset { environment_key, expected_environment_revision, .. } => {
            Some(((step.organization_id, environment_key), expected_environment_revision))
        },
        _ => None,
    }
}

/// An environment is changed at the revision that was expected and at no other, and goes on to the
/// next.
pub proof fn lemma_environment_changes_at_its_revision(
    tables: Tables,
    step: StepView,
    after: Tables,
)
    requires
        tables.wf(),
        performed(tables, step, after),
        environment_expectation(step) is Some,
    ensures
        ({
            let (key, expected) = environment_expectation(step)->0;
            &&& tables.environments.contains_key(key) && after.environments.contains_key(key)
            &&& revision_of(tables.environments[key].revision)->Ok_0 == expected
            &&& revision_of(after.environments[key].revision) is Ok
            &&& revision_of(after.environments[key].revision)->Ok_0 == expected + 1
        }),
{
    let (key, expected) = environment_expectation(step)->0;
    let effects = planned(snapshot_of(tables, step), step)->Ok_0.effects;
    lemma_read_environment(tables, step);
    lemma_bump_advances(tables.environments[key].revision);
    if step.operation is PublishRuleset {
        assert(effects =~= seq![effects[0], effects[1], effects[2]]);
        lemma_three_effects(tables, effects[0], effects[1], effects[2]);
        let record = effects[1]->PutEnvironment_0;
        assert(after.environments == tables.environments.insert(key, record));
    } else {
        assert(effects =~= seq![effects[0]]);
        lemma_one_effect(tables, effects[0]);
        let record = effects[0]->PutEnvironment_0;
        assert(after.environments == tables.environments.insert(key, record));
    }
}

/// Of two changes of an environment at the same expected revision only one is made: once one has
/// been, a put at that revision is a conflict at any later time.
pub proof fn lemma_second_put_is_refused(
    tables: Tables,
    step: StepView,
    after: Tables,
    state: Tables,
    second: StepView,
)
    requires
        tables.wf(),
        performed(tables, step, after),
        later(after, state),
        state.wf(),
        environment_expectation(step) is Some,
        environment_expectation(second) == environment_expectation(step),
        second.operation is PutEnvironment,
        second.now is Ok,
    ensures
        planned(snapshot_of(state, second), second) == Err::<Changes, ErrorView>(
            ErrorView::Domain(DomainFailure::RevisionConflict),
        ),
{
    let (key, expected) = environment_expectation(step)->0;
    lemma_environment_changes_at_its_revision(tables, step, after);
    assert(after.environments.contains_key(key));
    assert(state.environments.contains_key(key));
    assert(environment_kept(after.environments[key], state.environments[key]));
    assert(environment_sound(state, key));
    assert(snapshot_of(state, second).environment is Some);
}

/// A publication puts its ruleset after those that were published before, which stay as they were,
/// under the next number; it advances the flag and the environment by one each; and from then on
/// evaluations see it.
pub proof fn lemma_publication_takes_its_place(
    tables: Tables,
    step: StepView,
    after: Tables,
    reader: StepView,
)
    requires
        tables.wf(),
        performed(tables, step, after),
        step.operation is PublishRuleset,
        reader.organization_id == step.organization_id,
        reader.operation.flags_read().contains(step.operation->PublishRuleset_flag_key),
        reader.operation.environment_read() == step.operation->PublishRuleset_environment_key,
    ensures
        ({
            let flag = step.operation->PublishRuleset_flag_key;
            let environment = step.operation->PublishRuleset_environment_key;
            let place = (step.organization_id, flag, environment);
            let before = rulesets_of(tables, place);
            let published = PublishedView {
                revision: integer_text(before.len() as int + 1),
                definition: step.operation->definition,
            };
            &&& rulesets_of(after, place) == before.push(published)
            &&& revision_of(
                after.flags[(step.organization_id, flag)].record.revision,
            )->Ok_0 == revision_of(
                tables.flags[(step.organization_id, flag)].record.revision,
            )->Ok_0 + 1
            &&& revision_of(
                after.environments[(step.organization_id, environment)].revision,
            )->Ok_0 == revision_of(
                tables.environments[(step.organization_id, environment)].revision,
            )->Ok_0 + 1
            &&& snapshot_ruleset(snapshot_of(after, reader), flag) == Some(published)
        }),
{
    let flag = step.operation->PublishRuleset_flag_key;
    let environment = step.operation->PublishRuleset_environment_key;
    let place = (step.organization_id, flag, environment);
    lemma_flag_advances(tables, step, after);
    lemma_environment_changes_at_its_revision(tables, step, after);
    let effects = planned(snapshot_of(tables, step), step)->Ok_0.effects;
    assert(effects =~= seq![effects[0], effects[1], effects[2]]);
    lemma_three_effects(tables, effects[0], effects[1], effects[2]);
    assert(step.operation.flags_read()[0] == flag);
    lemma_next_ruleset_revision(tables, step, flag);
}

/// On a sound store an evaluation is refused only for want of a flag, an environment or a ruleset,
/// or because the flag is archived: a published ruleset is never found invalid.
pub proof fn lemma_published_rulesets_stay_valid(
    tables: Tables,
    step: StepView,
    flag_key: Seq<char>,
)
    requires
        tables.wf(),
    ensures
        ({
            let snapshot = snapshot_of(tables, step);
            let refusal = evaluation_refusal(
                snapshot_flag(snapshot, flag_key),
                snapshot.environment is Some,
                snapshot_ruleset(snapshot, flag_key),
            );
            refusal is None || refusal == Some(DomainFailure::FlagNotFound) || refusal == Some(
                DomainFailure::Archived,
            ) || refusal == Some(DomainFailure::EnvironmentNotFound) || refusal == Some(
                DomainFailure::NoPublishedRuleset,
            )
        }),
{
    let snapshot = snapshot_of(tables, step);
    if snapshot.flags.contains_key(flag_key) && snapshot.rulesets.contains_key(flag_key) {
        let place = (step.organization_id, flag_key, step.operation.environment_read());
        assert(tables.rulesets.contains_key(place));
        assert(rulesets_sound(tables, place));
        let published = tables.rulesets[place];
        let last = published.len() - 1;
        assert(published[last] == published.last());
        assert(ruleset_failure(
            tables.flags[(place.0, place.1)].record.value_type,
            published[last].definition,
        ) is None);
    }
}

/// An evaluation changes no flag, environment or ruleset. It adds one receipt per flag, in the
/// order asked for; and a refused one adds none.
pub proof fn lemma_evaluation_only_adds_receipts(tables: Tables, step: StepView, after: Tables)
    requires
        performed(tables, step, after),
        step.operation is Evaluate,
    ensures
        after.flags == tables.flags,
        after.environments == tables.environments,
        after.rulesets == tables.rulesets,
        after.receipts.len() == tables.receipts.len() + step.operation->flags.len(),
        forall|i: int|
            0 <= i < step.operation->flags.len() ==> (#[trigger] after.receipts[tables.receipts.len()
                + i]).organization_id == step.organization_id && after.receipts[tables.receipts.len()
                + i].receipt.flag_key == step.operation->flags[i],
{
    let request = step.operation->request;
    let flags = step.operation->flags;
    let snapshot = snapshot_of(tables, step);
    lemma_batch_is_whole(snapshot, request, flags, step.stamps);
    let changes = planned(snapshot, step)->Ok_0;
    assert(after_effects(tables, changes.effects) == tables);
    let done = all_evaluated(snapshot, request, flags, step.stamps)->Ok_0;
    assert forall|i: int| 0 <= i < flags.len() implies (
    #[trigger] after.receipts[tables.receipts.len() + i]).organization_id == step.organization_id
        && after.receipts[tables.receipts.len() + i].receipt.flag_key == flags[i] by {
        let row = after.receipts[tables.receipts.len() + i];
        assert(row == ReceiptRow {
            organization_id: step.organization_id,
            receipt: changes.receipts[i],
        });
        assert(done.receipts[i].flag_key == done.records[i].flag_key);
        assert(flag_answer(snapshot, request, flags[i], step.stamps[i]) == Ok::<
            EvaluationView,
            ErrorView,
        >(done.records[i]));
    }
}

/// A new flag stands after all others, at the first revision and not archived; and from then on
/// its key is taken.
pub proof fn lemma_new_flag_comes_last(
    tables: Tables,
    step: StepView,
    after: Tables,
    state: Tables,
    second: StepView,
)
    requires
        tables.wf(),
        performed(tables, step, after),
        step.operation is CreateFlag,
        later(after, state),
        second.operation is CreateFlag,
        second.organization_id == step.organization_id,
        second.operation->CreateFlag_flag_key == step.operation->CreateFlag_flag_key,
    ensures
        ({
            let key = (step.organization_id, step.operation->CreateFlag_flag_key);
            &&& !tables.flags.contains_key(key)
            &&& after.flags.contains_key(key)
            &&& revision_of(after.flags[key].record.revision) == Ok::<i64, ErrorView>(1)
            &&& !after.flags[key].record.archived
            &&& after.flags[key].record.value_type == step.operation->value_type
            &&& forall|other: (Seq<char>, Seq<char>)| #[trigger]
                tables.flags.contains_key(other) ==> tables.flags[other].row_seq
                    < after.flags[key].row_seq
        }),
        planned(snapshot_of(state, second), second) == Err::<Changes, ErrorView>(
            ErrorView::Domain(DomainFailure::AlreadyExists),
        ),
{
    let key = (step.organization_id, step.operation->CreateFlag_flag_key);
    let snapshot = snapshot_of(tables, step);
    let effects = planned(snapshot, step)->Ok_0.effects;
    let flag = effects[0]->InsertFlag_0;
    assert(effects =~= seq![effects[0]]);
    lemma_one_effect(tables, effects[0]);
    lemma_first_revision();
    assert(step.operation.flags_read()[0] == key.1);
    assert(second.operation.flags_read()[0] == key.1);
    assert(!snapshot.flags.contains_key(key.1));
    assert(after.flags == tables.flags.insert(
        key,
        FlagRow { row_seq: flag.row_seq, record: flag },
    ));
    assert forall|other: (Seq<char>, Seq<char>)| #[trigger]
        tables.flags.contains_key(other) implies tables.flags[other].row_seq
        < after.flags[key].row_seq by {
        assert(flag_sound(tables, other));
    }
    assert(after.flags.contains_key(key));
    assert(snapshot_of(state, second).flags.contains_key(key.1));
}

/// The flag that a write answers with; nothing for a write that answers with none.
pub open spec fn answered_flag(snapshot: SnapshotView, step: StepView) -> Option<FlagView> {
    let plan = match step.operation {
        OperationView::CreateFlag { flag_key, name, description, value_type } => create_plan_of(
            snapshot,
            step.organization_id,
            flag_key,
            name,
            description,
            value_type,
            step.now,
        ),
        OperationView::UpdateFlag { flag_key, expected_revision, name, description } => {
            update_plan_of(snapshot, flag_key, expected_revision, name, description, step.now)
        },
        OperationView::ArchiveFlag { flag_key, expected_revision } => archive_plan_of(
            snapshot,
            flag_key,
            expected_revision,
            step.now,
        ),
        _ => refused(DomainFailure::NotFound),
    };
    match plan {
        Ok(plan) => Some(plan.response),
        Err(_) => None,
    }
}

/// The flag that a write answers with is the flag that the store then holds: whoever reads it next
/// reads that record.
pub proof fn lemma_flag_is_read_back(
    tables: Tables,
    step: StepView,
    after: Tables,
    reader: StepView,
)
    requires
        tables.wf(),
        performed(tables, step, after),
        step.operation is CreateFlag || step.operation is UpdateFlag
            || step.operation is ArchiveFlag,
        reader.organization_id == step.organization_id,
        reader.operation.flags_read().contains(step.operation.flags_read()[0]),
    ensures
        ({
            let flag_key = step.operation.flags_read()[0];
            let seen = snapshot_of(after, reader).flags;
            &&& answered_flag(snapshot_of(tables, step), step) is Some
            &&& seen.contains_key(flag_key)
            &&& seen[flag_key] == answered_flag(snapshot_of(tables, step), step)->0
        }),
{
    let snapshot = snapshot_of(tables, step);
    let effects = planned(snapshot, step)->Ok_0.effects;
    let flag_key = step.operation.flags_read()[0];
    let key = (step.organization_id, flag_key);
    assert(effects =~= seq![effects[0]]);
    lemma_one_effect(tables, effects[0]);
    if !(step.operation is CreateFlag) {
        lemma_read_flag(tables, step, flag_key);
    }
    assert(after.flags.contains_key(key));
}

/// The environment that a put answers with; nothing where it answers with none.
pub open spec fn answered_environment(snapshot: SnapshotView, step: StepView) -> Option<
    EnvironmentView,
> {
    match step.operation {
        OperationView::PutEnvironment { environment_key, name, expected_revision } => match (
            put_plan_of(
                snapshot,
                step.organization_id,
                environment_key,
                name,
                expected_revision,
                step.now,
            )) {
            Ok(plan) => Some(plan.response),
            Err(_) => None,
        },
        _ => None,
    }
}

/// The environment that a put answers with is the environment that the store then holds: whoever
/// reads it next reads that record.
pub proof fn lemma_environment_is_read_back(
    tables: Tables,
    step: StepView,
    after: Tables,
    reader: StepView,
)
    requires
        tables.wf(),
        performed(tables, step, after),
        step.operation is PutEnvironment,
        reader.organization_id == step.organization_id,
        reader.operation.environment_read() == step.operation.environment_read(),
    ensures
        answered_environment(snapshot_of(tables, step), step) is Some,
        snapshot_of(after, reader).environment == answered_environment(
            snapshot_of(tables, step),
            step,
        ),
{
    let snapshot = snapshot_of(tables, step);
    let effects = planned(snapshot, step)->Ok_0.effects;
    assert(effects =~= seq![effects[0]]);
    lemma_one_effect(tables, effects[0]);
    if snapshot.environment is Some {
        lemma_read_environment(tables, step);
    }
    let key = (step.organization_id, step.operation.environment_read());
    assert(after.environments.contains_key(key));
}

/// The records of the flags that are stored.
pub open spec fn stored_flags(tables: Tables) -> Set<FlagView> {
    Set::new(
        |flag: FlagView|
            tables.flags.contains_key((flag.organization_id, flag.flag_key)) && tables.flags[(
                flag.organization_id,
                flag.flag_key,
            )].record == flag,
    )
}

/// Pages of a sound store's flags leave no gap and never overlap: a page, and the page that is asked
/// for after its last flag, are what one page of as many holds. Each flag is the organization's,
/// archived only where asked for, and they go up row by row from behind the given one.
pub proof fn lemma_flag_pages_join(
    tables: Tables,
    organization_id: Seq<char>,
    include_archived: bool,
    after: Option<i64>,
    limit: int,
    page: Seq<FlagView>,
    more: int,
    next: Seq<FlagView>,
    whole: Seq<FlagView>,
)
    requires
        tables.wf(),
        page.len() > 0,
        i64::MIN <= page.last().row_seq <= i64::MAX,
        reads_flags(
            flag_page_query_of(organization_id, include_archived, after, limit),
            stored_flags(tables),
            page,
        ),
        reads_flags(
            flag_page_query_of(
                organization_id,
                include_archived,
                Some(page.last().row_seq as i64),
                more,
            ),
            stored_flags(tables),
            next,
        ),
        reads_flags(
            flag_page_query_of(organization_id, include_archived, after, page.len() + more),
            stored_flags(tables),
            whole,
        ),
    ensures
        whole == page + next,
        forall|i: int|
            0 <= i < whole.len() ==> (#[trigger] whole[i]).organization_id == organization_id && (
            include_archived || !whole[i].archived) && page_start(after) < whole[i].row_seq,
        forall|i: int, j: int|
            0 <= i < j < whole.len() ==> (#[trigger] whole[i]).row_seq < (
            #[trigger] whole[j]).row_seq,
{
    let rows = listed_flags(stored_flags(tables), organization_id, include_archived);
    assert forall|a: FlagView, b: FlagView| #[trigger]
        rows.contains(a) && #[trigger] rows.contains(b) && flag_place()(a) == flag_place()(
            b,
        ) implies a == b by {
        let x = (a.organization_id, a.flag_key);
        let y = (b.organization_id, b.flag_key);
        assert(tables.flags.contains_key(x) && tables.flags.contains_key(y));
        assert(flag_sound(tables, x) && flag_sound(tables, y));
    }
    lemma_page_continues(
        rows,
        flag_place(),
        page_start(after),
        limit,
        page,
        more,
        next,
        whole,
    );
    assert forall|i: int| 0 <= i < whole.len() implies (#[trigger] whole[i]).organization_id
        == organization_id && (include_archived || !whole[i].archived) && page_start(after)
        < whole[i].row_seq by {
        assert(rows.contains(whole[i]));
        assert(flag_place()(whole[i]) == whole[i].row_seq);
    }
    assert forall|i: int, j: int| 0 <= i < j < whole.len() implies (#[trigger] whole[i]).row_seq < (
    #[trigger] whole[j]).row_seq by {
        assert(flag_place()(whole[i]) < flag_place()(whole[j]));
    }
}

} // verus!
