//! What an operation on D1 sees of the store, and how its commit is answered.

use vstd::prelude::*;
use crate::d1::commit::{step_of, ActionView, EventView, Stage};
use crate::d1::evaluate::{all_evaluated, evaluation_decided, EvaluationDecisionView};
use crate::d1::revision::failure_view;
use crate::d1::rows::{
    command_row, lemma_stored_command_replays, replay_of, row_view, rows_view, ruleset_row_of,
    ColumnView, Row,
};
use crate::d1::snapshot::{
    assembled, collected_flags, collected_rulesets, epoch_of, splits, SnapshotRows, SnapshotView,
};
use crate::d1::statement::command_query_of;
use crate::d1::wire::{all_succeeded, Receipt};
use crate::decimal::i64_value;
use crate::domain::{
    Command, CommandView, DomainFailure, EnvironmentView, ErrorView, FlagView, PublishedView,
};
use crate::evaluation::{RequestView, StampView};
use crate::json::{json_bytes, lemma_json_bytes_injective};

verus! {

/// The flag at the position is the last with its key.
pub open spec fn last_flag(flags: Seq<Result<FlagView, ErrorView>>, i: int) -> bool {
    &&& 0 <= i < flags.len()
    &&& flags[i] is Ok
    &&& forall|j: int|
        i < j < flags.len() ==> (#[trigger] flags[j])->Ok_0.flag_key != flags[i]->Ok_0.flag_key
}

/// Flags are found under their own keys: where every row was read, each key of a flag, and no
/// other, leads to the last flag that has it; and where a row was not, the first such row's error
/// is the answer.
pub proof fn lemma_flags_stand_under_their_keys(flags: Seq<Result<FlagView, ErrorView>>)
    ensures
        match collected_flags(flags) {
            Ok(map) => {
                &&& forall|i: int| 0 <= i < flags.len() ==> (#[trigger] flags[i]) is Ok
                &&& forall|i: int|
                    0 <= i < flags.len() ==> map.contains_key((#[trigger] flags[i])->Ok_0.flag_key)
                &&& forall|key: Seq<char>| #[trigger]
                    map.contains_key(key) ==> exists|i: int| #[trigger]
                        last_flag(flags, i) && flags[i]->Ok_0.flag_key == key
                &&& forall|i: int| #[trigger]
                    last_flag(flags, i) ==> map[flags[i]->Ok_0.flag_key] == flags[i]->Ok_0
            },
            Err(error) => exists|i: int|
                0 <= i < flags.len() && #[trigger] flags[i] == Err::<FlagView, ErrorView>(error)
                    && forall|j: int| 0 <= j < i ==> (#[trigger] flags[j]) is Ok,
        },
    decreases flags.len(),
{
    if flags.len() > 0 {
        let before = flags.drop_last();
        let last = flags.len() - 1;
        lemma_flags_stand_under_their_keys(before);
        assert forall|i: int| 0 <= i < last implies before[i] == #[trigger] flags[i] by {}
        match collected_flags(before) {
            Err(error) => {
                let i = choose|i: int|
                    0 <= i < before.len() && #[trigger] before[i] == Err::<FlagView, ErrorView>(
                        error,
                    ) && forall|j: int| 0 <= j < i ==> (#[trigger] before[j]) is Ok;
                assert(flags[i] == Err::<FlagView, ErrorView>(error));
                assert forall|j: int| 0 <= j < i implies (#[trigger] flags[j]) is Ok by {
                    assert(before[j] is Ok);
                }
            },
            Ok(map) => {
                assert forall|i: int| 0 <= i < last implies (#[trigger] flags[i]) is Ok by {
                    assert(before[i] is Ok);
                }
                if flags[last] is Ok {
                    let flag = flags[last]->Ok_0;
                    let whole = map.insert(flag.flag_key, flag);
                    assert(collected_flags(flags) == Ok::<Map<Seq<char>, FlagView>, ErrorView>(
                        whole,
                    ));
                    assert forall|i: int| 0 <= i < flags.len() implies whole.contains_key(
                        (#[trigger] flags[i])->Ok_0.flag_key,
                    ) by {
                        if i < last {
                            assert(map.contains_key(before[i]->Ok_0.flag_key));
                        }
                    }
                    assert forall|key: Seq<char>| #[trigger]
                        whole.contains_key(key) implies exists|i: int| #[trigger]
                        last_flag(flags, i) && flags[i]->Ok_0.flag_key == key by {
                        if key == flag.flag_key {
                            assert(last_flag(flags, last));
                        } else {
                            let i = choose|i: int| #[trigger]
                                last_flag(before, i) && before[i]->Ok_0.flag_key == key;
                            assert(flags[i] == before[i]);
                            assert forall|j: int| i < j < flags.len() implies (
                            #[trigger] flags[j])->Ok_0.flag_key != key by {
                                if j < last {
                                    assert(before[j]->Ok_0.flag_key != key);
                                }
                            }
                            assert(last_flag(flags, i));
                        }
                    }
                    assert forall|i: int| #[trigger] last_flag(flags, i) implies whole[
                        flags[i]->Ok_0.flag_key
                    ] == flags[i]->Ok_0 by {
                        if i < last {
                            assert(flags[last]->Ok_0.flag_key != flags[i]->Ok_0.flag_key);
                            assert(before[i] == flags[i]);
                            assert forall|j: int| i < j < before.len() implies (
                            #[trigger] before[j])->Ok_0.flag_key != before[i]->Ok_0.flag_key by {
                                assert(flags[j]->Ok_0.flag_key != flags[i]->Ok_0.flag_key);
                            }
                            assert(last_flag(before, i));
                        }
                    }
                }
            },
        }
    }
}

/// Rulesets are found under their flags' keys: one more row puts its ruleset under its flag's key,
/// in place of what stood there, and leaves the others; and the first row that was not read is the
/// answer to all.
pub proof fn lemma_rulesets_stand_under_their_keys(
    rulesets: Seq<Result<(Seq<char>, PublishedView), ErrorView>>,
    key: Seq<char>,
    ruleset: PublishedView,
    error: ErrorView,
)
    ensures
        collected_rulesets(Seq::empty()) == Ok::<Map<Seq<char>, PublishedView>, ErrorView>(
            Map::empty(),
        ),
        match collected_rulesets(rulesets) {
            Ok(map) => {
                let more = collected_rulesets(rulesets.push(Ok((key, ruleset))));
                &&& more is Ok
                &&& more->Ok_0.contains_key(key) && more->Ok_0[key] == ruleset
                &&& forall|other: Seq<char>|
                    other != key ==> (#[trigger] more->Ok_0.contains_key(other)
                        <==> map.contains_key(other))
                &&& forall|other: Seq<char>|
                    other != key && map.contains_key(other) ==> #[trigger] more->Ok_0[other]
                        == map[other]
                &&& collected_rulesets(rulesets.push(Err(error))) == Err::<
                    Map<Seq<char>, PublishedView>,
                    ErrorView,
                >(error)
            },
            Err(first) => {
                &&& collected_rulesets(rulesets.push(Ok((key, ruleset)))) == Err::<
                    Map<Seq<char>, PublishedView>,
                    ErrorView,
                >(first)
                &&& collected_rulesets(rulesets.push(Err(error))) == Err::<
                    Map<Seq<char>, PublishedView>,
                    ErrorView,
                >(first)
            },
        },
{
    let more = rulesets.push(Ok((key, ruleset)));
    let bad = rulesets.push(Err(error));
    assert(more.drop_last() =~= rulesets);
    assert(bad.drop_last() =~= rulesets);
    assert(more.last() == Ok::<(Seq<char>, PublishedView), ErrorView>((key, ruleset)));
    assert(bad.last() == Err::<(Seq<char>, PublishedView), ErrorView>(error));
}

/// A snapshot holds what was read, each part in its place; and where a part was not read, the first
/// error in the order of flags, environment and rulesets is the answer.
pub proof fn lemma_snapshot_holds_what_was_read(
    epoch: int,
    command: Seq<Map<Seq<char>, ColumnView>>,
    flags: Seq<Result<FlagView, ErrorView>>,
    environment: Option<Result<EnvironmentView, ErrorView>>,
    rulesets: Seq<Result<(Seq<char>, PublishedView), ErrorView>>,
)
    ensures
        ({
            let snapshot = assembled(epoch, command, flags, environment, rulesets);
            if collected_flags(flags) is Err {
                snapshot == Err::<SnapshotView, ErrorView>(collected_flags(flags)->Err_0)
            } else if environment is Some && environment->0 is Err {
                snapshot == Err::<SnapshotView, ErrorView>(environment->0->Err_0)
            } else if collected_rulesets(rulesets) is Err {
                snapshot == Err::<SnapshotView, ErrorView>(collected_rulesets(rulesets)->Err_0)
            } else {
                &&& snapshot is Ok
                &&& snapshot->Ok_0.epoch == epoch
                &&& snapshot->Ok_0.command == command
                &&& snapshot->Ok_0.flags == collected_flags(flags)->Ok_0
                &&& (snapshot->Ok_0.environment is Some <==> environment is Some)
                &&& environment is Some ==> snapshot->Ok_0.environment->0
                    == environment->0->Ok_0
                &&& snapshot->Ok_0.rulesets == collected_rulesets(rulesets)->Ok_0
            }
        }),
{
}

/// The epoch is the positive number in the first row of the first set; anything else is a failure.
pub proof fn lemma_epoch_is_read(rows: Seq<Row>)
    ensures
        ({
            let text = rows[0]@["revision"@]->Text_0@;
            let there = rows.len() > 0 && rows[0]@.contains_key("revision"@)
                && rows[0]@["revision"@] is Text && i64_value(text) is Some && i64_value(text)->0
                > 0;
            &&& there ==> epoch_of(rows_view(rows)) is Ok && epoch_of(rows_view(rows))->Ok_0
                == i64_value(text)->0
            &&& !there ==> epoch_of(rows_view(rows)) == Err::<i64, ErrorView>(failure_view())
        }),
{
    if rows.len() > 0 {
        assert(rows_view(rows)[0] == row_view(rows[0]@));
    }
}

/// A ruleset's row gives the flag's key, the revision and the definition, each from its own column.
pub proof fn lemma_ruleset_row_is_read(row: Row)
    ensures
        ({
            let there = |name: Seq<char>| row@.contains_key(name) && row@[name] is Text;
            let read = ruleset_row_of(row_view(row@));
            if there("flag_key"@) && there("revision"@) && there("definition"@) {
                &&& read is Ok
                &&& read->Ok_0.flag_key == row@["flag_key"@]->Text_0@
                &&& read->Ok_0.revision == row@["revision"@]->Text_0@
                &&& read->Ok_0.definition == row@["definition"@]->Text_0@
            } else {
                read is Err && read->Err_0 == failure_view()
            }
        }),
{
}

/// A command is answered by its row: by the stored response where the row has the hash of the same
/// request, as a conflict where it has another or none, not at all without a row, and more than one
/// row is a failure.
pub proof fn lemma_command_is_answered_by_its_row(rows: Seq<Row>, command: Command<'_>)
    ensures
        ({
            let replay = replay_of(rows_view(rows), command@);
            let row = rows[0]@;
            if rows.len() == 0 {
                replay == Ok::<Option<Seq<char>>, ErrorView>(None)
            } else if rows.len() > 1 {
                replay == Err::<Option<Seq<char>>, ErrorView>(failure_view())
            } else if !row.contains_key("request_hash"@) || row["request_hash"@] is Other
                || row["request_hash"@]->Text_0@ != json_bytes(command.hash@) {
                replay == Err::<Option<Seq<char>>, ErrorView>(
                    ErrorView::Domain(DomainFailure::IdempotencyConflict),
                )
            } else if !row.contains_key("response"@) || row["response"@] is Other {
                replay == Err::<Option<Seq<char>>, ErrorView>(failure_view())
            } else {
                replay == Ok::<Option<Seq<char>>, ErrorView>(Some(row["response"@]->Text_0@))
            }
        }),
{
    if rows.len() > 0 {
        assert(rows_view(rows)[0] == row_view(rows[0]@));
    }
}

/// The hash of a request is told apart from that of any other by its JSON text.
pub proof fn lemma_hashes_are_told_apart(a: Command<'_>, b: Command<'_>)
    ensures
        json_bytes(a.hash@) == json_bytes(b.hash@) <==> a.hash@ == b.hash@,
{
    if json_bytes(a.hash@) == json_bytes(b.hash@) {
        lemma_json_bytes_injective(a.hash@, b.hash@);
    }
}

/// A commit submits its batch and answers what was submitted once the store took it. Where the
/// batch failed it reads the command's row: what is stored of the same request is the answer,
/// another request is a conflict, and where nothing is stored, or the row cannot be read, it is a
/// failure.
pub proof fn lemma_commit_goes_through(
    command: CommandView,
    operation: Seq<char>,
    hash: Seq<u8>,
    response: Seq<char>,
)
    ensures
        step_of(Stage::Ready, EventView::Begin, command, operation) == (
            Stage::Submitted,
            ActionView::Submit,
        ),
        step_of(Stage::Submitted, EventView::Accepted, command, operation) == (
            Stage::Done,
            ActionView::Answer,
        ),
        step_of(Stage::Submitted, EventView::Rejected, command, operation) == (
            Stage::Reconciling,
            ActionView::Read(command_query_of(command, operation)),
        ),
        step_of(Stage::Reconciling, EventView::Unread, command, operation) == (
            Stage::Done,
            ActionView::Fail(failure_view()),
        ),
        step_of(
            Stage::Reconciling,
            EventView::Found(seq![command_row(hash, response)]),
            command,
            operation,
        ) == (
            Stage::Done,
            if hash == command.hash {
                ActionView::AnswerStored(response)
            } else {
                ActionView::Fail(ErrorView::Domain(DomainFailure::IdempotencyConflict))
            },
        ),
        step_of(
            Stage::Reconciling,
            EventView::Found(Seq::<Map<Seq<char>, ColumnView>>::empty()),
            command,
            operation,
        ) == (Stage::Done, ActionView::Fail(failure_view())),
        forall|event: EventView| #[trigger]
            step_of(Stage::Done, event, command, operation) == (Stage::Done, ActionView::Ignore),
{
    lemma_stored_command_replays(hash, response, command);
}

/// What the store says of a failure warns that the write may have been committed, and tells how to
/// try again.
pub proof fn lemma_failure_warns()
    ensures
        failure_view() == ErrorView::Backend(
            "D1 operation failed; a submitted write may have committed; retry only with the same idempotency key"@,
        ),
{
}

/// The five sets of a snapshot's answer are, in order, the epoch, the command's rows, the flags,
/// the environment and the rulesets; of the environment's set the first row counts.
pub proof fn lemma_sets_stand_in_order(rows: SnapshotRows, sets: Seq<Vec<Row>>)
    requires
        sets.len() >= 5,
    ensures
        splits(rows, sets) <==> rows.command == sets[1] && rows.flags == sets[2] && rows.rulesets
            == sets[4] && (rows.environment is Some <==> sets[3]@.len() > 0) && (
        rows.environment is Some ==> rows.environment->0 == sets[3]@[0]),
{
}

/// The host's answer is taken exactly if it answered every statement, and each with success.
pub proof fn lemma_every_statement_must_succeed<R>(count: nat, receipts: Seq<Receipt<R>>)
    ensures
        all_succeeded(count, receipts) <==> receipts.len() == count && !exists|i: int|
            0 <= i < receipts.len() && !(#[trigger] receipts[i]).success,
{
}

/// An evaluation whose command is stored is answered from the store, and nothing is evaluated; one
/// whose command is not is evaluated, and refused for what its evaluation is refused for.
pub proof fn lemma_stored_evaluation_is_not_made_again(
    snapshot: SnapshotView,
    hash: Seq<u8>,
    response: Seq<char>,
    command: CommandView,
    request: RequestView,
    flags: Seq<Seq<char>>,
    stamps: Seq<StampView>,
)
    ensures
        snapshot.command == seq![command_row(hash, response)] ==> evaluation_decided(
            snapshot,
            command,
            request,
            flags,
            stamps,
        ) == if hash == command.hash {
            Ok::<EvaluationDecisionView, ErrorView>(EvaluationDecisionView::Replay(response))
        } else {
            Err(ErrorView::Domain(DomainFailure::IdempotencyConflict))
        },
        snapshot.command.len() == 0 ==> evaluation_decided(
            snapshot,
            command,
            request,
            flags,
            stamps,
        ) == match all_evaluated(snapshot, request, flags, stamps) {
            Ok(done) => Ok::<EvaluationDecisionView, ErrorView>(
                EvaluationDecisionView::Commit(done),
            ),
            Err(error) => Err(error),
        },
{
    lemma_stored_command_replays(hash, response, command);
}

} // verus!
