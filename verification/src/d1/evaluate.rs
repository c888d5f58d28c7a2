//! Evaluations on a snapshot: all flags of an operation are answered, or none.

use vstd::prelude::*;
use crate::domain::{
    outcome, texts, CommandView, ErrorView, EvaluationRecord, EvaluationView, PublishedView,
    StorageError,
};
use crate::evaluation::{
    evaluate_one, evaluated, evaluation_id, evaluation_id_of, receipt_draft,
    receipt_of_evaluation, request_subject, subject_of, DraftView, FlagState, FlagStateView,
    ReceiptDraft, Request, RequestView, Stamp, StampView,
};
use crate::stamp::{is_random_id, new_receipt_id, now, stamped};
use super::revision::{failure, failure_view};
use super::rows::{replay, replay_of};
use super::snapshot::{Snapshot, SnapshotView};

verus! {

/// The answers of an operation, flag by flag, and their receipts.
#[derive(Debug)]
pub struct Evaluations {
    pub records: Vec<EvaluationRecord>,
    pub receipts: Vec<ReceiptDraft>,
}

/// The model of `Evaluations`.
pub struct EvaluationsView {
    pub records: Seq<EvaluationView>,
    pub receipts: Seq<DraftView>,
}

impl View for Evaluations {
    type V = EvaluationsView;

    open spec fn view(&self) -> EvaluationsView {
        EvaluationsView {
            records: self.records@.map_values(|record: EvaluationRecord| record@),
            receipts: self.receipts@.map_values(|receipt: ReceiptDraft| receipt@),
        }
    }
}

/// What to do with an evaluation: answer what was stored for it, or commit it.
#[derive(Debug)]
pub enum EvaluationDecision {
    Replay(String),
    Commit(Evaluations),
}

/// The model of an `EvaluationDecision`.
pub enum EvaluationDecisionView {
    Replay(Seq<char>),
    Commit(EvaluationsView),
}

impl View for EvaluationDecision {
    type V = EvaluationDecisionView;

    open spec fn view(&self) -> EvaluationDecisionView {
        match *self {
            EvaluationDecision::Replay(response) => EvaluationDecisionView::Replay(response@),
            EvaluationDecision::Commit(evaluations) => EvaluationDecisionView::Commit(
                evaluations@,
            ),
        }
    }
}

/// What a snapshot says of a flag.
pub open spec fn snapshot_flag(snapshot: SnapshotView, key: Seq<char>) -> Option<FlagStateView> {
    if snapshot.flags.contains_key(key) {
        Some(
            FlagStateView {
                value_type: snapshot.flags[key].value_type,
                archived: snapshot.flags[key].archived,
            },
        )
    } else {
        None
    }
}

/// What a snapshot says of a flag's latest ruleset.
pub open spec fn snapshot_ruleset(snapshot: SnapshotView, key: Seq<char>) -> Option<
    PublishedView,
> {
    if snapshot.rulesets.contains_key(key) {
        Some(snapshot.rulesets[key])
    } else {
        None
    }
}

/// The answer for one flag of an operation.
pub open spec fn flag_answer(
    snapshot: SnapshotView,
    request: RequestView,
    flag_key: Seq<char>,
    stamp: StampView,
) -> Result<EvaluationView, ErrorView> {
    evaluated(
        snapshot_flag(snapshot, flag_key),
        snapshot.environment is Some,
        snapshot_ruleset(snapshot, flag_key),
        request_subject(request, flag_key),
        stamp,
    )
}

/// The answers for the flags of an operation, in order, and their receipts; or the first error.
pub open spec fn all_evaluated(
    snapshot: SnapshotView,
    request: RequestView,
    flags: Seq<Seq<char>>,
    stamps: Seq<StampView>,
) -> Result<EvaluationsView, ErrorView>
    decreases flags.len(),
{
    if flags.len() == 0 {
        Ok(EvaluationsView { records: seq![], receipts: seq![] })
    } else {
        match all_evaluated(snapshot, request, flags.drop_last(), stamps) {
            Err(error) => Err(error),
            Ok(before) => {
                let at = flags.len() - 1;
                match flag_answer(snapshot, request, flags[at], stamps[at]) {
                    Err(error) => Err(error),
                    Ok(record) => Ok(
                        EvaluationsView {
                            records: before.records.push(record),
                            receipts: before.receipts.push(
                                receipt_of_evaluation(
                                    record,
                                    evaluation_id_of(request.operation, request.key, at),
                                    request.context_hash,
                                ),
                            ),
                        },
                    ),
                }
            },
        }
    }
}

/// What to do with an evaluation.
pub open spec fn evaluation_decided(
    snapshot: SnapshotView,
    command: CommandView,
    request: RequestView,
    flags: Seq<Seq<char>>,
    stamps: Seq<StampView>,
) -> Result<EvaluationDecisionView, ErrorView> {
    match replay_of(snapshot.command, command) {
        Err(error) => Err(error),
        Ok(Some(response)) => Ok(EvaluationDecisionView::Replay(response)),
        Ok(None) => match all_evaluated(snapshot, request, flags, stamps) {
            Ok(evaluations) => Ok(EvaluationDecisionView::Commit(evaluations)),
            Err(error) => Err(error),
        },
    }
}

/// Stamps, each taken by its model.
pub open spec fn stamps_view(stamps: Seq<Stamp>) -> Seq<StampView> {
    stamps.map_values(|stamp: Stamp| stamp@)
}

proof fn lemma_error_stays(
    snapshot: SnapshotView,
    request: RequestView,
    flags: Seq<Seq<char>>,
    stamps: Seq<StampView>,
    k: int,
)
    requires
        0 <= k <= flags.len(),
        all_evaluated(snapshot, request, flags.take(k), stamps) is Err,
    ensures
        all_evaluated(snapshot, request, flags, stamps) == all_evaluated(
            snapshot,
            request,
            flags.take(k),
            stamps,
        ),
    decreases flags.len(),
{
    if k < flags.len() {
        assert(flags.take(k) =~= flags.drop_last().take(k));
        lemma_error_stays(snapshot, request, flags.drop_last(), stamps, k);
    } else {
        assert(flags.take(k) =~= flags);
    }
}

/// Evaluates the flags of an operation with the given stamps.
fn evaluate_all(
    snapshot: &Snapshot,
    request: Request<'_>,
    flags: &[String],
    stamps: Vec<Stamp>,
) -> (result: Result<Evaluations, StorageError>)
    requires
        stamps@.len() == flags@.len(),
    ensures
        outcome(result) == all_evaluated(
            snapshot@,
            request@,
            texts(flags@),
            stamps_view(stamps@),
        ),
{
    let ghost keys = texts(flags@);
    let ghost times = stamps_view(stamps@);
    let mut done = Evaluations { records: Vec::new(), receipts: Vec::new() };
    let mut index: usize = 0;
    assert(keys.take(0) =~= Seq::<Seq<char>>::empty());
    assert(done@.records =~= Seq::<EvaluationView>::empty());
    assert(done@.receipts =~= Seq::<DraftView>::empty());
    for stamp in it: stamps
        invariant
            it.seq() == stamps@,
            stamps@.len() == flags@.len(),
            keys == texts(flags@),
            times == stamps_view(stamps@),
            index == it.index(),
            index <= flags@.len(),
            all_evaluated(snapshot@, request@, keys.take(index as int), times) == Ok::<
                EvaluationsView,
                ErrorView,
            >(done@),
    {
        let key = &flags[index];
        let ghost longer = keys.take(index + 1);
        assert(longer.drop_last() =~= keys.take(index as int));
        assert(longer.last() == key@);
        assert(times[index as int] == stamp@);
        let flag = match snapshot.flags.get(key.as_str()) {
            Some(flag) => Some(
                FlagState { value_type: flag.value_type.as_str(), archived: flag.archived },
            ),
            None => None,
        };
        let subject = subject_of(request, key.as_str());
        let record = match evaluate_one(
            flag,
            snapshot.environment.is_some(),
            snapshot.rulesets.get(key.as_str()),
            subject,
            stamp,
        ) {
            Ok(record) => record,
            Err(error) => {
                proof {
                    lemma_error_stays(snapshot@, request@, keys, times, index + 1);
                }
                return Err(error);
            },
        };
        let ghost before = done@;
        let id = evaluation_id(request.operation, request.command.key, index);
        done.receipts.push(receipt_draft(&record, id, request.context_hash));
        done.records.push(record);
        assert(done@.records =~= before.records.push(record@));
        assert(done@.receipts =~= before.receipts.push(
            receipt_of_evaluation(record@, id@, request@.context_hash),
        ));
        index += 1;
    }
    assert(keys.take(index as int) =~= keys);
    Ok(done)
}

/// Decides the evaluations of an operation with the given stamps, one per flag.
pub fn evaluations_at(
    snapshot: &Snapshot,
    request: Request<'_>,
    flags: &[String],
    stamps: Vec<Stamp>,
) -> (result: Result<EvaluationDecision, StorageError>)
    requires
        stamps@.len() == flags@.len(),
    ensures
        outcome(result) == evaluation_decided(
            snapshot@,
            request.command@,
            request@,
            texts(flags@),
            stamps_view(stamps@),
        ),
{
    match replay(&snapshot.command, request.command) {
        Err(error) => Err(error),
        Ok(Some(response)) => Ok(EvaluationDecision::Replay(response)),
        Ok(None) => match evaluate_all(snapshot, request, flags, stamps) {
            Ok(evaluations) => Ok(EvaluationDecision::Commit(evaluations)),
            Err(error) => Err(error),
        },
    }
}

/// The answer of an operation on one flag: the last record, and a failure where there is none.
pub fn last_record(records: Vec<EvaluationRecord>) -> (result: Result<
    EvaluationRecord,
    StorageError,
>)
    ensures
        outcome(result) == if records@.len() == 0 {
            Err(failure_view())
        } else {
            Ok(records@.last()@)
        },
{
    let mut records = records;
    match records.pop() {
        Some(record) => Ok(record),
        None => Err(failure()),
    }
}

/// A stamp with a fresh identifier and a time.
pub open spec fn fresh(stamp: Stamp) -> bool {
    &&& is_random_id(stamp.receipt_id@)
    &&& exists|nanos: int| stamped(stamp.evaluated_at, nanos)
}

/// Every stamp is fresh, and there are as many as asked for.
pub open spec fn all_fresh(stamps: Seq<Stamp>, count: nat) -> bool {
    &&& stamps.len() == count
    &&& forall|i: int| 0 <= i < stamps.len() ==> fresh(#[trigger] stamps[i])
}

/// Makes fresh stamps.
fn fresh_stamps(count: usize) -> (stamps: Vec<Stamp>)
    ensures
        all_fresh(stamps@, count as nat),
{
    let mut stamps: Vec<Stamp> = Vec::new();
    while stamps.len() < count
        invariant
            stamps@.len() <= count,
            all_fresh(stamps@, stamps@.len()),
        decreases count - stamps@.len(),
    {
        let stamp = Stamp { receipt_id: new_receipt_id(), evaluated_at: now() };
        assert(fresh(stamp));
        stamps.push(stamp);
    }
    stamps
}

/// Decides the evaluations of an operation, now, each with an identifier of its own.
pub fn evaluations(snapshot: &Snapshot, request: Request<'_>, flags: &[String]) -> (result: Result<
    EvaluationDecision,
    StorageError,
>)
    ensures
        exists|stamps: Seq<Stamp>| #[trigger]
            all_fresh(stamps, flags@.len()) && outcome(result)
                == evaluation_decided(
                snapshot@,
                request.command@,
                request@,
                texts(flags@),
                stamps_view(stamps),
            ),
{
    evaluations_at(snapshot, request, flags, fresh_stamps(flags.len()))
}

/// A batch is answered as a whole: where it is answered there is one record and one receipt per
/// flag, in order, and each is what the flag's own evaluation answers.
pub proof fn lemma_batch_is_whole(
    snapshot: SnapshotView,
    request: RequestView,
    flags: Seq<Seq<char>>,
    stamps: Seq<StampView>,
)
    ensures
        all_evaluated(snapshot, request, flags, stamps) matches Ok(done) ==> {
            &&& done.records.len() == flags.len()
            &&& done.receipts.len() == flags.len()
            &&& forall|i: int|
                0 <= i < flags.len() ==> flag_answer(snapshot, request, flags[i], stamps[i]) == Ok::<
                    EvaluationView,
                    ErrorView,
                >(#[trigger] done.records[i])
            &&& forall|i: int|
                0 <= i < flags.len() ==> #[trigger] done.receipts[i] == receipt_of_evaluation(
                    done.records[i],
                    evaluation_id_of(request.operation, request.key, i),
                    request.context_hash,
                )
        },
        all_evaluated(snapshot, request, flags, stamps) is Err <==> exists|i: int|
            0 <= i < flags.len() && (#[trigger] flag_answer(
                snapshot,
                request,
                flags[i],
                stamps[i],
            )) is Err,
    decreases flags.len(),
{
    if flags.len() > 0 {
        let before = flags.drop_last();
        let last = flags.len() - 1;
        lemma_batch_is_whole(snapshot, request, before, stamps);
        assert forall|i: int| 0 <= i < last implies before[i] == flags[i] by {}
        if all_evaluated(snapshot, request, before, stamps) is Err {
            let i = choose|i: int|
                0 <= i < before.len() && (#[trigger] flag_answer(
                    snapshot,
                    request,
                    before[i],
                    stamps[i],
                )) is Err;
            assert(flag_answer(snapshot, request, flags[i], stamps[i]) is Err);
        } else {
            let done = all_evaluated(snapshot, request, before, stamps)->Ok_0;
            assert forall|i: int| 0 <= i < last implies (#[trigger] flag_answer(
                snapshot,
                request,
                flags[i],
                stamps[i],
            )) is Ok by {
                assert(flag_answer(snapshot, request, before[i], stamps[i]) == Ok::<
                    EvaluationView,
                    ErrorView,
                >(done.records[i]));
            }
            if flag_answer(snapshot, request, flags[last], stamps[last]) is Ok {
                let whole = all_evaluated(snapshot, request, flags, stamps)->Ok_0;
                assert forall|i: int| 0 <= i < flags.len() implies flag_answer(
                    snapshot,
                    request,
                    flags[i],
                    stamps[i],
                ) == Ok::<EvaluationView, ErrorView>(#[trigger] whole.records[i]) by {
                    if i < last {
                        assert(whole.records[i] == done.records[i]);
                    }
                }
                assert forall|i: int| 0 <= i < flags.len() implies #[trigger] whole.receipts[i]
                    == receipt_of_evaluation(
                    whole.records[i],
                    evaluation_id_of(request.operation, request.key, i),
                    request.context_hash,
                ) by {
                    if i < last {
                        assert(whole.receipts[i] == done.receipts[i]);
                        assert(whole.records[i] == done.records[i]);
                    }
                }
            }
        }
    }
}

} // verus!
