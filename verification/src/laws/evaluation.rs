//! What an evaluation answers, told by the fields of the request.

use vstd::prelude::*;
use crate::bucket::bucket_of;
use crate::choice::{
    attributes_view, choice, lemma_first_rule_decides, lemma_published_ruleset_evaluates,
    lemma_shares_side_by_side, share_holds,
};
use crate::d1::evaluate::{all_evaluated, flag_answer, lemma_batch_is_whole, stamps_view};
use crate::d1::snapshot::Snapshot;
use crate::decimal::{integer_text, lemma_integer_round_trip};
use crate::domain::{
    texts, DefinitionView, DomainFailure, ErrorView, EvaluationView, PublishedRuleset,
};
use crate::evaluation::{
    evaluated, evaluation_id_of, published_view, request_subject, state_view, subject_choice,
    DraftView, FlagState, Request, Stamp, Subject, EVALUATE, EVALUATE_BATCH,
};
use crate::postgres::evaluate::{step_of, InstantStamp, NextView, NumberedRuleset, Progress, Seen};
use crate::ruleset::ruleset_failure;
use super::rules::{lemma_first_variant, lemma_points_add_up, no_rule, points_before};

verus! {

/// The bucket of a request for a flag: that of the request's own organization, environment and
/// targeting key.
pub open spec fn request_bucket(request: Request<'_>, flag_key: Seq<char>) -> int {
    bucket_of(
        request.organization_id@,
        request.environment_key@,
        flag_key,
        request.targeting_key@,
    )
}

/// What a ruleset gives a request for a flag.
pub open spec fn request_choice(
    request: Request<'_>,
    flag_key: Seq<char>,
    definition: DefinitionView,
) -> Option<(int, Seq<char>)> {
    choice(definition, attributes_view(request.attributes@), request_bucket(request, flag_key))
}

/// The subject of an evaluation is the request's own: its organization, environment, targeting key
/// and attributes, and the flag that was asked for.
pub proof fn lemma_subject_is_the_requests_own(request: Request<'_>, flag_key: Seq<char>)
    ensures
        ({
            let subject = request_subject(request@, flag_key);
            &&& subject.organization_id == request.organization_id@
            &&& subject.environment_key == request.environment_key@
            &&& subject.flag_key == flag_key
            &&& subject.targeting_key == request.targeting_key@
            &&& subject.attributes == attributes_view(request.attributes@)
        }),
        forall|definition: DefinitionView| #[trigger]
            subject_choice(request_subject(request@, flag_key), definition) == request_choice(
                request,
                flag_key,
                definition,
            ),
{
}

/// Of two requests of the same organization, environment and attributes, each is given what the
/// ruleset gives in the bucket of its own targeting key: with the same targeting key they are given
/// the same.
pub proof fn lemma_targeting_key_decides_the_bucket(
    request: Request<'_>,
    other: Request<'_>,
    flag_key: Seq<char>,
    definition: DefinitionView,
)
    requires
        other.organization_id@ == request.organization_id@,
        other.environment_key@ == request.environment_key@,
        other.attributes@ == request.attributes@,
    ensures
        subject_choice(request_subject(other@, flag_key), definition) == choice(
            definition,
            attributes_view(request.attributes@),
            bucket_of(
                request.organization_id@,
                request.environment_key@,
                flag_key,
                other.targeting_key@,
            ),
        ),
        other.targeting_key@ == request.targeting_key@ ==> subject_choice(
            request_subject(other@, flag_key),
            definition,
        ) == subject_choice(request_subject(request@, flag_key), definition),
{
}

/// An evaluation answers what the ruleset gives the subject, in the bucket of the subject's own
/// keys: the variant with its value, the reason, the ruleset's revision, and the stamp.
pub proof fn lemma_evaluation_answers_the_choice(
    flag: FlagState<'_>,
    ruleset: PublishedRuleset,
    subject: Subject<'_>,
    stamp: Stamp,
)
    requires
        !flag.archived,
        ruleset_failure(flag.value_type@, ruleset.definition@) is None,
        stamp.evaluated_at is Ok,
    ensures
        ({
            let bucket = bucket_of(
                subject.organization_id@,
                subject.environment_key@,
                subject.flag_key@,
                subject.targeting_key@,
            );
            let given = choice(
                ruleset.definition@,
                attributes_view(subject.attributes@),
                bucket,
            );
            let answer = evaluated(
                state_view(Some(flag)),
                true,
                published_view(Some(&ruleset)),
                subject@,
                stamp@,
            );
            match given {
                Some((at, reason)) => {
                    &&& answer is Ok
                    &&& answer->Ok_0.variant_key
                        == ruleset.definition@.variants[at].variant_key
                    &&& answer->Ok_0.value == ruleset.definition@.variants[at].value
                    &&& answer->Ok_0.reason == reason
                    &&& answer->Ok_0.flag_key == subject.flag_key@
                    &&& answer->Ok_0.environment_key == subject.environment_key@
                    &&& answer->Ok_0.ruleset_revision == ruleset.revision@
                    &&& answer->Ok_0.receipt_id == stamp.receipt_id@
                    &&& answer->Ok_0.evaluated_at == stamp.evaluated_at->Ok_0@
                },
                None => answer == Err::<EvaluationView, ErrorView>(
                    ErrorView::Domain(DomainFailure::InvalidRuleset),
                ),
            }
        }),
{
}

/// An evaluation is refused for the first thing that is wrong: no such flag, an archived flag, no
/// such environment, no ruleset, a ruleset that is not valid for the flag's type; and only then for
/// the want of a time.
pub proof fn lemma_evaluation_refuses_in_order(
    flag: Option<FlagState<'_>>,
    environment_known: bool,
    ruleset: Option<&PublishedRuleset>,
    subject: Subject<'_>,
    stamp: Stamp,
)
    ensures
        ({
            let answer = evaluated(
                state_view(flag),
                environment_known,
                published_view(ruleset),
                subject@,
                stamp@,
            );
            let refused = |failure: DomainFailure|
                answer == Err::<EvaluationView, ErrorView>(ErrorView::Domain(failure));
            if flag is None {
                refused(DomainFailure::FlagNotFound)
            } else if flag->0.archived {
                refused(DomainFailure::Archived)
            } else if !environment_known {
                refused(DomainFailure::EnvironmentNotFound)
            } else if ruleset is None {
                refused(DomainFailure::NoPublishedRuleset)
            } else {
                match ruleset_failure(flag->0.value_type@, ruleset->0.definition@) {
                    Some(failure) => refused(failure),
                    None => stamp.evaluated_at is Err && subject_choice(
                        subject@,
                        ruleset->0.definition@,
                    ) is Some ==> answer == Err::<EvaluationView, ErrorView>(
                        stamp.evaluated_at->Err_0@,
                    ),
                }
            }
        }),
{
}

/// A record answers a request for a flag: it is what the ruleset gives in the bucket of the
/// request's own organization id, environment key and targeting key and of the flag key asked for.
pub open spec fn answers_request(
    record: EvaluationView,
    request: Request<'_>,
    flag_key: Seq<char>,
    definition: DefinitionView,
) -> bool {
    match request_choice(request, flag_key, definition) {
        Some((at, reason)) => {
            &&& record.flag_key == flag_key
            &&& record.environment_key == request.environment_key@
            &&& record.variant_key == definition.variants[at].variant_key
            &&& record.value == definition.variants[at].value
            &&& record.reason == reason
        },
        None => false,
    }
}

/// The identifier of an evaluation: the command's key, and in a batch also the position.
pub open spec fn evaluation_name(request: Request<'_>, index: int) -> Seq<char> {
    if request.operation@ == "evaluate"@ {
        request.command.key@
    } else {
        request.command.key@ + ":"@ + integer_text(index)
    }
}

/// A receipt is that of a record: it repeats what was answered, beside the identifier of the
/// evaluation and the hash of the context.
pub open spec fn receipt_repeats(
    receipt: DraftView,
    record: EvaluationView,
    evaluation_id: Seq<char>,
    context_hash: Seq<char>,
) -> bool {
    &&& receipt.receipt_id == record.receipt_id
    &&& receipt.evaluation_id == evaluation_id
    &&& receipt.flag_key == record.flag_key
    &&& receipt.environment_key == record.environment_key
    &&& receipt.variant_key == record.variant_key
    &&& receipt.reason == record.reason
    &&& receipt.ruleset_revision == record.ruleset_revision
    &&& receipt.context_hash == context_hash
    &&& receipt.evaluated_at == record.evaluated_at
}

/// The store on D1 answers the request that was made: each record that an evaluation or a batch
/// answers is the choice of the published ruleset in the bucket of the request's own keys and the
/// flag key asked for; it has the ruleset's revision and the stamp's identifier and time; and its
/// receipt repeats it.
pub proof fn lemma_d1_answers_the_request(
    snapshot: Snapshot,
    request: Request<'_>,
    flags: Seq<String>,
    stamps: Seq<Stamp>,
    i: int,
)
    requires
        stamps.len() == flags.len(),
        0 <= i < flags.len(),
        all_evaluated(snapshot@, request@, texts(flags), stamps_view(stamps)) is Ok,
    ensures
        ({
            let done = all_evaluated(snapshot@, request@, texts(flags), stamps_view(stamps))->Ok_0;
            let flag_key = flags[i]@;
            let published = snapshot.rulesets@[flag_key];
            &&& done.records.len() == flags.len()
            &&& done.receipts.len() == flags.len()
            &&& snapshot.flags@.contains_key(flag_key) && !snapshot.flags@[flag_key].archived
            &&& snapshot.environment is Some
            &&& snapshot.rulesets@.contains_key(flag_key)
            &&& answers_request(done.records[i], request, flag_key, published.definition@)
            &&& done.records[i].ruleset_revision == published.revision@
            &&& done.records[i].receipt_id == stamps[i].receipt_id@
            &&& stamps[i].evaluated_at is Ok
            &&& done.records[i].evaluated_at == stamps[i].evaluated_at->Ok_0@
            &&& receipt_repeats(
                done.receipts[i],
                done.records[i],
                evaluation_name(request, i),
                request.context_hash@,
            )
        }),
{
    let keys = texts(flags);
    let times = stamps_view(stamps);
    lemma_batch_is_whole(snapshot@, request@, keys, times);
    let done = all_evaluated(snapshot@, request@, keys, times)->Ok_0;
    assert(keys[i] == flags[i]@);
    assert(times[i] == stamps[i]@);
    assert(flag_answer(snapshot@, request@, keys[i], times[i]) == Ok::<EvaluationView, ErrorView>(
        done.records[i],
    ));
    assert(done.receipts[i].receipt_id == done.records[i].receipt_id);
}

/// The store on PostgreSQL answers the request that was made: what it stores for the flag at hand
/// is the choice of the latest ruleset in the bucket of the request's own keys and the flag key
/// asked for, with the ruleset's number and the stamp's identifier.
pub proof fn lemma_postgres_answers_the_request(
    progress: Progress,
    ruleset: NumberedRuleset,
    stamp: InstantStamp,
    request: Request<'_>,
    flags: Seq<String>,
)
    requires
        progress.stage is ReadingRuleset,
        progress.records@.len() < flags.len(),
        ruleset_failure(
            progress.stage->ReadingRuleset_value_type@,
            ruleset.definition@,
        ) is None,
    ensures
        ({
            let flag_key = flags[progress.records@.len() as int]@;
            let next = step_of(
                progress@,
                Seen::Ruleset(Some(ruleset), stamp)@,
                request@,
                texts(flags),
                request.command@,
            );
            match request_choice(request, flag_key, ruleset.definition@) {
                Some(_) => {
                    &&& next.0.stage is Storing
                    &&& next.0.records == progress@.records
                    &&& answers_request(
                        next.0.stage->Storing_record,
                        request,
                        flag_key,
                        ruleset.definition@,
                    )
                    &&& next.0.stage->Storing_record.ruleset_revision == integer_text(
                        ruleset.number as int,
                    )
                    &&& next.0.stage->Storing_record.receipt_id == stamp.receipt_id@
                    &&& next.0.stage->Storing_nanos == stamp.nanos
                },
                None => next.1 == NextView::Fail(DomainFailure::InvalidRuleset),
            }
        }),
{
    assert(texts(flags)[progress.records@.len() as int] == flags[progress.records@.len() as int]@);
}

/// Where no rule applies and the rollout has one share, a request is in the rollout exactly if the
/// bucket of its own keys is below the share's points, and falls through otherwise.
pub proof fn lemma_share_takes_the_buckets_below(
    request: Request<'_>,
    flag_key: Seq<char>,
    value_type: Seq<char>,
    definition: DefinitionView,
)
    requires
        ruleset_failure(value_type, definition) is None,
        no_rule(definition.targeting_rules, attributes_view(request.attributes@)),
        definition.percentage_rollout.len() == 1,
    ensures
        ({
            let given = subject_choice(request_subject(request@, flag_key), definition);
            let (at, reason) = given->0;
            let inside = bucket_of(
                request.organization_id@,
                request.environment_key@,
                flag_key,
                request.targeting_key@,
            ) < definition.percentage_rollout[0].basis_points;
            &&& given is Some
            &&& reason == if inside {
                "percentage_rollout"@
            } else {
                "fallthrough"@
            }
            &&& definition.variants[at].variant_key == if inside {
                definition.percentage_rollout[0].variant_key
            } else {
                definition.fallthrough_variant
            }
        }),
{
    let attributes = attributes_view(request.attributes@);
    let bucket = request_bucket(request, flag_key);
    assert(bucket >= 0);
    lemma_published_ruleset_evaluates(value_type, definition, attributes, bucket);
    lemma_first_rule_decides(definition.targeting_rules, attributes);
    let rollout = definition.percentage_rollout;
    assert(rollout[0].basis_points > 0);
    lemma_shares_side_by_side(rollout, bucket);
    reveal_with_fuel(points_before, 2);
    lemma_points_add_up(rollout, 0);
    lemma_points_add_up(rollout, 1);
    assert(share_holds(rollout, 0, bucket) == (bucket
        < rollout[0].basis_points));
    lemma_first_variant(definition.variants, rollout[0].variant_key);
    lemma_first_variant(definition.variants, definition.fallthrough_variant);
}

/// Of an evaluation by itself the identifier is the command's key; of the evaluations of a batch no
/// two have the same, and each begins with the command's key.
pub proof fn lemma_evaluations_have_names(request: Request<'_>, i: int, j: int)
    requires
        0 <= i,
        0 <= j,
        i != j,
    ensures
        evaluation_id_of(request.operation@, request.command.key@, i) == evaluation_name(
            request,
            i,
        ),
        request.operation@ != "evaluate"@ ==> evaluation_id_of(
            request.operation@,
            request.command.key@,
            i,
        ) != evaluation_id_of(request.operation@, request.command.key@, j),
{
    if request.operation@ != "evaluate"@ {
        let key = request.command.key@;
        let (a, b) = (integer_text(i), integer_text(j));
        lemma_integer_round_trip(i);
        lemma_integer_round_trip(j);
        let x = key + ":"@ + a;
        let y = key + ":"@ + b;
        if x == y {
            let from = (key.len() + ":"@.len()) as int;
            assert(a =~= x.skip(from));
            assert(b =~= y.skip(from));
        }
    }
}

/// The two operations of an evaluation are stored under different names.
pub proof fn lemma_operations_have_names()
    ensures
        EVALUATE@ == "evaluate"@,
        EVALUATE_BATCH@ == "evaluate_batch"@,
        EVALUATE@ != EVALUATE_BATCH@,
{
    reveal_strlit("evaluate");
    reveal_strlit("evaluate_batch");
    assert("evaluate"@.len() != "evaluate_batch"@.len());
}

} // verus!
