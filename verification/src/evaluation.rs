//! One evaluation: from what a store holds of a flag to the record and the receipt of the answer.

use vstd::prelude::*;
use crate::bucket::bucket_of;
use crate::choice::{
    attributes_view, choice, choose_variant, lemma_published_ruleset_evaluates,
};
use crate::decimal::{integer_text, u64_text};
use crate::domain::{
    outcome, Command, DefinitionView, DomainFailure, ErrorView, EvaluationRecord, EvaluationView,
    PublishedRuleset, PublishedView, StorageError, ValueView,
};
use crate::json::{JsonValue, JsonView};
use crate::keyed::KeyedMap;
use crate::ruleset::{ruleset_failure, validate_ruleset};
use crate::text::text_equal;
use vstd::string::*;

verus! {

/// What an evaluation looks at of a flag.
#[derive(Clone, Copy, Debug)]
pub struct FlagState<'a> {
    pub value_type: &'a str,
    pub archived: bool,
}

/// The model of a `FlagState`.
pub struct FlagStateView {
    pub value_type: Seq<char>,
    pub archived: bool,
}

impl<'a> View for FlagState<'a> {
    type V = FlagStateView;

    open spec fn view(&self) -> FlagStateView {
        FlagStateView { value_type: self.value_type@, archived: self.archived }
    }
}

/// An optional flag, taken by its model.
pub open spec fn state_view(flag: Option<FlagState<'_>>) -> Option<FlagStateView> {
    match flag {
        Some(state) => Some(state@),
        None => None,
    }
}

/// An optional ruleset, taken by its model.
pub open spec fn published_view(ruleset: Option<&PublishedRuleset>) -> Option<PublishedView> {
    match ruleset {
        Some(ruleset) => Some(ruleset@),
        None => None,
    }
}

/// Who is evaluated for which flag, and where.
pub struct SubjectView {
    pub organization_id: Seq<char>,
    pub environment_key: Seq<char>,
    pub flag_key: Seq<char>,
    pub targeting_key: Seq<char>,
    pub attributes: Map<Seq<char>, JsonView>,
}

/// Who is evaluated for which flag, and where.
#[derive(Clone, Copy)]
pub struct Subject<'a> {
    pub organization_id: &'a str,
    pub environment_key: &'a str,
    pub flag_key: &'a str,
    pub targeting_key: &'a str,
    pub attributes: &'a KeyedMap<JsonValue>,
}

impl<'a> View for Subject<'a> {
    type V = SubjectView;

    open spec fn view(&self) -> SubjectView {
        SubjectView {
            organization_id: self.organization_id@,
            environment_key: self.environment_key@,
            flag_key: self.flag_key@,
            targeting_key: self.targeting_key@,
            attributes: attributes_view(self.attributes@),
        }
    }
}

/// What is common to the evaluations of an operation.
pub struct RequestView {
    pub operation: Seq<char>,
    pub key: Seq<char>,
    pub organization_id: Seq<char>,
    pub environment_key: Seq<char>,
    pub targeting_key: Seq<char>,
    pub attributes: Map<Seq<char>, JsonView>,
    pub context_hash: Seq<char>,
}

/// What is common to the evaluations of an operation.
#[derive(Clone, Copy)]
pub struct Request<'a> {
    pub operation: &'a str,
    pub command: Command<'a>,
    pub organization_id: &'a str,
    pub environment_key: &'a str,
    pub targeting_key: &'a str,
    pub attributes: &'a KeyedMap<JsonValue>,
    pub context_hash: &'a str,
}

impl<'a> View for Request<'a> {
    type V = RequestView;

    open spec fn view(&self) -> RequestView {
        RequestView {
            operation: self.operation@,
            key: self.command@.key,
            organization_id: self.organization_id@,
            environment_key: self.environment_key@,
            targeting_key: self.targeting_key@,
            attributes: attributes_view(self.attributes@),
            context_hash: self.context_hash@,
        }
    }
}

/// The subject of one evaluation of an operation.
pub open spec fn request_subject(request: RequestView, flag_key: Seq<char>) -> SubjectView {
    SubjectView {
        organization_id: request.organization_id,
        environment_key: request.environment_key,
        flag_key,
        targeting_key: request.targeting_key,
        attributes: request.attributes,
    }
}

/// The subject of one evaluation of an operation.
pub fn subject_of<'a>(request: Request<'a>, flag_key: &'a str) -> (subject: Subject<'a>)
    ensures
        subject@ == request_subject(request@, flag_key@),
{
    Subject {
        organization_id: request.organization_id,
        environment_key: request.environment_key,
        flag_key,
        targeting_key: request.targeting_key,
        attributes: request.attributes,
    }
}

/// The identifier and the time that an evaluation is stamped with.
#[derive(Debug)]
pub struct Stamp {
    pub receipt_id: String,
    pub evaluated_at: Result<String, StorageError>,
}

/// The model of a `Stamp`.
pub struct StampView {
    pub receipt_id: Seq<char>,
    pub evaluated_at: Result<Seq<char>, ErrorView>,
}

impl View for Stamp {
    type V = StampView;

    open spec fn view(&self) -> StampView {
        StampView { receipt_id: self.receipt_id@, evaluated_at: outcome(self.evaluated_at) }
    }
}

/// Why a flag cannot be evaluated; nothing where it can. The flag is looked at first, then the
/// environment, then the ruleset.
pub open spec fn evaluation_refusal(
    flag: Option<FlagStateView>,
    environment_known: bool,
    ruleset: Option<PublishedView>,
) -> Option<DomainFailure> {
    match flag {
        None => Some(DomainFailure::FlagNotFound),
        Some(state) => if state.archived {
            Some(DomainFailure::Archived)
        } else if !environment_known {
            Some(DomainFailure::EnvironmentNotFound)
        } else {
            match ruleset {
                None => Some(DomainFailure::NoPublishedRuleset),
                Some(published) => ruleset_failure(state.value_type, published.definition),
            }
        },
    }
}

/// The record of picking a variant of a ruleset.
pub open spec fn evaluation_record(
    subject: SubjectView,
    published: PublishedView,
    at: int,
    reason: Seq<char>,
    receipt_id: Seq<char>,
    evaluated_at: Seq<char>,
) -> EvaluationView {
    EvaluationView {
        flag_key: subject.flag_key,
        environment_key: subject.environment_key,
        variant_key: published.definition.variants[at].variant_key,
        value: published.definition.variants[at].value,
        reason,
        ruleset_revision: published.revision,
        receipt_id,
        evaluated_at,
    }
}

/// What the ruleset gives the subject.
pub open spec fn subject_choice(subject: SubjectView, definition: DefinitionView) -> Option<
    (int, Seq<char>),
> {
    choice(
        definition,
        subject.attributes,
        bucket_of(
            subject.organization_id,
            subject.environment_key,
            subject.flag_key,
            subject.targeting_key,
        ),
    )
}

/// What an evaluation answers.
pub open spec fn evaluated(
    flag: Option<FlagStateView>,
    environment_known: bool,
    ruleset: Option<PublishedView>,
    subject: SubjectView,
    stamp: StampView,
) -> Result<EvaluationView, ErrorView> {
    match evaluation_refusal(flag, environment_known, ruleset) {
        Some(failure) => Err(ErrorView::Domain(failure)),
        None => {
            let published = ruleset->0;
            match subject_choice(subject, published.definition) {
                None => Err(ErrorView::Domain(DomainFailure::InvalidRuleset)),
                Some((at, reason)) => match stamp.evaluated_at {
                    Err(error) => Err(error),
                    Ok(evaluated_at) => Ok(
                        evaluation_record(
                            subject,
                            published,
                            at,
                            reason,
                            stamp.receipt_id,
                            evaluated_at,
                        ),
                    ),
                },
            }
        },
    }
}

/// Evaluates one flag for the subject.
pub fn evaluate_one(
    flag: Option<FlagState<'_>>,
    environment_known: bool,
    ruleset: Option<&PublishedRuleset>,
    subject: Subject<'_>,
    stamp: Stamp,
) -> (result: Result<EvaluationRecord, StorageError>)
    ensures
        outcome(result) == evaluated(
            state_view(flag),
            environment_known,
            published_view(ruleset),
            subject@,
            stamp@,
        ),
{
    let state = match flag {
        Some(state) => state,
        None => return Err(StorageError::from(DomainFailure::FlagNotFound)),
    };
    if state.archived {
        return Err(StorageError::from(DomainFailure::Archived));
    }
    if !environment_known {
        return Err(StorageError::from(DomainFailure::EnvironmentNotFound));
    }
    let published = match ruleset {
        Some(published) => published,
        None => return Err(StorageError::from(DomainFailure::NoPublishedRuleset)),
    };
    if let Err(error) = validate_ruleset(state.value_type, &published.definition) {
        return Err(error);
    }
    let (variant, reason) = match choose_variant(
        subject.organization_id,
        subject.environment_key,
        subject.flag_key,
        subject.targeting_key,
        subject.attributes,
        &published.definition,
    ) {
        Ok(picked) => picked,
        Err(error) => return Err(error),
    };
    let evaluated_at = match stamp.evaluated_at {
        Ok(time) => time,
        Err(error) => return Err(error),
    };
    Ok(
        EvaluationRecord {
            flag_key: subject.flag_key.to_owned(),
            environment_key: subject.environment_key.to_owned(),
            variant_key: variant.variant_key.clone(),
            value: variant.value.clone(),
            reason: reason.to_owned(),
            ruleset_revision: published.revision.clone(),
            receipt_id: stamp.receipt_id,
            evaluated_at,
        },
    )
}

/// The operation of a single evaluation.
pub const EVALUATE: &'static str = "evaluate";

/// The operation of a batch of evaluations.
pub const EVALUATE_BATCH: &'static str = "evaluate_batch";

/// The identifier of one evaluation of an operation: the command's key, and in a batch also the
/// position.
pub open spec fn evaluation_id_of(operation: Seq<char>, key: Seq<char>, index: int) -> Seq<char> {
    if operation == EVALUATE@ {
        key
    } else {
        key + ":"@ + integer_text(index)
    }
}

/// The identifier of one evaluation of an operation.
pub fn evaluation_id(operation: &str, key: &str, index: usize) -> (id: String)
    ensures
        id@ == evaluation_id_of(operation@, key@, index as int),
{
    if text_equal(operation, EVALUATE) {
        key.to_owned()
    } else {
        let mut id = key.to_owned();
        id.append(":");
        let position = u64_text(index as u64);
        id.append(position.as_str());
        id
    }
}

/// The receipt of an evaluation, before it has a row.
#[derive(Debug, PartialEq)]
pub struct ReceiptDraft {
    pub receipt_id: String,
    pub evaluation_id: String,
    pub flag_key: String,
    pub environment_key: String,
    pub variant_key: String,
    pub reason: String,
    pub ruleset_revision: String,
    pub context_hash: String,
    pub evaluated_at: String,
}

/// The model of a `ReceiptDraft`.
pub struct DraftView {
    pub receipt_id: Seq<char>,
    pub evaluation_id: Seq<char>,
    pub flag_key: Seq<char>,
    pub environment_key: Seq<char>,
    pub variant_key: Seq<char>,
    pub reason: Seq<char>,
    pub ruleset_revision: Seq<char>,
    pub context_hash: Seq<char>,
    pub evaluated_at: Seq<char>,
}

impl View for ReceiptDraft {
    type V = DraftView;

    open spec fn view(&self) -> DraftView {
        DraftView {
            receipt_id: self.receipt_id@,
            evaluation_id: self.evaluation_id@,
            flag_key: self.flag_key@,
            environment_key: self.environment_key@,
            variant_key: self.variant_key@,
            reason: self.reason@,
            ruleset_revision: self.ruleset_revision@,
            context_hash: self.context_hash@,
            evaluated_at: self.evaluated_at@,
        }
    }
}

/// The receipt of an evaluation: what was picked and why, and the hash of the context, but neither
/// the value nor the context.
pub open spec fn receipt_of_evaluation(
    record: EvaluationView,
    evaluation_id: Seq<char>,
    context_hash: Seq<char>,
) -> DraftView {
    DraftView {
        receipt_id: record.receipt_id,
        evaluation_id,
        flag_key: record.flag_key,
        environment_key: record.environment_key,
        variant_key: record.variant_key,
        reason: record.reason,
        ruleset_revision: record.ruleset_revision,
        context_hash,
        evaluated_at: record.evaluated_at,
    }
}

/// Writes the receipt of an evaluation.
pub fn receipt_draft(record: &EvaluationRecord, evaluation_id: String, context_hash: &str) -> (draft:
    ReceiptDraft)
    ensures
        draft@ == receipt_of_evaluation(record@, evaluation_id@, context_hash@),
{
    ReceiptDraft {
        receipt_id: record.receipt_id.clone(),
        evaluation_id,
        flag_key: record.flag_key.clone(),
        environment_key: record.environment_key.clone(),
        variant_key: record.variant_key.clone(),
        reason: record.reason.clone(),
        ruleset_revision: record.ruleset_revision.clone(),
        context_hash: context_hash.to_owned(),
        evaluated_at: record.evaluated_at.clone(),
    }
}

/// A flag that is not refused is answered: the answer is one of the variants of the published
/// ruleset, of the flag's type, with the ruleset's revision. The one thing that can still be
/// missing is the time.
pub proof fn lemma_admitted_flag_is_answered(
    flag: Option<FlagStateView>,
    environment_known: bool,
    ruleset: Option<PublishedView>,
    subject: SubjectView,
    stamp: StampView,
)
    requires
        evaluation_refusal(flag, environment_known, ruleset) is None,
    ensures
        evaluated(flag, environment_known, ruleset, subject, stamp) is Ok
            <==> stamp.evaluated_at is Ok,
        evaluated(flag, environment_known, ruleset, subject, stamp) matches Ok(record) ==> {
            &&& record.value.value_type == flag->0.value_type
            &&& record.ruleset_revision == ruleset->0.revision
            &&& exists|at: int|
                0 <= at < ruleset->0.definition.variants.len() && record.variant_key == (
                #[trigger] ruleset->0.definition.variants[at]).variant_key && record.value
                    == ruleset->0.definition.variants[at].value
        },
{
    let bucket = bucket_of(
        subject.organization_id,
        subject.environment_key,
        subject.flag_key,
        subject.targeting_key,
    );
    assert(bucket >= 0);
    lemma_published_ruleset_evaluates(
        flag->0.value_type,
        ruleset->0.definition,
        subject.attributes,
        bucket,
    );
    let (at, reason) = subject_choice(subject, ruleset->0.definition)->0;
    assert(0 <= at < ruleset->0.definition.variants.len());
}

/// A receipt does not tell the value: evaluations that differ in nothing but the value have the
/// same receipt.
pub proof fn lemma_receipt_hides_value(
    record: EvaluationView,
    value: ValueView,
    evaluation_id: Seq<char>,
    context_hash: Seq<char>,
)
    ensures
        receipt_of_evaluation(record, evaluation_id, context_hash) == receipt_of_evaluation(
            EvaluationView { value, ..record },
            evaluation_id,
            context_hash,
        ),
{
}

/// Evaluation is reproducible: the same flag, ruleset and subject give the same answer at all
/// times, but for the identifier and the time of the answer itself.
pub proof fn lemma_evaluation_is_reproducible(
    flag: Option<FlagStateView>,
    environment_known: bool,
    ruleset: Option<PublishedView>,
    subject: SubjectView,
    stamp: StampView,
    other: StampView,
)
    requires
        stamp.evaluated_at is Ok,
        other.evaluated_at is Ok,
    ensures
        match (
            evaluated(flag, environment_known, ruleset, subject, stamp),
            evaluated(flag, environment_known, ruleset, subject, other),
        ) {
            (Ok(a), Ok(b)) => b == (EvaluationView {
                receipt_id: other.receipt_id,
                evaluated_at: other.evaluated_at->Ok_0,
                ..a
            }),
            (Err(a), Err(b)) => a == b,
            _ => false,
        },
{
}

} // verus!
