//! The work of an evaluation: its flags are answered one after the other, each with its receipt, in
//! one transaction.

use vstd::prelude::*;
use crate::decimal::{i64_text, integer_text};
use crate::domain::{
    texts, CommandView, DefinitionView, DomainFailure, ErrorView, EvaluationRecord, EvaluationView,
    PublishedRuleset, PublishedView, RulesetDefinition, StorageError,
};
use crate::evaluation::{
    evaluate_one, evaluated, evaluation_id, evaluation_id_of, evaluation_record,
    evaluation_refusal, request_subject, subject_choice, subject_of, FlagState, FlagStateView,
    Request, RequestView, Stamp, StampView,
};
use crate::stamp::{format_timestamp, is_random_id, new_receipt_id, rfc3339_text, wall_clock_now};
use super::query::{
    insert_receipt, insert_receipt_of, keyed, keyed_of, placed, placed_of, Query, QueryView,
    ReceiptFacts, ReceiptFactsView, EVALUATION_ENVIRONMENT, EVALUATION_FLAG, LATEST_RULESET,
};

verus! {

/// What an evaluation reads of a flag.
#[derive(Debug)]
pub struct EvaluationFlag {
    pub value_type: String,
    pub archived: bool,
}

/// The latest ruleset, with its number.
#[derive(Debug)]
pub struct NumberedRuleset {
    pub number: i64,
    pub definition: RulesetDefinition,
}

/// The model of a `NumberedRuleset`.
pub struct NumberedView {
    pub number: int,
    pub definition: DefinitionView,
}

impl View for NumberedRuleset {
    type V = NumberedView;

    open spec fn view(&self) -> NumberedView {
        NumberedView { number: self.number as int, definition: self.definition@ }
    }
}

/// The identifier of a receipt, and the instant of its evaluation in nanoseconds since the Unix
/// epoch.
#[derive(Debug)]
pub struct InstantStamp {
    pub receipt_id: String,
    pub nanos: i128,
}

/// The model of an `InstantStamp`.
pub struct InstantStampView {
    pub receipt_id: Seq<char>,
    pub nanos: int,
}

impl View for InstantStamp {
    type V = InstantStampView;

    open spec fn view(&self) -> InstantStampView {
        InstantStampView { receipt_id: self.receipt_id@, nanos: self.nanos as int }
    }
}

/// A fresh identifier, and the present time. Nothing is said of the time.
pub fn instant_stamp() -> (stamp: InstantStamp)
    ensures
        is_random_id(stamp.receipt_id@),
{
    InstantStamp { receipt_id: new_receipt_id(), nanos: wall_clock_now() }
}

/// How far the evaluation of the flag at hand has come.
#[derive(Debug)]
pub enum Stage {
    /// Nothing was done yet.
    Start,
    /// The flag is being read.
    ReadingFlag,
    /// The environment is being looked for.
    ReadingEnvironment { value_type: String },
    /// The latest ruleset is being read.
    ReadingRuleset { value_type: String },
    /// The receipt is being inserted. The record is complete but for the text of its time, an instant
    /// in nanoseconds since the Unix epoch.
    Storing { record: EvaluationRecord, nanos: i128 },
    /// The evaluation was answered.
    Done,
}

/// The model of a `Stage`.
#[allow(inconsistent_fields)]
pub enum StageView {
    Start,
    ReadingFlag,
    ReadingEnvironment { value_type: Seq<char> },
    ReadingRuleset { value_type: Seq<char> },
    Storing { record: EvaluationView, nanos: int },
    Done,
}

impl View for Stage {
    type V = StageView;

    open spec fn view(&self) -> StageView {
        match *self {
            Stage::Start => StageView::Start,
            Stage::ReadingFlag => StageView::ReadingFlag,
            Stage::ReadingEnvironment { value_type } => StageView::ReadingEnvironment {
                value_type: value_type@,
            },
            Stage::ReadingRuleset { value_type } => StageView::ReadingRuleset {
                value_type: value_type@,
            },
            Stage::Storing { record, nanos } => StageView::Storing {
                record: record@,
                nanos: nanos as int,
            },
            Stage::Done => StageView::Done,
        }
    }
}

/// How far an evaluation has come: the answers so far, and the flag at hand.
#[derive(Debug)]
pub struct Progress {
    pub stage: Stage,
    pub records: Vec<EvaluationRecord>,
}

/// Records, each taken by its model.
pub open spec fn records_view(records: Seq<EvaluationRecord>) -> Seq<EvaluationView> {
    records.map_values(|record: EvaluationRecord| record@)
}

/// The model of a `Progress`.
pub struct ProgressView {
    pub stage: StageView,
    pub records: Seq<EvaluationView>,
}

impl View for Progress {
    type V = ProgressView;

    open spec fn view(&self) -> ProgressView {
        ProgressView { stage: self.stage@, records: records_view(self.records@) }
    }
}

/// What an evaluation learns.
#[derive(Debug)]
pub enum Seen {
    /// The evaluation begins.
    Begin,
    /// The flag, if there is one.
    Flag(Option<EvaluationFlag>),
    /// Whether there is such an environment.
    Environment(bool),
    /// The latest ruleset, if there is one, and the stamp for the answer.
    Ruleset(Option<NumberedRuleset>, InstantStamp),
    /// The statement took effect.
    Ran,
    /// The database failed.
    Broken,
}

/// The model of a `Seen`.
pub enum SeenView {
    Begin,
    Flag(Option<FlagStateView>),
    Environment(bool),
    Ruleset(Option<NumberedView>, InstantStampView),
    Ran,
    Broken,
}

impl View for Seen {
    type V = SeenView;

    open spec fn view(&self) -> SeenView {
        match *self {
            Seen::Begin => SeenView::Begin,
            Seen::Flag(flag) => SeenView::Flag(
                match flag {
                    Some(flag) => Some(
                        FlagStateView { value_type: flag.value_type@, archived: flag.archived },
                    ),
                    None => None,
                },
            ),
            Seen::Environment(known) => SeenView::Environment(known),
            Seen::Ruleset(ruleset, stamp) => SeenView::Ruleset(
                match ruleset {
                    Some(ruleset) => Some(ruleset@),
                    None => None,
                },
                stamp@,
            ),
            Seen::Ran => SeenView::Ran,
            Seen::Broken => SeenView::Broken,
        }
    }
}

/// What an evaluation does next.
#[derive(Debug)]
pub enum Next {
    /// Run a statement.
    Run(Query),
    /// All flags are answered.
    Respond(Vec<EvaluationRecord>),
    /// A flag cannot be answered.
    Fail(StorageError),
    /// The work ends with the database's own error.
    Report,
    /// Do nothing: what was seen does not belong here.
    Ignore,
}

/// The model of a `Next`. An instant that has no text is a failure of its own: which error the
/// formatter gave is not told.
pub enum NextView {
    Run(QueryView),
    Respond(Seq<EvaluationView>),
    Fail(DomainFailure),
    Untimed,
    Other(ErrorView),
    Report,
    Ignore,
}

impl View for Next {
    type V = NextView;

    open spec fn view(&self) -> NextView {
        match *self {
            Next::Run(query) => NextView::Run(query@),
            Next::Respond(records) => NextView::Respond(records_view(records@)),
            Next::Fail(error) => match error@ {
                ErrorView::Domain(failure) => NextView::Fail(failure),
                ErrorView::Time(_) => NextView::Untimed,
                other => NextView::Other(other),
            },
            Next::Report => NextView::Report,
            Next::Ignore => NextView::Ignore,
        }
    }
}

/// How an evaluation goes on to its next flag, or ends.
pub open spec fn turned(
    records: Seq<EvaluationView>,
    request: RequestView,
    flags: Seq<Seq<char>>,
) -> (ProgressView, NextView) {
    if records.len() < flags.len() {
        (
            ProgressView { stage: StageView::ReadingFlag, records },
            NextView::Run(
                keyed_of(
                    "read evaluation flag"@,
                    EVALUATION_FLAG@,
                    request.organization_id,
                    flags[records.len() as int],
                ),
            ),
        )
    } else {
        (
            ProgressView { stage: StageView::Done, records: seq![] },
            NextView::Respond(records),
        )
    }
}

fn turn(records: Vec<EvaluationRecord>, request: Request<'_>, flags: &[String]) -> (next: (
    Progress,
    Next,
))
    ensures
        (next.0@, next.1@) == turned(records_view(records@), request@, texts(flags@)),
{
    if records.len() < flags.len() {
        let query = keyed(
            "read evaluation flag",
            EVALUATION_FLAG,
            request.organization_id,
            flags[records.len()].as_str(),
        );
        (Progress { stage: Stage::ReadingFlag, records }, Next::Run(query))
    } else {
        let empty = Progress { stage: Stage::Done, records: Vec::new() };
        assert(empty@.records =~= Seq::<EvaluationView>::empty());
        (empty, Next::Respond(records))
    }
}

/// An evaluation that ends without an answer.
pub open spec fn ends(next: NextView) -> (ProgressView, NextView) {
    (ProgressView { stage: StageView::Done, records: seq![] }, next)
}

fn end(next: Next) -> (ended: (Progress, Next))
    ensures
        (ended.0@, ended.1@) == ends(next@),
{
    let empty = Progress { stage: Stage::Done, records: Vec::new() };
    assert(empty@.records =~= Seq::<EvaluationView>::empty());
    (empty, next)
}

/// What is published, by a ruleset and its number.
pub open spec fn published_of(ruleset: NumberedView) -> PublishedView {
    PublishedView { revision: integer_text(ruleset.number), definition: ruleset.definition }
}

/// How an evaluation goes on once the flag's ruleset is read: where the flag is answered, the
/// receipt is inserted.
pub open spec fn ruleset_read(
    value_type: Seq<char>,
    ruleset: Option<NumberedView>,
    stamp: InstantStampView,
    records: Seq<EvaluationView>,
    request: RequestView,
    flags: Seq<Seq<char>>,
    command: CommandView,
) -> (ProgressView, NextView) {
    let index = records.len() as int;
    let subject = request_subject(request, flags[index]);
    match ruleset {
        None => ends(NextView::Fail(DomainFailure::NoPublishedRuleset)),
        Some(ruleset) => {
            let published = published_of(ruleset);
            match evaluation_refusal(
                Some(FlagStateView { value_type, archived: false }),
                true,
                Some(published),
            ) {
                Some(failure) => ends(NextView::Fail(failure)),
                None => match subject_choice(subject, published.definition) {
                    None => ends(NextView::Fail(DomainFailure::InvalidRuleset)),
                    Some((at, reason)) => {
                        let record = evaluation_record(
                            subject,
                            published,
                            at,
                            reason,
                            stamp.receipt_id,
                            ""@,
                        );
                        (
                            ProgressView {
                                stage: StageView::Storing { record, nanos: stamp.nanos },
                                records,
                            },
                            NextView::Run(
                                insert_receipt_of(
                                    command,
                                    ReceiptFactsView {
                                        operation: request.operation,
                                        evaluation_id: evaluation_id_of(
                                            request.operation,
                                            request.key,
                                            index,
                                        ),
                                        organization_id: request.organization_id,
                                        ruleset_number: ruleset.number,
                                        context_hash: request.context_hash,
                                        evaluated_at: stamp.nanos,
                                    },
                                    record,
                                ),
                            ),
                        )
                    },
                },
            }
        },
    }
}

/// How an evaluation goes on once the receipt is inserted: the record gets the text of its time,
/// where the instant has one, and the next flag is taken up.
pub open spec fn receipt_stored(
    record: EvaluationView,
    nanos: int,
    records: Seq<EvaluationView>,
    request: RequestView,
    flags: Seq<Seq<char>>,
) -> (ProgressView, NextView) {
    match rfc3339_text(nanos) {
        None => ends(NextView::Untimed),
        Some(text) => turned(
            records.push(EvaluationView { evaluated_at: text, ..record }),
            request,
            flags,
        ),
    }
}

fn on_ruleset_read(
    value_type: String,
    ruleset: Option<NumberedRuleset>,
    stamp: InstantStamp,
    records: Vec<EvaluationRecord>,
    request: Request<'_>,
    flags: &[String],
) -> (next: (Progress, Next))
    requires
        records@.len() < flags@.len(),
    ensures
        (next.0@, next.1@) == ruleset_read(
            value_type@,
            match ruleset {
                Some(ruleset) => Some(ruleset@),
                None => None,
            },
            stamp@,
            records_view(records@),
            request@,
            texts(flags@),
            request.command@,
        ),
{
    let ruleset = match ruleset {
        Some(ruleset) => ruleset,
        None => return end(
            Next::Fail(StorageError::from(DomainFailure::NoPublishedRuleset)),
        ),
    };
    let number = ruleset.number;
    let published = PublishedRuleset {
        revision: i64_text(number),
        definition: ruleset.definition,
    };
    let index = records.len();
    let key = &flags[index];
    assert(texts(flags@)[index as int] == key@);
    let state = FlagState { value_type: value_type.as_str(), archived: false };
    let nanos = stamp.nanos;
    let answer = evaluate_one(
        Some(state),
        true,
        Some(&published),
        subject_of(request, key.as_str()),
        Stamp { receipt_id: stamp.receipt_id, evaluated_at: Ok("".to_owned()) },
    );
    let record = match answer {
        Ok(record) => record,
        Err(error) => return end(Next::Fail(error)),
    };
    let id = evaluation_id(request.operation, request.command.key, index);
    let facts = ReceiptFacts {
        operation: request.operation,
        evaluation_id: id.as_str(),
        organization_id: request.organization_id,
        ruleset_number: number,
        context_hash: request.context_hash,
        evaluated_at: nanos,
    };
    let insert = insert_receipt(request.command, facts, &record);
    (Progress { stage: Stage::Storing { record, nanos }, records }, Next::Run(insert))
}

/// There is a flag at hand: only at the start and at the end there need be none.
pub open spec fn flag_at_hand(progress: ProgressView, flags: Seq<Seq<char>>) -> bool {
    match progress.stage {
        StageView::Start => true,
        StageView::Done => true,
        _ => progress.records.len() < flags.len(),
    }
}

/// How an evaluation goes on. Progress past the last flag goes nowhere.
pub open spec fn step_of(
    progress: ProgressView,
    seen: SeenView,
    request: RequestView,
    flags: Seq<Seq<char>>,
    command: CommandView,
) -> (ProgressView, NextView) {
    let records = progress.records;
    let index = records.len() as int;
    if !flag_at_hand(progress, flags) {
        (progress, NextView::Ignore)
    } else {
        match (progress.stage, seen) {
            (StageView::Start, SeenView::Begin) => turned(records, request, flags),
            (StageView::ReadingFlag, SeenView::Flag(flag)) => match flag {
                None => ends(NextView::Fail(DomainFailure::FlagNotFound)),
                Some(state) => if state.archived {
                    ends(NextView::Fail(DomainFailure::Archived))
                } else {
                    (
                        ProgressView {
                            stage: StageView::ReadingEnvironment { value_type: state.value_type },
                            records,
                        },
                        NextView::Run(
                            keyed_of(
                                "read evaluation environment"@,
                                EVALUATION_ENVIRONMENT@,
                                request.organization_id,
                                request.environment_key,
                            ),
                        ),
                    )
                },
            },
            (StageView::ReadingEnvironment { value_type }, SeenView::Environment(known)) => {
                if !known {
                    ends(NextView::Fail(DomainFailure::EnvironmentNotFound))
                } else {
                    (
                        ProgressView { stage: StageView::ReadingRuleset { value_type }, records },
                        NextView::Run(
                            placed_of(
                                "read evaluation ruleset"@,
                                LATEST_RULESET@,
                                request.organization_id,
                                flags[index],
                                request.environment_key,
                            ),
                        ),
                    )
                }
            },
            (StageView::ReadingRuleset { value_type }, SeenView::Ruleset(ruleset, stamp)) => {
                ruleset_read(value_type, ruleset, stamp, records, request, flags, command)
            },
            (StageView::Storing { record, nanos }, SeenView::Ran) => receipt_stored(
                record,
                nanos,
                records,
                request,
                flags,
            ),
            (StageView::Done, _) => (progress, NextView::Ignore),
            (_, SeenView::Broken) => ends(NextView::Report),
            _ => (progress, NextView::Ignore),
        }
    }
}

/// How an evaluation goes on after what it saw.
pub fn step(progress: Progress, seen: Seen, request: Request<'_>, flags: &[String]) -> (next: (
    Progress,
    Next,
))
    ensures
        (next.0@, next.1@) == step_of(
            progress@,
            seen@,
            request@,
            texts(flags@),
            request.command@,
        ),
{
    let ghost before = progress@;
    let records = progress.records;
    let at_hand = match &progress.stage {
        Stage::Start => true,
        Stage::Done => true,
        _ => records.len() < flags.len(),
    };
    if !at_hand {
        return (Progress { stage: progress.stage, records }, Next::Ignore);
    }
    match (progress.stage, seen) {
        (Stage::Start, Seen::Begin) => turn(records, request, flags),
        (Stage::ReadingFlag, Seen::Flag(flag)) => match flag {
            None => end(Next::Fail(StorageError::from(DomainFailure::FlagNotFound))),
            Some(flag) => if flag.archived {
                end(Next::Fail(StorageError::from(DomainFailure::Archived)))
            } else {
                (
                    Progress {
                        stage: Stage::ReadingEnvironment { value_type: flag.value_type },
                        records,
                    },
                    Next::Run(
                        keyed(
                            "read evaluation environment",
                            EVALUATION_ENVIRONMENT,
                            request.organization_id,
                            request.environment_key,
                        ),
                    ),
                )
            },
        },
        (Stage::ReadingEnvironment { value_type }, Seen::Environment(known)) => {
            if !known {
                end(Next::Fail(StorageError::from(DomainFailure::EnvironmentNotFound)))
            } else {
                let query = placed(
                    "read evaluation ruleset",
                    LATEST_RULESET,
                    request.organization_id,
                    flags[records.len()].as_str(),
                    request.environment_key,
                );
                (
                    Progress { stage: Stage::ReadingRuleset { value_type }, records },
                    Next::Run(query),
                )
            }
        },
        (Stage::ReadingRuleset { value_type }, Seen::Ruleset(ruleset, stamp)) => {
            on_ruleset_read(value_type, ruleset, stamp, records, request, flags)
        },
        (Stage::Storing { record, nanos }, Seen::Ran) => {
            let evaluated_at = match format_timestamp(nanos) {
                Ok(text) => text,
                Err(error) => return end(Next::Fail(error)),
            };
            let mut records = records;
            let record = EvaluationRecord { evaluated_at, ..record };
            records.push(record);
            assert(records_view(records@) =~= before.records.push(record@));
            turn(records, request, flags)
        },
        (Stage::Done, _) => (Progress { stage: Stage::Done, records }, Next::Ignore),
        (_, Seen::Broken) => end(Next::Report),
        (stage, _) => (Progress { stage, records }, Next::Ignore),
    }
}

/// The store answers as every store does: the record that a flag is answered with, once its receipt
/// is inserted, is what an evaluation of that flag and ruleset gives; and where the instant has no
/// text there is none.
pub proof fn lemma_answer_is_the_evaluation(
    progress: ProgressView,
    ruleset: Option<NumberedView>,
    stamp: InstantStampView,
    request: RequestView,
    flags: Seq<Seq<char>>,
    command: CommandView,
)
    requires
        progress.stage is ReadingRuleset,
        step_of(progress, SeenView::Ruleset(ruleset, stamp), request, flags, command)
            .0.stage is Storing,
    ensures
        ruleset is Some,
        ({
            let storing = step_of(
                progress,
                SeenView::Ruleset(ruleset, stamp),
                request,
                flags,
                command,
            ).0;
            let stored = step_of(storing, SeenView::Ran, request, flags, command);
            match rfc3339_text(stamp.nanos) {
                None => stored == ends(NextView::Untimed),
                Some(text) => {
                    let answer = evaluated(
                        Some(
                            FlagStateView {
                                value_type: progress.stage->ReadingRuleset_value_type,
                                archived: false,
                            },
                        ),
                        true,
                        Some(published_of(ruleset->0)),
                        request_subject(request, flags[progress.records.len() as int]),
                        StampView { receipt_id: stamp.receipt_id, evaluated_at: Ok(text) },
                    );
                    &&& answer is Ok
                    &&& stored == turned(progress.records.push(answer->Ok_0), request, flags)
                },
            }
        }),
{
}

/// The progress after a run of events.
pub open spec fn progress_after(
    events: Seq<SeenView>,
    request: RequestView,
    flags: Seq<Seq<char>>,
    command: CommandView,
) -> ProgressView
    decreases events.len(),
{
    if events.len() == 0 {
        ProgressView { stage: StageView::Start, records: seq![] }
    } else {
        step_of(
            progress_after(events.drop_last(), request, flags, command),
            events.last(),
            request,
            flags,
            command,
        ).0
    }
}

/// Records that answer the first flags, in order.
pub open spec fn answers(
    records: Seq<EvaluationView>,
    request: RequestView,
    flags: Seq<Seq<char>>,
) -> bool {
    &&& records.len() <= flags.len()
    &&& forall|i: int|
        0 <= i < records.len() ==> (#[trigger] records[i]).flag_key == flags[i]
            && records[i].environment_key == request.environment_key
}

proof fn lemma_progress_answers(
    events: Seq<SeenView>,
    request: RequestView,
    flags: Seq<Seq<char>>,
    command: CommandView,
)
    ensures
        ({
            let progress = progress_after(events, request, flags, command);
            &&& answers(progress.records, request, flags)
            &&& flag_at_hand(progress, flags)
            &&& progress.stage is Start ==> progress.records.len() == 0
            &&& progress.stage matches StageView::Storing { record, .. } ==> record.flag_key
                == flags[progress.records.len() as int] && record.environment_key
                == request.environment_key
        }),
    decreases events.len(),
{
    if events.len() > 0 {
        lemma_progress_answers(events.drop_last(), request, flags, command);
    }
}

/// A batch is answered as a whole: whatever is seen in between, an answer comes only once every
/// flag has its record and its receipt, and then there is one record per flag, in order.
pub proof fn lemma_answer_covers_every_flag(
    events: Seq<SeenView>,
    seen: SeenView,
    request: RequestView,
    flags: Seq<Seq<char>>,
    command: CommandView,
)
    ensures
        step_of(
            progress_after(events, request, flags, command),
            seen,
            request,
            flags,
            command,
        ).1 matches NextView::Respond(records) ==> records.len() == flags.len() && answers(
            records,
            request,
            flags,
        ),
{
    lemma_progress_answers(events, request, flags, command);
}

} // verus!
