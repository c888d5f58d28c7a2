//! How an evaluation on PostgreSQL goes from flag to flag.

use vstd::prelude::*;
use crate::domain::{texts, DomainFailure};
use crate::evaluation::Request;
use crate::postgres::evaluate::{
    step_of, EvaluationFlag, InstantStamp, NextView, NumberedRuleset, Progress, Seen, SeenView,
    StageView,
};
use crate::postgres::query::{keyed_of, placed_of};
use crate::ruleset::ruleset_failure;

verus! {

/// The statement that reads a flag for a request.
pub open spec fn reads_flag(request: Request<'_>, flag_key: Seq<char>) -> NextView {
    NextView::Run(
        keyed_of(
            "read evaluation flag"@,
            "SELECT value_type,archived FROM feature_flags WHERE organization_id=$1 AND flag_key=$2 FOR SHARE"@,
            request.organization_id@,
            flag_key,
        ),
    )
}

/// An evaluation begins with the first flag that was asked for, and one of no flags answers with no
/// records.
pub proof fn lemma_evaluation_begins(progress: Progress, request: Request<'_>, flags: Seq<String>)
    requires
        progress.stage is Start,
        progress.records@.len() == 0,
    ensures
        ({
            let next = step_of(
                progress@,
                SeenView::Begin,
                request@,
                texts(flags),
                request.command@,
            );
            if flags.len() > 0 {
                &&& next.0.stage is ReadingFlag
                &&& next.0.records.len() == 0
                &&& next.1 == reads_flag(request, flags[0]@)
            } else {
                next.1 is Respond && next.1->Respond_0.len() == 0
            }
        }),
{
}

/// A flag is looked at before its environment: where there is none, or it is archived, the
/// evaluation is refused; otherwise the environment of the request is looked for.
pub proof fn lemma_flag_is_looked_at_first(
    progress: Progress,
    flag: Option<EvaluationFlag>,
    request: Request<'_>,
    flags: Seq<String>,
)
    requires
        progress.stage is ReadingFlag,
        progress.records@.len() < flags.len(),
    ensures
        ({
            let next = step_of(
                progress@,
                Seen::Flag(flag)@,
                request@,
                texts(flags),
                request.command@,
            );
            if flag is None {
                next.0.stage is Done && next.1 == NextView::Fail(DomainFailure::FlagNotFound)
            } else if flag->0.archived {
                next.0.stage is Done && next.1 == NextView::Fail(DomainFailure::Archived)
            } else {
                &&& next.0.records == progress@.records
                &&& next.0.stage == (StageView::ReadingEnvironment {
                    value_type: flag->0.value_type@,
                })
                &&& next.1 == NextView::Run(
                    keyed_of(
                        "read evaluation environment"@,
                        "SELECT 1 FROM feature_environments WHERE organization_id=$1 AND environment_key=$2"@,
                        request.organization_id@,
                        request.environment_key@,
                    ),
                )
            }
        }),
{
}

/// The environment is looked for before the ruleset: where there is none, the evaluation is
/// refused; otherwise the latest ruleset of the flag at hand in the environment of the request is
/// read.
pub proof fn lemma_environment_is_looked_at_next(
    progress: Progress,
    known: bool,
    request: Request<'_>,
    flags: Seq<String>,
)
    requires
        progress.stage is ReadingEnvironment,
        progress.records@.len() < flags.len(),
    ensures
        ({
            let next = step_of(
                progress@,
                Seen::Environment(known)@,
                request@,
                texts(flags),
                request.command@,
            );
            if !known {
                next.0.stage is Done && next.1 == NextView::Fail(
                    DomainFailure::EnvironmentNotFound,
                )
            } else {
                &&& next.0.records == progress@.records
                &&& next.0.stage == (StageView::ReadingRuleset {
                    value_type: progress.stage->ReadingEnvironment_value_type@,
                })
                &&& next.1 == NextView::Run(
                    placed_of(
                        "read evaluation ruleset"@,
                        "SELECT ruleset_revision,ruleset_json FROM feature_rulesets WHERE organization_id=$1 AND flag_key=$2 AND environment_key=$3 ORDER BY ruleset_revision DESC LIMIT 1"@,
                        request.organization_id@,
                        flags[progress.records@.len() as int]@,
                        request.environment_key@,
                    ),
                )
            }
        }),
{
    let index = progress.records@.len() as int;
    assert(texts(flags)[index] == flags[index]@);
}

/// Without a ruleset, or with one that is not valid for the flag's type, the evaluation is refused
/// for just that.
pub proof fn lemma_ruleset_is_looked_at_last(
    progress: Progress,
    ruleset: Option<NumberedRuleset>,
    stamp: InstantStamp,
    request: Request<'_>,
    flags: Seq<String>,
)
    requires
        progress.stage is ReadingRuleset,
        progress.records@.len() < flags.len(),
    ensures
        ({
            let value_type = progress.stage->ReadingRuleset_value_type@;
            let next = step_of(
                progress@,
                Seen::Ruleset(ruleset, stamp)@,
                request@,
                texts(flags),
                request.command@,
            );
            if ruleset is None {
                next.0.stage is Done && next.1 == NextView::Fail(
                    DomainFailure::NoPublishedRuleset,
                )
            } else {
                match ruleset_failure(value_type, ruleset->0.definition@) {
                    Some(failure) => next.0.stage is Done && next.1 == NextView::Fail(failure),
                    None => true,
                }
            }
        }),
{
}

/// A database that fails ends the evaluation with the database's own error, wherever it stands, and
/// no record is answered.
pub proof fn lemma_broken_evaluation_is_reported(
    progress: Progress,
    request: Request<'_>,
    flags: Seq<String>,
)
    requires
        !(progress.stage is Done),
        progress.records@.len() < flags.len(),
    ensures
        ({
            let next = step_of(
                progress@,
                SeenView::Broken,
                request@,
                texts(flags),
                request.command@,
            );
            next.0.stage is Done && next.0.records.len() == 0 && next.1 is Report
        }),
{
}

} // verus!
