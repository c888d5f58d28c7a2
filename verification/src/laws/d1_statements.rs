//! What each statement on D1 says, and which value it binds in which place.

use vstd::prelude::*;
use crate::d1::commit::effect_write;
use crate::d1::plan::Effect;
use crate::d1::statement::{
    admits_batch, batch_view, command_query, commit_batch, commit_batch_of, environment_write,
    environment_write_of, flag_page_query, flag_query, flag_write, flag_write_of, optional_param,
    receipt_page_query, receipts_write, ruleset_write, ruleset_write_of, snapshot_queries,
    snapshot_queries_of, ParamView, Statement,
};
use crate::d1::wire::{check_capacity, WireError};
use crate::decimal::integer_text;
use crate::domain::{optional_str, texts, Command, EnvironmentRecord, FlagRecord, PublishRecord};
use crate::json::{json_bytes, json_text_list};
use crate::page::page_start;

verus! {

/// A command's row is found by its caller, actor, operation and key.
pub proof fn lemma_command_query(command: Command<'_>, operation: &str, query: Statement)
    requires
        call_ensures(command_query, (command, operation), query),
    ensures
        query.sql@
            == "SELECT request_hash,response FROM feature_commands WHERE caller=?1 AND actor=?2 AND operation=?3 AND command_key=?4"@,
        query@.params.len() == 4,
        query@.params[0] == ParamView::Text(command.caller@),
        query@.params[1] == ParamView::Text(command.actor@),
        query@.params[2] == ParamView::Text(operation@),
        query@.params[3] == ParamView::Text(command.key@),
{
}

/// A new flag is inserted under its organization and key, in its row, with its record.
pub proof fn lemma_flag_insertion(flag: FlagRecord, record: &str, query: Statement)
    requires
        call_ensures(flag_write, (&flag, record, true), query),
    ensures
        query.sql@
            == "INSERT INTO feature_flags(organization_id,flag_key,row_seq,record) VALUES(?1,?2,?3,?4)"@,
        query@.params.len() == 4,
        query@.params[0] == ParamView::Text(flag.organization_id@),
        query@.params[1] == ParamView::Text(flag.flag_key@),
        query@.params[2] == ParamView::Integer(flag.row_seq as int),
        query@.params[3] == ParamView::Text(record@),
{
}

/// A changed flag replaces the record under its organization and key, and keeps its row.
pub proof fn lemma_flag_replacement(flag: FlagRecord, record: &str, query: Statement)
    requires
        call_ensures(flag_write, (&flag, record, false), query),
    ensures
        query.sql@
            == "UPDATE feature_flags SET record=?3 WHERE organization_id=?1 AND flag_key=?2"@,
        query@.params.len() == 3,
        query@.params[0] == ParamView::Text(flag.organization_id@),
        query@.params[1] == ParamView::Text(flag.flag_key@),
        query@.params[2] == ParamView::Text(record@),
{
}

/// An environment is inserted under its organization and key, or its record replaced there.
pub proof fn lemma_environment_write(environment: EnvironmentRecord, record: &str, query: Statement)
    requires
        call_ensures(environment_write, (&environment, record), query),
    ensures
        query.sql@
            == "INSERT INTO feature_environments(organization_id,environment_key,record) VALUES(?1,?2,?3) ON CONFLICT(organization_id,environment_key) DO UPDATE SET record=excluded.record"@,
        query@.params.len() == 3,
        query@.params[0] == ParamView::Text(environment.organization_id@),
        query@.params[1] == ParamView::Text(environment.environment_key@),
        query@.params[2] == ParamView::Text(record@),
{
}

/// A ruleset is inserted for its organization, flag and environment, under its revision, with its
/// definition and its publication.
pub proof fn lemma_ruleset_write(
    publication: PublishRecord,
    definition: &str,
    record: &str,
    query: Statement,
)
    requires
        call_ensures(ruleset_write, (&publication, definition, record), query),
    ensures
        query.sql@
            == "INSERT INTO feature_rulesets(organization_id,flag_key,environment_key,revision,definition,publication) VALUES(?1,?2,?3,?4,?5,?6)"@,
        query@.params.len() == 6,
        query@.params[0] == ParamView::Text(publication.organization_id@),
        query@.params[1] == ParamView::Text(publication.flag_key@),
        query@.params[2] == ParamView::Text(publication.environment_key@),
        query@.params[3] == ParamView::Text(publication.ruleset_revision@),
        query@.params[4] == ParamView::Text(definition@),
        query@.params[5] == ParamView::Text(record@),
{
}

/// All receipts of an operation go in by one statement with five bound values, under the
/// organization, the caller, the actor and the operation.
pub proof fn lemma_receipts_write(
    organization_id: &str,
    command: Command<'_>,
    operation: &str,
    receipts: &str,
    query: Statement,
)
    requires
        call_ensures(receipts_write, (organization_id, command, operation, receipts), query),
    ensures
        query.sql@
            == "INSERT INTO feature_evaluation_receipts(receipt_id,organization_id,flag_key,environment_key,caller,actor,operation,evaluation_id,record) SELECT json_extract(value,'$.receipt_id'),?1,json_extract(value,'$.flag_key'),json_extract(value,'$.environment_key'),?2,?3,?4,json_extract(value,'$.evaluation_id'),value FROM json_each(?5)"@,
        query@.params.len() == 5,
        query@.params[0] == ParamView::Text(organization_id@),
        query@.params[1] == ParamView::Text(command.caller@),
        query@.params[2] == ParamView::Text(command.actor@),
        query@.params[3] == ParamView::Text(operation@),
        query@.params[4] == ParamView::Text(receipts@),
{
}

/// A page of flags is of the organization, with the archived ones only where told, behind the given
/// row and up to the limit.
pub proof fn lemma_flag_page_query(
    organization_id: &str,
    include_archived: bool,
    after: Option<i64>,
    limit: i64,
    query: Statement,
)
    requires
        call_ensures(flag_page_query, (organization_id, include_archived, after, limit), query),
    ensures
        query.sql@
            == "SELECT record FROM feature_flags WHERE organization_id=?1 AND (?2 OR NOT json_extract(record,'$.archived')) AND row_seq>?3 ORDER BY row_seq LIMIT ?4"@,
        query@.params.len() == 4,
        query@.params[0] == ParamView::Text(organization_id@),
        query@.params[1] == ParamView::Integer(if include_archived { 1 } else { 0 }),
        query@.params[2] == ParamView::Integer(page_start(after)),
        query@.params[3] == ParamView::Integer(limit as int),
{
}

/// A page of receipts is of the organization, of one flag or all, in one environment or all, behind
/// the given row and up to the limit.
pub proof fn lemma_receipt_page_query(
    organization_id: &str,
    flag_key: Option<&str>,
    environment_key: Option<&str>,
    after: Option<i64>,
    limit: i64,
    query: Statement,
)
    requires
        call_ensures(
            receipt_page_query,
            (organization_id, flag_key, environment_key, after, limit),
            query,
        ),
    ensures
        query.sql@
            == "SELECT CAST(row_seq AS TEXT) AS row_seq,record FROM feature_evaluation_receipts WHERE organization_id=?1 AND (?2 IS NULL OR flag_key=?2) AND (?3 IS NULL OR environment_key=?3) AND row_seq>?4 ORDER BY row_seq LIMIT ?5"@,
        query@.params.len() == 5,
        query@.params[0] == ParamView::Text(organization_id@),
        query@.params[1] == optional_param(optional_str(flag_key)),
        query@.params[2] == optional_param(optional_str(environment_key)),
        query@.params[3] == ParamView::Integer(page_start(after)),
        query@.params[4] == ParamView::Integer(limit as int),
{
}

/// One flag is read by its organization and key.
pub proof fn lemma_flag_query(organization_id: &str, flag_key: &str, query: Statement)
    requires
        call_ensures(flag_query, (organization_id, flag_key), query),
    ensures
        query.sql@ == "SELECT record FROM feature_flags WHERE organization_id=?1 AND flag_key=?2"@,
        query@.params.len() == 2,
        query@.params[0] == ParamView::Text(organization_id@),
        query@.params[1] == ParamView::Text(flag_key@),
{
}

/// A text is bound as it is, and where there is none, null.
pub proof fn lemma_want_is_bound_as_null(text: Option<&str>)
    ensures
        text is Some ==> optional_param(optional_str(text)) == ParamView::Text(text->0@),
        text is None ==> optional_param(optional_str(text)) == ParamView::Null,
{
}

/// A snapshot reads, in this order, the epoch, the command's row, the flags, the environment and
/// the latest rulesets, all of the same organization.
pub proof fn lemma_snapshot_reads(
    command: Command<'_>,
    operation: &str,
    organization_id: &str,
    flags: &[String],
    environment: &str,
    reads: Vec<Statement>,
)
    requires
        call_ensures(
            snapshot_queries,
            (command, operation, organization_id, flags, environment),
            reads,
        ),
    ensures
        ({
            let batch = batch_view(reads@);
            let keys = json_text_list(texts(flags@));
            &&& reads@.len() == 5
            &&& batch.len() == 5
            &&& batch[0].sql
                == "SELECT CAST(revision AS TEXT) AS revision FROM feature_epoch WHERE singleton=1"@
            &&& batch[0].params.len() == 0
            &&& batch[1].sql
                == "SELECT request_hash,response FROM feature_commands WHERE caller=?1 AND actor=?2 AND operation=?3 AND command_key=?4"@
            &&& batch[1].params.len() == 4
            &&& batch[1].params[0] == ParamView::Text(command.caller@)
            &&& batch[1].params[1] == ParamView::Text(command.actor@)
            &&& batch[1].params[2] == ParamView::Text(operation@)
            &&& batch[1].params[3] == ParamView::Text(command.key@)
            &&& batch[2].sql
                == "SELECT record FROM feature_flags WHERE organization_id=?1 AND flag_key IN (SELECT value FROM json_each(?2))"@
            &&& batch[2].params.len() == 2
            &&& batch[2].params[0] == ParamView::Text(organization_id@)
            &&& batch[2].params[1] == ParamView::Text(keys)
            &&& batch[3].sql
                == "SELECT record FROM feature_environments WHERE organization_id=?1 AND environment_key=?2"@
            &&& batch[3].params.len() == 2
            &&& batch[3].params[0] == ParamView::Text(organization_id@)
            &&& batch[3].params[1] == ParamView::Text(environment@)
            &&& batch[4].sql
                == "SELECT flag_key,CAST(revision AS TEXT) AS revision,definition FROM feature_rulesets AS r WHERE organization_id=?1 AND environment_key=?2 AND flag_key IN (SELECT value FROM json_each(?3)) AND revision=(SELECT MAX(revision) FROM feature_rulesets WHERE organization_id=r.organization_id AND flag_key=r.flag_key AND environment_key=r.environment_key)"@
            &&& batch[4].params.len() == 3
            &&& batch[4].params[0] == ParamView::Text(organization_id@)
            &&& batch[4].params[1] == ParamView::Text(environment@)
            &&& batch[4].params[2] == ParamView::Text(keys)
        }),
{
    let batch = snapshot_queries_of(
        command@,
        operation@,
        organization_id@,
        texts(flags@),
        environment@,
    );
    assert(batch_view(reads@) == batch);
    assert(batch_view(reads@).len() == reads@.len());
}

/// A commit's batch is, in this order, the guard on the epoch, the command's row with the hash of
/// the request and the response, the writes as they were given, the advance of the epoch, and the
/// clearing of the guard.
pub proof fn lemma_commit_writes(
    epoch: i64,
    command: Command<'_>,
    operation: &str,
    response: &str,
    writes: Vec<Statement>,
    statements: Vec<Statement>,
)
    requires
        call_ensures(commit_batch, (epoch, command, operation, response, writes), statements),
    ensures
        ({
            let batch = batch_view(statements@);
            let last = batch.len() - 1;
            &&& statements@.len() == writes@.len() + 4
            &&& batch.len() == writes@.len() + 4
            &&& batch[0].sql
                == "INSERT INTO feature_guard(value) SELECT CASE WHEN (SELECT CAST(revision AS TEXT) FROM feature_epoch WHERE singleton=1)=?1 THEN 1 ELSE 0 END"@
            &&& batch[0].params.len() == 1
            &&& batch[0].params[0] == ParamView::Text(integer_text(epoch as int))
            &&& batch[1].sql
                == "INSERT INTO feature_commands(caller,actor,operation,command_key,request_hash,response) VALUES(?1,?2,?3,?4,?5,?6)"@
            &&& batch[1].params.len() == 6
            &&& batch[1].params[0] == ParamView::Text(command.caller@)
            &&& batch[1].params[1] == ParamView::Text(command.actor@)
            &&& batch[1].params[2] == ParamView::Text(operation@)
            &&& batch[1].params[3] == ParamView::Text(command.key@)
            &&& batch[1].params[4] == ParamView::Text(json_bytes(command.hash@))
            &&& batch[1].params[5] == ParamView::Text(response@)
            &&& forall|i: int| 0 <= i < writes@.len() ==> batch[2 + i] == (#[trigger] writes@[i])@
            &&& batch[last - 1].sql
                == "UPDATE feature_epoch SET revision=revision+1 WHERE singleton=1"@
            &&& batch[last - 1].params.len() == 0
            &&& batch[last].sql
                == "DELETE FROM feature_guard"@
            &&& batch[last].params.len() == 0
        }),
{
    let facts = batch_view(writes@);
    let batch = commit_batch_of(epoch as int, command@, operation@, response@, facts);
    assert(batch_view(statements@) == batch);
    assert(batch_view(statements@).len() == statements@.len());
    assert(facts.len() == writes@.len());
    assert forall|i: int| 0 <= i < writes@.len() implies batch[2 + i] == (
    #[trigger] writes@[i])@ by {
        assert(facts[i] == writes@[i]@);
    }
}

/// A batch can be sent exactly if it has at least one statement and at most 128, and none of them
/// binds more than 100 values; any other is over the capacity.
pub proof fn lemma_batch_is_bounded(
    batch: Vec<Statement>,
    admitted: bool,
    checked: Result<(), WireError>,
)
    requires
        call_ensures(admits_batch, (&batch,), admitted),
        call_ensures(check_capacity, (&batch,), checked),
    ensures
        admitted <==> 1 <= batch@.len() <= 128 && forall|i: int|
            0 <= i < batch@.len() ==> (#[trigger] batch@[i]).params@.len() <= 100,
        checked is Ok <==> admitted,
        checked is Err ==> checked->Err_0 is Capacity,
{
    let statements = batch_view(batch@);
    assert forall|i: int| 0 <= i < batch@.len() implies statements[i].params.len() == (
    #[trigger] batch@[i]).params@.len() by {}
    if admitted {
        assert forall|i: int| 0 <= i < batch@.len() implies (#[trigger] batch@[i]).params@.len()
            <= 100 by {
            assert(statements[i].params.len() <= 100);
        }
    } else if 1 <= batch@.len() <= 128 {
        let i = choose|i: int|
            0 <= i < statements.len() && (#[trigger] statements[i]).params.len() > 100;
        assert(batch@[i].params@.len() > 100);
    }
}

/// A new flag is inserted and a changed one replaced; an environment is put; and a ruleset is
/// inserted with its definition and its publication each in its place.
pub proof fn lemma_effects_are_written(
    effect: Effect,
    record: &str,
    definition: &str,
    query: Statement,
)
    requires
        call_ensures(effect_write, (&effect, record, definition), query),
    ensures
        match effect {
            Effect::InsertFlag(flag) => query@ == flag_write_of(flag@, record@, true),
            Effect::UpdateFlag(flag) => query@ == flag_write_of(flag@, record@, false),
            Effect::PutEnvironment(environment) => query@ == environment_write_of(
                environment@,
                record@,
            ),
            Effect::InsertRuleset(_, publication) => query@ == ruleset_write_of(
                publication@,
                definition@,
                record@,
            ),
        },
{
}

} // verus!
