//! What each statement on PostgreSQL says, and which value it binds in which place.

use vstd::prelude::*;
use crate::domain::{optional_str, Command};
use crate::page::page_start;
use crate::postgres::query::{
    finish_command, insert_command, insert_flag, insert_ruleset, keyed, list_flags, list_receipts,
    placed, read_command, update_flag, write_environment, BindView, Query, ARCHIVE_FLAG,
    BUMP_ENVIRONMENT, BUMP_FLAG, EVALUATION_ENVIRONMENT, EVALUATION_FLAG, LATEST_RULESET,
    LOCK_ENVIRONMENT, LOCK_FLAG, NEXT_RULESET, READ_ENVIRONMENT, READ_FLAG,
};

verus! {

/// A command's row is found by its caller, actor, operation and key, and locked.
pub proof fn lemma_read_command(command: Command<'_>, operation: &str, query: Query)
    requires
        call_ensures(read_command, (command, operation), query),
    ensures
        query.label@ == "read command receipt"@,
        query.sql@
            == "SELECT request_hash,response_json FROM feature_commands WHERE caller_instance=$1 AND actor_subject=$2 AND operation=$3 AND idempotency_key=$4 FOR UPDATE"@,
        query@.binds.len() == 4,
        query@.binds[0] == BindView::Text(command.caller@),
        query@.binds[1] == BindView::Text(command.actor@),
        query@.binds[2] == BindView::Text(operation@),
        query@.binds[3] == BindView::Text(command.key@),
{
}

/// A command's row is inserted under its caller, actor, operation and key, with the hash of the
/// request.
pub proof fn lemma_insert_command(command: Command<'_>, operation: &str, query: Query)
    requires
        call_ensures(insert_command, (command, operation), query),
    ensures
        query.label@ == "insert command receipt"@,
        query.sql@
            == "INSERT INTO feature_commands(caller_instance,actor_subject,operation,idempotency_key,request_hash) VALUES($1,$2,$3,$4,$5)"@,
        query@.binds.len() == 5,
        query@.binds[0] == BindView::Text(command.caller@),
        query@.binds[1] == BindView::Text(command.actor@),
        query@.binds[2] == BindView::Text(operation@),
        query@.binds[3] == BindView::Text(command.key@),
        query@.binds[4] == BindView::Bytes(command.hash@),
{
}

/// A command's response is stored in the row of its caller, actor, operation and key.
pub proof fn lemma_finish_command(
    command: Command<'_>,
    operation: &str,
    response: &str,
    query: Query,
)
    requires
        call_ensures(finish_command, (command, operation, response), query),
    ensures
        query.label@ == "finish command receipt"@,
        query.sql@
            == "UPDATE feature_commands SET response_json=$5 WHERE caller_instance=$1 AND actor_subject=$2 AND operation=$3 AND idempotency_key=$4"@,
        query@.binds.len() == 5,
        query@.binds[0] == BindView::Text(command.caller@),
        query@.binds[1] == BindView::Text(command.actor@),
        query@.binds[2] == BindView::Text(operation@),
        query@.binds[3] == BindView::Text(command.key@),
        query@.binds[4] == BindView::Json(response@),
{
}

/// A flag is inserted with the organization, key, name, description and type that were given.
pub proof fn lemma_insert_flag(
    organization_id: &str,
    flag_key: &str,
    name: &str,
    description: Option<&str>,
    value_type: &str,
    query: Query,
)
    requires
        call_ensures(
            insert_flag,
            (organization_id, flag_key, name, description, value_type),
            query,
        ),
    ensures
        query.label@ == "insert flag"@,
        query.sql@
            == "INSERT INTO feature_flags(organization_id,flag_key,name,description,value_type) VALUES($1,$2,$3,$4,$5)"@,
        query@.binds.len() == 5,
        query@.binds[0] == BindView::Text(organization_id@),
        query@.binds[1] == BindView::Text(flag_key@),
        query@.binds[2] == BindView::Text(name@),
        query@.binds[3] == BindView::OptionalText(optional_str(description)),
        query@.binds[4] == BindView::Text(value_type@),
{
}

/// An update gives the flag of the organization and key the name and description that were given,
/// and its next revision.
pub proof fn lemma_update_flag(
    organization_id: &str,
    flag_key: &str,
    name: &str,
    description: Option<&str>,
    query: Query,
)
    requires
        call_ensures(update_flag, (organization_id, flag_key, name, description), query),
    ensures
        query.label@ == "update flag"@,
        query.sql@
            == "UPDATE feature_flags SET name=$3,description=$4,revision=revision+1,updated_at=clock_timestamp() WHERE organization_id=$1 AND flag_key=$2"@,
        query@.binds.len() == 4,
        query@.binds[0] == BindView::Text(organization_id@),
        query@.binds[1] == BindView::Text(flag_key@),
        query@.binds[2] == BindView::Text(name@),
        query@.binds[3] == BindView::OptionalText(optional_str(description)),
{
}

/// An environment is inserted with the organization, key and name that were given.
pub proof fn lemma_insert_environment(
    organization_id: &str,
    environment_key: &str,
    name: &str,
    query: Query,
)
    requires
        call_ensures(write_environment, (true, organization_id, environment_key, name), query),
    ensures
        query.label@ == "insert environment"@,
        query.sql@
            == "INSERT INTO feature_environments(organization_id,environment_key,name) VALUES($1,$2,$3)"@,
        query@.binds.len() == 3,
        query@.binds[0] == BindView::Text(organization_id@),
        query@.binds[1] == BindView::Text(environment_key@),
        query@.binds[2] == BindView::Text(name@),
{
}

/// An update gives the environment of the organization and key the name that was given, and its
/// next revision.
pub proof fn lemma_update_environment(
    organization_id: &str,
    environment_key: &str,
    name: &str,
    query: Query,
)
    requires
        call_ensures(write_environment, (false, organization_id, environment_key, name), query),
    ensures
        query.label@ == "update environment"@,
        query.sql@
            == "UPDATE feature_environments SET name=$3,revision=revision+1,updated_at=clock_timestamp() WHERE organization_id=$1 AND environment_key=$2"@,
        query@.binds.len() == 3,
        query@.binds[0] == BindView::Text(organization_id@),
        query@.binds[1] == BindView::Text(environment_key@),
        query@.binds[2] == BindView::Text(name@),
{
}

/// A ruleset is inserted for the organization, flag and environment, under its number, with its
/// JSON text and the actor.
pub proof fn lemma_insert_ruleset(
    organization_id: &str,
    flag_key: &str,
    environment_key: &str,
    number: i64,
    ruleset: &str,
    actor: &str,
    query: Query,
)
    requires
        call_ensures(
            insert_ruleset,
            (organization_id, flag_key, environment_key, number, ruleset, actor),
            query,
        ),
    ensures
        query.label@ == "insert ruleset"@,
        query.sql@
            == "INSERT INTO feature_rulesets(organization_id,flag_key,environment_key,ruleset_revision,ruleset_json,published_by) VALUES($1,$2,$3,$4,$5,$6) RETURNING published_at"@,
        query@.binds.len() == 6,
        query@.binds[0] == BindView::Text(organization_id@),
        query@.binds[1] == BindView::Text(flag_key@),
        query@.binds[2] == BindView::Text(environment_key@),
        query@.binds[3] == BindView::Number(number as int),
        query@.binds[4] == BindView::Json(ruleset@),
        query@.binds[5] == BindView::Text(actor@),
{
}

/// A listing of flags asks for the organization's, for the archived ones only where told, behind
/// the given row and up to the limit.
pub proof fn lemma_list_flags(
    organization_id: &str,
    include_archived: bool,
    after: Option<i64>,
    limit: i64,
    query: Query,
)
    requires
        call_ensures(list_flags, (organization_id, include_archived, after, limit), query),
    ensures
        query.label@ == "list flags"@,
        query.sql@
            == "SELECT * FROM feature_flags WHERE organization_id=$1 AND ($2 OR NOT archived) AND row_seq>$3 ORDER BY row_seq LIMIT $4"@,
        query@.binds.len() == 4,
        query@.binds[0] == BindView::Text(organization_id@),
        query@.binds[1] == BindView::Truth(include_archived),
        query@.binds[2] == BindView::Number(page_start(after)),
        query@.binds[3] == BindView::Number(limit as int),
{
}

/// A listing of receipts asks for the organization's, of one flag or all, in one environment or
/// all, behind the given row and up to the limit.
pub proof fn lemma_list_receipts(
    organization_id: &str,
    flag_key: Option<&str>,
    environment_key: Option<&str>,
    after: Option<i64>,
    limit: i64,
    query: Query,
)
    requires
        call_ensures(
            list_receipts,
            (organization_id, flag_key, environment_key, after, limit),
            query,
        ),
    ensures
        query.label@ == "list evaluation receipts"@,
        query.sql@
            == "SELECT * FROM feature_evaluation_receipts WHERE organization_id=$1 AND ($2::text IS NULL OR flag_key=$2) AND ($3::text IS NULL OR environment_key=$3) AND row_seq>$4 ORDER BY row_seq LIMIT $5"@,
        query@.binds.len() == 5,
        query@.binds[0] == BindView::Text(organization_id@),
        query@.binds[1] == BindView::OptionalText(optional_str(flag_key)),
        query@.binds[2] == BindView::OptionalText(optional_str(environment_key)),
        query@.binds[3] == BindView::Number(page_start(after)),
        query@.binds[4] == BindView::Number(limit as int),
{
}

/// A statement on one flag or one environment binds the organization first and the key second; one
/// on a ruleset binds the flag next and the environment last.
pub proof fn lemma_keys_are_bound_in_order(
    label: &'static str,
    sql: &'static str,
    organization_id: &str,
    key: &str,
    environment_key: &str,
    query: Query,
    place: Query,
)
    requires
        call_ensures(keyed, (label, sql, organization_id, key), query),
        call_ensures(placed, (label, sql, organization_id, key, environment_key), place),
    ensures
        query.label@ == label@,
        query.sql@ == sql@,
        query@.binds.len() == 2,
        query@.binds[0] == BindView::Text(organization_id@),
        query@.binds[1] == BindView::Text(key@),
        place.label@ == label@,
        place.sql@ == sql@,
        place@.binds.len() == 3,
        place@.binds[0] == BindView::Text(organization_id@),
        place@.binds[1] == BindView::Text(key@),
        place@.binds[2] == BindView::Text(environment_key@),
{
}

/// Flags are read and changed by organization and key: what changes a flag advances its revision by
/// one, and what must not be changed meanwhile is locked.
pub proof fn lemma_flag_statements()
    ensures
        READ_FLAG@
            == "SELECT * FROM feature_flags WHERE organization_id=$1 AND flag_key=$2"@,
        LOCK_FLAG@
            == "SELECT revision,archived,value_type FROM feature_flags WHERE organization_id=$1 AND flag_key=$2 FOR UPDATE"@,
        ARCHIVE_FLAG@
            == "UPDATE feature_flags SET archived=true,archived_at=clock_timestamp(),revision=revision+1,updated_at=clock_timestamp() WHERE organization_id=$1 AND flag_key=$2"@,
        BUMP_FLAG@
            == "UPDATE feature_flags SET revision=revision+1,updated_at=clock_timestamp() WHERE organization_id=$1 AND flag_key=$2 RETURNING revision"@,
        EVALUATION_FLAG@
            == "SELECT value_type,archived FROM feature_flags WHERE organization_id=$1 AND flag_key=$2 FOR SHARE"@,
{
}

/// Environments are read and changed by organization and key: what changes an environment advances
/// its revision by one, and what must not be changed meanwhile is locked.
pub proof fn lemma_environment_statements()
    ensures
        READ_ENVIRONMENT@
            == "SELECT * FROM feature_environments WHERE organization_id=$1 AND environment_key=$2"@,
        LOCK_ENVIRONMENT@
            == "SELECT revision FROM feature_environments WHERE organization_id=$1 AND environment_key=$2 FOR UPDATE"@,
        BUMP_ENVIRONMENT@
            == "UPDATE feature_environments SET revision=revision+1,updated_at=clock_timestamp() WHERE organization_id=$1 AND environment_key=$2 RETURNING revision"@,
        EVALUATION_ENVIRONMENT@
            == "SELECT 1 FROM feature_environments WHERE organization_id=$1 AND environment_key=$2"@,
{
}

/// Rulesets are numbered one by one from one on, by organization, flag and environment, and the one
/// that is evaluated is that of the highest number.
pub proof fn lemma_ruleset_statements()
    ensures
        NEXT_RULESET@
            == "SELECT COALESCE(MAX(ruleset_revision),0)+1 FROM feature_rulesets WHERE organization_id=$1 AND flag_key=$2 AND environment_key=$3"@,
        LATEST_RULESET@
            == "SELECT ruleset_revision,ruleset_json FROM feature_rulesets WHERE organization_id=$1 AND flag_key=$2 AND environment_key=$3 ORDER BY ruleset_revision DESC LIMIT 1"@,
{
}

} // verus!
