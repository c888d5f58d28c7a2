//! The statements that the store runs, with the values that they bind.

use vstd::prelude::*;
use crate::domain::{
    optional_str, optional_text, owned_option, Command, CommandView, EvaluationRecord,
    EvaluationView, FlagView, ValueView,
};
use crate::page::{
    flag_place, is_flag_page, is_receipt_page, lemma_page_continues, listed_flags, listed_receipts,
    page_start, places_distinct, receipt_place, start_after, OwnedReceipt,
};

verus! {

/// A value that a statement binds.
#[derive(Debug, PartialEq)]
pub enum Bind {
    Text(String),
    OptionalText(Option<String>),
    Truth(bool),
    Number(i64),
    Bytes(Vec<u8>),
    /// A JSON value, by its text.
    Json(String),
    /// A unique identifier, by its text.
    Identifier(String),
    /// An instant, in nanoseconds since the Unix epoch.
    Instant(i128),
}

/// The model of a `Bind`.
pub enum BindView {
    Text(Seq<char>),
    OptionalText(Option<Seq<char>>),
    Truth(bool),
    Number(int),
    Bytes(Seq<u8>),
    Json(Seq<char>),
    Identifier(Seq<char>),
    Instant(int),
}

impl View for Bind {
    type V = BindView;

    open spec fn view(&self) -> BindView {
        match *self {
            Bind::Text(text) => BindView::Text(text@),
            Bind::OptionalText(text) => BindView::OptionalText(optional_text(text)),
            Bind::Truth(truth) => BindView::Truth(truth),
            Bind::Number(number) => BindView::Number(number as int),
            Bind::Bytes(bytes) => BindView::Bytes(bytes@),
            Bind::Json(text) => BindView::Json(text@),
            Bind::Identifier(text) => BindView::Identifier(text@),
            Bind::Instant(nanos) => BindView::Instant(nanos as int),
        }
    }
}

/// Bound values, each taken by its model.
pub open spec fn binds_view(binds: Seq<Bind>) -> Seq<BindView> {
    binds.map_values(|bind: Bind| bind@)
}

/// A statement: its text, the values that it binds, and what a failure of it is reported under.
#[derive(Debug)]
pub struct Query {
    pub label: &'static str,
    pub sql: &'static str,
    pub binds: Vec<Bind>,
}

/// The model of a `Query`.
pub struct QueryView {
    pub label: Seq<char>,
    pub sql: Seq<char>,
    pub binds: Seq<BindView>,
}

impl View for Query {
    type V = QueryView;

    open spec fn view(&self) -> QueryView {
        QueryView { label: self.label@, sql: self.sql@, binds: binds_view(self.binds@) }
    }
}

fn text(value: &str) -> (bind: Bind)
    ensures
        bind@ == BindView::Text(value@),
{
    Bind::Text(value.to_owned())
}

/// A copy of some bytes.
fn copy_bytes(bytes: &[u8]) -> (copy: Vec<u8>)
    ensures
        copy@ == bytes@,
{
    let mut copy: Vec<u8> = Vec::new();
    let mut i: usize = 0;
    while i < bytes.len()
        invariant
            i <= bytes@.len(),
            copy@ == bytes@.take(i as int),
        decreases bytes@.len() - i,
    {
        copy.push(bytes[i]);
        assert(bytes@.take(i + 1) =~= bytes@.take(i as int).push(bytes@[i as int]));
        i += 1;
    }
    assert(bytes@.take(i as int) =~= bytes@);
    copy
}

/// The values that find a command's row.
pub open spec fn command_binds(command: CommandView, operation: Seq<char>) -> Seq<BindView> {
    seq![
        BindView::Text(command.caller),
        BindView::Text(command.actor),
        BindView::Text(operation),
        BindView::Text(command.key),
    ]
}

/// The text of the statement that reads and locks a command's row.
pub const READ_COMMAND: &'static str =
    "SELECT request_hash,response_json FROM feature_commands WHERE caller_instance=$1 AND actor_subject=$2 AND operation=$3 AND idempotency_key=$4 FOR UPDATE";

/// The statement that reads and locks a command's row.
pub open spec fn read_command_of(command: CommandView, operation: Seq<char>) -> QueryView {
    QueryView {
        label: "read command receipt"@,
        sql: READ_COMMAND@,
        binds: command_binds(command, operation),
    }
}

/// The statement that reads and locks a command's row.
pub fn read_command(command: Command<'_>, operation: &str) -> (query: Query)
    ensures
        query@ == read_command_of(command@, operation@),
{
    let query = Query {
        label: "read command receipt",
        sql: READ_COMMAND,
        binds: vec![
            text(command.caller),
            text(command.actor),
            text(operation),
            text(command.key),
        ],
    };
    assert(query@.binds =~= command_binds(command@, operation@));
    query
}

/// The text of the statement that inserts a command's row, without a response.
pub const INSERT_COMMAND: &'static str =
    "INSERT INTO feature_commands(caller_instance,actor_subject,operation,idempotency_key,request_hash) VALUES($1,$2,$3,$4,$5)";

/// The statement that inserts a command's row, without a response.
pub open spec fn insert_command_of(command: CommandView, operation: Seq<char>) -> QueryView {
    QueryView {
        label: "insert command receipt"@,
        sql: INSERT_COMMAND@,
        binds: command_binds(command, operation).push(BindView::Bytes(command.hash)),
    }
}

/// The statement that inserts a command's row, without a response.
pub fn insert_command(command: Command<'_>, operation: &str) -> (query: Query)
    ensures
        query@ == insert_command_of(command@, operation@),
{
    let query = Query {
        label: "insert command receipt",
        sql: INSERT_COMMAND,
        binds: vec![
            text(command.caller),
            text(command.actor),
            text(operation),
            text(command.key),
            Bind::Bytes(copy_bytes(command.hash)),
        ],
    };
    assert(query@.binds =~= insert_command_of(command@, operation@).binds);
    query
}

/// The text of the statement that stores a command's response.
pub const FINISH_COMMAND: &'static str =
    "UPDATE feature_commands SET response_json=$5 WHERE caller_instance=$1 AND actor_subject=$2 AND operation=$3 AND idempotency_key=$4";

/// The statement that stores a command's response, given by its JSON text.
pub open spec fn finish_command_of(
    command: CommandView,
    operation: Seq<char>,
    response: Seq<char>,
) -> QueryView {
    QueryView {
        label: "finish command receipt"@,
        sql: FINISH_COMMAND@,
        binds: command_binds(command, operation).push(BindView::Json(response)),
    }
}

/// The statement that stores a command's response, given by its JSON text.
pub fn finish_command(command: Command<'_>, operation: &str, response: &str) -> (query: Query)
    ensures
        query@ == finish_command_of(command@, operation@, response@),
{
    let query = Query {
        label: "finish command receipt",
        sql: FINISH_COMMAND,
        binds: vec![
            text(command.caller),
            text(command.actor),
            text(operation),
            text(command.key),
            Bind::Json(response.to_owned()),
        ],
    };
    assert(query@.binds =~= finish_command_of(command@, operation@, response@).binds);
    query
}

/// The statement that binds two keys and nothing else.
pub open spec fn keyed_of(
    label: Seq<char>,
    sql: Seq<char>,
    organization_id: Seq<char>,
    key: Seq<char>,
) -> QueryView {
    QueryView {
        label,
        sql,
        binds: seq![BindView::Text(organization_id), BindView::Text(key)],
    }
}

/// The statement that binds two keys and nothing else.
pub fn keyed(label: &'static str, sql: &'static str, organization_id: &str, key: &str) -> (query:
    Query)
    ensures
        query@ == keyed_of(label@, sql@, organization_id@, key@),
{
    let query = Query { label, sql, binds: vec![text(organization_id), text(key)] };
    assert(query@.binds =~= seq![BindView::Text(organization_id@), BindView::Text(key@)]);
    query
}

/// The text of the statement that reads a flag.
pub const READ_FLAG: &'static str =
    "SELECT * FROM feature_flags WHERE organization_id=$1 AND flag_key=$2";

/// The text of the statement that reads and locks a flag.
pub const LOCK_FLAG: &'static str =
    "SELECT revision,archived,value_type FROM feature_flags WHERE organization_id=$1 AND flag_key=$2 FOR UPDATE";

/// The text of the statement that archives a flag and advances its revision.
pub const ARCHIVE_FLAG: &'static str =
    "UPDATE feature_flags SET archived=true,archived_at=clock_timestamp(),revision=revision+1,updated_at=clock_timestamp() WHERE organization_id=$1 AND flag_key=$2";

/// The text of the statement that advances a flag's revision.
pub const BUMP_FLAG: &'static str =
    "UPDATE feature_flags SET revision=revision+1,updated_at=clock_timestamp() WHERE organization_id=$1 AND flag_key=$2 RETURNING revision";

/// The text of the statement that reads an environment.
pub const READ_ENVIRONMENT: &'static str =
    "SELECT * FROM feature_environments WHERE organization_id=$1 AND environment_key=$2";

/// The text of the statement that reads and locks an environment's revision.
pub const LOCK_ENVIRONMENT: &'static str =
    "SELECT revision FROM feature_environments WHERE organization_id=$1 AND environment_key=$2 FOR UPDATE";

/// The text of the statement that advances an environment's revision.
pub const BUMP_ENVIRONMENT: &'static str =
    "UPDATE feature_environments SET revision=revision+1,updated_at=clock_timestamp() WHERE organization_id=$1 AND environment_key=$2 RETURNING revision";

/// The text of the statement that reads what an evaluation needs of a flag, and holds it shared.
pub const EVALUATION_FLAG: &'static str =
    "SELECT value_type,archived FROM feature_flags WHERE organization_id=$1 AND flag_key=$2 FOR SHARE";

/// The text of the statement that looks for an environment.
pub const EVALUATION_ENVIRONMENT: &'static str =
    "SELECT 1 FROM feature_environments WHERE organization_id=$1 AND environment_key=$2";

/// The text of the statement that inserts a flag.
pub const INSERT_FLAG: &'static str =
    "INSERT INTO feature_flags(organization_id,flag_key,name,description,value_type) VALUES($1,$2,$3,$4,$5)";

/// The statement that inserts a flag.
pub open spec fn insert_flag_of(
    organization_id: Seq<char>,
    flag_key: Seq<char>,
    name: Seq<char>,
    description: Option<Seq<char>>,
    value_type: Seq<char>,
) -> QueryView {
    QueryView {
        label: "insert flag"@,
        sql: INSERT_FLAG@,
        binds: seq![
            BindView::Text(organization_id),
            BindView::Text(flag_key),
            BindView::Text(name),
            BindView::OptionalText(description),
            BindView::Text(value_type),
        ],
    }
}

/// The statement that inserts a flag.
pub fn insert_flag(
    organization_id: &str,
    flag_key: &str,
    name: &str,
    description: Option<&str>,
    value_type: &str,
) -> (query: Query)
    ensures
        query@ == insert_flag_of(
            organization_id@,
            flag_key@,
            name@,
            optional_str(description),
            value_type@,
        ),
{
    let query = Query {
        label: "insert flag",
        sql: INSERT_FLAG,
        binds: vec![
            text(organization_id),
            text(flag_key),
            text(name),
            Bind::OptionalText(owned_option(description)),
            text(value_type),
        ],
    };
    assert(query@.binds =~= insert_flag_of(
        organization_id@,
        flag_key@,
        name@,
        optional_str(description),
        value_type@,
    ).binds);
    query
}

/// The text of the statement that renames a flag and advances its revision.
pub const UPDATE_FLAG: &'static str =
    "UPDATE feature_flags SET name=$3,description=$4,revision=revision+1,updated_at=clock_timestamp() WHERE organization_id=$1 AND flag_key=$2";

/// The statement that renames a flag and advances its revision.
pub open spec fn update_flag_of(
    organization_id: Seq<char>,
    flag_key: Seq<char>,
    name: Seq<char>,
    description: Option<Seq<char>>,
) -> QueryView {
    QueryView {
        label: "update flag"@,
        sql: UPDATE_FLAG@,
        binds: seq![
            BindView::Text(organization_id),
            BindView::Text(flag_key),
            BindView::Text(name),
            BindView::OptionalText(description),
        ],
    }
}

/// The statement that renames a flag and advances its revision.
pub fn update_flag(
    organization_id: &str,
    flag_key: &str,
    name: &str,
    description: Option<&str>,
) -> (query: Query)
    ensures
        query@ == update_flag_of(organization_id@, flag_key@, name@, optional_str(description)),
{
    let query = Query {
        label: "update flag",
        sql: UPDATE_FLAG,
        binds: vec![
            text(organization_id),
            text(flag_key),
            text(name),
            Bind::OptionalText(owned_option(description)),
        ],
    };
    assert(query@.binds =~= update_flag_of(
        organization_id@,
        flag_key@,
        name@,
        optional_str(description),
    ).binds);
    query
}

/// The text of the statement that inserts an environment.
pub const INSERT_ENVIRONMENT: &'static str =
    "INSERT INTO feature_environments(organization_id,environment_key,name) VALUES($1,$2,$3)";

/// The text of the statement that renames an environment and advances its revision.
pub const UPDATE_ENVIRONMENT: &'static str =
    "UPDATE feature_environments SET name=$3,revision=revision+1,updated_at=clock_timestamp() WHERE organization_id=$1 AND environment_key=$2";

/// The statement that inserts an environment, or renames one.
pub open spec fn write_environment_of(
    insert: bool,
    organization_id: Seq<char>,
    environment_key: Seq<char>,
    name: Seq<char>,
) -> QueryView {
    QueryView {
        label: if insert {
            "insert environment"@
        } else {
            "update environment"@
        },
        sql: if insert {
            INSERT_ENVIRONMENT@
        } else {
            UPDATE_ENVIRONMENT@
        },
        binds: seq![
            BindView::Text(organization_id),
            BindView::Text(environment_key),
            BindView::Text(name),
        ],
    }
}

/// The statement that inserts an environment, or renames one.
pub fn write_environment(
    insert: bool,
    organization_id: &str,
    environment_key: &str,
    name: &str,
) -> (query: Query)
    ensures
        query@ == write_environment_of(insert, organization_id@, environment_key@, name@),
{
    let binds = vec![text(organization_id), text(environment_key), text(name)];
    assert(binds_view(binds@) =~= write_environment_of(
        insert,
        organization_id@,
        environment_key@,
        name@,
    ).binds);
    if insert {
        Query { label: "insert environment", sql: INSERT_ENVIRONMENT, binds }
    } else {
        Query { label: "update environment", sql: UPDATE_ENVIRONMENT, binds }
    }
}

/// The text of the statement that gives the next number of a flag's rulesets in an environment.
pub const NEXT_RULESET: &'static str =
    "SELECT COALESCE(MAX(ruleset_revision),0)+1 FROM feature_rulesets WHERE organization_id=$1 AND flag_key=$2 AND environment_key=$3";

/// The text of the statement that reads a flag's latest ruleset in an environment.
pub const LATEST_RULESET: &'static str =
    "SELECT ruleset_revision,ruleset_json FROM feature_rulesets WHERE organization_id=$1 AND flag_key=$2 AND environment_key=$3 ORDER BY ruleset_revision DESC LIMIT 1";

/// The statement that binds an organization, a flag and an environment.
pub open spec fn placed_of(
    label: Seq<char>,
    sql: Seq<char>,
    organization_id: Seq<char>,
    flag_key: Seq<char>,
    environment_key: Seq<char>,
) -> QueryView {
    QueryView {
        label,
        sql,
        binds: seq![
            BindView::Text(organization_id),
            BindView::Text(flag_key),
            BindView::Text(environment_key),
        ],
    }
}

/// The statement that binds an organization, a flag and an environment.
pub fn placed(
    label: &'static str,
    sql: &'static str,
    organization_id: &str,
    flag_key: &str,
    environment_key: &str,
) -> (query: Query)
    ensures
        query@ == placed_of(label@, sql@, organization_id@, flag_key@, environment_key@),
{
    let query = Query {
        label,
        sql,
        binds: vec![text(organization_id), text(flag_key), text(environment_key)],
    };
    assert(query@.binds =~= placed_of(
        label@,
        sql@,
        organization_id@,
        flag_key@,
        environment_key@,
    ).binds);
    query
}

/// The text of the statement that inserts a ruleset and gives the time of its publication.
pub const INSERT_RULESET: &'static str =
    "INSERT INTO feature_rulesets(organization_id,flag_key,environment_key,ruleset_revision,ruleset_json,published_by) VALUES($1,$2,$3,$4,$5,$6) RETURNING published_at";

/// The statement that inserts a ruleset, given by its JSON text.
pub open spec fn insert_ruleset_of(
    organization_id: Seq<char>,
    flag_key: Seq<char>,
    environment_key: Seq<char>,
    number: int,
    ruleset: Seq<char>,
    actor: Seq<char>,
) -> QueryView {
    QueryView {
        label: "insert ruleset"@,
        sql: INSERT_RULESET@,
        binds: seq![
            BindView::Text(organization_id),
            BindView::Text(flag_key),
            BindView::Text(environment_key),
            BindView::Number(number),
            BindView::Json(ruleset),
            BindView::Text(actor),
        ],
    }
}

/// The statement that inserts a ruleset, given by its JSON text.
pub fn insert_ruleset(
    organization_id: &str,
    flag_key: &str,
    environment_key: &str,
    number: i64,
    ruleset: &str,
    actor: &str,
) -> (query: Query)
    ensures
        query@ == insert_ruleset_of(
            organization_id@,
            flag_key@,
            environment_key@,
            number as int,
            ruleset@,
            actor@,
        ),
{
    let query = Query {
        label: "insert ruleset",
        sql: INSERT_RULESET,
        binds: vec![
            text(organization_id),
            text(flag_key),
            text(environment_key),
            Bind::Number(number),
            Bind::Json(ruleset.to_owned()),
            text(actor),
        ],
    };
    assert(query@.binds =~= insert_ruleset_of(
        organization_id@,
        flag_key@,
        environment_key@,
        number as int,
        ruleset@,
        actor@,
    ).binds);
    query
}

/// The text of the statement that inserts the receipt of an evaluation.
pub const INSERT_RECEIPT: &'static str =
    "INSERT INTO feature_evaluation_receipts(receipt_id,caller_instance,actor_subject,operation,evaluation_id,organization_id,flag_key,environment_key,variant_key,reason,ruleset_revision,context_hash,evaluated_at) VALUES($1,$2,$3,$4,$5,$6,$7,$8,$9,$10,$11,$12,$13)";

/// What a receipt holds beside the answer of its evaluation.
pub struct ReceiptFactsView {
    pub operation: Seq<char>,
    pub evaluation_id: Seq<char>,
    pub organization_id: Seq<char>,
    pub ruleset_number: int,
    pub context_hash: Seq<char>,
    pub evaluated_at: int,
}

/// What a receipt holds beside the answer of its evaluation.
#[derive(Clone, Copy, Debug)]
pub struct ReceiptFacts<'a> {
    pub operation: &'a str,
    pub evaluation_id: &'a str,
    pub organization_id: &'a str,
    pub ruleset_number: i64,
    pub context_hash: &'a str,
    pub evaluated_at: i128,
}

impl<'a> View for ReceiptFacts<'a> {
    type V = ReceiptFactsView;

    open spec fn view(&self) -> ReceiptFactsView {
        ReceiptFactsView {
            operation: self.operation@,
            evaluation_id: self.evaluation_id@,
            organization_id: self.organization_id@,
            ruleset_number: self.ruleset_number as int,
            context_hash: self.context_hash@,
            evaluated_at: self.evaluated_at as int,
        }
    }
}

/// The statement that inserts the receipt of an evaluation. Neither the value nor the context is
/// in it.
pub open spec fn insert_receipt_of(
    command: CommandView,
    facts: ReceiptFactsView,
    record: EvaluationView,
) -> QueryView {
    QueryView {
        label: "insert evaluation receipt"@,
        sql: INSERT_RECEIPT@,
        binds: seq![
            BindView::Identifier(record.receipt_id),
            BindView::Text(command.caller),
            BindView::Text(command.actor),
            BindView::Text(facts.operation),
            BindView::Text(facts.evaluation_id),
            BindView::Text(facts.organization_id),
            BindView::Text(record.flag_key),
            BindView::Text(record.environment_key),
            BindView::Text(record.variant_key),
            BindView::Text(record.reason),
            BindView::Number(facts.ruleset_number),
            BindView::Text(facts.context_hash),
            BindView::Instant(facts.evaluated_at),
        ],
    }
}

/// The statement that inserts the receipt of an evaluation.
pub fn insert_receipt(
    command: Command<'_>,
    facts: ReceiptFacts<'_>,
    record: &EvaluationRecord,
) -> (query: Query)
    ensures
        query@ == insert_receipt_of(command@, facts@, record@),
{
    let query = Query {
        label: "insert evaluation receipt",
        sql: INSERT_RECEIPT,
        binds: vec![
            Bind::Identifier(record.receipt_id.clone()),
            text(command.caller),
            text(command.actor),
            text(facts.operation),
            text(facts.evaluation_id),
            text(facts.organization_id),
            Bind::Text(record.flag_key.clone()),
            Bind::Text(record.environment_key.clone()),
            Bind::Text(record.variant_key.clone()),
            Bind::Text(record.reason.clone()),
            Bind::Number(facts.ruleset_number),
            text(facts.context_hash),
            Bind::Instant(facts.evaluated_at),
        ],
    };
    assert(query@.binds =~= insert_receipt_of(command@, facts@, record@).binds);
    query
}

/// A receipt does not tell the value: evaluations that differ in nothing but the value insert the
/// same receipt.
pub proof fn lemma_stored_receipt_hides_value(
    command: CommandView,
    facts: ReceiptFactsView,
    record: EvaluationView,
    value: ValueView,
)
    ensures
        insert_receipt_of(command, facts, record) == insert_receipt_of(
            command,
            facts,
            EvaluationView { value, ..record },
        ),
{
}

/// The text of the statement that lists flags.
pub const LIST_FLAGS: &'static str =
    "SELECT * FROM feature_flags WHERE organization_id=$1 AND ($2 OR NOT archived) AND row_seq>$3 ORDER BY row_seq LIMIT $4";

/// The statement that lists flags.
pub open spec fn list_flags_of(
    organization_id: Seq<char>,
    include_archived: bool,
    after: Option<i64>,
    limit: int,
) -> QueryView {
    QueryView {
        label: "list flags"@,
        sql: LIST_FLAGS@,
        binds: seq![
            BindView::Text(organization_id),
            BindView::Truth(include_archived),
            BindView::Number(page_start(after)),
            BindView::Number(limit),
        ],
    }
}

/// The statement that lists flags.
pub fn list_flags(
    organization_id: &str,
    include_archived: bool,
    after: Option<i64>,
    limit: i64,
) -> (query: Query)
    ensures
        query@ == list_flags_of(organization_id@, include_archived, after, limit as int),
{
    let query = Query {
        label: "list flags",
        sql: LIST_FLAGS,
        binds: vec![
            text(organization_id),
            Bind::Truth(include_archived),
            Bind::Number(start_after(after)),
            Bind::Number(limit),
        ],
    };
    assert(query@.binds =~= list_flags_of(
        organization_id@,
        include_archived,
        after,
        limit as int,
    ).binds);
    query
}

/// The page that the statement that lists flags reads, of the flags that are stored: those of the
/// organization, without the archived ones unless asked for, behind the given row, in the order of
/// their rows, up to the limit.
pub open spec fn reads_flags(query: QueryView, flags: Set<FlagView>, page: Seq<FlagView>) -> bool {
    &&& query.sql == LIST_FLAGS@
    &&& is_flag_page(
        flags,
        query.binds[0]->Text_0,
        query.binds[1]->Truth_0,
        query.binds[2]->Number_0,
        query.binds[3]->Number_0,
        page,
    )
}

/// Pages of flags leave no gap and never overlap: a page, and the page that is asked for after its
/// last flag, are what one listing of as many gives. Each is of the organization, holds archived
/// flags only where asked for, and goes up row by row from behind the given one.
pub proof fn lemma_flag_pages_join(
    flags: Set<FlagView>,
    organization_id: Seq<char>,
    include_archived: bool,
    after: Option<i64>,
    limit: int,
    page: Seq<FlagView>,
    more: int,
    next: Seq<FlagView>,
    whole: Seq<FlagView>,
)
    requires
        places_distinct(flags, flag_place()),
        page.len() > 0,
        i64::MIN <= page.last().row_seq <= i64::MAX,
        reads_flags(list_flags_of(organization_id, include_archived, after, limit), flags, page),
        reads_flags(
            list_flags_of(organization_id, include_archived, Some(page.last().row_seq as i64), more),
            flags,
            next,
        ),
        reads_flags(
            list_flags_of(organization_id, include_archived, after, page.len() + more),
            flags,
            whole,
        ),
    ensures
        whole == page + next,
        forall|i: int|
            0 <= i < whole.len() ==> (#[trigger] whole[i]).organization_id == organization_id && (
            include_archived || !whole[i].archived) && page_start(after) < whole[i].row_seq,
        forall|i: int, j: int|
            0 <= i < j < whole.len() ==> (#[trigger] whole[i]).row_seq < (
            #[trigger] whole[j]).row_seq,
{
    let rows = listed_flags(flags, organization_id, include_archived);
    lemma_page_continues(
        rows,
        flag_place(),
        page_start(after),
        limit,
        page,
        more,
        next,
        whole,
    );
    assert forall|i: int| 0 <= i < whole.len() implies (#[trigger] whole[i]).organization_id
        == organization_id && (include_archived || !whole[i].archived) && page_start(after)
        < whole[i].row_seq by {
        assert(rows.contains(whole[i]));
        assert(flag_place()(whole[i]) == whole[i].row_seq);
    }
    assert forall|i: int, j: int| 0 <= i < j < whole.len() implies (#[trigger] whole[i]).row_seq < (
    #[trigger] whole[j]).row_seq by {
        assert(flag_place()(whole[i]) < flag_place()(whole[j]));
    }
}

/// The text of the statement that lists receipts.
pub const LIST_RECEIPTS: &'static str =
    "SELECT * FROM feature_evaluation_receipts WHERE organization_id=$1 AND ($2::text IS NULL OR flag_key=$2) AND ($3::text IS NULL OR environment_key=$3) AND row_seq>$4 ORDER BY row_seq LIMIT $5";

/// The statement that lists receipts.
pub open spec fn list_receipts_of(
    organization_id: Seq<char>,
    flag_key: Option<Seq<char>>,
    environment_key: Option<Seq<char>>,
    after: Option<i64>,
    limit: int,
) -> QueryView {
    QueryView {
        label: "list evaluation receipts"@,
        sql: LIST_RECEIPTS@,
        binds: seq![
            BindView::Text(organization_id),
            BindView::OptionalText(flag_key),
            BindView::OptionalText(environment_key),
            BindView::Number(page_start(after)),
            BindView::Number(limit),
        ],
    }
}

/// The statement that lists receipts.
pub fn list_receipts(
    organization_id: &str,
    flag_key: Option<&str>,
    environment_key: Option<&str>,
    after: Option<i64>,
    limit: i64,
) -> (query: Query)
    ensures
        query@ == list_receipts_of(
            organization_id@,
            optional_str(flag_key),
            optional_str(environment_key),
            after,
            limit as int,
        ),
{
    let query = Query {
        label: "list evaluation receipts",
        sql: LIST_RECEIPTS,
        binds: vec![
            text(organization_id),
            Bind::OptionalText(owned_option(flag_key)),
            Bind::OptionalText(owned_option(environment_key)),
            Bind::Number(start_after(after)),
            Bind::Number(limit),
        ],
    };
    assert(query@.binds =~= list_receipts_of(
        organization_id@,
        optional_str(flag_key),
        optional_str(environment_key),
        after,
        limit as int,
    ).binds);
    query
}

/// The page that the statement that lists receipts reads, of the receipts that are stored.
pub open spec fn reads_receipts(
    query: QueryView,
    receipts: Set<OwnedReceipt>,
    page: Seq<OwnedReceipt>,
) -> bool {
    &&& query.sql == LIST_RECEIPTS@
    &&& is_receipt_page(
        receipts,
        query.binds[0]->Text_0,
        query.binds[1]->OptionalText_0,
        query.binds[2]->OptionalText_0,
        query.binds[3]->Number_0,
        query.binds[4]->Number_0,
        page,
    )
}

/// Pages of receipts leave no gap and never overlap: a page, and the page that is asked for after
/// its last receipt, are what one listing of as many gives.
pub proof fn lemma_receipt_pages_join(
    receipts: Set<OwnedReceipt>,
    organization_id: Seq<char>,
    flag_key: Option<Seq<char>>,
    environment_key: Option<Seq<char>>,
    after: Option<i64>,
    limit: int,
    page: Seq<OwnedReceipt>,
    more: int,
    next: Seq<OwnedReceipt>,
    whole: Seq<OwnedReceipt>,
)
    requires
        places_distinct(receipts, receipt_place()),
        page.len() > 0,
        i64::MIN <= page.last().receipt.row_seq <= i64::MAX,
        reads_receipts(
            list_receipts_of(organization_id, flag_key, environment_key, after, limit),
            receipts,
            page,
        ),
        reads_receipts(
            list_receipts_of(
                organization_id,
                flag_key,
                environment_key,
                Some(page.last().receipt.row_seq as i64),
                more,
            ),
            receipts,
            next,
        ),
        reads_receipts(
            list_receipts_of(organization_id, flag_key, environment_key, after, page.len() + more),
            receipts,
            whole,
        ),
    ensures
        whole == page + next,
{
    lemma_page_continues(
        listed_receipts(receipts, organization_id, flag_key, environment_key),
        receipt_place(),
        page_start(after),
        limit,
        page,
        more,
        next,
        whole,
    );
}

} // verus!
