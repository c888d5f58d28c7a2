//! The statements that the store sends, and the bounds on a batch of them.

use vstd::prelude::*;
use vstd::string::*;
use crate::decimal::{i64_text, integer_text};
use crate::domain::{
    optional_str, texts, Command, CommandView, EnvironmentRecord, EnvironmentView, FlagRecord,
    FlagView, PublishRecord, PublishView,
};
use crate::json::{bytes_text, json_bytes, json_text_list, text_list};
use crate::page::{
    is_flag_page, is_receipt_page, lemma_page_continues, listed_receipts, page_start,
    places_distinct, receipt_place, start_after, OwnedReceipt,
};

verus! {

/// A value that a statement binds.
#[derive(Debug, PartialEq)]
pub enum Param {
    Text(String),
    Integer(i64),
    Null,
}

/// The model of a `Param`.
pub enum ParamView {
    Text(Seq<char>),
    Integer(int),
    Null,
}

impl View for Param {
    type V = ParamView;

    open spec fn view(&self) -> ParamView {
        match *self {
            Param::Text(text) => ParamView::Text(text@),
            Param::Integer(number) => ParamView::Integer(number as int),
            Param::Null => ParamView::Null,
        }
    }
}

/// Bound values, each taken by its model.
pub open spec fn params_view(params: Seq<Param>) -> Seq<ParamView> {
    params.map_values(|param: Param| param@)
}

/// One statement with the values that it binds.
#[derive(Debug, PartialEq)]
pub struct Statement {
    pub sql: String,
    pub params: Vec<Param>,
}

/// The model of a `Statement`.
pub struct StatementView {
    pub sql: Seq<char>,
    pub params: Seq<ParamView>,
}

impl View for Statement {
    type V = StatementView;

    open spec fn view(&self) -> StatementView {
        StatementView {
            sql: self.sql@,
            params: params_view(self.params@),
        }
    }
}

/// A batch, with each statement taken by its model.
pub open spec fn batch_view(batch: Seq<Statement>) -> Seq<StatementView> {
    batch.map_values(|statement: Statement| statement@)
}

/// Binds a text.
fn text(value: &str) -> (param: Param)
    ensures
        param@ == ParamView::Text(value@),
{
    Param::Text(value.to_owned())
}

/// What an optional text binds as.
pub open spec fn optional_param(value: Option<Seq<char>>) -> ParamView {
    match value {
        Some(text) => ParamView::Text(text),
        None => ParamView::Null,
    }
}

/// Binds a text or, where there is none, null.
fn text_or_null(value: Option<&str>) -> (param: Param)
    ensures
        param@ == optional_param(optional_str(value)),
{
    match value {
        Some(value) => text(value),
        None => Param::Null,
    }
}

/// A statement of the given text.
fn statement(sql: &str, params: Vec<Param>) -> (statement: Statement)
    ensures
        statement@.sql == sql@,
        statement@.params == params_view(params@),
{
    Statement { sql: sql.to_owned(), params }
}

/// The values that find a command's row.
pub open spec fn command_params(command: CommandView, operation: Seq<char>) -> Seq<ParamView> {
    seq![
        ParamView::Text(command.caller),
        ParamView::Text(command.actor),
        ParamView::Text(operation),
        ParamView::Text(command.key),
    ]
}

/// The values that find a command's row.
pub fn params(command: Command<'_>, operation: &str) -> (params: Vec<Param>)
    ensures
        params_view(params@) == command_params(command@, operation@),
{
    let params = vec![
        text(command.caller),
        text(command.actor),
        text(operation),
        text(command.key),
    ];
    assert(params_view(params@) =~= command_params(command@, operation@));
    params
}

/// The text of a statement that reads a command's row.
pub const COMMAND_QUERY: &'static str =
    "SELECT request_hash,response FROM feature_commands WHERE caller=?1 AND actor=?2 AND operation=?3 AND command_key=?4";

/// The statement that reads a command's row.
pub open spec fn command_query_of(command: CommandView, operation: Seq<char>) -> StatementView {
    StatementView { sql: COMMAND_QUERY@, params: command_params(command, operation) }
}

/// The statement that reads a command's row.
pub fn command_query(command: Command<'_>, operation: &str) -> (query: Statement)
    ensures
        query@ == command_query_of(command@, operation@),
{
    statement(COMMAND_QUERY, params(command, operation))
}

/// The text of the statement that inserts a flag.
pub const INSERT_FLAG: &'static str =
    "INSERT INTO feature_flags(organization_id,flag_key,row_seq,record) VALUES(?1,?2,?3,?4)";

/// The text of the statement that replaces a flag's record.
pub const UPDATE_FLAG: &'static str =
    "UPDATE feature_flags SET record=?3 WHERE organization_id=?1 AND flag_key=?2";

/// The statement that writes a flag, given the JSON text of its record.
pub open spec fn flag_write_of(flag: FlagView, record: Seq<char>, create: bool) -> StatementView {
    if create {
        StatementView {
            sql: INSERT_FLAG@,
            params: seq![
                ParamView::Text(flag.organization_id),
                ParamView::Text(flag.flag_key),
                ParamView::Integer(flag.row_seq),
                ParamView::Text(record),
            ],
        }
    } else {
        StatementView {
            sql: UPDATE_FLAG@,
            params: seq![
                ParamView::Text(flag.organization_id),
                ParamView::Text(flag.flag_key),
                ParamView::Text(record),
            ],
        }
    }
}

/// The statement that writes a flag: an insertion where the flag is new, else a replacement.
pub fn flag_write(flag: &FlagRecord, record: &str, create: bool) -> (write: Statement)
    ensures
        write@ == flag_write_of(flag@, record@, create),
{
    let write = if create {
        statement(
            INSERT_FLAG,
            vec![
                text(flag.organization_id.as_str()),
                text(flag.flag_key.as_str()),
                Param::Integer(flag.row_seq),
                text(record),
            ],
        )
    } else {
        statement(
            UPDATE_FLAG,
            vec![
                text(flag.organization_id.as_str()),
                text(flag.flag_key.as_str()),
                text(record),
            ],
        )
    };
    assert(write@.params =~= flag_write_of(flag@, record@, create).params);
    write
}

/// The text of the statement that inserts an environment or replaces its record.
pub const PUT_ENVIRONMENT: &'static str =
    "INSERT INTO feature_environments(organization_id,environment_key,record) VALUES(?1,?2,?3) ON CONFLICT(organization_id,environment_key) DO UPDATE SET record=excluded.record";

/// The statement that writes an environment, given the JSON text of its record.
pub open spec fn environment_write_of(
    environment: EnvironmentView,
    record: Seq<char>,
) -> StatementView {
    StatementView {
        sql: PUT_ENVIRONMENT@,
        params: seq![
            ParamView::Text(environment.organization_id),
            ParamView::Text(environment.environment_key),
            ParamView::Text(record),
        ],
    }
}

/// The statement that writes an environment.
pub fn environment_write(environment: &EnvironmentRecord, record: &str) -> (write: Statement)
    ensures
        write@ == environment_write_of(environment@, record@),
{
    let write = statement(
        PUT_ENVIRONMENT,
        vec![
            text(environment.organization_id.as_str()),
            text(environment.environment_key.as_str()),
            text(record),
        ],
    );
    assert(write@.params =~= environment_write_of(environment@, record@).params);
    write
}

/// The text of the statement that inserts a published ruleset.
pub const INSERT_RULESET: &'static str =
    "INSERT INTO feature_rulesets(organization_id,flag_key,environment_key,revision,definition,publication) VALUES(?1,?2,?3,?4,?5,?6)";

/// The statement that inserts a published ruleset, given the JSON texts of the definition and of
/// the publication.
pub open spec fn ruleset_write_of(
    publication: PublishView,
    definition: Seq<char>,
    record: Seq<char>,
) -> StatementView {
    StatementView {
        sql: INSERT_RULESET@,
        params: seq![
            ParamView::Text(publication.organization_id),
            ParamView::Text(publication.flag_key),
            ParamView::Text(publication.environment_key),
            ParamView::Text(publication.ruleset_revision),
            ParamView::Text(definition),
            ParamView::Text(record),
        ],
    }
}

/// The statement that inserts a published ruleset.
pub fn ruleset_write(publication: &PublishRecord, definition: &str, record: &str) -> (write:
    Statement)
    ensures
        write@ == ruleset_write_of(publication@, definition@, record@),
{
    let write = statement(
        INSERT_RULESET,
        vec![
            text(publication.organization_id.as_str()),
            text(publication.flag_key.as_str()),
            text(publication.environment_key.as_str()),
            text(publication.ruleset_revision.as_str()),
            text(definition),
            text(record),
        ],
    );
    assert(write@.params =~= ruleset_write_of(publication@, definition@, record@).params);
    write
}

/// The text of the statement that inserts the receipts of one operation.
pub const INSERT_RECEIPTS: &'static str =
    "INSERT INTO feature_evaluation_receipts(receipt_id,organization_id,flag_key,environment_key,caller,actor,operation,evaluation_id,record) SELECT json_extract(value,'$.receipt_id'),?1,json_extract(value,'$.flag_key'),json_extract(value,'$.environment_key'),?2,?3,?4,json_extract(value,'$.evaluation_id'),value FROM json_each(?5)";

/// The statement that inserts the receipts of one operation, given their JSON text.
pub open spec fn receipts_write_of(
    organization_id: Seq<char>,
    command: CommandView,
    operation: Seq<char>,
    receipts: Seq<char>,
) -> StatementView {
    StatementView {
        sql: INSERT_RECEIPTS@,
        params: seq![
            ParamView::Text(organization_id),
            ParamView::Text(command.caller),
            ParamView::Text(command.actor),
            ParamView::Text(operation),
            ParamView::Text(receipts),
        ],
    }
}

/// The statement that inserts the receipts of one operation: one statement and five bound values,
/// however many receipts there are.
pub fn receipts_write(
    organization_id: &str,
    command: Command<'_>,
    operation: &str,
    receipts: &str,
) -> (write: Statement)
    ensures
        write@ == receipts_write_of(organization_id@, command@, operation@, receipts@),
{
    let write = statement(
        INSERT_RECEIPTS,
        vec![
            text(organization_id),
            text(command.caller),
            text(command.actor),
            text(operation),
            text(receipts),
        ],
    );
    assert(write@.params =~= receipts_write_of(
        organization_id@,
        command@,
        operation@,
        receipts@,
    ).params);
    write
}

/// The text of the statement that reads the epoch.
pub const EPOCH_QUERY: &'static str =
    "SELECT CAST(revision AS TEXT) AS revision FROM feature_epoch WHERE singleton=1";

/// The text of the statement that reads flags by their keys.
pub const FLAGS_BY_KEY: &'static str =
    "SELECT record FROM feature_flags WHERE organization_id=?1 AND flag_key IN (SELECT value FROM json_each(?2))";

/// The text of the statement that reads an environment.
pub const ENVIRONMENT_QUERY: &'static str =
    "SELECT record FROM feature_environments WHERE organization_id=?1 AND environment_key=?2";

/// The text of the statement that reads the latest ruleset of each of some flags.
pub const LATEST_RULESETS: &'static str =
    "SELECT flag_key,CAST(revision AS TEXT) AS revision,definition FROM feature_rulesets AS r WHERE organization_id=?1 AND environment_key=?2 AND flag_key IN (SELECT value FROM json_each(?3)) AND revision=(SELECT MAX(revision) FROM feature_rulesets WHERE organization_id=r.organization_id AND flag_key=r.flag_key AND environment_key=r.environment_key)";

/// The reads of a snapshot, in order: the epoch, the command's row, the flags, the environment,
/// and the latest ruleset of each flag in the environment.
pub open spec fn snapshot_queries_of(
    command: CommandView,
    operation: Seq<char>,
    organization_id: Seq<char>,
    flags: Seq<Seq<char>>,
    environment: Seq<char>,
) -> Seq<StatementView> {
    seq![
        StatementView { sql: EPOCH_QUERY@, params: seq![] },
        command_query_of(command, operation),
        StatementView {
            sql: FLAGS_BY_KEY@,
            params: seq![
                ParamView::Text(organization_id),
                ParamView::Text(json_text_list(flags)),
            ],
        },
        StatementView {
            sql: ENVIRONMENT_QUERY@,
            params: seq![ParamView::Text(organization_id), ParamView::Text(environment)],
        },
        StatementView {
            sql: LATEST_RULESETS@,
            params: seq![
                ParamView::Text(organization_id),
                ParamView::Text(environment),
                ParamView::Text(json_text_list(flags)),
            ],
        },
    ]
}

/// The reads of a snapshot, to be sent as one batch.
pub fn snapshot_queries(
    command: Command<'_>,
    operation: &str,
    organization_id: &str,
    flags: &[String],
    environment: &str,
) -> (batch: Vec<Statement>)
    ensures
        batch_view(batch@) == snapshot_queries_of(
            command@,
            operation@,
            organization_id@,
            texts(flags@),
            environment@,
        ),
{
    let keys = text_list(flags).unwrap();
    let epoch = statement(EPOCH_QUERY, vec![]);
    assert(epoch@.params =~= Seq::<ParamView>::empty());
    let by_key = statement(FLAGS_BY_KEY, vec![text(organization_id), text(keys.as_str())]);
    assert(by_key@.params =~= seq![ParamView::Text(organization_id@), ParamView::Text(keys@)]);
    let place = statement(ENVIRONMENT_QUERY, vec![text(organization_id), text(environment)]);
    assert(place@.params =~= seq![
        ParamView::Text(organization_id@),
        ParamView::Text(environment@),
    ]);
    let latest = statement(
        LATEST_RULESETS,
        vec![text(organization_id), text(environment), text(keys.as_str())],
    );
    assert(latest@.params =~= seq![
        ParamView::Text(organization_id@),
        ParamView::Text(environment@),
        ParamView::Text(keys@),
    ]);
    let batch = vec![epoch, command_query(command, operation), by_key, place, latest];
    assert(batch_view(batch@) =~= snapshot_queries_of(
        command@,
        operation@,
        organization_id@,
        texts(flags@),
        environment@,
    ));
    batch
}

/// The text of the statement that lets a batch through at one epoch only.
pub const GUARD: &'static str =
    "INSERT INTO feature_guard(value) SELECT CASE WHEN (SELECT CAST(revision AS TEXT) FROM feature_epoch WHERE singleton=1)=?1 THEN 1 ELSE 0 END";

/// The text of the statement that inserts a command's row.
pub const INSERT_COMMAND: &'static str =
    "INSERT INTO feature_commands(caller,actor,operation,command_key,request_hash,response) VALUES(?1,?2,?3,?4,?5,?6)";

/// The text of the statement that advances the epoch.
pub const ADVANCE_EPOCH: &'static str =
    "UPDATE feature_epoch SET revision=revision+1 WHERE singleton=1";

/// The text of the statement that clears the guard.
pub const CLEAR_GUARD: &'static str =
    "DELETE FROM feature_guard";

/// The batch that commits an operation: the guard on the epoch, the command's row with the exact
/// response, the writes, the epoch's advance, and the clearing of the guard.
pub open spec fn commit_batch_of(
    epoch: int,
    command: CommandView,
    operation: Seq<char>,
    response: Seq<char>,
    writes: Seq<StatementView>,
) -> Seq<StatementView> {
    seq![
        StatementView { sql: GUARD@, params: seq![ParamView::Text(integer_text(epoch))] },
        StatementView {
            sql: INSERT_COMMAND@,
            params: command_params(command, operation) + seq![
                ParamView::Text(json_bytes(command.hash)),
                ParamView::Text(response),
            ],
        },
    ] + writes + seq![
        StatementView { sql: ADVANCE_EPOCH@, params: seq![] },
        StatementView { sql: CLEAR_GUARD@, params: seq![] },
    ]
}

/// The batch that commits an operation, given the JSON text of its response and its writes.
pub fn commit_batch(
    epoch: i64,
    command: Command<'_>,
    operation: &str,
    response: &str,
    writes: Vec<Statement>,
) -> (batch: Vec<Statement>)
    ensures
        batch_view(batch@) == commit_batch_of(
            epoch as int,
            command@,
            operation@,
            response@,
            batch_view(writes@),
        ),
{
    let guard = statement(GUARD, vec![Param::Text(i64_text(epoch))]);
    assert(guard@.params =~= seq![ParamView::Text(integer_text(epoch as int))]);
    let mut arguments = params(command, operation);
    let ghost known = arguments@;
    arguments.push(Param::Text(bytes_text(command.hash).unwrap()));
    arguments.push(text(response));
    let admission = statement(INSERT_COMMAND, arguments);
    assert(admission@.params =~= command_params(command@, operation@) + seq![
        ParamView::Text(json_bytes(command@.hash)),
        ParamView::Text(response@),
    ]) by {
        assert(params_view(known).len() == 4);
        assert forall|i: int| 0 <= i < 4 implies admission@.params[i] == command_params(
            command@,
            operation@,
        )[i] by {
            assert(params_view(known)[i] == known[i]@);
        }
    }
    let advance = statement(ADVANCE_EPOCH, vec![]);
    assert(advance@.params =~= Seq::<ParamView>::empty());
    let clear = statement(CLEAR_GUARD, vec![]);
    assert(clear@.params =~= Seq::<ParamView>::empty());
    let mut writes = writes;
    let ghost facts = batch_view(writes@);
    let mut batch = vec![guard, admission];
    batch.append(&mut writes);
    batch.push(advance);
    batch.push(clear);
    assert(batch_view(batch@) =~= commit_batch_of(
        epoch as int,
        command@,
        operation@,
        response@,
        facts,
    ));
    batch
}

/// The text of the statement that reads one flag.
pub const FLAG_QUERY: &'static str =
    "SELECT record FROM feature_flags WHERE organization_id=?1 AND flag_key=?2";

/// The statement that reads one flag.
pub fn flag_query(organization_id: &str, flag_key: &str) -> (query: Statement)
    ensures
        query@ == (StatementView {
            sql: FLAG_QUERY@,
            params: seq![ParamView::Text(organization_id@), ParamView::Text(flag_key@)],
        }),
{
    let query = statement(FLAG_QUERY, vec![text(organization_id), text(flag_key)]);
    assert(query@.params =~= seq![ParamView::Text(organization_id@), ParamView::Text(flag_key@)]);
    query
}

/// The text of the statement that reads a page of flags.
pub const FLAG_PAGE: &'static str =
    "SELECT record FROM feature_flags WHERE organization_id=?1 AND (?2 OR NOT json_extract(record,'$.archived')) AND row_seq>?3 ORDER BY row_seq LIMIT ?4";

/// The statement that reads a page of flags, with or without those that are archived.
pub open spec fn flag_page_query_of(
    organization_id: Seq<char>,
    include_archived: bool,
    after: Option<i64>,
    limit: int,
) -> StatementView {
    StatementView {
        sql: FLAG_PAGE@,
        params: seq![
            ParamView::Text(organization_id),
            ParamView::Integer(if include_archived { 1 } else { 0 }),
            ParamView::Integer(page_start(after)),
            ParamView::Integer(limit),
        ],
    }
}

/// The statement that reads a page of flags, with or without those that are archived.
pub fn flag_page_query(
    organization_id: &str,
    include_archived: bool,
    after: Option<i64>,
    limit: i64,
) -> (query: Statement)
    ensures
        query@ == flag_page_query_of(organization_id@, include_archived, after, limit as int),
{
    let archived: i64 = if include_archived {
        1
    } else {
        0
    };
    let query = statement(
        FLAG_PAGE,
        vec![
            text(organization_id),
            Param::Integer(archived),
            Param::Integer(start_after(after)),
            Param::Integer(limit),
        ],
    );
    assert(query@.params =~= flag_page_query_of(
        organization_id@,
        include_archived,
        after,
        limit as int,
    ).params);
    query
}

/// The page that the statement reads, of the flags that are stored: those of the organization,
/// without the archived ones unless asked for, behind the given row, in the order of their rows, up
/// to the limit.
pub open spec fn reads_flags(
    query: StatementView,
    flags: Set<FlagView>,
    page: Seq<FlagView>,
) -> bool {
    &&& query.sql == FLAG_PAGE@
    &&& is_flag_page(
        flags,
        query.params[0]->Text_0,
        query.params[1]->Integer_0 != 0,
        query.params[2]->Integer_0,
        query.params[3]->Integer_0,
        page,
    )
}

/// The text of the statement that reads a page of receipts.
pub const RECEIPT_PAGE: &'static str =
    "SELECT CAST(row_seq AS TEXT) AS row_seq,record FROM feature_evaluation_receipts WHERE organization_id=?1 AND (?2 IS NULL OR flag_key=?2) AND (?3 IS NULL OR environment_key=?3) AND row_seq>?4 ORDER BY row_seq LIMIT ?5";

/// The statement that reads a page of receipts, of one flag or all, in one environment or all.
pub open spec fn receipt_page_query_of(
    organization_id: Seq<char>,
    flag_key: Option<Seq<char>>,
    environment_key: Option<Seq<char>>,
    after: Option<i64>,
    limit: int,
) -> StatementView {
    StatementView {
        sql: RECEIPT_PAGE@,
        params: seq![
            ParamView::Text(organization_id),
            optional_param(flag_key),
            optional_param(environment_key),
            ParamView::Integer(page_start(after)),
            ParamView::Integer(limit),
        ],
    }
}

/// The statement that reads a page of receipts, of one flag or all, in one environment or all.
pub fn receipt_page_query(
    organization_id: &str,
    flag_key: Option<&str>,
    environment_key: Option<&str>,
    after: Option<i64>,
    limit: i64,
) -> (query: Statement)
    ensures
        query@ == receipt_page_query_of(
            organization_id@,
            optional_str(flag_key),
            optional_str(environment_key),
            after,
            limit as int,
        ),
{
    let query = statement(
        RECEIPT_PAGE,
        vec![
            text(organization_id),
            text_or_null(flag_key),
            text_or_null(environment_key),
            Param::Integer(start_after(after)),
            Param::Integer(limit),
        ],
    );
    assert(query@.params =~= receipt_page_query_of(
        organization_id@,
        optional_str(flag_key),
        optional_str(environment_key),
        after,
        limit as int,
    ).params);
    query
}

/// The text that a parameter binds, where it binds one.
pub open spec fn bound_text(param: ParamView) -> Option<Seq<char>> {
    match param {
        ParamView::Text(text) => Some(text),
        _ => None,
    }
}

/// The page that the statement reads, of the receipts that are stored.
pub open spec fn reads_receipts(
    query: StatementView,
    receipts: Set<OwnedReceipt>,
    page: Seq<OwnedReceipt>,
) -> bool {
    &&& query.sql == RECEIPT_PAGE@
    &&& is_receipt_page(
        receipts,
        query.params[0]->Text_0,
        bound_text(query.params[1]),
        bound_text(query.params[2]),
        query.params[3]->Integer_0,
        query.params[4]->Integer_0,
        page,
    )
}

/// Pages of receipts leave no gap and never overlap: a page, and the page that is asked for after
/// its last receipt, are what one page of as many holds.
pub proof fn lemma_receipt_pages_join(
    receipts: Set<OwnedReceipt>,
    organization_id: Seq<char>,
    flag_key: Option<Seq<char>>,
    environment_key: Option<Seq<char>>,
    after: Option<i64>,
    limit: int,
    page: Seq<OwnedReceipt>,
    more: int,
    next: Seq<OwnedReceipt>,
    whole: Seq<OwnedReceipt>,
)
    requires
        places_distinct(receipts, receipt_place()),
        page.len() > 0,
        i64::MIN <= page.last().receipt.row_seq <= i64::MAX,
        reads_receipts(
            receipt_page_query_of(organization_id, flag_key, environment_key, after, limit),
            receipts,
            page,
        ),
        reads_receipts(
            receipt_page_query_of(
                organization_id,
                flag_key,
                environment_key,
                Some(page.last().receipt.row_seq as i64),
                more,
            ),
            receipts,
            next,
        ),
        reads_receipts(
            receipt_page_query_of(
                organization_id,
                flag_key,
                environment_key,
                after,
                page.len() + more,
            ),
            receipts,
            whole,
        ),
    ensures
        whole == page + next,
{
    lemma_page_continues(
        listed_receipts(receipts, organization_id, flag_key, environment_key),
        receipt_place(),
        page_start(after),
        limit,
        page,
        more,
        next,
        whole,
    );
}

/// The most statements in a batch.
pub const MAX_STATEMENTS: usize = 128;

/// The most values that a statement binds.
pub const MAX_PARAMS: usize = 100;

/// A batch that can be sent: neither empty nor over the bounds.
pub open spec fn batch_admissible(batch: Seq<StatementView>) -> bool {
    &&& 0 < batch.len() <= MAX_STATEMENTS
    &&& forall|i: int| 0 <= i < batch.len() ==> (#[trigger] batch[i]).params.len() <= MAX_PARAMS
}

/// Whether a batch can be sent.
pub fn admits_batch(batch: &Vec<Statement>) -> (admitted: bool)
    ensures
        admitted == batch_admissible(batch_view(batch@)),
{
    if batch.len() == 0 || batch.len() > MAX_STATEMENTS {
        return false;
    }
    let ghost statements = batch_view(batch@);
    let mut i: usize = 0;
    while i < batch.len()
        invariant
            i <= batch@.len(),
            statements == batch_view(batch@),
            forall|j: int| 0 <= j < i ==> (#[trigger] statements[j]).params.len() <= MAX_PARAMS,
        decreases batch@.len() - i,
    {
        assert(statements[i as int].params.len() == batch@[i as int].params@.len());
        if batch[i].params.len() > MAX_PARAMS {
            return false;
        }
        i += 1;
    }
    true
}

/// A commit with few writes fits in one batch: up to a hundred and twenty-four writes whose bound
/// values are within the bounds.
pub proof fn lemma_commit_fits(
    epoch: int,
    command: CommandView,
    operation: Seq<char>,
    response: Seq<char>,
    writes: Seq<StatementView>,
)
    requires
        writes.len() <= 124,
        forall|i: int| 0 <= i < writes.len() ==> (#[trigger] writes[i]).params.len() <= MAX_PARAMS,
    ensures
        batch_admissible(commit_batch_of(epoch, command, operation, response, writes)),
{
    let batch = commit_batch_of(epoch, command, operation, response, writes);
    assert forall|i: int| 0 <= i < batch.len() implies (#[trigger] batch[i]).params.len()
        <= MAX_PARAMS by {
        if 2 <= i < writes.len() + 2 {
            assert(batch[i] == writes[i - 2]);
        }
    }
}

} // verus!
