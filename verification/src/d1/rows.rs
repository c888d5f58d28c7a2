//! The rows that the store reads, and what it takes from them.

use vstd::prelude::*;
use crate::domain::{
    optional_text, outcome, Command, CommandView, DomainFailure, ErrorView, ReceiptRecord,
    ReceiptView, StorageError,
};
use crate::json::{
    bytes_text, compact_text, json_bytes, json_compact, json_member, json_value,
    lemma_json_bytes_injective, member, JsonValue, JsonView,
};
use crate::keyed::KeyedMap;
use crate::ruleset::keys_of;
use crate::text::text_equal;
use super::revision::{failure, failure_view, revision, revision_of};

verus! {

/// A column of a row: a text, or something that the store does not read.
#[derive(Debug)]
pub enum Column {
    Text(String),
    Other,
}

/// The model of a `Column`.
pub enum ColumnView {
    Text(Seq<char>),
    Other,
}

impl View for Column {
    type V = ColumnView;

    open spec fn view(&self) -> ColumnView {
        match *self {
            Column::Text(text) => ColumnView::Text(text@),
            Column::Other => ColumnView::Other,
        }
    }
}

/// A row, by the names of its columns.
pub type Row = KeyedMap<Column>;

/// The model of a row.
pub open spec fn row_view(row: Map<Seq<char>, Column>) -> Map<Seq<char>, ColumnView> {
    row.map_values(|column: Column| column@)
}

/// The models of some rows.
pub open spec fn rows_view(rows: Seq<Row>) -> Seq<Map<Seq<char>, ColumnView>> {
    rows.map_values(|row: Row| row_view(row@))
}

/// The text in a column, where the row has the column and it is a text.
pub open spec fn column_text(row: Map<Seq<char>, ColumnView>, name: Seq<char>) -> Option<
    Seq<char>,
> {
    if row.contains_key(name) {
        match row[name] {
            ColumnView::Text(text) => Some(text),
            ColumnView::Other => None,
        }
    } else {
        None
    }
}

/// The text in a column, where the row has the column and it is a text.
pub fn read_column<'a>(row: &'a Row, name: &str) -> (text: Option<&'a str>)
    ensures
        text matches Some(found) ==> column_text(row_view(row@), name@) == Some(found@),
        text is None ==> column_text(row_view(row@), name@) is None,
{
    match row.get(name) {
        Some(Column::Text(text)) => Some(text.as_str()),
        _ => None,
    }
}

/// The text in a column, or the failure of the backend.
pub open spec fn field_of(row: Map<Seq<char>, ColumnView>, name: Seq<char>) -> Result<
    Seq<char>,
    ErrorView,
> {
    match column_text(row, name) {
        Some(text) => Ok(text),
        None => Err(failure_view()),
    }
}

/// Takes the text in a column. A row without it is a failure of the backend.
pub fn field(row: &Row, name: &str) -> (result: Result<String, StorageError>)
    ensures
        outcome(result) == field_of(row_view(row@), name@),
{
    match read_column(row, name) {
        Some(text) => Ok(text.to_owned()),
        None => Err(failure()),
    }
}

/// What a command's rows answer to the command: nothing where there is no row; the response that
/// was stored for the same request; a conflict where the request was another one.
pub open spec fn replay_of(
    rows: Seq<Map<Seq<char>, ColumnView>>,
    command: CommandView,
) -> Result<Option<Seq<char>>, ErrorView> {
    if rows.len() == 0 {
        Ok(None)
    } else if rows.len() == 1 {
        if column_text(rows[0], "request_hash"@) != Some(json_bytes(command.hash)) {
            Err(ErrorView::Domain(DomainFailure::IdempotencyConflict))
        } else {
            match column_text(rows[0], "response"@) {
                Some(response) => Ok(Some(response)),
                None => Err(failure_view()),
            }
        }
    } else {
        Err(failure_view())
    }
}

/// What a replay gives, with texts and error taken by their models.
pub open spec fn replay_outcome(result: Result<Option<String>, StorageError>) -> Result<
    Option<Seq<char>>,
    ErrorView,
> {
    match result {
        Ok(response) => Ok(optional_text(response)),
        Err(error) => Err(error@),
    }
}

/// Looks for the JSON text of a response that was stored for the command.
pub fn replay(rows: &Vec<Row>, command: Command<'_>) -> (result: Result<
    Option<String>,
    StorageError,
>)
    ensures
        replay_outcome(result) == replay_of(rows_view(rows@), command@),
{
    if rows.len() == 0 {
        return Ok(None);
    }
    if rows.len() > 1 {
        return Err(failure());
    }
    let row = &rows[0];
    assert(rows_view(rows@)[0] == row_view(row@));
    let hash = bytes_text(command.hash).unwrap();
    let same = match read_column(row, "request_hash") {
        Some(stored) => text_equal(stored, hash.as_str()),
        None => false,
    };
    if !same {
        return Err(StorageError::from(DomainFailure::IdempotencyConflict));
    }
    match field(row, "response") {
        Ok(response) => Ok(Some(response)),
        Err(error) => Err(error),
    }
}

/// The row that is stored for a command with its response.
pub open spec fn command_row(hash: Seq<u8>, response: Seq<char>) -> Map<Seq<char>, ColumnView> {
    Map::<Seq<char>, ColumnView>::empty().insert(
        "request_hash"@,
        ColumnView::Text(json_bytes(hash)),
    ).insert("response"@, ColumnView::Text(response))
}

/// A command whose row is stored gets the stored response if it is the same request, and a
/// conflict if it is another one under the same key.
pub proof fn lemma_stored_command_replays(
    hash: Seq<u8>,
    response: Seq<char>,
    command: CommandView,
)
    ensures
        replay_of(seq![command_row(hash, response)], command) == if command.hash == hash {
            Ok::<Option<Seq<char>>, ErrorView>(Some(response))
        } else {
            Err(ErrorView::Domain(DomainFailure::IdempotencyConflict))
        },
{
    reveal_strlit("request_hash");
    reveal_strlit("response");
    assert("request_hash"@.len() != "response"@.len());
    if json_bytes(command.hash) == json_bytes(hash) {
        lemma_json_bytes_injective(command.hash, hash);
    }
}

/// The texts of a row of the latest rulesets.
pub struct RulesetRow {
    pub flag_key: String,
    pub revision: String,
    pub definition: String,
}

/// The model of a `RulesetRow`.
pub struct RulesetRowView {
    pub flag_key: Seq<char>,
    pub revision: Seq<char>,
    pub definition: Seq<char>,
}

impl View for RulesetRow {
    type V = RulesetRowView;

    open spec fn view(&self) -> RulesetRowView {
        RulesetRowView {
            flag_key: self.flag_key@,
            revision: self.revision@,
            definition: self.definition@,
        }
    }
}

/// The texts of a row of the latest rulesets, or the failure of the backend.
pub open spec fn ruleset_row_of(row: Map<Seq<char>, ColumnView>) -> Result<
    RulesetRowView,
    ErrorView,
> {
    match (
        column_text(row, "flag_key"@),
        column_text(row, "revision"@),
        column_text(row, "definition"@),
    ) {
        (Some(flag_key), Some(revision), Some(definition)) => Ok(
            RulesetRowView { flag_key, revision, definition },
        ),
        _ => Err(failure_view()),
    }
}

/// Takes the texts of a row of the latest rulesets.
pub fn ruleset_row(row: &Row) -> (result: Result<RulesetRow, StorageError>)
    ensures
        outcome(result) == ruleset_row_of(row_view(row@)),
{
    let flag_key = match field(row, "flag_key") {
        Ok(text) => text,
        Err(error) => return Err(error),
    };
    let revision = match field(row, "revision") {
        Ok(text) => text,
        Err(error) => return Err(error),
    };
    let definition = match field(row, "definition") {
        Ok(text) => text,
        Err(error) => return Err(error),
    };
    Ok(RulesetRow { flag_key, revision, definition })
}

/// The receipt that a stored record and its row hold, or the failure of the backend.
pub open spec fn receipt_of(
    record: Map<Seq<char>, ColumnView>,
    row: Map<Seq<char>, ColumnView>,
) -> Result<ReceiptView, ErrorView> {
    match (
        column_text(record, "receipt_id"@),
        column_text(record, "evaluation_id"@),
        column_text(record, "flag_key"@),
        column_text(record, "environment_key"@),
        column_text(record, "variant_key"@),
        column_text(record, "reason"@),
        column_text(record, "ruleset_revision"@),
        column_text(record, "context_hash"@),
        column_text(record, "evaluated_at"@),
        column_text(row, "row_seq"@),
    ) {
        (
            Some(receipt_id),
            Some(evaluation_id),
            Some(flag_key),
            Some(environment_key),
            Some(variant_key),
            Some(reason),
            Some(ruleset_revision),
            Some(context_hash),
            Some(evaluated_at),
            Some(row_seq),
        ) => match revision_of(row_seq) {
            Ok(n) => Ok(
                ReceiptView {
                    receipt_id,
                    evaluation_id,
                    flag_key,
                    environment_key,
                    variant_key,
                    reason,
                    ruleset_revision,
                    context_hash,
                    evaluated_at,
                    row_seq: n as int,
                },
            ),
            Err(error) => Err(error),
        },
        _ => Err(failure_view()),
    }
}

/// Takes a receipt from its stored record, given as a row of texts, and the row that holds it.
pub fn receipt_from(record: &Row, row: &Row) -> (result: Result<ReceiptRecord, StorageError>)
    ensures
        outcome(result) == receipt_of(row_view(record@), row_view(row@)),
{
    match (
        read_column(record, "receipt_id"),
        read_column(record, "evaluation_id"),
        read_column(record, "flag_key"),
        read_column(record, "environment_key"),
        read_column(record, "variant_key"),
        read_column(record, "reason"),
        read_column(record, "ruleset_revision"),
        read_column(record, "context_hash"),
        read_column(record, "evaluated_at"),
        read_column(row, "row_seq"),
    ) {
        (
            Some(receipt_id),
            Some(evaluation_id),
            Some(flag_key),
            Some(environment_key),
            Some(variant_key),
            Some(reason),
            Some(ruleset_revision),
            Some(context_hash),
            Some(evaluated_at),
            Some(row_seq),
        ) => match revision(row_seq) {
            Ok(n) => Ok(
                ReceiptRecord {
                    receipt_id: receipt_id.to_owned(),
                    evaluation_id: evaluation_id.to_owned(),
                    flag_key: flag_key.to_owned(),
                    environment_key: environment_key.to_owned(),
                    variant_key: variant_key.to_owned(),
                    reason: reason.to_owned(),
                    ruleset_revision: ruleset_revision.to_owned(),
                    context_hash: context_hash.to_owned(),
                    evaluated_at: evaluated_at.to_owned(),
                    row_seq: n,
                },
            ),
            Err(error) => Err(error),
        },
        _ => Err(failure()),
    }
}

/// The columns of a receipt's stored record.
pub open spec fn receipt_columns() -> Seq<Seq<char>> {
    seq![
        "receipt_id"@,
        "evaluation_id"@,
        "flag_key"@,
        "environment_key"@,
        "variant_key"@,
        "reason"@,
        "ruleset_revision"@,
        "context_hash"@,
        "evaluated_at"@,
    ]
}

/// The content of a member of the JSON object that a text holds, where the member is a string.
pub open spec fn member_text(text: Seq<char>, name: Seq<char>) -> Option<Seq<char>> {
    match json_member(text, name) {
        Some(value) => match json_value(value) {
            Some(JsonView::Text(content)) => Some(content),
            _ => None,
        },
        None => None,
    }
}

/// The members of the JSON object that a text holds, as columns: those of the given names that are
/// strings.
pub open spec fn member_columns(text: Seq<char>, names: Seq<Seq<char>>) -> Map<
    Seq<char>,
    ColumnView,
> {
    Map::new(
        |name: Seq<char>| names.contains(name) && member_text(text, name) is Some,
        |name: Seq<char>| ColumnView::Text(member_text(text, name)->0),
    )
}

fn read_member(text: &str, name: &str) -> (content: Option<String>)
    ensures
        optional_text(content) == member_text(text@, name@),
{
    match member(text, name) {
        Some(value) => match JsonValue::parse(value.as_str()) {
            Ok(JsonValue::Text(content)) => Some(content),
            _ => None,
        },
        None => None,
    }
}

fn read_members(text: &str, names: &Vec<&str>) -> (columns: Row)
    ensures
        row_view(columns@) == member_columns(text@, keys_of(names@)),
{
    let ghost keys = keys_of(names@);
    let mut columns: Row = KeyedMap::new();
    assert(row_view(columns@) =~= member_columns(text@, keys.take(0)));
    let mut i: usize = 0;
    while i < names.len()
        invariant
            i <= names@.len(),
            keys == keys_of(names@),
            row_view(columns@) == member_columns(text@, keys.take(i as int)),
        decreases names@.len() - i,
    {
        let ghost before = columns@;
        let ghost shorter = keys.take(i as int);
        let ghost longer = keys.take(i + 1);
        assert(longer =~= shorter.push(keys[i as int]));
        assert(longer[i as int] == keys[i as int]);
        assert forall|name: Seq<char>| #[trigger] longer.contains(name) implies shorter.contains(
            name,
        ) || name == keys[i as int] by {
            let j = choose|j: int| 0 <= j < longer.len() && longer[j] == name;
            if j < i {
                assert(shorter[j] == name);
            }
        }
        assert forall|name: Seq<char>| #[trigger] shorter.contains(name) implies longer.contains(
            name,
        ) by {
            let j = choose|j: int| 0 <= j < shorter.len() && shorter[j] == name;
            assert(longer[j] == name);
        }
        match read_member(text, names[i]) {
            Some(content) => {
                let ghost entry = ColumnView::Text(content@);
                columns.insert(names[i].to_owned(), Column::Text(content));
                assert(row_view(columns@) =~= row_view(before).insert(keys[i as int], entry));
                assert(member_columns(text@, longer) =~= member_columns(text@, shorter).insert(
                    keys[i as int],
                    entry,
                ));
            },
            None => {
                assert(member_columns(text@, longer) =~= member_columns(text@, shorter));
            },
        }
        i += 1;
    }
    assert(keys.take(i as int) =~= keys);
    columns
}

/// The receipt that a stored record, by its JSON text, and its row hold; nothing where the text is
/// not JSON.
pub open spec fn receipt_of_text(record: Seq<char>, row: Map<Seq<char>, ColumnView>) -> Option<
    Result<ReceiptView, ErrorView>,
> {
    if json_compact(record) is None {
        None
    } else {
        Some(receipt_of(member_columns(record, receipt_columns()), row))
    }
}

/// Takes a receipt from the JSON text of its stored record and the row that holds it.
pub fn receipt_from_text(record: &str, row: &Row) -> (result: Result<ReceiptRecord, StorageError>)
    ensures
        match receipt_of_text(record@, row_view(row@)) {
            Some(receipt) => outcome(result) == receipt,
            None => result matches Err(error) && error is Json,
        },
{
    if let Err(error) = compact_text(record) {
        return Err(StorageError::Json(error));
    }
    let names = vec![
        "receipt_id",
        "evaluation_id",
        "flag_key",
        "environment_key",
        "variant_key",
        "reason",
        "ruleset_revision",
        "context_hash",
        "evaluated_at",
    ];
    assert(keys_of(names@) =~= receipt_columns());
    let columns = read_members(record, &names);
    receipt_from(&columns, row)
}

/// Takes a receipt from its row, which holds the record by its JSON text.
pub fn stored_receipt(row: &Row) -> (result: Result<ReceiptRecord, StorageError>)
    ensures
        match field_of(row_view(row@), "record"@) {
            Ok(record) => match receipt_of_text(record, row_view(row@)) {
                Some(receipt) => outcome(result) == receipt,
                None => result matches Err(error) && error is Json,
            },
            Err(error) => outcome(result) == Err::<ReceiptView, ErrorView>(error),
        },
{
    match read_column(row, "record") {
        Some(record) => receipt_from_text(record, row),
        None => Err(failure()),
    }
}

} // verus!
