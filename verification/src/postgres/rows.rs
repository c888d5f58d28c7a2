//! What the store reads, row by row, and the records that it becomes.

use vstd::prelude::*;
use crate::decimal::{i64_text, integer_text};
use crate::domain::{
    optional_text, DomainFailure, EnvironmentRecord, EnvironmentView, ErrorView, FlagRecord,
    FlagView, ReceiptRecord, ReceiptView, StorageError,
};
use crate::stamp::{format_timestamp, optional_timestamp, rfc3339_text};
use crate::text::text_equal;

verus! {

/// What a locked flag's row says.
#[derive(Debug)]
pub struct LockedFlag {
    pub revision: i64,
    pub archived: bool,
    pub value_type: String,
}

/// The model of a `LockedFlag`.
pub struct LockedFlagView {
    pub revision: int,
    pub archived: bool,
    pub value_type: Seq<char>,
}

impl View for LockedFlag {
    type V = LockedFlagView;

    open spec fn view(&self) -> LockedFlagView {
        LockedFlagView {
            revision: self.revision as int,
            archived: self.archived,
            value_type: self.value_type@,
        }
    }
}

/// Why a flag cannot be changed at the expected revision; nothing where it can.
pub open spec fn lock_refusal(flag: LockedFlagView, expected: int) -> Option<DomainFailure> {
    if flag.archived {
        Some(DomainFailure::Archived)
    } else if flag.revision != expected {
        Some(DomainFailure::RevisionConflict)
    } else {
        None
    }
}

/// Whether a flag can be changed: it is not archived, and its revision is the expected one.
pub fn require_flag_revision(flag: &LockedFlag, expected: i64) -> (result: Result<
    (),
    StorageError,
>)
    ensures
        match lock_refusal(flag@, expected as int) {
            None => result is Ok,
            Some(refusal) => result matches Err(error) && error@ == ErrorView::Domain(refusal),
        },
{
    if flag.archived {
        return Err(StorageError::from(DomainFailure::Archived));
    }
    if flag.revision != expected {
        return Err(StorageError::from(DomainFailure::RevisionConflict));
    }
    Ok(())
}

/// The code of a broken unique constraint.
pub const UNIQUE_VIOLATION: &'static str = "23505";

/// Whether a statement broke a unique constraint, by the code that the database gave, if any.
pub fn unique_violation(code: Option<&str>) -> (unique: bool)
    ensures
        unique == (crate::domain::optional_str(code) == Some(UNIQUE_VIOLATION@)),
{
    match code {
        Some(code) => text_equal(code, UNIQUE_VIOLATION),
        None => false,
    }
}

/// A flag's row. Instants are in nanoseconds since the Unix epoch.
#[derive(Debug)]
pub struct FlagRow {
    pub organization_id: String,
    pub flag_key: String,
    pub name: String,
    pub description: Option<String>,
    pub value_type: String,
    pub archived: bool,
    pub revision: i64,
    pub created_at: i128,
    pub updated_at: i128,
    pub archived_at: Option<i128>,
    pub row_seq: i64,
}

/// The text of an optional instant; the outer option is empty where the instant has none.
pub open spec fn optional_rfc3339(nanos: Option<i128>) -> Option<Option<Seq<char>>> {
    match nanos {
        None => Some(None),
        Some(instant) => match rfc3339_text(instant as int) {
            Some(text) => Some(Some(text)),
            None => None,
        },
    }
}

/// The record of a flag's row; nothing where one of its instants has no text.
pub open spec fn flag_of_row(row: FlagRow) -> Option<FlagView> {
    match (
        rfc3339_text(row.created_at as int),
        rfc3339_text(row.updated_at as int),
        optional_rfc3339(row.archived_at),
    ) {
        (Some(created_at), Some(updated_at), Some(archived_at)) => Some(
            FlagView {
                organization_id: row.organization_id@,
                flag_key: row.flag_key@,
                name: row.name@,
                description: optional_text(row.description),
                value_type: row.value_type@,
                archived: row.archived,
                revision: integer_text(row.revision as int),
                created_at,
                updated_at,
                archived_at,
                row_seq: row.row_seq as int,
            },
        ),
        _ => None,
    }
}

/// Reads a flag's row.
pub fn flag_from_row(row: FlagRow) -> (result: Result<FlagRecord, StorageError>)
    ensures
        match flag_of_row(row) {
            Some(flag) => result matches Ok(record) && record@ == flag,
            None => result matches Err(error) && error is Time,
        },
{
    let created_at = match format_timestamp(row.created_at) {
        Ok(text) => text,
        Err(error) => return Err(error),
    };
    let updated_at = match format_timestamp(row.updated_at) {
        Ok(text) => text,
        Err(error) => return Err(error),
    };
    let archived_at = match optional_timestamp(row.archived_at) {
        Ok(text) => text,
        Err(error) => return Err(error),
    };
    Ok(
        FlagRecord {
            organization_id: row.organization_id,
            flag_key: row.flag_key,
            name: row.name,
            description: row.description,
            value_type: row.value_type,
            archived: row.archived,
            revision: i64_text(row.revision),
            created_at,
            updated_at,
            archived_at,
            row_seq: row.row_seq,
        },
    )
}

/// An environment's row. Instants are in nanoseconds since the Unix epoch.
#[derive(Debug)]
pub struct EnvironmentRow {
    pub organization_id: String,
    pub environment_key: String,
    pub name: String,
    pub revision: i64,
    pub created_at: i128,
    pub updated_at: i128,
}

/// The record of an environment's row; nothing where one of its instants has no text.
pub open spec fn environment_of_row(row: EnvironmentRow) -> Option<EnvironmentView> {
    match (rfc3339_text(row.created_at as int), rfc3339_text(row.updated_at as int)) {
        (Some(created_at), Some(updated_at)) => Some(
            EnvironmentView {
                organization_id: row.organization_id@,
                environment_key: row.environment_key@,
                name: row.name@,
                revision: integer_text(row.revision as int),
                created_at,
                updated_at,
            },
        ),
        _ => None,
    }
}

/// Reads an environment's row.
pub fn environment_from_row(row: EnvironmentRow) -> (result: Result<
    EnvironmentRecord,
    StorageError,
>)
    ensures
        match environment_of_row(row) {
            Some(environment) => result matches Ok(record) && record@ == environment,
            None => result matches Err(error) && error is Time,
        },
{
    let created_at = match format_timestamp(row.created_at) {
        Ok(text) => text,
        Err(error) => return Err(error),
    };
    let updated_at = match format_timestamp(row.updated_at) {
        Ok(text) => text,
        Err(error) => return Err(error),
    };
    Ok(
        EnvironmentRecord {
            organization_id: row.organization_id,
            environment_key: row.environment_key,
            name: row.name,
            revision: i64_text(row.revision),
            created_at,
            updated_at,
        },
    )
}

/// A receipt's row. The instant is in nanoseconds since the Unix epoch.
#[derive(Debug)]
pub struct ReceiptRow {
    pub receipt_id: String,
    pub evaluation_id: String,
    pub flag_key: String,
    pub environment_key: String,
    pub variant_key: String,
    pub reason: String,
    pub ruleset_revision: i64,
    pub context_hash: String,
    pub evaluated_at: i128,
    pub row_seq: i64,
}

/// The record of a receipt's row; nothing where its instant has no text.
pub open spec fn receipt_of_row(row: ReceiptRow) -> Option<ReceiptView> {
    match rfc3339_text(row.evaluated_at as int) {
        Some(evaluated_at) => Some(
            ReceiptView {
                receipt_id: row.receipt_id@,
                evaluation_id: row.evaluation_id@,
                flag_key: row.flag_key@,
                environment_key: row.environment_key@,
                variant_key: row.variant_key@,
                reason: row.reason@,
                ruleset_revision: integer_text(row.ruleset_revision as int),
                context_hash: row.context_hash@,
                evaluated_at,
                row_seq: row.row_seq as int,
            },
        ),
        None => None,
    }
}

/// Reads a receipt's row.
pub fn receipt_from_row(row: ReceiptRow) -> (result: Result<ReceiptRecord, StorageError>)
    ensures
        match receipt_of_row(row) {
            Some(receipt) => result matches Ok(record) && record@ == receipt,
            None => result matches Err(error) && error is Time,
        },
{
    let evaluated_at = match format_timestamp(row.evaluated_at) {
        Ok(text) => text,
        Err(error) => return Err(error),
    };
    Ok(
        ReceiptRecord {
            receipt_id: row.receipt_id,
            evaluation_id: row.evaluation_id,
            flag_key: row.flag_key,
            environment_key: row.environment_key,
            variant_key: row.variant_key,
            reason: row.reason,
            ruleset_revision: i64_text(row.ruleset_revision),
            context_hash: row.context_hash,
            evaluated_at,
            row_seq: row.row_seq,
        },
    )
}

} // verus!
