//! Positive decimal revisions, by which writes are compared and set.

use vstd::prelude::*;
use crate::decimal::{i64_text, i64_value, integer_text, lemma_integer_round_trip, parse_i64};
use crate::domain::{outcome, DomainFailure, ErrorView, FlagRecord, FlagView, StorageError};

verus! {

/// What the store says of a failure of its backend.
pub const FAILURE: &'static str =
    "D1 operation failed; a submitted write may have committed; retry only with the same idempotency key";

/// The failure of the backend.
pub open spec fn failure_view() -> ErrorView {
    ErrorView::Backend(FAILURE@)
}

/// The failure of the backend.
pub fn failure() -> (error: StorageError)
    ensures
        error@ == failure_view(),
{
    StorageError::Backend(FAILURE.to_owned())
}

/// The revision that a text stands for: a positive decimal number of 64 bits.
pub open spec fn revision_of(value: Seq<char>) -> Result<i64, ErrorView> {
    match i64_value(value) {
        Some(n) => if n > 0 {
            Ok(n as i64)
        } else {
            Err(failure_view())
        },
        None => Err(failure_view()),
    }
}

/// Reads a revision. A text that is no positive decimal number of 64 bits is a failure.
pub fn revision(value: &str) -> (result: Result<i64, StorageError>)
    ensures
        outcome(result) == revision_of(value@),
{
    match parse_i64(value) {
        Some(n) => if n > 0 {
            Ok(n)
        } else {
            Err(failure())
        },
        None => Err(failure()),
    }
}

/// The text of the next revision.
pub open spec fn bump_of(value: Seq<char>) -> Result<Seq<char>, ErrorView> {
    match revision_of(value) {
        Ok(n) => if n < i64::MAX {
            Ok(integer_text(n + 1))
        } else {
            Err(failure_view())
        },
        Err(error) => Err(error),
    }
}

/// Writes the next revision. There is none after the last number of 64 bits.
pub fn bump(value: &str) -> (result: Result<String, StorageError>)
    ensures
        outcome(result) == bump_of(value@),
{
    match revision(value) {
        Ok(n) => match n.checked_add(1) {
            Some(next) => Ok(i64_text(next)),
            None => Err(failure()),
        },
        Err(error) => Err(error),
    }
}

/// A bump advances a revision by one, and reads back as what it was advanced to.
pub proof fn lemma_bump_advances(value: Seq<char>)
    ensures
        bump_of(value) matches Ok(next) ==> revision_of(value) is Ok && revision_of(next) == Ok::<
            i64,
            ErrorView,
        >((revision_of(value)->Ok_0 + 1) as i64),
        revision_of(value) is Ok && revision_of(value)->Ok_0 < i64::MAX ==> bump_of(value) is Ok,
{
    if let Ok(n) = revision_of(value) {
        lemma_integer_round_trip(n + 1);
    }
}

/// Why a flag cannot be changed at the expected revision; nothing where it can.
pub open spec fn flag_refusal(flag: FlagView, expected: int) -> Option<ErrorView> {
    if flag.archived {
        Some(ErrorView::Domain(DomainFailure::Archived))
    } else {
        match revision_of(flag.revision) {
            Ok(n) => if n == expected {
                None
            } else {
                Some(ErrorView::Domain(DomainFailure::RevisionConflict))
            },
            Err(error) => Some(error),
        }
    }
}

/// Whether a flag can be changed: it is not archived, and its revision is the expected one.
pub fn require_flag(flag: &FlagRecord, expected: i64) -> (result: Result<(), StorageError>)
    ensures
        match flag_refusal(flag@, expected as int) {
            None => result is Ok,
            Some(refusal) => result matches Err(error) && error@ == refusal,
        },
{
    if flag.archived {
        return Err(StorageError::from(DomainFailure::Archived));
    }
    match revision(flag.revision.as_str()) {
        Ok(n) => if n != expected {
            Err(StorageError::from(DomainFailure::RevisionConflict))
        } else {
            Ok(())
        },
        Err(error) => Err(error),
    }
}

} // verus!
