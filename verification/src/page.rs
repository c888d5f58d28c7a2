//! Pages of a listing: where one starts, what it holds, and how it is followed by the next.

use vstd::prelude::*;
use crate::domain::{FlagView, ReceiptView};

verus! {

/// Where a page starts: after the given row, or before the first.
pub open spec fn page_start(after: Option<i64>) -> int {
    match after {
        Some(row) => row as int,
        None => 0,
    }
}

/// Where a page starts.
pub fn start_after(after: Option<i64>) -> (row: i64)
    ensures
        row == page_start(after),
{
    match after {
        Some(row) => row,
        None => 0,
    }
}

/// No two rows stand at the same place.
pub open spec fn places_distinct<R>(rows: Set<R>, place: spec_fn(R) -> int) -> bool {
    forall|a: R, b: R| #[trigger]
        rows.contains(a) && #[trigger] rows.contains(b) && place(a) == place(b) ==> a == b
}

/// A list of rows is the page after a place: rows that stand behind it, in order, at most as many
/// as the limit. A row behind the place is left out only where the page is full, and stands behind
/// all of the page then.
pub open spec fn is_page<R>(
    rows: Set<R>,
    place: spec_fn(R) -> int,
    start: int,
    limit: int,
    page: Seq<R>,
) -> bool {
    &&& page.len() <= limit
    &&& forall|i: int|
        0 <= i < page.len() ==> rows.contains(#[trigger] page[i]) && start < place(page[i])
    &&& forall|i: int, j: int|
        0 <= i < j < page.len() ==> place(#[trigger] page[i]) < place(#[trigger] page[j])
    &&& forall|row: R| #[trigger]
        rows.contains(row) && start < place(row) ==> page.contains(row) || (page.len() == limit
            && stands_behind(place, row, page))
}

/// The row stands behind all of the page.
pub open spec fn stands_behind<R>(place: spec_fn(R) -> int, row: R, page: Seq<R>) -> bool {
    forall|i: int| 0 <= i < page.len() ==> place(#[trigger] page[i]) < place(row)
}

proof fn lemma_row_of_page_comes_first<R>(
    rows: Set<R>,
    place: spec_fn(R) -> int,
    start: int,
    limit: int,
    page: Seq<R>,
    other: Seq<R>,
    i: int,
)
    requires
        is_page(rows, place, start, limit, page),
        is_page(rows, place, start, limit, other),
        0 <= i < page.len(),
        i < other.len(),
        forall|j: int| 0 <= j < i ==> page[j] == other[j],
    ensures
        place(other[i]) <= place(page[i]),
{
    let row = page[i];
    assert(rows.contains(row));
    if other.contains(row) {
        let j = choose|j: int| 0 <= j < other.len() && other[j] == row;
        if j < i {
            assert(page[j] == row);
            assert(place(page[j]) < place(page[i]));
        }
    } else {
        assert(stands_behind(place, row, other));
    }
}

proof fn lemma_pages_agree<R>(
    rows: Set<R>,
    place: spec_fn(R) -> int,
    start: int,
    limit: int,
    a: Seq<R>,
    b: Seq<R>,
    n: int,
)
    requires
        places_distinct(rows, place),
        is_page(rows, place, start, limit, a),
        is_page(rows, place, start, limit, b),
        0 <= n <= a.len(),
        n <= b.len(),
    ensures
        forall|i: int| 0 <= i < n ==> a[i] == b[i],
    decreases n,
{
    if n > 0 {
        lemma_pages_agree(rows, place, start, limit, a, b, n - 1);
        lemma_row_of_page_comes_first(rows, place, start, limit, a, b, n - 1);
        lemma_row_of_page_comes_first(rows, place, start, limit, b, a, n - 1);
        assert(rows.contains(a[n - 1]) && rows.contains(b[n - 1]));
    }
}

proof fn lemma_page_is_no_shorter<R>(
    rows: Set<R>,
    place: spec_fn(R) -> int,
    start: int,
    limit: int,
    a: Seq<R>,
    b: Seq<R>,
)
    requires
        places_distinct(rows, place),
        is_page(rows, place, start, limit, a),
        is_page(rows, place, start, limit, b),
    ensures
        b.len() <= a.len(),
{
    if a.len() < b.len() {
        let n = a.len() as int;
        lemma_pages_agree(rows, place, start, limit, a, b, n);
        assert(rows.contains(b[n]));
        if a.contains(b[n]) {
            let j = choose|j: int| 0 <= j < a.len() && a[j] == b[n];
            assert(place(b[j]) < place(b[n]));
        }
    }
}

/// There is only one page after a place: where no two rows stand at the same place, two lists that
/// are the page are the same.
pub proof fn lemma_page_is_unique<R>(
    rows: Set<R>,
    place: spec_fn(R) -> int,
    start: int,
    limit: int,
    a: Seq<R>,
    b: Seq<R>,
)
    requires
        places_distinct(rows, place),
        is_page(rows, place, start, limit, a),
        is_page(rows, place, start, limit, b),
    ensures
        a == b,
{
    lemma_page_is_no_shorter(rows, place, start, limit, a, b);
    lemma_page_is_no_shorter(rows, place, start, limit, b, a);
    lemma_pages_agree(rows, place, start, limit, a, b, a.len() as int);
    assert(a =~= b);
}

/// Pages leave no gap and never overlap: a page and the page after its last row are, one behind the
/// other, one longer page.
pub proof fn lemma_pages_join<R>(
    rows: Set<R>,
    place: spec_fn(R) -> int,
    start: int,
    limit: int,
    page: Seq<R>,
    more: int,
    next: Seq<R>,
)
    requires
        page.len() > 0,
        is_page(rows, place, start, limit, page),
        is_page(rows, place, place(page.last()), more, next),
    ensures
        is_page(rows, place, start, page.len() + more, page + next),
{
    let whole = page + next;
    let last = page.last();
    assert(last == page[page.len() - 1]);
    assert forall|i: int| 0 <= i < whole.len() implies rows.contains(#[trigger] whole[i]) && start
        < place(whole[i]) by {
        if i < page.len() {
            assert(whole[i] == page[i]);
        } else {
            assert(whole[i] == next[i - page.len()]);
        }
    }
    assert forall|i: int, j: int| 0 <= i < j < whole.len() implies place(#[trigger] whole[i])
        < place(#[trigger] whole[j]) by {
        if j < page.len() {
            assert(whole[i] == page[i] && whole[j] == page[j]);
        } else if i < page.len() {
            assert(whole[i] == page[i] && whole[j] == next[j - page.len()]);
        } else {
            assert(whole[i] == next[i - page.len()] && whole[j] == next[j - page.len()]);
        }
    }
    assert forall|row: R| #[trigger] rows.contains(row) && start < place(row) implies whole.contains(
        row,
    ) || (whole.len() == page.len() + more && stands_behind(place, row, whole)) by {
        if page.contains(row) {
            let i = choose|i: int| 0 <= i < page.len() && page[i] == row;
            assert(whole[i] == row);
        } else {
            assert(place(page[page.len() - 1]) < place(row));
            if next.contains(row) {
                let i = choose|i: int| 0 <= i < next.len() && next[i] == row;
                assert(whole[page.len() + i] == row);
            }
        }
    }
}

/// A page and the page after its last row are what one page of as many rows holds.
pub proof fn lemma_page_continues<R>(
    rows: Set<R>,
    place: spec_fn(R) -> int,
    start: int,
    limit: int,
    page: Seq<R>,
    more: int,
    next: Seq<R>,
    whole: Seq<R>,
)
    requires
        places_distinct(rows, place),
        page.len() > 0,
        is_page(rows, place, start, limit, page),
        is_page(rows, place, place(page.last()), more, next),
        is_page(rows, place, start, page.len() + more, whole),
    ensures
        whole == page + next,
{
    lemma_pages_join(rows, place, start, limit, page, more, next);
    lemma_page_is_unique(rows, place, start, page.len() + more, whole, page + next);
}

proof fn lemma_first_row<R>(rows: Set<R>, place: spec_fn(R) -> int) -> (first: R)
    requires
        rows.finite(),
        rows.len() > 0,
    ensures
        rows.contains(first),
        forall|row: R| #[trigger] rows.contains(row) ==> place(first) <= place(row),
    decreases rows.len(),
{
    let some = rows.choose();
    let rest = rows.remove(some);
    if rest.len() == 0 {
        assert forall|row: R| #[trigger] rows.contains(row) implies place(some) <= place(row) by {
            if row != some {
                assert(rest.contains(row));
            }
        }
        some
    } else {
        let first = lemma_first_row(rest, place);
        assert(forall|row: R| #[trigger] rows.contains(row) ==> row == some || rest.contains(row));
        if place(some) <= place(first) {
            some
        } else {
            first
        }
    }
}

/// Of finitely many rows there is a page after every place, whatever the limit.
pub proof fn lemma_page_exists<R>(
    rows: Set<R>,
    place: spec_fn(R) -> int,
    start: int,
    limit: int,
) -> (page: Seq<R>)
    requires
        rows.finite(),
        places_distinct(rows, place),
        limit >= 0,
    ensures
        is_page(rows, place, start, limit, page),
    decreases limit,
{
    let behind = rows.filter(|row: R| start < place(row));
    if limit == 0 || behind.len() == 0 {
        assert forall|row: R| #[trigger] rows.contains(row) && start < place(row) implies limit
            == 0 by {
            assert(behind.contains(row));
        }
        Seq::empty()
    } else {
        let first = lemma_first_row(behind, place);
        let page = seq![first];
        assert(behind.contains(first));
        assert forall|row: R| #[trigger] rows.contains(row) && start < place(row) implies
            page.contains(row) || (page.len() == 1 && stands_behind(place, row, page)) by {
            assert(behind.contains(row));
            assert(page[0] == first);
        }
        let next = lemma_page_exists(rows, place, place(first), limit - 1);
        lemma_pages_join(rows, place, start, 1, page, limit - 1, next);
        page + next
    }
}

/// The flags that a listing of an organization goes over, with or without those that are archived.
pub open spec fn listed_flags(
    flags: Set<FlagView>,
    organization_id: Seq<char>,
    include_archived: bool,
) -> Set<FlagView> {
    flags.filter(
        |flag: FlagView|
            flag.organization_id == organization_id && (include_archived || !flag.archived),
    )
}

/// Where a flag stands.
pub open spec fn flag_place() -> spec_fn(FlagView) -> int {
    |flag: FlagView| flag.row_seq
}

/// A page of an organization's flags.
pub open spec fn is_flag_page(
    flags: Set<FlagView>,
    organization_id: Seq<char>,
    include_archived: bool,
    start: int,
    limit: int,
    page: Seq<FlagView>,
) -> bool {
    is_page(
        listed_flags(flags, organization_id, include_archived),
        flag_place(),
        start,
        limit,
        page,
    )
}

/// A receipt of an organization.
pub struct OwnedReceipt {
    pub organization_id: Seq<char>,
    pub receipt: ReceiptView,
}

/// The receipts that a listing of an organization goes over: of one flag or all, in one environment
/// or all.
pub open spec fn listed_receipts(
    receipts: Set<OwnedReceipt>,
    organization_id: Seq<char>,
    flag_key: Option<Seq<char>>,
    environment_key: Option<Seq<char>>,
) -> Set<OwnedReceipt> {
    receipts.filter(
        |owned: OwnedReceipt|
            owned.organization_id == organization_id && (flag_key is None || flag_key == Some(
                owned.receipt.flag_key,
            )) && (environment_key is None || environment_key == Some(
                owned.receipt.environment_key,
            )),
    )
}

/// Where a receipt stands.
pub open spec fn receipt_place() -> spec_fn(OwnedReceipt) -> int {
    |owned: OwnedReceipt| owned.receipt.row_seq
}

/// A page of an organization's receipts.
pub open spec fn is_receipt_page(
    receipts: Set<OwnedReceipt>,
    organization_id: Seq<char>,
    flag_key: Option<Seq<char>>,
    environment_key: Option<Seq<char>>,
    start: int,
    limit: int,
    page: Seq<OwnedReceipt>,
) -> bool {
    is_page(
        listed_receipts(receipts, organization_id, flag_key, environment_key),
        receipt_place(),
        start,
        limit,
        page,
    )
}

} // verus!
