//! Numbers, texts, times and pages, by what they stand for.

use vstd::prelude::*;
use crate::decimal::{
    all_digits, digits_value, i64_value, integer_text, integer_value, is_digit, lemma_nat_text,
    nat_text,
};
use crate::domain::FlagView;
use crate::page::{listed_flags, listed_receipts, page_start, OwnedReceipt};
use crate::stamp::{calendar_text, rfc3339_text};
use crate::text::{occurs, occurs_at, replaced};

verus! {

/// The ten digits, by their numbers.
pub open spec fn digit_number(c: char) -> bool {
    48 <= c as int <= 57
}

/// At least one digit, and nothing else.
pub open spec fn digit_run(text: Seq<char>) -> bool {
    &&& text.len() > 0
    &&& forall|i: int| 0 <= i < text.len() ==> digit_number(#[trigger] text[i])
}

/// One more digit makes ten times the number, and the digit.
pub proof fn lemma_digits_count_by_ten(text: Seq<char>, digit: char)
    ensures
        digits_value(Seq::<char>::empty()) == 0,
        digits_value(text.push(digit)) == 10 * digits_value(text) + (digit as int - 48),
{
    assert(text.push(digit).drop_last() =~= text);
}

/// A number is written with digits, with a plus sign before them, or with a minus sign before them
/// for its negative; and nothing else is a number.
pub proof fn lemma_number_is_sign_and_digits(text: Seq<char>)
    ensures
        digit_run(text) ==> {
            &&& integer_value(text) == Some(digits_value(text))
            &&& integer_value(seq!['+'] + text) == Some(digits_value(text))
            &&& integer_value(seq!['-'] + text) == Some(-digits_value(text))
        },
        integer_value(text) is Some ==> digit_run(text) || digit_run(text.skip(1)) && (text[0]
            == '+' || text[0] == '-'),
{
    assert((seq!['+'] + text).skip(1) =~= text);
    assert((seq!['-'] + text).skip(1) =~= text);
    if digit_run(text) {
        assert(digit_number(text[0]));
        assert forall|i: int| 0 <= i < text.len() implies is_digit(#[trigger] text[i]) by {
            assert(digit_number(text[i]));
        }
        assert(all_digits(text));
    }
    if integer_value(text) is Some {
        let digits = if text[0] == '-' || text[0] == '+' {
            text.skip(1)
        } else {
            text
        };
        assert(all_digits(digits));
        assert forall|i: int| 0 <= i < digits.len() implies digit_number(#[trigger] digits[i]) by {
            assert(is_digit(digits[i]));
        }
        assert(digit_run(digits));
    }
}

/// A number of 64 bits is a number within its bounds.
pub proof fn lemma_number_of_64_bits_is_bounded(text: Seq<char>)
    ensures
        match integer_value(text) {
            Some(n) => i64_value(text) == if -9223372036854775808 <= n <= 9223372036854775807 {
                Some(n)
            } else {
                None
            },
            None => i64_value(text) is None,
        },
{
}

/// The text of a number is the shortest: it has no leading zero but for zero itself, and a minus
/// sign exactly where the number is negative.
pub proof fn lemma_number_is_written_shortest(n: int)
    ensures
        n == 0 ==> integer_text(n) == seq!['0'],
        n > 0 ==> digit_run(integer_text(n)) && integer_text(n)[0] != '0',
        n < 0 ==> integer_text(n) == seq!['-'] + integer_text(-n),
        n >= 0 ==> digits_value(integer_text(n)) == n,
    decreases n,
{
    if n >= 0 {
        lemma_nat_text(n as nat);
        let text = integer_text(n);
        assert forall|i: int| 0 <= i < text.len() implies digit_number(#[trigger] text[i]) by {
            assert(is_digit(text[i]));
        }
        if n >= 10 {
            lemma_number_is_written_shortest(n / 10);
            assert(nat_text(n as nat)[0] == nat_text((n / 10) as nat)[0]);
        }
    }
}

/// A text that does not hold what is to be replaced is kept as it is.
pub proof fn lemma_text_without_it_is_kept(text: Seq<char>, from: Seq<char>, to: Seq<char>)
    requires
        !occurs(text, from),
    ensures
        replaced(text, from, to) == text,
    decreases text.len(),
{
    if from.len() > 0 && text.len() >= from.len() {
        let n = from.len() as int;
        if text.take(n) == from {
            assert(text.subrange(0, n) =~= text.take(n));
            assert(occurs_at(text, from, 0));
        }
        let rest = text.skip(1);
        if occurs(rest, from) {
            let at = choose|at: int| occurs_at(rest, from, at);
            assert(text.subrange(at + 1, at + 1 + n) =~= rest.subrange(at, at + n));
            assert(occurs_at(text, from, at + 1));
        }
        lemma_text_without_it_is_kept(rest, from, to);
        assert(seq![text[0]] + rest =~= text);
    }
}

/// What stands at the beginning is replaced, and the rest by itself; and a character before which
/// nothing is to be replaced is kept.
pub proof fn lemma_replacing_goes_on(rest: Seq<char>, from: Seq<char>, to: Seq<char>, c: char)
    requires
        from.len() > 0,
    ensures
        replaced(from + rest, from, to) == to + replaced(rest, from, to),
        !from.is_prefix_of(seq![c] + rest) ==> replaced(seq![c] + rest, from, to) == seq![c]
            + replaced(rest, from, to),
{
    let n = from.len() as int;
    let whole = from + rest;
    assert(whole.take(n) =~= from);
    assert(whole.skip(n) =~= rest);
    let kept = seq![c] + rest;
    assert(kept.skip(1) =~= rest);
    if !from.is_prefix_of(kept) {
        if kept.len() >= n {
            assert(kept.take(n) =~= kept.subrange(0, n));
        } else {
            assert(rest.len() < n);
        }
    }
}

/// The time of an instant is its RFC 3339 text; an instant that the calendar does not reach stands
/// for the epoch.
pub proof fn lemma_instant_is_written_or_stands_for_the_epoch(nanos: int)
    requires
        calendar_text(0) is Some,
    ensures
        calendar_text(nanos) is Some ==> rfc3339_text(nanos) == calendar_text(nanos)->0,
        calendar_text(nanos) is None ==> rfc3339_text(nanos) == rfc3339_text(0),
{
}

/// A page begins behind the given row, and the first page before all rows.
pub proof fn lemma_page_begins_behind_its_row(after: Option<i64>)
    ensures
        after is Some ==> page_start(after) == after->0,
        after is None ==> page_start(after) == 0,
{
}

/// A flag is listed exactly if it is the organization's, and is not archived or archived ones were
/// asked for.
pub proof fn lemma_listed_flags(
    flags: Set<FlagView>,
    organization_id: Seq<char>,
    include_archived: bool,
    flag: FlagView,
)
    ensures
        listed_flags(flags, organization_id, include_archived).contains(flag) <==> flags.contains(
            flag,
        ) && flag.organization_id == organization_id && (flag.archived ==> include_archived),
{
}

/// A receipt is listed exactly if it is the organization's, of the flag that was asked for if one
/// was, and in the environment that was asked for if one was.
pub proof fn lemma_listed_receipts(
    receipts: Set<OwnedReceipt>,
    organization_id: Seq<char>,
    flag_key: Option<Seq<char>>,
    environment_key: Option<Seq<char>>,
    owned: OwnedReceipt,
)
    ensures
        listed_receipts(receipts, organization_id, flag_key, environment_key).contains(owned)
            <==> receipts.contains(owned) && owned.organization_id == organization_id && (
        flag_key is Some ==> owned.receipt.flag_key == flag_key->0) && (environment_key is Some
            ==> owned.receipt.environment_key == environment_key->0),
{
}

} // verus!
