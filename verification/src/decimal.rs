//! Decimal text of integers: writing it, reading it back, and what one says of the other.

use vstd::prelude::*;
use vstd::string::*;
use crate::text::characters;

verus! {

/// A decimal digit.
pub open spec fn is_digit(c: char) -> bool {
    '0' <= c && c <= '9'
}

/// Every character is a decimal digit.
pub open spec fn all_digits(text: Seq<char>) -> bool {
    forall|i: int| 0 <= i < text.len() ==> is_digit(#[trigger] text[i])
}

/// The number that a run of digits stands for.
pub open spec fn digits_value(text: Seq<char>) -> int
    decreases text.len(),
{
    if text.len() == 0 {
        0
    } else {
        digits_value(text.drop_last()) * 10 + (text.last() as int - '0' as int)
    }
}

/// The number that a text stands for: an optional sign and at least one digit, nothing else.
pub open spec fn integer_value(text: Seq<char>) -> Option<int> {
    if text.len() == 0 {
        None
    } else if text[0] == '-' || text[0] == '+' {
        let digits = text.skip(1);
        if digits.len() > 0 && all_digits(digits) {
            Some(
                if text[0] == '-' {
                    -digits_value(digits)
                } else {
                    digits_value(digits)
                },
            )
        } else {
            None
        }
    } else if all_digits(text) {
        Some(digits_value(text))
    } else {
        None
    }
}

/// The 64-bit signed number that a text stands for.
pub open spec fn i64_value(text: Seq<char>) -> Option<int> {
    match integer_value(text) {
        Some(n) => if i64::MIN <= n <= i64::MAX {
            Some(n)
        } else {
            None
        },
        None => None,
    }
}

/// The digit that stands for a number under ten.
pub open spec fn digit_of(d: int) -> char {
    ('0' as int + d) as char
}

/// The shortest run of digits that stands for a natural number.
pub open spec fn nat_text(n: nat) -> Seq<char>
    decreases n,
{
    if n < 10 {
        seq![digit_of(n as int)]
    } else {
        nat_text(n / 10).push(digit_of((n % 10) as int))
    }
}

/// The decimal text of an integer: a minus sign where it is negative, and its digits.
pub open spec fn integer_text(n: int) -> Seq<char> {
    if n < 0 {
        seq!['-'] + nat_text((-n) as nat)
    } else {
        nat_text(n as nat)
    }
}

proof fn lemma_digits_value_grows(text: Seq<char>, k: int)
    requires
        all_digits(text),
        0 <= k <= text.len(),
    ensures
        0 <= digits_value(text.take(k)) <= digits_value(text),
    decreases text.len(),
{
    if text.len() == 0 {
        assert(text.take(k) =~= text);
    } else if k == text.len() {
        assert(text.take(k) =~= text);
        lemma_digits_value_grows(text.drop_last(), k - 1);
        assert(is_digit(text[text.len() - 1]));
    } else {
        assert(text.take(k) =~= text.drop_last().take(k));
        lemma_digits_value_grows(text.drop_last(), k);
        assert(is_digit(text[text.len() - 1]));
    }
}

/// The digits of a natural number stand for it.
pub proof fn lemma_nat_text(n: nat)
    ensures
        nat_text(n).len() > 0,
        all_digits(nat_text(n)),
        digits_value(nat_text(n)) == n,
    decreases n,
{
    if n < 10 {
        let text = nat_text(n);
        assert(text.drop_last() =~= Seq::<char>::empty());
        assert(digits_value(text.drop_last()) == 0);
    } else {
        lemma_nat_text(n / 10);
        let text = nat_text(n);
        assert(text.drop_last() =~= nat_text(n / 10));
        assert(text.last() == digit_of((n % 10) as int));
    }
}

/// Reading the decimal text of an integer gives the integer back.
pub proof fn lemma_integer_round_trip(n: int)
    ensures
        integer_value(integer_text(n)) == Some(n),
{
    if n < 0 {
        lemma_nat_text((-n) as nat);
        assert(integer_text(n).skip(1) =~= nat_text((-n) as nat));
    } else {
        lemma_nat_text(n as nat);
        assert(is_digit(nat_text(n as nat)[0]));
    }
}

/// The text of one digit.
fn digit_text(d: u64) -> (text: &'static str)
    requires
        d < 10,
    ensures
        text@ == seq![digit_of(d as int)],
{
    proof {
        reveal_strlit("0123456789");
    }
    let at: usize = d as usize;
    let text = "0123456789".substring_ascii(at, at + 1);
    assert(text@ =~= seq![digit_of(d as int)]);
    text
}

/// Writes a natural number in decimal.
pub fn u64_text(n: u64) -> (text: String)
    ensures
        text@ == integer_text(n as int),
    decreases n,
{
    if n < 10 {
        digit_text(n).to_owned()
    } else {
        let mut text = u64_text(n / 10);
        let ghost before = text@;
        text.append(digit_text(n % 10));
        assert(text@ =~= before.push(digit_of((n % 10) as int)));
        text
    }
}

/// Writes an integer in decimal.
pub fn i64_text(n: i64) -> (text: String)
    ensures
        text@ == integer_text(n as int),
{
    if n < 0 {
        let magnitude: u64 = (-(n as i128)) as u64;
        let mut text = "-".to_owned();
        proof {
            reveal_strlit("-");
        }
        let digits = u64_text(magnitude);
        text.append(digits.as_str());
        assert(text@ =~= seq!['-'] + nat_text(magnitude as nat));
        text
    } else {
        u64_text(n as u64)
    }
}

/// Reads a 64-bit signed integer: an optional sign and at least one digit, nothing else, and a
/// value within range.
pub fn parse_i64(text: &str) -> (value: Option<i64>)
    ensures
        value matches Some(n) ==> i64_value(text@) == Some(n as int),
        value is None ==> i64_value(text@) is None,
{
    let chars = characters(text);
    if chars.len() == 0 {
        return None;
    }
    let signed = chars[0] == '-' || chars[0] == '+';
    let start: usize = if signed {
        1
    } else {
        0
    };
    let ghost digits = text@.skip(start as int);
    assert(!signed ==> digits =~= text@);
    if start == chars.len() {
        return None;
    }
    let limit: i128 = 9223372036854775808;
    let mut value: i128 = 0;
    let mut i: usize = start;
    assert(digits.take(0) =~= Seq::<char>::empty());
    while i < chars.len()
        invariant
            chars@ == text@,
            start <= i <= chars@.len(),
            start < chars@.len(),
            start == (if signed { 1int } else { 0int }),
            signed == (chars@[0] == '-' || chars@[0] == '+'),
            digits == text@.skip(start as int),
            !signed ==> digits == text@,
            all_digits(digits.take(i - start)),
            value == digits_value(digits.take(i - start)),
            0 <= value <= limit,
            limit == 9223372036854775808,
        decreases chars@.len() - i,
    {
        let c = chars[i];
        let ghost k = i - start;
        assert(digits[k] == c);
        if !('0' <= c && c <= '9') {
            assert(!is_digit(digits[k]));
            return None;
        }
        let ghost longer = digits.take(k + 1);
        assert(longer.drop_last() =~= digits.take(k));
        assert(longer.last() == c);
        assert forall|j: int| 0 <= j < longer.len() implies is_digit(#[trigger] longer[j]) by {
            if j < k {
                assert(longer[j] == digits.take(k)[j]);
            }
        }
        value = value * 10 + (c as i128 - '0' as i128);
        if value > limit {
            proof {
                if all_digits(digits) {
                    lemma_digits_value_grows(digits, k + 1);
                }
            }
            return None;
        }
        i += 1;
    }
    assert(digits.take(i - start) =~= digits);
    if chars[0] == '-' {
        Some((-value) as i64)
    } else if value == limit {
        None
    } else {
        Some(value as i64)
    }
}

} // verus!
