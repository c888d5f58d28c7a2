//! Comparisons and searches on text, stated over its characters.

use vstd::prelude::*;
use vstd::string::*;
use vstd::utf8::*;

verus! {

/// The UTF-8 bytes of two texts agree only if the texts do.
pub proof fn lemma_utf8_injective(a: Seq<char>, b: Seq<char>)
    requires
        encode_utf8(a) == encode_utf8(b),
    ensures
        a == b,
{
    encode_utf8_decode_utf8(a);
    encode_utf8_decode_utf8(b);
}

/// Whether two byte slices hold the same bytes.
pub fn bytes_equal(a: &[u8], b: &[u8]) -> (equal: bool)
    ensures
        equal == (a@ == b@),
{
    if a.len() != b.len() {
        return false;
    }
    let mut i: usize = 0;
    while i < a.len()
        invariant
            a@.len() == b@.len(),
            i <= a@.len(),
            forall|j: int| 0 <= j < i ==> a@[j] == b@[j],
        decreases a@.len() - i,
    {
        if a[i] != b[i] {
            return false;
        }
        i += 1;
    }
    assert(a@ =~= b@);
    true
}

/// Whether two texts are the same.
pub fn text_equal(a: &str, b: &str) -> (equal: bool)
    ensures
        equal == (a@ == b@),
{
    let equal = bytes_equal(a.as_bytes(), b.as_bytes());
    proof {
        if equal {
            lemma_utf8_injective(a@, b@);
        }
    }
    equal
}

/// The characters of a text, in order.
pub fn characters(text: &str) -> (chars: Vec<char>)
    ensures
        chars@ == text@,
{
    let mut chars: Vec<char> = Vec::new();
    for c in it: text.chars()
        invariant
            chars@ == it.seq().take(it.index()),
            it.seq() == text@,
    {
        chars.push(c);
        assert(it.seq().take(it.index() + 1) =~= it.seq().take(it.index()).push(c));
    }
    assert(chars@ =~= text@);
    chars
}

/// `needle` stands in `text` from character `at` on.
pub open spec fn occurs_at(text: Seq<char>, needle: Seq<char>, at: int) -> bool {
    &&& 0 <= at
    &&& at + needle.len() <= text.len()
    &&& text.subrange(at, at + needle.len()) == needle
}

/// `needle` stands somewhere in `text`.
pub open spec fn occurs(text: Seq<char>, needle: Seq<char>) -> bool {
    exists|at: int| occurs_at(text, needle, at)
}

/// Whether `needle` stands in `text` from character `at` on.
fn stands_at(text: &Vec<char>, needle: &Vec<char>, at: usize) -> (found: bool)
    requires
        at + needle@.len() <= text@.len(),
    ensures
        found == occurs_at(text@, needle@, at as int),
{
    let end: usize = text.len();
    let mut i: usize = 0;
    while i < needle.len()
        invariant
            i <= needle@.len(),
            end == text@.len(),
            at + needle@.len() <= end,
            forall|j: int| 0 <= j < i ==> text@[at + j] == needle@[j],
        decreases needle@.len() - i,
    {
        if text[at + i] != needle[i] {
            assert(text@.subrange(at as int, at + needle@.len())[i as int] != needle@[i as int]);
            return false;
        }
        i += 1;
    }
    assert(text@.subrange(at as int, at + needle@.len()) =~= needle@);
    true
}

/// Whether `needle` stands somewhere in `text`.
pub fn text_contains(text: &str, needle: &str) -> (found: bool)
    ensures
        found == occurs(text@, needle@),
{
    let chars = characters(text);
    let wanted = characters(needle);
    if wanted.len() > chars.len() {
        return false;
    }
    let last: usize = chars.len() - wanted.len();
    let mut at: usize = 0;
    while at <= last
        invariant
            chars@ == text@,
            wanted@ == needle@,
            wanted@.len() + last == chars@.len(),
            at <= last + 1,
            forall|k: int| 0 <= k < at ==> !occurs_at(text@, needle@, k),
        decreases last + 1 - at,
    {
        if stands_at(&chars, &wanted, at) {
            return true;
        }
        if at == last {
            return false;
        }
        at += 1;
    }
    false
}

/// `text` with every occurrence of `from`, taken from the left and without overlap, replaced by
/// `to`.
pub open spec fn replaced(text: Seq<char>, from: Seq<char>, to: Seq<char>) -> Seq<char>
    decreases text.len(),
{
    if from.len() == 0 || text.len() < from.len() {
        text
    } else if text.take(from.len() as int) == from {
        to + replaced(text.skip(from.len() as int), from, to)
    } else {
        seq![text[0]] + replaced(text.skip(1), from, to)
    }
}

/// Replaces every occurrence of `from`, which is not empty, by `to`.
pub fn text_replaced(text: &str, from: &str, to: &str) -> (result: String)
    requires
        from@.len() > 0,
    ensures
        result@ == replaced(text@, from@, to@),
{
    let chars = characters(text);
    let wanted = characters(from);
    let mut result = String::new();
    let mut at: usize = 0;
    assert(text@.skip(0) =~= text@);
    assert(result@ + replaced(text@.skip(0), from@, to@) =~= replaced(text@, from@, to@));
    while at < chars.len() && wanted.len() <= chars.len() - at
        invariant
            from@.len() > 0,
            chars@ == text@,
            wanted@ == from@,
            at <= chars@.len(),
            result@ + replaced(text@.skip(at as int), from@, to@) == replaced(text@, from@, to@),
        decreases chars@.len() - at,
    {
        let ghost rest = text@.skip(at as int);
        assert(rest.take(from@.len() as int) =~= text@.subrange(at as int, at + from@.len()));
        if stands_at(&chars, &wanted, at) {
            let ghost before = result@;
            result.append(to);
            assert(rest.skip(from@.len() as int) =~= text@.skip(at + from@.len()));
            assert(before + (to@ + replaced(rest.skip(from@.len() as int), from@, to@))
                =~= before + to@ + replaced(rest.skip(from@.len() as int), from@, to@));
            at += wanted.len();
        } else {
            let ghost before = result@;
            result.append(text.substring_char(at, at + 1));
            assert(text@.subrange(at as int, at + 1) =~= seq![rest[0]]);
            assert(rest.skip(1) =~= text@.skip(at + 1));
            assert(before + (seq![rest[0]] + replaced(rest.skip(1), from@, to@)) =~= before + seq![
                rest[0],
            ] + replaced(rest.skip(1), from@, to@));
            at += 1;
        }
    }
    result.append(text.substring_char(at, chars.len()));
    assert(text@.subrange(at as int, text@.len() as int) =~= text@.skip(at as int));
    result
}

/// `to` keeps clear of `from`: its first character is none of those of `from`, and from no place in
/// it on does `from` begin.
pub open spec fn keeps_clear(from: Seq<char>, to: Seq<char>) -> bool {
    &&& to.len() > 0
    &&& !from.contains(to[0])
    &&& forall|k: int| 0 <= k < to.len() ==> #[trigger] parts_ways(from, to, k)
}

/// Read along `to` from a place on, `from` comes to a character that is not there.
pub open spec fn parts_ways(from: Seq<char>, to: Seq<char>, k: int) -> bool {
    exists|j: int|
        0 <= j < from.len() && k + j < to.len() && #[trigger] from[j] != to[k + j]
}

proof fn lemma_beginning_kept(
    text: Seq<char>,
    from: Seq<char>,
    to: Seq<char>,
    beginning: Seq<char>,
)
    requires
        from.len() > 0,
        to.len() > 0,
        !beginning.contains(to[0]),
        beginning.is_prefix_of(replaced(text, from, to)),
    ensures
        beginning.is_prefix_of(text),
    decreases text.len(),
{
    if beginning.len() == 0 {
        assert(beginning =~= text.take(0));
    } else if text.len() < from.len() {
    } else if text.take(from.len() as int) == from {
        assert(replaced(text, from, to)[0] == to[0]);
        assert(beginning[0] == to[0]);
    } else {
        let rest = replaced(text.skip(1), from, to);
        let tail = beginning.skip(1);
        assert(replaced(text, from, to) =~= seq![text[0]] + rest);
        assert(beginning[0] == text[0]);
        assert(tail =~= rest.take(tail.len() as int)) by {
            assert forall|i: int| 0 <= i < tail.len() implies tail[i] == rest[i] by {
                assert(beginning[i + 1] == replaced(text, from, to)[i + 1]);
            }
        }
        assert(!tail.contains(to[0])) by {
            if tail.contains(to[0]) {
                let i = choose|i: int| 0 <= i < tail.len() && tail[i] == to[0];
                assert(beginning[i + 1] == to[0]);
            }
        }
        lemma_beginning_kept(text.skip(1), from, to, tail);
        assert forall|i: int| 0 <= i < beginning.len() implies beginning[i] == text[i] by {
            if i > 0 {
                assert(tail[i - 1] == text.skip(1)[i - 1]);
            }
        }
        assert(beginning =~= text.take(beginning.len() as int));
    }
}

/// What is replaced is gone: where `to` keeps clear of `from`, the text with every occurrence of
/// `from` replaced by `to` holds no `from`.
pub proof fn lemma_replaced_is_gone(text: Seq<char>, from: Seq<char>, to: Seq<char>)
    requires
        from.len() > 0,
        keeps_clear(from, to),
    ensures
        !occurs(replaced(text, from, to), from),
    decreases text.len(),
{
    let result = replaced(text, from, to);
    let n = from.len() as int;
    if text.len() < n {
    } else if text.take(n) == from {
        let rest = replaced(text.skip(n), from, to);
        lemma_replaced_is_gone(text.skip(n), from, to);
        assert(result == to + rest);
        assert forall|at: int| !occurs_at(result, from, at) by {
            if occurs_at(result, from, at) {
                let found = result.subrange(at, at + n);
                if at < to.len() {
                    assert(parts_ways(from, to, at));
                    let j = choose|j: int|
                        0 <= j < from.len() && at + j < to.len() && #[trigger] from[j] != to[at + j];
                    assert(found[j] == to[at + j]);
                } else {
                    assert(rest.subrange(at - to.len(), at - to.len() + n) =~= found);
                    assert(occurs_at(rest, from, at - to.len()));
                }
            }
        }
    } else {
        let rest = replaced(text.skip(1), from, to);
        lemma_replaced_is_gone(text.skip(1), from, to);
        assert(result == seq![text[0]] + rest);
        assert forall|at: int| !occurs_at(result, from, at) by {
            if occurs_at(result, from, at) {
                let found = result.subrange(at, at + n);
                if at == 0 {
                    assert(from =~= result.take(n));
                    lemma_beginning_kept(text, from, to, from);
                    assert(text.take(n) =~= from);
                } else {
                    assert(rest.subrange(at - 1, at - 1 + n) =~= found);
                    assert(occurs_at(rest, from, at - 1));
                }
            }
        }
    }
}

} // verus!
