//! Lists of texts in ascending order.

use vstd::prelude::*;
use crate::domain::texts;
use crate::text::characters;

verus! {

/// One text comes before another: at the first character in which they differ its own is the
/// lesser, or it ends there.
pub open spec fn comes_before(a: Seq<char>, b: Seq<char>) -> bool
    decreases a.len(),
{
    if b.len() == 0 {
        false
    } else if a.len() == 0 {
        true
    } else {
        a[0] < b[0] || (a[0] == b[0] && comes_before(a.skip(1), b.skip(1)))
    }
}

/// Whether one text comes before another.
pub fn text_before(a: &str, b: &str) -> (before: bool)
    ensures
        before == comes_before(a@, b@),
{
    let left = characters(a);
    let right = characters(b);
    let mut i: usize = 0;
    assert(a@.skip(0) =~= a@);
    assert(b@.skip(0) =~= b@);
    while i < left.len() && i < right.len()
        invariant
            left@ == a@,
            right@ == b@,
            i <= left@.len(),
            i <= right@.len(),
            comes_before(a@, b@) == comes_before(a@.skip(i as int), b@.skip(i as int)),
        decreases left@.len() - i,
    {
        assert(a@.skip(i as int).skip(1) =~= a@.skip(i + 1));
        assert(b@.skip(i as int).skip(1) =~= b@.skip(i + 1));
        if left[i] != right[i] {
            return left[i] < right[i];
        }
        i += 1;
    }
    i < right.len()
}

/// A text put into an ascending list, after those that do not come after it.
pub open spec fn inserted(list: Seq<Seq<char>>, text: Seq<char>) -> Seq<Seq<char>>
    decreases list.len(),
{
    if list.len() == 0 || !comes_before(text, list.last()) {
        list.push(text)
    } else {
        inserted(list.drop_last(), text).push(list.last())
    }
}

/// The texts of a list in ascending order.
pub open spec fn ascending(list: Seq<Seq<char>>) -> Seq<Seq<char>>
    decreases list.len(),
{
    if list.len() == 0 {
        seq![]
    } else {
        inserted(ascending(list.drop_last()), list.last())
    }
}

proof fn lemma_inserted_at(list: Seq<Seq<char>>, text: Seq<char>, at: int)
    requires
        0 <= at <= list.len(),
        at > 0 ==> !comes_before(text, list[at - 1]),
        forall|i: int| at <= i < list.len() ==> comes_before(text, #[trigger] list[i]),
    ensures
        inserted(list, text) == list.insert(at, text),
    decreases list.len(),
{
    if at == list.len() {
        if list.len() > 0 {
            assert(!comes_before(text, list.last()));
        }
        assert(list.insert(at, text) =~= list.push(text));
    } else {
        let before = list.drop_last();
        assert(comes_before(text, list.last()));
        lemma_inserted_at(before, text, at);
        assert(list.insert(at, text) =~= before.insert(at, text).push(list.last()));
    }
}

fn insert_text(list: &mut Vec<String>, text: String)
    ensures
        texts(final(list)@) == inserted(texts(old(list)@), text@),
{
    let ghost before = texts(list@);
    let mut at: usize = list.len();
    while at > 0 && text_before(text.as_str(), list[at - 1].as_str())
        invariant
            at <= list@.len(),
            list@ == old(list)@,
            before == texts(list@),
            forall|i: int| at <= i < before.len() ==> comes_before(text@, #[trigger] before[i]),
        decreases at,
    {
        assert(before[at - 1] == list@[at - 1]@);
        at -= 1;
    }
    proof {
        if at > 0 {
            assert(before[at - 1] == list@[at - 1]@);
        }
        lemma_inserted_at(before, text@, at as int);
    }
    list.insert(at, text);
    assert(texts(list@) =~= before.insert(at as int, text@));
}

/// Puts the texts of a list in ascending order.
pub fn sort_texts(list: Vec<String>) -> (sorted: Vec<String>)
    ensures
        texts(sorted@) == ascending(texts(list@)),
{
    let ghost all = texts(list@);
    let mut sorted: Vec<String> = Vec::new();
    assert(all.take(0) =~= Seq::<Seq<char>>::empty());
    assert(texts(sorted@) =~= Seq::<Seq<char>>::empty());
    for text in it: list
        invariant
            it.seq() == list@,
            all == texts(list@),
            texts(sorted@) == ascending(all.take(it.index())),
    {
        let ghost longer = all.take(it.index() + 1);
        assert(longer.drop_last() =~= all.take(it.index()));
        assert(longer.last() == text@);
        insert_text(&mut sorted, text);
    }
    assert(all.take(all.len() as int) =~= all);
    sorted
}

proof fn lemma_before_transitive(a: Seq<char>, b: Seq<char>, c: Seq<char>)
    requires
        !comes_before(b, a),
        !comes_before(c, b),
    ensures
        !comes_before(c, a),
    decreases a.len(),
{
    if a.len() > 0 && b.len() > 0 && c.len() > 0 && a[0] == b[0] && b[0] == c[0] {
        lemma_before_transitive(a.skip(1), b.skip(1), c.skip(1));
    }
}

proof fn lemma_before_antisymmetric(a: Seq<char>, b: Seq<char>)
    requires
        comes_before(a, b),
    ensures
        !comes_before(b, a),
    decreases a.len(),
{
    if a.len() > 0 && b.len() > 0 && a[0] == b[0] {
        lemma_before_antisymmetric(a.skip(1), b.skip(1));
    }
}

/// No text of the list comes before one that stands ahead of it.
pub open spec fn in_order(list: Seq<Seq<char>>) -> bool {
    forall|i: int, j: int|
        0 <= i < j < list.len() ==> !comes_before(#[trigger] list[j], #[trigger] list[i])
}

proof fn lemma_inserted(list: Seq<Seq<char>>, text: Seq<char>)
    requires
        in_order(list),
    ensures
        in_order(inserted(list, text)),
        inserted(list, text).to_multiset() == list.to_multiset().insert(text),
        inserted(list, text).len() == list.len() + 1,
        forall|i: int|
            0 <= i < inserted(list, text).len() ==> #[trigger] inserted(list, text)[i] == text
                || list.contains(inserted(list, text)[i]),
    decreases list.len(),
{
    broadcast use vstd::seq_lib::group_to_multiset_ensures;

    if list.len() == 0 || !comes_before(text, list.last()) {
        let whole = list.push(text);
        assert forall|i: int, j: int| 0 <= i < j < whole.len() implies !comes_before(
            #[trigger] whole[j],
            #[trigger] whole[i],
        ) by {
            if j == list.len() && i < list.len() - 1 {
                assert(!comes_before(list[list.len() - 1], list[i]));
                lemma_before_transitive(list[i], list.last(), text);
            }
        }
    } else {
        let before = list.drop_last();
        let shorter = inserted(before, text);
        let whole = shorter.push(list.last());
        lemma_inserted(before, text);
        assert(list =~= before.push(list.last()));
        assert forall|i: int, j: int| 0 <= i < j < whole.len() implies !comes_before(
            #[trigger] whole[j],
            #[trigger] whole[i],
        ) by {
            if j == shorter.len() {
                if shorter[i] == text {
                    lemma_before_antisymmetric(text, list.last());
                } else {
                    assert(before.contains(shorter[i]));
                    let k = choose|k: int| 0 <= k < before.len() && before[k] == shorter[i];
                    assert(list[k] == shorter[i]);
                    assert(!comes_before(list[list.len() - 1], list[k]));
                }
            }
        }
        assert(whole.to_multiset() =~= list.to_multiset().insert(text));
        assert forall|i: int| 0 <= i < whole.len() implies #[trigger] whole[i] == text
            || list.contains(whole[i]) by {
            if i < shorter.len() {
                if shorter[i] != text {
                    let k = choose|k: int| 0 <= k < before.len() && before[k] == shorter[i];
                    assert(list[k] == whole[i]);
                }
            } else {
                assert(list[list.len() - 1] == whole[i]);
            }
        }
    }
}

/// Sorting loses nothing and adds nothing, and leaves no text ahead of one that comes before it.
pub proof fn lemma_ascending(list: Seq<Seq<char>>)
    ensures
        in_order(ascending(list)),
        ascending(list).to_multiset() == list.to_multiset(),
    decreases list.len(),
{
    broadcast use vstd::seq_lib::group_to_multiset_ensures;

    if list.len() > 0 {
        lemma_ascending(list.drop_last());
        lemma_inserted(ascending(list.drop_last()), list.last());
        assert(list =~= list.drop_last().push(list.last()));
    } else {
        assert(ascending(list) =~= list);
    }
}

} // verus!
