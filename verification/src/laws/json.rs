//! How texts and bytes are written as JSON.

use vstd::prelude::*;
use crate::decimal::integer_text;
use crate::json::{
    escaped_text, joined_bytes, joined_strings, json_bytes, json_escaped, json_string,
    json_text_list, json_text_object,
};

verus! {

/// The character of a hexadecimal digit, by its number.
pub open spec fn hexadecimal(c: char, n: int) -> bool {
    if n < 10 {
        c as int == 48 + n
    } else {
        c as int == 87 + n
    }
}

/// A character from the space on is written as it is, but for the quotation mark and the backslash,
/// which a backslash is put before. Backspace, tab, line feed, form feed and carriage return are
/// written by their letters, and every other character below the space by its number in four
/// hexadecimal digits.
pub proof fn lemma_character_is_escaped(c: char)
    ensures
        ({
            let n = c as int;
            let written = json_escaped(c);
            &&& n >= 32 && n != 34 && n != 92 ==> written == seq![c]
            &&& n == 34 || n == 92 ==> written == seq!['\\', c]
            &&& n == 8 ==> written == seq!['\\', 'b']
            &&& n == 9 ==> written == seq!['\\', 't']
            &&& n == 10 ==> written == seq!['\\', 'n']
            &&& n == 12 ==> written == seq!['\\', 'f']
            &&& n == 13 ==> written == seq!['\\', 'r']
            &&& n < 32 && n != 8 && n != 9 && n != 10 && n != 12 && n != 13 ==> {
                &&& written.len() == 6
                &&& written.take(4) == seq!['\\', 'u', '0', '0']
                &&& hexadecimal(written[4], n / 16)
                &&& hexadecimal(written[5], n % 16)
            }
        }),
{
    let n = c as int;
    if n < 32 && n != 8 && n != 9 && n != 10 && n != 12 && n != 13 {
        assert(json_escaped(c).take(4) =~= seq!['\\', 'u', '0', '0']);
    }
}

/// A text is escaped character by character.
pub proof fn lemma_text_is_escaped_by_characters(a: Seq<char>, b: Seq<char>, c: char)
    ensures
        escaped_text(Seq::<char>::empty()) == Seq::<char>::empty(),
        escaped_text(seq![c]) == json_escaped(c),
        escaped_text(a + b) == escaped_text(a) + escaped_text(b),
    decreases b.len(),
{
    assert(seq![c].drop_last() =~= Seq::<char>::empty());
    reveal_with_fuel(escaped_text, 2);
    assert(escaped_text(seq![c]) =~= json_escaped(c));
    if b.len() == 0 {
        assert(a + b =~= a);
        assert(escaped_text(a) + escaped_text(b) =~= escaped_text(a));
    } else {
        lemma_text_is_escaped_by_characters(a, b.drop_last(), c);
        assert((a + b).drop_last() =~= a + b.drop_last());
        assert(escaped_text(a + b) =~= escaped_text(a) + escaped_text(b));
    }
}

/// A JSON string is the escaped text between quotation marks.
pub proof fn lemma_string_is_quoted(text: Seq<char>)
    ensures
        json_string(text) == seq!['"'] + escaped_text(text) + seq!['"'],
{
}

proof fn lemma_joined_strings(items: Seq<Seq<char>>, item: Seq<char>)
    requires
        items.len() > 0,
    ensures
        joined_strings(items.push(item)) == joined_strings(items) + seq![','] + json_string(item),
    decreases items.len(),
{
    let longer = items.push(item);
    assert(longer.skip(1) =~= items.skip(1).push(item));
    if items.len() == 1 {
        assert(items.skip(1).push(item) =~= seq![item]);
        assert(joined_strings(longer.skip(1)) == json_string(item));
    } else {
        lemma_joined_strings(items.skip(1), item);
        assert(joined_strings(longer) =~= joined_strings(items) + seq![','] + json_string(item));
    }
}

/// A list of texts is written in brackets: nothing between them for no text, the JSON string for
/// one, and for each one more a comma and its JSON string.
pub proof fn lemma_list_is_written_text_by_text(items: Seq<Seq<char>>, item: Seq<char>)
    ensures
        json_text_list(Seq::<Seq<char>>::empty()) == seq!['[', ']'],
        json_text_list(seq![item]) == seq!['['] + json_string(item) + seq![']'],
        items.len() > 0 ==> json_text_list(items.push(item)) == json_text_list(items).drop_last()
            + seq![','] + json_string(item) + seq![']'],
{
    assert(json_text_list(Seq::<Seq<char>>::empty()) =~= seq!['[', ']']);
    if items.len() > 0 {
        lemma_joined_strings(items, item);
        assert(json_text_list(items).drop_last() =~= seq!['['] + joined_strings(items));
        assert(json_text_list(items.push(item)) =~= json_text_list(items).drop_last() + seq![',']
            + json_string(item) + seq![']']);
    }
}

proof fn lemma_joined_bytes(bytes: Seq<u8>, byte: u8)
    requires
        bytes.len() > 0,
    ensures
        joined_bytes(bytes.push(byte)) == joined_bytes(bytes) + seq![','] + integer_text(
            byte as int,
        ),
    decreases bytes.len(),
{
    let longer = bytes.push(byte);
    assert(longer.skip(1) =~= bytes.skip(1).push(byte));
    if bytes.len() == 1 {
        assert(bytes.skip(1).push(byte) =~= seq![byte]);
        assert(joined_bytes(longer.skip(1)) == integer_text(byte as int));
    } else {
        lemma_joined_bytes(bytes.skip(1), byte);
        assert(joined_bytes(longer) =~= joined_bytes(bytes) + seq![','] + integer_text(
            byte as int,
        ));
    }
}

/// Bytes are written in brackets: nothing between them for no byte, its decimal number for one, and
/// for each one more a comma and its decimal number.
pub proof fn lemma_bytes_are_written_byte_by_byte(bytes: Seq<u8>, byte: u8)
    ensures
        json_bytes(Seq::<u8>::empty()) == seq!['[', ']'],
        json_bytes(seq![byte]) == seq!['['] + integer_text(byte as int) + seq![']'],
        bytes.len() > 0 ==> json_bytes(bytes.push(byte)) == json_bytes(bytes).drop_last()
            + seq![','] + integer_text(byte as int) + seq![']'],
{
    assert(json_bytes(Seq::<u8>::empty()) =~= seq!['[', ']']);
    if bytes.len() > 0 {
        lemma_joined_bytes(bytes, byte);
        assert(json_bytes(bytes).drop_last() =~= seq!['['] + joined_bytes(bytes));
        assert(json_bytes(bytes.push(byte)) =~= json_bytes(bytes).drop_last() + seq![',']
            + integer_text(byte as int) + seq![']']);
    }
}

/// An object of one text is written in braces: the JSON string of the name, a colon, and the JSON
/// string of the text.
pub proof fn lemma_object_is_written(key: Seq<char>, value: Seq<char>)
    ensures
        json_text_object(key, value) == seq!['{'] + json_string(key) + seq![':'] + json_string(
            value,
        ) + seq!['}'],
{
}

} // verus!
