//! JSON, as far as rules, records and catalog entries need it. Reading and writing it is
//! `serde_json`'s work; the functions that call it are the trusted items of this module.

use vstd::prelude::*;
use crate::decimal::{all_digits, is_digit, lemma_nat_text, nat_text};

verus! {

/// A JSON value, as a targeting rule sees it: a string by its content, any other value by its
/// compact JSON text.
#[derive(Debug, PartialEq)]
pub enum JsonValue {
    Text(String),
    Other(String),
}

/// The model of a `JsonValue`.
pub enum JsonView {
    Text(Seq<char>),
    Other(Seq<char>),
}

impl View for JsonValue {
    type V = JsonView;

    open spec fn view(&self) -> JsonView {
        match *self {
            JsonValue::Text(content) => JsonView::Text(content@),
            JsonValue::Other(text) => JsonView::Other(text@),
        }
    }
}

impl JsonView {
    /// The text that rules compare: the content of a string, the JSON text of anything else.
    pub open spec fn rendered(self) -> Seq<char> {
        match self {
            JsonView::Text(content) => content,
            JsonView::Other(text) => text,
        }
    }
}

/// What `serde_json` reads from a JSON text; nothing where the text is not JSON.
pub uninterp spec fn json_value(text: Seq<char>) -> Option<JsonView>;

/// `serde_json::from_str`, and `Value`'s `to_string` for a value that is not a string. What comes
/// out is a function of the text alone and bears the name `json_value`.
#[verifier::external_body]
fn read_value(text: &str) -> (result: Result<JsonValue, serde_json::Error>)
    ensures
        result matches Ok(value) ==> json_value(text@) == Some(value@),
        result is Err ==> json_value(text@) is None,
{
    match serde_json::from_str::<serde_json::Value>(text)? {
        serde_json::Value::String(content) => Ok(JsonValue::Text(content)),
        other => Ok(JsonValue::Other(other.to_string())),
    }
}

impl JsonValue {
    /// Reads a JSON text.
    pub fn parse(text: &str) -> (result: Result<JsonValue, serde_json::Error>)
        ensures
            result matches Ok(value) ==> json_value(text@) == Some(value@),
            result is Err <==> json_value(text@) is None,
    {
        read_value(text)
    }

    /// The text that rules compare.
    pub fn rendered(&self) -> (text: &str)
        ensures
            text@ == self@.rendered(),
    {
        match self {
            JsonValue::Text(content) => content.as_str(),
            JsonValue::Other(text) => text.as_str(),
        }
    }
}

/// The bytes that `serde_json` writes for the JSON object that a text holds; nothing where the
/// text holds none.
pub uninterp spec fn json_object_wire(text: Seq<char>) -> Option<Seq<u8>>;

/// `serde_json::from_str` for a map from names to values, then `serde_json::to_vec`. The bytes
/// are a function of the text alone and bear the name `json_object_wire`.
#[verifier::external_body]
pub(crate) fn object_wire(text: &str) -> (result: Result<Vec<u8>, serde_json::Error>)
    ensures
        result matches Ok(wire) ==> json_object_wire(text@) == Some(wire@),
        result is Err ==> json_object_wire(text@) is None,
{
    let object: std::collections::BTreeMap<String, serde_json::Value> = serde_json::from_str(text)?;
    serde_json::to_vec(&object)
}

/// Whether the JSON objects that two texts hold are equal, as `serde_json` compares values; nothing
/// where a text holds no object.
pub uninterp spec fn json_objects_equal(a: Seq<char>, b: Seq<char>) -> Option<bool>;

/// `serde_json::from_str` for two maps from names to values, and `==` on what they hold. What comes
/// out is a function of the texts alone and bears the name `json_objects_equal`.
#[verifier::external_body]
pub(crate) fn objects_equal(a: &str, b: &str) -> (result: Option<bool>)
    ensures
        result == json_objects_equal(a@, b@),
{
    let a: std::collections::BTreeMap<String, serde_json::Value> = serde_json::from_str(a).ok()?;
    let b: std::collections::BTreeMap<String, serde_json::Value> = serde_json::from_str(b).ok()?;
    Some(a == b)
}

/// The lower-case hexadecimal digit of a number below sixteen.
pub open spec fn hex_digit(n: int) -> char {
    if n >= 10 {
        ('a' as int + n - 10) as char
    } else {
        ('0' as int + n) as char
    }
}

/// How a character stands in a JSON string: quotation marks, backslashes and control characters
/// are escaped, by a letter where there is one for them and by their number otherwise.
pub open spec fn json_escaped(c: char) -> Seq<char> {
    if c == '"' || c == '\\' {
        seq!['\\', c]
    } else if c == '\u{8}' {
        seq!['\\', 'b']
    } else if c == '\t' {
        seq!['\\', 't']
    } else if c == '\n' {
        seq!['\\', 'n']
    } else if c == '\u{c}' {
        seq!['\\', 'f']
    } else if c == '\r' {
        seq!['\\', 'r']
    } else if ' ' <= c {
        seq![c]
    } else {
        seq!['\\', 'u', '0', '0', hex_digit(c as int / 16), hex_digit(c as int % 16)]
    }
}

/// The characters of a text as they stand in a JSON string.
pub open spec fn escaped_text(text: Seq<char>) -> Seq<char>
    decreases text.len(),
{
    if text.len() == 0 {
        seq![]
    } else {
        escaped_text(text.drop_last()) + json_escaped(text.last())
    }
}

/// The JSON string of a text.
pub open spec fn json_string(text: Seq<char>) -> Seq<char> {
    seq!['"'] + escaped_text(text) + seq!['"']
}

/// The JSON strings of a list of texts, with commas between them.
pub open spec fn joined_strings(items: Seq<Seq<char>>) -> Seq<char>
    decreases items.len(),
{
    if items.len() == 0 {
        seq![]
    } else if items.len() == 1 {
        json_string(items[0])
    } else {
        json_string(items[0]) + seq![','] + joined_strings(items.skip(1))
    }
}

/// The JSON text of a list of strings: the strings in brackets, with commas between them.
pub open spec fn json_text_list(items: Seq<Seq<char>>) -> Seq<char> {
    seq!['['] + joined_strings(items) + seq![']']
}

/// `serde_json::to_string` for a list of strings. It does not fail, and writes the JSON strings in
/// brackets, with commas and nothing else between them. Of a string it escapes the quotation mark,
/// the backslash and the control characters below the space, and nothing else.
#[verifier::external_body]
pub(crate) fn text_list(items: &[String]) -> (result: Result<String, serde_json::Error>)
    ensures
        result is Ok,
        result->Ok_0@ == json_text_list(crate::domain::texts(items@)),
{
    serde_json::to_string(items)
}

/// The numbers of a list of bytes in decimal, with commas between them.
pub open spec fn joined_bytes(bytes: Seq<u8>) -> Seq<char>
    decreases bytes.len(),
{
    if bytes.len() == 0 {
        seq![]
    } else if bytes.len() == 1 {
        nat_text(bytes[0] as nat)
    } else {
        nat_text(bytes[0] as nat) + seq![','] + joined_bytes(bytes.skip(1))
    }
}

/// The JSON text of a list of bytes: their decimal numbers in brackets, with commas between them.
pub open spec fn json_bytes(bytes: Seq<u8>) -> Seq<char> {
    seq!['['] + joined_bytes(bytes) + seq![']']
}

/// `serde_json::to_string` for a list of bytes. It does not fail, and writes the bytes' decimal
/// numbers in brackets, with commas and nothing else between them.
#[verifier::external_body]
pub(crate) fn bytes_text(bytes: &[u8]) -> (result: Result<String, serde_json::Error>)
    ensures
        result is Ok,
        result->Ok_0@ == json_bytes(bytes@),
{
    serde_json::to_string(bytes)
}

/// A run of digits ends where the first other character stands.
proof fn lemma_digit_runs(a: Seq<char>, x: Seq<char>, b: Seq<char>, y: Seq<char>)
    requires
        all_digits(a),
        all_digits(b),
        x.len() > 0 ==> !is_digit(x[0]),
        y.len() > 0 ==> !is_digit(y[0]),
        a + x == b + y,
    ensures
        a == b,
        x == y,
{
    if a.len() < b.len() {
        assert((a + x)[a.len() as int] == b[a.len() as int]);
    }
    if b.len() < a.len() {
        assert((b + y)[b.len() as int] == a[b.len() as int]);
    }
    assert(a =~= (a + x).take(a.len() as int));
    assert(b =~= (b + y).take(b.len() as int));
    assert(x =~= (a + x).skip(a.len() as int));
    assert(y =~= (b + y).skip(b.len() as int));
}

proof fn lemma_joined_injective(a: Seq<u8>, b: Seq<u8>)
    requires
        joined_bytes(a) == joined_bytes(b),
    ensures
        a == b,
    decreases a.len(),
{
    if a.len() > 0 {
        lemma_nat_text(a[0] as nat);
    }
    if b.len() > 0 {
        lemma_nat_text(b[0] as nat);
    }
    if a.len() == 0 || b.len() == 0 {
        assert(a =~= b);
    } else {
        let x = if a.len() == 1 {
            Seq::<char>::empty()
        } else {
            seq![','] + joined_bytes(a.skip(1))
        };
        let y = if b.len() == 1 {
            Seq::<char>::empty()
        } else {
            seq![','] + joined_bytes(b.skip(1))
        };
        assert(joined_bytes(a) =~= nat_text(a[0] as nat) + x);
        assert(joined_bytes(b) =~= nat_text(b[0] as nat) + y);
        lemma_digit_runs(nat_text(a[0] as nat), x, nat_text(b[0] as nat), y);
        assert(a[0] == b[0]);
        if a.len() == 1 || b.len() == 1 {
            assert(a =~= b);
        } else {
            assert(joined_bytes(a.skip(1)) =~= x.skip(1));
            assert(joined_bytes(b.skip(1)) =~= y.skip(1));
            lemma_joined_injective(a.skip(1), b.skip(1));
            assert(a =~= seq![a[0]] + a.skip(1));
            assert(b =~= seq![b[0]] + b.skip(1));
        }
    }
}

/// Two lists of bytes have the same JSON text only if they are the same.
pub proof fn lemma_json_bytes_injective(a: Seq<u8>, b: Seq<u8>)
    requires
        json_bytes(a) == json_bytes(b),
    ensures
        a == b,
{
    assert(joined_bytes(a) =~= json_bytes(a).subrange(1, json_bytes(a).len() - 1));
    assert(joined_bytes(b) =~= json_bytes(b).subrange(1, json_bytes(b).len() - 1));
    lemma_joined_injective(a, b);
}

/// The compact text that `serde_json` writes for the value that a JSON text holds; nothing where
/// the text is not JSON.
pub uninterp spec fn json_compact(text: Seq<char>) -> Option<Seq<char>>;

/// `serde_json::from_str` and `Value`'s `to_string`. The text is a function of the argument alone
/// and bears the name `json_compact`.
#[verifier::external_body]
pub(crate) fn compact_text(text: &str) -> (result: Result<String, serde_json::Error>)
    ensures
        result matches Ok(compact) ==> json_compact(text@) == Some(compact@),
        result is Err ==> json_compact(text@) is None,
{
    Ok(serde_json::from_str::<serde_json::Value>(text)?.to_string())
}

/// The compact text of a member of the JSON object that a text holds; nothing where the text holds
/// no object, or the object has no such member.
pub uninterp spec fn json_member(text: Seq<char>, key: Seq<char>) -> Option<Seq<char>>;

/// `serde_json::from_str`, `Value::get` and `to_string` of what it finds. The text is a function of
/// the arguments alone and bears the name `json_member`.
#[verifier::external_body]
pub(crate) fn member(text: &str, key: &str) -> (result: Option<String>)
    ensures
        result matches Some(value) ==> json_member(text@, key@) == Some(value@),
        result is None ==> json_member(text@, key@) is None,
{
    let value: serde_json::Value = serde_json::from_str(text).ok()?;
    value.get(key).map(|found| found.to_string())
}

/// The compact text of the JSON object that a text holds, without a member; nothing where the text
/// holds no object.
pub uninterp spec fn json_without(text: Seq<char>, key: Seq<char>) -> Option<Seq<char>>;

/// `serde_json::from_str` for an object, `Map::remove`, and `to_string` of what is left. The text is
/// a function of the arguments alone and bears the name `json_without`.
#[verifier::external_body]
pub(crate) fn without_member(text: &str, key: &str) -> (result: Option<String>)
    ensures
        result matches Some(left) ==> json_without(text@, key@) == Some(left@),
        result is None ==> json_without(text@, key@) is None,
{
    let mut object: serde_json::Map<String, serde_json::Value> = serde_json::from_str(text).ok()?;
    object.remove(key);
    Some(serde_json::Value::Object(object).to_string())
}

/// The compact text of the JSON object that a text holds, with a member set to the value that
/// another text holds; nothing where the texts hold no object and no value.
pub uninterp spec fn json_with(text: Seq<char>, key: Seq<char>, value: Seq<char>) -> Option<
    Seq<char>,
>;

/// `serde_json::from_str` for an object and for a value, `Map::insert`, and `to_string`. The text
/// is a function of the arguments alone and bears the name `json_with`.
#[verifier::external_body]
pub(crate) fn with_member(text: &str, key: &str, value: &str) -> (result: Option<String>)
    ensures
        result matches Some(set) ==> json_with(text@, key@, value@) == Some(set@),
        result is None ==> json_with(text@, key@, value@) is None,
{
    let mut object: serde_json::Map<String, serde_json::Value> = serde_json::from_str(text).ok()?;
    object.insert(key.to_owned(), serde_json::from_str(value).ok()?);
    Some(serde_json::Value::Object(object).to_string())
}

/// The JSON text of an object whose one member is a string.
pub open spec fn json_text_object(key: Seq<char>, value: Seq<char>) -> Seq<char> {
    seq!['{'] + json_string(key) + seq![':'] + json_string(value) + seq!['}']
}

/// `serde_json::Map::insert` of one string into an empty map, and `to_string`, which writes the
/// JSON strings of the member's name and value with a colon between them, in braces.
#[verifier::external_body]
pub(crate) fn text_object(key: &str, value: &str) -> (text: String)
    ensures
        text@ == json_text_object(key@, value@),
{
    let mut object = serde_json::Map::new();
    object.insert(key.to_owned(), serde_json::Value::String(value.to_owned()));
    serde_json::Value::Object(object).to_string()
}

} // verus!
