//! Which values are valid for a flag of a type, and which are equal.

use vstd::prelude::*;
use vstd::utf8::encode_utf8;
use crate::decimal::i64_value;
use crate::domain::{doubles_equal, values_agree, values_equal, Double, ValueRecord, ValueView};
use crate::json::{json_object_wire, json_objects_equal};
use crate::ruleset::{value_fits, value_valid};

verus! {

/// The bits of a number without its sign.
pub open spec fn magnitude(number: Double) -> int {
    number.bits as int % 0x8000_0000_0000_0000
}

/// The numbers differ in their sign, and in nothing else.
pub open spec fn opposite(a: Double, b: Double) -> bool {
    a.bits + 0x8000_0000_0000_0000 == b.bits || b.bits + 0x8000_0000_0000_0000 == a.bits
}

/// Of the magnitudes, those below that of infinity are finite, and those above it are NaNs.
pub proof fn lemma_magnitude_tells_finite_from_nan(number: Double)
    ensures
        number.finite() <==> magnitude(number) < 0x7ff0_0000_0000_0000,
        number.nan() <==> magnitude(number) > 0x7ff0_0000_0000_0000,
        number.zero() <==> number.bits == 0 || number.bits == 0x8000_0000_0000_0000,
{
    let bits = number.bits;
    assert((bits / 0x10_0000_0000_0000) % 0x800 != 0x7ff <==> bits % 0x8000_0000_0000_0000
        < 0x7ff0_0000_0000_0000) by (bit_vector);
    assert((bits / 0x10_0000_0000_0000) % 0x800 == 0x7ff && bits % 0x10_0000_0000_0000 != 0
        <==> bits % 0x8000_0000_0000_0000 > 0x7ff0_0000_0000_0000) by (bit_vector);
}

/// A number and its opposite are both finite, both infinite or both NaNs.
pub proof fn lemma_sign_does_not_matter(a: Double, b: Double)
    requires
        opposite(a, b),
    ensures
        a.finite() == b.finite(),
        a.nan() == b.nan(),
        a.zero() == b.zero(),
{
    lemma_magnitude_tells_finite_from_nan(a);
    lemma_magnitude_tells_finite_from_nan(b);
}

/// Numbers are equal as numbers are: no NaN equals anything, the two zeros are equal, and any other
/// number equals itself alone.
pub proof fn lemma_numbers_are_equal_as_numbers(a: Double, b: Double)
    ensures
        a.nan() || b.nan() ==> !a.equals(b),
        a.zero() && b.zero() ==> a.equals(b),
        !a.nan() && !b.nan() && !(a.zero() && b.zero()) ==> (a.equals(b) <==> a.bits == b.bits),
        a.equals(b) == b.equals(a),
        doubles_equal(Some(a), Some(b)) == a.equals(b),
        !doubles_equal(Some(a), None),
        !doubles_equal(None, Some(a)),
        doubles_equal(None, None),
{
    lemma_magnitude_tells_finite_from_nan(a);
    lemma_magnitude_tells_finite_from_nan(b);
}

/// The value says that it is a double, and holds a double and nothing else.
pub open spec fn holds_double(value: ValueRecord) -> bool {
    &&& value.value_type@ == "double"@
    &&& value.double_value is Some
    &&& value.boolean_value is None
    &&& value.string_value is None
    &&& value.integer_value is None
    &&& value.json_value is None
}

/// The value says that it is a boolean, and holds a boolean and nothing else.
pub open spec fn holds_boolean(value: ValueRecord) -> bool {
    &&& value.value_type@ == "boolean"@
    &&& value.boolean_value is Some
    &&& value.string_value is None
    &&& value.integer_value is None
    &&& value.double_value is None
    &&& value.json_value is None
}

/// The value says that it is a string, and holds a string and nothing else.
pub open spec fn holds_string(value: ValueRecord) -> bool {
    &&& value.value_type@ == "string"@
    &&& value.string_value is Some
    &&& value.boolean_value is None
    &&& value.integer_value is None
    &&& value.double_value is None
    &&& value.json_value is None
}

/// The value says that it is an integer, and holds an integer and nothing else.
pub open spec fn holds_integer(value: ValueRecord) -> bool {
    &&& value.value_type@ == "integer"@
    &&& value.integer_value is Some
    &&& value.boolean_value is None
    &&& value.string_value is None
    &&& value.double_value is None
    &&& value.json_value is None
}

/// The value says that it is JSON, and holds a JSON text and nothing else.
pub open spec fn holds_json(value: ValueRecord) -> bool {
    &&& value.value_type@ == "json"@
    &&& value.json_value is Some
    &&& value.boolean_value is None
    &&& value.string_value is None
    &&& value.integer_value is None
    &&& value.double_value is None
}

proof fn lemma_types_differ()
    ensures
        "boolean"@ != "string"@,
        "boolean"@ != "integer"@,
        "boolean"@ != "double"@,
        "boolean"@ != "json"@,
        "string"@ != "integer"@,
        "string"@ != "double"@,
        "string"@ != "json"@,
        "integer"@ != "double"@,
        "integer"@ != "json"@,
        "double"@ != "json"@,
{
    reveal_strlit("boolean");
    reveal_strlit("string");
    reveal_strlit("integer");
    reveal_strlit("double");
    reveal_strlit("json");
    assert("boolean"@[0] == 'b' && "string"@[0] == 's' && "integer"@[0] == 'i' && "double"@[0]
        == 'd' && "json"@[0] == 'j');
}

/// A value that says double and holds a double and nothing else is valid for a double flag exactly
/// if the number is neither infinite nor a NaN; whether it is positive or negative does not matter.
pub proof fn lemma_double_is_valid_if_finite(value: ValueRecord, wire: Option<Seq<u8>>)
    requires
        holds_double(value),
    ensures
        value_fits("double"@, value@, wire) <==> magnitude(value.double_value->0)
            < 0x7ff0_0000_0000_0000,
        value_valid("double"@, value@) <==> magnitude(value.double_value->0)
            < 0x7ff0_0000_0000_0000,
{
    lemma_types_differ();
    lemma_magnitude_tells_finite_from_nan(value.double_value->0);
}

/// Of two doubles that differ in their sign alone, both are valid or neither is.
pub proof fn lemma_validity_ignores_the_sign(
    value: ValueRecord,
    other: ValueRecord,
    wire: Option<Seq<u8>>,
)
    requires
        holds_double(value),
        holds_double(other),
        opposite(value.double_value->0, other.double_value->0),
    ensures
        value_fits("double"@, value@, wire) == value_fits("double"@, other@, wire),
        value_valid("double"@, value@) == value_valid("double"@, other@),
{
    lemma_double_is_valid_if_finite(value, wire);
    lemma_double_is_valid_if_finite(other, wire);
}

/// A value is valid for a type exactly if it says that type, holds a value of that type and nothing
/// else, and the value is within the bounds of the type: any boolean; a string of at most 4000
/// bytes; the decimal text of a 64-bit integer; a finite double; a JSON object of at most 16384
/// bytes on the wire.
pub proof fn lemma_value_is_valid_for_its_type(
    expected: Seq<char>,
    value: ValueRecord,
    wire: Option<Seq<u8>>,
)
    ensures
        value_fits(expected, value@, wire) <==> value.value_type@ == expected && {
            ||| holds_boolean(value)
            ||| holds_string(value) && encode_utf8(value.string_value->0@).len() <= 4000
            ||| holds_integer(value) && i64_value(value.integer_value->0@) is Some
            ||| holds_double(value) && magnitude(value.double_value->0) < 0x7ff0_0000_0000_0000
            ||| holds_json(value) && wire is Some && wire->0.len() <= 16384
        },
{
    lemma_types_differ();
    if value.double_value is Some {
        lemma_magnitude_tells_finite_from_nan(value.double_value->0);
    }
}

/// What is looked at of a JSON value is the JSON object that its text holds; of any other value
/// there is nothing to look at.
pub proof fn lemma_json_is_valid_by_its_object(expected: Seq<char>, value: ValueRecord)
    ensures
        value.json_value is Some ==> value_valid(expected, value@) == value_fits(
            expected,
            value@,
            json_object_wire(value.json_value->0@),
        ),
        value.json_value is None ==> forall|wire: Option<Seq<u8>>|
            value_valid(expected, value@) == #[trigger] value_fits(expected, value@, wire),
        holds_json(value) ==> (value_valid("json"@, value@) <==> json_object_wire(
            value.json_value->0@,
        ) is Some && json_object_wire(value.json_value->0@)->0.len() <= 16384),
{
    lemma_types_differ();
    assert forall|wire: Option<Seq<u8>>| value.json_value is None implies value_valid(
        expected,
        value@,
    ) == #[trigger] value_fits(expected, value@, wire) by {
        lemma_types_differ();
    }
}

/// Values are equal exactly if they are field by field: types, booleans and texts as they are,
/// numbers as numbers, and JSON texts as the objects that they hold.
pub proof fn lemma_values_are_equal_by_their_fields(a: ValueRecord, b: ValueRecord)
    ensures
        values_equal(a@, b@) <==> {
            &&& a.value_type@ == b.value_type@
            &&& a.boolean_value == b.boolean_value
            &&& (a.string_value is Some <==> b.string_value is Some)
            &&& a.string_value is Some ==> a.string_value->0@ == b.string_value->0@
            &&& (a.integer_value is Some <==> b.integer_value is Some)
            &&& a.integer_value is Some ==> a.integer_value->0@ == b.integer_value->0@
            &&& (a.double_value is Some <==> b.double_value is Some)
            &&& a.double_value is Some ==> a.double_value->0.equals(b.double_value->0)
            &&& (a.json_value is Some <==> b.json_value is Some)
            &&& a.json_value is Some ==> json_objects_equal(a.json_value->0@, b.json_value->0@)
                == Some(true)
        },
{
}

/// Of JSON texts nothing counts but what comparing their objects gave: without an answer, or with
/// another, the values are not equal.
pub proof fn lemma_json_decides_equality(a: ValueView, b: ValueView, objects: Option<bool>)
    requires
        a.json_value is Some,
        b.json_value is Some,
    ensures
        values_agree(a, b, objects) ==> objects == Some(true),
        values_agree(a, b, Some(true)) <==> values_agree(
            ValueView { json_value: None, ..a },
            ValueView { json_value: None, ..b },
            objects,
        ),
{
}

} // verus!
