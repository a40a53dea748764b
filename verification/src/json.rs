//! A small model of a JSON document. Numbers are carried as their decimal
//! text: the builder only ever reads the textual form of a field, so a field
//! value is held as plain strings and the cases of the JSON grammar. Turning
//! a parser's document into this shape is the caller's concern.

use vstd::prelude::*;

verus! {

/// A JSON value. `Number` holds the decimal text of the number.
pub enum JsonValue {
    Null,
    Bool(bool),
    Number(String),
    Text(String),
    Array(Vec<JsonValue>),
    Object(Vec<(String, JsonValue)>),
}

/// Whether a field value is flat: a number, a string, or null. Booleans and
/// nested containers are not flat.
pub open spec fn is_flat_value(v: JsonValue) -> bool {
    match v {
        JsonValue::Number(_) => true,
        JsonValue::Text(_) => true,
        JsonValue::Null => true,
        _ => false,
    }
}

/// The flat textual form of a field value: the text of a number, the
/// characters of a string, and the empty string for null.
pub open spec fn flat_text_of(v: JsonValue) -> Seq<char> {
    match v {
        JsonValue::Number(s) => s@,
        JsonValue::Text(s) => s@,
        _ => Seq::empty(),
    }
}

/// Whether every field of an object carries a flat value.
pub open spec fn fields_flat(fields: Seq<(String, JsonValue)>) -> bool {
    forall|i: int| 0 <= i < fields.len() ==> is_flat_value(#[trigger] fields[i].1)
}

/// The query map after merging the flattened fields, in order, into `q`:
/// a later field wins over an earlier one and over an entry of `q`.
pub open spec fn merged_json(
    q: Map<Seq<char>, Seq<char>>,
    fields: Seq<(String, JsonValue)>,
) -> Map<Seq<char>, Seq<char>>
    decreases fields.len(),
{
    if fields.len() == 0 {
        q
    } else {
        merged_json(q, fields.drop_last()).insert(
            fields.last().0@,
            flat_text_of(fields.last().1),
        )
    }
}

} // verus!
