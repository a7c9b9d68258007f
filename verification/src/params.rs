//! Loosely typed parameters: the JSON object that accompanies an operation
//! invocation, and what the service reads from it.
//!
//! The object itself stays a `serde_json::Map`. Verified code never looks
//! inside one; it asks for one entry at a time and receives a [`Field`].

use vstd::prelude::*;

verus! {

/// `serde_json::Value`, carried through without looking inside.
#[verifier::external_type_specification]
#[verifier::external_body]
pub struct ExJsonValue(serde_json::Value);

/// `serde_json::Map`, carried through without looking inside.
#[verifier::external_type_specification]
#[verifier::external_body]
#[verifier::reject_recursive_types(K)]
#[verifier::reject_recursive_types(V)]
pub struct ExJsonMap<K, V>(serde_json::Map<K, V>);

/// What operations read from one JSON value.
#[derive(Debug)]
pub enum Field {
    /// JSON `null`.
    Null,
    /// A JSON boolean.
    Bool(bool),
    /// A JSON number: its value if it is held as an integer from 0 to
    /// `u64::MAX`, `None` if it is held as a negative integer or as a
    /// floating-point number.
    Number(Option<u64>),
    /// A JSON string.
    Text(String),
    /// A JSON array, whose items no operation reads.
    Array,
    /// A JSON object, whose entries no operation reads.
    Object,
}

/// What a [`Field`] holds, as plain mathematical values.
pub enum FieldView {
    Null,
    Bool(bool),
    Number(Option<u64>),
    Text(Seq<char>),
    Array,
    Object,
}

impl View for Field {
    type V = FieldView;

    open spec fn view(&self) -> FieldView {
        match self {
            Field::Null => FieldView::Null,
            Field::Bool(b) => FieldView::Bool(*b),
            Field::Number(n) => FieldView::Number(*n),
            Field::Text(s) => FieldView::Text(s@),
            Field::Array => FieldView::Array,
            Field::Object => FieldView::Object,
        }
    }
}

/// The view of an entry that may be absent.
pub open spec fn field_view(field: Option<Field>) -> Option<FieldView> {
    match field {
        Some(f) => Some(f@),
        None => None,
    }
}

/// The entries of a JSON object: under each key that it has, what
/// operations read from the value stored there.
pub uninterp spec fn entries(doc: serde_json::Map<String, serde_json::Value>) -> Map<
    Seq<char>,
    FieldView,
>;

/// The entry of `entries` under `key`, if there is one.
pub open spec fn entry(entries: Map<Seq<char>, FieldView>, key: Seq<char>) -> Option<FieldView> {
    if entries.contains_key(key) {
        Some(entries[key])
    } else {
        None
    }
}

/// Looks `key` up in `doc` with `serde_json::Map::get` and tells the
/// variants of the `serde_json::Value` found apart; a number is read with
/// `serde_json::Number::as_u64`.
///
/// Trusted: the result is the entry of the object under `key`, and `None`
/// if the object has no such key.
#[verifier::external_body]
pub(crate) fn read_field(doc: &serde_json::Map<String, serde_json::Value>, key: &str) -> (field:
    Option<Field>)
    ensures
        field_view(field) == entry(entries(*doc), key@),
{
    match doc.get(key) {
        None => None,
        Some(serde_json::Value::Null) => Some(Field::Null),
        Some(serde_json::Value::Bool(b)) => Some(Field::Bool(*b)),
        Some(serde_json::Value::Number(n)) => Some(Field::Number(n.as_u64())),
        Some(serde_json::Value::String(s)) => Some(Field::Text(s.clone())),
        Some(serde_json::Value::Array(_)) => Some(Field::Array),
        Some(serde_json::Value::Object(_)) => Some(Field::Object),
    }
}

} // verus!
