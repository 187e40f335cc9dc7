//! JSON documents.
//!
//! Values are `serde_json::Value`s, built and copied by `serde_json` itself.
//! Contracts speak of them through [`Document`], the mathematical value that
//! a `Value` holds.

use serde_json::Value;
use vstd::prelude::*;

verus! {

/// A JSON document as a mathematical value.
///
/// Two objects are the same document when they hold the same members,
/// whatever the order in which the members were added.
pub enum Document {
    Null,
    Bool(bool),
    /// A number, standing for itself as the decimal text that `serde_json`
    /// writes for it. Nothing in this library looks inside a number.
    Number(Seq<char>),
    Text(Seq<char>),
    List(Seq<Document>),
    Object(Map<Seq<char>, Document>),
}

#[verifier::external_type_specification]
#[verifier::external_body]
pub struct ExValue(serde_json::Value);

#[verifier::external_type_specification]
#[verifier::external_body]
#[verifier::reject_recursive_types(K)]
#[verifier::reject_recursive_types(V)]
pub struct ExMembers<K, V>(serde_json::Map<K, V>);

/// The document that a `serde_json::Value` holds.
pub uninterp spec fn document(value: Value) -> Document;

/// The members that a `serde_json::Map` holds: each name with its document.
pub uninterp spec fn members(object: serde_json::Map<String, Value>) -> Map<Seq<char>, Document>;

/// The documents of a sequence of values, in the same order.
pub open spec fn documents(values: Seq<Value>) -> Seq<Document> {
    values.map_values(|value: Value| document(value))
}

/// The document of a value that may be absent.
pub open spec fn optional_document(value: Option<Value>) -> Option<Document> {
    match value {
        Some(value) => Some(document(value)),
        None => None,
    }
}

/// `Value::String`: the JSON string that holds the text of `text`.
#[verifier::external_body]
pub(crate) fn string_value(text: &str) -> (value: Value)
    ensures
        document(value) == Document::Text(text@),
{
    Value::String(text.to_owned())
}

/// `Value::Bool`: the JSON boolean `flag`.
#[verifier::external_body]
pub(crate) fn bool_value(flag: bool) -> (value: Value)
    ensures
        document(value) == Document::Bool(flag),
{
    Value::Bool(flag)
}

/// `Value::Array`: the JSON array that holds `items`, in their order.
#[verifier::external_body]
pub(crate) fn array_value(items: Vec<Value>) -> (value: Value)
    ensures
        document(value) == Document::List(documents(items@)),
{
    Value::Array(items)
}

/// `serde_json::Map::new`: a map with no member.
#[verifier::external_body]
pub(crate) fn members_new() -> (object: serde_json::Map<String, Value>)
    ensures
        members(object) == (Map::<Seq<char>, Document>::empty()),
{
    serde_json::Map::new()
}

/// `serde_json::Map::insert`: afterwards `name` holds `value`, whether or
/// not it held a value before, and every other member is as it was.
#[verifier::external_body]
pub(crate) fn members_insert(
    object: &mut serde_json::Map<String, Value>,
    name: String,
    value: Value,
)
    ensures
        members(*final(object)) == members(*old(object)).insert(name@, document(value)),
{
    object.insert(name, value);
}

/// `Value::Object`: the JSON object that holds the members of `object`.
#[verifier::external_body]
pub(crate) fn object_value(object: serde_json::Map<String, Value>) -> (value: Value)
    ensures
        document(value) == Document::Object(members(object)),
{
    Value::Object(object)
}

/// `Value::clone`: a copy that holds the same document.
#[verifier::external_body]
pub(crate) fn clone_value(value: &Value) -> (copy: Value)
    ensures
        document(copy) == document(*value),
{
    value.clone()
}

/// A copy of a value that may be absent.
pub fn clone_optional(value: &Option<Value>) -> (copy: Option<Value>)
    ensures
        optional_document(copy) == optional_document(*value),
{
    match value {
        Some(inner) => Some(clone_value(inner)),
        None => None,
    }
}

/// The object with one member.
pub fn object_of_one(name: &str, value: Value) -> (object: Value)
    ensures
        document(object) == Document::Object(map![name@ => document(value)]),
{
    let mut object = members_new();
    members_insert(&mut object, name.to_owned(), value);
    object_value(object)
}

/// The object with two members. Where the names are the same, the second
/// value stands.
pub fn object_of_two(
    first: &str,
    first_value: Value,
    second: &str,
    second_value: Value,
) -> (object: Value)
    ensures
        document(object) == Document::Object(
            map![first@ => document(first_value), second@ => document(second_value)],
        ),
{
    let mut object = members_new();
    members_insert(&mut object, first.to_owned(), first_value);
    members_insert(&mut object, second.to_owned(), second_value);
    object_value(object)
}

/// The object with three members. Where a name occurs twice, the later
/// value stands.
pub fn object_of_three(
    first: &str,
    first_value: Value,
    second: &str,
    second_value: Value,
    third: &str,
    third_value: Value,
) -> (object: Value)
    ensures
        document(object) == Document::Object(
            map![
                first@ => document(first_value),
                second@ => document(second_value),
                third@ => document(third_value)
            ],
        ),
{
    let mut object = members_new();
    members_insert(&mut object, first.to_owned(), first_value);
    members_insert(&mut object, second.to_owned(), second_value);
    members_insert(&mut object, third.to_owned(), third_value);
    object_value(object)
}

/// The array with the single item `item`.
pub fn array_of_one(item: Value) -> (array: Value)
    ensures
        document(array) == Document::List(seq![document(item)]),
{
    let mut items: Vec<Value> = Vec::new();
    items.push(item);
    proof {
        assert(documents(items@) =~= seq![document(item)]);
    }
    array_value(items)
}

} // verus!
