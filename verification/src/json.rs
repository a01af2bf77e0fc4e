//! The boundary with `serde_json`.
//!
//! JSON text is read and written by `serde_json`; this crate walks and builds
//! `serde_json::Value` trees. Verus cannot look inside those trees, so this
//! module gives them a mathematical model, [`Json`], and states for every
//! `serde_json` function that the crate calls what it does to the model.
//! Nothing in this module is proved: each contract here is an assumption
//! about `serde_json`, and everything else in the crate is proved from them.

use vstd::prelude::*;

verus! {

/// `serde_json::Value`, opaque to the verifier. Its contents are [`value_model`].
#[verifier::external_type_specification]
#[verifier::external_body]
pub struct ExValue(serde_json::Value);

/// `serde_json::Number`, opaque to the verifier. The crate never looks into a
/// number: it carries each one from the document it was read from into the
/// document it is written to.
#[verifier::external_type_specification]
#[verifier::external_body]
pub struct ExNumber(serde_json::Number);

/// `serde_json::Map`, opaque to the verifier. Its contents are [`object_model`].
#[verifier::external_type_specification]
#[verifier::external_body]
#[verifier::reject_recursive_types(K)]
#[verifier::reject_recursive_types(V)]
pub struct ExMap<K, V>(serde_json::Map<K, V>);

/// `serde_json::Error`, opaque to the verifier.
#[verifier::external_type_specification]
#[verifier::external_body]
pub struct ExError(serde_json::Error);

/// The mathematical model of a JSON value: the six variants of
/// `serde_json::Value`, with strings as character sequences, arrays as
/// sequences and objects as maps keyed by their member names.
pub ghost enum Json {
    Null,
    Bool(bool),
    Number(serde_json::Number),
    String(Seq<char>),
    Array(Seq<Json>),
    Object(Map<Seq<char>, Json>),
}

/// The JSON value that a `serde_json::Value` holds.
pub uninterp spec fn value_model(value: serde_json::Value) -> Json;

/// The members that a `serde_json::Map` holds, by name.
pub uninterp spec fn object_model(object: serde_json::Map<String, serde_json::Value>) -> Map<
    Seq<char>,
    Json,
>;

/// What `serde_json::from_str` makes of a text: the value it parses to, or
/// `None` where it rejects the text.
pub uninterp spec fn json_document(text: Seq<char>) -> Option<Json>;

/// What `serde_json::to_string` prints for a value: the compact JSON text, or
/// `None` where it reports an error.
pub uninterp spec fn json_text(document: Json) -> Option<Seq<char>>;

/// The members of an object that has none.
pub open spec fn no_members() -> Map<Seq<char>, Json> {
    Map::empty()
}

/// The models of a sequence of values, in order.
pub open spec fn value_models(values: Seq<serde_json::Value>) -> Seq<Json> {
    values.map_values(|value: serde_json::Value| value_model(value))
}

/// `entries` lists exactly the members of `members`: every entry is a member
/// with its value, and every member name occurs among the entries.
pub open spec fn lists_members(
    entries: Seq<(&String, &serde_json::Value)>,
    members: Map<Seq<char>, Json>,
) -> bool {
    &&& forall|i: int|
        0 <= i < entries.len() ==> members.contains_key((#[trigger] entries[i]).0@)
            && members[entries[i].0@] == value_model(*entries[i].1)
    &&& forall|name: Seq<char>|
        members.contains_key(name) ==> exists|i: int|
            0 <= i < entries.len() && (#[trigger] entries[i]).0@ == name
}

/// `serde_json::from_str::<Value>`: parses a text as one JSON value.
///
/// Assumed: the outcome depends on the text alone; it is `Ok` exactly where
/// [`json_document`] is `Some`, and the value then holds that document.
/// Nothing is assumed of which texts parse, nor of the error.
#[verifier::external_body]
pub(crate) fn parse_document(text: &str) -> (parsed: Result<
    serde_json::Value,
    serde_json::Error,
>)
    ensures
        parsed is Ok <==> json_document(text@) is Some,
        parsed is Ok ==> Some(value_model(parsed->Ok_0)) == json_document(text@),
{
    serde_json::from_str::<serde_json::Value>(text)
}

/// `serde_json::to_string::<Value>`: prints a value as compact JSON text.
///
/// Assumed: the outcome depends on what the value holds alone; it is `Ok`
/// exactly where [`json_text`] is `Some`, and the string then is that text.
/// This rests on `serde_json` keeping the members of an object sorted by
/// name, as it does unless built with `preserve_order`. Nothing is assumed of
/// which values print, nor of the error.
#[verifier::external_body]
pub(crate) fn print_document(value: &serde_json::Value) -> (printed: Result<
    String,
    serde_json::Error,
>)
    ensures
        printed is Ok <==> json_text(value_model(*value)) is Some,
        printed is Ok ==> Some(printed->Ok_0@) == json_text(value_model(*value)),
{
    serde_json::to_string(value)
}

/// `Value::as_object`: the map of an object, `None` for any other value.
pub assume_specification[ serde_json::Value::as_object ](value: &serde_json::Value) -> (object:
    Option<&serde_json::Map<String, serde_json::Value>>)
    ensures
        match value_model(*value) {
            Json::Object(members) => object is Some && object_model(*object->0) == members,
            _ => object is None,
        },
;

/// `Value::as_array`: the vector of an array, `None` for any other value.
pub assume_specification[ serde_json::Value::as_array ](value: &serde_json::Value) -> (array:
    Option<&Vec<serde_json::Value>>)
    ensures
        match value_model(*value) {
            Json::Array(items) => array is Some && value_models(array->0@) == items,
            _ => array is None,
        },
;

/// `Value::as_str`: the text of a string, `None` for any other value.
pub assume_specification[ serde_json::Value::as_str ](value: &serde_json::Value) -> (text: Option<
    &str,
>)
    ensures
        match value_model(*value) {
            Json::String(chars) => text is Some && text->0@ == chars,
            _ => text is None,
        },
;

/// `Value::as_number`: the number of a number, `None` for any other value.
pub assume_specification[ serde_json::Value::as_number ](value: &serde_json::Value) -> (number:
    Option<&serde_json::Number>)
    ensures
        match value_model(*value) {
            Json::Number(n) => number is Some && *number->0 == n,
            _ => number is None,
        },
;

/// `<Number as Clone>::clone`: a copy that is the same number.
pub assume_specification[ <serde_json::Number as Clone>::clone ](
    number: &serde_json::Number,
) -> (copy: serde_json::Number)
    ensures
        copy == *number,
;

/// `Map::get` with a `&str` key: the member of that name, `None` where the
/// object has none.
#[verifier::external_body]
pub(crate) fn member<'a>(
    object: &'a serde_json::Map<String, serde_json::Value>,
    name: &str,
) -> (found: Option<&'a serde_json::Value>)
    ensures
        object_model(*object).contains_key(name@) <==> found is Some,
        found is Some ==> value_model(*found->0) == object_model(*object)[name@],
{
    object.get(name)
}

/// `Map::iter`, collected: the members of an object. Nothing is assumed of
/// the order in which they come.
#[verifier::external_body]
pub(crate) fn members<'a>(object: &'a serde_json::Map<String, serde_json::Value>) -> (entries:
    Vec<(&'a String, &'a serde_json::Value)>)
    ensures
        lists_members(entries@, object_model(*object)),
{
    object.iter().collect()
}

/// `Map::new`: an object without members.
pub assume_specification[ serde_json::Map::<String, serde_json::Value>::new ]() -> (object:
    serde_json::Map<String, serde_json::Value>)
    ensures
        object_model(object) == no_members(),
;

/// `Map::insert`: sets the member of the given name, replacing the one that
/// was there, and returns the value that it replaced.
pub assume_specification[ serde_json::Map::<String, serde_json::Value>::insert ](
    object: &mut serde_json::Map<String, serde_json::Value>,
    name: String,
    value: serde_json::Value,
) -> (replaced: Option<serde_json::Value>)
    ensures
        object_model(*final(object)) == object_model(*old(object)).insert(
            name@,
            value_model(value),
        ),
        replaced is Some <==> object_model(*old(object)).contains_key(name@),
        replaced is Some ==> value_model(replaced->0) == object_model(*old(object))[name@],
;

/// `Value::String`: the JSON string with the given text.
#[verifier::external_body]
pub(crate) fn string_value(text: String) -> (value: serde_json::Value)
    ensures
        value_model(value) == Json::String(text@),
{
    serde_json::Value::String(text)
}

/// `Value::Number`: the JSON number that is the given number.
#[verifier::external_body]
pub(crate) fn number_value(number: serde_json::Number) -> (value: serde_json::Value)
    ensures
        value_model(value) == Json::Number(number),
{
    serde_json::Value::Number(number)
}

/// `Value::Array`: the JSON array of the given values, in order.
#[verifier::external_body]
pub(crate) fn array_value(items: Vec<serde_json::Value>) -> (value: serde_json::Value)
    ensures
        value_model(value) == Json::Array(value_models(items@)),
{
    serde_json::Value::Array(items)
}

/// `Value::Object`: the JSON object with the given members.
#[verifier::external_body]
pub(crate) fn object_value(object: serde_json::Map<String, serde_json::Value>) -> (value:
    serde_json::Value)
    ensures
        value_model(value) == Json::Object(object_model(object)),
{
    serde_json::Value::Object(object)
}

} // verus!
