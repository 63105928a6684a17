use serde_json::Value;
use vstd::prelude::*;

verus! {

/// The content of a JSON document as a mathematical value.
///
/// A number stands by its decimal text, and an object by the map from its
/// member names to its member values, so that two objects with the same
/// members are the same document whatever order they were filled in.
pub enum JsonDoc {
    Null,
    Bool(bool),
    Number(Seq<char>),
    Text(Seq<char>),
    Array(Seq<JsonDoc>),
    Object(Map<Seq<char>, JsonDoc>),
}

/// `serde_json::Value`: a JSON value, known here by the document that it holds.
#[verifier::external_type_specification]
#[verifier::external_body]
pub struct ExJsonValue(serde_json::Value);

/// `serde_json::Map`: the members of a JSON object, known here by the map
/// from their names to the documents that they hold.
#[verifier::external_type_specification]
#[verifier::external_body]
#[verifier::reject_recursive_types(K)]
#[verifier::reject_recursive_types(V)]
pub struct ExJsonMap<K, V>(serde_json::Map<K, V>);

/// The document that a `serde_json::Value` holds.
pub uninterp spec fn json_doc(value: Value) -> JsonDoc;

/// The members that a `serde_json::Map` holds, each value as the document it holds.
pub uninterp spec fn json_members(object: serde_json::Map<String, Value>) -> Map<Seq<char>, JsonDoc>;

/// The members of an object that has none.
pub open spec fn no_members() -> Map<Seq<char>, JsonDoc> {
    Map::empty()
}

/// The compact text that `serde_json` writes for a document.
pub uninterp spec fn json_rendering(doc: JsonDoc) -> Seq<char>;

/// `serde_json::Map::new`: the new map has no member.
pub assume_specification[ serde_json::Map::<String, Value>::new ]() -> (made: serde_json::Map<String, Value>)
    ensures
        json_members(made) == no_members(),
;

/// `serde_json::Map::insert`: afterwards the map holds the value under the key,
/// in place of what it held there before, and every other member as before.
/// The call hands back what stood under the key, if anything did.
pub assume_specification[ serde_json::Map::<String, Value>::insert ](
    object: &mut serde_json::Map<String, Value>,
    k: String,
    v: Value,
) -> (previous: Option<Value>)
    ensures
        json_members(*final(object)) == json_members(*old(object)).insert(k@, json_doc(v)),
        previous is Some <==> json_members(*old(object)).dom().contains(k@),
        previous matches Some(p) ==> json_doc(p) == json_members(*old(object))[k@],
;

/// `Value::from(String)`: the value is the JSON string with exactly these characters.
#[verifier::external_body]
pub(crate) fn json_text(text: String) -> (value: Value)
    ensures
        json_doc(value) == JsonDoc::Text(text@),
{
    Value::from(text)
}

/// `Value::from(Map)`: the value is the JSON object with exactly the map's members.
#[verifier::external_body]
pub(crate) fn json_object(object: serde_json::Map<String, Value>) -> (value: Value)
    ensures
        json_doc(value) == JsonDoc::Object(json_members(object)),
{
    Value::from(object)
}

/// The `Display` of `serde_json::Value`, through `to_string`: the compact text
/// of the document, which depends on the document alone.
#[verifier::external_body]
pub(crate) fn json_render(value: &Value) -> (text: String)
    ensures
        text@ == json_rendering(json_doc(*value)),
{
    value.to_string()
}

/// `serde_json::Error`: why a text is no JSON document.
#[verifier::external_type_specification]
#[verifier::external_body]
pub struct ExJsonError(serde_json::Error);

/// The document that `serde_json` reads from a text, or `None` where the
/// text is no JSON document.
pub uninterp spec fn json_parsed(text: Seq<char>) -> Option<JsonDoc>;

/// The member of an object under a name: `None` where the document is no
/// object or has no member of that name.
pub open spec fn member(doc: JsonDoc, name: Seq<char>) -> Option<JsonDoc> {
    match doc {
        JsonDoc::Object(members) => if members.dom().contains(name) {
            Some(members[name])
        } else {
            None
        },
        _ => None,
    }
}

/// `serde_json::from_str` to a `Value`: the document that the text spells,
/// which depends on the text alone, or an error where it spells none.
#[verifier::external_body]
pub(crate) fn json_parse(text: &str) -> (parsed: Result<Value, serde_json::Error>)
    ensures
        parsed matches Ok(value) ==> json_parsed(text@) == Some(json_doc(value)),
        parsed is Err ==> json_parsed(text@) is None,
{
    serde_json::from_str(text)
}

/// The `Display` of `serde_json::Error`, through `to_string`: what the error
/// says, of which nothing is stated.
#[verifier::external_body]
pub(crate) fn json_error_message(error: &serde_json::Error) -> String {
    error.to_string()
}

/// `Value::get` with a string: the member of an object under that name, and
/// nothing for a value that is no object or has no such member.
#[verifier::external_body]
pub(crate) fn json_get<'a>(value: &'a Value, name: &str) -> (found: Option<&'a Value>)
    ensures
        found is Some <==> member(json_doc(*value), name@) is Some,
        found matches Some(inner) ==> member(json_doc(*value), name@) == Some(json_doc(*inner)),
{
    value.get(name)
}

/// `Value::as_str`: the characters of a JSON string, and nothing for any other value.
#[verifier::external_body]
pub(crate) fn json_as_str(value: &Value) -> (text: Option<&str>)
    ensures
        text is Some <==> json_doc(*value) is Text,
        text matches Some(t) ==> json_doc(*value) == JsonDoc::Text(t@),
{
    value.as_str()
}

/// The `==` of a `Value` and a `str`: whether the value is the JSON string
/// with exactly these characters.
#[verifier::external_body]
pub(crate) fn json_is_text(value: &Value, text: &str) -> (same: bool)
    ensures
        same == (json_doc(*value) == JsonDoc::Text(text@)),
{
    *value == *text
}

/// `Value::is_array`: whether the value is a JSON array.
#[verifier::external_body]
pub(crate) fn json_is_array(value: &Value) -> (array: bool)
    ensures
        array == (json_doc(*value) is Array),
{
    value.is_array()
}

} // verus!
