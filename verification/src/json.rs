//! The JSON values that travel through the bridge.
//!
//! Values are built, printed and read by `serde_json`. Verus cannot look inside
//! them, so this module gives them a mathematical model and says, item by item,
//! what is taken on trust about the calls into that crate.

use vstd::prelude::*;

verus! {

/// `serde_json::Value`: one JSON value. It is carried through unopened.
#[verifier::external_type_specification]
#[verifier::external_body]
pub struct ExJsonValue(serde_json::Value);

/// `serde_json::Map`: the members of one JSON object.
#[verifier::external_type_specification]
#[verifier::external_body]
#[verifier::reject_recursive_types(K)]
#[verifier::reject_recursive_types(V)]
pub struct ExJsonMap<K, V>(serde_json::Map<K, V>);

/// What a JSON value holds.
pub enum JsonModel {
    Null,
    Bool(bool),
    /// A number held as an integer.
    Integer(int),
    /// A number that is not held as an integer, by its 64-bit pattern.
    Real(u64),
    Text(Seq<char>),
    Array(Seq<JsonModel>),
    /// An object: its member names and what each of them holds.
    Object(Map<Seq<char>, JsonModel>),
}

/// What the value `value` holds.
pub uninterp spec fn value_model(value: serde_json::Value) -> JsonModel;

/// The members of the object `object`, by name.
pub uninterp spec fn object_members(object: serde_json::Map<String, serde_json::Value>) -> Map<
    Seq<char>,
    JsonModel,
>;

/// `serde_json::Map::new`: the new object has no members.
#[verifier::external_body]
pub(crate) fn empty_object() -> (object: serde_json::Map<String, serde_json::Value>)
    ensures
        object_members(object) =~= Map::empty(),
{
    serde_json::Map::new()
}

/// `serde_json::Map::insert`: afterwards the object has the member `name` with
/// the given value, whether or not it had a member of that name before, and
/// its other members are unchanged.
#[verifier::external_body]
pub(crate) fn put_member(
    object: &mut serde_json::Map<String, serde_json::Value>,
    name: &str,
    value: serde_json::Value,
)
    ensures
        object_members(*final(object)) == object_members(*old(object)).insert(
            name@,
            value_model(value),
        ),
{
    object.insert(name.to_owned(), value);
}

/// `serde_json::Value::String`: a value that holds the given text.
#[verifier::external_body]
pub(crate) fn text_value(text: String) -> (value: serde_json::Value)
    ensures
        value_model(value) == JsonModel::Text(text@),
{
    serde_json::Value::String(text)
}

/// `serde_json::Value::from` on an integer: a number that holds that integer.
#[verifier::external_body]
pub(crate) fn integer_value(number: i32) -> (value: serde_json::Value)
    ensures
        value_model(value) == JsonModel::Integer(number as int),
{
    serde_json::Value::from(number)
}

/// `serde_json::Value::Null`: the null value.
#[verifier::external_body]
pub(crate) fn null_value() -> (value: serde_json::Value)
    ensures
        value_model(value) == JsonModel::Null,
{
    serde_json::Value::Null
}

/// `serde_json::Value::Object`: a value that holds the members of `object`.
#[verifier::external_body]
pub(crate) fn object_value(object: serde_json::Map<String, serde_json::Value>) -> (value:
    serde_json::Value)
    ensures
        value_model(value) == JsonModel::Object(object_members(object)),
{
    serde_json::Value::Object(object)
}

/// The compact JSON text that `serde_json::to_string` writes for a value that
/// holds `model`. The members of an object are written in the order of their
/// names, as the crate does when built without `preserve_order`.
pub uninterp spec fn json_text(model: JsonModel) -> Seq<char>;

/// `serde_json::to_string` on an object. The object is written to memory, its
/// names are texts and its numbers are finite, so nothing in the crate can
/// refuse it: the call succeeds. The text is the compact JSON text of the
/// object, and an object without members is written as a pair of braces. An
/// error, which cannot come, would be handed on by its `Display` text.
#[verifier::external_body]
pub(crate) fn object_text(object: &serde_json::Map<String, serde_json::Value>) -> (written: Result<
    String,
    String,
>)
    ensures
        written is Ok,
        written matches Ok(text) ==> text@ == json_text(
            JsonModel::Object(object_members(*object)),
        ),
        written matches Ok(text) ==> (object_members(*object) =~= Map::empty() ==> text@ == "{}"@),
{
    match serde_json::to_string(object) {
        Ok(text) => Ok(text),
        Err(error) => Err(error.to_string()),
    }
}

/// What `serde_json::from_str` makes of `text` when it reads a value: what
/// the value holds where the text is one JSON document, else the `Display`
/// text of the error, which names what is wrong and where.
pub uninterp spec fn parsed_json(text: Seq<char>) -> Result<JsonModel, Seq<char>>;

/// `serde_json::from_str` for a value: it succeeds exactly on the texts that
/// are one JSON document, and the value then holds what the document says.
/// Where it fails, the error is handed on by its `Display` text.
#[verifier::external_body]
pub(crate) fn parse_value(text: &str) -> (read: Result<serde_json::Value, String>)
    ensures
        read matches Ok(value) ==> (parsed_json(text@) matches Ok(model) && model == value_model(
            value,
        )),
        read matches Err(complaint) ==> (parsed_json(text@) matches Err(said) && said
            == complaint@),
{
    match serde_json::from_str::<serde_json::Value>(text) {
        Ok(value) => Ok(value),
        Err(error) => Err(error.to_string()),
    }
}

} // verus!
