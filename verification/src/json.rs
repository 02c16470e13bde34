//! JSON documents, read and written with `serde_json`.
//!
//! A document is held as a `serde_json::Value`, which the verifier cannot look
//! into. What it holds is named by [`json_model`]; every trusted function
//! below says, over that name, what the `serde_json` call it makes does. The
//! field readers and builders after them are verified against those claims.

use vstd::prelude::*;

verus! {

#[verifier::external_type_specification]
#[verifier::external_body]
pub struct ExJsonValue(serde_json::Value);

#[verifier::external_type_specification]
#[verifier::external_body]
pub struct ExJsonError(serde_json::Error);

#[verifier::external_type_specification]
#[verifier::external_body]
#[verifier::reject_recursive_types(K)]
#[verifier::reject_recursive_types(V)]
pub struct ExJsonObject<K, V>(serde_json::Map<K, V>);

/// What a JSON number holds: a non-negative integer, a negative integer, or
/// the bits of a finite float.
pub ghost enum NumberModel {
    PosInt(u64),
    NegInt(i64),
    Float(u64),
}

/// What a JSON document holds.
pub ghost enum JsonModel {
    Null,
    Bool(bool),
    Number(NumberModel),
    String(Seq<char>),
    Array(Seq<JsonModel>),
    Object(Map<Seq<char>, JsonModel>),
}

/// What a `serde_json::Value` holds.
pub uninterp spec fn json_model(value: serde_json::Value) -> JsonModel;

/// What a `serde_json::Map` from strings to values holds: its entries.
pub uninterp spec fn json_fields(object: serde_json::Map<String, serde_json::Value>) -> Map<
    Seq<char>,
    JsonModel,
>;

/// The document that `serde_json::from_str` reads from a text, or `None` where it rejects the text.
pub uninterp spec fn json_parsing(text: Seq<char>) -> Option<JsonModel>;

/// The text that `serde_json::to_string` writes for a document, or `None` where it fails.
pub uninterp spec fn json_rendering(model: JsonModel) -> Option<Seq<char>>;

/// The models of a sequence of values, item by item.
pub open spec fn models_of(items: Seq<serde_json::Value>) -> Seq<JsonModel> {
    items.map_values(|item: serde_json::Value| json_model(item))
}

/// The entries of an object without entries.
pub open spec fn no_fields() -> Map<Seq<char>, JsonModel> {
    Map::empty()
}

/// The member `key` of a document: present only in an object that has that key.
pub open spec fn json_member(model: JsonModel, key: Seq<char>) -> Option<JsonModel> {
    match model {
        JsonModel::Object(fields) => if fields.contains_key(key) {
            Some(fields[key])
        } else {
            None
        },
        _ => None,
    }
}

/// Calls `serde_json::from_str` at type `Value`. Trusted: the outcome depends
/// on the text alone; it is named [`json_parsing`].
#[verifier::external_body]
pub(crate) fn parse_text(text: &str) -> (parsed: Result<serde_json::Value, serde_json::Error>)
    ensures
        match parsed {
            Ok(value) => json_parsing(text@) == Some(json_model(value)),
            Err(_) => json_parsing(text@) is None,
        },
{
    serde_json::from_str::<serde_json::Value>(text)
}

/// Calls `serde_json::to_string` on a `Value`. Trusted: the outcome depends on
/// what the value holds alone, since an object is written with its keys in
/// ascending order; it is named [`json_rendering`]. This rests on the
/// crate's `preserve_order` feature being off, as it is by default.
#[verifier::external_body]
pub(crate) fn render_text(value: &serde_json::Value) -> (rendered: Result<
    String,
    serde_json::Error,
>)
    ensures
        match rendered {
            Ok(text) => json_rendering(json_model(*value)) == Some(text@),
            Err(_) => json_rendering(json_model(*value)) is None,
        },
{
    serde_json::to_string(value)
}

/// Calls `Value::get` with a string key. Trusted: it finds the entry of that
/// key in an object and nothing in any other kind of value.
#[verifier::external_body]
pub(crate) fn member<'a>(value: &'a serde_json::Value, key: &str) -> (found: Option<
    &'a serde_json::Value,
>)
    ensures
        match found {
            Some(inner) => json_member(json_model(*value), key@) == Some(json_model(*inner)),
            None => json_member(json_model(*value), key@) is None,
        },
{
    value.get(key)
}

/// Calls `Value::as_str`. Trusted: it returns the text of a JSON string and
/// `None` for any other kind of value.
#[verifier::external_body]
pub(crate) fn as_text<'a>(value: &'a serde_json::Value) -> (text: Option<&'a str>)
    ensures
        match text {
            Some(text) => json_model(*value) == JsonModel::String(text@),
            None => !(json_model(*value) is String),
        },
{
    value.as_str()
}

/// Calls `Value::as_array`. Trusted: it returns the items of a JSON array and
/// `None` for any other kind of value.
#[verifier::external_body]
pub(crate) fn as_items<'a>(value: &'a serde_json::Value) -> (items: Option<
    &'a Vec<serde_json::Value>,
>)
    ensures
        match items {
            Some(items) => json_model(*value) == JsonModel::Array(models_of(items@)),
            None => !(json_model(*value) is Array),
        },
{
    value.as_array()
}

/// Calls `Value::as_u64`. Trusted: it returns the number where the value is a
/// non-negative integer and `None` for any other value.
#[verifier::external_body]
pub(crate) fn as_unsigned(value: &serde_json::Value) -> (number: Option<u64>)
    ensures
        match number {
            Some(n) => json_model(*value) == JsonModel::Number(NumberModel::PosInt(n)),
            None => !(json_model(*value) matches JsonModel::Number(NumberModel::PosInt(_))),
        },
{
    value.as_u64()
}

/// Calls `Value::is_null`. Trusted: it tells whether the value is JSON `null`.
#[verifier::external_body]
pub(crate) fn is_null(value: &serde_json::Value) -> (null: bool)
    ensures
        null == (json_model(*value) is Null),
{
    value.is_null()
}

/// Calls `Value::as_object`. Trusted: it returns the entries of a JSON object
/// and `None` for any other kind of value.
#[verifier::external_body]
pub(crate) fn as_object<'a>(value: &'a serde_json::Value) -> (object: Option<
    &'a serde_json::Map<String, serde_json::Value>,
>)
    ensures
        match object {
            Some(object) => json_model(*value) == JsonModel::Object(json_fields(*object)),
            None => !(json_model(*value) is Object),
        },
{
    value.as_object()
}

/// Calls `Map::keys` and copies the keys out. Trusted: the result lists
/// exactly the keys of the object.
#[verifier::external_body]
pub(crate) fn field_names(object: &serde_json::Map<String, serde_json::Value>) -> (names: Vec<
    String,
>)
    ensures
        forall|i: int| 0 <= i < names@.len() ==> json_fields(*object).contains_key(#[trigger] names@[i]@),
        forall|key: Seq<char>| #[trigger]
            json_fields(*object).contains_key(key) ==> exists|i: int|
                0 <= i < names@.len() && #[trigger] names@[i]@ == key,
{
    object.keys().cloned().collect()
}

/// Calls `Value::from` on a string. Trusted: the result is that JSON string.
#[verifier::external_body]
pub(crate) fn text_value(text: String) -> (value: serde_json::Value)
    ensures
        json_model(value) == JsonModel::String(text@),
{
    serde_json::Value::from(text)
}

/// Calls `Value::from` on a `u64`. Trusted: the result is that JSON number.
#[verifier::external_body]
pub(crate) fn unsigned_value(number: u64) -> (value: serde_json::Value)
    ensures
        json_model(value) == JsonModel::Number(NumberModel::PosInt(number)),
{
    serde_json::Value::from(number)
}

/// Calls `Value::from` on a vector of values. Trusted: the result is the JSON
/// array of those values, in order.
#[verifier::external_body]
pub(crate) fn array_value(items: Vec<serde_json::Value>) -> (value: serde_json::Value)
    ensures
        json_model(value) == JsonModel::Array(models_of(items@)),
{
    serde_json::Value::from(items)
}

/// Calls `Map::new`. Trusted: the result has no entry.
#[verifier::external_body]
pub(crate) fn new_object() -> (object: serde_json::Map<String, serde_json::Value>)
    ensures
        json_fields(object) == no_fields(),
{
    serde_json::Map::new()
}

/// Calls `Map::insert`. Trusted: afterwards the object maps `name` to
/// `value` and is otherwise as before.
#[verifier::external_body]
pub(crate) fn insert_field(
    object: &mut serde_json::Map<String, serde_json::Value>,
    name: String,
    value: serde_json::Value,
)
    ensures
        json_fields(*final(object)) == json_fields(*old(object)).insert(name@, json_model(value)),
{
    object.insert(name, value);
}

/// Calls `Value::from` on a map. Trusted: the result is the JSON object with
/// the map's entries.
#[verifier::external_body]
pub(crate) fn object_value(object: serde_json::Map<String, serde_json::Value>) -> (value:
    serde_json::Value)
    ensures
        json_model(value) == JsonModel::Object(json_fields(object)),
{
    serde_json::Value::from(object)
}

} // verus!
