//! JSON, as far as the task system needs it.
//!
//! Task records are JSON documents. Reading and writing JSON is `serde_json`'s
//! work; nothing in this module is proved. Each item states what the library
//! relies on, over two things: the members of a document, and the shape of a
//! value as far as the library looks into it. A value that the library does
//! not look into is carried through as it is.

use serde_json::Value;
use vstd::prelude::*;

verus! {

/// A JSON value of `serde_json`. The library sees no more of it than
/// `json_shape` tells.
#[verifier::external_type_specification]
#[verifier::external_body]
pub struct ExValue(serde_json::Value);

/// The error of `serde_json`.
#[verifier::external_type_specification]
#[verifier::external_body]
pub struct ExJsonError(serde_json::Error);

/// What the library reads of a JSON value: whether it is null, a string, or an
/// array of strings only. Every other value is `Other`.
pub enum JsonShape {
    Null,
    Text(Seq<char>),
    TextList(Seq<Seq<char>>),
    Other,
}

/// The shape of a JSON value.
pub uninterp spec fn json_shape(value: Value) -> JsonShape;

/// What `serde_json::from_slice` makes of `bytes` when it is asked for a map
/// from names to values: the members of the JSON object that `bytes` holds,
/// or the error's message where `bytes` holds no JSON object.
pub uninterp spec fn json_object(bytes: Seq<u8>) -> Result<Seq<(Seq<char>, Value)>, Seq<char>>;

/// The bytes that `serde_json::to_vec` writes for the JSON object with the
/// members `fields`.
pub uninterp spec fn json_document(fields: Seq<(Seq<char>, Value)>) -> Seq<u8>;

/// The bytes that `serde_json::to_vec_pretty` writes for the JSON object with
/// the members `fields`.
pub uninterp spec fn json_document_pretty(fields: Seq<(Seq<char>, Value)>) -> Seq<u8>;

/// The message of a `serde_json` error, as its `Display` writes it.
pub uninterp spec fn json_error_text(error: serde_json::Error) -> Seq<char>;

/// What `String::from_utf8_lossy` makes of `bytes`.
pub uninterp spec fn utf8_lossy(bytes: Seq<u8>) -> Seq<char>;

/// The members of a document as the contracts speak of them: each name by its
/// characters, each value as it is.
pub open spec fn fields_view(fields: Seq<(String, Value)>) -> Seq<(Seq<char>, Value)> {
    fields.map_values(|field: (String, Value)| (field.0@, field.1))
}

/// A list of strings as the contracts speak of it: each by its characters.
pub open spec fn texts_view(texts: Seq<String>) -> Seq<Seq<char>> {
    texts.map_values(|text: String| text@)
}

/// `Clone::clone` of `serde_json::Value`: the copy is the same JSON value.
pub assume_specification[ <serde_json::Value as Clone>::clone ](
    value: &serde_json::Value,
) -> (copy: serde_json::Value)
    ensures
        copy == *value,
;

/// `serde_json::from_slice`, asked for a `serde_json::Map<String, Value>`. The
/// members come in the order in which the map hands them out. The contract
/// names the result and says no more of it.
#[verifier::external_body]
pub(crate) fn parse_object(bytes: &[u8]) -> (parsed: Result<
    Vec<(String, Value)>,
    serde_json::Error,
>)
    ensures
        match parsed {
            Ok(fields) => json_object(bytes@) == Ok::<_, Seq<char>>(fields_view(fields@)),
            Err(error) => json_object(bytes@) == Err::<Seq<(Seq<char>, Value)>, _>(
                json_error_text(error),
            ),
        },
{
    let map = serde_json::from_slice::<serde_json::Map<String, Value>>(bytes)?;
    Ok(map.into_iter().collect())
}

/// `serde_json::to_vec` of the `serde_json::Map` that holds `fields`. Writing
/// a map of values into memory does not fail. The contract names the result
/// and says no more of it.
#[verifier::external_body]
pub(crate) fn print_object(fields: &Vec<(String, Value)>) -> (bytes: Vec<u8>)
    ensures
        bytes@ == json_document(fields_view(fields@)),
{
    let map: serde_json::Map<String, Value> = fields.iter().cloned().collect();
    serde_json::to_vec(&map).unwrap_or_default()
}

/// `serde_json::to_vec_pretty` of the `serde_json::Map` that holds `fields`.
/// The contract names the result and says no more of it.
#[verifier::external_body]
pub(crate) fn print_object_pretty(fields: &Vec<(String, Value)>) -> (bytes: Vec<u8>)
    ensures
        bytes@ == json_document_pretty(fields_view(fields@)),
{
    let map: serde_json::Map<String, Value> = fields.iter().cloned().collect();
    serde_json::to_vec_pretty(&map).unwrap_or_default()
}

/// `ToString::to_string` of a `serde_json::Error`: its message.
#[verifier::external_body]
pub(crate) fn error_text(error: &serde_json::Error) -> (text: String)
    ensures
        text@ == json_error_text(*error),
{
    error.to_string()
}

/// `Value::is_null`.
#[verifier::external_body]
pub(crate) fn value_is_null(value: &Value) -> (is_null: bool)
    ensures
        is_null == (json_shape(*value) is Null),
{
    value.is_null()
}

/// `Value::as_str`: the text of a JSON string, and nothing for any other
/// value.
#[verifier::external_body]
pub(crate) fn value_as_text(value: &Value) -> (text: Option<String>)
    ensures
        match text {
            Some(text) => json_shape(*value) == JsonShape::Text(text@),
            None => !(json_shape(*value) is Text),
        },
{
    value.as_str().map(|text| text.to_owned())
}

/// `serde_json::from_value`, asked for a `Vec<String>`: the strings of a JSON
/// array that holds strings only, and nothing for any other value.
#[verifier::external_body]
pub(crate) fn value_as_text_list(value: &Value) -> (list: Option<Vec<String>>)
    ensures
        match list {
            Some(list) => json_shape(*value) == JsonShape::TextList(texts_view(list@)),
            None => !(json_shape(*value) is TextList),
        },
{
    serde_json::from_value::<Vec<String>>(value.clone()).ok()
}

/// `Value::from` of a `&str`: the JSON string that holds the text.
#[verifier::external_body]
pub(crate) fn text_value(text: &str) -> (value: Value)
    ensures
        json_shape(value) == JsonShape::Text(text@),
{
    Value::from(text)
}

/// `Value::from` of a `Vec<String>`: the JSON array of those strings.
#[verifier::external_body]
pub(crate) fn text_list_value(list: &Vec<String>) -> (value: Value)
    ensures
        json_shape(value) == JsonShape::TextList(texts_view(list@)),
{
    Value::from(list.clone())
}

/// `String::from_utf8_lossy`: the text of `bytes`, with a replacement
/// character for what is not UTF-8.
#[verifier::external_body]
pub(crate) fn text_of_bytes(bytes: &[u8]) -> (text: String)
    ensures
        text@ == utf8_lossy(bytes@),
{
    String::from_utf8_lossy(bytes).into_owned()
}

} // verus!
