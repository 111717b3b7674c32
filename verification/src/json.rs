//! JSON values, as `serde_json` holds, reads and writes them.
//!
//! A value of `serde_json` cannot be looked into from here. Its contents have a
//! name, [`json_model`], and each function below says over that name what the
//! call of `serde_json` in it does.

use vstd::prelude::*;

verus! {

/// A JSON value of `serde_json`.
#[verifier::external_type_specification]
#[verifier::external_body]
pub struct ExJsonValue(serde_json::Value);

/// What a JSON value holds. A number stands as `serde_json` prints it, and an
/// object as the map from its keys to their values.
pub enum JsonView {
    Null,
    Bool(bool),
    Number(Seq<char>),
    Text(Seq<char>),
    List(Seq<JsonView>),
    Object(Map<Seq<char>, JsonView>),
}

/// What a value of `serde_json` holds.
pub uninterp spec fn json_model(value: serde_json::Value) -> JsonView;

/// What `serde_json::from_str` reads from a text: the value, or `None` for a
/// text that it refuses.
pub uninterp spec fn json_read(text: Seq<char>) -> Option<JsonView>;

/// What `serde_json::to_string_pretty` writes for a value: the text, or the
/// debug text of the error that it returns.
pub uninterp spec fn json_written(value: JsonView) -> Result<Seq<char>, Seq<char>>;

/// What a list of values holds.
pub open spec fn models(values: Seq<serde_json::Value>) -> Seq<JsonView> {
    Seq::new(values.len(), |i: int| json_model(values[i]))
}

/// Calls `serde_json::from_str` for a `Value`. The value that it returns is the
/// one that the text denotes; an error of any kind gives `None`.
#[verifier::external_body]
pub(crate) fn read_json(text: &str) -> (value: Option<serde_json::Value>)
    ensures
        json_read(text@) == match value {
            Some(v) => Some(json_model(v)),
            None => None,
        },
{
    match serde_json::from_str::<serde_json::Value>(text) {
        Ok(value) => Some(value),
        Err(_) => None,
    }
}

/// Calls `serde_json::to_string_pretty`, which writes a value with an
/// indentation of two spaces, and turns an error into its debug text.
#[verifier::external_body]
pub(crate) fn write_json(value: &serde_json::Value) -> (text: Result<String, String>)
    ensures
        json_written(json_model(*value)) == match text {
            Ok(words) => Ok(words@),
            Err(reason) => Err(reason@),
        },
{
    match serde_json::to_string_pretty(value) {
        Ok(text) => Ok(text),
        Err(error) => Err(format!("{:?}", error)),
    }
}

/// Makes `serde_json::Value::Null`.
#[verifier::external_body]
pub(crate) fn json_null() -> (value: serde_json::Value)
    ensures
        json_model(value) == JsonView::Null,
{
    serde_json::Value::Null
}

/// Makes a `serde_json::Value::String` of a text.
#[verifier::external_body]
pub(crate) fn json_text(text: &str) -> (value: serde_json::Value)
    ensures
        json_model(value) == JsonView::Text(text@),
{
    serde_json::Value::String(text.to_string())
}

/// Makes a `serde_json::Value::Array` of the values, in their order.
#[verifier::external_body]
pub(crate) fn json_list(items: Vec<serde_json::Value>) -> (value: serde_json::Value)
    ensures
        json_model(value) == JsonView::List(models(items@)),
{
    serde_json::Value::Array(items)
}

/// Makes a `serde_json::Value::Object` of an empty `serde_json::Map`.
#[verifier::external_body]
pub(crate) fn json_object() -> (value: serde_json::Value)
    ensures
        json_model(value) == JsonView::Object(Map::<Seq<char>, JsonView>::empty()),
{
    serde_json::Value::Object(serde_json::Map::new())
}

/// Calls `serde_json::Map::insert` on the map of an object, which sets the value
/// of the key, whether the key was there or not. A value that is no object comes
/// back as it was.
#[verifier::external_body]
pub(crate) fn json_insert(object: serde_json::Value, key: &str, item: serde_json::Value) -> (value:
    serde_json::Value)
    ensures
        json_model(value) == match json_model(object) {
            JsonView::Object(fields) => JsonView::Object(fields.insert(key@, json_model(item))),
            other => other,
        },
{
    let mut value = object;
    if let serde_json::Value::Object(fields) = &mut value {
        fields.insert(key.to_string(), item);
    }
    value
}

/// Calls `serde_json::Value::is_null`.
#[verifier::external_body]
pub(crate) fn json_is_null(value: &serde_json::Value) -> (null: bool)
    ensures
        null == (json_model(*value) is Null),
{
    value.is_null()
}

/// Calls `serde_json::Value::as_str`, which gives the text of a string and
/// nothing for any other value.
#[verifier::external_body]
pub(crate) fn json_as_text(value: &serde_json::Value) -> (text: Option<String>)
    ensures
        text.deep_view() == match json_model(*value) {
            JsonView::Text(words) => Some(words),
            _ => None,
        },
{
    value.as_str().map(|text| text.to_string())
}

/// Calls `serde_json::Value::as_array`, which gives the items of an array and
/// nothing for any other value. The items are copies.
#[verifier::external_body]
pub(crate) fn json_items(value: &serde_json::Value) -> (items: Option<Vec<serde_json::Value>>)
    ensures
        match json_model(*value) {
            JsonView::List(list) => items matches Some(found) && models(found@) == list,
            _ => items is None,
        },
{
    value.as_array().cloned()
}

/// Calls `serde_json::Value::get` with a key, which gives the value of the key
/// in an object and nothing where the key is absent or the value is no object.
/// The value is a copy.
#[verifier::external_body]
pub(crate) fn json_field(value: &serde_json::Value, key: &str) -> (item: Option<serde_json::Value>)
    ensures
        match json_model(*value) {
            JsonView::Object(fields) => if fields.dom().contains(key@) {
                item matches Some(found) && json_model(found) == fields[key@]
            } else {
                item is None
            },
            _ => item is None,
        },
{
    value.get(key).cloned()
}

/// What writing a text again gives: nothing for a text that is no JSON, else
/// what `serde_json` writes for the value that it read.
pub open spec fn rewritten(text: Seq<char>) -> Option<Result<Seq<char>, Seq<char>>> {
    match json_read(text) {
        Some(value) => Some(json_written(value)),
        None => None,
    }
}

/// The text that is shown for a text and what writing it again gave: the text
/// that was written, and in every other case the text itself.
pub open spec fn shown_text(text: Seq<char>, again: Option<Result<Seq<char>, Seq<char>>>) -> Seq<
    char,
> {
    match again {
        Some(Ok(pretty)) => pretty,
        _ => text,
    }
}

/// Why a text that is JSON could not be written again, if that is so. That a
/// text is no JSON is no failure.
pub open spec fn failure_of(again: Option<Result<Seq<char>, Seq<char>>>) -> Option<Seq<char>> {
    match again {
        Some(Err(reason)) => Some(reason),
        _ => None,
    }
}

/// The text that is shown for a text that came back: where the text is JSON and
/// can be written again, the text that `serde_json` writes for it; in every other
/// case the text itself.
pub open spec fn prettified(text: Seq<char>) -> Seq<char> {
    shown_text(text, rewritten(text))
}

/// Why a text that is JSON could not be written again, if that is so.
pub open spec fn prettify_failure(text: Seq<char>) -> Option<Seq<char>> {
    failure_of(rewritten(text))
}

/// The model of what writing a text again gave.
pub open spec fn again_view(again: Option<Result<String, String>>) -> Option<
    Result<Seq<char>, Seq<char>>,
> {
    match again {
        Some(Ok(pretty)) => Some(Ok(pretty@)),
        Some(Err(reason)) => Some(Err(reason@)),
        None => None,
    }
}

/// Reads a text as JSON and writes it again with indentation, see [`rewritten`].
pub fn rewrite(text: &str) -> (again: Option<Result<String, String>>)
    ensures
        again_view(again) == rewritten(text@),
{
    match read_json(text) {
        Some(value) => Some(write_json(&value)),
        None => None,
    }
}

/// The text to show and the reason of a failure, given a text and what writing
/// it again gave; see [`shown_text`] and [`failure_of`].
pub fn choose_text(text: String, again: Option<Result<String, String>>) -> (shown: (
    String,
    Option<String>,
))
    ensures
        shown.0@ == shown_text(text@, again_view(again)),
        shown.1.deep_view() == failure_of(again_view(again)),
{
    match again {
        Some(Ok(pretty)) => (pretty, None),
        Some(Err(reason)) => (text, Some(reason)),
        None => (text, None),
    }
}

/// Reads a text as JSON and writes it again with indentation. Returns the text to
/// show, see [`prettified`], and the reason of a failure to write, see
/// [`prettify_failure`].
pub fn prettify(text: String) -> (shown: (String, Option<String>))
    ensures
        shown.0@ == prettified(text@),
        shown.1.deep_view() == prettify_failure(text@),
{
    let again = rewrite(text.as_str());
    choose_text(text, again)
}

} // verus!
