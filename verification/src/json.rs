//! JSON as `serde_json` reads and writes it, for the few shapes the bridge
//! puts on the wire: a string, a list of strings, and an object taken apart
//! into its fields.
//!
//! What `serde_json` makes of a text is not restated here. Each of its results
//! has a name, and the functions of this module say that they return what the
//! name stands for; everything built on top is proved from that alone.

use vstd::prelude::*;

verus! {

/// The characters of each string of a list.
pub open spec fn views(texts: Seq<String>) -> Seq<Seq<char>> {
    texts.map_values(|text: String| text@)
}

/// The characters of a string that may be absent.
pub open spec fn view_of(text: Option<String>) -> Option<Seq<char>> {
    match text {
        Some(t) => Some(t@),
        None => None,
    }
}

/// The characters of a list that may be absent, or unreadable.
pub open spec fn views_of(texts: Option<Option<Vec<String>>>) -> Option<Option<Seq<Seq<char>>>> {
    match texts {
        Some(Some(list)) => Some(Some(views(list@))),
        Some(None) => Some(None),
        None => None,
    }
}

/// The names and raw values of the fields of an object that may be unreadable.
pub open spec fn fields_view(fields: Option<Vec<(String, String)>>) -> Option<Seq<(Seq<char>, Seq<char>)>> {
    match fields {
        Some(list) => Some(list@.map_values(|field: (String, String)| (field.0@, field.1@))),
        None => None,
    }
}

/// The JSON array that `serde_json::to_string` writes for a list of strings,
/// or `None` where it reports an error.
pub uninterp spec fn json_of_texts(texts: Seq<Seq<char>>) -> Option<Seq<char>>;

/// The JSON string literal that `serde_json::to_string` writes for a string,
/// escapes included, or `None` where it reports an error.
pub uninterp spec fn json_of_text(text: Seq<char>) -> Option<Seq<char>>;

/// What `serde_json::from_str` reads from a text as an optional list of
/// strings: `Some(None)` for `null`, `Some(Some(..))` for an array of strings,
/// `None` where it reports an error.
pub uninterp spec fn texts_of_json(json: Seq<char>) -> Option<Option<Seq<Seq<char>>>>;

/// The string that `serde_json::from_str` reads from a JSON string literal, or
/// `None` where it reports an error.
pub uninterp spec fn text_of_json(json: Seq<char>) -> Option<Seq<char>>;

/// The number that `serde_json::from_str` reads from a text as an `i64`, or
/// `None` where it reports an error.
pub uninterp spec fn integer_of_json(json: Seq<char>) -> Option<i64>;

/// The fields that `serde_json::from_str` reads from a JSON object, each with
/// its name and the text of its value as it stands in the input, in the order
/// of a `BTreeMap`; `None` where it reports an error.
pub uninterp spec fn fields_of_json(json: Seq<char>) -> Option<Seq<(Seq<char>, Seq<char>)>>;

/// `serde_json::to_string` on a list of strings. The result is whatever
/// `json_of_texts` names; nothing else is claimed of it.
#[verifier::external_body]
pub(crate) fn write_texts(texts: &Vec<String>) -> (json: Option<String>)
    ensures
        view_of(json) == json_of_texts(views(texts@)),
{
    serde_json::to_string(texts).ok()
}

/// `serde_json::to_string` on one string. The result is whatever
/// `json_of_text` names; nothing else is claimed of it.
#[verifier::external_body]
pub(crate) fn write_text(text: &str) -> (json: Option<String>)
    ensures
        view_of(json) == json_of_text(text@),
{
    serde_json::to_string(text).ok()
}

/// `serde_json::from_str` at the type `Option<Vec<String>>`. The result is
/// whatever `texts_of_json` names; nothing else is claimed of it.
#[verifier::external_body]
pub(crate) fn read_texts(json: &str) -> (texts: Option<Option<Vec<String>>>)
    ensures
        views_of(texts) == texts_of_json(json@),
{
    serde_json::from_str::<Option<Vec<String>>>(json).ok()
}

/// `serde_json::from_str` at the type `String`. The result is whatever
/// `text_of_json` names; nothing else is claimed of it.
#[verifier::external_body]
pub(crate) fn read_text(json: &str) -> (text: Option<String>)
    ensures
        view_of(text) == text_of_json(json@),
{
    serde_json::from_str::<String>(json).ok()
}

/// `serde_json::from_str` at the type `i64`. The result is whatever
/// `integer_of_json` names; nothing else is claimed of it.
#[verifier::external_body]
pub(crate) fn read_integer(json: &str) -> (number: Option<i64>)
    ensures
        number == integer_of_json(json@),
{
    serde_json::from_str::<i64>(json).ok()
}

/// `serde_json::from_str` at the type of a map from names to raw values, and
/// `RawValue::get` on each value. The result is whatever `fields_of_json`
/// names; nothing else is claimed of it.
#[verifier::external_body]
pub(crate) fn read_fields(json: &str) -> (fields: Option<Vec<(String, String)>>)
    ensures
        fields_view(fields) == fields_of_json(json@),
{
    let map = serde_json::from_str::<
        std::collections::BTreeMap<String, Box<serde_json::value::RawValue>>,
    >(json).ok()?;
    Some(map.into_iter().map(|(name, value)| (name, value.get().to_owned())).collect())
}

} // verus!
