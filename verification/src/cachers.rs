//! The cache seen from the bridge: under which key the friends of a person are
//! kept, and how the list is written down.
//!
//! An entry maps a person to the whole ordered list of friends, as one JSON
//! array of strings. It is replaced whole or not at all.

use vstd::prelude::*;
use crate::error::{is_internal, Error};
use crate::json::{json_of_texts, read_texts, texts_of_json, view_of, views, views_of, write_texts};

verus! {

/// The key of the entry of `uid`.
pub open spec fn key_of(uid: Seq<char>) -> Seq<char> {
    "uid_"@ + uid
}

/// The key under which the friends of `uid` are cached.
pub fn cache_key(uid: &str) -> (key: String)
    ensures
        key@ == key_of(uid@),
{
    let mut key = String::from_str("uid_");
    key.append(uid);
    key
}

/// What is stored for a list, given what the JSON writer made of it.
pub open spec fn stored_for(written: Option<Seq<char>>, value: Result<String, Error>) -> bool {
    match written {
        Some(json) => value matches Ok(text) && text@ == json,
        None => value matches Err(error) && is_internal(error, "invalid value- TypeError"@),
    }
}

/// Turns the outcome of writing a list as JSON into the value to store: the
/// text, or a type error where there is none.
pub fn encoded(written: Option<String>) -> (value: Result<String, Error>)
    ensures
        stored_for(view_of(written), value),
{
    match written {
        Some(json) => Ok(json),
        None => Err(Error::new_500(String::from_str("invalid value- TypeError"))),
    }
}

/// The value stored for the friends of a person: the list as a JSON array.
pub fn encode_friends(friends: &Vec<String>) -> (value: Result<String, Error>)
    ensures
        stored_for(json_of_texts(views(friends@)), value),
{
    encoded(write_texts(friends))
}

/// What a lookup yields, given what the JSON reader made of the stored value.
pub open spec fn entry_for(
    read: Option<Option<Seq<Seq<char>>>>,
    entry: Result<Option<Vec<String>>, Error>,
) -> bool {
    match read {
        Some(Some(list)) => entry matches Ok(Some(friends)) && views(friends@) == list,
        Some(None) => entry matches Ok(None),
        None => entry matches Err(error) && is_internal(
            error,
            "failed to deserialize json string- TypeError"@,
        ),
    }
}

/// Turns the outcome of reading a stored value into the entry: the list, a
/// miss for `null`, or a type error where the value is no list of strings.
pub fn decoded(read: Option<Option<Vec<String>>>) -> (entry: Result<Option<Vec<String>>, Error>)
    ensures
        entry_for(views_of(read), entry),
        read matches Some(list) ==> entry == Ok::<Option<Vec<String>>, Error>(list),
{
    match read {
        Some(list) => Ok(list),
        None => Err(Error::new_500(String::from_str("failed to deserialize json string- TypeError"))),
    }
}

/// The entry of a person, from what the cache holds under the person's key:
/// a miss where it holds nothing, else the list that the stored value spells.
pub fn decode_friends(stored: Option<String>) -> (entry: Result<Option<Vec<String>>, Error>)
    ensures
        match stored {
            Some(json) => entry_for(texts_of_json(json@), entry),
            None => entry matches Ok(None),
        },
{
    match stored {
        Some(json) => decoded(read_texts(json.as_str())),
        None => Ok(None),
    }
}

} // verus!
