use friendship::cachers::{cache_key, decode_friends, decoded, encode_friends, encoded};
use friendship::{Cacher, Error};
use std::cell::RefCell;
use std::collections::BTreeMap;

/// A key-value store in memory that keeps what the cache functions write.
struct Memory {
    values: RefCell<BTreeMap<String, String>>,
}

impl Memory {
    fn new() -> Self {
        Memory { values: RefCell::new(BTreeMap::new()) }
    }
}

impl Cacher for Memory {
    type UID = String;

    fn insert(&self, uid: String, friends: Vec<String>) -> Result<(), Error> {
        let value = encode_friends(&friends)?;
        self.values.borrow_mut().insert(cache_key(&uid), value);
        Ok(())
    }

    fn delete(&self, uid: String) -> Result<(), Error> {
        self.values.borrow_mut().remove(&cache_key(&uid));
        Ok(())
    }

    fn query(&self, uid: String) -> Result<Option<Vec<String>>, Error> {
        decode_friends(self.values.borrow().get(&cache_key(&uid)).cloned())
    }
}

#[test]
fn test_insert_cache() {
    let r = Memory::new();
    r.insert(1.to_string(), vec![2.to_string(), 3.to_string()]).unwrap();
    assert!(r.query(1.to_string()).unwrap().unwrap() == vec![2.to_string(), 3.to_string()]);
}

#[test]
fn test_delete_cache() {
    let r = Memory::new();
    r.insert(1.to_string(), vec![2.to_string(), 3.to_string()]).unwrap();
    assert!(r.query(1.to_string()).unwrap().unwrap() == vec![2.to_string(), 3.to_string()]);
    r.delete(1.to_string()).unwrap();
    assert!(r.query(1.to_string()).unwrap().is_none());
}

#[test]
fn cache_key_prefixes_the_uid() {
    assert_eq!(cache_key("1"), "uid_1");
    assert_eq!(cache_key(""), "uid_");
    assert_eq!(cache_key("alice"), "uid_alice");
}

#[test]
fn encode_friends_writes_a_json_array() {
    assert_eq!(
        encode_friends(&vec!["2".to_string(), "3".to_string()]).unwrap(),
        "[\"2\",\"3\"]"
    );
    assert_eq!(encode_friends(&Vec::new()).unwrap(), "[]");
}

#[test]
fn encode_friends_escapes_what_json_escapes() {
    assert_eq!(encode_friends(&vec!["a\"b".to_string()]).unwrap(), "[\"a\\\"b\"]");
}

#[test]
fn encoded_reports_a_type_error_without_a_text() {
    let error = encoded(None).unwrap_err();
    assert_eq!(error.message(), "invalid value- TypeError");
    assert_eq!(error.status_code(), 500);
    assert_eq!(encoded(Some("[]".to_string())).unwrap(), "[]");
}

#[test]
fn decode_friends_reads_what_encode_friends_wrote() {
    let friends = vec!["2".to_string(), "3".to_string(), "a\\b".to_string()];
    let stored = encode_friends(&friends).unwrap();
    assert_eq!(decode_friends(Some(stored)).unwrap(), Some(friends));
}

#[test]
fn decode_friends_of_nothing_is_a_miss() {
    assert_eq!(decode_friends(None).unwrap(), None);
}

#[test]
fn decode_friends_of_null_is_a_miss() {
    assert_eq!(decode_friends(Some("null".to_string())).unwrap(), None);
}

#[test]
fn decode_friends_refuses_what_is_no_list_of_strings() {
    for stored in ["", "{", "[1,2]", "\"2\"", "{\"uid\":\"2\"}"] {
        let error = decode_friends(Some(stored.to_string())).unwrap_err();
        assert_eq!(error.message(), "failed to deserialize json string- TypeError");
        assert_eq!(error.status_code(), 500);
    }
}

#[test]
fn decoded_hands_the_list_on() {
    assert_eq!(decoded(Some(Some(vec!["2".to_string()]))).unwrap(), Some(vec!["2".to_string()]));
    assert_eq!(decoded(Some(None)).unwrap(), None);
    assert_eq!(
        decoded(None).unwrap_err().message(),
        "failed to deserialize json string- TypeError"
    );
}
