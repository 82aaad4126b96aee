use friendship::error::BridgeError;
use friendship::sequencer::Sequencer;
use std::collections::BTreeSet;

#[test]
fn numbers_start_at_one_and_go_up_by_one() {
    let mut sequencer = Sequencer::new();
    assert_eq!(sequencer.next(1), Ok(1));
    assert_eq!(sequencer.next(1), Ok(2));
    assert_eq!(sequencer.next(1), Ok(3));
}

#[test]
fn requesters_are_numbered_apart() {
    let mut sequencer = Sequencer::new();
    assert_eq!(sequencer.next(1), Ok(1));
    assert_eq!(sequencer.next(2), Ok(1));
    assert_eq!(sequencer.next(1), Ok(2));
    assert_eq!(sequencer.next(-7), Ok(1));
    assert_eq!(sequencer.next(2), Ok(2));
}

#[test]
fn keys_of_one_requester_never_repeat() {
    let mut sequencer = Sequencer::new();
    let mut seen = BTreeSet::new();
    for round in 0..500i64 {
        let now = 1700000000 + round / 100;
        let key = sequencer.next_key(9, now).unwrap();
        assert!(seen.insert(key));
    }
    assert_eq!(seen.len(), 500);
}

#[test]
fn next_key_is_made_of_time_and_number() {
    let mut sequencer = Sequencer::new();
    assert_eq!(sequencer.next_key(1, 1700000000), Ok("1700000000-1".to_string()));
    assert_eq!(sequencer.next_key(1, 1600000000), Ok("1600000000-2".to_string()));
    assert_eq!(sequencer.next_key(2, 1600000000), Ok("1600000000-1".to_string()));
}

#[test]
fn a_counter_that_ran_out_is_unavailable() {
    let mut sequencer = Sequencer::new();
    sequencer.advance_to(1, i32::MAX - 2);
    assert_eq!(sequencer.next(1), Ok(i32::MAX - 1));
    assert_eq!(sequencer.next(1), Ok(i32::MAX));
    assert_eq!(sequencer.next(1), Err("sequence exhausted".to_string()));
    assert_eq!(sequencer.next(1), Err("sequence exhausted".to_string()));
    assert_eq!(
        sequencer.next_key(1, 1700000000),
        Err(BridgeError::Unavailable { detail: "sequence exhausted".to_string() })
    );
    assert_eq!(sequencer.next(2), Ok(1));
}

#[test]
fn a_counter_is_raised_but_never_lowered() {
    let mut sequencer = Sequencer::new();
    sequencer.advance_to(1, 40);
    assert_eq!(sequencer.next(1), Ok(41));
    sequencer.advance_to(1, 7);
    assert_eq!(sequencer.next(1), Ok(42));
    sequencer.advance_to(1, -5);
    assert_eq!(sequencer.next(1), Ok(43));
    sequencer.advance_to(2, 0);
    assert_eq!(sequencer.next(2), Ok(1));
    assert_eq!(sequencer.next(3), Ok(1));
}
