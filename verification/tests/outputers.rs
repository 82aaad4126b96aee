use friendship::message::Reply;
use friendship::outputers::{Polled, ReplySlots};
use friendship::Response;

#[test]
fn an_envelope_is_taken_from_the_slot_of_its_key() {
    let mut slots = ReplySlots::new(60);
    slots.deliver("k1".to_string(), "e1".to_string(), 100);
    assert_eq!(slots.take("k2", 100), None);
    assert_eq!(slots.take("k1", 100), Some("e1".to_string()));
    assert_eq!(slots.take("k1", 100), None);
    assert_eq!(slots.len(), 0);
}

#[test]
fn envelopes_leave_a_slot_oldest_first_and_one_at_a_time() {
    let mut slots = ReplySlots::new(60);
    slots.deliver("k".to_string(), "first".to_string(), 100);
    slots.deliver("k".to_string(), "second".to_string(), 101);
    slots.deliver("k".to_string(), "third".to_string(), 102);
    assert_eq!(slots.len(), 1);
    assert_eq!(slots.take("k", 103), Some("first".to_string()));
    assert_eq!(slots.take("k", 103), Some("second".to_string()));
    assert_eq!(slots.take("k", 103), Some("third".to_string()));
    assert_eq!(slots.take("k", 103), None);
}

#[test]
fn a_slot_lapses_one_lifetime_after_it_was_opened() {
    let mut slots = ReplySlots::new(60);
    slots.deliver("k".to_string(), "e".to_string(), 100);
    slots.deliver("k".to_string(), "f".to_string(), 150);
    assert_eq!(slots.take("k", 159), Some("e".to_string()));
    assert_eq!(slots.take("k", 160), None);
    assert_eq!(slots.len(), 1);
    slots.sweep(160);
    assert_eq!(slots.len(), 0);
}

#[test]
fn a_delivery_after_the_lapse_opens_a_fresh_slot() {
    let mut slots = ReplySlots::new(60);
    slots.deliver("k".to_string(), "old".to_string(), 100);
    slots.deliver("k".to_string(), "new".to_string(), 160);
    assert_eq!(slots.len(), 1);
    assert_eq!(slots.take("k", 219), Some("new".to_string()));
    assert_eq!(slots.take("k", 219), None);
}

#[test]
fn sweep_reclaims_only_what_lapsed() {
    let mut slots = ReplySlots::new(10);
    slots.deliver("a".to_string(), "1".to_string(), 100);
    slots.deliver("b".to_string(), "2".to_string(), 105);
    slots.deliver("c".to_string(), "3".to_string(), 100);
    slots.deliver("d".to_string(), "4".to_string(), 109);
    slots.sweep(109);
    assert_eq!(slots.len(), 4);
    slots.sweep(110);
    assert_eq!(slots.len(), 2);
    assert_eq!(slots.take("a", 110), None);
    assert_eq!(slots.take("c", 110), None);
    assert_eq!(slots.take("b", 110), Some("2".to_string()));
    assert_eq!(slots.take("d", 110), Some("4".to_string()));
    slots.sweep(u64::MAX);
    assert_eq!(slots.len(), 0);
}

#[test]
fn a_lifetime_beyond_the_end_of_time_stops_there() {
    let mut slots = ReplySlots::new(u64::MAX);
    slots.deliver("k".to_string(), "e".to_string(), 5);
    assert_eq!(slots.take("k", u64::MAX - 1), Some("e".to_string()));
    slots.deliver("k".to_string(), "e".to_string(), 5);
    assert_eq!(slots.take("k", u64::MAX), None);
}

#[test]
fn a_slot_without_a_lifetime_is_never_live() {
    let mut slots = ReplySlots::new(0);
    slots.deliver("k".to_string(), "e".to_string(), 5);
    assert_eq!(slots.take("k", 5), None);
    slots.sweep(5);
    assert_eq!(slots.len(), 0);
}

#[test]
fn post_delivers_the_envelope_of_the_response() {
    let mut slots = ReplySlots::new(60);
    slots.post("k".to_string(), &Response::Success { data: Reply::Flag(true) }, 1);
    slots.post("k".to_string(), &Response::Failure { detail: "x".to_string() }, 2);
    assert_eq!(slots.take("k", 3), Some("{\"status\":\"ok\",\"data\":true}".to_string()));
    assert_eq!(slots.take("k", 3), Some("{\"status\":\"error\",\"detail\":\"x\"}".to_string()));
}

#[test]
fn a_wait_ends_with_an_envelope_or_with_its_deadline() {
    let mut slots = ReplySlots::new(60);
    assert_eq!(slots.await_reply("k", 100, 110), Polled::Pending);
    assert_eq!(slots.await_reply("k", 109, 110), Polled::Pending);
    assert_eq!(slots.await_reply("k", 110, 110), Polled::TimedOut);
    slots.deliver("k".to_string(), "late".to_string(), 111);
    slots.deliver("other".to_string(), "e".to_string(), 111);
    assert_eq!(slots.await_reply("other", 112, 120), Polled::Collected("e".to_string()));
    assert_eq!(slots.await_reply("other", 112, 120), Polled::Pending);
    assert_eq!(slots.await_reply("k", 200, 120), Polled::TimedOut);
    assert_eq!(slots.await_reply("k", 150, 120), Polled::Collected("late".to_string()));
}
