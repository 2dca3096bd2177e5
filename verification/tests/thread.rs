use aries_vcx::error::VcxErrorKind;
use aries_vcx::messages::thread::{ReceivedOrder, Thread};

fn conversation(thid: &str) -> Thread {
    Thread::new().set_thid(thid.to_string())
}

fn message(thid: &str, sender_order: u32) -> Thread {
    let mut thread = Thread::new().set_thid(thid.to_string());
    thread.sender_order = sender_order;
    thread
}

#[test]
fn new_thread_is_empty() {
    let thread = Thread::new();
    assert_eq!(thread.thid, None);
    assert_eq!(thread.pthid, None);
    assert_eq!(thread.sender_order, 0);
    assert!(thread.received_orders.is_empty());
    assert!(thread.is_reply(""));
    assert!(!thread.is_reply("x"));
    assert_eq!(thread.get_thid(), "");
}

#[test]
fn replay_is_rejected_and_changes_nothing() {
    let mut thread = conversation("t1");
    let incoming = message("t1", 2);
    assert!(thread.accept(&incoming, "alice").is_ok());
    assert_eq!(thread.received_order("alice"), Some(2));
    let accepted = thread.clone();

    let failure = thread.accept(&incoming, "alice").unwrap_err();
    assert_eq!(failure.kind(), VcxErrorKind::InvalidThread);
    assert_eq!(thread, accepted);
    assert_eq!(thread.received_orders, vec![ReceivedOrder { party: "alice".to_string(), order: 2 }]);
}

#[test]
fn counters_move_strictly_forward_per_sender() {
    let mut thread = conversation("t1");
    assert!(thread.accept(&message("t1", 0), "alice").is_ok());
    assert_eq!(thread.received_order("alice"), Some(0));
    assert!(thread.accept(&message("t1", 0), "alice").is_err());
    assert!(thread.accept(&message("t1", 3), "alice").is_ok());
    assert!(thread.accept(&message("t1", 2), "alice").is_err());
    assert!(thread.accept(&message("t1", 3), "alice").is_err());
    assert_eq!(thread.received_order("alice"), Some(3));

    // another sender has a counter of its own
    assert_eq!(thread.received_order("bob"), None);
    assert!(thread.accept(&message("t1", 1), "bob").is_ok());
    assert_eq!(thread.received_order("bob"), Some(1));
    assert_eq!(thread.received_order("alice"), Some(3));
    assert!(thread.accept(&message("t1", u32::MAX), "alice").is_ok());
    assert!(thread.accept(&message("t1", u32::MAX), "alice").is_err());
    assert_eq!(thread.received_order("bob"), Some(1));
    assert_eq!(thread.received_orders.len(), 2);
    assert_eq!(thread.thid, Some("t1".to_string()));
    assert_eq!(thread.sender_order, 0);
}

#[test]
fn message_of_another_thread_is_rejected() {
    let mut thread = conversation("t1");
    let before = thread.clone();
    assert_eq!(thread.accept(&message("t2", 5), "alice").unwrap_err().kind(), VcxErrorKind::InvalidThread);
    assert_eq!(thread.accept(&Thread::new(), "alice").unwrap_err().kind(), VcxErrorKind::InvalidThread);
    assert_eq!(thread, before);

    let mut unnamed = Thread::new();
    assert!(unnamed.accept(&Thread::new(), "alice").is_err());
    assert!(unnamed.accept(&message("t1", 1), "alice").is_err());
    assert_eq!(unnamed, Thread::new());
}

#[test]
fn first_record_of_a_party_counts() {
    let mut thread = conversation("t1");
    thread.received_orders = vec![
        ReceivedOrder { party: "alice".to_string(), order: 4 },
        ReceivedOrder { party: "alice".to_string(), order: 9 },
    ];
    assert_eq!(thread.received_order("alice"), Some(4));
    assert!(thread.accept(&message("t1", 5), "alice").is_ok());
    assert_eq!(thread.received_order("alice"), Some(5));
    assert_eq!(thread.received_orders.len(), 2);
}

#[test]
fn receivers_and_sender_are_counted() {
    let mut thread = conversation("t1");
    thread.increment_receiver("did:a");
    assert_eq!(thread.received_order("did:a"), Some(0));
    thread.increment_receiver("did:a");
    thread.increment_receiver("did:a");
    thread.increment_receiver("did:b");
    assert_eq!(thread.received_order("did:a"), Some(2));
    assert_eq!(thread.received_order("did:b"), Some(0));
    assert_eq!(thread.sender_order, 0);
    thread.increment_sender();
    thread.increment_sender();
    assert_eq!(thread.sender_order, 2);
    assert_eq!(thread.received_order("did:a"), Some(2));
    assert_eq!(thread.duplicate(), thread);
}

#[test]
fn reply_is_told_by_the_identifier() {
    let thread = conversation("abc");
    assert!(thread.is_reply("abc"));
    assert!(!thread.is_reply("abd"));
    assert!(!thread.is_reply(""));
    assert_eq!(thread.get_thid(), "abc");
}
