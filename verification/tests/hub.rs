use kolloquy::hub::{Delivery, RoomHub};
use kolloquy::socket::{SocketChatAuthor, SocketChatBody};

fn envelope(text: &str) -> SocketChatBody {
    SocketChatBody {
        content: Some(text.to_string()),
        action: "PUT".to_string(),
        author: SocketChatAuthor {
            avatar: "<svg/>".to_string(),
            id: "u1".to_string(),
            is_self: false,
            handle: "someone".to_string(),
        },
        chat: Some("r1".to_string()),
    }
}

fn text_of(d: Option<Delivery>) -> String {
    match d {
        Some(Delivery::Envelope(e)) => e.content.unwrap(),
        other => panic!("expected an envelope, got {:?}", other),
    }
}

#[test]
fn hub_refuses_bad_capacity() {
    assert!(RoomHub::new(0).is_none());
    assert!(RoomHub::new(usize::MAX).is_none());
    assert!(RoomHub::new(usize::MAX / 2 + 1).is_none());
    assert!(RoomHub::new(1).is_some());
}

#[test]
fn publish_without_subscribers_is_a_no_op() {
    let mut hub = RoomHub::new(4).unwrap();
    hub.publish(envelope("lost"));
    assert_eq!(hub.subscriber_count(), 0);
    let id = hub.subscribe().unwrap();
    assert!(matches!(hub.poll(id), Some(Delivery::Empty)));
}

#[test]
fn every_subscriber_receives_in_publish_order() {
    let mut hub = RoomHub::new(8).unwrap();
    let a = hub.subscribe().unwrap();
    let b = hub.subscribe().unwrap();
    assert_eq!(a, 0);
    assert_eq!(b, 1);
    hub.publish(envelope("one"));
    hub.publish(envelope("two"));
    hub.publish(envelope("three"));
    for id in [a, b] {
        assert_eq!(text_of(hub.poll(id)), "one");
        assert_eq!(text_of(hub.poll(id)), "two");
        assert_eq!(text_of(hub.poll(id)), "three");
        assert!(matches!(hub.poll(id), Some(Delivery::Empty)));
    }
}

#[test]
fn late_subscriber_sees_no_history() {
    let mut hub = RoomHub::new(8).unwrap();
    let early = hub.subscribe().unwrap();
    hub.publish(envelope("before"));
    let late = hub.subscribe().unwrap();
    assert!(matches!(hub.poll(late), Some(Delivery::Empty)));
    hub.publish(envelope("after"));
    assert_eq!(text_of(hub.poll(late)), "after");
    assert_eq!(text_of(hub.poll(early)), "before");
    assert_eq!(text_of(hub.poll(early)), "after");
}

#[test]
fn slow_subscriber_is_told_of_lag_and_resumes() {
    let mut hub = RoomHub::new(2).unwrap();
    let id = hub.subscribe().unwrap();
    hub.publish(envelope("10"));
    hub.publish(envelope("20"));
    hub.publish(envelope("30"));
    assert!(matches!(hub.poll(id), Some(Delivery::Lagged(1))));
    assert_eq!(text_of(hub.poll(id)), "20");
    assert_eq!(text_of(hub.poll(id)), "30");
    assert!(matches!(hub.poll(id), Some(Delivery::Empty)));
}

#[test]
fn ring_is_capacity_rounded_up_to_a_power_of_two() {
    let mut hub = RoomHub::new(3).unwrap();
    let id = hub.subscribe().unwrap();
    for i in 0..4 {
        hub.publish(envelope(&format!("{}", i)));
    }
    assert_eq!(text_of(hub.poll(id)), "0");
    for i in 4..9 {
        hub.publish(envelope(&format!("{}", i)));
    }
    // eight unread, four retained
    assert!(matches!(hub.poll(id), Some(Delivery::Lagged(4))));
    assert_eq!(text_of(hub.poll(id)), "5");
}

#[test]
fn unsubscribed_id_is_unknown() {
    let mut hub = RoomHub::new(4).unwrap();
    let a = hub.subscribe().unwrap();
    let b = hub.subscribe().unwrap();
    hub.publish(envelope("x"));
    assert!(hub.unsubscribe(a));
    assert!(!hub.unsubscribe(a));
    assert!(hub.poll(a).is_none());
    assert_eq!(hub.subscriber_count(), 1);
    assert_eq!(text_of(hub.poll(b)), "x");
    assert!(hub.unsubscribe(b));
    hub.publish(envelope("nobody"));
    let c = hub.subscribe().unwrap();
    assert_eq!(c, 2);
    assert!(matches!(hub.poll(c), Some(Delivery::Empty)));
}

#[test]
fn two_connections_publish_and_both_receive() {
    let mut hub = RoomHub::new(16).unwrap();
    let a = hub.subscribe().unwrap();
    let b = hub.subscribe().unwrap();
    hub.publish(envelope("hi"));
    for id in [a, b] {
        match hub.poll(id) {
            Some(Delivery::Envelope(e)) => {
                assert_eq!(e.content.as_deref(), Some("hi"));
                assert_eq!(e.action, "PUT");
                assert_eq!(e.author.id, "u1");
                assert_eq!(e.author.avatar, "<svg/>");
                assert_eq!(e.chat.as_deref(), Some("r1"));
            }
            other => panic!("expected an envelope, got {:?}", other),
        }
    }
}
