use ezsyslog::fanout::Broadcaster;

#[test]
fn subscribers_before_publish_get_all_events_in_order() {
    let mut hub = Broadcaster::new();
    let mut s1 = hub.subscribe();
    let mut s2 = hub.subscribe();
    hub.publish(10);
    hub.publish(11);
    hub.publish(12);
    assert_eq!(hub.drain(&mut s1), vec![10, 11, 12]);
    assert_eq!(hub.drain(&mut s2), vec![10, 11, 12]);
}

#[test]
fn late_subscriber_gets_no_earlier_events() {
    let mut hub = Broadcaster::new();
    hub.publish(1);
    hub.publish(2);
    let mut s = hub.subscribe();
    assert_eq!(hub.recv(&mut s), None);
    hub.publish(3);
    assert_eq!(hub.recv(&mut s), Some(3));
    assert_eq!(hub.recv(&mut s), None);
}

#[test]
fn publish_with_no_subscribers_is_fine() {
    let mut hub = Broadcaster::new();
    hub.publish(99);
    hub.publish(100);
    let mut s = hub.subscribe();
    assert_eq!(hub.recv(&mut s), None);
}

#[test]
fn subscribers_do_not_interfere() {
    let mut hub = Broadcaster::new();
    let mut s1 = hub.subscribe();
    hub.publish(5);
    let mut s2 = hub.subscribe();
    hub.publish(6);
    // Reading on one cursor moves only that cursor.
    assert_eq!(hub.recv(&mut s1), Some(5));
    assert_eq!(hub.recv(&mut s2), Some(6));
    assert_eq!(hub.recv(&mut s1), Some(6));
    assert_eq!(hub.recv(&mut s1), None);
    assert_eq!(hub.recv(&mut s2), None);
}
