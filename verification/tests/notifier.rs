use nanocl::notifier::{Event, EventKind, Notifier};

fn event(kind: EventKind, key: &str, version_key: u64) -> Event {
    Event { kind, entity_key: key.to_string(), namespace: "ns".to_string(), version_key }
}

#[test]
fn subscriber_sees_only_later_events() {
    let mut notifier = Notifier::new(8);
    notifier.publish(&event(EventKind::Created, "a.ns", 0));
    let early = notifier.subscribe().unwrap();
    notifier.publish(&event(EventKind::Updated, "a.ns", 1));
    let late = notifier.subscribe().unwrap();
    notifier.publish(&event(EventKind::Deleted, "a.ns", 1));
    assert_eq!(early, 0);
    assert_eq!(late, 1);
    assert_eq!(notifier.next(early), Some(event(EventKind::Updated, "a.ns", 1)));
    assert_eq!(notifier.next(early), Some(event(EventKind::Deleted, "a.ns", 1)));
    assert_eq!(notifier.next(early), None);
    assert_eq!(notifier.next(late), Some(event(EventKind::Deleted, "a.ns", 1)));
    assert_eq!(notifier.next(late), None);
}

#[test]
fn events_arrive_in_publication_order() {
    let mut notifier = Notifier::new(100);
    let a = notifier.subscribe().unwrap();
    let b = notifier.subscribe().unwrap();
    for i in 0..10 {
        assert_eq!(notifier.publish(&event(EventKind::Updated, "e.ns", i)), 0);
    }
    for id in [b, a] {
        for i in 0..10 {
            assert_eq!(notifier.next(id).unwrap().version_key, i);
        }
        assert_eq!(notifier.next(id), None);
    }
}

#[test]
fn slow_subscriber_is_dropped() {
    let mut notifier = Notifier::new(2);
    let slow = notifier.subscribe().unwrap();
    let quick = notifier.subscribe().unwrap();
    assert_eq!(notifier.publish(&event(EventKind::Created, "a.ns", 0)), 0);
    assert_eq!(notifier.next(quick).unwrap().version_key, 0);
    assert_eq!(notifier.publish(&event(EventKind::Updated, "a.ns", 1)), 0);
    assert_eq!(notifier.next(quick).unwrap().version_key, 1);
    assert_eq!(notifier.publish(&event(EventKind::Updated, "a.ns", 2)), 1);
    assert!(!notifier.is_subscribed(slow));
    assert!(notifier.is_subscribed(quick));
    assert_eq!(notifier.next(slow), None);
    assert_eq!(notifier.next(quick).unwrap().version_key, 2);
    let again = notifier.subscribe().unwrap();
    assert_eq!(again, 2);
    assert_eq!(notifier.next(again), None);
}

#[test]
fn zero_bound_drops_every_subscriber() {
    let mut notifier = Notifier::new(0);
    let id = notifier.subscribe().unwrap();
    assert!(notifier.is_subscribed(id));
    assert_eq!(notifier.publish(&event(EventKind::Created, "a.ns", 0)), 1);
    assert!(!notifier.is_subscribed(id));
    assert_eq!(notifier.publish(&event(EventKind::Created, "a.ns", 0)), 0);
}

#[test]
fn publisher_can_wait_instead() {
    let mut notifier = Notifier::new(1);
    let a = notifier.subscribe().unwrap();
    let b = notifier.subscribe().unwrap();
    assert!(notifier.try_publish(&event(EventKind::Created, "a.ns", 0)));
    assert_eq!(notifier.next(a).unwrap().version_key, 0);
    assert!(!notifier.try_publish(&event(EventKind::Updated, "a.ns", 1)));
    assert!(notifier.is_subscribed(b));
    assert_eq!(notifier.next(a), None);
    assert_eq!(notifier.next(b).unwrap().version_key, 0);
    assert!(notifier.try_publish(&event(EventKind::Updated, "a.ns", 1)));
    assert_eq!(notifier.next(a).unwrap().version_key, 1);
    assert_eq!(notifier.next(b).unwrap().version_key, 1);
}

#[test]
fn unsubscribed_gets_nothing() {
    let mut notifier = Notifier::new(4);
    let a = notifier.subscribe().unwrap();
    let b = notifier.subscribe().unwrap();
    notifier.publish(&event(EventKind::Created, "a.ns", 0));
    assert!(notifier.unsubscribe(a));
    assert!(!notifier.unsubscribe(a));
    assert!(!notifier.unsubscribe(77));
    assert!(!notifier.is_subscribed(a));
    assert_eq!(notifier.next(a), None);
    assert_eq!(notifier.next(77), None);
    assert_eq!(notifier.next(b).unwrap().kind, EventKind::Created);
    assert_eq!(notifier.publish(&event(EventKind::Created, "b.ns", 1)), 0);
}
