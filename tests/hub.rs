use wpopup::hub::Hub;
use wpopup::proto::{Kind, ProtoGesture};
use wpopup::KeyCode;

fn g(code: u16) -> ProtoGesture {
    ProtoGesture { kind: Kind::LongPress, key: KeyCode(code) }
}

#[test]
fn two_subscribers_receive_everything_in_order() {
    let mut h = Hub::new();
    let a = h.subscribe().unwrap();
    let b = h.subscribe().unwrap();
    assert_ne!(a, b);
    h.publish(g(1));
    h.publish(g(2));
    h.publish(g(3));
    assert_eq!(h.take(a), Some(vec![g(1), g(2), g(3)]));
    assert_eq!(h.take(b), Some(vec![g(1), g(2), g(3)]));
    assert_eq!(h.take(a), Some(vec![]));
}

#[test]
fn late_subscriber_sees_only_later_gestures() {
    let mut h = Hub::new();
    let a = h.subscribe().unwrap();
    h.publish(g(1));
    let b = h.subscribe().unwrap();
    h.publish(g(2));
    assert_eq!(h.take(a), Some(vec![g(1), g(2)]));
    assert_eq!(h.take(b), Some(vec![g(2)]));
}

#[test]
fn disconnect_does_not_affect_the_other() {
    let mut h = Hub::new();
    let a = h.subscribe().unwrap();
    let b = h.subscribe().unwrap();
    h.publish(g(1));
    h.disconnect(a);
    h.publish(g(2));
    assert_eq!(h.take(a), None);
    assert_eq!(h.take(b), Some(vec![g(1), g(2)]));
}

#[test]
fn vacant_slot_is_reused() {
    let mut h = Hub::new();
    let a = h.subscribe().unwrap();
    let b = h.subscribe().unwrap();
    h.disconnect(a);
    let c = h.subscribe().unwrap();
    assert_eq!(c, a);
    h.publish(g(5));
    assert_eq!(h.take(c), Some(vec![g(5)]));
    assert_eq!(h.take(b), Some(vec![g(5)]));
    assert_eq!(h.take(99), None);
}

