use synapse::fabric::{stream_item, Delivery, Fabric, Polled};
use synapse::types::Service;

fn event(id: &str, port: u32) -> Service {
    Service {
        id: id.to_string(),
        name: "svc".to_string(),
        address: "10.0.0.1".to_string(),
        port,
        active: 1,
        scheme: 0,
    }
}

#[test]
fn fabric_starts_without_channels() {
    let fabric = Fabric::new();
    assert!(fabric.subscribe(&"svc".to_string()).is_none());
    assert_eq!(fabric.publish(&"svc".to_string(), event("a", 1)), Delivery::NoChannel);
}

#[test]
fn ensure_makes_a_channel_once() {
    let mut fabric = Fabric::new();
    fabric.ensure("svc".to_string(), 4);
    assert_eq!(fabric.publish(&"svc".to_string(), event("a", 1)), Delivery::NoReceivers);
    let mut subscription = fabric.subscribe(&"svc".to_string()).unwrap();
    assert_eq!(subscription.service, "svc");
    fabric.ensure("svc".to_string(), 4);
    assert_eq!(fabric.publish(&"svc".to_string(), event("b", 2)), Delivery::Delivered(1));
    match subscription.poll() {
        Polled::Event(seen) => {
            assert_eq!(seen.id, "b");
            assert_eq!(seen.port, 2);
        }
        other => panic!("no event: {:?}", other),
    }
    assert!(matches!(subscription.poll(), Polled::Empty));
    assert!(fabric.subscribe(&"other".to_string()).is_none());
}

#[test]
fn events_come_in_the_order_in_which_they_were_published() {
    let mut fabric = Fabric::new();
    fabric.ensure("svc".to_string(), 8);
    let mut subscription = fabric.subscribe(&"svc".to_string()).unwrap();
    for port in 1..=5 {
        fabric.publish(&"svc".to_string(), event("a", port));
    }
    for port in 1..=5 {
        assert_eq!(subscription.next_item().unwrap().unwrap().port, port);
    }
    assert!(subscription.next_item().is_none());
}

#[test]
fn a_full_channel_drops_the_oldest_events() {
    let mut fabric = Fabric::new();
    fabric.ensure("svc".to_string(), 4);
    let mut subscription = fabric.subscribe(&"svc".to_string()).unwrap();
    for port in 0..6 {
        fabric.publish(&"svc".to_string(), event("a", port));
    }
    assert!(matches!(subscription.poll(), Polled::Lagged(2)));
    assert_eq!(subscription.next_item().unwrap().unwrap().port, 2);
}

#[test]
fn stream_item_turns_a_lag_into_an_error() {
    assert_eq!(stream_item(Polled::Event(event("a", 1))).unwrap().unwrap().id, "a");
    assert_eq!(
        stream_item(Polled::Lagged(3)).unwrap().unwrap_err().message,
        "Broadcast error: Lagged(3)"
    );
    assert_eq!(
        stream_item(Polled::Lagged(u64::MAX)).unwrap().unwrap_err().message,
        "Broadcast error: Lagged(18446744073709551615)"
    );
    assert!(stream_item(Polled::Empty).is_none());
    assert!(stream_item(Polled::Closed).is_none());
}
