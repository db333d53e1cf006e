use scale_bridge::hub::{Hub, Subscription, DEFAULT_CAPACITY};

fn drain(hub: &Hub, subscription: &mut Subscription) -> Vec<String> {
    let mut out = Vec::new();
    while let Some(message) = hub.receive(subscription) {
        out.push(message);
    }
    out
}

#[test]
fn all_subscribers_receive_the_same_message() {
    let mut hub = Hub::new();
    let mut subscribers: Vec<Subscription> = (0..5).map(|_| hub.subscribe()).collect();
    hub.publish("{\"raw\":\"hello\"}".to_string());
    for subscriber in subscribers.iter_mut() {
        assert_eq!(hub.receive(subscriber), Some("{\"raw\":\"hello\"}".to_string()));
        assert_eq!(hub.receive(subscriber), None);
    }
}

#[test]
fn late_subscriber_never_sees_an_earlier_message() {
    let mut hub = Hub::new();
    hub.publish("early".to_string());
    let mut late = hub.subscribe();
    assert_eq!(hub.receive(&mut late), None);
    hub.publish("later".to_string());
    assert_eq!(drain(&hub, &mut late), vec!["later".to_string()]);
}

#[test]
fn publishing_without_subscribers_is_fine() {
    let mut hub = Hub::new();
    for i in 0..200 {
        hub.publish(format!("m{}", i));
    }
    assert_eq!(hub.published(), 200);
    assert_eq!(hub.capacity(), DEFAULT_CAPACITY);
    assert_eq!(DEFAULT_CAPACITY, 64);
}

#[test]
fn messages_arrive_in_the_order_of_publication() {
    let mut hub = Hub::new();
    let mut a = hub.subscribe();
    let mut b = hub.subscribe();
    for i in 0..10 {
        hub.publish(format!("m{}", i));
    }
    let expected: Vec<String> = (0..10).map(|i| format!("m{}", i)).collect();
    assert_eq!(drain(&hub, &mut a), expected);
    assert_eq!(hub.receive(&mut b), Some("m0".to_string()));
    hub.publish("m10".to_string());
    assert_eq!(hub.receive(&mut b), Some("m1".to_string()));
    assert_eq!(drain(&hub, &mut a), vec!["m10".to_string()]);
}

#[test]
fn slow_subscriber_misses_the_oldest_messages() {
    let mut hub = Hub::with_capacity(3).unwrap();
    let mut slow = hub.subscribe();
    let mut fast = hub.subscribe();
    for i in 0..3 {
        hub.publish(format!("m{}", i));
    }
    assert_eq!(drain(&hub, &mut fast), vec!["m0", "m1", "m2"]);
    for i in 3..5 {
        hub.publish(format!("m{}", i));
    }
    assert_eq!(drain(&hub, &mut slow), vec!["m2", "m3", "m4"]);
    assert_eq!(drain(&hub, &mut fast), vec!["m3", "m4"]);
    assert_eq!(hub.published(), 5);
}

#[test]
fn default_hub_holds_sixty_four_messages() {
    let mut hub = Hub::new();
    let mut slow = hub.subscribe();
    for i in 0..65 {
        hub.publish(format!("m{}", i));
    }
    let got = drain(&hub, &mut slow);
    assert_eq!(got.len(), 64);
    assert_eq!(got[0], "m1");
    assert_eq!(got[63], "m64");
}

#[test]
fn hub_of_one_holds_the_newest_message() {
    let mut hub = Hub::with_capacity(1).unwrap();
    let mut s = hub.subscribe();
    hub.publish("a".to_string());
    hub.publish("b".to_string());
    assert_eq!(drain(&hub, &mut s), vec!["b"]);
    assert_eq!(hub.capacity(), 1);
}

#[test]
fn hub_without_room_is_refused() {
    assert!(Hub::with_capacity(0).is_none());
    assert!(Hub::with_capacity(1).is_some());
}

#[test]
fn receiving_from_an_empty_hub_changes_nothing() {
    let hub = Hub::new();
    let mut s = hub.subscribe();
    assert_eq!(hub.receive(&mut s), None);
    assert_eq!(hub.receive(&mut s), None);
    assert_eq!(hub.published(), 0);
}
