use debug_bridge::bridge::BridgeState;
use debug_bridge::relay::{BroadcastRelay, CONSOLE_QUEUE_CAPACITY, EVENT_QUEUE_CAPACITY};

#[test]
fn fanout_reaches_every_matching_subscriber() {
    let mut relay = BroadcastRelay::new();
    let a = relay.subscribe(None, 8);
    let b = relay.subscribe(None, 8);
    relay.publish("console", "one");
    relay.publish("console", "two");
    assert_eq!(relay.next_message(a).as_deref(), Some("one"));
    assert_eq!(relay.next_message(a).as_deref(), Some("two"));
    assert_eq!(relay.next_message(b).as_deref(), Some("one"));
    assert_eq!(relay.next_message(b).as_deref(), Some("two"));
    assert_eq!(relay.next_message(a), None);
}

#[test]
fn stalled_subscriber_drops_oldest_without_delaying_the_other() {
    let mut relay = BroadcastRelay::new();
    let stalled = relay.subscribe(None, 3);
    let reader = relay.subscribe(None, 8);
    for i in 1..=5 {
        let msg = format!("m{i}");
        relay.publish("console", &msg);
        // the live reader sees every message promptly, in publish order
        assert_eq!(relay.next_message(reader), Some(msg));
    }
    // the stalled queue kept only the newest three; the oldest were dropped
    assert_eq!(relay.next_message(stalled).as_deref(), Some("m3"));
    assert_eq!(relay.next_message(stalled).as_deref(), Some("m4"));
    assert_eq!(relay.next_message(stalled).as_deref(), Some("m5"));
    assert_eq!(relay.next_message(stalled), None);
}

#[test]
fn named_subscription_filters_the_stream() {
    let mut relay = BroadcastRelay::new();
    let only_tick = relay.subscribe(Some("tick".to_string()), 8);
    let everything = relay.subscribe(None, 8);
    relay.publish("tick", "t1");
    relay.publish("tock", "x1");
    relay.publish("tick", "t2");
    assert_eq!(relay.next_message(only_tick).as_deref(), Some("t1"));
    assert_eq!(relay.next_message(only_tick).as_deref(), Some("t2"));
    assert_eq!(relay.next_message(only_tick), None);
    assert_eq!(relay.next_message(everything).as_deref(), Some("t1"));
    assert_eq!(relay.next_message(everything).as_deref(), Some("x1"));
    assert_eq!(relay.next_message(everything).as_deref(), Some("t2"));
}

#[test]
fn unsubscribed_queue_stops_receiving() {
    let mut relay = BroadcastRelay::new();
    let a = relay.subscribe(None, 8);
    relay.publish("console", "before");
    relay.unsubscribe(a);
    relay.publish("console", "after");
    assert_eq!(relay.next_message(a), None);
}

#[test]
fn console_callback_relays_a_json_line() {
    let mut bs = BridgeState::new();
    let sub = bs.console.subscribe(Some("console".to_string()), CONSOLE_QUEUE_CAPACITY);
    bs.console_callback("warn", "careful \"there\"");
    let expected = format!(
        "{{\"level\":{},\"message\":{}}}",
        serde_json::to_string("warn").unwrap(),
        serde_json::to_string("careful \"there\"").unwrap(),
    );
    assert_eq!(bs.console.next_message(sub), Some(expected));
}

#[test]
fn event_callback_relays_under_the_event_name() {
    let mut bs = BridgeState::new();
    let sub = bs.console.subscribe(Some("app:ready".to_string()), EVENT_QUEUE_CAPACITY);
    let other = bs.console.subscribe(Some("other".to_string()), EVENT_QUEUE_CAPACITY);
    bs.event_callback("app:ready", "{\"ok\":true}");
    let expected = format!(
        "{{\"event\":{},\"payload\":{}}}",
        serde_json::to_string("app:ready").unwrap(),
        serde_json::to_string("{\"ok\":true}").unwrap(),
    );
    assert_eq!(bs.console.next_message(sub), Some(expected));
    assert_eq!(bs.console.next_message(other), None);
}
