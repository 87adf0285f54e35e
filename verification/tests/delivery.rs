use islandbridge::message::{simple_message, Message};
use islandbridge::relay::{retry_decision, DeliveryStep, Relay, RetryDecision};
use islandbridge::translate::{disconnect_message, translate_event, Event};

#[test]
fn retry_decision_classifies_statuses() {
    assert_eq!(retry_decision(429, 10), RetryDecision::RetryAfterMillis(10));
    assert_eq!(retry_decision(200, 10), RetryDecision::Proceed);
    assert_eq!(retry_decision(204, 0), RetryDecision::Proceed);
    assert_eq!(retry_decision(404, 99), RetryDecision::Proceed);
    assert_eq!(retry_decision(500, 0), RetryDecision::Proceed);
}

#[test]
fn rate_limited_message_is_retried_then_delivered() {
    let mut relay = Relay::new();
    relay.enqueue(simple_message("first"));
    relay.enqueue(simple_message("second"));

    assert!(relay.begin_next());
    let mut posts: Vec<Message> = Vec::new();

    // Responses for the first message: 429, 429, 200 — three posts, in
    // order, and only then does the worker advance to the next message.
    posts.push(relay.current().clone());
    assert_eq!(relay.on_response(429, 10), DeliveryStep::RetryAfterMillis(10));
    posts.push(relay.current().clone());
    assert_eq!(relay.on_response(429, 10), DeliveryStep::RetryAfterMillis(10));
    posts.push(relay.current().clone());
    let step = relay.on_response(200, 0);
    assert_eq!(step, DeliveryStep::Delivered(simple_message("first")));

    assert_eq!(posts.len(), 3);
    assert!(posts.iter().all(|p| *p == simple_message("first")));

    assert!(relay.begin_next());
    assert_eq!(relay.current(), &simple_message("second"));
    assert_eq!(
        relay.on_response(200, 0),
        DeliveryStep::Delivered(simple_message("second"))
    );
    assert!(!relay.begin_next());
}

#[test]
fn delivery_order_follows_enqueue_order() {
    let mut relay = Relay::new();
    for text in ["one", "two", "three", "four"] {
        relay.enqueue(simple_message(text));
    }
    relay.close();

    let mut delivered: Vec<Message> = Vec::new();
    let statuses = [
        vec![200],
        vec![429, 200],
        vec![429, 429, 429, 204],
        vec![301],
    ];
    let mut next: usize = 0;
    while relay.begin_next() {
        for s in &statuses[next] {
            match relay.on_response(*s, 5) {
                DeliveryStep::Delivered(m) => delivered.push(m),
                DeliveryStep::RetryAfterMillis(ms) => assert_eq!(ms, 5),
            }
        }
        next += 1;
    }
    assert!(relay.done());
    assert_eq!(
        delivered,
        vec![
            simple_message("one"),
            simple_message("two"),
            simple_message("three"),
            simple_message("four"),
        ]
    );
}

#[test]
fn startup_connect_disconnect_scenario() {
    let mut relay = Relay::new();

    relay.enqueue(simple_message("-# IslandBridge starting..."));
    if let Some(m) = translate_event(&Event::Connected) {
        relay.enqueue(m);
    }
    relay.enqueue(disconnect_message("timeout"));
    relay.close();

    let mut delivered: Vec<Message> = Vec::new();
    while relay.begin_next() {
        loop {
            match relay.on_response(200, 0) {
                DeliveryStep::Delivered(m) => {
                    delivered.push(m);
                    break;
                }
                DeliveryStep::RetryAfterMillis(_) => {}
            }
        }
    }
    assert!(relay.done());
    assert_eq!(
        delivered,
        vec![
            simple_message("-# IslandBridge starting..."),
            simple_message("-# Successfully connected!"),
            simple_message("IslandBridge disconnected: timeout"),
        ]
    );
}

#[test]
fn empty_closed_queue_is_done() {
    let mut relay = Relay::new();
    assert!(!relay.done());
    relay.close();
    assert!(relay.done());
    assert!(!relay.begin_next());
}
