use rust_rabbitmq::message_queue::rabbit::publisher::RabbitPublisher;
use rust_rabbitmq::message_queue::rabbit::topology::{exchange_step, DeclareStep, Topology, EXCHANGE, EXCHANGE_TYPE};
use rust_rabbitmq::message_queue::rabbit::{Delivery, RabbitMessage};
use rust_rabbitmq::message_queue::Publisher;

fn describe(step: &DeclareStep) -> String {
    match step {
        DeclareStep::Exchange { name, kind, durable } => format!("exchange {name} {kind} {durable}"),
        DeclareStep::Queue { name, durable } => format!("queue {name} {durable}"),
        DeclareStep::Bind { queue, exchange, routing_key } => format!("bind {queue} {exchange} {routing_key}"),
        DeclareStep::Prefetch { count } => format!("prefetch {count}"),
    }
}

#[test]
fn receiver_topology_declares_four_steps() {
    let t = Topology::new(EXCHANGE, "test_queue_name", Some(100));
    let steps: Vec<String> = t.declaration().iter().map(describe).collect();
    assert_eq!(
        steps,
        vec![
            "exchange edge.direct direct true",
            "queue test_queue_name true",
            "bind test_queue_name edge.direct test_queue_name",
            "prefetch 100",
        ]
    );
}

#[test]
fn publisher_topology_has_no_prefetch() {
    let t = Topology::new(EXCHANGE, "q", None);
    let steps: Vec<String> = t.declaration().iter().map(describe).collect();
    assert_eq!(steps, vec!["exchange edge.direct direct true", "queue q true", "bind q edge.direct q"]);
}

#[test]
fn declaring_twice_gives_the_same_plan() {
    let t = Topology::new(EXCHANGE, "q", Some(1));
    let first: Vec<String> = t.declaration().iter().map(describe).collect();
    let second: Vec<String> = t.declaration().iter().map(describe).collect();
    assert_eq!(first, second);
}

#[test]
fn routing_key_is_the_queue_name() {
    let t = Topology::new("ex", "orders", None);
    assert_eq!(t.routing_key(), "orders");
    assert_eq!(t.queue(), "orders");
    assert_eq!(t.exchange(), "ex");
    assert_eq!(t.prefetch(), None);
}

#[test]
fn exchange_step_is_durable_direct() {
    assert_eq!(describe(&exchange_step("edge.direct")), "exchange edge.direct direct true");
    assert_eq!(EXCHANGE_TYPE, "direct");
}

#[test]
fn publish_keeps_payload_and_marks_it_persistent() {
    let p = RabbitPublisher::new(EXCHANGE, "test_queue_name");
    let o = p.publish(vec![0, 1, 2, 255]);
    assert_eq!(o.content, vec![0, 1, 2, 255]);
    assert_eq!(o.exchange, "edge.direct");
    assert_eq!(o.routing_key, "test_queue_name");
    assert!(o.persistent);
    assert_eq!(p.exchange(), "edge.direct");
    assert_eq!(p.routing_key(), "test_queue_name");
}

#[test]
fn payload_survives_publish_and_receive() {
    let p = RabbitPublisher::new(EXCHANGE, "q");
    for payload in [vec![], vec![7u8], b"hello world 3".to_vec()] {
        let o = p.publish(payload.clone());
        let d = Delivery { delivery_tag: Some(1), redelivered: false, content: Some(o.content) };
        let m = RabbitMessage::from_delivery(2, d).ok().unwrap();
        assert_eq!(m.content, payload);
    }
}
