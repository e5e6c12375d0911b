use rust_rabbitmq::message_queue::rabbit::ledger::{Acknowledgement, AckError, AckLedger, Settlement};
use rust_rabbitmq::message_queue::rabbit::receiver::RabbitReceiver;
use rust_rabbitmq::message_queue::rabbit::{Delivery, RabbitMessage, ReceiveError};
use rust_rabbitmq::message_queue::Receiver;

fn delivery(tag: u64, content: &[u8]) -> Delivery {
    Delivery { delivery_tag: Some(tag), redelivered: false, content: Some(content.to_vec()) }
}

fn take(r: &mut RabbitReceiver, tag: u64) -> RabbitMessage {
    r.receive(Some(delivery(tag, b"x"))).unwrap().unwrap()
}

#[test]
fn received_message_keeps_payload_tag_and_channel() {
    let mut r = RabbitReceiver::new(4, "q", "c");
    let d = Delivery { delivery_tag: Some(7), redelivered: true, content: Some(b"{\"a\":1}".to_vec()) };
    let m = r.receive(Some(d)).unwrap().unwrap();
    assert_eq!(m.content, b"{\"a\":1}".to_vec());
    assert_eq!(m.delivery_tag, 7);
    assert_eq!(m.channel_id, 4);
    assert!(m.redelivered);
}

#[test]
fn absent_body_is_an_empty_payload() {
    let mut r = RabbitReceiver::new(4, "q", "c");
    let d = Delivery { delivery_tag: Some(1), redelivered: false, content: None };
    let m = r.receive(Some(d)).unwrap().unwrap();
    assert!(m.content.is_empty());
}

#[test]
fn end_of_subscription_yields_nothing() {
    let mut r = RabbitReceiver::new(4, "q", "c");
    assert!(r.receive(None).unwrap().is_none());
}

#[test]
fn missing_delivery_tag_is_refused() {
    let mut r = RabbitReceiver::new(4, "q", "c");
    let d = Delivery { delivery_tag: None, redelivered: false, content: Some(vec![1, 2]) };
    assert!(matches!(r.receive(Some(d)), Err(ReceiveError::MissingDeliveryTag)));
    let m = take(&mut r, 1);
    assert_eq!(m.delivery_tag, 1);
}

#[test]
fn tags_must_rise() {
    let mut r = RabbitReceiver::new(4, "q", "c");
    take(&mut r, 3);
    assert!(matches!(r.receive(Some(delivery(3, b"y"))), Err(ReceiveError::TagNotIncreasing)));
    assert!(matches!(r.receive(Some(delivery(2, b"y"))), Err(ReceiveError::TagNotIncreasing)));
    assert_eq!(take(&mut r, 4).delivery_tag, 4);
}

#[test]
fn tag_zero_is_refused() {
    let mut ledger = AckLedger::new(1);
    assert_eq!(ledger.record(0), Err(ReceiveError::TagNotIncreasing));
    assert_eq!(ledger.record(1), Ok(()));
}

#[test]
fn second_ack_is_refused() {
    let mut r = RabbitReceiver::new(4, "q", "c");
    let m = take(&mut r, 1);
    assert_eq!(
        r.ack(&m, false),
        Ok(Acknowledgement { delivery_tag: 1, multiple: false, settlement: Settlement::Acked })
    );
    assert_eq!(r.ack(&m, false), Err(AckError::NotOutstanding));
    assert_eq!(r.nack(&m, false, true), Err(AckError::NotOutstanding));
}

#[test]
fn nack_with_and_without_requeue() {
    let mut r = RabbitReceiver::new(4, "q", "c");
    let a = take(&mut r, 1);
    let b = take(&mut r, 2);
    assert_eq!(
        r.nack(&a, false, true),
        Ok(Acknowledgement { delivery_tag: 1, multiple: false, settlement: Settlement::Requeued })
    );
    assert_eq!(
        r.nack(&b, false, false),
        Ok(Acknowledgement { delivery_tag: 2, multiple: false, settlement: Settlement::Dropped })
    );
    assert_eq!(r.ack(&a, false), Err(AckError::NotOutstanding));
}

#[test]
fn requeued_message_comes_back_flagged() {
    let mut r = RabbitReceiver::new(4, "q", "c");
    let first = take(&mut r, 1);
    r.nack(&first, false, true).unwrap();
    let again = Delivery { delivery_tag: Some(2), redelivered: true, content: Some(b"x".to_vec()) };
    let m = r.receive(Some(again)).unwrap().unwrap();
    assert!(m.redelivered);
    assert_eq!(m.content, first.content);
    assert!(r.ack(&m, false).is_ok());
}

#[test]
fn cross_channel_ack_fails() {
    let mut a = RabbitReceiver::new(1, "q", "a");
    let mut b = RabbitReceiver::new(2, "q", "b");
    let from_a = take(&mut a, 1);
    take(&mut b, 1);
    assert_eq!(b.ack(&from_a, false), Err(AckError::WrongChannel));
    assert_eq!(b.nack(&from_a, false, false), Err(AckError::WrongChannel));
    assert!(a.ack(&from_a, false).is_ok());
}

#[test]
fn multiple_ack_settles_everything_below() {
    let mut r = RabbitReceiver::new(4, "q", "c");
    let ms: Vec<RabbitMessage> = (1..=5u64).map(|t| take(&mut r, t)).collect();
    assert!(r.ack(&ms[1], false).is_ok());
    assert_eq!(
        r.ack(&ms[3], true),
        Ok(Acknowledgement { delivery_tag: 4, multiple: true, settlement: Settlement::Acked })
    );
    for m in &ms[..4] {
        assert_eq!(r.ack(m, false), Err(AckError::NotOutstanding));
    }
    assert!(r.ack(&ms[4], false).is_ok());
}

#[test]
fn multiple_ack_out_of_order_fails() {
    let mut r = RabbitReceiver::new(4, "q", "c");
    let ms: Vec<RabbitMessage> = (1..=3u64).map(|t| take(&mut r, t)).collect();
    assert!(r.ack(&ms[2], true).is_ok());
    assert_eq!(r.ack(&ms[1], true), Err(AckError::NotOutstanding));
}

#[test]
fn unknown_tag_is_not_outstanding() {
    let mut ledger = AckLedger::new(8);
    ledger.record(1).unwrap();
    assert_eq!(ledger.settle(8, 2, false, Settlement::Acked), Err(AckError::NotOutstanding));
    assert_eq!(ledger.settle(9, 1, false, Settlement::Acked), Err(AckError::WrongChannel));
    assert!(ledger.settle(8, 1, false, Settlement::Dropped).is_ok());
}

#[test]
fn receiver_keeps_its_names() {
    let r = RabbitReceiver::new(6, "test_queue_name", "test_processor");
    assert_eq!(r.queue_name(), "test_queue_name");
    assert_eq!(r.consumer_tag(), "test_processor");
    assert_eq!(r.channel_id(), 6);
}
