use rust_rabbitmq::message_queue::rabbit::chunk_receiver::RabbitChunkReceiver;
use rust_rabbitmq::message_queue::rabbit::ledger::{Acknowledgement, AckError, Settlement};
use rust_rabbitmq::message_queue::rabbit::window::ChunkWindow;
use rust_rabbitmq::message_queue::rabbit::{Delivery, RabbitMessage, ReceiveError};
use rust_rabbitmq::message_queue::{ChunkEvent, ChunkPoll, ChunkReceiver};

fn delivery(tag: u64) -> Delivery {
    Delivery { delivery_tag: Some(tag), redelivered: false, content: Some(tag.to_be_bytes().to_vec()) }
}

fn deliver(r: &mut RabbitChunkReceiver, tag: u64, now_ms: u64) -> ChunkPoll<RabbitMessage> {
    r.receive(ChunkEvent::Delivered { delivery: delivery(tag), now_ms }).unwrap()
}

fn tags(batch: &[RabbitMessage]) -> Vec<u64> {
    batch.iter().map(|m| m.delivery_tag).collect()
}

#[test]
fn twenty_five_at_once_give_ten_ten_five() {
    let mut r = RabbitChunkReceiver::new(1, "q", "c", 10, 1000);
    let mut sizes = Vec::new();
    for tag in 1..=25u64 {
        match deliver(&mut r, tag, 0) {
            ChunkPoll::Batch(b) => sizes.push(b.len()),
            ChunkPoll::Pending => {}
            ChunkPoll::Finished => panic!("finished early"),
        }
    }
    assert_eq!(sizes, vec![10, 10]);
    assert_eq!(r.deadline(), Some(1000));
    assert!(matches!(r.receive(ChunkEvent::Tick { now_ms: 999 }).unwrap(), ChunkPoll::Pending));
    match r.receive(ChunkEvent::Tick { now_ms: 1000 }).unwrap() {
        ChunkPoll::Batch(b) => sizes.push(b.len()),
        _ => panic!("the last batch did not leave on time"),
    }
    assert_eq!(sizes, vec![10, 10, 5]);
}

#[test]
fn three_then_pause_leave_after_the_timeout() {
    let mut r = RabbitChunkReceiver::new(1, "q", "c", 10, 200);
    for tag in 1..=3u64 {
        assert!(matches!(deliver(&mut r, tag, 0), ChunkPoll::Pending));
    }
    assert!(matches!(r.receive(ChunkEvent::Tick { now_ms: 0 }).unwrap(), ChunkPoll::Pending));
    assert!(matches!(r.receive(ChunkEvent::Tick { now_ms: 199 }).unwrap(), ChunkPoll::Pending));
    match r.receive(ChunkEvent::Tick { now_ms: 200 }).unwrap() {
        ChunkPoll::Batch(b) => assert_eq!(tags(&b), vec![1, 2, 3]),
        _ => panic!("expected one batch of three"),
    }
    assert_eq!(r.deadline(), None);
    assert!(matches!(r.receive(ChunkEvent::Tick { now_ms: 10_000 }).unwrap(), ChunkPoll::Pending));
}

#[test]
fn timer_starts_with_the_first_message_of_a_window() {
    let mut r = RabbitChunkReceiver::new(1, "q", "c", 10, 200);
    assert!(matches!(deliver(&mut r, 1, 100), ChunkPoll::Pending));
    assert!(matches!(deliver(&mut r, 2, 250), ChunkPoll::Pending));
    assert_eq!(r.deadline(), Some(300));
    match r.receive(ChunkEvent::Tick { now_ms: 300 }).unwrap() {
        ChunkPoll::Batch(b) => assert_eq!(tags(&b), vec![1, 2]),
        _ => panic!("expected a batch"),
    }
    assert!(matches!(deliver(&mut r, 3, 1000), ChunkPoll::Pending));
    assert_eq!(r.deadline(), Some(1200));
}

#[test]
fn idle_window_never_emits() {
    let mut r = RabbitChunkReceiver::new(1, "q", "c", 10, 200);
    assert_eq!(r.deadline(), None);
    for now in [0u64, 200, 5000, u64::MAX] {
        assert!(matches!(r.receive(ChunkEvent::Tick { now_ms: now }).unwrap(), ChunkPoll::Pending));
    }
}

#[test]
fn end_of_stream_flushes_the_partial_window_once() {
    let mut r = RabbitChunkReceiver::new(1, "q", "c", 10, 200);
    deliver(&mut r, 1, 0);
    deliver(&mut r, 2, 0);
    match r.receive(ChunkEvent::Ended).unwrap() {
        ChunkPoll::Batch(b) => assert_eq!(tags(&b), vec![1, 2]),
        _ => panic!("the partial window was dropped"),
    }
    assert!(matches!(r.receive(ChunkEvent::Ended).unwrap(), ChunkPoll::Finished));
    assert!(matches!(r.receive(ChunkEvent::Tick { now_ms: 10_000 }).unwrap(), ChunkPoll::Finished));
    assert!(matches!(deliver(&mut r, 3, 0), ChunkPoll::Finished));
}

#[test]
fn end_of_empty_stream_finishes_at_once() {
    let mut r = RabbitChunkReceiver::new(1, "q", "c", 10, 200);
    assert!(matches!(r.receive(ChunkEvent::Ended).unwrap(), ChunkPoll::Finished));
}

#[test]
fn batches_keep_arrival_order() {
    let mut r = RabbitChunkReceiver::new(1, "q", "c", 4, 50);
    let mut seen = Vec::new();
    for tag in 1..=10u64 {
        if let ChunkPoll::Batch(b) = deliver(&mut r, tag, 0) {
            seen.extend(tags(&b));
        }
    }
    if let ChunkPoll::Batch(b) = r.receive(ChunkEvent::Ended).unwrap() {
        seen.extend(tags(&b));
    }
    assert_eq!(seen, (1..=10u64).collect::<Vec<_>>());
}

#[test]
fn chunk_size_one_emits_every_message() {
    let mut r = RabbitChunkReceiver::new(1, "q", "c", 1, 200);
    for tag in 1..=3u64 {
        match deliver(&mut r, tag, 0) {
            ChunkPoll::Batch(b) => assert_eq!(tags(&b), vec![tag]),
            _ => panic!("a full window must leave at once"),
        }
    }
}

#[test]
fn deadline_saturates_at_the_end_of_time() {
    let mut w: ChunkWindow<u8> = ChunkWindow::new(3, 10);
    assert_eq!(w.push(7, u64::MAX - 3), None);
    assert_eq!(w.deadline(), Some(u64::MAX));
    assert_eq!(w.poll_timer(u64::MAX), Some(vec![7]));
}

#[test]
fn chunk_receiver_refuses_malformed_deliveries() {
    let mut r = RabbitChunkReceiver::new(1, "q", "c", 10, 200);
    let missing = Delivery { delivery_tag: None, redelivered: false, content: Some(vec![1]) };
    assert!(matches!(
        r.receive(ChunkEvent::Delivered { delivery: missing, now_ms: 0 }),
        Err(ReceiveError::MissingDeliveryTag)
    ));
    deliver(&mut r, 5, 0);
    assert!(matches!(
        r.receive(ChunkEvent::Delivered { delivery: delivery(5), now_ms: 0 }),
        Err(ReceiveError::TagNotIncreasing)
    ));
    assert_eq!(r.deadline(), Some(200));
}

#[test]
fn batch_members_are_settled_one_by_one() {
    let mut r = RabbitChunkReceiver::new(3, "q", "c", 10, 200);
    for tag in 1..=9u64 {
        deliver(&mut r, tag, 0);
    }
    let batch = match deliver(&mut r, 10, 0) {
        ChunkPoll::Batch(b) => b,
        _ => panic!("the tenth message must fill the batch"),
    };
    assert_eq!(batch.len(), 10);
    for m in &batch[..8] {
        assert_eq!(
            r.ack(m, false),
            Ok(Acknowledgement { delivery_tag: m.delivery_tag, multiple: false, settlement: Settlement::Acked })
        );
    }
    for m in &batch[8..] {
        assert_eq!(r.nack(m, false, true).unwrap().settlement, Settlement::Requeued);
    }
    assert_eq!(r.ack(&batch[0], false), Err(AckError::NotOutstanding));
    assert_eq!(r.nack(&batch[9], false, false), Err(AckError::NotOutstanding));
}

#[test]
fn chunk_receiver_keeps_its_names() {
    let r = RabbitChunkReceiver::new(9, "test_queue_name", "test_batch_processor", 10, 1000);
    assert_eq!(r.queue_name(), "test_queue_name");
    assert_eq!(r.consumer_tag(), "test_batch_processor");
    assert_eq!(r.channel_id(), 9);
}
