use vstd::prelude::*;

use crate::message_queue::rabbit::ledger::{
    accepts_tag, record_delivery, settle_outcome, Acknowledgement, AckError, AckLedger, LedgerView,
    Settlement,
};
use crate::message_queue::rabbit::receiver::{nack_settlement, settlement_for_nack};
use crate::message_queue::rabbit::window::{
    close_step, push_step, timer_step, ChunkWindow, WindowView,
};
use crate::message_queue::rabbit::{is_delivered_message, RabbitMessage, ReceiveError};
use crate::message_queue::{ChunkEvent, ChunkPoll, ChunkReceiver};

verus! {

/// The batch a batched receive handed out, as a sequence.
pub open spec fn poll_batch(r: Result<ChunkPoll<RabbitMessage>, ReceiveError>) -> Option<Seq<RabbitMessage>> {
    match r {
        Ok(ChunkPoll::Batch(b)) => Some(b@),
        _ => None,
    }
}

pub open spec fn is_pending(r: Result<ChunkPoll<RabbitMessage>, ReceiveError>) -> bool {
    r matches Ok(ChunkPoll::Pending)
}

pub open spec fn is_finished(r: Result<ChunkPoll<RabbitMessage>, ReceiveError>) -> bool {
    r matches Ok(ChunkPoll::Finished)
}

/// What an event does to a batched receiver whose deliveries stood at `v`
/// and whose window stood at `w`: the result `r`, and `v2` and `w2`
/// afterwards.
/// - A delivery is checked as in a single receiver; once accepted it joins
///   the window, which may fill and leave as a batch.
/// - The clock lets a non-empty window leave once its deadline has come.
/// - The end of the subscription lets what waits leave once; after that,
///   every event answers that the receiver has finished.
pub open spec fn chunk_step(
    v: LedgerView,
    w: WindowView<RabbitMessage>,
    event: ChunkEvent,
    r: Result<ChunkPoll<RabbitMessage>, ReceiveError>,
    v2: LedgerView,
    w2: WindowView<RabbitMessage>,
) -> bool {
    if w.closed {
        is_finished(r) && v2 == v && w2 == w
    } else {
        match event {
            ChunkEvent::Delivered { delivery: d, now_ms } => match d.delivery_tag {
                None => r == Err::<ChunkPoll<RabbitMessage>, ReceiveError>(
                    ReceiveError::MissingDeliveryTag,
                ) && v2 == v && w2 == w,
                Some(t) => if accepts_tag(v, t) {
                    &&& v2 == record_delivery(v, t)
                    &&& w2.fed.len() == w.fed.len() + 1
                    &&& is_delivered_message(v.channel_id, d, w2.fed.last())
                    &&& push_step(w, w2.fed.last(), now_ms, poll_batch(r), w2)
                    &&& poll_batch(r) is None ==> is_pending(r)
                } else {
                    r == Err::<ChunkPoll<RabbitMessage>, ReceiveError>(
                        ReceiveError::TagNotIncreasing,
                    ) && v2 == v && w2 == w
                },
            },
            ChunkEvent::Tick { now_ms } => {
                &&& v2 == v
                &&& timer_step(w, now_ms, poll_batch(r), w2)
                &&& poll_batch(r) is None ==> is_pending(r)
            },
            ChunkEvent::Ended => {
                &&& v2 == v
                &&& close_step(w, poll_batch(r), w2)
                &&& poll_batch(r) is None ==> is_finished(r)
            },
        }
    }
}

/// A consumer on its own channel that hands out deliveries in batches of at
/// most `chunk_size`, each leaving when full or `timeout_ms` after its first
/// delivery arrived.
pub struct RabbitChunkReceiver {
    ledger: AckLedger,
    window: ChunkWindow<RabbitMessage>,
    consumer_tag: String,
    queue_name: String,
}

impl RabbitChunkReceiver {
    /// The deliveries of this receiver's channel.
    pub closed spec fn ledger(&self) -> LedgerView {
        self.ledger@
    }

    /// The batching window and its history.
    pub closed spec fn window(&self) -> WindowView<RabbitMessage> {
        self.window@
    }

    pub closed spec fn consumer_tag_view(&self) -> Seq<char> {
        self.consumer_tag@
    }

    pub closed spec fn queue_name_view(&self) -> Seq<char> {
        self.queue_name@
    }

    /// A batched receiver for the subscription of `consumer_tag` to `queue`
    /// on channel `channel_id`. A chunk size of zero would never fill.
    pub fn new(channel_id: u16, queue: &str, consumer_tag: &str, chunk_size: usize, timeout_ms: u64) -> (r:
        RabbitChunkReceiver)
        requires
            chunk_size > 0,
        ensures
            r.well_formed(),
            r.ledger().channel_id == channel_id,
            r.ledger().last_tag == 0,
            r.ledger().states == Map::<u64, crate::message_queue::rabbit::ledger::TagState>::empty(),
            r.window().chunk_size == chunk_size,
            r.window().timeout_ms == timeout_ms,
            r.window().items.len() == 0,
            r.window().fed.len() == 0,
            r.window().emitted.len() == 0,
            !r.window().closed,
            r.consumer_tag_view() == consumer_tag@,
            r.queue_name_view() == queue@,
    {
        RabbitChunkReceiver {
            ledger: AckLedger::new(channel_id),
            window: ChunkWindow::new(chunk_size, timeout_ms),
            consumer_tag: consumer_tag.to_owned(),
            queue_name: queue.to_owned(),
        }
    }

    pub fn channel_id(&self) -> (r: u16)
        ensures
            r == self.ledger().channel_id,
    {
        self.ledger.channel_id()
    }

    pub fn consumer_tag(&self) -> (r: &str)
        ensures
            r@ == self.consumer_tag_view(),
    {
        self.consumer_tag.as_str()
    }

    pub fn queue_name(&self) -> (r: &str)
        ensures
            r@ == self.queue_name_view(),
    {
        self.queue_name.as_str()
    }

    /// When the current window's timer fires, if a window is open.
    pub fn deadline(&self) -> (r: Option<u64>)
        ensures
            self.window().items.len() == 0 ==> r is None,
            self.window().items.len() > 0 ==> r == Some(self.window().deadline_ms),
    {
        self.window.deadline()
    }

    fn settle(&mut self, message: &RabbitMessage, multiple: bool, how: Settlement) -> (r: Result<
        Acknowledgement,
        AckError,
    >)
        requires
            old(self).well_formed(),
        ensures
            final(self).well_formed(),
            final(self).window() == old(self).window(),
            final(self).consumer_tag_view() == old(self).consumer_tag_view(),
            final(self).queue_name_view() == old(self).queue_name_view(),
            r is Ok <==> settle_outcome(
                old(self).ledger(),
                message.channel_id,
                message.delivery_tag,
                multiple,
                how,
            ) is Ok,
            settle_outcome(
                old(self).ledger(),
                message.channel_id,
                message.delivery_tag,
                multiple,
                how,
            ) matches Ok(v) ==> {
                &&& final(self).ledger() == v
                &&& r == Ok::<Acknowledgement, AckError>(
                    Acknowledgement { delivery_tag: message.delivery_tag, multiple, settlement: how },
                )
            },
            settle_outcome(
                old(self).ledger(),
                message.channel_id,
                message.delivery_tag,
                multiple,
                how,
            ) matches Err(e) ==> {
                &&& final(self).ledger() == old(self).ledger()
                &&& r == Err::<Acknowledgement, AckError>(e)
            },
    {
        self.ledger.settle(message.channel_id, message.delivery_tag, multiple, how)
    }
}

impl ChunkReceiver for RabbitChunkReceiver {
    type Message = RabbitMessage;

    closed spec fn well_formed(&self) -> bool {
        self.ledger.wf() && self.window.wf()
    }

    /// Takes the next event of the subscription and answers with a batch
    /// when one is ready.
    fn receive(&mut self, event: ChunkEvent) -> (r: Result<ChunkPoll<RabbitMessage>, ReceiveError>)
        ensures
            chunk_step(
                old(self).ledger(),
                old(self).window(),
                event,
                r,
                final(self).ledger(),
                final(self).window(),
            ),
            final(self).consumer_tag_view() == old(self).consumer_tag_view(),
            final(self).queue_name_view() == old(self).queue_name_view(),
    {
        if self.window.is_closed() {
            return Ok(ChunkPoll::Finished);
        }
        match event {
            ChunkEvent::Delivered { delivery, now_ms } => {
                let message = RabbitMessage::from_delivery(self.ledger.channel_id(), delivery)?;
                self.ledger.record(message.delivery_tag)?;
                match self.window.push(message, now_ms) {
                    Some(batch) => Ok(ChunkPoll::Batch(batch)),
                    None => Ok(ChunkPoll::Pending),
                }
            },
            ChunkEvent::Tick { now_ms } => match self.window.poll_timer(now_ms) {
                Some(batch) => Ok(ChunkPoll::Batch(batch)),
                None => Ok(ChunkPoll::Pending),
            },
            ChunkEvent::Ended => match self.window.close() {
                Some(batch) => Ok(ChunkPoll::Batch(batch)),
                None => Ok(ChunkPoll::Finished),
            },
        }
    }

    /// Acknowledges `message`, and with `multiple` every message below it
    /// that still awaits settlement on this channel.
    fn ack(&mut self, message: &RabbitMessage, multiple: bool) -> (r: Result<Acknowledgement, AckError>)
        ensures
            final(self).window() == old(self).window(),
            r is Ok <==> settle_outcome(
                old(self).ledger(),
                message.channel_id,
                message.delivery_tag,
                multiple,
                Settlement::Acked,
            ) is Ok,
            settle_outcome(
                old(self).ledger(),
                message.channel_id,
                message.delivery_tag,
                multiple,
                Settlement::Acked,
            ) matches Ok(v) ==> {
                &&& final(self).ledger() == v
                &&& r == Ok::<Acknowledgement, AckError>(
                    Acknowledgement {
                        delivery_tag: message.delivery_tag,
                        multiple,
                        settlement: Settlement::Acked,
                    },
                )
            },
            settle_outcome(
                old(self).ledger(),
                message.channel_id,
                message.delivery_tag,
                multiple,
                Settlement::Acked,
            ) matches Err(e) ==> {
                &&& final(self).ledger() == old(self).ledger()
                &&& r == Err::<Acknowledgement, AckError>(e)
            },
    {
        self.settle(message, multiple, Settlement::Acked)
    }

    /// Negatively acknowledges `message` (with `multiple`, every message
    /// below it too); `requeue` hands it back to the queue, otherwise the
    /// broker dead-letters or drops it.
    fn nack(&mut self, message: &RabbitMessage, multiple: bool, requeue: bool) -> (r: Result<
        Acknowledgement,
        AckError,
    >)
        ensures
            final(self).window() == old(self).window(),
            r is Ok <==> settle_outcome(
                old(self).ledger(),
                message.channel_id,
                message.delivery_tag,
                multiple,
                nack_settlement(requeue),
            ) is Ok,
            settle_outcome(
                old(self).ledger(),
                message.channel_id,
                message.delivery_tag,
                multiple,
                nack_settlement(requeue),
            ) matches Ok(v) ==> {
                &&& final(self).ledger() == v
                &&& r == Ok::<Acknowledgement, AckError>(
                    Acknowledgement {
                        delivery_tag: message.delivery_tag,
                        multiple,
                        settlement: nack_settlement(requeue),
                    },
                )
            },
            settle_outcome(
                old(self).ledger(),
                message.channel_id,
                message.delivery_tag,
                multiple,
                nack_settlement(requeue),
            ) matches Err(e) ==> {
                &&& final(self).ledger() == old(self).ledger()
                &&& r == Err::<Acknowledgement, AckError>(e)
            },
    {
        let how = settlement_for_nack(requeue);
        self.settle(message, multiple, how)
    }
}

} // verus!
