use vstd::prelude::*;

use crate::message_queue::rabbit::ledger::{
    accepts_tag, record_delivery, settle_outcome, Acknowledgement, AckError, AckLedger, LedgerView,
    Settlement,
};
use crate::message_queue::rabbit::{is_delivered_message, Delivery, RabbitMessage, ReceiveError};
use crate::message_queue::Receiver;

verus! {

/// How a negative acknowledgement settles a message.
pub open spec fn nack_settlement(requeue: bool) -> Settlement {
    if requeue {
        Settlement::Requeued
    } else {
        Settlement::Dropped
    }
}

pub fn settlement_for_nack(requeue: bool) -> (r: Settlement)
    ensures
        r == nack_settlement(requeue),
{
    if requeue {
        Settlement::Requeued
    } else {
        Settlement::Dropped
    }
}

/// Whether `r` hands out delivery `d` as received on channel `channel_id`.
pub open spec fn yields_delivery(channel_id: u16, d: Delivery, r: Result<Option<RabbitMessage>, ReceiveError>) -> bool {
    match r {
        Ok(Some(m)) => is_delivered_message(channel_id, d, m),
        _ => false,
    }
}

/// What taking `incoming` does on a channel whose deliveries stood at `v`:
/// the result `r`, and `after`, where they stand afterwards. The end of the
/// subscription yields nothing; a delivery without a tag, or with a tag not
/// above every earlier one, is refused and changes nothing.
pub open spec fn receive_step(
    v: LedgerView,
    incoming: Option<Delivery>,
    r: Result<Option<RabbitMessage>, ReceiveError>,
    after: LedgerView,
) -> bool {
    match incoming {
        None => r == Ok::<Option<RabbitMessage>, ReceiveError>(None) && after == v,
        Some(d) => match d.delivery_tag {
            None => r == Err::<Option<RabbitMessage>, ReceiveError>(ReceiveError::MissingDeliveryTag)
                && after == v,
            Some(t) => if accepts_tag(v, t) {
                yields_delivery(v.channel_id, d, r) && after == record_delivery(v, t)
            } else {
                r == Err::<Option<RabbitMessage>, ReceiveError>(ReceiveError::TagNotIncreasing)
                    && after == v
            },
        },
    }
}

/// A consumer on its own channel: it checks each delivery, keeps track of
/// what awaits settlement, and turns acknowledgements into broker commands.
pub struct RabbitReceiver {
    ledger: AckLedger,
    consumer_tag: String,
    queue_name: String,
    ended: bool,
}

impl RabbitReceiver {
    /// The deliveries of this receiver's channel.
    pub closed spec fn ledger(&self) -> LedgerView {
        self.ledger@
    }

    /// Whether the subscription has ended.
    pub closed spec fn ended(&self) -> bool {
        self.ended
    }

    pub closed spec fn consumer_tag_view(&self) -> Seq<char> {
        self.consumer_tag@
    }

    pub closed spec fn queue_name_view(&self) -> Seq<char> {
        self.queue_name@
    }

    /// A receiver for the subscription of `consumer_tag` to `queue` on
    /// channel `channel_id`, with nothing delivered yet.
    pub fn new(channel_id: u16, queue: &str, consumer_tag: &str) -> (r: RabbitReceiver)
        ensures
            r.well_formed(),
            r.ledger().channel_id == channel_id,
            r.ledger().last_tag == 0,
            r.ledger().states == Map::<u64, crate::message_queue::rabbit::ledger::TagState>::empty(),
            !r.ended(),
            r.consumer_tag_view() == consumer_tag@,
            r.queue_name_view() == queue@,
    {
        RabbitReceiver {
            ledger: AckLedger::new(channel_id),
            consumer_tag: consumer_tag.to_owned(),
            queue_name: queue.to_owned(),
            ended: false,
        }
    }

    pub fn channel_id(&self) -> (r: u16)
        ensures
            r == self.ledger().channel_id,
    {
        self.ledger.channel_id()
    }

    pub fn consumer_tag(&self) -> (r: &str)
        ensures
            r@ == self.consumer_tag_view(),
    {
        self.consumer_tag.as_str()
    }

    pub fn queue_name(&self) -> (r: &str)
        ensures
            r@ == self.queue_name_view(),
    {
        self.queue_name.as_str()
    }

    fn settle(&mut self, message: &RabbitMessage, multiple: bool, how: Settlement) -> (r: Result<
        Acknowledgement,
        AckError,
    >)
        requires
            old(self).well_formed(),
        ensures
            final(self).well_formed(),
            final(self).ended() == old(self).ended(),
            final(self).consumer_tag_view() == old(self).consumer_tag_view(),
            final(self).queue_name_view() == old(self).queue_name_view(),
            r is Ok <==> settle_outcome(
                old(self).ledger(),
                message.channel_id,
                message.delivery_tag,
                multiple,
                how,
            ) is Ok,
            settle_outcome(
                old(self).ledger(),
                message.channel_id,
                message.delivery_tag,
                multiple,
                how,
            ) matches Ok(v) ==> {
                &&& final(self).ledger() == v
                &&& r == Ok::<Acknowledgement, AckError>(
                    Acknowledgement { delivery_tag: message.delivery_tag, multiple, settlement: how },
                )
            },
            settle_outcome(
                old(self).ledger(),
                message.channel_id,
                message.delivery_tag,
                multiple,
                how,
            ) matches Err(e) ==> {
                &&& final(self).ledger() == old(self).ledger()
                &&& r == Err::<Acknowledgement, AckError>(e)
            },
    {
        self.ledger.settle(message.channel_id, message.delivery_tag, multiple, how)
    }
}

impl Receiver for RabbitReceiver {
    type Message = RabbitMessage;

    closed spec fn well_formed(&self) -> bool {
        self.ledger.wf()
    }

    /// Checks the next delivery of the subscription and records it as
    /// awaiting settlement; `None` marks the end of the subscription.
    fn receive(&mut self, incoming: Option<Delivery>) -> (r: Result<Option<RabbitMessage>, ReceiveError>)
        ensures
            final(self).consumer_tag_view() == old(self).consumer_tag_view(),
            final(self).queue_name_view() == old(self).queue_name_view(),
            receive_step(old(self).ledger(), incoming, r, final(self).ledger()),
            final(self).ended() == (old(self).ended() || incoming is None),
    {
        match incoming {
            None => {
                self.ended = true;
                Ok(None)
            },
            Some(delivery) => {
                let message = RabbitMessage::from_delivery(self.ledger.channel_id(), delivery)?;
                self.ledger.record(message.delivery_tag)?;
                Ok(Some(message))
            },
        }
    }

    /// Acknowledges `message`, and with `multiple` every message below it
    /// that still awaits settlement on this channel.
    fn ack(&mut self, message: &RabbitMessage, multiple: bool) -> (r: Result<Acknowledgement, AckError>)
        ensures
            final(self).ended() == old(self).ended(),
            r is Ok <==> settle_outcome(
                old(self).ledger(),
                message.channel_id,
                message.delivery_tag,
                multiple,
                Settlement::Acked,
            ) is Ok,
            settle_outcome(
                old(self).ledger(),
                message.channel_id,
                message.delivery_tag,
                multiple,
                Settlement::Acked,
            ) matches Ok(v) ==> {
                &&& final(self).ledger() == v
                &&& r == Ok::<Acknowledgement, AckError>(
                    Acknowledgement {
                        delivery_tag: message.delivery_tag,
                        multiple,
                        settlement: Settlement::Acked,
                    },
                )
            },
            settle_outcome(
                old(self).ledger(),
                message.channel_id,
                message.delivery_tag,
                multiple,
                Settlement::Acked,
            ) matches Err(e) ==> {
                &&& final(self).ledger() == old(self).ledger()
                &&& r == Err::<Acknowledgement, AckError>(e)
            },
    {
        self.settle(message, multiple, Settlement::Acked)
    }

    /// Negatively acknowledges `message` (with `multiple`, every message
    /// below it too); `requeue` hands it back to the queue, otherwise the
    /// broker dead-letters or drops it.
    fn nack(&mut self, message: &RabbitMessage, multiple: bool, requeue: bool) -> (r: Result<
        Acknowledgement,
        AckError,
    >)
        ensures
            final(self).ended() == old(self).ended(),
            r is Ok <==> settle_outcome(
                old(self).ledger(),
                message.channel_id,
                message.delivery_tag,
                multiple,
                nack_settlement(requeue),
            ) is Ok,
            settle_outcome(
                old(self).ledger(),
                message.channel_id,
                message.delivery_tag,
                multiple,
                nack_settlement(requeue),
            ) matches Ok(v) ==> {
                &&& final(self).ledger() == v
                &&& r == Ok::<Acknowledgement, AckError>(
                    Acknowledgement {
                        delivery_tag: message.delivery_tag,
                        multiple,
                        settlement: nack_settlement(requeue),
                    },
                )
            },
            settle_outcome(
                old(self).ledger(),
                message.channel_id,
                message.delivery_tag,
                multiple,
                nack_settlement(requeue),
            ) matches Err(e) ==> {
                &&& final(self).ledger() == old(self).ledger()
                &&& r == Err::<Acknowledgement, AckError>(e)
            },
    {
        let how = settlement_for_nack(requeue);
        self.settle(message, multiple, how)
    }
}

} // verus!
