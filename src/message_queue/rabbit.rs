use vstd::prelude::*;

use crate::message_queue::rabbit::ledger::{settle_outcome, AckError, LedgerView, Settlement};
use crate::message_queue::rabbit::publisher::{is_publication, OutboundMessage};

pub mod chunk_receiver;
pub mod ledger;
pub mod publisher;
pub mod receiver;
pub mod topology;
pub mod window;

verus! {

/// What the broker handed over for one delivery, before it is checked.
/// `delivery_tag` is `None` when the delivery metadata was missing.
pub struct Delivery {
    pub delivery_tag: Option<u64>,
    pub redelivered: bool,
    pub content: Option<Vec<u8>>,
}

/// An inbound message: its payload, the tag the broker gave it on the
/// channel that received it, and whether it was delivered before.
pub struct RabbitMessage {
    pub channel_id: u16,
    pub delivery_tag: u64,
    pub redelivered: bool,
    pub content: Vec<u8>,
}

/// Why an inbound delivery was refused.
#[derive(PartialEq, Eq, Structural, Clone, Copy, Debug)]
pub enum ReceiveError {
    /// The delivery carried no delivery tag.
    MissingDeliveryTag,
    /// The tag was not above every tag seen before on the channel.
    TagNotIncreasing,
}

/// The payload of a delivery: an absent body is an empty one.
pub open spec fn delivery_payload(d: Delivery) -> Seq<u8> {
    match d.content {
        Some(c) => c@,
        None => Seq::empty(),
    }
}

/// Whether `m` is delivery `d` as received on channel `channel_id`.
pub open spec fn is_delivered_message(channel_id: u16, d: Delivery, m: RabbitMessage) -> bool {
    &&& d.delivery_tag == Some(m.delivery_tag)
    &&& m.channel_id == channel_id
    &&& m.redelivered == d.redelivered
    &&& m.content@ == delivery_payload(d)
}

/// A message can be settled only on the channel that received it: on any
/// other channel every settlement of it is refused, and nothing changes.
pub proof fn lemma_cross_channel_settlement_refused(
    producer: u16,
    d: Delivery,
    m: RabbitMessage,
    other: LedgerView,
    multiple: bool,
    how: Settlement,
)
    requires
        is_delivered_message(producer, d, m),
        other.channel_id != producer,
    ensures
        settle_outcome(other, m.channel_id, m.delivery_tag, multiple, how) == Err::<LedgerView, AckError>(
            AckError::WrongChannel,
        ),
{
}

/// The bytes published are the bytes received: when the broker delivers the
/// content of a publication of `payload`, the message received carries
/// `payload` unchanged.
pub proof fn lemma_payload_round_trip(
    exchange: Seq<char>,
    routing_key: Seq<char>,
    payload: Seq<u8>,
    o: OutboundMessage,
    d: Delivery,
    channel_id: u16,
    m: RabbitMessage,
)
    requires
        is_publication(exchange, routing_key, payload, o),
        delivery_payload(d) == o.content@,
        is_delivered_message(channel_id, d, m),
    ensures
        m.content@ == payload,
{
}

impl RabbitMessage {
    /// Checks the delivery metadata and builds the message received on
    /// channel `channel_id`.
    pub fn from_delivery(channel_id: u16, delivery: Delivery) -> (r: Result<RabbitMessage, ReceiveError>)
        ensures
            r is Err <==> delivery.delivery_tag is None,
            r is Err ==> r == Err::<RabbitMessage, ReceiveError>(ReceiveError::MissingDeliveryTag),
            r matches Ok(m) ==> is_delivered_message(channel_id, delivery, m),
    {
        match delivery.delivery_tag {
            None => Err(ReceiveError::MissingDeliveryTag),
            Some(tag) => {
                let content = match delivery.content {
                    Some(c) => c,
                    None => Vec::new(),
                };
                Ok(RabbitMessage { channel_id, delivery_tag: tag, redelivered: delivery.redelivered, content })
            },
        }
    }
}

} // verus!
