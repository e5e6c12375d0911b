use vstd::prelude::*;

pub mod rabbit;

use crate::message_queue::rabbit::ledger::{Acknowledgement, AckError};
use crate::message_queue::rabbit::publisher::OutboundMessage;
use crate::message_queue::rabbit::{Delivery, ReceiveError};

verus! {

/// A sender bound to one destination. `publish` turns a payload into the
/// message to send; it carries the payload unchanged.
pub trait Publisher {
    /// The exchange and routing key that every publication goes to.
    spec fn target(&self) -> (Seq<char>, Seq<char>);

    fn publish(&self, message: Vec<u8>) -> (r: OutboundMessage)
        ensures
            r.content@ == message@,
            r.exchange@ == self.target().0,
            r.routing_key@ == self.target().1,
            r.persistent,
    ;
}

/// A subscription that yields messages one at a time and settles them.
/// `receive` takes what the subscription produced next (`None` once it has
/// ended) and returns the message for the application, if any.
pub trait Receiver {
    type Message;

    /// What holds of the receiver in every state it can reach.
    spec fn well_formed(&self) -> bool;

    fn receive(&mut self, incoming: Option<Delivery>) -> (r: Result<Option<Self::Message>, ReceiveError>)
        requires
            old(self).well_formed(),
        ensures
            final(self).well_formed(),
    ;

    fn ack(&mut self, message: &Self::Message, multiple: bool) -> (r: Result<Acknowledgement, AckError>)
        requires
            old(self).well_formed(),
        ensures
            final(self).well_formed(),
    ;

    fn nack(&mut self, message: &Self::Message, multiple: bool, requeue: bool) -> (r: Result<
        Acknowledgement,
        AckError,
    >)
        requires
            old(self).well_formed(),
        ensures
            final(self).well_formed(),
    ;
}

/// What happened on a batched subscription since it was last asked.
pub enum ChunkEvent {
    /// A delivery arrived at `now_ms`.
    Delivered { delivery: Delivery, now_ms: u64 },
    /// The clock reached `now_ms` with no delivery.
    Tick { now_ms: u64 },
    /// The subscription ended.
    Ended,
}

/// The answer of a batched subscription to an event.
pub enum ChunkPoll<M> {
    /// No batch is ready yet.
    Pending,
    Batch(Vec<M>),
    /// The subscription ended and every batch has been handed out.
    Finished,
}

/// A subscription that yields messages in batches and settles them one by
/// one or together.
pub trait ChunkReceiver {
    type Message;

    /// What holds of the receiver in every state it can reach.
    spec fn well_formed(&self) -> bool;

    fn receive(&mut self, event: ChunkEvent) -> (r: Result<ChunkPoll<Self::Message>, ReceiveError>)
        requires
            old(self).well_formed(),
        ensures
            final(self).well_formed(),
    ;

    fn ack(&mut self, message: &Self::Message, multiple: bool) -> (r: Result<Acknowledgement, AckError>)
        requires
            old(self).well_formed(),
        ensures
            final(self).well_formed(),
    ;

    fn nack(&mut self, message: &Self::Message, multiple: bool, requeue: bool) -> (r: Result<
        Acknowledgement,
        AckError,
    >)
        requires
            old(self).well_formed(),
        ensures
            final(self).well_formed(),
    ;
}

} // verus!
