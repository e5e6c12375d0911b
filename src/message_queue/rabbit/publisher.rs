use vstd::prelude::*;

use crate::message_queue::Publisher;

verus! {

/// A message ready to be sent: where it goes, what it carries, and whether
/// the broker keeps it across a restart.
pub struct OutboundMessage {
    pub exchange: String,
    pub routing_key: String,
    pub content: Vec<u8>,
    pub persistent: bool,
}

/// Whether `o` is the publication of `payload` to `exchange` with
/// `routing_key`: the payload unchanged, marked persistent.
pub open spec fn is_publication(exchange: Seq<char>, routing_key: Seq<char>, payload: Seq<u8>, o: OutboundMessage) -> bool {
    &&& o.exchange@ == exchange
    &&& o.routing_key@ == routing_key
    &&& o.content@ == payload
    &&& o.persistent
}

/// Publishes to one exchange with one routing key, over its own channel.
pub struct RabbitPublisher {
    exchange: String,
    routing_key: String,
}

impl RabbitPublisher {
    pub closed spec fn exchange_view(&self) -> Seq<char> {
        self.exchange@
    }

    pub closed spec fn routing_key_view(&self) -> Seq<char> {
        self.routing_key@
    }

    pub fn new(exchange: &str, routing_key: &str) -> (r: RabbitPublisher)
        ensures
            r.exchange_view() == exchange@,
            r.routing_key_view() == routing_key@,
    {
        RabbitPublisher { exchange: exchange.to_owned(), routing_key: routing_key.to_owned() }
    }

    pub fn exchange(&self) -> (r: &str)
        ensures
            r@ == self.exchange_view(),
    {
        self.exchange.as_str()
    }

    pub fn routing_key(&self) -> (r: &str)
        ensures
            r@ == self.routing_key_view(),
    {
        self.routing_key.as_str()
    }
}

impl Publisher for RabbitPublisher {
    closed spec fn target(&self) -> (Seq<char>, Seq<char>) {
        (self.exchange@, self.routing_key@)
    }

    /// The persistent message that carries `message` to this publisher's
    /// exchange and routing key.
    fn publish(&self, message: Vec<u8>) -> (r: OutboundMessage)
        ensures
            is_publication(self.exchange_view(), self.routing_key_view(), message@, r),
    {
        let exchange = self.exchange.clone();
        let routing_key = self.routing_key.clone();
        OutboundMessage { exchange, routing_key, content: message, persistent: true }
    }
}

} // verus!
