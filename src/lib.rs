//! A broker client core: topology declaration plans, publishing, delivery
//! tracking with acknowledgement rules, and size-or-time batching of
//! deliveries. Network work is left to the caller, who performs the commands
//! these types hand out and feeds back what the broker delivered.
use vstd::prelude::*;

pub mod cli;
pub mod config;
pub mod message_queue;
pub mod message_types;

verus! {

} // verus!
