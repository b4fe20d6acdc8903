//! An output endpoint that streams byte buffers to one Kafka topic while it
//! bounds the number of messages that the broker has not acknowledged yet.
use vstd::prelude::*;

pub mod config;
pub mod delivery;
pub mod endpoint;
pub mod gate;
pub mod udf;

verus! {

/// The output transport that writes to Kafka topics.
pub struct KafkaOutputTransport;

impl KafkaOutputTransport {
    /// The name under which the transport is registered.
    pub fn name(&self) -> (r: &'static str)
        ensures
            r@ == "kafka"@,
    {
        "kafka"
    }
}

} // verus!
