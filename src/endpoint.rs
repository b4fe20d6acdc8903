//! The producing side of a Kafka output endpoint: the topic, the ceiling on
//! unacknowledged messages, and the flow gate that holds a push back while the
//! ceiling is reached.
use vstd::prelude::*;
use crate::config::KafkaOutputConfig;
use crate::gate::{FlowGate, GateSignal};

verus! {

/// Longest time, in milliseconds, that a push waits before it looks at the
/// in-flight count again.
pub const OUTPUT_POLLING_INTERVAL_MS: u64 = 100;

/// Whether a new message may be sent while `in_flight` messages are
/// unacknowledged and the ceiling is `max_inflight`: once the count reaches
/// the ceiling, a push waits.
pub open spec fn admits(in_flight: int, max_inflight: int) -> bool {
    in_flight < max_inflight
}

/// Flow control of an endpoint that writes to one Kafka topic.
pub struct KafkaOutputEndpoint {
    topic: String,
    max_inflight_messages: u32,
    gate: FlowGate,
}

impl KafkaOutputEndpoint {
    pub closed spec fn topic_view(&self) -> Seq<char> {
        self.topic@
    }

    pub closed spec fn ceiling(&self) -> u32 {
        self.max_inflight_messages
    }

    /// The parker of the flow gate that holds this endpoint's pushes back.
    pub closed spec fn gate_parker(&self) -> crossbeam::sync::Parker {
        self.gate.parker_view()
    }

    /// Timeouts, in milliseconds, of the parks that pushes on this endpoint
    /// have made while waiting for capacity.
    pub closed spec fn gate_parks(&self) -> Seq<u64> {
        self.gate.parks()
    }

    /// An endpoint for the topic and ceiling of `config`, together with the
    /// signal that delivery notifications use to wake it.
    pub fn new(config: &KafkaOutputConfig) -> (r: (KafkaOutputEndpoint, GateSignal))
        ensures
            r.0.topic_view() == config.topic@,
            r.0.ceiling() == config.max_inflight_messages,
            r.0.gate_parks() == Seq::<u64>::empty(),
            r.1.sent_count() == 0,
            r.1.gate() == r.0.gate_parker(),
    {
        let gate = FlowGate::new();
        let signal = gate.signal_handle();
        let ep = KafkaOutputEndpoint {
            topic: config.topic.clone(),
            max_inflight_messages: config.max_inflight_messages,
            gate,
        };
        (ep, signal)
    }

    /// The topic that this endpoint writes to.
    pub fn topic(&self) -> (r: &String)
        ensures
            r@ == self.topic_view(),
    {
        &self.topic
    }

    /// The ceiling on unacknowledged messages.
    pub fn max_inflight_messages(&self) -> (r: u32)
        ensures
            r == self.ceiling(),
    {
        self.max_inflight_messages
    }

    /// Whether a message may be sent now that `in_flight` messages are
    /// unacknowledged: the count must be below the ceiling.
    pub fn has_capacity(&self, in_flight: i32) -> (r: bool)
        ensures
            r == admits(in_flight as int, self.ceiling() as int),
    {
        (in_flight as i64) < (self.max_inflight_messages as i64)
    }

    /// One step of the wait that precedes a push. Returns `true` at once,
    /// without waiting, when `in_flight` is below the ceiling.
    /// Otherwise waits for a delivery signal, at most one polling interval,
    /// and returns `false`: the caller reads the in-flight count again and
    /// repeats the step.
    pub fn wait_for_capacity(&mut self, in_flight: i32) -> (ready: bool)
        ensures
            ready == admits(in_flight as int, old(self).ceiling() as int),
            final(self).gate_parks() == if ready {
                old(self).gate_parks()
            } else {
                old(self).gate_parks().push(0).push(OUTPUT_POLLING_INTERVAL_MS)
            },
            final(self).topic_view() == old(self).topic_view(),
            final(self).ceiling() == old(self).ceiling(),
            final(self).gate_parker() == old(self).gate_parker(),
    {
        if self.has_capacity(in_flight) {
            true
        } else {
            self.gate.wait_with_timeout(OUTPUT_POLLING_INTERVAL_MS);
            false
        }
    }
}

} // verus!
