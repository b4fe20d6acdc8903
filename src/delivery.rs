//! Handling of the asynchronous delivery notifications of the Kafka client.
use vstd::prelude::*;
use crate::gate::GateSignal;

verus! {

/// Final outcome of one record handed to the Kafka client.
#[derive(Clone, Copy, Debug, PartialEq, Eq, Structural)]
pub enum DeliveryOutcome {
    /// The broker acknowledged the record.
    Delivered,
    /// The client gave up on the record.
    Failed,
}

/// A delivery failure to pass on to the controller's error callback.
#[derive(Clone, Copy, Debug, PartialEq, Eq, Structural)]
pub struct AsyncErrorReport {
    /// Whether the controller should treat the error as fatal.
    pub is_fatal: bool,
}

/// What a delivery outcome asks of the controller's error callback: one
/// non-fatal report for a failure, nothing for a success.
pub open spec fn report_for(outcome: DeliveryOutcome) -> Option<AsyncErrorReport> {
    match outcome {
        DeliveryOutcome::Delivered => None,
        DeliveryOutcome::Failed => Some(AsyncErrorReport { is_fatal: false }),
    }
}

/// Receives the delivery notifications of the Kafka client and wakes the
/// endpoint, whose in-flight count may have dropped.
pub struct KafkaOutputContext {
    signal: GateSignal,
}

impl KafkaOutputContext {
    /// The signal that this context sends on every delivery.
    pub closed spec fn gate_signal(&self) -> GateSignal {
        self.signal
    }

    pub fn new(signal: GateSignal) -> (r: KafkaOutputContext)
        ensures
            r.gate_signal() == signal,
    {
        KafkaOutputContext { signal }
    }

    /// First step of handling the outcome of one record: the report that the
    /// error callback must receive, if any. The caller runs the callback and
    /// then completes the handling with [`Self::delivery`].
    pub fn report(&self, outcome: DeliveryOutcome) -> (r: Option<AsyncErrorReport>)
        ensures
            r == report_for(outcome),
    {
        match outcome {
            DeliveryOutcome::Delivered => None,
            DeliveryOutcome::Failed => Some(AsyncErrorReport { is_fatal: false }),
        }
    }

    /// Last step of handling the outcome of one record, after the error
    /// callback has run: signals the flow gate exactly once, whatever the
    /// outcome.
    pub fn delivery(&mut self)
        ensures
            final(self).gate_signal().sent_count() == old(self).gate_signal().sent_count() + 1,
            final(self).gate_signal().gate() == old(self).gate_signal().gate(),
    {
        // Capacity depends only on the in-flight count, which drops on both
        // outcomes, so the waiting side is woken either way.
        self.signal.signal();
    }
}

} // verus!
