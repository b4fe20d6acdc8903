//! The flow-control gate: a wait side that suspends the producing thread for
//! at most a bounded time, and a signal side that wakes it from any thread.
use vstd::prelude::*;

verus! {

/// crossbeam's `Parker`, the wait side of a thread-parking token, held opaquely.
#[verifier::external_type_specification]
#[verifier::external_body]
pub struct ExParker(crossbeam::sync::Parker);

/// crossbeam's `Unparker`, the handle that makes a `Parker`'s token available, held opaquely.
#[verifier::external_type_specification]
#[verifier::external_body]
pub struct ExUnparker(crossbeam::sync::Unparker);

/// Relies on `Parker::new`: a parker whose token is absent.
pub assume_specification[ crossbeam::sync::Parker::new ]() -> crossbeam::sync::Parker;

/// Relies on `Parker::unparker`: a borrow of the unparker paired with this parker.
pub assume_specification[ crossbeam::sync::Parker::unparker ](
    p: &crossbeam::sync::Parker,
) -> &crossbeam::sync::Unparker;

/// Relies on `Unparker::clone`: another handle onto the same parker.
pub assume_specification[ <crossbeam::sync::Unparker as Clone>::clone ](
    u: &crossbeam::sync::Unparker,
) -> crossbeam::sync::Unparker;

/// Wait side of the flow gate, owned by the producing thread.
pub struct FlowGate {
    parker: crossbeam::sync::Parker,
    /// Timeouts, in milliseconds, of the parks that this flow gate has made.
    parks: Ghost<Seq<u64>>,
}

/// Signal side of the flow gate, shared with the thread that reports deliveries.
pub struct GateSignal {
    unparker: crossbeam::sync::Unparker,
    /// The parker that this signal wakes.
    parker: Ghost<crossbeam::sync::Parker>,
    /// Number of times this handle has unparked its parker.
    sent: Ghost<nat>,
}

impl FlowGate {
    /// The parker on which this flow gate waits.
    pub closed spec fn parker_view(&self) -> crossbeam::sync::Parker {
        self.parker
    }

    /// Timeouts, in milliseconds, of the parks made so far, oldest first.
    pub closed spec fn parks(&self) -> Seq<u64> {
        self.parks@
    }

    /// A gate on which no park has happened yet and no signal is pending.
    pub fn new() -> (r: FlowGate)
        ensures
            r.parks() == Seq::<u64>::empty(),
    {
        FlowGate { parker: crossbeam::sync::Parker::new(), parks: Ghost(Seq::empty()) }
    }

    /// A signal handle that wakes this flow gate.
    pub fn signal_handle(&self) -> (r: GateSignal)
        ensures
            r.gate() == self.parker_view(),
            r.sent_count() == 0,
    {
        GateSignal {
            unparker: self.parker.unparker().clone(),
            parker: Ghost(self.parker),
            sent: Ghost(0),
        }
    }

    /// Relies on `Parker::park_timeout`: returns once the token was consumed or
    /// the timeout elapsed. With a zero timeout it consumes a pending token and
    /// returns at once.
    #[verifier::external_body]
    fn park_for_millis(&mut self, millis: u64)
        ensures
            final(self).parks() == old(self).parks().push(millis),
            final(self).parker_view() == old(self).parker_view(),
    {
        self.parker.park_timeout(std::time::Duration::from_millis(millis))
    }

    /// Suspends the calling thread until a signal arrives or `millis`
    /// milliseconds elapse, whichever comes first. A signal that was sent
    /// before this call started is dropped: signals are not queued, so the
    /// caller must re-check its condition after every wait.
    pub fn wait_with_timeout(&mut self, millis: u64)
        ensures
            final(self).parks() == old(self).parks().push(0).push(millis),
            final(self).parker_view() == old(self).parker_view(),
    {
        // Consume a signal left over from before this wait.
        self.park_for_millis(0);
        self.park_for_millis(millis);
    }
}

impl GateSignal {
    /// The parker of the flow gate that this signal wakes.
    pub closed spec fn gate(&self) -> crossbeam::sync::Parker {
        self.parker@
    }

    /// Number of signals sent through this handle.
    pub closed spec fn sent_count(&self) -> nat {
        self.sent@
    }

    /// Relies on `Unparker::unpark`: makes the token available and wakes the
    /// parked thread, if any; it never blocks for long and never panics.
    /// Wakes the thread waiting on the flow gate, if any. A signal that finds
    /// no waiter is dropped by the next wait. Safe to call from any thread.
    #[verifier::external_body]
    pub fn signal(&mut self)
        ensures
            final(self).sent_count() == old(self).sent_count() + 1,
            final(self).gate() == old(self).gate(),
    {
        self.unparker.unpark()
    }
}

} // verus!
