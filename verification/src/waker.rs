//! The cross-thread wake signal.
//!
//! Engine worker threads may request, at any time and from any thread, that
//! the GUI main loop wake up and run a flush tick. The signal is
//! *coalescing*: the receiver only needs to know "there is new work", so
//! any number of wake requests sent before the next drain collapse into a
//! single pending flush.
//!
//! [`WakeSignal`] is the state of that notification. The unverified shell
//! wraps one signal in its own mutual-exclusion primitive, hands a cloned
//! handle to each engine worker thread, and parks the main loop on it; the
//! transitions the handles perform are exactly [`WakeSignal::wake`],
//! [`WakeSignal::drain`] and [`WakeSignal::close`].

use vstd::prelude::*;

verus! {

/// A coalescing, unit-valued wake notification.
///
/// `pending` records whether at least one wake request has arrived since
/// the last drain. `closed` records that the receive side is gone — the
/// process is shutting down — after which wake requests are swallowed
/// rather than treated as errors.
#[derive(Clone, Copy, Debug, PartialEq, Eq, Structural)]
pub struct WakeSignal {
    pub pending: bool,
    pub closed: bool,
}

impl WakeSignal {
    /// The state after one wake request: a pending flush is recorded,
    /// unless the receiver is already gone, in which case the request is
    /// discarded (shutdown is not an error for the sender).
    pub open spec fn after_wake(self) -> WakeSignal {
        if self.closed {
            self
        } else {
            WakeSignal { pending: true, ..self }
        }
    }

    /// The state after the receiver drains the signal: nothing pending.
    pub open spec fn after_drain(self) -> WakeSignal {
        WakeSignal { pending: false, ..self }
    }

    /// Whether a drain performed in this state runs a flush tick.
    pub open spec fn drain_ticks(self) -> bool {
        self.pending
    }

    /// A fresh signal: nothing pending, receiver alive.
    pub fn new() -> (s: WakeSignal)
        ensures
            !s.pending,
            !s.closed,
    {
        WakeSignal { pending: false, closed: false }
    }

    /// One wake request. Callable any number of times; never blocks and
    /// never fails: a request after shutdown is silently discarded.
    pub fn wake(&mut self)
        ensures
            *final(self) == old(self).after_wake(),
    {
        if !self.closed {
            self.pending = true;
        }
    }

    /// The receiver consumes the signal. Returns whether a flush tick is
    /// owed; afterwards nothing is pending, so the next drain without new
    /// wake requests runs no further tick.
    pub fn drain(&mut self) -> (ticked: bool)
        requires
            !old(self).closed,
        ensures
            *final(self) == old(self).after_drain(),
            ticked == old(self).drain_ticks(),
    {
        let ticked = self.pending;
        self.pending = false;
        ticked
    }

    /// The receive side is torn down when the main loop exits; wake
    /// requests arriving later are swallowed by [`WakeSignal::wake`].
    pub fn close(&mut self)
        ensures
            final(self).closed,
            final(self).pending == old(self).pending,
    {
        self.closed = true;
    }
}

/// The state after `n` wake requests in a row.
pub open spec fn after_wakes(s: WakeSignal, n: nat) -> WakeSignal
    decreases n,
{
    if n == 0 {
        s
    } else {
        after_wakes(s, (n - 1) as nat).after_wake()
    }
}

/// Coalescing law: for any positive number of wake requests delivered to a
/// live signal before the receiver next drains it, exactly one flush tick
/// results — the next drain runs a tick, and a further drain with no new
/// requests runs none. So N sends before a drain yield at least one tick
/// and need not yield N.
pub proof fn lemma_wake_coalescing(s: WakeSignal, n: nat)
    requires
        !s.closed,
        n >= 1,
    ensures
        after_wakes(s, n).drain_ticks(),
        !after_wakes(s, n).after_drain().drain_ticks(),
    decreases n,
{
    lemma_wakes_preserve_closed(s, n);
    if n > 1 {
        lemma_wake_coalescing(s, (n - 1) as nat);
    }
}

/// Wake requests never change whether the receive side is alive.
pub proof fn lemma_wakes_preserve_closed(s: WakeSignal, n: nat)
    ensures
        after_wakes(s, n).closed == s.closed,
    decreases n,
{
    if n > 0 {
        lemma_wakes_preserve_closed(s, (n - 1) as nat);
    }
}

} // verus!
