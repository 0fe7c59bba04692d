//! The drain coordinator: a single-fire shutdown broadcast plus an
//! outstanding-work count.
//!
//! Listener loops ask `try_accept` before taking a new connection and stop
//! once the signal has fired; handlers retained before the signal run to
//! natural completion and are released on every exit path. Shutdown is
//! complete only when the signal has fired and no retained work remains.

use vstd::prelude::*;

verus! {

/// The coordinator's whole state: whether shutdown was requested, and how
/// many retained units of work are still in flight.
#[derive(Clone, Copy, Debug, PartialEq, Eq, Structural)]
pub struct Drain {
    pub signaled: bool,
    pub retained: u64,
}

pub open spec fn spec_signal(d: Drain) -> Drain {
    Drain { signaled: true, retained: d.retained }
}

pub open spec fn spec_try_accept(d: Drain) -> (Drain, bool) {
    if d.signaled {
        (d, false)
    } else {
        (Drain { signaled: d.signaled, retained: (d.retained + 1) as u64 }, true)
    }
}

pub open spec fn spec_release(d: Drain) -> Drain {
    Drain { signaled: d.signaled, retained: (d.retained - 1) as u64 }
}

pub open spec fn spec_drained(d: Drain) -> bool {
    d.signaled && d.retained == 0
}

impl Drain {
    /// A fresh coordinator: shutdown not requested, nothing in flight.
    pub fn new() -> (r: Drain)
        ensures
            !r.signaled,
            r.retained == 0,
    {
        Drain { signaled: false, retained: 0 }
    }

    /// Requests shutdown. Triggering is idempotent: the first call flips
    /// the broadcast state and a second call is a no-op; in-flight work is
    /// never discarded by it.
    pub fn signal(&mut self)
        ensures
            *final(self) == spec_signal(*old(self)),
    {
        self.signaled = true;
    }

    /// What every watcher observes: whether shutdown has been requested.
    pub fn watch(&self) -> (r: bool)
        ensures
            r == self.signaled,
    {
        self.signaled
    }

    /// An acceptance path asks to take on — and retain — one new unit of
    /// work. It is granted if and only if shutdown has not been requested;
    /// after the signal, intake is refused and the state is unchanged.
    pub fn try_accept(&mut self) -> (accepted: bool)
        requires
            old(self).retained < u64::MAX,
        ensures
            (*final(self), accepted) == spec_try_accept(*old(self)),
            accepted == !old(self).signaled,
    {
        if self.signaled {
            false
        } else {
            self.retained = self.retained + 1;
            true
        }
    }

    /// A retained unit of work has finished (on any exit path, success or
    /// failure) and no longer counts against shutdown completion.
    pub fn release(&mut self)
        requires
            old(self).retained > 0,
        ensures
            *final(self) == spec_release(*old(self)),
    {
        self.retained = self.retained - 1;
    }

    /// Whether the coordinator may report shutdown complete: the signal
    /// has fired and every retained unit has finished.
    pub fn is_drained(&self) -> (r: bool)
        ensures
            r == spec_drained(*self),
    {
        self.signaled && self.retained == 0
    }
}

/// Triggering shutdown twice is the same as triggering it once.
pub proof fn lemma_signal_idempotent(d: Drain)
    ensures
        spec_signal(spec_signal(d)) == spec_signal(d),
{
}

/// After the signal fires, no new connection is accepted, while work
/// retained before the signal keeps the coordinator incomplete until it is
/// released: with one unit in flight, completion is reported exactly after
/// that unit finishes.
pub proof fn lemma_drain_cooperative(d: Drain)
    requires
        d.retained > 0,
    ensures
        !spec_try_accept(spec_signal(d)).1,
        spec_try_accept(spec_signal(d)).0 == spec_signal(d),
        !spec_drained(spec_signal(d)),
        spec_drained(spec_release(spec_signal(d))) <==> d.retained == 1,
{
}

} // verus!
