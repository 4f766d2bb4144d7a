//! The auto-save scheduler: a cancellable, single-shot timer. The delay
//! itself elapses in the front end's event loop; this registry owns the
//! handles, so that at most one timer is ever outstanding, a handle is
//! never reused, and cancelling a handle that already fired or was already
//! cancelled is a harmless no-op.

use vstd::prelude::*;

verus! {

/// The mathematical image of the scheduler.
#[verifier::ext_equal]
pub ghost struct SchedV {
    pub next_handle: int,
    pub live: Option<int>,
}

/// The timer registry. `live` holds the handle of the one outstanding
/// timer, if any; `next_handle` has never been given out.
pub struct Scheduler {
    next_handle: u64,
    live: Option<u64>,
}

impl View for Scheduler {
    type V = SchedV;

    closed spec fn view(&self) -> SchedV {
        SchedV {
            next_handle: self.next_handle as int,
            live: match self.live {
                Some(h) => Some(h as int),
                None => None,
            },
        }
    }
}

impl Scheduler {
    /// A registry with no outstanding timer.
    pub fn new() -> (s: Scheduler)
        ensures
            s@.live is None,
            s@.next_handle == 0,
    {
        Scheduler { next_handle: 0, live: None }
    }

    /// Registers the one outstanding timer and hands back its fresh
    /// handle. The previous timer, if any, must have been cancelled first:
    /// only one may be live.
    pub fn schedule(&mut self) -> (h: u64)
        requires
            old(self)@.live is None,
            old(self)@.next_handle < u64::MAX,
        ensures
            h as int == old(self)@.next_handle,
            final(self)@.live == Some(h as int),
            final(self)@.next_handle == old(self)@.next_handle + 1,
    {
        let h = self.next_handle;
        self.next_handle = self.next_handle + 1;
        self.live = Some(h);
        h
    }

    /// Removes the pending timer if `h` is its handle; a no-op when that
    /// timer already fired or was already cancelled.
    pub fn cancel(&mut self, h: u64)
        ensures
            final(self)@.next_handle == old(self)@.next_handle,
            final(self)@.live == if old(self)@.live == Some(h as int) {
                Option::<int>::None
            } else {
                old(self)@.live
            },
    {
        match self.live {
            Some(x) => {
                if x == h {
                    self.live = None;
                }
            },
            None => {},
        }
    }

    /// Records that the timer `h` went off: reports whether it was still
    /// live, and if so retires it.
    pub fn acknowledge_fire(&mut self, h: u64) -> (live: bool)
        ensures
            live == (old(self)@.live == Some(h as int)),
            final(self)@.next_handle == old(self)@.next_handle,
            final(self)@.live == if live {
                Option::<int>::None
            } else {
                old(self)@.live
            },
    {
        match self.live {
            Some(x) => {
                if x == h {
                    self.live = None;
                    true
                } else {
                    false
                }
            },
            None => false,
        }
    }
}

} // verus!
