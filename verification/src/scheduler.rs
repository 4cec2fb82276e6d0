//! The periodic flusher's control state.
//!
//! The flusher is a single-shot timer: while running it emits a flush
//! command each interval.  Its protocol is strict: starting it while it
//! runs, or stopping it while it is stopped, is a caller error — the
//! runtime panics on it — so both transitions require the opposite state.
//! The runtime around the worker owns the actual timer thread; this state
//! machine is what that thread's guard variable obeys.

use vstd::prelude::*;

verus! {

pub struct WriteScheduler {
    running: bool,
}

impl WriteScheduler {
    /// Whether the scheduler is emitting flushes.
    pub closed spec fn spec_running(self) -> bool {
        self.running
    }

    /// A scheduler starts stopped: no flush is emitted before `start`.
    pub fn new() -> (s: WriteScheduler)
        ensures
            !s.spec_running(),
    {
        WriteScheduler { running: false }
    }

    /// Begin emitting.  Calling this on a running scheduler is a protocol
    /// violation.
    pub fn start(&mut self)
        requires
            !old(self).spec_running(),
        ensures
            final(self).spec_running(),
    {
        self.running = true;
    }

    /// Stop emitting.  Calling this on a stopped scheduler is a protocol
    /// violation.
    pub fn stop(&mut self)
        requires
            old(self).spec_running(),
        ensures
            !final(self).spec_running(),
    {
        self.running = false;
    }

    pub fn is_running(&self) -> (r: bool)
        ensures
            r == self.spec_running(),
    {
        self.running
    }
}

} // verus!
