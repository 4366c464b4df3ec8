//! Lifecycle hooks: the handshake, cancellation, and shutdown on a signal.
use vstd::prelude::*;
use crate::message::{CancelledNotification, Notification};

verus! {

/// Hook run when the process is asked to terminate.
pub fn graceful_shutdown() {
}

/// Hook run when the client reports that the handshake is complete.
pub fn notifications_initialized() {
}

/// Hook run when the client cancels a request. No work is in flight while
/// a notification is read, so there is nothing to abort.
pub fn notifications_cancelled(_params: CancelledNotification) {
}

/// Runs the hook of a notification.
pub fn handle_notification(n: Notification) {
    match n {
        Notification::Initialized => notifications_initialized(),
        Notification::Cancelled(params) => notifications_cancelled(params),
        Notification::Ignored => {},
    }
}

/// Makes sure that the shutdown hook runs once, however many termination
/// signals arrive.
pub struct ShutdownLatch {
    fired: bool,
}

/// Whether a latch in state `fired` runs the hook on a signal, and its next state.
pub open spec fn latch_step(fired: bool) -> (bool, bool) {
    (!fired, true)
}

/// How many times the hook runs over `n` signals, from state `fired`.
pub open spec fn hook_runs(fired: bool, n: nat) -> nat
    decreases n,
{
    if n == 0 {
        0
    } else {
        let (run, next) = latch_step(fired);
        (if run { 1nat } else { 0nat }) + hook_runs(next, (n - 1) as nat)
    }
}

impl ShutdownLatch {
    /// Whether the hook has run.
    pub closed spec fn has_fired(&self) -> bool {
        self.fired
    }

    /// A latch whose hook has not run.
    pub fn new() -> (r: ShutdownLatch)
        ensures
            !r.has_fired(),
    {
        ShutdownLatch { fired: false }
    }

    /// Records a signal; returns whether the hook is to run now.
    pub fn on_signal(&mut self) -> (run: bool)
        ensures
            (run, final(self).has_fired()) == latch_step(old(self).has_fired()),
    {
        let run = !self.fired;
        self.fired = true;
        run
    }
}

/// However many signals arrive, the shutdown hook runs at most once, and
/// exactly once where at least one arrives.
pub proof fn lemma_shutdown_runs_once(n: nat)
    ensures
        hook_runs(false, n) == if n == 0 { 0nat } else { 1nat },
{
    if n > 0 {
        lemma_fired_runs_none((n - 1) as nat);
    }
}

proof fn lemma_fired_runs_none(n: nat)
    ensures
        hook_runs(true, n) == 0,
    decreases n,
{
    if n > 0 {
        lemma_fired_runs_none((n - 1) as nat);
    }
}

} // verus!
