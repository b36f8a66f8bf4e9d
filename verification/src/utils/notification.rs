//! A lightweight wake-up primitive for the run loop.
//!
//! An interrupt context signals it; the run loop waits on it. Signals are
//! idempotent: however many arrive before a wait, they collapse into a single
//! wake, and the wait consumes exactly that one wake.

use vstd::prelude::*;

verus! {

/// The interrupt-safe producer half of a [`Notification`].
///
/// In the deterministic core a notifier carries no state of its own: an
/// interrupt entry point reports that it signalled its notifier by returning
/// a wake flag, and the scheduler forwards that flag to its notification by
/// calling [`Notification::notify`]. The handle only records that a device
/// was wired to the run loop's notification at all.
#[derive(Debug, Clone, Copy, PartialEq, Eq, Structural)]
pub struct Notifier {
    wired: bool,
}

impl Notifier {
    /// Whether this handle is wired to a notification.
    pub closed spec fn is_wired(self) -> bool {
        self.wired
    }

    /// Creates a handle wired to the run loop's notification.
    pub fn new() -> (notifier: Notifier)
        ensures
            notifier.is_wired(),
    {
        Notifier { wired: true }
    }
}

/// The consumer half of the wake-up primitive: a single pending-wake flag.
///
/// `notify` is non-blocking and idempotent-if-already-signalled; a wait
/// consumes at most one wake however many notifies preceded it.
pub struct Notification {
    signaled: bool,
}

impl Notification {
    /// Whether at least one signal has arrived since the last wait returned.
    pub closed spec fn is_signaled(self) -> bool {
        self.signaled
    }

    /// The notification as it stands after one `notify`.
    pub closed spec fn notified(self) -> Notification {
        Notification { signaled: true }
    }

    /// The notification as it stands after a wait consumed its wake.
    pub closed spec fn waited(self) -> Notification {
        Notification { signaled: false }
    }

    /// Creates a notification with no wake pending.
    pub fn new() -> (notification: Notification)
        ensures
            !notification.is_signaled(),
    {
        Notification { signaled: false }
    }

    /// Hands out a producer handle wired to this notification.
    pub fn notifier(&self) -> (notifier: Notifier)
        ensures
            notifier.is_wired(),
    {
        Notifier::new()
    }

    /// Signals the notification. Safe to call from interrupt context: it
    /// never blocks, and signalling an already-signalled notification leaves
    /// exactly one pending wake.
    pub fn notify(&mut self)
        ensures
            *final(self) == old(self).notified(),
            final(self).is_signaled(),
    {
        self.signaled = true;
    }

    /// Whether a wake is pending, without consuming it.
    pub fn has_pending_wake(&self) -> (pending: bool)
        ensures
            pending == self.is_signaled(),
    {
        self.signaled
    }

    /// Parks the caller until at least one signal has arrived since the last
    /// wait, then consumes that single wake.
    ///
    /// In the deterministic core nothing can signal while the caller waits,
    /// so a wait without a pending wake would never return; such a call is
    /// ruled out instead of modelled.
    pub fn blocking_wait(&mut self)
        requires
            old(self).is_signaled(),
        ensures
            *final(self) == old(self).waited(),
            !final(self).is_signaled(),
    {
        self.signaled = false;
    }

    /// Consumes the pending wake if there is one, reporting whether a wake
    /// was pending. This is the non-parking form of [`Self::blocking_wait`].
    pub fn take_wake(&mut self) -> (woke: bool)
        ensures
            woke == old(self).is_signaled(),
            *final(self) == old(self).waited(),
            !final(self).is_signaled(),
    {
        let woke = self.signaled;
        self.signaled = false;
        woke
    }
}

/// What one signal and one wait leave of a notification: a signal leaves
/// exactly one wake pending, and a wait leaves none.
pub proof fn lemma_wake_transitions(n: Notification)
    ensures
        n.notified().is_signaled(),
        !n.waited().is_signaled(),
{
}

/// Overlapping notifications are idempotent: two signals before a single
/// wait are indistinguishable from one, the wait consumes the one pending
/// wake entirely, and a second wait would find no wake left over.
pub proof fn lemma_notify_idempotent(n: Notification)
    ensures
        n.notified().notified() == n.notified(),
        n.notified().notified().waited() == n.notified().waited(),
        !n.notified().notified().waited().is_signaled(),
{
}

} // verus!
