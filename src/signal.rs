//! The shutdown signal: a one-shot event that the tray fires and the server
//! supervisor awaits.
use std::sync::Arc;
use tokio::sync::Notify;
use vstd::prelude::*;

verus! {

#[verifier::external_type_specification]
#[verifier::external_body]
pub struct ExNotify(tokio::sync::Notify);

/// Relies on `tokio::sync::Notify::new`: a notifier with no stored permit.
pub assume_specification[ tokio::sync::Notify::new ]() -> Notify;

/// Relies on `tokio::sync::Notify::notify_one`: wakes the waiting task, or
/// stores one permit for the next `notified()` when none is waiting.
pub assume_specification[ tokio::sync::Notify::notify_one ](n: &Notify);

/// Relies on `Arc::clone`: a second handle to the same allocation.
#[verifier::external_body]
fn share(a: &Arc<Notify>) -> (r: Arc<Notify>)
    ensures
        r == *a,
{
    Arc::clone(a)
}

/// One step of the signal's model: from `fired`, a fire request leads to the
/// fired state and is a transition exactly when the signal was not yet fired.
pub open spec fn fire_step(fired: bool) -> (bool, bool) {
    (true, !fired)
}

/// The number of not-fired to fired transitions made by `n` fire requests on a
/// signal whose state is `fired`.
pub open spec fn transitions_after(fired: bool, n: nat) -> nat
    decreases n,
{
    if n == 0 {
        0
    } else {
        let (next, moved) = fire_step(fired);
        (if moved { 1nat } else { 0nat }) + transitions_after(next, (n - 1) as nat)
    }
}

/// The state reached by `n` fire requests on a signal whose state is `fired`.
pub open spec fn state_after(fired: bool, n: nat) -> bool
    decreases n,
{
    if n == 0 {
        fired
    } else {
        state_after(fire_step(fired).0, (n - 1) as nat)
    }
}

/// Any number `n >= 1` of fire requests on a fresh signal makes exactly one
/// transition to the fired state, and leaves the signal fired for good.
pub proof fn lemma_fires_transition_once(n: nat)
    requires
        n >= 1,
    ensures
        transitions_after(false, n) == 1,
        state_after(false, n),
        forall|m: nat| m <= n ==> #[trigger] state_after(false, m) == (m >= 1),
{
    lemma_fired_stays_fired(n);
    assert forall|m: nat| m <= n implies #[trigger] state_after(false, m) == (m >= 1) by {
        if m >= 1 {
            lemma_fired_stays_fired(m);
        }
    }
}

/// Once fired, further fire requests make no transition and keep the signal
/// fired; from a fresh signal the first request is the one transition.
pub proof fn lemma_fired_stays_fired(n: nat)
    ensures
        transitions_after(true, n) == 0,
        state_after(true, n),
        n >= 1 ==> transitions_after(false, n) == 1 && state_after(false, n),
    decreases n,
{
    if n > 0 {
        lemma_fired_stays_fired((n - 1) as nat);
    }
}

/// The producer side of the shutdown signal, held by whoever may request a
/// shutdown. The consumer awaits the notifier handed out by `waiter`.
pub struct ShutdownSignal {
    notify: Arc<Notify>,
    fired: bool,
}

impl ShutdownSignal {
    /// Whether a fire request has been made through this signal.
    pub closed spec fn is_fired(&self) -> bool {
        self.fired
    }

    /// The notifier that carries the wake-up to the awaiting side.
    pub closed spec fn channel(&self) -> Arc<Notify> {
        self.notify
    }

    /// A fresh signal, not fired.
    pub fn new() -> (r: ShutdownSignal)
        ensures
            !r.is_fired(),
    {
        ShutdownSignal { notify: Arc::new(Notify::new()), fired: false }
    }

    /// Whether the signal has been fired.
    pub fn fired(&self) -> (r: bool)
        ensures
            r == self.is_fired(),
    {
        self.fired
    }

    /// Requests shutdown. The first request wakes the awaiting side (or leaves
    /// a permit for it); later requests change nothing. Returns whether this
    /// request was the transition to the fired state.
    pub fn fire(&mut self) -> (transitioned: bool)
        ensures
            (final(self).is_fired(), transitioned) == fire_step(old(self).is_fired()),
            final(self).channel() == old(self).channel(),
    {
        if self.fired {
            false
        } else {
            self.notify.notify_one();
            self.fired = true;
            true
        }
    }

    /// A handle on the notifier for the side that awaits the shutdown.
    pub fn waiter(&self) -> (r: Arc<Notify>)
        ensures
            r == self.channel(),
    {
        share(&self.notify)
    }
}

} // verus!
