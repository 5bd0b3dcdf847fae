//! The shutdown coordinator: turns operating-system interrupts into
//! the single one-shot shutdown signal.

use vstd::prelude::*;

verus! {

/// What one interrupt does to the coordinator: the first moves it
/// from waiting to signaled and sends the one-shot signal; any later
/// interrupt finds it already signaled and sends nothing.
pub open spec fn interrupt_step(signaled: bool) -> (bool, bool) {
    (true, !signaled)
}

/// How many signals a run of `n` interrupts sends, starting from a
/// coordinator in the given state.
pub open spec fn signals_sent(signaled: bool, n: nat) -> nat
    decreases n,
{
    if n == 0 {
        0
    } else {
        (if interrupt_step(signaled).1 {
            1nat
        } else {
            0nat
        }) + signals_sent(interrupt_step(signaled).0, (n - 1) as nat)
    }
}

/// A signaled coordinator never sends again.
pub proof fn lemma_signaled_sends_nothing(n: nat)
    ensures
        signals_sent(true, n) == 0,
    decreases n,
{
    if n > 0 {
        lemma_signaled_sends_nothing((n - 1) as nat);
    }
}

/// The signal is one-shot: however many interrupts arrive, a
/// coordinator that starts out waiting sends at most one signal, and
/// sends exactly one as soon as any interrupt has arrived.
pub proof fn lemma_at_most_one_signal(n: nat)
    ensures
        signals_sent(false, n) <= 1,
        n > 0 ==> signals_sent(false, n) == 1,
{
    if n > 0 {
        lemma_signaled_sends_nothing((n - 1) as nat);
    }
}

/// The coordinator: waits for the first interrupt, then stays
/// signaled for good.
pub struct ShutdownCoordinator {
    signaled: bool,
}

impl View for ShutdownCoordinator {
    type V = bool;

    closed spec fn view(&self) -> bool {
        self.signaled
    }
}

impl ShutdownCoordinator {
    /// A fresh coordinator: still waiting.
    pub fn new() -> (r: ShutdownCoordinator)
        ensures
            !r@,
    {
        ShutdownCoordinator { signaled: false }
    }

    /// Takes one interrupt. Returns whether the one-shot signal is to
    /// be sent now: true exactly on the first interrupt.
    pub fn on_interrupt(&mut self) -> (send: bool)
        ensures
            (final(self)@, send) == interrupt_step(old(self)@),
            send == !old(self)@,
            final(self)@,
    {
        let send = !self.signaled;
        self.signaled = true;
        send
    }
}

} // verus!
