//! The exporter's lifecycle: accepting connections until the shutdown
//! signal arrives, then draining in-flight requests and stopping.

use vstd::prelude::*;

verus! {

/// One event the exporter reacts to.
pub enum ServerEvent {
    /// The shutdown signal arrived.
    Shutdown,
    /// A client attempts to connect.
    Connect,
    /// An in-flight request completed.
    Done,
}

/// The exporter's abstract state: whether new connections are still
/// accepted, and how many requests are in flight.
pub open spec fn server_step(s: (bool, nat), e: ServerEvent) -> (bool, nat) {
    match e {
        ServerEvent::Shutdown => (false, s.1),
        ServerEvent::Connect => (
            s.0,
            if s.0 {
                s.1 + 1
            } else {
                s.1
            },
        ),
        ServerEvent::Done => (
            s.0,
            if s.1 > 0 {
                (s.1 - 1) as nat
            } else {
                s.1
            },
        ),
    }
}

/// The state after a whole sequence of events, applied in order.
pub open spec fn server_run(s: (bool, nat), es: Seq<ServerEvent>) -> (bool, nat)
    decreases es.len(),
{
    if es.len() == 0 {
        s
    } else {
        server_run(server_step(s, es[0]), es.skip(1))
    }
}

/// Once the exporter has stopped accepting, no later event makes it
/// accept again: after the shutdown signal, every connection attempt
/// is refused.
pub proof fn lemma_no_accept_after_shutdown(s: (bool, nat), es: Seq<ServerEvent>)
    requires
        !s.0,
    ensures
        !server_run(s, es).0,
    decreases es.len(),
{
    if es.len() > 0 {
        lemma_no_accept_after_shutdown(server_step(s, es[0]), es.skip(1));
    }
}

/// A drained shutdown is bounded: once the signal has arrived, the
/// completions of the requests then in flight, and nothing more,
/// bring the exporter to the terminal state.
pub proof fn lemma_drain_terminates(k: nat)
    ensures
        server_run((false, k), Seq::new(k, |i: int| ServerEvent::Done)) == ((false, 0nat)),
    decreases k,
{
    let es = Seq::new(k, |i: int| ServerEvent::Done);
    if k > 0 {
        let es2 = Seq::new((k - 1) as nat, |i: int| ServerEvent::Done);
        assert(es.skip(1) =~= es2);
        lemma_drain_terminates((k - 1) as nat);
    }
}

/// The exporter's abstract state, one `server_step` per method. It
/// models the accept-and-drain lifecycle that the serving loop
/// follows; the loop itself belongs to the HTTP machinery, which
/// exposes no per-connection events, so nothing feeds this machine at
/// run time.
pub struct ExporterState {
    accepting: bool,
    in_flight: u64,
}

impl View for ExporterState {
    type V = (bool, nat);

    closed spec fn view(&self) -> (bool, nat) {
        (self.accepting, self.in_flight as nat)
    }
}

impl ExporterState {
    /// A freshly bound exporter: accepting, nothing in flight.
    pub fn start() -> (r: ExporterState)
        ensures
            r@ == ((true, 0nat)),
    {
        ExporterState { accepting: true, in_flight: 0 }
    }

    /// The shutdown signal arrived: stop accepting; in-flight
    /// requests are unaffected.
    pub fn on_shutdown(&mut self)
        ensures
            final(self)@ == server_step(old(self)@, ServerEvent::Shutdown),
    {
        self.accepting = false;
    }

    /// A client attempts to connect. The attempt is accepted exactly
    /// when the exporter still accepts, and then joins the requests
    /// in flight.
    pub fn on_connection(&mut self) -> (accepted: bool)
        requires
            old(self)@.1 < u64::MAX,
        ensures
            accepted == old(self)@.0,
            final(self)@ == server_step(old(self)@, ServerEvent::Connect),
    {
        if self.accepting {
            self.in_flight = self.in_flight + 1;
            true
        } else {
            false
        }
    }

    /// An in-flight request completed.
    pub fn on_request_done(&mut self)
        requires
            old(self)@.1 > 0,
        ensures
            final(self)@ == server_step(old(self)@, ServerEvent::Done),
    {
        self.in_flight = self.in_flight - 1;
    }

    /// The exporter may stop: no longer accepting and nothing in
    /// flight.
    pub fn may_exit(&self) -> (r: bool)
        ensures
            r == (!self@.0 && self@.1 == 0),
    {
        !self.accepting && self.in_flight == 0
    }
}

} // verus!
