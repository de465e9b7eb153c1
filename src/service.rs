use vstd::prelude::*;

verus! {

/// The message printed once the service has stopped after a shutdown.
pub const TERMINATION_NOTICE: &'static str = "Received SIGTERM, terminating...";

/// The exit status of a graceful shutdown.
pub const SUCCESS_STATUS: i32 = 0;

/// The lifecycle of the responder.
#[derive(PartialEq, Eq, Structural, Clone, Copy, Debug)]
pub enum ServicePhase {
    /// New requests are admitted.
    Listening,
    /// Shutdown was requested: nothing new is admitted, and requests admitted
    /// earlier run to completion.
    Draining,
    /// Shutdown was requested and every admitted request has completed.
    Terminated,
}

/// The responder's state as a mathematical value.
pub struct ServiceState {
    pub phase: ServicePhase,
    pub in_flight: nat,
}

/// The shape every reachable state has: a terminated service has nothing in
/// flight, and a draining one still has something to finish.
pub open spec fn service_wf(s: ServiceState) -> bool {
    &&& s.phase == ServicePhase::Terminated ==> s.in_flight == 0
    &&& s.phase == ServicePhase::Draining ==> s.in_flight > 0
}

/// The state after a request arrives, and whether it was admitted: only a
/// listening service admits work.
pub open spec fn accept_spec(s: ServiceState) -> (ServiceState, bool) {
    if s.phase == ServicePhase::Listening {
        (ServiceState { phase: s.phase, in_flight: s.in_flight + 1 }, true)
    } else {
        (s, false)
    }
}

/// The state after an admitted request completes, and whether that
/// completion ended the service.
pub open spec fn complete_spec(s: ServiceState) -> (ServiceState, bool) {
    let remaining = (s.in_flight - 1) as nat;
    if s.phase == ServicePhase::Draining && remaining == 0 {
        (ServiceState { phase: ServicePhase::Terminated, in_flight: 0 }, true)
    } else {
        (ServiceState { phase: s.phase, in_flight: remaining }, false)
    }
}

/// The state after the shutdown notification arrives, and whether it ended
/// the service at once. Only the first notification has an effect.
pub open spec fn shutdown_spec(s: ServiceState) -> (ServiceState, bool) {
    if s.phase != ServicePhase::Listening {
        (s, false)
    } else if s.in_flight == 0 {
        (ServiceState { phase: ServicePhase::Terminated, in_flight: 0 }, true)
    } else {
        (ServiceState { phase: ServicePhase::Draining, in_flight: s.in_flight }, false)
    }
}

/// The state after `k` admitted requests complete, one after another.
pub open spec fn complete_n(s: ServiceState, k: nat) -> ServiceState
    decreases k,
{
    if k == 0 {
        s
    } else {
        complete_spec(complete_n(s, (k - 1) as nat)).0
    }
}

/// Every transition keeps a reachable state reachable.
pub proof fn lemma_transitions_wf(s: ServiceState)
    requires
        service_wf(s),
    ensures
        service_wf(accept_spec(s).0),
        service_wf(shutdown_spec(s).0),
        s.in_flight > 0 ==> service_wf(complete_spec(s).0),
{
}

/// Shutting down an idle service ends it at once, with a success status.
pub proof fn lemma_idle_shutdown(s: ServiceState)
    requires
        s.phase == ServicePhase::Listening,
        s.in_flight == 0,
    ensures
        shutdown_spec(s) == (ServiceState { phase: ServicePhase::Terminated, in_flight: 0 }, true),
{
}

/// The service ends once at most: a transition that reports the end leaves a
/// service that was not yet terminated, and a terminated service stays so
/// and reports nothing more.
pub proof fn lemma_ends_once(s: ServiceState)
    requires
        service_wf(s),
    ensures
        shutdown_spec(s).1 ==> s.phase != ServicePhase::Terminated
            && shutdown_spec(s).0.phase == ServicePhase::Terminated,
        s.in_flight > 0 && complete_spec(s).1 ==> s.phase != ServicePhase::Terminated
            && complete_spec(s).0.phase == ServicePhase::Terminated,
        !accept_spec(s).1 ==> accept_spec(s).0 == s,
        s.phase == ServicePhase::Terminated ==> shutdown_spec(s) == (s, false) && accept_spec(s)
            == (s, false) && s.in_flight == 0,
{
}

/// A second shutdown notification has no effect: two act as one.
pub proof fn lemma_shutdown_idempotent(s: ServiceState)
    ensures
        shutdown_spec(shutdown_spec(s).0) == (shutdown_spec(s).0, false),
{
}

proof fn lemma_draining_completions(s: ServiceState, k: nat)
    requires
        s.phase == ServicePhase::Draining,
        k < s.in_flight,
    ensures
        complete_n(s, k) == (ServiceState {
            phase: ServicePhase::Draining,
            in_flight: (s.in_flight - k) as nat,
        }),
    decreases k,
{
    if k > 0 {
        lemma_draining_completions(s, (k - 1) as nat);
    }
}

/// Draining: a request accepted just before the shutdown notification keeps
/// the service running until it has completed, together with every other
/// request in flight, and no request is accepted once the notification has
/// been taken.
pub proof fn lemma_drain(s: ServiceState, k: nat)
    requires
        service_wf(s),
        s.phase == ServicePhase::Listening,
    ensures
        accept_spec(s).1,
        !shutdown_spec(accept_spec(s).0).1,
        shutdown_spec(accept_spec(s).0).0 == (ServiceState {
            phase: ServicePhase::Draining,
            in_flight: s.in_flight + 1,
        }),
        accept_spec(shutdown_spec(accept_spec(s).0).0) == (shutdown_spec(accept_spec(s).0).0, false),
        k <= s.in_flight ==> complete_n(shutdown_spec(accept_spec(s).0).0, k) == (ServiceState {
            phase: ServicePhase::Draining,
            in_flight: (s.in_flight + 1 - k) as nat,
        }),
        complete_spec(complete_n(shutdown_spec(accept_spec(s).0).0, s.in_flight)) == (
        ServiceState { phase: ServicePhase::Terminated, in_flight: 0 }, true),
{
    let drained = shutdown_spec(accept_spec(s).0).0;
    if k <= s.in_flight {
        lemma_draining_completions(drained, k);
    }
    lemma_draining_completions(drained, s.in_flight);
}

/// How the process ends once the service has stopped.
#[derive(Clone, Debug, PartialEq, Eq)]
pub struct Exit {
    pub status: i32,
    pub notice: String,
}

/// What a transition returns: an `Exit` exactly when it ended the service,
/// with a success status and the termination notice.
pub open spec fn exit_matches(r: Option<Exit>, ended: bool) -> bool {
    &&& (r is Some) == ended
    &&& r is Some ==> r->0.status == SUCCESS_STATUS && r->0.notice@ == TERMINATION_NOTICE@
}

/// The admission and draining decisions of the responder. Every admitted
/// request is answered, and a service stops only after a shutdown
/// notification and once all that it admitted has completed.
pub struct Service {
    phase: ServicePhase,
    in_flight: u64,
}

impl View for Service {
    type V = ServiceState;

    closed spec fn view(&self) -> ServiceState {
        ServiceState { phase: self.phase, in_flight: self.in_flight as nat }
    }
}

impl Service {
    /// The well-formedness of the state.
    pub open spec fn wf(&self) -> bool {
        service_wf(self@)
    }

    fn exit() -> (r: Exit)
        ensures
            r.status == SUCCESS_STATUS,
            r.notice@ == TERMINATION_NOTICE@,
    {
        Exit { status: SUCCESS_STATUS, notice: String::from_str(TERMINATION_NOTICE) }
    }

    /// A listening service with nothing in flight.
    pub fn new() -> (r: Service)
        ensures
            r.wf(),
            r@ == (ServiceState { phase: ServicePhase::Listening, in_flight: 0 }),
    {
        Service { phase: ServicePhase::Listening, in_flight: 0 }
    }

    /// The current phase.
    pub fn phase(&self) -> (r: ServicePhase)
        ensures
            r == self@.phase,
    {
        self.phase
    }

    /// The number of admitted requests not yet completed.
    pub fn in_flight(&self) -> (r: u64)
        ensures
            r == self@.in_flight,
    {
        self.in_flight
    }

    /// Decides on a request that arrived; returns whether it is admitted.
    pub fn accept(&mut self) -> (admitted: bool)
        requires
            old(self).wf(),
            old(self)@.in_flight < u64::MAX,
        ensures
            final(self).wf(),
            (final(self)@, admitted) == accept_spec(old(self)@),
    {
        if self.phase == ServicePhase::Listening {
            self.in_flight = self.in_flight + 1;
            true
        } else {
            false
        }
    }

    /// Records that an admitted request has completed; returns the exit when
    /// that completion ends a draining service.
    pub fn complete(&mut self) -> (r: Option<Exit>)
        requires
            old(self).wf(),
            old(self)@.in_flight > 0,
        ensures
            final(self).wf(),
            final(self)@ == complete_spec(old(self)@).0,
            exit_matches(r, complete_spec(old(self)@).1),
    {
        self.in_flight = self.in_flight - 1;
        if self.phase == ServicePhase::Draining && self.in_flight == 0 {
            self.phase = ServicePhase::Terminated;
            Some(Self::exit())
        } else {
            None
        }
    }

    /// Takes the shutdown notification; returns the exit when nothing was in
    /// flight, so that the service ends at once.
    pub fn shutdown(&mut self) -> (r: Option<Exit>)
        requires
            old(self).wf(),
        ensures
            final(self).wf(),
            final(self)@ == shutdown_spec(old(self)@).0,
            exit_matches(r, shutdown_spec(old(self)@).1),
    {
        if self.phase != ServicePhase::Listening {
            None
        } else if self.in_flight == 0 {
            self.phase = ServicePhase::Terminated;
            Some(Self::exit())
        } else {
            self.phase = ServicePhase::Draining;
            None
        }
    }
}

} // verus!
