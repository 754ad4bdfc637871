//! The service control manager dispatcher protocol.
//!
//! A Windows service reports its lifecycle to the service control manager
//! in a fixed order: `StartPending` on handler registration, `Running` once
//! the workload has started, `StopPending` when shutdown begins, `Stopped`
//! when the handler is released — the release happens on every exit path,
//! so the manager always sees a clean terminal state. [`ScmLifecycle`]
//! enforces that order and records the trace of reported states;
//! [`handle_control`] is the dispatcher's answer to each control event.

use vstd::prelude::*;

verus! {

/// The states a dispatcher reports to the service control manager.
#[derive(Copy, Clone, Debug, PartialEq, Eq, Structural)]
pub enum ScmState {
    /// Nothing reported yet: before handler registration.
    Init,
    /// The service is starting: reported on handler registration.
    StartPending,
    /// The service is running: reported after the workload started.
    Running,
    /// The service is stopping: reported when shutdown begins.
    StopPending,
    /// The service has stopped: reported when the handler is released.
    Stopped,
}

/// A control event delivered by the service control manager, reduced to
/// what the dispatcher distinguishes.
#[derive(Copy, Clone, Debug, PartialEq, Eq, Structural)]
pub enum ServiceControl {
    /// A liveness probe.
    Interrogate,
    /// A stop request.
    Stop,
    /// Any other control code.
    Other,
}

/// The dispatcher's answer to a control event.
#[derive(Copy, Clone, Debug, PartialEq, Eq, Structural)]
pub enum ControlResponse {
    /// The event was handled.
    NoError,
    /// The event is not handled by this service.
    NotImplemented,
}

/// Answers a control event: `Interrogate` is acknowledged, `Stop` is
/// acknowledged and triggers the shutdown signal (the second component),
/// and everything else is not implemented.
pub fn handle_control(c: ServiceControl) -> (r: (ControlResponse, bool))
    ensures
        match c {
            ServiceControl::Interrogate => r == (ControlResponse::NoError, false),
            ServiceControl::Stop => r == (ControlResponse::NoError, true),
            ServiceControl::Other => r == (ControlResponse::NotImplemented, false),
        },
{
    match c {
        ServiceControl::Interrogate => (ControlResponse::NoError, false),
        ServiceControl::Stop => (ControlResponse::NoError, true),
        ServiceControl::Other => (ControlResponse::NotImplemented, false),
    }
}

/// Which controls a status report accepts: stop requests, except once
/// `Stopped` is reported.
pub fn accepts_stop(state: ScmState) -> (r: bool)
    ensures
        r == !(state is Stopped),
{
    !matches!(state, ScmState::Stopped)
}

/// The dispatcher's lifecycle: the current state and the trace of states
/// reported to the service control manager, in order.
#[derive(Debug)]
pub struct ScmLifecycle {
    state: ScmState,
    reported: Vec<ScmState>,
}

/// One report: the machine moves to `s` and the trace grows by exactly `s`.
pub open spec fn spec_step(pre: ScmLifecycle, post: ScmLifecycle, s: ScmState) -> bool {
    post.spec_state() == s && post.spec_trace() == pre.spec_trace().push(s)
}

impl ScmLifecycle {
    /// The current state.
    pub closed spec fn spec_state(&self) -> ScmState {
        self.state
    }

    /// The states reported so far, in order.
    pub closed spec fn spec_trace(&self) -> Seq<ScmState> {
        self.reported@
    }

    /// The current state.
    pub fn state(&self) -> (r: ScmState)
        ensures
            r == self.spec_state(),
    {
        self.state
    }

    /// The states reported so far, in order.
    pub fn trace(&self) -> (r: &Vec<ScmState>)
        ensures
            r@ == self.spec_trace(),
    {
        &self.reported
    }

    /// A fresh lifecycle: nothing reported.
    pub fn new() -> (r: ScmLifecycle)
        ensures
            r.spec_state() is Init,
            r.spec_trace() == Seq::<ScmState>::empty(),
    {
        let r = ScmLifecycle { state: ScmState::Init, reported: Vec::new() };
        proof {
            assert(r.spec_trace() =~= Seq::<ScmState>::empty());
        }
        r
    }

    fn report(&mut self, s: ScmState)
        ensures
            spec_step(*old(self), *final(self), s),
    {
        self.state = s;
        let ghost before = self.reported@;
        self.reported.push(s);
        proof {
            assert(self.reported@ =~= before.push(s));
        }
    }

    /// Reports `StartPending`: the handler was just registered.
    pub fn report_start_pending(&mut self)
        requires
            old(self).spec_state() is Init,
        ensures
            spec_step(*old(self), *final(self), ScmState::StartPending),
    {
        self.report(ScmState::StartPending);
    }

    /// Reports `Running`: the workload's start has returned.
    pub fn report_running(&mut self)
        requires
            old(self).spec_state() is StartPending,
        ensures
            spec_step(*old(self), *final(self), ScmState::Running),
    {
        self.report(ScmState::Running);
    }

    /// Reports `StopPending`: the shutdown signal fired or the workload
    /// exited on its own.
    pub fn report_stop_pending(&mut self)
        requires
            old(self).spec_state() is Running,
        ensures
            spec_step(*old(self), *final(self), ScmState::StopPending),
    {
        self.report(ScmState::StopPending);
    }

    /// Reports `Stopped`: the handler is released. This happens on every
    /// exit path — normally after `StopPending`, or directly from
    /// `StartPending` when the workload's start failed, or from `Running`
    /// when waiting failed.
    pub fn report_stopped(&mut self)
        requires
            old(self).spec_state() is StartPending || old(self).spec_state() is Running || old(
                self,
            ).spec_state() is StopPending,
        ensures
            spec_step(*old(self), *final(self), ScmState::Stopped),
    {
        self.report(ScmState::Stopped);
    }
}

/// The dispatcher status trace of a normal run is exactly `StartPending,
/// Running, StopPending, Stopped`, in order, with no state skipped or
/// repeated.
pub proof fn lemma_normal_run_trace(
    m0: ScmLifecycle,
    m1: ScmLifecycle,
    m2: ScmLifecycle,
    m3: ScmLifecycle,
    m4: ScmLifecycle,
)
    requires
        m0.spec_state() is Init,
        m0.spec_trace() == Seq::<ScmState>::empty(),
        spec_step(m0, m1, ScmState::StartPending),
        spec_step(m1, m2, ScmState::Running),
        spec_step(m2, m3, ScmState::StopPending),
        spec_step(m3, m4, ScmState::Stopped),
    ensures
        m4.spec_trace() =~= seq![
            ScmState::StartPending,
            ScmState::Running,
            ScmState::StopPending,
            ScmState::Stopped,
        ],
{
}

} // verus!
