//! The background-service adapter: one run per node, stepping through
//! initialise, start, readiness wait and the supervision loop, and
//! delivering its completion signal exactly once.

use crate::Error;
use vstd::prelude::*;

verus! {

/// The lifecycle steps a background run performs, in order. Monitoring never
/// completes on its own: it ends only by failing.
pub enum ServiceStep {
    Initialize,
    StartContainer,
    WaitForHealthy,
    MonitorHealth,
}

/// The phase of one background run.
pub enum ServicePhase {
    Initializing,
    Starting,
    AwaitingHealth,
    Monitoring,
    Finished,
}

/// Drives one node's background run. A new driver starts at the first step;
/// each successful step advances to the next; the first failure — at any
/// step, or the supervision loop's first unhealthy probe — finishes the run
/// and hands the caller the one error to deliver through the completion
/// signal. A finished driver accepts no further transitions, so the signal
/// is delivered exactly once per run.
pub struct ServiceDriver {
    phase: ServicePhase,
    delivered: bool,
}

impl ServiceDriver {
    pub closed spec fn spec_phase(&self) -> ServicePhase {
        self.phase
    }

    /// Whether the completion signal has been handed out.
    pub closed spec fn spec_delivered(&self) -> bool {
        self.delivered
    }

    /// A fresh run, about to initialise its node.
    pub fn new() -> (d: ServiceDriver)
        ensures
            d.spec_phase() is Initializing,
            !d.spec_delivered(),
    {
        ServiceDriver { phase: ServicePhase::Initializing, delivered: false }
    }

    /// The step to run next, or nothing when the run has finished.
    pub fn current_step(&self) -> (s: Option<ServiceStep>)
        ensures
            self.spec_phase() is Initializing ==> s matches Some(ServiceStep::Initialize),
            self.spec_phase() is Starting ==> s matches Some(ServiceStep::StartContainer),
            self.spec_phase() is AwaitingHealth ==> s matches Some(ServiceStep::WaitForHealthy),
            self.spec_phase() is Monitoring ==> s matches Some(ServiceStep::MonitorHealth),
            self.spec_phase() is Finished ==> s is None,
    {
        match self.phase {
            ServicePhase::Initializing => Some(ServiceStep::Initialize),
            ServicePhase::Starting => Some(ServiceStep::StartContainer),
            ServicePhase::AwaitingHealth => Some(ServiceStep::WaitForHealthy),
            ServicePhase::Monitoring => Some(ServiceStep::MonitorHealth),
            ServicePhase::Finished => None,
        }
    }

    /// Advances past a step that succeeded. Monitoring has no success to
    /// record and a finished run has no step, so neither may call this.
    pub fn on_step_succeeded(&mut self)
        requires
            !(old(self).spec_phase() is Monitoring),
            !(old(self).spec_phase() is Finished),
        ensures
            old(self).spec_phase() is Initializing ==> final(self).spec_phase() is Starting,
            old(self).spec_phase() is Starting ==> final(self).spec_phase() is AwaitingHealth,
            old(self).spec_phase() is AwaitingHealth ==> final(self).spec_phase() is Monitoring,
            final(self).spec_delivered() == old(self).spec_delivered(),
    {
        self.phase = match self.phase {
            ServicePhase::Initializing => ServicePhase::Starting,
            ServicePhase::Starting => ServicePhase::AwaitingHealth,
            _ => ServicePhase::Monitoring,
        };
    }

    /// Finishes the run on its first failure, handing back the one error to
    /// send through the completion signal. A finished run cannot fail again:
    /// the signal is delivered exactly once.
    pub fn on_step_failed(&mut self, err: Error) -> (signal: Error)
        requires
            !(old(self).spec_phase() is Finished),
            !old(self).spec_delivered(),
        ensures
            final(self).spec_phase() is Finished,
            final(self).spec_delivered(),
            signal == err,
    {
        self.phase = ServicePhase::Finished;
        self.delivered = true;
        err
    }
}

} // verus!
