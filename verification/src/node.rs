//! The per-node lifecycle state machine: the container-id handle, the
//! bounded readiness wait and the unbounded supervision loop's step decision.
//!
//! The container engine's calls are made by the caller; the functions here
//! decide what to do before each call and record what each call produced.

use crate::health::{spec_probe_verdict, ContainerState, HealthState, UnhealthyReason};
use crate::logs::LogEntry;
use crate::Error;
use vstd::prelude::*;

verus! {

/// Seconds slept between readiness probes.
pub const HEALTH_RETRY_INTERVAL_SECS: u64 = 1;

/// The probe budget of the readiness wait.
pub const MAX_HEALTH_RETRIES: u32 = 30;

/// Seconds between supervision probes.
pub const MONITOR_INTERVAL_SECS: u64 = 30;

/// The mutable state one lifecycle manager owns for its node: the container
/// identifier, absent until creation and absent again after removal. A stop
/// leaves the id in place, so the container can be started again; only
/// removal clears it. The caller serializes access (one supervising task per
/// node; readers take the lock the caller wraps this in).
pub struct NodeHandle {
    container_id: Option<String>,
}

impl View for NodeHandle {
    type V = Option<Seq<char>>;

    closed spec fn view(&self) -> Option<Seq<char>> {
        match self.container_id {
            Some(id) => Some(id@),
            None => None,
        }
    }
}

/// The effect of `initialize` on the stored container id: a freshly created
/// id is adopted only when none is present.
pub open spec fn initialize_transition(id: Option<Seq<char>>, fresh: Seq<char>) -> Option<
    Seq<char>,
> {
    if id is Some {
        id
    } else {
        Some(fresh)
    }
}

impl NodeHandle {
    /// A handle with no container yet.
    pub fn new() -> (h: NodeHandle)
        ensures
            h@ is None,
    {
        NodeHandle { container_id: None }
    }

    /// Whether a container id is present.
    pub fn has_container(&self) -> (r: bool)
        ensures
            r == (self@ is Some),
    {
        self.container_id.is_some()
    }

    /// The stored container id, if any.
    pub fn container_id(&self) -> (r: Option<String>)
        ensures
            r is Some <==> self@ is Some,
            r is Some ==> (r->0)@ == self@->0,
    {
        match &self.container_id {
            Some(id) => Some(id.clone()),
            None => None,
        }
    }

    /// Whether `initialize` must create a container: true exactly when no id
    /// is present. When false, `initialize` is a no-op and no duplicate
    /// container is created.
    pub fn needs_container(&self) -> (r: bool)
        ensures
            r == (self@ is None),
    {
        self.container_id.is_none()
    }

    /// Records the id of a freshly created container. Callers create one
    /// only when `needs_container` said so, which keeps `initialize`
    /// idempotent.
    pub fn adopt_container(&mut self, id: String)
        requires
            old(self)@ is None,
        ensures
            final(self)@ == Some(id@),
            final(self)@ == initialize_transition(old(self)@, id@),
    {
        self.container_id = Some(id);
    }

    /// Clears the stored id after removal, returning whether one was
    /// present. With no id present this is a no-op, not an error.
    pub fn clear_container(&mut self) -> (had: bool)
        ensures
            final(self)@ is None,
            had == (old(self)@ is Some),
    {
        let had = self.container_id.is_some();
        self.container_id = None;
        had
    }
}

/// Initialising twice in succession yields the same container id as
/// initialising once: the second call finds an id present and adopts
/// nothing, whatever fresh id a second creation would have produced.
pub proof fn lemma_initialize_idempotent(
    id: Option<Seq<char>>,
    fresh1: Seq<char>,
    fresh2: Seq<char>,
)
    ensures
        initialize_transition(initialize_transition(id, fresh1), fresh2) == initialize_transition(
            id,
            fresh1,
        ),
{
}

/// Immediately after `remove` has cleared the container id, every health
/// probe reports the node unhealthy for want of a container, whatever the
/// engine would have answered.
pub proof fn lemma_probe_after_remove(
    h: NodeHandle,
    state: Option<ContainerState>,
    entries: Seq<LogEntry>,
)
    requires
        h@ is None,
    ensures
        spec_probe_verdict(h@ is Some, state, entries) == HealthState::Unhealthy(
            UnhealthyReason::MissingContainer,
        ),
{
}

/// What the readiness wait does after one probe.
pub enum WaitDecision {
    /// The node answered healthy: the wait is over.
    Ready,
    /// The probe failed and budget remains: sleep the fixed interval and
    /// probe again.
    RetryAfterDelay,
    /// The probe budget is exhausted: the node is unresponsive.
    Unresponsive,
}

/// The bounded readiness wait: up to `MAX_HEALTH_RETRIES` probes, one
/// `HEALTH_RETRY_INTERVAL_SECS` sleep after each failed probe.
pub struct HealthWait {
    attempts: u32,
}

impl HealthWait {
    /// The number of failed probes so far.
    pub closed spec fn spec_attempts(&self) -> u32 {
        self.attempts
    }

    pub fn new() -> (w: HealthWait)
        ensures
            w.spec_attempts() == 0,
    {
        HealthWait { attempts: 0 }
    }

    pub fn attempts(&self) -> (r: u32)
        ensures
            r == self.spec_attempts(),
    {
        self.attempts
    }

    /// Whether the wait may probe again.
    pub fn can_probe(&self) -> (r: bool)
        ensures
            r == (self.spec_attempts() < MAX_HEALTH_RETRIES),
    {
        self.attempts < MAX_HEALTH_RETRIES
    }

    /// Advances the wait by one probe result: a healthy probe ends the wait
    /// at once; a failed probe consumes budget and asks for one more delayed
    /// retry until the budget is gone.
    pub fn on_probe(&mut self, healthy: bool) -> (d: WaitDecision)
        requires
            old(self).spec_attempts() < MAX_HEALTH_RETRIES,
        ensures
            healthy ==> d is Ready && final(self).spec_attempts() == old(self).spec_attempts(),
            !healthy ==> final(self).spec_attempts() == old(self).spec_attempts() + 1,
            !healthy && old(self).spec_attempts() + 1 < MAX_HEALTH_RETRIES ==> d is RetryAfterDelay,
            !healthy && old(self).spec_attempts() + 1 == MAX_HEALTH_RETRIES ==> d is Unresponsive,
    {
        if healthy {
            WaitDecision::Ready
        } else {
            self.attempts = self.attempts + 1;
            if self.attempts < MAX_HEALTH_RETRIES {
                WaitDecision::RetryAfterDelay
            } else {
                WaitDecision::Unresponsive
            }
        }
    }
}

/// The error surfaced when the readiness wait exhausts its budget.
pub fn unresponsive_error() -> (e: Error)
    ensures
        e matches Error::Container(m) && m@ == "Node failed to become healthy"@,
{
    Error::Container(String::from_str("Node failed to become healthy"))
}

/// The number of probes the readiness wait makes when successive probes
/// answer as in `probes` and `budget` failed probes are allowed.
pub open spec fn wait_probes_used(probes: Seq<bool>, budget: nat) -> nat
    decreases budget,
{
    if budget == 0 || probes.len() == 0 {
        0
    } else if probes[0] {
        1
    } else {
        1 + wait_probes_used(probes.skip(1), (budget - 1) as nat)
    }
}

/// Whether the readiness wait ends ready when successive probes answer as in
/// `probes` under the given budget.
pub open spec fn wait_reaches_ready(probes: Seq<bool>, budget: nat) -> bool
    decreases budget,
{
    budget > 0 && probes.len() > 0 && (probes[0] || wait_reaches_ready(
        probes.skip(1),
        (budget - 1) as nat,
    ))
}

/// The readiness wait ends ready exactly when one of the probes within its
/// budget answers healthy; otherwise it ends unresponsive.
pub proof fn lemma_wait_ready_iff_early_healthy(probes: Seq<bool>, budget: nat)
    ensures
        wait_reaches_ready(probes, budget) <==> exists|i: int|
            0 <= i < budget && i < probes.len() && #[trigger] probes[i],
    decreases budget,
{
    if budget > 0 && probes.len() > 0 {
        lemma_wait_ready_iff_early_healthy(probes.skip(1), (budget - 1) as nat);
        if !probes[0] {
            if wait_reaches_ready(probes.skip(1), (budget - 1) as nat) {
                let j = choose|j: int|
                    0 <= j < budget - 1 && j < probes.skip(1).len() && #[trigger] probes.skip(1)[j];
                assert(probes[j + 1]);
            }
            if exists|i: int| 0 <= i < budget && i < probes.len() && #[trigger] probes[i] {
                let i = choose|i: int| 0 <= i < budget && i < probes.len() && #[trigger] probes[i];
                assert(i >= 1);
                assert(probes.skip(1)[i - 1]);
            }
        }
    }
}

pub proof fn lemma_wait_probes_within_budget(probes: Seq<bool>, budget: nat)
    ensures
        wait_probes_used(probes, budget) <= budget,
    decreases budget,
{
    if budget > 0 && probes.len() > 0 && !probes[0] {
        lemma_wait_probes_within_budget(probes.skip(1), (budget - 1) as nat);
    }
}

/// However the probes answer, the readiness wait performs at most
/// `MAX_HEALTH_RETRIES` probes and sleeps the fixed interval at most once
/// per probe, so it ends — ready or unresponsive — within
/// `MAX_HEALTH_RETRIES × HEALTH_RETRY_INTERVAL_SECS` seconds of sleeping.
pub proof fn lemma_wait_bounded(probes: Seq<bool>)
    ensures
        wait_probes_used(probes, MAX_HEALTH_RETRIES as nat) <= MAX_HEALTH_RETRIES,
{
    lemma_wait_probes_within_budget(probes, MAX_HEALTH_RETRIES as nat);
}

/// What the supervision loop does after one periodic probe.
pub enum MonitorDecision {
    /// The probe was healthy: sleep the interval and probe again.
    Continue,
    /// The first unhealthy probe: supervision ends, surfacing the failure.
    FailUnhealthy,
}

/// One supervision-loop step: the loop continues exactly when the probe was
/// healthy; the first unhealthy probe terminates it.
pub fn monitor_decision(healthy: bool) -> (d: MonitorDecision)
    ensures
        (d is Continue) <==> healthy,
{
    if healthy {
        MonitorDecision::Continue
    } else {
        MonitorDecision::FailUnhealthy
    }
}

/// The error surfaced when supervision finds a node unhealthy after it had
/// been healthy.
pub fn unhealthy_error() -> (e: Error)
    ensures
        e matches Error::Container(m) && m@ == "Node became unhealthy"@,
{
    Error::Container(String::from_str("Node became unhealthy"))
}

} // verus!
