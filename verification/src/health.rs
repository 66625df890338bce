//! The health probe: a fresh verdict computed from the engine-reported
//! container state and the most recent log lines, never stored.

use crate::decimal::{dec_int_rep, i64_to_string};
use crate::logs::{
    any_entry_flags_error, entry_flags_error, error_marker_lower, error_marker_title,
    logs_indicate_error, sanitized, LogEntry,
};
use crate::text::has_pattern;
use vstd::prelude::*;

verus! {

/// The fields of the engine's container inspection that the health probe
/// reads.
#[derive(Clone)]
pub struct ContainerState {
    pub running: Option<bool>,
    pub exit_code: Option<i64>,
    pub oom_killed: Option<bool>,
    pub error: Option<String>,
}

/// Why a probe judged a node unhealthy.
pub enum UnhealthyReason {
    /// No container id is present on the handle.
    MissingContainer,
    /// The engine returned no state information.
    MissingStateInfo,
    /// The engine reports the container killed by the out-of-memory killer.
    OomKilled,
    /// The engine reports a non-empty error message.
    EngineError(String),
    /// The container exited with a non-zero code.
    ExitCode(i64),
    /// The container is not running.
    NotRunning,
    /// A recent log line carries an error marker, or a log entry could not be
    /// read.
    ErrorInLogs,
}

/// A health verdict, derived afresh on every probe.
pub enum HealthState {
    Healthy,
    Unhealthy(UnhealthyReason),
}

impl UnhealthyReason {
    /// The display text of the reason, e.g. `exit_code=1`.
    pub open spec fn spec_message(self) -> Seq<char> {
        match self {
            UnhealthyReason::MissingContainer => "no container id"@,
            UnhealthyReason::MissingStateInfo => "no state info"@,
            UnhealthyReason::OomKilled => "oom_killed"@,
            UnhealthyReason::EngineError(e) => "engine error: "@ + e@,
            UnhealthyReason::ExitCode(c) => "exit_code="@ + dec_int_rep(c as int),
            UnhealthyReason::NotRunning => "running=false"@,
            UnhealthyReason::ErrorInLogs => "error in logs"@,
        }
    }

    /// Renders the reason for display.
    pub fn message(&self) -> (r: String)
        ensures
            r@ == self.spec_message(),
    {
        match self {
            UnhealthyReason::MissingContainer => String::from_str("no container id"),
            UnhealthyReason::MissingStateInfo => String::from_str("no state info"),
            UnhealthyReason::OomKilled => String::from_str("oom_killed"),
            UnhealthyReason::EngineError(e) => {
                let mut s = String::from_str("engine error: ");
                s.append(e.as_str());
                s
            },
            UnhealthyReason::ExitCode(c) => {
                let mut s = String::from_str("exit_code=");
                let digits = i64_to_string(*c);
                s.append(digits.as_str());
                s
            },
            UnhealthyReason::NotRunning => String::from_str("running=false"),
            UnhealthyReason::ErrorInLogs => String::from_str("error in logs"),
        }
    }
}

/// The verdict drawn from the engine-reported state alone, before any logs
/// are consulted: missing state, an out-of-memory kill, a reported engine
/// error, a non-zero exit code and a non-running container are unhealthy, in
/// that order of precedence.
pub open spec fn spec_state_health(state: Option<ContainerState>) -> HealthState {
    if state is None {
        HealthState::Unhealthy(UnhealthyReason::MissingStateInfo)
    } else {
        let s = state->0;
        if s.oom_killed == Some(true) {
            HealthState::Unhealthy(UnhealthyReason::OomKilled)
        } else if s.error is Some && (s.error->0)@.len() > 0 {
            HealthState::Unhealthy(UnhealthyReason::EngineError(s.error->0))
        } else if s.exit_code is Some && s.exit_code->0 != 0 {
            HealthState::Unhealthy(UnhealthyReason::ExitCode(s.exit_code->0))
        } else if s.running != Some(true) {
            HealthState::Unhealthy(UnhealthyReason::NotRunning)
        } else {
            HealthState::Healthy
        }
    }
}

/// Computes the state-only verdict.
pub fn state_health(state: &Option<ContainerState>) -> (h: HealthState)
    ensures
        h == spec_state_health(*state),
{
    match state {
        None => HealthState::Unhealthy(UnhealthyReason::MissingStateInfo),
        Some(s) => {
            let oom = match s.oom_killed {
                Some(true) => true,
                _ => false,
            };
            if oom {
                return HealthState::Unhealthy(UnhealthyReason::OomKilled);
            }
            match &s.error {
                Some(e) => {
                    if e.as_str().unicode_len() > 0 {
                        return HealthState::Unhealthy(UnhealthyReason::EngineError(e.clone()));
                    }
                },
                None => {},
            }
            match s.exit_code {
                Some(c) => {
                    if c != 0 {
                        return HealthState::Unhealthy(UnhealthyReason::ExitCode(c));
                    }
                },
                None => {},
            }
            let running = match s.running {
                Some(true) => true,
                _ => false,
            };
            if !running {
                return HealthState::Unhealthy(UnhealthyReason::NotRunning);
            }
            HealthState::Healthy
        },
    }
}

/// The verdict of one full probe: without a container id the node is
/// unhealthy; an unhealthy engine-reported state decides by itself; only a
/// state that looks fine has the fetched log tail scanned for error signals.
pub open spec fn spec_probe_verdict(
    id_present: bool,
    state: Option<ContainerState>,
    entries: Seq<LogEntry>,
) -> HealthState {
    if !id_present {
        HealthState::Unhealthy(UnhealthyReason::MissingContainer)
    } else if !(spec_state_health(state) is Healthy) {
        spec_state_health(state)
    } else if any_entry_flags_error(entries) {
        HealthState::Unhealthy(UnhealthyReason::ErrorInLogs)
    } else {
        HealthState::Healthy
    }
}

/// Computes the verdict of one full probe from the engine's answers.
pub fn probe_verdict(
    id_present: bool,
    state: &Option<ContainerState>,
    entries: &Vec<LogEntry>,
) -> (h: HealthState)
    ensures
        h == spec_probe_verdict(id_present, *state, entries@),
{
    if !id_present {
        return HealthState::Unhealthy(UnhealthyReason::MissingContainer);
    }
    let from_state = state_health(state);
    match from_state {
        HealthState::Healthy => {
            if logs_indicate_error(entries) {
                HealthState::Unhealthy(UnhealthyReason::ErrorInLogs)
            } else {
                HealthState::Healthy
            }
        },
        HealthState::Unhealthy(reason) => HealthState::Unhealthy(reason),
    }
}

/// When the engine-reported state is itself unhealthy, the probe verdict is
/// that state verdict whatever the fetched logs hold: the logs need not be
/// consulted.
pub proof fn lemma_state_verdict_ignores_logs(
    state: Option<ContainerState>,
    entries1: Seq<LogEntry>,
    entries2: Seq<LogEntry>,
)
    requires
        !(spec_state_health(state) is Healthy),
    ensures
        spec_probe_verdict(true, state, entries1) == spec_state_health(state),
        spec_probe_verdict(true, state, entries1) == spec_probe_verdict(true, state, entries2),
{
}

/// A probe made with no container id present is unhealthy, whatever the
/// engine would have reported.
pub proof fn lemma_missing_container_unhealthy(
    state: Option<ContainerState>,
    entries: Seq<LogEntry>,
)
    ensures
        spec_probe_verdict(false, state, entries) == HealthState::Unhealthy(
            UnhealthyReason::MissingContainer,
        ),
{
}

/// A fetched log line whose sanitized text contains the error marker in
/// either spelling — lowercase "error" or capitalised "Error" — forces an
/// unhealthy probe verdict; the scan treats the two spellings alike.
pub proof fn lemma_error_marker_spellings_flag_probe(
    state: Option<ContainerState>,
    entries: Seq<LogEntry>,
    i: int,
)
    requires
        0 <= i < entries.len(),
        entries[i] matches LogEntry::Line(bytes) && (has_pattern(
            sanitized(bytes@),
            error_marker_lower(),
        ) || has_pattern(sanitized(bytes@), error_marker_title())),
    ensures
        !(spec_probe_verdict(true, state, entries) is Healthy),
{
    assert(entry_flags_error(entries[i]));
    assert(any_entry_flags_error(entries));
}

} // verus!
