use reth_rpc_blueprint_template::health::{
    probe_verdict, state_health, ContainerState, HealthState, UnhealthyReason,
};
use reth_rpc_blueprint_template::logs::LogEntry;
use reth_rpc_blueprint_template::node::{
    monitor_decision, unhealthy_error, HealthWait, MonitorDecision, NodeHandle, WaitDecision,
    MAX_HEALTH_RETRIES,
};
use reth_rpc_blueprint_template::supervisor::{ServiceDriver, ServiceStep};
use reth_rpc_blueprint_template::Error;

fn healthy_state() -> Option<ContainerState> {
    Some(ContainerState {
        running: Some(true),
        exit_code: Some(0),
        oom_killed: Some(false),
        error: Some(String::new()),
    })
}

fn clean_logs() -> Vec<LogEntry> {
    let mut entries = Vec::new();
    for i in 0..50 {
        entries.push(LogEntry::Line(
            format!("2024-01-01T00:00:{:02}Z INFO all good", i % 60).into_bytes(),
        ));
    }
    entries
}

#[test]
fn test_initialize_idempotent() {
    let mut handle = NodeHandle::new();
    assert!(handle.needs_container());
    assert!(!handle.has_container());

    // First initialize: a container is created and its id adopted.
    handle.adopt_container(String::from("c-1234"));
    assert!(handle.has_container());
    assert_eq!(handle.container_id().unwrap(), "c-1234");

    // Second initialize: no creation is needed, the id stays the same.
    assert!(!handle.needs_container());
    assert_eq!(handle.container_id().unwrap(), "c-1234");
}

#[test]
fn test_check_health_after_remove_unhealthy() {
    let mut handle = NodeHandle::new();
    handle.adopt_container(String::from("c-1"));
    let had = handle.clear_container();
    assert!(had);
    assert!(!handle.has_container());

    // The probe right after remove is unhealthy for want of an id, whatever
    // the engine would have reported.
    let verdict = probe_verdict(handle.has_container(), &healthy_state(), &clean_logs());
    assert!(matches!(
        verdict,
        HealthState::Unhealthy(UnhealthyReason::MissingContainer)
    ));
    match verdict {
        HealthState::Unhealthy(reason) => assert_eq!(reason.message(), "no container id"),
        HealthState::Healthy => unreachable!(),
    }
}

#[test]
fn test_remove_without_id_is_noop() {
    let mut handle = NodeHandle::new();
    // Removing with no container id present is a no-op success, not an error.
    let had = handle.clear_container();
    assert!(!had);
    assert!(!handle.has_container());
}

#[test]
fn test_wait_terminates_within_budget() {
    // A node that never becomes healthy: the wait ends unresponsive after
    // exactly MAX_HEALTH_RETRIES probes, one interval slept per probe.
    let mut wait = HealthWait::new();
    let mut probes = 0u32;
    loop {
        assert!(wait.can_probe());
        probes += 1;
        match wait.on_probe(false) {
            WaitDecision::Ready => unreachable!(),
            WaitDecision::RetryAfterDelay => continue,
            WaitDecision::Unresponsive => break,
        }
    }
    assert_eq!(probes, MAX_HEALTH_RETRIES);
    assert!(!wait.can_probe());
}

#[test]
fn test_wait_ready_on_first_healthy_probe() {
    let mut wait = HealthWait::new();
    assert!(matches!(wait.on_probe(true), WaitDecision::Ready));
    assert_eq!(wait.attempts(), 0);
}

#[test]
fn test_scenario_fresh_start_healthy_within_one_probe() {
    // Fresh environment: initialize, start, then wait; the engine reports a
    // clean running state and the last 50 log lines carry no error marker.
    let mut handle = NodeHandle::new();
    assert!(handle.needs_container());
    handle.adopt_container(String::from("c-reth"));

    let verdict = probe_verdict(handle.has_container(), &healthy_state(), &clean_logs());
    assert!(matches!(verdict, HealthState::Healthy));

    let mut wait = HealthWait::new();
    assert!(matches!(wait.on_probe(true), WaitDecision::Ready));
}

#[test]
fn test_scenario_exit_code_one_without_consulting_logs() {
    let state = Some(ContainerState {
        running: Some(true),
        exit_code: Some(1),
        oom_killed: Some(false),
        error: Some(String::new()),
    });
    let from_state = state_health(&state);
    assert!(matches!(
        from_state,
        HealthState::Unhealthy(UnhealthyReason::ExitCode(1))
    ));
    match from_state {
        HealthState::Unhealthy(reason) => assert_eq!(reason.message(), "exit_code=1"),
        HealthState::Healthy => unreachable!(),
    }

    // The verdict is the same whether the logs are clean or flagged: the
    // state alone decides.
    let clean = probe_verdict(true, &state, &clean_logs());
    let flagged_logs = vec![LogEntry::Line(b"Error: something".to_vec())];
    let flagged = probe_verdict(true, &state, &flagged_logs);
    assert!(matches!(
        clean,
        HealthState::Unhealthy(UnhealthyReason::ExitCode(1))
    ));
    assert!(matches!(
        flagged,
        HealthState::Unhealthy(UnhealthyReason::ExitCode(1))
    ));
}

#[test]
fn test_scenario_stopped_container_unhealthy() {
    // After stop the engine reports running:false.
    let state = Some(ContainerState {
        running: Some(false),
        exit_code: Some(0),
        oom_killed: Some(false),
        error: Some(String::new()),
    });
    let verdict = probe_verdict(true, &state, &clean_logs());
    assert!(matches!(
        verdict,
        HealthState::Unhealthy(UnhealthyReason::NotRunning)
    ));
    match verdict {
        HealthState::Unhealthy(reason) => assert_eq!(reason.message(), "running=false"),
        HealthState::Healthy => unreachable!(),
    }
}

#[test]
fn test_scenario_monitor_oom_ends_run_with_unhealthy_signal() {
    // The background run reaches monitoring, sees one healthy probe, then an
    // OOM kill: the loop exits and the completion signal carries the
    // node-unhealthy failure, delivered once.
    let mut driver = ServiceDriver::new();
    assert!(matches!(
        driver.current_step(),
        Some(ServiceStep::Initialize)
    ));
    driver.on_step_succeeded();
    assert!(matches!(
        driver.current_step(),
        Some(ServiceStep::StartContainer)
    ));
    driver.on_step_succeeded();
    assert!(matches!(
        driver.current_step(),
        Some(ServiceStep::WaitForHealthy)
    ));
    driver.on_step_succeeded();
    assert!(matches!(
        driver.current_step(),
        Some(ServiceStep::MonitorHealth)
    ));

    // Healthy probe: the loop continues.
    let verdict = probe_verdict(true, &healthy_state(), &clean_logs());
    let healthy = matches!(verdict, HealthState::Healthy);
    assert!(matches!(
        monitor_decision(healthy),
        MonitorDecision::Continue
    ));

    // The next probe reports oom_killed: supervision fails.
    let oom_state = Some(ContainerState {
        running: Some(true),
        exit_code: Some(0),
        oom_killed: Some(true),
        error: Some(String::new()),
    });
    let verdict = probe_verdict(true, &oom_state, &clean_logs());
    assert!(matches!(
        verdict,
        HealthState::Unhealthy(UnhealthyReason::OomKilled)
    ));
    let healthy = matches!(verdict, HealthState::Healthy);
    assert!(matches!(
        monitor_decision(healthy),
        MonitorDecision::FailUnhealthy
    ));

    let signal = driver.on_step_failed(unhealthy_error());
    match signal {
        Error::Container(m) => assert_eq!(m, "Node became unhealthy"),
        _ => unreachable!(),
    }
    assert!(driver.current_step().is_none());
}

#[test]
fn test_unresponsive_error_message() {
    match reth_rpc_blueprint_template::node::unresponsive_error() {
        Error::Container(m) => assert_eq!(m, "Node failed to become healthy"),
        _ => unreachable!(),
    }
}
