use reth_rpc_blueprint_template::health::{
    state_health, ContainerState, HealthState, UnhealthyReason,
};
use reth_rpc_blueprint_template::logs::{
    line_indicates_error, logs_indicate_error, sanitize_log_line, LogEntry,
};

#[test]
fn test_sanitize_strips_colour_codes_and_trims() {
    let raw = b"\x1b[32mINFO\x1b[0m syncing \x1b[2mblock 7\x1b[0m \n".to_vec();
    let clean = sanitize_log_line(&raw);
    assert_eq!(clean, b"INFO syncing block 7".to_vec());
}

#[test]
fn test_sanitize_plain_line_unchanged() {
    let raw = b"plain text".to_vec();
    assert_eq!(sanitize_log_line(&raw), b"plain text".to_vec());
}

#[test]
fn test_error_marker_both_spellings_flag_line() {
    assert!(line_indicates_error(&b"an error occurred".to_vec()));
    assert!(line_indicates_error(&b"An Error occurred".to_vec()));
    // The scan is for the two literal spellings only: all-caps is not one.
    assert!(!line_indicates_error(&b"AN ERROR OCCURRED".to_vec()));
    assert!(!line_indicates_error(&b"all good".to_vec()));
}

#[test]
fn test_error_marker_found_across_stripped_escape() {
    // Removing a colour reset can join the two halves of the marker.
    assert!(line_indicates_error(&b"err\x1b[0mor".to_vec()));
}

#[test]
fn test_unreadable_entry_flags_logs() {
    let entries = vec![
        LogEntry::Line(b"fine".to_vec()),
        LogEntry::Unreadable,
    ];
    assert!(logs_indicate_error(&entries));
}

#[test]
fn test_empty_log_tail_is_clean() {
    let entries: Vec<LogEntry> = Vec::new();
    assert!(!logs_indicate_error(&entries));
}

#[test]
fn test_state_missing_info_unhealthy() {
    let verdict = state_health(&None);
    assert!(matches!(
        verdict,
        HealthState::Unhealthy(UnhealthyReason::MissingStateInfo)
    ));
    match verdict {
        HealthState::Unhealthy(reason) => assert_eq!(reason.message(), "no state info"),
        HealthState::Healthy => unreachable!(),
    }
}

#[test]
fn test_state_oom_takes_precedence_over_exit_code() {
    let state = Some(ContainerState {
        running: Some(false),
        exit_code: Some(1),
        oom_killed: Some(true),
        error: Some(String::from("boom")),
    });
    assert!(matches!(
        state_health(&state),
        HealthState::Unhealthy(UnhealthyReason::OomKilled)
    ));
}

#[test]
fn test_state_engine_error_reported() {
    let state = Some(ContainerState {
        running: Some(true),
        exit_code: Some(0),
        oom_killed: Some(false),
        error: Some(String::from("boom")),
    });
    let verdict = state_health(&state);
    match verdict {
        HealthState::Unhealthy(UnhealthyReason::EngineError(m)) => assert_eq!(m, "boom"),
        _ => unreachable!(),
    }
}

#[test]
fn test_state_empty_error_is_no_signal() {
    let state = Some(ContainerState {
        running: Some(true),
        exit_code: Some(0),
        oom_killed: Some(false),
        error: Some(String::new()),
    });
    assert!(matches!(state_health(&state), HealthState::Healthy));
}

#[test]
fn test_state_absent_fields_mean_not_running() {
    // With nothing reported at all, the container does not count as running.
    let state = Some(ContainerState {
        running: None,
        exit_code: None,
        oom_killed: None,
        error: None,
    });
    assert!(matches!(
        state_health(&state),
        HealthState::Unhealthy(UnhealthyReason::NotRunning)
    ));
}

#[test]
fn test_negative_exit_code_message() {
    let state = Some(ContainerState {
        running: Some(false),
        exit_code: Some(-2),
        oom_killed: Some(false),
        error: Some(String::new()),
    });
    match state_health(&state) {
        HealthState::Unhealthy(reason) => assert_eq!(reason.message(), "exit_code=-2"),
        HealthState::Healthy => unreachable!(),
    }
}
