use reth_rpc_blueprint_template::compose::{
    start_failure_message, start_plan, start_success_message, stop_failure_message,
    stop_success_message, RethConfig, RethContext, StartAction, RETH_START_JOB_ID,
    RETH_STOP_JOB_ID,
};
use reth_rpc_blueprint_template::decimal::{i64_to_string, u64_to_string};
use reth_rpc_blueprint_template::jobs::{
    export_outcome, restart_outcome, snapshot_outcome, ExportParams, SnapshotParams,
};
use reth_rpc_blueprint_template::monitoring::{
    compose_logs_args, grafana_report, logs_report, metrics_endpoint, metrics_precheck,
    parse_metrics, service_urls, status_report,
};

#[test]
fn test_context_construction() {
    let ctx = RethContext::with_default_config();
    assert_eq!(ctx.config.submodule_path, "local_reth");
    assert!(ctx.config.block_tip.is_none());
    assert_eq!(ctx.config.monitoring_port, 9000);
    assert_eq!(ctx.config.grafana_port, 3000);

    let custom = RethContext::new(RethConfig {
        submodule_path: String::from("elsewhere"),
        block_tip: Some(String::from("0xabc")),
        monitoring_port: 9100,
        grafana_port: 3100,
    });
    assert_eq!(custom.config.submodule_path, "elsewhere");
    assert_eq!(custom.config.block_tip.as_deref(), Some("0xabc"));
    assert_eq!(RETH_START_JOB_ID, 1);
    assert_eq!(RETH_STOP_JOB_ID, 2);
}

#[test]
fn test_start_plan_decisions() {
    assert!(matches!(
        start_plan(&Some(String::from("abc123\n"))),
        StartAction::FollowLogs
    ));
    assert!(matches!(
        start_plan(&Some(String::from("  \n\t"))),
        StartAction::ComposeUp
    ));
    assert!(matches!(start_plan(&None), StartAction::ComposeUp));
}

#[test]
fn test_start_and_stop_messages() {
    let cfg = RethConfig::default();
    assert_eq!(
        start_success_message(&cfg),
        "Reth node started successfully.\n\n\
         Monitoring dashboard available at: http://localhost:3000\n\
         Login with username: admin, password: admin\n\
         Prometheus: http://localhost:9090\n\
         Metrics endpoint: http://localhost:9000"
    );
    assert_eq!(
        start_failure_message("boom"),
        "Failed to start Reth node: boom"
    );
    assert_eq!(
        stop_success_message(),
        "Reth node stopped successfully. All containers and volumes removed."
    );
    assert_eq!(
        stop_failure_message("boom"),
        "Failed to stop Reth node: boom"
    );
}

#[test]
fn test_status_and_logs_reports() {
    assert_eq!(status_report("  \n"), "No Reth services are currently running.");
    assert_eq!(status_report("reth Up"), "Reth services status:\nreth Up");
    assert_eq!(logs_report(""), "No logs available from Reth node.");
    assert_eq!(logs_report("line"), "Reth node logs:\nline");
}

#[test]
fn test_compose_logs_args() {
    let with_tail = compose_logs_args(&Some(100));
    assert_eq!(with_tail, vec!["logs", "--tail", "100", "reth"]);
    let plain = compose_logs_args(&None);
    assert_eq!(plain, vec!["logs", "reth"]);
}

#[test]
fn test_grafana_report() {
    match grafana_report("grafana Up 2 minutes", 3000) {
        Ok(m) => assert_eq!(
            m,
            "Grafana is running and available at http://localhost:3000\n\
             Login with username: admin, password: admin\n\
             The Reth dashboard should be available after login."
        ),
        Err(_) => unreachable!(),
    }
    match grafana_report("grafana Exited", 3000) {
        Err(m) => assert_eq!(m, "Grafana is not running. Please start the Reth node first."),
        Ok(_) => unreachable!(),
    }
}

#[test]
fn test_metrics_precheck() {
    assert!(metrics_precheck(&Ok(String::from("Reth services status:\nreth Up"))));
    assert!(!metrics_precheck(&Ok(String::from(
        "No Reth services are currently running."
    ))));
    assert!(!metrics_precheck(&Err(String::from("boom"))));
}

#[test]
fn test_metrics_endpoint() {
    assert_eq!(metrics_endpoint(9000), "localhost:9000");
}

#[test]
fn test_parse_metrics_listing() {
    let listing = "# HELP reth_db_size db size\nreth_db_size 42\n\nreth_peers 7.5\nnospace\n";
    let parsed = parse_metrics(listing);
    assert_eq!(
        parsed,
        vec![
            (String::from("reth_db_size"), String::from("42")),
            (String::from("reth_peers"), String::from("7.5")),
        ]
    );
}

#[test]
fn test_parse_metrics_value_keeps_later_spaces() {
    let parsed = parse_metrics("key a b c");
    assert_eq!(parsed, vec![(String::from("key"), String::from("a b c"))]);
}

#[test]
fn test_parse_metrics_crlf_lines() {
    let parsed = parse_metrics("m 1\r\nn 2");
    assert_eq!(
        parsed,
        vec![
            (String::from("m"), String::from("1")),
            (String::from("n"), String::from("2")),
        ]
    );
}

#[test]
fn test_service_urls() {
    let urls = service_urls(&RethConfig::default());
    assert_eq!(urls.len(), 3);
    assert_eq!(urls[0], (String::from("grafana"), String::from("http://localhost:3000")));
    assert_eq!(
        urls[1],
        (String::from("prometheus"), String::from("http://localhost:9090"))
    );
    assert_eq!(urls[2], (String::from("metrics"), String::from("http://localhost:9000")));
}

#[test]
fn test_decimal_rendering() {
    assert_eq!(u64_to_string(0), "0");
    assert_eq!(u64_to_string(30303), "30303");
    assert_eq!(u64_to_string(u64::MAX), "18446744073709551615");
    assert_eq!(i64_to_string(0), "0");
    assert_eq!(i64_to_string(-5), "-5");
    assert_eq!(i64_to_string(i64::MIN), "-9223372036854775808");
}

#[test]
fn test_restart_outcome() {
    let ok = restart_outcome(true).unwrap();
    assert!(ok.success);
    assert_eq!(ok.message, "Node restarted successfully");
    assert!(ok.detail.is_none());
    assert!(restart_outcome(false).is_none());
}

#[test]
fn test_snapshot_outcome_echoes_path() {
    let o = snapshot_outcome(&SnapshotParams {
        path: String::from("/backups/one"),
        include_state: true,
    });
    assert!(o.success);
    assert_eq!(o.message, "Snapshot created successfully");
    assert_eq!(o.detail.as_deref(), Some("/backups/one"));
}

#[test]
fn test_export_outcome_echoes_destination() {
    let o = export_outcome(&ExportParams {
        start_block: 1,
        end_block: 100,
        include_traces: false,
        destination: String::from("/exports/a"),
    });
    assert!(o.success);
    assert_eq!(o.message, "Historical data exported successfully");
    assert_eq!(o.detail.as_deref(), Some("/exports/a"));
}
