//! The compose-driven deployment of the execution client: its configuration
//! context and the decisions and responses of the start and stop jobs. The
//! compose commands themselves are run by the caller.

use crate::decimal::dec_rep;
use crate::text::{blank, is_blank};
use vstd::prelude::*;

verus! {

/// The job id of the start operation.
pub const RETH_START_JOB_ID: u32 = 1;

/// The job id of the stop operation.
pub const RETH_STOP_JOB_ID: u32 = 2;

/// Configuration of the compose-driven deployment.
pub struct RethConfig {
    /// The directory holding the compose deployment.
    pub submodule_path: String,
    /// An optional block tip handed to the node through its environment.
    pub block_tip: Option<String>,
    pub monitoring_port: u16,
    pub grafana_port: u16,
}

impl Default for RethConfig {
    fn default() -> (c: Self)
        ensures
            c.submodule_path@ == "local_reth"@,
            c.block_tip is None,
            c.monitoring_port == 9000,
            c.grafana_port == 3000,
    {
        RethConfig {
            submodule_path: String::from_str("local_reth"),
            block_tip: None,
            monitoring_port: 9000,
            grafana_port: 3000,
        }
    }
}

/// The context the deployment jobs carry.
pub struct RethContext {
    pub config: RethConfig,
}

impl RethContext {
    pub fn new(config: RethConfig) -> (c: Self)
        ensures
            c.config == config,
    {
        RethContext { config }
    }

    pub fn with_default_config() -> (c: Self)
        ensures
            c.config.submodule_path@ == "local_reth"@,
            c.config.block_tip is None,
            c.config.monitoring_port == 9000,
            c.config.grafana_port == 3000,
    {
        RethContext::new(RethConfig::default())
    }
}

/// What the start job does after asking compose which containers run.
pub enum StartAction {
    /// Containers are already up: only follow their logs.
    FollowLogs,
    /// Nothing runs (or the query failed): bring the deployment up.
    ComposeUp,
}

/// Decides the start job's action from the container query's answer: any
/// non-blank listing means the deployment is already up.
pub fn start_plan(ps_output: &Option<String>) -> (a: StartAction)
    ensures
        (a is FollowLogs) <==> (ps_output matches Some(o) && !blank(o@)),
{
    match ps_output {
        Some(o) => {
            if !is_blank(o.as_str()) {
                StartAction::FollowLogs
            } else {
                StartAction::ComposeUp
            }
        },
        None => StartAction::ComposeUp,
    }
}

/// The response of a successful start, naming the monitoring endpoints.
pub open spec fn start_success_text(grafana_port: u16, monitoring_port: u16) -> Seq<char> {
    "Reth node started successfully.\n\nMonitoring dashboard available at: http://localhost:"@
        + dec_rep(grafana_port as nat)
        + "\nLogin with username: admin, password: admin\nPrometheus: http://localhost:9090\nMetrics endpoint: http://localhost:"@
        + dec_rep(monitoring_port as nat)
}

/// Builds the start job's success response.
pub fn start_success_message(config: &RethConfig) -> (r: String)
    ensures
        r@ == start_success_text(config.grafana_port, config.monitoring_port),
{
    let mut s = String::from_str(
        "Reth node started successfully.\n\nMonitoring dashboard available at: http://localhost:",
    );
    let grafana = crate::decimal::u16_to_string(config.grafana_port);
    s.append(grafana.as_str());
    s.append(
        "\nLogin with username: admin, password: admin\nPrometheus: http://localhost:9090\nMetrics endpoint: http://localhost:",
    );
    let metrics = crate::decimal::u16_to_string(config.monitoring_port);
    s.append(metrics.as_str());
    s
}

/// Builds the start job's failure response around the runner's error text.
pub fn start_failure_message(err: &str) -> (r: String)
    ensures
        r@ == "Failed to start Reth node: "@ + err@,
{
    let mut s = String::from_str("Failed to start Reth node: ");
    s.append(err);
    s
}

/// The stop job's success response.
pub fn stop_success_message() -> (r: String)
    ensures
        r@ == "Reth node stopped successfully. All containers and volumes removed."@,
{
    String::from_str("Reth node stopped successfully. All containers and volumes removed.")
}

/// Builds the stop job's failure response around the runner's error text.
pub fn stop_failure_message(err: &str) -> (r: String)
    ensures
        r@ == "Failed to stop Reth node: "@ + err@,
{
    let mut s = String::from_str("Failed to stop Reth node: ");
    s.append(err);
    s
}

} // verus!
