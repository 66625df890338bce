//! The operations exposed through the job boundary and their structured
//! outcomes. Serialization and transport are the job framework's concern;
//! these functions decide what each job answers.

use vstd::prelude::*;

verus! {

/// Parameters for node restart.
pub struct RestartNodeParams {
    pub clear_cache: bool,
    pub new_config: Option<String>,
}

/// Parameters for snapshot operations.
pub struct SnapshotParams {
    pub path: String,
    pub include_state: bool,
}

/// Parameters for data export.
pub struct ExportParams {
    pub start_block: u64,
    pub end_block: u64,
    pub include_traces: bool,
    pub destination: String,
}

/// The structured result a job returns: success, a message, and at most one
/// echoed detail.
pub struct JobOutcome {
    pub success: bool,
    pub message: String,
    pub detail: Option<String>,
}

/// The restart job's answer once the node was stopped: a success outcome
/// when the container started again, and no outcome — an empty response —
/// when the start failed.
pub fn restart_outcome(start_ok: bool) -> (r: Option<JobOutcome>)
    ensures
        start_ok <==> r is Some,
        start_ok ==> (r matches Some(o) && o.success && o.message@ == "Node restarted successfully"@
            && o.detail is None),
{
    if start_ok {
        Some(
            JobOutcome {
                success: true,
                message: String::from_str("Node restarted successfully"),
                detail: None,
            },
        )
    } else {
        None
    }
}

/// The snapshot job's answer, echoing the requested path.
pub fn snapshot_outcome(params: &SnapshotParams) -> (o: JobOutcome)
    ensures
        o.success,
        o.message@ == "Snapshot created successfully"@,
        o.detail matches Some(d) && d@ == params.path@,
{
    JobOutcome {
        success: true,
        message: String::from_str("Snapshot created successfully"),
        detail: Some(params.path.clone()),
    }
}

/// The export job's answer, echoing the destination.
pub fn export_outcome(params: &ExportParams) -> (o: JobOutcome)
    ensures
        o.success,
        o.message@ == "Historical data exported successfully"@,
        o.detail matches Some(d) && d@ == params.destination@,
{
    JobOutcome {
        success: true,
        message: String::from_str("Historical data exported successfully"),
        detail: Some(params.destination.clone()),
    }
}

} // verus!
