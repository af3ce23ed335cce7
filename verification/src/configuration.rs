//! Service limits, startup configuration and the figures that the service reports of itself.
use vstd::prelude::*;
use vstd::string::*;

use crate::text::{concat3, decimal, decimal_text};

verus! {

pub const MAX_TASK_LOG_TAIL_BYTES: usize = 262_144;

pub const DEBUG_CONTROL_READ_BYTES: u64 = 1024;

pub const MAX_DEBUG_AUDIT_EVENTS_PER_PROCESS: usize = 256;

pub const MAX_DEBUG_AUDIT_EVENTS_TOTAL: usize = 8_192;

pub const MAX_IN_FLIGHT_TASKS_PER_PROCESS: usize = 256;

pub const MAX_RECENT_LOG_CHUNK_BYTES: usize = 16_384;

pub const DEFAULT_NODE_STALE_AFTER_SECONDS: u64 = 30;

pub const MAX_NODE_STALE_AFTER_SECONDS: u64 = 86_400;

pub const MAX_COORDINATOR_NESTED_JOIN_TIMEOUT_MS: u64 = 86_400_000;

pub const MAX_COORDINATOR_WAKEUPS_PER_MINUTE: u64 = 1_000_000;

/// A requested time to live, brought into the range from one second to the maximum.
pub open spec fn clamped_ttl(requested: u64, maximum: u64) -> u64 {
    if requested < 1 {
        1
    } else if requested > maximum {
        maximum
    } else {
        requested
    }
}

/// Brings a requested time to live into the range from one second to `maximum`.
pub fn bounded_ttl(requested: u64, maximum: u64) -> (r: u64)
    requires
        maximum >= 1,
    ensures
        r == clamped_ttl(requested, maximum),
        1 <= r <= maximum,
{
    if requested < 1 {
        1
    } else if requested > maximum {
        maximum
    } else {
        requested
    }
}

/// What the Wasm runtime that hosts coordinator mains allows at most.
#[derive(Clone, Copy, Debug, PartialEq, Eq, Structural)]
pub struct MainRuntimeCeilings {
    pub max_mains: usize,
    pub max_state_bytes: usize,
}

/// Limits of the coordinator mains.
#[derive(Clone, Copy, Debug, PartialEq, Eq, Structural)]
pub struct CoordinatorMainRuntimeConfiguration {
    pub fuel_units_per_second: u64,
    pub fuel_burst_seconds: u64,
    pub memory_bytes: usize,
    pub nested_join_timeout_ms: u64,
    pub max_active_mains: usize,
    pub max_wakeups_per_minute: u64,
    pub max_output_bytes: usize,
    pub max_state_bytes: usize,
}

impl CoordinatorMainRuntimeConfiguration {
    /// Every limit is positive and within its ceiling.
    pub open spec fn within(&self, ceilings: MainRuntimeCeilings) -> bool {
        &&& 1 <= self.nested_join_timeout_ms <= MAX_COORDINATOR_NESTED_JOIN_TIMEOUT_MS
        &&& 1 <= self.max_active_mains <= ceilings.max_mains
        &&& 1 <= self.max_wakeups_per_minute <= MAX_COORDINATOR_WAKEUPS_PER_MINUTE
        &&& 1 <= self.max_output_bytes <= MAX_TASK_LOG_TAIL_BYTES
        &&& 1 <= self.max_state_bytes <= ceilings.max_state_bytes
    }

    /// The text of the refusal of limits that are out of range.
    pub open spec fn refusal(ceilings: MainRuntimeCeilings) -> Seq<char> {
        "coordinator main limits are zero or exceed the bounded runtime ceilings (max_active_mains="@
            + decimal(ceilings.max_mains as nat) + ")"@
    }

    /// Checks the limits. `runtime` is what the Wasm runtime says of the fuel and memory limits.
    pub fn validate(&self, ceilings: MainRuntimeCeilings, runtime: Result<(), String>) -> (r: Result<
        (),
        String,
    >)
        ensures
            self.within(ceilings) ==> r == runtime,
            !self.within(ceilings) ==> r is Err && r->Err_0@ == Self::refusal(ceilings),
    {
        if self.nested_join_timeout_ms == 0 || self.nested_join_timeout_ms
            > MAX_COORDINATOR_NESTED_JOIN_TIMEOUT_MS || self.max_active_mains == 0
            || self.max_active_mains > ceilings.max_mains || self.max_wakeups_per_minute == 0
            || self.max_wakeups_per_minute > MAX_COORDINATOR_WAKEUPS_PER_MINUTE
            || self.max_output_bytes == 0 || self.max_output_bytes > MAX_TASK_LOG_TAIL_BYTES
            || self.max_state_bytes == 0 || self.max_state_bytes > ceilings.max_state_bytes {
            let limit: String = decimal_text(ceilings.max_mains as u64);
            return Err(
                concat3(
                    "coordinator main limits are zero or exceed the bounded runtime ceilings (max_active_mains=",
                    limit.as_str(),
                    ")",
                ),
            );
        }
        runtime
    }

    /// The limits in force where nothing else is configured.
    pub fn default_for(ceilings: MainRuntimeCeilings) -> (r: Self)
        ensures
            r == (CoordinatorMainRuntimeConfiguration {
                fuel_units_per_second: 10_000_000,
                fuel_burst_seconds: 60,
                memory_bytes: 268_435_456,
                nested_join_timeout_ms: 86_400_000,
                max_active_mains: ceilings.max_mains,
                max_wakeups_per_minute: 6_000,
                max_output_bytes: MAX_TASK_LOG_TAIL_BYTES,
                max_state_bytes: ceilings.max_state_bytes,
            }),
            ceilings.max_mains >= 1 && ceilings.max_state_bytes >= 1 ==> r.within(ceilings),
    {
        CoordinatorMainRuntimeConfiguration {
            fuel_units_per_second: 10_000_000,
            fuel_burst_seconds: 60,
            memory_bytes: 268_435_456,
            nested_join_timeout_ms: 86_400_000,
            max_active_mains: ceilings.max_mains,
            max_wakeups_per_minute: 6_000,
            max_output_bytes: MAX_TASK_LOG_TAIL_BYTES,
            max_state_bytes: ceilings.max_state_bytes,
        }
    }
}

/// What is fixed when the service starts.
#[derive(Clone, Copy, Debug, PartialEq, Eq, Structural)]
pub struct CoordinatorServiceStartupConfiguration {
    pub node_stale_after_seconds: u64,
}

impl Default for CoordinatorServiceStartupConfiguration {
    fn default() -> (r: Self)
        ensures
            r.node_stale_after_seconds == DEFAULT_NODE_STALE_AFTER_SECONDS,
    {
        CoordinatorServiceStartupConfiguration {
            node_stale_after_seconds: DEFAULT_NODE_STALE_AFTER_SECONDS,
        }
    }
}

impl CoordinatorServiceStartupConfiguration {
    /// Accepts a stale interval from one second to one day.
    pub fn validate(self) -> (r: Result<Self, String>)
        ensures
            1 <= self.node_stale_after_seconds <= MAX_NODE_STALE_AFTER_SECONDS ==> r == Ok::<
                Self,
                String,
            >(self),
            !(1 <= self.node_stale_after_seconds <= MAX_NODE_STALE_AFTER_SECONDS) ==> {
                &&& r is Err
                &&& r->Err_0@ == "node stale interval must be between 1 and 86400 seconds"@
            },
    {
        if self.node_stale_after_seconds < 1 || self.node_stale_after_seconds
            > MAX_NODE_STALE_AFTER_SECONDS {
            return Err("node stale interval must be between 1 and 86400 seconds".to_owned());
        }
        Ok(self)
    }
}

/// What the service admits.
#[derive(Clone, Copy, Debug, PartialEq, Eq, Structural)]
pub struct CoordinatorAdmission {
    pub workflow_placement_allowed: bool,
    pub max_node_enrollment_ttl_seconds: u64,
    pub max_artifact_download_ttl_seconds: u64,
}

impl Default for CoordinatorAdmission {
    fn default() -> (r: Self)
        ensures
            r == (CoordinatorAdmission {
                workflow_placement_allowed: true,
                max_node_enrollment_ttl_seconds: 900,
                max_artifact_download_ttl_seconds: 900,
            }),
    {
        CoordinatorAdmission {
            workflow_placement_allowed: true,
            max_node_enrollment_ttl_seconds: 900,
            max_artifact_download_ttl_seconds: 900,
        }
    }
}

/// The figures that the service reports of itself.
#[derive(Clone, Copy, Debug, PartialEq, Eq, Structural, Default)]
pub struct CoordinatorOperationalMetrics {
    pub tenants: usize,
    pub users: usize,
    pub projects: usize,
    pub enrolled_nodes: usize,
    pub reported_nodes: usize,
    pub live_nodes: usize,
    pub active_processes: usize,
    pub active_coordinator_mains: usize,
    pub max_active_coordinator_mains: usize,
    pub active_tasks: usize,
    pub queued_tasks: usize,
    pub artifacts: usize,
    pub retained_download_links: usize,
    pub artifact_direct_body_bytes: u64,
    pub artifact_relayed_body_bytes: u64,
    pub artifact_unknown_path_body_bytes: u64,
    pub system_assignments_pending: usize,
    pub system_assignments_running: usize,
    pub system_assignments_failed: usize,
    pub compile_wait_seconds: u64,
    pub compile_duration_seconds: u64,
    pub compile_result_bytes: usize,
    pub system_bundle_mismatches: usize,
    pub node_policy_rejections: usize,
}

} // verus!
