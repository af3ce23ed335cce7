//! The service around the coordinator: the durable state, and the registries that a restart
//! empties.
use vstd::prelude::*;

use crate::artifact_registry::{ArtifactRegistry, ArtifactRegistryModel, well_formed};
use crate::automation::interrupted;
use crate::configuration::{CoordinatorAdmission, CoordinatorMainRuntimeConfiguration, CoordinatorServiceStartupConfiguration, MAX_NODE_STALE_AFTER_SECONDS};
use crate::coordinator::{Coordinator, CoordinatorModel, with_automation};
use crate::debug_registry::{DebugRegistry, DebugRegistryModel};
use crate::ids::{Digest, RunId};
use crate::interchange_configuration::{CoordinatorArtifactInterchangeConfiguration, CoordinatorArtifactInterchangeConfigurationModel, default_configuration};
use crate::interchange_registry::{InterchangeRegistry, InterchangeRegistryModel};
use crate::main_runtime::{CoordinatorMainRuntime, CoordinatorMainRuntimeModel};
use crate::node_registry::{NodeRegistry, NodeRegistryModel};
use crate::service_error::CoordinatorServiceError;
use crate::text::{is_blank, trimmed};

verus! {

/// The service.
pub struct CoordinatorService {
    pub coordinator: Coordinator,
    pub node_registry: NodeRegistry,
    pub node_stale_after_seconds: u64,
    pub debug_freeze_timeout_ms: u64,
    pub debug_registry: DebugRegistry,
    pub main_runtime: CoordinatorMainRuntime,
    pub artifact_registry: ArtifactRegistry,
    pub interchange_registry: InterchangeRegistry,
    pub artifact_interchange_configuration: CoordinatorArtifactInterchangeConfiguration,
    pub admission: CoordinatorAdmission,
    pub admin_token_digest: Option<Digest>,
}

/// The model of [`CoordinatorService`].
#[verifier::ext_equal]
pub struct CoordinatorServiceModel {
    pub coordinator: CoordinatorModel,
    pub nodes: NodeRegistryModel,
    pub node_stale_after_seconds: u64,
    pub debug_freeze_timeout_ms: u64,
    pub debug: DebugRegistryModel,
    pub mains: CoordinatorMainRuntimeModel,
    pub artifacts: ArtifactRegistryModel,
    pub interchange: InterchangeRegistryModel,
    pub interchange_configuration: CoordinatorArtifactInterchangeConfigurationModel,
    pub admission: CoordinatorAdmission,
    pub admin_token_digest: Option<Digest>,
}

impl View for CoordinatorService {
    type V = CoordinatorServiceModel;

    open spec fn view(&self) -> CoordinatorServiceModel {
        CoordinatorServiceModel {
            coordinator: self.coordinator@,
            nodes: self.node_registry@,
            node_stale_after_seconds: self.node_stale_after_seconds,
            debug_freeze_timeout_ms: self.debug_freeze_timeout_ms,
            debug: self.debug_registry@,
            mains: self.main_runtime@,
            artifacts: self.artifact_registry@,
            interchange: self.interchange_registry@,
            interchange_configuration: self.artifact_interchange_configuration@,
            admission: self.admission,
            admin_token_digest: self.admin_token_digest,
        }
    }
}

/// An interval after which a node counts as stale that the service starts with.
pub open spec fn stale_interval_fits(startup: CoordinatorServiceStartupConfiguration) -> bool {
    1 <= startup.node_stale_after_seconds <= MAX_NODE_STALE_AFTER_SECONDS
}

/// The service as it starts: the durable state as it was but for the runs that the restart interrupts,
/// and every registry empty.
pub open spec fn started(
    s: CoordinatorServiceModel,
    coordinator: CoordinatorModel,
    admin_token_digest: Option<Digest>,
    admission: CoordinatorAdmission,
    startup: CoordinatorServiceStartupConfiguration,
    limits: CoordinatorMainRuntimeConfiguration,
    now: u64,
) -> bool {
    &&& s.coordinator == with_automation(coordinator, s.coordinator.durable.automation)
    &&& interrupted(coordinator.durable.automation, s.coordinator.durable.automation, now)
    &&& s.nodes.descriptors.len() == 0
    &&& s.nodes.drain_statuses.len() == 0
    &&& s.nodes.last_seen_epoch_seconds.len() == 0
    &&& s.nodes.enrollment_grants.len() == 0
    &&& s.nodes.advertisements.len() == 0
    &&& s.nodes.bindings.len() == 0
    &&& s.node_stale_after_seconds == startup.node_stale_after_seconds
    &&& s.debug_freeze_timeout_ms == 5_000
    &&& s.debug.audit_events.len() == 0
    &&& s.debug.epochs.len() == 0
    &&& s.debug.epoch_runtime.len() == 0
    &&& s.debug.breakpoints.len() == 0
    &&& s.debug.commands.len() == 0
    &&& s.mains.controls.len() == 0
    &&& s.mains.join_waiters == Set::<(Seq<char>, Seq<char>, Seq<char>, Seq<char>)>::empty()
    &&& s.mains.next_launch_id == 1
    &&& s.mains.limits == limits
    &&& s.artifacts.artifacts.len() == 0
    &&& s.artifacts.holds.len() == 0
    &&& s.artifacts.issued_download_links.len() == 0
    &&& s.artifacts.next_epoch == 0
    &&& s.interchange.transfers.len() == 0
    &&& s.interchange.direct_body_bytes == 0
    &&& s.interchange.relayed_body_bytes == 0
    &&& s.interchange.unknown_path_body_bytes == 0
    &&& s.interchange_configuration == default_configuration()
    &&& s.admission == admission
    &&& s.admin_token_digest == admin_token_digest
}

/// The token that the administrator is known by, if one is given that is not blank.
pub fn usable_admin_token(token: Option<String>) -> (r: Option<String>)
    ensures
        r == (match token {
            Some(text) => if trimmed(text@).len() == 0 {
                None
            } else {
                Some(text)
            },
            None => None,
        }),
{
    match token {
        Some(text) => {
            if is_blank(text.as_str()) {
                None
            } else {
                Some(text)
            }
        },
        None => None,
    }
}

impl CoordinatorService {
    /// Starts the service on a coordinator that was booted. The runs that were under way when the
    /// coordinator stopped are failed.
    pub fn new_with_startup_configuration(
        coordinator: Coordinator,
        admin_token_digest: Option<Digest>,
        admission: CoordinatorAdmission,
        startup: CoordinatorServiceStartupConfiguration,
        limits: CoordinatorMainRuntimeConfiguration,
        now: u64,
    ) -> (r: Result<CoordinatorService, CoordinatorServiceError>)
        ensures
            r is Ok <==> stale_interval_fits(startup),
            r matches Err(error) ==> error.protests(
                "node stale interval must be between 1 and 86400 seconds"@,
            ),
            r matches Ok(service) ==> {
                &&& started(
                    service@,
                    coordinator@,
                    admin_token_digest,
                    admission,
                    startup,
                    limits,
                    now,
                )
                &&& well_formed(service@.artifacts)
            },
    {
        match startup.validate() {
            Ok(_) => {},
            Err(text) => {
                return Err(CoordinatorServiceError::Protocol(text));
            },
        }
        let mut coordinator: Coordinator = coordinator;
        let _interrupted: Vec<RunId> =
            coordinator.automation_mut().reconcile_automated_runs_after_coordinator_restart(now);
        Ok(
            CoordinatorService {
                coordinator,
                node_registry: NodeRegistry::new(),
                node_stale_after_seconds: startup.node_stale_after_seconds,
                debug_freeze_timeout_ms: 5_000,
                debug_registry: DebugRegistry::new(),
                main_runtime: CoordinatorMainRuntime::new(limits),
                artifact_registry: ArtifactRegistry::new(),
                interchange_registry: InterchangeRegistry::new(),
                artifact_interchange_configuration:
                    CoordinatorArtifactInterchangeConfiguration::default(),
                admission,
                admin_token_digest,
            },
        )
    }
}

} // verus!
