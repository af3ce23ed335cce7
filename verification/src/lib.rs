//! The verified logic of the Clusterflux coordinator: what it keeps across restarts, which nodes,
//! processes and artifacts it knows, how artifacts are interchanged between nodes, how pushes lead to
//! automated runs, and how tasks are run, logged, debugged and restarted.
pub mod account_laws;
pub mod admin;
pub mod admission_laws;
pub mod answer_laws;
pub mod artifact_laws;
pub mod artifact_registry;
pub mod artifacts;
pub mod assignment_laws;
pub mod authority_laws;
pub mod authorization;
pub mod automated_launch;
pub mod automated_run;
pub mod automation;
pub mod bundle_laws;
pub mod capability;
pub mod compilation_laws;
pub mod configuration;
pub mod configuration_laws;
pub mod coordinator;
pub mod debug;
pub mod debug_laws;
pub mod debugger_laws;
pub mod debug_registry;
pub mod debug_requests;
pub mod debug_validation;
pub mod duplicate;
pub mod durable;
pub mod durable_runtime;
pub mod environment;
pub mod hold_laws;
pub mod ids;
pub mod interchange;
pub mod interchange_configuration;
pub mod interchange_registry;
pub mod keyed;
pub mod keys;
pub mod launch_laws;
pub mod laws;
pub mod listing_laws;
pub mod logs;
pub mod main_laws;
pub mod main_runtime;
pub mod node_laws;
pub mod node_registry;
pub mod ordered;
pub mod ordered_map;
pub mod ordered_set;
pub mod postgres_store;
pub mod record_laws;
pub mod refusal_laws;
pub mod relay;
pub mod request_laws;
pub mod restart;
pub mod restart_laws;
pub mod retention_laws;
pub mod run_course_laws;
pub mod run_laws;
pub mod sequences;
pub mod service;
pub mod service_automation;
pub mod service_error;
pub mod service_laws;
pub mod service_status;
pub mod settings_laws;
pub mod system_tasks;
pub mod task_laws;
pub mod tasks;
pub mod text;
pub mod text_laws;
pub mod transfer;
pub mod transfer_laws;
pub mod upkeep_laws;
pub mod workflow_bundle;

pub use automated_run::{AcceptedCommitTriggerRecord, AutomatedRunStageRecord, ProjectEnvironmentRecord};
pub use admin::{HostedAccountMutationResult, HostedTenantAdminStatus};
pub use configuration::{
    CoordinatorAdmission, CoordinatorMainRuntimeConfiguration, CoordinatorOperationalMetrics,
    CoordinatorServiceStartupConfiguration,
};
pub use coordinator::{AccountPolicyState, ActiveProcess, Coordinator, CoordinatorError};
pub use debug::TaskCancellationTarget;
pub use debug_registry::{DebugAcknowledgementState, DebugAuditEvent, DebugParticipantAcknowledgement};
pub use durable::{
    AgentPublicKeyRecord, CliSessionRecord, CredentialRecord, DurableState, DurableStore,
    FallibleDurableStore, HostedAdminAuditRecord, HostedAdminDurableState, InMemoryDurableStore,
    NodeIdentityRecord, ProjectPermissionRecord, ProjectRecord, ServicePolicyRecord,
    SourceProviderConfigRecord, TenantQuotaOverrideRecord, TenantQuotaOverrideValues, TenantRecord,
    UserRecord,
};
pub use ids::NodeScopeKey;
pub use interchange_configuration::CoordinatorArtifactInterchangeConfiguration;
pub use postgres_store::{PostgresDurableStore, PostgresTable};
pub use restart::TaskFailureResolution;
pub use service::CoordinatorService;
pub use service_error::CoordinatorServiceError;
pub use service_status::AdmissionQuotaLimits;
pub use tasks::{
    TaskAssignment, TaskAttemptState, TaskCompletionEvent, TaskExecutor, TaskTerminalState,
};
