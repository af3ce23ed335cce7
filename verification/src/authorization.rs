//! What a user who is signed in may ask for.
use vstd::prelude::*;

use crate::debug_registry::SourceLocation;
use crate::duplicate::TextList;
use crate::ids::{Actor, AgentId, AuthContext, ProjectId, TenantId, UserId};
use crate::service_error::{CoordinatorServiceError, unauthorized};
use crate::text::concat3;

verus! {

/// What a user asks for. Of what is asked, only what decides here is held.
pub enum AuthenticatedCoordinatorRequest {
    AuthStatus,
    RevokeCliSession,
    CreateProject,
    SelectProject,
    ListProjects,
    ListAutomatedRuns,
    GetAutomatedRun,
    CancelAutomatedRun,
    RetryAutomatedRun,
    TriggerAutomatedRun,
    ListWebhookDeliveries,
    SetProjectSecret,
    ListProjectSecrets,
    RevokeProjectSecret,
    RegisterAgentPublicKey { agent: String, public_key: String },
    ListAgentPublicKeys,
    RotateAgentPublicKey { agent: String, public_key: String },
    RevokeAgentPublicKey { agent: String },
    CreateNodeEnrollmentGrant,
    ListNodeDescriptors,
    ListNodeSummaries,
    RevokeNodeCredential,
    StartProcess,
    ScheduleTask,
    LaunchTask,
    CancelProcess,
    AbortProcess,
    ListProcesses,
    ListProcessSummaries,
    QuotaStatus,
    RestartTask,
    ResolveTaskFailure,
    DebugAttach { process: String },
    SetDebugBreakpoints {
        process: String,
        revision: u64,
        probe_symbols: TextList,
        probe_locations: Vec<SourceLocation>,
    },
    InspectDebugBreakpoints { process: String },
    CreateDebugEpoch { process: String, stopped_task: String, reason: String },
    ResumeDebugEpoch { process: String, epoch: u64 },
    InspectDebugEpoch { process: String, epoch: u64 },
    ListTaskEvents,
    ListTaskSnapshots,
    ListRecentLogs,
    JoinTask,
    ListArtifacts,
    GetArtifact,
    CreateArtifactDownloadLink,
    RevokeArtifactDownloadLink,
    ExportArtifactToNode { artifact: String, receiver_node: String },
}

/// The operations that a user may ask for.
#[derive(Clone, Copy, Debug, PartialEq, Eq, Structural)]
pub enum PublicUserOperation {
    AuthStatus,
    RevokeCliSession,
    CreateProject,
    SelectProject,
    ListProjects,
    ListAutomatedRuns,
    GetAutomatedRun,
    CancelAutomatedRun,
    RetryAutomatedRun,
    TriggerAutomatedRun,
    ListWebhookDeliveries,
    SetProjectSecret,
    ListProjectSecrets,
    RevokeProjectSecret,
    RegisterAgentPublicKey,
    ListAgentPublicKeys,
    RotateAgentPublicKey,
    RevokeAgentPublicKey,
    CreateNodeEnrollmentGrant,
    ListNodeDescriptors,
    ListNodeSummaries,
    RevokeNodeCredential,
    StartProcess,
    ScheduleTask,
    LaunchTask,
    CancelProcess,
    AbortProcess,
    ListProcesses,
    ListProcessSummaries,
    QuotaStatus,
    RestartTask,
    ResolveTaskFailure,
    DebugAttach,
    SetDebugBreakpoints,
    InspectDebugBreakpoints,
    CreateDebugEpoch,
    ResumeDebugEpoch,
    InspectDebugEpoch,
    ListTaskEvents,
    ListTaskSnapshots,
    ListRecentLogs,
    JoinTask,
    ListArtifacts,
    GetArtifact,
    CreateArtifactDownloadLink,
    RevokeArtifactDownloadLink,
    ExportArtifactToNode,
}

impl PublicUserOperation {
    /// The name of the operation.
    pub open spec fn name(self) -> Seq<char> {
        match self {
            PublicUserOperation::AuthStatus => "auth_status"@,
            PublicUserOperation::RevokeCliSession => "revoke_cli_session"@,
            PublicUserOperation::CreateProject => "create_project"@,
            PublicUserOperation::SelectProject => "select_project"@,
            PublicUserOperation::ListProjects => "list_projects"@,
            PublicUserOperation::ListAutomatedRuns => "list_automated_runs"@,
            PublicUserOperation::GetAutomatedRun => "get_automated_run"@,
            PublicUserOperation::CancelAutomatedRun => "cancel_automated_run"@,
            PublicUserOperation::RetryAutomatedRun => "retry_automated_run"@,
            PublicUserOperation::TriggerAutomatedRun => "trigger_automated_run"@,
            PublicUserOperation::ListWebhookDeliveries => "list_webhook_deliveries"@,
            PublicUserOperation::SetProjectSecret => "set_project_secret"@,
            PublicUserOperation::ListProjectSecrets => "list_project_secrets"@,
            PublicUserOperation::RevokeProjectSecret => "revoke_project_secret"@,
            PublicUserOperation::RegisterAgentPublicKey => "register_agent_public_key"@,
            PublicUserOperation::ListAgentPublicKeys => "list_agent_public_keys"@,
            PublicUserOperation::RotateAgentPublicKey => "rotate_agent_public_key"@,
            PublicUserOperation::RevokeAgentPublicKey => "revoke_agent_public_key"@,
            PublicUserOperation::CreateNodeEnrollmentGrant => "create_node_enrollment_grant"@,
            PublicUserOperation::ListNodeDescriptors => "list_node_descriptors"@,
            PublicUserOperation::ListNodeSummaries => "list_node_summaries"@,
            PublicUserOperation::RevokeNodeCredential => "revoke_node_credential"@,
            PublicUserOperation::StartProcess => "start_process"@,
            PublicUserOperation::ScheduleTask => "schedule_task"@,
            PublicUserOperation::LaunchTask => "launch_task"@,
            PublicUserOperation::CancelProcess => "cancel_process"@,
            PublicUserOperation::AbortProcess => "abort_process"@,
            PublicUserOperation::ListProcesses => "list_processes"@,
            PublicUserOperation::ListProcessSummaries => "list_process_summaries"@,
            PublicUserOperation::QuotaStatus => "quota_status"@,
            PublicUserOperation::RestartTask => "restart_task"@,
            PublicUserOperation::ResolveTaskFailure => "resolve_task_failure"@,
            PublicUserOperation::DebugAttach => "debug_attach"@,
            PublicUserOperation::SetDebugBreakpoints => "set_debug_breakpoints"@,
            PublicUserOperation::InspectDebugBreakpoints => "inspect_debug_breakpoints"@,
            PublicUserOperation::CreateDebugEpoch => "create_debug_epoch"@,
            PublicUserOperation::ResumeDebugEpoch => "resume_debug_epoch"@,
            PublicUserOperation::InspectDebugEpoch => "inspect_debug_epoch"@,
            PublicUserOperation::ListTaskEvents => "list_task_events"@,
            PublicUserOperation::ListTaskSnapshots => "list_task_snapshots"@,
            PublicUserOperation::ListRecentLogs => "list_recent_logs"@,
            PublicUserOperation::JoinTask => "join_task"@,
            PublicUserOperation::ListArtifacts => "list_artifacts"@,
            PublicUserOperation::GetArtifact => "get_artifact"@,
            PublicUserOperation::CreateArtifactDownloadLink => "create_artifact_download_link"@,
            PublicUserOperation::RevokeArtifactDownloadLink => "revoke_artifact_download_link"@,
            PublicUserOperation::ExportArtifactToNode => "export_artifact_to_node"@,
        }
    }

    /// The name of the operation.
    pub fn as_str(self) -> (r: &'static str)
        ensures
            r@ == self.name(),
    {
        match self {
            PublicUserOperation::AuthStatus => "auth_status",
            PublicUserOperation::RevokeCliSession => "revoke_cli_session",
            PublicUserOperation::CreateProject => "create_project",
            PublicUserOperation::SelectProject => "select_project",
            PublicUserOperation::ListProjects => "list_projects",
            PublicUserOperation::ListAutomatedRuns => "list_automated_runs",
            PublicUserOperation::GetAutomatedRun => "get_automated_run",
            PublicUserOperation::CancelAutomatedRun => "cancel_automated_run",
            PublicUserOperation::RetryAutomatedRun => "retry_automated_run",
            PublicUserOperation::TriggerAutomatedRun => "trigger_automated_run",
            PublicUserOperation::ListWebhookDeliveries => "list_webhook_deliveries",
            PublicUserOperation::SetProjectSecret => "set_project_secret",
            PublicUserOperation::ListProjectSecrets => "list_project_secrets",
            PublicUserOperation::RevokeProjectSecret => "revoke_project_secret",
            PublicUserOperation::RegisterAgentPublicKey => "register_agent_public_key",
            PublicUserOperation::ListAgentPublicKeys => "list_agent_public_keys",
            PublicUserOperation::RotateAgentPublicKey => "rotate_agent_public_key",
            PublicUserOperation::RevokeAgentPublicKey => "revoke_agent_public_key",
            PublicUserOperation::CreateNodeEnrollmentGrant => "create_node_enrollment_grant",
            PublicUserOperation::ListNodeDescriptors => "list_node_descriptors",
            PublicUserOperation::ListNodeSummaries => "list_node_summaries",
            PublicUserOperation::RevokeNodeCredential => "revoke_node_credential",
            PublicUserOperation::StartProcess => "start_process",
            PublicUserOperation::ScheduleTask => "schedule_task",
            PublicUserOperation::LaunchTask => "launch_task",
            PublicUserOperation::CancelProcess => "cancel_process",
            PublicUserOperation::AbortProcess => "abort_process",
            PublicUserOperation::ListProcesses => "list_processes",
            PublicUserOperation::ListProcessSummaries => "list_process_summaries",
            PublicUserOperation::QuotaStatus => "quota_status",
            PublicUserOperation::RestartTask => "restart_task",
            PublicUserOperation::ResolveTaskFailure => "resolve_task_failure",
            PublicUserOperation::DebugAttach => "debug_attach",
            PublicUserOperation::SetDebugBreakpoints => "set_debug_breakpoints",
            PublicUserOperation::InspectDebugBreakpoints => "inspect_debug_breakpoints",
            PublicUserOperation::CreateDebugEpoch => "create_debug_epoch",
            PublicUserOperation::ResumeDebugEpoch => "resume_debug_epoch",
            PublicUserOperation::InspectDebugEpoch => "inspect_debug_epoch",
            PublicUserOperation::ListTaskEvents => "list_task_events",
            PublicUserOperation::ListTaskSnapshots => "list_task_snapshots",
            PublicUserOperation::ListRecentLogs => "list_recent_logs",
            PublicUserOperation::JoinTask => "join_task",
            PublicUserOperation::ListArtifacts => "list_artifacts",
            PublicUserOperation::GetArtifact => "get_artifact",
            PublicUserOperation::CreateArtifactDownloadLink => "create_artifact_download_link",
            PublicUserOperation::RevokeArtifactDownloadLink => "revoke_artifact_download_link",
            PublicUserOperation::ExportArtifactToNode => "export_artifact_to_node",
        }
    }

    /// The operation that is asked for.
    pub open spec fn asked(request: AuthenticatedCoordinatorRequest) -> PublicUserOperation {
        match request {
            AuthenticatedCoordinatorRequest::AuthStatus => PublicUserOperation::AuthStatus,
            AuthenticatedCoordinatorRequest::RevokeCliSession => PublicUserOperation::RevokeCliSession,
            AuthenticatedCoordinatorRequest::CreateProject => PublicUserOperation::CreateProject,
            AuthenticatedCoordinatorRequest::SelectProject => PublicUserOperation::SelectProject,
            AuthenticatedCoordinatorRequest::ListProjects => PublicUserOperation::ListProjects,
            AuthenticatedCoordinatorRequest::ListAutomatedRuns => PublicUserOperation::ListAutomatedRuns,
            AuthenticatedCoordinatorRequest::GetAutomatedRun => PublicUserOperation::GetAutomatedRun,
            AuthenticatedCoordinatorRequest::CancelAutomatedRun => PublicUserOperation::CancelAutomatedRun,
            AuthenticatedCoordinatorRequest::RetryAutomatedRun => PublicUserOperation::RetryAutomatedRun,
            AuthenticatedCoordinatorRequest::TriggerAutomatedRun => PublicUserOperation::TriggerAutomatedRun,
            AuthenticatedCoordinatorRequest::ListWebhookDeliveries => PublicUserOperation::ListWebhookDeliveries,
            AuthenticatedCoordinatorRequest::SetProjectSecret => PublicUserOperation::SetProjectSecret,
            AuthenticatedCoordinatorRequest::ListProjectSecrets => PublicUserOperation::ListProjectSecrets,
            AuthenticatedCoordinatorRequest::RevokeProjectSecret => PublicUserOperation::RevokeProjectSecret,
            AuthenticatedCoordinatorRequest::RegisterAgentPublicKey { .. } => PublicUserOperation::RegisterAgentPublicKey,
            AuthenticatedCoordinatorRequest::ListAgentPublicKeys => PublicUserOperation::ListAgentPublicKeys,
            AuthenticatedCoordinatorRequest::RotateAgentPublicKey { .. } => PublicUserOperation::RotateAgentPublicKey,
            AuthenticatedCoordinatorRequest::RevokeAgentPublicKey { .. } => PublicUserOperation::RevokeAgentPublicKey,
            AuthenticatedCoordinatorRequest::CreateNodeEnrollmentGrant => PublicUserOperation::CreateNodeEnrollmentGrant,
            AuthenticatedCoordinatorRequest::ListNodeDescriptors => PublicUserOperation::ListNodeDescriptors,
            AuthenticatedCoordinatorRequest::ListNodeSummaries => PublicUserOperation::ListNodeSummaries,
            AuthenticatedCoordinatorRequest::RevokeNodeCredential => PublicUserOperation::RevokeNodeCredential,
            AuthenticatedCoordinatorRequest::StartProcess => PublicUserOperation::StartProcess,
            AuthenticatedCoordinatorRequest::ScheduleTask => PublicUserOperation::ScheduleTask,
            AuthenticatedCoordinatorRequest::LaunchTask => PublicUserOperation::LaunchTask,
            AuthenticatedCoordinatorRequest::CancelProcess => PublicUserOperation::CancelProcess,
            AuthenticatedCoordinatorRequest::AbortProcess => PublicUserOperation::AbortProcess,
            AuthenticatedCoordinatorRequest::ListProcesses => PublicUserOperation::ListProcesses,
            AuthenticatedCoordinatorRequest::ListProcessSummaries => PublicUserOperation::ListProcessSummaries,
            AuthenticatedCoordinatorRequest::QuotaStatus => PublicUserOperation::QuotaStatus,
            AuthenticatedCoordinatorRequest::RestartTask => PublicUserOperation::RestartTask,
            AuthenticatedCoordinatorRequest::ResolveTaskFailure => PublicUserOperation::ResolveTaskFailure,
            AuthenticatedCoordinatorRequest::DebugAttach { .. } => PublicUserOperation::DebugAttach,
            AuthenticatedCoordinatorRequest::SetDebugBreakpoints { .. } => PublicUserOperation::SetDebugBreakpoints,
            AuthenticatedCoordinatorRequest::InspectDebugBreakpoints { .. } => PublicUserOperation::InspectDebugBreakpoints,
            AuthenticatedCoordinatorRequest::CreateDebugEpoch { .. } => PublicUserOperation::CreateDebugEpoch,
            AuthenticatedCoordinatorRequest::ResumeDebugEpoch { .. } => PublicUserOperation::ResumeDebugEpoch,
            AuthenticatedCoordinatorRequest::InspectDebugEpoch { .. } => PublicUserOperation::InspectDebugEpoch,
            AuthenticatedCoordinatorRequest::ListTaskEvents => PublicUserOperation::ListTaskEvents,
            AuthenticatedCoordinatorRequest::ListTaskSnapshots => PublicUserOperation::ListTaskSnapshots,
            AuthenticatedCoordinatorRequest::ListRecentLogs => PublicUserOperation::ListRecentLogs,
            AuthenticatedCoordinatorRequest::JoinTask => PublicUserOperation::JoinTask,
            AuthenticatedCoordinatorRequest::ListArtifacts => PublicUserOperation::ListArtifacts,
            AuthenticatedCoordinatorRequest::GetArtifact => PublicUserOperation::GetArtifact,
            AuthenticatedCoordinatorRequest::CreateArtifactDownloadLink => PublicUserOperation::CreateArtifactDownloadLink,
            AuthenticatedCoordinatorRequest::RevokeArtifactDownloadLink => PublicUserOperation::RevokeArtifactDownloadLink,
            AuthenticatedCoordinatorRequest::ExportArtifactToNode { .. } => PublicUserOperation::ExportArtifactToNode,
        }
    }

    /// The operation that is asked for.
    pub fn from(request: &AuthenticatedCoordinatorRequest) -> (r: PublicUserOperation)
        ensures
            r == PublicUserOperation::asked(*request),
    {
        match request {
            AuthenticatedCoordinatorRequest::AuthStatus => PublicUserOperation::AuthStatus,
            AuthenticatedCoordinatorRequest::RevokeCliSession => PublicUserOperation::RevokeCliSession,
            AuthenticatedCoordinatorRequest::CreateProject => PublicUserOperation::CreateProject,
            AuthenticatedCoordinatorRequest::SelectProject => PublicUserOperation::SelectProject,
            AuthenticatedCoordinatorRequest::ListProjects => PublicUserOperation::ListProjects,
            AuthenticatedCoordinatorRequest::ListAutomatedRuns => PublicUserOperation::ListAutomatedRuns,
            AuthenticatedCoordinatorRequest::GetAutomatedRun => PublicUserOperation::GetAutomatedRun,
            AuthenticatedCoordinatorRequest::CancelAutomatedRun => PublicUserOperation::CancelAutomatedRun,
            AuthenticatedCoordinatorRequest::RetryAutomatedRun => PublicUserOperation::RetryAutomatedRun,
            AuthenticatedCoordinatorRequest::TriggerAutomatedRun => PublicUserOperation::TriggerAutomatedRun,
            AuthenticatedCoordinatorRequest::ListWebhookDeliveries => PublicUserOperation::ListWebhookDeliveries,
            AuthenticatedCoordinatorRequest::SetProjectSecret => PublicUserOperation::SetProjectSecret,
            AuthenticatedCoordinatorRequest::ListProjectSecrets => PublicUserOperation::ListProjectSecrets,
            AuthenticatedCoordinatorRequest::RevokeProjectSecret => PublicUserOperation::RevokeProjectSecret,
            AuthenticatedCoordinatorRequest::RegisterAgentPublicKey { .. } => PublicUserOperation::RegisterAgentPublicKey,
            AuthenticatedCoordinatorRequest::ListAgentPublicKeys => PublicUserOperation::ListAgentPublicKeys,
            AuthenticatedCoordinatorRequest::RotateAgentPublicKey { .. } => PublicUserOperation::RotateAgentPublicKey,
            AuthenticatedCoordinatorRequest::RevokeAgentPublicKey { .. } => PublicUserOperation::RevokeAgentPublicKey,
            AuthenticatedCoordinatorRequest::CreateNodeEnrollmentGrant => PublicUserOperation::CreateNodeEnrollmentGrant,
            AuthenticatedCoordinatorRequest::ListNodeDescriptors => PublicUserOperation::ListNodeDescriptors,
            AuthenticatedCoordinatorRequest::ListNodeSummaries => PublicUserOperation::ListNodeSummaries,
            AuthenticatedCoordinatorRequest::RevokeNodeCredential => PublicUserOperation::RevokeNodeCredential,
            AuthenticatedCoordinatorRequest::StartProcess => PublicUserOperation::StartProcess,
            AuthenticatedCoordinatorRequest::ScheduleTask => PublicUserOperation::ScheduleTask,
            AuthenticatedCoordinatorRequest::LaunchTask => PublicUserOperation::LaunchTask,
            AuthenticatedCoordinatorRequest::CancelProcess => PublicUserOperation::CancelProcess,
            AuthenticatedCoordinatorRequest::AbortProcess => PublicUserOperation::AbortProcess,
            AuthenticatedCoordinatorRequest::ListProcesses => PublicUserOperation::ListProcesses,
            AuthenticatedCoordinatorRequest::ListProcessSummaries => PublicUserOperation::ListProcessSummaries,
            AuthenticatedCoordinatorRequest::QuotaStatus => PublicUserOperation::QuotaStatus,
            AuthenticatedCoordinatorRequest::RestartTask => PublicUserOperation::RestartTask,
            AuthenticatedCoordinatorRequest::ResolveTaskFailure => PublicUserOperation::ResolveTaskFailure,
            AuthenticatedCoordinatorRequest::DebugAttach { .. } => PublicUserOperation::DebugAttach,
            AuthenticatedCoordinatorRequest::SetDebugBreakpoints { .. } => PublicUserOperation::SetDebugBreakpoints,
            AuthenticatedCoordinatorRequest::InspectDebugBreakpoints { .. } => PublicUserOperation::InspectDebugBreakpoints,
            AuthenticatedCoordinatorRequest::CreateDebugEpoch { .. } => PublicUserOperation::CreateDebugEpoch,
            AuthenticatedCoordinatorRequest::ResumeDebugEpoch { .. } => PublicUserOperation::ResumeDebugEpoch,
            AuthenticatedCoordinatorRequest::InspectDebugEpoch { .. } => PublicUserOperation::InspectDebugEpoch,
            AuthenticatedCoordinatorRequest::ListTaskEvents => PublicUserOperation::ListTaskEvents,
            AuthenticatedCoordinatorRequest::ListTaskSnapshots => PublicUserOperation::ListTaskSnapshots,
            AuthenticatedCoordinatorRequest::ListRecentLogs => PublicUserOperation::ListRecentLogs,
            AuthenticatedCoordinatorRequest::JoinTask => PublicUserOperation::JoinTask,
            AuthenticatedCoordinatorRequest::ListArtifacts => PublicUserOperation::ListArtifacts,
            AuthenticatedCoordinatorRequest::GetArtifact => PublicUserOperation::GetArtifact,
            AuthenticatedCoordinatorRequest::CreateArtifactDownloadLink => PublicUserOperation::CreateArtifactDownloadLink,
            AuthenticatedCoordinatorRequest::RevokeArtifactDownloadLink => PublicUserOperation::RevokeArtifactDownloadLink,
            AuthenticatedCoordinatorRequest::ExportArtifactToNode { .. } => PublicUserOperation::ExportArtifactToNode,
        }
    }
}

/// A user who may do what is asked for.
pub struct AuthorizedPublicUser {
    pub actor: UserId,
    pub operation: PublicUserOperation,
}

/// Lets a user, and no other actor, do what is asked for.
pub fn authorize_authenticated_user_operation(
    context: &AuthContext,
    request: &AuthenticatedCoordinatorRequest,
) -> (r: Result<AuthorizedPublicUser, CoordinatorServiceError>)
    ensures
        match context.actor {
            Actor::User(user) => {
                &&& r matches Ok(authorized)
                &&& authorized.actor@ == user@
                &&& authorized.operation == PublicUserOperation::asked(*request)
            },
            _ => r matches Err(error) && error.denies(
                "authenticated "@ + PublicUserOperation::asked(*request).name()
                    + " request requires a user CLI session"@,
            ),
        },
{
    let operation: PublicUserOperation = PublicUserOperation::from(request);
    match &context.actor {
        Actor::User(user) => Ok(AuthorizedPublicUser { actor: user.clone(), operation }),
        _ => {
            let text: String = concat3(
                "authenticated ",
                operation.as_str(),
                " request requires a user CLI session",
            );
            Err(unauthorized(text.as_str()))
        },
    }
}

/// What is done with the public key of an agent.
pub enum AgentKeyAction {
    Register { agent: AgentId, public_key: String },
    List,
    Rotate { agent: AgentId, public_key: String },
    Revoke { agent: AgentId },
}

/// What is done with the public key of an agent, and for whom.
pub struct AgentKeyRequest {
    pub tenant: TenantId,
    pub project: ProjectId,
    pub user: UserId,
    pub action: AgentKeyAction,
}

/// What is asked for concerns the public key of an agent.
pub open spec fn agent_key_action(request: AuthenticatedCoordinatorRequest) -> Option<AgentKeyAction> {
    match request {
        AuthenticatedCoordinatorRequest::RegisterAgentPublicKey { agent, public_key } => Some(
            AgentKeyAction::Register { agent, public_key },
        ),
        AuthenticatedCoordinatorRequest::ListAgentPublicKeys => Some(AgentKeyAction::List),
        AuthenticatedCoordinatorRequest::RotateAgentPublicKey { agent, public_key } => Some(
            AgentKeyAction::Rotate { agent, public_key },
        ),
        AuthenticatedCoordinatorRequest::RevokeAgentPublicKey { agent } => Some(
            AgentKeyAction::Revoke { agent },
        ),
        _ => None,
    }
}

/// What is done with the public key of an agent: always in the scope of the session, and for its user.
/// Nothing where something else is asked for.
pub fn authenticated_agent_key_request(
    context: &AuthContext,
    actor: &UserId,
    request: AuthenticatedCoordinatorRequest,
) -> (r: Option<AgentKeyRequest>)
    ensures
        match agent_key_action(request) {
            None => r is None,
            Some(action) => {
                &&& r matches Some(wanted)
                &&& wanted.tenant@ == context.tenant@
                &&& wanted.project@ == context.project@
                &&& wanted.user@ == actor@
                &&& wanted.action == action
            },
        },
{
    let action: AgentKeyAction = match request {
        AuthenticatedCoordinatorRequest::RegisterAgentPublicKey { agent, public_key } => {
            AgentKeyAction::Register { agent, public_key }
        },
        AuthenticatedCoordinatorRequest::ListAgentPublicKeys => AgentKeyAction::List,
        AuthenticatedCoordinatorRequest::RotateAgentPublicKey { agent, public_key } => {
            AgentKeyAction::Rotate { agent, public_key }
        },
        AuthenticatedCoordinatorRequest::RevokeAgentPublicKey { agent } => {
            AgentKeyAction::Revoke { agent }
        },
        _ => {
            return None;
        },
    };
    Some(
        AgentKeyRequest {
            tenant: context.tenant.clone(),
            project: context.project.clone(),
            user: actor.clone(),
            action,
        },
    )
}

/// The length of an operation's name, and the third and the eighth of its letters.
spec fn outline(operation: PublicUserOperation) -> (int, char, char) {
    match operation {
        PublicUserOperation::AuthStatus => (11, 't', 'a'),
        PublicUserOperation::RevokeCliSession => (18, 'v', 'c'),
        PublicUserOperation::CreateProject => (14, 'e', 'p'),
        PublicUserOperation::SelectProject => (14, 'l', 'p'),
        PublicUserOperation::ListProjects => (13, 's', 'o'),
        PublicUserOperation::ListAutomatedRuns => (19, 's', 't'),
        PublicUserOperation::GetAutomatedRun => (17, 't', 'o'),
        PublicUserOperation::CancelAutomatedRun => (20, 'n', 'a'),
        PublicUserOperation::RetryAutomatedRun => (19, 't', 'u'),
        PublicUserOperation::TriggerAutomatedRun => (21, 'i', '_'),
        PublicUserOperation::ListWebhookDeliveries => (23, 's', 'b'),
        PublicUserOperation::SetProjectSecret => (18, 't', 'j'),
        PublicUserOperation::ListProjectSecrets => (20, 's', 'o'),
        PublicUserOperation::RevokeProjectSecret => (21, 'v', 'p'),
        PublicUserOperation::RegisterAgentPublicKey => (25, 'g', 'r'),
        PublicUserOperation::ListAgentPublicKeys => (22, 's', 'e'),
        PublicUserOperation::RotateAgentPublicKey => (23, 't', 'a'),
        PublicUserOperation::RevokeAgentPublicKey => (23, 'v', 'a'),
        PublicUserOperation::CreateNodeEnrollmentGrant => (28, 'e', 'n'),
        PublicUserOperation::ListNodeDescriptors => (21, 's', 'd'),
        PublicUserOperation::ListNodeSummaries => (19, 's', 'd'),
        PublicUserOperation::RevokeNodeCredential => (22, 'v', 'n'),
        PublicUserOperation::StartProcess => (13, 'a', 'r'),
        PublicUserOperation::ScheduleTask => (13, 'h', 'e'),
        PublicUserOperation::LaunchTask => (11, 'u', 't'),
        PublicUserOperation::CancelProcess => (14, 'n', 'p'),
        PublicUserOperation::AbortProcess => (13, 'o', 'r'),
        PublicUserOperation::ListProcesses => (14, 's', 'o'),
        PublicUserOperation::ListProcessSummaries => (22, 's', 'o'),
        PublicUserOperation::QuotaStatus => (12, 'o', 't'),
        PublicUserOperation::RestartTask => (12, 's', '_'),
        PublicUserOperation::ResolveTaskFailure => (20, 's', '_'),
        PublicUserOperation::DebugAttach => (12, 'b', 't'),
        PublicUserOperation::SetDebugBreakpoints => (21, 't', 'u'),
        PublicUserOperation::InspectDebugBreakpoints => (25, 's', '_'),
        PublicUserOperation::CreateDebugEpoch => (18, 'e', 'd'),
        PublicUserOperation::ResumeDebugEpoch => (18, 's', 'd'),
        PublicUserOperation::InspectDebugEpoch => (19, 's', '_'),
        PublicUserOperation::ListTaskEvents => (16, 's', 's'),
        PublicUserOperation::ListTaskSnapshots => (19, 's', 's'),
        PublicUserOperation::ListRecentLogs => (16, 's', 'c'),
        PublicUserOperation::JoinTask => (9, 'i', 's'),
        PublicUserOperation::ListArtifacts => (14, 's', 't'),
        PublicUserOperation::GetArtifact => (12, 't', 'i'),
        PublicUserOperation::CreateArtifactDownloadLink => (29, 'e', 'a'),
        PublicUserOperation::RevokeArtifactDownloadLink => (29, 'v', 'a'),
        PublicUserOperation::ExportArtifactToNode => (23, 'p', 'a'),
    }
}

proof fn lemma_outline(operation: PublicUserOperation)
    ensures
        outline(operation) == (
            operation.name().len() as int,
            operation.name()[2],
            operation.name()[7],
        ),
{
    match operation {
        PublicUserOperation::AuthStatus => {
            reveal_strlit("auth_status");
        },
        PublicUserOperation::RevokeCliSession => {
            reveal_strlit("revoke_cli_session");
        },
        PublicUserOperation::CreateProject => {
            reveal_strlit("create_project");
        },
        PublicUserOperation::SelectProject => {
            reveal_strlit("select_project");
        },
        PublicUserOperation::ListProjects => {
            reveal_strlit("list_projects");
        },
        PublicUserOperation::ListAutomatedRuns => {
            reveal_strlit("list_automated_runs");
        },
        PublicUserOperation::GetAutomatedRun => {
            reveal_strlit("get_automated_run");
        },
        PublicUserOperation::CancelAutomatedRun => {
            reveal_strlit("cancel_automated_run");
        },
        PublicUserOperation::RetryAutomatedRun => {
            reveal_strlit("retry_automated_run");
        },
        PublicUserOperation::TriggerAutomatedRun => {
            reveal_strlit("trigger_automated_run");
        },
        PublicUserOperation::ListWebhookDeliveries => {
            reveal_strlit("list_webhook_deliveries");
        },
        PublicUserOperation::SetProjectSecret => {
            reveal_strlit("set_project_secret");
        },
        PublicUserOperation::ListProjectSecrets => {
            reveal_strlit("list_project_secrets");
        },
        PublicUserOperation::RevokeProjectSecret => {
            reveal_strlit("revoke_project_secret");
        },
        PublicUserOperation::RegisterAgentPublicKey => {
            reveal_strlit("register_agent_public_key");
        },
        PublicUserOperation::ListAgentPublicKeys => {
            reveal_strlit("list_agent_public_keys");
        },
        PublicUserOperation::RotateAgentPublicKey => {
            reveal_strlit("rotate_agent_public_key");
        },
        PublicUserOperation::RevokeAgentPublicKey => {
            reveal_strlit("revoke_agent_public_key");
        },
        PublicUserOperation::CreateNodeEnrollmentGrant => {
            reveal_strlit("create_node_enrollment_grant");
        },
        PublicUserOperation::ListNodeDescriptors => {
            reveal_strlit("list_node_descriptors");
        },
        PublicUserOperation::ListNodeSummaries => {
            reveal_strlit("list_node_summaries");
        },
        PublicUserOperation::RevokeNodeCredential => {
            reveal_strlit("revoke_node_credential");
        },
        PublicUserOperation::StartProcess => {
            reveal_strlit("start_process");
        },
        PublicUserOperation::ScheduleTask => {
            reveal_strlit("schedule_task");
        },
        PublicUserOperation::LaunchTask => {
            reveal_strlit("launch_task");
        },
        PublicUserOperation::CancelProcess => {
            reveal_strlit("cancel_process");
        },
        PublicUserOperation::AbortProcess => {
            reveal_strlit("abort_process");
        },
        PublicUserOperation::ListProcesses => {
            reveal_strlit("list_processes");
        },
        PublicUserOperation::ListProcessSummaries => {
            reveal_strlit("list_process_summaries");
        },
        PublicUserOperation::QuotaStatus => {
            reveal_strlit("quota_status");
        },
        PublicUserOperation::RestartTask => {
            reveal_strlit("restart_task");
        },
        PublicUserOperation::ResolveTaskFailure => {
            reveal_strlit("resolve_task_failure");
        },
        PublicUserOperation::DebugAttach => {
            reveal_strlit("debug_attach");
        },
        PublicUserOperation::SetDebugBreakpoints => {
            reveal_strlit("set_debug_breakpoints");
        },
        PublicUserOperation::InspectDebugBreakpoints => {
            reveal_strlit("inspect_debug_breakpoints");
        },
        PublicUserOperation::CreateDebugEpoch => {
            reveal_strlit("create_debug_epoch");
        },
        PublicUserOperation::ResumeDebugEpoch => {
            reveal_strlit("resume_debug_epoch");
        },
        PublicUserOperation::InspectDebugEpoch => {
            reveal_strlit("inspect_debug_epoch");
        },
        PublicUserOperation::ListTaskEvents => {
            reveal_strlit("list_task_events");
        },
        PublicUserOperation::ListTaskSnapshots => {
            reveal_strlit("list_task_snapshots");
        },
        PublicUserOperation::ListRecentLogs => {
            reveal_strlit("list_recent_logs");
        },
        PublicUserOperation::JoinTask => {
            reveal_strlit("join_task");
        },
        PublicUserOperation::ListArtifacts => {
            reveal_strlit("list_artifacts");
        },
        PublicUserOperation::GetArtifact => {
            reveal_strlit("get_artifact");
        },
        PublicUserOperation::CreateArtifactDownloadLink => {
            reveal_strlit("create_artifact_download_link");
        },
        PublicUserOperation::RevokeArtifactDownloadLink => {
            reveal_strlit("revoke_artifact_download_link");
        },
        PublicUserOperation::ExportArtifactToNode => {
            reveal_strlit("export_artifact_to_node");
        },
    }
}

/// An operation is known by its name: no two operations have the same.
pub proof fn operations_have_distinct_names(a: PublicUserOperation, b: PublicUserOperation)
    ensures
        a.name() == b.name() <==> a == b,
{
    lemma_outline(a);
    lemma_outline(b);
}

} // verus!
