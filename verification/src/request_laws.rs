//! What users ask for: each request is taken for what it is, within what may be asked.
use vstd::prelude::*;

use crate::authorization::{AgentKeyAction, AuthenticatedCoordinatorRequest, PublicUserOperation, agent_key_action};
use crate::configuration::{CoordinatorMainRuntimeConfiguration, MainRuntimeCeilings, clamped_ttl};
use crate::coordinator::{account_active, processes_of};
use crate::debug_requests::{DebugAction, debug_part};
use crate::debug_validation::{DebugSnapshot, climbs, climbs_at, is_probe_symbol, is_symbol_char, probe_refusal, snapshot_bytes, snapshot_refusal};
use crate::durable::CliSessionRecord;
use crate::ordered_map::{ascending, lemma_lookup_put, lookup};
use crate::service::CoordinatorServiceModel;
use crate::service_error::CoordinatorServiceError;
use crate::service_status::{AdmissionQuotaLimits, TenantAdmissionStatus, quota_told, session_asked};
use crate::text::{byte_len, trimmed};

verus! {

/// Each request is taken for the operation of its own name, and for no other.
pub proof fn requests_are_taken_for_what_they_are(request: AuthenticatedCoordinatorRequest)
    ensures
        PublicUserOperation::asked(request) == PublicUserOperation::AuthStatus <==> request is AuthStatus,
        PublicUserOperation::asked(request) == PublicUserOperation::RevokeCliSession <==> request is RevokeCliSession,
        PublicUserOperation::asked(request) == PublicUserOperation::CreateProject <==> request is CreateProject,
        PublicUserOperation::asked(request) == PublicUserOperation::SelectProject <==> request is SelectProject,
        PublicUserOperation::asked(request) == PublicUserOperation::ListProjects <==> request is ListProjects,
        PublicUserOperation::asked(request) == PublicUserOperation::ListAutomatedRuns <==> request is ListAutomatedRuns,
        PublicUserOperation::asked(request) == PublicUserOperation::GetAutomatedRun <==> request is GetAutomatedRun,
        PublicUserOperation::asked(request) == PublicUserOperation::CancelAutomatedRun <==> request is CancelAutomatedRun,
        PublicUserOperation::asked(request) == PublicUserOperation::RetryAutomatedRun <==> request is RetryAutomatedRun,
        PublicUserOperation::asked(request) == PublicUserOperation::TriggerAutomatedRun <==> request is TriggerAutomatedRun,
        PublicUserOperation::asked(request) == PublicUserOperation::ListWebhookDeliveries <==> request is ListWebhookDeliveries,
        PublicUserOperation::asked(request) == PublicUserOperation::SetProjectSecret <==> request is SetProjectSecret,
        PublicUserOperation::asked(request) == PublicUserOperation::ListProjectSecrets <==> request is ListProjectSecrets,
        PublicUserOperation::asked(request) == PublicUserOperation::RevokeProjectSecret <==> request is RevokeProjectSecret,
        PublicUserOperation::asked(request) == PublicUserOperation::RegisterAgentPublicKey <==> request is RegisterAgentPublicKey,
        PublicUserOperation::asked(request) == PublicUserOperation::ListAgentPublicKeys <==> request is ListAgentPublicKeys,
        PublicUserOperation::asked(request) == PublicUserOperation::RotateAgentPublicKey <==> request is RotateAgentPublicKey,
        PublicUserOperation::asked(request) == PublicUserOperation::RevokeAgentPublicKey <==> request is RevokeAgentPublicKey,
        PublicUserOperation::asked(request) == PublicUserOperation::CreateNodeEnrollmentGrant <==> request is CreateNodeEnrollmentGrant,
        PublicUserOperation::asked(request) == PublicUserOperation::ListNodeDescriptors <==> request is ListNodeDescriptors,
        PublicUserOperation::asked(request) == PublicUserOperation::ListNodeSummaries <==> request is ListNodeSummaries,
        PublicUserOperation::asked(request) == PublicUserOperation::RevokeNodeCredential <==> request is RevokeNodeCredential,
        PublicUserOperation::asked(request) == PublicUserOperation::StartProcess <==> request is StartProcess,
        PublicUserOperation::asked(request) == PublicUserOperation::ScheduleTask <==> request is ScheduleTask,
        PublicUserOperation::asked(request) == PublicUserOperation::LaunchTask <==> request is LaunchTask,
        PublicUserOperation::asked(request) == PublicUserOperation::CancelProcess <==> request is CancelProcess,
        PublicUserOperation::asked(request) == PublicUserOperation::AbortProcess <==> request is AbortProcess,
        PublicUserOperation::asked(request) == PublicUserOperation::ListProcesses <==> request is ListProcesses,
        PublicUserOperation::asked(request) == PublicUserOperation::ListProcessSummaries <==> request is ListProcessSummaries,
        PublicUserOperation::asked(request) == PublicUserOperation::QuotaStatus <==> request is QuotaStatus,
        PublicUserOperation::asked(request) == PublicUserOperation::RestartTask <==> request is RestartTask,
        PublicUserOperation::asked(request) == PublicUserOperation::ResolveTaskFailure <==> request is ResolveTaskFailure,
        PublicUserOperation::asked(request) == PublicUserOperation::DebugAttach <==> request is DebugAttach,
        PublicUserOperation::asked(request) == PublicUserOperation::SetDebugBreakpoints <==> request is SetDebugBreakpoints,
        PublicUserOperation::asked(request) == PublicUserOperation::InspectDebugBreakpoints <==> request is InspectDebugBreakpoints,
        PublicUserOperation::asked(request) == PublicUserOperation::CreateDebugEpoch <==> request is CreateDebugEpoch,
        PublicUserOperation::asked(request) == PublicUserOperation::ResumeDebugEpoch <==> request is ResumeDebugEpoch,
        PublicUserOperation::asked(request) == PublicUserOperation::InspectDebugEpoch <==> request is InspectDebugEpoch,
        PublicUserOperation::asked(request) == PublicUserOperation::ListTaskEvents <==> request is ListTaskEvents,
        PublicUserOperation::asked(request) == PublicUserOperation::ListTaskSnapshots <==> request is ListTaskSnapshots,
        PublicUserOperation::asked(request) == PublicUserOperation::ListRecentLogs <==> request is ListRecentLogs,
        PublicUserOperation::asked(request) == PublicUserOperation::JoinTask <==> request is JoinTask,
        PublicUserOperation::asked(request) == PublicUserOperation::ListArtifacts <==> request is ListArtifacts,
        PublicUserOperation::asked(request) == PublicUserOperation::GetArtifact <==> request is GetArtifact,
        PublicUserOperation::asked(request) == PublicUserOperation::CreateArtifactDownloadLink <==> request is CreateArtifactDownloadLink,
        PublicUserOperation::asked(request) == PublicUserOperation::RevokeArtifactDownloadLink <==> request is RevokeArtifactDownloadLink,
        PublicUserOperation::asked(request) == PublicUserOperation::ExportArtifactToNode <==> request is ExportArtifactToNode,
{
}

/// A request about the key of an agent is about that agent, and carries the key that it names; no other request
/// is about one.
pub proof fn key_requests_are_about_their_agent(request: AuthenticatedCoordinatorRequest)
    ensures
        agent_key_action(request) is Some <==> request is RegisterAgentPublicKey
            || request is ListAgentPublicKeys || request is RotateAgentPublicKey
            || request is RevokeAgentPublicKey,
        request matches AuthenticatedCoordinatorRequest::RegisterAgentPublicKey { agent, public_key } ==> (
        agent_key_action(request) matches Some(AgentKeyAction::Register { agent: a, public_key: k }) && a
            == agent && k == public_key),
        request matches AuthenticatedCoordinatorRequest::RotateAgentPublicKey { agent, public_key } ==> (
        agent_key_action(request) matches Some(AgentKeyAction::Rotate { agent: a, public_key: k }) && a
            == agent && k == public_key),
        request matches AuthenticatedCoordinatorRequest::RevokeAgentPublicKey { agent } ==> (
        agent_key_action(request) matches Some(AgentKeyAction::Revoke { agent: a }) && a == agent),
        request is ListAgentPublicKeys ==> (agent_key_action(request) matches Some(AgentKeyAction::List)),
{
}

/// A request to debug is about the process that it names, and asks for what it says.
pub proof fn debug_requests_are_about_their_process(request: AuthenticatedCoordinatorRequest)
    ensures
        request matches AuthenticatedCoordinatorRequest::DebugAttach { process } ==> (debug_part(
            request,
        ) matches Some((of, action)) && of == process && action is Attach),
        request matches AuthenticatedCoordinatorRequest::InspectDebugBreakpoints { process } ==> (
        debug_part(request) matches Some((of, action)) && of == process && action is InspectBreakpoints),
        request matches AuthenticatedCoordinatorRequest::CreateDebugEpoch {
            process,
            stopped_task,
            reason,
        } ==> (debug_part(request) matches Some((of, action)) && of == process && (
        action matches DebugAction::CreateEpoch { stopped_task: task, reason: why } && task
            == stopped_task && why == reason)),
        request matches AuthenticatedCoordinatorRequest::ResumeDebugEpoch { process, epoch } ==> (
        debug_part(request) matches Some((of, action)) && of == process && (
        action matches DebugAction::ResumeEpoch { epoch: which } && which == epoch)),
        request matches AuthenticatedCoordinatorRequest::InspectDebugEpoch { process, epoch } ==> (
        debug_part(request) matches Some((of, action)) && of == process && (
        action matches DebugAction::InspectEpoch { epoch: which } && which == epoch)),
        debug_part(request) is Some <==> request is DebugAttach || request is SetDebugBreakpoints
            || request is InspectDebugBreakpoints || request is CreateDebugEpoch
            || request is ResumeDebugEpoch || request is InspectDebugEpoch,
{
}

/// Breakpoints are set on no more symbols than may be, each of which is not empty, not too long, and made of the
/// characters of a path.
pub proof fn probe_symbols_are_names(symbols: Seq<Seq<char>>, i: int, j: int)
    requires
        probe_refusal(symbols) is None,
        0 <= i < symbols.len(),
    ensures
        symbols.len() <= 128,
        trimmed(symbols[i]).len() > 0,
        byte_len(symbols[i]) <= 256,
        0 <= j < symbols[i].len() ==> {
            let c = symbols[i][j];
            'a' <= c <= 'z' || 'A' <= c <= 'Z' || '0' <= c <= '9' || c == '.' || c == '_' || c == ':' || c
                == '-' || c == '/'
        },
{
    assert(is_probe_symbol(symbols[i]));
    if 0 <= j < symbols[i].len() {
        assert(is_symbol_char(symbols[i][j]));
    }
}

/// What a node tells of a task that it stopped is small, and the place that it names is within the source.
pub proof fn snapshots_are_small(s: DebugSnapshot, i: int)
    requires
        snapshot_refusal(s) is None,
    ensures
        s.stack_frames@.len() <= 128 && s.local_values@.len() <= 128 && s.task_args@.len() <= 128
            && s.handles@.len() <= 128 && s.recent_output@.len() <= 128,
        snapshot_bytes(s) <= 16384,
        s.message matches Some(text) ==> byte_len(text@) <= 16384,
        s.current_source_location matches Some(location) ==> {
            let path = location.source_path@;
            &&& 0 < path.len() && byte_len(path) <= 512
            &&& path[0] != '/'
            &&& location.line > 0
            &&& trimmed(location.probe_id@).len() > 0
            &&& 0 <= i && i + 1 < path.len() && path[i] == '.' && path[i + 1] == '.' && (i == 0
                || path[i - 1] == '/') ==> i + 2 < path.len() && path[i + 2] != '/'
        },
{
    if s.current_source_location is Some {
        let path = s.current_source_location->Some_0.source_path@;
        if climbs_at(path, i) {
            assert(climbs(path));
        }
    }
}

/// A session is given to an active tenant, for a project of its own or a new one, and is found from then on. Its
/// user may debug the project. No other session changes.
pub proof fn sessions_are_given_to_active_tenants(
    before: CoordinatorServiceModel,
    after: CoordinatorServiceModel,
    session: CliSessionRecord,
    r: Result<CliSessionRecord, CoordinatorServiceError>,
    other: Seq<char>,
)
    requires
        ascending(before.coordinator.durable.cli_sessions),
        ascending(before.coordinator.durable.project_permissions),
        session_asked(before, after, session, r),
    ensures
        r is Ok <==> account_active(before.coordinator.durable, session.tenant@) && (lookup(
            before.coordinator.durable.projects,
            session.project@,
        ) matches Some(project) ==> project.tenant@ == session.tenant@),
        r is Err ==> after == before,
        r is Ok ==> {
            &&& lookup(after.coordinator.durable.cli_sessions, session.session_digest@) == Some(session)
            &&& lookup(
                after.coordinator.durable.project_permissions,
                (session.tenant@, session.project@, session.user@),
            ) matches Some(permission) && permission.can_debug
            &&& after.coordinator.active_processes == before.coordinator.active_processes
        },
        other != session.session_digest@ ==> lookup(after.coordinator.durable.cli_sessions, other)
            == lookup(before.coordinator.durable.cli_sessions, other),
{
    broadcast use lemma_lookup_put;

}

/// What a tenant is told of its limits are those that it has, for a project of its own.
pub proof fn limits_are_told_to_their_tenant(
    s: CoordinatorServiceModel,
    tenant: Seq<char>,
    project: Seq<char>,
    limits: AdmissionQuotaLimits,
    r: Result<TenantAdmissionStatus, CoordinatorServiceError>,
)
    requires
        quota_told(s, tenant, project, limits, r),
    ensures
        r is Ok <==> (lookup(s.coordinator.durable.projects, project) matches Some(known)
            && known.tenant@ == tenant),
        r matches Ok(status) ==> status.projects_maximum == limits.max_projects
            && status.node_identities_maximum == limits.max_nodes && status.active_processes_maximum
            == limits.max_active_processes && status.active_processes_current == processes_of(
            s.coordinator.active_processes,
            tenant,
        ).len() as u64,
{
}

/// The limits of coordinator mains are positive, and within what the runtime can bear.
pub proof fn main_limits_are_positive(c: CoordinatorMainRuntimeConfiguration, ceilings: MainRuntimeCeilings)
    requires
        c.within(ceilings),
    ensures
        1 <= c.max_active_mains <= ceilings.max_mains,
        1 <= c.max_state_bytes <= ceilings.max_state_bytes,
        c.nested_join_timeout_ms > 0,
        c.max_wakeups_per_minute > 0,
        1 <= c.max_output_bytes <= 262144,
{
}

/// A time to live that is asked for is given as asked, brought to a second at least and to the most that may be.
pub proof fn times_to_live_are_bounded(asked: u64, more: u64, most: u64)
    requires
        1 <= most,
        asked <= more,
    ensures
        1 <= clamped_ttl(asked, most) <= most,
        1 <= asked <= most ==> clamped_ttl(asked, most) == asked,
        clamped_ttl(asked, most) <= clamped_ttl(more, most),
{
}

} // verus!
