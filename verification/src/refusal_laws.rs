//! How requests are refused: who may not is told so, what is malformed or comes too late is told so, and a
//! refused request changes nothing.
use vstd::prelude::*;

use crate::account_laws::is_open;
use crate::admin::{AdminStatus, ReplayAdmission, status_asked, suspension_asked};
use crate::artifact_registry::{ArtifactFlush, ArtifactHoldReasonModel, ArtifactRegistryModel, held, process_let_go};
use crate::automated_run::{AcceptedCommitTriggerRecord, AutomatedRunState};
use crate::coordinator::CoordinatorError;
use crate::debug::{DebugCharge, attach_reason, breakpoints_inspected, command_polled, epoch_controlled};
use crate::debug_registry::{DebugCommand, DebugPendingCommand};
use crate::durable::ServicePolicyRecord;
use crate::ids::{ArtifactId, Digest, NodeId, ProcessId, ProjectId, RunId, ScopeText, TaskInstanceId, TenantId, UserId};
use crate::interchange::interchange_configured;
use crate::interchange_configuration::{CoordinatorArtifactInterchangeConfiguration, RelayLimits};
use crate::interchange_registry::{TransferReport, report_flaw};
use crate::keys::{ProcessText, TaskText};
use crate::logs::{CompletionFacts, LogChunk, TaskCompletionReport, VfsReport, child_joined, chunk_turned_away, completion_refused, is_vfs_flush};
use crate::main_runtime::{MainRefusal, main_refused};
use crate::ordered_map::{ascending, lemma_lookup_put, lookup};
use crate::restart::restart_denied;
use crate::retention_laws::{is_held_for, lemma_fewer_left};
use crate::service::CoordinatorServiceModel;
use crate::service_automation::{RunCancellation, push_fits, push_refused, run_cancelled_by_request, stage_failed};
use crate::service_error::CoordinatorServiceError;
use crate::service_laws::is_enrolled;
use crate::tasks::{TaskAttemptState, TaskCompletionEvent, TaskJoinResult};
use crate::text::byte_len;
use crate::transfer::InterchangeTransferModel;

verus! {

/// A refusal for want of authority.
pub open spec fn lacks_authority(error: CoordinatorServiceError) -> bool {
    error matches CoordinatorServiceError::Coordinator(CoordinatorError::Unauthorized(_))
}

/// A refusal of a node that is not enrolled.
pub open spec fn is_unknown_node(error: CoordinatorServiceError) -> bool {
    error matches CoordinatorServiceError::Coordinator(CoordinatorError::UnknownNode)
}

/// A push is taken where its trigger and its body are sound and its project is of its tenant. Otherwise it is
/// refused: as malformed, or for want of authority over the project.
pub proof fn pushes_are_for_a_project_of_their_tenant(
    s: CoordinatorServiceModel,
    accepted: AcceptedCommitTriggerRecord,
    check: Result<(), String>,
    body_valid: bool,
    error: CoordinatorServiceError,
)
    ensures
        push_fits(s, accepted, check, body_valid) <==> check is Ok && body_valid && (lookup(
            s.coordinator.durable.projects,
            accepted.project@,
        ) matches Some(project) && project.tenant@ == accepted.tenant@),
        push_refused(s, accepted, check, body_valid, error) ==> {
            &&& check is Err || !body_valid ==> error is Protocol
            &&& check is Ok && body_valid ==> lacks_authority(error)
        },
{
}

/// A run that is cancelled on request has ended, and what is told is the run as it stands and the process
/// that is left to stop. A run that is not known is refused.
pub proof fn runs_are_cancelled_on_request(
    before: CoordinatorServiceModel,
    after: CoordinatorServiceModel,
    run: RunId,
    now: u64,
    r: Result<RunCancellation, CoordinatorServiceError>,
    other: Seq<char>,
)
    requires
        ascending(before.coordinator.durable.automation.automated_runs),
        run_cancelled_by_request(before, after, run, now, r),
    ensures
        ({
            let runs = before.coordinator.durable.automation.automated_runs;
            let left = after.coordinator.durable.automation.automated_runs;
            &&& r is Ok <==> lookup(runs, run@) is Some
            &&& r matches Err(error) ==> error is Protocol && after == before
            &&& r matches Ok(told) ==> {
                let known = lookup(runs, run@)->Some_0;
                &&& lookup(left, run@) == Some(told.record@)
                &&& !is_open(told.record@)
                &&& is_open(known) ==> told.record@.run.state == AutomatedRunState::Cancelled
                    && told.record@.run.ended_at == Some(now)
                &&& !is_open(known) ==> told.record@ == known && told.process is None
                &&& told.process matches Some(process) ==> (known.run.process_id matches Some(own)
                    && own@ == process@ && lookup(
                    before.coordinator.active_processes,
                    (known.run.tenant@, known.run.project@, process@),
                ) is Some)
            }
            &&& other != run@ ==> lookup(left, other) == lookup(runs, other)
            &&& after.coordinator.active_processes == before.coordinator.active_processes
        }),
{
    broadcast use lemma_lookup_put;

}

/// The end of a task is refused for what is wrong with it first: tails that are too long, then a path, then
/// the node.
pub proof fn ends_of_tasks_are_refused_for_what_is_wrong(
    s: CoordinatorServiceModel,
    key: ProcessText,
    report: TaskCompletionReport,
    facts: CompletionFacts,
    error: CoordinatorServiceError,
)
    requires
        completion_refused(s, key, report, facts, error),
    ensures
        ({
            let long = byte_len(report.logs.stdout_tail@) > 262144 || byte_len(
                report.logs.stderr_tail@,
            ) > 262144;
            let path = report.artifact_path is Some && facts.path_checked is Err;
            &&& long ==> error is InvalidTaskLogTail
            &&& !long && path ==> error is InvalidArtifactPath
            &&& !long && !path ==> lacks_authority(error) || is_unknown_node(error)
            &&& !long && !path && is_unknown_node(error) ==> !is_enrolled(
                s,
                (key.0, key.1, report.node@),
            )
        }),
{
}

/// A part of a log is refused for its size, or where it comes from a node that may not send it.
pub proof fn parts_are_refused_for_what_is_wrong(
    s: CoordinatorServiceModel,
    key: ProcessText,
    node: Seq<char>,
    stopping: bool,
    chunk: LogChunk,
    error: CoordinatorServiceError,
)
    requires
        chunk_turned_away(s, key, node, stopping, chunk, error),
    ensures
        byte_len(chunk.text@) > 16384 ==> error is InvalidTaskLogTail,
        is_unknown_node(error) ==> !is_enrolled(s, (key.0, key.1, node)),
        lacks_authority(error) ==> !stopping && lookup(s.coordinator.active_processes, key) is None,
        error is InvalidTaskLogTail || error is Protocol || is_unknown_node(error)
            || lacks_authority(error),
{
}

/// Stopping a process is refused for want of authority, then for want of a grant, and then because of how the
/// process stands.
pub proof fn stopping_is_refused_in_order(
    before: CoordinatorServiceModel,
    after: CoordinatorServiceModel,
    key: ProcessText,
    actor: UserId,
    stopped_task: Option<Seq<char>>,
    expected: Option<u64>,
    operation: Seq<char>,
    command: DebugCommand,
    all_stop: bool,
    reason: Seq<char>,
    active: Set<TaskText>,
    charge: DebugCharge,
    now: u64,
    error: CoordinatorServiceError,
)
    requires
        epoch_controlled(
            before,
            after,
            key,
            actor,
            stopped_task,
            expected,
            operation,
            command,
            all_stop,
            reason,
            active,
            charge,
            now,
            Err(error),
        ),
    ensures
        ({
            let may = attach_reason(before, key, actor).0;
            &&& !may <==> lacks_authority(error)
            &&& may && charge.granted is Err <==> error is Resource
            &&& may && charge.granted is Ok <==> error is Protocol
            &&& error matches CoordinatorServiceError::Resource(text) ==> (charge.granted matches Err(
                why,
            ) && text@ == why@)
        }),
{
}

/// Breakpoints are not shown where none are set, nor to another user.
pub proof fn breakpoints_are_refused_for_what_is_wrong(
    before: CoordinatorServiceModel,
    after: CoordinatorServiceModel,
    key: ProcessText,
    actor: UserId,
    charge: DebugCharge,
    error: CoordinatorServiceError,
)
    requires
        breakpoints_inspected(before, after, key, actor, charge, Err(error)),
    ensures
        lookup(before.debug.breakpoints, key) is None <==> error is Protocol,
        (lookup(before.debug.breakpoints, key) matches Some(plan) && plan.actor@ != actor@)
            ==> lacks_authority(error) && after == before,
{
}

/// A node that is not enrolled is told so, and one whose process is not active may not ask.
pub proof fn nodes_are_told_why_they_are_not_heard(
    before: CoordinatorServiceModel,
    after: CoordinatorServiceModel,
    tenant: TenantId,
    project: ProjectId,
    process: ProcessId,
    node: NodeId,
    task: TaskInstanceId,
    polled: Result<Option<DebugPendingCommand>, CoordinatorServiceError>,
    stopping: bool,
    parent_active: bool,
    attempt: Option<TaskAttemptState>,
    event: Option<&TaskCompletionEvent>,
    known: bool,
    joined: Result<TaskJoinResult, CoordinatorServiceError>,
)
    requires
        command_polled(before, after, tenant, project, process, node, task, polled),
        child_joined(
            before,
            tenant,
            project,
            process,
            node,
            stopping,
            parent_active,
            task,
            attempt,
            event,
            known,
            joined,
        ),
    ensures
        ({
            let enrolled = is_enrolled(before, (tenant@, project@, node@));
            &&& polled matches Err(error) ==> (is_unknown_node(error) <==> !enrolled)
                && (lacks_authority(error) <==> enrolled)
            &&& joined matches Err(error) ==> (is_unknown_node(error) <==> !enrolled)
                && (lacks_authority(error) <==> enrolled)
        }),
{
}

/// A configuration that is refused, and a stage of a run that is not known, are protested against.
pub proof fn operators_are_told_why(
    before: CoordinatorServiceModel,
    after: CoordinatorServiceModel,
    configuration: CoordinatorArtifactInterchangeConfiguration,
    limits: RelayLimits,
    configured: Result<(), CoordinatorServiceError>,
    run: RunId,
    code: Seq<char>,
    message: Seq<char>,
    limit: usize,
    now: u64,
    failed: Result<(), CoordinatorServiceError>,
)
    ensures
        interchange_configured(before, after, configuration, limits, configured) ==> (
        configured matches Err(error) ==> error is Protocol),
        stage_failed(before, after, run, code, message, limit, now, failed) ==> (
        failed matches Err(error) ==> error is Protocol),
{
}

/// An administrator who does not prove who they are is refused for want of authority.
pub proof fn administrators_without_proof_are_refused(
    before: CoordinatorServiceModel,
    after: CoordinatorServiceModel,
    actor_tenant: TenantId,
    actor: UserId,
    target: TenantId,
    digest: Digest,
    proof_given: Digest,
    expected_proof: Digest,
    nonce: Seq<char>,
    issued_at: u64,
    now: u64,
    replay: ReplayAdmission,
    suspended: Result<ServicePolicyRecord, CoordinatorServiceError>,
    told: Result<AdminStatus, CoordinatorServiceError>,
)
    requires
        suspension_asked(
            before,
            after,
            actor_tenant,
            actor,
            target,
            digest,
            proof_given,
            expected_proof,
            nonce,
            issued_at,
            now,
            replay,
            suspended,
        ),
        status_asked(
            before,
            target,
            actor,
            proof_given,
            expected_proof,
            nonce,
            issued_at,
            now,
            replay,
            told,
        ),
    ensures
        suspended is Ok <==> told is Ok,
        suspended matches Err(error) ==> lacks_authority(error),
        told matches Err(error) ==> lacks_authority(error),
        proof_given@ != expected_proof@ ==> suspended is Err && told is Err,
        before.admin_token_digest is None ==> suspended is Err && told is Err,
        told matches Ok(status) ==> status.safe_default@ == "read_only"@,
{
}

/// A task is restarted only by who may debug its process; another is refused and that is audited.
pub proof fn restarts_are_refused_to_others(
    before: CoordinatorServiceModel,
    after: CoordinatorServiceModel,
    key: ProcessText,
    task: Seq<char>,
    actor: UserId,
    charge: DebugCharge,
    error: CoordinatorServiceError,
)
    requires
        restart_denied(before, after, key, task, actor, charge, error),
    ensures
        lacks_authority(error),
        !attach_reason(before, key, actor).0,
        after.debug.audit_events.len() > 0,
        ({
            let event = after.debug.audit_events.last();
            &&& !event.allowed && event.actor@ == actor@ && event.operation@ == "restart_task"@
            &&& event.task matches Some(named) && named@ == task
            &&& event.charged_debug_read_bytes == 0
        }),
        after.coordinator == before.coordinator && after.mains == before.mains
            && after.debug.epoch_runtime == before.debug.epoch_runtime,
{
}

/// A process that lets go of an artifact learns whether it had held it, and holds it no longer.
pub proof fn letting_go_tells_whether_it_held(
    before: ArtifactRegistryModel,
    after: ArtifactRegistryModel,
    tenant: TenantId,
    project: ProjectId,
    process: ProcessId,
    artifact: ArtifactId,
    r: bool,
)
    requires
        process_let_go(before, after, tenant, project, process, artifact, r),
    ensures
        r <==> is_held_for(
            held(before.holds, (tenant@, project@, artifact@)),
            ArtifactHoldReasonModel::ProcessRetention { process: process@ },
        ),
        after.artifacts == before.artifacts,
        after.issued_download_links == before.issued_download_links,
{
    lemma_fewer_left(
        held(before.holds, (tenant@, project@, artifact@)),
        ArtifactHoldReasonModel::ProcessRetention { process: process@ },
    );
}

/// A file that is reported becomes the artifact that it was reported as.
pub proof fn files_become_what_they_were_reported_as(
    flush: ArtifactFlush,
    key: ProcessText,
    report: VfsReport,
)
    requires
        is_vfs_flush(flush, key, report),
    ensures
        flush.tenant@ == key.0 && flush.project@ == key.1 && flush.process@ == key.2,
        flush.producer_task@ == report.task@ && flush.retaining_node@ == report.node@,
        report.artifact_digest matches Some(digest) && flush.digest@ == digest@,
        report.artifact_size_bytes matches Some(size) ==> flush.size == size,
        report.artifact_size_bytes is None ==> flush.size == 0,
{
}

/// Whoever waits for a main that is refused is told, where the process ends with it.
pub proof fn those_who_wait_for_a_refused_main_are_told(
    before: CoordinatorServiceModel,
    after: CoordinatorServiceModel,
    key: ProcessText,
    refusal: MainRefusal,
    waiter: (Seq<char>, Seq<char>, Seq<char>, Seq<char>),
)
    requires
        main_refused(before, after, key, refusal),
        refusal.process_failed,
    ensures
        refusal.told@.contains(waiter) <==> before.mains.join_waiters.contains(waiter) && waiter.0
            == key.0 && waiter.1 == key.1 && waiter.2 == key.2,
{
}

/// A report is flawed where it claims an end that it does not show: a completion without proof, another end
/// without its reason, or a source that lacks the artifact told by anyone but the source.
pub proof fn reports_are_flawed_where_they_do_not_show(
    t: InterchangeTransferModel,
    scope: ScopeText,
    report: TransferReport,
)
    ensures
        ({
            let flaw = report_flaw(t, scope, report);
            let lease = t.destination_authorization.lease;
            let shown = scope.2 == t.record.destination_node@ && report.bytes_completed
                == lease.size_bytes && report.verified_size == Some(lease.size_bytes)
                && report.failure_code is None && (report.verified_digest matches Some(digest)
                && digest@ == lease.digest@);
            &&& report.state is Completed ==> (flaw is None <==> shown)
            &&& report.state is Completed && !shown ==> flaw->Some_0 is UnprovenCompletion
            &&& (report.state is Failed || report.state is Cancelled || report.state is Expired)
                && report.failure_code is None ==> (flaw matches Some(found)
                && found is FailureCodeMissing)
            &&& report.state is Failed && (report.failure_code matches Some(code)
                && code is ArtifactMissingAtSource) && scope.2 != t.record.source_node@ ==> (
            flaw matches Some(found) && found is ForeignMissingSource)
            &&& report.state is Failed && report.failure_code is Some && scope.2
                == t.record.source_node@ ==> flaw is None
            &&& report.state is Transferring && report.failure_code is None ==> flaw is None
        }),
{
}

} // verus!
