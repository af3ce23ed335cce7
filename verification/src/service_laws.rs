//! What callers of the service can rely on: nodes are heard where they are enrolled, what they are told they
//! are told once, and what an operator asks for is what comes about.
use vstd::prelude::*;

use crate::account_laws::{is_open, stands_against};
use crate::admin::{AdminStatus, HostedAccountMutationResult, ReplayAdmission, account_resumed, status_asked, suspension_asked};
use crate::artifact_registry::{ArtifactRegistryModel, DownloadAction, DownloadError, DownloadLink, DownloadPolicy, action_offered, well_formed};
use crate::artifacts::revocation_answered;
use crate::automated_run::{AutomatedRunState, ProjectEnvironmentRecord};
use crate::coordinator::{Authorization, CoordinatorModel, identity_seen};
use crate::debug::command_polled;
use crate::debug_registry::DebugPendingCommand;
use crate::durable::ServicePolicyRecord;
use crate::ids::{ArtifactId, AuthContext, Digest, NodeId, NodeScopeKey, ProcessId, ProjectId, RunId, ScopeText, TaskInstanceId, TenantId, UserId};
use crate::interchange::{AdvertisementAccepted, AssignmentAcknowledged, ProviderAssignment, acknowledgement_answered, advertisement_reported, interchange_configured, interchange_expired, provider_answered, receiver_answered};
use crate::interchange_configuration::{CoordinatorArtifactInterchangeConfiguration, RelayLimits};
use crate::keys::TaskText;
use crate::logs::{LogStreamState, TaskLogRecord, TaskLogReport, child_joined, log_reported};
use crate::main_runtime::{MainRefusal, MainScope, launch_abandoned};
use crate::node_registry::IrohEndpointAdvertisement;
use crate::ordered_map::{ascending, lemma_lookup_delete, lemma_lookup_put, lookup};
use crate::service::CoordinatorServiceModel;
use crate::service_automation::{environment_configured, stage_failed};
use crate::service_error::CoordinatorServiceError;
use crate::service_status::AdmissionQuotaLimits;
use crate::system_tasks::{AssignmentAuthority, SystemManifest, SystemTaskOffer, offer_completed};
use crate::tasks::{TaskAttemptState, TaskCompletionEvent, TaskJoinResult};
use crate::text::byte_len;
use crate::transfer::{ArtifactAssignmentRole, ArtifactAssignmentState, ArtifactTransferAuthorization};

verus! {

/// A node is enrolled in a project.
pub open spec fn is_enrolled(s: CoordinatorServiceModel, scope: ScopeText) -> bool {
    lookup(s.coordinator.durable.node_identities, scope) is Some
}

/// A command is handed to its task once: after it was asked for, there is none left, and those of other tasks
/// wait as they did. Only an enrolled node asks, for a process that is active.
pub proof fn commands_are_handed_out_once(
    before: CoordinatorServiceModel,
    after: CoordinatorServiceModel,
    tenant: TenantId,
    project: ProjectId,
    process: ProcessId,
    node: NodeId,
    task: TaskInstanceId,
    r: Result<Option<DebugPendingCommand>, CoordinatorServiceError>,
    other: TaskText,
)
    requires
        ascending(before.debug.commands),
        command_polled(before, after, tenant, project, process, node, task, r),
    ensures
        ({
            let place = (tenant@, project@, process@, node@, task@);
            &&& r is Ok <==> is_enrolled(before, (tenant@, project@, node@)) && lookup(
                before.coordinator.active_processes,
                (tenant@, project@, process@),
            ) is Some
            &&& r is Err ==> after == before
            &&& r matches Ok(command) ==> {
                &&& command is Some <==> lookup(before.debug.commands, place) is Some
                &&& command matches Some(told) ==> told.epoch == lookup(
                    before.debug.commands,
                    place,
                )->Some_0.epoch && told.command == lookup(before.debug.commands, place)->Some_0.command
                &&& lookup(after.debug.commands, place) is None
                &&& other != place ==> lookup(after.debug.commands, other) == lookup(
                    before.debug.commands,
                    other,
                )
                &&& after.debug.epoch_runtime == before.debug.epoch_runtime
            }
        }),
{
    broadcast use lemma_lookup_delete;

}

/// The end of the streams of a task is taken from an enrolled node where both tails fit, and counts no less
/// than was counted before. A tail that was kept is told as it came, with a mark where it was cut.
pub proof fn ends_of_streams_are_taken(
    s: CoordinatorServiceModel,
    tenant: TenantId,
    project: ProjectId,
    process: ProcessId,
    node: NodeId,
    stopping: bool,
    report: TaskLogReport,
    stdout: LogStreamState,
    stdout_after: LogStreamState,
    stderr: LogStreamState,
    stderr_after: LogStreamState,
    stdout_granted: bool,
    stderr_granted: bool,
    r: Result<TaskLogRecord, CoordinatorServiceError>,
)
    requires
        log_reported(
            s,
            tenant,
            project,
            process,
            node,
            stopping,
            report,
            stdout,
            stdout_after,
            stderr,
            stderr_after,
            stdout_granted,
            stderr_granted,
            r,
        ),
    ensures
        r is Ok <==> {
            &&& is_enrolled(s, (tenant@, project@, node@))
            &&& stopping || lookup(
                s.coordinator.active_processes,
                (tenant@, project@, process@),
            ) is Some
            &&& byte_len(report.stdout_tail@) <= 262144
            &&& byte_len(report.stderr_tail@) <= 262144
        },
        r is Err ==> stdout_after == stdout && stderr_after == stderr,
        r matches Ok(record) ==> {
            &&& record.stdout_bytes >= report.stdout_bytes && record.stdout_bytes >= stdout.accounted
            &&& record.stderr_bytes >= report.stderr_bytes && record.stderr_bytes >= stderr.accounted
            &&& record.stdout_bytes == report.stdout_bytes || record.stdout_bytes
                == stdout.accounted
            &&& record.stderr_bytes == report.stderr_bytes || record.stderr_bytes
                == stderr.accounted
            &&& !stdout.quota_truncated && stdout_granted && !report.stdout_truncated
                && report.stdout_bytes >= stdout.accounted ==> record.stdout_tail@
                == report.stdout_tail@
            &&& !stderr.quota_truncated && stderr_granted && !report.stderr_truncated
                && report.stderr_bytes >= stderr.accounted ==> record.stderr_tail@
                == report.stderr_tail@
            &&& !stdout.quota_truncated && stdout_granted && report.stdout_truncated
                ==> record.stdout_tail@ == report.stdout_tail@ + "\n... truncated"@
            &&& stdout.quota_truncated ==> record.stdout_lines@.len() == 0
        },
{
    if r is Ok && stdout.quota_truncated {
        assert(crate::duplicate::views(r->Ok_0.stdout_lines@).len() == 0);
    }
}

/// A task is joined only by a task that is active on an enrolled node.
pub proof fn active_parents_join(
    s: CoordinatorServiceModel,
    tenant: TenantId,
    project: ProjectId,
    process: ProcessId,
    node: NodeId,
    stopping: bool,
    parent_active: bool,
    task: TaskInstanceId,
    attempt: Option<TaskAttemptState>,
    event: Option<&TaskCompletionEvent>,
    known: bool,
    r: Result<TaskJoinResult, CoordinatorServiceError>,
)
    requires
        child_joined(
            s,
            tenant,
            project,
            process,
            node,
            stopping,
            parent_active,
            task,
            attempt,
            event,
            known,
            r,
        ),
    ensures
        r is Ok <==> parent_active && is_enrolled(s, (tenant@, project@, node@)) && (stopping
            || lookup(s.coordinator.active_processes, (tenant@, project@, process@)) is Some),
{
}

/// An assignment is acknowledged by the node that has that part in the transfer, and then stands
/// acknowledged unless it was ready already. The other part and other transfers stay as they were.
pub proof fn assignments_are_acknowledged_by_their_node(
    before: CoordinatorServiceModel,
    after: CoordinatorServiceModel,
    scope: NodeScopeKey,
    id: String,
    role: ArtifactAssignmentRole,
    now: u64,
    r: Result<AssignmentAcknowledged, CoordinatorServiceError>,
    other: Seq<char>,
)
    requires
        ascending(interchange_expired(before, now).interchange.transfers),
        acknowledgement_answered(before, after, Ok(scope), id, role, now, r),
    ensures
        ({
            let known = interchange_expired(before, now).interchange.transfers;
            let at = scope@;
            &&& r is Ok <==> is_enrolled(before, at) && (lookup(known, id@) matches Some(t)
                && t.record.tenant@ == at.0 && t.record.project@ == at.1 && (role is Provider
                ==> t.record.source_node@ == at.2) && (role is Receiver
                ==> t.record.destination_node@ == at.2))
            &&& !is_enrolled(before, at) ==> after == before
            &&& r matches Ok(answer) ==> {
                let t = lookup(known, id@)->Some_0;
                &&& lookup(after.interchange.transfers, id@) matches Some(left)
                &&& left.record == t.record
                &&& answer.transfer_id@ == id@ && answer.role == role
                &&& role is Provider ==> answer.state == left.provider_assignment
                    && left.destination_assignment == t.destination_assignment
                &&& role is Receiver ==> answer.state == left.destination_assignment
                    && left.provider_assignment == t.provider_assignment
                &&& answer.state == ArtifactAssignmentState::Ready || answer.state
                    == ArtifactAssignmentState::Acknowledged
                &&& role is Provider && t.provider_assignment == ArtifactAssignmentState::Ready
                    ==> left == t
                &&& role is Receiver && t.destination_assignment == ArtifactAssignmentState::Ready
                    ==> left == t
            }
            &&& is_enrolled(before, at) && (other != id@ || r is Err) ==> lookup(
                after.interchange.transfers,
                other,
            ) == lookup(known, other)
        }),
{
    broadcast use lemma_lookup_put;

}

/// A new configuration of the interchange is of a later generation, and no endpoint that was advertised under
/// the earlier one counts any longer.
pub proof fn configurations_only_go_forward(
    before: CoordinatorServiceModel,
    after: CoordinatorServiceModel,
    configuration: CoordinatorArtifactInterchangeConfiguration,
    limits: RelayLimits,
    r: Result<(), CoordinatorServiceError>,
)
    requires
        interchange_configured(before, after, configuration, limits, r),
    ensures
        r is Ok ==> {
            &&& after.interchange_configuration == configuration@
            &&& before.interchange_configuration.generation
                < after.interchange_configuration.generation
            &&& after.nodes.advertisements.len() == 0 && after.nodes.bindings.len() == 0
            &&& after.nodes.descriptors == before.nodes.descriptors
        },
        r is Err ==> after == before,
        configuration@.generation <= before.interchange_configuration.generation ==> r is Err,
        after.interchange == before.interchange && after.artifacts == before.artifacts,
        after.coordinator == before.coordinator,
{
}

/// An endpoint that is accepted is known as it was advertised, for the node that advertised it and under the
/// configuration of the day.
pub proof fn endpoints_are_known_as_advertised(
    before: CoordinatorServiceModel,
    after: CoordinatorServiceModel,
    scope: NodeScopeKey,
    advertisement: IrohEndpointAdvertisement,
    bounds: Result<(), String>,
    now: u64,
    r: Result<AdvertisementAccepted, CoordinatorServiceError>,
    other: ScopeText,
)
    requires
        ascending(interchange_expired(before, now).nodes.advertisements),
        ascending(interchange_expired(before, now).nodes.bindings),
        advertisement_reported(before, after, Ok(scope), advertisement, bounds, now, r),
    ensures
        r matches Ok(accepted) ==> {
            &&& is_enrolled(before, scope@)
            &&& bounds is Ok
            &&& advertisement@.tenant@ == scope@.0 && advertisement@.project@ == scope@.1
                && advertisement@.node@ == scope@.2
            &&& advertisement@.relay_configuration_generation
                == before.interchange_configuration.generation
            &&& lookup(after.nodes.advertisements, scope@) == Some(advertisement@)
            &&& lookup(after.nodes.bindings, advertisement@.endpoint_id@) == Some(scope@)
            &&& other != scope@ ==> lookup(after.nodes.advertisements, other) == lookup(
                interchange_expired(before, now).nodes.advertisements,
                other,
            )
            &&& accepted.generation == advertisement@.generation
            &&& accepted.endpoint_id@ == advertisement@.endpoint_id@
            &&& accepted.expires_at == advertisement@.expires_at
        },
        r is Err && is_enrolled(before, scope@) ==> after == interchange_expired(before, now),
        !is_enrolled(before, scope@) ==> r is Err && after == before,
{
    broadcast use lemma_lookup_put;

}

/// A node is told what it is to provide or to receive only where it is enrolled. What it is told is the
/// authorization of a transfer that runs on it in that part.
pub proof fn nodes_are_told_their_own_part(
    before: CoordinatorServiceModel,
    after: CoordinatorServiceModel,
    scope: NodeScopeKey,
    now: u64,
    provided: Result<ProviderAssignment, CoordinatorServiceError>,
    received: Result<Option<ArtifactTransferAuthorization>, CoordinatorServiceError>,
)
    ensures
        provider_answered(before, after, Ok(scope), now, provided) ==> {
            &&& provided is Ok <==> is_enrolled(before, scope@)
            &&& after.artifacts == before.artifacts || provided is Ok
            &&& provided matches Ok(told) ==> (told.authorization matches Some(given) ==> exists|
                i: int,
            |
                0 <= i < interchange_expired(before, now).interchange.transfers.len() && ({
                    let t = (#[trigger] interchange_expired(before, now).interchange.transfers[i]).1;
                    &&& t.record.tenant@ == scope@.0 && t.record.project@ == scope@.1
                    &&& t.record.source_node@ == scope@.2
                    &&& given@ == t.provider_authorization
                }))
        },
        receiver_answered(before, after, Ok(scope), now, received) ==> {
            &&& received is Ok <==> is_enrolled(before, scope@)
            &&& received matches Ok(Some(given)) ==> exists|i: int|
                0 <= i < interchange_expired(before, now).interchange.transfers.len() && ({
                    let t = (#[trigger] interchange_expired(before, now).interchange.transfers[i]).1;
                    &&& t.record.tenant@ == scope@.0 && t.record.project@ == scope@.1
                    &&& t.record.destination_node@ == scope@.2
                    &&& given@ == t.destination_authorization
                })
        },
{
}

/// A stage that fails ends its run as failed, with the code and what fits of the message; a run that had ended
/// stays as it was, and one that is not known is refused.
pub proof fn failing_stages_end_their_run(
    before: CoordinatorServiceModel,
    after: CoordinatorServiceModel,
    run: RunId,
    code: Seq<char>,
    message: Seq<char>,
    limit: usize,
    now: u64,
    r: Result<(), CoordinatorServiceError>,
    other: Seq<char>,
)
    requires
        ascending(before.coordinator.durable.automation.automated_runs),
        stage_failed(before, after, run, code, message, limit, now, r),
    ensures
        ({
            let runs = before.coordinator.durable.automation.automated_runs;
            let left = after.coordinator.durable.automation.automated_runs;
            &&& r is Ok <==> lookup(runs, run@) is Some
            &&& r is Err ==> after == before
            &&& other != run@ ==> lookup(left, other) == lookup(runs, other)
            &&& lookup(runs, run@) matches Some(known) ==> {
                &&& lookup(left, run@) matches Some(ended)
                &&& !is_open(ended)
                &&& !is_open(known) ==> after == before
                &&& is_open(known) ==> {
                    &&& ended.run.state == AutomatedRunState::Failed && ended.run.ended_at == Some(now)
                    &&& ended.run.failure_code matches Some(told) && told@ == code
                    &&& ended.run.failure_message matches Some(text) && text@.len() <= message.len()
                        && text@.len() <= limit && (message.len() <= limit ==> text@ == message)
                    &&& ended.compilation_request is None && ended.compiled_bundle is None
                    &&& ended.run.run_id == known.run.run_id
                }
            }
        }),
{
    broadcast use lemma_lookup_put;

    assert(message.len() <= limit ==> message.take(message.len() as int) =~= message);
}

/// An environment that is set for a project is there as it was given, and those of other names stay.
pub proof fn environments_are_there_as_given(
    before: CoordinatorServiceModel,
    after: CoordinatorServiceModel,
    record: ProjectEnvironmentRecord,
    r: Result<(), CoordinatorServiceError>,
    other: ScopeText,
)
    requires
        ascending(before.coordinator.durable.automation.project_environments),
        environment_configured(before, after, record, r),
    ensures
        ({
            let known = before.coordinator.durable.automation.project_environments;
            let left = after.coordinator.durable.automation.project_environments;
            let key = (record.tenant@, record.project@, record.name@);
            &&& r is Ok ==> lookup(left, key) == Some(record)
            &&& r is Err || other != key ==> lookup(left, other) == lookup(known, other)
            &&& r is Ok ==> record.definition.name@ == record.name@ && record.definition.digest@
                == record.immutable_digest@
        }),
        after.coordinator.durable.automation.automated_runs
            == before.coordinator.durable.automation.automated_runs,
{
    broadcast use lemma_lookup_put;

}

/// What is offered to a node is the compilation that its run asks for, and the run compiles from then on.
pub proof fn offers_are_of_what_the_run_asks_for(
    before: CoordinatorServiceModel,
    after: CoordinatorServiceModel,
    run: RunId,
    tenant: TenantId,
    project: ProjectId,
    node: NodeId,
    manifest: SystemManifest,
    authority: AssignmentAuthority,
    expires_at: u64,
    r: Option<SystemTaskOffer>,
    other: Seq<char>,
)
    requires
        ascending(before.coordinator.durable.automation.automated_runs),
        offer_completed(
            before,
            after,
            run,
            tenant,
            project,
            node,
            manifest,
            authority,
            expires_at,
            r,
        ),
    ensures
        ({
            let runs = before.coordinator.durable.automation.automated_runs;
            let left = after.coordinator.durable.automation.automated_runs;
            &&& r is Some <==> (lookup(runs, run@) matches Some(known)
                && known.compilation_request is Some)
            &&& r matches Some(offer) ==> {
                &&& offer@.request == lookup(runs, run@)->Some_0.compilation_request->Some_0
                &&& offer@.authority == authority && offer@.expires_at_epoch_seconds == expires_at
                &&& offer@.tenant@ == tenant@ && offer@.project@ == project@ && offer@.node@ == node@
                &&& offer@.bundle_digest@ == manifest.bundle_digest@
                &&& offer@.bundle_id@ == manifest.bundle_id@
                &&& offer@.environment_digest@ == offer@.request.compiler_image@
            }
            &&& lookup(runs, run@) matches Some(known) ==> {
                &&& lookup(left, run@) matches Some(busy)
                &&& busy.run.state == AutomatedRunState::CompilingWorkflow
                &&& busy.run.waiting_reason is None
                &&& busy.run.run_id == known.run.run_id
                &&& busy.compilation_request == known.compilation_request
            }
            &&& other != run@ ==> lookup(left, other) == lookup(runs, other)
        }),
{
    broadcast use lemma_lookup_put;

}

/// When a node was last seen never goes back, and seeing it changes no other node.
pub proof fn last_sights_never_go_back(
    before: CoordinatorModel,
    after: CoordinatorModel,
    tenant: TenantId,
    project: ProjectId,
    node: NodeId,
    at: u64,
    other: ScopeText,
)
    requires
        ascending(before.durable.node_identities),
        identity_seen(before, after, tenant, project, node, at),
    ensures
        ({
            let scope = (tenant@, project@, node@);
            let known = lookup(before.durable.node_identities, scope);
            &&& known is None ==> after == before
            &&& known matches Some(identity) ==> {
                &&& lookup(after.durable.node_identities, scope) matches Some(seen)
                &&& seen.last_seen_epoch_seconds matches Some(last)
                &&& last >= at
                &&& identity.last_seen_epoch_seconds matches Some(earlier) ==> last >= earlier
                &&& last == at || identity.last_seen_epoch_seconds == Some(last)
                &&& seen.public_key == identity.public_key && seen.id == identity.id
            }
            &&& other != scope ==> lookup(after.durable.node_identities, other) == lookup(
                before.durable.node_identities,
                other,
            )
        }),
{
    broadcast use lemma_lookup_put;

}

/// A launch that is given up leaves no main and no process, and whoever waited for it is told.
pub proof fn abandoned_launches_leave_nothing(
    before: CoordinatorServiceModel,
    after: CoordinatorServiceModel,
    scope: MainScope,
    error: CoordinatorServiceError,
    r: MainRefusal,
    other: ScopeText,
    waiter: (Seq<char>, Seq<char>, Seq<char>, Seq<char>),
)
    requires
        ascending(before.mains.controls),
        ascending(before.coordinator.active_processes),
        launch_abandoned(before, after, scope, error, r),
    ensures
        ({
            let key = (scope.tenant@, scope.project@, scope.process@);
            let own = waiter.0 == key.0 && waiter.1 == key.1 && waiter.2 == key.2;
            &&& r.error == error && r.process_failed
            &&& lookup(after.mains.controls, key) is None
            &&& lookup(after.coordinator.active_processes, key) is None
            &&& r.told@.contains(waiter) <==> before.mains.join_waiters.contains(waiter) && own
            &&& after.mains.join_waiters.contains(waiter) <==> before.mains.join_waiters.contains(
                waiter,
            ) && !own
            &&& other != key ==> lookup(after.mains.controls, other) == lookup(
                before.mains.controls,
                other,
            ) && lookup(after.coordinator.active_processes, other) == lookup(
                before.coordinator.active_processes,
                other,
            )
        }),
{
    broadcast use lemma_lookup_delete;

}

/// A link is revoked for whom it was given to, and serves nobody from then on.
pub proof fn revoked_links_serve_nobody(
    before: CoordinatorServiceModel,
    after: CoordinatorServiceModel,
    context: AuthContext,
    authz: Authorization,
    artifact: ArtifactId,
    token: Digest,
    now: u64,
    r: Result<DownloadLink, CoordinatorServiceError>,
)
    requires
        well_formed(crate::artifact_registry::links_expired(before.artifacts, now)),
        revocation_answered(before, after, context, authz, artifact, token, now, r),
    ensures
        r matches Ok(link) ==> {
            &&& link.tenant@ == context.tenant@ && link.project@ == context.project@
                && link.artifact@ == artifact@
            &&& link.actor.same(&context.actor)
            &&& authz.allowed
            &&& lookup(after.artifacts.issued_download_links, token@) matches Some(left)
            &&& left.revoked && left.link == link
        },
        after.artifacts.artifacts == before.artifacts.artifacts,
        after.coordinator == before.coordinator,
{
    broadcast use lemma_lookup_put;

}

/// An artifact is offered to whoever may fetch it, where it is known, not too large, and kept somewhere.
pub proof fn artifacts_are_offered_to_those_who_may(
    s: ArtifactRegistryModel,
    context: AuthContext,
    authz: Authorization,
    artifact: ArtifactId,
    policy: DownloadPolicy,
    r: Result<DownloadAction, DownloadError>,
)
    requires
        action_offered(s, context, authz, artifact, policy, r),
    ensures
        ({
            let known = lookup(s.artifacts, (context.tenant@, context.project@, artifact@));
            &&& known is None <==> r == Err::<DownloadAction, DownloadError>(DownloadError::NotFound)
            &&& known is Some && !authz.allowed ==> (r matches Err(error) && error is Unauthorized)
            &&& r matches Ok(action) ==> {
                &&& authz.allowed
                &&& known matches Some(metadata)
                &&& metadata.size <= policy.max_bytes
                &&& action.artifact@ == artifact@
                &&& action.scoped_token_subject@ == metadata.tenant@ + "/"@ + metadata.project@ + "/"@
                    + metadata.process@ + "/"@ + metadata.id@
            }
            &&& (known matches Some(metadata) && metadata.size > policy.max_bytes) ==> r is Err
            &&& (known matches Some(metadata) && metadata.size <= policy.max_bytes && authz.allowed
                && metadata.explicit_locations.len() > 0) ==> r is Ok
        }),
{
}

/// An administrator is told how a tenant stands.
pub proof fn administrators_are_told_how_a_tenant_stands(
    s: CoordinatorServiceModel,
    tenant: TenantId,
    actor: UserId,
    proof_given: Digest,
    expected_proof: Digest,
    nonce: Seq<char>,
    issued_at: u64,
    now: u64,
    replay: ReplayAdmission,
    r: Result<AdminStatus, CoordinatorServiceError>,
)
    requires
        status_asked(
            s,
            tenant,
            actor,
            proof_given,
            expected_proof,
            nonce,
            issued_at,
            now,
            replay,
            r,
        ),
    ensures
        r matches Ok(status) ==> {
            &&& status.tenant@ == tenant@ && status.actor@ == actor@
            &&& status.suspended <==> stands_against(
                s.coordinator.durable,
                tenant@,
                "tenant:suspended"@,
            )
            &&& proof_given@ == expected_proof@
            &&& s.admin_token_digest is Some
        },
{
}

/// A tenant that an administrator suspends is suspended, and no other is; without proof nothing changes.
pub proof fn suspended_tenants_are_suspended(
    before: CoordinatorServiceModel,
    after: CoordinatorServiceModel,
    actor_tenant: TenantId,
    actor: UserId,
    target: TenantId,
    digest: Digest,
    proof_given: Digest,
    expected_proof: Digest,
    nonce: Seq<char>,
    issued_at: u64,
    now: u64,
    replay: ReplayAdmission,
    r: Result<ServicePolicyRecord, CoordinatorServiceError>,
    other: Seq<char>,
)
    requires
        ascending(before.coordinator.durable.service_policy_records),
        suspension_asked(
            before,
            after,
            actor_tenant,
            actor,
            target,
            digest,
            proof_given,
            expected_proof,
            nonce,
            issued_at,
            now,
            replay,
            r,
        ),
    ensures
        r is Err ==> after == before,
        r matches Ok(policy) ==> {
            &&& proof_given@ == expected_proof@ && before.admin_token_digest is Some
            &&& stands_against(after.coordinator.durable, target@, "tenant:suspended"@)
            &&& policy.tenant@ == target@ && policy.digest@ == digest@
            &&& other != target@ ==> (stands_against(
                after.coordinator.durable,
                other,
                "tenant:suspended"@,
            ) <==> stands_against(before.coordinator.durable, other, "tenant:suspended"@))
        },
{
    broadcast use lemma_lookup_put;

}

/// A tenant that is resumed is suspended no longer, other tenants stay as they are, and who did so is
/// recorded.
pub proof fn resumed_tenants_are_not_suspended(
    before: CoordinatorServiceModel,
    after: CoordinatorServiceModel,
    tenant: TenantId,
    operator: UserId,
    at: u64,
    default_quota: AdmissionQuotaLimits,
    effective_quota: AdmissionQuotaLimits,
    r: HostedAccountMutationResult,
    other: Seq<char>,
)
    requires
        ascending(before.coordinator.durable.service_policy_records),
        account_resumed(
            before,
            after,
            tenant,
            operator,
            at,
            default_quota,
            effective_quota,
            r,
        ),
    ensures
        !stands_against(after.coordinator.durable, tenant@, "tenant:suspended"@),
        !r.status.account.suspended,
        stands_against(after.coordinator.durable, tenant@, "tenant:disabled"@) <==> stands_against(
            before.coordinator.durable,
            tenant@,
            "tenant:disabled"@,
        ),
        other != tenant@ ==> (stands_against(
            after.coordinator.durable,
            other,
            "tenant:suspended"@,
        ) <==> stands_against(before.coordinator.durable, other, "tenant:suspended"@)),
        r.audit.operator == operator && r.audit.tenant == tenant && r.audit.action@
            == "account_resume"@ && r.audit.occurred_at_epoch_seconds == at,
        r.revoked_sessions == 0 && r.aborted_processes == 0,
        r.status.effective_quota == effective_quota && r.status.default_quota == default_quota,
{
    broadcast use lemma_lookup_delete;

    reveal_strlit("tenant:suspended");
    reveal_strlit("tenant:disabled");
    assert("tenant:suspended"@.len() == 16 && "tenant:disabled"@.len() == 15);
}

} // verus!
