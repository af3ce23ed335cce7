//! What the registries keep: what is claimed or belongs to an active process is spared, what is metered is
//! metered once, and what is pushed out is the oldest.
use vstd::prelude::*;

use crate::admin::{HostedTenantAdminStatus, quota_configured};
use crate::artifact_registry::{ArtifactHoldModel, ArtifactHoldReasonModel, ArtifactMetadataModel, ArtifactRegistryModel, StorageLocation, download_token_parts, held, held_on, policy_context_parts, released_count};
use crate::artifacts::{ArtifactExport, export_handled};
use crate::automated_launch::is_launch_context;
use crate::automated_run::{AutomatedRunRecord, AutomationStateModel, EnvironmentResource, RepositoryRevision, TriggerContext};
use crate::automation::{by_name, trigger_of_run};
use crate::coordinator::{ActiveProcessModel, Authorization, CoordinatorModel, bounded_push, outside_scope, processes_keyed};
use crate::debug::{DebugCharge, audited};
use crate::debug_registry::{DebugAuditEvent, DebugCommand, DebugPendingCommand, DebugRegistryModel, breakpoint_hit, resumable_commands};
use crate::durable::TenantQuotaOverrideValues;
use crate::ids::{Actor, ArtifactId, AuthContext, NodeScopeKey, ProcessId, ProjectId, ScopeText, TaskInstanceId, TenantId, UserId};
use crate::interchange::TransferTokens;
use crate::interchange_registry::{InterchangeRegistryModel, metered};
use crate::keyed::lemma_found_holds_key;
use crate::keys::{ProcessText, TaskText};
use crate::logs::{ArtifactClaim, LogStreamState, VfsReport, pinned_by, protected_in, stream_reconciled, vfs_answered};
use crate::ordered_map::{ascending, bound_at, lemma_lookup_at, lemma_lookup_filter, lemma_lookup_found, lemma_lookup_put, lookup, values};
use crate::retention_laws::{artifacts_are_exported_to_those_who_lack_them, lemma_kept};
use crate::service::CoordinatorServiceModel;
use crate::service_error::CoordinatorServiceError;
use crate::service_laws::is_enrolled;
use crate::service_status::AdmissionQuotaLimits;
use crate::text::{byte_len, lemma_decimal_injective};
use crate::transfer::{ArtifactTransferState, ClusterfluxPathKind, TransferRules, state_text};

verus! {

/// A claim pins the artifacts that it requires, in its own project and nowhere else, and leaves pinned what
/// others claim.
pub proof fn claims_pin_what_they_require(
    claims: Seq<ArtifactClaim>,
    claim: ArtifactClaim,
    tenant: Seq<char>,
    project: Seq<char>,
    artifact: ScopeText,
)
    ensures
        pinned_by(claims.push(claim), tenant, project).contains(artifact) <==> pinned_by(
            claims,
            tenant,
            project,
        ).contains(artifact) || (claim.tenant@ == tenant && claim.project@ == project && artifact.0
            == tenant && artifact.1 == project && claim.required_artifacts@.contains(artifact.2)),
        !pinned_by(Seq::empty(), tenant, project).contains(artifact),
{
    let more = claims.push(claim);
    assert(more.drop_last() =~= claims);
    assert(more.last() == claim);
    let names = claim.required_artifacts@;
    let f = |name: Seq<char>| (tenant, project, name);
    let all = names.map_values(f);
    assert(crate::logs::scoped(names, tenant, project) == all.to_set());
    if all.contains(artifact) {
        let i = choose|i: int| 0 <= i < all.len() && all[i] == artifact;
        assert(names[i] == artifact.2);
    }
    if artifact.0 == tenant && artifact.1 == project && names.contains(artifact.2) {
        let i = choose|i: int| 0 <= i < names.len() && names[i] == artifact.2;
        assert(all[i] == artifact);
    }
}

/// What an active process of the project made is spared.
pub proof fn active_processes_are_protected(
    s: CoordinatorModel,
    tenant: Seq<char>,
    project: Seq<char>,
    process: Seq<char>,
)
    requires
        ascending(s.active_processes),
        processes_keyed(s),
    ensures
        lookup(s.active_processes, (tenant, project, process)) is Some ==> protected_in(
            s,
            tenant,
            project,
        ).contains(process),
{
    broadcast use {lemma_found_holds_key, lemma_kept};

    assert(crate::keyed::holds_keys(s.active_processes, crate::coordinator::processes_key()));
    let key = (tenant, project, process);
    if lookup(s.active_processes, key) is Some {
        lemma_lookup_found(s.active_processes, key);
        let i = choose|i: int| bound_at(s.active_processes, key, i);
        lemma_lookup_at(s.active_processes, i);
        let all = values(s.active_processes);
        let own = crate::coordinator::processes_in(s.active_processes, tenant, project);
        assert(all[i] == s.active_processes[i].1);
        assert(all.contains(all[i]));
        assert(own.contains(all[i]));
        let k = choose|k: int| 0 <= k < own.len() && own[k] == all[i];
        let f = |p: ActiveProcessModel| p.id@;
        assert(own.map_values(f)[k] == process);
    }
}

/// Bytes are metered for the path that they took, and for no other; what stayed on its node is not metered.
pub proof fn bytes_are_metered_for_their_path(
    s: InterchangeRegistryModel,
    path: ClusterfluxPathKind,
    bytes: u64,
)
    requires
        s.direct_body_bytes + bytes <= u64::MAX,
        s.relayed_body_bytes + bytes <= u64::MAX,
        s.unknown_path_body_bytes + bytes <= u64::MAX,
    ensures
        ({
            let after = metered(s, path, bytes);
            &&& after.transfers == s.transfers
            &&& path is Local ==> after == s
            &&& path !is Local ==> after.direct_body_bytes + after.relayed_body_bytes
                + after.unknown_path_body_bytes == s.direct_body_bytes + s.relayed_body_bytes
                + s.unknown_path_body_bytes + bytes
            &&& path is Direct ==> after.direct_body_bytes == s.direct_body_bytes + bytes
            &&& path is Relayed ==> after.relayed_body_bytes == s.relayed_body_bytes + bytes
            &&& path is Unknown ==> after.unknown_path_body_bytes == s.unknown_path_body_bytes
                + bytes
        }),
{
}

/// A list that is kept to a length has the newest at its end, and what is pushed out is the oldest.
pub proof fn the_oldest_are_pushed_out<A>(s: Seq<A>, item: A, capacity: int)
    requires
        0 < capacity,
        s.len() <= capacity,
    ensures
        ({
            let after = bounded_push(s, item, capacity);
            &&& after.len() <= capacity
            &&& after.len() > 0 && after.last() == item
            &&& s.len() < capacity ==> after.len() == s.len() + 1
            &&& forall|i: int|
                0 <= i < after.len() - 1 ==> #[trigger] after[i] == s[s.len() - (after.len() - 1) + i]
        }),
{
}

/// Of two environments of one name the later counts, and each is found under its own name.
pub proof fn environments_are_found_by_name(
    environments: Seq<EnvironmentResource>,
    last: EnvironmentResource,
    other: Seq<char>,
)
    requires
        ascending(by_name(environments)),
    ensures
        lookup(by_name(environments.push(last)), last.name@) == Some(last),
        other != last.name@ ==> lookup(by_name(environments.push(last)), other) == lookup(
            by_name(environments),
            other,
        ),
{
    broadcast use lemma_lookup_put;

    assert(environments.push(last).drop_last() =~= environments);
}

/// Of the commands to go on in an epoch only those to tasks that stood still are kept; every other command is
/// kept as it was.
pub proof fn only_those_who_stand_still_are_told_to_go_on(
    commands: Seq<(TaskText, DebugPendingCommand)>,
    epoch: u64,
    still: Set<TaskText>,
    task: TaskText,
)
    requires
        ascending(commands),
    ensures
        lookup(commands, task) is None ==> lookup(
            resumable_commands(commands, epoch, still),
            task,
        ) is None,
        lookup(commands, task) matches Some(command) ==> {
            let dropped = command.epoch == epoch && command.command == DebugCommand::Resume
                && !still.contains(task);
            lookup(resumable_commands(commands, epoch, still), task) == (if dropped {
                None
            } else {
                Some(command)
            })
        },
{
    let p = |e: (TaskText, DebugPendingCommand)|
        e.1.epoch != epoch || e.1.command != DebugCommand::Resume || still.contains(e.0);
    assert(resumable_commands(commands, epoch, still) == commands.filter(p));
    lemma_lookup_filter(commands, p, task);
    lemma_lookup_found(commands, task);
}

/// A hit marks the breakpoints of its process with where and when, and no others.
pub proof fn hits_mark_their_process(
    s: DebugRegistryModel,
    key: ProcessText,
    epoch: u64,
    task: TaskInstanceId,
    symbol: String,
    other: ProcessText,
)
    requires
        ascending(s.breakpoints),
    ensures
        ({
            let after = breakpoint_hit(s, key, epoch, task, symbol);
            &&& lookup(s.breakpoints, key) is None ==> after == s
            &&& lookup(s.breakpoints, key) matches Some(plan) ==> {
                &&& lookup(after.breakpoints, key) matches Some(marked)
                &&& marked.hit_epoch == Some(epoch) && marked.hit_task == Some(task)
                    && marked.hit_probe_symbol == Some(symbol)
                &&& marked.probe_symbols == plan.probe_symbols && marked.revision == plan.revision
                    && marked.actor == plan.actor
            }
            &&& other != key ==> lookup(after.breakpoints, other) == lookup(s.breakpoints, other)
            &&& after.epochs == s.epochs && after.commands == s.commands
        }),
{
    broadcast use lemma_lookup_put;

}

/// What is asked is audited as asked, unless the charge for it is refused, and nothing is charged for what was
/// not allowed.
pub proof fn audits_hold_what_was_asked(
    before: DebugRegistryModel,
    after: DebugRegistryModel,
    key: ProcessText,
    task: Option<Seq<char>>,
    actor: Seq<char>,
    operation: Seq<char>,
    allowed: bool,
    reason: Seq<char>,
    charge: DebugCharge,
    r: Result<DebugAuditEvent, CoordinatorServiceError>,
)
    requires
        audited(before, after, key, task, actor, operation, allowed, reason, charge, r),
    ensures
        r is Err <==> allowed && charge.granted is Err,
        r is Err ==> after == before,
        r matches Err(error) ==> (error matches CoordinatorServiceError::Resource(text)
            && charge.granted matches Err(why) && text@ == why@),
        r matches Ok(event) ==> {
            &&& after.audit_events.len() > 0 && after.audit_events.last() == event
            &&& event.tenant@ == key.0 && event.project@ == key.1 && event.process@ == key.2
            &&& event.actor@ == actor && event.operation@ == operation && event.reason@ == reason
            &&& event.allowed == allowed
            &&& event.task is Some <==> task is Some
            &&& event.charged_debug_read_bytes == 0 <==> !allowed
        },
        after.epochs == before.epochs && after.breakpoints == before.breakpoints && after.commands
            == before.commands && after.epoch_runtime == before.epoch_runtime,
{
}

/// The token of a link is of what it is for: another artifact, nonce, policy or time makes another token.
pub proof fn tokens_are_of_what_they_are_for(
    a: ArtifactMetadataModel,
    b: ArtifactMetadataModel,
    actor: Actor,
    nonce: Seq<char>,
    other_nonce: Seq<char>,
    policy: Seq<char>,
    other_policy: Seq<char>,
    expires_at: u64,
    other_expiry: u64,
)
    requires
        download_token_parts(a, actor, nonce, policy, expires_at) == download_token_parts(
            b,
            actor,
            other_nonce,
            other_policy,
            other_expiry,
        ),
    ensures
        nonce == other_nonce,
        policy == other_policy,
        expires_at == other_expiry,
        a.digest@ == b.digest@ && a.size == b.size,
{
    let x = download_token_parts(a, actor, nonce, policy, expires_at);
    let y = download_token_parts(b, actor, other_nonce, other_policy, other_expiry);
    assert(x[3] == y[3] && x[4] == y[4] && x[5] == y[5] && x[6] == y[6] && x[7] == y[7]);
    lemma_decimal_injective(a.size as nat, b.size as nat);
    lemma_decimal_injective(expires_at as nat, other_expiry as nat);
}

/// What a link is decided on is of the artifact and of the limit: another makes another decision.
pub proof fn decisions_are_of_what_they_are_for(
    a: ArtifactMetadataModel,
    b: ArtifactMetadataModel,
    source: StorageLocation,
    most: u64,
    other_most: u64,
)
    requires
        policy_context_parts(a, source, most) == policy_context_parts(b, source, other_most),
    ensures
        a.tenant@ == b.tenant@ && a.project@ == b.project@ && a.process@ == b.process@ && a.id@
            == b.id@,
        a.digest@ == b.digest@ && a.size == b.size,
        most == other_most,
{
    let x = policy_context_parts(a, source, most);
    let y = policy_context_parts(b, source, other_most);
    assert(x[1] == y[1] && x[2] == y[2] && x[3] == y[3] && x[4] == y[4]);
    assert(x[5] == y[5] && x[6] == y[6] && x[8] == y[8]);
    lemma_decimal_injective(a.size as nat, b.size as nat);
    lemma_decimal_injective(most as nat, other_most as nat);
}

/// The context that a workflow is given is that of its run.
pub proof fn contexts_are_of_their_run(
    context: TriggerContext,
    run: AutomatedRunRecord,
    forge: Seq<char>,
    revision: RepositoryRevision,
)
    requires
        is_launch_context(context, run, forge, revision),
    ensures
        context.trigger_id@ == run.primary_trigger_id@ && context.forge@ == forge,
        context.commit_sha@ == run.commit_sha@ && context.git_ref@ == run.git_ref@
            && context.repository_id@ == run.repository_id@,
        context.trusted == run.trusted,
        context.source_snapshot@ == revision.source_snapshot@,
{
}

/// A process is outside of a scope where it has the name and is of another tenant or project.
pub proof fn names_alone_do_not_make_a_scope(
    process: ActiveProcessModel,
    tenant: Seq<char>,
    project: Seq<char>,
    id: Seq<char>,
)
    ensures
        process.id@ != id ==> !outside_scope(process, tenant, project, id),
        process.tenant@ == tenant && process.project@ == project ==> !outside_scope(
            process,
            tenant,
            project,
            id,
        ),
        process.id@ == id && process.tenant@ != tenant ==> outside_scope(
            process,
            tenant,
            project,
            id,
        ),
        process.id@ == id && process.project@ != project ==> outside_scope(
            process,
            tenant,
            project,
            id,
        ),
{
}

/// An artifact keeps a node busy exactly where it is held and the node has it, and then with all its holds.
pub proof fn nodes_are_busy_with_what_is_held(
    s: ArtifactRegistryModel,
    e: (ScopeText, ArtifactMetadataModel),
    node: Seq<char>,
)
    ensures
        ({
            let holds = held(s.holds, (e.1.tenant@, e.1.project@, e.1.id@));
            let busy = held_on(s, e, e.1.tenant@, e.1.project@, node);
            &&& busy is Some <==> e.1.retaining_nodes.contains(node) && holds.len() > 0
            &&& busy matches Some(found) ==> found.0 == e.1 && found.1 == holds
        }),
{
}

/// Where a run comes from is told by the trigger that the run names.
pub proof fn runs_come_from_their_trigger(s: AutomationStateModel, run: Seq<char>)
    ensures
        lookup(s.automated_runs, run) is None ==> trigger_of_run(s, run) is None,
        lookup(s.automated_runs, run) matches Some(record) ==> trigger_of_run(s, run) == lookup(
            s.accepted_commit_triggers,
            record.run.primary_trigger_id@,
        ),
{
}

/// Whatever secret is drawn, an artifact is exported to a node that lacks it and to none that has it.
pub proof fn exports_do_not_depend_on_their_secret(
    before: CoordinatorServiceModel,
    after: CoordinatorServiceModel,
    context: AuthContext,
    authz: Authorization,
    artifact: ArtifactId,
    receiver: NodeScopeKey,
    label: Seq<char>,
    cancelled: bool,
    rules: TransferRules,
    tokens: TransferTokens,
    now: u64,
    r: Result<ArtifactExport, CoordinatorServiceError>,
)
    requires
        export_handled(
            before,
            after,
            context,
            authz,
            artifact,
            receiver,
            label,
            cancelled,
            rules,
            tokens,
            now,
            r,
        ),
    ensures
        ({
            let known = lookup(
                before.artifacts.artifacts,
                (context.tenant@, context.project@, artifact@),
            );
            &&& known is None || !authz.allowed ==> r is Err && after == before
            &&& (known matches Some(metadata) && metadata.retaining_nodes.contains(receiver.node@)
                && authz.allowed) ==> after == before && (r matches Ok(export)
                && export.already_present)
            &&& r matches Ok(export) ==> export.artifact_size_bytes == known->Some_0.size
        }),
{
    let secret = choose|secret: Result<[u8; 32], String>| #[trigger]
        crate::artifacts::artifact_exported(
            before,
            after,
            context,
            authz,
            artifact,
            receiver,
            label,
            cancelled,
            rules,
            tokens,
            secret,
            now,
            r,
        );
    artifacts_are_exported_to_those_who_lack_them(
        before,
        after,
        context,
        authz,
        artifact,
        receiver,
        label,
        cancelled,
        rules,
        tokens,
        secret,
        now,
        r,
    );
}

/// A file is reported by an enrolled node. One without a path or without a digest is no artifact and changes
/// nothing.
pub proof fn files_become_artifacts_where_they_are_whole(
    before: CoordinatorServiceModel,
    after: CoordinatorServiceModel,
    tenant: TenantId,
    project: ProjectId,
    process: ProcessId,
    report: VfsReport,
    stopping: bool,
    path_checked: Result<(), String>,
    name_checked: Result<(), String>,
    claims: Vec<ArtifactClaim>,
    now: u64,
    r: Result<(), CoordinatorServiceError>,
)
    requires
        vfs_answered(
            before,
            after,
            tenant,
            project,
            process,
            report,
            stopping,
            path_checked,
            name_checked,
            claims,
            now,
            r,
        ),
    ensures
        r is Ok ==> is_enrolled(before, (tenant@, project@, report.node@)) && (stopping || lookup(
            before.coordinator.active_processes,
            (tenant@, project@, process@),
        ) is Some),
        report.artifact_path is Some && path_checked is Err ==> r is Err && after == before,
        report.artifact_path is None || report.artifact_digest is None ==> after == before,
        after.coordinator == before.coordinator && after.nodes == before.nodes && after.debug
            == before.debug && after.mains == before.mains && after.interchange
            == before.interchange,
{
}

/// A quota that an operator sets is that of the tenant from then on, and what is told of the tenant says so.
pub proof fn set_quotas_are_told(
    before: CoordinatorServiceModel,
    after: CoordinatorServiceModel,
    tenant: TenantId,
    quotas: Option<TenantQuotaOverrideValues>,
    operator: UserId,
    action: String,
    at: u64,
    ceiling: u64,
    default_quota: AdmissionQuotaLimits,
    effective_quota: AdmissionQuotaLimits,
    r: Result<HostedTenantAdminStatus, CoordinatorServiceError>,
)
    requires
        quota_configured(
            before,
            after,
            tenant,
            quotas,
            operator,
            action,
            at,
            ceiling,
            default_quota,
            effective_quota,
            r,
        ),
    ensures
        r matches Ok(status) ==> {
            &&& status.tenant@ == tenant@
            &&& status.quota_override == lookup(
                after.coordinator.durable.hosted_admin.tenant_quota_overrides,
                tenant@,
            )
            &&& status.default_quota == default_quota && status.effective_quota == effective_quota
        },
        after.nodes == before.nodes && after.debug == before.debug && after.mains == before.mains
            && after.artifacts == before.artifacts,
{
}

proof fn lemma_parted(holds: Seq<ArtifactHoldModel>, gone: spec_fn(ArtifactHoldReasonModel) -> bool)
    ensures
        holds.filter(|h: ArtifactHoldModel| gone(h.reason)).len() + holds.filter(
            |h: ArtifactHoldModel| !gone(h.reason),
        ).len() == holds.len(),
    decreases holds.len(),
{
    let p = |h: ArtifactHoldModel| gone(h.reason);
    let q = |h: ArtifactHoldModel| !gone(h.reason);
    if holds.len() > 0 {
        let rest = holds.drop_last();
        lemma_parted(rest, gone);
        assert(rest.push(holds.last()) =~= holds);
        rest.lemma_filter_len_push(p, holds.last());
        rest.lemma_filter_len_push(q, holds.last());
    } else {
        holds.lemma_filter_len(p);
        holds.lemma_filter_len(q);
    }
}

proof fn lemma_count_of_first(
    holds: Seq<(ScopeText, Seq<ArtifactHoldModel>)>,
    e: (ScopeText, Seq<ArtifactHoldModel>),
    tenant: Seq<char>,
    project: Seq<char>,
    gone: spec_fn(ArtifactHoldReasonModel) -> bool,
    n: int,
)
    requires
        0 <= n <= holds.len(),
    ensures
        released_count(holds.push(e), tenant, project, gone, n) == released_count(
            holds,
            tenant,
            project,
            gone,
            n,
        ),
    decreases n,
{
    if n > 0 {
        lemma_count_of_first(holds, e, tenant, project, gone, n - 1);
        assert(holds.push(e)[n - 1] == holds[n - 1]);
    }
}

/// The holds that a release counts are those that it ends: each artifact of the project adds its holds whose
/// reason is gone, and an artifact of another project adds none.
pub proof fn releases_count_what_they_end(
    holds: Seq<(ScopeText, Seq<ArtifactHoldModel>)>,
    e: (ScopeText, Seq<ArtifactHoldModel>),
    tenant: Seq<char>,
    project: Seq<char>,
    gone: spec_fn(ArtifactHoldReasonModel) -> bool,
)
    ensures
        released_count(holds.push(e), tenant, project, gone, (holds.len() + 1) as int) == released_count(
            holds,
            tenant,
            project,
            gone,
            holds.len() as int,
        ) + (if e.0.0 == tenant && e.0.1 == project {
            e.1.filter(|h: ArtifactHoldModel| gone(h.reason)).len() as int
        } else {
            0
        }),
        released_count(holds, tenant, project, gone, 0) == 0,
{
    lemma_count_of_first(holds, e, tenant, project, gone, holds.len() as int);
    lemma_parted(e.1, gone);
    assert(holds.push(e)[holds.len() as int] == e);
}

/// States of a transfer that end it have names of their own.
pub proof fn ends_of_transfers_have_their_names(state: ArtifactTransferState)
    ensures
        state_text(state) == "Completed"@ <==> state is Completed,
        state_text(state) == "Failed"@ <==> state is Failed,
{
    reveal_strlit("Requested");
    reveal_strlit("SourceSelected");
    reveal_strlit("Connecting");
    reveal_strlit("WaitingForDirect");
    reveal_strlit("Transferring");
    reveal_strlit("Verifying");
    reveal_strlit("Retrying");
    reveal_strlit("Completed");
    reveal_strlit("Failed");
    reveal_strlit("Cancelled");
    reveal_strlit("Expired");
    assert("Completed"@[0] == 'C' && "Completed"@.len() == 9 && "Completed"@[1] == 'o');
    assert("Requested"@[0] == 'R' && "Verifying"@[0] == 'V' && "Cancelled"@[1] == 'a');
    assert("Failed"@.len() == 6 && "Expired"@.len() == 7 && "Retrying"@.len() == 8);
    assert("Connecting"@.len() == 10 && "Transferring"@.len() == 12);
    assert("SourceSelected"@.len() == 14 && "WaitingForDirect"@.len() == 16);
}

/// The end of a stream shows what had not been shown: a tail that takes up where the stream was is shown as
/// it is, one that leaves a gap is shown behind a note of the gap, and where nothing is missing nothing is
/// shown. What is counted is the larger of what was and what is reported.
pub proof fn tails_show_what_was_missing(state: LogStreamState, total: u64, tail: Seq<char>)
    ensures
        ({
            let (lines, after) = stream_reconciled(state, total, tail, false);
            let length = byte_len(tail);
            &&& after.accounted >= total && after.accounted >= state.accounted
            &&& after.accounted == total || after.accounted == state.accounted
            &&& after.quota_truncated == state.quota_truncated
            &&& total <= state.accounted ==> lines.len() == 0 && after == state
            &&& total > state.accounted && tail.len() > 0 && state.accounted + length == total ==> {
                &&& lines.len() == 1 && lines[0].0 == tail && !lines[0].1
                &&& after.source_truncated == state.source_truncated
            }
            &&& total > state.accounted && tail.len() > 0 && state.accounted + length < total ==> {
                &&& lines.len() == 2 && lines[0].1 && lines[1].0 == tail && lines[1].1
                &&& after.source_truncated
            }
            &&& total > state.accounted && tail.len() == 0 ==> {
                &&& lines.len() == 1 && lines[0].1
                &&& after.source_truncated
            }
            &&& total > state.accounted && tail.len() > 0 && state.accounted + length > total ==> {
                &&& lines.len() <= 1
                &&& length <= total ==> after.source_truncated == state.source_truncated
                &&& length > total && state.accounted == 0 ==> lines.len() == 1 && lines[0].0 == tail
            }
        }),
{
}

} // verus!
