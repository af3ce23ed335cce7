//! What is recorded is what was said: answers, events, leases and plans hold what their sender gave, and a
//! service that starts holds nothing but what was stored.
use vstd::prelude::*;

use crate::artifact_registry::{ArtifactFlush, ArtifactMetadataModel};
use crate::automated_launch::{AutomatedLaunch, is_automated_launch, is_main_task};
use crate::automated_run::{AutomatedRunStageRecordModel, CommitTrigger, CompilerIdentityModel, EnvironmentResource, RepositoryRevision, TrustedDependencyModel, WorkflowCompilationRequestModel, WorkflowSourceModel, environment_resource_alike, repository_revision_alike, workflow_compilation_request_alike, workflow_source_alike};
use crate::automation::{after_last, is_retry_run, is_retry_trigger};
use crate::configuration::{CoordinatorAdmission, CoordinatorMainRuntimeConfiguration, CoordinatorServiceStartupConfiguration};
use crate::coordinator::{CoordinatorModel, booted};
use crate::debug::{MainDebugView, by_probe, is_answer, is_main_answer, is_new_plan, is_probe_location};
use crate::debug_registry::{DebugAcknowledgementState, DebugBreakpointPlanModel, DebugParticipantAcknowledgementModel, SourceLocation};
use crate::debug_validation::DebugSnapshot;
use crate::durable::DurableStateModel;
use crate::ids::{Digest, ScopeText};
use crate::interchange::{InterchangeRequest, is_local_record, is_new_transfer};
use crate::interchange_configuration::{CoordinatorArtifactInterchangeConfigurationModel, within_bounds};
use crate::keys::{ProcessText, TaskText};
use crate::logs::{CompletionFacts, FinalLogStreamAcceptance, TaskCompletionReport, is_completion_event, is_completion_flush, is_ended_attempt, is_ended_join};
use crate::main_runtime::{CoordinatorMainControlModel, CoordinatorMainRuntimeModel, MainLaunch, MainScope, is_capless, is_main_event, is_main_launch, main_added};
use crate::ordered_map::{lemma_lookup_put, lookup};
use crate::service::{CoordinatorServiceModel, started};
use crate::tasks::{TaskAttempt, TaskBoundaryValueModel, TaskCompletionEventModel, TaskDispatch, TaskExecutor, TaskJoinResult, TaskSpecModel, TaskTerminalState};
use crate::text::{byte_len, decimal, trimmed};
use crate::transfer::{ArtifactTransferPhase, ArtifactTransferRecord, InterchangeTransferModel};
use crate::workflow_bundle::{BundleRules, compiled_as_asked, dependencies_fit};

verus! {

/// What a task shows of itself is kept as it was shown, with the state that it reports.
pub proof fn answers_keep_what_was_shown(
    answer: DebugParticipantAcknowledgementModel,
    task: TaskText,
    definition: Seq<char>,
    epoch: u64,
    state: DebugAcknowledgementState,
    snapshot: DebugSnapshot,
)
    requires
        is_answer(answer, task, definition, epoch, state, snapshot),
    ensures
        answer.node@ == task.3 && answer.task@ == task.4 && answer.task_definition@ == definition,
        answer.epoch == epoch && answer.state == state,
        answer.current_source_location == snapshot.current_source_location,
        answer.stack_frames == snapshot.stack_frames@,
        answer.local_values == snapshot.local_values@,
        answer.task_args == snapshot.task_args@,
        answer.handles == snapshot.handles@,
        answer.command_status == snapshot.command_status,
        answer.recent_output == snapshot.recent_output@,
        answer.message == snapshot.message,
{
}

/// A coordinator main shows no values of its own, and its frame is that of the probe it stands at.
pub proof fn mains_show_where_they_stand(
    answer: DebugParticipantAcknowledgementModel,
    control: CoordinatorMainControlModel,
    epoch: u64,
    state: DebugAcknowledgementState,
    view: MainDebugView,
    name: Seq<char>,
)
    requires
        is_main_answer(answer, control, epoch, state, view),
    ensures
        answer.task_definition@ == control.task_definition@,
        answer.local_values.len() == 0 && answer.task_args.len() == 0,
        answer.command_status is None && answer.message is None,
        answer.recent_output.len() == 1,
        control.stopped_probe_symbol is None ==> answer.stack_frames.len() == 0,
        control.stopped_probe_symbol matches Some(symbol) ==> (symbol@ == "clusterflux.probe."@ + name
            ==> answer.stack_frames.len() == 1 && answer.stack_frames[0] == name + "::wasm"@),
        control.handles.len() == 0 ==> answer.handles.len() == 0,
{
    if control.stopped_probe_symbol is Some && control.stopped_probe_symbol->Some_0@
        == "clusterflux.probe."@ + name {
        crate::debugger_laws::frames_are_named_after_their_probe(
            control.stopped_probe_symbol->Some_0@,
            name,
        );
    }
    assert(crate::debug::pair_texts(answer.handles).len() == answer.handles.len());
}

/// A main that has ended is recorded with its outcome and nothing else: it ran on no node, and left nothing
/// behind but what it says went wrong.
pub proof fn ended_mains_are_recorded_with_their_outcome(
    event: TaskCompletionEventModel,
    scope: MainScope,
    outcome: (TaskTerminalState, Option<TaskBoundaryValueModel>, Seq<char>),
)
    requires
        is_main_event(event, scope, outcome),
    ensures
        event.node@ == "coordinator-main"@ && event.executor == TaskExecutor::CoordinatorMain,
        event.tenant@ == scope.tenant@ && event.project@ == scope.project@,
        event.task_definition@ == scope.task_definition@ && event.task@ == scope.task_instance@,
        event.attempt_id is None && event.placement is None,
        event.terminal_state == outcome.0 && event.result == outcome.1,
        event.stderr_tail@ == outcome.2 && event.stderr_bytes == byte_len(outcome.2),
        event.stdout_bytes == 0 && event.stdout_tail@.len() == 0,
        !event.stdout_truncated && !event.stderr_truncated,
        event.artifact_path is None && event.artifact_digest is None
            && event.artifact_size_bytes is None,
        event.status_code == Some(0i32) <==> outcome.2.len() == 0,
{
    reveal_strlit("");
}

/// A task that has ended is recorded as its node reported it, for the definition that it was assigned.
pub proof fn ended_tasks_are_recorded_as_reported(
    event: TaskCompletionEventModel,
    key: ProcessText,
    report: TaskCompletionReport,
    facts: CompletionFacts,
    out: FinalLogStreamAcceptance,
    err: FinalLogStreamAcceptance,
)
    requires
        is_completion_event(event, key, report, facts, out, err),
    ensures
        event.tenant@ == key.0 && event.project@ == key.1 && event.process@ == key.2,
        event.node@ == report.node@ && event.task@ == report.task@ && event.executor is Node,
        facts.assigned matches Some(assigned) && event.task_definition@ == assigned.1@,
        event.attempt_id is None && event.placement == facts.placement,
        event.terminal_state == report.terminal_state && event.status_code == report.status_code,
        event.artifact_path == report.artifact_path && event.artifact_digest
            == report.artifact_digest && event.artifact_size_bytes == report.artifact_size_bytes,
        event.stdout_bytes == out.total_source_bytes && event.stderr_bytes
            == err.total_source_bytes,
        event.result is Some <==> report.result is Some,
{
}

/// What a task made is flushed as its node reported it.
pub proof fn what_a_task_made_is_flushed_as_reported(
    flush: ArtifactFlush,
    key: ProcessText,
    report: TaskCompletionReport,
)
    requires
        is_completion_flush(flush, key, report),
    ensures
        report.artifact_digest matches Some(digest) && flush.digest@ == digest@,
        flush.tenant@ == key.0 && flush.project@ == key.1 && flush.process@ == key.2,
        flush.producer_task@ == report.task@ && flush.retaining_node@ == report.node@,
        report.artifact_path is Some,
        report.artifact_size_bytes matches Some(size) ==> flush.size == size,
        report.artifact_size_bytes is None ==> flush.size == report.logs.stdout_bytes,
{
}

/// An attempt that has ended says how, in its state and in the state of its command alike.
pub proof fn ended_attempts_say_how(after: TaskAttempt, before: TaskAttempt, event: TaskCompletionEventModel)
    requires
        is_ended_attempt(after, before, event),
    ensures
        after.state is Completed <==> event.terminal_state is Completed,
        after.command_state is Some,
        after.state is Completed ==> after.command_state->Some_0@ == "completed"@,
        after.state is Failed ==> after.command_state->Some_0@ == "failed"@,
        after.state is FailedAwaitingAction ==> after.command_state->Some_0@
            == "failed_awaiting_action"@,
        after.state is Cancelled ==> after.command_state->Some_0@ == "cancelled"@,
        after.status_code == event.status_code && after.artifact_digest == event.artifact_digest,
        after.error is None <==> trimmed(event.stderr_tail@).len() == 0,
        after.error matches Some(text) ==> text@ == event.stderr_tail@,
{
}

/// Whoever joins a task that failed is told what it said last.
pub proof fn joins_tell_what_went_wrong(r: TaskJoinResult, event: TaskCompletionEventModel)
    requires
        is_ended_join(r, event),
    ensures
        r.task@ == event.task@ && r.process@ == event.process@ && r.status_code
            == event.status_code,
        event.terminal_state is Failed && trimmed(event.stderr_tail@).len() > 0 ==> r.message@
            == "remote task failed: "@ + trimmed(event.stderr_tail@),
        event.terminal_state is Failed && trimmed(event.stderr_tail@).len() == 0 ==> r.message@
            == "remote task failed"@,
        event.terminal_state is Cancelled ==> r.message@ == "remote task was cancelled"@,
{
}

/// A breakpoint is at a line of a file of the project, and at a probe that is set.
pub proof fn breakpoints_are_at_lines_of_the_project(
    location: SourceLocation,
    symbols: Seq<Seq<char>>,
    other: SourceLocation,
    plan: DebugBreakpointPlanModel,
    actor: Seq<char>,
    revision: u64,
    set: Set<Seq<char>>,
    locations: Seq<SourceLocation>,
)
    requires
        is_probe_location(location, symbols),
        crate::ordered_map::ascending(by_probe(locations)),
        is_new_plan(plan, actor, revision, set, locations.push(location)),
    ensures
        symbols.contains(location.probe_id@),
        0 < location.source_path@.len() && byte_len(location.source_path@) <= 512,
        location.source_path@[0] != '/',
        location.line > 0,
        lookup(plan.probe_locations, location.probe_id@) == Some(location),
        plan.hit_probe_symbol is None && plan.hit_task is None && plan.hit_epoch is None,
        plan.actor@ == actor && plan.revision == revision && plan.probe_symbols == set,
{
    broadcast use lemma_lookup_put;

    assert(locations.push(location).drop_last() =~= locations);
}

/// A configuration that is accepted has positive figures, each within what the coordinator can bear.
pub proof fn accepted_figures_are_bounded(c: CoordinatorArtifactInterchangeConfigurationModel)
    requires
        within_bounds(c),
    ensures
        0 < c.no_progress_timeout_seconds <= 86400,
        4 * c.no_progress_timeout_seconds + 4 > c.active_transfer_lease_ttl_seconds,
        0 < c.max_active_transfers_per_tenant <= 4096,
        0 < c.max_active_transfers_per_project <= 4096,
        0 < c.max_active_transfers_per_process <= 4096,
        0 < c.max_provider_leases_per_node <= 4096,
        0 < c.max_receiver_leases_per_node <= 4096,
        0 < c.max_partial_bytes_per_node_project <= 1099511627776,
        0 < c.endpoint_advertisement_ttl_seconds <= 600,
        0 < c.transfer_lease_ttl_seconds <= 900,
        c.direct_path_grace_period_ms <= c.direct_path_deadline_ms,
        c.generation > 0,
{
}

/// A service that starts knows what was stored and nothing of the time before: no node, no process, no
/// transfer, no artifact.
pub proof fn services_start_with_what_was_stored(
    s: CoordinatorServiceModel,
    coordinator: CoordinatorModel,
    admin_token_digest: Option<Digest>,
    admission: CoordinatorAdmission,
    startup: CoordinatorServiceStartupConfiguration,
    limits: CoordinatorMainRuntimeConfiguration,
    now: u64,
    stored: DurableStateModel,
    epoch: u64,
)
    requires
        booted(stored, epoch, coordinator),
        started(s, coordinator, admin_token_digest, admission, startup, limits, now),
    ensures
        s.coordinator.durable.tenants == stored.tenants && s.coordinator.durable.users
            == stored.users && s.coordinator.durable.projects == stored.projects,
        s.coordinator.durable.node_identities == stored.node_identities
            && s.coordinator.durable.credentials == stored.credentials
            && s.coordinator.durable.cli_sessions == stored.cli_sessions,
        s.coordinator.durable.service_policy_records == stored.service_policy_records,
        s.coordinator.active_processes.len() == 0 && s.coordinator.coordinator_epoch == epoch,
        s.nodes.descriptors.len() == 0 && s.nodes.drain_statuses.len() == 0
            && s.nodes.last_seen_epoch_seconds.len() == 0 && s.nodes.enrollment_grants.len() == 0,
        s.nodes.advertisements.len() == 0 && s.nodes.bindings.len() == 0,
        s.node_stale_after_seconds == startup.node_stale_after_seconds,
        s.debug.audit_events.len() == 0 && s.debug.epochs.len() == 0 && s.debug.commands.len() == 0,
        s.debug_freeze_timeout_ms == 5000,
        s.mains.controls.len() == 0 && s.mains.next_launch_id == 1 && s.mains.limits == limits,
        s.artifacts.artifacts.len() == 0 && s.artifacts.holds.len() == 0
            && s.artifacts.issued_download_links.len() == 0 && s.artifacts.next_epoch == 0,
        s.interchange.transfers.len() == 0 && s.interchange.direct_body_bytes == 0
            && s.interchange.relayed_body_bytes == 0 && s.interchange.unknown_path_body_bytes == 0,
        s.interchange_configuration == crate::interchange_configuration::default_configuration(),
        s.admission == admission,
        s.admin_token_digest == admin_token_digest,
{
}

/// A bundle is accepted only where its compiler was the sandbox that was asked for, and it depends on nothing
/// but serde with its derive.
pub proof fn bundles_come_from_the_compiler_that_was_asked(
    compiler: CompilerIdentityModel,
    request: WorkflowCompilationRequestModel,
    rules: BundleRules,
    dependencies: Seq<TrustedDependencyModel>,
    digest_valid: bool,
)
    requires
        compiled_as_asked(compiler, request, rules),
        dependencies_fit(dependencies, rules, digest_valid),
    ensures
        compiler.hosted_sandbox,
        compiler.flags.len() == 5 && compiler.flags[0] == "-Copt-level=1"@ && compiler.flags[3]
            == "-Cpanic=abort"@ && compiler.flags[2] == "-Cstrip=none"@ && compiler.flags[1]
            == "-Cdebuginfo=2"@ && compiler.flags[4]
            == "--remap-path-prefix=/workspace=.clusterflux"@,
        compiler.target@ == "wasm32-unknown-unknown"@,
        compiler.sdk_digest@ == request.compiler_sdk@ && compiler.rustc_version@
            == request.rust_toolchain@ && compiler.sdk_version@ == rules.sdk_version@,
        compiler.sandbox_image_digest matches Some(image) && image@ == request.compiler_image@,
        dependencies.len() == 1 && dependencies[0].package@ == "serde"@ && dependencies[0].version@
            == rules.serde_version@,
        dependencies[0].features.len() == 1 && dependencies[0].features[0] == "derive"@,
        digest_valid,
{
}

/// Revisions, sources and requests that count as the same agree in all that they say.
pub proof fn what_counts_as_the_same_agrees(
    a: RepositoryRevision,
    b: RepositoryRevision,
    p: WorkflowSourceModel,
    q: WorkflowSourceModel,
    x: WorkflowCompilationRequestModel,
    y: WorkflowCompilationRequestModel,
    m: EnvironmentResource,
    n: EnvironmentResource,
)
    ensures
        repository_revision_alike(a, b) ==> a.repository_id@ == b.repository_id@ && a.commit_sha@
            == b.commit_sha@ && a.source_snapshot@ == b.source_snapshot@ && a.content@ == b.content@,
        repository_revision_alike(a, a) && workflow_source_alike(p, q) == workflow_source_alike(q, p),
        workflow_source_alike(p, q) ==> p.trigger_id@ == q.trigger_id@ && p.commit_sha@
            == q.commit_sha@ && p.tree_digest@ == q.tree_digest@ && p.manifest_digest@
            == q.manifest_digest@ && p.total_bytes == q.total_bytes && p.content@ == q.content@,
        workflow_compilation_request_alike(x, y) ==> x.run_id@ == y.run_id@ && x.compiler_profile@
            == y.compiler_profile@ && x.compiler_image@ == y.compiler_image@ && x.compiler_sdk@
            == y.compiler_sdk@ && x.rust_toolchain@ == y.rust_toolchain@ && x.max_output_bytes
            == y.max_output_bytes && x.wall_clock_seconds == y.wall_clock_seconds && x.content@
            == y.content@ && x.source.tree_digest@ == y.source.tree_digest@,
        environment_resource_alike(m, n) ==> m.name@ == n.name@ && m.digest@ == n.digest@
            && m.definition@ == n.definition@ && m.requirements.capabilities
            == n.requirements.capabilities && m.requirements.detail@ == n.requirements.detail@
            && (m.requirements.arch is Some <==> n.requirements.arch is Some),
        environment_resource_alike(m, m),
{
}

/// A transfer that begins has moved nothing and is acknowledged by nobody, and its lease names the nonce and
/// the time for a direct path that hold for it.
pub proof fn transfers_begin_with_nothing_done(
    t: InterchangeTransferModel,
    s: CoordinatorServiceModel,
    scope: ScopeText,
    q: InterchangeRequest,
    source: Seq<char>,
    id: Seq<char>,
    nonce: Seq<char>,
    secret: [u8; 32],
    now: u64,
)
    requires
        is_new_transfer(t, s, scope, q, source, id, nonce, secret, now),
    ensures
        t.record.updated_at == now && t.record.created_at == now && t.record.last_progress_at == now,
        t.record.phase == ArtifactTransferPhase::Queued,
        t.destination_acknowledged_at is None && t.provider_acknowledged_at is None,
        t.metered_body_bytes == 0,
        t.record.bytes_completed == q.offset,
        t.destination_authorization.lease.nonce@ == nonce,
        t.provider_authorization.lease.nonce@ == nonce,
        t.destination_authorization.lease.direct_path_deadline_ms
            == s.interchange_configuration.direct_path_deadline_ms,
{
}

/// What is already there counts as a transfer that is complete at once.
pub proof fn what_is_there_is_complete_at_once(
    record: ArtifactTransferRecord,
    scope: ScopeText,
    q: InterchangeRequest,
    metadata: ArtifactMetadataModel,
    token: Seq<char>,
    now: u64,
)
    requires
        is_local_record(record, scope, q, metadata, token, now),
    ensures
        record.updated_at == now && record.created_at == now,
        record.phase == ArtifactTransferPhase::Complete,
        record.bytes_completed == record.total_bytes && record.total_bytes == metadata.size,
        record.source_node@ == record.destination_node@,
        record.failure_code is None && record.attempt_count == 0,
{
}

/// A retry is a delivery of its own, received when it was asked for, of the same commit.
pub proof fn retries_are_deliveries_of_their_own(
    t: CommitTrigger,
    original: CommitTrigger,
    run_id: Seq<char>,
    retry_run: Seq<char>,
    number: nat,
    now: u64,
    run: AutomatedRunStageRecordModel,
    earlier: AutomatedRunStageRecordModel,
    key: Seq<char>,
)
    requires
        is_retry_trigger(t, original, run_id, retry_run, number, now),
        is_retry_run(run, earlier, retry_run, key, t.trigger_id@, now),
    ensures
        t.delivery_id@ == "manual-retry-"@ + run_id + "-"@ + decimal(number),
        t.received_at == now,
        t.commit_sha == original.commit_sha && t.git_ref == original.git_ref,
        run.run.run_id@ == retry_run && run.run.primary_trigger_id@ == t.trigger_id@,
        run.compiled_summary is None && run.trigger_context is None && run.launch_attempt is None,
        run.compiled_bundle is None && run.revision is None && run.source is None,
        run.run.commit_sha == earlier.run.commit_sha && run.run.tenant == earlier.run.tenant,
        run.run.created_at == now && run.run.process_id is None,
{
}

/// A launch is of the run, its bundle and its revision, and of the main that the bundle names: a task without
/// anything but the source it is to run on.
pub proof fn launches_are_of_their_run(
    launch: AutomatedLaunch,
    run: AutomatedRunStageRecordModel,
    id: Seq<char>,
    export: String,
    spec: TaskSpecModel,
    epoch: u64,
)
    requires
        is_automated_launch(launch, run, id, export),
        is_main_task(spec, launch, id, epoch),
    ensures
        launch.snapshot@ == run && launch.entrypoint_export == export,
        Some(launch.revision) == run.revision && Some(launch.bundle@) == run.compiled_bundle,
        spec.dependency_cache is None && spec.environment_digest is None
            && spec.environment is None && spec.environment_id is None,
        spec.failure_policy is FailFast,
        spec.task_instance@ == "main-"@ + after_last(id, '-'),
        spec.dispatch matches TaskDispatch::CoordinatorNodeWasm { export: named, .. } && named
            == Some(export),
        spec.args.len() == 0 && spec.required_artifacts.len() == 0,
        spec.source_revision == run.revision,
{
}

/// A main that is launched runs the export and the module that were given, for the task that names it, and
/// has no part of any environment.
pub proof fn mains_run_what_was_given(
    s: CoordinatorServiceModel,
    tenant: Seq<char>,
    project: Seq<char>,
    spec: TaskSpecModel,
    module: Seq<u8>,
    embedded: Seq<(Seq<char>, EnvironmentResource)>,
    launch: MainLaunch,
    before: CoordinatorMainRuntimeModel,
    after: CoordinatorMainRuntimeModel,
    key: ProcessText,
)
    requires
        is_main_launch(s, tenant, project, spec, module, embedded, launch),
        is_capless(spec),
        main_added(before, after, key, spec),
    ensures
        launch.scope.task_definition@ == spec.task_definition@,
        launch.module@ == module,
        spec.dispatch matches TaskDispatch::CoordinatorNodeWasm { export: Some(named), .. }
            && launch.export@ == named@,
        spec.source_revision is Some ==> launch.source_revision == spec.source_revision,
        spec.environment_digest is None && spec.dependency_cache is None && spec.environment is None,
        lookup(after.controls, key) matches Some(control) && control.task_definition@
            == spec.task_definition@ && control.task_instance@ == spec.task_instance@
            && !control.abort && control.launch_id == before.next_launch_id
            && control.handles.len() == 0 && control.stopped_probe_symbol is None,
        before.next_launch_id < u64::MAX ==> after.next_launch_id == before.next_launch_id + 1,
{
}

} // verus!
