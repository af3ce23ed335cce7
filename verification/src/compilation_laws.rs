//! How workflows come to be compiled: by nodes that can, a bounded number of times, and for the run whose turn
//! it is.
use vstd::prelude::*;

use crate::automated_run::{AutomatedRunStageRecord, AutomatedRunStageRecordModel, AutomatedRunState, AutomationStateModel, WorkflowCompilationRequestModel};
use crate::duplicate::option_view;
use crate::node_registry::SystemBundle;
use crate::ordered::Ranked;
use crate::ordered_map::{ascending, bound_at, lemma_lookup_at, lemma_lookup_found, lemma_lookup_put, lemma_put_ascending, lookup};
use crate::service::CoordinatorServiceModel;
use crate::service_error::CoordinatorServiceError;
use crate::system_tasks::{AssignmentAuthority, AssignmentKind, CompilerAssignment, ReportStanding, SystemManifest, SystemTaskStep, WorkflowCompilationResultModel, acknowledged_seconds, authorized_seconds, can_be_offered, compiler_served, exhausted_failed, exhausted_in, lost_at, offer_made, offer_queue, offered_first, system_reported, system_task_polled};
use crate::workflow_bundle::{BundleChecks, BundleRules};

verus! {

/// A run has ended.
pub open spec fn is_over(r: AutomatedRunStageRecordModel) -> bool {
    r.run.state == AutomatedRunState::Completed || r.run.state == AutomatedRunState::Failed
        || r.run.state == AutomatedRunState::Cancelled
}

/// A run of the project is to be compiled: it has asked for it, was tried fewer than five times, and has not
/// been compiled.
pub open spec fn is_to_be_compiled(
    r: AutomatedRunStageRecordModel,
    tenant: Seq<char>,
    project: Seq<char>,
) -> bool {
    &&& r.run.tenant@ == tenant && r.run.project@ == project
    &&& r.run.state == AutomatedRunState::WaitingForCompilerNode || r.run.state
        == AutomatedRunState::CompilingWorkflow
    &&& r.compilation_request is Some
    &&& r.compiled_bundle is None && r.compiled_summary is None
    &&& r.assignment_retry.attempts < 5
}

/// What a run asks for is what a compiler gives: of the release, and not too large for it.
pub open spec fn suits(
    request: WorkflowCompilationRequestModel,
    bundle: SystemBundle,
    manifest: SystemManifest,
) -> bool {
    &&& request.compiler_profile@ == manifest.compiler_profile@
    &&& request.compiler_image@ == manifest.environment_digest@
    &&& request.compiler_sdk@ == manifest.sdk_digest@
    &&& request.rust_toolchain@ == manifest.rust_toolchain@
    &&& request.rust_toolchain@ == bundle.rust_toolchain@
    &&& request.source.total_bytes <= bundle.max_source_bytes
    &&& request.max_output_bytes <= bundle.max_output_bytes
}

/// No other node works on a run.
pub open spec fn is_free_for(
    r: AutomatedRunStageRecordModel,
    node: Seq<char>,
    assignments: Seq<(Seq<char>, CompilerAssignment)>,
    now: u64,
) -> bool {
    lookup(assignments, r.run.run_id@) matches Some(active) ==> active.node@ == node
        && active.offered && now <= active.lease_expires_at
}

proof fn lemma_left_alone(
    before: AutomationStateModel,
    middle: AutomationStateModel,
    tenant: Seq<char>,
    project: Seq<char>,
    assignments: Seq<(Seq<char>, CompilerAssignment)>,
    now: u64,
    id: Seq<char>,
)
    requires
        ascending(before.automated_runs),
        exhausted_failed(before, middle, tenant, project, assignments, now),
    ensures
        ascending(middle.automated_runs),
        lookup(middle.automated_runs, id) == lookup(before.automated_runs, id) || {
            &&& lookup(before.automated_runs, id) matches Some(run)
            &&& run.assignment_retry.attempts >= 5
            &&& lookup(assignments, run.run.run_id@) is None
            &&& run.run.tenant@ == tenant && run.run.project@ == project
            &&& lookup(middle.automated_runs, id) matches Some(lost)
            &&& lost.run.state == AutomatedRunState::Failed
            &&& lost.run.ended_at == Some(now)
            &&& option_view(lost.run.failure_code) == Some("system_assignment_node_lost"@)
        },
{
    broadcast use lemma_lookup_put;

    let p = exhausted_in(tenant, project, assignments);
    if middle != before {
        let i = choose|i: int| #[trigger] lost_at(before, middle, p, now, i);
        lemma_lookup_at(before.automated_runs, i);
        let record = lookup(middle.automated_runs, before.automated_runs[i].0)->Some_0;
        lemma_put_ascending(before.automated_runs, before.automated_runs[i].0, record);
    }
}

/// A node is asked to compile the oldest run that is to be compiled, suits its compiler and is free for it,
/// each time in a later epoch and as one more attempt. It is asked nothing exactly where there is no such run.
pub proof fn the_oldest_run_that_suits_is_compiled(
    before: AutomationStateModel,
    after: AutomationStateModel,
    tenant: Seq<char>,
    project: Seq<char>,
    node: Seq<char>,
    bundle: SystemBundle,
    manifest: SystemManifest,
    assignments: Seq<(Seq<char>, CompilerAssignment)>,
    now: u64,
    step: SystemTaskStep,
    id: Seq<char>,
)
    requires
        ascending(before.automated_runs),
        compiler_served(
            before,
            after,
            tenant,
            project,
            node,
            bundle,
            manifest,
            assignments,
            now,
            step,
        ),
        lookup(before.automated_runs, id) is Some,
    ensures
        ({
            let run = lookup(before.automated_runs, id)->Some_0;
            let eligible = is_to_be_compiled(run, tenant, project) && suits(
                run.compilation_request->Some_0,
                bundle,
                manifest,
            ) && is_free_for(run, node, assignments, now);
            &&& eligible ==> !(step is Nothing)
            &&& step matches SystemTaskStep::Assign { run_id, attempts, offer_epoch, offer_seconds }
                ==> {
                &&& run_id@ == id ==> {
                    &&& eligible
                    &&& lookup(assignments, id) is None
                    &&& attempts == run.assignment_retry.attempts + 1
                    &&& run.assignment_retry.next_offer_epoch < u64::MAX ==> offer_epoch
                        == run.assignment_retry.next_offer_epoch + 1
                    &&& offer_seconds == 30
                    &&& lookup(after.automated_runs, id) matches Some(next)
                    &&& next.assignment_retry.attempts == attempts
                    &&& next.assignment_retry.next_offer_epoch == offer_epoch
                    &&& next.run == run.run
                }
                &&& eligible && run_id@ != id ==> (lookup(
                    before.automated_runs,
                    run_id@,
                ) matches Some(chosen) && (chosen.run.created_at < run.run.created_at || (
                chosen.run.created_at == run.run.created_at && run_id@.before(id))))
            }
            &&& step matches SystemTaskStep::Offer(offer) ==> {
                &&& offer@.tenant@ == tenant && offer@.project@ == project && offer@.node@ == node
                &&& offer@.bundle_id@ == manifest.bundle_id@
                &&& offer@.bundle_digest@ == manifest.bundle_digest@
            }
        }),
{
    broadcast use lemma_lookup_put;

    let middle = choose|middle: AutomationStateModel| #[trigger]
        exhausted_failed(before, middle, tenant, project, assignments, now) && offer_made(
            middle,
            after,
            tenant,
            project,
            node,
            bundle,
            manifest,
            assignments,
            now,
            step,
        );
    lemma_left_alone(before, middle, tenant, project, assignments, now, id);
    let queue = offer_queue(middle, tenant, project, node, bundle, manifest, assignments, now);
    let run = lookup(before.automated_runs, id)->Some_0;
    let eligible = is_to_be_compiled(run, tenant, project) && suits(
        run.compilation_request->Some_0,
        bundle,
        manifest,
    ) && is_free_for(run, node, assignments, now);
    if eligible {
        assert(lookup(middle.automated_runs, id) == Some(run));
        lemma_lookup_found(middle.automated_runs, id);
        let i = choose|i: int| bound_at(middle.automated_runs, id, i);
        lemma_lookup_at(middle.automated_runs, i);
        assert(can_be_offered(run, tenant, project, node, bundle, manifest, assignments, now));
        assert(queue.contains((run.run.created_at, id)));
    }
    if queue != Set::<(u64, Seq<char>)>::empty() {
        let k = choose|k: (u64, Seq<char>)| #[trigger]
            offered_first(
                middle,
                after,
                tenant,
                project,
                node,
                bundle,
                manifest,
                assignments,
                now,
                step,
                k,
            );
        assert(queue.contains(k));
        let j = choose|j: int|
            0 <= j < middle.automated_runs.len() && can_be_offered(
                (#[trigger] middle.automated_runs[j]).1,
                tenant,
                project,
                node,
                bundle,
                manifest,
                assignments,
                now,
            ) && middle.automated_runs[j].0 == k.1 && middle.automated_runs[j].1.run.created_at
                == k.0;
        lemma_lookup_at(middle.automated_runs, j);
        lemma_left_alone(before, middle, tenant, project, assignments, now, k.1);
        assert(lookup(before.automated_runs, k.1) == Some(middle.automated_runs[j].1));
        if eligible && k.1 != id {
            assert(k.before((run.run.created_at, id)));
        }
    }
}

/// A run is given up only after it was tried five times, when no node works on it.
pub proof fn runs_are_given_up_after_five_attempts(
    before: AutomationStateModel,
    after: AutomationStateModel,
    tenant: Seq<char>,
    project: Seq<char>,
    node: Seq<char>,
    bundle: SystemBundle,
    manifest: SystemManifest,
    assignments: Seq<(Seq<char>, CompilerAssignment)>,
    now: u64,
    step: SystemTaskStep,
    id: Seq<char>,
)
    requires
        ascending(before.automated_runs),
        compiler_served(
            before,
            after,
            tenant,
            project,
            node,
            bundle,
            manifest,
            assignments,
            now,
            step,
        ),
        lookup(before.automated_runs, id) matches Some(run) && !is_over(run),
    ensures
        lookup(after.automated_runs, id) matches Some(left) && (is_over(left) ==> {
            let run = lookup(before.automated_runs, id)->Some_0;
            &&& run.assignment_retry.attempts >= 5
            &&& lookup(assignments, run.run.run_id@) is None
            &&& run.run.tenant@ == tenant && run.run.project@ == project
            &&& left.run.state == AutomatedRunState::Failed && left.run.ended_at == Some(now)
            &&& option_view(left.run.failure_code) == Some("system_assignment_node_lost"@)
        }),
{
    broadcast use lemma_lookup_put;

    let middle = choose|middle: AutomationStateModel| #[trigger]
        exhausted_failed(before, middle, tenant, project, assignments, now) && offer_made(
            middle,
            after,
            tenant,
            project,
            node,
            bundle,
            manifest,
            assignments,
            now,
            step,
        );
    lemma_left_alone(before, middle, tenant, project, assignments, now, id);
    let queue = offer_queue(middle, tenant, project, node, bundle, manifest, assignments, now);
    if queue != Set::<(u64, Seq<char>)>::empty() {
        let k = choose|k: (u64, Seq<char>)| #[trigger]
            offered_first(
                middle,
                after,
                tenant,
                project,
                node,
                bundle,
                manifest,
                assignments,
                now,
                step,
                k,
            );
        assert(queue.contains(k));
        let j = choose|j: int|
            0 <= j < middle.automated_runs.len() && can_be_offered(
                (#[trigger] middle.automated_runs[j]).1,
                tenant,
                project,
                node,
                bundle,
                manifest,
                assignments,
                now,
            ) && middle.automated_runs[j].0 == k.1 && middle.automated_runs[j].1.run.created_at
                == k.0;
        lemma_lookup_at(middle.automated_runs, j);
    }
}

/// Only a node that is enrolled, has reported what it can do and can run the compiler of the release is asked
/// to compile: one on Linux, of the right architecture, with rootless containers, that has the bundle of the
/// release and may do more than execute. To any other, every run that waits is told why.
pub proof fn only_nodes_with_the_compiler_compile(
    before: CoordinatorServiceModel,
    after: CoordinatorServiceModel,
    tenant: Seq<char>,
    project: Seq<char>,
    node: Seq<char>,
    manifest: SystemManifest,
    assignments: Seq<(Seq<char>, CompilerAssignment)>,
    now: u64,
    r: Result<SystemTaskStep, CoordinatorServiceError>,
)
    requires
        system_task_polled(
            before,
            after,
            tenant,
            project,
            node,
            manifest,
            assignments,
            now,
            r,
        ),
    ensures
        ({
            let scope = (tenant, project, node);
            &&& lookup(before.coordinator.durable.node_identities, scope) is None ==> r is Err
            &&& lookup(before.nodes.descriptors, scope) is None ==> r is Err
            &&& r is Err ==> after == before
            &&& (r matches Ok(step) && !(step is Nothing)) ==> {
                &&& lookup(before.nodes.descriptors, scope) matches Some(descriptor)
                &&& !descriptor.capabilities.execution_only
                &&& descriptor.capabilities.linux && descriptor.capabilities.container_backend
                    && descriptor.capabilities.rootless_podman
                &&& descriptor.capabilities.arch@ == manifest.supported_arch@
                &&& exists|i: int|
                    0 <= i < descriptor.capabilities.system_bundles.len() && {
                        let bundle = #[trigger] descriptor.capabilities.system_bundles[i];
                        &&& bundle.bundle_id@ == manifest.bundle_id@
                        &&& bundle.bundle_digest@ == manifest.bundle_digest@
                        &&& bundle.environment_digest@ == manifest.environment_digest@
                        &&& bundle.sdk_abi_version == manifest.sdk_abi_version
                        &&& bundle.wasm_target@ == manifest.wasm_target@
                    }
            }
            &&& after.mains == before.mains && after.debug == before.debug && after.artifacts
                == before.artifacts && after.coordinator.active_processes
                == before.coordinator.active_processes
        }),
{
}

/// A run whose workflow was compiled waits for its process, under the digest of what was compiled. One whose
/// compilation failed waits for another node where it can be tried again and was not tried five times, and
/// fails otherwise, with what the compiler said. A run that has ended stays as it is, and so does every other.
pub proof fn compilations_lead_on_or_fail(
    before: CoordinatorServiceModel,
    after: CoordinatorServiceModel,
    bundle_id: Seq<char>,
    bundle_digest: Seq<char>,
    result: WorkflowCompilationResultModel,
    system_check: Result<(), String>,
    check: Result<(), String>,
    manifest: SystemManifest,
    standing: ReportStanding,
    rules: BundleRules,
    checks: BundleChecks,
    now: u64,
    r: Result<AutomatedRunStageRecord, CoordinatorServiceError>,
    id: Seq<char>,
)
    requires
        ascending(before.coordinator.durable.automation.automated_runs),
        system_reported(
            before,
            after,
            bundle_id,
            bundle_digest,
            result,
            system_check,
            check,
            manifest,
            standing,
            rules,
            checks,
            now,
            r,
        ),
    ensures
        ({
            let known = before.coordinator.durable.automation.automated_runs;
            let left = after.coordinator.durable.automation.automated_runs;
            &&& r is Err ==> after == before
            &&& id != result.run_id@ ==> lookup(left, id) == lookup(known, id)
            &&& r matches Ok(record) ==> {
                &&& bundle_id == manifest.bundle_id@ && bundle_digest == manifest.bundle_digest@
                &&& system_check is Ok && check is Ok
                &&& lookup(known, result.run_id@) matches Some(run)
                &&& standing.ended || (standing.active && option_view(standing.active_run) == Some(
                    result.run_id@,
                ))
                &&& is_over(run) ==> after == before && record@ == run
                &&& !is_over(run) && run.compiled_bundle is Some ==> after == before
                    && result.bundle is Some && result.bundle->Some_0.bundle_digest@
                    == run.compiled_bundle->Some_0.bundle_digest@
                &&& !is_over(run) && run.compiled_bundle is None ==> {
                    let again = result.retryable && run.assignment_retry.attempts < 5;
                    &&& lookup(left, result.run_id@) == Some(record@)
                    &&& record@.run.state == AutomatedRunState::WaitingForProcessSlot
                        <==> result.bundle is Some
                    &&& record@.run.state == AutomatedRunState::WaitingForCompilerNode
                        <==> result.bundle is None && again
                    &&& record@.run.state == AutomatedRunState::Failed <==> result.bundle is None
                        && !again
                    &&& result.bundle matches Some(bundle) ==> record@.compiled_bundle == Some(bundle)
                        && record@.run.bundle_digest == Some(bundle.bundle_digest)
                    &&& result.bundle is None && !again ==> record@.run.ended_at == Some(now)
                        && record@.run.failure_code == result.failure_code && record@.source is None
                        && record@.compilation_request is None
                    &&& record@.assignment_retry == run.assignment_retry
                }
            }
        }),
{
    broadcast use lemma_lookup_put;

}

/// A node that takes an offer on has it for as long as the compilation may take and half a minute, and for
/// three minutes at least, and only under the authority that it was offered.
pub proof fn offers_are_taken_under_their_authority(
    s: AutomationStateModel,
    kind: Option<AssignmentKind>,
    tenant: Seq<char>,
    project: Seq<char>,
    assignment_id: Seq<char>,
    lease_epoch: u64,
    authority: AssignmentAuthority,
)
    ensures
        acknowledged_seconds(
            s,
            kind,
            tenant,
            project,
            assignment_id,
            lease_epoch,
            authority,
        ) matches Some(seconds) ==> {
            &&& kind matches Some(AssignmentKind::WorkflowCompiler { run_id })
            &&& lookup(s.automated_runs, run_id@) matches Some(run)
            &&& run.run.tenant@ == tenant && run.run.project@ == project
            &&& authority.assignment_id@ == assignment_id && authority.offer_epoch == lease_epoch
            &&& seconds >= 180
            &&& run.compilation_request matches Some(request) ==> (seconds >= request.wall_clock_seconds
                + 30 || seconds == u64::MAX) && (seconds > 180 ==> seconds <= request.wall_clock_seconds
                + 30)
            &&& run.compilation_request is None ==> seconds == 180
        },
{
}

/// A node goes on with what it was assigned only while that is wanted: a compilation while its run is being
/// compiled and has no bundle, a task while its process is active, was not cancelled and has its checkpoint.
pub proof fn work_goes_on_while_it_is_wanted(
    s: CoordinatorServiceModel,
    kind: Option<AssignmentKind>,
    tenant: Seq<char>,
    project: Seq<char>,
    cancelled: bool,
    checkpointed: bool,
)
    ensures
        ({
            let seconds = authorized_seconds(s, kind, tenant, project, cancelled, checkpointed);
            &&& kind is None ==> seconds is None
            &&& kind matches Some(AssignmentKind::ProcessTask { process, task }) ==> {
                &&& seconds is Some <==> lookup(
                    s.coordinator.active_processes,
                    (tenant, project, process@),
                ) is Some && !cancelled && checkpointed
                &&& seconds is Some ==> seconds == Some(180u64)
            }
            &&& kind matches Some(AssignmentKind::WorkflowCompiler { run_id }) ==> {
                let run = lookup(s.coordinator.durable.automation.automated_runs, run_id@);
                &&& seconds is Some <==> (run matches Some(run) && run.run.tenant@ == tenant
                    && run.run.project@ == project && run.run.state
                    == AutomatedRunState::CompilingWorkflow && run.compilation_request is Some
                    && run.compiled_bundle is None)
                &&& seconds is Some ==> seconds->Some_0 >= 180
            }
        }),
{
}

} // verus!
