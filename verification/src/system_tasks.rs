//! Compilations of workflows: how they are offered to nodes, and what their results change.
use vstd::prelude::*;
use vstd::string::*;

use crate::automated_run::{AssignmentRetry, AutomatedRunRecord, AutomatedRunStageRecord, AutomatedRunStageRecordModel, AutomatedRunState, AutomationState, AutomationStateModel, CompiledWorkflowBundle, CompiledWorkflowBundleModel, EnvironmentResource, WorkflowCompilationRequest, WorkflowCompilationRequestModel, all_environment_resource_alike, same_environment_resources};
use crate::automation::{MAX_SYSTEM_ASSIGNMENT_ATTEMPTS, SYSTEM_ASSIGNMENT_LEASE_SECONDS, SYSTEM_ASSIGNMENT_OFFER_SECONDS, is_digest_text, run_compiles, run_ended, run_in, run_queue, waits_for, with_run};
use crate::coordinator::{CoordinatorError, with_automation};
use crate::duplicate::{Duplicate, copy_option, option_view, views};
use crate::ids::{Digest, NodeId, NodeScopeKey, ProcessId, ProjectId, RunId, TaskInstanceId, TenantId};
use crate::node_registry::{NodeCapabilities, NodeCapabilitiesModel, NodeDescriptor, SystemBundle};
use crate::ordered::OrderedKey;
use crate::ordered_map::{OrderedMap, lemma_lookup_at, lemma_lookup_put, lemma_put_delete, lookup};
use crate::ordered_set::{OrderedSet, is_least};
use crate::sequences::{holds_of_some, is_first, position};
use crate::service::{CoordinatorService, CoordinatorServiceModel};
use crate::service_error::{CoordinatorServiceError, protocol, unauthorized};
use crate::artifact_registry::saturating;
use crate::text::{chars_of, concat2, concat3, decimal, decimal_text, part, text_eq, text_of};

use crate::workflow_bundle::{BundleChecks, BundleRules, bundle_checked, validate_compiled_module};

verus! {

/// The system bundle of this release that compiles workflows.
pub struct SystemManifest {
    pub bundle_id: String,
    pub bundle_digest: Digest,
    pub environment_digest: Digest,
    pub sdk_abi_version: u32,
    pub wasm_target: String,
    pub supported_arch: String,
    pub sdk_digest: Digest,
    pub rust_toolchain: String,
    pub compiler_profile: String,
}

impl View for SystemManifest {
    type V = SystemManifest;

    open spec fn view(&self) -> SystemManifest {
        *self
    }
}

/// A compilation that is assigned to a node at present. `offered` tells one that the node has not acknowledged.
pub struct CompilerAssignment {
    pub assignment_id: String,
    pub attempt_id: String,
    pub offer_epoch: u64,
    pub node: NodeId,
    pub offered: bool,
    pub lease_expires_at: u64,
}

impl View for CompilerAssignment {
    type V = CompilerAssignment;

    open spec fn view(&self) -> CompilerAssignment {
        *self
    }
}

impl Duplicate for CompilerAssignment {
    fn duplicate(&self) -> (r: Self) {
        CompilerAssignment {
            assignment_id: self.assignment_id.clone(),
            attempt_id: self.attempt_id.clone(),
            offer_epoch: self.offer_epoch,
            node: self.node.clone(),
            offered: self.offered,
            lease_expires_at: self.lease_expires_at,
        }
    }
}

/// What names one assignment of one attempt.
pub struct AssignmentAuthority {
    pub assignment_id: String,
    pub attempt_id: String,
    pub offer_epoch: u64,
}

impl View for AssignmentAuthority {
    type V = AssignmentAuthority;

    open spec fn view(&self) -> AssignmentAuthority {
        *self
    }
}

impl Duplicate for AssignmentAuthority {
    fn duplicate(&self) -> (r: Self) {
        AssignmentAuthority {
            assignment_id: self.assignment_id.clone(),
            attempt_id: self.attempt_id.clone(),
            offer_epoch: self.offer_epoch,
        }
    }
}

/// A compilation that is offered to a node.
pub struct SystemTaskOffer {
    pub authority: AssignmentAuthority,
    pub tenant: TenantId,
    pub project: ProjectId,
    pub node: NodeId,
    pub expires_at_epoch_seconds: u64,
    pub bundle_id: String,
    pub bundle_digest: Digest,
    pub environment_digest: Digest,
    pub request: WorkflowCompilationRequest,
}

/// The model of [`SystemTaskOffer`].
#[verifier::ext_equal]
pub struct SystemTaskOfferModel {
    pub authority: AssignmentAuthority,
    pub tenant: TenantId,
    pub project: ProjectId,
    pub node: NodeId,
    pub expires_at_epoch_seconds: u64,
    pub bundle_id: String,
    pub bundle_digest: Digest,
    pub environment_digest: Digest,
    pub request: WorkflowCompilationRequestModel,
}

impl View for SystemTaskOffer {
    type V = SystemTaskOfferModel;

    open spec fn view(&self) -> SystemTaskOfferModel {
        SystemTaskOfferModel {
            authority: self.authority,
            tenant: self.tenant,
            project: self.project,
            node: self.node,
            expires_at_epoch_seconds: self.expires_at_epoch_seconds,
            bundle_id: self.bundle_id,
            bundle_digest: self.bundle_digest,
            environment_digest: self.environment_digest,
            request: self.request@,
        }
    }
}

/// What a node reports of a compilation.
pub struct WorkflowCompilationResult {
    pub run_id: RunId,
    pub node: NodeId,
    pub authority: AssignmentAuthority,
    pub bundle: Option<CompiledWorkflowBundle>,
    pub retryable: bool,
    pub failure_code: Option<String>,
    pub compiler_transcript: String,
}

/// The model of [`WorkflowCompilationResult`].
#[verifier::ext_equal]
pub struct WorkflowCompilationResultModel {
    pub run_id: RunId,
    pub node: NodeId,
    pub authority: AssignmentAuthority,
    pub bundle: Option<CompiledWorkflowBundleModel>,
    pub retryable: bool,
    pub failure_code: Option<String>,
    pub compiler_transcript: String,
}

impl View for WorkflowCompilationResult {
    type V = WorkflowCompilationResultModel;

    open spec fn view(&self) -> WorkflowCompilationResultModel {
        WorkflowCompilationResultModel {
            run_id: self.run_id,
            node: self.node,
            authority: self.authority,
            bundle: option_view(self.bundle),
            retryable: self.retryable,
            failure_code: self.failure_code,
            compiler_transcript: self.compiler_transcript,
        }
    }
}

/// Whether a system bundle is that of the release.
pub open spec fn is_release_bundle(bundle: SystemBundle, manifest: SystemManifest) -> bool {
    &&& bundle.bundle_id@ == manifest.bundle_id@
    &&& bundle.bundle_digest@ == manifest.bundle_digest@
    &&& bundle.environment_digest@ == manifest.environment_digest@
    &&& bundle.sdk_abi_version == manifest.sdk_abi_version
    &&& bundle.wasm_target@ == manifest.wasm_target@
}

/// Whether a system bundle is that of the release.
pub open spec fn of_release(manifest: SystemManifest) -> spec_fn(SystemBundle) -> bool {
    |bundle: SystemBundle| is_release_bundle(bundle, manifest)
}

/// Why a node cannot compile workflows, if it cannot.
pub open spec fn compiler_obstacle(capabilities: NodeCapabilitiesModel, manifest: SystemManifest) -> Option<
    Seq<char>,
> {
    if capabilities.execution_only {
        Some("node_policy_disables_workflow_compilation"@)
    } else if !capabilities.linux || capabilities.arch@ != manifest.supported_arch@
        || !capabilities.container_backend || !capabilities.rootless_podman {
        Some("no_compatible_linux_container_backend"@)
    } else if !holds_of_some(capabilities.system_bundles, of_release(manifest)) {
        Some("system_bundle_version_mismatch_or_unavailable"@)
    } else {
        None
    }
}

/// A run that has been assigned as often as it may be, without success.
pub open spec fn is_exhausted(
    r: AutomatedRunStageRecordModel,
    tenant: Seq<char>,
    project: Seq<char>,
    assignments: Seq<(Seq<char>, CompilerAssignment)>,
) -> bool {
    &&& run_in(r, tenant, project)
    &&& r.assignment_retry.attempts >= MAX_SYSTEM_ASSIGNMENT_ATTEMPTS
    &&& lookup(assignments, r.run.run_id@) is None
    &&& run_compiles(r)
}

/// A run that has been assigned as often as it may be, without success.
pub open spec fn exhausted_in(
    tenant: Seq<char>,
    project: Seq<char>,
    assignments: Seq<(Seq<char>, CompilerAssignment)>,
) -> spec_fn((Seq<char>, AutomatedRunStageRecordModel)) -> bool {
    |e: (Seq<char>, AutomatedRunStageRecordModel)|
        is_exhausted(e.1, tenant, project, assignments)
}

/// Whether a system bundle can do what a request asks.
pub open spec fn request_fits(
    request: WorkflowCompilationRequestModel,
    bundle: SystemBundle,
    manifest: SystemManifest,
) -> bool {
    &&& request.compiler_profile@ == manifest.compiler_profile@
    &&& request.compiler_image@ == manifest.environment_digest@
    &&& request.compiler_sdk@ == manifest.sdk_digest@
    &&& request.rust_toolchain@ == manifest.rust_toolchain@
    &&& bundle.rust_toolchain@ == request.rust_toolchain@
    &&& request.source.total_bytes <= bundle.max_source_bytes
    &&& request.max_output_bytes <= bundle.max_output_bytes
}

/// A run whose compilation can be offered to a node.
pub open spec fn can_be_offered(
    r: AutomatedRunStageRecordModel,
    tenant: Seq<char>,
    project: Seq<char>,
    node: Seq<char>,
    bundle: SystemBundle,
    manifest: SystemManifest,
    assignments: Seq<(Seq<char>, CompilerAssignment)>,
    now: u64,
) -> bool {
    &&& run_in(r, tenant, project)
    &&& run_compiles(r)
    &&& r.compilation_request matches Some(request)
    &&& request_fits(request, bundle, manifest)
    &&& r.compiled_bundle is None
    &&& r.compiled_summary is None
    &&& (lookup(assignments, r.run.run_id@) matches Some(active) ==> {
        &&& active.node@ == node
        &&& active.offered
        &&& active.lease_expires_at >= now
    })
    &&& r.assignment_retry.attempts < MAX_SYSTEM_ASSIGNMENT_ATTEMPTS
}

/// The runs whose compilation can be offered to a node, by when they were made.
pub open spec fn offer_queue(
    s: AutomationStateModel,
    tenant: Seq<char>,
    project: Seq<char>,
    node: Seq<char>,
    bundle: SystemBundle,
    manifest: SystemManifest,
    assignments: Seq<(Seq<char>, CompilerAssignment)>,
    now: u64,
) -> Set<(u64, Seq<char>)> {
    run_queue(
        s.automated_runs,
        |r: AutomatedRunStageRecordModel|
            can_be_offered(r, tenant, project, node, bundle, manifest, assignments, now),
    )
}

/// A run that has failed for want of a node.
pub open spec fn is_lost_run(
    r: AutomatedRunStageRecordModel,
    before: AutomatedRunStageRecordModel,
    now: u64,
) -> bool {
    &&& option_view(r.run.failure_code) == Some("system_assignment_node_lost"@)
    &&& option_view(r.run.failure_message) == Some(
        "workflow compilation exhausted 5 bounded node attempts"@,
    )
    &&& r == (AutomatedRunStageRecordModel {
        run: AutomatedRunRecord {
            state: AutomatedRunState::Failed,
            ended_at: Some(now),
            failure_code: r.run.failure_code,
            failure_message: r.run.failure_message,
            ..before.run
        },
        compilation_request: None,
        ..before
    })
}

/// The state after the first exhausted run, if there is one, has failed.
pub open spec fn exhausted_failed(
    before: AutomationStateModel,
    after: AutomationStateModel,
    tenant: Seq<char>,
    project: Seq<char>,
    assignments: Seq<(Seq<char>, CompilerAssignment)>,
    now: u64,
) -> bool {
    let p = exhausted_in(tenant, project, assignments);
    if holds_of_some(before.automated_runs, p) {
        exists|i: int| #[trigger] lost_at(before, after, p, now, i)
    } else {
        after == before
    }
}

/// Run `i` is the first that `p` holds of, and has failed for want of a node.
pub open spec fn lost_at(
    before: AutomationStateModel,
    after: AutomationStateModel,
    p: spec_fn((Seq<char>, AutomatedRunStageRecordModel)) -> bool,
    now: u64,
    i: int,
) -> bool {
    &&& is_first(before.automated_runs, p, i)
    &&& lookup(after.automated_runs, before.automated_runs[i].0) matches Some(r)
    &&& is_lost_run(r, before.automated_runs[i].1, now)
    &&& after == with_run(before, before.automated_runs[i].0, r)
}

/// A run that a node is compiling.
pub open spec fn compiling(r: AutomatedRunStageRecordModel) -> AutomatedRunStageRecordModel {
    AutomatedRunStageRecordModel {
        run: AutomatedRunRecord {
            state: AutomatedRunState::CompilingWorkflow,
            waiting_reason: None,
            ..r.run
        },
        ..r
    }
}

/// How often a run was assigned, after one more time.
pub open spec fn next_retry(retry: AssignmentRetry) -> AssignmentRetry {
    AssignmentRetry {
        attempts: if retry.attempts < u8::MAX {
            (retry.attempts + 1) as u8
        } else {
            retry.attempts
        },
        next_offer_epoch: if retry.next_offer_epoch < u64::MAX {
            (retry.next_offer_epoch + 1) as u64
        } else {
            retry.next_offer_epoch
        },
    }
}

/// What is to be done for a node that asks for a compilation.
pub enum SystemTaskStep {
    /// Nothing can be offered.
    Nothing,
    /// An assignment that is offered already is offered again.
    Offer(SystemTaskOffer),
    /// The run is to be assigned, in the given epoch and for the given time.
    Assign { run_id: RunId, attempts: u8, offer_epoch: u64, offer_seconds: u64 },
}

/// An offer of a request.
pub open spec fn is_offer(
    offer: SystemTaskOfferModel,
    tenant: Seq<char>,
    project: Seq<char>,
    node: Seq<char>,
    manifest: SystemManifest,
    authority: AssignmentAuthority,
    expires_at: u64,
    request: WorkflowCompilationRequestModel,
) -> bool {
    &&& offer.authority == authority
    &&& offer.tenant@ == tenant
    &&& offer.project@ == project
    &&& offer.node@ == node
    &&& offer.expires_at_epoch_seconds == expires_at
    &&& offer.bundle_id@ == manifest.bundle_id@
    &&& offer.bundle_digest@ == manifest.bundle_digest@
    &&& offer.environment_digest@ == request.compiler_image@
    &&& offer.request == request
}

/// The oldest run of the queue is offered or to be assigned.
pub open spec fn offered_first(
    before: AutomationStateModel,
    after: AutomationStateModel,
    tenant: Seq<char>,
    project: Seq<char>,
    node: Seq<char>,
    bundle: SystemBundle,
    manifest: SystemManifest,
    assignments: Seq<(Seq<char>, CompilerAssignment)>,
    now: u64,
    step: SystemTaskStep,
    k: (u64, Seq<char>),
) -> bool {
    &&& is_least(
        offer_queue(before, tenant, project, node, bundle, manifest, assignments, now),
        k,
    )
    &&& lookup(before.automated_runs, k.1) matches Some(run)
    &&& match lookup(assignments, k.1) {
        Some(active) => {
            &&& step matches SystemTaskStep::Offer(offer)
            &&& is_offer(
                offer@,
                tenant,
                project,
                node,
                manifest,
                (AssignmentAuthority {
                    assignment_id: active.assignment_id,
                    attempt_id: active.attempt_id,
                    offer_epoch: active.offer_epoch,
                }),
                active.lease_expires_at,
                run.compilation_request->Some_0,
            )
            &&& after == with_run(before, k.1, compiling(run))
        },
        None => {
            &&& step matches SystemTaskStep::Assign { run_id, attempts, offer_epoch, offer_seconds }
            &&& run_id@ == k.1
            &&& attempts == next_retry(run.assignment_retry).attempts
            &&& offer_epoch == next_retry(run.assignment_retry).next_offer_epoch
            &&& offer_seconds == SYSTEM_ASSIGNMENT_OFFER_SECONDS
            &&& after == with_run(
                before,
                k.1,
                (AutomatedRunStageRecordModel {
                    assignment_retry: next_retry(run.assignment_retry),
                    ..run
                }),
            )
        },
    }
}

/// What is offered to a node from the state.
pub open spec fn offer_made(
    before: AutomationStateModel,
    after: AutomationStateModel,
    tenant: Seq<char>,
    project: Seq<char>,
    node: Seq<char>,
    bundle: SystemBundle,
    manifest: SystemManifest,
    assignments: Seq<(Seq<char>, CompilerAssignment)>,
    now: u64,
    step: SystemTaskStep,
) -> bool {
    let queue = offer_queue(before, tenant, project, node, bundle, manifest, assignments, now);
    if queue == Set::<(u64, Seq<char>)>::empty() {
        step is Nothing && after == before
    } else {
        exists|k: (u64, Seq<char>)| #[trigger]
            offered_first(
                before,
                after,
                tenant,
                project,
                node,
                bundle,
                manifest,
                assignments,
                now,
                step,
                k,
            )
    }
}

impl AutomationState {
    fn fail_exhausted(
        &mut self,
        tenant: &TenantId,
        project: &ProjectId,
        assignments: &OrderedMap<RunId, CompilerAssignment>,
        now: u64,
    )
        ensures
            exhausted_failed(old(self)@, final(self)@, tenant@, project@, assignments@, now),
    {
        broadcast use lemma_put_delete, lemma_lookup_put;

        let ghost before = self@;
        let ghost p = exhausted_in(tenant@, project@, assignments@);
        let test = |_id: &RunId, record: &AutomatedRunStageRecord| -> (b: bool)
            ensures
                b == is_exhausted(record@, tenant@, project@, assignments@),
        {
            assert(record.run.run_id.key() == record.run.run_id@);
            record.run.tenant == *tenant && record.run.project == *project
                && record.assignment_retry.attempts >= MAX_SYSTEM_ASSIGNMENT_ATTEMPTS
                && !assignments.contains_key(&record.run.run_id) && matches!(
                record.run.state,
                AutomatedRunState::WaitingForCompilerNode | AutomatedRunState::CompilingWorkflow
            )
        };
        match self.automated_runs.find(test, Ghost(p)) {
            None => {},
            Some(place) => {
                let id: RunId = self.automated_runs.key_at(place).copy_key();
                proof {
                    lemma_lookup_at(before.automated_runs, place as int);
                }
                match self.automated_runs.remove(&id) {
                    None => {},
                    Some(found) => {
                        let mut record: AutomatedRunStageRecord = found;
                        record.run.state = AutomatedRunState::Failed;
                        record.run.ended_at = Some(now);
                        record.run.failure_code = Some("system_assignment_node_lost".to_owned());
                        record.run.failure_message = Some(
                            "workflow compilation exhausted 5 bounded node attempts".to_owned(),
                        );
                        record.compilation_request = None;
                        self.automated_runs.insert(id, record);
                    },
                }
                assert(lost_at(before, self@, p, now, place as int));
            },
        }
    }
}

impl AutomationState {
    /// Marks a run as compiled by a node, and makes the offer of its compilation.
    fn make_offer(
        &mut self,
        run_id: RunId,
        tenant: &TenantId,
        project: &ProjectId,
        node: &NodeId,
        manifest: &SystemManifest,
        authority: AssignmentAuthority,
        expires_at: u64,
    ) -> (r: Option<SystemTaskOffer>)
        ensures
            match lookup(old(self)@.automated_runs, run_id@) {
                None => r is None && final(self)@ == old(self)@,
                Some(run) => {
                    &&& final(self)@ == with_run(old(self)@, run_id@, compiling(run))
                    &&& match run.compilation_request {
                        Some(request) => r matches Some(offer) && is_offer(
                            offer@,
                            tenant@,
                            project@,
                            node@,
                            *manifest,
                            authority,
                            expires_at,
                            request,
                        ),
                        None => r is None,
                    }
                },
            },
    {
        broadcast use lemma_put_delete;

        assert(run_id.key() == run_id@);
        match self.automated_runs.remove(&run_id) {
            None => None,
            Some(found) => {
                let mut record: AutomatedRunStageRecord = found;
                record.run.state = AutomatedRunState::CompilingWorkflow;
                record.run.waiting_reason = None;
                let request: Option<WorkflowCompilationRequest> = copy_option(
                    &record.compilation_request,
                );
                self.automated_runs.insert(run_id, record);
                match request {
                    None => None,
                    Some(request) => {
                        let image: Digest = request.compiler_image.clone();
                        Some(
                            SystemTaskOffer {
                                authority,
                                tenant: tenant.clone(),
                                project: project.clone(),
                                node: node.clone(),
                                expires_at_epoch_seconds: expires_at,
                                bundle_id: manifest.bundle_id.clone(),
                                bundle_digest: manifest.bundle_digest.clone(),
                                environment_digest: image,
                                request,
                            },
                        )
                    },
                }
            },
        }
    }

    fn offer_first(
        &mut self,
        tenant: &TenantId,
        project: &ProjectId,
        node: &NodeId,
        bundle: &SystemBundle,
        manifest: &SystemManifest,
        assignments: &OrderedMap<RunId, CompilerAssignment>,
        now: u64,
    ) -> (r: SystemTaskStep)
        ensures
            offer_made(
                old(self)@,
                final(self)@,
                tenant@,
                project@,
                node@,
                *bundle,
                *manifest,
                assignments@,
                now,
                r,
            ),
    {
        broadcast use lemma_put_delete;

        let ghost before = self@;
        let ghost p = |r: AutomatedRunStageRecordModel|
            can_be_offered(
                r,
                tenant@,
                project@,
                node@,
                *bundle,
                *manifest,
                assignments@,
                now,
            );
        let test = |r: &AutomatedRunStageRecord| -> (b: bool)
            ensures
                b == p(r@),
        {
            let fits: bool = match &r.compilation_request {
                Some(request) => text_eq(
                    request.compiler_profile.as_str(),
                    manifest.compiler_profile.as_str(),
                ) && text_eq(
                    request.compiler_image.as_str(),
                    manifest.environment_digest.as_str(),
                ) && text_eq(request.compiler_sdk.as_str(), manifest.sdk_digest.as_str()) && text_eq(
                    request.rust_toolchain.as_str(),
                    manifest.rust_toolchain.as_str(),
                ) && text_eq(bundle.rust_toolchain.as_str(), request.rust_toolchain.as_str())
                    && request.source.total_bytes <= bundle.max_source_bytes
                    && request.max_output_bytes <= bundle.max_output_bytes,
                None => false,
            };
            assert(r.run.run_id.key() == r.run.run_id@);
            let free: bool = match assignments.get(&r.run.run_id) {
                Some(active) => text_eq(active.node.as_str(), node.as_str()) && active.offered
                    && active.lease_expires_at >= now,
                None => true,
            };
            r.run.tenant == *tenant && r.run.project == *project && matches!(
                r.run.state,
                AutomatedRunState::WaitingForCompilerNode | AutomatedRunState::CompilingWorkflow
            ) && fits && r.compiled_bundle.is_none() && r.compiled_summary.is_none() && free
                && r.assignment_retry.attempts < MAX_SYSTEM_ASSIGNMENT_ATTEMPTS
        };
        let queue: OrderedSet<(u64, RunId)> = self.queue_runs(test, Ghost(p));
        assert(queue@ =~= offer_queue(
            before,
            tenant@,
            project@,
            node@,
            *bundle,
            *manifest,
            assignments@,
            now,
        ));
        let run_id: RunId = match queue.first() {
            None => {
                return SystemTaskStep::Nothing;
            },
            Some(entry) => {
                assert(entry.key() == (entry.0, entry.1@));
                entry.1.clone()
            },
        };
        let ghost k = choose|k: (u64, Seq<char>)| is_least(queue@, k) && k.1 == run_id@;
        assert(run_id.key() == run_id@);
        proof {
            let runs = before.automated_runs;
            let i = choose|i: int|
                0 <= i < runs.len() && p((#[trigger] runs[i]).1) && runs[i].0 == k.1
                    && runs[i].1.run.created_at == k.0;
            assert(queue@.contains(k));
            assert(queue@ != Set::<(u64, Seq<char>)>::empty());
        }
        proof {
            use_type_invariant(&self.automated_runs);
        }
        proof {
            let runs = before.automated_runs;
            let i = choose|i: int|
                0 <= i < runs.len() && p((#[trigger] runs[i]).1) && runs[i].0 == k.1
                    && runs[i].1.run.created_at == k.0;
            lemma_lookup_at(runs, i);
        }
        match assignments.get(&run_id) {
            Some(active) => {
                let authority: AssignmentAuthority = AssignmentAuthority {
                    assignment_id: active.assignment_id.clone(),
                    attempt_id: active.attempt_id.clone(),
                    offer_epoch: active.offer_epoch,
                };
                match self.make_offer(
                    run_id,
                    tenant,
                    project,
                    node,
                    manifest,
                    authority,
                    active.lease_expires_at,
                ) {
                    None => SystemTaskStep::Nothing,
                    Some(offer) => {
                        let step: SystemTaskStep = SystemTaskStep::Offer(offer);
                        assert(offered_first(
                            before,
                            self@,
                            tenant@,
                            project@,
                            node@,
                            *bundle,
                            *manifest,
                            assignments@,
                            now,
                            step,
                            k,
                        ));
                        step
                    },
                }
            },
            None => {
                match self.automated_runs.remove(&run_id) {
                    None => SystemTaskStep::Nothing,
                    Some(found) => {
                        let mut record: AutomatedRunStageRecord = found;
                        let attempts: u8 = if record.assignment_retry.attempts < u8::MAX {
                            record.assignment_retry.attempts + 1
                        } else {
                            record.assignment_retry.attempts
                        };
                        let offer_epoch: u64 = if record.assignment_retry.next_offer_epoch
                            < u64::MAX {
                            record.assignment_retry.next_offer_epoch + 1
                        } else {
                            record.assignment_retry.next_offer_epoch
                        };
                        record.assignment_retry = AssignmentRetry {
                            attempts,
                            next_offer_epoch: offer_epoch,
                        };
                        let id: RunId = run_id.clone();
                        assert(id.key() == run_id@);
                        self.automated_runs.insert(id, record);
                        let step: SystemTaskStep = SystemTaskStep::Assign {
                            run_id,
                            attempts,
                            offer_epoch,
                            offer_seconds: SYSTEM_ASSIGNMENT_OFFER_SECONDS,
                        };
                        assert(offered_first(
                            before,
                            self@,
                            tenant@,
                            project@,
                            node@,
                            *bundle,
                            *manifest,
                            assignments@,
                            now,
                            step,
                            k,
                        ));
                        step
                    },
                }
            },
        }
    }
}

/// The service with other automated runs.
pub open spec fn service_with(s: CoordinatorServiceModel, automation: AutomationStateModel) -> CoordinatorServiceModel {
    CoordinatorServiceModel { coordinator: with_automation(s.coordinator, automation), ..s }
}

/// What comes of a node that can compile and asks for work.
pub open spec fn compiler_served(
    before: AutomationStateModel,
    after: AutomationStateModel,
    tenant: Seq<char>,
    project: Seq<char>,
    node: Seq<char>,
    bundle: SystemBundle,
    manifest: SystemManifest,
    assignments: Seq<(Seq<char>, CompilerAssignment)>,
    now: u64,
    step: SystemTaskStep,
) -> bool {
    exists|middle: AutomationStateModel| #[trigger]
        exhausted_failed(before, middle, tenant, project, assignments, now) && offer_made(
            middle,
            after,
            tenant,
            project,
            node,
            bundle,
            manifest,
            assignments,
            now,
            step,
        )
}

/// The first system bundle of the release that a node has.
pub open spec fn release_bundle(capabilities: NodeCapabilitiesModel, manifest: SystemManifest) -> SystemBundle {
    capabilities.system_bundles[choose|i: int|
        is_first(capabilities.system_bundles, of_release(manifest), i)]
}

/// What comes of a node that asks for a compilation.
pub open spec fn system_task_polled(
    before: CoordinatorServiceModel,
    after: CoordinatorServiceModel,
    tenant: Seq<char>,
    project: Seq<char>,
    node: Seq<char>,
    manifest: SystemManifest,
    assignments: Seq<(Seq<char>, CompilerAssignment)>,
    now: u64,
    r: Result<SystemTaskStep, CoordinatorServiceError>,
) -> bool {
    let runs = before.coordinator.durable.automation;
    let left = after.coordinator.durable.automation;
    &&& after == service_with(before, left)
    &&& if lookup(before.coordinator.durable.node_identities, (tenant, project, node)) is None {
        &&& r matches Err(CoordinatorServiceError::Coordinator(CoordinatorError::UnknownNode))
        &&& left == runs
    } else {
        match lookup(before.nodes.descriptors, (tenant, project, node)) {
            None => {
                &&& r matches Err(error)
                &&& error.denies("node has no capability report"@)
                &&& left == runs
            },
            Some(descriptor) => match compiler_obstacle(descriptor.capabilities, manifest) {
                Some(reason) => {
                    &&& r matches Ok(SystemTaskStep::Nothing)
                    &&& waits_for(runs, left, tenant, project, reason)
                },
                None => r matches Ok(step) && compiler_served(
                    runs,
                    left,
                    tenant,
                    project,
                    node,
                    release_bundle(descriptor.capabilities, manifest),
                    manifest,
                    assignments,
                    now,
                    step,
                ),
            },
        }
    }
}

/// What the offer of a compilation comes to.
pub open spec fn offer_completed(
    before: CoordinatorServiceModel,
    after: CoordinatorServiceModel,
    run_id: RunId,
    tenant: TenantId,
    project: ProjectId,
    node: NodeId,
    manifest: SystemManifest,
    authority: AssignmentAuthority,
    expires_at: u64,
    r: Option<SystemTaskOffer>,
) -> bool {
    match lookup(before.coordinator.durable.automation.automated_runs, run_id@) {
        None => r is None && after == before,
        Some(run) => {
            &&& after == service_with(
                before,
                with_run(
                    before.coordinator.durable.automation,
                    run_id@,
                    compiling(run),
                ),
            )
            &&& match run.compilation_request {
                Some(request) => r matches Some(offer) && is_offer(
                    offer@,
                    tenant@,
                    project@,
                    node@,
                    manifest,
                    authority,
                    expires_at,
                    request,
                ),
                None => r is None,
            }
        },
    }
}

impl CoordinatorService {
    /// Finds a compilation for a node that asks for one. `assignments` are those of compilations,
    /// by their runs, without any that has expired.
    pub fn poll_system_task_offer(
        &mut self,
        tenant: &TenantId,
        project: &ProjectId,
        node: &NodeId,
        manifest: &SystemManifest,
        assignments: &OrderedMap<RunId, CompilerAssignment>,
        now: u64,
    ) -> (r: Result<SystemTaskStep, CoordinatorServiceError>)
        ensures
            system_task_polled(
                old(self)@,
                final(self)@,
                tenant@,
                project@,
                node@,
                *manifest,
                assignments@,
                now,
                r,
            ),
    {
        let ghost before = self@;
        let scope: NodeScopeKey = NodeScopeKey::from_refs(tenant, project, node);
        if self.coordinator.node_identity(tenant, project, node).is_none() {
            return Err(CoordinatorServiceError::Coordinator(CoordinatorError::UnknownNode));
        }
        let descriptor: &NodeDescriptor = match self.node_registry.descriptor(&scope) {
            Some(descriptor) => descriptor,
            None => {
                return Err(unauthorized("node has no capability report"));
            },
        };
        let capabilities: &NodeCapabilities = &descriptor.capabilities;
        assert(views(capabilities.system_bundles@) =~= capabilities.system_bundles@);
        if capabilities.execution_only {
            self.coordinator.automation_mut().set_system_task_wait_reason(
                tenant,
                project,
                "node_policy_disables_workflow_compilation",
            );
            return Ok(SystemTaskStep::Nothing);
        }
        if !capabilities.linux || !text_eq(
            capabilities.arch.as_str(),
            manifest.supported_arch.as_str(),
        ) || !capabilities.container_backend || !capabilities.rootless_podman {
            self.coordinator.automation_mut().set_system_task_wait_reason(
                tenant,
                project,
                "no_compatible_linux_container_backend",
            );
            return Ok(SystemTaskStep::Nothing);
        }
        let ghost p = of_release(*manifest);
        let test = |b: &SystemBundle| -> (r: bool)
            ensures
                r == is_release_bundle(*b, *manifest),
        {
            text_eq(b.bundle_id.as_str(), manifest.bundle_id.as_str()) && text_eq(
                b.bundle_digest.as_str(),
                manifest.bundle_digest.as_str(),
            ) && text_eq(b.environment_digest.as_str(), manifest.environment_digest.as_str())
                && b.sdk_abi_version == manifest.sdk_abi_version && text_eq(
                b.wasm_target.as_str(),
                manifest.wasm_target.as_str(),
            )
        };
        let place: Option<usize> = position(&capabilities.system_bundles, test, Ghost(p));
        let bundle: SystemBundle = match place {
            Some(place) => {
                proof {
                    let list = capabilities.system_bundles@;
                    let i = choose|i: int| is_first(list, p, i);
                    assert(is_first(list, p, place as int));
                    assert(is_first(list, p, i));
                    assert(i == place) by {
                        if i < place {
                            assert(!p(list[i]));
                        }
                        if place < i {
                            assert(!p(list[place as int]));
                        }
                    }
                }
                capabilities.system_bundles[place].duplicate()
            },
            None => {
                self.coordinator.automation_mut().set_system_task_wait_reason(
                    tenant,
                    project,
                    "system_bundle_version_mismatch_or_unavailable",
                );
                return Ok(SystemTaskStep::Nothing);
            },
        };
        let runs = self.coordinator.automation_mut();
        runs.fail_exhausted(tenant, project, assignments, now);
        let ghost middle = runs@;
        let step: SystemTaskStep = runs.offer_first(
            tenant,
            project,
            node,
            &bundle,
            manifest,
            assignments,
            now,
        );
        assert(exhausted_failed(
            before.coordinator.durable.automation,
            middle,
            tenant@,
            project@,
            assignments@,
            now,
        ));
        Ok(step)
    }

    /// Offers the compilation of a run that was assigned.
    pub fn complete_system_task_offer(
        &mut self,
        run_id: RunId,
        tenant: &TenantId,
        project: &ProjectId,
        node: &NodeId,
        manifest: &SystemManifest,
        authority: AssignmentAuthority,
        expires_at: u64,
    ) -> (r: Option<SystemTaskOffer>)
        ensures
            offer_completed(
                old(self)@,
                final(self)@,
                run_id,
                *tenant,
                *project,
                *node,
                *manifest,
                authority,
                expires_at,
                r,
            ),
    {
        self.coordinator.automation_mut().make_offer(
            run_id,
            tenant,
            project,
            node,
            manifest,
            authority,
            expires_at,
        )
    }
}

/// What an assignment is for.
pub enum AssignmentKind {
    WorkflowCompiler { run_id: RunId },
    ProcessTask { process: ProcessId, task: TaskInstanceId },
}

/// For how long a compilation is assigned.
pub open spec fn compilation_seconds(run: AutomatedRunStageRecordModel) -> u64 {
    match run.compilation_request {
        None => SYSTEM_ASSIGNMENT_LEASE_SECONDS,
        Some(request) => {
            let asked = saturating(request.wall_clock_seconds + 30);
            if asked < SYSTEM_ASSIGNMENT_LEASE_SECONDS {
                SYSTEM_ASSIGNMENT_LEASE_SECONDS
            } else {
                asked
            }
        },
    }
}

fn seconds_of(record: &AutomatedRunStageRecord) -> (r: u64)
    ensures
        r == compilation_seconds(record@),
{
    match &record.compilation_request {
        None => SYSTEM_ASSIGNMENT_LEASE_SECONDS,
        Some(request) => {
            let asked: u64 = request.wall_clock_seconds.saturating_add(30);
            if asked < SYSTEM_ASSIGNMENT_LEASE_SECONDS {
                SYSTEM_ASSIGNMENT_LEASE_SECONDS
            } else {
                asked
            }
        },
    }
}

/// For how long the offer of a compilation is acknowledged, if it is.
pub open spec fn acknowledged_seconds(
    s: AutomationStateModel,
    kind: Option<AssignmentKind>,
    tenant: Seq<char>,
    project: Seq<char>,
    assignment_id: Seq<char>,
    lease_epoch: u64,
    authority: AssignmentAuthority,
) -> Option<u64> {
    match kind {
        Some(AssignmentKind::WorkflowCompiler { run_id }) => match lookup(
            s.automated_runs,
            run_id@,
        ) {
            Some(run) => if run_in(run, tenant, project) && authority.assignment_id@ == assignment_id
                && authority.offer_epoch == lease_epoch {
                Some(compilation_seconds(run))
            } else {
                None
            },
            None => None,
        },
        _ => None,
    }
}

/// For how long an assignment that a node reports stays authorized, if it does.
pub open spec fn authorized_seconds(
    s: CoordinatorServiceModel,
    kind: Option<AssignmentKind>,
    tenant: Seq<char>,
    project: Seq<char>,
    cancelled: bool,
    checkpointed: bool,
) -> Option<u64> {
    match kind {
        None => None,
        Some(AssignmentKind::WorkflowCompiler { run_id }) => match lookup(
            s.coordinator.durable.automation.automated_runs,
            run_id@,
        ) {
            Some(run) => if run_in(run, tenant, project) && run.run.state
                == AutomatedRunState::CompilingWorkflow && run.compilation_request is Some
                && run.compiled_bundle is None {
                Some(compilation_seconds(run))
            } else {
                None
            },
            None => None,
        },
        Some(AssignmentKind::ProcessTask { process, task }) => if lookup(
            s.coordinator.active_processes,
            (tenant, project, process@),
        ) is Some && !cancelled && checkpointed {
            Some(180)
        } else {
            None
        },
    }
}

/// Whether a report of a compilation counts.
pub struct ReportStanding {
    /// The assignment is retained as one that has ended.
    pub ended: bool,
    /// The run that the assignment is for, where it is active and one of a compilation.
    pub active_run: Option<RunId>,
    /// The assignment is active, acknowledged and not expired.
    pub active: bool,
}

/// A run after the report of its compilation.
pub open spec fn is_reported_run(
    r: AutomatedRunStageRecordModel,
    before: AutomatedRunStageRecordModel,
    result: WorkflowCompilationResultModel,
    now: u64,
) -> bool {
    match result.bundle {
        Some(bundle) => r == (AutomatedRunStageRecordModel {
            run: AutomatedRunRecord {
                bundle_digest: Some(bundle.bundle_digest),
                state: AutomatedRunState::WaitingForProcessSlot,
                ..before.run
            },
            compiled_bundle: Some(bundle),
            ..before
        }),
        None => if result.retryable && before.assignment_retry.attempts
            < MAX_SYSTEM_ASSIGNMENT_ATTEMPTS {
            &&& option_view(r.run.waiting_reason) == Some("eligible_node_retry_pending"@)
            &&& r == (AutomatedRunStageRecordModel {
                run: AutomatedRunRecord {
                    state: AutomatedRunState::WaitingForCompilerNode,
                    waiting_reason: r.run.waiting_reason,
                    ..before.run
                },
                ..before
            })
        } else {
            &&& option_view(r.run.failure_message) == Some(
                if result.retryable {
                    "workflow compilation exhausted 5 bounded node attempts: "@
                        + result.compiler_transcript@
                } else {
                    result.compiler_transcript@
                },
            )
            &&& r == (AutomatedRunStageRecordModel {
                run: AutomatedRunRecord {
                    state: AutomatedRunState::Failed,
                    ended_at: Some(now),
                    failure_code: result.failure_code,
                    failure_message: r.run.failure_message,
                    ..before.run
                },
                compilation_request: None,
                source: None,
                compiled_bundle: None,
                ..before
            })
        },
    }
}

/// Whether the environments of a bundle are those that its source defines.
pub open spec fn environments_fit(
    bundle: CompiledWorkflowBundleModel,
    request: Option<WorkflowCompilationRequestModel>,
) -> bool {
    all_environment_resource_alike(
        bundle.environments,
        match request {
            Some(request) => request.source.environments,
            None => Seq::empty(),
        },
    )
}

/// What comes of the report of a compilation, for a run that is known.
pub open spec fn compilation_reported(
    before: AutomationStateModel,
    after: AutomationStateModel,
    result: WorkflowCompilationResultModel,
    standing: ReportStanding,
    rules: BundleRules,
    checks: BundleChecks,
    now: u64,
    run: AutomatedRunStageRecordModel,
    r: Result<AutomatedRunStageRecord, CoordinatorServiceError>,
) -> bool {
    if run_ended(run.run.state) {
        &&& after == before
        &&& if standing.ended {
            r matches Ok(record) && record@ == run
        } else {
            r matches Err(error) && error.denies(
                "terminal system task result does not match retained assignment history"@,
            )
        }
    } else if !(option_view(standing.active_run) == Some(result.run_id@) && standing.active)
        && !standing.ended {
        &&& after == before
        &&& r matches Err(error)
        &&& error.denies("system task result is stale, expired, or was not acknowledged"@)
    } else if run.compiled_bundle is Some {
        &&& after == before
        &&& if result.bundle is Some && result.bundle->Some_0.bundle_digest@
            == run.compiled_bundle->Some_0.bundle_digest@ {
            r matches Ok(record) && record@ == run
        } else {
            r matches Err(error) && error.protests(
                "compiler result was retried with different content"@,
            )
        }
    } else if result.bundle is Some && !bundle_checked(
        result.bundle->Some_0,
        option_view(run.run.workflow_tree_digest),
        run.compilation_request,
        rules,
        checks,
        Ok(()),
    ) {
        &&& after == before
        &&& r matches Err(error)
        &&& bundle_checked(
            result.bundle->Some_0,
            option_view(run.run.workflow_tree_digest),
            run.compilation_request,
            rules,
            checks,
            Err(error),
        )
    } else if result.bundle is Some && !environments_fit(
        result.bundle->Some_0,
        run.compilation_request,
    ) {
        &&& after == before
        &&& r matches Err(error)
        &&& error.protests(
            "compiled bundle environment identities do not match the exact triggered revision"@,
        )
    } else {
        &&& r matches Ok(record)
        &&& is_reported_run(record@, run, result, now)
        &&& after == with_run(before, result.run_id@, record@)
    }
}

/// A check of a bundle does not both succeed and fail.
proof fn lemma_bundle_checked(
    bundle: CompiledWorkflowBundleModel,
    expected_source: Option<Seq<char>>,
    request: Option<WorkflowCompilationRequestModel>,
    rules: BundleRules,
    checks: BundleChecks,
    error: CoordinatorServiceError,
)
    requires
        bundle_checked(bundle, expected_source, request, rules, checks, Err(error)),
    ensures
        !bundle_checked(bundle, expected_source, request, rules, checks, Ok(())),
{
}

impl AutomationState {
    fn report_compile_workflow(
        &mut self,
        result: WorkflowCompilationResult,
        check: Result<(), String>,
        standing: &ReportStanding,
        rules: &BundleRules,
        checks: BundleChecks,
        now: u64,
    ) -> (r: Result<AutomatedRunStageRecord, CoordinatorServiceError>)
        ensures
            check matches Err(reason) ==> {
                &&& r matches Err(error)
                &&& error.protests(reason@)
                &&& final(self)@ == old(self)@
            },
            check is Ok ==> match lookup(old(self)@.automated_runs, result.run_id@) {
                None => {
                    &&& r matches Err(error)
                    &&& error.protests("unknown automated run"@)
                    &&& final(self)@ == old(self)@
                },
                Some(run) => compilation_reported(
                    old(self)@,
                    final(self)@,
                    result@,
                    *standing,
                    *rules,
                    checks,
                    now,
                    run,
                    r,
                ),
            },
    {
        broadcast use lemma_put_delete;

        match check {
            Err(reason) => {
                return Err(CoordinatorServiceError::Protocol(reason));
            },
            Ok(_) => {},
        }
        let ghost given = result@;
        let run_id: RunId = result.run_id.clone();
        assert(run_id.key() == run_id@);
        match self.automated_runs.get(&run_id) {
            None => {
                return Err(protocol("unknown automated run"));
            },
            Some(existing) => {
                if existing.run.state.is_terminal() {
                    if standing.ended {
                        return Ok(existing.duplicate());
                    }
                    return Err(
                        unauthorized(
                            "terminal system task result does not match retained assignment history",
                        ),
                    );
                }
                let kind_matches: bool = match &standing.active_run {
                    Some(id) => text_eq(id.as_str(), run_id.as_str()),
                    None => false,
                };
                if !(kind_matches && standing.active) && !standing.ended {
                    return Err(
                        unauthorized("system task result is stale, expired, or was not acknowledged"),
                    );
                }
                match &existing.compiled_bundle {
                    Some(known) => {
                        let same: bool = match &result.bundle {
                            Some(bundle) => text_eq(
                                bundle.bundle_digest.as_str(),
                                known.bundle_digest.as_str(),
                            ),
                            None => false,
                        };
                        if !same {
                            return Err(
                                protocol("compiler result was retried with different content"),
                            );
                        }
                        return Ok(existing.duplicate());
                    },
                    None => {},
                }
                match &result.bundle {
                    Some(bundle) => {
                        match validate_compiled_module(
                            bundle,
                            &existing.run.workflow_tree_digest,
                            &existing.compilation_request,
                            rules,
                            checks,
                        ) {
                            Ok(_) => {},
                            Err(error) => {
                                proof {
                                    lemma_bundle_checked(
                                        bundle@,
                                        option_view(existing.run.workflow_tree_digest),
                                        option_view(existing.compilation_request),
                                        *rules,
                                        checks,
                                        error,
                                    );
                                }
                                return Err(error);
                            },
                        }
                        let fits: bool = match &existing.compilation_request {
                            Some(request) => same_environment_resources(
                                &bundle.environments,
                                &request.source.environments,
                            ),
                            None => {
                                let none: Vec<EnvironmentResource> = Vec::new();
                                assert(views(none@) =~= Seq::empty());
                                same_environment_resources(&bundle.environments, &none)
                            },
                        };
                        if !fits {
                            return Err(
                                protocol(
                                    "compiled bundle environment identities do not match the exact triggered revision",
                                ),
                            );
                        }
                    },
                    None => {},
                }
            },
        }
        match self.automated_runs.remove(&run_id) {
            None => Err(protocol("unknown automated run")),
            Some(found) => {
                let mut record: AutomatedRunStageRecord = found;
                match result.bundle {
                    Some(bundle) => {
                        record.run.bundle_digest = Some(bundle.bundle_digest.clone());
                        record.compiled_bundle = Some(bundle);
                        record.run.state = AutomatedRunState::WaitingForProcessSlot;
                    },
                    None => {
                        if result.retryable && record.assignment_retry.attempts
                            < MAX_SYSTEM_ASSIGNMENT_ATTEMPTS {
                            record.run.state = AutomatedRunState::WaitingForCompilerNode;
                            record.run.waiting_reason = Some(
                                "eligible_node_retry_pending".to_owned(),
                            );
                        } else {
                            record.run.state = AutomatedRunState::Failed;
                            record.run.ended_at = Some(now);
                            record.run.failure_code = result.failure_code;
                            record.run.failure_message = Some(
                                if result.retryable {
                                    concat2(
                                        "workflow compilation exhausted 5 bounded node attempts: ",
                                        result.compiler_transcript.as_str(),
                                    )
                                } else {
                                    result.compiler_transcript.clone()
                                },
                            );
                            record.compilation_request = None;
                            record.source = None;
                            record.compiled_bundle = None;
                        }
                    },
                }
                let answer: AutomatedRunStageRecord = record.duplicate();
                self.automated_runs.insert(run_id, record);
                Ok(answer)
            },
        }
    }
}

impl CoordinatorService {
    /// For how long the offer of a compilation is to be acknowledged, if it is. `kind` is what the
    /// active assignment of that identifier is for.
    pub fn acknowledge_system_task_offer(
        &self,
        tenant: &TenantId,
        project: &ProjectId,
        kind: &Option<AssignmentKind>,
        assignment_id: &str,
        lease_epoch: u64,
        authority: &AssignmentAuthority,
    ) -> (r: Option<u64>)
        ensures
            r == acknowledged_seconds(
                self@.coordinator.durable.automation,
                *kind,
                tenant@,
                project@,
                assignment_id@,
                lease_epoch,
                *authority,
            ),
    {
        match kind {
            Some(AssignmentKind::WorkflowCompiler { run_id }) => {
                match self.coordinator.automation().automated_run(run_id) {
                    None => None,
                    Some(record) => {
                        if record.run.tenant != *tenant || record.run.project != *project {
                            return None;
                        }
                        if !text_eq(authority.assignment_id.as_str(), assignment_id)
                            || authority.offer_epoch != lease_epoch {
                            return None;
                        }
                        Some(seconds_of(record))
                    },
                }
            },
            _ => None,
        }
    }

    /// For how long an assignment that a node reports as active stays authorized, if it does.
    /// `kind` is what it is for; `cancelled` and `checkpointed` say of its process whether it was
    /// cancelled, and of its task whether it can be restarted.
    pub fn active_node_assignment_is_authorized(
        &self,
        tenant: &TenantId,
        project: &ProjectId,
        kind: &Option<AssignmentKind>,
        cancelled: bool,
        checkpointed: bool,
    ) -> (r: Option<u64>)
        ensures
            r == authorized_seconds(self@, *kind, tenant@, project@, cancelled, checkpointed),
    {
        match kind {
            None => None,
            Some(AssignmentKind::WorkflowCompiler { run_id }) => {
                match self.coordinator.automation().automated_run(run_id) {
                    None => None,
                    Some(record) => {
                        if record.run.tenant != *tenant || record.run.project != *project
                            || !matches!(record.run.state, AutomatedRunState::CompilingWorkflow)
                            || record.compilation_request.is_none()
                            || record.compiled_bundle.is_some() {
                            return None;
                        }
                        Some(seconds_of(record))
                    },
                }
            },
            Some(AssignmentKind::ProcessTask { process, task: _ }) => {
                if self.coordinator.active_process(tenant, project, process).is_none() || cancelled
                    || !checkpointed {
                    return None;
                }
                Some(180)
            },
        }
    }

    /// Takes the report of a compilation. `system_check` and `check` are what the checks of the
    /// report in itself gave; `bundle_id` and `bundle_digest` name the system bundle that made it.
    pub fn report_system_task(
        &mut self,
        bundle_id: &String,
        bundle_digest: &Digest,
        result: WorkflowCompilationResult,
        system_check: Result<(), String>,
        check: Result<(), String>,
        manifest: &SystemManifest,
        standing: &ReportStanding,
        rules: &BundleRules,
        checks: BundleChecks,
        now: u64,
    ) -> (r: Result<AutomatedRunStageRecord, CoordinatorServiceError>)
        ensures
            system_reported(
                old(self)@,
                final(self)@,
                bundle_id@,
                bundle_digest@,
                result@,
                system_check,
                check,
                *manifest,
                *standing,
                *rules,
                checks,
                now,
                r,
            ),
    {
        match system_check {
            Err(reason) => {
                return Err(CoordinatorServiceError::Protocol(reason));
            },
            Ok(_) => {},
        }
        if !text_eq(bundle_id.as_str(), manifest.bundle_id.as_str()) || !text_eq(
            bundle_digest.as_str(),
            manifest.bundle_digest.as_str(),
        ) {
            return Err(
                unauthorized("system task result does not match this release's pinned bundle"),
            );
        }
        self.coordinator.automation_mut().report_compile_workflow(
            result,
            check,
            standing,
            rules,
            checks,
            now,
        )
    }
}

/// What comes of the report of a system bundle.
pub open spec fn system_reported(
    before: CoordinatorServiceModel,
    after: CoordinatorServiceModel,
    bundle_id: Seq<char>,
    bundle_digest: Seq<char>,
    result: WorkflowCompilationResultModel,
    system_check: Result<(), String>,
    check: Result<(), String>,
    manifest: SystemManifest,
    standing: ReportStanding,
    rules: BundleRules,
    checks: BundleChecks,
    now: u64,
    r: Result<AutomatedRunStageRecord, CoordinatorServiceError>,
) -> bool {
    let runs = before.coordinator.durable.automation;
    let left = after.coordinator.durable.automation;
    &&& after == service_with(before, left)
    &&& if system_check is Err {
        left == runs && (r matches Err(error) && error.protests(system_check->Err_0@))
    } else if bundle_id != manifest.bundle_id@ || bundle_digest != manifest.bundle_digest@ {
        left == runs && (r matches Err(error) && error.denies(
            "system task result does not match this release's pinned bundle"@,
        ))
    } else if check is Err {
        left == runs && (r matches Err(error) && error.protests(check->Err_0@))
    } else {
        match lookup(runs.automated_runs, result.run_id@) {
            None => left == runs && (r matches Err(error) && error.protests(
                "unknown automated run"@,
            )),
            Some(run) => compilation_reported(
                runs,
                left,
                result,
                standing,
                rules,
                checks,
                now,
                run,
                r,
            ),
        }
    }
}

/// The text whose digest names an attempt to compile.
pub open spec fn attempt_text(run_id: Seq<char>, attempts: u8) -> Seq<char> {
    run_id + "\0"@ + decimal(attempts as nat)
}

/// The text whose digest names an attempt to compile.
pub fn compile_attempt_text(run_id: &RunId, attempts: u8) -> (r: String)
    ensures
        r@ == attempt_text(run_id@, attempts),
{
    let number: String = decimal_text(attempts as u64);
    concat3(run_id.as_str(), "\0", number.as_str())
}

/// The identifier of an attempt to compile, from the digest of its text.
pub fn compile_attempt_id(digest: &Digest) -> (r: String)
    requires
        is_digest_text(digest@),
    ensures
        r@ == "compile-attempt-"@ + digest@.skip(7),
{
    let chars: Vec<char> = chars_of(digest.as_str());
    proof {
        reveal_strlit("sha256:");
    }
    let rest: Vec<char> = part(&chars, 7, chars.len());
    assert(rest@ =~= digest@.skip(7));
    let suffix: String = text_of(&rest);
    concat2("compile-attempt-", suffix.as_str())
}

} // verus!
