//! Automated runs: what is recorded from the push that triggers one to its end.
use vstd::prelude::*;
use vstd::string::*;

use crate::capability::Capabilities;
use crate::duplicate::{Duplicate, TextList, copy_all, copy_option, copy_text, option_view, same_text, views};
use crate::ids::{Digest, ProcessId, ProjectId, RunId, TenantId, TriggerId};
use crate::ordered_map::OrderedMap;

verus! {

/// Where an automated run stands.
#[derive(Clone, Copy, Debug, PartialEq, Eq, Structural)]
pub enum AutomatedRunState {
    Accepted,
    LoadingSource,
    WaitingForCompilerNode,
    CompilingWorkflow,
    WaitingForProcessSlot,
    Launching,
    Running,
    Completed,
    Failed,
    Cancelled,
}

/// A push that a forge delivered. `run_identity` is the digest that tells the run of a project and commit apart from others.
pub struct CommitTrigger {
    pub trigger_id: TriggerId,
    pub delivery_id: String,
    pub forge: String,
    pub repository_id: String,
    pub commit_sha: String,
    pub git_ref: String,
    pub trusted: bool,
    pub received_at: u64,
    pub run_identity: Digest,
}

impl View for CommitTrigger {
    type V = CommitTrigger;

    open spec fn view(&self) -> CommitTrigger {
        *self
    }
}

impl Duplicate for CommitTrigger {
    fn duplicate(&self) -> (r: Self) {
        CommitTrigger {
            trigger_id: self.trigger_id.clone(),
            delivery_id: self.delivery_id.clone(),
            forge: self.forge.clone(),
            repository_id: self.repository_id.clone(),
            commit_sha: self.commit_sha.clone(),
            git_ref: self.git_ref.clone(),
            trusted: self.trusted,
            received_at: self.received_at,
            run_identity: self.run_identity.clone(),
        }
    }
}

/// A push that was accepted.
pub struct AcceptedCommitTriggerRecord {
    pub tenant: TenantId,
    pub project: ProjectId,
    pub binding_id: String,
    pub body_digest: Digest,
    pub trigger: CommitTrigger,
}

impl View for AcceptedCommitTriggerRecord {
    type V = AcceptedCommitTriggerRecord;

    open spec fn view(&self) -> AcceptedCommitTriggerRecord {
        *self
    }
}

impl Duplicate for AcceptedCommitTriggerRecord {
    fn duplicate(&self) -> (r: Self) {
        AcceptedCommitTriggerRecord {
            tenant: self.tenant.clone(),
            project: self.project.clone(),
            binding_id: self.binding_id.clone(),
            body_digest: self.body_digest.clone(),
            trigger: self.trigger.duplicate(),
        }
    }
}

/// What an environment asks of a node. `detail` is what it asks in full.
pub struct EnvironmentRequirements {
    pub arch: Option<String>,
    pub capabilities: Capabilities,
    pub detail: String,
}

impl View for EnvironmentRequirements {
    type V = EnvironmentRequirements;

    open spec fn view(&self) -> EnvironmentRequirements {
        *self
    }
}

impl Duplicate for EnvironmentRequirements {
    fn duplicate(&self) -> (r: Self) {
        EnvironmentRequirements {
            arch: copy_text(&self.arch),
            capabilities: self.capabilities,
            detail: self.detail.clone(),
        }
    }
}

/// The same contents in every field.
pub open spec fn environment_requirements_alike(a: EnvironmentRequirements, b: EnvironmentRequirements) -> bool {
    &&& option_view(a.arch) == option_view(b.arch)
    &&& a.capabilities == b.capabilities
    &&& a.detail@ == b.detail@
}

impl EnvironmentRequirements {
    pub fn same_as(&self, other: &EnvironmentRequirements) -> (r: bool)
        ensures
            r == environment_requirements_alike(self@, other@),
    {
        same_text(&self.arch, &other.arch)
            && self.capabilities == other.capabilities
            && self.detail == other.detail
    }
}

/// An environment that a revision defines. `definition` is its definition in full.
pub struct EnvironmentResource {
    pub name: String,
    pub digest: Digest,
    pub requirements: EnvironmentRequirements,
    pub definition: String,
}

impl View for EnvironmentResource {
    type V = EnvironmentResource;

    open spec fn view(&self) -> EnvironmentResource {
        *self
    }
}

impl Duplicate for EnvironmentResource {
    fn duplicate(&self) -> (r: Self) {
        EnvironmentResource {
            name: self.name.clone(),
            digest: self.digest.clone(),
            requirements: self.requirements.duplicate(),
            definition: self.definition.clone(),
        }
    }
}

/// The same contents in every field.
pub open spec fn environment_resource_alike(a: EnvironmentResource, b: EnvironmentResource) -> bool {
    &&& a.name@ == b.name@
    &&& a.digest@ == b.digest@
    &&& environment_requirements_alike(a.requirements, b.requirements)
    &&& a.definition@ == b.definition@
}

impl EnvironmentResource {
    pub fn same_as(&self, other: &EnvironmentResource) -> (r: bool)
        ensures
            r == environment_resource_alike(self@, other@),
    {
        self.name == other.name
            && self.digest == other.digest
            && self.requirements.same_as(&other.requirements)
            && self.definition == other.definition
    }
}

/// As many items, each with the same contents as the one at its place.
pub open spec fn all_environment_resource_alike(a: Seq<EnvironmentResource>, b: Seq<EnvironmentResource>) -> bool {
    a.len() == b.len() && forall|i: int|
        0 <= i < a.len() ==> environment_resource_alike(#[trigger] a[i], b[i])
}

pub fn same_environment_resources(a: &Vec<EnvironmentResource>, b: &Vec<EnvironmentResource>) -> (r: bool)
    ensures
        r == all_environment_resource_alike(views(a@), views(b@)),
{
    let ghost x = views(a@);
    let ghost y = views(b@);
    if a.len() != b.len() {
        return false;
    }
    let mut i: usize = 0;
    while i < a.len()
        invariant
            0 <= i <= a@.len(),
            a@.len() == b@.len(),
            x == views(a@),
            y == views(b@),
            forall|j: int| 0 <= j < i ==> environment_resource_alike(#[trigger] x[j], y[j]),
        decreases a@.len() - i,
    {
        assert(x[i as int] == a@[i as int]@ && y[i as int] == b@[i as int]@);
        if !a[i].same_as(&b[i]) {
            assert(!environment_resource_alike(x[i as int], y[i as int]));
            return false;
        }
        i = i + 1;
    }
    true
}

/// The source of a workflow at one commit. `content` is the source in full.
pub struct WorkflowSource {
    pub trigger_id: TriggerId,
    pub repository_id: String,
    pub commit_sha: String,
    pub tree_digest: Digest,
    pub manifest_digest: Digest,
    pub environments: Vec<EnvironmentResource>,
    pub total_bytes: u64,
    pub content: String,
}

/// The model of [`WorkflowSource`].
#[verifier::ext_equal]
pub struct WorkflowSourceModel {
    pub trigger_id: TriggerId,
    pub repository_id: String,
    pub commit_sha: String,
    pub tree_digest: Digest,
    pub manifest_digest: Digest,
    pub environments: Seq<EnvironmentResource>,
    pub total_bytes: u64,
    pub content: String,
}

impl View for WorkflowSource {
    type V = WorkflowSourceModel;

    open spec fn view(&self) -> WorkflowSourceModel {
        WorkflowSourceModel {
            trigger_id: self.trigger_id,
            repository_id: self.repository_id,
            commit_sha: self.commit_sha,
            tree_digest: self.tree_digest,
            manifest_digest: self.manifest_digest,
            environments: views(self.environments@),
            total_bytes: self.total_bytes,
            content: self.content,
        }
    }
}

impl Duplicate for WorkflowSource {
    fn duplicate(&self) -> (r: Self) {
        WorkflowSource {
            trigger_id: self.trigger_id.clone(),
            repository_id: self.repository_id.clone(),
            commit_sha: self.commit_sha.clone(),
            tree_digest: self.tree_digest.clone(),
            manifest_digest: self.manifest_digest.clone(),
            environments: copy_all(&self.environments),
            total_bytes: self.total_bytes,
            content: self.content.clone(),
        }
    }
}

/// The same contents in every field.
pub open spec fn workflow_source_alike(a: WorkflowSourceModel, b: WorkflowSourceModel) -> bool {
    &&& a.trigger_id@ == b.trigger_id@
    &&& a.repository_id@ == b.repository_id@
    &&& a.commit_sha@ == b.commit_sha@
    &&& a.tree_digest@ == b.tree_digest@
    &&& a.manifest_digest@ == b.manifest_digest@
    &&& all_environment_resource_alike(a.environments, b.environments)
    &&& a.total_bytes == b.total_bytes
    &&& a.content@ == b.content@
}

impl WorkflowSource {
    pub fn same_as(&self, other: &WorkflowSource) -> (r: bool)
        ensures
            r == workflow_source_alike(self@, other@),
    {
        self.trigger_id == other.trigger_id
            && self.repository_id == other.repository_id
            && self.commit_sha == other.commit_sha
            && self.tree_digest == other.tree_digest
            && self.manifest_digest == other.manifest_digest
            && same_environment_resources(&self.environments, &other.environments)
            && self.total_bytes == other.total_bytes
            && self.content == other.content
    }
}

/// A revision of a repository. `content` is the revision in full.
pub struct RepositoryRevision {
    pub repository_id: String,
    pub commit_sha: String,
    pub source_snapshot: Digest,
    pub content: String,
}

impl View for RepositoryRevision {
    type V = RepositoryRevision;

    open spec fn view(&self) -> RepositoryRevision {
        *self
    }
}

impl Duplicate for RepositoryRevision {
    fn duplicate(&self) -> (r: Self) {
        RepositoryRevision {
            repository_id: self.repository_id.clone(),
            commit_sha: self.commit_sha.clone(),
            source_snapshot: self.source_snapshot.clone(),
            content: self.content.clone(),
        }
    }
}

/// The same contents in every field.
pub open spec fn repository_revision_alike(a: RepositoryRevision, b: RepositoryRevision) -> bool {
    &&& a.repository_id@ == b.repository_id@
    &&& a.commit_sha@ == b.commit_sha@
    &&& a.source_snapshot@ == b.source_snapshot@
    &&& a.content@ == b.content@
}

impl RepositoryRevision {
    pub fn same_as(&self, other: &RepositoryRevision) -> (r: bool)
        ensures
            r == repository_revision_alike(self@, other@),
    {
        self.repository_id == other.repository_id
            && self.commit_sha == other.commit_sha
            && self.source_snapshot == other.source_snapshot
            && self.content == other.content
    }
}

/// What a compiler is asked to do. `content` is the request in full, but for the source.
pub struct WorkflowCompilationRequest {
    pub run_id: RunId,
    pub source: WorkflowSource,
    pub compiler_profile: String,
    pub compiler_image: Digest,
    pub compiler_sdk: Digest,
    pub rust_toolchain: String,
    pub max_output_bytes: u64,
    pub wall_clock_seconds: u64,
    pub content: String,
}

/// The model of [`WorkflowCompilationRequest`].
#[verifier::ext_equal]
pub struct WorkflowCompilationRequestModel {
    pub run_id: RunId,
    pub source: WorkflowSourceModel,
    pub compiler_profile: String,
    pub compiler_image: Digest,
    pub compiler_sdk: Digest,
    pub rust_toolchain: String,
    pub max_output_bytes: u64,
    pub wall_clock_seconds: u64,
    pub content: String,
}

impl View for WorkflowCompilationRequest {
    type V = WorkflowCompilationRequestModel;

    open spec fn view(&self) -> WorkflowCompilationRequestModel {
        WorkflowCompilationRequestModel {
            run_id: self.run_id,
            source: self.source@,
            compiler_profile: self.compiler_profile,
            compiler_image: self.compiler_image,
            compiler_sdk: self.compiler_sdk,
            rust_toolchain: self.rust_toolchain,
            max_output_bytes: self.max_output_bytes,
            wall_clock_seconds: self.wall_clock_seconds,
            content: self.content,
        }
    }
}

impl Duplicate for WorkflowCompilationRequest {
    fn duplicate(&self) -> (r: Self) {
        WorkflowCompilationRequest {
            run_id: self.run_id.clone(),
            source: self.source.duplicate(),
            compiler_profile: self.compiler_profile.clone(),
            compiler_image: self.compiler_image.clone(),
            compiler_sdk: self.compiler_sdk.clone(),
            rust_toolchain: self.rust_toolchain.clone(),
            max_output_bytes: self.max_output_bytes,
            wall_clock_seconds: self.wall_clock_seconds,
            content: self.content.clone(),
        }
    }
}

/// The same contents in every field.
pub open spec fn workflow_compilation_request_alike(a: WorkflowCompilationRequestModel, b: WorkflowCompilationRequestModel) -> bool {
    &&& a.run_id@ == b.run_id@
    &&& workflow_source_alike(a.source, b.source)
    &&& a.compiler_profile@ == b.compiler_profile@
    &&& a.compiler_image@ == b.compiler_image@
    &&& a.compiler_sdk@ == b.compiler_sdk@
    &&& a.rust_toolchain@ == b.rust_toolchain@
    &&& a.max_output_bytes == b.max_output_bytes
    &&& a.wall_clock_seconds == b.wall_clock_seconds
    &&& a.content@ == b.content@
}

impl WorkflowCompilationRequest {
    pub fn same_as(&self, other: &WorkflowCompilationRequest) -> (r: bool)
        ensures
            r == workflow_compilation_request_alike(self@, other@),
    {
        self.run_id == other.run_id
            && self.source.same_as(&other.source)
            && self.compiler_profile == other.compiler_profile
            && self.compiler_image == other.compiler_image
            && self.compiler_sdk == other.compiler_sdk
            && self.rust_toolchain == other.rust_toolchain
            && self.max_output_bytes == other.max_output_bytes
            && self.wall_clock_seconds == other.wall_clock_seconds
            && self.content == other.content
    }
}

/// A dependency that the compiler has built in.
pub struct TrustedDependency {
    pub package: String,
    pub version: String,
    pub features: TextList,
    pub digest: Digest,
}

/// The model of [`TrustedDependency`].
#[verifier::ext_equal]
pub struct TrustedDependencyModel {
    pub package: String,
    pub version: String,
    pub features: Seq<Seq<char>>,
    pub digest: Digest,
}

impl View for TrustedDependency {
    type V = TrustedDependencyModel;

    open spec fn view(&self) -> TrustedDependencyModel {
        TrustedDependencyModel {
            package: self.package,
            version: self.version,
            features: self.features@,
            digest: self.digest,
        }
    }
}

impl Duplicate for TrustedDependency {
    fn duplicate(&self) -> (r: Self) {
        TrustedDependency {
            package: self.package.clone(),
            version: self.version.clone(),
            features: self.features.duplicate(),
            digest: self.digest.clone(),
        }
    }
}

/// What compiled a workflow.
pub struct CompilerIdentity {
    pub hosted_sandbox: bool,
    pub sdk_digest: Digest,
    pub sandbox_image_digest: Option<Digest>,
    pub rustc_version: String,
    pub target: String,
    pub sdk_version: String,
    pub flags: TextList,
    pub trusted_dependencies: Vec<TrustedDependency>,
}

/// The model of [`CompilerIdentity`].
#[verifier::ext_equal]
pub struct CompilerIdentityModel {
    pub hosted_sandbox: bool,
    pub sdk_digest: Digest,
    pub sandbox_image_digest: Option<Digest>,
    pub rustc_version: String,
    pub target: String,
    pub sdk_version: String,
    pub flags: Seq<Seq<char>>,
    pub trusted_dependencies: Seq<TrustedDependencyModel>,
}

impl View for CompilerIdentity {
    type V = CompilerIdentityModel;

    open spec fn view(&self) -> CompilerIdentityModel {
        CompilerIdentityModel {
            hosted_sandbox: self.hosted_sandbox,
            sdk_digest: self.sdk_digest,
            sandbox_image_digest: self.sandbox_image_digest,
            rustc_version: self.rustc_version,
            target: self.target,
            sdk_version: self.sdk_version,
            flags: self.flags@,
            trusted_dependencies: views(self.trusted_dependencies@),
        }
    }
}

impl Duplicate for CompilerIdentity {
    fn duplicate(&self) -> (r: Self) {
        CompilerIdentity {
            hosted_sandbox: self.hosted_sandbox,
            sdk_digest: self.sdk_digest.clone(),
            sandbox_image_digest: copy_text(&self.sandbox_image_digest),
            rustc_version: self.rustc_version.clone(),
            target: self.target.clone(),
            sdk_version: self.sdk_version.clone(),
            flags: self.flags.duplicate(),
            trusted_dependencies: copy_all(&self.trusted_dependencies),
        }
    }
}

/// A compiled workflow.
pub struct CompiledWorkflowBundle {
    pub bundle_digest: Digest,
    pub source_tree_digest: Digest,
    pub manifest_digest: Digest,
    pub execution_module_digest: Digest,
    pub sdk_abi_version: u32,
    pub module_base64: String,
    pub debug_metadata_base64: String,
    pub default_entrypoint: String,
    pub entrypoints: TextList,
    pub task_definitions: TextList,
    pub environments: Vec<EnvironmentResource>,
    pub compiler_identity: CompilerIdentity,
}

/// The model of [`CompiledWorkflowBundle`].
#[verifier::ext_equal]
pub struct CompiledWorkflowBundleModel {
    pub bundle_digest: Digest,
    pub source_tree_digest: Digest,
    pub manifest_digest: Digest,
    pub execution_module_digest: Digest,
    pub sdk_abi_version: u32,
    pub module_base64: String,
    pub debug_metadata_base64: String,
    pub default_entrypoint: String,
    pub entrypoints: Seq<Seq<char>>,
    pub task_definitions: Seq<Seq<char>>,
    pub environments: Seq<EnvironmentResource>,
    pub compiler_identity: CompilerIdentityModel,
}

impl View for CompiledWorkflowBundle {
    type V = CompiledWorkflowBundleModel;

    open spec fn view(&self) -> CompiledWorkflowBundleModel {
        CompiledWorkflowBundleModel {
            bundle_digest: self.bundle_digest,
            source_tree_digest: self.source_tree_digest,
            manifest_digest: self.manifest_digest,
            execution_module_digest: self.execution_module_digest,
            sdk_abi_version: self.sdk_abi_version,
            module_base64: self.module_base64,
            debug_metadata_base64: self.debug_metadata_base64,
            default_entrypoint: self.default_entrypoint,
            entrypoints: self.entrypoints@,
            task_definitions: self.task_definitions@,
            environments: views(self.environments@),
            compiler_identity: self.compiler_identity@,
        }
    }
}

impl Duplicate for CompiledWorkflowBundle {
    fn duplicate(&self) -> (r: Self) {
        CompiledWorkflowBundle {
            bundle_digest: self.bundle_digest.clone(),
            source_tree_digest: self.source_tree_digest.clone(),
            manifest_digest: self.manifest_digest.clone(),
            execution_module_digest: self.execution_module_digest.clone(),
            sdk_abi_version: self.sdk_abi_version,
            module_base64: self.module_base64.clone(),
            debug_metadata_base64: self.debug_metadata_base64.clone(),
            default_entrypoint: self.default_entrypoint.clone(),
            entrypoints: self.entrypoints.duplicate(),
            task_definitions: self.task_definitions.duplicate(),
            environments: copy_all(&self.environments),
            compiler_identity: self.compiler_identity.duplicate(),
        }
    }
}

/// What a running workflow is told of its trigger.
pub struct TriggerContext {
    pub trigger_id: TriggerId,
    pub forge: String,
    pub repository_id: String,
    pub commit_sha: String,
    pub git_ref: String,
    pub trusted: bool,
    pub source_snapshot: Digest,
}

impl View for TriggerContext {
    type V = TriggerContext;

    open spec fn view(&self) -> TriggerContext {
        *self
    }
}

impl Duplicate for TriggerContext {
    fn duplicate(&self) -> (r: Self) {
        TriggerContext {
            trigger_id: self.trigger_id.clone(),
            forge: self.forge.clone(),
            repository_id: self.repository_id.clone(),
            commit_sha: self.commit_sha.clone(),
            git_ref: self.git_ref.clone(),
            trusted: self.trusted,
            source_snapshot: self.source_snapshot.clone(),
        }
    }
}

/// An automated run.
pub struct AutomatedRunRecord {
    pub run_id: RunId,
    pub primary_trigger_id: TriggerId,
    pub tenant: TenantId,
    pub project: ProjectId,
    pub repository_id: String,
    pub commit_sha: String,
    pub git_ref: String,
    pub trusted: bool,
    pub workflow_tree_digest: Option<Digest>,
    pub bundle_digest: Option<Digest>,
    pub state: AutomatedRunState,
    pub process_id: Option<ProcessId>,
    pub created_at: u64,
    pub started_at: Option<u64>,
    pub ended_at: Option<u64>,
    pub failure_code: Option<String>,
    pub failure_message: Option<String>,
    pub waiting_reason: Option<String>,
    pub publication_tag: Option<String>,
    pub publication_url: Option<String>,
}

impl View for AutomatedRunRecord {
    type V = AutomatedRunRecord;

    open spec fn view(&self) -> AutomatedRunRecord {
        *self
    }
}

impl Duplicate for AutomatedRunRecord {
    fn duplicate(&self) -> (r: Self) {
        AutomatedRunRecord {
            run_id: self.run_id.clone(),
            primary_trigger_id: self.primary_trigger_id.clone(),
            tenant: self.tenant.clone(),
            project: self.project.clone(),
            repository_id: self.repository_id.clone(),
            commit_sha: self.commit_sha.clone(),
            git_ref: self.git_ref.clone(),
            trusted: self.trusted,
            workflow_tree_digest: copy_text(&self.workflow_tree_digest),
            bundle_digest: copy_text(&self.bundle_digest),
            state: self.state,
            process_id: copy_text(&self.process_id),
            created_at: self.created_at,
            started_at: self.started_at,
            ended_at: self.ended_at,
            failure_code: copy_text(&self.failure_code),
            failure_message: copy_text(&self.failure_message),
            waiting_reason: copy_text(&self.waiting_reason),
            publication_tag: copy_text(&self.publication_tag),
            publication_url: copy_text(&self.publication_url),
        }
    }
}

/// How often a compilation was assigned.
#[derive(Clone, Copy, Debug, PartialEq, Eq, Structural)]
pub struct AssignmentRetry {
    pub attempts: u8,
    pub next_offer_epoch: u64,
}

/// An automated run, and what its stages have brought so far.
pub struct AutomatedRunStageRecord {
    pub run: AutomatedRunRecord,
    pub run_key: Digest,
    pub source: Option<WorkflowSource>,
    pub revision_environments: Vec<EnvironmentResource>,
    pub revision: Option<RepositoryRevision>,
    pub compilation_request: Option<WorkflowCompilationRequest>,
    pub assignment_retry: AssignmentRetry,
    pub compiled_bundle: Option<CompiledWorkflowBundle>,
    pub compiled_summary: Option<String>,
    pub trigger_context: Option<TriggerContext>,
    pub launch_attempt: Option<String>,
}

/// The model of [`AutomatedRunStageRecord`].
#[verifier::ext_equal]
pub struct AutomatedRunStageRecordModel {
    pub run: AutomatedRunRecord,
    pub run_key: Digest,
    pub source: Option<WorkflowSourceModel>,
    pub revision_environments: Seq<EnvironmentResource>,
    pub revision: Option<RepositoryRevision>,
    pub compilation_request: Option<WorkflowCompilationRequestModel>,
    pub assignment_retry: AssignmentRetry,
    pub compiled_bundle: Option<CompiledWorkflowBundleModel>,
    pub compiled_summary: Option<String>,
    pub trigger_context: Option<TriggerContext>,
    pub launch_attempt: Option<String>,
}

impl View for AutomatedRunStageRecord {
    type V = AutomatedRunStageRecordModel;

    open spec fn view(&self) -> AutomatedRunStageRecordModel {
        AutomatedRunStageRecordModel {
            run: self.run,
            run_key: self.run_key,
            source: option_view(self.source),
            revision_environments: views(self.revision_environments@),
            revision: self.revision,
            compilation_request: option_view(self.compilation_request),
            assignment_retry: self.assignment_retry,
            compiled_bundle: option_view(self.compiled_bundle),
            compiled_summary: self.compiled_summary,
            trigger_context: self.trigger_context,
            launch_attempt: self.launch_attempt,
        }
    }
}

impl Duplicate for AutomatedRunStageRecord {
    fn duplicate(&self) -> (r: Self) {
        AutomatedRunStageRecord {
            run: self.run.duplicate(),
            run_key: self.run_key.clone(),
            source: copy_option(&self.source),
            revision_environments: copy_all(&self.revision_environments),
            revision: copy_option(&self.revision),
            compilation_request: copy_option(&self.compilation_request),
            assignment_retry: self.assignment_retry,
            compiled_bundle: copy_option(&self.compiled_bundle),
            compiled_summary: copy_text(&self.compiled_summary),
            trigger_context: copy_option(&self.trigger_context),
            launch_attempt: copy_text(&self.launch_attempt),
        }
    }
}

/// An environment of a project.
pub struct ProjectEnvironmentRecord {
    pub tenant: TenantId,
    pub project: ProjectId,
    pub name: String,
    pub definition: EnvironmentResource,
    pub immutable_digest: Digest,
}

impl View for ProjectEnvironmentRecord {
    type V = ProjectEnvironmentRecord;

    open spec fn view(&self) -> ProjectEnvironmentRecord {
        *self
    }
}

impl Duplicate for ProjectEnvironmentRecord {
    fn duplicate(&self) -> (r: Self) {
        ProjectEnvironmentRecord {
            tenant: self.tenant.clone(),
            project: self.project.clone(),
            name: self.name.clone(),
            definition: self.definition.duplicate(),
            immutable_digest: self.immutable_digest.clone(),
        }
    }
}

/// What survives a restart of automated runs.
pub struct AutomationState {
    pub trigger_deliveries: OrderedMap<(String, String), TriggerId>,
    pub accepted_commit_triggers: OrderedMap<TriggerId, AcceptedCommitTriggerRecord>,
    pub automated_run_keys: OrderedMap<Digest, RunId>,
    pub automated_runs: OrderedMap<RunId, AutomatedRunStageRecord>,
    pub project_environments: OrderedMap<(TenantId, ProjectId, String), ProjectEnvironmentRecord>,
}

/// The model of [`AutomationState`].
#[verifier::ext_equal]
pub struct AutomationStateModel {
    pub trigger_deliveries: Seq<((Seq<char>, Seq<char>), Seq<char>)>,
    pub accepted_commit_triggers: Seq<(Seq<char>, AcceptedCommitTriggerRecord)>,
    pub automated_run_keys: Seq<(Seq<char>, Seq<char>)>,
    pub automated_runs: Seq<(Seq<char>, AutomatedRunStageRecordModel)>,
    pub project_environments: Seq<((Seq<char>, Seq<char>, Seq<char>), ProjectEnvironmentRecord)>,
}

impl View for AutomationState {
    type V = AutomationStateModel;

    open spec fn view(&self) -> AutomationStateModel {
        AutomationStateModel {
            trigger_deliveries: self.trigger_deliveries@,
            accepted_commit_triggers: self.accepted_commit_triggers@,
            automated_run_keys: self.automated_run_keys@,
            automated_runs: self.automated_runs@,
            project_environments: self.project_environments@,
        }
    }
}

impl Duplicate for AutomationState {
    fn duplicate(&self) -> (r: Self) {
        AutomationState {
            trigger_deliveries: self.trigger_deliveries.duplicate(),
            accepted_commit_triggers: self.accepted_commit_triggers.duplicate(),
            automated_run_keys: self.automated_run_keys.duplicate(),
            automated_runs: self.automated_runs.duplicate(),
            project_environments: self.project_environments.duplicate(),
        }
    }
}

impl AutomationStateModel {
    /// A state without records.
    pub open spec fn is_empty(&self) -> bool {
        &&& self.trigger_deliveries.len() == 0
        &&& self.accepted_commit_triggers.len() == 0
        &&& self.automated_run_keys.len() == 0
        &&& self.automated_runs.len() == 0
        &&& self.project_environments.len() == 0
    }
}

impl AutomationState {
    /// The state before the first trigger.
    pub fn empty() -> (r: Self)
        ensures
            r@.is_empty(),
    {
        AutomationState {
            trigger_deliveries: OrderedMap::new(),
            accepted_commit_triggers: OrderedMap::new(),
            automated_run_keys: OrderedMap::new(),
            automated_runs: OrderedMap::new(),
            project_environments: OrderedMap::new(),
        }
    }
}

} // verus!
