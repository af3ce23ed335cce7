//! Tasks: what they are asked to do, how they end, and what is kept of them.
use vstd::prelude::*;
use vstd::string::*;

use crate::automated_run::{EnvironmentRequirements, RepositoryRevision};
use crate::capability::Capabilities;
use crate::duplicate::{Duplicate, TextList, copy_all, copy_option, copy_text, option_view, views};
use crate::ids::{Digest, NodeId, ProcessId, ProjectId, TaskDefinitionId, TaskInstanceId, TenantId};

verus! {

/// How a module is called.
#[derive(Clone, Copy, Debug, PartialEq, Eq, Structural)]
pub enum WasmExportAbi {
    EntrypointV1,
    TaskV1,
}

/// What follows when a task fails.
#[derive(Clone, Copy, Debug, PartialEq, Eq, Structural)]
pub enum TaskFailurePolicy {
    FailFast,
    AwaitOperator,
}

/// How a task ends.
#[derive(Clone, Copy, Debug, PartialEq, Eq, Structural)]
pub enum TaskTerminalState {
    Completed,
    Failed,
    Cancelled,
}

/// What runs a task.
#[derive(Clone, Copy, Debug, PartialEq, Eq, Structural)]
pub enum TaskExecutor {
    Node,
    CoordinatorMain,
}

/// Where an attempt stands.
#[derive(Clone, Copy, Debug, PartialEq, Eq, Structural)]
pub enum TaskAttemptState {
    Queued,
    Running,
    FailedAwaitingAction,
    Completed,
    Failed,
    Cancelled,
}

/// What is known of a task that is waited for.
#[derive(Clone, Copy, Debug, PartialEq, Eq, Structural)]
pub enum TaskJoinState {
    Pending,
    Completed,
    Failed,
    Cancelled,
}

/// A stream of output.
#[derive(Clone, Copy, Debug, PartialEq, Eq, Structural)]
pub enum TaskLogStream {
    Stdout,
    Stderr,
}

/// Where the end of a task is reported from.
#[derive(Clone, Copy, Debug, PartialEq, Eq, Structural)]
pub enum TaskCompletionOrigin {
    SignedNode,
    ExpiredAssignment,
}

/// How a task is dispatched.
pub enum TaskDispatch {
    CoordinatorNodeWasm { export: Option<String>, abi: WasmExportAbi },
    /// Another way, in full.
    Other(String),
}

impl View for TaskDispatch {
    type V = TaskDispatch;

    open spec fn view(&self) -> TaskDispatch {
        *self
    }
}

impl Duplicate for TaskDispatch {
    fn duplicate(&self) -> (r: Self) {
        match self {
            TaskDispatch::CoordinatorNodeWasm { export, abi } => TaskDispatch::CoordinatorNodeWasm {
                export: copy_text(export),
                abi: *abi,
            },
            TaskDispatch::Other(text) => TaskDispatch::Other(text.clone()),
        }
    }
}

/// A value that passes between tasks. `content` is the value in full; the artifacts and the source snapshots are those that it refers to.
pub struct TaskBoundaryValue {
    pub content: String,
    pub required_artifacts: TextList,
    pub source_snapshots: TextList,
}

/// The model of [`TaskBoundaryValue`].
#[verifier::ext_equal]
pub struct TaskBoundaryValueModel {
    pub content: String,
    pub required_artifacts: Seq<Seq<char>>,
    pub source_snapshots: Seq<Seq<char>>,
}

impl View for TaskBoundaryValue {
    type V = TaskBoundaryValueModel;

    open spec fn view(&self) -> TaskBoundaryValueModel {
        TaskBoundaryValueModel {
            content: self.content,
            required_artifacts: self.required_artifacts@,
            source_snapshots: self.source_snapshots@,
        }
    }
}

impl Duplicate for TaskBoundaryValue {
    fn duplicate(&self) -> (r: Self) {
        TaskBoundaryValue {
            content: self.content.clone(),
            required_artifacts: self.required_artifacts.duplicate(),
            source_snapshots: self.source_snapshots.duplicate(),
        }
    }
}

/// What a task is asked to do.
pub struct TaskSpec {
    pub tenant: TenantId,
    pub project: ProjectId,
    pub process: ProcessId,
    pub task_definition: TaskDefinitionId,
    pub task_instance: TaskInstanceId,
    pub dispatch: TaskDispatch,
    pub environment_id: Option<String>,
    pub environment: Option<EnvironmentRequirements>,
    pub environment_digest: Option<Digest>,
    pub required_capabilities: Capabilities,
    pub dependency_cache: Option<String>,
    pub source_snapshot: Option<Digest>,
    pub source_revision: Option<RepositoryRevision>,
    pub required_artifacts: TextList,
    pub args: Vec<TaskBoundaryValue>,
    pub requested_secrets: TextList,
    pub vfs_epoch: u64,
    pub failure_policy: TaskFailurePolicy,
    pub bundle_digest: Option<Digest>,
}

/// The model of [`TaskSpec`].
#[verifier::ext_equal]
pub struct TaskSpecModel {
    pub tenant: TenantId,
    pub project: ProjectId,
    pub process: ProcessId,
    pub task_definition: TaskDefinitionId,
    pub task_instance: TaskInstanceId,
    pub dispatch: TaskDispatch,
    pub environment_id: Option<String>,
    pub environment: Option<EnvironmentRequirements>,
    pub environment_digest: Option<Digest>,
    pub required_capabilities: Capabilities,
    pub dependency_cache: Option<String>,
    pub source_snapshot: Option<Digest>,
    pub source_revision: Option<RepositoryRevision>,
    pub required_artifacts: Seq<Seq<char>>,
    pub args: Seq<TaskBoundaryValueModel>,
    pub requested_secrets: Seq<Seq<char>>,
    pub vfs_epoch: u64,
    pub failure_policy: TaskFailurePolicy,
    pub bundle_digest: Option<Digest>,
}

impl View for TaskSpec {
    type V = TaskSpecModel;

    open spec fn view(&self) -> TaskSpecModel {
        TaskSpecModel {
            tenant: self.tenant,
            project: self.project,
            process: self.process,
            task_definition: self.task_definition,
            task_instance: self.task_instance,
            dispatch: self.dispatch,
            environment_id: self.environment_id,
            environment: self.environment,
            environment_digest: self.environment_digest,
            required_capabilities: self.required_capabilities,
            dependency_cache: self.dependency_cache,
            source_snapshot: self.source_snapshot,
            source_revision: self.source_revision,
            required_artifacts: self.required_artifacts@,
            args: views(self.args@),
            requested_secrets: self.requested_secrets@,
            vfs_epoch: self.vfs_epoch,
            failure_policy: self.failure_policy,
            bundle_digest: self.bundle_digest,
        }
    }
}

impl Duplicate for TaskSpec {
    fn duplicate(&self) -> (r: Self) {
        TaskSpec {
            tenant: self.tenant.clone(),
            project: self.project.clone(),
            process: self.process.clone(),
            task_definition: self.task_definition.clone(),
            task_instance: self.task_instance.clone(),
            dispatch: self.dispatch.duplicate(),
            environment_id: copy_text(&self.environment_id),
            environment: copy_option(&self.environment),
            environment_digest: copy_text(&self.environment_digest),
            required_capabilities: self.required_capabilities,
            dependency_cache: copy_text(&self.dependency_cache),
            source_snapshot: copy_text(&self.source_snapshot),
            source_revision: copy_option(&self.source_revision),
            required_artifacts: self.required_artifacts.duplicate(),
            args: copy_all(&self.args),
            requested_secrets: self.requested_secrets.duplicate(),
            vfs_epoch: self.vfs_epoch,
            failure_policy: self.failure_policy,
            bundle_digest: copy_text(&self.bundle_digest),
        }
    }
}

/// The end of a task.
pub struct TaskCompletionEvent {
    pub tenant: TenantId,
    pub project: ProjectId,
    pub process: ProcessId,
    pub node: NodeId,
    pub executor: TaskExecutor,
    pub task_definition: TaskDefinitionId,
    pub task: TaskInstanceId,
    pub attempt_id: Option<String>,
    pub placement: Option<String>,
    pub terminal_state: TaskTerminalState,
    pub status_code: Option<i32>,
    pub stdout_bytes: u64,
    pub stderr_bytes: u64,
    pub stdout_tail: String,
    pub stderr_tail: String,
    pub stdout_truncated: bool,
    pub stderr_truncated: bool,
    pub artifact_path: Option<String>,
    pub artifact_digest: Option<Digest>,
    pub artifact_size_bytes: Option<u64>,
    pub result: Option<TaskBoundaryValue>,
}

/// The model of [`TaskCompletionEvent`].
#[verifier::ext_equal]
pub struct TaskCompletionEventModel {
    pub tenant: TenantId,
    pub project: ProjectId,
    pub process: ProcessId,
    pub node: NodeId,
    pub executor: TaskExecutor,
    pub task_definition: TaskDefinitionId,
    pub task: TaskInstanceId,
    pub attempt_id: Option<String>,
    pub placement: Option<String>,
    pub terminal_state: TaskTerminalState,
    pub status_code: Option<i32>,
    pub stdout_bytes: u64,
    pub stderr_bytes: u64,
    pub stdout_tail: String,
    pub stderr_tail: String,
    pub stdout_truncated: bool,
    pub stderr_truncated: bool,
    pub artifact_path: Option<String>,
    pub artifact_digest: Option<Digest>,
    pub artifact_size_bytes: Option<u64>,
    pub result: Option<TaskBoundaryValueModel>,
}

impl View for TaskCompletionEvent {
    type V = TaskCompletionEventModel;

    open spec fn view(&self) -> TaskCompletionEventModel {
        TaskCompletionEventModel {
            tenant: self.tenant,
            project: self.project,
            process: self.process,
            node: self.node,
            executor: self.executor,
            task_definition: self.task_definition,
            task: self.task,
            attempt_id: self.attempt_id,
            placement: self.placement,
            terminal_state: self.terminal_state,
            status_code: self.status_code,
            stdout_bytes: self.stdout_bytes,
            stderr_bytes: self.stderr_bytes,
            stdout_tail: self.stdout_tail,
            stderr_tail: self.stderr_tail,
            stdout_truncated: self.stdout_truncated,
            stderr_truncated: self.stderr_truncated,
            artifact_path: self.artifact_path,
            artifact_digest: self.artifact_digest,
            artifact_size_bytes: self.artifact_size_bytes,
            result: option_view(self.result),
        }
    }
}

impl Duplicate for TaskCompletionEvent {
    fn duplicate(&self) -> (r: Self) {
        TaskCompletionEvent {
            tenant: self.tenant.clone(),
            project: self.project.clone(),
            process: self.process.clone(),
            node: self.node.clone(),
            executor: self.executor,
            task_definition: self.task_definition.clone(),
            task: self.task.clone(),
            attempt_id: copy_text(&self.attempt_id),
            placement: copy_text(&self.placement),
            terminal_state: self.terminal_state,
            status_code: self.status_code,
            stdout_bytes: self.stdout_bytes,
            stderr_bytes: self.stderr_bytes,
            stdout_tail: self.stdout_tail.clone(),
            stderr_tail: self.stderr_tail.clone(),
            stdout_truncated: self.stdout_truncated,
            stderr_truncated: self.stderr_truncated,
            artifact_path: copy_text(&self.artifact_path),
            artifact_digest: copy_text(&self.artifact_digest),
            artifact_size_bytes: self.artifact_size_bytes,
            result: copy_option(&self.result),
        }
    }
}

/// An attempt to run a task.
pub struct TaskAttempt {
    pub attempt_id: String,
    pub state: TaskAttemptState,
    pub failure_policy: TaskFailurePolicy,
    pub status_code: Option<i32>,
    pub artifact_path: Option<String>,
    pub artifact_digest: Option<Digest>,
    pub artifact_size_bytes: Option<u64>,
    pub error: Option<String>,
    pub command_state: Option<String>,
    pub probe_symbol: Option<String>,
}

impl View for TaskAttempt {
    type V = TaskAttempt;

    open spec fn view(&self) -> TaskAttempt {
        *self
    }
}

impl Duplicate for TaskAttempt {
    fn duplicate(&self) -> (r: Self) {
        TaskAttempt {
            attempt_id: self.attempt_id.clone(),
            state: self.state,
            failure_policy: self.failure_policy,
            status_code: self.status_code,
            artifact_path: copy_text(&self.artifact_path),
            artifact_digest: copy_text(&self.artifact_digest),
            artifact_size_bytes: self.artifact_size_bytes,
            error: copy_text(&self.error),
            command_state: copy_text(&self.command_state),
            probe_symbol: copy_text(&self.probe_symbol),
        }
    }
}

/// A task that is assigned to a node.
pub struct TaskAssignment {
    pub node: NodeId,
    pub task: TaskInstanceId,
    pub task_spec: TaskSpec,
    pub artifact_path: String,
    pub wasm_module_base64: String,
}

/// The model of [`TaskAssignment`].
#[verifier::ext_equal]
pub struct TaskAssignmentModel {
    pub node: NodeId,
    pub task: TaskInstanceId,
    pub task_spec: TaskSpecModel,
    pub artifact_path: String,
    pub wasm_module_base64: String,
}

impl View for TaskAssignment {
    type V = TaskAssignmentModel;

    open spec fn view(&self) -> TaskAssignmentModel {
        TaskAssignmentModel {
            node: self.node,
            task: self.task,
            task_spec: self.task_spec@,
            artifact_path: self.artifact_path,
            wasm_module_base64: self.wasm_module_base64,
        }
    }
}

impl Duplicate for TaskAssignment {
    fn duplicate(&self) -> (r: Self) {
        TaskAssignment {
            node: self.node.clone(),
            task: self.task.clone(),
            task_spec: self.task_spec.duplicate(),
            artifact_path: self.artifact_path.clone(),
            wasm_module_base64: self.wasm_module_base64.clone(),
        }
    }
}

/// A file that a task started from.
pub struct VfsObject {
    pub path: String,
    pub digest: Digest,
    pub size: u64,
}

impl View for VfsObject {
    type V = VfsObject;

    open spec fn view(&self) -> VfsObject {
        *self
    }
}

impl Duplicate for VfsObject {
    fn duplicate(&self) -> (r: Self) {
        VfsObject {
            path: self.path.clone(),
            digest: self.digest.clone(),
            size: self.size,
        }
    }
}

/// Where a task was entered.
pub struct CheckpointBoundary {
    pub task_entrypoint: String,
    pub serialized_args: String,
    pub environment_digest: Digest,
    pub task_abi: Digest,
}

impl View for CheckpointBoundary {
    type V = CheckpointBoundary;

    open spec fn view(&self) -> CheckpointBoundary {
        *self
    }
}

impl Duplicate for CheckpointBoundary {
    fn duplicate(&self) -> (r: Self) {
        CheckpointBoundary {
            task_entrypoint: self.task_entrypoint.clone(),
            serialized_args: self.serialized_args.clone(),
            environment_digest: self.environment_digest.clone(),
            task_abi: self.task_abi.clone(),
        }
    }
}

/// What a task can be restarted from.
pub struct TaskCheckpoint {
    pub assignment: TaskAssignment,
    pub boundary: CheckpointBoundary,
    pub objects: Vec<VfsObject>,
}

/// The model of [`TaskCheckpoint`].
#[verifier::ext_equal]
pub struct TaskCheckpointModel {
    pub assignment: TaskAssignmentModel,
    pub boundary: CheckpointBoundary,
    pub objects: Seq<VfsObject>,
}

impl View for TaskCheckpoint {
    type V = TaskCheckpointModel;

    open spec fn view(&self) -> TaskCheckpointModel {
        TaskCheckpointModel {
            assignment: self.assignment@,
            boundary: self.boundary,
            objects: views(self.objects@),
        }
    }
}

impl Duplicate for TaskCheckpoint {
    fn duplicate(&self) -> (r: Self) {
        TaskCheckpoint {
            assignment: self.assignment.duplicate(),
            boundary: self.boundary.duplicate(),
            objects: copy_all(&self.objects),
        }
    }
}

/// What waiting for a task gives.
pub struct TaskJoinResult {
    pub process: ProcessId,
    pub task: TaskInstanceId,
    pub node: Option<NodeId>,
    pub state: TaskJoinState,
    pub result: Option<TaskBoundaryValue>,
    pub status_code: Option<i32>,
    pub message: String,
}

/// The model of [`TaskJoinResult`].
#[verifier::ext_equal]
pub struct TaskJoinResultModel {
    pub process: ProcessId,
    pub task: TaskInstanceId,
    pub node: Option<NodeId>,
    pub state: TaskJoinState,
    pub result: Option<TaskBoundaryValueModel>,
    pub status_code: Option<i32>,
    pub message: String,
}

impl View for TaskJoinResult {
    type V = TaskJoinResultModel;

    open spec fn view(&self) -> TaskJoinResultModel {
        TaskJoinResultModel {
            process: self.process,
            task: self.task,
            node: self.node,
            state: self.state,
            result: option_view(self.result),
            status_code: self.status_code,
            message: self.message,
        }
    }
}

} // verus!
