//! Restarting a task from where it was entered, perhaps with an edited module.
use vstd::prelude::*;
use vstd::string::*;

use crate::automated_run::EnvironmentResource;
use crate::capability::Capabilities;
use crate::debug::{DebugCharge, attach_reason, audited, debug_only, is_audit, with_audit};
use crate::debug_registry::DebugAuditEvent;
use crate::duplicate::{Duplicate, option_view, views};
use crate::ids::{ArtifactId, Digest, ProcessId, ProjectId, TaskDefinitionId, TaskInstanceId, TenantId, UserId};
use crate::keys::{ArtifactPathError, ProcessControlKey, ProcessText, artifact_id_from_path, mapped_name, process_control_key};
use crate::main_runtime::{listed_capabilities, read_capabilities};
use crate::ordered::OrderedKey;
use crate::ordered_map::{OrderedMap, lookup};
use crate::service::{CoordinatorService, CoordinatorServiceModel};
use crate::service_error::{CoordinatorServiceError, protocol, unauthorized};
use crate::tasks::{CheckpointBoundary, TaskAssignment, TaskAssignmentModel, TaskCheckpoint, TaskCheckpointModel, TaskCompletionEvent, TaskCompletionEventModel, TaskDispatch, TaskSpec, TaskSpecModel, TaskTerminalState, VfsObject, WasmExportAbi};
use crate::text::{concat2, concat3, concat4, concat5, decimal, decimal_text, starts_with, text_eq};
use crate::workflow_bundle::{Descriptor, DescriptorModel, base64_bytes, bundle_environments, decode_base64, environments_read, module_tasks, task_descriptors};

verus! {

/// An edited module for a task.
pub struct TaskReplacementBundle {
    pub bundle_digest: Digest,
    pub wasm_module_base64: String,
    pub source_snapshot: Option<Digest>,
}

impl View for TaskReplacementBundle {
    type V = TaskReplacementBundle;

    open spec fn view(&self) -> TaskReplacementBundle {
        *self
    }
}

/// What a task is to be restarted with. It is held against what it was entered with.
pub struct RestartRequest {
    pub task: TaskInstanceId,
    pub entrypoint: String,
    pub serialized_args: String,
    pub environment_digest: Digest,
    pub task_abi: Digest,
    pub source_edited: bool,
}

impl View for RestartRequest {
    type V = RestartRequest;

    open spec fn view(&self) -> RestartRequest {
        *self
    }
}

/// An edited module that fits its task.
pub struct ValidatedTaskReplacement {
    pub bundle_digest: Digest,
    pub wasm_module_base64: String,
    pub export: String,
    pub restart_compatibility: Digest,
    pub environment: Option<EnvironmentResource>,
    pub environment_digest: Digest,
    pub required_capabilities: Capabilities,
}

impl View for ValidatedTaskReplacement {
    type V = ValidatedTaskReplacement;

    open spec fn view(&self) -> ValidatedTaskReplacement {
        *self
    }
}

/// The answer to a user who restarts a task.
pub struct TaskRestart {
    pub process: ProcessId,
    pub task: TaskInstanceId,
    pub actor: UserId,
    pub restarted_task_instance: Option<TaskInstanceId>,
    pub restarted_attempt_id: Option<String>,
    pub accepted: bool,
    pub clean_boundary_available: bool,
    pub active_task: bool,
    pub completed_event_observed: bool,
    pub requires_whole_process_restart: bool,
    pub message: String,
    pub audit_event: DebugAuditEvent,
}

impl View for TaskRestart {
    type V = TaskRestart;

    open spec fn view(&self) -> TaskRestart {
        *self
    }
}

/// What is computed of an edited module outside: the digest of the module, the digest that its task
/// names for its restart, what its manifest holds, the version of tasks that this release knows,
/// and the digest that stands for no environment.
pub struct ReplacementChecks {
    pub actual_digest: Digest,
    pub compatibility: Result<Digest, String>,
    pub manifest: Result<Vec<EnvironmentResource>, String>,
    pub abi_version: u64,
    pub unconstrained_environment: Digest,
}

/// The capabilities that an edited module requires for a task, or why it names one that is none.
pub open spec fn replacement_capabilities(descriptor: DescriptorModel) -> Result<Capabilities, Seq<char>> {
    match descriptor.required_capabilities {
        None => Ok(Capabilities::empty()),
        Some(items) => listed_capabilities(
            Capabilities::empty(),
            items,
            "replacement task capability is not a string"@,
        ),
    }
}

/// Why an edited module is refused for what it says of a task, if it is.
pub open spec fn descriptor_refusal(descriptor: DescriptorModel, task: Seq<char>, abi_version: u64) -> Option<
    Seq<char>,
> {
    if descriptor.abi_version != Some(abi_version) {
        Some("replacement task `"@ + task + "` uses an unsupported task ABI"@)
    } else if descriptor.export is None || descriptor.export->Some_0.len() == 0 {
        Some("replacement task `"@ + task + "` omitted its export"@)
    } else if descriptor.restart_compatibility is None {
        Some("replacement task `"@ + task + "` omitted restart compatibility metadata"@)
    } else {
        None
    }
}

/// An edited module that fits its task.
pub open spec fn is_replacement(
    found: ValidatedTaskReplacement,
    replacement: TaskReplacementBundle,
    descriptor: DescriptorModel,
    environment: Option<EnvironmentResource>,
    checks: ReplacementChecks,
) -> bool {
    &&& found.bundle_digest@ == replacement.bundle_digest@
    &&& found.wasm_module_base64@ == replacement.wasm_module_base64@
    &&& Some(found.export@) == descriptor.export
    &&& checks.compatibility matches Ok(digest)
    &&& found.restart_compatibility == digest
    &&& found.environment == environment
    &&& found.environment_digest@ == (match environment {
        Some(environment) => environment.digest@,
        None => checks.unconstrained_environment@,
    })
    &&& replacement_capabilities(descriptor) matches Ok(own)
    &&& found.required_capabilities == (match environment {
        Some(environment) => own.joined(environment.requirements.capabilities),
        None => own,
    })
}

/// What comes of looking for an environment in an edited module.
pub open spec fn replacement_environment(
    module: Seq<u8>,
    environment_id: Option<Seq<char>>,
    manifest: Result<Vec<EnvironmentResource>, String>,
    r: Result<Option<EnvironmentResource>, CoordinatorServiceError>,
) -> bool {
    match environment_id {
        None => r == Ok::<Option<EnvironmentResource>, CoordinatorServiceError>(None),
        Some(id) => exists|found: Result<
            OrderedMap<String, EnvironmentResource>,
            CoordinatorServiceError,
        >| #[trigger]
            environments_read(module, manifest, found) && match found {
                Err(fault) => r == Err::<Option<EnvironmentResource>, CoordinatorServiceError>(
                    fault,
                ),
                Ok(environments) => match lookup(environments@, id) {
                    Some(environment) => r == Ok::<
                        Option<EnvironmentResource>,
                        CoordinatorServiceError,
                    >(Some(environment)),
                    None => r matches Err(error) && error.protests(
                        "replacement bundle has no environment `"@ + id + "`"@,
                    ),
                },
            },
    }
}

/// What comes of checking an edited module, once it is decoded.
pub open spec fn replacement_read(
    module: Seq<u8>,
    replacement: TaskReplacementBundle,
    task: Seq<char>,
    environment_id: Option<Seq<char>>,
    checks: ReplacementChecks,
    r: Result<ValidatedTaskReplacement, CoordinatorServiceError>,
) -> bool {
    match module_tasks(module) {
        Err(fault) => r matches Err(error) && error.reports(fault),
        Ok(tasks) => match lookup(tasks, task) {
            None => r matches Err(error) && error.protests(
                "replacement bundle has no task definition `"@ + task + "`"@,
            ),
            Some(descriptor) => if descriptor_refusal(descriptor, task, checks.abi_version) is Some {
                r matches Err(error) && error.protests(
                    descriptor_refusal(descriptor, task, checks.abi_version)->Some_0,
                )
            } else if checks.compatibility is Err {
                &&& r matches Err(CoordinatorServiceError::Json(text))
                &&& text@ == checks.compatibility->Err_0@
            } else if replacement_capabilities(descriptor) is Err {
                r matches Err(error) && error.protests(replacement_capabilities(descriptor)->Err_0)
            } else {
                replacement_placed(module, replacement, descriptor, environment_id, checks, r)
            },
        },
    }
}

/// An edited module fits its task, if it has the environment of the task.
pub open spec fn replacement_placed(
    module: Seq<u8>,
    replacement: TaskReplacementBundle,
    descriptor: DescriptorModel,
    environment_id: Option<Seq<char>>,
    checks: ReplacementChecks,
    r: Result<ValidatedTaskReplacement, CoordinatorServiceError>,
) -> bool {
    exists|placed: Result<Option<EnvironmentResource>, CoordinatorServiceError>| #[trigger]
        replacement_environment(module, environment_id, checks.manifest, placed) && match placed {
            Err(fault) => r == Err::<ValidatedTaskReplacement, CoordinatorServiceError>(fault),
            Ok(environment) => r matches Ok(found) && is_replacement(
                found,
                replacement,
                descriptor,
                environment,
                checks,
            ),
        }
}

/// What comes of checking an edited module.
pub open spec fn replacement_checked(
    replacement: TaskReplacementBundle,
    task: Seq<char>,
    environment_id: Option<Seq<char>>,
    checks: ReplacementChecks,
    r: Result<ValidatedTaskReplacement, CoordinatorServiceError>,
) -> bool {
    match base64_bytes(replacement.wasm_module_base64@) {
        Err(text) => r matches Err(error) && error.protests(
            "replacement task bundle is not valid base64: "@ + text,
        ),
        Ok(module) => if checks.actual_digest@ != replacement.bundle_digest@ {
            r matches Err(error) && error.protests(
                "replacement task bundle digest mismatch: expected "@ + replacement.bundle_digest@
                    + ", actual "@ + checks.actual_digest@,
            )
        } else {
            replacement_read(module, replacement, task, environment_id, checks, r)
        },
    }
}

fn find_environment(
    module: &Vec<u8>,
    environment_id: &Option<String>,
    manifest: Result<Vec<EnvironmentResource>, String>,
) -> (r: Result<Option<EnvironmentResource>, CoordinatorServiceError>)
    ensures
        replacement_environment(module@, option_view(*environment_id), manifest, r),
{
    match environment_id {
        None => Ok(None),
        Some(id) => {
            let found: Result<OrderedMap<String, EnvironmentResource>, CoordinatorServiceError> =
                bundle_environments(module, manifest);
            let ghost known = found;
            assert(environments_read(module@, manifest, known));
            assert(id.key() == id@);
            match found {
                Err(error) => Err(error),
                Ok(environments) => match environments.get(id) {
                    Some(environment) => Ok(Some(environment.duplicate())),
                    None => Err(
                        CoordinatorServiceError::Protocol(
                            concat3("replacement bundle has no environment `", id.as_str(), "`"),
                        ),
                    ),
                },
            }
        },
    }
}

/// Checks an edited module for a task.
pub fn validate_task_replacement(
    replacement: &TaskReplacementBundle,
    task_definition: &TaskDefinitionId,
    environment_id: &Option<String>,
    checks: ReplacementChecks,
) -> (r: Result<ValidatedTaskReplacement, CoordinatorServiceError>)
    ensures
        replacement_checked(
            *replacement,
            task_definition@,
            option_view(*environment_id),
            checks,
            r,
        ),
{
    let module: Vec<u8> = match decode_base64(replacement.wasm_module_base64.as_str()) {
        Ok(module) => module,
        Err(text) => {
            return Err(
                CoordinatorServiceError::Protocol(
                    concat2("replacement task bundle is not valid base64: ", text.as_str()),
                ),
            );
        },
    };
    if !text_eq(checks.actual_digest.as_str(), replacement.bundle_digest.as_str()) {
        return Err(
            CoordinatorServiceError::Protocol(
                concat4(
                    "replacement task bundle digest mismatch: expected ",
                    replacement.bundle_digest.as_str(),
                    ", actual ",
                    checks.actual_digest.as_str(),
                ),
            ),
        );
    }
    let tasks: OrderedMap<String, Descriptor> = match task_descriptors(&module) {
        Ok(tasks) => tasks,
        Err(error) => {
            return Err(error);
        },
    };
    assert(task_definition.key() == task_definition@);
    let descriptor: &Descriptor = match tasks.get(task_definition) {
        Some(descriptor) => descriptor,
        None => {
            return Err(
                CoordinatorServiceError::Protocol(
                    concat3(
                        "replacement bundle has no task definition `",
                        task_definition.as_str(),
                        "`",
                    ),
                ),
            );
        },
    };
    let version_fits: bool = match descriptor.abi_version {
        Some(version) => version == checks.abi_version,
        None => false,
    };
    if !version_fits {
        return Err(
            CoordinatorServiceError::Protocol(
                concat3(
                    "replacement task `",
                    task_definition.as_str(),
                    "` uses an unsupported task ABI",
                ),
            ),
        );
    }
    proof {
        reveal_strlit("");
    }
    let export: String = match &descriptor.export {
        Some(export) => {
            if text_eq(export.as_str(), "") {
                return Err(
                    CoordinatorServiceError::Protocol(
                        concat3(
                            "replacement task `",
                            task_definition.as_str(),
                            "` omitted its export",
                        ),
                    ),
                );
            }
            assert(export@.len() > 0) by {
                if export@.len() == 0 {
                    assert(export@ =~= ""@);
                }
            }
            export.clone()
        },
        None => {
            return Err(
                CoordinatorServiceError::Protocol(
                    concat3("replacement task `", task_definition.as_str(), "` omitted its export"),
                ),
            );
        },
    };
    if descriptor.restart_compatibility.is_none() {
        return Err(
            CoordinatorServiceError::Protocol(
                concat3(
                    "replacement task `",
                    task_definition.as_str(),
                    "` omitted restart compatibility metadata",
                ),
            ),
        );
    }
    let restart_compatibility: Digest = match &checks.compatibility {
        Ok(digest) => digest.clone(),
        Err(text) => {
            return Err(CoordinatorServiceError::Json(text.clone()));
        },
    };
    let own: Capabilities = match read_capabilities(
        &descriptor.required_capabilities,
        "replacement task capability is not a string",
    ) {
        Ok(own) => own,
        Err(reason) => {
            return Err(CoordinatorServiceError::Protocol(reason));
        },
    };
    let ghost manifest = checks.manifest;
    let placed: Result<Option<EnvironmentResource>, CoordinatorServiceError> = find_environment(
        &module,
        environment_id,
        checks.manifest,
    );
    let ghost known = placed;
    assert(replacement_environment(module@, option_view(*environment_id), manifest, known));
    let environment: Option<EnvironmentResource> = match placed {
        Ok(environment) => environment,
        Err(error) => {
            return Err(error);
        },
    };
    let required_capabilities: Capabilities = match &environment {
        Some(environment) => own.union(&environment.requirements.capabilities),
        None => own,
    };
    let environment_digest: Digest = match &environment {
        Some(environment) => environment.digest.clone(),
        None => checks.unconstrained_environment.clone(),
    };
    Ok(
        ValidatedTaskReplacement {
            bundle_digest: replacement.bundle_digest.clone(),
            wasm_module_base64: replacement.wasm_module_base64.clone(),
            export,
            restart_compatibility,
            environment,
            environment_digest,
            required_capabilities,
        },
    )
}

/// What a user who restarts a task is told while it is active as the main of its process.
pub open spec fn main_active_text() -> Seq<char> {
    "selected coordinator main is still active; restart the whole virtual process to rerun its capless entry boundary"@
}

/// What a user who restarts an active task is told.
pub open spec fn task_active_text() -> Seq<char> {
    "selected task is still active; wait for its terminal event or abort the whole virtual process before restarting from its clean entry boundary"@
}

/// What a user who restarts a task that never ended is told.
pub open spec fn task_unknown_text() -> Seq<char> {
    "selected task is not known in the active process; restart the whole virtual process or inspect task list"@
}

/// What a user who restarts a task without a boundary is told.
pub open spec fn no_boundary_text() -> Seq<char> {
    "selected task has terminal metadata but no captured clean VFS entry boundary; restart the whole virtual process"@
}

/// What a user who restarts a task whose files are gone is told.
pub open spec fn artifacts_gone_text() -> Seq<char> {
    "selected task checkpoint references VFS artifacts that are no longer retained; restart the whole virtual process"@
}

/// What is known of a task that is to be restarted: whether an attempt runs, whether one ended, and
/// what it was entered with. `checked_names` is what the check of the name of each file gave.
pub struct RestartFacts {
    pub active_task: bool,
    pub completed_event_observed: bool,
    pub checkpoint: Option<TaskCheckpoint>,
    pub checked_names: Vec<Result<(), String>>,
}

impl RestartFacts {
    /// Each file of the checkpoint has its check.
    pub open spec fn matched(&self) -> bool {
        self.checkpoint matches Some(checkpoint) ==> checkpoint.objects@.len()
            == self.checked_names@.len()
    }
}

/// What comes next for a task that is to be restarted: the user is told why it cannot be, or the
/// request is held against the checkpoint.
pub enum RestartStep {
    Settled(String),
    Decide(RestartRequest, Option<ValidatedTaskReplacement>),
}

/// Whether a task is the active main of its process.
pub open spec fn is_active_main(s: CoordinatorServiceModel, key: ProcessText, task: Seq<char>) -> bool {
    lookup(s.mains.controls, key) matches Some(control) && control.task_instance@ == task
}

/// Why the path of a file names no artifact, if it does not.
pub open spec fn path_fault(path: Seq<char>, checked: Result<(), String>) -> Option<Seq<char>> {
    if !starts_with(path, "/vfs/artifacts/"@) {
        Some(ArtifactPathError::WrongPrefix.text())
    } else if path == "/vfs/artifacts/"@ {
        Some(ArtifactPathError::EmptyArtifact.text())
    } else {
        match checked {
            Ok(_) => None,
            Err(reason) => Some(ArtifactPathError::InvalidArtifactId(reason).text()),
        }
    }
}

/// The first fault among the paths of files.
pub open spec fn first_path_fault(objects: Seq<VfsObject>, checked: Seq<Result<(), String>>) -> Option<
    Seq<char>,
>
    decreases objects.len(),
{
    if objects.len() == 0 {
        None
    } else if path_fault(objects[0].path@, checked[0]) is Some {
        path_fault(objects[0].path@, checked[0])
    } else {
        first_path_fault(objects.skip(1), checked.skip(1))
    }
}

/// A file is still held by some node, as it was.
pub open spec fn still_held(s: CoordinatorServiceModel, tenant: Seq<char>, project: Seq<char>, object: VfsObject) -> bool {
    lookup(s.artifacts.artifacts, (tenant, project, mapped_name(object.path@))) matches Some(
        metadata,
    ) && metadata.digest@ == object.digest@ && metadata.size == object.size
        && metadata.retaining_nodes != Set::<Seq<char>>::empty()
}

/// Every file is still held.
pub open spec fn all_held(s: CoordinatorServiceModel, tenant: Seq<char>, project: Seq<char>, objects: Seq<VfsObject>) -> bool {
    forall|i: int| 0 <= i < objects.len() ==> #[trigger] still_held(s, tenant, project, objects[i])
}

/// What a task is asked to be restarted with.
pub open spec fn is_restart_request(
    request: RestartRequest,
    task: Seq<char>,
    boundary: CheckpointBoundary,
    replacement: Option<ValidatedTaskReplacement>,
) -> bool {
    &&& request.task@ == task
    &&& request.serialized_args@ == boundary.serialized_args@
    &&& request.source_edited == replacement is Some
    &&& match replacement {
        None => {
            &&& request.entrypoint@ == boundary.task_entrypoint@
            &&& request.environment_digest@ == boundary.environment_digest@
            &&& request.task_abi@ == boundary.task_abi@
        },
        Some(replacement) => {
            &&& request.entrypoint@ == replacement.export@
            &&& request.environment_digest@ == replacement.environment_digest@
            &&& request.task_abi@ == replacement.restart_compatibility@
        },
    }
}

/// What comes of a request to restart a task with a checkpoint whose files are held.
pub open spec fn boundary_restarted(
    task: Seq<char>,
    checkpoint: TaskCheckpointModel,
    bundle: Option<TaskReplacementBundle>,
    checks: ReplacementChecks,
    r: Result<RestartStep, CoordinatorServiceError>,
) -> bool {
    match bundle {
        None => r matches Ok(RestartStep::Decide(request, None)) && is_restart_request(
            request,
            task,
            checkpoint.boundary,
            None,
        ),
        Some(bundle) => exists|found: Result<ValidatedTaskReplacement, CoordinatorServiceError>|
            #[trigger] replacement_checked(
                bundle,
                checkpoint.assignment.task_spec.task_definition@,
                option_view(checkpoint.assignment.task_spec.environment_id),
                checks,
                found,
            ) && match found {
                Err(fault) => r == Err::<RestartStep, CoordinatorServiceError>(fault),
                Ok(replacement) => r matches Ok(RestartStep::Decide(request, Some(given)))
                    && is_restart_request(request, task, checkpoint.boundary, Some(given)) && given
                    == replacement,
            },
    }
}

/// What comes of a request to restart a task, for a user who may.
pub open spec fn restart_begun(
    s: CoordinatorServiceModel,
    key: ProcessText,
    task: Seq<char>,
    facts: RestartFacts,
    bundle: Option<TaskReplacementBundle>,
    checks: ReplacementChecks,
    r: Result<RestartStep, CoordinatorServiceError>,
) -> bool {
    if is_active_main(s, key, task) {
        r matches Ok(RestartStep::Settled(text)) && text@ == main_active_text()
    } else if facts.active_task {
        r matches Ok(RestartStep::Settled(text)) && text@ == task_active_text()
    } else if !facts.completed_event_observed {
        r matches Ok(RestartStep::Settled(text)) && text@ == task_unknown_text()
    } else {
        match facts.checkpoint {
            None => r matches Ok(RestartStep::Settled(text)) && text@ == no_boundary_text(),
            Some(checkpoint) => match first_path_fault(
                checkpoint@.objects,
                facts.checked_names@,
            ) {
                Some(fault) => {
                    &&& r matches Err(CoordinatorServiceError::InvalidArtifactPath(text))
                    &&& text@ == fault
                },
                None => if !all_held(s, key.0, key.1, checkpoint@.objects) {
                    r matches Ok(RestartStep::Settled(text)) && text@ == artifacts_gone_text()
                } else {
                    boundary_restarted(task, checkpoint@, bundle, checks, r)
                },
            },
        }
    }
}

/// What a restart that is refused leaves behind: an event of the audit trail.
pub open spec fn restart_denied(
    before: CoordinatorServiceModel,
    after: CoordinatorServiceModel,
    key: ProcessText,
    task: Seq<char>,
    actor: UserId,
    charge: DebugCharge,
    error: CoordinatorServiceError,
) -> bool {
    &&& !attach_reason(before, key, actor).0
    &&& error.denies("task restart denied: "@ + attach_reason(before, key, actor).1)
    &&& debug_only(before, after)
    &&& is_audit(
        after.debug.audit_events.last(),
        key,
        Some(task),
        actor@,
        "restart_task"@,
        false,
        attach_reason(before, key, actor).1,
        charge.used_bytes,
    )
    &&& after.debug == with_audit(before.debug, after.debug.audit_events.last())
}

impl CoordinatorService {
    fn object_held(&self, tenant: &TenantId, project: &ProjectId, object: &VfsObject, artifact: &ArtifactId) -> (r: bool)
        requires
            artifact@ == mapped_name(object.path@),
        ensures
            r == still_held(self@, tenant@, project@, *object),
    {
        match self.artifact_registry.metadata(tenant, project, artifact) {
            Some(metadata) => {
                text_eq(metadata.digest.as_str(), object.digest.as_str()) && metadata.size
                    == object.size && !metadata.retaining_nodes.is_empty()
            },
            None => false,
        }
    }

    fn objects_held(
        &self,
        tenant: &TenantId,
        project: &ProjectId,
        objects: &Vec<VfsObject>,
        checked: &Vec<Result<(), String>>,
    ) -> (r: Result<bool, CoordinatorServiceError>)
        requires
            objects@.len() == checked@.len(),
        ensures
            match first_path_fault(objects@, checked@) {
                Some(fault) => {
                    &&& r matches Err(CoordinatorServiceError::InvalidArtifactPath(text))
                    &&& text@ == fault
                },
                None => r == Ok::<bool, CoordinatorServiceError>(
                    all_held(self@, tenant@, project@, objects@),
                ),
            },
    {
        let mut available: bool = true;
        let mut i: usize = 0;
        assert(objects@.skip(0) =~= objects@ && checked@.skip(0) =~= checked@);
        while i < objects.len()
            invariant
                i <= objects@.len(),
                objects@.len() == checked@.len(),
                first_path_fault(objects@, checked@) == first_path_fault(
                    objects@.skip(i as int),
                    checked@.skip(i as int),
                ),
                available == all_held(self@, tenant@, project@, objects@.take(i as int)),
            decreases objects@.len() - i,
        {
            assert(objects@.skip(i as int).skip(1) =~= objects@.skip(i + 1));
            assert(checked@.skip(i as int).skip(1) =~= checked@.skip(i + 1));
            assert(objects@.skip(i as int)[0] == objects@[i as int]);
            let name_checked: Result<(), String> = match &checked[i] {
                Ok(unit) => Ok(*unit),
                Err(reason) => Err(reason.clone()),
            };
            assert(checked@.skip(i as int)[0] == name_checked);
            let artifact: ArtifactId = match artifact_id_from_path(
                objects[i].path.as_str(),
                name_checked,
            ) {
                Ok(artifact) => artifact,
                Err(error) => {
                    return Err(CoordinatorServiceError::InvalidArtifactPath(error.message()));
                },
            };
            let held: bool = self.object_held(tenant, project, &objects[i], &artifact);
            proof {
                let before = objects@.take(i as int);
                let after = objects@.take(i + 1);
                assert(after[i as int] == objects@[i as int]);
                assert forall|j: int| 0 <= j < before.len() implies before[j] == after[j] by {}
                if available && held {
                    assert forall|j: int| 0 <= j < after.len() implies #[trigger] still_held(
                        self@,
                        tenant@,
                        project@,
                        after[j],
                    ) by {
                        if j < i {
                            assert(still_held(self@, tenant@, project@, before[j]));
                        }
                    }
                } else if !available {
                    let j = choose|j: int|
                        0 <= j < before.len() && !still_held(
                            self@,
                            tenant@,
                            project@,
                            #[trigger] before[j],
                        );
                    assert(!still_held(self@, tenant@, project@, after[j]));
                } else {
                    assert(!still_held(self@, tenant@, project@, after[i as int]));
                }
            }
            available = available && held;
            i = i + 1;
        }
        assert(objects@.take(objects@.len() as int) =~= objects@);
        Ok(available)
    }

    /// Begins to restart a task. Where it can be restarted, what it is restarted with is held against
    /// its checkpoint next.
    pub fn handle_restart_task(
        &mut self,
        tenant: &TenantId,
        project: &ProjectId,
        process: &ProcessId,
        task: &TaskInstanceId,
        actor: &UserId,
        facts: &RestartFacts,
        replacement_bundle: &Option<TaskReplacementBundle>,
        checks: ReplacementChecks,
        charge: &DebugCharge,
    ) -> (r: Result<RestartStep, CoordinatorServiceError>)
        requires
            facts.matched(),
        ensures
            ({
                let key = (tenant@, project@, process@);
                if attach_reason(old(self)@, key, *actor).0 {
                    &&& final(self)@ == old(self)@
                    &&& restart_begun(
                        old(self)@,
                        key,
                        task@,
                        *facts,
                        *replacement_bundle,
                        checks,
                        r,
                    )
                } else {
                    r matches Err(error) && restart_denied(
                        old(self)@,
                        final(self)@,
                        key,
                        task@,
                        *actor,
                        *charge,
                        error,
                    )
                }
            }),
    {
        let authorization = self.authorize_debug(tenant, project, process, actor);
        if !authorization.allowed {
            let selected: Option<TaskInstanceId> = Some(task.clone());
            let recorded: Result<DebugAuditEvent, CoordinatorServiceError> =
                self.record_debug_audit_event(
                tenant,
                project,
                process,
                &selected,
                actor,
                "restart_task",
                false,
                authorization.reason.as_str(),
                charge,
            );
            let text: String = concat2("task restart denied: ", authorization.reason.as_str());
            return Err(unauthorized(text.as_str()));
        }
        let key: ProcessControlKey = process_control_key(tenant, project, process);
        assert(key.key() == (tenant@, project@, process@));
        let active_main: bool = match self.main_runtime.controls.get(&key) {
            Some(control) => text_eq(control.task_instance.as_str(), task.as_str()),
            None => false,
        };
        if active_main {
            return Ok(
                RestartStep::Settled(
                    "selected coordinator main is still active; restart the whole virtual process to rerun its capless entry boundary".to_owned(),
                ),
            );
        }
        if facts.active_task {
            return Ok(
                RestartStep::Settled(
                    "selected task is still active; wait for its terminal event or abort the whole virtual process before restarting from its clean entry boundary".to_owned(),
                ),
            );
        }
        if !facts.completed_event_observed {
            return Ok(
                RestartStep::Settled(
                    "selected task is not known in the active process; restart the whole virtual process or inspect task list".to_owned(),
                ),
            );
        }
        let checkpoint: &TaskCheckpoint = match &facts.checkpoint {
            Some(checkpoint) => checkpoint,
            None => {
                return Ok(
                    RestartStep::Settled(
                        "selected task has terminal metadata but no captured clean VFS entry boundary; restart the whole virtual process".to_owned(),
                    ),
                );
            },
        };
        assert(views(checkpoint.objects@) =~= checkpoint.objects@);
        let available: bool = match self.objects_held(
            tenant,
            project,
            &checkpoint.objects,
            &facts.checked_names,
        ) {
            Ok(available) => available,
            Err(error) => {
                return Err(error);
            },
        };
        if !available {
            return Ok(
                RestartStep::Settled(
                    "selected task checkpoint references VFS artifacts that are no longer retained; restart the whole virtual process".to_owned(),
                ),
            );
        }
        let spec: &TaskSpec = &checkpoint.assignment.task_spec;
        let boundary: &CheckpointBoundary = &checkpoint.boundary;
        match replacement_bundle {
            None => Ok(
                RestartStep::Decide(
                    RestartRequest {
                        task: task.clone(),
                        entrypoint: boundary.task_entrypoint.clone(),
                        serialized_args: boundary.serialized_args.clone(),
                        environment_digest: boundary.environment_digest.clone(),
                        task_abi: boundary.task_abi.clone(),
                        source_edited: false,
                    },
                    None,
                ),
            ),
            Some(bundle) => {
                let ghost given = checks;
                let found: Result<ValidatedTaskReplacement, CoordinatorServiceError> =
                    validate_task_replacement(
                    bundle,
                    &spec.task_definition,
                    &spec.environment_id,
                    checks,
                );
                let ghost known = found;
                assert(replacement_checked(
                    *bundle,
                    checkpoint@.assignment.task_spec.task_definition@,
                    option_view(checkpoint@.assignment.task_spec.environment_id),
                    given,
                    known,
                ));
                let step: Result<RestartStep, CoordinatorServiceError> = match found {
                    Err(error) => Err(error),
                    Ok(replacement) => Ok(
                        RestartStep::Decide(
                            RestartRequest {
                                task: task.clone(),
                                entrypoint: replacement.export.clone(),
                                serialized_args: boundary.serialized_args.clone(),
                                environment_digest: replacement.environment_digest.clone(),
                                task_abi: replacement.restart_compatibility.clone(),
                                source_edited: true,
                            },
                            Some(replacement),
                        ),
                    ),
                };
                assert(known matches Err(fault) ==> step == Err::<
                    RestartStep,
                    CoordinatorServiceError,
                >(fault));
                assert(known matches Ok(replacement) ==> (step matches Ok(
                    RestartStep::Decide(request, Some(given)),
                ) && is_restart_request(request, task@, checkpoint@.boundary, Some(given)) && given
                    == replacement));
                assert(boundary_restarted(task@, checkpoint@, *replacement_bundle, given, step));
                step
            },
        }
    }
}

/// The path under which the next attempt of a task leaves its result.
pub open spec fn attempt_result_path(task: Seq<char>, attempt: nat) -> Seq<char> {
    "/vfs/artifacts/"@ + task + "-attempt-"@ + decimal(attempt) + "-result.json"@
}

/// The number of the attempt that follows as many as there were.
pub open spec fn next_attempt(attempts: u64) -> u64 {
    if attempts == u64::MAX {
        u64::MAX
    } else {
        (attempts + 1) as u64
    }
}

/// What a task runs once it is restarted.
pub open spec fn is_restarted_spec(
    spec: TaskSpecModel,
    before: TaskSpecModel,
    task: Seq<char>,
    replacement: Option<ValidatedTaskReplacement>,
) -> bool {
    &&& spec.task_instance@ == task
    &&& match replacement {
        None => spec == (TaskSpecModel { task_instance: spec.task_instance, ..before }),
        Some(replacement) => spec == (TaskSpecModel {
            task_instance: spec.task_instance,
            dispatch: TaskDispatch::CoordinatorNodeWasm {
                export: Some(replacement.export),
                abi: WasmExportAbi::TaskV1,
            },
            environment: match replacement.environment {
                Some(environment) => Some(environment.requirements),
                None => None,
            },
            environment_digest: Some(replacement.environment_digest),
            required_capabilities: replacement.required_capabilities,
            bundle_digest: Some(replacement.bundle_digest),
            ..before
        }),
    }
}

/// What is assigned when a task is restarted.
pub open spec fn is_restart_assignment(
    assignment: TaskAssignmentModel,
    before: TaskAssignmentModel,
    bound: TaskSpecModel,
    task: Seq<char>,
    attempts: u64,
    replacement: Option<ValidatedTaskReplacement>,
) -> bool {
    &&& assignment.node == before.node
    &&& assignment.task@ == task
    &&& is_restarted_spec(assignment.task_spec, bound, task, replacement)
    &&& assignment.artifact_path@ == attempt_result_path(task, next_attempt(attempts) as nat)
    &&& assignment.wasm_module_base64 == (match replacement {
        Some(replacement) => replacement.wasm_module_base64,
        None => before.wasm_module_base64,
    })
}

/// What comes of assigning a task once more.
pub open spec fn restart_assigned(
    assignment: TaskAssignment,
    task: Seq<char>,
    attempts: u64,
    replacement: Option<ValidatedTaskReplacement>,
    replacement_source: Option<Digest>,
    rebound: Result<TaskSpec, String>,
    r: Result<TaskAssignment, CoordinatorServiceError>,
) -> bool {
    if replacement is Some && assignment.task_spec.source_snapshot is Some {
        if replacement_source is None {
            r matches Err(error) && error.protests(
                "replacement task omitted the current SourceSnapshot for source-bound arguments"@,
            )
        } else {
            match rebound {
                Err(reason) => r matches Err(error) && error.protests(
                    "replacement task SourceSnapshot is invalid: "@ + reason@,
                ),
                Ok(spec) => r matches Ok(found) && is_restart_assignment(
                    found@,
                    assignment@,
                    spec@,
                    task,
                    attempts,
                    replacement,
                ),
            }
        }
    } else {
        r matches Ok(found) && is_restart_assignment(
            found@,
            assignment@,
            assignment@.task_spec,
            task,
            attempts,
            replacement,
        )
    }
}

/// What a task is assigned when it is restarted. An edited module of a task with a source has to bring
/// the source along; `rebound` is the task with that source in place of its own.
pub fn restart_assignment(
    assignment: TaskAssignment,
    task: &TaskInstanceId,
    attempts: u64,
    replacement: Option<ValidatedTaskReplacement>,
    replacement_source: &Option<Digest>,
    rebound: Result<TaskSpec, String>,
) -> (r: Result<TaskAssignment, CoordinatorServiceError>)
    ensures
        restart_assigned(
            assignment,
            task@,
            attempts,
            replacement,
            *replacement_source,
            rebound,
            r,
        ),
{
    let attempt: u64 = if attempts == u64::MAX {
        u64::MAX
    } else {
        attempts + 1
    };
    let number: String = decimal_text(attempt);
    let artifact_path: String = concat5(
        "/vfs/artifacts/",
        task.as_str(),
        "-attempt-",
        number.as_str(),
        "-result.json",
    );
    let mut assignment: TaskAssignment = assignment;
    assignment.task = task.clone();
    assignment.artifact_path = artifact_path;
    match replacement {
        None => {
            assignment.task_spec.task_instance = task.clone();
            Ok(assignment)
        },
        Some(replacement) => {
            if assignment.task_spec.source_snapshot.is_some() {
                if replacement_source.is_none() {
                    return Err(
                        protocol(
                            "replacement task omitted the current SourceSnapshot for source-bound arguments",
                        ),
                    );
                }
                match rebound {
                    Err(reason) => {
                        return Err(
                            CoordinatorServiceError::Protocol(
                                concat2(
                                    "replacement task SourceSnapshot is invalid: ",
                                    reason.as_str(),
                                ),
                            ),
                        );
                    },
                    Ok(spec) => {
                        assignment.task_spec = spec;
                    },
                }
            }
            assignment.task_spec.task_instance = task.clone();
            assignment.task_spec.dispatch = TaskDispatch::CoordinatorNodeWasm {
                export: Some(replacement.export),
                abi: WasmExportAbi::TaskV1,
            };
            assignment.task_spec.environment = match replacement.environment {
                Some(environment) => Some(environment.requirements),
                None => None,
            };
            assignment.task_spec.environment_digest = Some(replacement.environment_digest);
            assignment.task_spec.required_capabilities = replacement.required_capabilities;
            assignment.task_spec.bundle_digest = Some(replacement.bundle_digest);
            assignment.wasm_module_base64 = replacement.wasm_module_base64;
            Ok(assignment)
        },
    }
}

/// What became of a restart: the user is told why there is none, or the task was launched from the
/// boundary of an epoch, with `attempt` where the launch was accepted.
pub enum RestartOutcome {
    Settled(String),
    Launched { from_vfs_epoch: u64, attempt: Option<String> },
}

impl RestartOutcome {
    /// What the user is told.
    pub open spec fn text(&self, task: Seq<char>) -> Seq<char> {
        match *self {
            RestartOutcome::Settled(text) => text@,
            RestartOutcome::Launched { from_vfs_epoch, attempt } => "selected logical task "@ + task
                + " restarted as a new attempt from clean VFS entry boundary epoch "@ + decimal(
                from_vfs_epoch as nat,
            ) + "; unflushed task changes were discarded"@,
        }
    }

    /// The attempt that the launch began.
    pub open spec fn attempt(&self) -> Option<Seq<char>> {
        match *self {
            RestartOutcome::Settled(_) => None,
            RestartOutcome::Launched { from_vfs_epoch, attempt } => option_view(attempt),
        }
    }
}

/// The answer to a user who restarts a task.
pub open spec fn is_task_restart(
    answer: TaskRestart,
    process: Seq<char>,
    task: Seq<char>,
    actor: Seq<char>,
    active: bool,
    completed: bool,
    outcome: RestartOutcome,
) -> bool {
    &&& answer.process@ == process
    &&& answer.task@ == task
    &&& answer.actor@ == actor
    &&& option_view(answer.restarted_task_instance) == (if outcome.attempt() is Some {
        Some(task)
    } else {
        None
    })
    &&& option_view(answer.restarted_attempt_id) == outcome.attempt()
    &&& answer.accepted == outcome.attempt() is Some
    &&& answer.clean_boundary_available == outcome is Launched
    &&& answer.active_task == active
    &&& answer.completed_event_observed == completed
    &&& answer.requires_whole_process_restart == outcome.attempt() is None
    &&& answer.message@ == outcome.text(task)
}

impl CoordinatorService {
    /// Ends the restart of a task: it goes into the audit trail, and the user is answered.
    pub fn finish_task_restart(
        &mut self,
        tenant: &TenantId,
        project: &ProjectId,
        process: &ProcessId,
        task: &TaskInstanceId,
        actor: &UserId,
        active_task: bool,
        completed_event_observed: bool,
        outcome: RestartOutcome,
        charge: &DebugCharge,
    ) -> (r: Result<TaskRestart, CoordinatorServiceError>)
        ensures
            debug_only(old(self)@, final(self)@),
            ({
                let recorded = match r {
                    Ok(answer) => Ok(answer.audit_event),
                    Err(error) => Err(error),
                };
                audited(
                    old(self)@.debug,
                    final(self)@.debug,
                    (tenant@, project@, process@),
                    Some(task@),
                    actor@,
                    "restart_task"@,
                    true,
                    outcome.text(task@),
                    *charge,
                    recorded,
                )
            }),
            r matches Ok(answer) ==> is_task_restart(
                answer,
                process@,
                task@,
                actor@,
                active_task || is_active_main(old(self)@, (tenant@, project@, process@), task@),
                completed_event_observed,
                outcome,
            ),
    {
        let key: ProcessControlKey = process_control_key(tenant, project, process);
        assert(key.key() == (tenant@, project@, process@));
        let active_main: bool = match self.main_runtime.controls.get(&key) {
            Some(control) => text_eq(control.task_instance.as_str(), task.as_str()),
            None => false,
        };
        let ghost given = outcome;
        let launched: bool = match &outcome {
            RestartOutcome::Settled(_) => false,
            RestartOutcome::Launched { .. } => true,
        };
        let (message, attempt): (String, Option<String>) = match outcome {
            RestartOutcome::Settled(text) => (text, None),
            RestartOutcome::Launched { from_vfs_epoch, attempt } => {
                let epoch: String = decimal_text(from_vfs_epoch);
                let text: String = concat5(
                    "selected logical task ",
                    task.as_str(),
                    " restarted as a new attempt from clean VFS entry boundary epoch ",
                    epoch.as_str(),
                    "; unflushed task changes were discarded",
                );
                (text, attempt)
            },
        };
        assert(message@ == given.text(task@));
        let selected: Option<TaskInstanceId> = Some(task.clone());
        match self.record_debug_audit_event(
            tenant,
            project,
            process,
            &selected,
            actor,
            "restart_task",
            true,
            message.as_str(),
            charge,
        ) {
            Err(error) => Err(error),
            Ok(audit_event) => {
                let accepted: bool = attempt.is_some();
                Ok(
                    TaskRestart {
                        process: process.clone(),
                        task: task.clone(),
                        actor: actor.clone(),
                        restarted_task_instance: if accepted {
                            Some(task.clone())
                        } else {
                            None
                        },
                        restarted_attempt_id: attempt,
                        accepted,
                        clean_boundary_available: launched,
                        active_task: active_task || active_main,
                        completed_event_observed,
                        requires_whole_process_restart: !accepted,
                        message,
                        audit_event,
                    },
                )
            },
        }
    }
}

/// What an operator decides of a task that failed.
#[derive(Clone, Copy, Debug, PartialEq, Eq, Structural)]
pub enum TaskFailureResolution {
    AcceptFailure,
    Cancel,
}

/// How a task that failed is told of once an operator has decided.
pub open spec fn is_resolved_event(
    event: TaskCompletionEventModel,
    before: TaskCompletionEventModel,
    resolution: TaskFailureResolution,
) -> bool {
    match resolution {
        TaskFailureResolution::AcceptFailure => event == before,
        TaskFailureResolution::Cancel => {
            &&& event.stderr_tail@ == "operator cancelled task after failure"@
            &&& event == (TaskCompletionEventModel {
                terminal_state: TaskTerminalState::Cancelled,
                stderr_tail: event.stderr_tail,
                ..before
            })
        },
    }
}

/// What comes of deciding on a task that failed.
pub open spec fn failure_resolved(
    s: CoordinatorServiceModel,
    key: ProcessText,
    actor: UserId,
    resolution: TaskFailureResolution,
    attempt: Option<String>,
    event: Option<TaskCompletionEvent>,
    r: Result<(String, TaskCompletionEvent), CoordinatorServiceError>,
) -> bool {
    let cause = attach_reason(s, key, actor);
    if !cause.0 {
        r matches Err(error) && error.denies("task failure resolution denied: "@ + cause.1)
    } else if attempt is None {
        r matches Err(error) && error.protests("task is not failed awaiting operator action"@)
    } else if event is None {
        r matches Err(error) && error.protests("failed attempt terminal event is unavailable"@)
    } else {
        &&& r matches Ok((resolved, ended))
        &&& resolved == attempt->Some_0
        &&& is_resolved_event(ended@, event->Some_0@, resolution)
    }
}

impl CoordinatorService {
    /// Decides what a task that failed ended as. `attempt` is the attempt that awaited a decision, and
    /// `event` how it had ended. The event that is to be recorded comes back.
    pub fn handle_resolve_task_failure(
        &self,
        tenant: &TenantId,
        project: &ProjectId,
        process: &ProcessId,
        actor: &UserId,
        resolution: TaskFailureResolution,
        attempt: Option<String>,
        event: Option<TaskCompletionEvent>,
    ) -> (r: Result<(String, TaskCompletionEvent), CoordinatorServiceError>)
        ensures
            failure_resolved(
                self@,
                (tenant@, project@, process@),
                *actor,
                resolution,
                attempt,
                event,
                r,
            ),
    {
        let authorization = self.authorize_debug(tenant, project, process, actor);
        if !authorization.allowed {
            let text: String = concat2(
                "task failure resolution denied: ",
                authorization.reason.as_str(),
            );
            return Err(unauthorized(text.as_str()));
        }
        let attempt_id: String = match attempt {
            Some(attempt_id) => attempt_id,
            None => {
                return Err(protocol("task is not failed awaiting operator action"));
            },
        };
        let mut ended: TaskCompletionEvent = match event {
            Some(event) => event,
            None => {
                return Err(protocol("failed attempt terminal event is unavailable"));
            },
        };
        match resolution {
            TaskFailureResolution::AcceptFailure => {},
            TaskFailureResolution::Cancel => {
                ended.terminal_state = TaskTerminalState::Cancelled;
                ended.stderr_tail = "operator cancelled task after failure".to_owned();
            },
        }
        Ok((attempt_id, ended))
    }
}

} // verus!
