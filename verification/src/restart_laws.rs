//! What restarting a task is for: a task that has ended begins again from where it began, with what it had
//! then or with a replacement that has what its own environment requires.
use vstd::prelude::*;

use crate::automated_run::EnvironmentResource;
use crate::capability::{Capabilities, Capability};
use crate::ids::{Digest, UserId};
use crate::keys::{ProcessText, mapped_name};
use crate::main_laws::{lemma_joined, lemma_listed, names};
use crate::ordered_map::lookup;
use crate::restart::{ReplacementChecks, RestartFacts, RestartOutcome, RestartStep, TaskFailureResolution, TaskReplacementBundle, TaskRestart, ValidatedTaskReplacement, failure_resolved, is_replacement, is_task_restart, replacement_capabilities, replacement_checked, replacement_environment, restart_assigned, restart_begun, still_held};
use crate::service::CoordinatorServiceModel;
use crate::service_error::CoordinatorServiceError;
use crate::tasks::{TaskAssignment, TaskCompletionEvent, TaskDispatch, TaskSpec, TaskTerminalState};
use crate::text::{decimal, lemma_decimal_injective};
use crate::workflow_bundle::{base64_bytes, module_tasks};

verus! {

/// A replacement is of the bundle whose digest it names, defines the task, and requires each capability that
/// the task's descriptor lists and each that its environment requires, and no other.
pub proof fn replacements_require_what_their_task_and_environment_require(
    replacement: TaskReplacementBundle,
    task: Seq<char>,
    environment_id: Option<Seq<char>>,
    checks: ReplacementChecks,
    found: ValidatedTaskReplacement,
    capability: Capability,
)
    requires
        replacement_checked(replacement, task, environment_id, checks, Ok(found)),
    ensures
        found.bundle_digest@ == replacement.bundle_digest@,
        found.bundle_digest@ == checks.actual_digest@,
        found.wasm_module_base64@ == replacement.wasm_module_base64@,
        environment_id is Some <==> found.environment is Some,
        base64_bytes(replacement.wasm_module_base64@) matches Ok(module) && (module_tasks(
            module,
        ) matches Ok(tasks) && (lookup(tasks, task) matches Some(descriptor) && {
            &&& descriptor.abi_version == Some(checks.abi_version)
            &&& descriptor.export == Some(found.export@) && found.export@.len() > 0
            &&& descriptor.restart_compatibility is Some
            &&& checks.compatibility == Ok::<Digest, String>(found.restart_compatibility)
            &&& found.required_capabilities.holds(capability) <==> names(
                descriptor.required_capabilities,
                capability,
            ) || (found.environment matches Some(environment)
                && environment.requirements.capabilities.holds(capability))
        })),
        found.environment matches Some(environment) ==> found.environment_digest@
            == environment.digest@,
        found.environment is None ==> found.environment_digest@
            == checks.unconstrained_environment@,
{
    let module = base64_bytes(replacement.wasm_module_base64@)->Ok_0;
    let descriptor = lookup(module_tasks(module)->Ok_0, task)->Some_0;
    let placed = choose|placed: Result<
        Option<EnvironmentResource>,
        CoordinatorServiceError,
    >| #[trigger]
        replacement_environment(module, environment_id, checks.manifest, placed) && match placed {
            Err(fault) => Ok::<ValidatedTaskReplacement, CoordinatorServiceError>(found) == Err::<
                ValidatedTaskReplacement,
                CoordinatorServiceError,
            >(fault),
            Ok(environment) => is_replacement(
                found,
                replacement,
                descriptor,
                environment,
                checks,
            ),
        };
    assert(replacement_environment(module, environment_id, checks.manifest, placed));
    assert(!Capabilities::empty().holds(capability));
    let own = replacement_capabilities(descriptor)->Ok_0;
    match found.environment {
        Some(environment) => {
            lemma_joined(own, environment.requirements.capabilities, capability);
        },
        None => {},
    }
    match descriptor.required_capabilities {
        None => {},
        Some(items) => {
            lemma_listed(
                Capabilities::empty(),
                items,
                "replacement task capability is not a string"@,
                capability,
            );
        },
    }
}

/// A task begins again only where it has ended, is not the main that runs, was checkpointed, and everything
/// that it had is still retained, in the same form. It is asked for with the arguments that it had; with its
/// own entry, environment and interface where nothing replaces it.
pub proof fn tasks_begin_again_from_what_is_retained(
    s: CoordinatorServiceModel,
    key: ProcessText,
    task: Seq<char>,
    facts: RestartFacts,
    bundle: Option<TaskReplacementBundle>,
    checks: ReplacementChecks,
    r: Result<RestartStep, CoordinatorServiceError>,
    i: int,
)
    requires
        restart_begun(s, key, task, facts, bundle, checks, r),
    ensures
        r matches Ok(RestartStep::Decide(request, given)) ==> {
            &&& !(lookup(s.mains.controls, key) matches Some(control) && control.task_instance@ == task)
            &&& !facts.active_task && facts.completed_event_observed
            &&& facts.checkpoint matches Some(checkpoint)
            &&& request.task@ == task
            &&& request.serialized_args@ == checkpoint.boundary.serialized_args@
            &&& given is Some <==> bundle is Some
            &&& request.source_edited <==> bundle is Some
            &&& bundle is None ==> request.entrypoint@ == checkpoint.boundary.task_entrypoint@
                && request.environment_digest@ == checkpoint.boundary.environment_digest@
                && request.task_abi@ == checkpoint.boundary.task_abi@
            &&& given matches Some(found) ==> request.entrypoint@ == found.export@
                && request.environment_digest@ == found.environment_digest@ && request.task_abi@
                == found.restart_compatibility@
            &&& 0 <= i < checkpoint@.objects.len() ==> {
                let object = checkpoint@.objects[i];
                &&& lookup(
                    s.artifacts.artifacts,
                    (key.0, key.1, mapped_name(object.path@)),
                ) matches Some(metadata)
                &&& metadata.digest@ == object.digest@ && metadata.size == object.size
                &&& metadata.retaining_nodes != Set::<Seq<char>>::empty()
            }
        },
        facts.active_task ==> r matches Ok(RestartStep::Settled(text)),
        !facts.completed_event_observed ==> r matches Ok(RestartStep::Settled(text)),
{
    if r matches Ok(RestartStep::Decide(request, given)) {
        let checkpoint = facts.checkpoint->Some_0;
        if 0 <= i < checkpoint@.objects.len() {
            assert(still_held(s, key.0, key.1, checkpoint@.objects[i]));
        }
    }
}

/// A task that is assigned again goes to the same node, and writes its result where no earlier attempt did. It
/// is what it was, but for what a replacement changes: its code, its environment and what it requires.
pub proof fn a_task_that_begins_again_is_what_it_was(
    assignment: TaskAssignment,
    task: Seq<char>,
    attempts: u64,
    replacement: Option<ValidatedTaskReplacement>,
    source: Option<Digest>,
    rebound: Result<TaskSpec, String>,
    next: TaskAssignment,
    later: u64,
    again: TaskAssignment,
)
    requires
        restart_assigned(assignment, task, attempts, replacement, source, rebound, Ok(next)),
        restart_assigned(assignment, task, later, replacement, source, rebound, Ok(again)),
        attempts < later < u64::MAX,
    ensures
        next.node == assignment.node,
        next.task@ == task,
        next@.task_spec.task_instance@ == task,
        next.artifact_path@ != again.artifact_path@,
        replacement is None ==> {
            &&& next.wasm_module_base64 == assignment.wasm_module_base64
            &&& next@.task_spec.required_capabilities == assignment@.task_spec.required_capabilities
            &&& next@.task_spec.environment == assignment@.task_spec.environment
            &&& next@.task_spec.bundle_digest == assignment@.task_spec.bundle_digest
            &&& next@.task_spec.dispatch == assignment@.task_spec.dispatch
            &&& next@.task_spec.args == assignment@.task_spec.args
        },
        replacement matches Some(found) ==> {
            &&& next.wasm_module_base64 == found.wasm_module_base64
            &&& next@.task_spec.required_capabilities == found.required_capabilities
            &&& next@.task_spec.bundle_digest == Some(found.bundle_digest)
            &&& next@.task_spec.environment_digest == Some(found.environment_digest)
            &&& next@.task_spec.dispatch matches TaskDispatch::CoordinatorNodeWasm { export, abi }
                && export == Some(found.export)
            &&& assignment@.task_spec.source_snapshot is Some ==> source is Some
        },
{
    let lead = "/vfs/artifacts/"@ + task + "-attempt-"@;
    let tail = "-result.json"@;
    let x = decimal((attempts + 1) as nat);
    let y = decimal((later + 1) as nat);
    if next.artifact_path@ == again.artifact_path@ {
        let a = lead + x + tail;
        let b = lead + y + tail;
        assert(a.len() == b.len());
        assert(x.len() == y.len());
        assert(a.subrange(lead.len() as int, (lead.len() + x.len()) as int) =~= x);
        assert(b.subrange(lead.len() as int, (lead.len() + x.len()) as int) =~= y);
        lemma_decimal_injective((attempts + 1) as nat, (later + 1) as nat);
    }
}

/// One who asks for a restart is told that it was taken exactly where an attempt was begun, and under which
/// name; otherwise that the whole process is to be restarted.
pub proof fn restarts_are_answered_with_their_attempt(
    answer: TaskRestart,
    process: Seq<char>,
    task: Seq<char>,
    actor: Seq<char>,
    active: bool,
    completed: bool,
    outcome: RestartOutcome,
)
    requires
        is_task_restart(answer, process, task, actor, active, completed, outcome),
    ensures
        answer.accepted <==> answer.restarted_attempt_id is Some,
        answer.accepted <==> answer.restarted_task_instance is Some,
        answer.requires_whole_process_restart <==> !answer.accepted,
        answer.restarted_task_instance matches Some(same) ==> same@ == task,
        answer.process@ == process && answer.task@ == task && answer.actor@ == actor,
        answer.active_task == active,
        outcome is Settled ==> !answer.accepted && !answer.clean_boundary_available,
{
}

/// Only one who may debug the process decides on a task that failed. To accept the failure leaves it as it is;
/// to cancel it makes it cancelled, and nothing else of it changes.
pub proof fn an_operator_decides_on_a_failure(
    s: CoordinatorServiceModel,
    key: ProcessText,
    actor: UserId,
    resolution: TaskFailureResolution,
    attempt: Option<String>,
    event: Option<TaskCompletionEvent>,
    r: Result<(String, TaskCompletionEvent), CoordinatorServiceError>,
)
    requires
        failure_resolved(s, key, actor, resolution, attempt, event, r),
    ensures
        r is Ok ==> attempt is Some && event is Some && (lookup(
            s.coordinator.active_processes,
            key,
        ) is Some),
        r matches Ok((resolved, ended)) ==> {
            &&& Some(resolved) == attempt
            &&& resolution == TaskFailureResolution::AcceptFailure ==> ended@ == event->Some_0@
            &&& resolution == TaskFailureResolution::Cancel ==> ended@.terminal_state
                == TaskTerminalState::Cancelled && ended@.task == event->Some_0@.task && ended@.result
                == event->Some_0@.result && ended@.attempt_id == event->Some_0@.attempt_id
        },
{
}

} // verus!
