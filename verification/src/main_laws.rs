//! What a coordinator main is for: it runs without any authority of its own, and starts children that have
//! what their task and their environment require.
use vstd::prelude::*;

use crate::automated_run::EnvironmentResource;
use crate::automation::ProcessFinalResult;
use crate::capability::{Capabilities, Capability, capability_of};
use crate::duplicate::option_view;
use crate::keys::{ProcessText, TaskText};
use crate::logs::{ArtifactClaim, ProcessFacts, ProcessRetirement};
use crate::main_runtime::{CoordinatorMainHost, CoordinatorMainRuntime, CoordinatorMainRuntimeModel, JoinAnswer, MainCommand, MainEnding, MainLaunch, MainRefusal, MainResult, MainScope, MainState, MainStep, Publication, TaskStartRequestModel, child_asked_for, descriptor_capabilities, is_child_spec, is_join_answer, is_main_event, is_notice, is_step, listed_capabilities, main_ended, main_launched, main_outcome, main_refused, snapshots_of, woken};
use crate::ordered_map::{ascending, lemma_lookup_delete, lemma_lookup_put, lookup};
use crate::service::CoordinatorServiceModel;
use crate::tasks::{TaskBoundaryValue, TaskBoundaryValueModel, TaskCompletionEventModel, TaskJoinResultModel, TaskJoinState, TaskSpec, TaskTerminalState};
use crate::text::{decimal, lemma_decimal_injective};

verus! {

/// A word names a capability.
#[verifier::opaque]
pub open spec fn is_word_of(item: Option<Seq<char>>, capability: Capability) -> bool {
    item matches Some(word) && capability_of(word) == Ok::<Capability, Seq<char>>(capability)
}

/// One of some words names a capability.
pub open spec fn one_names(items: Seq<Option<Seq<char>>>, capability: Capability) -> bool {
    exists|i: int| 0 <= i < items.len() && is_word_of(#[trigger] items[i], capability)
}

/// A list of words, where there is one, names a capability.
pub open spec fn names(list: Option<Seq<Option<Seq<char>>>>, capability: Capability) -> bool {
    list is Some && one_names(list->Some_0, capability)
}

proof fn lemma_with(found: Capabilities, first: Capability, capability: Capability)
    ensures
        found.with(first).holds(capability) <==> found.holds(capability) || first == capability,
{
}

/// Two sets together hold what either holds.
pub proof fn lemma_joined(a: Capabilities, b: Capabilities, capability: Capability)
    ensures
        a.joined(b).holds(capability) <==> a.holds(capability) || b.holds(capability),
{
}

proof fn lemma_first(items: Seq<Option<Seq<char>>>, capability: Capability)
    requires
        items.len() > 0,
    ensures
        one_names(items, capability) <==> is_word_of(items[0], capability) || one_names(
            items.skip(1),
            capability,
        ),
{
    let rest = items.skip(1);
    if one_names(rest, capability) {
        let i = choose|i: int| 0 <= i < rest.len() && is_word_of(#[trigger] rest[i], capability);
        assert(items[i + 1] == rest[i]);
    }
    if one_names(items, capability) {
        let i = choose|i: int| 0 <= i < items.len() && is_word_of(#[trigger] items[i], capability);
        if i > 0 {
            assert(rest[i - 1] == items[i]);
        }
    }
}

/// A list of words gives exactly the capabilities that it names.
#[verifier::spinoff_prover]
#[verifier::rlimit(50)]
pub proof fn lemma_listed(
    found: Capabilities,
    items: Seq<Option<Seq<char>>>,
    absent: Seq<char>,
    capability: Capability,
)
    requires
        listed_capabilities(found, items, absent) is Ok,
    ensures
        listed_capabilities(found, items, absent)->Ok_0.holds(capability) <==> found.holds(capability)
            || one_names(items, capability),
    decreases items.len(),
{
    if items.len() > 0 {
        let first = capability_of(items[0]->Some_0)->Ok_0;
        lemma_listed(found.with(first), items.skip(1), absent, capability);
        lemma_first(items, capability);
        lemma_with(found, first, capability);
        assert(is_word_of(items[0], capability) <==> first == capability) by {
            reveal(is_word_of);
        }
    }
}

/// A child requires each capability that its task's descriptor lists and each that its environment requires,
/// and no other.
pub proof fn children_require_what_their_task_and_environment_require(
    host: CoordinatorMainHost,
    request: TaskStartRequestModel,
    check: Result<(), String>,
    aborted: bool,
    handle_count: usize,
    now: u64,
    spec: TaskSpec,
    capability: Capability,
)
    requires
        child_asked_for(host, request, check, aborted, handle_count, now, Ok(spec)),
    ensures
        lookup(host.task_descriptors@, request.task_definition@) matches Some(descriptor) && {
            let of_environment = request.environment_id matches Some(id) && (lookup(
                host.environments@,
                id@,
            ) matches Some(environment) && environment.requirements.capabilities.holds(capability));
            spec@.required_capabilities.holds(capability) <==> names(
                descriptor.required_capabilities,
                capability,
            ) || of_environment
        },
        request.environment_id matches Some(id) ==> (lookup(
            host.environments@,
            id@,
        ) matches Some(environment) && spec@.environment == Some(environment.requirements)
            && spec@.environment_digest->Some_0@ == environment.digest@),
        request.environment_id is None ==> spec@.environment is None && spec@.environment_digest is None,
{
    let snapshot = choose|snapshot: Option<Seq<char>>| #[trigger]
        is_child_spec(spec@, host, request, snapshot);
    let descriptor = lookup(host.task_descriptors@, request.task_definition@)->Some_0;
    assert(!Capabilities::empty().holds(capability));
    match request.environment_id {
        None => {},
        Some(id) => {
            let environment = lookup(host.environments@, id@)->Some_0;
            lemma_joined(
                descriptor_capabilities(descriptor)->Ok_0,
                environment.requirements.capabilities,
                capability,
            );
        },
    }
    match descriptor.required_capabilities {
        None => {},
        Some(items) => {
            lemma_listed(
                Capabilities::empty(),
                items,
                "task capability descriptor is not a string"@,
                capability,
            );
        },
    }
}

/// The word by which a capability is written.
pub open spec fn written(capability: Capability) -> Seq<char> {
    match capability {
        Capability::Command => "command"@,
        Capability::RootlessPodman => "rootless_podman"@,
        Capability::ContainerdNerdctl => "containerd_nerdctl"@,
        Capability::SourceGit => "source_git"@,
        Capability::SourceFilesystem => "source_filesystem"@,
        Capability::Network => "network"@,
        Capability::HostFilesystem => "host_filesystem"@,
        Capability::Secrets => "secrets"@,
        Capability::InboundPorts => "inbound_ports"@,
        Capability::ArbitrarySyscalls => "arbitrary_syscalls"@,
        Capability::VfsArtifacts => "vfs_artifacts"@,
        Capability::WindowsCommandDev => "windows_command_dev"@,
        Capability::ArtifactTransfer => "artifact_transfer"@,
    }
}

/// Whichever way a word is spelt, it names a capability only where it is the word of that capability.
pub proof fn words_name_their_capability(word: Seq<char>, capability: Capability)
    requires
        capability_of(word) == Ok::<Capability, Seq<char>>(capability),
    ensures
        crate::text::lowercase(word) == written(capability),
{
}

/// A child belongs to its main: it is of the same process, epoch and bundle, and has an identifier of its
/// own, which no other child of that main has. It gets its arguments, its secrets and its policy as asked.
pub proof fn children_belong_to_their_main(
    host: CoordinatorMainHost,
    request: TaskStartRequestModel,
    check: Result<(), String>,
    aborted: bool,
    handle_count: usize,
    now: u64,
    spec: TaskSpec,
    later_host: CoordinatorMainHost,
    later_request: TaskStartRequestModel,
    later_spec: TaskSpec,
)
    requires
        child_asked_for(host, request, check, aborted, handle_count, now, Ok(spec)),
        child_asked_for(later_host, later_request, check, aborted, handle_count, now, Ok(later_spec)),
        later_host.scope == host.scope,
    ensures
        spec@.tenant@ == host.scope.tenant@,
        spec@.project@ == host.scope.project@,
        spec@.process@ == host.scope.process@,
        spec@.vfs_epoch == host.scope.epoch,
        spec@.task_definition@ == request.task_definition@,
        spec@.bundle_digest matches Some(digest) && digest@ == host.bundle_digest@,
        spec@.args == request.args,
        spec@.requested_secrets == request.requested_secrets,
        spec@.failure_policy == request.failure_policy,
        spec@.task_instance@ == later_spec@.task_instance@ <==> host.next_handle_id
            == later_host.next_handle_id,
        check is Ok,
        !aborted,
{
    let a = choose|snapshot: Option<Seq<char>>| #[trigger]
        is_child_spec(spec@, host, request, snapshot);
    let b = choose|snapshot: Option<Seq<char>>| #[trigger]
        is_child_spec(later_spec@, later_host, later_request, snapshot);
    let lead = host.scope.task_instance@ + ":child:"@;
    let x = decimal(host.next_handle_id as nat);
    let y = decimal(later_host.next_handle_id as nat);
    assert(spec@.task_instance@ == lead + x);
    assert(later_spec@.task_instance@ == lead + y);
    assert((lead + x).skip(lead.len() as int) =~= x);
    assert((lead + y).skip(lead.len() as int) =~= y);
    if lead + x == lead + y {
        lemma_decimal_injective(host.next_handle_id as nat, later_host.next_handle_id as nat);
    }
}

/// A child waits for every artifact that one of its arguments refers to, and for no other.
pub proof fn children_wait_for_the_artifacts_of_their_arguments(
    host: CoordinatorMainHost,
    request: TaskStartRequestModel,
    check: Result<(), String>,
    aborted: bool,
    handle_count: usize,
    now: u64,
    spec: TaskSpec,
    artifact: Seq<char>,
)
    requires
        child_asked_for(host, request, check, aborted, handle_count, now, Ok(spec)),
    ensures
        spec@.required_artifacts.contains(artifact) <==> exists|i: int|
            0 <= i < request.args.len() && (#[trigger] request.args[i]).required_artifacts.contains(
                artifact,
            ),
{
    let snapshot = choose|snapshot: Option<Seq<char>>| #[trigger]
        is_child_spec(spec@, host, request, snapshot);
    assert(is_child_spec(spec@, host, request, snapshot));
    let all = crate::main_runtime::artifacts_of(request.args);
    assert(all.contains(artifact) <==> spec@.required_artifacts.contains(artifact));
}

/// Some argument refers to a snapshot of a source.
pub open spec fn refers_to(args: Seq<TaskBoundaryValueModel>, snapshot: Seq<char>) -> bool {
    exists|i: int|
        0 <= i < args.len() && (#[trigger] args[i]).source_snapshots.contains(snapshot)
}

/// A child works on the source that its arguments refer to. Where they refer to none, it works on the source
/// of its main if it requires the files of one, and on none otherwise. A revision is told only with its own
/// snapshot.
pub proof fn children_work_on_the_source_of_their_arguments(
    host: CoordinatorMainHost,
    request: TaskStartRequestModel,
    check: Result<(), String>,
    aborted: bool,
    handle_count: usize,
    now: u64,
    spec: TaskSpec,
    snapshot: Seq<char>,
)
    requires
        child_asked_for(host, request, check, aborted, handle_count, now, Ok(spec)),
    ensures
        refers_to(request.args, snapshot) ==> (spec@.source_snapshot matches Some(own) && own@
            == snapshot),
        (forall|s: Seq<char>| !refers_to(request.args, s)) ==> {
            if spec@.required_capabilities.holds(Capability::SourceFilesystem) {
                &&& spec@.source_revision == host.source_revision
                &&& host.source_revision is None ==> option_view(spec@.source_snapshot)
                    == option_view(host.source_snapshot)
            } else {
                spec@.source_snapshot is None && spec@.source_revision is None
            }
        },
        spec@.source_revision matches Some(revision) ==> {
            &&& host.source_revision == Some(revision)
            &&& spec@.source_snapshot matches Some(own) && own@ == revision.source_snapshot@
        },
{
    let named = choose|s: Option<Seq<char>>| #[trigger] is_child_spec(spec@, host, request, s);
    let all = snapshots_of(request.args);
    assert forall|s: Seq<char>| refers_to(request.args, s) <==> all.contains(s) by {
        if refers_to(request.args, s) {
            let i = choose|i: int|
                0 <= i < request.args.len() && (#[trigger] request.args[i]).source_snapshots.contains(
                    s,
                );
            assert(request.args[i].source_snapshots.contains(s));
        }
        if all.contains(s) {
            let i = choose|i: int|
                0 <= i < request.args.len() && (#[trigger] request.args[i]).source_snapshots.contains(
                    s,
                );
            assert(request.args[i].source_snapshots.contains(s));
        }
    }
    if refers_to(request.args, snapshot) {
        assert(all.contains(snapshot));
    }
    match named {
        Some(text) => {
            assert(set![text].contains(text));
            assert(refers_to(request.args, text));
        },
        None => {},
    }
}

/// A main is woken no more often than it may be in a minute: what is refused was refused because that many
/// wakes were counted in the minute, and a wake that is let in is counted.
pub proof fn mains_are_woken_no_more_often_than_they_may(
    host: CoordinatorMainHost,
    after: CoordinatorMainHost,
    request: TaskStartRequestModel,
    handle_count: usize,
    now: u64,
    r: Result<TaskSpec, String>,
)
    requires
        woken(host, after, now),
        child_asked_for(host, request, Ok(()), false, handle_count, now, r),
        host.wake_rate.used <= host.wake_rate.maximum_per_minute,
    ensures
        after.wake_rate.maximum_per_minute == host.wake_rate.maximum_per_minute,
        after.wake_rate.used <= after.wake_rate.maximum_per_minute,
        now < host.wake_rate.window_started + 60_000 && host.wake_rate.used
            == host.wake_rate.maximum_per_minute ==> r is Err,
        now < host.wake_rate.window_started + 60_000 && host.wake_rate.used
            < host.wake_rate.maximum_per_minute ==> after.wake_rate.used == host.wake_rate.used + 1
            && after.wake_rate.window_started == host.wake_rate.window_started,
        now >= host.wake_rate.window_started + 60_000 && host.wake_rate.maximum_per_minute > 0
            ==> after.wake_rate.used == 1 && after.wake_rate.window_started == now,
        r is Ok ==> after.wake_rate.used >= 1,
        after.next_handle_id == host.next_handle_id,
{
}

/// A main is launched only for an active process that has none, while there is room for one more, in the
/// epoch of the process and from the module of its digest. It has no authority: no environment, no
/// capability, no artifact and no argument.
pub proof fn mains_are_launched_without_authority(
    before: CoordinatorServiceModel,
    after: CoordinatorServiceModel,
    tenant: Seq<char>,
    project: Seq<char>,
    spec: TaskSpec,
    wasm_module_base64: Seq<char>,
    actual_digest: Seq<char>,
    invocation: Result<(), String>,
    manifest: Result<Vec<EnvironmentResource>, String>,
    launch: MainLaunch,
    capability: Capability,
    other: ProcessText,
)
    requires
        ascending(before.mains.controls),
        main_launched(
            before,
            after,
            tenant,
            project,
            spec@,
            wasm_module_base64,
            actual_digest,
            invocation,
            manifest,
            Ok(launch),
        ),
    ensures
        ({
            let key = (tenant, project, spec.process@);
            &&& lookup(before.coordinator.active_processes, key) matches Some(active)
                && spec.vfs_epoch == active.coordinator_epoch
            &&& lookup(before.mains.controls, key) is None
            &&& before.mains.controls.len() < before.mains.limits.max_active_mains
            &&& spec.tenant@ == tenant && spec.project@ == project
            &&& spec.environment_id is None && spec.environment is None
            &&& !spec.required_capabilities.holds(capability)
            &&& spec@.required_artifacts.len() == 0 && spec@.args.len() == 0
            &&& spec@.bundle_digest matches Some(digest) && digest@ == actual_digest
            &&& invocation is Ok
            &&& launch.scope.tenant@ == tenant && launch.scope.project@ == project
            &&& launch.scope.process@ == spec.process@ && launch.scope.epoch == spec.vfs_epoch
            &&& lookup(after.mains.controls, key) matches Some(control)
            &&& control.launch_id == launch.scope.launch_id
            &&& control.state == MainState::Running && !control.abort
            &&& control.task_instance@ == launch.scope.task_instance@
            &&& other != key ==> lookup(after.mains.controls, other) == lookup(
                before.mains.controls,
                other,
            )
            &&& after.coordinator == before.coordinator
            &&& CoordinatorMainRuntime::is_current(after.mains, launch.scope)
        }),
{
    broadcast use lemma_lookup_put;

    assert(spec@.required_capabilities.lacks_all());
}

/// A launch that is refused ends its process, unless the process had a main already: then nothing changes.
pub proof fn a_refused_launch_ends_the_process(
    before: CoordinatorServiceModel,
    after: CoordinatorServiceModel,
    key: ProcessText,
    refusal: MainRefusal,
    other: ProcessText,
)
    requires
        ascending(before.coordinator.active_processes),
        main_refused(before, after, key, refusal),
    ensures
        lookup(before.mains.controls, key) is Some ==> after == before && !refusal.process_failed,
        lookup(before.mains.controls, key) is None ==> refusal.process_failed && lookup(
            after.coordinator.active_processes,
            key,
        ) is None,
        other != key ==> lookup(after.coordinator.active_processes, other) == lookup(
            before.coordinator.active_processes,
            other,
        ),
        after.coordinator.durable == before.coordinator.durable,
{
    broadcast use lemma_lookup_delete;

}

/// A main has completed exactly where it says so, without a fault, and its result keeps to the limits. Where
/// it has not, its process ends at once, its debugging with it, and every active task of the process is to be
/// aborted, and no other. Where it has, no task is aborted, and the process goes on while there is work.
pub proof fn a_main_that_does_not_complete_ends_its_process(
    before: CoordinatorServiceModel,
    after: CoordinatorServiceModel,
    scope: MainScope,
    check: Result<(), String>,
    result: Result<MainResult, String>,
    publication: Option<Publication>,
    facts: ProcessFacts,
    claims: Seq<ArtifactClaim>,
    active: Set<TaskText>,
    event: TaskCompletionEventModel,
    ending: MainEnding,
    task: TaskText,
)
    requires
        ascending(before.coordinator.active_processes),
        ascending(before.mains.controls),
        ascending(before.debug.epochs),
        is_main_event(event, scope, main_outcome(before.mains.limits, check, result)),
        main_ended(
            before,
            after,
            (scope.tenant@, scope.project@, scope.process@),
            main_outcome(before.mains.limits, check, result),
            publication,
            facts,
            claims,
            active,
            ending,
        ),
    ensures
        ({
            let key = (scope.tenant@, scope.project@, scope.process@);
            let completed = event.terminal_state == TaskTerminalState::Completed;
            &&& completed ==> check is Ok && (result matches Ok(found) && found.completed)
            &&& (check is Ok && (result matches Ok(found) && found.completed && found.error is None
                && found.result is None)) ==> completed
            &&& !completed ==> event.terminal_state == TaskTerminalState::Failed && event.result is None
            &&& completed ==> event.result == option_view(result->Ok_0.result)
            &&& lookup(after.mains.controls, key) is None
            &&& ending.abort_process <==> !completed
            &&& ending.aborted_tasks@.contains(task) <==> !completed && active.contains(task)
                && task.0 == key.0 && task.1 == key.1 && task.2 == key.2
            &&& !completed ==> {
                &&& ending.retirement == ProcessRetirement::Ended(ProcessFinalResult::Failed)
                &&& lookup(after.coordinator.active_processes, key) is None
                &&& lookup(after.debug.epochs, key) is None
            }
            &&& completed && facts.runnable_remote_work ==> {
                &&& ending.retirement == ProcessRetirement::GoesOn
                &&& lookup(after.coordinator.active_processes, key) == lookup(
                    before.coordinator.active_processes,
                    key,
                )
                &&& after.debug == before.debug
            }
            &&& completed && !facts.runnable_remote_work && lookup(
                before.coordinator.active_processes,
                key,
            ) is Some ==> {
                &&& lookup(after.coordinator.active_processes, key) is None
                &&& ending.retirement matches ProcessRetirement::Ended(how)
                &&& how == ProcessFinalResult::Cancelled <==> facts.cancelled || (
                !facts.any_task_failed && facts.any_task_cancelled)
                &&& how == ProcessFinalResult::Failed <==> !facts.cancelled && facts.any_task_failed
            }
        }),
{
    broadcast use lemma_lookup_delete;

}

/// A main that joins a task learns its result exactly where the task has completed with one, an error where
/// it has failed or was cancelled, and waits while it is under way; who waits learns the same of its end.
pub proof fn joining_tells_how_the_task_ended(
    join: TaskJoinResultModel,
    answer: JoinAnswer,
    event: TaskCompletionEventModel,
    notice: Result<TaskBoundaryValue, String>,
)
    requires
        is_join_answer(join, answer),
        is_notice(event, notice),
    ensures
        answer is Waiting <==> join.state == TaskJoinState::Pending,
        answer matches JoinAnswer::Ready(found) ==> {
            &&& found is Ok <==> join.state == TaskJoinState::Completed && join.result is Some
            &&& found matches Ok(value) ==> Some(value@) == join.result
            &&& join.state == TaskJoinState::Failed || join.state == TaskJoinState::Cancelled
                ==> found->Err_0@ == join.message@
        },
        notice is Ok <==> event.terminal_state == TaskTerminalState::Completed
            && event.result is Some,
        notice matches Ok(value) ==> Some(value@) == event.result,
        event.terminal_state != TaskTerminalState::Completed ==> notice->Err_0@
            == event.stderr_tail@,
{
}

/// Only the launch of a main that runs is obeyed: a command of one that was replaced leads to nothing, and
/// each command of the one that runs leads to its own step.
pub proof fn only_the_main_that_runs_is_obeyed(
    s: CoordinatorMainRuntimeModel,
    command: MainCommand,
    step: MainStep,
)
    requires
        is_step(command, CoordinatorMainRuntime::is_current(s, command.scope()), step),
    ensures
        ({
            let scope = command.scope();
            let runs = lookup(
                s.controls,
                (scope.tenant@, scope.project@, scope.process@),
            ) matches Some(control) && control.launch_id == scope.launch_id;
            &&& !runs ==> step is Answer || step is Nothing
            &&& runs ==> {
                &&& step is Launch <==> command is StartTask
                &&& step is Join <==> command is JoinTask
                &&& step is Probe <==> command is DebugProbe
                &&& step is Release <==> command is ReleaseArtifact
                &&& step is Complete <==> command is Finished
                &&& step !is Nothing && step !is Answer
            }
        }),
{
}

} // verus!
