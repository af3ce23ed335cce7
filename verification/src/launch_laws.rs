//! How an automated run comes to run: its process is started once there is room, under the names that the run
//! has, and from what was compiled for it.
use vstd::prelude::*;

use crate::automated_launch::{AutomatedLaunch, LaunchStep, bounded_failure, failed_in, failure_detail, last_where, launch_begun, launch_finished, main_prepared, process_failure};
use crate::automated_run::{AutomatedRunStageRecordModel, AutomatedRunState, TriggerContext};
use crate::capability::Capability;
use crate::coordinator::processes_in;
use crate::duplicate::option_view;
use crate::ordered_map::{ascending, lemma_lookup_put, lookup};
use crate::service::CoordinatorServiceModel;
use crate::service_error::CoordinatorServiceError;
use crate::tasks::{TaskCompletionEventModel, TaskDispatch, TaskSpec, TaskTerminalState};

verus! {

/// A run is launched only where it was compiled, has its revision and neither runs nor has ended, and where no
/// other process of its project is active. Launching it again names the same process and the same attempt.
/// Where another process is active it waits for the slot.
pub proof fn runs_are_launched_into_a_free_slot(
    before: CoordinatorServiceModel,
    after: CoordinatorServiceModel,
    id: Seq<char>,
    r: Result<LaunchStep, CoordinatorServiceError>,
    other: Seq<char>,
    last: CoordinatorServiceModel,
    again: Result<LaunchStep, CoordinatorServiceError>,
)
    requires
        ascending(before.coordinator.durable.automation.automated_runs),
        launch_begun(before, after, id, r),
        launch_begun(after, last, id, again),
    ensures
        ({
            let known = before.coordinator.durable.automation.automated_runs;
            let left = after.coordinator.durable.automation.automated_runs;
            &&& r is Err ==> after == before
            &&& lookup(known, id) is None ==> r is Err
            &&& other != id ==> lookup(left, other) == lookup(known, other)
            &&& after.coordinator.active_processes == before.coordinator.active_processes
            &&& r matches Ok(LaunchStep::Start(launch)) ==> {
                &&& lookup(known, id) matches Some(run)
                &&& run.run.state != AutomatedRunState::Running && run.run.state
                    != AutomatedRunState::Completed && run.run.state != AutomatedRunState::Failed
                    && run.run.state != AutomatedRunState::Cancelled
                &&& run.compiled_bundle == Some(launch.bundle@)
                &&& run.revision == Some(launch.revision)
                &&& lookup(left, id) matches Some(next)
                &&& next.run.state == AutomatedRunState::Launching
                &&& option_view(next.run.process_id) == Some(launch.process@)
                &&& option_view(next.launch_attempt) == Some(launch.launch_attempt@)
                &&& run.run.process_id matches Some(process) ==> launch.process@ == process@
                &&& run.launch_attempt matches Some(attempt) ==> launch.launch_attempt@ == attempt@
                &&& next.compiled_bundle == run.compiled_bundle && next.run.run_id == run.run.run_id
                &&& again matches Ok(LaunchStep::Start(second)) ==> second.process@ == launch.process@
                    && second.launch_attempt@ == launch.launch_attempt@
                &&& processes_in(
                    before.coordinator.active_processes,
                    run.run.tenant@,
                    run.run.project@,
                ).len() > 0 ==> option_view(run.run.process_id) == Some(
                    processes_in(
                        before.coordinator.active_processes,
                        run.run.tenant@,
                        run.run.project@,
                    )[0].id@,
                )
            }
            &&& r matches Ok(LaunchStep::Settled(record)) ==> {
                &&& lookup(known, id) matches Some(run)
                &&& run.run.state == AutomatedRunState::Running || run.run.state
                    == AutomatedRunState::Completed || run.run.state == AutomatedRunState::Failed
                    || run.run.state == AutomatedRunState::Cancelled ==> after == before && record@
                    == run
                &&& run.run.state != AutomatedRunState::Running && run.run.state
                    != AutomatedRunState::Completed && run.run.state != AutomatedRunState::Failed
                    && run.run.state != AutomatedRunState::Cancelled ==> record@.run.state
                    == AutomatedRunState::WaitingForProcessSlot && lookup(left, id) == Some(record@)
                    && record@.compiled_bundle == run.compiled_bundle
            }
        }),
{
    broadcast use lemma_lookup_put;

}

/// The main of a run is the entry of what was compiled for it, on its own source, in its own process, with no
/// capability, no environment, no argument and no secret.
pub proof fn the_main_of_a_run_has_no_authority(
    before: CoordinatorServiceModel,
    after: CoordinatorServiceModel,
    id: Seq<char>,
    launch: AutomatedLaunch,
    context: TriggerContext,
    checked: Result<(), String>,
    epoch: u64,
    r: Result<TaskSpec, CoordinatorServiceError>,
    capability: Capability,
    other: Seq<char>,
)
    requires
        ascending(before.coordinator.durable.automation.automated_runs),
        lookup(before.coordinator.durable.automation.automated_runs, id) is Some,
        main_prepared(before, after, id, launch, context, checked, epoch, r),
    ensures
        r is Ok <==> checked is Ok,
        r is Err ==> after == before,
        r matches Ok(spec) ==> {
            &&& spec@.tenant@ == launch.snapshot.run.tenant@ && spec@.project@
                == launch.snapshot.run.project@ && spec@.process@ == launch.process@
            &&& spec@.vfs_epoch == epoch
            &&& !spec@.required_capabilities.holds(capability)
            &&& spec@.environment is None && spec@.environment_id is None
                && spec@.environment_digest is None
            &&& spec@.required_artifacts.len() == 0 && spec@.args.len() == 0
                && spec@.requested_secrets.len() == 0
            &&& spec@.source_snapshot == Some(launch.revision.source_snapshot)
            &&& spec@.source_revision == Some(launch.revision)
            &&& spec@.bundle_digest == Some(launch.bundle.execution_module_digest)
            &&& spec@.task_definition@ == launch.bundle.default_entrypoint@
            &&& spec@.dispatch matches TaskDispatch::CoordinatorNodeWasm { export, abi } && export
                == Some(launch.entrypoint_export)
            &&& lookup(
                after.coordinator.durable.automation.automated_runs,
                id,
            ) matches Some(next)
            &&& next.trigger_context == Some(context)
            &&& next.run == lookup(
                before.coordinator.durable.automation.automated_runs,
                id,
            )->Some_0.run
        },
        other != id ==> lookup(after.coordinator.durable.automation.automated_runs, other) == lookup(
            before.coordinator.durable.automation.automated_runs,
            other,
        ),
{
    broadcast use lemma_lookup_put;

}

/// A run that was launched runs, from when it first did, and what was compiled for it is kept no longer.
pub proof fn a_launched_run_runs(
    before: CoordinatorServiceModel,
    after: CoordinatorServiceModel,
    id: Seq<char>,
    summary: String,
    now: u64,
    r: AutomatedRunStageRecordModel,
    other: Seq<char>,
)
    requires
        ascending(before.coordinator.durable.automation.automated_runs),
        lookup(before.coordinator.durable.automation.automated_runs, id) is Some,
        launch_finished(before, after, id, summary, now, r),
    ensures
        ({
            let known = before.coordinator.durable.automation.automated_runs;
            let left = after.coordinator.durable.automation.automated_runs;
            let run = lookup(known, id)->Some_0;
            &&& lookup(left, id) == Some(r)
            &&& r.run.state == AutomatedRunState::Running
            &&& run.run.started_at is Some ==> r.run.started_at == run.run.started_at
            &&& run.run.started_at is None ==> r.run.started_at == Some(now)
            &&& r.compiled_summary == Some(summary)
            &&& r.compiled_bundle is None && r.compilation_request is None && r.source is None
            &&& r.run.process_id == run.run.process_id && r.run.run_id == run.run.run_id
            &&& other != id ==> lookup(left, other) == lookup(known, other)
        }),
{
    broadcast use lemma_lookup_put;

}

proof fn lemma_last(events: Seq<TaskCompletionEventModel>, p: spec_fn(TaskCompletionEventModel) -> bool) -> (i:
    int)
    ensures
        last_where(events, p) is None ==> forall|j: int|
            0 <= j < events.len() ==> !p(#[trigger] events[j]),
        last_where(events, p) matches Some(event) ==> 0 <= i < events.len() && events[i] == event && p(
            event,
        ) && forall|j: int| i < j < events.len() ==> !p(#[trigger] events[j]),
    decreases events.len(),
{
    if events.len() == 0 {
        0
    } else if p(events.last()) {
        events.len() - 1
    } else {
        let rest = events.drop_last();
        let i = lemma_last(rest, p);
        assert forall|j: int| 0 <= j < events.len() && (last_where(rest, p) is None || i
            < j) implies !p(#[trigger] events[j]) by {
            if j < rest.len() {
                assert(rest[j] == events[j]);
            }
        }
        i
    }
}

/// An event tells that a task of a process failed.
pub open spec fn tells_of_failure(
    event: TaskCompletionEventModel,
    tenant: Seq<char>,
    project: Seq<char>,
    process: Seq<char>,
) -> bool {
    &&& event.tenant@ == tenant
    &&& event.project@ == project
    &&& event.process@ == process
    &&& event.terminal_state == TaskTerminalState::Failed
}

/// What is said of a process that failed is of the last of its tasks that failed on a node, and where none did
/// of the last that failed at all. Where none failed, nothing is said of any.
pub proof fn the_last_failure_is_told(
    events: Seq<TaskCompletionEventModel>,
    tenant: Seq<char>,
    project: Seq<char>,
    process: Seq<char>,
    maximum: nat,
    i: int,
)
    requires
        0 <= i < events.len(),
        tells_of_failure(events[i], tenant, project, process),
    ensures
        ({
            let told = process_failure(events, tenant, project, process, maximum) == bounded_failure(
                "Task "@ + events[i].task@ + " ("@ + events[i].task_definition@ + ") failed:"@,
                failure_detail(events[i].stderr_tail@, events[i].status_code),
                maximum,
            );
            &&& (events[i].executor is Node && forall|j: int|
                i < j < events.len() && tells_of_failure(
                    #[trigger] events[j],
                    tenant,
                    project,
                    process,
                ) ==> !(events[j].executor is Node)) ==> told
            &&& (forall|j: int|
                i < j < events.len() ==> !tells_of_failure(
                    #[trigger] events[j],
                    tenant,
                    project,
                    process,
                )) && (forall|j: int|
                0 <= j < events.len() && tells_of_failure(
                    #[trigger] events[j],
                    tenant,
                    project,
                    process,
                ) ==> !(events[j].executor is Node)) ==> told
        }),
{
    let p = failed_in(tenant, project, process, true);
    let q = failed_in(tenant, project, process, false);
    let k = lemma_last(events, p);
    let m = lemma_last(events, q);
    assert(q(events[i]));
    if events[i].executor is Node {
        assert(p(events[i]));
        assert(last_where(events, p) is Some);
        assert(i <= k);
    }
    assert(last_where(events, q) is Some);
    assert(i <= m);
    if last_where(events, p) is Some {
        assert(p(events[k]));
        assert(tells_of_failure(events[k], tenant, project, process));
    }
    assert(tells_of_failure(events[m], tenant, project, process));
}

/// Where no task of a process failed, its failure is told without one.
pub proof fn a_failure_without_a_task_is_told_so(
    events: Seq<TaskCompletionEventModel>,
    tenant: Seq<char>,
    project: Seq<char>,
    process: Seq<char>,
    maximum: nat,
)
    requires
        forall|j: int|
            0 <= j < events.len() ==> !tells_of_failure(
                #[trigger] events[j],
                tenant,
                project,
                process,
            ),
    ensures
        process_failure(events, tenant, project, process, maximum)
            == "The automated process failed without a retained task diagnostic."@,
{
    let p = failed_in(tenant, project, process, true);
    let q = failed_in(tenant, project, process, false);
    let k = lemma_last(events, p);
    let m = lemma_last(events, q);
    if last_where(events, p) is Some {
        assert(tells_of_failure(events[k], tenant, project, process));
    }
    if last_where(events, q) is Some {
        assert(tells_of_failure(events[m], tenant, project, process));
    }
}

} // verus!
