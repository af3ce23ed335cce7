//! What a debugger can rely on: a process goes on only once it has stopped, its coordinator main stops with
//! its tasks, breakpoints are shown to who set them, and what is asked for is audited.
use vstd::prelude::*;

use crate::debug::{DebugBreakpoints, DebugCharge, DebugEpoch, DebugEpochStatus, DebugEpochStatusModel, DebugProbeHit, MainDebugView, TaskCancellationTarget, attach_reason, breakpoints_inspected, epoch_controlled, epoch_inspected, epoch_ran, epoch_runs, epoch_shown, failure_lines, goes_on, is_status, listed_targets, main_frames, main_key, main_probe_reported, main_probe_stops, main_stopped_at, main_synced, missing_lines, probe_stopped, probe_stops, some_is, status_shown, target_texts};
use crate::debug_registry::{DebugAcknowledgementState, DebugAuditEvent, DebugCommand, DebugEpochRuntimeModel, DebugParticipantAcknowledgementModel};
use crate::debug_requests::{DebugAction, DebugResponse, DebugSurroundings, debug_answered};
use crate::ids::UserId;
use crate::keys::{ProcessText, TaskText};
use crate::main_runtime::{CoordinatorMainRuntimeModel, MainState, interrupted_main, waits_in};
use crate::ordered_map::{ascending, lemma_lookup_put, lookup};
use crate::service::CoordinatorServiceModel;
use crate::service_error::CoordinatorServiceError;

verus! {

/// A participant has said that it stands still.
pub open spec fn stands_still(runtime: DebugEpochRuntimeModel, task: TaskText) -> bool {
    lookup(runtime.acknowledgements, task) matches Some(said) && said.state
        == DebugAcknowledgementState::Frozen
}

/// A process has stopped: it was told to, one of its tasks stands still, and each has answered unless the
/// time for it is over.
pub open spec fn has_stopped(runtime: DebugEpochRuntimeModel, now: u64) -> bool {
    &&& runtime.command == DebugCommand::Freeze
    &&& exists|task: TaskText| #[trigger] stands_still(runtime, task)
    &&& now < runtime.deadline ==> forall|task: TaskText| #[trigger]
        runtime.expected.contains(task) ==> lookup(runtime.acknowledgements, task) is Some
}

/// A process goes on exactly where it has stopped, in the epoch that is its latest.
pub proof fn a_process_goes_on_once_it_has_stopped(
    before: CoordinatorServiceModel,
    after: CoordinatorServiceModel,
    key: ProcessText,
    actor: UserId,
    stopped_task: Option<Seq<char>>,
    epoch: u64,
    operation: Seq<char>,
    command: DebugCommand,
    all_stop: bool,
    reason: Seq<char>,
    active: Set<TaskText>,
    charge: DebugCharge,
    now: u64,
    r: Result<DebugEpoch, CoordinatorServiceError>,
)
    requires
        attach_reason(before, key, actor).0,
        charge.granted is Ok,
        epoch_controlled(
            before,
            after,
            key,
            actor,
            stopped_task,
            Some(epoch),
            operation,
            command,
            all_stop,
            reason,
            active,
            charge,
            now,
            r,
        ),
    ensures
        r is Ok <==> {
            &&& lookup(before.debug.epochs, key) == Some(epoch)
            &&& lookup(before.debug.epoch_runtime, key) matches Some(runtime)
            &&& has_stopped(runtime, now)
        },
{
    if lookup(before.debug.epoch_runtime, key) is Some {
        let runtime = lookup(before.debug.epoch_runtime, key)->Some_0;
        let still = crate::debug::frozen(Some(runtime));
        assert forall|task: TaskText| #[trigger]
            still.contains(task) <==> stands_still(runtime, task) by {}
        if still != Set::<TaskText>::empty() {
            if forall|task: TaskText| !still.contains(task) {
                assert(still =~= Set::<TaskText>::empty());
            }
            let task = choose|task: TaskText| still.contains(task);
            assert(stands_still(runtime, task));
        } else {
            assert forall|task: TaskText| !stands_still(runtime, task) by {
                assert(!still.contains(task));
            }
        }
    }
}

/// What is asked of a process is audited under the name of who asked: the latest event says whether it was
/// allowed, and nothing is charged for what was not. A charge that is refused leaves no event.
pub proof fn what_is_asked_of_a_process_is_audited(
    before: CoordinatorServiceModel,
    after: CoordinatorServiceModel,
    key: ProcessText,
    actor: UserId,
    stopped_task: Option<Seq<char>>,
    expected: Option<u64>,
    operation: Seq<char>,
    command: DebugCommand,
    all_stop: bool,
    reason: Seq<char>,
    active: Set<TaskText>,
    charge: DebugCharge,
    now: u64,
    r: Result<DebugEpoch, CoordinatorServiceError>,
)
    requires
        epoch_controlled(
            before,
            after,
            key,
            actor,
            stopped_task,
            expected,
            operation,
            command,
            all_stop,
            reason,
            active,
            charge,
            now,
            r,
        ),
    ensures
        ({
            let allowed = attach_reason(before, key, actor).0;
            let event = after.debug.audit_events.last();
            if allowed && charge.granted is Err {
                after.debug == before.debug && r is Err
            } else {
                &&& after.debug.audit_events.len() > 0
                &&& event.tenant@ == key.0 && event.project@ == key.1 && event.process@ == key.2
                &&& event.actor@ == actor@
                &&& event.operation@ == operation
                &&& event.allowed == allowed
                &&& !allowed ==> event.charged_debug_read_bytes == 0
                &&& allowed ==> event.charged_debug_read_bytes > 0
                &&& event.used_debug_read_bytes == charge.used_bytes
            }
        }),
        r matches Ok(answer) ==> answer.audit_event == after.debug.audit_events.last(),
{
}

/// A coordinator main counts as stopped where it stands still in the epoch under way, and as running where it
/// was let go and stands still no longer. Nothing else is said of it, and what the tasks said stays.
pub proof fn a_main_answers_for_itself(
    before: CoordinatorServiceModel,
    after: CoordinatorServiceModel,
    key: ProcessText,
    epoch: u64,
    view: MainDebugView,
    runtime: DebugEpochRuntimeModel,
    instance: Seq<char>,
    other: ProcessText,
    task: TaskText,
)
    requires
        ascending(before.debug.epoch_runtime),
        ascending(runtime.acknowledgements),
        main_synced(before, after, key, epoch, view),
        lookup(before.debug.epoch_runtime, key) == Some(runtime),
        runtime.epoch == epoch,
        lookup(before.mains.controls, key) matches Some(control) && control.task_instance@
            == instance,
        runtime.expected.contains((key.0, key.1, key.2, "coordinator-main"@, instance)),
    ensures
        ({
            let own = (key.0, key.1, key.2, "coordinator-main"@, instance);
            let still = view.frozen_epoch == Some(epoch);
            &&& lookup(after.debug.epoch_runtime, key) matches Some(now)
            &&& now.epoch == runtime.epoch && now.command == runtime.command && now.deadline
                == runtime.deadline && now.expected == runtime.expected
            &&& task != own ==> lookup(now.acknowledgements, task) == lookup(
                runtime.acknowledgements,
                task,
            )
            &&& runtime.command == DebugCommand::Freeze && still ==> stands_still(now, own)
            &&& runtime.command == DebugCommand::Resume && view.resume_requested && !still ==> (
            lookup(now.acknowledgements, own) matches Some(said) && said.state
                == DebugAcknowledgementState::Running)
            &&& !(runtime.command == DebugCommand::Freeze && still) && !(runtime.command
                == DebugCommand::Resume && view.resume_requested && !still) ==> now == runtime
            &&& now != runtime ==> (lookup(now.acknowledgements, own) matches Some(said)
                && said.epoch == epoch && said.task@ == instance && said.node@
                == "coordinator-main"@ && said.current_source_location
                == view.current_source_location)
        }),
        other != key ==> lookup(after.debug.epoch_runtime, other) == lookup(
            before.debug.epoch_runtime,
            other,
        ),
        after.debug.epochs == before.debug.epochs,
        after.debug.breakpoints == before.debug.breakpoints,
        after.debug.commands == before.debug.commands,
        after.coordinator == before.coordinator,
        after.mains == before.mains,
{
    broadcast use lemma_lookup_put;

}

/// A main that is not asked to take part in an epoch answers nothing.
pub proof fn a_main_without_a_part_stays_silent(
    before: CoordinatorServiceModel,
    after: CoordinatorServiceModel,
    key: ProcessText,
    epoch: u64,
    view: MainDebugView,
)
    requires
        main_synced(before, after, key, epoch, view),
        !(lookup(before.debug.epoch_runtime, key) matches Some(runtime) && runtime.epoch == epoch
            && (lookup(before.mains.controls, key) matches Some(control)
            && runtime.expected.contains(
            (key.0, key.1, key.2, "coordinator-main"@, control.task_instance@),
        ))),
    ensures
        after == before,
{
}

/// A coordinator main stops its process at a probe exactly where a breakpoint is set on it, and then shows
/// the probe it stands at. Only the main that runs is heard.
pub proof fn mains_stop_at_their_breakpoints(
    before: CoordinatorServiceModel,
    after: CoordinatorServiceModel,
    key: ProcessText,
    task: Seq<char>,
    symbol: Seq<char>,
    active: Set<TaskText>,
    charge: DebugCharge,
    now: u64,
    hit: DebugProbeHit,
)
    requires
        ascending(before.debug.epoch_runtime),
        ascending(before.debug.epochs),
        ascending(before.debug.breakpoints),
        ascending(before.mains.controls),
        main_probe_reported(before, after, key, task, symbol, active, charge, now, Ok(hit)),
    ensures
        lookup(before.mains.controls, key) matches Some(control) && control.task_instance@ == task,
        hit.breakpoint_matched <==> (lookup(before.debug.breakpoints, key) matches Some(plan)
            && plan.probe_symbols.contains(symbol)),
        hit.probe_symbol@ == symbol,
        !hit.breakpoint_matched ==> after == before && hit.debug_epoch is None,
        hit.breakpoint_matched ==> {
            &&& lookup(after.debug.epoch_runtime, key) matches Some(runtime)
            &&& runtime.command == DebugCommand::Freeze
            &&& hit.debug_epoch == Some(runtime.epoch)
            &&& lookup(after.debug.breakpoints, key) matches Some(marked)
            &&& marked.hit_epoch == hit.debug_epoch
            &&& marked.hit_task matches Some(at) && at@ == task
            &&& marked.hit_probe_symbol matches Some(name) && name@ == symbol
            &&& lookup(after.mains.controls, key) matches Some(stopped)
            &&& stopped.task_instance@ == task
            &&& stopped.stopped_probe_symbol matches Some(name) && name@ == symbol
        },
{
    broadcast use lemma_lookup_put;

    if hit.breakpoint_matched {
        let reason = "coordinator main reached probe `"@ + symbol + "`"@;
        let r = Ok::<DebugProbeHit, CoordinatorServiceError>(hit);
        assert(main_probe_stops(before, after, key, task, symbol, active, charge, now, r));
        let marked = choose|marked: CoordinatorServiceModel| #[trigger]
            main_stopped_at(before, marked, key, symbol) && probe_stops(
                marked,
                after,
                key,
                task,
                symbol,
                reason,
                active,
                charge,
                now,
                r,
            );
        let (middle, controlled) = choose|
            middle: CoordinatorServiceModel,
            controlled: Result<DebugEpoch, CoordinatorServiceError>,
        | #[trigger]
            probe_stopped(
                marked,
                after,
                middle,
                controlled,
                key,
                task,
                symbol,
                reason,
                active,
                charge,
                now,
                r,
            );
        assert(probe_stopped(
            marked,
            after,
            middle,
            controlled,
            key,
            task,
            symbol,
            reason,
            active,
            charge,
            now,
            r,
        ));
    }
}

/// The frame of a main that stands at a probe is named after the probe.
pub proof fn frames_are_named_after_their_probe(symbol: Seq<char>, name: Seq<char>)
    requires
        symbol == "clusterflux.probe."@ + name,
    ensures
        main_frames(Some(symbol)) == seq![name + "::wasm"@],
        main_frames(None).len() == 0,
{
    reveal_strlit("clusterflux.probe.");
    assert(symbol.skip(18) =~= name);
    assert(symbol.take(18) =~= "clusterflux.probe."@);
}

/// Breakpoints are shown to the user who set them and to no other, as they stand, and showing them changes
/// none of them.
pub proof fn breakpoints_are_shown_to_who_set_them(
    before: CoordinatorServiceModel,
    after: CoordinatorServiceModel,
    key: ProcessText,
    actor: UserId,
    charge: DebugCharge,
    r: Result<DebugBreakpoints, CoordinatorServiceError>,
    symbol: Seq<char>,
)
    requires
        breakpoints_inspected(before, after, key, actor, charge, r),
    ensures
        r is Ok <==> charge.granted is Ok && attach_reason(before, key, actor).0 && (lookup(
            before.debug.breakpoints,
            key,
        ) matches Some(plan) && plan.actor@ == actor@),
        r matches Ok(answer) ==> {
            let plan = lookup(before.debug.breakpoints, key)->Some_0;
            &&& answer@.revision == plan.revision
            &&& answer@.actor@ == actor@
            &&& answer@.hit_epoch == plan.hit_epoch
            &&& answer@.hit_task is Some <==> plan.hit_task is Some
            &&& plan.hit_task matches Some(at) ==> answer@.hit_task->Some_0@ == at@
            &&& plan.hit_probe_symbol is None ==> answer@.hit_source_location is None
            &&& plan.hit_probe_symbol matches Some(name) ==> answer@.hit_source_location == lookup(
                plan.probe_locations,
                name@,
            )
        },
        after.debug.breakpoints == before.debug.breakpoints,
        after.debug.epochs == before.debug.epochs,
        after.debug.epoch_runtime == before.debug.epoch_runtime,
        after.debug.commands == before.debug.commands,
        after.coordinator == before.coordinator,
        after.mains == before.mains,
{
}

/// Interrupting a process stops its main and ends every wait of it, and touches no other process.
pub proof fn interrupting_stops_a_main_and_its_waits(
    s: CoordinatorMainRuntimeModel,
    key: ProcessText,
    other: ProcessText,
    waiter: (Seq<char>, Seq<char>, Seq<char>, Seq<char>),
)
    requires
        ascending(s.controls),
    ensures
        ({
            let after = interrupted_main(s, key);
            let own = waiter.0 == key.0 && waiter.1 == key.1 && waiter.2 == key.2;
            &&& after.join_waiters.contains(waiter) <==> s.join_waiters.contains(waiter) && !own
            &&& s.join_waiters.filter(waits_in(key)).contains(waiter) <==> s.join_waiters.contains(
                waiter,
            ) && own
            &&& lookup(s.controls, key) is None ==> lookup(after.controls, key) is None
            &&& lookup(s.controls, key) matches Some(control) ==> {
                &&& lookup(after.controls, key) matches Some(stopped)
                &&& stopped.abort && stopped.state == MainState::Stopping
                &&& stopped.task_instance == control.task_instance
            }
            &&& other != key ==> lookup(after.controls, other) == lookup(s.controls, other)
            &&& after.limits == s.limits && after.next_launch_id == s.next_launch_id
        }),
{
    broadcast use lemma_lookup_put;

}

/// Looking at an epoch tells how it stands once its main has answered, and changes nothing else but the
/// audit: nobody is told to stop or to go on.
pub proof fn looking_at_an_epoch_changes_nothing(
    before: CoordinatorServiceModel,
    after: CoordinatorServiceModel,
    key: ProcessText,
    actor: UserId,
    epoch: u64,
    view: MainDebugView,
    charge: DebugCharge,
    now: u64,
    r: Result<DebugEpochStatus, CoordinatorServiceError>,
    other: ProcessText,
)
    requires
        ascending(before.debug.epoch_runtime),
        epoch_shown(before, after, key, actor, epoch, view, charge, now, r),
    ensures
        r is Ok <==> charge.granted is Ok && attach_reason(before, key, actor).0 && (lookup(
            before.debug.epoch_runtime,
            key,
        ) matches Some(runtime) && runtime.epoch == epoch),
        r matches Ok(status) ==> {
            &&& lookup(after.debug.epoch_runtime, key) matches Some(runtime)
            &&& status@.epoch == epoch && runtime.epoch == epoch
            &&& status@.command == runtime.command
            &&& status@.process@ == key.2
            &&& status_shown(
                status@,
                key,
                actor@,
                runtime,
                before.debug_freeze_timeout_ms,
                now,
                status.audit_event,
            )
        },
        other != key ==> lookup(after.debug.epoch_runtime, other) == lookup(
            before.debug.epoch_runtime,
            other,
        ),
        after.debug.epochs == before.debug.epochs,
        after.debug.breakpoints == before.debug.breakpoints,
        after.debug.commands == before.debug.commands,
        after.coordinator == before.coordinator,
        after.mains == before.mains,
{
    broadcast use lemma_lookup_put;

    let middle = choose|middle: CoordinatorServiceModel| #[trigger]
        main_synced(before, middle, key, epoch, view) && epoch_inspected(
            middle,
            after,
            key,
            actor,
            epoch,
            charge,
            now,
            r,
        );
    assert(epoch_inspected(middle, after, key, actor, epoch, charge, now, r));
    assert(attach_reason(middle, key, actor) == attach_reason(before, key, actor));
    if r is Ok {
        let status = r->Ok_0;
        let runtime = lookup(middle.debug.epoch_runtime, key)->Some_0;
        let list = choose|list: Seq<TaskText>| #[trigger]
            crate::debug::is_status(
                status@,
                key,
                actor@,
                runtime,
                list,
                before.debug_freeze_timeout_ms,
                now,
                status.audit_event,
            );
        assert(crate::debug::is_status(
            status@,
            key,
            actor@,
            runtime,
            list,
            before.debug_freeze_timeout_ms,
            now,
            status.audit_event,
        ));
    }
}

/// A debugger gets the answer to what it asked: to stop a process begins an epoch in which it is to stand
/// still, to go on is of the epoch that is named, and to look stops nothing and lets nothing go on.
pub proof fn debuggers_get_what_they_ask_for(
    before: CoordinatorServiceModel,
    after: CoordinatorServiceModel,
    key: ProcessText,
    actor: UserId,
    action: DebugAction,
    known: DebugSurroundings,
    r: Result<DebugResponse, CoordinatorServiceError>,
)
    requires
        ascending(before.debug.epoch_runtime),
        debug_answered(before, after, key, actor, action, known, r),
    ensures
        after.coordinator == before.coordinator,
        after.mains == before.mains,
        !(action is CreateEpoch) && !(action is ResumeEpoch) ==> after.debug.commands
            == before.debug.commands && after.debug.epochs == before.debug.epochs,
        !(action is SetBreakpoints) ==> after.debug.breakpoints == before.debug.breakpoints,
        r matches Ok(told) ==> match action {
            DebugAction::Attach => told is Attachment,
            DebugAction::SetBreakpoints { revision, .. } => told is Breakpoints,
            DebugAction::InspectBreakpoints => told is Breakpoints,
            DebugAction::CreateEpoch { stopped_task, reason } => {
                &&& told matches DebugResponse::Epoch(begun)
                &&& begun.command == DebugCommand::Freeze
                &&& lookup(after.debug.epoch_runtime, key) matches Some(runtime)
                &&& runtime.command == DebugCommand::Freeze && runtime.epoch == begun.epoch
                &&& begun.audit_event.task matches Some(task) && task@ == stopped_task@
                &&& begun.audit_event.reason@ == reason@
            },
            DebugAction::ResumeEpoch { epoch } => {
                &&& told matches DebugResponse::Epoch(resumed)
                &&& resumed.command == DebugCommand::Resume
                &&& resumed.epoch == epoch
                &&& lookup(after.debug.epoch_runtime, key) matches Some(runtime)
                &&& runtime.command == DebugCommand::Resume && runtime.epoch == epoch
            },
            DebugAction::InspectEpoch { epoch } => {
                &&& told matches DebugResponse::EpochStatus(status)
                &&& status@.epoch == epoch
            },
        },
{
    broadcast use lemma_lookup_put;

    match action {
        DebugAction::InspectEpoch { epoch } => {
            let seen = match r {
                Ok(DebugResponse::EpochStatus(told)) => Ok(told),
                Ok(_) => arbitrary(),
                Err(error) => Err(error),
            };
            looking_at_an_epoch_changes_nothing(
                before,
                after,
                key,
                actor,
                epoch,
                known.view,
                known.charge,
                known.now,
                seen,
                key,
            );
        },
        _ => {},
    }
}

/// A task is named among those that a request reaches.
pub open spec fn is_named(targets: Seq<TaskCancellationTarget>, task: TaskText) -> bool {
    exists|i: int|
        0 <= i < targets.len() && (#[trigger] targets[i]).process@ == task.2 && targets[i].node@
            == task.3 && targets[i].task@ == task.4
}

proof fn lemma_named(targets: Seq<TaskCancellationTarget>, task: TaskText)
    ensures
        is_named(targets, task) <==> target_texts(targets).contains((task.2, task.3, task.4)),
{
    let texts = target_texts(targets);
    if is_named(targets, task) {
        let i = choose|i: int|
            0 <= i < targets.len() && (#[trigger] targets[i]).process@ == task.2 && targets[i].node@
                == task.3 && targets[i].task@ == task.4;
        assert(texts[i] == (task.2, task.3, task.4));
    }
    if texts.contains((task.2, task.3, task.4)) {
        let i = choose|i: int| 0 <= i < texts.len() && texts[i] == (task.2, task.3, task.4);
        assert(targets[i].process@ == task.2);
    }
}

/// Who asks is told whom that reaches: to stop a process reaches each of its active tasks and its main, and
/// to have it go on reaches none but those that stand still.
pub proof fn those_who_are_reached_are_named(
    before: CoordinatorServiceModel,
    after: CoordinatorServiceModel,
    key: ProcessText,
    actor: UserId,
    expected: Option<u64>,
    command: DebugCommand,
    all_stop: bool,
    active: Set<TaskText>,
    now: u64,
    answer: DebugEpoch,
    task: TaskText,
)
    requires
        epoch_ran(before, after, key, actor, expected, command, all_stop, active, now, answer),
    ensures
        ({
            let own = active.contains(task) && task.0 == key.0 && task.1 == key.1 && task.2
                == key.2;
            let still = lookup(before.debug.epoch_runtime, key) matches Some(runtime)
                && stands_still(runtime, task);
            let main = lookup(before.mains.controls, key) matches Some(control) && task == (
                key.0,
                key.1,
                key.2,
                "coordinator-main"@,
                control.task_instance@,
            );
            &&& command == DebugCommand::Freeze && (own || main) ==> is_named(
                answer.affected_tasks@,
                task,
            )
            &&& command == DebugCommand::Resume && (own || main) && still ==> is_named(
                answer.affected_tasks@,
                task,
            )
            &&& command == DebugCommand::Freeze && main ==> answer.main_told
            &&& command == DebugCommand::Resume && main ==> (answer.main_told <==> still)
        }),
        lookup(before.mains.controls, key) is None ==> !answer.main_told,
        answer.all_stop_requested == all_stop,
        answer.process@ == key.2,
        answer.actor@ == actor@,
        answer.command == command,
{
    let list = choose|list: Seq<TaskText>| #[trigger]
        epoch_runs(
            before,
            after,
            key,
            actor,
            expected,
            command,
            all_stop,
            active,
            now,
            list,
            answer,
        );
    assert(epoch_runs(
        before,
        after,
        key,
        actor,
        expected,
        command,
        all_stop,
        active,
        now,
        list,
        answer,
    ));
    lemma_named(answer.affected_tasks@, task);
    let tail = match main_key(before, key) {
        Some(main) => seq![(main.2, main.3, main.4)],
        None => Seq::empty(),
    };
    let all = listed_targets(list) + tail;
    let target = (task.2, task.3, task.4);
    if crate::debug::active_in(active, key).contains(task) {
        assert(list.contains(task));
        let i = choose|i: int| 0 <= i < list.len() && list[i] == task;
        assert(all[i] == target);
    }
    if main_key(before, key) == Some(task) {
        assert(all[listed_targets(list).len() as int] == target);
    }
    let still = crate::debug::frozen(lookup(before.debug.epoch_runtime, key));
    if all.contains(target) && still.contains(task) {
        let p = goes_on(still);
        assert(p(target));
        let i = choose|i: int| 0 <= i < all.len() && all[i] == target;
        all.lemma_filter_contains(p, i);
    }
}

proof fn lemma_failure_lines(answers: Seq<DebugParticipantAcknowledgementModel>)
    ensures
        failure_lines(answers).len() > 0 <==> some_is(answers, DebugAcknowledgementState::Failed),
    decreases answers.len(),
{
    if answers.len() > 0 {
        let rest = answers.drop_last();
        lemma_failure_lines(rest);
        if some_is(rest, DebugAcknowledgementState::Failed) {
            let i = choose|i: int|
                0 <= i < rest.len() && (#[trigger] rest[i]).state
                    == DebugAcknowledgementState::Failed;
            assert(answers[i].state == DebugAcknowledgementState::Failed);
        }
        if some_is(answers, DebugAcknowledgementState::Failed) && answers.last().state
            != DebugAcknowledgementState::Failed {
            let i = choose|i: int|
                0 <= i < answers.len() && (#[trigger] answers[i]).state
                    == DebugAcknowledgementState::Failed;
            assert(rest[i].state == DebugAcknowledgementState::Failed);
        }
        if answers.last().state == DebugAcknowledgementState::Failed {
            assert(answers[answers.len() - 1].state == DebugAcknowledgementState::Failed);
        }
    }
}

proof fn lemma_missing_lines(
    list: Seq<TaskText>,
    answers: Seq<(TaskText, DebugParticipantAcknowledgementModel)>,
    timeout: u64,
)
    ensures
        missing_lines(list, answers, timeout).len() > 0 <==> exists|task: TaskText| #[trigger]
            list.contains(task) && lookup(answers, task) is None,
    decreases list.len(),
{
    if list.len() > 0 {
        let rest = list.drop_last();
        lemma_missing_lines(rest, answers, timeout);
        assert forall|task: TaskText| #[trigger] list.contains(task) <==> rest.contains(task)
            || task == list.last() by {
            if list.contains(task) && task != list.last() {
                let i = choose|i: int| 0 <= i < list.len() && list[i] == task;
                assert(rest[i] == task);
            }
            if rest.contains(task) {
                let i = choose|i: int| 0 <= i < rest.len() && rest[i] == task;
                assert(list[i] == task);
            }
            if task == list.last() {
                assert(list[list.len() - 1] == task);
            }
        }
        assert(list.contains(list.last()));
        if exists|task: TaskText| #[trigger] rest.contains(task) && lookup(answers, task) is None {
            let task = choose|task: TaskText| #[trigger]
                rest.contains(task) && lookup(answers, task) is None;
            assert(list.contains(task));
        }
    }
}

/// A status names those who are to answer, and says why exactly where something has failed.
pub proof fn what_failed_is_explained(
    status: DebugEpochStatusModel,
    key: ProcessText,
    actor: Seq<char>,
    runtime: DebugEpochRuntimeModel,
    timeout: u64,
    now: u64,
    event: DebugAuditEvent,
    task: TaskText,
)
    requires
        status_shown(status, key, actor, runtime, timeout, now, event),
    ensures
        status.failed <==> status.failure_messages.len() > 0,
        runtime.expected.contains(task) ==> is_named(status.expected_tasks, task),
        status.actor@ == actor,
{
    let list = choose|list: Seq<TaskText>| #[trigger]
        is_status(status, key, actor, runtime, list, timeout, now, event);
    assert(is_status(status, key, actor, runtime, list, timeout, now, event));
    lemma_named(status.expected_tasks, task);
    if runtime.expected.contains(task) {
        let i = choose|i: int| 0 <= i < list.len() && list[i] == task;
        assert(listed_targets(list)[i] == (task.2, task.3, task.4));
    }
    lemma_failure_lines(crate::ordered_map::values(runtime.acknowledgements));
    lemma_missing_lines(list, runtime.acknowledgements, timeout);
    if crate::debug::all_answered(runtime) {
        assert forall|task: TaskText| #[trigger] list.contains(task) implies lookup(
            runtime.acknowledgements,
            task,
        ) is Some by {
            assert(runtime.expected.contains(task));
        }
    } else {
        let silent = choose|task: TaskText| #[trigger]
            runtime.expected.contains(task) && lookup(runtime.acknowledgements, task) is None;
        assert(list.contains(silent));
    }
}

} // verus!
