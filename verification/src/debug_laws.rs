//! What debugging a process is for: whoever may debug it stops and resumes all of its tasks together, and is
//! told where they stand.
use vstd::prelude::*;

use crate::coordinator::{processes_key, processes_keyed};
use crate::debug::{DebugAttachment, DebugBreakpoints, DebugCharge, DebugEpoch, DebugEpochStatusModel, DebugProbeHit, all_are, attach_answered, breakpoints_set, commands_with, epoch_controlled, epoch_ran, epoch_runs, is_answer, is_status, probe_reported, probe_stopped, probe_stops, some_is, state_reported, status_shown};
use crate::debug_registry::{DebugAcknowledgementState, DebugAuditEvent, DebugCommand, DebugEpochRuntimeModel, DebugParticipantAcknowledgementModel, DebugPendingCommand, SourceLocation, acknowledged};
use crate::debug_validation::DebugSnapshot;
use crate::ids::UserId;
use crate::keyed::{holds_keys, lemma_found_holds_key};
use crate::keys::{ProcessText, TaskText};
use crate::ordered_map::{ascending, bound_at, lemma_filter_ascending, lemma_lookup_at, lemma_lookup_found, lemma_lookup_put, lemma_put_ascending, lookup, values};
use crate::service::CoordinatorServiceModel;
use crate::service_error::CoordinatorServiceError;

verus! {

/// A user may debug a process: it is active, and the user has the permission for its project.
pub open spec fn may_debug(s: CoordinatorServiceModel, key: ProcessText, user: UserId) -> bool {
    &&& lookup(s.coordinator.active_processes, key) is Some
    &&& lookup(
        s.coordinator.durable.project_permissions,
        (key.0, key.1, user@),
    ) matches Some(permission) && permission.can_debug
}

proof fn lemma_may_debug(s: CoordinatorServiceModel, key: ProcessText, user: UserId)
    requires
        processes_keyed(s.coordinator),
    ensures
        may_debug(s, key, user) <==> crate::debug::attach_reason(s, key, user).0,
{
    broadcast use lemma_found_holds_key;

    assert(holds_keys(s.coordinator.active_processes, processes_key()));
}

/// Every participant has answered so.
pub open spec fn all_say(runtime: DebugEpochRuntimeModel, state: DebugAcknowledgementState) -> bool {
    forall|task: TaskText| #[trigger]
        runtime.expected.contains(task) ==> (lookup(runtime.acknowledgements, task) matches Some(
            answer,
        ) && answer.state == state)
}

/// Some participant has answered so.
pub open spec fn one_says(runtime: DebugEpochRuntimeModel, state: DebugAcknowledgementState) -> bool {
    exists|task: TaskText|
        (#[trigger] lookup(runtime.acknowledgements, task)) matches Some(answer) && answer.state
            == state
}

/// Someone takes part.
pub open spec fn has_participants(runtime: DebugEpochRuntimeModel) -> bool {
    exists|task: TaskText| #[trigger] runtime.expected.contains(task)
}

/// Someone has not answered.
pub open spec fn one_is_silent(runtime: DebugEpochRuntimeModel) -> bool {
    exists|task: TaskText| #[trigger]
        runtime.expected.contains(task) && lookup(runtime.acknowledgements, task) is None
}

/// Only participants have answered.
pub open spec fn answers_are_expected(runtime: DebugEpochRuntimeModel) -> bool {
    &&& ascending(runtime.acknowledgements)
    &&& forall|task: TaskText|
        (#[trigger] lookup(runtime.acknowledgements, task)) is Some ==> runtime.expected.contains(
            task,
        )
}

/// Of every process only participants have answered.
pub open spec fn only_participants_answer(s: CoordinatorServiceModel) -> bool {
    &&& ascending(s.debug.epoch_runtime)
    &&& forall|key: ProcessText|
        (#[trigger] lookup(s.debug.epoch_runtime, key)) matches Some(runtime)
            ==> answers_are_expected(runtime)
}

proof fn lemma_answers(runtime: DebugEpochRuntimeModel, state: DebugAcknowledgementState)
    requires
        answers_are_expected(runtime),
    ensures
        some_is(values(runtime.acknowledgements), state) <==> one_says(runtime, state),
        !one_is_silent(runtime) ==> (all_are(values(runtime.acknowledgements), state) <==> all_say(
            runtime,
            state,
        )),
{
    let acks = runtime.acknowledgements;
    let all = values(acks);
    assert(all.len() == acks.len());
    if some_is(all, state) {
        let i = choose|i: int| 0 <= i < all.len() && (#[trigger] all[i]).state == state;
        lemma_lookup_at(acks, i);
        assert(lookup(acks, acks[i].0) is Some);
    }
    if one_says(runtime, state) {
        let task = choose|task: TaskText|
            (#[trigger] lookup(acks, task)) matches Some(answer) && answer.state == state;
        lemma_lookup_found(acks, task);
        let i = choose|i: int| bound_at(acks, task, i);
        lemma_lookup_at(acks, i);
        assert(all[i].state == state);
    }
    if !one_is_silent(runtime) {
        if all_are(all, state) {
            assert forall|task: TaskText| #[trigger] runtime.expected.contains(task) implies (lookup(
                acks,
                task,
            ) matches Some(answer) && answer.state == state) by {
                lemma_lookup_found(acks, task);
                assert(lookup(acks, task) is Some);
                let i = choose|i: int| bound_at(acks, task, i);
                lemma_lookup_at(acks, i);
                assert(all[i].state == state);
            }
        }
        if all_say(runtime, state) {
            assert forall|i: int| 0 <= i < all.len() implies (#[trigger] all[i]).state == state by {
                lemma_lookup_at(acks, i);
                assert(lookup(acks, acks[i].0) is Some);
                assert(runtime.expected.contains(acks[i].0));
            }
        }
    }
}

/// The status tells where the participants stand: the process has fully resumed exactly where it was to go
/// on and every participant runs, and has fully stopped exactly where it was to stop and every participant
/// stands still. It has failed where a participant says so, or where one is silent beyond the deadline.
pub proof fn the_status_tells_where_the_participants_stand(
    status: DebugEpochStatusModel,
    key: ProcessText,
    actor: Seq<char>,
    runtime: DebugEpochRuntimeModel,
    timeout: u64,
    now: u64,
    event: DebugAuditEvent,
)
    requires
        answers_are_expected(runtime),
        status_shown(status, key, actor, runtime, timeout, now, event),
    ensures
        status.fully_resumed <==> runtime.command == DebugCommand::Resume && has_participants(
            runtime,
        ) && all_say(runtime, DebugAcknowledgementState::Running),
        status.fully_frozen <==> runtime.command == DebugCommand::Freeze && has_participants(
            runtime,
        ) && all_say(runtime, DebugAcknowledgementState::Frozen),
        status.partially_frozen <==> runtime.command == DebugCommand::Freeze && runtime.deadline
            <= now && one_says(runtime, DebugAcknowledgementState::Frozen) && !(has_participants(
            runtime,
        ) && all_say(runtime, DebugAcknowledgementState::Frozen)),
        status.failed <==> one_says(runtime, DebugAcknowledgementState::Failed) || (
        runtime.command == DebugCommand::Freeze && runtime.deadline <= now && one_is_silent(
            runtime,
        )),
        !(status.fully_frozen && status.fully_resumed),
        status.epoch == runtime.epoch,
        status.command == runtime.command,
        status.process@ == key.2,
{
    let list = choose|list: Seq<TaskText>| #[trigger]
        is_status(status, key, actor, runtime, list, timeout, now, event);
    assert(is_status(status, key, actor, runtime, list, timeout, now, event));
    lemma_answers(runtime, DebugAcknowledgementState::Running);
    lemma_answers(runtime, DebugAcknowledgementState::Frozen);
    lemma_answers(runtime, DebugAcknowledgementState::Failed);
    assert(has_participants(runtime) <==> runtime.expected != Set::<TaskText>::empty()) by {
        if !has_participants(runtime) {
            assert(runtime.expected =~= Set::<TaskText>::empty());
        }
    }
    if !one_is_silent(runtime) {
        assert(crate::debug::all_answered(runtime));
    }
    if all_say(runtime, DebugAcknowledgementState::Running) {
        assert(!one_is_silent(runtime));
    }
    if all_say(runtime, DebugAcknowledgementState::Frozen) {
        assert(!one_is_silent(runtime));
    }
}

/// A new epoch begins for a process exactly where its last one has fully resumed, as the status would tell:
/// it does so for a user who may debug the process and is granted the charge, and not otherwise.
pub proof fn a_new_epoch_waits_for_the_last_to_resume(
    before: CoordinatorServiceModel,
    after: CoordinatorServiceModel,
    key: ProcessText,
    actor: UserId,
    stopped_task: Option<Seq<char>>,
    operation: Seq<char>,
    command: DebugCommand,
    all_stop: bool,
    reason: Seq<char>,
    active: Set<TaskText>,
    charge: DebugCharge,
    now: u64,
    r: Result<DebugEpoch, CoordinatorServiceError>,
    runtime: DebugEpochRuntimeModel,
    status: DebugEpochStatusModel,
    timeout: u64,
    event: DebugAuditEvent,
)
    requires
        processes_keyed(before.coordinator),
        only_participants_answer(before),
        may_debug(before, key, actor),
        charge.granted is Ok,
        epoch_controlled(
            before,
            after,
            key,
            actor,
            stopped_task,
            None,
            operation,
            command,
            all_stop,
            reason,
            active,
            charge,
            now,
            r,
        ),
        lookup(before.debug.epoch_runtime, key) == Some(runtime),
        status_shown(status, key, actor@, runtime, timeout, now, event),
    ensures
        r is Ok <==> status.fully_resumed,
        r is Ok <==> runtime.command == DebugCommand::Resume && has_participants(runtime)
            && all_say(runtime, DebugAcknowledgementState::Running),
{
    lemma_may_debug(before, key, actor);
    the_status_tells_where_the_participants_stand(
        status,
        key,
        actor@,
        runtime,
        timeout,
        now,
        event,
    );
    assert(has_participants(runtime) <==> runtime.expected != Set::<TaskText>::empty()) by {
        if !has_participants(runtime) {
            assert(runtime.expected =~= Set::<TaskText>::empty());
        }
    }
}

/// Only a user who may debug a process stops it or has it go on. Another changes nothing but the audit.
pub proof fn only_those_who_may_debug_stop_a_process(
    before: CoordinatorServiceModel,
    after: CoordinatorServiceModel,
    key: ProcessText,
    actor: UserId,
    stopped_task: Option<Seq<char>>,
    expected: Option<u64>,
    operation: Seq<char>,
    command: DebugCommand,
    all_stop: bool,
    reason: Seq<char>,
    active: Set<TaskText>,
    charge: DebugCharge,
    now: u64,
    r: Result<DebugEpoch, CoordinatorServiceError>,
)
    requires
        processes_keyed(before.coordinator),
        epoch_controlled(
            before,
            after,
            key,
            actor,
            stopped_task,
            expected,
            operation,
            command,
            all_stop,
            reason,
            active,
            charge,
            now,
            r,
        ),
    ensures
        r is Ok ==> may_debug(before, key, actor),
        r is Err ==> {
            &&& after.debug.epochs == before.debug.epochs
            &&& after.debug.epoch_runtime == before.debug.epoch_runtime
            &&& after.debug.breakpoints == before.debug.breakpoints
            &&& after.debug.commands == before.debug.commands
        },
        after.coordinator == before.coordinator,
        after.mains == before.mains,
{
    lemma_may_debug(before, key, actor);
}

/// A debugger is told that it may attach exactly where the user may debug the process, and nothing of the
/// process changes.
pub proof fn attaching_tells_who_may_debug(
    before: CoordinatorServiceModel,
    after: CoordinatorServiceModel,
    key: ProcessText,
    actor: UserId,
    charge: DebugCharge,
    attachment: DebugAttachment,
)
    requires
        processes_keyed(before.coordinator),
        attach_answered(before, after, key, actor, charge, Ok(attachment)),
    ensures
        attachment.authorization.allowed <==> may_debug(before, key, actor),
        attachment.process@ == key.2,
        attachment.audit_event.allowed <==> may_debug(before, key, actor),
        attachment.audit_event.actor@ == actor@,
        after.debug.epochs == before.debug.epochs,
        after.debug.epoch_runtime == before.debug.epoch_runtime,
        after.debug.breakpoints == before.debug.breakpoints,
        after.debug.commands == before.debug.commands,
{
    lemma_may_debug(before, key, actor);
}

proof fn lemma_commands_with(
    commands: Seq<(TaskText, DebugPendingCommand)>,
    list: Seq<TaskText>,
    command: DebugPendingCommand,
)
    requires
        ascending(commands),
    ensures
        ascending(commands_with(commands, list, command)),
        forall|task: TaskText| #[trigger]
            lookup(commands_with(commands, list, command), task) == (if list.contains(task) {
                Some(command)
            } else {
                lookup(commands, task)
            }),
    decreases list.len(),
{
    broadcast use lemma_lookup_put;

    if list.len() > 0 {
        let rest = list.drop_last();
        lemma_commands_with(commands, rest, command);
        let earlier = commands_with(commands, rest, command);
        lemma_put_ascending(earlier, list.last(), command);
        assert forall|task: TaskText| #[trigger]
            lookup(commands_with(commands, list, command), task) == (if list.contains(task) {
                Some(command)
            } else {
                lookup(commands, task)
            }) by {
            if rest.contains(task) {
                let j = choose|j: int| 0 <= j < rest.len() && rest[j] == task;
                assert(list[j] == task);
            }
            if list.contains(task) && task != list.last() {
                let j = choose|j: int| 0 <= j < list.len() && list[j] == task;
                assert(rest[j] == task);
            }
            assert(list[list.len() - 1] == list.last());
        }
    } else {
        assert forall|task: TaskText| !list.contains(task) by {}
    }
}

/// The coordinator main of a process, as a task of it.
pub open spec fn is_the_main(s: CoordinatorServiceModel, key: ProcessText, task: TaskText) -> bool {
    &&& lookup(s.mains.controls, key) matches Some(control)
    &&& task == (key.0, key.1, key.2, "coordinator-main"@, control.task_instance@)
}

/// A task takes part in the debugging of a process: it is active and of the process, or it is its coordinator
/// main.
pub open spec fn takes_part(
    s: CoordinatorServiceModel,
    key: ProcessText,
    active: Set<TaskText>,
    task: TaskText,
) -> bool {
    (active.contains(task) && task.0 == key.0 && task.1 == key.1 && task.2 == key.2)
        || is_the_main(s, key, task)
}

/// Stopping a process stops all of it and nothing else: every task that takes part is to answer, none has
/// yet, and every active task of the process is told to stop. What other tasks were told stays. The epoch is
/// the one after the last.
pub proof fn stopping_stops_every_task_of_the_process(
    before: CoordinatorServiceModel,
    after: CoordinatorServiceModel,
    key: ProcessText,
    actor: UserId,
    all_stop: bool,
    active: Set<TaskText>,
    now: u64,
    answer: DebugEpoch,
    task: TaskText,
    other: ProcessText,
)
    requires
        ascending(before.debug.commands),
        ascending(before.debug.epoch_runtime),
        ascending(before.debug.epochs),
        epoch_ran(
            before,
            after,
            key,
            actor,
            None,
            DebugCommand::Freeze,
            all_stop,
            active,
            now,
            answer,
        ),
    ensures
        lookup(after.debug.epoch_runtime, key) matches Some(runtime) && {
            &&& runtime.expected.contains(task) <==> takes_part(before, key, active, task)
            &&& runtime.command == DebugCommand::Freeze
            &&& runtime.epoch == answer.epoch
            &&& lookup(runtime.acknowledgements, task) is None
            &&& runtime.deadline == now + before.debug_freeze_timeout_ms || runtime.deadline
                == u64::MAX
        },
        active.contains(task) && task.0 == key.0 && task.1 == key.1 && task.2 == key.2 ==> lookup(
            after.debug.commands,
            task,
        ) == Some(DebugPendingCommand { epoch: answer.epoch, command: DebugCommand::Freeze }),
        !(active.contains(task) && task.0 == key.0 && task.1 == key.1 && task.2 == key.2) ==> lookup(
            after.debug.commands,
            task,
        ) == lookup(before.debug.commands, task),
        lookup(after.debug.epochs, key) == Some(answer.epoch),
        answer.epoch == (match lookup(before.debug.epochs, key) {
            Some(last) => last + 1,
            None => 1,
        }),
        other != key ==> lookup(after.debug.epoch_runtime, other) == lookup(
            before.debug.epoch_runtime,
            other,
        ) && lookup(after.debug.epochs, other) == lookup(before.debug.epochs, other),
        after.debug.breakpoints == before.debug.breakpoints,
{
    broadcast use lemma_lookup_put;

    let list = choose|list: Seq<TaskText>| #[trigger]
        epoch_runs(
            before,
            after,
            key,
            actor,
            None,
            DebugCommand::Freeze,
            all_stop,
            active,
            now,
            list,
            answer,
        );
    lemma_commands_with(
        before.debug.commands,
        list,
        DebugPendingCommand { epoch: answer.epoch, command: DebugCommand::Freeze },
    );
    assert(list.contains(task) <==> crate::debug::active_in(active, key).contains(task));
    lemma_lookup_found(Seq::<(TaskText, DebugParticipantAcknowledgementModel)>::empty(), task);
}

/// A process goes on in the epoch in which it stopped: the tasks that had stopped are to answer and no
/// other, and each active one of them is told to go on, while a task that had not stopped is told nothing.
pub proof fn going_on_resumes_what_had_stopped(
    before: CoordinatorServiceModel,
    after: CoordinatorServiceModel,
    key: ProcessText,
    actor: UserId,
    epoch: u64,
    active: Set<TaskText>,
    now: u64,
    answer: DebugEpoch,
    task: TaskText,
)
    requires
        ascending(before.debug.commands),
        ascending(before.debug.epoch_runtime),
        epoch_ran(
            before,
            after,
            key,
            actor,
            Some(epoch),
            DebugCommand::Resume,
            false,
            active,
            now,
            answer,
        ),
        lookup(before.debug.epoch_runtime, key) is Some,
    ensures
        ({
            let stopped = lookup(
                lookup(before.debug.epoch_runtime, key)->Some_0.acknowledgements,
                task,
            ) matches Some(said) && said.state == DebugAcknowledgementState::Frozen;
            let own = active.contains(task) && task.0 == key.0 && task.1 == key.1 && task.2
                == key.2;
            &&& lookup(after.debug.epoch_runtime, key) matches Some(runtime)
            &&& runtime.command == DebugCommand::Resume
            &&& runtime.epoch == epoch
            &&& runtime.expected.contains(task) <==> stopped && takes_part(
                before,
                key,
                active,
                task,
            )
            &&& lookup(runtime.acknowledgements, task) is None
            &&& own && stopped ==> lookup(after.debug.commands, task) == Some(
                DebugPendingCommand { epoch, command: DebugCommand::Resume },
            )
            &&& own && !stopped ==> lookup(after.debug.commands, task) is None
        }),
        answer.epoch == epoch,
        after.debug.epochs == before.debug.epochs,
{
    broadcast use lemma_lookup_put;

    let list = choose|list: Seq<TaskText>| #[trigger]
        epoch_runs(
            before,
            after,
            key,
            actor,
            Some(epoch),
            DebugCommand::Resume,
            false,
            active,
            now,
            list,
            answer,
        );
    let command = DebugPendingCommand { epoch, command: DebugCommand::Resume };
    lemma_commands_with(before.debug.commands, list, command);
    let queued = commands_with(before.debug.commands, list, command);
    let resumable = crate::debug::frozen(lookup(before.debug.epoch_runtime, key));
    let p = |e: (TaskText, DebugPendingCommand)|
        e.1.epoch != epoch || e.1.command != DebugCommand::Resume || resumable.contains(e.0);
    lemma_filter_ascending(queued, p);
    assert(list.contains(task) <==> crate::debug::active_in(active, key).contains(task));
    lemma_lookup_found(Seq::<(TaskText, DebugParticipantAcknowledgementModel)>::empty(), task);
}

/// An answer that is taken is what the task said, of the epoch that is under way, and fits what it was told:
/// a task that is to stop does not say that it runs, nor the other way round. What others said stays.
pub proof fn answers_are_recorded_as_given(
    before: CoordinatorServiceModel,
    after: CoordinatorServiceModel,
    key: ProcessText,
    task: TaskText,
    task_definition: Option<Seq<char>>,
    epoch: u64,
    state: DebugAcknowledgementState,
    snapshot: DebugSnapshot,
    r: Result<(), CoordinatorServiceError>,
    other: TaskText,
)
    requires
        only_participants_answer(before),
        state_reported(
            before,
            after,
            key,
            task,
            task_definition,
            epoch,
            state,
            snapshot,
            r,
        ),
    ensures
        only_participants_answer(after),
        r is Err ==> after == before,
        r is Ok ==> {
            &&& lookup(before.debug.epoch_runtime, key) matches Some(runtime)
            &&& runtime.epoch == epoch
            &&& runtime.expected.contains(task)
            &&& state == DebugAcknowledgementState::Frozen ==> runtime.command
                == DebugCommand::Freeze
            &&& state == DebugAcknowledgementState::Running ==> runtime.command
                == DebugCommand::Resume
            &&& lookup(after.debug.epoch_runtime, key) matches Some(then)
            &&& lookup(then.acknowledgements, task) matches Some(said)
            &&& said.state == state && said.task@ == task.4 && said.node@ == task.3 && said.epoch
                == epoch
            &&& other != task ==> lookup(then.acknowledgements, other) == lookup(
                runtime.acknowledgements,
                other,
            )
            &&& then.expected == runtime.expected && then.command == runtime.command && then.epoch
                == runtime.epoch && then.deadline == runtime.deadline
        },
{
    broadcast use lemma_lookup_put;

    if r is Ok {
        let answer = choose|answer: DebugParticipantAcknowledgementModel| #[trigger]
            is_answer(answer, task, task_definition->Some_0, epoch, state, snapshot)
                && acknowledged(before.debug, after.debug, key, task, key.2, answer, r);
        let runtime = lookup(before.debug.epoch_runtime, key)->Some_0;
        lemma_put_ascending(runtime.acknowledgements, task, answer);
        let then = DebugEpochRuntimeModel {
            acknowledgements: crate::ordered_map::put(runtime.acknowledgements, task, answer),
            ..runtime
        };
        lemma_put_ascending(before.debug.epoch_runtime, key, then);
        assert(answers_are_expected(then));
    } else if after != before {
        let answer = choose|answer: DebugParticipantAcknowledgementModel| #[trigger]
            is_answer(answer, task, task_definition->Some_0, epoch, state, snapshot)
                && acknowledged(before.debug, after.debug, key, task, key.2, answer, r);
        assert(acknowledged(before.debug, after.debug, key, task, key.2, answer, r));
    }
}

/// What begins or goes on leaves only participants among those who have answered.
pub proof fn epochs_begin_with_no_answer(
    before: CoordinatorServiceModel,
    after: CoordinatorServiceModel,
    key: ProcessText,
    actor: UserId,
    stopped_task: Option<Seq<char>>,
    expected: Option<u64>,
    operation: Seq<char>,
    command: DebugCommand,
    all_stop: bool,
    reason: Seq<char>,
    active: Set<TaskText>,
    charge: DebugCharge,
    now: u64,
    r: Result<DebugEpoch, CoordinatorServiceError>,
)
    requires
        only_participants_answer(before),
        epoch_controlled(
            before,
            after,
            key,
            actor,
            stopped_task,
            expected,
            operation,
            command,
            all_stop,
            reason,
            active,
            charge,
            now,
            r,
        ),
    ensures
        only_participants_answer(after),
{
    broadcast use lemma_lookup_put;

    if r is Ok {
        let answer = r->Ok_0;
        assert(epoch_ran(
            before,
            after,
            key,
            actor,
            expected,
            command,
            all_stop,
            active,
            now,
            answer,
        ));
        let none = Seq::<(TaskText, DebugParticipantAcknowledgementModel)>::empty();
        assert(ascending(none)) by {
            reveal(ascending);
        }
        assert forall|task: TaskText| (#[trigger] lookup(none, task)) is None by {
            lemma_lookup_found(none, task);
        }
        let runtime = after.debug.epoch_runtime;
        let list = choose|list: Seq<TaskText>| #[trigger]
            epoch_runs(
                before,
                after,
                key,
                actor,
                expected,
                command,
                all_stop,
                active,
                now,
                list,
                answer,
            );
        assert(epoch_runs(
            before,
            after,
            key,
            actor,
            expected,
            command,
            all_stop,
            active,
            now,
            list,
            answer,
        ));
        let begun = DebugEpochRuntimeModel {
            epoch: answer.epoch,
            command,
            expected: crate::debug::participants(before, key, active, command),
            acknowledgements: none,
            deadline: crate::artifact_registry::saturating(now + before.debug_freeze_timeout_ms),
        };
        assert(runtime == crate::ordered_map::put(before.debug.epoch_runtime, key, begun));
        lemma_put_ascending(before.debug.epoch_runtime, key, begun);
        assert(answers_are_expected(begun));
    }
}

/// A probe stops a process exactly where a breakpoint is set on it: then the process is stopped in the epoch
/// that is told, and its breakpoints say where. A probe without a breakpoint changes nothing.
pub proof fn breakpoints_stop_the_process(
    before: CoordinatorServiceModel,
    after: CoordinatorServiceModel,
    key: ProcessText,
    task: TaskText,
    symbol: Seq<char>,
    active: Set<TaskText>,
    charge: DebugCharge,
    now: u64,
    hit: DebugProbeHit,
)
    requires
        ascending(before.debug.epoch_runtime),
        ascending(before.debug.epochs),
        ascending(before.debug.breakpoints),
        probe_reported(before, after, key, task, symbol, active, charge, now, Ok(hit)),
    ensures
        hit.breakpoint_matched <==> (lookup(before.debug.breakpoints, key) matches Some(plan)
            && plan.probe_symbols.contains(symbol)),
        hit.probe_symbol@ == symbol,
        active.contains(task),
        !hit.breakpoint_matched ==> after == before && hit.debug_epoch is None,
        hit.breakpoint_matched ==> {
            &&& lookup(after.debug.epoch_runtime, key) matches Some(runtime)
            &&& runtime.command == DebugCommand::Freeze
            &&& hit.debug_epoch == Some(runtime.epoch)
            &&& lookup(after.debug.breakpoints, key) matches Some(marked)
            &&& marked.hit_epoch == hit.debug_epoch
            &&& marked.hit_task matches Some(at) && at@ == task.4
            &&& marked.hit_probe_symbol matches Some(name) && name@ == symbol
        },
{
    broadcast use lemma_lookup_put;

    if hit.breakpoint_matched {
        let reason = "executing Wasm reached probe `"@ + symbol + "`"@;
        let r = Ok::<DebugProbeHit, CoordinatorServiceError>(hit);
        assert(probe_stops(before, after, key, task.4, symbol, reason, active, charge, now, r));
        let (middle, controlled) = choose|
            middle: CoordinatorServiceModel,
            controlled: Result<DebugEpoch, CoordinatorServiceError>,
        | #[trigger]
            probe_stopped(
                before,
                after,
                middle,
                controlled,
                key,
                task.4,
                symbol,
                reason,
                active,
                charge,
                now,
                r,
            );
        assert(probe_stopped(
            before,
            after,
            middle,
            controlled,
            key,
            task.4,
            symbol,
            reason,
            active,
            charge,
            now,
            r,
        ));
    }
}

/// Breakpoints are what their user last set: a newer revision, or another user, replaces them, an older
/// revision of the same user does not, and those of other processes stay.
pub proof fn breakpoints_are_the_latest_set(
    before: CoordinatorServiceModel,
    after: CoordinatorServiceModel,
    key: ProcessText,
    actor: UserId,
    revision: u64,
    symbols: Seq<Seq<char>>,
    locations: Seq<SourceLocation>,
    charge: DebugCharge,
    r: Result<DebugBreakpoints, CoordinatorServiceError>,
    other: ProcessText,
)
    requires
        processes_keyed(before.coordinator),
        ascending(before.debug.breakpoints),
        breakpoints_set(
            before,
            after,
            key,
            actor,
            revision,
            symbols,
            locations,
            charge,
            r,
        ),
    ensures
        r is Err ==> after.debug.breakpoints == before.debug.breakpoints,
        other != key ==> lookup(after.debug.breakpoints, other) == lookup(
            before.debug.breakpoints,
            other,
        ),
        r is Ok ==> may_debug(before, key, actor),
        r is Ok ==> {
            let stale = lookup(before.debug.breakpoints, key) matches Some(current)
                && current.actor@ == actor@ && revision <= current.revision;
            &&& lookup(after.debug.breakpoints, key) matches Some(plan)
            &&& plan.actor@ == actor@
            &&& stale ==> plan == lookup(before.debug.breakpoints, key)->Some_0
            &&& !stale ==> {
                &&& plan.revision == revision
                &&& forall|symbol: Seq<char>| #[trigger]
                    plan.probe_symbols.contains(symbol) <==> symbols.contains(symbol)
                &&& plan.hit_epoch is None && plan.hit_task is None
            }
            &&& r->Ok_0@.revision == plan.revision
        },
{
    broadcast use lemma_lookup_put;

    lemma_may_debug(before, key, actor);
}

} // verus!
