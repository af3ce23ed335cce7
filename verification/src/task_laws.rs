//! What a task leaves: its output, its end, and what its process comes to.
use vstd::prelude::*;

use crate::automation::ProcessFinalResult;
use crate::duplicate::{option_view, views};
use crate::keys::ProcessText;
use crate::logs::{ArtifactClaim, CompletionFacts, FinalLogStreamAcceptance, LogChunk, LogChunkRecord, LogStreamState, ProcessFacts, ProcessRetirement, ProcessSightings, TaskCompletion, TaskCompletionReport, attempt_finished, chunk_charge, chunk_recorded, chunk_taken, completion_taken, events_open, final_charge, is_completion_event, is_join, retirement, stream_finished, task_completed};
use crate::ordered_map::{ascending, lemma_lookup_delete, lookup};
use crate::service::CoordinatorServiceModel;
use crate::tasks::{TaskAttempt, TaskAttemptState, TaskCompletionEventModel, TaskFailurePolicy, TaskJoinResult, TaskJoinState, TaskTerminalState};
use crate::text::byte_len;

verus! {

/// Output is counted up to where it reaches, and never back. What a quota is charged for a part is what the
/// part adds to the count, and a part that adds nothing is charged nothing.
pub proof fn output_is_charged_as_it_is_counted(
    before: LogStreamState,
    after: LogStreamState,
    chunk: LogChunk,
    granted: bool,
    r: LogChunkRecord,
)
    requires
        chunk.offset + chunk.source_bytes <= u64::MAX,
        chunk_recorded(before, after, chunk, granted, r),
    ensures
        chunk_charge(before, chunk) matches Some(charge) ==> charge == after.accounted
            - before.accounted,
        chunk_charge(before, chunk) is None ==> before.quota_truncated || after == before,
        after.accounted == (if chunk.offset + chunk.source_bytes > before.accounted {
            chunk.offset + chunk.source_bytes
        } else {
            before.accounted as int
        }),
        r.next_offset == after.accounted,
        after.source_truncated ==> before.source_truncated || chunk.truncated,
        before.source_truncated ==> after.source_truncated,
        before.quota_truncated ==> after.quota_truncated,
        granted && !before.quota_truncated ==> !after.quota_truncated,
{
}

/// A part that follows on what came before it is kept as it is; of a part that was refused by the quota, and
/// of every later one, nothing is kept; a part that leaves a gap is preceded by a line that tells of it.
pub proof fn output_that_follows_is_kept(
    before: LogStreamState,
    after: LogStreamState,
    chunk: LogChunk,
    granted: bool,
    r: LogChunkRecord,
)
    requires
        chunk.offset + chunk.source_bytes <= u64::MAX,
        chunk_recorded(before, after, chunk, granted, r),
        chunk.source_bytes > 0,
        chunk.text@.len() > 0,
    ensures
        chunk.offset == before.accounted && granted && !before.quota_truncated ==> {
            &&& r.lines@.len() == 1
            &&& r.lines@[0].text@ == chunk.text@
            &&& r.lines@[0].truncated == chunk.truncated
            &&& r.sequenced
        },
        chunk.offset > before.accounted && granted && !before.quota_truncated ==> {
            &&& r.lines@.len() == 2
            &&& r.lines@[0].truncated
            &&& r.lines@[1].text@ == chunk.text@
            &&& r.sequenced
        },
        before.quota_truncated ==> r.lines@.len() == 0 && !r.sequenced,
        chunk.offset >= before.accounted && !granted && !before.quota_truncated ==> {
            &&& r.lines@.len() == 1
            &&& r.lines@[0].text@ == "[log output truncated at project log quota]"@
            &&& after.quota_truncated
        },
        chunk.offset + chunk.source_bytes <= before.accounted ==> r.lines@.len() == 0 && after == before,
{
    let shown = views(r.lines@);
    assert(shown.len() == r.lines@.len());
    if r.lines@.len() > 0 {
        assert(shown[0] == r.lines@[0]@);
    }
    if r.lines@.len() > 1 {
        assert(shown[1] == r.lines@[1]@);
    }
}

/// The end of a stream is charged what it adds to the count; a stream that the quota refuses is not kept.
pub proof fn the_end_is_charged_as_it_is_counted(
    state: LogStreamState,
    reported: u64,
    tail: Seq<char>,
    cut: bool,
    granted: bool,
)
    ensures
        ({
            let (lines, after, end) = stream_finished(state, reported, tail, cut, granted);
            &&& final_charge(state, reported) matches Some(charge) ==> charge == after.accounted
                - state.accounted
            &&& after.accounted == (if reported > state.accounted {
                reported
            } else {
                state.accounted
            })
            &&& end.total_source_bytes == after.accounted
            &&& end.retained <==> granted && !state.quota_truncated
            &&& end.source_truncated <==> cut || reported < state.accounted
            &&& !granted || state.quota_truncated ==> after.quota_truncated
        }),
{
}

/// Only a node that is enrolled in the project reports output, of a process that is active or stops, in parts
/// that are small enough.
pub proof fn output_comes_from_nodes_of_the_project(
    s: CoordinatorServiceModel,
    key: ProcessText,
    node: Seq<char>,
    stopping: bool,
    chunk: LogChunk,
)
    requires
        chunk_taken(s, key, node, stopping, chunk),
    ensures
        lookup(s.coordinator.durable.node_identities, (key.0, key.1, node)) is Some,
        lookup(s.coordinator.active_processes, key) is Some || stopping,
        byte_len(chunk.text@) <= 16 * 1024,
        chunk.source_bytes == 0 && chunk.text@.len() > 0 ==> chunk.truncated,
{
}

/// A task is joined with its result exactly where it has ended, and while an attempt of it goes on or waits
/// for an operator it has not. What the join tells is what the task's end told.
pub proof fn joins_tell_how_the_task_ended(
    r: TaskJoinResult,
    process: Seq<char>,
    task: Seq<char>,
    attempt: Option<TaskAttemptState>,
    event: Option<TaskCompletionEventModel>,
    known: bool,
)
    requires
        is_join(r, process, task, attempt, event, known),
    ensures
        ({
            let goes_on = attempt == Some(TaskAttemptState::Queued) || attempt == Some(
                TaskAttemptState::Running,
            ) || attempt == Some(TaskAttemptState::FailedAwaitingAction);
            &&& r.state == TaskJoinState::Pending <==> goes_on || event is None
            &&& r.state == TaskJoinState::Completed <==> !goes_on && (event matches Some(end)
                && end.terminal_state == TaskTerminalState::Completed)
            &&& r.state == TaskJoinState::Failed <==> !goes_on && (event matches Some(end)
                && end.terminal_state == TaskTerminalState::Failed)
            &&& r.state == TaskJoinState::Cancelled <==> !goes_on && (event matches Some(end)
                && end.terminal_state == TaskTerminalState::Cancelled)
            &&& r.state == TaskJoinState::Pending ==> r.result is None && r.node is None
                && r.status_code is None && r.process@ == process && r.task@ == task
            &&& r.state != TaskJoinState::Pending ==> {
                &&& option_view(r.result) == event->Some_0.result
                &&& r.status_code == event->Some_0.status_code
                &&& option_view(r.node) == Some(event->Some_0.node@)
                &&& r.task@ == event->Some_0.task@
            }
        }),
{
}

/// Only the node that a task was assigned to ends it, and only a node that is enrolled in the project where it
/// reports itself, of a process that is active or stops.
pub proof fn tasks_are_ended_by_the_node_they_were_assigned_to(
    s: CoordinatorServiceModel,
    key: ProcessText,
    report: TaskCompletionReport,
    facts: CompletionFacts,
)
    requires
        completion_taken(s, key, report, facts),
    ensures
        facts.assigned matches Some(assigned) && assigned.0@ == report.node@,
        facts.origin is SignedNode ==> lookup(
            s.coordinator.durable.node_identities,
            (key.0, key.1, report.node@),
        ) is Some && (lookup(s.coordinator.active_processes, key) is Some || facts.stopping),
        report.artifact_path is Some ==> facts.path_checked is Ok,
        byte_len(report.logs.stdout_tail@) <= 256 * 1024,
        byte_len(report.logs.stderr_tail@) <= 256 * 1024,
{
}

/// The attempt at a task ends as the task does: it completes, fails or is cancelled. One that fails under the
/// policy that an operator decides waits for the operator, and no other does.
pub proof fn attempts_end_as_their_task_does(
    before: Option<TaskAttempt>,
    after: Option<TaskAttempt>,
    event: TaskCompletionEventModel,
    told: TaskCompletionEventModel,
)
    requires
        attempt_finished(before, after, event, told),
    ensures
        before is Some <==> after is Some,
        after matches Some(ended) ==> {
            let started = before->Some_0;
            let waits = event.terminal_state == TaskTerminalState::Failed && started.failure_policy
                == TaskFailurePolicy::AwaitOperator;
            &&& ended.state == TaskAttemptState::Completed <==> event.terminal_state
                == TaskTerminalState::Completed
            &&& ended.state == TaskAttemptState::Cancelled <==> event.terminal_state
                == TaskTerminalState::Cancelled
            &&& ended.state == TaskAttemptState::FailedAwaitingAction <==> waits
            &&& ended.state == TaskAttemptState::Failed <==> event.terminal_state
                == TaskTerminalState::Failed && !waits
            &&& ended.attempt_id == started.attempt_id && told.attempt_id == Some(started.attempt_id)
            &&& ended.status_code == event.status_code
            &&& ended.artifact_digest == event.artifact_digest
            &&& ended.failure_policy == started.failure_policy
        },
        told.terminal_state == event.terminal_state && told.result == event.result && told.task
            == event.task,
{
}

/// The event that tells of a task's end tells what the node reported, under the task that was assigned.
/// Whoever waits for the task is told, unless an operator is to decide on it, and no longer waits. Nothing
/// else waits less, and the node has no command of a debugger left for the task.
pub proof fn ends_are_told_as_reported(
    before: CoordinatorServiceModel,
    after: CoordinatorServiceModel,
    key: ProcessText,
    report: TaskCompletionReport,
    facts: CompletionFacts,
    claims: Seq<ArtifactClaim>,
    out: (Seq<(Seq<char>, bool)>, LogStreamState, FinalLogStreamAcceptance),
    err: (Seq<(Seq<char>, bool)>, LogStreamState, FinalLogStreamAcceptance),
    attempt: Option<TaskAttempt>,
    ended: Option<TaskAttempt>,
    completion: TaskCompletion,
    other: (Seq<char>, Seq<char>, Seq<char>, Seq<char>),
    command: (Seq<char>, Seq<char>, Seq<char>, Seq<char>, Seq<char>),
)
    requires
        ascending(before.debug.commands),
        task_completed(
            before,
            after,
            key,
            report,
            facts,
            claims,
            out,
            err,
            attempt,
            ended,
            completion,
        ),
    ensures
        ({
            let event = completion.event@;
            let task = (key.0, key.1, key.2, report.task@);
            let operator = (attempt matches Some(started) && started.failure_policy
                == TaskFailurePolicy::AwaitOperator) && report.terminal_state
                == TaskTerminalState::Failed;
            &&& event.tenant@ == key.0 && event.project@ == key.1 && event.process@ == key.2
            &&& event.task@ == report.task@ && event.node@ == report.node@
            &&& facts.assigned matches Some(assigned) && event.task_definition@ == assigned.1@
            &&& event.terminal_state == report.terminal_state
            &&& event.status_code == report.status_code
            &&& event.result == option_view(report.result)
            &&& event.artifact_path == report.artifact_path
            &&& event.artifact_digest == report.artifact_digest
            &&& event.stdout_bytes == out.2.total_source_bytes
            &&& event.stderr_bytes == err.2.total_source_bytes
            &&& out.2.retained ==> event.stdout_tail@ == report.logs.stdout_tail@
            &&& report.logs.stdout_truncated ==> event.stdout_truncated
            &&& !out.2.retained ==> event.stdout_truncated && event.stdout_tail@
                == "[log output truncated at project log quota]"@
            &&& completion.awaiting_operator <==> operator
            &&& completion.notice is Some <==> before.mains.join_waiters.contains(task) && !operator
            &&& completion.notice matches Some(notice) ==> (notice is Ok <==> report.terminal_state
                == TaskTerminalState::Completed && report.result is Some)
            &&& after.mains.join_waiters.contains(other) <==> before.mains.join_waiters.contains(other)
                && (other != task || operator)
            &&& lookup(after.debug.commands, command) == (if command == (
                key.0,
                key.1,
                key.2,
                report.node@,
                report.task@,
            ) {
                None
            } else {
                lookup(before.debug.commands, command)
            })
            &&& after.coordinator == before.coordinator
            &&& after.debug.epochs == before.debug.epochs
            &&& completion.drop_checkpoint == facts.process_was_aborted
        }),
{
    broadcast use lemma_lookup_delete;

    let event = choose|event: TaskCompletionEventModel| #[trigger]
        is_completion_event(event, key, report, facts, out.2, err.2) && attempt_finished(
            attempt,
            ended,
            event,
            completion.event@,
        );
    assert(is_completion_event(event, key, report, facts, out.2, err.2));
}

/// A process goes on exactly while its main runs, work of it can run elsewhere, or neither its main has
/// completed nor it was cancelled. It ends cancelled where it was cancelled, failed where a task of it failed,
/// cancelled where one was, and completed otherwise.
pub proof fn processes_end_as_their_tasks_did(
    s: CoordinatorServiceModel,
    key: ProcessText,
    facts: ProcessFacts,
    r: ProcessRetirement,
)
    requires
        r == retirement(s, key, facts),
    ensures
        r == ProcessRetirement::GoesOn <==> lookup(s.mains.controls, key) is Some
            || facts.runnable_remote_work || (!facts.main_completed && !facts.cancelled),
        r is Ended ==> lookup(s.coordinator.active_processes, key) is Some,
        r is ControlCleared ==> lookup(s.coordinator.active_processes, key) is None,
        r matches ProcessRetirement::Ended(how) ==> {
            &&& facts.cancelled ==> how == ProcessFinalResult::Cancelled
            &&& !facts.cancelled && facts.any_task_failed ==> how == ProcessFinalResult::Failed
            &&& !facts.cancelled && !facts.any_task_failed && facts.any_task_cancelled ==> how
                == ProcessFinalResult::Cancelled
            &&& !facts.cancelled && !facts.any_task_failed && !facts.any_task_cancelled ==> how
                == ProcessFinalResult::Completed
        },
{
}

/// What happened in a process is told to those of its project, and to no other where the process is known
/// elsewhere.
pub proof fn events_are_told_within_the_project(
    s: CoordinatorServiceModel,
    key: ProcessText,
    sightings: ProcessSightings,
)
    ensures
        lookup(s.coordinator.active_processes, key) is Some ==> events_open(s, key, sightings),
        sightings.seen_in_scope ==> events_open(s, key, sightings),
        sightings.seen_outside_scope && !sightings.seen_in_scope && lookup(
            s.coordinator.active_processes,
            key,
        ) is None ==> !events_open(s, key, sightings),
        !events_open(s, key, sightings) ==> sightings.seen_outside_scope || exists|i: int|
            0 <= i < s.coordinator.active_processes.len() && (
            #[trigger] s.coordinator.active_processes[i]).1.id@ == key.2,
{
}

} // verus!
