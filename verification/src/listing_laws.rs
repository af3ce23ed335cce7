//! What is told of what there is: lists hold what they are lists of, and nothing of anyone else's.
use vstd::prelude::*;

use crate::artifact_registry::{ArtifactMetadataModel, ArtifactRegistryModel, evictable, eviction_candidate, is_oldest, scope_of, well_formed};
use crate::coordinator::{ActiveProcessModel, key_visible, latest, processes_in, processes_of, projects_of};
use crate::durable::{AgentPublicKeyRecordModel, DurableStateModel, ProjectRecord};
use crate::ids::{Actor, ScopeText};
use crate::keys::ProcessText;
use crate::logs::{TaskAttempts, event_listed, is_kept_event, snapshots_in};
use crate::main_runtime::overlaid;
use crate::ordered::Ranked;
use crate::ordered_map::{ascending, bound_at, lemma_lookup_at, lemma_lookup_found, lemma_lookup_put, lemma_put_ascending, lookup, values};
use crate::retention_laws::lemma_kept;
use crate::tasks::{TaskAttempt, TaskCompletionEventModel};
use crate::text::byte_len;
use crate::transfer::{ArtifactTransferPhase, ArtifactTransferState, phase_of};

verus! {

/// The events that are listed are those of the project, and of the process where one is named, in their order.
pub proof fn events_are_listed_by_their_process(
    events: Seq<TaskCompletionEventModel>,
    tenant: Seq<char>,
    project: Seq<char>,
    process: Option<Seq<char>>,
    event: TaskCompletionEventModel,
)
    ensures
        events.filter(event_listed(tenant, project, process)).contains(event) <==> events.contains(event)
            && event.tenant@ == tenant && event.project@ == project && (process is Some
            ==> event.process@ == process->Some_0),
{
    lemma_kept(events, event_listed(tenant, project, process), event);
}

/// The attempts that are listed are those at tasks of the process.
pub proof fn attempts_are_listed_by_their_process(
    all: Seq<TaskAttempts>,
    key: ProcessText,
    attempt: TaskAttempt,
)
    ensures
        snapshots_in(all, key).contains(attempt) <==> exists|i: int|
            0 <= i < all.len() && (#[trigger] all[i]).tenant@ == key.0 && all[i].project@ == key.1
                && all[i].process@ == key.2 && all[i].attempts@.contains(attempt),
    decreases all.len(),
{
    if all.len() > 0 {
        let rest = all.drop_last();
        let task = all.last();
        attempts_are_listed_by_their_process(rest, key, attempt);
        let earlier = snapshots_in(rest, key);
        let own = task.attempts@.reverse();
        assert(own.contains(attempt) <==> task.attempts@.contains(attempt)) by {
            if own.contains(attempt) {
                let i = choose|i: int| 0 <= i < own.len() && own[i] == attempt;
                assert(task.attempts@[own.len() - 1 - i] == attempt);
            }
            if task.attempts@.contains(attempt) {
                let i = choose|i: int| 0 <= i < task.attempts@.len() && task.attempts@[i] == attempt;
                assert(own[own.len() - 1 - i] == attempt);
            }
        }
        let here = task.tenant@ == key.0 && task.project@ == key.1 && task.process@ == key.2;
        if here {
            let both = earlier + own;
            assert(both.contains(attempt) <==> earlier.contains(attempt) || own.contains(attempt)) by {
                if earlier.contains(attempt) {
                    let i = choose|i: int| 0 <= i < earlier.len() && earlier[i] == attempt;
                    assert(both[i] == attempt);
                }
                if own.contains(attempt) {
                    let i = choose|i: int| 0 <= i < own.len() && own[i] == attempt;
                    assert(both[earlier.len() + i] == attempt);
                }
            }
        }
        if exists|i: int|
            0 <= i < rest.len() && (#[trigger] rest[i]).tenant@ == key.0 && rest[i].project@ == key.1
                && rest[i].process@ == key.2 && rest[i].attempts@.contains(attempt) {
            let i = choose|i: int|
                0 <= i < rest.len() && (#[trigger] rest[i]).tenant@ == key.0 && rest[i].project@
                    == key.1 && rest[i].process@ == key.2 && rest[i].attempts@.contains(attempt);
            assert(all[i] == rest[i]);
        }
        if here && task.attempts@.contains(attempt) {
            assert(all[all.len() - 1] == task);
        }
        if exists|i: int|
            0 <= i < all.len() && (#[trigger] all[i]).tenant@ == key.0 && all[i].project@ == key.1
                && all[i].process@ == key.2 && all[i].attempts@.contains(attempt) {
            let i = choose|i: int|
                0 <= i < all.len() && (#[trigger] all[i]).tenant@ == key.0 && all[i].project@ == key.1
                    && all[i].process@ == key.2 && all[i].attempts@.contains(attempt);
            if i < rest.len() {
                assert(rest[i] == all[i]);
            }
        }
    }
}

/// An event is kept as it was told, but for tails that are longer than is kept: of those the end is kept, and it
/// says that they were cut.
pub proof fn events_are_kept_as_told(kept: TaskCompletionEventModel, event: TaskCompletionEventModel)
    requires
        is_kept_event(kept, event),
    ensures
        kept.terminal_state == event.terminal_state && kept.result == event.result && kept.task
            == event.task && kept.process == event.process && kept.stdout_bytes == event.stdout_bytes,
        byte_len(event.stdout_tail@) <= 262144 ==> kept.stdout_tail@ == event.stdout_tail@
            && kept.stdout_truncated == event.stdout_truncated,
        byte_len(event.stdout_tail@) > 262144 ==> kept.stdout_truncated,
        byte_len(event.stderr_tail@) <= 262144 ==> kept.stderr_tail@ == event.stderr_tail@
            && kept.stderr_truncated == event.stderr_truncated,
        byte_len(event.stderr_tail@) > 262144 ==> kept.stderr_truncated,
{
}

/// A user sees the keys of the agents that they registered, an agent its own, and nobody else any, and only those
/// of the project.
pub proof fn keys_are_shown_to_their_owner(
    record: AgentPublicKeyRecordModel,
    tenant: Seq<char>,
    project: Seq<char>,
    actor: Actor,
)
    ensures
        key_visible(record, tenant, project, actor) ==> record.tenant@ == tenant && record.project@
            == project,
        record.tenant@ == tenant && record.project@ == project ==> {
            &&& actor matches Actor::User(user) ==> (key_visible(record, tenant, project, actor)
                <==> record.user@ == user@)
            &&& actor matches Actor::Agent(agent) ==> (key_visible(record, tenant, project, actor)
                <==> record.agent@ == agent@)
        },
        actor is Node || actor is Task ==> !key_visible(record, tenant, project, actor),
{
}

/// The projects that are told to a tenant are its own.
pub proof fn tenants_see_their_own_projects(s: DurableStateModel, tenant: Seq<char>, record: ProjectRecord)
    ensures
        projects_of(s, tenant).contains(record) <==> values(s.projects).contains(record)
            && record.tenant@ == tenant,
{
    broadcast use lemma_kept;

}

/// The processes that are told to a tenant are its own.
pub proof fn tenants_see_their_own_processes(
    processes: Seq<(ScopeText, ActiveProcessModel)>,
    tenant: Seq<char>,
    process: ActiveProcessModel,
)
    ensures
        processes_of(processes, tenant).contains(process) <==> values(processes).contains(process)
            && process.tenant@ == tenant,
{
    broadcast use lemma_kept;

}

/// The processes that are told of a project are its own.
pub proof fn projects_have_their_own_processes(
    processes: Seq<(ScopeText, ActiveProcessModel)>,
    tenant: Seq<char>,
    project: Seq<char>,
    process: ActiveProcessModel,
)
    ensures
        processes_in(processes, tenant, project).contains(process) <==> values(processes).contains(
            process,
        ) && process.tenant@ == tenant && process.project@ == project,
{
    broadcast use lemma_kept;

}

/// When a node was last seen is never put back.
pub proof fn sightings_are_not_put_back(known: Option<u64>, at: u64)
    ensures
        latest(known, at) >= at,
        known matches Some(before) ==> latest(known, at) >= before,
        latest(known, at) == at || known == Some(latest(known, at)),
{
}

/// A transfer is complete exactly where it is over, and what is told of one that is under way is where it stands.
pub proof fn phases_tell_where_a_transfer_stands(state: ArtifactTransferState)
    ensures
        phase_of(state) == ArtifactTransferPhase::Complete <==> state == ArtifactTransferState::Completed
            || state == ArtifactTransferState::Failed || state == ArtifactTransferState::Cancelled
            || state == ArtifactTransferState::Expired,
        phase_of(state) == ArtifactTransferPhase::Transferring <==> state
            == ArtifactTransferState::Transferring,
        phase_of(state) == ArtifactTransferPhase::Verifying <==> state == ArtifactTransferState::Verifying,
        phase_of(state) == ArtifactTransferPhase::Connecting <==> state
            == ArtifactTransferState::Connecting,
        phase_of(state) == ArtifactTransferPhase::WaitingForDirect <==> state
            == ArtifactTransferState::WaitingForDirect,
        phase_of(state) == ArtifactTransferPhase::Queued <==> state == ArtifactTransferState::Requested
            || state == ArtifactTransferState::SourceSelected || state
            == ArtifactTransferState::Retrying,
{
}

/// Of what is laid over something, a key finds its own value; what it has none for, is found beneath.
pub proof fn what_lies_above_is_found_first<M: Ranked, X>(a: Seq<(M, X)>, b: Seq<(M, X)>, k: M)
    requires
        ascending(a),
        ascending(b),
    ensures
        ascending(overlaid(a, b)),
        lookup(overlaid(a, b), k) == (if lookup(b, k) is Some {
            lookup(b, k)
        } else {
            lookup(a, k)
        }),
    decreases b.len(),
{
    broadcast use lemma_lookup_put;

    lemma_lookup_found(b, k);
    if b.len() > 0 {
        let rest = b.drop_last();
        assert(ascending(rest)) by {
            reveal(ascending);
        }
        what_lies_above_is_found_first(a, rest, k);
        lemma_put_ascending(overlaid(a, rest), b.last().0, b.last().1);
        lemma_lookup_at(b, b.len() - 1);
        lemma_lookup_found(rest, k);
        if lookup(b, k) is Some && k != b.last().0 {
            let i = choose|i: int| bound_at(b, k, i);
            lemma_lookup_at(b, i);
            assert(rest[i] == b[i]);
            lemma_lookup_at(rest, i);
        }
        if lookup(rest, k) is Some {
            let i = choose|i: int| bound_at(rest, k, i);
            lemma_lookup_at(rest, i);
            assert(b[i] == rest[i]);
            lemma_lookup_at(b, i);
        }
    }
}

/// Where an artifact has to go, the one goes that was flushed first, of those that may.
pub proof fn the_oldest_artifact_goes(
    s: ArtifactRegistryModel,
    tenant: Seq<char>,
    project: Seq<char>,
    pinned: Set<ScopeText>,
    protected: Set<Seq<char>>,
    key: ScopeText,
    other: ScopeText,
)
    requires
        well_formed(s),
        eviction_candidate(s, tenant, project, pinned, protected) == Some(key),
    ensures
        lookup(s.artifacts, key) matches Some(gone) && {
            &&& gone.tenant@ == tenant && gone.project@ == project
            &&& !pinned.contains(key) && !protected.contains(gone.process@)
            &&& gone.explicit_locations.len() == 0
            &&& lookup(s.artifacts, other) matches Some(metadata) ==> (evictable(
                s,
                tenant,
                project,
                pinned,
                protected,
                (other, metadata),
            ) ==> gone.flushed_epoch <= metadata.flushed_epoch)
        },
{
    let p = |e: (ScopeText, ArtifactMetadataModel)|
        evictable(s, tenant, project, pinned, protected, e);
    let i = choose|i: int| is_oldest(s.artifacts, p, i);
    assert(is_oldest(s.artifacts, p, i));
    lemma_lookup_at(s.artifacts, i);
    assert(s.artifacts[i].0 == scope_of(s.artifacts[i].1));
    lemma_lookup_found(s.artifacts, other);
    if lookup(s.artifacts, other) is Some {
        let j = choose|j: int| bound_at(s.artifacts, other, j);
        lemma_lookup_at(s.artifacts, j);
        if p(s.artifacts[j]) {
            assert(s.artifacts[i].1.flushed_epoch <= s.artifacts[j].1.flushed_epoch);
        }
    }
}

} // verus!
