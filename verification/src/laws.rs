//! What holds of the coordinator as a whole, over several of its operations.
use vstd::prelude::*;

use crate::admin::{with_suspension, without_suspension};
use crate::automated_run::{AcceptedCommitTriggerRecord, AutomatedRunStageRecord, AutomatedRunStageRecordModel, AutomationStateModel};
use crate::automation::{MAX_QUEUED_RUNS_PER_PROJECT, MAX_RUNS_PER_PROJECT, RetryDigests, compacted, delivered, excess_runs, first_ids, gone_triggers, is_digest_text, keys_of, newly_delivered, project_runs, retried, retry_made, retry_refusal, run_in, run_of_key, run_waits, waiting_runs, with_run};
use crate::coordinator::{ActiveProcess, ActiveProcessModel, CoordinatorError, CoordinatorModel, account_active, account_status, booted, debug_attach_reason, has_policy, node_revoked, persisted, process_aborted, processes_key, processes_keyed, reconnected};
use crate::durable::{DurableStateModel, NodeIdentityRecord, ServicePolicyRecord};
use crate::ids::{Actor, AuthContext, ProcessId, ScopeText, TenantId, UserId, node_subject, node_subjects_are_distinct};
use crate::keyed::{holds_keys, lemma_found_holds_key};
use crate::ordered::Ranked;
use crate::ordered_map::{ascending, below, lemma_count_delete, lemma_count_put, lemma_filter_ascending, lemma_filter_fewer, lemma_lookup_at, lemma_lookup_delete, lemma_lookup_found, lemma_lookup_put, lemma_put_ascending, lookup, put};
use crate::service_error::CoordinatorServiceError;

verus! {

/// A restart keeps what is durable and drops every process: the coordinator that boots from what another
/// one persisted has the same state, and no process is active in its epoch.
pub proof fn a_restart_keeps_the_state_and_drops_the_processes(
    before: CoordinatorModel,
    stored: DurableStateModel,
    epoch: u64,
    after: CoordinatorModel,
)
    requires
        persisted(before, stored),
        booted(stored, epoch, after),
    ensures
        after == (CoordinatorModel {
            active_processes: Seq::empty(),
            coordinator_epoch: epoch,
            ..before
        }),
        forall|key: ScopeText| (#[trigger] lookup(after.active_processes, key)) is None,
        processes_keyed(after),
{
    reveal(lookup);
    reveal(ascending);
    assert(after.active_processes =~= Seq::empty());
}

/// A debugger attaches by the permission for the tenant and the project that it names.
pub proof fn debuggers_need_the_permission_they_ask_for(
    s: CoordinatorModel,
    tenant: Seq<char>,
    project: Seq<char>,
    user: UserId,
    process: Seq<char>,
)
    requires
        processes_keyed(s),
    ensures
        debug_attach_reason(s, tenant, project, Actor::User(user), process).0 <==> lookup(
            s.active_processes,
            (tenant, project, process),
        ) is Some && (lookup(
            s.durable.project_permissions,
            (tenant, project, user@),
        ) matches Some(permission) && permission.can_debug),
{
    broadcast use lemma_found_holds_key;

    assert(holds_keys(s.active_processes, processes_key()));
}

/// A node that connects again for a process of an earlier epoch is refused, and nothing changes.
pub proof fn stale_epochs_are_refused(
    restarted: CoordinatorModel,
    after: CoordinatorModel,
    tenant: Seq<char>,
    project: Seq<char>,
    node: Seq<char>,
    process: &ProcessId,
    epoch: u64,
    r: Result<(), CoordinatorError>,
)
    requires
        lookup(restarted.durable.node_identities, (tenant, project, node)) is Some,
        epoch != restarted.coordinator_epoch,
        reconnected(restarted, after, tenant, project, node, Some((process, epoch)), r),
    ensures
        r == Err::<(), CoordinatorError>(
            CoordinatorError::StaleProcessEpoch {
                stale_epoch: epoch,
                current_epoch: restarted.coordinator_epoch,
            },
        ),
        after == restarted,
{
}

/// Processes of the same name are kept apart by tenant and project: aborting one leaves every other as
/// it is.
pub proof fn aborting_spares_other_scopes(
    before: CoordinatorModel,
    after: CoordinatorModel,
    key: ScopeText,
    other: ScopeText,
    r: Result<ActiveProcess, CoordinatorError>,
)
    requires
        ascending(before.active_processes),
        process_aborted(before, after, key.0, key.1, key.2, r),
    ensures
        lookup(after.active_processes, key) is None,
        other != key ==> lookup(after.active_processes, other) == lookup(
            before.active_processes,
            other,
        ),
        after.durable == before.durable,
{
    broadcast use lemma_lookup_delete;

}

/// Starting a process leaves every process of another name, tenant or project as it is.
pub proof fn starting_spares_other_scopes(
    before: Seq<(ScopeText, ActiveProcessModel)>,
    key: ScopeText,
    process: ActiveProcessModel,
    other: ScopeText,
)
    requires
        ascending(before),
    ensures
        lookup(put(before, key, process), key) == Some(process),
        other != key ==> lookup(put(before, key, process), other) == lookup(before, other),
{
    broadcast use lemma_lookup_put;

}

/// Revoking the credential of a node ends its identity and its credential, and those of no other node,
/// also where a node of another project has the same name.
pub proof fn revocation_is_scoped(
    before: CoordinatorModel,
    after: CoordinatorModel,
    context: AuthContext,
    node: Seq<char>,
    other: ScopeText,
    r: Result<NodeIdentityRecord, CoordinatorError>,
)
    requires
        ascending(before.durable.node_identities),
        ascending(before.durable.credentials),
        node_revoked(before, after, context, node, r),
        r is Ok,
    ensures
        ({
            let scope = (context.tenant@, context.project@, node);
            &&& lookup(after.durable.node_identities, scope) is None
            &&& lookup(after.durable.credentials, node_subject(scope)) is None
            &&& other != scope ==> {
                &&& lookup(after.durable.node_identities, other) == lookup(
                    before.durable.node_identities,
                    other,
                )
                &&& lookup(after.durable.credentials, node_subject(other)) == lookup(
                    before.durable.credentials,
                    node_subject(other),
                )
            }
        }),
{
    broadcast use lemma_lookup_delete;

    let scope = (context.tenant@, context.project@, node);
    if other != scope && node_subject(other) == node_subject(scope) {
        node_subjects_are_distinct(other, scope);
    }
}

/// A debugger attaches only for a user, to a process that is active in the scope of the user, and only
/// where the user was given the right to debug the project.
pub proof fn attaching_takes_an_explicit_right(s: CoordinatorModel, tenant: Seq<char>, project: Seq<char>, actor: Actor, process: Seq<char>)
    requires
        debug_attach_reason(s, tenant, project, actor, process).0,
    ensures
        lookup(s.active_processes, (tenant, project, process)) matches Some(active) && (
        actor matches Actor::User(user) && (lookup(
            s.durable.project_permissions,
            (active.tenant@, active.project@, user@),
        ) matches Some(right) && right.can_debug)),
{
}

proof fn lemma_policy_names()
    ensures
        "tenant:suspended"@ != "tenant:deleted"@,
        "tenant:suspended"@ != "tenant:disabled"@,
        "tenant:suspended"@ != "tenant:manual_review"@,
{
    reveal_strlit("tenant:suspended");
    reveal_strlit("tenant:deleted");
    reveal_strlit("tenant:disabled");
    reveal_strlit("tenant:manual_review");
    assert("tenant:suspended"@[7] == 's');
    assert("tenant:deleted"@[7] == 'd');
    assert("tenant:disabled"@[7] == 'd');
    assert("tenant:manual_review"@[7] == 'm');
}

/// A tenant that is suspended is not active, and every other tenant stands as it did.
pub proof fn suspension_stops_one_tenant(s: DurableStateModel, tenant: TenantId, policy: ServicePolicyRecord, other: Seq<char>)
    requires
        ascending(s.service_policy_records),
    ensures
        ({
            let after = with_suspension(s, tenant, policy);
            &&& !account_active(after, tenant@)
            &&& has_policy(after, tenant@, "tenant:suspended"@)
            &&& other != tenant@ ==> account_active(after, other) == account_active(s, other)
            &&& other != tenant@ ==> account_status(after, other) == account_status(s, other)
        }),
{
    broadcast use lemma_lookup_put;

}

/// Suspending is undone by resuming: every policy is as it was, for a tenant that was not suspended, and
/// a tenant that was active is active again.
pub proof fn resuming_undoes_suspending(s: DurableStateModel, tenant: TenantId, policy: ServicePolicyRecord, other: Seq<char>, name: Seq<char>)
    requires
        ascending(s.service_policy_records),
        ascending(with_suspension(s, tenant, policy).service_policy_records),
        !has_policy(s, tenant@, "tenant:suspended"@),
    ensures
        ({
            let after = without_suspension(with_suspension(s, tenant, policy), tenant@);
            &&& lookup(after.service_policy_records, (other, name)) == lookup(
                s.service_policy_records,
                (other, name),
            )
            &&& account_active(after, tenant@) == account_active(s, tenant@)
            &&& account_status(after, tenant@) == account_status(s, tenant@)
        }),
{
    broadcast use lemma_lookup_put, lemma_lookup_delete;

    lemma_policy_names();
}

proof fn lemma_put_bound<M: Ranked, X>(s: Seq<(M, X)>, k: M, x: X)
    requires
        ascending(put(s, k, x)),
    ensures
        lookup(put(s, k, x), k) == Some(x),
{
    reveal(put);
    let at = below(s, k).len() as int;
    assert(put(s, k, x)[at] == (k, x));
    lemma_lookup_at(put(s, k, x), at);
}

/// The maps of a state are in order.
pub open spec fn in_order(s: AutomationStateModel) -> bool {
    &&& ascending(s.trigger_deliveries)
    &&& ascending(s.accepted_commit_triggers)
    &&& ascending(s.automated_run_keys)
    &&& ascending(s.automated_runs)
}

/// A push is taken once: a delivery that comes again, with the same body, changes nothing and is answered
/// with the run that it led to.
pub proof fn deliveries_are_taken_once(
    before: AutomationStateModel,
    once: AutomationStateModel,
    twice: AutomationStateModel,
    accepted: AcceptedCommitTriggerRecord,
    first: Result<AutomatedRunStageRecord, CoordinatorServiceError>,
    second: Result<AutomatedRunStageRecord, CoordinatorServiceError>,
)
    requires
        in_order(once),
        lookup(
            before.trigger_deliveries,
            (accepted.binding_id@, accepted.trigger.delivery_id@),
        ) is None,
        delivered(before, once, accepted, first),
        first is Ok,
        delivered(once, twice, accepted, second),
    ensures
        twice == once,
        second matches Ok(again) && again@ == first->Ok_0@,
{
    let (room, q) = choose|room: AutomationStateModel, q: Seq<(u64, Seq<char>)>| #[trigger]
        newly_delivered(before, once, accepted, first, room, q);
    let delivery = (accepted.binding_id@, accepted.trigger.delivery_id@);
    let key = accepted.trigger.run_identity@;
    let known = lookup(before.automated_run_keys, key);
    let run_id = match known {
        Some(id) => id,
        None => run_of_key(key),
    };
    lemma_put_bound(room.trigger_deliveries, delivery, accepted.trigger.trigger_id@);
    lemma_put_bound(room.accepted_commit_triggers, accepted.trigger.trigger_id@, accepted);
    lemma_put_bound(room.automated_run_keys, key, run_id);
    lemma_put_bound(room.automated_runs, run_id, first->Ok_0@);
}

/// The keys of a state lead to its runs, each to the run that was made for it. Every run has the
/// identifier that is made from its key, and is found by that key.
pub open spec fn keys_lead_to_runs(s: AutomationStateModel) -> bool {
    &&& forall|key: Seq<char>|
        (#[trigger] lookup(s.automated_run_keys, key)) matches Some(id) ==> (lookup(
            s.automated_runs,
            id,
        ) matches Some(record) && record.run_key@ == key)
    &&& forall|id: Seq<char>|
        (#[trigger] lookup(s.automated_runs, id)) matches Some(record) ==> is_digest_text(
            record.run_key@,
        ) && id == run_of_key(record.run_key@) && record.run.run_id@ == id && lookup(
            s.automated_run_keys,
            record.run_key@,
        ) == Some(id)
}

/// Two keys that are digests make two identifiers.
pub proof fn keys_make_distinct_runs(a: Seq<char>, b: Seq<char>)
    requires
        is_digest_text(a),
        is_digest_text(b),
        run_of_key(a) == run_of_key(b),
    ensures
        a == b,
{
    reveal_strlit("sha256:");
    let lead = "run-"@;
    assert(a.skip(7) =~= run_of_key(a).skip(lead.len() as int));
    assert(b.skip(7) =~= run_of_key(b).skip(lead.len() as int));
    assert(a =~= a.take(7) + a.skip(7));
    assert(b =~= b.take(7) + b.skip(7));
}

pub(crate) proof fn lemma_compaction_keeps_keys(
    before: AutomationStateModel,
    after: AutomationStateModel,
    tenant: Seq<char>,
    project: Seq<char>,
    q: Seq<(u64, Seq<char>)>,
)
    requires
        in_order(before),
        keys_lead_to_runs(before),
        compacted(before, after, tenant, project, q),
    ensures
        in_order(after),
        keys_lead_to_runs(after),
{
    if after != before {
        let ids = first_ids(q, excess_runs(before, tenant, project));
        let keys = keys_of(before.automated_runs, ids);
        let triggers = gone_triggers(before, tenant, project, ids);
        let run_stays = |e: (Seq<char>, AutomatedRunStageRecordModel)| !ids.contains(e.0);
        let key_stays = |e: (Seq<char>, Seq<char>)| !keys.contains(e.0);
        let trigger_stays = |e: (Seq<char>, AcceptedCommitTriggerRecord)| !triggers.contains(e.0);
        let delivery_stays = |e: ((Seq<char>, Seq<char>), Seq<char>)| !triggers.contains(e.1);
        assert(after.automated_runs == before.automated_runs.filter(run_stays));
        assert(after.automated_run_keys == before.automated_run_keys.filter(key_stays));
        assert(after.accepted_commit_triggers == before.accepted_commit_triggers.filter(
            trigger_stays,
        ));
        assert(after.trigger_deliveries == before.trigger_deliveries.filter(delivery_stays));
        lemma_filter_ascending(before.automated_runs, run_stays);
        lemma_filter_ascending(before.automated_run_keys, key_stays);
        lemma_filter_ascending(before.accepted_commit_triggers, trigger_stays);
        lemma_filter_ascending(before.trigger_deliveries, delivery_stays);
        assert forall|key: Seq<char>|
            (#[trigger] lookup(after.automated_run_keys, key)) is Some implies lookup(
            after.automated_runs,
            lookup(after.automated_run_keys, key)->Some_0,
        ) matches Some(record) && record.run_key@ == key by {
            let id = lookup(before.automated_run_keys, key)->Some_0;
            let runs = before.automated_runs;
            lemma_lookup_found(runs, id);
            if ids.contains(id) {
                let i = choose|i: int| 0 <= i < runs.len() && (#[trigger] runs[i]).0 == id;
                lemma_lookup_at(runs, i);
                assert(keys.contains(key));
            }
        }
        assert forall|id: Seq<char>|
            (#[trigger] lookup(after.automated_runs, id)) is Some implies lookup(
            after.automated_run_keys,
            lookup(after.automated_runs, id)->Some_0.run_key@,
        ) == Some(id) by {
            let runs = before.automated_runs;
            let key = lookup(runs, id)->Some_0.run_key@;
            if keys.contains(key) {
                let i = choose|i: int|
                    0 <= i < runs.len() && ids.contains((#[trigger] runs[i]).0)
                        && runs[i].1.run_key@ == key;
                lemma_lookup_at(runs, i);
                assert(runs[i].0 == id);
            }
        }
    }
}

/// A push leaves the keys leading to the runs that were made for them.
pub proof fn deliveries_keep_the_keys(
    before: AutomationStateModel,
    after: AutomationStateModel,
    accepted: AcceptedCommitTriggerRecord,
    r: Result<AutomatedRunStageRecord, CoordinatorServiceError>,
)
    requires
        in_order(before),
        keys_lead_to_runs(before),
        is_digest_text(accepted.trigger.run_identity@),
        delivered(before, after, accepted, r),
    ensures
        in_order(after),
        keys_lead_to_runs(after),
{
    broadcast use lemma_lookup_put;

    let delivery = (accepted.binding_id@, accepted.trigger.delivery_id@);
    if lookup(before.trigger_deliveries, delivery) is None {
        let (room, q) = choose|room: AutomationStateModel, q: Seq<(u64, Seq<char>)>| #[trigger]
            newly_delivered(before, after, accepted, r, room, q);
        let key = accepted.trigger.run_identity@;
        let known = lookup(before.automated_run_keys, key);
        if after != before {
            if known is None {
                lemma_compaction_keeps_keys(before, room, accepted.tenant@, accepted.project@, q);
            }
            if r is Ok {
                let run_id = match known {
                    Some(id) => id,
                    None => run_of_key(key),
                };
                lemma_put_ascending(room.trigger_deliveries, delivery, accepted.trigger.trigger_id@);
                lemma_put_ascending(
                    room.accepted_commit_triggers,
                    accepted.trigger.trigger_id@,
                    accepted,
                );
                lemma_put_ascending(room.automated_run_keys, key, run_id);
                lemma_put_ascending(room.automated_runs, run_id, r->Ok_0@);
                if lookup(room.automated_runs, run_id) is Some {
                    let existing = lookup(room.automated_runs, run_id)->Some_0;
                    if known is None {
                        keys_make_distinct_runs(key, existing.run_key@);
                    }
                    assert(existing.run_key@ == key);
                }
                assert(r->Ok_0@.run_key@ == key);
                assert forall|k: Seq<char>|
                    (#[trigger] lookup(after.automated_run_keys, k)) is Some implies lookup(
                    after.automated_runs,
                    lookup(after.automated_run_keys, k)->Some_0,
                ) matches Some(record) && record.run_key@ == k by {
                    if k != key {
                        let id = lookup(room.automated_run_keys, k)->Some_0;
                        assert(lookup(room.automated_runs, id)->Some_0.run_key@ == k);
                    }
                }
                assert forall|id: Seq<char>|
                    (#[trigger] lookup(after.automated_runs, id)) is Some implies lookup(
                    after.automated_run_keys,
                    lookup(after.automated_runs, id)->Some_0.run_key@,
                ) == Some(id) by {
                    if id != run_id {
                        assert(lookup(room.automated_runs, id)->Some_0.run_key@ != key);
                    }
                }
            }
        }
    }
}

/// What changes a run, and neither its key nor its identifier, leaves the keys leading to the runs that
/// were made for them.
pub proof fn changes_of_a_run_keep_the_keys(
    s: AutomationStateModel,
    id: Seq<char>,
    record: AutomatedRunStageRecordModel,
)
    requires
        in_order(s),
        keys_lead_to_runs(s),
        lookup(s.automated_runs, id) matches Some(earlier) && earlier.run_key@ == record.run_key@
            && earlier.run.run_id@ == record.run.run_id@,
    ensures
        in_order(with_run(s, id, record)),
        keys_lead_to_runs(with_run(s, id, record)),
{
    broadcast use lemma_lookup_put;

    lemma_put_ascending(s.automated_runs, id, record);
}

/// A retry leaves the keys leading to the runs that were made for them.
pub proof fn retries_keep_the_keys(
    before: AutomationStateModel,
    after: AutomationStateModel,
    run_id: Seq<char>,
    retries: Seq<RetryDigests>,
    now: u64,
    r: Result<AutomatedRunStageRecord, CoordinatorServiceError>,
)
    requires
        in_order(before),
        keys_lead_to_runs(before),
        forall|i: int|
            0 <= i < retries.len() ==> is_digest_text((#[trigger] retries[i]).run_key@),
        retry_made(before, after, run_id, retries, now, r),
    ensures
        in_order(after),
        keys_lead_to_runs(after),
{
    broadcast use lemma_lookup_put;

    let (room, q, accepted, i) = choose|
        room: AutomationStateModel,
        q: Seq<(u64, Seq<char>)>,
        accepted: AcceptedCommitTriggerRecord,
        i: int,
    | #[trigger]
        retried(before, after, run_id, retries, now, r, room, q, accepted, i);
    let original = lookup(before.automated_runs, run_id)->Some_0;
    lemma_compaction_keeps_keys(before, room, original.run.tenant@, original.run.project@, q);
    if r is Ok {
        let key = retries[i].run_key@;
        let retry_run = run_of_key(key);
        assert(is_digest_text(key));
        if lookup(room.automated_runs, retry_run) is Some {
            keys_make_distinct_runs(key, lookup(room.automated_runs, retry_run)->Some_0.run_key@);
        }
        lemma_put_ascending(
            room.accepted_commit_triggers,
            accepted.trigger.trigger_id@,
            accepted,
        );
        lemma_put_ascending(room.automated_run_keys, key, retry_run);
        lemma_put_ascending(room.automated_runs, retry_run, r->Ok_0@);
        assert forall|k: Seq<char>|
            (#[trigger] lookup(after.automated_run_keys, k)) is Some implies lookup(
            after.automated_runs,
            lookup(after.automated_run_keys, k)->Some_0,
        ) matches Some(record) && record.run_key@ == k by {
            if k != key {
                let id = lookup(room.automated_run_keys, k)->Some_0;
                assert(lookup(room.automated_runs, id)->Some_0.run_key@ == k);
            }
        }
        assert forall|id: Seq<char>|
            (#[trigger] lookup(after.automated_runs, id)) is Some implies lookup(
            after.automated_run_keys,
            lookup(after.automated_runs, id)->Some_0.run_key@,
        ) == Some(id) by {
            if id != retry_run {
                assert(lookup(room.automated_runs, id)->Some_0.run_key@ != key);
            }
        }
    }
}

proof fn lemma_one_more(
    runs: Seq<(Seq<char>, AutomatedRunStageRecordModel)>,
    id: Seq<char>,
    record: AutomatedRunStageRecordModel,
    p: spec_fn((Seq<char>, AutomatedRunStageRecordModel)) -> bool,
)
    requires
        ascending(runs),
    ensures
        put(runs, id, record).filter(p).len() <= runs.filter(p).len() + 1,
        lookup(runs, id) == Some(record) ==> put(runs, id, record).filter(p).len() == runs.filter(
            p,
        ).len(),
{
    lemma_count_put(runs, id, record, p);
    lemma_count_delete(runs, id, p);
}

/// A project never has more runs than it may, nor more that wait: what a push leads to keeps within both
/// limits, where they were kept before.
pub proof fn projects_keep_within_their_runs(
    before: AutomationStateModel,
    after: AutomationStateModel,
    accepted: AcceptedCommitTriggerRecord,
    r: Result<AutomatedRunStageRecord, CoordinatorServiceError>,
)
    requires
        ascending(before.automated_runs),
        keys_lead_to_runs(before),
        delivered(before, after, accepted, r),
        project_runs(before, accepted.tenant@, accepted.project@) <= MAX_RUNS_PER_PROJECT,
        waiting_runs(before, accepted.tenant@, accepted.project@) <= MAX_QUEUED_RUNS_PER_PROJECT,
    ensures
        project_runs(after, accepted.tenant@, accepted.project@) <= MAX_RUNS_PER_PROJECT,
        waiting_runs(after, accepted.tenant@, accepted.project@) <= MAX_QUEUED_RUNS_PER_PROJECT,
{
    let tenant = accepted.tenant@;
    let project = accepted.project@;
    let delivery = (accepted.binding_id@, accepted.trigger.delivery_id@);
    let all = |r: AutomatedRunStageRecordModel| run_in(r, tenant, project);
    let waiting = |r: AutomatedRunStageRecordModel| run_waits(r, tenant, project);
    let p = |e: (Seq<char>, AutomatedRunStageRecordModel)| all(e.1);
    let w = |e: (Seq<char>, AutomatedRunStageRecordModel)| waiting(e.1);
    if lookup(before.trigger_deliveries, delivery) is None {
        let (room, q) = choose|room: AutomationStateModel, q: Seq<(u64, Seq<char>)>| #[trigger]
            newly_delivered(before, after, accepted, r, room, q);
        let key = accepted.trigger.run_identity@;
        let known = lookup(before.automated_run_keys, key);
        assert(project_runs(room, tenant, project) == room.automated_runs.filter(p).len());
        assert(waiting_runs(room, tenant, project) == room.automated_runs.filter(w).len());
        assert(project_runs(before, tenant, project) == before.automated_runs.filter(p).len());
        assert(waiting_runs(before, tenant, project) == before.automated_runs.filter(w).len());
        assert(project_runs(after, tenant, project) == after.automated_runs.filter(p).len());
        assert(waiting_runs(after, tenant, project) == after.automated_runs.filter(w).len());
        if !(known is None && waiting_runs(before, tenant, project)
            >= MAX_QUEUED_RUNS_PER_PROJECT) {
            if known is None {
                let excess = excess_runs(before, tenant, project);
                let ids = first_ids(q, excess);
                let stays = |e: (Seq<char>, AutomatedRunStageRecordModel)| !ids.contains(e.0);
                if room != before {
                    assert(room.automated_runs == before.automated_runs.filter(stays));
                    lemma_filter_fewer(before.automated_runs, stays, p);
                    lemma_filter_fewer(before.automated_runs, stays, w);
                    lemma_filter_ascending(before.automated_runs, stays);
                }
            }
            if r is Ok {
                let run_id = match known {
                    Some(id) => id,
                    None => run_of_key(key),
                };
                lemma_one_more(room.automated_runs, run_id, r->Ok_0@, p);
                lemma_one_more(room.automated_runs, run_id, r->Ok_0@, w);
            }
        }
    }
}

/// A retry keeps within both limits as well, and leaves the run that is retried as it was, unless the
/// retry takes its identifier or it has made room for the retry.
pub proof fn retries_keep_within_the_runs(
    before: AutomationStateModel,
    after: AutomationStateModel,
    run_id: Seq<char>,
    retries: Seq<RetryDigests>,
    now: u64,
    r: Result<AutomatedRunStageRecord, CoordinatorServiceError>,
)
    requires
        in_order(before),
        retry_refusal(before, run_id) is None,
        retry_made(before, after, run_id, retries, now, r),
    ensures
        ({
            let original = lookup(before.automated_runs, run_id)->Some_0;
            &&& project_runs(before, original.run.tenant@, original.run.project@)
                <= MAX_RUNS_PER_PROJECT ==> project_runs(
                after,
                original.run.tenant@,
                original.run.project@,
            ) <= MAX_RUNS_PER_PROJECT
            &&& waiting_runs(after, original.run.tenant@, original.run.project@)
                <= MAX_QUEUED_RUNS_PER_PROJECT
            &&& (r is Ok && r->Ok_0@.run.run_id@ != run_id) ==> (lookup(
                after.automated_runs,
                run_id,
            ) matches Some(left) ==> left == original)
        }),
{
    broadcast use lemma_lookup_put;

    let (room, q, accepted, i) = choose|
        room: AutomationStateModel,
        q: Seq<(u64, Seq<char>)>,
        accepted: AcceptedCommitTriggerRecord,
        i: int,
    | #[trigger]
        retried(before, after, run_id, retries, now, r, room, q, accepted, i);
    let original = lookup(before.automated_runs, run_id)->Some_0;
    let tenant = original.run.tenant@;
    let project = original.run.project@;
    let all = |r: AutomatedRunStageRecordModel| run_in(r, tenant, project);
    let waiting = |r: AutomatedRunStageRecordModel| run_waits(r, tenant, project);
    let p = |e: (Seq<char>, AutomatedRunStageRecordModel)| all(e.1);
    let w = |e: (Seq<char>, AutomatedRunStageRecordModel)| waiting(e.1);
    assert(project_runs(room, tenant, project) == room.automated_runs.filter(p).len());
    assert(waiting_runs(room, tenant, project) == room.automated_runs.filter(w).len());
    assert(project_runs(before, tenant, project) == before.automated_runs.filter(p).len());
    assert(waiting_runs(before, tenant, project) == before.automated_runs.filter(w).len());
    assert(project_runs(after, tenant, project) == after.automated_runs.filter(p).len());
    assert(waiting_runs(after, tenant, project) == after.automated_runs.filter(w).len());
    let ids = first_ids(q, excess_runs(before, tenant, project));
    let stays = |e: (Seq<char>, AutomatedRunStageRecordModel)| !ids.contains(e.0);
    if room != before {
        assert(room.automated_runs == before.automated_runs.filter(stays));
        lemma_filter_fewer(before.automated_runs, stays, p);
        lemma_filter_fewer(before.automated_runs, stays, w);
        lemma_filter_ascending(before.automated_runs, stays);
    }
    if r is Ok {
        let key = retries[i].run_key@;
        lemma_one_more(room.automated_runs, run_of_key(key), r->Ok_0@, p);
        lemma_one_more(room.automated_runs, run_of_key(key), r->Ok_0@, w);
    }
}

/// A state without runs has no key that leads nowhere.
pub proof fn no_keys_lead_astray(s: AutomationStateModel)
    requires
        s.automated_run_keys.len() == 0,
        s.automated_runs.len() == 0,
    ensures
        keys_lead_to_runs(s),
{
    assert forall|key: Seq<char>| (#[trigger] lookup(s.automated_run_keys, key)) is None by {
        lemma_lookup_found(s.automated_run_keys, key);
    }
    assert forall|id: Seq<char>| (#[trigger] lookup(s.automated_runs, id)) is None by {
        lemma_lookup_found(s.automated_runs, id);
    }
}

} // verus!
