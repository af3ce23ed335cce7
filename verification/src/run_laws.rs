//! What holds of the automated runs of a project: the pages that they are listed by, and the pushes that
//! led to them.
use vstd::prelude::*;

use crate::automated_run::{AcceptedCommitTriggerRecord, AutomatedRunRecord, AutomatedRunStageRecord, AutomatedRunStageRecordModel, AutomationStateModel};
use crate::automation::{RetryDigests, after_last, compacted, delivered, delivered_run, ended_runs, excess_runs, first_ids, gone_triggers, is_digest_text, keys_of, newest_first, newly_delivered, other_triggers, page_after, paged, project_queue, retried, retry_made, run_at, run_in, run_of_key, run_page, runs_paged, trigger_goes, with_run};
use crate::duplicate::option_view;
use crate::laws::{changes_of_a_run_keep_the_keys, deliveries_keep_the_keys, in_order, keys_lead_to_runs, keys_make_distinct_runs, lemma_compaction_keeps_keys, no_keys_lead_astray, retries_keep_the_keys};
use crate::ordered::Ranked;
use crate::ordered_map::{ascending, lemma_filter_ascending, lemma_lookup_at, lemma_lookup_found, lemma_lookup_put, lookup};
use crate::ordered_set::{enumerates, lemma_enumerates_same};
use crate::service_error::CoordinatorServiceError;

verus! {

/// What is answered to one who asks for a page of runs.
pub type PageAnswer = Result<(Vec<AutomatedRunRecord>, Option<String>), CoordinatorServiceError>;

/// The cursor that page `i` is asked for with: that of the page before it.
pub open spec fn cursor_for(answers: Seq<PageAnswer>, i: int) -> Option<Seq<char>> {
    if i == 0 {
        None
    } else {
        option_view(answers[i - 1]->Ok_0.1)
    }
}

/// The answers to one who asks for the runs of a project page by page, each with the cursor of the page
/// before it, until a page comes without one.
pub open spec fn leafed_through(
    s: AutomationStateModel,
    tenant: Seq<char>,
    project: Seq<char>,
    limit: usize,
    answers: Seq<PageAnswer>,
) -> bool {
    &&& answers.len() > 0
    &&& forall|i: int|
        0 <= i < answers.len() ==> runs_paged(
            s,
            tenant,
            project,
            cursor_for(answers, i),
            limit,
            #[trigger] answers[i],
        )
    &&& forall|i: int|
        0 <= i < answers.len() - 1 ==> (#[trigger] answers[i])->Ok_0.1 is Some
    &&& answers.last()->Ok_0.1 is None
}

/// The runs of the first `n` pages, one page after the other.
pub open spec fn runs_of_pages(answers: Seq<PageAnswer>, n: nat) -> Seq<AutomatedRunRecord>
    decreases n,
{
    if n == 0 {
        Seq::empty()
    } else {
        runs_of_pages(answers, (n - 1) as nat) + answers[n - 1]->Ok_0.0@
    }
}

/// Every run has the identifier under which it stands.
pub open spec fn runs_hold_their_ids(s: AutomationStateModel) -> bool {
    &&& ascending(s.automated_runs)
    &&& forall|id: Seq<char>|
        (#[trigger] lookup(s.automated_runs, id)) matches Some(record) ==> record.run.run_id@ == id
}

proof fn lemma_listed_ids(
    s: AutomationStateModel,
    tenant: Seq<char>,
    project: Seq<char>,
    q: Seq<(u64, Seq<char>)>,
)
    requires
        runs_hold_their_ids(s),
        enumerates(q, project_queue(s, tenant, project)),
    ensures
        forall|i: int, j: int|
            0 <= i < j < q.len() ==> (#[trigger] newest_first(s, q)[i]).run_id@ != (
            #[trigger] newest_first(s, q)[j]).run_id@,
{
    let runs = s.automated_runs;
    let queue = project_queue(s, tenant, project);
    assert forall|k: int| 0 <= k < q.len() implies lookup(runs, (#[trigger] q[k]).1) is Some
        && lookup(runs, q[k].1)->Some_0.run.created_at == q[k].0 by {
        assert(q.contains(q[k]));
        assert(queue.contains(q[k]));
        let m = choose|m: int|
            0 <= m < runs.len() && (#[trigger] runs[m]).0 == q[k].1 && runs[m].1.run.created_at
                == q[k].0;
        lemma_lookup_at(runs, m);
    }
    assert forall|i: int, j: int| 0 <= i < j < q.len() implies (#[trigger] newest_first(
        s,
        q,
    )[i]).run_id@ != (#[trigger] newest_first(s, q)[j]).run_id@ by {
        let a = q[q.len() - 1 - i];
        let b = q[q.len() - 1 - j];
        assert(b.before(a));
        if a.1 == b.1 {
            assert(a == b);
        }
    }
}

proof fn lemma_next_page(
    s: AutomationStateModel,
    tenant: Seq<char>,
    project: Seq<char>,
    q: Seq<(u64, Seq<char>)>,
    end: int,
    limit: usize,
    r: PageAnswer,
)
    requires
        runs_hold_their_ids(s),
        enumerates(q, project_queue(s, tenant, project)),
        0 < end < q.len(),
        0 < limit,
        runs_paged(
            s,
            tenant,
            project,
            Some(newest_first(s, q)[end - 1].run_id@),
            limit,
            r,
        ),
    ensures
        r matches Ok(found) && run_page(newest_first(s, q), end, limit as int, found.0@, found.1),
{
    let runs = newest_first(s, q);
    let id = runs[end - 1].run_id@;
    let listed = choose|p: Seq<(u64, Seq<char>)>| #[trigger]
        enumerates(p, project_queue(s, tenant, project)) && paged(
            newest_first(s, p),
            Some(id),
            limit,
            r,
        );
    lemma_enumerates_same(listed, q, project_queue(s, tenant, project));
    lemma_listed_ids(s, tenant, project, q);
    assert(run_at(runs, id, end - 1));
    let i = choose|i: int| #[trigger] page_after(runs, id, limit, r, i);
    assert(i == end - 1);
}

/// A cursor leads on: where a page comes with one, asking with it gives a page, and that page holds a run.
pub proof fn cursors_lead_on(
    s: AutomationStateModel,
    tenant: Seq<char>,
    project: Seq<char>,
    cursor: Option<Seq<char>>,
    limit: usize,
    page: PageAnswer,
    next: PageAnswer,
)
    requires
        runs_hold_their_ids(s),
        0 < limit,
        runs_paged(s, tenant, project, cursor, limit, page),
        page is Ok,
        page->Ok_0.1 is Some,
        runs_paged(s, tenant, project, option_view(page->Ok_0.1), limit, next),
    ensures
        next matches Ok(found) && found.0@.len() > 0,
{
    let q = choose|q: Seq<(u64, Seq<char>)>| #[trigger]
        enumerates(q, project_queue(s, tenant, project)) && paged(
            newest_first(s, q),
            cursor,
            limit,
            page,
        );
    let runs = newest_first(s, q);
    let start = match cursor {
        None => 0,
        Some(id) => {
            let i = choose|i: int| #[trigger] page_after(runs, id, limit, page, i);
            i + 1
        },
    };
    assert(run_page(runs, start, limit as int, page->Ok_0.0@, page->Ok_0.1));
    let end = start + limit;
    lemma_next_page(s, tenant, project, q, end, limit, next);
}

proof fn lemma_pages_so_far(
    s: AutomationStateModel,
    tenant: Seq<char>,
    project: Seq<char>,
    limit: usize,
    answers: Seq<PageAnswer>,
    q: Seq<(u64, Seq<char>)>,
    n: nat,
) -> (end: int)
    requires
        runs_hold_their_ids(s),
        0 < limit,
        leafed_through(s, tenant, project, limit, answers),
        enumerates(q, project_queue(s, tenant, project)),
        0 < n <= answers.len(),
    ensures
        0 <= end <= q.len(),
        answers[n - 1] is Ok,
        runs_of_pages(answers, n) == newest_first(s, q).take(end),
        match answers[n - 1]->Ok_0.1 {
            None => end == q.len(),
            Some(id) => 0 < end < q.len() && id@ == newest_first(s, q)[end - 1].run_id@,
        },
    decreases n,
{
    let runs = newest_first(s, q);
    let queue = project_queue(s, tenant, project);
    let last = answers[n - 1];
    assert(runs_paged(s, tenant, project, cursor_for(answers, n - 1), limit, last));
    let start = if n == 1 {
        let listed = choose|p: Seq<(u64, Seq<char>)>| #[trigger]
            enumerates(p, queue) && paged(newest_first(s, p), None, limit, last);
        lemma_enumerates_same(listed, q, queue);
        assert(runs_of_pages(answers, 0) =~= runs.take(0));
        0
    } else {
        let earlier = lemma_pages_so_far(
            s,
            tenant,
            project,
            limit,
            answers,
            q,
            (n - 1) as nat,
        );
        assert(answers[n - 2]->Ok_0.1 is Some);
        lemma_next_page(s, tenant, project, q, earlier, limit, last);
        earlier
    };
    let end = if start + limit < runs.len() {
        start + limit
    } else {
        runs.len() as int
    };
    assert(runs_of_pages(answers, n) =~= runs.take(end));
    end
}

/// One who leafs through the runs of a project sees each of them once, the newest first: the pages, one
/// after the other, are the list.
pub proof fn pages_make_the_list(
    s: AutomationStateModel,
    tenant: Seq<char>,
    project: Seq<char>,
    limit: usize,
    answers: Seq<PageAnswer>,
    q: Seq<(u64, Seq<char>)>,
)
    requires
        runs_hold_their_ids(s),
        0 < limit,
        leafed_through(s, tenant, project, limit, answers),
        enumerates(q, project_queue(s, tenant, project)),
    ensures
        forall|i: int| 0 <= i < answers.len() ==> (#[trigger] answers[i]) is Ok,
        runs_of_pages(answers, answers.len()) == newest_first(s, q),
{
    assert forall|i: int| 0 <= i < answers.len() implies (#[trigger] answers[i]) is Ok by {
        let _end = lemma_pages_so_far(s, tenant, project, limit, answers, q, (i + 1) as nat);
    }
    let end = lemma_pages_so_far(s, tenant, project, limit, answers, q, answers.len());
    let runs = newest_first(s, q);
    assert(runs.take(end) =~= runs);
}

/// Whether some push led to a trigger.
pub open spec fn was_pushed(s: AutomationStateModel, trigger: Seq<char>) -> bool {
    exists|delivery: (Seq<char>, Seq<char>)| #[trigger]
        lookup(s.trigger_deliveries, delivery) == Some(trigger)
}

/// An accepted trigger leads, by its identity, to a run of its own tenant and project.
pub open spec fn leads_to_run(
    s: AutomationStateModel,
    accepted: AcceptedCommitTriggerRecord,
) -> bool {
    &&& lookup(s.automated_run_keys, accepted.trigger.run_identity@) matches Some(id)
    &&& lookup(s.automated_runs, id) matches Some(record)
    &&& record.run_key@ == accepted.trigger.run_identity@
    &&& record.run.tenant@ == accepted.tenant@
    &&& record.run.project@ == accepted.project@
}

/// Every push that is kept leads to an accepted trigger, and that one to a run. A trigger that was pushed
/// has the identity of each run that it is the primary one of.
pub open spec fn deliveries_lead_to_runs(s: AutomationStateModel) -> bool {
    &&& in_order(s)
    &&& keys_lead_to_runs(s)
    &&& forall|delivery: (Seq<char>, Seq<char>)|
        (#[trigger] lookup(s.trigger_deliveries, delivery)) matches Some(trigger) ==> (lookup(
            s.accepted_commit_triggers,
            trigger,
        ) matches Some(accepted) && leads_to_run(s, accepted))
    &&& forall|id: Seq<char>|
        (#[trigger] lookup(s.automated_runs, id)) matches Some(record) ==> (was_pushed(
            s,
            record.run.primary_trigger_id@,
        ) ==> lookup(
            s.accepted_commit_triggers,
            record.run.primary_trigger_id@,
        )->Some_0.trigger.run_identity@ == record.run_key@)
}

/// A push belongs to a state: the run that has its identity, if there is one, is of its tenant and project, and
/// every run that has its trigger as the primary one has its identity.
pub open spec fn push_belongs(s: AutomationStateModel, accepted: AcceptedCommitTriggerRecord) -> bool {
    &&& is_digest_text(accepted.trigger.run_identity@)
    &&& lookup(s.automated_runs, run_of_key(accepted.trigger.run_identity@)) matches Some(record)
        ==> record.run.tenant@ == accepted.tenant@ && record.run.project@ == accepted.project@
    &&& forall|id: Seq<char>|
        (#[trigger] lookup(s.automated_runs, id)) matches Some(record) ==> (
        record.run.primary_trigger_id@ == accepted.trigger.trigger_id@ ==> record.run_key@
            == accepted.trigger.run_identity@)
}

/// A state without pushes, runs and keys has none that leads nowhere.
pub proof fn no_delivery_leads_astray(s: AutomationStateModel)
    requires
        in_order(s),
        s.trigger_deliveries.len() == 0,
        s.automated_run_keys.len() == 0,
        s.automated_runs.len() == 0,
    ensures
        deliveries_lead_to_runs(s),
{
    no_keys_lead_astray(s);
    assert forall|d: (Seq<char>, Seq<char>)| (#[trigger] lookup(s.trigger_deliveries, d)) is None by {
        lemma_lookup_found(s.trigger_deliveries, d);
    }
    assert forall|id: Seq<char>| (#[trigger] lookup(s.automated_runs, id)) is None by {
        lemma_lookup_found(s.automated_runs, id);
    }
}

proof fn lemma_kept_push(
    before: AutomationStateModel,
    after: AutomationStateModel,
    tenant: Seq<char>,
    project: Seq<char>,
    q: Seq<(u64, Seq<char>)>,
    delivery: (Seq<char>, Seq<char>),
)
    requires
        deliveries_lead_to_runs(before),
        compacted(before, after, tenant, project, q),
        after != before,
        lookup(after.trigger_deliveries, delivery) is Some,
    ensures
        lookup(before.trigger_deliveries, delivery) == lookup(after.trigger_deliveries, delivery),
        ({
            let trigger = lookup(after.trigger_deliveries, delivery)->Some_0;
            &&& lookup(after.accepted_commit_triggers, trigger) == lookup(
                before.accepted_commit_triggers,
                trigger,
            )
            &&& lookup(after.accepted_commit_triggers, trigger) matches Some(accepted)
            &&& leads_to_run(after, accepted)
        }),
{
    let ids = first_ids(q, excess_runs(before, tenant, project));
    let keys = keys_of(before.automated_runs, ids);
    let triggers = gone_triggers(before, tenant, project, ids);
    let runs = before.automated_runs;
    let all = before.accepted_commit_triggers;
    let run_stays = |e: (Seq<char>, AutomatedRunStageRecordModel)| !ids.contains(e.0);
    let key_stays = |e: (Seq<char>, Seq<char>)| !keys.contains(e.0);
    let trigger_stays = |e: (Seq<char>, AcceptedCommitTriggerRecord)| !triggers.contains(e.0);
    let delivery_stays = |e: ((Seq<char>, Seq<char>), Seq<char>)| !triggers.contains(e.1);
    assert(after.automated_runs == runs.filter(run_stays));
    assert(after.automated_run_keys == before.automated_run_keys.filter(key_stays));
    assert(after.accepted_commit_triggers == all.filter(trigger_stays));
    assert(after.trigger_deliveries == before.trigger_deliveries.filter(delivery_stays));
    lemma_filter_ascending(runs, run_stays);
    lemma_filter_ascending(before.automated_run_keys, key_stays);
    lemma_filter_ascending(all, trigger_stays);
    lemma_filter_ascending(before.trigger_deliveries, delivery_stays);
    let trigger = lookup(before.trigger_deliveries, delivery)->Some_0;
    assert(!triggers.contains(trigger));
    let accepted = lookup(all, trigger)->Some_0;
    let key = accepted.trigger.run_identity@;
    let id = lookup(before.automated_run_keys, key)->Some_0;
    lemma_lookup_found(all, trigger);
    let at = choose|i: int| 0 <= i < all.len() && (#[trigger] all[i]).0 == trigger;
    lemma_lookup_at(all, at);
    if keys.contains(key) {
        let i = choose|i: int|
            0 <= i < runs.len() && ids.contains((#[trigger] runs[i]).0) && runs[i].1.run_key@
                == key;
        lemma_lookup_at(runs, i);
        assert(runs[i].0 == id);
        let k = choose|k: int|
            0 <= k < excess_runs(before, tenant, project) && (#[trigger] q[k]).1 == id;
        assert(q.contains(q[k]));
        assert(ended_runs(before, tenant, project).contains(q[k]));
        let m = choose|m: int|
            0 <= m < runs.len() && run_in((#[trigger] runs[m]).1, tenant, project) && runs[m].0
                == id;
        lemma_lookup_at(runs, m);
        if other_triggers(runs, ids).contains(trigger) {
            let j = choose|j: int|
                0 <= j < runs.len() && !ids.contains((#[trigger] runs[j]).0)
                    && runs[j].1.run.primary_trigger_id@ == trigger;
            lemma_lookup_at(runs, j);
            assert(was_pushed(before, trigger));
            assert(runs[j].1.run_key@ == key);
        }
        assert(trigger_goes(before, tenant, project, ids, all[at]));
        assert(false);
    }
    if ids.contains(id) {
        lemma_lookup_found(runs, id);
        let i = choose|i: int| 0 <= i < runs.len() && (#[trigger] runs[i]).0 == id;
        lemma_lookup_at(runs, i);
        assert(keys.contains(key));
    }
}

proof fn lemma_compaction_keeps_deliveries(
    before: AutomationStateModel,
    after: AutomationStateModel,
    tenant: Seq<char>,
    project: Seq<char>,
    q: Seq<(u64, Seq<char>)>,
)
    requires
        deliveries_lead_to_runs(before),
        compacted(before, after, tenant, project, q),
    ensures
        deliveries_lead_to_runs(after),
        forall|id: Seq<char>|
            (#[trigger] lookup(after.automated_runs, id)) is Some ==> lookup(
                before.automated_runs,
                id,
            ) == lookup(after.automated_runs, id),
        forall|delivery: (Seq<char>, Seq<char>)|
            (#[trigger] lookup(after.trigger_deliveries, delivery)) is Some ==> lookup(
                before.trigger_deliveries,
                delivery,
            ) == lookup(after.trigger_deliveries, delivery),
{
    lemma_compaction_keeps_keys(before, after, tenant, project, q);
    if after != before {
        let ids = first_ids(q, excess_runs(before, tenant, project));
        let run_stays = |e: (Seq<char>, AutomatedRunStageRecordModel)| !ids.contains(e.0);
        assert(after.automated_runs == before.automated_runs.filter(run_stays));
        lemma_filter_ascending(before.automated_runs, run_stays);
        assert forall|delivery: (Seq<char>, Seq<char>)|
            (#[trigger] lookup(after.trigger_deliveries, delivery)) is Some implies lookup(
            before.trigger_deliveries,
            delivery,
        ) == lookup(after.trigger_deliveries, delivery) && (lookup(
            after.accepted_commit_triggers,
            lookup(after.trigger_deliveries, delivery)->Some_0,
        ) matches Some(accepted) && leads_to_run(after, accepted)) by {
            lemma_kept_push(before, after, tenant, project, q, delivery);
        }
        assert forall|id: Seq<char>|
            (#[trigger] lookup(after.automated_runs, id)) is Some && was_pushed(
                after,
                lookup(after.automated_runs, id)->Some_0.run.primary_trigger_id@,
            ) implies lookup(
            after.accepted_commit_triggers,
            lookup(after.automated_runs, id)->Some_0.run.primary_trigger_id@,
        )->Some_0.trigger.run_identity@ == lookup(after.automated_runs, id)->Some_0.run_key@ by {
            let record = lookup(after.automated_runs, id)->Some_0;
            let trigger = record.run.primary_trigger_id@;
            let delivery = choose|d: (Seq<char>, Seq<char>)| #[trigger]
                lookup(after.trigger_deliveries, d) == Some(trigger);
            lemma_kept_push(before, after, tenant, project, q, delivery);
            assert(was_pushed(before, trigger));
            assert(lookup(before.automated_runs, id) == Some(record));
        }
    }
}

/// A push that belongs leaves every push that is kept leading to a run, itself among them.
pub proof fn deliveries_keep_leading_to_runs(
    before: AutomationStateModel,
    after: AutomationStateModel,
    accepted: AcceptedCommitTriggerRecord,
    r: Result<AutomatedRunStageRecord, CoordinatorServiceError>,
)
    requires
        deliveries_lead_to_runs(before),
        push_belongs(before, accepted),
        delivered(before, after, accepted, r),
    ensures
        deliveries_lead_to_runs(after),
{
    broadcast use lemma_lookup_put;

    deliveries_keep_the_keys(before, after, accepted, r);
    let delivery = (accepted.binding_id@, accepted.trigger.delivery_id@);
    if lookup(before.trigger_deliveries, delivery) is None {
        let (room, q) = choose|room: AutomationStateModel, q: Seq<(u64, Seq<char>)>| #[trigger]
            newly_delivered(before, after, accepted, r, room, q);
        let key = accepted.trigger.run_identity@;
        let known = lookup(before.automated_run_keys, key);
        if after != before {
            if known is None {
                lemma_compaction_keeps_deliveries(
                    before,
                    room,
                    accepted.tenant@,
                    accepted.project@,
                    q,
                );
            }
            if r is Ok {
                let run_id = run_of_key(key);
                let trigger = accepted.trigger.trigger_id@;
                let record = r->Ok_0@;
                if known is Some {
                    assert(known == Some(run_id));
                }
                if lookup(room.automated_runs, run_id) is Some {
                    assert(lookup(before.automated_runs, run_id) == Some(record));
                    keys_make_distinct_runs(key, record.run_key@);
                }
                assert(record.run_key@ == key);
                assert(leads_to_run(after, accepted));
                assert forall|d: (Seq<char>, Seq<char>)|
                    (#[trigger] lookup(after.trigger_deliveries, d)) is Some implies lookup(
                    after.accepted_commit_triggers,
                    lookup(after.trigger_deliveries, d)->Some_0,
                ) matches Some(a) && leads_to_run(after, a) by {
                    let t = lookup(after.trigger_deliveries, d)->Some_0;
                    if t != trigger {
                        assert(lookup(room.trigger_deliveries, d) == Some(t));
                        let a = lookup(room.accepted_commit_triggers, t)->Some_0;
                        assert(leads_to_run(room, a));
                        assert(lookup(after.accepted_commit_triggers, t) == Some(a));
                        if a.trigger.run_identity@ == key {
                            assert(lookup(room.automated_run_keys, key) == Some(run_id));
                        } else {
                            assert(lookup(room.automated_run_keys, a.trigger.run_identity@)->Some_0
                                != run_id);
                        }
                        assert(leads_to_run(after, a));
                    }
                }
                assert forall|id: Seq<char>|
                    (#[trigger] lookup(after.automated_runs, id)) is Some && was_pushed(
                        after,
                        lookup(after.automated_runs, id)->Some_0.run.primary_trigger_id@,
                    ) implies lookup(
                    after.accepted_commit_triggers,
                    lookup(after.automated_runs, id)->Some_0.run.primary_trigger_id@,
                )->Some_0.trigger.run_identity@ == lookup(
                    after.automated_runs,
                    id,
                )->Some_0.run_key@ by {
                    let found = lookup(after.automated_runs, id)->Some_0;
                    let t = found.run.primary_trigger_id@;
                    if t != trigger {
                        let d = choose|d: (Seq<char>, Seq<char>)| #[trigger]
                            lookup(after.trigger_deliveries, d) == Some(t);
                        assert(lookup(room.trigger_deliveries, d) == Some(t));
                        assert(was_pushed(room, t));
                        assert(lookup(room.automated_runs, id) == Some(found));
                    } else if id != run_id {
                        assert(lookup(room.automated_runs, id) == Some(found));
                        assert(lookup(before.automated_runs, id) == Some(found));
                    }
                }
            }
        }
    }
}

/// The trigger of a retry that is made under a key.
pub open spec fn retry_trigger(key: Seq<char>) -> Seq<char> {
    "trigger-retry-"@ + after_last(run_of_key(key), '-')
}

/// A retry leaves every push that is kept leading to a run, where no push led to the trigger of a retry.
pub proof fn retries_keep_deliveries_leading_to_runs(
    before: AutomationStateModel,
    after: AutomationStateModel,
    run_id: Seq<char>,
    retries: Seq<RetryDigests>,
    now: u64,
    r: Result<AutomatedRunStageRecord, CoordinatorServiceError>,
)
    requires
        deliveries_lead_to_runs(before),
        forall|i: int|
            0 <= i < retries.len() ==> is_digest_text((#[trigger] retries[i]).run_key@)
                && !was_pushed(before, retry_trigger(retries[i].run_key@)),
        retry_made(before, after, run_id, retries, now, r),
    ensures
        deliveries_lead_to_runs(after),
{
    broadcast use lemma_lookup_put;

    retries_keep_the_keys(before, after, run_id, retries, now, r);
    let (room, q, accepted, i) = choose|
        room: AutomationStateModel,
        q: Seq<(u64, Seq<char>)>,
        accepted: AcceptedCommitTriggerRecord,
        i: int,
    | #[trigger]
        retried(before, after, run_id, retries, now, r, room, q, accepted, i);
    let original = lookup(before.automated_runs, run_id)->Some_0;
    lemma_compaction_keeps_deliveries(before, room, original.run.tenant@, original.run.project@, q);
    if r is Ok {
        let key = retries[i].run_key@;
        let retry_run = run_of_key(key);
        let trigger = accepted.trigger.trigger_id@;
        assert(is_digest_text(key));
        assert(trigger == retry_trigger(key));
        assert forall|d: (Seq<char>, Seq<char>)|
            (#[trigger] lookup(room.trigger_deliveries, d)) != Some(trigger) by {
            if lookup(room.trigger_deliveries, d) == Some(trigger) {
                assert(was_pushed(before, trigger));
            }
        }
        assert forall|d: (Seq<char>, Seq<char>)|
            (#[trigger] lookup(after.trigger_deliveries, d)) is Some implies lookup(
            after.accepted_commit_triggers,
            lookup(after.trigger_deliveries, d)->Some_0,
        ) matches Some(a) && leads_to_run(after, a) by {
            let t = lookup(room.trigger_deliveries, d)->Some_0;
            let a = lookup(room.accepted_commit_triggers, t)->Some_0;
            assert(leads_to_run(room, a));
            let id = lookup(room.automated_run_keys, a.trigger.run_identity@)->Some_0;
            if id == retry_run {
                keys_make_distinct_runs(key, a.trigger.run_identity@);
            }
            assert(leads_to_run(after, a));
        }
        assert forall|id: Seq<char>|
            (#[trigger] lookup(after.automated_runs, id)) is Some && was_pushed(
                after,
                lookup(after.automated_runs, id)->Some_0.run.primary_trigger_id@,
            ) implies lookup(
            after.accepted_commit_triggers,
            lookup(after.automated_runs, id)->Some_0.run.primary_trigger_id@,
        )->Some_0.trigger.run_identity@ == lookup(after.automated_runs, id)->Some_0.run_key@ by {
            let found = lookup(after.automated_runs, id)->Some_0;
            let t = found.run.primary_trigger_id@;
            let d = choose|d: (Seq<char>, Seq<char>)| #[trigger]
                lookup(after.trigger_deliveries, d) == Some(t);
            assert(lookup(room.trigger_deliveries, d) == Some(t));
            assert(was_pushed(room, t));
            assert(id != retry_run);
            assert(lookup(room.automated_runs, id) == Some(found));
        }
    }
}

/// What changes a run, and neither its key, its identifier, its tenant and project, nor its primary trigger,
/// leaves every push that is kept leading to a run.
pub proof fn changes_of_a_run_keep_deliveries_leading_to_runs(
    s: AutomationStateModel,
    id: Seq<char>,
    record: AutomatedRunStageRecordModel,
)
    requires
        deliveries_lead_to_runs(s),
        lookup(s.automated_runs, id) matches Some(earlier) && earlier.run_key@ == record.run_key@
            && earlier.run.run_id@ == record.run.run_id@ && earlier.run.tenant@
            == record.run.tenant@ && earlier.run.project@ == record.run.project@
            && earlier.run.primary_trigger_id@ == record.run.primary_trigger_id@,
    ensures
        deliveries_lead_to_runs(with_run(s, id, record)),
{
    broadcast use lemma_lookup_put;

    changes_of_a_run_keep_the_keys(s, id, record);
    let after = with_run(s, id, record);
    assert forall|d: (Seq<char>, Seq<char>)|
        (#[trigger] lookup(after.trigger_deliveries, d)) is Some implies lookup(
        after.accepted_commit_triggers,
        lookup(after.trigger_deliveries, d)->Some_0,
    ) matches Some(a) && leads_to_run(after, a) by {
        let a = lookup(
            s.accepted_commit_triggers,
            lookup(s.trigger_deliveries, d)->Some_0,
        )->Some_0;
        assert(leads_to_run(s, a));
        assert(leads_to_run(after, a));
    }
    assert forall|t: Seq<char>| was_pushed(after, t) implies was_pushed(s, t) by {
        let d = choose|d: (Seq<char>, Seq<char>)| #[trigger]
            lookup(after.trigger_deliveries, d) == Some(t);
        assert(lookup(s.trigger_deliveries, d) == Some(t));
    }
}

/// A push that is kept is answered with the run that it led to, when it comes again with the same body,
/// and is turned away with another. Either way nothing changes.
pub proof fn kept_deliveries_are_answered(
    s: AutomationStateModel,
    after: AutomationStateModel,
    accepted: AcceptedCommitTriggerRecord,
    r: Result<AutomatedRunStageRecord, CoordinatorServiceError>,
)
    requires
        deliveries_lead_to_runs(s),
        lookup(
            s.trigger_deliveries,
            (accepted.binding_id@, accepted.trigger.delivery_id@),
        ) is Some,
        delivered(s, after, accepted, r),
    ensures
        after == s,
        ({
            let trigger = lookup(
                s.trigger_deliveries,
                (accepted.binding_id@, accepted.trigger.delivery_id@),
            )->Some_0;
            let known = lookup(s.accepted_commit_triggers, trigger)->Some_0;
            let run = delivered_run(s, accepted.binding_id@, accepted.trigger.delivery_id@);
            if known.body_digest@ == accepted.body_digest@ {
                r matches Ok(record) && Some(record@) == lookup(s.automated_runs, run->Some_0)
            } else {
                r matches Err(error) && error.protests(
                    "forge delivery ID was replayed with a different body"@,
                )
            }
        }),
{
}

} // verus!
