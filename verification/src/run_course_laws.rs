//! What becomes of an automated run, from the push that led to it to its end.
use vstd::prelude::*;

use crate::automated_run::{AcceptedCommitTriggerRecord, AutomatedRunRecord, AutomatedRunStageRecord, AutomatedRunStageRecordModel, AutomatedRunState, AutomationStateModel, RepositoryRevision, WorkflowCompilationRequestModel, WorkflowSourceModel};
use crate::automation::{ProcessFinalResult, RetryDigests, claims_source, compacted, compilation_asked, delivered, ended_runs, excess_runs, first_ids, first_page, first_run, interrupted, launch_queue, launches_pending, newest_first, newly_delivered, process_end_recorded, project_queue, publication_recorded, queued_triggers, retried, retry_made, retry_refusal, run_cancelled, run_failed, run_of_key, run_queue, runs_newest_first, runs_process, runs_process_still, source_claimed, source_queue, source_recorded, sources_pending, trigger_of_run, waiting_recorded, waits_for};
use crate::ordered::Ranked;
use crate::ordered_map::{ascending, bound_at, lemma_filter_ascending, lemma_lookup_at, lemma_lookup_found, lemma_lookup_put, lemma_same_keys, lookup};
use crate::ordered_set::enumerates;
use crate::sequences::is_first;
use crate::service_error::CoordinatorServiceError;

verus! {

/// A run that has ended.
pub open spec fn has_ended(r: AutomatedRunStageRecordModel) -> bool {
    match r.run.state {
        AutomatedRunState::Completed => true,
        AutomatedRunState::Failed => true,
        AutomatedRunState::Cancelled => true,
        _ => false,
    }
}

/// The run of a process.
pub open spec fn is_run_of(
    r: AutomatedRunStageRecordModel,
    process: (Seq<char>, Seq<char>, Seq<char>),
) -> bool {
    &&& r.run.tenant@ == process.0
    &&& r.run.project@ == process.1
    &&& r.run.process_id matches Some(id) && id@ == process.2
}

/// No other run is of the process.
pub open spec fn is_the_run_of(
    s: AutomationStateModel,
    id: Seq<char>,
    process: (Seq<char>, Seq<char>, Seq<char>),
) -> bool {
    &&& lookup(s.automated_runs, id) matches Some(r) && is_run_of(r, process)
    &&& forall|other: Seq<char>|
        (#[trigger] lookup(s.automated_runs, other)) matches Some(r) && is_run_of(r, process)
            ==> other == id
}

/// What identifies a run and its commit stays.
pub open spec fn is_same_run(a: AutomatedRunStageRecordModel, b: AutomatedRunStageRecordModel) -> bool {
    &&& a.run.run_id == b.run.run_id
    &&& a.run_key == b.run_key
    &&& a.run.primary_trigger_id == b.run.primary_trigger_id
    &&& a.run.tenant == b.run.tenant
    &&& a.run.project == b.run.project
    &&& a.run.repository_id == b.run.repository_id
    &&& a.run.commit_sha == b.run.commit_sha
    &&& a.run.git_ref == b.run.git_ref
    &&& a.run.trusted == b.run.trusted
    &&& a.run.created_at == b.run.created_at
}

proof fn lemma_first_of_process(
    s: AutomationStateModel,
    p: spec_fn((Seq<char>, AutomatedRunStageRecordModel)) -> bool,
)
    requires
        ascending(s.automated_runs),
    ensures
        first_run(s, p) matches Some(e) ==> p(e) && lookup(s.automated_runs, e.0) == Some(e.1),
        first_run(s, p) is None ==> forall|id: Seq<char>|
            (#[trigger] lookup(s.automated_runs, id)) is Some ==> !p(
                (id, lookup(s.automated_runs, id)->Some_0),
            ),
{
    let runs = s.automated_runs;
    if first_run(s, p) is Some {
        let i = choose|i: int| is_first(runs, p, i);
        assert(is_first(runs, p, i));
        lemma_lookup_at(runs, i);
    } else {
        assert forall|id: Seq<char>| (#[trigger] lookup(runs, id)) is Some implies !p(
            (id, lookup(runs, id)->Some_0),
        ) by {
            lemma_lookup_found(runs, id);
            let i = choose|i: int| bound_at(runs, id, i);
            lemma_lookup_at(runs, i);
            if p(runs[i]) {
                lemma_has_first(runs, p, i);
            }
        }
    }
}

proof fn lemma_has_first<A>(s: Seq<A>, p: spec_fn(A) -> bool, i: int)
    requires
        0 <= i < s.len(),
        p(s[i]),
    ensures
        exists|j: int| is_first(s, p, j),
    decreases i,
{
    if exists|j: int| 0 <= j < i && p(#[trigger] s[j]) {
        let j = choose|j: int| 0 <= j < i && p(#[trigger] s[j]);
        lemma_has_first(s, p, j);
    } else {
        assert(is_first(s, p, i));
    }
}

/// A run ends as its process does: it is completed exactly if the process completed, failed exactly if the
/// process failed, and cancelled exactly if the process was cancelled. No other run changes.
pub proof fn runs_end_as_their_process_does(
    before: AutomationStateModel,
    after: AutomationStateModel,
    process: (Seq<char>, Seq<char>, Seq<char>),
    result: ProcessFinalResult,
    message: Seq<char>,
    now: u64,
    id: Seq<char>,
)
    requires
        ascending(before.automated_runs),
        process_end_recorded(before, after, process, result, message, now),
    ensures
        ({
            let was = lookup(before.automated_runs, id);
            let is = lookup(after.automated_runs, id);
            let ended_so = {
                &&& is is Some
                &&& is->Some_0.run.state == AutomatedRunState::Completed <==> result
                    == ProcessFinalResult::Completed
                &&& is->Some_0.run.state == AutomatedRunState::Failed <==> result
                    == ProcessFinalResult::Failed
                &&& is->Some_0.run.state == AutomatedRunState::Cancelled <==> result
                    == ProcessFinalResult::Cancelled
                &&& has_ended(is->Some_0)
                &&& is->Some_0.run.ended_at == Some(now)
                &&& is->Some_0.run.waiting_reason is None
                &&& result == ProcessFinalResult::Failed ==> (
                is->Some_0.run.failure_message matches Some(text) && text@ == message)
                &&& result != ProcessFinalResult::Failed ==> is->Some_0.run.failure_message
                    == was->Some_0.run.failure_message && is->Some_0.run.failure_code
                    == was->Some_0.run.failure_code
                &&& is_same_run(is->Some_0, was->Some_0)
                &&& is->Some_0.run.process_id == was->Some_0.run.process_id
            };
            &&& was is None ==> is is None
            &&& was is Some && !is_run_of(was->Some_0, process) ==> is == was
            &&& was is Some && is_run_of(was->Some_0, process) ==> is == was || ended_so
            &&& is_the_run_of(before, id, process) ==> ended_so
        }),
        after.trigger_deliveries == before.trigger_deliveries,
        after.accepted_commit_triggers == before.accepted_commit_triggers,
        after.automated_run_keys == before.automated_run_keys,
{
    broadcast use lemma_lookup_put;

    let p = runs_process(process.0, process.1, process.2);
    lemma_first_of_process(before, p);
    if is_the_run_of(before, id, process) && first_run(before, p) is None {
        assert(!p((id, lookup(before.automated_runs, id)->Some_0)));
    }
}

/// What a run has published is kept with it, and changes nothing of how it stands. No other run changes.
pub proof fn publications_are_kept_with_their_run(
    before: AutomationStateModel,
    after: AutomationStateModel,
    process: (Seq<char>, Seq<char>, Seq<char>),
    tag: String,
    release_url: String,
    id: Seq<char>,
)
    requires
        ascending(before.automated_runs),
        publication_recorded(before, after, process, tag, release_url),
    ensures
        ({
            let was = lookup(before.automated_runs, id);
            let is = lookup(after.automated_runs, id);
            &&& was is None ==> is is None
            &&& was is Some && !is_run_of(was->Some_0, process) ==> is == was
            &&& is_the_run_of(before, id, process) ==> {
                &&& is matches Some(r)
                &&& r.run.publication_tag == Some(tag)
                &&& r.run.publication_url == Some(release_url)
                &&& r.run.state == was->Some_0.run.state
                &&& is_same_run(r, was->Some_0)
            }
        }),
{
    broadcast use lemma_lookup_put;

    let p = runs_process(process.0, process.1, process.2);
    lemma_first_of_process(before, p);
    if is_the_run_of(before, id, process) && first_run(before, p) is None {
        assert(!p((id, lookup(before.automated_runs, id)->Some_0)));
    }
}

/// Why a run waits is noted with the run of the process, unless that has ended, and changes nothing of how it
/// stands. No other run changes.
pub proof fn waiting_is_noted_with_the_run(
    before: AutomationStateModel,
    after: AutomationStateModel,
    process: (Seq<char>, Seq<char>, Seq<char>),
    reason: Option<String>,
    id: Seq<char>,
)
    requires
        ascending(before.automated_runs),
        waiting_recorded(before, after, process, reason),
    ensures
        ({
            let was = lookup(before.automated_runs, id);
            let is = lookup(after.automated_runs, id);
            &&& was is None ==> is is None
            &&& was is Some && (!is_run_of(was->Some_0, process) || has_ended(was->Some_0)) ==> is
                == was
            &&& is_the_run_of(before, id, process) && !has_ended(was->Some_0) ==> {
                &&& is matches Some(r)
                &&& reason is None <==> r.run.waiting_reason is None
                &&& reason matches Some(text) ==> r.run.waiting_reason->Some_0@ == text@
                &&& r.run.state == was->Some_0.run.state
                &&& is_same_run(r, was->Some_0)
            }
        }),
{
    broadcast use lemma_lookup_put;

    let p = runs_process_still(process.0, process.1, process.2);
    lemma_first_of_process(before, p);
    if is_the_run_of(before, id, process) && first_run(before, p) is None {
        assert(!p((id, lookup(before.automated_runs, id)->Some_0)));
    }
}

/// Failing a run fails it, with the code and the message, unless it has ended: then it stays as it ended. No
/// other run changes.
pub proof fn failing_fails_what_has_not_ended(
    before: AutomationStateModel,
    after: AutomationStateModel,
    id: Seq<char>,
    code: Seq<char>,
    message: Seq<char>,
    now: u64,
    r: Result<(), CoordinatorServiceError>,
    other: Seq<char>,
)
    requires
        ascending(before.automated_runs),
        run_failed(before, after, id, code, message, now, r),
    ensures
        r is Ok <==> lookup(before.automated_runs, id) is Some,
        other != id ==> lookup(after.automated_runs, other) == lookup(before.automated_runs, other),
        lookup(before.automated_runs, id) matches Some(was) ==> {
            &&& lookup(after.automated_runs, id) matches Some(is)
            &&& has_ended(was) ==> is == was
            &&& !has_ended(was) ==> {
                &&& is.run.state == AutomatedRunState::Failed
                &&& is.run.ended_at == Some(now)
                &&& is.run.failure_code matches Some(text) && text@ == code
                &&& is.run.failure_message matches Some(text) && text@ == message
                &&& is_same_run(is, was)
                &&& is.compilation_request is None && is.compiled_bundle is None && is.source is None
            }
        },
{
    broadcast use lemma_lookup_put;

}

/// Cancelling a run cancels it, unless it has ended: then it stays as it ended. What is answered is the run
/// as it then stands. No other run changes.
pub proof fn cancelling_cancels_what_has_not_ended(
    before: AutomationStateModel,
    after: AutomationStateModel,
    id: Seq<char>,
    now: u64,
    r: Result<AutomatedRunStageRecord, CoordinatorServiceError>,
    other: Seq<char>,
)
    requires
        ascending(before.automated_runs),
        run_cancelled(before, after, id, now, r),
    ensures
        r is Ok <==> lookup(before.automated_runs, id) is Some,
        other != id ==> lookup(after.automated_runs, other) == lookup(before.automated_runs, other),
        lookup(before.automated_runs, id) matches Some(was) ==> {
            &&& lookup(after.automated_runs, id) matches Some(is)
            &&& r->Ok_0@ == is
            &&& has_ended(is)
            &&& has_ended(was) ==> is == was
            &&& !has_ended(was) ==> {
                &&& is.run.state == AutomatedRunState::Cancelled
                &&& is.run.ended_at == Some(now)
                &&& is_same_run(is, was)
                &&& is.compilation_request is None && is.compiled_bundle is None && is.source is None
            }
        },
{
    broadcast use lemma_lookup_put;

}

/// A restart leaves no run running: those that were have failed, and can be retried; every other run is as it
/// was.
pub proof fn a_restart_fails_what_was_running(
    before: AutomationStateModel,
    after: AutomationStateModel,
    now: u64,
    id: Seq<char>,
)
    requires
        ascending(before.automated_runs),
        interrupted(before, after, now),
    ensures
        ({
            let was = lookup(before.automated_runs, id);
            let is = lookup(after.automated_runs, id);
            &&& was is None <==> is is None
            &&& is matches Some(r) ==> r.run.state != AutomatedRunState::Running
            &&& was is Some && was->Some_0.run.state != AutomatedRunState::Running ==> is == was
            &&& was is Some && was->Some_0.run.state == AutomatedRunState::Running ==> {
                &&& is->Some_0.run.state == AutomatedRunState::Failed
                &&& is->Some_0.run.ended_at == Some(now)
                &&& is->Some_0.run.process_id is None
                &&& is->Some_0.run.failure_code is Some
                &&& is_same_run(is->Some_0, was->Some_0)
            }
        }),
{
    let a = before.automated_runs;
    let b = after.automated_runs;
    assert forall|i: int| 0 <= i < a.len() implies (#[trigger] b[i]).0 == a[i].0 by {}
    lemma_same_keys(a, b);
    lemma_lookup_found(a, id);
    lemma_lookup_found(b, id);
    if lookup(a, id) is Some {
        let i = choose|i: int| bound_at(a, id, i);
        lemma_lookup_at(a, i);
        lemma_lookup_at(b, i);
        assert(b[i].0 == id);
    } else if lookup(b, id) is Some {
        let i = choose|i: int| bound_at(b, id, i);
        assert(a[i].0 == id);
        lemma_lookup_at(a, i);
    }
}

proof fn lemma_queue(
    runs: Seq<(Seq<char>, AutomatedRunStageRecordModel)>,
    p: spec_fn(AutomatedRunStageRecordModel) -> bool,
    q: Seq<(u64, Seq<char>)>,
)
    requires
        ascending(runs),
        enumerates(q, run_queue(runs, p)),
    ensures
        forall|i: int|
            0 <= i < q.len() ==> (lookup(runs, (#[trigger] q[i]).1) matches Some(r) && p(r)
                && r.run.created_at == q[i].0),
        forall|i: int, j: int| 0 <= i < j < q.len() ==> (#[trigger] q[i]).0 <= (#[trigger] q[j]).0,
        forall|id: Seq<char>|
            (#[trigger] lookup(runs, id)) matches Some(r) && p(r) ==> q.contains(
                (lookup(runs, id)->Some_0.run.created_at, id),
            ),
{
    let queue = run_queue(runs, p);
    assert forall|i: int| 0 <= i < q.len() implies (lookup(runs, (#[trigger] q[i]).1) matches Some(r)
        && p(r) && r.run.created_at == q[i].0) by {
        assert(q.contains(q[i]));
        assert(queue.contains(q[i]));
        let m = choose|m: int|
            0 <= m < runs.len() && p((#[trigger] runs[m]).1) && runs[m].0 == q[i].1
                && runs[m].1.run.created_at == q[i].0;
        lemma_lookup_at(runs, m);
    }
    assert forall|i: int, j: int| 0 <= i < j < q.len() implies (#[trigger] q[i]).0 <= (#[trigger] q[j]).0 by {
        assert(q[i].before(q[j]));
    }
    assert forall|id: Seq<char>| (#[trigger] lookup(runs, id)) is Some && p(
        lookup(runs, id)->Some_0,
    ) implies q.contains((lookup(runs, id)->Some_0.run.created_at, id)) by {
        lemma_lookup_found(runs, id);
        let m = choose|m: int| bound_at(runs, id, m);
        lemma_lookup_at(runs, m);
        let k = (runs[m].1.run.created_at, id);
        assert(p(runs[m].1) && runs[m].0 == k.1);
        assert(queue.contains(k));
    }
}

/// A run can be launched: it was compiled, and waits for a slot or is being launched.
pub open spec fn can_be_launched(r: AutomatedRunStageRecordModel) -> bool {
    &&& r.compiled_bundle is Some
    &&& r.run.state == AutomatedRunState::WaitingForProcessSlot || r.run.state
        == AutomatedRunState::Launching
}

/// The runs to launch are runs that can be launched, the oldest first, and no more than asked for. A run that
/// can be launched and is left out is not older than any that is not.
pub proof fn the_oldest_runs_are_launched_first(
    s: AutomationStateModel,
    limit: usize,
    ids: Seq<Seq<char>>,
    id: Seq<char>,
)
    requires
        ascending(s.automated_runs),
        launches_pending(s, limit, ids),
    ensures
        ids.len() <= limit,
        ids.len() <= 8,
        forall|i: int|
            0 <= i < ids.len() ==> (lookup(s.automated_runs, #[trigger] ids[i]) matches Some(r)
                && can_be_launched(r)),
        forall|i: int, j: int|
            0 <= i < j < ids.len() ==> lookup(
                s.automated_runs,
                #[trigger] ids[i],
            )->Some_0.run.created_at <= lookup(
                s.automated_runs,
                #[trigger] ids[j],
            )->Some_0.run.created_at,
        lookup(s.automated_runs, id) matches Some(r) && can_be_launched(r) && !ids.contains(id) ==> {
            &&& ids.len() == limit || ids.len() == 8
            &&& forall|i: int|
                0 <= i < ids.len() ==> lookup(
                    s.automated_runs,
                    #[trigger] ids[i],
                )->Some_0.run.created_at <= lookup(s.automated_runs, id)->Some_0.run.created_at
        },
{
    let q = choose|q: Seq<(u64, Seq<char>)>|
        #[trigger] enumerates(q, launch_queue(s)) && ids == first_page(q, limit);
    let p = |r: AutomatedRunStageRecordModel| crate::automation::awaits_launch(r);
    lemma_queue(s.automated_runs, p, q);
    assert forall|i: int| 0 <= i < ids.len() implies #[trigger] ids[i] == q[i].1 by {}
    if lookup(s.automated_runs, id) is Some && can_be_launched(lookup(s.automated_runs, id)->Some_0)
        && !ids.contains(id) {
        let r = lookup(s.automated_runs, id)->Some_0;
        assert(p(r));
        let k = choose|k: int| 0 <= k < q.len() && q[k] == (r.run.created_at, id);
        if k < ids.len() {
            assert(ids[k] == id);
        }
        assert forall|i: int| 0 <= i < ids.len() implies lookup(
            s.automated_runs,
            #[trigger] ids[i],
        )->Some_0.run.created_at <= r.run.created_at by {
            assert(q[i].0 <= q[k].0);
        }
    }
}

/// The runs of a project are listed from the newest: every one of its runs, and no run of another.
pub proof fn runs_are_listed_from_the_newest(
    s: AutomationStateModel,
    tenant: Seq<char>,
    project: Seq<char>,
    listed: Seq<AutomatedRunRecord>,
    id: Seq<char>,
)
    requires
        ascending(s.automated_runs),
        runs_newest_first(s, tenant, project, listed),
    ensures
        forall|i: int|
            0 <= i < listed.len() ==> (#[trigger] listed[i]).tenant@ == tenant
                && listed[i].project@ == project,
        forall|i: int, j: int|
            0 <= i < j < listed.len() ==> (#[trigger] listed[i]).created_at >= (
            #[trigger] listed[j]).created_at,
        lookup(s.automated_runs, id) matches Some(r) && r.run.tenant@ == tenant && r.run.project@
            == project ==> listed.contains(lookup(s.automated_runs, id)->Some_0.run),
{
    let q = choose|q: Seq<(u64, Seq<char>)>|
        #[trigger] enumerates(q, project_queue(s, tenant, project)) && listed == newest_first(s, q);
    let p = |r: AutomatedRunStageRecordModel| crate::automation::run_in(r, tenant, project);
    lemma_queue(s.automated_runs, p, q);
    assert forall|i: int| 0 <= i < listed.len() implies #[trigger] listed[i] == lookup(
        s.automated_runs,
        q[q.len() - 1 - i].1,
    )->Some_0.run && listed[i].created_at == q[q.len() - 1 - i].0 && listed[i].tenant@ == tenant
        && listed[i].project@ == project by {
        assert(lookup(s.automated_runs, q[q.len() - 1 - i].1) is Some);
    }
    assert forall|i: int, j: int| 0 <= i < j < listed.len() implies (#[trigger] listed[i]).created_at
        >= (#[trigger] listed[j]).created_at by {
        assert(q[q.len() - 1 - j].0 <= q[q.len() - 1 - i].0);
    }
    if lookup(s.automated_runs, id) is Some {
        let r = lookup(s.automated_runs, id)->Some_0;
        if r.run.tenant@ == tenant && r.run.project@ == project {
            assert(p(r));
            let k = choose|k: int| 0 <= k < q.len() && q[k] == (r.run.created_at, id);
            assert(listed[q.len() - 1 - k] == r.run);
        }
    }
}

/// A run still needs its source.
pub open spec fn needs_source(r: AutomatedRunStageRecordModel) -> bool {
    &&& r.source is None
    &&& r.run.state == AutomatedRunState::Accepted || r.run.state
        == AutomatedRunState::LoadingSource
}

proof fn lemma_filter_map_from<A, B>(s: Seq<A>, f: spec_fn(A) -> Option<B>, j: int)
    requires
        0 <= j < s.filter_map(f).len(),
    ensures
        exists|i: int| 0 <= i < s.len() && f(#[trigger] s[i]) == Some(s.filter_map(f)[j]),
    decreases s.len(),
{
    let rest = s.drop_last();
    if s.len() > 0 {
        if j < rest.filter_map(f).len() {
            lemma_filter_map_from(rest, f, j);
            let i = choose|i: int| 0 <= i < rest.len() && f(#[trigger] rest[i]) == Some(
                rest.filter_map(f)[j],
            );
            assert(s[i] == rest[i]);
            assert(s.filter_map(f)[j] == rest.filter_map(f)[j]);
        } else {
            assert(f(s[s.len() - 1]) == Some(s.filter_map(f)[j]));
        }
    }
}

/// Sources are loaded for pushes whose run still needs one, and no more than asked for.
pub proof fn sources_are_loaded_for_runs_that_need_them(
    s: AutomationStateModel,
    limit: usize,
    listed: Seq<AcceptedCommitTriggerRecord>,
    i: int,
)
    requires
        ascending(s.automated_runs),
        sources_pending(s, limit, listed),
        0 <= i < listed.len(),
    ensures
        listed.len() <= limit,
        listed.len() <= 8,
        exists|id: Seq<char>|
            (#[trigger] lookup(s.automated_runs, id)) matches Some(r) && needs_source(r) && lookup(
                s.accepted_commit_triggers,
                r.run.primary_trigger_id@,
            ) == Some(listed[i]),
{
    let q = choose|q: Seq<(u64, Seq<char>)>|
        #[trigger] enumerates(q, source_queue(s)) && listed == queued_triggers(s, q).take(
            crate::automation::page(limit, queued_triggers(s, q).len() as int),
        );
    let p = |r: AutomatedRunStageRecordModel| crate::automation::awaits_source(r);
    lemma_queue(s.automated_runs, p, q);
    let f = |k: (u64, Seq<char>)| trigger_of_run(s, k.1);
    assert(listed[i] == q.filter_map(f)[i]);
    lemma_filter_map_from(q, f, i);
    let m = choose|m: int| 0 <= m < q.len() && f(#[trigger] q[m]) == Some(q.filter_map(f)[i]);
    let id = q[m].1;
    assert(lookup(s.automated_runs, id) is Some);
}

/// The source of a run is of its own push, repository and commit, and once recorded it stays: it is recorded
/// again only as it was.
pub proof fn sources_belong_to_their_run(
    before: AutomationStateModel,
    after: AutomationStateModel,
    id: Seq<char>,
    source: WorkflowSourceModel,
    revision: RepositoryRevision,
    source_check: Result<(), String>,
    revision_check: Result<(), String>,
    r: Result<AutomatedRunStageRecord, CoordinatorServiceError>,
    other: Seq<char>,
)
    requires
        ascending(before.automated_runs),
        source_recorded(
            before,
            after,
            id,
            source,
            revision,
            source_check,
            revision_check,
            r,
        ),
    ensures
        other != id ==> lookup(after.automated_runs, other) == lookup(before.automated_runs, other),
        r is Err ==> after == before,
        source_check is Err || revision_check is Err ==> r is Err,
        lookup(before.automated_runs, id) is None ==> r is Err,
        r is Ok ==> {
            &&& lookup(before.automated_runs, id) matches Some(was)
            &&& lookup(after.automated_runs, id) matches Some(is)
            &&& r->Ok_0@ == is
            &&& is_same_run(is, was)
            &&& has_ended(was) ==> is == was
            &&& was.source is Some ==> is == was
            &&& !has_ended(was) ==> {
                &&& source.trigger_id@ == was.run.primary_trigger_id@
                &&& source.repository_id@ == was.run.repository_id@
                &&& source.commit_sha@ == was.run.commit_sha@
                &&& revision.commit_sha@ == was.run.commit_sha@
                &&& revision.repository_id@ == was.run.repository_id@
            }
            &&& !has_ended(was) && was.source is None ==> {
                &&& is.source == Some(source)
                &&& is.revision == Some(revision)
                &&& is.revision_environments == source.environments
                &&& is.run.workflow_tree_digest == Some(source.tree_digest)
                &&& is.run.state == AutomatedRunState::LoadingSource
            }
        },
{
    broadcast use lemma_lookup_put;

}

/// A run is queued for compilation once its source is known, and then waits for a node that compiles; one
/// that has ended or is queued stays as it is.
pub proof fn compilation_is_of_the_loaded_source(
    before: AutomationStateModel,
    after: AutomationStateModel,
    request: WorkflowCompilationRequestModel,
    check: Result<(), String>,
    r: Result<AutomatedRunStageRecord, CoordinatorServiceError>,
    other: Seq<char>,
)
    requires
        ascending(before.automated_runs),
        compilation_asked(before, after, request, check, r),
    ensures
        other != request.run_id@ ==> lookup(after.automated_runs, other) == lookup(
            before.automated_runs,
            other,
        ),
        r is Err ==> after == before,
        check is Err ==> r is Err,
        r is Ok ==> {
            &&& lookup(before.automated_runs, request.run_id@) matches Some(was)
            &&& lookup(after.automated_runs, request.run_id@) matches Some(is)
            &&& r->Ok_0@ == is
            &&& is_same_run(is, was)
            &&& has_ended(was) || was.compilation_request is Some ==> is == was
            &&& !has_ended(was) && was.compilation_request is None ==> {
                &&& was.source is Some
                &&& was.source->Some_0.commit_sha@ == request.source.commit_sha@
                &&& was.source->Some_0.tree_digest@ == request.source.tree_digest@
                &&& is.compilation_request == Some(request)
                &&& is.run.state == AutomatedRunState::WaitingForCompilerNode
                &&& is.run.waiting_reason is Some
            }
        },
{
    broadcast use lemma_lookup_put;

}

/// Making room for a run drops only runs of the project that have ended; those of it that have ended and stay
/// are not older than any that went.
pub proof fn room_is_made_of_the_oldest_ended_runs(
    before: AutomationStateModel,
    after: AutomationStateModel,
    tenant: Seq<char>,
    project: Seq<char>,
    q: Seq<(u64, Seq<char>)>,
    gone: Seq<char>,
    left: Seq<char>,
)
    requires
        ascending(before.automated_runs),
        compacted(before, after, tenant, project, q),
    ensures
        lookup(after.automated_runs, left) is Some ==> lookup(after.automated_runs, left) == lookup(
            before.automated_runs,
            left,
        ),
        lookup(before.automated_runs, gone) is Some && lookup(after.automated_runs, gone) is None ==> {
            let r = lookup(before.automated_runs, gone)->Some_0;
            &&& r.run.tenant@ == tenant && r.run.project@ == project
            &&& has_ended(r)
            &&& (lookup(after.automated_runs, left) matches Some(stays) && stays.run.tenant@ == tenant
                && stays.run.project@ == project && has_ended(stays)) ==> r.run.created_at
                <= lookup(after.automated_runs, left)->Some_0.run.created_at
        },
{
    if after != before {
        let n = excess_runs(before, tenant, project);
        let ids = first_ids(q, n);
        let runs = before.automated_runs;
        let stays = |e: (Seq<char>, AutomatedRunStageRecordModel)| !ids.contains(e.0);
        assert(after.automated_runs == runs.filter(stays));
        lemma_filter_ascending(runs, stays);
        let p = |r: AutomatedRunStageRecordModel|
            crate::automation::run_in(r, tenant, project) && crate::automation::run_ended(
                r.run.state,
            );
        assert(ended_runs(before, tenant, project) == run_queue(runs, p));
        lemma_queue(runs, p, q);
        if lookup(runs, gone) is Some && lookup(after.automated_runs, gone) is None {
            assert(ids.contains(gone));
            let k = choose|k: int| 0 <= k < n && (#[trigger] q[k]).1 == gone;
            assert(lookup(runs, q[k].1) is Some);
            if lookup(after.automated_runs, left) is Some {
                let s = lookup(runs, left)->Some_0;
                if p(s) {
                    let m = choose|m: int| 0 <= m < q.len() && q[m] == (s.run.created_at, left);
                    if m < n {
                        assert(q[m].1 == left);
                        assert(ids.contains(left));
                    }
                    assert(q[k].0 <= q[m].0);
                }
            }
        }
    }
}

/// A push that is new leads to a run of its own project and commit: the run that has its identity, or a new
/// one, which is accepted and has nothing yet.
pub proof fn pushes_lead_to_a_run_of_their_commit(
    before: AutomationStateModel,
    after: AutomationStateModel,
    accepted: AcceptedCommitTriggerRecord,
    record: AutomatedRunStageRecord,
)
    requires
        ascending(before.automated_runs),
        ascending(before.automated_run_keys),
        ascending(before.trigger_deliveries),
        ascending(before.accepted_commit_triggers),
        lookup(
            before.trigger_deliveries,
            (accepted.binding_id@, accepted.trigger.delivery_id@),
        ) is None,
        lookup(before.automated_run_keys, accepted.trigger.run_identity@) is None,
        lookup(before.automated_runs, run_of_key(accepted.trigger.run_identity@)) is None,
        delivered(before, after, accepted, Ok(record)),
    ensures
        record@.run.tenant@ == accepted.tenant@,
        record@.run.project@ == accepted.project@,
        record@.run.commit_sha@ == accepted.trigger.commit_sha@,
        record@.run.repository_id@ == accepted.trigger.repository_id@,
        record@.run.git_ref@ == accepted.trigger.git_ref@,
        record@.run.trusted == accepted.trigger.trusted,
        record@.run.primary_trigger_id@ == accepted.trigger.trigger_id@,
        record@.run.state == AutomatedRunState::Accepted,
        record@.run.created_at == accepted.trigger.received_at,
        record@.run.process_id is None,
        record@.source is None && record@.compiled_bundle is None,
        record@.run_key@ == accepted.trigger.run_identity@,
        needs_source(record@),
{
    let (room, q) = choose|room: AutomationStateModel, q: Seq<(u64, Seq<char>)>| #[trigger]
        newly_delivered(
            before,
            after,
            accepted,
            Ok::<AutomatedRunStageRecord, CoordinatorServiceError>(record),
            room,
            q,
        );
    let id = run_of_key(accepted.trigger.run_identity@);
    room_is_made_of_the_oldest_ended_runs(
        before,
        room,
        accepted.tenant@,
        accepted.project@,
        q,
        id,
        id,
    );
}

/// Only a run that has failed or was cancelled is retried. The retry is a run of the same commit, and starts
/// from the beginning.
pub proof fn retries_start_from_the_beginning(
    before: AutomationStateModel,
    after: AutomationStateModel,
    run_id: Seq<char>,
    retries: Seq<RetryDigests>,
    now: u64,
    record: AutomatedRunStageRecord,
)
    requires
        retry_refusal(before, run_id) is None,
        retry_made(before, after, run_id, retries, now, Ok(record)),
    ensures
        lookup(before.automated_runs, run_id) matches Some(was) && {
            &&& was.run.state == AutomatedRunState::Failed || was.run.state
                == AutomatedRunState::Cancelled
            &&& record@.run.commit_sha == was.run.commit_sha
            &&& record@.run.repository_id == was.run.repository_id
            &&& record@.run.git_ref == was.run.git_ref
            &&& record@.run.trusted == was.run.trusted
            &&& record@.run.tenant == was.run.tenant
            &&& record@.run.project == was.run.project
        },
        record@.run.state == AutomatedRunState::Accepted,
        record@.run.created_at == now,
        record@.run.process_id is None,
        record@.run.ended_at is None,
        record@.run.failure_code is None,
        needs_source(record@),
        record@.compiled_bundle is None,
{
    let (room, q, accepted, i) = choose|
        room: AutomationStateModel,
        q: Seq<(u64, Seq<char>)>,
        accepted: AcceptedCommitTriggerRecord,
        i: int,
    | #[trigger]
        retried(
            before,
            after,
            run_id,
            retries,
            now,
            Ok::<AutomatedRunStageRecord, CoordinatorServiceError>(record),
            room,
            q,
            accepted,
            i,
        );
}

/// Why runs wait for a compiler is noted with those that do, in the project, and changes nothing else.
pub proof fn only_runs_that_wait_for_a_compiler_are_told_why(
    before: AutomationStateModel,
    after: AutomationStateModel,
    tenant: Seq<char>,
    project: Seq<char>,
    reason: Seq<char>,
    i: int,
)
    requires
        waits_for(before, after, tenant, project, reason),
        0 <= i < before.automated_runs.len(),
    ensures
        ({
            let was = before.automated_runs[i].1;
            let is = after.automated_runs[i].1;
            &&& after.automated_runs[i].0 == before.automated_runs[i].0
            &&& is.run.state == was.run.state && is_same_run(is, was)
            &&& was.run.tenant@ == tenant && was.run.project@ == project && was.run.state
                == AutomatedRunState::WaitingForCompilerNode ==> (
            is.run.waiting_reason matches Some(text) && text@ == reason)
            &&& !(was.run.tenant@ == tenant && was.run.project@ == project && was.run.state
                == AutomatedRunState::WaitingForCompilerNode) ==> is == was
        }),
{
    assert(after.automated_runs[i].0 == before.automated_runs[i].0);
}

/// A load of a source is claimed for the run that the push led to, which is then loading unless it has its
/// source; no other run changes.
pub proof fn claims_are_of_the_run_of_the_push(
    before: AutomationStateModel,
    after: AutomationStateModel,
    trigger: Seq<char>,
    run_id: Seq<char>,
    other: Seq<char>,
)
    requires
        ascending(before.automated_runs),
        claims_source(before, after, trigger, run_id),
    ensures
        lookup(before.automated_runs, run_id) matches Some(was) && {
            &&& was.run.primary_trigger_id@ == trigger
            &&& lookup(after.automated_runs, run_id) matches Some(is)
            &&& is_same_run(is, was)
            &&& was.source is Some ==> is == was
            &&& was.source is None ==> is.run.state == AutomatedRunState::LoadingSource
        },
        other != run_id ==> lookup(after.automated_runs, other) == lookup(
            before.automated_runs,
            other,
        ),
{
    broadcast use lemma_lookup_put;

    let i = choose|i: int| #[trigger] source_claimed(before, after, trigger, run_id, i);
    lemma_lookup_at(before.automated_runs, i);
}

} // verus!
