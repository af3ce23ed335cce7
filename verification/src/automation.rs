//! The stages of automated runs: from an accepted push through loading and compiling its workflow
//! to the process that runs it.
use vstd::prelude::*;
use vstd::string::*;

use crate::automated_run::{AcceptedCommitTriggerRecord, AssignmentRetry, AutomatedRunRecord, AutomatedRunStageRecord, AutomatedRunStageRecordModel, AutomatedRunState, AutomationState, AutomationStateModel, CommitTrigger, EnvironmentResource, ProjectEnvironmentRecord, RepositoryRevision, TriggerContext, WorkflowCompilationRequest, WorkflowCompilationRequestModel, WorkflowSource, WorkflowSourceModel, repository_revision_alike, workflow_compilation_request_alike, workflow_source_alike};
use crate::duplicate::{Duplicate, TextList, copy_all, copy_option, option_view, same_text, texts, views};
use crate::ids::{Digest, ProcessId, ProjectId, RunId, TenantId, TriggerId};
use crate::ordered::OrderedKey;
use crate::ordered_map::{OrderedMap, ascending, bound_at, lemma_lookup_at, lemma_lookup_found, lemma_lookup_put, lemma_put_delete, lookup, put};
use crate::ordered_set::{OrderedSet, enumerates};
use crate::sequences::{holds_of_some, is_first};
use crate::service_error::{CoordinatorServiceError, protocol, unauthorized};
use crate::text::{byte_len, chars_of, is_blank, trimmed, concat2, concat4, decimal, decimal_text, part, starts_with, text_eq, text_len, text_of};

verus! {

/// The most runs that a project has.
pub const MAX_RUNS_PER_PROJECT: usize = 64;

/// The most runs of a project that wait.
pub const MAX_QUEUED_RUNS_PER_PROJECT: usize = 8;

/// The most compilations of a project that wait.
pub const MAX_PENDING_COMPILATIONS_PER_PROJECT: usize = 8;

/// For how long a compilation is assigned at least.
pub const SYSTEM_ASSIGNMENT_LEASE_SECONDS: u64 = 180;

/// For how long a compilation is offered.
pub const SYSTEM_ASSIGNMENT_OFFER_SECONDS: u64 = 30;

/// How often a compilation is assigned at most.
pub const MAX_SYSTEM_ASSIGNMENT_ATTEMPTS: u8 = 5;

/// A state that a run does not leave.
pub open spec fn run_ended(state: AutomatedRunState) -> bool {
    state == AutomatedRunState::Completed || state == AutomatedRunState::Failed || state
        == AutomatedRunState::Cancelled
}

impl AutomatedRunState {
    pub fn is_terminal(self) -> (r: bool)
        ensures
            r == run_ended(self),
    {
        matches!(
            self,
            AutomatedRunState::Completed | AutomatedRunState::Failed | AutomatedRunState::Cancelled
        )
    }
}

/// What follows the last occurrence of a character, or everything.
pub open spec fn after_last(s: Seq<char>, c: char) -> Seq<char>
    decreases s.len(),
{
    if s.len() == 0 || s.last() == c {
        Seq::empty()
    } else {
        after_last(s.drop_last(), c).push(s.last())
    }
}

proof fn lemma_after_last(s: Seq<char>, c: char, i: int)
    requires
        0 <= i <= s.len(),
        forall|j: int| i <= j < s.len() ==> s[j] != c,
        i == 0 || s[i - 1] == c,
    ensures
        after_last(s, c) == s.subrange(i, s.len() as int),
    decreases s.len(),
{
    if s.len() == i {
        if i > 0 {
            assert(s.last() == c);
        }
        assert(s.subrange(i, i) =~= Seq::empty());
    } else {
        lemma_after_last(s.drop_last(), c, i);
        assert(s.subrange(i, s.len() as int) =~= s.drop_last().subrange(
            i,
            s.len() - 1,
        ).push(s.last()));
    }
}

/// What follows the last dash of an identifier.
pub fn id_suffix(value: &str) -> (r: String)
    ensures
        r@ == after_last(value@, '-'),
{
    let chars: Vec<char> = chars_of(value);
    let n: usize = chars.len();
    let mut i: usize = n;
    while i > 0
        invariant_except_break
            0 <= i <= n,
            n == chars@.len(),
            chars@ == value@,
            forall|j: int| i <= j < n ==> chars@[j] != '-',
        ensures
            0 <= i <= n,
            n == chars@.len(),
            forall|j: int| i <= j < n ==> chars@[j] != '-',
            i == 0 || chars@[i - 1] == '-',
        decreases i,
    {
        if chars[i - 1] == '-' {
            break;
        }
        i = i - 1;
    }
    proof {
        lemma_after_last(value@, '-', i as int);
    }
    let tail: Vec<char> = part(&chars, i, n);
    text_of(&tail)
}

/// The run of a key, which is a digest.
pub open spec fn run_of_key(key: Seq<char>) -> Seq<char> {
    "run-"@ + key.skip(7)
}

/// Whether a text is written as a digest.
pub open spec fn is_digest_text(key: Seq<char>) -> bool {
    starts_with(key, "sha256:"@)
}

pub fn run_id_from_key(key: &Digest) -> (r: RunId)
    requires
        is_digest_text(key@),
    ensures
        r@ == run_of_key(key@),
{
    proof {
        reveal_strlit("sha256:");
    }
    let chars: Vec<char> = chars_of(key.as_str());
    let tail: Vec<char> = part(&chars, 7, chars.len());
    assert(tail@ =~= key@.skip(7));
    let text: String = text_of(&tail);
    concat2("run-", text.as_str())
}

pub fn process_id_for_run(run_id: &RunId) -> (r: ProcessId)
    ensures
        r@ == "process-"@ + after_last(run_id@, '-'),
{
    let suffix: String = id_suffix(run_id.as_str());
    concat2("process-", suffix.as_str())
}

/// A run of the project.
pub open spec fn run_in(r: AutomatedRunStageRecordModel, tenant: Seq<char>, project: Seq<char>) -> bool {
    r.run.tenant@ == tenant && r.run.project@ == project
}

/// A run of the project that waits for something.
pub open spec fn run_waits(r: AutomatedRunStageRecordModel, tenant: Seq<char>, project: Seq<char>) -> bool {
    run_in(r, tenant, project) && !run_ended(r.run.state) && r.run.state
        != AutomatedRunState::Running
}

/// The number of runs that `p` holds of.
pub open spec fn run_count(
    runs: Seq<(Seq<char>, AutomatedRunStageRecordModel)>,
    p: spec_fn(AutomatedRunStageRecordModel) -> bool,
) -> nat {
    runs.filter(|e: (Seq<char>, AutomatedRunStageRecordModel)| p(e.1)).len()
}

/// The runs that `p` holds of, by the time of their creation.
pub open spec fn run_queue(
    runs: Seq<(Seq<char>, AutomatedRunStageRecordModel)>,
    p: spec_fn(AutomatedRunStageRecordModel) -> bool,
) -> Set<(u64, Seq<char>)> {
    Set::new(
        |k: (u64, Seq<char>)|
            exists|i: int|
                0 <= i < runs.len() && p((#[trigger] runs[i]).1) && runs[i].0 == k.1
                    && runs[i].1.run.created_at == k.0,
    )
}

impl AutomationState {
    /// The number of runs that pass a test.
    pub(crate) fn count_runs<F: Fn(&AutomatedRunStageRecord) -> bool>(
        &self,
        test: F,
        Ghost(p): Ghost<spec_fn(AutomatedRunStageRecordModel) -> bool>,
    ) -> (r: usize)
        requires
            crate::sequences::tells(test, p),
        ensures
            r == run_count(self@.automated_runs, p),
    {
        let ghost q = |e: (Seq<char>, AutomatedRunStageRecordModel)| p(e.1);
        let on_entry = |_id: &RunId, record: &AutomatedRunStageRecord| -> (b: bool)
            ensures
                b == p(record@),
        { test(record) };
        self.automated_runs.count_where(on_entry, Ghost(q))
    }

    /// The runs that pass a test, by the time of their creation.
    pub(crate) fn queue_runs<F: Fn(&AutomatedRunStageRecord) -> bool>(
        &self,
        test: F,
        Ghost(p): Ghost<spec_fn(AutomatedRunStageRecordModel) -> bool>,
    ) -> (r: OrderedSet<(u64, RunId)>)
        requires
            crate::sequences::tells(test, p),
        ensures
            r@ == run_queue(self@.automated_runs, p),
    {
        let ghost runs = self@.automated_runs;
        let n: usize = self.automated_runs.len();
        let mut queue: OrderedSet<(u64, RunId)> = OrderedSet::new();
        let mut i: usize = 0;
        assert(queue@ =~= run_queue(runs.take(0), p));
        while i < n
            invariant
                n == runs.len(),
                runs == self.automated_runs@,
                crate::sequences::tells(test, p),
                0 <= i <= n,
                queue@ == run_queue(runs.take(i as int), p),
            decreases n - i,
        {
            let record: &AutomatedRunStageRecord = self.automated_runs.value_at(i);
            let ghost shorter = runs.take(i as int);
            let ghost longer = runs.take(i + 1);
            assert(longer =~= shorter.push(runs[i as int]));
            assert(forall|j: int| 0 <= j < i ==> longer[j] == shorter[j]);
            assert(longer[i as int] == runs[i as int]);
            let ghost earlier = queue@;
            if test(record) {
                let id: RunId = self.automated_runs.key_at(i).copy_key();
                let key: (u64, RunId) = (record.run.created_at, id);
                assert(key.key() == (record@.run.created_at, runs[i as int].0));
                let _fresh: bool = queue.insert(key);
                assert(queue@ =~= run_queue(longer, p)) by {
                    let k = (record@.run.created_at, runs[i as int].0);
                    assert forall|x: (u64, Seq<char>)| queue@.contains(x) <==> run_queue(
                        longer,
                        p,
                    ).contains(x) by {
                        if x == k {
                            assert(p(longer[i as int].1) && longer[i as int].0 == x.1);
                        }
                        if run_queue(shorter, p).contains(x) {
                            let j = choose|j: int|
                                0 <= j < shorter.len() && p((#[trigger] shorter[j]).1)
                                    && shorter[j].0 == x.1 && shorter[j].1.run.created_at == x.0;
                            assert(p(longer[j].1));
                        }
                        if run_queue(longer, p).contains(x) && x != k {
                            let j = choose|j: int|
                                0 <= j < longer.len() && p((#[trigger] longer[j]).1)
                                    && longer[j].0 == x.1 && longer[j].1.run.created_at == x.0;
                            assert(p(shorter[j].1));
                        }
                    }
                }
            } else {
                assert(queue@ =~= run_queue(longer, p)) by {
                    assert forall|x: (u64, Seq<char>)| queue@.contains(x) <==> run_queue(
                        longer,
                        p,
                    ).contains(x) by {
                        if run_queue(shorter, p).contains(x) {
                            let j = choose|j: int|
                                0 <= j < shorter.len() && p((#[trigger] shorter[j]).1)
                                    && shorter[j].0 == x.1 && shorter[j].1.run.created_at == x.0;
                            assert(p(longer[j].1));
                        }
                        if run_queue(longer, p).contains(x) {
                            let j = choose|j: int|
                                0 <= j < longer.len() && p((#[trigger] longer[j]).1)
                                    && longer[j].0 == x.1 && longer[j].1.run.created_at == x.0;
                            assert(p(shorter[j].1));
                        }
                    }
                }
            }
            i = i + 1;
        }
        assert(runs.take(n as int) =~= runs);
        queue
    }

    pub fn automated_run(&self, run_id: &RunId) -> (r: Option<&AutomatedRunStageRecord>)
        ensures
            r is Some <==> lookup(self@.automated_runs, run_id@) is Some,
            r matches Some(record) ==> lookup(self@.automated_runs, run_id@) == Some(record@),
    {
        assert(run_id.key() == run_id@);
        self.automated_runs.get(run_id)
    }

    /// The run that a delivery of a forge has led to.
    pub fn automated_run_for_trigger_delivery(&self, binding_id: &String, delivery_id: &String) -> (r:
        Option<RunId>)
        ensures
            option_view(r) == delivered_run(self@, binding_id@, delivery_id@),
    {
        let key: (String, String) = (binding_id.clone(), delivery_id.clone());
        assert(key.key() == (binding_id@, delivery_id@));
        match self.trigger_deliveries.get(&key) {
            None => None,
            Some(trigger_id) => {
                assert(trigger_id.key() == trigger_id@);
                match self.accepted_commit_triggers.get(trigger_id) {
                    None => None,
                    Some(accepted) => {
                        assert(accepted.trigger.run_identity.key()
                            == accepted.trigger.run_identity@);
                        match self.automated_run_keys.get(&accepted.trigger.run_identity) {
                            None => None,
                            Some(run) => Some(run.clone()),
                        }
                    },
                }
            },
        }
    }

    /// Tenant and project of a run, as its trigger has them.
    pub fn automated_run_scope(&self, run_id: &RunId) -> (r: Option<(TenantId, ProjectId)>)
        ensures
            match trigger_of_run(self@, run_id@) {
                Some(accepted) => r == Some((accepted.tenant, accepted.project)),
                None => r is None,
            },
    {
        match self.automated_run(run_id) {
            None => None,
            Some(record) => {
                assert(record.run.primary_trigger_id.key() == record.run.primary_trigger_id@);
                match self.accepted_commit_triggers.get(&record.run.primary_trigger_id) {
                    None => None,
                    Some(accepted) => Some((accepted.tenant.clone(), accepted.project.clone())),
                }
            },
        }
    }
}

/// The run that a delivery of a forge has led to.
pub open spec fn delivered_run(
    s: AutomationStateModel,
    binding: Seq<char>,
    delivery: Seq<char>,
) -> Option<Seq<char>> {
    match lookup(s.trigger_deliveries, (binding, delivery)) {
        None => None,
        Some(trigger) => match lookup(s.accepted_commit_triggers, trigger) {
            None => None,
            Some(accepted) => lookup(s.automated_run_keys, accepted.trigger.run_identity@),
        },
    }
}

/// The trigger of a run.
pub open spec fn trigger_of_run(s: AutomationStateModel, run: Seq<char>) -> Option<
    AcceptedCommitTriggerRecord,
> {
    match lookup(s.automated_runs, run) {
        None => None,
        Some(record) => lookup(s.accepted_commit_triggers, record.run.primary_trigger_id@),
    }
}

/// The identifiers of the first `n` of a queue.
pub open spec fn first_ids(q: Seq<(u64, Seq<char>)>, n: int) -> Set<Seq<char>> {
    Set::new(|id: Seq<char>| exists|i: int| 0 <= i < n && (#[trigger] q[i]).1 == id)
}

/// The keys of the runs in a set.
pub open spec fn keys_of(runs: Seq<(Seq<char>, AutomatedRunStageRecordModel)>, ids: Set<Seq<char>>) -> Set<
    Seq<char>,
> {
    Set::new(
        |k: Seq<char>|
            exists|i: int|
                0 <= i < runs.len() && ids.contains((#[trigger] runs[i]).0) && runs[i].1.run_key@
                    == k,
    )
}

/// The primary triggers of the runs in a set.
pub open spec fn triggers_of(
    runs: Seq<(Seq<char>, AutomatedRunStageRecordModel)>,
    ids: Set<Seq<char>>,
) -> Set<Seq<char>> {
    Set::new(
        |t: Seq<char>|
            exists|i: int|
                0 <= i < runs.len() && ids.contains((#[trigger] runs[i]).0)
                    && runs[i].1.run.primary_trigger_id@ == t,
    )
}

/// The primary triggers of the runs that are not in a set.
pub open spec fn other_triggers(
    runs: Seq<(Seq<char>, AutomatedRunStageRecordModel)>,
    ids: Set<Seq<char>>,
) -> Set<Seq<char>> {
    Set::new(
        |t: Seq<char>|
            exists|i: int|
                0 <= i < runs.len() && !ids.contains((#[trigger] runs[i]).0)
                    && runs[i].1.run.primary_trigger_id@ == t,
    )
}

/// Whether an accepted trigger goes with the runs in a set: it is the primary one of such a run,
/// or it led to one and is the primary one of no other.
pub open spec fn trigger_goes(
    s: AutomationStateModel,
    tenant: Seq<char>,
    project: Seq<char>,
    ids: Set<Seq<char>>,
    e: (Seq<char>, AcceptedCommitTriggerRecord),
) -> bool {
    triggers_of(s.automated_runs, ids).contains(e.0) || (e.1.tenant@ == tenant && e.1.project@
        == project && keys_of(s.automated_runs, ids).contains(e.1.trigger.run_identity@)
        && !other_triggers(s.automated_runs, ids).contains(e.0))
}

/// The triggers that go with the runs in a set.
pub open spec fn gone_triggers(
    s: AutomationStateModel,
    tenant: Seq<char>,
    project: Seq<char>,
    ids: Set<Seq<char>>,
) -> Set<Seq<char>> {
    Set::new(
        |t: Seq<char>|
            exists|i: int|
                0 <= i < s.accepted_commit_triggers.len() && trigger_goes(
                    s,
                    tenant,
                    project,
                    ids,
                    #[trigger] s.accepted_commit_triggers[i],
                ) && s.accepted_commit_triggers[i].0 == t,
    )
}

/// The state without the runs in a set, their keys, and the triggers that go with them.
pub open spec fn without_runs(
    s: AutomationStateModel,
    tenant: Seq<char>,
    project: Seq<char>,
    ids: Set<Seq<char>>,
) -> AutomationStateModel {
    let keys = keys_of(s.automated_runs, ids);
    let triggers = gone_triggers(s, tenant, project, ids);
    AutomationStateModel {
        automated_runs: s.automated_runs.filter(
            |e: (Seq<char>, AutomatedRunStageRecordModel)| !ids.contains(e.0),
        ),
        automated_run_keys: s.automated_run_keys.filter(
            |e: (Seq<char>, Seq<char>)| !keys.contains(e.0),
        ),
        accepted_commit_triggers: s.accepted_commit_triggers.filter(
            |e: (Seq<char>, AcceptedCommitTriggerRecord)| !triggers.contains(e.0),
        ),
        trigger_deliveries: s.trigger_deliveries.filter(
            |e: ((Seq<char>, Seq<char>), Seq<char>)| !triggers.contains(e.1),
        ),
        ..s
    }
}

/// How many runs of a project have to go so that one more has room.
pub open spec fn excess_runs(s: AutomationStateModel, tenant: Seq<char>, project: Seq<char>) -> int {
    run_count(
        s.automated_runs,
        |r: AutomatedRunStageRecordModel| run_in(r, tenant, project),
    ) + 1 - MAX_RUNS_PER_PROJECT
}

/// The ended runs of a project.
pub open spec fn ended_runs(s: AutomationStateModel, tenant: Seq<char>, project: Seq<char>) -> Set<
    (u64, Seq<char>),
> {
    run_queue(
        s.automated_runs,
        |r: AutomatedRunStageRecordModel| run_in(r, tenant, project) && run_ended(r.run.state),
    )
}

/// The state after the oldest ended runs of a project have made room for one more, if enough of
/// them have ended.
pub open spec fn compacted(
    before: AutomationStateModel,
    after: AutomationStateModel,
    tenant: Seq<char>,
    project: Seq<char>,
    q: Seq<(u64, Seq<char>)>,
) -> bool {
    let excess = excess_runs(before, tenant, project);
    &&& enumerates(q, ended_runs(before, tenant, project))
    &&& after == (if excess <= 0 || q.len() < excess {
        before
    } else {
        without_runs(before, tenant, project, first_ids(q, excess))
    })
}

impl AutomationState {
    /// The keys of the runs in a set, their primary triggers, and those of the other runs.
    fn traces_of(&self, ids: &OrderedSet<RunId>) -> (r: (
        OrderedSet<Digest>,
        OrderedSet<TriggerId>,
        OrderedSet<TriggerId>,
    ))
        ensures
            r.0@ == keys_of(self@.automated_runs, ids@),
            r.1@ == triggers_of(self@.automated_runs, ids@),
            r.2@ == other_triggers(self@.automated_runs, ids@),
    {
        let ghost runs = self@.automated_runs;
        let n: usize = self.automated_runs.len();
        let mut keys: OrderedSet<Digest> = OrderedSet::new();
        let mut gone: OrderedSet<TriggerId> = OrderedSet::new();
        let mut others: OrderedSet<TriggerId> = OrderedSet::new();
        let mut i: usize = 0;
        assert(keys@ =~= keys_of(runs.take(0), ids@));
        assert(gone@ =~= triggers_of(runs.take(0), ids@));
        assert(others@ =~= other_triggers(runs.take(0), ids@));
        while i < n
            invariant
                n == runs.len(),
                runs == self.automated_runs@,
                0 <= i <= n,
                keys@ == keys_of(runs.take(i as int), ids@),
                gone@ == triggers_of(runs.take(i as int), ids@),
                others@ == other_triggers(runs.take(i as int), ids@),
            decreases n - i,
        {
            let id: &RunId = self.automated_runs.key_at(i);
            let record: &AutomatedRunStageRecord = self.automated_runs.value_at(i);
            assert(id.key() == runs[i as int].0);
            let trigger: TriggerId = record.run.primary_trigger_id.clone();
            assert(trigger.key() == record@.run.primary_trigger_id@);
            proof {
                lemma_traces(runs, ids@, i as int);
            }
            if ids.contains(id) {
                let key: Digest = record.run_key.clone();
                assert(key.key() == record@.run_key@);
                let _new_key: bool = keys.insert(key);
                let _new_trigger: bool = gone.insert(trigger);
            } else {
                let _new_trigger: bool = others.insert(trigger);
            }
            i = i + 1;
        }
        assert(runs.take(n as int) =~= runs);
        (keys, gone, others)
    }

    /// The triggers that go with the runs in a set.
    fn triggers_going(&self, tenant: &TenantId, project: &ProjectId, ids: &OrderedSet<RunId>) -> (r:
        OrderedSet<TriggerId>)
        ensures
            r@ == gone_triggers(self@, tenant@, project@, ids@),
    {
        let (keys, gone, others) = self.traces_of(ids);
        let ghost all = self@.accepted_commit_triggers;
        let n: usize = self.accepted_commit_triggers.len();
        let mut going: OrderedSet<TriggerId> = OrderedSet::new();
        let mut i: usize = 0;
        while i < n
            invariant
                n == all.len(),
                all == self.accepted_commit_triggers@,
                all == self@.accepted_commit_triggers,
                keys@ == keys_of(self@.automated_runs, ids@),
                gone@ == triggers_of(self@.automated_runs, ids@),
                others@ == other_triggers(self@.automated_runs, ids@),
                0 <= i <= n,
                forall|t: Seq<char>|
                    #[trigger] going@.contains(t) <==> exists|j: int|
                        0 <= j < i && trigger_goes(
                            self@,
                            tenant@,
                            project@,
                            ids@,
                            #[trigger] all[j],
                        ) && all[j].0 == t,
            decreases n - i,
        {
            let id: &TriggerId = self.accepted_commit_triggers.key_at(i);
            let accepted: &AcceptedCommitTriggerRecord = self.accepted_commit_triggers.value_at(i);
            assert(id.key() == all[i as int].0);
            assert(accepted.trigger.run_identity.key() == accepted.trigger.run_identity@);
            let goes: bool = gone.contains(id) || (accepted.tenant == *tenant && accepted.project
                == *project && keys.contains(&accepted.trigger.run_identity) && !others.contains(
                id,
            ));
            assert(goes == trigger_goes(self@, tenant@, project@, ids@, all[i as int]));
            if goes {
                let copy: TriggerId = id.copy_key();
                let _new: bool = going.insert(copy);
            }
            i = i + 1;
        }
        assert(going@ =~= gone_triggers(self@, tenant@, project@, ids@));
        going
    }

    /// Drops the runs in a set, their keys, and the triggers that go with them.
    fn remove_runs(&mut self, tenant: &TenantId, project: &ProjectId, ids: &OrderedSet<RunId>)
        ensures
            final(self)@ == without_runs(old(self)@, tenant@, project@, ids@),
    {
        let ghost before = self@;
        let (keys, _gone, _others) = self.traces_of(ids);
        let triggers: OrderedSet<TriggerId> = self.triggers_going(tenant, project, ids);
        let ghost p = |e: (Seq<char>, AutomatedRunStageRecordModel)| !ids@.contains(e.0);
        let keep_run = |id: &RunId, _record: &AutomatedRunStageRecord| -> (b: bool)
            ensures
                b == !ids@.contains(id.key()),
        { !ids.contains(id) };
        self.automated_runs.retain(keep_run, Ghost(p));
        let ghost gone_keys = keys_of(before.automated_runs, ids@);
        let ghost gone = gone_triggers(before, tenant@, project@, ids@);
        let ghost p2 = |e: (Seq<char>, Seq<char>)| !gone_keys.contains(e.0);
        let keep_key = |key: &Digest, _run: &RunId| -> (b: bool)
            ensures
                b == !keys@.contains(key.key()),
        { !keys.contains(key) };
        self.automated_run_keys.retain(keep_key, Ghost(p2));
        let ghost p3 = |e: (Seq<char>, AcceptedCommitTriggerRecord)| !gone.contains(e.0);
        let keep_trigger = |id: &TriggerId, _accepted: &AcceptedCommitTriggerRecord| -> (b: bool)
            ensures
                b == !triggers@.contains(id.key()),
        { !triggers.contains(id) };
        self.accepted_commit_triggers.retain(keep_trigger, Ghost(p3));
        let ghost p4 = |e: ((Seq<char>, Seq<char>), Seq<char>)| !gone.contains(e.1);
        let keep_delivery = |_key: &(String, String), id: &TriggerId| -> (b: bool)
            ensures
                b == !triggers@.contains(id@),
        {
            assert(id.key() == id@);
            !triggers.contains(id)
        };
        self.trigger_deliveries.retain(keep_delivery, Ghost(p4));
    }

    /// Makes room for one more run of a project: the oldest ended runs go, if enough have ended.
    pub fn compact_automated_run_history(&mut self, tenant: &TenantId, project: &ProjectId)
        ensures
            exists|q: Seq<(u64, Seq<char>)>|
                compacted(old(self)@, final(self)@, tenant@, project@, q),
    {
        let ghost before = self@;
        let ghost of_project = |r: AutomatedRunStageRecordModel| run_in(r, tenant@, project@);
        let in_project = |r: &AutomatedRunStageRecord| -> (b: bool)
            ensures
                b == run_in(r@, tenant@, project@),
        { r.run.tenant == *tenant && r.run.project == *project };
        let count: usize = self.count_runs(in_project, Ghost(of_project));
        let ghost of_ended = |r: AutomatedRunStageRecordModel|
            run_in(r, tenant@, project@) && run_ended(r.run.state);
        let has_ended = |r: &AutomatedRunStageRecord| -> (b: bool)
            ensures
                b == (run_in(r@, tenant@, project@) && run_ended(r@.run.state)),
        { r.run.tenant == *tenant && r.run.project == *project && r.run.state.is_terminal() };
        let ended: OrderedSet<(u64, RunId)> = self.queue_runs(has_ended, Ghost(of_ended));
        let available: usize = ended.count();
        let ghost q = ended.items();
        assert(enumerates(q, ended_runs(before, tenant@, project@)));
        if count < MAX_RUNS_PER_PROJECT {
            assert(compacted(before, self@, tenant@, project@, q));
            return;
        }
        let excess: usize = count - (MAX_RUNS_PER_PROJECT - 1);
        if available < excess {
            assert(compacted(before, self@, tenant@, project@, q));
            return;
        }
        let mut ids: OrderedSet<RunId> = OrderedSet::new();
        let mut i: usize = 0;
        while i < excess
            invariant
                available == q.len(),
                q == ended.items(),
                enumerates(q, ended@),
                excess <= available,
                0 <= i <= excess,
                forall|id: Seq<char>|
                    #[trigger] ids@.contains(id) <==> exists|j: int|
                        0 <= j < i && (#[trigger] q[j]).1 == id,
            decreases excess - i,
        {
            let entry: &(u64, RunId) = ended.item(i);
            assert(entry.key() == (entry.0, entry.1@));
            assert(q[i as int] == entry.key());
            let id: RunId = entry.1.clone();
            assert(id.key() == entry.1@);
            let _new: bool = ids.insert(id);
            i = i + 1;
        }
        assert(ids@ =~= first_ids(q, excess as int));
        self.remove_runs(tenant, project, &ids);
        assert(compacted(before, self@, tenant@, project@, q));
    }
}

/// The traces of one run more.
proof fn lemma_traces(
    runs: Seq<(Seq<char>, AutomatedRunStageRecordModel)>,
    ids: Set<Seq<char>>,
    i: int,
)
    requires
        0 <= i < runs.len(),
    ensures
        ids.contains(runs[i].0) ==> {
            &&& keys_of(runs.take(i + 1), ids) == keys_of(runs.take(i), ids).insert(
                runs[i].1.run_key@,
            )
            &&& triggers_of(runs.take(i + 1), ids) == triggers_of(runs.take(i), ids).insert(
                runs[i].1.run.primary_trigger_id@,
            )
            &&& other_triggers(runs.take(i + 1), ids) == other_triggers(runs.take(i), ids)
        },
        !ids.contains(runs[i].0) ==> {
            &&& keys_of(runs.take(i + 1), ids) == keys_of(runs.take(i), ids)
            &&& triggers_of(runs.take(i + 1), ids) == triggers_of(runs.take(i), ids)
            &&& other_triggers(runs.take(i + 1), ids) == other_triggers(runs.take(i), ids).insert(
                runs[i].1.run.primary_trigger_id@,
            )
        },
{
    let shorter = runs.take(i);
    let longer = runs.take(i + 1);
    assert(forall|j: int| 0 <= j < i ==> longer[j] == shorter[j]);
    assert(longer[i] == runs[i]);
    assert forall|x: Seq<char>| #[trigger] keys_of(longer, ids).contains(x) <==> keys_of(
        shorter,
        ids,
    ).contains(x) || (ids.contains(runs[i].0) && runs[i].1.run_key@ == x) by {
        if keys_of(shorter, ids).contains(x) {
            let j = choose|j: int|
                0 <= j < shorter.len() && ids.contains((#[trigger] shorter[j]).0)
                    && shorter[j].1.run_key@ == x;
            assert(ids.contains(longer[j].0));
        }
        if keys_of(longer, ids).contains(x) {
            let j = choose|j: int|
                0 <= j < longer.len() && ids.contains((#[trigger] longer[j]).0)
                    && longer[j].1.run_key@ == x;
            if j < i {
                assert(ids.contains(shorter[j].0));
            }
        }
        if ids.contains(runs[i].0) && runs[i].1.run_key@ == x {
            assert(ids.contains(longer[i].0));
        }
    }
    assert forall|x: Seq<char>| #[trigger] triggers_of(longer, ids).contains(x) <==> triggers_of(
        shorter,
        ids,
    ).contains(x) || (ids.contains(runs[i].0) && runs[i].1.run.primary_trigger_id@ == x) by {
        if triggers_of(shorter, ids).contains(x) {
            let j = choose|j: int|
                0 <= j < shorter.len() && ids.contains((#[trigger] shorter[j]).0)
                    && shorter[j].1.run.primary_trigger_id@ == x;
            assert(ids.contains(longer[j].0));
        }
        if triggers_of(longer, ids).contains(x) {
            let j = choose|j: int|
                0 <= j < longer.len() && ids.contains((#[trigger] longer[j]).0)
                    && longer[j].1.run.primary_trigger_id@ == x;
            if j < i {
                assert(ids.contains(shorter[j].0));
            }
        }
        if ids.contains(runs[i].0) && runs[i].1.run.primary_trigger_id@ == x {
            assert(ids.contains(longer[i].0));
        }
    }
    assert forall|x: Seq<char>| #[trigger] other_triggers(longer, ids).contains(x)
        <==> other_triggers(shorter, ids).contains(x) || (!ids.contains(runs[i].0)
        && runs[i].1.run.primary_trigger_id@ == x) by {
        if other_triggers(shorter, ids).contains(x) {
            let j = choose|j: int|
                0 <= j < shorter.len() && !ids.contains((#[trigger] shorter[j]).0)
                    && shorter[j].1.run.primary_trigger_id@ == x;
            assert(!ids.contains(longer[j].0));
        }
        if other_triggers(longer, ids).contains(x) {
            let j = choose|j: int|
                0 <= j < longer.len() && !ids.contains((#[trigger] longer[j]).0)
                    && longer[j].1.run.primary_trigger_id@ == x;
            if j < i {
                assert(!ids.contains(shorter[j].0));
            }
        }
        if !ids.contains(runs[i].0) && runs[i].1.run.primary_trigger_id@ == x {
            assert(!ids.contains(longer[i].0));
        }
    }
    if ids.contains(runs[i].0) {
        assert(keys_of(longer, ids) =~= keys_of(shorter, ids).insert(runs[i].1.run_key@));
        assert(triggers_of(longer, ids) =~= triggers_of(shorter, ids).insert(
            runs[i].1.run.primary_trigger_id@,
        ));
        assert(other_triggers(longer, ids) =~= other_triggers(shorter, ids));
    } else {
        assert(keys_of(longer, ids) =~= keys_of(shorter, ids));
        assert(triggers_of(longer, ids) =~= triggers_of(shorter, ids));
        assert(other_triggers(longer, ids) =~= other_triggers(shorter, ids).insert(
            runs[i].1.run.primary_trigger_id@,
        ));
    }
}

/// A run that has just been accepted.
pub open spec fn is_new_run(
    r: AutomatedRunStageRecordModel,
    run_id: Seq<char>,
    tenant: Seq<char>,
    project: Seq<char>,
    key: Seq<char>,
    trigger: CommitTrigger,
    trigger_id: Seq<char>,
    created_at: u64,
) -> bool {
    &&& r.run.run_id@ == run_id
    &&& r.run.primary_trigger_id@ == trigger_id
    &&& r.run.tenant@ == tenant
    &&& r.run.project@ == project
    &&& r.run.repository_id@ == trigger.repository_id@
    &&& r.run.commit_sha@ == trigger.commit_sha@
    &&& r.run.git_ref@ == trigger.git_ref@
    &&& r.run.trusted == trigger.trusted
    &&& r.run.workflow_tree_digest is None
    &&& r.run.bundle_digest is None
    &&& r.run.state == AutomatedRunState::Accepted
    &&& r.run.process_id is None
    &&& r.run.created_at == created_at
    &&& r.run.started_at is None
    &&& r.run.ended_at is None
    &&& r.run.failure_code is None
    &&& r.run.failure_message is None
    &&& r.run.waiting_reason is None
    &&& r.run.publication_tag is None
    &&& r.run.publication_url is None
    &&& r.run_key@ == key
    &&& r.source is None
    &&& r.revision_environments.len() == 0
    &&& r.revision is None
    &&& r.compilation_request is None
    &&& r.assignment_retry == (AssignmentRetry { attempts: 0, next_offer_epoch: 0 })
    &&& r.compiled_bundle is None
    &&& r.compiled_summary is None
    &&& r.trigger_context is None
    &&& r.launch_attempt is None
}

fn new_stage_record(
    run_id: RunId,
    tenant: TenantId,
    project: ProjectId,
    run_key: Digest,
    trigger: &CommitTrigger,
    trigger_id: TriggerId,
    created_at: u64,
) -> (r: AutomatedRunStageRecord)
    ensures
        is_new_run(
            r@,
            run_id@,
            tenant@,
            project@,
            run_key@,
            *trigger,
            trigger_id@,
            created_at,
        ),
{
    let none: Vec<EnvironmentResource> = Vec::new();
    assert(views(none@).len() == 0);
    AutomatedRunStageRecord {
        run: AutomatedRunRecord {
            run_id,
            primary_trigger_id: trigger_id,
            tenant,
            project,
            repository_id: trigger.repository_id.clone(),
            commit_sha: trigger.commit_sha.clone(),
            git_ref: trigger.git_ref.clone(),
            trusted: trigger.trusted,
            workflow_tree_digest: None,
            bundle_digest: None,
            state: AutomatedRunState::Accepted,
            process_id: None,
            created_at,
            started_at: None,
            ended_at: None,
            failure_code: None,
            failure_message: None,
            waiting_reason: None,
            publication_tag: None,
            publication_url: None,
        },
        run_key,
        source: None,
        revision_environments: none,
        revision: None,
        compilation_request: None,
        assignment_retry: AssignmentRetry { attempts: 0, next_offer_epoch: 0 },
        compiled_bundle: None,
        compiled_summary: None,
        trigger_context: None,
        launch_attempt: None,
    }
}

/// What is answered to a delivery that is known.
pub open spec fn redelivered(
    s: AutomationStateModel,
    binding: Seq<char>,
    delivery: Seq<char>,
    body: Seq<char>,
    r: Result<AutomatedRunStageRecord, CoordinatorServiceError>,
) -> bool {
    let accepted = lookup(
        s.accepted_commit_triggers,
        lookup(s.trigger_deliveries, (binding, delivery))->Some_0,
    );
    let run = match delivered_run(s, binding, delivery) {
        Some(id) => lookup(s.automated_runs, id),
        None => None,
    };
    if accepted matches Some(a) && a.body_digest@ != body {
        r matches Err(error) && error.protests(
            "forge delivery ID was replayed with a different body"@,
        )
    } else {
        match run {
            Some(record) => r matches Ok(answer) && answer@ == record,
            None => r matches Err(error) && error.protests(
                "accepted trigger references a missing run"@,
            ),
        }
    }
}

/// The number of runs of a project that wait.
pub open spec fn waiting_runs(s: AutomationStateModel, tenant: Seq<char>, project: Seq<char>) -> nat {
    run_count(
        s.automated_runs,
        |r: AutomatedRunStageRecordModel| run_waits(r, tenant, project),
    )
}

/// The number of runs of a project.
pub open spec fn project_runs(s: AutomationStateModel, tenant: Seq<char>, project: Seq<char>) -> nat {
    run_count(
        s.automated_runs,
        |r: AutomatedRunStageRecordModel| run_in(r, tenant, project),
    )
}

/// The state with an accepted trigger and its run.
pub open spec fn with_accepted(
    s: AutomationStateModel,
    accepted: AcceptedCommitTriggerRecord,
    key: Seq<char>,
    run_id: Seq<char>,
    record: AutomatedRunStageRecordModel,
) -> AutomationStateModel {
    AutomationStateModel {
        accepted_commit_triggers: put(
            s.accepted_commit_triggers,
            accepted.trigger.trigger_id@,
            accepted,
        ),
        automated_run_keys: put(s.automated_run_keys, key, run_id),
        automated_runs: put(s.automated_runs, run_id, record),
        ..s
    }
}

/// What a new delivery leads to.
pub open spec fn newly_delivered(
    before: AutomationStateModel,
    after: AutomationStateModel,
    a: AcceptedCommitTriggerRecord,
    r: Result<AutomatedRunStageRecord, CoordinatorServiceError>,
    room: AutomationStateModel,
    q: Seq<(u64, Seq<char>)>,
) -> bool {
    let key = a.trigger.run_identity@;
    let known = lookup(before.automated_run_keys, key);
    if known is None && waiting_runs(before, a.tenant@, a.project@) >= MAX_QUEUED_RUNS_PER_PROJECT {
        &&& r matches Err(error)
        &&& error.protests("project automated-run queue is full (8)"@)
        &&& after == before
    } else {
        &&& if known is None {
            compacted(before, room, a.tenant@, a.project@, q)
        } else {
            room == before
        }
        &&& if known is None && project_runs(room, a.tenant@, a.project@) >= MAX_RUNS_PER_PROJECT {
            &&& r matches Err(error)
            &&& error.protests("project automated-run retention is full (64)"@)
            &&& after == room
        } else {
            let run_id = match known {
                Some(id) => id,
                None => run_of_key(key),
            };
            &&& r matches Ok(record)
            &&& match lookup(room.automated_runs, run_id) {
                Some(existing) => record@ == existing,
                None => is_new_run(
                    record@,
                    run_id,
                    a.tenant@,
                    a.project@,
                    key,
                    a.trigger,
                    a.trigger.trigger_id@,
                    a.trigger.received_at,
                ),
            }
            &&& after == with_accepted(
                AutomationStateModel {
                    trigger_deliveries: put(
                        room.trigger_deliveries,
                        (a.binding_id@, a.trigger.delivery_id@),
                        a.trigger.trigger_id@,
                    ),
                    ..room
                },
                a,
                key,
                run_id,
                record@,
            )
        }
    }
}

/// What a delivery leads to.
pub open spec fn delivered(
    before: AutomationStateModel,
    after: AutomationStateModel,
    a: AcceptedCommitTriggerRecord,
    r: Result<AutomatedRunStageRecord, CoordinatorServiceError>,
) -> bool {
    if lookup(before.trigger_deliveries, (a.binding_id@, a.trigger.delivery_id@)) is Some {
        &&& redelivered(before, a.binding_id@, a.trigger.delivery_id@, a.body_digest@, r)
        &&& after == before
    } else {
        exists|room: AutomationStateModel, q: Seq<(u64, Seq<char>)>| #[trigger]
            newly_delivered(before, after, a, r, room, q)
    }
}

impl AutomationState {
    fn count_waiting(&self, tenant: &TenantId, project: &ProjectId) -> (r: usize)
        ensures
            r == waiting_runs(self@, tenant@, project@),
    {
        let ghost p = |r: AutomatedRunStageRecordModel| run_waits(r, tenant@, project@);
        let waits = |r: &AutomatedRunStageRecord| -> (b: bool)
            ensures
                b == run_waits(r@, tenant@, project@),
        {
            r.run.tenant == *tenant && r.run.project == *project && !r.run.state.is_terminal()
                && r.run.state != AutomatedRunState::Running
        };
        self.count_runs(waits, Ghost(p))
    }

    fn count_in_project(&self, tenant: &TenantId, project: &ProjectId) -> (r: usize)
        ensures
            r == project_runs(self@, tenant@, project@),
    {
        let ghost p = |r: AutomatedRunStageRecordModel| run_in(r, tenant@, project@);
        let inside = |r: &AutomatedRunStageRecord| -> (b: bool)
            ensures
                b == run_in(r@, tenant@, project@),
        { r.run.tenant == *tenant && r.run.project == *project };
        self.count_runs(inside, Ghost(p))
    }

    fn answer_redelivery(&self, accepted: &AcceptedCommitTriggerRecord) -> (r: Result<
        AutomatedRunStageRecord,
        CoordinatorServiceError,
    >)
        requires
            lookup(
                self@.trigger_deliveries,
                (accepted.binding_id@, accepted.trigger.delivery_id@),
            ) is Some,
        ensures
            redelivered(
                self@,
                accepted.binding_id@,
                accepted.trigger.delivery_id@,
                accepted.body_digest@,
                r,
            ),
    {
        let key: (String, String) = (
            accepted.binding_id.clone(),
            accepted.trigger.delivery_id.clone(),
        );
        assert(key.key() == (accepted.binding_id@, accepted.trigger.delivery_id@));
        match self.trigger_deliveries.get(&key) {
            Some(trigger_id) => {
                assert(trigger_id.key() == trigger_id@);
                match self.accepted_commit_triggers.get(trigger_id) {
                    Some(existing) => {
                        if existing.body_digest != accepted.body_digest {
                            return Err(
                                protocol("forge delivery ID was replayed with a different body"),
                            );
                        }
                    },
                    None => {},
                }
            },
            None => {},
        }
        match self.automated_run_for_trigger_delivery(
            &accepted.binding_id,
            &accepted.trigger.delivery_id,
        ) {
            Some(run_id) => match self.automated_run(&run_id) {
                Some(record) => Ok(record.duplicate()),
                None => Err(protocol("accepted trigger references a missing run")),
            },
            None => Err(protocol("accepted trigger references a missing run")),
        }
    }

    /// Records a trigger and its run.
    fn record_accepted(
        &mut self,
        accepted: AcceptedCommitTriggerRecord,
        run_key: Digest,
        run_id: RunId,
        record: AutomatedRunStageRecord,
    )
        ensures
            final(self)@ == with_accepted(old(self)@, accepted, run_key@, run_id@, record@),
    {
        let trigger_id: TriggerId = accepted.trigger.trigger_id.clone();
        assert(trigger_id.key() == accepted.trigger.trigger_id@);
        self.accepted_commit_triggers.insert(trigger_id, accepted);
        assert(run_key.key() == run_key@);
        self.automated_run_keys.insert(run_key, run_id.clone());
        assert(run_id.key() == run_id@);
        self.automated_runs.insert(run_id, record);
    }

    /// Takes up the delivery of a push. Its run is the one of its commit.
    pub fn accept_commit_trigger(&mut self, accepted: AcceptedCommitTriggerRecord) -> (r: Result<
        AutomatedRunStageRecord,
        CoordinatorServiceError,
    >)
        requires
            is_digest_text(accepted.trigger.run_identity@),
        ensures
            delivered(old(self)@, final(self)@, accepted, r),
    {
        let ghost before = self@;
        let ghost given = accepted;
        let delivery: (String, String) = (
            accepted.binding_id.clone(),
            accepted.trigger.delivery_id.clone(),
        );
        assert(delivery.key() == (accepted.binding_id@, accepted.trigger.delivery_id@));
        if self.trigger_deliveries.contains_key(&delivery) {
            return self.answer_redelivery(&accepted);
        }
        let run_key: Digest = accepted.trigger.run_identity.clone();
        assert(run_key.key() == run_key@);
        let known: Option<RunId> = match self.automated_run_keys.get(&run_key) {
            Some(run) => Some(run.clone()),
            None => None,
        };
        let ghost mut q: Seq<(u64, Seq<char>)> = Seq::empty();
        if known.is_none() {
            if self.count_waiting(&accepted.tenant, &accepted.project)
                >= MAX_QUEUED_RUNS_PER_PROJECT {
                let r: Result<AutomatedRunStageRecord, CoordinatorServiceError> = Err(
                    protocol("project automated-run queue is full (8)"),
                );
                assert(newly_delivered(before, self@, given, r, before, q));
                return r;
            }
            self.compact_automated_run_history(&accepted.tenant, &accepted.project);
            proof {
                q = choose|q: Seq<(u64, Seq<char>)>|
                    compacted(before, self@, given.tenant@, given.project@, q);
            }
            if self.count_in_project(&accepted.tenant, &accepted.project) >= MAX_RUNS_PER_PROJECT {
                let r: Result<AutomatedRunStageRecord, CoordinatorServiceError> = Err(
                    protocol("project automated-run retention is full (64)"),
                );
                assert(newly_delivered(before, self@, given, r, self@, q));
                return r;
            }
        }
        let ghost room = self@;
        let run_id: RunId = match known {
            Some(run) => run,
            None => run_id_from_key(&run_key),
        };
        let record: AutomatedRunStageRecord = match self.automated_run(&run_id) {
            Some(existing) => existing.duplicate(),
            None => new_stage_record(
                run_id.clone(),
                accepted.tenant.clone(),
                accepted.project.clone(),
                run_key.clone(),
                &accepted.trigger,
                accepted.trigger.trigger_id.clone(),
                accepted.trigger.received_at,
            ),
        };
        self.trigger_deliveries.insert(delivery, accepted.trigger.trigger_id.clone());
        let answer: AutomatedRunStageRecord = record.duplicate();
        self.record_accepted(accepted, run_key, run_id, record);
        let r: Result<AutomatedRunStageRecord, CoordinatorServiceError> = Ok(answer);
        assert(newly_delivered(before, self@, given, r, room, q));
        r
    }
}

/// The digests of one more attempt at a run.
pub struct RetryDigests {
    pub run_key: Digest,
    pub body_digest: Digest,
}

/// What the key of a retry is the digest of.
pub fn retry_key_parts(run_id: &RunId, retry_number: u32) -> (r: TextList)
    ensures
        r@ == seq![
            "clusterflux-automated-run-retry:v1"@,
            run_id@,
            decimal(retry_number as nat),
        ],
{
    let mut items: Vec<String> = Vec::new();
    items.push("clusterflux-automated-run-retry:v1".to_owned());
    items.push(run_id.clone());
    items.push(decimal_text(retry_number as u64));
    let parts: TextList = TextList { items };
    assert(parts@ =~= seq![
        "clusterflux-automated-run-retry:v1"@,
        run_id@,
        decimal(retry_number as nat),
    ]);
    parts
}

/// What the body digest of a retry is the digest of.
pub fn retry_body_text(run_id: &RunId, retry_number: u32) -> (r: String)
    ensures
        r@ == "manual-retry\0"@ + run_id@ + "\0"@ + decimal(retry_number as nat),
{
    let number: String = decimal_text(retry_number as u64);
    concat4("manual-retry\0", run_id.as_str(), "\0", number.as_str())
}

/// Retry `i` is the first whose key is not in use.
pub open spec fn is_free_retry(s: AutomationStateModel, retries: Seq<RetryDigests>, i: int) -> bool {
    &&& 0 <= i < retries.len()
    &&& lookup(s.automated_run_keys, retries[i].run_key@) is None
    &&& forall|j: int|
        0 <= j < i ==> lookup(s.automated_run_keys, (#[trigger] retries[j]).run_key@) is Some
}

/// The trigger of a retry.
pub open spec fn is_retry_trigger(
    t: CommitTrigger,
    original: CommitTrigger,
    run_id: Seq<char>,
    retry_run: Seq<char>,
    number: nat,
    now: u64,
) -> bool {
    &&& t.trigger_id@ == "trigger-retry-"@ + after_last(retry_run, '-')
    &&& t.delivery_id@ == "manual-retry-"@ + run_id + "-"@ + decimal(number)
    &&& t.received_at == now
    &&& t == (CommitTrigger {
        trigger_id: t.trigger_id,
        delivery_id: t.delivery_id,
        received_at: now,
        ..original
    })
}

/// A retry of a run is the run as it was accepted, under another identifier.
pub open spec fn is_retry_run(
    r: AutomatedRunStageRecordModel,
    original: AutomatedRunStageRecordModel,
    run_id: Seq<char>,
    key: Seq<char>,
    trigger_id: Seq<char>,
    now: u64,
) -> bool {
    &&& r.run.run_id@ == run_id
    &&& r.run.primary_trigger_id@ == trigger_id
    &&& r.run == (AutomatedRunRecord {
        run_id: r.run.run_id,
        primary_trigger_id: r.run.primary_trigger_id,
        workflow_tree_digest: None,
        bundle_digest: None,
        state: AutomatedRunState::Accepted,
        process_id: None,
        created_at: now,
        started_at: None,
        ended_at: None,
        failure_code: None,
        failure_message: None,
        waiting_reason: None,
        publication_tag: None,
        publication_url: None,
        ..original.run
    })
    &&& r.run_key@ == key
    &&& r.source is None
    &&& r.revision_environments.len() == 0
    &&& r.revision is None
    &&& r.compilation_request is None
    &&& r.assignment_retry == (AssignmentRetry { attempts: 0, next_offer_epoch: 0 })
    &&& r.compiled_bundle is None
    &&& r.compiled_summary is None
    &&& r.trigger_context is None
    &&& r.launch_attempt is None
}

/// Why a run is not retried, before room is made for it.
pub open spec fn retry_refusal(s: AutomationStateModel, run_id: Seq<char>) -> Option<Seq<char>> {
    match lookup(s.automated_runs, run_id) {
        None => Some("unknown automated run"@),
        Some(record) => if record.run.state != AutomatedRunState::Failed && record.run.state
            != AutomatedRunState::Cancelled {
            Some("only failed or cancelled automated runs can be retried"@)
        } else if lookup(s.accepted_commit_triggers, record.run.primary_trigger_id@) is None {
            Some("automated run no longer has retained trigger source"@)
        } else if waiting_runs(s, record.run.tenant@, record.run.project@)
            >= MAX_QUEUED_RUNS_PER_PROJECT {
            Some("project automated-run queue is full (8)"@)
        } else {
            None
        },
    }
}

/// What a retry leads to that is not refused at once.
pub open spec fn retried(
    before: AutomationStateModel,
    after: AutomationStateModel,
    run_id: Seq<char>,
    retries: Seq<RetryDigests>,
    now: u64,
    r: Result<AutomatedRunStageRecord, CoordinatorServiceError>,
    room: AutomationStateModel,
    q: Seq<(u64, Seq<char>)>,
    accepted: AcceptedCommitTriggerRecord,
    i: int,
) -> bool {
    let original = lookup(before.automated_runs, run_id)->Some_0;
    let source = lookup(
        before.accepted_commit_triggers,
        original.run.primary_trigger_id@,
    )->Some_0;
    let tenant = original.run.tenant@;
    let project = original.run.project@;
    &&& compacted(before, room, tenant, project, q)
    &&& if project_runs(room, tenant, project) >= MAX_RUNS_PER_PROJECT {
        &&& r matches Err(error)
        &&& error.protests("project automated-run retention is full (64)"@)
        &&& after == room
    } else if !(exists|j: int| is_free_retry(room, retries, j)) {
        &&& r matches Err(error)
        &&& error.protests("automated run retry history is full"@)
        &&& after == room
    } else {
        let key = retries[i].run_key@;
        let retry_run = run_of_key(key);
        &&& is_free_retry(room, retries, i)
        &&& r matches Ok(record)
        &&& is_retry_run(record@, original, retry_run, key, accepted.trigger.trigger_id@, now)
        &&& is_retry_trigger(
            accepted.trigger,
            source.trigger,
            run_id,
            retry_run,
            (i + 1) as nat,
            now,
        )
        &&& accepted == (AcceptedCommitTriggerRecord {
            body_digest: accepted.body_digest,
            trigger: accepted.trigger,
            ..source
        })
        &&& accepted.body_digest@ == retries[i].body_digest@
        &&& after == with_accepted(room, accepted, key, retry_run, record@)
    }
}

/// Whether some retry is what a request for one leads to.
pub open spec fn retry_made(
    before: AutomationStateModel,
    after: AutomationStateModel,
    run_id: Seq<char>,
    retries: Seq<RetryDigests>,
    now: u64,
    r: Result<AutomatedRunStageRecord, CoordinatorServiceError>,
) -> bool {
    exists|
        room: AutomationStateModel,
        q: Seq<(u64, Seq<char>)>,
        accepted: AcceptedCommitTriggerRecord,
        i: int,
    | #[trigger]
        retried(before, after, run_id, retries, now, r, room, q, accepted, i)
}

impl AutomationState {
    fn refusal_of_retry(&self, run_id: &RunId) -> (r: Option<CoordinatorServiceError>)
        ensures
            r is Some <==> retry_refusal(self@, run_id@) is Some,
            r matches Some(error) ==> error.protests(retry_refusal(self@, run_id@)->Some_0),
    {
        match self.automated_run(run_id) {
            None => Some(protocol("unknown automated run")),
            Some(record) => {
                if record.run.state != AutomatedRunState::Failed && record.run.state
                    != AutomatedRunState::Cancelled {
                    return Some(protocol("only failed or cancelled automated runs can be retried"));
                }
                assert(record.run.primary_trigger_id.key() == record.run.primary_trigger_id@);
                if !self.accepted_commit_triggers.contains_key(&record.run.primary_trigger_id) {
                    return Some(protocol("automated run no longer has retained trigger source"));
                }
                if self.count_waiting(&record.run.tenant, &record.run.project)
                    >= MAX_QUEUED_RUNS_PER_PROJECT {
                    return Some(protocol("project automated-run queue is full (8)"));
                }
                None
            },
        }
    }

    fn free_retry(&self, retries: &Vec<RetryDigests>) -> (r: Option<usize>)
        ensures
            r is Some <==> exists|j: int| is_free_retry(self@, retries@, j),
            r matches Some(i) ==> is_free_retry(self@, retries@, i as int),
    {
        let mut i: usize = 0;
        while i < retries.len()
            invariant
                0 <= i <= retries@.len(),
                forall|j: int|
                    0 <= j < i ==> lookup(
                        self@.automated_run_keys,
                        (#[trigger] retries@[j]).run_key@,
                    ) is Some,
            decreases retries@.len() - i,
        {
            assert(retries@[i as int].run_key.key() == retries@[i as int].run_key@);
            if !self.automated_run_keys.contains_key(&retries[i].run_key) {
                assert(is_free_retry(self@, retries@, i as int));
                return Some(i);
            }
            i = i + 1;
        }
        None
    }

    /// Runs a failed or cancelled run again, as a run of its own. `retries` holds the digests of
    /// the first, second and further retries.
    pub fn retry_automated_run(&mut self, run_id: &RunId, retries: &Vec<RetryDigests>, now: u64) -> (r:
        Result<AutomatedRunStageRecord, CoordinatorServiceError>)
        requires
            retries@.len() <= MAX_RUNS_PER_PROJECT,
            forall|i: int|
                0 <= i < retries@.len() ==> is_digest_text((#[trigger] retries@[i]).run_key@),
        ensures
            match retry_refusal(old(self)@, run_id@) {
                Some(text) => {
                    &&& r matches Err(error)
                    &&& error.protests(text)
                    &&& final(self)@ == old(self)@
                },
                None => retry_made(old(self)@, final(self)@, run_id@, retries@, now, r),
            },
    {
        let ghost before = self@;
        match self.refusal_of_retry(run_id) {
            Some(error) => {
                return Err(error);
            },
            None => {},
        }
        let original: AutomatedRunStageRecord = self.automated_run(run_id).unwrap().duplicate();
        assert(original.run.primary_trigger_id.key() == original.run.primary_trigger_id@);
        let source: AcceptedCommitTriggerRecord = self.accepted_commit_triggers.get(
            &original.run.primary_trigger_id,
        ).unwrap().duplicate();
        self.compact_automated_run_history(&original.run.tenant, &original.run.project);
        let ghost room = self@;
        let ghost q = choose|q: Seq<(u64, Seq<char>)>|
            compacted(before, room, original@.run.tenant@, original@.run.project@, q);
        let ghost unused: AcceptedCommitTriggerRecord = arbitrary();
        if self.count_in_project(&original.run.tenant, &original.run.project)
            >= MAX_RUNS_PER_PROJECT {
            let r: Result<AutomatedRunStageRecord, CoordinatorServiceError> = Err(
                protocol("project automated-run retention is full (64)"),
            );
            assert(retried(before, self@, run_id@, retries@, now, r, room, q, unused, 0));
            return r;
        }
        let i: usize = match self.free_retry(retries) {
            Some(i) => i,
            None => {
                let r: Result<AutomatedRunStageRecord, CoordinatorServiceError> = Err(
                    protocol("automated run retry history is full"),
                );
                assert(retried(before, self@, run_id@, retries@, now, r, room, q, unused, 0));
                return r;
            },
        };
        let run_key: Digest = retries[i].run_key.clone();
        let retry_run: RunId = run_id_from_key(&run_key);
        let suffix: String = id_suffix(retry_run.as_str());
        let trigger_id: TriggerId = concat2("trigger-retry-", suffix.as_str());
        let number: String = decimal_text((i + 1) as u64);
        let mut trigger: CommitTrigger = source.trigger.duplicate();
        trigger.trigger_id = trigger_id.clone();
        trigger.delivery_id = concat4("manual-retry-", run_id.as_str(), "-", number.as_str());
        trigger.received_at = now;
        let mut run: AutomatedRunRecord = original.run.duplicate();
        run.run_id = retry_run.clone();
        run.primary_trigger_id = trigger_id;
        run.workflow_tree_digest = None;
        run.bundle_digest = None;
        run.state = AutomatedRunState::Accepted;
        run.process_id = None;
        run.created_at = now;
        run.started_at = None;
        run.ended_at = None;
        run.failure_code = None;
        run.failure_message = None;
        run.waiting_reason = None;
        run.publication_tag = None;
        run.publication_url = None;
        let none: Vec<EnvironmentResource> = Vec::new();
        assert(views(none@).len() == 0);
        let record: AutomatedRunStageRecord = AutomatedRunStageRecord {
            run,
            run_key: run_key.clone(),
            source: None,
            revision_environments: none,
            revision: None,
            compilation_request: None,
            assignment_retry: AssignmentRetry { attempts: 0, next_offer_epoch: 0 },
            compiled_bundle: None,
            compiled_summary: None,
            trigger_context: None,
            launch_attempt: None,
        };
        let accepted: AcceptedCommitTriggerRecord = AcceptedCommitTriggerRecord {
            tenant: source.tenant,
            project: source.project,
            binding_id: source.binding_id,
            body_digest: retries[i].body_digest.clone(),
            trigger,
        };
        let ghost recorded = accepted;
        let answer: AutomatedRunStageRecord = record.duplicate();
        self.record_accepted(accepted, run_key, retry_run, record);
        let r: Result<AutomatedRunStageRecord, CoordinatorServiceError> = Ok(answer);
        assert(retried(
            before,
            self@,
            run_id@,
            retries@,
            now,
            r,
            room,
            q,
            recorded,
            i as int,
        ));
        r
    }
}

/// The state with a run.
pub open spec fn with_run(s: AutomationStateModel, id: Seq<char>, r: AutomatedRunStageRecordModel) -> AutomationStateModel {
    AutomationStateModel { automated_runs: put(s.automated_runs, id, r), ..s }
}

/// A run without what only its compilation needs.
pub open spec fn without_compilation(r: AutomatedRunStageRecordModel) -> AutomatedRunStageRecordModel {
    AutomatedRunStageRecordModel {
        compilation_request: None,
        source: None,
        compiled_bundle: None,
        ..r
    }
}

/// A run that has failed.
pub open spec fn is_failed_run(
    r: AutomatedRunStageRecordModel,
    before: AutomatedRunStageRecordModel,
    code: Seq<char>,
    message: Seq<char>,
    now: u64,
) -> bool {
    &&& option_view(r.run.failure_code) == Some(code)
    &&& option_view(r.run.failure_message) == Some(message)
    &&& r == without_compilation(
        AutomatedRunStageRecordModel {
            run: AutomatedRunRecord {
                state: AutomatedRunState::Failed,
                ended_at: Some(now),
                failure_code: r.run.failure_code,
                failure_message: r.run.failure_message,
                ..before.run
            },
            ..before
        },
    )
}

/// The first characters of a text.
pub open spec fn first_chars(s: Seq<char>, n: int) -> Seq<char> {
    if s.len() <= n {
        s
    } else {
        s.take(n)
    }
}

fn take_chars(text: &str, limit: usize) -> (r: String)
    ensures
        r@ == first_chars(text@, limit as int),
{
    let chars: Vec<char> = chars_of(text);
    if chars.len() <= limit {
        assert(chars@ == text@);
        return text_of(&chars);
    }
    let head: Vec<char> = part(&chars, 0, limit);
    assert(head@ =~= text@.take(limit as int));
    text_of(&head)
}

impl AutomationState {
    /// Fails a run that has not ended. `limit` bounds the message.
    pub fn fail_automated_run(
        &mut self,
        run_id: &RunId,
        code: &str,
        message: &str,
        limit: usize,
        now: u64,
    ) -> (r: Result<(), CoordinatorServiceError>)
        ensures
            run_failed(
                old(self)@,
                final(self)@,
                run_id@,
                code@,
                first_chars(message@, limit as int),
                now,
                r,
            ),
    {
        broadcast use lemma_put_delete, lemma_lookup_put;

        assert(run_id.key() == run_id@);
        match self.automated_runs.get(run_id) {
            None => {
                return Err(protocol("unknown automated run"));
            },
            Some(record) => {
                if record.run.state.is_terminal() {
                    return Ok(());
                }
            },
        }
        match self.automated_runs.remove(run_id) {
            None => {},
            Some(found) => {
                let mut record: AutomatedRunStageRecord = found;
                record.run.state = AutomatedRunState::Failed;
                record.run.ended_at = Some(now);
                record.run.failure_code = Some(code.to_owned());
                record.run.failure_message = Some(take_chars(message, limit));
                record.compilation_request = None;
                record.source = None;
                record.compiled_bundle = None;
                let id: RunId = run_id.clone();
                assert(id.key() == run_id@);
                self.automated_runs.insert(id, record);
            },
        }
        Ok(())
    }

    /// Cancels a run that has not ended.
    pub fn cancel_automated_run(&mut self, run_id: &RunId, now: u64) -> (r: Result<
        AutomatedRunStageRecord,
        CoordinatorServiceError,
    >)
        ensures
            run_cancelled(old(self)@, final(self)@, run_id@, now, r),
    {
        broadcast use lemma_put_delete;

        assert(run_id.key() == run_id@);
        match self.automated_runs.get(run_id) {
            None => {
                return Err(protocol("unknown automated run"));
            },
            Some(record) => {
                if record.run.state.is_terminal() {
                    return Ok(record.duplicate());
                }
            },
        }
        match self.automated_runs.remove(run_id) {
            None => Err(protocol("unknown automated run")),
            Some(found) => {
                let mut record: AutomatedRunStageRecord = found;
                record.run.state = AutomatedRunState::Cancelled;
                record.run.ended_at = Some(now);
                record.compilation_request = None;
                record.source = None;
                record.compiled_bundle = None;
                let answer: AutomatedRunStageRecord = record.duplicate();
                let id: RunId = run_id.clone();
                assert(id.key() == run_id@);
                self.automated_runs.insert(id, record);
                Ok(answer)
            },
        }
    }
}

/// A run that a restart of the coordinator has interrupted.
pub open spec fn is_interrupted_run(r: AutomatedRunStageRecordModel, before: AutomatedRunStageRecordModel, now: u64) -> bool {
    &&& option_view(r.run.failure_code) == Some("coordinator_restart_interrupted_run"@)
    &&& option_view(r.run.failure_message) == Some(
        "The coordinator restarted while this automated process was running; retry the run after the coordinator is healthy."@,
    )
    &&& r == (AutomatedRunStageRecordModel {
        run: AutomatedRunRecord {
            state: AutomatedRunState::Failed,
            process_id: None,
            ended_at: Some(now),
            failure_code: r.run.failure_code,
            failure_message: r.run.failure_message,
            waiting_reason: None,
            ..before.run
        },
        trigger_context: None,
        launch_attempt: None,
        ..before
    })
}

/// The state after a restart: the runs that were running have failed.
pub open spec fn interrupted(before: AutomationStateModel, after: AutomationStateModel, now: u64) -> bool {
    &&& after == (AutomationStateModel { automated_runs: after.automated_runs, ..before })
    &&& after.automated_runs.len() == before.automated_runs.len()
    &&& forall|i: int|
        0 <= i < before.automated_runs.len() ==> {
            let old_entry = before.automated_runs[i];
            let new_entry = #[trigger] after.automated_runs[i];
            &&& new_entry.0 == old_entry.0
            &&& if old_entry.1.run.state == AutomatedRunState::Running {
                is_interrupted_run(new_entry.1, old_entry.1, now)
            } else {
                new_entry.1 == old_entry.1
            }
        }
}

/// A run whose source is still to be loaded.
pub open spec fn awaits_source(r: AutomatedRunStageRecordModel) -> bool {
    r.source is None && (r.run.state == AutomatedRunState::Accepted || r.run.state
        == AutomatedRunState::LoadingSource)
}

/// A run whose process can be launched.
pub open spec fn awaits_launch(r: AutomatedRunStageRecordModel) -> bool {
    r.compiled_bundle is Some && (r.run.state == AutomatedRunState::WaitingForProcessSlot
        || r.run.state == AutomatedRunState::Launching)
}

/// The runs whose source is to be loaded, by when they were made.
pub open spec fn source_queue(s: AutomationStateModel) -> Set<(u64, Seq<char>)> {
    run_queue(s.automated_runs, |r: AutomatedRunStageRecordModel| awaits_source(r))
}

/// The runs whose process can be launched, by when they were made.
pub open spec fn launch_queue(s: AutomationStateModel) -> Set<(u64, Seq<char>)> {
    run_queue(s.automated_runs, |r: AutomatedRunStageRecordModel| awaits_launch(r))
}

/// The runs of a project, by when they were made.
pub open spec fn project_queue(s: AutomationStateModel, tenant: Seq<char>, project: Seq<char>) -> Set<
    (u64, Seq<char>),
> {
    run_queue(s.automated_runs, |r: AutomatedRunStageRecordModel| run_in(r, tenant, project))
}

/// No more than asked for, and no more than eight.
pub open spec fn page(limit: usize, available: int) -> int {
    let most = if limit < 8 {
        limit as int
    } else {
        8
    };
    if available < most {
        available
    } else {
        most
    }
}

/// The first of a queue, as many as a page holds.
pub open spec fn first_page(q: Seq<(u64, Seq<char>)>, limit: usize) -> Seq<Seq<char>> {
    q.take(page(limit, q.len() as int)).map_values(|k: (u64, Seq<char>)| k.1)
}

/// The triggers of the runs that a queue lists, as far as they are retained.
pub open spec fn queued_triggers(s: AutomationStateModel, q: Seq<(u64, Seq<char>)>) -> Seq<
    AcceptedCommitTriggerRecord,
> {
    q.filter_map(|k: (u64, Seq<char>)| trigger_of_run(s, k.1))
}

impl AutomationState {
    /// Fails the runs that were running when the coordinator stopped. Hands out their identifiers.
    pub fn reconcile_automated_runs_after_coordinator_restart(&mut self, now: u64) -> (r: Vec<RunId>)
        ensures
            interrupted(old(self)@, final(self)@, now),
            texts(r@) == old(self)@.automated_runs.filter_map(
                |e: (Seq<char>, AutomatedRunStageRecordModel)|
                    if e.1.run.state == AutomatedRunState::Running {
                        Some(e.0)
                    } else {
                        None
                    },
            ),
    {
        let ghost before = self@;
        let ghost g = |e: (Seq<char>, AutomatedRunStageRecordModel)|
            if e.1.run.state == AutomatedRunState::Running {
                Some(e.0)
            } else {
                None
            };
        let running = |id: &RunId, record: &AutomatedRunStageRecord| -> (r: Option<RunId>)
            ensures
                option_view(r) == (if record@.run.state == AutomatedRunState::Running {
                    Some(id.key())
                } else {
                    None
                }),
        {
            if record.run.state == AutomatedRunState::Running {
                Some(id.copy_key())
            } else {
                None
            }
        };
        let ids: Vec<RunId> = self.automated_runs.collect(running, Ghost(g));
        assert(views(ids@) =~= texts(ids@));
        let ghost rel = |old_run: AutomatedRunStageRecordModel, new_run: AutomatedRunStageRecordModel|
            if old_run.run.state == AutomatedRunState::Running {
                is_interrupted_run(new_run, old_run, now)
            } else {
                new_run == old_run
            };
        let interrupt = |_id: &RunId, record: AutomatedRunStageRecord| -> (w: AutomatedRunStageRecord)
            ensures
                rel(record@, w@),
        {
            let mut w: AutomatedRunStageRecord = record;
            if w.run.state == AutomatedRunState::Running {
                w.run.state = AutomatedRunState::Failed;
                w.run.process_id = None;
                w.run.ended_at = Some(now);
                w.run.failure_code = Some("coordinator_restart_interrupted_run".to_owned());
                w.run.failure_message = Some(
                    "The coordinator restarted while this automated process was running; retry the run after the coordinator is healthy.".to_owned(),
                );
                w.run.waiting_reason = None;
                w.trigger_context = None;
                w.launch_attempt = None;
            }
            w
        };
        self.automated_runs.rework(interrupt, Ghost(rel));
        ids
    }

    /// The triggers of runs whose source is to be loaded, the oldest first, no more than a page.
    pub fn pending_source_loads(&self, limit: usize) -> (r: Vec<AcceptedCommitTriggerRecord>)
        ensures
            sources_pending(self@, limit, views(r@)),
    {
        let ghost p = |r: AutomatedRunStageRecordModel| awaits_source(r);
        let test = |r: &AutomatedRunStageRecord| -> (b: bool)
            ensures
                b == awaits_source(r@),
        {
            r.source.is_none() && matches!(
                r.run.state,
                AutomatedRunState::Accepted | AutomatedRunState::LoadingSource
            )
        };
        let queue: OrderedSet<(u64, RunId)> = self.queue_runs(test, Ghost(p));
        let n: usize = queue.count();
        let ghost q = queue.items();
        let ghost g = |k: (u64, Seq<char>)| trigger_of_run(self@, k.1);
        let most: usize = if limit < 8 {
            limit
        } else {
            8
        };
        let mut found: Vec<AcceptedCommitTriggerRecord> = Vec::new();
        let mut i: usize = 0;
        assert(views(found@) =~= q.take(0).filter_map(g));
        while i < n
            invariant
                n == q.len(),
                q == queue.items(),
                enumerates(q, queue@),
                g == |k: (u64, Seq<char>)| trigger_of_run(self@, k.1),
                0 <= i <= n,
                views(found@) == q.take(i as int).filter_map(g),
            decreases n - i,
        {
            let entry: &(u64, RunId) = queue.item(i);
            assert(entry.key() == (entry.0, entry.1@));
            let ghost earlier = found@;
            proof {
                q.lemma_filter_map_take_succ(g, i as int);
            }
            let accepted: Option<AcceptedCommitTriggerRecord> = self.trigger_record(&entry.1);
            match accepted {
                Some(record) => {
                    let ghost shown = record@;
                    found.push(record);
                    assert(views(found@) =~= views(earlier).push(shown));
                    assert(views(earlier) + seq![shown] =~= views(earlier).push(shown));
                },
                None => {
                    assert(views(earlier) + Seq::<AcceptedCommitTriggerRecord>::empty()
                        =~= views(earlier));
                },
            }
            i = i + 1;
        }
        assert(q.take(n as int) =~= q);
        assert(views(found@) == queued_triggers(self@, q));
        assert(queue@ =~= source_queue(self@));
        assert(enumerates(q, source_queue(self@)));
        let mut out: Vec<AcceptedCommitTriggerRecord> = Vec::new();
        let count: usize = if found.len() < most {
            found.len()
        } else {
            most
        };
        let mut j: usize = 0;
        while j < count
            invariant
                count <= found@.len(),
                0 <= j <= count,
                views(out@) == views(found@).take(j as int),
            decreases count - j,
        {
            let ghost earlier = out@;
            let copy: AcceptedCommitTriggerRecord = found[j].duplicate();
            let ghost shown = copy@;
            out.push(copy);
            assert(views(out@) =~= views(earlier).push(shown));
            assert(views(found@).take(j + 1) =~= views(found@).take(j as int).push(
                views(found@)[j as int],
            ));
            j = j + 1;
        }
        out
    }

    fn trigger_record(&self, run_id: &RunId) -> (r: Option<AcceptedCommitTriggerRecord>)
        ensures
            option_view(r) == trigger_of_run(self@, run_id@),
    {
        match self.automated_run(run_id) {
            None => None,
            Some(record) => {
                assert(record.run.primary_trigger_id.key() == record.run.primary_trigger_id@);
                match self.accepted_commit_triggers.get(&record.run.primary_trigger_id) {
                    None => None,
                    Some(accepted) => Some(accepted.duplicate()),
                }
            },
        }
    }

    /// The runs whose process can be launched, the oldest first, no more than a page.
    pub fn launchable_automated_runs(&self, limit: usize) -> (r: Vec<RunId>)
        ensures
            launches_pending(self@, limit, texts(r@)),
    {
        let ghost p = |r: AutomatedRunStageRecordModel| awaits_launch(r);
        let test = |r: &AutomatedRunStageRecord| -> (b: bool)
            ensures
                b == awaits_launch(r@),
        {
            r.compiled_bundle.is_some() && matches!(
                r.run.state,
                AutomatedRunState::WaitingForProcessSlot | AutomatedRunState::Launching
            )
        };
        let queue: OrderedSet<(u64, RunId)> = self.queue_runs(test, Ghost(p));
        let n: usize = queue.count();
        let ghost q = queue.items();
        let most: usize = if limit < 8 {
            limit
        } else {
            8
        };
        let count: usize = if n < most {
            n
        } else {
            most
        };
        let mut out: Vec<RunId> = Vec::new();
        let mut i: usize = 0;
        while i < count
            invariant
                n == q.len(),
                count <= n,
                q == queue.items(),
                enumerates(q, queue@),
                0 <= i <= count,
                texts(out@) == q.take(i as int).map_values(|k: (u64, Seq<char>)| k.1),
            decreases count - i,
        {
            let entry: &(u64, RunId) = queue.item(i);
            assert(entry.key() == (entry.0, entry.1@));
            let ghost earlier = out@;
            out.push(entry.1.clone());
            assert(texts(out@) =~= texts(earlier).push(q[i as int].1));
            assert(q.take(i + 1).map_values(|k: (u64, Seq<char>)| k.1) =~= q.take(
                i as int,
            ).map_values(|k: (u64, Seq<char>)| k.1).push(q[i as int].1));
            i = i + 1;
        }
        assert(texts(out@) == first_page(q, limit));
        assert(queue@ =~= launch_queue(self@));
        assert(enumerates(q, launch_queue(self@)));
        out
    }

    /// Marks the run of a trigger as loading its source.
    pub fn claim_source_load(&mut self, trigger_id: &TriggerId) -> (r: Result<
        RunId,
        CoordinatorServiceError,
    >)
        ensures
            !holds_of_some(old(self)@.automated_runs, made_by(trigger_id@)) ==> {
                &&& r matches Err(error)
                &&& error.protests("unknown trigger run"@)
                &&& final(self)@ == old(self)@
            },
            holds_of_some(old(self)@.automated_runs, made_by(trigger_id@)) ==> {
                &&& r matches Ok(run_id)
                &&& claims_source(old(self)@, final(self)@, trigger_id@, run_id@)
            },
    {
        broadcast use lemma_put_delete;

        let ghost before = self@;
        let ghost p = made_by(trigger_id@);
        let test = |_id: &RunId, record: &AutomatedRunStageRecord| -> (b: bool)
            ensures
                b == (record@.run.primary_trigger_id@ == trigger_id@),
        { record.run.primary_trigger_id == *trigger_id };
        let place: usize = match self.automated_runs.find(test, Ghost(p)) {
            Some(place) => place,
            None => {
                return Err(protocol("unknown trigger run"));
            },
        };
        assert(p(before.automated_runs[place as int]));
        let run_id: RunId = self.automated_runs.key_at(place).copy_key();
        proof {
            lemma_lookup_at(before.automated_runs, place as int);
        }
        match self.automated_runs.remove(&run_id) {
            None => {},
            Some(found) => {
                let mut record: AutomatedRunStageRecord = found;
                if record.source.is_none() {
                    record.run.state = AutomatedRunState::LoadingSource;
                }
                let id: RunId = run_id.clone();
                assert(id.key() == run_id@);
                self.automated_runs.insert(id, record);
            },
        }
        assert(source_claimed(before, self@, trigger_id@, run_id@, place as int));
        assert(claims_source(before, self@, trigger_id@, run_id@));
        Ok(run_id)
    }

    /// The runs of a project, the newest first.
    pub fn automated_runs(&self, tenant: &TenantId, project: &ProjectId) -> (r: Vec<
        AutomatedRunRecord,
    >)
        ensures
            runs_newest_first(self@, tenant@, project@, r@),
    {
        let ghost p = |r: AutomatedRunStageRecordModel| run_in(r, tenant@, project@);
        let test = |r: &AutomatedRunStageRecord| -> (b: bool)
            ensures
                b == run_in(r@, tenant@, project@),
        { r.run.tenant == *tenant && r.run.project == *project };
        let queue: OrderedSet<(u64, RunId)> = self.queue_runs(test, Ghost(p));
        let n: usize = queue.count();
        let ghost q = queue.items();
        let mut out: Vec<AutomatedRunRecord> = Vec::new();
        let mut i: usize = n;
        while i > 0
            invariant
                n == q.len(),
                q == queue.items(),
                enumerates(q, queue@),
                queue@ == run_queue(self@.automated_runs, p),
                0 <= i <= n,
                out@.len() == n - i,
                forall|j: int|
                    0 <= j < n - i ==> #[trigger] out@[j] == newest_first(self@, q)[j],
            decreases i,
        {
            i = i - 1;
            let entry: &(u64, RunId) = queue.item(i);
            assert(entry.key() == (entry.0, entry.1@));
            proof {
                assert(q[i as int] == entry.key());
                assert(q.contains(q[i as int]));
                assert(queue@.contains(q[i as int]));
                let runs = self@.automated_runs;
                let k = choose|k: int|
                    0 <= k < runs.len() && p((#[trigger] runs[k]).1) && runs[k].0 == q[i as int].1
                        && runs[k].1.run.created_at == q[i as int].0;
                lemma_lookup_found(runs, entry.1@);
                assert(bound_at(runs, entry.1@, k));
            }
            match self.automated_run(&entry.1) {
                Some(record) => {
                    out.push(record.run.duplicate());
                },
                None => {},
            }
        }
        assert(out@ =~= newest_first(self@, q));
        assert(queue@ =~= project_queue(self@, tenant@, project@));
        assert(enumerates(q, project_queue(self@, tenant@, project@)));
        out
    }
}

/// The triggers whose sources are to be loaded, the oldest runs first.
pub open spec fn sources_pending(s: AutomationStateModel, limit: usize, r: Seq<AcceptedCommitTriggerRecord>) -> bool {
    exists|q: Seq<(u64, Seq<char>)>|
                #[trigger] enumerates(q, source_queue(s)) && r == queued_triggers(s, q).take(
                    page(limit, queued_triggers(s, q).len() as int),
                )
}

/// The runs that are to be launched, the oldest first.
pub open spec fn launches_pending(s: AutomationStateModel, limit: usize, r: Seq<Seq<char>>) -> bool {
    exists|q: Seq<(u64, Seq<char>)>|
                #[trigger] enumerates(q, launch_queue(s)) && r == first_page(q, limit)
}

/// The runs of a project, the newest first.
pub open spec fn runs_newest_first(s: AutomationStateModel, tenant: Seq<char>, project: Seq<char>, r: Seq<AutomatedRunRecord>) -> bool {
    exists|q: Seq<(u64, Seq<char>)>|
                #[trigger] enumerates(q, project_queue(s, tenant, project)) && r == newest_first(s, q)
}

/// The runs that a queue lists, the last first.
pub open spec fn newest_first(s: AutomationStateModel, q: Seq<(u64, Seq<char>)>) -> Seq<
    AutomatedRunRecord,
> {
    Seq::new(
        q.len(),
        |i: int| lookup(s.automated_runs, q[q.len() - 1 - i].1)->Some_0.run,
    )
}

/// Whether a run was made for a trigger.
pub open spec fn made_by(trigger: Seq<char>) -> spec_fn((Seq<char>, AutomatedRunStageRecordModel)) -> bool {
    |e: (Seq<char>, AutomatedRunStageRecordModel)| e.1.run.primary_trigger_id@ == trigger
}

/// Run `i` is the first of the trigger, and is marked as loading its source.
pub open spec fn source_claimed(
    before: AutomationStateModel,
    after: AutomationStateModel,
    trigger: Seq<char>,
    run_id: Seq<char>,
    i: int,
) -> bool {
    let record = before.automated_runs[i].1;
    &&& is_first(before.automated_runs, made_by(trigger), i)
    &&& run_id == before.automated_runs[i].0
    &&& after == with_run(
        before,
        run_id,
        if record.source is None {
            AutomatedRunStageRecordModel {
                run: AutomatedRunRecord {
                    state: AutomatedRunState::LoadingSource,
                    ..record.run
                },
                ..record
            }
        } else {
            record
        },
    )
}

/// The first run of the trigger is marked as loading its source.
pub open spec fn claims_source(
    before: AutomationStateModel,
    after: AutomationStateModel,
    trigger: Seq<char>,
    run_id: Seq<char>,
) -> bool {
    exists|i: int| #[trigger] source_claimed(before, after, trigger, run_id, i)
}

/// A run whose source was loaded.
pub open spec fn with_source(
    r: AutomatedRunStageRecordModel,
    source: WorkflowSourceModel,
    revision: RepositoryRevision,
) -> AutomatedRunStageRecordModel {
    AutomatedRunStageRecordModel {
        run: AutomatedRunRecord {
            workflow_tree_digest: Some(source.tree_digest),
            state: AutomatedRunState::LoadingSource,
            ..r.run
        },
        revision_environments: source.environments,
        source: Some(source),
        revision: Some(revision),
        ..r
    }
}

/// Whether a source and a revision are those of a run.
pub open spec fn is_source_of(
    r: AutomatedRunStageRecordModel,
    source: WorkflowSourceModel,
    revision: RepositoryRevision,
) -> bool {
    &&& source.trigger_id@ == r.run.primary_trigger_id@
    &&& source.repository_id@ == r.run.repository_id@
    &&& source.commit_sha@ == r.run.commit_sha@
    &&& revision.repository_id@ == r.run.repository_id@
    &&& revision.commit_sha@ == r.run.commit_sha@
}

/// A run that waits for a compiler.
pub open spec fn is_queued_run(
    r: AutomatedRunStageRecordModel,
    before: AutomatedRunStageRecordModel,
    request: WorkflowCompilationRequestModel,
) -> bool {
    &&& option_view(r.run.waiting_reason) == Some("no_attached_compatible_node"@)
    &&& r == (AutomatedRunStageRecordModel {
        run: AutomatedRunRecord {
            state: AutomatedRunState::WaitingForCompilerNode,
            waiting_reason: r.run.waiting_reason,
            ..before.run
        },
        compilation_request: Some(request),
        source: None,
        ..before
    })
}

/// A run that is at its compilation.
pub open spec fn run_compiles(r: AutomatedRunStageRecordModel) -> bool {
    r.run.state == AutomatedRunState::WaitingForCompilerNode || r.run.state
        == AutomatedRunState::CompilingWorkflow
}

/// The number of compilations of a project that wait or run.
pub open spec fn pending_compilations(s: AutomationStateModel, tenant: Seq<char>, project: Seq<char>) -> nat {
    run_count(
        s.automated_runs,
        |r: AutomatedRunStageRecordModel|
            run_in(r, tenant, project) && run_compiles(r) && r.compiled_bundle is None
                && r.compiled_summary is None,
    )
}

/// What comes of a compilation that is asked for a run.
pub open spec fn compilation_queued(
    before: AutomationStateModel,
    after: AutomationStateModel,
    request: WorkflowCompilationRequestModel,
    run: AutomatedRunStageRecordModel,
    r: Result<AutomatedRunStageRecord, CoordinatorServiceError>,
) -> bool {
    if pending_compilations(before, run.run.tenant@, run.run.project@)
        >= MAX_PENDING_COMPILATIONS_PER_PROJECT {
        &&& r matches Err(error)
        &&& error.protests("project compiler queue is full (8)"@)
        &&& after == before
    } else if run_ended(run.run.state) {
        &&& r matches Ok(record)
        &&& record@ == run
        &&& after == before
    } else if run.compilation_request is Some {
        &&& after == before
        &&& if workflow_compilation_request_alike(run.compilation_request->Some_0, request) {
            r matches Ok(record) && record@ == run
        } else {
            r matches Err(error) && error.protests(
                "compiler stage was retried with a different request"@,
            )
        }
    } else if run.source is None || !workflow_source_alike(run.source->Some_0, request.source) {
        &&& r matches Err(error)
        &&& error.denies("compiler request does not contain the run's exact loaded source"@)
        &&& after == before
    } else {
        &&& r matches Ok(record)
        &&& is_queued_run(record@, run, request)
        &&& after == with_run(before, request.run_id@, record@)
    }
}

/// A run of a project that waits for a compiler, for the given reason.
pub open spec fn is_waiting_run(
    r: AutomatedRunStageRecordModel,
    before: AutomatedRunStageRecordModel,
    tenant: Seq<char>,
    project: Seq<char>,
    reason: Seq<char>,
) -> bool {
    if run_in(before, tenant, project) && before.run.state
        == AutomatedRunState::WaitingForCompilerNode && option_view(before.run.waiting_reason)
        != Some(reason) {
        &&& option_view(r.run.waiting_reason) == Some(reason)
        &&& r == (AutomatedRunStageRecordModel {
            run: AutomatedRunRecord { waiting_reason: r.run.waiting_reason, ..before.run },
            ..before
        })
    } else {
        r == before
    }
}

/// The state in which the compilations of a project wait for the given reason.
pub open spec fn waits_for(
    before: AutomationStateModel,
    after: AutomationStateModel,
    tenant: Seq<char>,
    project: Seq<char>,
    reason: Seq<char>,
) -> bool {
    &&& after == (AutomationStateModel { automated_runs: after.automated_runs, ..before })
    &&& after.automated_runs.len() == before.automated_runs.len()
    &&& forall|i: int|
        0 <= i < before.automated_runs.len() ==> {
            let new_entry = #[trigger] after.automated_runs[i];
            &&& new_entry.0 == before.automated_runs[i].0
            &&& is_waiting_run(new_entry.1, before.automated_runs[i].1, tenant, project, reason)
        }
}

impl AutomationState {
    /// Records the source that was loaded for a run. `source_check` and `revision_check` are what
    /// the checks of the two in themselves gave.
    pub fn record_automated_run_source(
        &mut self,
        run_id: &RunId,
        source: WorkflowSource,
        revision: RepositoryRevision,
        source_check: Result<(), String>,
        revision_check: Result<(), String>,
    ) -> (r: Result<AutomatedRunStageRecord, CoordinatorServiceError>)
        ensures
            source_recorded(
                old(self)@,
                final(self)@,
                run_id@,
                source@,
                revision,
                source_check,
                revision_check,
                r,
            ),
    {
        broadcast use lemma_put_delete;

        match source_check {
            Err(reason) => {
                return Err(CoordinatorServiceError::Protocol(reason));
            },
            Ok(_) => {},
        }
        match revision_check {
            Err(reason) => {
                return Err(CoordinatorServiceError::Protocol(reason));
            },
            Ok(_) => {},
        }
        assert(run_id.key() == run_id@);
        match self.automated_runs.get(run_id) {
            None => {
                return Err(protocol("unknown automated run"));
            },
            Some(record) => {
                if record.run.state.is_terminal() {
                    return Ok(record.duplicate());
                }
                if !text_eq(source.trigger_id.as_str(), record.run.primary_trigger_id.as_str())
                    || !text_eq(source.repository_id.as_str(), record.run.repository_id.as_str())
                    || !text_eq(source.commit_sha.as_str(), record.run.commit_sha.as_str())
                    || !text_eq(revision.repository_id.as_str(), record.run.repository_id.as_str())
                    || !text_eq(revision.commit_sha.as_str(), record.run.commit_sha.as_str()) {
                    return Err(
                        unauthorized("workflow source or repository revision does not match its run"),
                    );
                }
                match &record.source {
                    Some(existing) => {
                        let same: bool = match &record.revision {
                            Some(known) => existing.same_as(&source) && known.same_as(&revision),
                            None => false,
                        };
                        if !same {
                            return Err(
                                protocol("automated run source was retried with different content"),
                            );
                        }
                        return Ok(record.duplicate());
                    },
                    None => {},
                }
            },
        }
        match self.automated_runs.remove(run_id) {
            None => Err(protocol("unknown automated run")),
            Some(found) => {
                let mut record: AutomatedRunStageRecord = found;
                record.run.workflow_tree_digest = Some(source.tree_digest.clone());
                record.revision_environments = copy_all(&source.environments);
                record.run.state = AutomatedRunState::LoadingSource;
                record.source = Some(source);
                record.revision = Some(revision);
                let answer: AutomatedRunStageRecord = record.duplicate();
                let id: RunId = run_id.clone();
                assert(id.key() == run_id@);
                self.automated_runs.insert(id, record);
                Ok(answer)
            },
        }
    }

    fn queued_compilations(&self, tenant: &TenantId, project: &ProjectId) -> (r: usize)
        ensures
            r == pending_compilations(self@, tenant@, project@),
    {
        let ghost p = |r: AutomatedRunStageRecordModel|
            run_in(r, tenant@, project@) && run_compiles(r) && r.compiled_bundle is None
                && r.compiled_summary is None;
        let test = |r: &AutomatedRunStageRecord| -> (b: bool)
            ensures
                b == p(r@),
        {
            r.run.tenant == *tenant && r.run.project == *project && matches!(
                r.run.state,
                AutomatedRunState::WaitingForCompilerNode | AutomatedRunState::CompilingWorkflow
            ) && r.compiled_bundle.is_none() && r.compiled_summary.is_none()
        };
        let n: usize = self.count_runs(test, Ghost(p));
        proof {
            crate::ordered_map::lemma_filter_agree(
                self@.automated_runs,
                |e: (Seq<char>, AutomatedRunStageRecordModel)| p(e.1),
                |e: (Seq<char>, AutomatedRunStageRecordModel)|
                    (|r: AutomatedRunStageRecordModel|
                        run_in(r, tenant@, project@) && run_compiles(r) && r.compiled_bundle is None
                            && r.compiled_summary is None)(e.1),
            );
        }
        n
    }

    /// Asks for the compilation of a run. `check` is what the check of the request in itself gave.
    pub fn enqueue_workflow_compilation(
        &mut self,
        request: WorkflowCompilationRequest,
        check: Result<(), String>,
    ) -> (r: Result<AutomatedRunStageRecord, CoordinatorServiceError>)
        ensures
            compilation_asked(
                old(self)@,
                final(self)@,
                request@,
                check,
                r,
            ),
    {
        broadcast use lemma_put_delete;

        match check {
            Err(reason) => {
                return Err(CoordinatorServiceError::Protocol(reason));
            },
            Ok(_) => {},
        }
        let run_id: RunId = request.run_id.clone();
        assert(run_id.key() == run_id@);
        match self.automated_runs.get(&run_id) {
            None => {
                return Err(protocol("unknown automated run"));
            },
            Some(record) => {
                let pending: usize = self.queued_compilations(&record.run.tenant, &record.run.project);
                if pending >= MAX_PENDING_COMPILATIONS_PER_PROJECT {
                    return Err(protocol("project compiler queue is full (8)"));
                }
                if record.run.state.is_terminal() {
                    return Ok(record.duplicate());
                }
                match &record.compilation_request {
                    Some(existing) => {
                        if !existing.same_as(&request) {
                            return Err(
                                protocol("compiler stage was retried with a different request"),
                            );
                        }
                        return Ok(record.duplicate());
                    },
                    None => {},
                }
                let exact: bool = match &record.source {
                    Some(source) => source.same_as(&request.source),
                    None => false,
                };
                if !exact {
                    return Err(
                        unauthorized(
                            "compiler request does not contain the run's exact loaded source",
                        ),
                    );
                }
            },
        }
        match self.automated_runs.remove(&run_id) {
            None => Err(protocol("unknown automated run")),
            Some(found) => {
                let mut record: AutomatedRunStageRecord = found;
                record.compilation_request = Some(request);
                record.source = None;
                record.run.state = AutomatedRunState::WaitingForCompilerNode;
                record.run.waiting_reason = Some("no_attached_compatible_node".to_owned());
                let answer: AutomatedRunStageRecord = record.duplicate();
                self.automated_runs.insert(run_id, record);
                Ok(answer)
            },
        }
    }

    /// Notes why the compilations of a project wait.
    pub fn set_system_task_wait_reason(&mut self, tenant: &TenantId, project: &ProjectId, reason: &str)
        ensures
            waits_for(old(self)@, final(self)@, tenant@, project@, reason@),
    {
        let ghost rel = |old_run: AutomatedRunStageRecordModel, new_run: AutomatedRunStageRecordModel|
            is_waiting_run(new_run, old_run, tenant@, project@, reason@);
        let note = |_id: &RunId, record: AutomatedRunStageRecord| -> (w: AutomatedRunStageRecord)
            ensures
                rel(record@, w@),
        {
            let mut w: AutomatedRunStageRecord = record;
            let known: bool = match &w.run.waiting_reason {
                Some(text) => text_eq(text.as_str(), reason),
                None => false,
            };
            if w.run.tenant == *tenant && w.run.project == *project && matches!(
                w.run.state,
                AutomatedRunState::WaitingForCompilerNode
            ) && !known {
                w.run.waiting_reason = Some(reason.to_owned());
            }
            w
        };
        self.automated_runs.rework(note, Ghost(rel));
    }
}

/// Whether a process of a project is that of a run.
pub open spec fn runs_process(tenant: Seq<char>, project: Seq<char>, process: Seq<char>) -> spec_fn(
    (Seq<char>, AutomatedRunStageRecordModel),
) -> bool {
    |e: (Seq<char>, AutomatedRunStageRecordModel)|
        run_in(e.1, tenant, project) && option_view(e.1.run.process_id) == Some(process)
}

/// Whether a process of a project is that of a run that has not ended.
pub open spec fn runs_process_still(tenant: Seq<char>, project: Seq<char>, process: Seq<char>) -> spec_fn(
    (Seq<char>, AutomatedRunStageRecordModel),
) -> bool {
    |e: (Seq<char>, AutomatedRunStageRecordModel)|
        run_in(e.1, tenant, project) && option_view(e.1.run.process_id) == Some(process)
            && !run_ended(e.1.run.state)
}

/// The first run that `p` holds of.
pub open spec fn first_run(
    s: AutomationStateModel,
    p: spec_fn((Seq<char>, AutomatedRunStageRecordModel)) -> bool,
) -> Option<(Seq<char>, AutomatedRunStageRecordModel)> {
    if exists|i: int| is_first(s.automated_runs, p, i) {
        Some(s.automated_runs[choose|i: int| is_first(s.automated_runs, p, i)])
    } else {
        None
    }
}

proof fn lemma_first_run(
    s: AutomationStateModel,
    p: spec_fn((Seq<char>, AutomatedRunStageRecordModel)) -> bool,
    place: Option<usize>,
)
    requires
        place is Some <==> holds_of_some(s.automated_runs, p),
        place matches Some(i) ==> is_first(s.automated_runs, p, i as int),
    ensures
        place is None ==> first_run(s, p) is None,
        place matches Some(i) ==> first_run(s, p) == Some(s.automated_runs[i as int]),
{
    let runs = s.automated_runs;
    match place {
        Some(i) => {
            assert(is_first(runs, p, i as int));
            let j = choose|j: int| is_first(runs, p, j);
            assert(is_first(runs, p, j));
            if j < i {
                assert(!p(runs[j]));
            }
            if i < j {
                assert(!p(runs[i as int]));
            }
        },
        None => {
            if exists|i: int| is_first(runs, p, i) {
                let j = choose|j: int| is_first(runs, p, j);
                assert(p(runs[j]));
            }
        },
    }
}

/// The environments by their names; of two with one name the later counts.
pub open spec fn by_name(environments: Seq<EnvironmentResource>) -> Seq<(Seq<char>, EnvironmentResource)>
    decreases environments.len(),
{
    if environments.len() == 0 {
        Seq::empty()
    } else {
        put(by_name(environments.drop_last()), environments.last().name@, environments.last())
    }
}

/// The environments by their names; of two with one name the later counts.
pub fn environments_by_name(environments: &Vec<EnvironmentResource>) -> (r: OrderedMap<
    String,
    EnvironmentResource,
>)
    ensures
        r@ == by_name(environments@),
{
    let mut found: OrderedMap<String, EnvironmentResource> = OrderedMap::new();
    let n: usize = environments.len();
    let mut i: usize = 0;
    assert(environments@.take(0) =~= Seq::empty());
    while i < n
        invariant
            n == environments@.len(),
            0 <= i <= n,
            found@ == by_name(environments@.take(i as int)),
        decreases n - i,
    {
        let ghost longer = environments@.take(i + 1);
        assert(longer.drop_last() =~= environments@.take(i as int));
        let name: String = environments[i].name.clone();
        assert(name.key() == environments@[i as int].name@);
        found.insert(name, environments[i].duplicate());
        i = i + 1;
    }
    assert(environments@.take(n as int) =~= environments@);
    found
}

/// How a process ends.
#[derive(Clone, Copy, Debug, PartialEq, Eq, Structural)]
pub enum ProcessFinalResult {
    Completed,
    Failed,
    Cancelled,
}

/// The state of a run whose process has ended.
pub open spec fn final_run_state(result: ProcessFinalResult) -> AutomatedRunState {
    match result {
        ProcessFinalResult::Completed => AutomatedRunState::Completed,
        ProcessFinalResult::Failed => AutomatedRunState::Failed,
        ProcessFinalResult::Cancelled => AutomatedRunState::Cancelled,
    }
}

/// A run whose process has ended.
pub open spec fn is_ended_run(
    r: AutomatedRunStageRecordModel,
    before: AutomatedRunStageRecordModel,
    result: ProcessFinalResult,
    message: Seq<char>,
    now: u64,
) -> bool {
    &&& if result == ProcessFinalResult::Failed {
        &&& option_view(r.run.failure_code) == Some("process_failed"@)
        &&& option_view(r.run.failure_message) == Some(message)
    } else {
        &&& r.run.failure_code == before.run.failure_code
        &&& r.run.failure_message == before.run.failure_message
    }
    &&& r == (AutomatedRunStageRecordModel {
        run: AutomatedRunRecord {
            state: final_run_state(result),
            waiting_reason: None,
            ended_at: Some(now),
            failure_code: r.run.failure_code,
            failure_message: r.run.failure_message,
            ..before.run
        },
        ..before
    })
}

/// What comes of failing a run.
pub open spec fn run_failed(
    before: AutomationStateModel,
    after: AutomationStateModel,
    id: Seq<char>,
    code: Seq<char>,
    message: Seq<char>,
    now: u64,
    r: Result<(), CoordinatorServiceError>,
) -> bool {
    match lookup(before.automated_runs, id) {
        None => r matches Err(error) && error.protests("unknown automated run"@) && after == before,
        Some(run) => {
            &&& r is Ok
            &&& if run_ended(run.run.state) {
                after == before
            } else {
                &&& lookup(after.automated_runs, id) matches Some(then)
                &&& is_failed_run(then, run, code, message, now)
                &&& after == with_run(before, id, then)
            }
        },
    }
}

/// What comes of cancelling a run.
pub open spec fn run_cancelled(
    before: AutomationStateModel,
    after: AutomationStateModel,
    id: Seq<char>,
    now: u64,
    r: Result<AutomatedRunStageRecord, CoordinatorServiceError>,
) -> bool {
    match lookup(before.automated_runs, id) {
        None => r matches Err(error) && error.protests("unknown automated run"@) && after == before,
        Some(run) => {
            let then = if run_ended(run.run.state) {
                run
            } else {
                without_compilation(
                    AutomatedRunStageRecordModel {
                        run: AutomatedRunRecord {
                            state: AutomatedRunState::Cancelled,
                            ended_at: Some(now),
                            ..run.run
                        },
                        ..run
                    },
                )
            };
            &&& r matches Ok(record)
            &&& record@ == then
            &&& run_ended(run.run.state) ==> after == before
            &&& !run_ended(run.run.state) ==> after == with_run(before, id, then)
        },
    }
}

/// What comes of recording the source of a run.
pub open spec fn source_recorded(
    before: AutomationStateModel,
    after: AutomationStateModel,
    id: Seq<char>,
    source: WorkflowSourceModel,
    revision: RepositoryRevision,
    source_check: Result<(), String>,
    revision_check: Result<(), String>,
    r: Result<AutomatedRunStageRecord, CoordinatorServiceError>,
) -> bool {
    match (source_check, revision_check) {
        (Err(reason), _) => r matches Err(error) && error.protests(reason@) && after == before,
        (Ok(_), Err(reason)) => r matches Err(error) && error.protests(reason@) && after == before,
        (Ok(_), Ok(_)) => match lookup(before.automated_runs, id) {
            None => {
                &&& r matches Err(error)
                &&& error.protests("unknown automated run"@)
                &&& after == before
            },
            Some(run) => if run_ended(run.run.state) {
                &&& r matches Ok(record)
                &&& record@ == run
                &&& after == before
            } else if !is_source_of(run, source, revision) {
                &&& r matches Err(error)
                &&& error.denies("workflow source or repository revision does not match its run"@)
                &&& after == before
            } else if run.source is Some {
                &&& after == before
                &&& if workflow_source_alike(run.source->Some_0, source) && run.revision is Some
                    && repository_revision_alike(run.revision->Some_0, revision) {
                    r matches Ok(record) && record@ == run
                } else {
                    r matches Err(error) && error.protests(
                        "automated run source was retried with different content"@,
                    )
                }
            } else {
                &&& r matches Ok(record)
                &&& record@ == with_source(run, source, revision)
                &&& after == with_run(before, id, record@)
            },
        },
    }
}

/// What comes of asking for the compilation of a run.
pub open spec fn compilation_asked(
    before: AutomationStateModel,
    after: AutomationStateModel,
    request: WorkflowCompilationRequestModel,
    check: Result<(), String>,
    r: Result<AutomatedRunStageRecord, CoordinatorServiceError>,
) -> bool {
    match check {
        Err(reason) => r matches Err(error) && error.protests(reason@) && after == before,
        Ok(_) => match lookup(before.automated_runs, request.run_id@) {
            None => {
                &&& r matches Err(error)
                &&& error.protests("unknown automated run"@)
                &&& after == before
            },
            Some(run) => compilation_queued(before, after, request, run, r),
        },
    }
}

/// What comes of noting why the run of a process waits.
pub open spec fn waiting_recorded(
    before: AutomationStateModel,
    after: AutomationStateModel,
    process: (Seq<char>, Seq<char>, Seq<char>),
    reason: Option<String>,
) -> bool {
    match first_run(before, runs_process_still(process.0, process.1, process.2)) {
        None => after == before,
        Some(e) => if option_view(e.1.run.waiting_reason) == option_view(reason) {
            after == before
        } else {
            after == with_run(
                before,
                e.0,
                AutomatedRunStageRecordModel {
                    run: AutomatedRunRecord { waiting_reason: reason, ..e.1.run },
                    ..e.1
                },
            )
        },
    }
}

/// What comes of noting what the run of a process has published.
pub open spec fn publication_recorded(
    before: AutomationStateModel,
    after: AutomationStateModel,
    process: (Seq<char>, Seq<char>, Seq<char>),
    tag: String,
    release_url: String,
) -> bool {
    match first_run(before, runs_process(process.0, process.1, process.2)) {
        None => after == before,
        Some(e) => after == with_run(
            before,
            e.0,
            AutomatedRunStageRecordModel {
                run: AutomatedRunRecord {
                    publication_tag: Some(tag),
                    publication_url: Some(release_url),
                    ..e.1.run
                },
                ..e.1
            },
        ),
    }
}

/// What comes of the end of a process for its run.
pub open spec fn process_end_recorded(
    before: AutomationStateModel,
    after: AutomationStateModel,
    process: (Seq<char>, Seq<char>, Seq<char>),
    result: ProcessFinalResult,
    message: Seq<char>,
    now: u64,
) -> bool {
    match first_run(before, runs_process(process.0, process.1, process.2)) {
        None => after == before,
        Some(e) => {
            &&& lookup(after.automated_runs, e.0) matches Some(then)
            &&& is_ended_run(then, e.1, result, message, now)
            &&& after == with_run(before, e.0, then)
        },
    }
}

/// What a page of runs holds, and where the next one starts.
pub open spec fn run_page(
    runs: Seq<AutomatedRunRecord>,
    start: int,
    limit: int,
    page: Seq<AutomatedRunRecord>,
    next: Option<String>,
) -> bool {
    let end = if start + limit < runs.len() {
        start + limit
    } else {
        runs.len() as int
    };
    &&& page == runs.subrange(start, end)
    &&& option_view(next) == (if end < runs.len() {
        Some(runs[end - 1].run_id@)
    } else {
        None
    })
}

/// Whether run `i` is the first with the given identifier.
pub open spec fn run_at(runs: Seq<AutomatedRunRecord>, id: Seq<char>, i: int) -> bool {
    &&& 0 <= i < runs.len()
    &&& runs[i].run_id@ == id
    &&& forall|j: int| 0 <= j < i ==> (#[trigger] runs[j]).run_id@ != id
}

/// A page of runs starts after run `i`, which has the given identifier.
pub open spec fn page_after(
    runs: Seq<AutomatedRunRecord>,
    id: Seq<char>,
    limit: usize,
    r: Result<(Vec<AutomatedRunRecord>, Option<String>), CoordinatorServiceError>,
    i: int,
) -> bool {
    &&& run_at(runs, id, i)
    &&& r matches Ok(found)
    &&& run_page(runs, i + 1, limit as int, found.0@, found.1)
}

/// What comes of asking for the page after the run with the given identifier.
pub open spec fn paged_after(
    runs: Seq<AutomatedRunRecord>,
    id: Seq<char>,
    limit: usize,
    r: Result<(Vec<AutomatedRunRecord>, Option<String>), CoordinatorServiceError>,
) -> bool {
    if exists|i: int| #[trigger] run_at(runs, id, i) {
        exists|i: int| #[trigger] page_after(runs, id, limit, r, i)
    } else {
        r matches Err(error) && error.protests("automated run cursor is unknown or expired"@)
    }
}

/// What comes of asking for a page of runs.
pub open spec fn paged(
    runs: Seq<AutomatedRunRecord>,
    cursor: Option<Seq<char>>,
    limit: usize,
    r: Result<(Vec<AutomatedRunRecord>, Option<String>), CoordinatorServiceError>,
) -> bool {
    match cursor {
        None => r matches Ok(found) && run_page(runs, 0, limit as int, found.0@, found.1),
        Some(id) => paged_after(runs, id, limit, r),
    }
}

/// What comes of asking for a page of the runs of a project.
pub open spec fn runs_paged(
    s: AutomationStateModel,
    tenant: Seq<char>,
    project: Seq<char>,
    cursor: Option<Seq<char>>,
    limit: usize,
    r: Result<(Vec<AutomatedRunRecord>, Option<String>), CoordinatorServiceError>,
) -> bool {
    exists|q: Seq<(u64, Seq<char>)>| #[trigger]
        enumerates(q, project_queue(s, tenant, project)) && paged(
            newest_first(s, q),
            cursor,
            limit,
            r,
        )
}

proof fn lemma_page_after(
    runs: Seq<AutomatedRunRecord>,
    id: Seq<char>,
    limit: usize,
    r: Result<(Vec<AutomatedRunRecord>, Option<String>), CoordinatorServiceError>,
    i: int,
)
    requires
        page_after(runs, id, limit, r, i),
    ensures
        paged_after(runs, id, limit, r),
{
    assert(run_at(runs, id, i));
}

/// The runs from `start` on, as many as a page holds, and the cursor of the next page.
fn cut_page(runs: &Vec<AutomatedRunRecord>, start: usize, limit: usize) -> (found: (
    Vec<AutomatedRunRecord>,
    Option<String>,
))
    requires
        start <= runs@.len(),
        0 < limit,
    ensures
        run_page(runs@, start as int, limit as int, found.0@, found.1),
{
    let n: usize = runs.len();
    let end: usize = if limit < n - start {
        start + limit
    } else {
        n
    };
    let mut page: Vec<AutomatedRunRecord> = Vec::new();
    let mut i: usize = start;
    while i < end
        invariant
            start <= i <= end <= runs@.len(),
            page@ == runs@.subrange(start as int, i as int),
        decreases end - i,
    {
        page.push(runs[i].duplicate());
        assert(runs@.subrange(start as int, i + 1) =~= runs@.subrange(start as int, i as int).push(
            runs@[i as int],
        ));
        i = i + 1;
    }
    let next: Option<String> = if end < n {
        Some(runs[end - 1].run_id.clone())
    } else {
        None
    };
    (page, next)
}

/// A page of runs, which starts after the one that the cursor names.
fn page_of(runs: &Vec<AutomatedRunRecord>, cursor: Option<&str>, limit: usize) -> (r: Result<
    (Vec<AutomatedRunRecord>, Option<String>),
    CoordinatorServiceError,
>)
    requires
        0 < limit,
    ensures
        paged(runs@, option_view(cursor), limit, r),
{
    match cursor {
        None => Ok(cut_page(runs, 0, limit)),
        Some(id) => {
            let n: usize = runs.len();
            let mut i: usize = 0;
            while i < n && !text_eq(runs[i].run_id.as_str(), id)
                invariant
                    n == runs@.len(),
                    0 <= i <= n,
                    forall|j: int| 0 <= j < i ==> (#[trigger] runs@[j]).run_id@ != id@,
                decreases n - i,
            {
                i = i + 1;
            }
            if i == n {
                assert(!exists|j: int| run_at(runs@, id@, j));
                return Err(protocol("automated run cursor is unknown or expired"));
            }
            let r: Result<(Vec<AutomatedRunRecord>, Option<String>), CoordinatorServiceError> = Ok(
                cut_page(runs, i + 1, limit),
            );
            proof {
                assert(run_at(runs@, id@, i as int));
                lemma_page_after(runs@, id@, limit, r, i as int);
            }
            r
        },
    }
}

/// Why the definition of an environment is refused, if it is.
pub open spec fn environment_refusal(record: ProjectEnvironmentRecord) -> Option<Seq<char>> {
    if record.name@.len() == 0 || byte_len(record.name@) > 128 {
        Some("environment name is empty or too long"@)
    } else if record.definition.name@ != record.name@ {
        Some("environment record name does not match its definition"@)
    } else if record.definition.requirements.arch is Some && (trimmed(record.definition.requirements.arch->Some_0@).len() == 0
        || byte_len(record.definition.requirements.arch->Some_0@) > 128) {
        Some("environment architecture is empty or too long"@)
    } else if record.immutable_digest@ != record.definition.digest@ {
        Some("environment immutable digest does not match its definition"@)
    } else {
        None
    }
}

impl AutomationState {
    fn place_of_process(&self, tenant: &TenantId, project: &ProjectId, process: &ProcessId) -> (r: Option<
        usize,
    >)
        ensures
            r is None ==> first_run(self@, runs_process(tenant@, project@, process@)) is None,
            r matches Some(i) ==> {
                &&& i < self@.automated_runs.len()
                &&& first_run(self@, runs_process(tenant@, project@, process@)) == Some(
                    self@.automated_runs[i as int],
                )
            },
            ascending(self@.automated_runs),
    {
        let ghost p = runs_process(tenant@, project@, process@);
        let test = |_id: &RunId, record: &AutomatedRunStageRecord| -> (b: bool)
            ensures
                b == (run_in(record@, tenant@, project@) && option_view(record@.run.process_id)
                    == Some(process@)),
        {
            let same: bool = match &record.run.process_id {
                Some(id) => text_eq(id.as_str(), process.as_str()),
                None => false,
            };
            record.run.tenant == *tenant && record.run.project == *project && same
        };
        let place: Option<usize> = self.automated_runs.find(test, Ghost(p));
        proof {
            lemma_first_run(self@, p, place);
        }
        place
    }

    /// What the run of a process is told of its trigger.
    pub fn automated_trigger_context(
        &self,
        tenant: &TenantId,
        project: &ProjectId,
        process: &ProcessId,
    ) -> (r: Option<TriggerContext>)
        ensures
            option_view(r) == match first_run(
                self@,
                runs_process(tenant@, project@, process@),
            ) {
                Some(e) => e.1.trigger_context,
                None => None,
            },
    {
        match self.place_of_process(tenant, project, process) {
            Some(place) => copy_option(&self.automated_runs.value_at(place).trigger_context),
            None => None,
        }
    }

    /// The revision that the run of a process is of.
    pub fn automated_source_revision(
        &self,
        tenant: &TenantId,
        project: &ProjectId,
        process: &ProcessId,
    ) -> (r: Option<RepositoryRevision>)
        ensures
            option_view(r) == match first_run(
                self@,
                runs_process(tenant@, project@, process@),
            ) {
                Some(e) => e.1.revision,
                None => None,
            },
    {
        match self.place_of_process(tenant, project, process) {
            Some(place) => copy_option(&self.automated_runs.value_at(place).revision),
            None => None,
        }
    }

    /// The environments that the revision of a process defines, by their names.
    pub fn automated_environment_definitions(
        &self,
        tenant: &TenantId,
        project: &ProjectId,
        process: &ProcessId,
    ) -> (r: OrderedMap<String, EnvironmentResource>)
        ensures
            r@ == match first_run(self@, runs_process(tenant@, project@, process@)) {
                Some(e) => by_name(e.1.revision_environments),
                None => Seq::empty(),
            },
    {
        match self.place_of_process(tenant, project, process) {
            Some(place) => {
                let record: &AutomatedRunStageRecord = self.automated_runs.value_at(place);
                assert(views(record.revision_environments@) =~= record.revision_environments@);
                environments_by_name(&record.revision_environments)
            },
            None => OrderedMap::new(),
        }
    }

    /// Notes why the run of a process waits; `reason` is short enough to be kept.
    pub fn record_automated_process_waiting_reason(
        &mut self,
        tenant: &TenantId,
        project: &ProjectId,
        process: &ProcessId,
        reason: Option<String>,
    )
        ensures
            waiting_recorded(
                old(self)@,
                final(self)@,
                (tenant@, project@, process@),
                reason,
            ),
    {
        broadcast use lemma_put_delete;

        let ghost before = self@;
        let ghost p = runs_process_still(tenant@, project@, process@);
        let test = |_id: &RunId, record: &AutomatedRunStageRecord| -> (b: bool)
            ensures
                b == (run_in(record@, tenant@, project@) && option_view(record@.run.process_id)
                    == Some(process@) && !run_ended(record@.run.state)),
        {
            let same: bool = match &record.run.process_id {
                Some(id) => text_eq(id.as_str(), process.as_str()),
                None => false,
            };
            record.run.tenant == *tenant && record.run.project == *project && same
                && !record.run.state.is_terminal()
        };
        let place: Option<usize> = self.automated_runs.find(test, Ghost(p));
        proof {
            lemma_first_run(before, p, place);
        }
        match place {
            None => {},
            Some(place) => {
                if same_text(&self.automated_runs.value_at(place).run.waiting_reason, &reason) {
                    return;
                }
                let id: RunId = self.automated_runs.key_at(place).copy_key();
                proof {
                    lemma_lookup_at(before.automated_runs, place as int);
                }
                match self.automated_runs.remove(&id) {
                    None => {},
                    Some(found) => {
                        let mut record: AutomatedRunStageRecord = found;
                        record.run.waiting_reason = reason;
                        self.automated_runs.insert(id, record);
                    },
                }
            },
        }
    }

    /// Notes the release that the run of a process has published.
    pub fn record_automated_publication(
        &mut self,
        tenant: &TenantId,
        project: &ProjectId,
        process: &ProcessId,
        tag: String,
        release_url: String,
    )
        ensures
            publication_recorded(
                old(self)@,
                final(self)@,
                (tenant@, project@, process@),
                tag,
                release_url,
            ),
    {
        broadcast use lemma_put_delete;

        let ghost before = self@;
        match self.place_of_process(tenant, project, process) {
            None => {},
            Some(place) => {
                let id: RunId = self.automated_runs.key_at(place).copy_key();
                proof {
                    lemma_lookup_at(before.automated_runs, place as int);
                }
                match self.automated_runs.remove(&id) {
                    None => {},
                    Some(found) => {
                        let mut record: AutomatedRunStageRecord = found;
                        record.run.publication_tag = Some(tag);
                        record.run.publication_url = Some(release_url);
                        self.automated_runs.insert(id, record);
                    },
                }
            },
        }
    }

    /// Ends the run of a process that has ended. `failure_message` says why where it has failed.
    pub fn record_automated_process_terminal(
        &mut self,
        tenant: &TenantId,
        project: &ProjectId,
        process: &ProcessId,
        result: ProcessFinalResult,
        failure_message: String,
        now: u64,
    )
        ensures
            process_end_recorded(
                old(self)@,
                final(self)@,
                (tenant@, project@, process@),
                result,
                failure_message@,
                now,
            ),
    {
        broadcast use lemma_put_delete, lemma_lookup_put;

        let ghost before = self@;
        match self.place_of_process(tenant, project, process) {
            None => {},
            Some(place) => {
                let id: RunId = self.automated_runs.key_at(place).copy_key();
                proof {
                    lemma_lookup_at(before.automated_runs, place as int);
                }
                match self.automated_runs.remove(&id) {
                    None => {},
                    Some(found) => {
                        let mut record: AutomatedRunStageRecord = found;
                        record.run.state = match result {
                            ProcessFinalResult::Completed => AutomatedRunState::Completed,
                            ProcessFinalResult::Failed => AutomatedRunState::Failed,
                            ProcessFinalResult::Cancelled => AutomatedRunState::Cancelled,
                        };
                        record.run.waiting_reason = None;
                        record.run.ended_at = Some(now);
                        if result == ProcessFinalResult::Failed {
                            record.run.failure_code = Some("process_failed".to_owned());
                            record.run.failure_message = Some(failure_message);
                        }
                        self.automated_runs.insert(id, record);
                    },
                }
            },
        }
    }

    /// A page of the runs of a project, the newest first, and the cursor of the next page.
    pub fn automated_runs_page(
        &self,
        tenant: &TenantId,
        project: &ProjectId,
        cursor: Option<&str>,
        limit: usize,
    ) -> (r: Result<(Vec<AutomatedRunRecord>, Option<String>), CoordinatorServiceError>)
        ensures
            limit == 0 || limit > MAX_RUNS_PER_PROJECT ==> (r matches Err(error) && error.protests(
                "automated run page limit must be between 1 and 64"@,
            )),
            0 < limit <= MAX_RUNS_PER_PROJECT ==> runs_paged(
                self@,
                tenant@,
                project@,
                option_view(cursor),
                limit,
                r,
            ),
            r matches Ok(found) ==> found.0@.len() <= limit,
    {
        if limit == 0 || limit > MAX_RUNS_PER_PROJECT {
            return Err(protocol("automated run page limit must be between 1 and 64"));
        }
        let runs: Vec<AutomatedRunRecord> = self.automated_runs(tenant, project);
        let ghost q = choose|q: Seq<(u64, Seq<char>)>| #[trigger]
            enumerates(q, project_queue(self@, tenant@, project@)) && runs@ == newest_first(
                self@,
                q,
            );
        let r: Result<(Vec<AutomatedRunRecord>, Option<String>), CoordinatorServiceError> = page_of(
            &runs,
            cursor,
            limit,
        );
        assert(enumerates(q, project_queue(self@, tenant@, project@)) && paged(
            newest_first(self@, q),
            option_view(cursor),
            limit,
            r,
        ));
        r
    }

    /// Defines an environment of a project.
    pub fn configure_project_environment(&mut self, record: ProjectEnvironmentRecord) -> (r: Result<
        (),
        CoordinatorServiceError,
    >)
        ensures
            match environment_refusal(record) {
                Some(reason) => r matches Err(error) && error.protests(reason) && final(self)@
                    == old(self)@,
                None => r is Ok && final(self)@ == (AutomationStateModel {
                    project_environments: put(
                        old(self)@.project_environments,
                        (record.tenant@, record.project@, record.name@),
                        record,
                    ),
                    ..old(self)@
                }),
            },
    {
        let length: usize = text_len(record.name.as_str());
        proof {
            crate::text::lemma_byte_len(record.name@);
        }
        if length == 0 || length > 128 {
            assert(record.name@.len() > 0 ==> length > 0);
            return Err(protocol("environment name is empty or too long"));
        }
        assert(record.name@.len() > 0);
        if !text_eq(record.definition.name.as_str(), record.name.as_str()) {
            return Err(protocol("environment record name does not match its definition"));
        }
        match &record.definition.requirements.arch {
            Some(arch) => {
                if is_blank(arch.as_str()) || text_len(arch.as_str()) > 128 {
                    return Err(protocol("environment architecture is empty or too long"));
                }
            },
            None => {},
        }
        if !text_eq(record.immutable_digest.as_str(), record.definition.digest.as_str()) {
            return Err(protocol("environment immutable digest does not match its definition"));
        }
        let key: (TenantId, ProjectId, String) = (
            record.tenant.clone(),
            record.project.clone(),
            record.name.clone(),
        );
        assert(key.key() == (record.tenant@, record.project@, record.name@));
        self.project_environments.insert(key, record);
        Ok(())
    }
}

} // verus!
