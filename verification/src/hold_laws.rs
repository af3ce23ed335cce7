//! The holds that transfers have on their artifacts end with the transfers.
use vstd::prelude::*;

use crate::artifact_registry::{ArtifactHoldModel, ArtifactHoldReasonModel, ArtifactRegistryModel, has_reason, held, other_holds, with_hold, without_hold};
use crate::configuration::{CoordinatorAdmission, CoordinatorMainRuntimeConfiguration, CoordinatorServiceStartupConfiguration};
use crate::coordinator::CoordinatorModel;
use crate::ids::{ArtifactId, Digest, NodeId, NodeScopeKey, ProcessId, ScopeText};
use crate::interchange::{InterchangeRequest, RequestRefusal, TransferAnswer, TransferProgressAccepted, TransferTokens, all_holds_ended, holds_ended, interchange_expired, interchange_requested, remote_request, renewed_answer, reported, request_runs, set_up, terms_of, transfer_reason};
use crate::interchange_configuration::TERMINAL_TRANSFER_RETENTION_SECONDS;
use crate::interchange_registry::{InterchangeProgress, InterchangeRegistryModel, TransferReport, TransferReportError, active_hold_of, after_prunes, all_ended, holds_of, kept, oldest_terminal, overdue, renewed};
use crate::ordered_map::{ascending, bound_at, lemma_delete_ascending, lemma_filter_ascending, lemma_lookup_at, lemma_lookup_delete, lemma_lookup_found, lemma_lookup_put, lemma_put_ascending, lemma_same_keys, lookup, put};
use crate::service::{CoordinatorServiceModel, started};
use crate::service_error::CoordinatorServiceError;
use crate::transfer::{ArtifactTransferErrorCode, ArtifactTransferState, InterchangeTransferModel, TransferRules, is_terminal};

verus! {

/// Whether a transfer holds its artifact.
pub open spec fn holds_on(artifacts: ArtifactRegistryModel, t: InterchangeTransferModel) -> bool {
    has_reason(held(artifacts.holds, active_hold_of(t).0), active_hold_of(t).1)
}

/// The transfer of an identifier is its own, and holds nothing if it has ended.
pub open spec fn let_go_at(
    transfers: Seq<(Seq<char>, InterchangeTransferModel)>,
    artifacts: ArtifactRegistryModel,
    id: Seq<char>,
) -> bool {
    match lookup(transfers, id) {
        None => true,
        Some(t) => {
            &&& t.record.transfer_id@ == id
            &&& is_terminal(t.record.state) ==> !holds_on(artifacts, t)
        },
    }
}

/// Every transfer stands under its own identifier, and one that has ended holds nothing.
pub open spec fn ended_let_go(interchange: InterchangeRegistryModel, artifacts: ArtifactRegistryModel) -> bool {
    &&& ascending(interchange.transfers)
    &&& ascending(artifacts.holds)
    &&& forall|id: Seq<char>| #[trigger] let_go_at(interchange.transfers, artifacts, id)
}

/// A service that has just started has no transfer, so none that has ended holds anything.
pub proof fn a_service_starts_with_no_hold(
    s: CoordinatorServiceModel,
    coordinator: CoordinatorModel,
    admin_token_digest: Option<Digest>,
    admission: CoordinatorAdmission,
    startup: CoordinatorServiceStartupConfiguration,
    limits: CoordinatorMainRuntimeConfiguration,
    now: u64,
)
    requires
        started(s, coordinator, admin_token_digest, admission, startup, limits, now),
    ensures
        ended_let_go(s.interchange, s.artifacts),
{
    reveal(ascending);
    reveal(lookup);
}

proof fn lemma_without_hold_gone(
    holds: Seq<(ScopeText, Seq<ArtifactHoldModel>)>,
    key: ScopeText,
    reason: ArtifactHoldReasonModel,
)
    requires
        ascending(holds),
    ensures
        ascending(without_hold(holds, key, reason)),
        !has_reason(held(without_hold(holds, key, reason), key), reason),
        forall|k: ScopeText, r: ArtifactHoldReasonModel| #[trigger]
            has_reason(held(without_hold(holds, key, reason), k), r) ==> has_reason(
                held(holds, k),
                r,
            ),
{
    broadcast use {lemma_lookup_put, lemma_lookup_delete};

    match lookup(holds, key) {
        None => {},
        Some(list) => {
            let p = |h: ArtifactHoldModel| h.reason != reason;
            let left = other_holds(list, reason);
            assert(left == list.filter(p));
            lemma_put_ascending(holds, key, left);
            lemma_delete_ascending(holds, key);
            assert forall|i: int| 0 <= i < left.len() implies (#[trigger] left[i]).reason != reason
                && list.contains(left[i]) by {
                list.lemma_filter_pred(p, i);
                list.lemma_filter_contains_rev(p, left[i]);
            }
            assert forall|r: ArtifactHoldReasonModel| has_reason(left, r) implies #[trigger] has_reason(
                list,
                r,
            ) by {
                let i = choose|i: int| 0 <= i < left.len() && (#[trigger] left[i]).reason == r;
                let j = choose|j: int| 0 <= j < list.len() && list[j] == left[i];
                assert(list[j].reason == r);
            }
        },
    }
}

proof fn lemma_holds_ended(
    artifacts: ArtifactRegistryModel,
    released: Seq<(ScopeText, ArtifactHoldReasonModel)>,
    n: int,
)
    requires
        ascending(artifacts.holds),
        0 <= n <= released.len(),
    ensures
        ascending(holds_ended(artifacts, released, n).holds),
        forall|i: int|
            0 <= i < n ==> !has_reason(
                held(holds_ended(artifacts, released, n).holds, (#[trigger] released[i]).0),
                released[i].1,
            ),
        forall|k: ScopeText, r: ArtifactHoldReasonModel| #[trigger]
            has_reason(held(holds_ended(artifacts, released, n).holds, k), r) ==> has_reason(
                held(artifacts.holds, k),
                r,
            ),
    decreases n,
{
    if n > 0 {
        lemma_holds_ended(artifacts, released, n - 1);
        let earlier = holds_ended(artifacts, released, n - 1);
        lemma_without_hold_gone(earlier.holds, released[n - 1].0, released[n - 1].1);
        assert(holds_ended(artifacts, released, n).holds == without_hold(
            earlier.holds,
            released[n - 1].0,
            released[n - 1].1,
        ));
    }
}

/// Where transfers end together and their holds with them, no transfer that has ended holds anything.
pub proof fn transfers_that_end_let_go(
    interchange: InterchangeRegistryModel,
    artifacts: ArtifactRegistryModel,
    p: spec_fn(InterchangeTransferModel) -> bool,
    state: ArtifactTransferState,
    code: spec_fn(InterchangeTransferModel) -> ArtifactTransferErrorCode,
    now: u64,
)
    requires
        ended_let_go(interchange, artifacts),
    ensures
        ended_let_go(
            (InterchangeRegistryModel {
                transfers: all_ended(interchange.transfers, p, state, code, now),
                ..interchange
            }),
            all_holds_ended(artifacts, holds_of(interchange.transfers, p)),
        ),
{
    let before = interchange.transfers;
    let after = all_ended(before, p, state, code, now);
    let released = holds_of(before, p);
    let left = all_holds_ended(artifacts, released);
    lemma_holds_ended(artifacts, released, released.len() as int);
    lemma_same_keys(before, after);
    let f = |e: (Seq<char>, InterchangeTransferModel)|
        if p(e.1) {
            Some(active_hold_of(e.1))
        } else {
            None
        };
    assert(released == before.filter_map(f));
    assert forall|id: Seq<char>| #[trigger] let_go_at(after, left, id) by {
        if lookup(after, id) is Some {
            lemma_lookup_found(after, id);
            let i = choose|i: int| bound_at(after, id, i);
            lemma_lookup_at(after, i);
            lemma_lookup_at(before, i);
            let was = before[i].1;
            assert(let_go_at(before, artifacts, id));
            assert(active_hold_of(after[i].1) == active_hold_of(was));
            if p(was) {
                lemma_filter_map_holds(before, f, i);
                let j = choose|j: int|
                    0 <= j < released.len() && released[j] == active_hold_of(was);
                assert(!has_reason(held(left.holds, released[j].0), released[j].1));
            }
        }
    }
}

proof fn lemma_filter_map_holds<A, B>(s: Seq<A>, f: spec_fn(A) -> Option<B>, i: int)
    requires
        0 <= i < s.len(),
        f(s[i]) is Some,
    ensures
        s.filter_map(f).contains(f(s[i])->Some_0),
    decreases s.len(),
{
    let rest = s.drop_last();
    let x = f(s[i])->Some_0;
    if i == s.len() - 1 {
        assert(s.filter_map(f) == rest.filter_map(f) + seq![x]);
        assert(s.filter_map(f).last() == x);
    } else {
        lemma_filter_map_holds(rest, f, i);
        let j = choose|j: int| 0 <= j < rest.filter_map(f).len() && rest.filter_map(f)[j] == x;
        assert(s.filter_map(f)[j] == x);
    }
}

/// Expiry leaves no hold of a transfer that has ended.
pub proof fn expiry_lets_go(s: CoordinatorServiceModel, now: u64)
    requires
        ended_let_go(s.interchange, s.artifacts),
    ensures
        ended_let_go(
            interchange_expired(s, now).interchange,
            interchange_expired(s, now).artifacts,
        ),
{
    let c = s.interchange_configuration;
    let p = |t: InterchangeTransferModel|
        overdue(t, now, c.no_progress_timeout_seconds, c.absolute_transfer_max_seconds);
    let code = |t: InterchangeTransferModel| ArtifactTransferErrorCode::TransferLeaseExpired;
    let mid = all_ended(s.interchange.transfers, p, ArtifactTransferState::Expired, code, now);
    transfers_that_end_let_go(
        s.interchange,
        s.artifacts,
        p,
        ArtifactTransferState::Expired,
        code,
        now,
    );
    let after = interchange_expired(s, now);
    let q = |e: (Seq<char>, InterchangeTransferModel)|
        kept(e.1, now, TERMINAL_TRANSFER_RETENTION_SECONDS);
    assert(after.interchange.transfers == mid.filter(q));
    lemma_filter_ascending(mid, q);
    assert forall|id: Seq<char>| #[trigger]
        let_go_at(after.interchange.transfers, after.artifacts, id) by {
        assert(let_go_at(mid, after.artifacts, id));
    }
}

proof fn lemma_put_let_go(
    interchange: InterchangeRegistryModel,
    artifacts: ArtifactRegistryModel,
    id: Seq<char>,
    t: InterchangeTransferModel,
    left: ArtifactRegistryModel,
)
    requires
        ended_let_go(interchange, artifacts),
        ascending(left.holds),
        t.record.transfer_id@ == id,
        is_terminal(t.record.state) ==> !holds_on(left, t),
        forall|k: ScopeText, r: ArtifactHoldReasonModel|
            r != transfer_reason(id) ==> (#[trigger] has_reason(held(left.holds, k), r) ==> has_reason(
                held(artifacts.holds, k),
                r,
            )),
    ensures
        forall|meters: InterchangeRegistryModel|
            meters.transfers == put(interchange.transfers, id, t) ==> #[trigger] ended_let_go(
                meters,
                left,
            ),
{
    broadcast use lemma_lookup_put;

    lemma_put_ascending(interchange.transfers, id, t);
    let after = put(interchange.transfers, id, t);
    assert forall|other: Seq<char>| #[trigger] let_go_at(after, left, other) by {
        assert(let_go_at(interchange.transfers, artifacts, other));
    }
}

/// A report leaves no hold of a transfer that has ended, whichever way it ended it.
pub proof fn reports_let_go(
    s: CoordinatorServiceModel,
    scope: ScopeText,
    id: Seq<char>,
    report: TransferReport,
    now: u64,
    rules: TransferRules,
    after: CoordinatorServiceModel,
    r: Result<TransferProgressAccepted, CoordinatorServiceError>,
    progress: Result<InterchangeProgress, TransferReportError>,
    artifacts: ArtifactRegistryModel,
)
    requires
        ended_let_go(s.interchange, s.artifacts),
        reported(s, scope, id, report, now, rules, after, r, progress, artifacts),
    ensures
        ended_let_go(after.interchange, after.artifacts),
        let_go_at(after.interchange.transfers, after.artifacts, id),
{
    broadcast use lemma_lookup_put;

    match lookup(s.interchange.transfers, id) {
        None => {},
        Some(t) => {
            assert(let_go_at(s.interchange.transfers, s.artifacts, id));
            lemma_without_hold_gone(s.artifacts.holds, active_hold_of(t).0, active_hold_of(t).1);
            lemma_put_ascending(s.interchange.transfers, id, t);
            if after.interchange != s.interchange {
                let u = lookup(after.interchange.transfers, id)->Some_0;
                assert(after.interchange.transfers == put(s.interchange.transfers, id, u));
                lemma_put_let_go(s.interchange, s.artifacts, id, u, after.artifacts);
            }
        },
    }
}

proof fn lemma_prunes_let_go(
    interchange: InterchangeRegistryModel,
    artifacts: ArtifactRegistryModel,
    n: int,
)
    requires
        ended_let_go(interchange, artifacts),
    ensures
        ended_let_go(
            (InterchangeRegistryModel {
                transfers: after_prunes(interchange.transfers, n),
                ..interchange
            }),
            artifacts,
        ),
    decreases n,
{
    broadcast use lemma_lookup_delete;

    if n > 0 {
        lemma_prunes_let_go(interchange, artifacts, n - 1);
        let earlier = after_prunes(interchange.transfers, n - 1);
        let gone = oldest_terminal(earlier)->Some_0;
        lemma_delete_ascending(earlier, gone);
        let after = after_prunes(interchange.transfers, n);
        assert forall|id: Seq<char>| #[trigger] let_go_at(after, artifacts, id) by {
            assert(let_go_at(earlier, artifacts, id));
        }
    }
}

proof fn lemma_with_hold_only(
    holds: Seq<(ScopeText, Seq<ArtifactHoldModel>)>,
    key: ScopeText,
    reason: ArtifactHoldReasonModel,
    at: u64,
)
    requires
        ascending(holds),
    ensures
        ascending(with_hold(holds, key, reason, at)),
        forall|k: ScopeText, r: ArtifactHoldReasonModel|
            r != reason ==> (#[trigger] has_reason(held(with_hold(holds, key, reason, at), k), r)
                ==> has_reason(held(holds, k), r)),
{
    broadcast use lemma_lookup_put;

    let hold = ArtifactHoldModel { reason, created_at_epoch_seconds: at };
    let list = held(holds, key);
    lemma_put_ascending(holds, key, list.push(hold));
    assert forall|k: ScopeText, r: ArtifactHoldReasonModel|
        r != reason && #[trigger] has_reason(
            held(with_hold(holds, key, reason, at), k),
            r,
        ) implies has_reason(held(holds, k), r) by {
        if k == key && !has_reason(list, reason) {
            let more = list.push(hold);
            let i = choose|i: int| 0 <= i < more.len() && (#[trigger] more[i]).reason == r;
            assert(list[i].reason == r);
        }
    }
}

/// A request for an artifact leaves no hold of a transfer that has ended.
pub proof fn requests_let_go(
    before: CoordinatorServiceModel,
    after: CoordinatorServiceModel,
    scope: Result<NodeScopeKey, String>,
    process: Result<ProcessId, String>,
    artifact: Result<ArtifactId, String>,
    offset: u64,
    cancelled: bool,
    rules: TransferRules,
    tokens: TransferTokens,
    secret: Result<[u8; 32], String>,
    now: u64,
    r: Result<TransferAnswer, CoordinatorServiceError>,
)
    requires
        ended_let_go(before.interchange, before.artifacts),
        interchange_requested(
            before,
            after,
            scope,
            process,
            artifact,
            offset,
            cancelled,
            rules,
            tokens,
            secret,
            now,
            r,
        ),
    ensures
        ended_let_go(after.interchange, after.artifacts),
{
    expiry_lets_go(before, now);
    let s = interchange_expired(before, now);
    if after != before && after != s {
        let at = scope->Ok_0@;
        let q = InterchangeRequest { process: process->Ok_0, artifact: artifact->Ok_0, offset };
        let source = choose|source: Result<NodeId, RequestRefusal>| #[trigger]
            remote_request(s, at, q, rules, tokens, secret, now, after, r, source);
        if request_runs(s, at, q, now) {
            let i = choose|i: int| renewed_answer(s, at, q, now, after, r, i);
            let transfers = s.interchange.transfers;
            lemma_lookup_at(transfers, i);
            assert(let_go_at(transfers, s.artifacts, transfers[i].0));
            lemma_put_let_go(
                s.interchange,
                s.artifacts,
                transfers[i].0,
                renewed(transfers[i].1, now, terms_of(s.interchange_configuration)),
                s.artifacts,
            );
        } else {
            let node = source->Ok_0;
            let (t, n) = choose|t: InterchangeTransferModel, n: int| #[trigger]
                set_up(s, at, q, node@, tokens, secret, now, after, r, t, n);
            let id = tokens.transfer->Ok_0@;
            let room = InterchangeRegistryModel {
                transfers: after_prunes(s.interchange.transfers, n),
                ..s.interchange
            };
            lemma_prunes_let_go(s.interchange, s.artifacts, n);
            if r is Ok {
                lemma_with_hold_only(
                    s.artifacts.holds,
                    (at.0, at.1, q.artifact@),
                    transfer_reason(id),
                    now,
                );
                lemma_put_let_go(room, s.artifacts, id, t, after.artifacts);
            }
        }
    }
}

} // verus!
