//! What transfers of artifacts between nodes are for: an artifact is fetched from a node that can serve
//! it, a transfer lives for as long as bytes come, and what is recorded of it is what was proved.
use vstd::prelude::*;

use crate::artifact_registry::ArtifactRegistryModel;
use crate::ids::{ArtifactId, NodeId, NodeScopeKey, ProcessId, ScopeText};
use crate::interchange::{InterchangeRequest, RequestRefusal, TransferAnswer, TransferTokens, eligible, interchange_expired, interchange_handled, interchange_requested, receives, rejected, remote_request, request_runs, set_up, source_chosen, speaks_against, transfer_count, transfer_set_up};
use crate::interchange_configuration::{MAX_INTERCHANGE_TRANSFERS, TERMINAL_TRANSFER_RETENTION_SECONDS};
use crate::interchange_registry::{InterchangeProgress, InterchangeRegistryModel, LeaseTerms, TransferReport, TransferReportError, active_in_process, after_prunes, all_ended, kept, oldest_terminal, overdue, provided_by, prunes, report_outcome};
use crate::ordered::Ranked;
use crate::ordered_map::{ascending, bound_at, is_least_at, lemma_delete_ascending, lemma_filter_ascending, lemma_least_key, lemma_lookup_at, lemma_lookup_delete, lemma_lookup_found, lemma_lookup_put, lemma_put_ascending, lemma_same_keys, lookup, put};
use crate::service::CoordinatorServiceModel;
use crate::service_error::CoordinatorServiceError;
use crate::transfer::{ArtifactRelayPolicy, ArtifactTransferErrorCode, ArtifactTransferPhase, ArtifactTransferState, ClusterfluxPathKind, InterchangeTransferModel, TransferRules, is_terminal};

verus! {

/// A transfer that is over.
pub open spec fn is_over(t: InterchangeTransferModel) -> bool {
    match t.record.state {
        ArtifactTransferState::Completed => true,
        ArtifactTransferState::Failed => true,
        ArtifactTransferState::Cancelled => true,
        ArtifactTransferState::Expired => true,
        _ => false,
    }
}

/// A transfer of an artifact of a process to a node.
pub open spec fn brings(
    t: InterchangeTransferModel,
    to: ScopeText,
    process: Seq<char>,
    artifact: Seq<char>,
) -> bool {
    &&& t.record.tenant@ == to.0
    &&& t.record.project@ == to.1
    &&& t.record.destination_node@ == to.2
    &&& t.record.process@ == process
    &&& t.record.artifact@ == artifact
}

/// A node has failed as the source of the artifact, in a way that asks for another source.
pub open spec fn failed_from(
    transfers: Seq<(Seq<char>, InterchangeTransferModel)>,
    to: ScopeText,
    process: Seq<char>,
    artifact: Seq<char>,
    rules: TransferRules,
    node: Seq<char>,
) -> bool {
    exists|i: int|
        0 <= i < transfers.len() && brings((#[trigger] transfers[i]).1, to, process, artifact)
            && is_over(transfers[i].1) && (transfers[i].1.record.failure_code matches Some(code)
            && rules.source_rejecting@.contains(code)) && transfers[i].1.record.source_node@ == node
}

/// A node can serve an artifact to another: it retains the artifact, was seen lately, can be reached, and
/// has not failed at it.
pub open spec fn can_serve(
    s: CoordinatorServiceModel,
    to: ScopeText,
    process: Seq<char>,
    artifact: Seq<char>,
    rules: TransferRules,
    now: u64,
    node: Seq<char>,
) -> bool {
    &&& lookup(s.artifacts.artifacts, (to.0, to.1, artifact)) matches Some(metadata)
        && metadata.retaining_nodes.contains(node)
    &&& node != to.2
    &&& lookup(s.nodes.last_seen_epoch_seconds, (to.0, to.1, node)) matches Some(seen) && now
        <= seen + s.node_stale_after_seconds
    &&& lookup(s.nodes.advertisements, (to.0, to.1, node)) matches Some(place) && now
        < place.expires_at
    &&& !failed_from(s.interchange.transfers, to, process, artifact, rules, node)
}

/// The artifact is on its way to the node already.
pub open spec fn on_its_way(
    s: CoordinatorServiceModel,
    to: ScopeText,
    process: Seq<char>,
    artifact: Seq<char>,
    now: u64,
) -> bool {
    exists|i: int|
        0 <= i < s.interchange.transfers.len() && brings(
            (#[trigger] s.interchange.transfers[i]).1,
            to,
            process,
            artifact,
        ) && !is_over(s.interchange.transfers[i].1) && now
            <= s.interchange.transfers[i].1.record.expires_at
}

proof fn lemma_can_serve(
    s: CoordinatorServiceModel,
    to: ScopeText,
    q: InterchangeRequest,
    rules: TransferRules,
    now: u64,
    node: Seq<char>,
)
    ensures
        can_serve(s, to, q.process@, q.artifact@, rules, now, node) <==> eligible(
            s,
            to,
            q,
            rules,
            now,
            node,
        ) && (lookup(s.artifacts.artifacts, (to.0, to.1, q.artifact@)) matches Some(metadata)
            && metadata.retaining_nodes.contains(node)),
{
    let all = s.interchange.transfers;
    if rejected(all, to, q, rules, node, all.len() as int) {
        let i = choose|i: int|
            0 <= i < all.len() && speaks_against((#[trigger] all[i]).1, to, q, rules, node);
        assert(brings(all[i].1, to, q.process@, q.artifact@));
    }
    if failed_from(all, to, q.process@, q.artifact@, rules, node) {
        let i = choose|i: int|
            0 <= i < all.len() && brings((#[trigger] all[i]).1, to, q.process@, q.artifact@)
                && is_over(all[i].1) && (all[i].1.record.failure_code matches Some(code)
                && rules.source_rejecting@.contains(code)) && all[i].1.record.source_node@ == node;
        assert(speaks_against(all[i].1, to, q, rules, node));
    }
}

/// Where nothing brings the artifact to the node, no request for it runs.
pub proof fn lemma_not_running(
    s: CoordinatorServiceModel,
    to: ScopeText,
    q: InterchangeRequest,
    now: u64,
)
    ensures
        on_its_way(s, to, q.process@, q.artifact@, now) <==> request_runs(s, to, q, now),
{
    let all = s.interchange.transfers;
    let p = |e: (Seq<char>, InterchangeTransferModel)|
        crate::interchange_registry::runs(e.1, now) && crate::interchange::attempt(e.1, to, q);
    if on_its_way(s, to, q.process@, q.artifact@, now) {
        let i = choose|i: int|
            0 <= i < all.len() && brings((#[trigger] all[i]).1, to, q.process@, q.artifact@)
                && !is_over(all[i].1) && now <= all[i].1.record.expires_at;
        assert(p(all[i]));
    }
    if request_runs(s, to, q, now) {
        let i = choose|i: int| 0 <= i < all.len() && p(#[trigger] all[i]);
        assert(brings(all[i].1, to, q.process@, q.artifact@));
    }
}

/// The transfers that making room leaves: they are as they were, and only ones that are over are gone.
pub open spec fn leaves_the_running(
    before: Seq<(Seq<char>, InterchangeTransferModel)>,
    after: Seq<(Seq<char>, InterchangeTransferModel)>,
) -> bool {
    &&& ascending(after)
    &&& forall|id: Seq<char>|
        #![trigger lookup(after, id)]
        lookup(after, id) == lookup(before, id) || (lookup(after, id) is None && is_over(
            lookup(before, id)->Some_0,
        ))
}

proof fn lemma_prunes_leave_the_running(
    before: Seq<(Seq<char>, InterchangeTransferModel)>,
    capacity: usize,
    n: int,
)
    requires
        ascending(before),
        forall|k: int| 0 <= k < n ==> prunes(#[trigger] after_prunes(before, k), capacity),
    ensures
        leaves_the_running(before, after_prunes(before, n)),
    decreases n,
{
    broadcast use lemma_lookup_delete;

    if n > 0 {
        lemma_prunes_leave_the_running(before, capacity, n - 1);
        let earlier = after_prunes(before, n - 1);
        assert(prunes(earlier, capacity));
        let p = |e: (Seq<char>, InterchangeTransferModel)|
            crate::transfer::is_terminal(e.1.record.state);
        let f = |t: InterchangeTransferModel| t.record.updated_at;
        let gone = oldest_terminal(earlier)->Some_0;
        let i = choose|i: int| is_least_at(earlier, p, f, i);
        assert(is_least_at(earlier, p, f, i));
        lemma_least_key(earlier, p, f, i);
        lemma_lookup_at(earlier, i);
        lemma_delete_ascending(earlier, gone);
    }
}

/// A new transfer comes from a node that can serve the artifact, and of those that can, from the first:
/// a node that has failed at it is not asked again, and what failed at one node counts against no other.
#[verifier::rlimit(40)]
pub proof fn new_transfers_come_from_a_node_that_can_serve(
    before: CoordinatorServiceModel,
    after: CoordinatorServiceModel,
    to: NodeScopeKey,
    process: ProcessId,
    artifact: ArtifactId,
    offset: u64,
    cancelled: bool,
    rules: TransferRules,
    tokens: TransferTokens,
    now: u64,
    answer: TransferAnswer,
)
    requires
        ascending(before.interchange.transfers),
        interchange_handled(
            before,
            after,
            Ok(to),
            Ok(process),
            Ok(artifact),
            offset,
            cancelled,
            rules,
            tokens,
            now,
            Ok(answer),
        ),
        ({
            let s = interchange_expired(before, now);
            &&& !on_its_way(s, to@, process@, artifact@, now)
            &&& !lookup(
                s.artifacts.artifacts,
                (to@.0, to@.1, artifact@),
            )->Some_0.retaining_nodes.contains(to@.2)
        }),
    ensures
        ({
            let s = interchange_expired(before, now);
            &&& answer.transfer matches Some(record)
            &&& record.destination_node@ == to@.2
            &&& can_serve(s, to@, process@, artifact@, rules, now, record.source_node@)
            &&& forall|node: Seq<char>| #[trigger]
                can_serve(s, to@, process@, artifact@, rules, now, node) ==> node
                    == record.source_node@ || record.source_node@.before(node)
            &&& lookup(after.interchange.transfers, record.transfer_id@) matches Some(t)
            &&& t.record == record
            &&& answer.authorization matches Some(given)
            &&& given@ == t.destination_authorization
            &&& given@.lease.source_node@ == record.source_node@
        }),
{
    broadcast use lemma_lookup_put;

    let secret = choose|secret: Result<[u8; 32], String>| #[trigger]
        interchange_requested(
            before,
            after,
            Ok(to),
            Ok(process),
            Ok(artifact),
            offset,
            cancelled,
            rules,
            tokens,
            secret,
            now,
            Ok(answer),
        );
    let s = interchange_expired(before, now);
    let q = InterchangeRequest { process, artifact, offset };
    let r = Ok::<TransferAnswer, CoordinatorServiceError>(answer);
    let source = choose|source: Result<NodeId, RequestRefusal>| #[trigger]
        remote_request(s, to@, q, rules, tokens, secret, now, after, r, source);
    lemma_not_running(s, to@, q, now);
    assert(source_chosen(s, to@, q, rules, now, source));
    let node = source->Ok_0;
    assert(transfer_set_up(s, to@, q, node@, tokens, secret, now, after, r));
    let (t, n) = choose|t: InterchangeTransferModel, n: int|
        #[trigger] set_up(s, to@, q, node@, tokens, secret, now, after, r, t, n);
    lemma_expired_ascending(before, now);
    lemma_prunes_leave_the_running(s.interchange.transfers, MAX_INTERCHANGE_TRANSFERS, n);
    lemma_can_serve(s, to@, q, rules, now, node@);
    assert forall|other: Seq<char>| #[trigger]
        can_serve(s, to@, process@, artifact@, rules, now, other) implies other == node@
        || node@.before(other) by {
        lemma_can_serve(s, to@, q, rules, now, other);
    }
}

/// Where some node can serve the artifact to a node that can be reached, it is not answered that none can.
pub proof fn a_node_that_can_serve_is_found(
    before: CoordinatorServiceModel,
    after: CoordinatorServiceModel,
    to: NodeScopeKey,
    process: ProcessId,
    artifact: ArtifactId,
    offset: u64,
    cancelled: bool,
    rules: TransferRules,
    tokens: TransferTokens,
    now: u64,
    r: Result<TransferAnswer, CoordinatorServiceError>,
    node: Seq<char>,
)
    requires
        interchange_handled(
            before,
            after,
            Ok(to),
            Ok(process),
            Ok(artifact),
            offset,
            cancelled,
            rules,
            tokens,
            now,
            r,
        ),
        ({
            let s = interchange_expired(before, now);
            &&& lookup(s.nodes.advertisements, to@) matches Some(place) && now < place.expires_at
            &&& can_serve(s, to@, process@, artifact@, rules, now, node)
        }),
    ensures
        r != Err::<TransferAnswer, CoordinatorServiceError>(
            CoordinatorServiceError::Transfer(
                ArtifactTransferErrorCode::EndpointAdvertisementMissing,
            ),
        ),
{
    let secret = choose|secret: Result<[u8; 32], String>| #[trigger]
        interchange_requested(
            before,
            after,
            Ok(to),
            Ok(process),
            Ok(artifact),
            offset,
            cancelled,
            rules,
            tokens,
            secret,
            now,
            r,
        );
    let s = interchange_expired(before, now);
    let q = InterchangeRequest { process, artifact, offset };
    lemma_can_serve(s, to@, q, rules, now, node);
    if exists|source: Result<NodeId, RequestRefusal>| #[trigger]
        remote_request(s, to@, q, rules, tokens, secret, now, after, r, source) {
        let source = choose|source: Result<NodeId, RequestRefusal>| #[trigger]
            remote_request(s, to@, q, rules, tokens, secret, now, after, r, source);
        if !request_runs(s, to@, q, now) {
            assert(source_chosen(s, to@, q, rules, now, source));
            if source is Ok {
                let (t, n) = choose|t: InterchangeTransferModel, n: int|
                    #[trigger] set_up(s, to@, q, source->Ok_0@, tokens, secret, now, after, r, t, n);
                assert(set_up(s, to@, q, source->Ok_0@, tokens, secret, now, after, r, t, n));
            }
        } else {
            let i = choose|i: int|
                crate::interchange::renewed_answer(s, to@, q, now, after, r, i);
            assert(crate::interchange::renewed_answer(s, to@, q, now, after, r, i));
        }
    }
}

/// Expiry ends a transfer whose lease is over, that has made no progress for too long, or that has taken too
/// long, and no other. One that is over is remembered as it is for a time, so that what failed is known when
/// the artifact is asked for again.
pub proof fn expiry_ends_what_is_due(s: CoordinatorServiceModel, now: u64, id: Seq<char>)
    requires
        ascending(s.interchange.transfers),
    ensures
        ({
            let c = s.interchange_configuration;
            let then = lookup(interchange_expired(s, now).interchange.transfers, id);
            match lookup(s.interchange.transfers, id) {
                None => then is None,
                Some(t) => {
                    let due = t.record.expires_at < now || t.record.last_progress_at
                        + c.no_progress_timeout_seconds < now || (c.absolute_transfer_max_seconds matches Some(
                        most,
                    ) && t.record.created_at + most < now);
                    if is_over(t) {
                        then == (if t.record.updated_at + TERMINAL_TRANSFER_RETENTION_SECONDS >= now {
                            Some(t)
                        } else {
                            None
                        })
                    } else if due {
                        &&& then matches Some(u)
                        &&& u.record.state == ArtifactTransferState::Expired
                        &&& u.record.failure_code == Some(
                            ArtifactTransferErrorCode::TransferLeaseExpired,
                        )
                        &&& u.record.updated_at == now
                        &&& u.record.phase == ArtifactTransferPhase::Complete
                        &&& u.record.bytes_completed == t.record.bytes_completed
                        &&& u.record.source_node == t.record.source_node
                    } else {
                        then == Some(t)
                    }
                },
            }
        }),
{
    let c = s.interchange_configuration;
    let before = s.interchange.transfers;
    let p = |t: InterchangeTransferModel|
        overdue(t, now, c.no_progress_timeout_seconds, c.absolute_transfer_max_seconds);
    let code = |t: InterchangeTransferModel| ArtifactTransferErrorCode::TransferLeaseExpired;
    let mid = all_ended(before, p, ArtifactTransferState::Expired, code, now);
    let q = |e: (Seq<char>, InterchangeTransferModel)|
        kept(e.1, now, TERMINAL_TRANSFER_RETENTION_SECONDS);
    assert(interchange_expired(s, now).interchange.transfers == mid.filter(q));
    lemma_same_keys(before, mid);
    lemma_filter_ascending(mid, q);
    lemma_lookup_found(before, id);
    lemma_lookup_found(mid, id);
    if lookup(before, id) is Some {
        let i = choose|i: int| bound_at(before, id, i);
        lemma_lookup_at(before, i);
        lemma_lookup_at(mid, i);
        assert(mid[i].0 == id);
    } else if lookup(mid, id) is Some {
        let i = choose|i: int| bound_at(mid, id, i);
        assert(before[i].0 == id);
        lemma_lookup_at(before, i);
    }
}

proof fn lemma_expired_ascending(s: CoordinatorServiceModel, now: u64)
    requires
        ascending(s.interchange.transfers),
    ensures
        ascending(interchange_expired(s, now).interchange.transfers),
{
    let c = s.interchange_configuration;
    let before = s.interchange.transfers;
    let p = |t: InterchangeTransferModel|
        overdue(t, now, c.no_progress_timeout_seconds, c.absolute_transfer_max_seconds);
    let code = |t: InterchangeTransferModel| ArtifactTransferErrorCode::TransferLeaseExpired;
    let mid = all_ended(before, p, ArtifactTransferState::Expired, code, now);
    let q = |e: (Seq<char>, InterchangeTransferModel)|
        kept(e.1, now, TERMINAL_TRANSFER_RETENTION_SECONDS);
    assert(interchange_expired(s, now).interchange.transfers == mid.filter(q));
    lemma_same_keys(before, mid);
    lemma_filter_ascending(mid, q);
}

/// Until when a lease lasts that is given now: for its time, and not beyond what the transfer may take.
pub open spec fn lasts_until(until: u64, now: u64, created_at: u64, terms: LeaseTerms) -> bool {
    &&& until <= now + terms.active_lease_ttl_seconds
    &&& terms.absolute_transfer_max_seconds matches Some(most) ==> until <= created_at + most
    &&& until == u64::MAX || until == now + terms.active_lease_ttl_seconds || (
    terms.absolute_transfer_max_seconds matches Some(most) && until == created_at + most)
}

/// Bytes that come renew the lease: an accepted report of more bytes than were recorded, of a transfer that
/// goes on, is progress now, and the transfer and both of its leases last from now on.
pub proof fn bytes_renew_the_lease(
    before: InterchangeRegistryModel,
    artifacts: ArtifactRegistryModel,
    scope: ScopeText,
    id: Seq<char>,
    report: TransferReport,
    now: u64,
    terms: LeaseTerms,
    rules: TransferRules,
    after: InterchangeRegistryModel,
    artifacts_then: ArtifactRegistryModel,
    p: InterchangeProgress,
)
    requires
        ascending(before.transfers),
        report_outcome(
            before,
            artifacts,
            scope,
            id,
            report,
            now,
            terms,
            rules,
            after,
            artifacts_then,
            Ok(p),
        ),
        lookup(before.transfers, id) is Some,
        report.bytes_completed > lookup(before.transfers, id)->Some_0.record.bytes_completed,
        !is_over(lookup(after.transfers, id)->Some_0),
    ensures
        ({
            let t = lookup(before.transfers, id)->Some_0;
            &&& lookup(after.transfers, id) matches Some(u)
            &&& u.record.last_progress_at == now
            &&& u.record.bytes_completed == report.bytes_completed
            &&& lasts_until(u.record.expires_at, now, t.record.created_at, terms)
            &&& u.destination_authorization.lease.active_lease_expires_at == u.record.expires_at
            &&& u.provider_authorization.lease.active_lease_expires_at == u.record.expires_at
            &&& u.record.created_at == t.record.created_at
            &&& p.record == u.record
        }),
{
    broadcast use lemma_lookup_put;

}

/// A transfer whose bytes grow before its lease runs out does not expire before it has taken as long as it
/// may: after a report of more bytes it is still there, as it was, at any time within the lease and within
/// the time that it may go without progress.
pub proof fn transfers_live_while_bytes_come(
    s: CoordinatorServiceModel,
    artifacts: ArtifactRegistryModel,
    scope: ScopeText,
    id: Seq<char>,
    report: TransferReport,
    now: u64,
    terms: LeaseTerms,
    rules: TransferRules,
    then: CoordinatorServiceModel,
    artifacts_then: ArtifactRegistryModel,
    p: InterchangeProgress,
    later: u64,
)
    requires
        report_outcome(
            s.interchange,
            artifacts,
            scope,
            id,
            report,
            now,
            terms,
            rules,
            then.interchange,
            artifacts_then,
            Ok(p),
        ),
        ascending(s.interchange.transfers),
        terms.absolute_transfer_max_seconds
            == then.interchange_configuration.absolute_transfer_max_seconds,
        lookup(s.interchange.transfers, id) is Some,
        report.bytes_completed > lookup(
            s.interchange.transfers,
            id,
        )->Some_0.record.bytes_completed,
        !is_over(lookup(then.interchange.transfers, id)->Some_0),
        now <= later <= now + terms.active_lease_ttl_seconds,
        later <= now + then.interchange_configuration.no_progress_timeout_seconds,
        terms.absolute_transfer_max_seconds matches Some(most) ==> later <= lookup(
            s.interchange.transfers,
            id,
        )->Some_0.record.created_at + most,
    ensures
        lookup(interchange_expired(then, later).interchange.transfers, id) == lookup(
            then.interchange.transfers,
            id,
        ),
        !is_over(lookup(interchange_expired(then, later).interchange.transfers, id)->Some_0),
{
    bytes_renew_the_lease(
        s.interchange,
        artifacts,
        scope,
        id,
        report,
        now,
        terms,
        rules,
        then.interchange,
        artifacts_then,
        p,
    );
    let u = lookup(then.interchange.transfers, id)->Some_0;
    lemma_put_ascending(s.interchange.transfers, id, u);
    lemma_lookup_put(s.interchange.transfers, id, u, id);
    assert(then.interchange.transfers == put(s.interchange.transfers, id, u)) by {
        broadcast use lemma_lookup_put;

    }
    expiry_ends_what_is_due(then, later, id);
}

/// A report concerns its own transfer only, and only a node that takes part in it is heard: what another
/// node says changes nothing.
pub proof fn reports_are_of_those_who_take_part(
    before: InterchangeRegistryModel,
    artifacts: ArtifactRegistryModel,
    scope: ScopeText,
    id: Seq<char>,
    report: TransferReport,
    now: u64,
    terms: LeaseTerms,
    rules: TransferRules,
    after: InterchangeRegistryModel,
    artifacts_then: ArtifactRegistryModel,
    answer: Result<InterchangeProgress, TransferReportError>,
    other: Seq<char>,
)
    requires
        ascending(before.transfers),
        report_outcome(
            before,
            artifacts,
            scope,
            id,
            report,
            now,
            terms,
            rules,
            after,
            artifacts_then,
            answer,
        ),
    ensures
        other != id ==> lookup(after.transfers, other) == lookup(before.transfers, other),
        lookup(before.transfers, id) is None ==> answer is Err && after == before && artifacts_then
            == artifacts,
        lookup(before.transfers, id) matches Some(t) ==> {
            let takes_part = t.record.tenant@ == scope.0 && t.record.project@ == scope.1 && (
            t.record.source_node@ == scope.2 || t.record.destination_node@ == scope.2);
            !takes_part ==> answer is Err && after == before && artifacts_then == artifacts
        },
{
    broadcast use lemma_lookup_put;

}

/// A transfer goes forward: what is reported never takes bytes back, never goes beyond the artifact, and
/// leads to no state that may not follow. One that is over stays as it is.
pub proof fn transfers_go_forward(
    before: InterchangeRegistryModel,
    artifacts: ArtifactRegistryModel,
    scope: ScopeText,
    id: Seq<char>,
    report: TransferReport,
    now: u64,
    terms: LeaseTerms,
    rules: TransferRules,
    after: InterchangeRegistryModel,
    artifacts_then: ArtifactRegistryModel,
    answer: Result<InterchangeProgress, TransferReportError>,
)
    requires
        ascending(before.transfers),
        lookup(before.transfers, id) is Some,
        report_outcome(
            before,
            artifacts,
            scope,
            id,
            report,
            now,
            terms,
            rules,
            after,
            artifacts_then,
            answer,
        ),
    ensures
        ({
            let t = lookup(before.transfers, id)->Some_0;
            &&& lookup(after.transfers, id) matches Some(u)
            &&& is_over(t) ==> u == t && after == before && artifacts_then == artifacts
            &&& t.record.bytes_completed <= u.record.bytes_completed
            &&& answer is Ok ==> {
                &&& u.record.bytes_completed == report.bytes_completed
                &&& !is_over(t) ==> report.bytes_completed
                    <= t.destination_authorization.lease.size_bytes
                &&& u.record.state == t.record.state || (u.record.state == report.state
                    && rules.permitted@.contains((t.record.state, report.state)))
            }
            &&& u.record.source_node == t.record.source_node
            &&& u.record.destination_node == t.record.destination_node
            &&& u.record.artifact == t.record.artifact
            &&& u.record.created_at == t.record.created_at
            &&& u.record.attempt_count == t.record.attempt_count
        }),
{
    broadcast use lemma_lookup_put;

}

/// A transfer is completed only by its destination, once that has shown every byte with the digest of the
/// artifact; it then retains the artifact, as do the nodes that did before. No other artifact changes.
pub proof fn completion_is_proved_by_the_destination(
    before: InterchangeRegistryModel,
    artifacts: ArtifactRegistryModel,
    scope: ScopeText,
    id: Seq<char>,
    report: TransferReport,
    now: u64,
    terms: LeaseTerms,
    rules: TransferRules,
    after: InterchangeRegistryModel,
    artifacts_then: ArtifactRegistryModel,
    answer: Result<InterchangeProgress, TransferReportError>,
    other: ScopeText,
)
    requires
        ascending(before.transfers),
        ascending(artifacts.artifacts),
        lookup(before.transfers, id) is Some,
        !is_over(lookup(before.transfers, id)->Some_0),
        lookup(after.transfers, id)->Some_0.record.state == ArtifactTransferState::Completed,
        report_outcome(
            before,
            artifacts,
            scope,
            id,
            report,
            now,
            terms,
            rules,
            after,
            artifacts_then,
            answer,
        ),
    ensures
        ({
            let t = lookup(before.transfers, id)->Some_0;
            let lease = t.destination_authorization.lease;
            let key = (t.record.tenant@, t.record.project@, t.record.artifact@);
            &&& answer is Ok
            &&& scope.2 == t.record.destination_node@
            &&& report.bytes_completed == lease.size_bytes
            &&& report.verified_size == Some(lease.size_bytes)
            &&& report.verified_digest matches Some(digest) && digest@ == lease.digest@
            &&& lookup(artifacts.artifacts, key) matches Some(known)
            &&& known.digest@ == lease.digest@ && known.size == lease.size_bytes
            &&& lookup(artifacts_then.artifacts, key) matches Some(then)
            &&& then.retaining_nodes == known.retaining_nodes.insert(t.record.destination_node@)
            &&& then.digest == known.digest && then.size == known.size && then.process
                == known.process
            &&& other != key ==> lookup(artifacts_then.artifacts, other) == lookup(
                artifacts.artifacts,
                other,
            )
        }),
{
    broadcast use lemma_lookup_put;

}

/// A transfer that is not completed adds no node to those that retain an artifact, and takes one away only
/// where the source itself says that it misses the bytes.
pub proof fn only_completion_adds_a_node(
    before: InterchangeRegistryModel,
    artifacts: ArtifactRegistryModel,
    scope: ScopeText,
    id: Seq<char>,
    report: TransferReport,
    now: u64,
    terms: LeaseTerms,
    rules: TransferRules,
    after: InterchangeRegistryModel,
    artifacts_then: ArtifactRegistryModel,
    answer: Result<InterchangeProgress, TransferReportError>,
    key: ScopeText,
    node: Seq<char>,
)
    requires
        ascending(before.transfers),
        ascending(artifacts.artifacts),
        lookup(before.transfers, id) is Some,
        report.state != ArtifactTransferState::Completed,
        report_outcome(
            before,
            artifacts,
            scope,
            id,
            report,
            now,
            terms,
            rules,
            after,
            artifacts_then,
            answer,
        ),
    ensures
        ({
            let t = lookup(before.transfers, id)->Some_0;
            let known = lookup(artifacts.artifacts, key);
            let then = lookup(artifacts_then.artifacts, key);
            &&& known is Some <==> then is Some
            &&& known matches Some(m) ==> {
                &&& then->Some_0.retaining_nodes.contains(node) ==> m.retaining_nodes.contains(node)
                &&& m.retaining_nodes.contains(node) && !then->Some_0.retaining_nodes.contains(node)
                    ==> {
                    &&& answer is Ok
                    &&& report.failure_code == Some(
                        ArtifactTransferErrorCode::ArtifactMissingAtSource,
                    )
                    &&& node == t.record.source_node@ && scope.2 == t.record.source_node@
                    &&& key == (t.record.tenant@, t.record.project@, t.record.artifact@)
                }
            }
        }),
{
    broadcast use lemma_lookup_put;

}

/// A source that says that it misses the bytes no longer counts as a node that retains the artifact.
pub proof fn a_source_that_misses_the_bytes_is_dropped(
    before: InterchangeRegistryModel,
    artifacts: ArtifactRegistryModel,
    scope: ScopeText,
    id: Seq<char>,
    report: TransferReport,
    now: u64,
    terms: LeaseTerms,
    rules: TransferRules,
    after: InterchangeRegistryModel,
    artifacts_then: ArtifactRegistryModel,
    answer: Result<InterchangeProgress, TransferReportError>,
)
    requires
        ascending(before.transfers),
        ascending(artifacts.artifacts),
        lookup(before.transfers, id) is Some,
        !is_over(lookup(before.transfers, id)->Some_0),
        report.failure_code == Some(ArtifactTransferErrorCode::ArtifactMissingAtSource),
        answer is Ok,
        report_outcome(
            before,
            artifacts,
            scope,
            id,
            report,
            now,
            terms,
            rules,
            after,
            artifacts_then,
            answer,
        ),
    ensures
        ({
            let t = lookup(before.transfers, id)->Some_0;
            &&& scope.2 == t.record.source_node@
            &&& lookup(after.transfers, id)->Some_0.record.state == ArtifactTransferState::Failed
            &&& lookup(
                artifacts_then.artifacts,
                (t.record.tenant@, t.record.project@, t.record.artifact@),
            ) matches Some(then) ==> !then.retaining_nodes.contains(t.record.source_node@)
        }),
{
    broadcast use lemma_lookup_put;

}

/// A lease that requires a direct path is kept to: no report of bytes that came another way is accepted, and
/// such a report fails the transfer and counts no byte.
pub proof fn forbidden_paths_carry_nothing(
    before: InterchangeRegistryModel,
    artifacts: ArtifactRegistryModel,
    scope: ScopeText,
    id: Seq<char>,
    report: TransferReport,
    now: u64,
    terms: LeaseTerms,
    rules: TransferRules,
    after: InterchangeRegistryModel,
    artifacts_then: ArtifactRegistryModel,
    answer: Result<InterchangeProgress, TransferReportError>,
)
    requires
        ascending(before.transfers),
        lookup(before.transfers, id) is Some,
        !is_over(lookup(before.transfers, id)->Some_0),
        ({
            let lease = lookup(before.transfers, id)->Some_0.destination_authorization.lease;
            &&& lease.relay_policy == ArtifactRelayPolicy::DirectRequired
            &&& report.bytes_completed > lease.allowed_offset
            &&& report.path_kind == ClusterfluxPathKind::Relayed || report.path_kind
                == ClusterfluxPathKind::Unknown
        }),
        report_outcome(
            before,
            artifacts,
            scope,
            id,
            report,
            now,
            terms,
            rules,
            after,
            artifacts_then,
            answer,
        ),
    ensures
        answer is Err,
        after.direct_body_bytes == before.direct_body_bytes,
        after.relayed_body_bytes == before.relayed_body_bytes,
        after.unknown_path_body_bytes == before.unknown_path_body_bytes,
        answer == Err::<InterchangeProgress, TransferReportError>(
            TransferReportError::RelayPathForbidden,
        ) ==> {
            &&& lookup(after.transfers, id) matches Some(u)
            &&& u.record.state == ArtifactTransferState::Failed
            &&& u.record.failure_code == Some(ArtifactTransferErrorCode::RelayPathForbidden)
            &&& u.record.updated_at == now
            &&& u.record.bytes_completed == lookup(
                before.transfers,
                id,
            )->Some_0.record.bytes_completed
        },
        answer != Err::<InterchangeProgress, TransferReportError>(
            TransferReportError::RelayPathForbidden,
        ) ==> after == before,
{
    broadcast use lemma_lookup_put;

}

/// Bytes are counted once, on the meter of the path that they came by: what the meters gain together is what
/// the transfer's own count gains, and that count never falls behind what came beyond its first offset.
pub proof fn bytes_are_counted_once(
    before: InterchangeRegistryModel,
    artifacts: ArtifactRegistryModel,
    scope: ScopeText,
    id: Seq<char>,
    report: TransferReport,
    now: u64,
    terms: LeaseTerms,
    rules: TransferRules,
    after: InterchangeRegistryModel,
    artifacts_then: ArtifactRegistryModel,
    answer: Result<InterchangeProgress, TransferReportError>,
)
    requires
        ascending(before.transfers),
        lookup(before.transfers, id) is Some,
        !is_over(lookup(before.transfers, id)->Some_0),
        answer is Ok,
        before.direct_body_bytes + report.bytes_completed <= u64::MAX,
        before.relayed_body_bytes + report.bytes_completed <= u64::MAX,
        before.unknown_path_body_bytes + report.bytes_completed <= u64::MAX,
        report_outcome(
            before,
            artifacts,
            scope,
            id,
            report,
            now,
            terms,
            rules,
            after,
            artifacts_then,
            answer,
        ),
    ensures
        ({
            let t = lookup(before.transfers, id)->Some_0;
            let u = lookup(after.transfers, id)->Some_0;
            let gained = u.metered_body_bytes - t.metered_body_bytes;
            let came = report.bytes_completed
                - t.destination_authorization.lease.allowed_offset;
            &&& gained >= 0
            &&& report.path_kind != ClusterfluxPathKind::Local ==> u.metered_body_bytes >= came
            &&& gained > 0 ==> u.metered_body_bytes == came && report.path_kind
                != ClusterfluxPathKind::Local
            &&& after.direct_body_bytes - before.direct_body_bytes == (if report.path_kind
                == ClusterfluxPathKind::Direct {
                gained
            } else {
                0
            })
            &&& after.relayed_body_bytes - before.relayed_body_bytes == (if report.path_kind
                == ClusterfluxPathKind::Relayed {
                gained
            } else {
                0
            })
            &&& after.unknown_path_body_bytes - before.unknown_path_body_bytes == (if report.path_kind
                == ClusterfluxPathKind::Unknown {
                gained
            } else {
                0
            })
        }),
{
    broadcast use lemma_lookup_put;

}

/// A transfer that ends without being completed says why, and what it is answered with is its record; one
/// that goes on is answered with the lease of the node that reports.
pub proof fn endings_say_why(
    before: InterchangeRegistryModel,
    artifacts: ArtifactRegistryModel,
    scope: ScopeText,
    id: Seq<char>,
    report: TransferReport,
    now: u64,
    terms: LeaseTerms,
    rules: TransferRules,
    after: InterchangeRegistryModel,
    artifacts_then: ArtifactRegistryModel,
    answer: Result<InterchangeProgress, TransferReportError>,
)
    requires
        ascending(before.transfers),
        lookup(before.transfers, id) is Some,
        !is_over(lookup(before.transfers, id)->Some_0),
        report_outcome(
            before,
            artifacts,
            scope,
            id,
            report,
            now,
            terms,
            rules,
            after,
            artifacts_then,
            answer,
        ),
    ensures
        ({
            let u = lookup(after.transfers, id)->Some_0;
            &&& is_over(u) && u.record.state != ArtifactTransferState::Completed
                ==> u.record.failure_code is Some
            &&& answer matches Ok(p) ==> {
                &&& p.record == u.record
                &&& is_over(u) ==> p.authorization is None && p.terminal_hold is Some
                &&& !is_over(u) ==> p.terminal_hold is None && (p.authorization matches Some(given)
                    && given@ == (if scope.2 == u.record.source_node@ {
                    u.provider_authorization
                } else {
                    u.destination_authorization
                }))
            }
        }),
{
    broadcast use lemma_lookup_put;

}

/// The transfers, not yet over, that a test holds of.
pub open spec fn live_transfers(
    s: CoordinatorServiceModel,
    p: spec_fn(InterchangeTransferModel) -> bool,
) -> nat {
    s.interchange.transfers.filter(
        |e: (Seq<char>, InterchangeTransferModel)| !is_over(e.1) && p(e.1),
    ).len()
}

proof fn lemma_live_transfers(
    s: CoordinatorServiceModel,
    p: spec_fn(InterchangeTransferModel) -> bool,
    q: spec_fn(InterchangeTransferModel) -> bool,
)
    requires
        forall|t: InterchangeTransferModel| #[trigger] q(t) <==> !is_over(t) && p(t),
    ensures
        live_transfers(s, p) == transfer_count(s, q),
{
    let a = |e: (Seq<char>, InterchangeTransferModel)| !is_over(e.1) && p(e.1);
    let b = |e: (Seq<char>, InterchangeTransferModel)| q(e.1);
    assert(a =~= b);
}

/// A new transfer keeps to every limit: its tenant, its project, its process and its receiver had room for
/// one more, and so had its source.
#[verifier::rlimit(40)]
pub proof fn new_transfers_keep_to_the_limits(
    before: CoordinatorServiceModel,
    after: CoordinatorServiceModel,
    to: NodeScopeKey,
    process: ProcessId,
    artifact: ArtifactId,
    offset: u64,
    cancelled: bool,
    rules: TransferRules,
    tokens: TransferTokens,
    now: u64,
    answer: TransferAnswer,
)
    requires
        ascending(before.interchange.transfers),
        interchange_handled(
            before,
            after,
            Ok(to),
            Ok(process),
            Ok(artifact),
            offset,
            cancelled,
            rules,
            tokens,
            now,
            Ok(answer),
        ),
        ({
            let s = interchange_expired(before, now);
            &&& !on_its_way(s, to@, process@, artifact@, now)
            &&& !lookup(
                s.artifacts.artifacts,
                (to@.0, to@.1, artifact@),
            )->Some_0.retaining_nodes.contains(to@.2)
        }),
    ensures
        ({
            let s = interchange_expired(before, now);
            let c = s.interchange_configuration;
            let source = answer.transfer->Some_0.source_node@;
            &&& live_transfers(s, |t: InterchangeTransferModel| t.record.tenant@ == to@.0)
                < c.max_active_transfers_per_tenant
            &&& live_transfers(
                s,
                |t: InterchangeTransferModel|
                    t.record.tenant@ == to@.0 && t.record.project@ == to@.1,
            ) < c.max_active_transfers_per_project
            &&& live_transfers(
                s,
                |t: InterchangeTransferModel|
                    t.record.tenant@ == to@.0 && t.record.project@ == to@.1 && t.record.process@
                        == process@,
            ) < c.max_active_transfers_per_process
            &&& live_transfers(
                s,
                |t: InterchangeTransferModel|
                    t.record.tenant@ == to@.0 && t.record.project@ == to@.1
                        && t.record.destination_node@ == to@.2,
            ) < c.max_receiver_leases_per_node
            &&& live_transfers(
                s,
                |t: InterchangeTransferModel|
                    t.record.tenant@ == to@.0 && t.record.project@ == to@.1
                        && t.record.source_node@ == source,
            ) < c.max_provider_leases_per_node
        }),
{
    let secret = choose|secret: Result<[u8; 32], String>| #[trigger]
        interchange_requested(
            before,
            after,
            Ok(to),
            Ok(process),
            Ok(artifact),
            offset,
            cancelled,
            rules,
            tokens,
            secret,
            now,
            Ok(answer),
        );
    let s = interchange_expired(before, now);
    let q = InterchangeRequest { process, artifact, offset };
    let r = Ok::<TransferAnswer, CoordinatorServiceError>(answer);
    let source = choose|source: Result<NodeId, RequestRefusal>| #[trigger]
        remote_request(s, to@, q, rules, tokens, secret, now, after, r, source);
    lemma_not_running(s, to@, q, now);
    assert(source_chosen(s, to@, q, rules, now, source));
    let node = source->Ok_0@;
    let (t, n) = choose|t: InterchangeTransferModel, n: int|
        #[trigger] set_up(s, to@, q, node, tokens, secret, now, after, r, t, n);
    assert(set_up(s, to@, q, node, tokens, secret, now, after, r, t, n));
    lemma_live_transfers(
        s,
        |t: InterchangeTransferModel| t.record.tenant@ == to@.0,
        |t: InterchangeTransferModel| !is_terminal(t.record.state) && t.record.tenant@ == to@.0,
    );
    lemma_live_transfers(
        s,
        |t: InterchangeTransferModel| t.record.tenant@ == to@.0 && t.record.project@ == to@.1,
        |t: InterchangeTransferModel|
            !is_terminal(t.record.state) && t.record.tenant@ == to@.0 && t.record.project@ == to@.1,
    );
    lemma_live_transfers(
        s,
        |t: InterchangeTransferModel|
            t.record.tenant@ == to@.0 && t.record.project@ == to@.1 && t.record.process@
                == process@,
        |t: InterchangeTransferModel| active_in_process(t, to@.0, to@.1, process@),
    );
    lemma_live_transfers(
        s,
        |t: InterchangeTransferModel|
            t.record.tenant@ == to@.0 && t.record.project@ == to@.1 && t.record.destination_node@
                == to@.2,
        |t: InterchangeTransferModel| receives(t, to@.0, to@.1, to@.2),
    );
    lemma_live_transfers(
        s,
        |t: InterchangeTransferModel|
            t.record.tenant@ == to@.0 && t.record.project@ == to@.1 && t.record.source_node@ == node,
        |t: InterchangeTransferModel|
            !is_terminal(t.record.state) && provided_by(t, (to@.0, to@.1, node)),
    );
}

} // verus!
