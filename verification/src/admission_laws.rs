//! What a transfer is set up with: the terms that the request, the artifact and the two nodes give it, and no
//! more than each may have.
use vstd::prelude::*;

use crate::artifact_registry::held;
use crate::ids::{ArtifactId, NodeId, NodeScopeKey, ProcessId, ScopeText};
use crate::interchange::{InterchangeRequest, RequestRefusal, TransferAnswer, TransferTokens, attempt, capacity_refusal, created_lately, interchange_expired, interchange_handled, interchange_requested, most_attempts, partial_bytes, remote_request, set_up, source_chosen, transfer_count, transfer_set_up};
use crate::ordered_map::{ascending, lookup};
use crate::service::CoordinatorServiceModel;
use crate::service_error::CoordinatorServiceError;
use crate::transfer::{ArtifactAssignmentState, ArtifactTransferErrorCode, ArtifactTransferState, ClusterfluxPathKind, InterchangeTransferModel, TransferRules};
use crate::transfer_laws::{brings, is_over, lemma_not_running, on_its_way};

verus! {

/// A request for an artifact is refused where the one who asks is unknown or was not seen lately, where its
/// process was cancelled, and where the artifact is not known, is another process's, is no longer held, or is
/// shorter than asked. Each refusal says which.
pub proof fn requests_are_refused_for_what_is_not_there(
    before: CoordinatorServiceModel,
    after: CoordinatorServiceModel,
    to: NodeScopeKey,
    process: ProcessId,
    artifact: ArtifactId,
    offset: u64,
    cancelled: bool,
    rules: TransferRules,
    tokens: TransferTokens,
    now: u64,
    r: Result<TransferAnswer, CoordinatorServiceError>,
)
    requires
        interchange_handled(
            before,
            after,
            Ok(to),
            Ok(process),
            Ok(artifact),
            offset,
            cancelled,
            rules,
            tokens,
            now,
            r,
        ),
    ensures
        ({
            let s = interchange_expired(before, now);
            let enrolled = lookup(before.coordinator.durable.node_identities, to@) is Some;
            let seen = lookup(s.nodes.last_seen_epoch_seconds, to@) matches Some(at) && now <= at
                + s.node_stale_after_seconds;
            let known = lookup(s.artifacts.artifacts, (to@.0, to@.1, artifact@));
            let holds = held(s.artifacts.holds, (to@.0, to@.1, artifact@));
            &&& !enrolled ==> r is Err && after == before
            &&& enrolled && !seen ==> r == Err::<TransferAnswer, CoordinatorServiceError>(
                CoordinatorServiceError::Transfer(
                    ArtifactTransferErrorCode::DestinationNodeOffline,
                ),
            )
            &&& enrolled && seen && cancelled ==> r == Err::<TransferAnswer, CoordinatorServiceError>(
                CoordinatorServiceError::Transfer(ArtifactTransferErrorCode::TransferCancelled),
            )
            &&& enrolled && seen && !cancelled && known is None ==> r == Err::<
                TransferAnswer,
                CoordinatorServiceError,
            >(CoordinatorServiceError::Transfer(ArtifactTransferErrorCode::NoArtifactLocation))
            &&& r is Ok ==> {
                &&& enrolled && seen && !cancelled
                &&& known matches Some(metadata)
                &&& metadata.process@ == process@
                &&& holds.len() > 0
                &&& offset <= metadata.size
            }
            &&& (enrolled && seen && !cancelled && holds.len() > 0 && (known matches Some(metadata)
                && metadata.process@ == process@ && offset > metadata.size)) ==> r == Err::<
                TransferAnswer,
                CoordinatorServiceError,
            >(CoordinatorServiceError::Transfer(ArtifactTransferErrorCode::RangeInvalid))
        }),
{
}

/// A node that has the artifact already is told so, and nothing is set up.
pub proof fn what_is_there_is_not_moved(
    before: CoordinatorServiceModel,
    after: CoordinatorServiceModel,
    to: NodeScopeKey,
    process: ProcessId,
    artifact: ArtifactId,
    offset: u64,
    cancelled: bool,
    rules: TransferRules,
    tokens: TransferTokens,
    now: u64,
    answer: TransferAnswer,
)
    requires
        interchange_handled(
            before,
            after,
            Ok(to),
            Ok(process),
            Ok(artifact),
            offset,
            cancelled,
            rules,
            tokens,
            now,
            Ok(answer),
        ),
        lookup(
            interchange_expired(before, now).artifacts.artifacts,
            (to@.0, to@.1, artifact@),
        )->Some_0.retaining_nodes.contains(to@.2),
    ensures
        after == interchange_expired(before, now),
        answer.authorization is None,
        answer.transfer matches Some(record) && {
            &&& record.state == ArtifactTransferState::Completed
            &&& record.path_kind == ClusterfluxPathKind::Local
            &&& record.source_node@ == to@.2 && record.destination_node@ == to@.2
            &&& record.artifact@ == artifact@ && record.process@ == process@
            &&& record.bytes_completed == record.total_bytes
            &&& record.failure_code is None
        },
{
}

proof fn lemma_most_attempts(
    transfers: Seq<(Seq<char>, InterchangeTransferModel)>,
    scope: ScopeText,
    q: InterchangeRequest,
    n: int,
    i: int,
)
    requires
        0 <= i < n <= transfers.len(),
        attempt(transfers[i].1, scope, q),
    ensures
        transfers[i].1.record.attempt_count <= most_attempts(transfers, scope, q, n),
    decreases n,
{
    if i < n - 1 {
        lemma_most_attempts(transfers, scope, q, n - 1, i);
    }
}

/// A new transfer is of the artifact that was asked for, from where was asked, and for no more than is left of
/// it. Both ends have the same secret and the same terms; each is told where the other is. It counts as an
/// attempt after every earlier one.
#[verifier::rlimit(60)]
pub proof fn new_transfers_are_what_was_asked(
    before: CoordinatorServiceModel,
    after: CoordinatorServiceModel,
    to: NodeScopeKey,
    process: ProcessId,
    artifact: ArtifactId,
    offset: u64,
    cancelled: bool,
    rules: TransferRules,
    tokens: TransferTokens,
    now: u64,
    answer: TransferAnswer,
    i: int,
)
    requires
        ascending(before.interchange.transfers),
        interchange_handled(
            before,
            after,
            Ok(to),
            Ok(process),
            Ok(artifact),
            offset,
            cancelled,
            rules,
            tokens,
            now,
            Ok(answer),
        ),
        ({
            let s = interchange_expired(before, now);
            &&& !on_its_way(s, to@, process@, artifact@, now)
            &&& !lookup(
                s.artifacts.artifacts,
                (to@.0, to@.1, artifact@),
            )->Some_0.retaining_nodes.contains(to@.2)
            &&& now + s.interchange_configuration.active_transfer_lease_ttl_seconds <= u64::MAX
            &&& now + s.interchange_configuration.transfer_lease_ttl_seconds <= u64::MAX
        }),
    ensures
        ({
            let s = interchange_expired(before, now);
            let c = s.interchange_configuration;
            let metadata = lookup(s.artifacts.artifacts, (to@.0, to@.1, artifact@))->Some_0;
            &&& answer.transfer matches Some(record)
            &&& answer.authorization matches Some(given)
            &&& lookup(s.nodes.advertisements, to@) matches Some(own)
            &&& lookup(s.nodes.advertisements, (to@.0, to@.1, record.source_node@)) matches Some(from)
            &&& tokens.transfer matches Ok(id) && record.transfer_id@ == id@
            &&& record.tenant@ == to@.0 && record.project@ == to@.1
            &&& record.process@ == process@ && record.artifact@ == artifact@
            &&& record.state == ArtifactTransferState::SourceSelected
            &&& record.bytes_completed == offset && record.total_bytes == metadata.size
            &&& record.created_at == now && record.last_progress_at == now
            &&& record.expires_at == now + c.active_transfer_lease_ttl_seconds
            &&& record.stream_ticket_expires_at == now + c.transfer_lease_ttl_seconds
            &&& given@.lease.digest@ == metadata.digest@ && given@.lease.size_bytes == metadata.size
            &&& given@.lease.allowed_offset == offset
            &&& given@.lease.maximum_bytes + offset == metadata.size
            &&& given@.lease.artifact@ == artifact@ && given@.lease.transfer_id@ == record.transfer_id@
            &&& given@.lease.source_endpoint_id@ == from.endpoint_id@
            &&& given@.lease.destination_endpoint_id@ == own.endpoint_id@
            &&& given@.lease.relay_policy == c.artifact_relay_policy
            &&& given@.lease.expires_at == record.stream_ticket_expires_at
            &&& given@.lease.active_lease_expires_at == record.expires_at
            &&& given@.peer.endpoint_id@ == from.endpoint_id@
            &&& given@.peer.direct_addresses == from.direct_addresses
            &&& 0 <= i < s.interchange.transfers.len() && brings(
                s.interchange.transfers[i].1,
                to@,
                process@,
                artifact@,
            ) ==> record.attempt_count > s.interchange.transfers[i].1.record.attempt_count
                || record.attempt_count == u32::MAX
            &&& exists|t: InterchangeTransferModel|
                #![trigger t.provider_authorization]
                {
                    &&& t.record == record && t.destination_authorization == given@
                    &&& t.provider_authorization.lease == given@.lease
                    &&& t.provider_authorization.transfer_secret == given@.transfer_secret
                    &&& t.provider_authorization.peer.endpoint_id@ == own.endpoint_id@
                    &&& t.provider_assignment == ArtifactAssignmentState::Offered
                    &&& t.destination_assignment == ArtifactAssignmentState::Offered
                }
        }),
{
    let secret = choose|secret: Result<[u8; 32], String>| #[trigger]
        interchange_requested(
            before,
            after,
            Ok(to),
            Ok(process),
            Ok(artifact),
            offset,
            cancelled,
            rules,
            tokens,
            secret,
            now,
            Ok(answer),
        );
    let s = interchange_expired(before, now);
    let q = InterchangeRequest { process, artifact, offset };
    let r = Ok::<TransferAnswer, CoordinatorServiceError>(answer);
    let source = choose|source: Result<NodeId, RequestRefusal>| #[trigger]
        remote_request(s, to@, q, rules, tokens, secret, now, after, r, source);
    lemma_not_running(s, to@, q, now);
    assert(source_chosen(s, to@, q, rules, now, source));
    let node = source->Ok_0;
    assert(transfer_set_up(s, to@, q, node@, tokens, secret, now, after, r));
    let (t, n) = choose|t: InterchangeTransferModel, n: int|
        #[trigger] set_up(s, to@, q, node@, tokens, secret, now, after, r, t, n);
    assert(set_up(s, to@, q, node@, tokens, secret, now, after, r, t, n));
    if 0 <= i < s.interchange.transfers.len() && brings(
        s.interchange.transfers[i].1,
        to@,
        process@,
        artifact@,
    ) {
        assert(attempt(s.interchange.transfers[i].1, to@, q));
        lemma_most_attempts(
            s.interchange.transfers,
            to@,
            q,
            s.interchange.transfers.len() as int,
            i,
        );
    }
    assert(t.provider_authorization.lease == answer.authorization->Some_0@.lease);
}

/// The bytes that a node still waits for, of the first transfers.
pub open spec fn awaited(
    transfers: Seq<(Seq<char>, InterchangeTransferModel)>,
    to: ScopeText,
    n: int,
) -> nat
    decreases n,
{
    if n <= 0 {
        0
    } else {
        let t = transfers[n - 1].1;
        awaited(transfers, to, n - 1) + if !is_over(t) && t.record.tenant@ == to.0 && t.record.project@
            == to.1 && t.record.destination_node@ == to.2 && t.record.bytes_completed
            < t.record.total_bytes {
            (t.record.total_bytes - t.record.bytes_completed) as nat
        } else {
            0
        }
    }
}

proof fn lemma_awaited(transfers: Seq<(Seq<char>, InterchangeTransferModel)>, to: ScopeText, n: int)
    requires
        n <= transfers.len(),
    ensures
        partial_bytes(transfers, to.0, to.1, to.2, n) == (if awaited(transfers, to, n) > u64::MAX {
            u64::MAX as nat
        } else {
            awaited(transfers, to, n)
        }),
    decreases n,
{
    if n > 0 {
        lemma_awaited(transfers, to, n - 1);
    }
}

/// A transfer is admitted only where its node waits for no more bytes with it than it may, and where fewer were
/// created for it in the last minute than may be.
pub proof fn nodes_wait_for_no_more_than_they_may(
    s: CoordinatorServiceModel,
    to: ScopeText,
    process: Seq<char>,
    bytes: u64,
    now: u64,
)
    requires
        capacity_refusal(s, to, process, bytes, now) is None,
        s.interchange_configuration.max_partial_bytes_per_node_project < u64::MAX,
    ensures
        awaited(s.interchange.transfers, to, s.interchange.transfers.len() as int) + bytes
            <= s.interchange_configuration.max_partial_bytes_per_node_project,
        s.interchange.transfers.filter(
            |e: (Seq<char>, InterchangeTransferModel)|
                e.1.record.tenant@ == to.0 && e.1.record.destination_node@ == to.2 && now
                    <= e.1.record.created_at + 60,
        ).len() < s.interchange_configuration.max_transfer_creations_per_tenant_node_minute,
{
    lemma_awaited(s.interchange.transfers, to, s.interchange.transfers.len() as int);
    let p = |t: InterchangeTransferModel| created_lately(t, to.0, to.2, now);
    let a = |e: (Seq<char>, InterchangeTransferModel)| p(e.1);
    let b = |e: (Seq<char>, InterchangeTransferModel)|
        e.1.record.tenant@ == to.0 && e.1.record.destination_node@ == to.2 && now
            <= e.1.record.created_at + 60;
    assert(a =~= b);
    assert(transfer_count(s, p) == s.interchange.transfers.filter(a).len());
}

} // verus!
