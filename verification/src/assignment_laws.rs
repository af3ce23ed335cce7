//! What nodes are told of transfers: each learns of its own part, takes it, and loses it with its process or
//! itself.
use vstd::prelude::*;

use crate::ids::ScopeText;
use crate::interchange::{AdvertisementAccepted, advertisement_answer, relay_configured, relay_scope};
use crate::interchange_configuration::{CoordinatorArtifactInterchangeConfigurationModel, IrohRelayConfigurationModel, RelayLimits, configuration_refusal, policy_of};
use crate::interchange_registry::{AssignmentAcknowledgementError, InterchangeRegistryModel, LeaseTerms, assignment_acknowledged, for_provider, for_receiver, node_drained, node_failed, process_cancelled, provider_delivery, provider_polled, receiver_delivery, receiver_polled, renewal, renewed, runs, same_request, takes_part, transfer_renewed};
use crate::node_registry::IrohEndpointAdvertisementModel;
use crate::ordered_map::{ascending, bound_at, lemma_lookup_at, lemma_lookup_found, lemma_lookup_put, lemma_same_keys, lookup};
use crate::relay::ClusterfluxDeploymentMode;
use crate::sequences::holds_of_some;
use crate::service::CoordinatorServiceModel;
use crate::service_error::CoordinatorServiceError;
use crate::transfer::{ArtifactAssignmentRole, ArtifactAssignmentState, ArtifactRelayPolicy, ArtifactTransferAuthorization, ArtifactTransferErrorCode, ArtifactTransferRecord, ArtifactTransferState, InterchangeTransferModel};
use crate::transfer_laws::is_over;

verus! {

/// A part of a transfer is open to its node: it was not taken, or was taken longer ago than the node has to
/// begin.
pub open spec fn is_open(
    part: ArtifactAssignmentState,
    taken_at: Option<u64>,
    now: u64,
    recovery: u64,
) -> bool {
    ||| part == ArtifactAssignmentState::Offered
    ||| part == ArtifactAssignmentState::Acknowledged && (match taken_at {
        Some(at) => at + recovery < now,
        None => recovery < now,
    })
}

/// A node is told of a transfer that it is to provide, exactly where there is one that is under way and open to
/// it, and is told it as it was authorized.
pub proof fn providers_learn_of_their_transfers(
    before: InterchangeRegistryModel,
    after: InterchangeRegistryModel,
    scope: ScopeText,
    now: u64,
    recovery: u64,
    r: (Vec<String>, Option<ArtifactTransferAuthorization>),
    id: Seq<char>,
)
    requires
        ascending(before.transfers),
        provider_polled(before, after, scope, now, recovery, r),
    ensures
        (lookup(before.transfers, id) matches Some(t) && t.record.tenant@ == scope.0
            && t.record.project@ == scope.1 && t.record.source_node@ == scope.2 && !is_over(t) && now
            <= t.record.expires_at && is_open(
            t.provider_assignment,
            t.provider_acknowledged_at,
            now,
            recovery,
        )) ==> r.1 is Some,
        r.1 matches Some(answer) ==> exists|i: int|
            0 <= i < before.transfers.len() && {
                let t = (#[trigger] before.transfers[i]).1;
                &&& t.record.tenant@ == scope.0 && t.record.project@ == scope.1
                &&& t.record.source_node@ == scope.2
                &&& !is_over(t) && now <= t.record.expires_at
                &&& is_open(t.provider_assignment, t.provider_acknowledged_at, now, recovery)
                &&& answer@ == t.provider_authorization
            },
        lookup(before.transfers, id) is Some <==> lookup(after.transfers, id) is Some,
        lookup(before.transfers, id) matches Some(t) ==> {
            let u = lookup(after.transfers, id)->Some_0;
            &&& u.record == t.record && u.destination_assignment == t.destination_assignment
            &&& u.provider_assignment == t.provider_assignment || u.provider_assignment
                == ArtifactAssignmentState::Offered
        },
{
    broadcast use lemma_lookup_put;

    let p = |e: (Seq<char>, InterchangeTransferModel)| for_provider(e.1, scope, now, recovery);
    lemma_lookup_found(before.transfers, id);
    if lookup(before.transfers, id) is Some {
        let i = choose|i: int| bound_at(before.transfers, id, i);
        lemma_lookup_at(before.transfers, i);
        if p(before.transfers[i]) {
            assert(holds_of_some(before.transfers, p));
        }
    }
    if r.1 is Some {
        let i = choose|i: int| #[trigger]
            provider_delivery(before, after, scope, now, recovery, i) && r.1->Some_0@
                == before.transfers[i].1.provider_authorization;
        assert(p(before.transfers[i]));
        lemma_lookup_at(before.transfers, i);
    }
}

/// A node is told of a transfer that it is to receive, exactly where there is one that is under way and open to
/// it, and is told it as it was authorized.
pub proof fn receivers_learn_of_their_transfers(
    before: InterchangeRegistryModel,
    after: InterchangeRegistryModel,
    scope: ScopeText,
    now: u64,
    recovery: u64,
    r: Option<ArtifactTransferAuthorization>,
    id: Seq<char>,
)
    requires
        ascending(before.transfers),
        receiver_polled(before, after, scope, now, recovery, r),
    ensures
        (lookup(before.transfers, id) matches Some(t) && t.record.tenant@ == scope.0
            && t.record.project@ == scope.1 && t.record.destination_node@ == scope.2 && !is_over(t)
            && now <= t.record.expires_at && is_open(
            t.destination_assignment,
            t.destination_acknowledged_at,
            now,
            recovery,
        )) ==> r is Some,
        r matches Some(answer) ==> exists|i: int|
            0 <= i < before.transfers.len() && {
                let t = (#[trigger] before.transfers[i]).1;
                &&& t.record.tenant@ == scope.0 && t.record.project@ == scope.1
                &&& t.record.destination_node@ == scope.2
                &&& !is_over(t) && now <= t.record.expires_at
                &&& is_open(t.destination_assignment, t.destination_acknowledged_at, now, recovery)
                &&& answer@ == t.destination_authorization
            },
        lookup(before.transfers, id) is Some <==> lookup(after.transfers, id) is Some,
        lookup(before.transfers, id) matches Some(t) ==> {
            let u = lookup(after.transfers, id)->Some_0;
            &&& u.record == t.record && u.provider_assignment == t.provider_assignment
            &&& u.destination_assignment == t.destination_assignment || u.destination_assignment
                == ArtifactAssignmentState::Offered
        },
{
    broadcast use lemma_lookup_put;

    let p = |e: (Seq<char>, InterchangeTransferModel)| for_receiver(e.1, scope, now, recovery);
    lemma_lookup_found(before.transfers, id);
    if lookup(before.transfers, id) is Some {
        let i = choose|i: int| bound_at(before.transfers, id, i);
        lemma_lookup_at(before.transfers, i);
        if p(before.transfers[i]) {
            assert(holds_of_some(before.transfers, p));
        }
    }
    if r is Some {
        let i = choose|i: int| #[trigger]
            receiver_delivery(before, after, scope, now, recovery, i) && r->Some_0@
                == before.transfers[i].1.destination_authorization;
        assert(p(before.transfers[i]));
        lemma_lookup_at(before.transfers, i);
    }
}

/// A node takes its own part of a transfer of its project, and no other. A part that is ready stays ready.
pub proof fn nodes_take_their_own_part(
    before: InterchangeRegistryModel,
    after: InterchangeRegistryModel,
    scope: ScopeText,
    id: Seq<char>,
    role: ArtifactAssignmentRole,
    now: u64,
    r: Result<ArtifactAssignmentState, AssignmentAcknowledgementError>,
    other: Seq<char>,
)
    requires
        ascending(before.transfers),
        assignment_acknowledged(before, after, scope, id, role, now, r),
    ensures
        r is Ok <==> (lookup(before.transfers, id) matches Some(t) && t.record.tenant@ == scope.0
            && t.record.project@ == scope.1 && (role == ArtifactAssignmentRole::Provider
            ==> t.record.source_node@ == scope.2) && (role == ArtifactAssignmentRole::Receiver
            ==> t.record.destination_node@ == scope.2)),
        r is Err ==> after == before,
        r matches Ok(state) ==> {
            let t = lookup(before.transfers, id)->Some_0;
            &&& lookup(after.transfers, id) matches Some(u)
            &&& u.record == t.record
            &&& role == ArtifactAssignmentRole::Provider ==> {
                &&& u.provider_assignment == state && u.destination_assignment
                    == t.destination_assignment
                &&& t.provider_assignment == ArtifactAssignmentState::Ready ==> u == t
                &&& t.provider_assignment != ArtifactAssignmentState::Ready ==> state
                    == ArtifactAssignmentState::Acknowledged && u.provider_acknowledged_at == Some(now)
            }
            &&& role == ArtifactAssignmentRole::Receiver ==> {
                &&& u.destination_assignment == state && u.provider_assignment
                    == t.provider_assignment
                &&& t.destination_assignment == ArtifactAssignmentState::Ready ==> u == t
                &&& t.destination_assignment != ArtifactAssignmentState::Ready ==> state
                    == ArtifactAssignmentState::Acknowledged && u.destination_acknowledged_at == Some(
                    now,
                )
            }
        },
        other != id ==> lookup(after.transfers, other) == lookup(before.transfers, other),
{
    broadcast use lemma_lookup_put;

}

proof fn lemma_at_same_place(
    before: Seq<(Seq<char>, InterchangeTransferModel)>,
    after: Seq<(Seq<char>, InterchangeTransferModel)>,
    id: Seq<char>,
) -> (i: int)
    requires
        ascending(before),
        after.len() == before.len(),
        forall|i: int| 0 <= i < before.len() ==> (#[trigger] after[i]).0 == before[i].0,
        lookup(before, id) is Some,
    ensures
        0 <= i < before.len(),
        lookup(before, id) == Some(before[i].1),
        lookup(after, id) == Some(after[i].1),
{
    lemma_same_keys(before, after);
    lemma_lookup_found(before, id);
    let i = choose|i: int| bound_at(before, id, i);
    lemma_lookup_at(before, i);
    lemma_lookup_at(after, i);
    i
}

/// The transfers of a process are cancelled with it: those that are not over, and no other.
pub proof fn transfers_end_with_their_process(
    s: InterchangeRegistryModel,
    tenant: Seq<char>,
    project: Seq<char>,
    process: Seq<char>,
    now: u64,
    id: Seq<char>,
)
    requires
        ascending(s.transfers),
        lookup(s.transfers, id) is Some,
    ensures
        ({
            let t = lookup(s.transfers, id)->Some_0;
            let theirs = t.record.tenant@ == tenant && t.record.project@ == project
                && t.record.process@ == process;
            &&& lookup(
                process_cancelled(s, tenant, project, process, now).transfers,
                id,
            ) matches Some(u)
            &&& theirs && !is_over(t) ==> u.record.state == ArtifactTransferState::Cancelled
                && u.record.failure_code == Some(ArtifactTransferErrorCode::TransferCancelled)
                && u.record.updated_at == now && u.record.bytes_completed == t.record.bytes_completed
            &&& !theirs || is_over(t) ==> u == t
        }),
{
    let after = process_cancelled(s, tenant, project, process, now).transfers;
    let _i = lemma_at_same_place(s.transfers, after, id);
}

/// The transfers of a node end with it. Where the node was lost, they fail, and say which end was lost; where
/// it drained, they are cancelled. Those that are over, or of other nodes, stay.
pub proof fn transfers_end_with_their_node(
    s: InterchangeRegistryModel,
    scope: ScopeText,
    now: u64,
    id: Seq<char>,
)
    requires
        ascending(s.transfers),
        lookup(s.transfers, id) is Some,
    ensures
        ({
            let t = lookup(s.transfers, id)->Some_0;
            let theirs = t.record.tenant@ == scope.0 && t.record.project@ == scope.1 && (
            t.record.source_node@ == scope.2 || t.record.destination_node@ == scope.2);
            &&& lookup(node_failed(s, scope, now).transfers, id) matches Some(lost)
            &&& lookup(node_drained(s, scope, now).transfers, id) matches Some(left)
            &&& theirs && !is_over(t) ==> {
                &&& lost.record.state == ArtifactTransferState::Failed
                &&& t.record.source_node@ == scope.2 ==> lost.record.failure_code == Some(
                    ArtifactTransferErrorCode::SourceNodeOffline,
                )
                &&& t.record.source_node@ != scope.2 ==> lost.record.failure_code == Some(
                    ArtifactTransferErrorCode::DestinationNodeOffline,
                )
                &&& left.record.state == ArtifactTransferState::Cancelled
                &&& left.record.failure_code == Some(ArtifactTransferErrorCode::TransferCancelled)
                &&& lost.record.updated_at == now && left.record.updated_at == now
            }
            &&& !theirs || is_over(t) ==> lost == t && left == t
        }),
{
    let _i = lemma_at_same_place(s.transfers, node_failed(s, scope, now).transfers, id);
    let _j = lemma_at_same_place(s.transfers, node_drained(s, scope, now).transfers, id);
}

/// One who asks again for an artifact that is on its way is given the transfer that is under way, for the same
/// process, artifact and destination. Its ticket is renewed; its lease only while it waits to begin, and never
/// past what a transfer may take.
pub proof fn asking_again_renews_the_transfer(
    before: InterchangeRegistryModel,
    after: InterchangeRegistryModel,
    request: (Seq<char>, Seq<char>, Seq<char>, Seq<char>, Seq<char>),
    now: u64,
    terms: LeaseTerms,
    r: Option<(ArtifactTransferAuthorization, ArtifactTransferRecord)>,
)
    requires
        ascending(before.transfers),
        transfer_renewed(before, after, request, now, terms, r),
        now + terms.active_lease_ttl_seconds < u64::MAX,
        now + terms.transfer_ticket_ttl_seconds < u64::MAX,
    ensures
        r matches Some((given, record)) ==> exists|i: int|
            0 <= i < before.transfers.len() && {
                let t = (#[trigger] before.transfers[i]).1;
                let waits = t.record.state == ArtifactTransferState::Requested || t.record.state
                    == ArtifactTransferState::SourceSelected || t.record.state
                    == ArtifactTransferState::Connecting || t.record.state
                    == ArtifactTransferState::WaitingForDirect || t.record.state
                    == ArtifactTransferState::Retrying;
                &&& t.record.tenant@ == request.0 && t.record.project@ == request.1
                &&& t.record.process@ == request.2 && t.record.artifact@ == request.3
                &&& t.record.destination_node@ == request.4
                &&& !is_over(t) && now <= t.record.expires_at
                &&& lookup(after.transfers, before.transfers[i].0) matches Some(u)
                &&& u.record == record && given@ == u.destination_authorization
                &&& record.state == t.record.state && record.bytes_completed == t.record.bytes_completed
                &&& record.stream_ticket_expires_at <= now + terms.transfer_ticket_ttl_seconds
                &&& record.stream_ticket_expires_at == given@.lease.expires_at
                &&& u.provider_authorization.lease.expires_at == given@.lease.expires_at
                &&& waits ==> record.last_progress_at == now && record.expires_at <= now
                    + terms.active_lease_ttl_seconds && (terms.absolute_transfer_max_seconds matches Some(
                    most,
                ) ==> record.expires_at <= t.record.created_at + most)
                &&& waits && terms.absolute_transfer_max_seconds is None ==> record.expires_at == now
                    + terms.active_lease_ttl_seconds && record.stream_ticket_expires_at == (
                if terms.transfer_ticket_ttl_seconds <= terms.active_lease_ttl_seconds {
                    now + terms.transfer_ticket_ttl_seconds
                } else {
                    now + terms.active_lease_ttl_seconds
                })
                &&& waits ==> given@.lease.active_lease_expires_at == record.expires_at
                &&& !waits ==> record.expires_at == t.record.expires_at && record.last_progress_at
                    == t.record.last_progress_at
            },
        r is None ==> after == before && forall|i: int|
            0 <= i < before.transfers.len() ==> {
                let t = (#[trigger] before.transfers[i]).1;
                is_over(t) || t.record.expires_at < now || t.record.tenant@ != request.0
                    || t.record.project@ != request.1 || t.record.process@ != request.2
                    || t.record.artifact@ != request.3 || t.record.destination_node@ != request.4
            },
{
    broadcast use lemma_lookup_put;

    let p = |e: (Seq<char>, InterchangeTransferModel)|
        runs(e.1, now) && same_request(
            e.1,
            request.0,
            request.1,
            request.2,
            request.3,
            request.4,
        );
    if r is Some {
        let i = choose|i: int| #[trigger]
            renewal(before, after, request, now, terms, i) && r->Some_0.0@
                == renewed(
                before.transfers[i].1,
                now,
                terms,
            ).destination_authorization && r->Some_0.1 == renewed(
                before.transfers[i].1,
                now,
                terms,
            ).record;
        assert(p(before.transfers[i]));
        lemma_lookup_at(before.transfers, i);
        assert(0 <= i < before.transfers.len());
        let t = before.transfers[i].1;
        assert(!is_over(t));
    } else {
        assert forall|i: int| 0 <= i < before.transfers.len() implies !p(
            #[trigger] before.transfers[i],
        ) by {
            if p(before.transfers[i]) {
                assert(holds_of_some(before.transfers, p));
            }
        }
        assert forall|i: int| 0 <= i < before.transfers.len() implies ({
            let t = (#[trigger] before.transfers[i]).1;
            is_over(t) || t.record.expires_at < now || t.record.tenant@ != request.0
                || t.record.project@ != request.1 || t.record.process@ != request.2
                || t.record.artifact@ != request.3 || t.record.destination_node@ != request.4
        }) by {
            assert(!p(before.transfers[i]));
        }
    }
}

/// A relay serves an endpoint only where relays are configured, the endpoint is one of a node that is enrolled,
/// live, and takes part in a transfer that is under way.
pub proof fn relays_serve_nodes_of_transfers(
    s: CoordinatorServiceModel,
    endpoint: Seq<char>,
    now: u64,
)
    ensures
        relay_scope(s, endpoint, now) is Some <==> {
            &&& lookup(s.nodes.bindings, endpoint) matches Some(scope)
            &&& s.interchange_configuration.relay is Custom
            &&& lookup(s.coordinator.durable.node_identities, scope) is Some
            &&& lookup(s.nodes.last_seen_epoch_seconds, scope) matches Some(at)
            &&& now <= at + s.node_stale_after_seconds
            &&& exists|i: int|
                0 <= i < s.interchange.transfers.len() && {
                    let t = (#[trigger] s.interchange.transfers[i]).1;
                    &&& !is_over(t) && now <= t.record.expires_at
                    &&& t.record.tenant@ == scope.0 && t.record.project@ == scope.1
                    &&& t.record.source_node@ == scope.2 || t.record.destination_node@ == scope.2
                }
        },
        relay_scope(s, endpoint, now) matches Some(scope) ==> lookup(s.nodes.bindings, endpoint)
            == Some(scope),
{
    if lookup(s.nodes.bindings, endpoint) is Some {
        let scope = lookup(s.nodes.bindings, endpoint)->Some_0;
        let p = |e: (Seq<char>, InterchangeTransferModel)| runs(e.1, now) && takes_part(e.1, scope);
        assert forall|i: int| 0 <= i < s.interchange.transfers.len() implies p(
            #[trigger] s.interchange.transfers[i],
        ) == ({
            let t = s.interchange.transfers[i].1;
            &&& !is_over(t) && now <= t.record.expires_at
            &&& t.record.tenant@ == scope.0 && t.record.project@ == scope.1
            &&& t.record.source_node@ == scope.2 || t.record.destination_node@ == scope.2
        }) by {}
        if holds_of_some(s.interchange.transfers, p) {
            let i = choose|i: int|
                0 <= i < s.interchange.transfers.len() && p(#[trigger] s.interchange.transfers[i]);
            assert(p(s.interchange.transfers[i]));
        }
        if exists|i: int|
            0 <= i < s.interchange.transfers.len() && p(#[trigger] s.interchange.transfers[i]) {
            assert(holds_of_some(s.interchange.transfers, p));
        }
    }
}

/// An endpoint is taken only from the node that it names, under the present policy, and for no longer than that
/// allows.
pub proof fn endpoints_are_told_by_their_own_node(
    s: CoordinatorServiceModel,
    scope: ScopeText,
    a: IrohEndpointAdvertisementModel,
    bounds: Result<(), String>,
    now: u64,
    r: Result<AdvertisementAccepted, CoordinatorServiceError>,
)
    requires
        advertisement_answer(s, scope, a, bounds, now, r),
    ensures
        r matches Ok(accepted) ==> {
            &&& bounds is Ok
            &&& a.tenant@ == scope.0 && a.project@ == scope.1 && a.node@ == scope.2
            &&& a.relay_configuration_generation == s.interchange_configuration.generation
            &&& now < a.expires_at
            &&& a.expires_at <= now
                + s.interchange_configuration.endpoint_advertisement_ttl_seconds + 5
            &&& lookup(s.nodes.bindings, a.endpoint_id@) matches Some(owner) ==> owner == scope
            &&& lookup(s.nodes.advertisements, scope) matches Some(known) ==> known.endpoint_id@
                == a.endpoint_id@ && known.generation <= a.generation
            &&& accepted.endpoint_id@ == a.endpoint_id@ && accepted.generation == a.generation
                && accepted.expires_at == a.expires_at
            &&& s.interchange_configuration.relay is Disabled ==> a.relay_urls.len() == 0
        },
{
    if r is Ok && s.interchange_configuration.relay is Disabled && a.relay_urls.len() > 0 {
        assert(relay_configured(
            s.interchange_configuration.relay,
            a.relay_urls[0],
        ));
    }
}

/// A policy is taken only within bounds: on the hosted service artifacts go directly and a relay assists; on one
/// that is offline there is none; and nothing falls back on a relay where there is none.
pub proof fn policies_fit_where_they_apply(
    c: CoordinatorArtifactInterchangeConfigurationModel,
    limits: RelayLimits,
)
    requires
        configuration_refusal(c, limits) is None,
    ensures
        c.generation > 0,
        0 < c.endpoint_advertisement_ttl_seconds <= 600,
        0 < c.transfer_lease_ttl_seconds <= 900,
        c.direct_path_grace_period_ms <= c.direct_path_deadline_ms,
        c.absolute_transfer_max_seconds matches Some(most) ==> c.active_transfer_lease_ttl_seconds <= most,
        c.deployment_mode
            == ClusterfluxDeploymentMode::HostedPublic ==> {
            &&& c.artifact_relay_policy
                == ArtifactRelayPolicy::DirectRequired
            &&& c.relay is Custom
        },
        c.deployment_mode
            == ClusterfluxDeploymentMode::LocalOffline
            ==> c.relay is Disabled,
        c.artifact_relay_policy
            == ArtifactRelayPolicy::RelayFallbackAllowed
            ==> c.relay is Custom,
        c.relay matches IrohRelayConfigurationModel::Custom(relays) ==> 1 <= relays.len()
            <= limits.max_endpoint_relay_urls,
        policy_of(c).relay == c.relay,
        policy_of(c).generation == c.generation,
        policy_of(c).artifact_relay_policy == c.artifact_relay_policy,
        policy_of(c).direct_path_deadline_ms == c.direct_path_deadline_ms,
        policy_of(c).endpoint_advertisement_ttl_seconds == c.endpoint_advertisement_ttl_seconds,
{
}

} // verus!
