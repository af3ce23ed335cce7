//! What is known of nodes: who is live, who takes work, who may enroll, and where each can be reached.
use vstd::prelude::*;

use crate::coordinator::EnrollmentGrant;
use crate::ids::{NodeId, ScopeText};
use crate::node_registry::{EndpointAdvertisementError, IrohEndpointAdvertisementModel, NodeLifecycleState, NodeRegistryModel, SourceSnapshotAdmissionError, advertisement_taken, drain_begun, endpoints_agree, expired, expiry_drops_exactly_the_lapsed, grant_exchanged, grants_pruned, live, node_released, node_removed, node_seen, snapshot_recorded, takes_work};
use crate::ordered_map::{ascending, lemma_lookup_delete, lemma_lookup_filter, lemma_lookup_put, lookup};

verus! {

/// A node that is seen is live from then on for as long as the limit allows, and no longer; whether another
/// node is live stays as it was. It is online, where it is known, and one that was released for good takes no
/// work again, while one that was not ephemeral does.
pub proof fn a_node_that_is_seen_is_live(
    s: NodeRegistryModel,
    scope: ScopeText,
    at: u64,
    now: u64,
    stale_after: u64,
    other: ScopeText,
)
    requires
        ascending(s.last_seen_epoch_seconds),
        ascending(s.descriptors),
        ascending(s.drain_statuses),
    ensures
        ({
            let after = node_seen(s, scope, at);
            &&& live(after, scope, now, stale_after) <==> now - at <= stale_after
            &&& other != scope ==> live(after, other, now, stale_after) == live(
                s,
                other,
                now,
                stale_after,
            )
            &&& lookup(after.descriptors, scope) is Some <==> lookup(s.descriptors, scope) is Some
            &&& lookup(after.descriptors, scope) matches Some(d) ==> d.online
            &&& other != scope ==> lookup(after.descriptors, other) == lookup(s.descriptors, other)
            &&& (lookup(s.drain_statuses, scope) matches Some(status) && status.state
                == NodeLifecycleState::Released && !status.ephemeral) ==> takes_work(after, scope)
            &&& (lookup(s.drain_statuses, scope) matches Some(status) && (status.state
                != NodeLifecycleState::Released || status.ephemeral)) ==> takes_work(after, scope)
                == takes_work(s, scope)
            &&& after.advertisements == s.advertisements && after.enrollment_grants
                == s.enrollment_grants
        }),
{
    broadcast use lemma_lookup_put, lemma_lookup_delete;

}

/// A node that was never seen is not live, however long the limit.
pub proof fn a_node_that_was_never_seen_is_not_live(
    s: NodeRegistryModel,
    scope: ScopeText,
    now: u64,
    stale_after: u64,
    longer: u64,
    later: u64,
)
    requires
        stale_after <= longer,
        now <= later,
    ensures
        lookup(s.last_seen_epoch_seconds, scope) is None ==> !live(s, scope, now, stale_after),
        live(s, scope, now, stale_after) ==> live(s, scope, now, longer),
        live(s, scope, later, stale_after) ==> live(s, scope, now, stale_after),
{
}

/// A node that is to drain takes no more work, and every other node takes work as before. What a request
/// leaves open stays as an earlier one said, and a node that drains does not go back.
pub proof fn a_draining_node_takes_no_work(
    s: NodeRegistryModel,
    scope: ScopeText,
    node: NodeId,
    ephemeral: bool,
    provider_deadline: Option<u64>,
    soft_deadline: Option<u64>,
    hard_deadline: Option<u64>,
    other: ScopeText,
)
    requires
        ascending(s.drain_statuses),
    ensures
        ({
            let after = drain_begun(
                s,
                scope,
                node,
                ephemeral,
                provider_deadline,
                soft_deadline,
                hard_deadline,
            );
            &&& !takes_work(after, scope)
            &&& other != scope ==> takes_work(after, other) == takes_work(s, other)
            &&& lookup(after.drain_statuses, scope) matches Some(status)
            &&& status.state != NodeLifecycleState::Active
            &&& hard_deadline is Some ==> status.hard_drain_deadline_epoch_seconds == hard_deadline
                && status.provider_deadline_epoch_seconds == hard_deadline
            &&& hard_deadline is None && provider_deadline is Some ==> {
                &&& status.hard_drain_deadline_epoch_seconds == provider_deadline
                &&& status.provider_deadline_epoch_seconds == provider_deadline
            }
            &&& soft_deadline is Some ==> status.soft_drain_deadline_epoch_seconds == soft_deadline
            &&& ephemeral ==> status.ephemeral
            &&& lookup(s.drain_statuses, scope) matches Some(earlier) ==> {
                &&& earlier.state != NodeLifecycleState::Active ==> status.state == earlier.state
                &&& earlier.state == NodeLifecycleState::Active ==> status.state
                    == NodeLifecycleState::Draining
                &&& status.ephemeral <==> earlier.ephemeral || ephemeral
                &&& status.node == earlier.node
                &&& soft_deadline is None ==> status.soft_drain_deadline_epoch_seconds
                    == earlier.soft_drain_deadline_epoch_seconds
                &&& hard_deadline is None && provider_deadline is None ==> {
                    &&& status.hard_drain_deadline_epoch_seconds
                        == earlier.hard_drain_deadline_epoch_seconds
                    &&& status.provider_deadline_epoch_seconds
                        == earlier.provider_deadline_epoch_seconds
                }
            }
            &&& lookup(s.drain_statuses, scope) is None ==> status.state
                == NodeLifecycleState::Draining && status.node == node && status.ephemeral == ephemeral
            &&& after.descriptors == s.descriptors && after.last_seen_epoch_seconds
                == s.last_seen_epoch_seconds
        }),
{
    broadcast use lemma_lookup_put;

}

/// A node that is released is offline, has no artifact and cannot be reached. One that is removed is not known
/// at all. Every other node stays as it is.
pub proof fn a_node_that_goes_cannot_be_reached(
    s: NodeRegistryModel,
    scope: ScopeText,
    artifact: Seq<char>,
    now: u64,
    stale_after: u64,
    other: ScopeText,
)
    requires
        ascending(s.descriptors),
        ascending(s.drain_statuses),
        ascending(s.last_seen_epoch_seconds),
        ascending(s.advertisements),
    ensures
        ({
            let released = node_released(s, scope);
            let removed = node_removed(s, scope);
            &&& lookup(released.advertisements, scope) is None
            &&& lookup(released.descriptors, scope) matches Some(d) ==> !d.online
                && !d.artifact_locations.contains(artifact)
            &&& lookup(released.descriptors, scope) is Some <==> lookup(s.descriptors, scope) is Some
            &&& released.drain_statuses == s.drain_statuses
            &&& lookup(removed.descriptors, scope) is None
            &&& lookup(removed.drain_statuses, scope) is None
            &&& lookup(removed.advertisements, scope) is None
            &&& !live(removed, scope, now, stale_after)
            &&& other != scope ==> {
                &&& lookup(released.descriptors, other) == lookup(s.descriptors, other)
                &&& lookup(released.advertisements, other) == lookup(s.advertisements, other)
                &&& lookup(removed.descriptors, other) == lookup(s.descriptors, other)
                &&& lookup(removed.drain_statuses, other) == lookup(s.drain_statuses, other)
                &&& lookup(removed.advertisements, other) == lookup(s.advertisements, other)
                &&& live(removed, other, now, stale_after) == live(s, other, now, stale_after)
            }
        }),
{
    broadcast use lemma_lookup_put, lemma_lookup_delete;

}

/// A grant that was exchanged cannot be exchanged again; one whose exchange failed is kept as it was left. One
/// that is not known gives nothing, and every other grant stays.
pub proof fn grants_are_exchanged_once<T, E>(
    s: NodeRegistryModel,
    after: NodeRegistryModel,
    again: NodeRegistryModel,
    at: ScopeText,
    grant: EnrollmentGrant,
    exchanged: Result<T, E>,
    r: Result<Option<T>, E>,
    second: Result<Option<T>, E>,
    other: ScopeText,
)
    requires
        ascending(s.enrollment_grants),
        grant_exchanged(s, after, at, grant, exchanged, r),
        grant_exchanged(after, again, at, grant, exchanged, second),
    ensures
        lookup(s.enrollment_grants, at) is None ==> r == Ok::<Option<T>, E>(None) && after == s,
        (r matches Ok(Some(value))) <==> lookup(s.enrollment_grants, at) is Some && exchanged is Ok,
        (r matches Ok(Some(value))) ==> lookup(after.enrollment_grants, at) is None && second == Ok::<
            Option<T>,
            E,
        >(None),
        r is Err ==> exchanged is Err && lookup(after.enrollment_grants, at) == Some(grant),
        other != at ==> lookup(after.enrollment_grants, other) == lookup(s.enrollment_grants, other),
{
    broadcast use lemma_lookup_put, lemma_lookup_delete;

}

/// The grants that are kept are exactly those that were not used and have not expired.
pub proof fn used_and_expired_grants_go(s: NodeRegistryModel, now: u64, at: ScopeText)
    requires
        ascending(s.enrollment_grants),
    ensures
        lookup(grants_pruned(s, now).enrollment_grants, at) == (match lookup(
            s.enrollment_grants,
            at,
        ) {
            Some(grant) if !grant.consumed && now <= grant.expires_at_epoch_seconds => Some(grant),
            _ => None,
        }),
{
    let p = |e: (ScopeText, EnrollmentGrant)|
        !e.1.consumed && e.1.expires_at_epoch_seconds >= now;
    lemma_lookup_filter(s.enrollment_grants, p, at);
}

/// An endpoint is of one node, and a node has one endpoint: an advertisement is refused exactly where the
/// endpoint is another node's, the node has another endpoint, or a later one was advertised.
pub proof fn an_endpoint_is_of_one_node(
    s: NodeRegistryModel,
    after: NodeRegistryModel,
    scope: ScopeText,
    advertisement: IrohEndpointAdvertisementModel,
    r: Result<(), EndpointAdvertisementError>,
    other: ScopeText,
)
    requires
        ascending(s.advertisements),
        ascending(s.bindings),
        advertisement_taken(s, after, scope, advertisement, r),
    ensures
        ({
            let endpoint = advertisement.endpoint_id@;
            let taken = lookup(s.bindings, endpoint) matches Some(owner) && owner != scope;
            let changed = lookup(s.advertisements, scope) matches Some(known) && known.endpoint_id@
                != endpoint;
            let stale = lookup(s.advertisements, scope) matches Some(known) && known.generation
                > advertisement.generation;
            &&& r is Err <==> taken || changed || stale
            &&& taken ==> r == Err::<(), EndpointAdvertisementError>(
                EndpointAdvertisementError::BoundToAnotherScope,
            )
            &&& changed && !taken ==> r == Err::<(), EndpointAdvertisementError>(
                EndpointAdvertisementError::IdentityChanged,
            )
            &&& r is Err ==> after == s
            &&& r is Ok ==> lookup(after.advertisements, scope) == Some(advertisement) && lookup(
                after.bindings,
                endpoint,
            ) == Some(scope)
            &&& other != scope ==> lookup(after.advertisements, other) == lookup(
                s.advertisements,
                other,
            )
        }),
{
    broadcast use lemma_lookup_put;

}

/// A node can be reached until its advertisement expires, while it is live, and not after.
pub proof fn endpoints_last_while_their_node_is_live(
    s: NodeRegistryModel,
    now: u64,
    stale_after: u64,
    scope: ScopeText,
)
    requires
        endpoints_agree(s),
    ensures
        lookup(expired(s, now, stale_after).advertisements, scope) is Some <==> (lookup(
            s.advertisements,
            scope,
        ) matches Some(a) && now < a.expires_at && (lookup(
            s.last_seen_epoch_seconds,
            scope,
        ) matches Some(at) && now - at <= stale_after)),
{
    expiry_drops_exactly_the_lapsed(s, now, stale_after);
}

/// What a node says that it has of sources is recorded while there is room for it, and what it has already
/// takes no room.
pub proof fn sources_are_recorded_while_there_is_room(
    s: NodeRegistryModel,
    after: NodeRegistryModel,
    scope: ScopeText,
    snapshot: Seq<char>,
    capacity: usize,
    r: Result<(), SourceSnapshotAdmissionError>,
    other: Seq<char>,
)
    requires
        ascending(s.descriptors),
        snapshot_recorded(s, after, scope, snapshot, capacity, r),
    ensures
        r is Ok <==> (lookup(s.descriptors, scope) matches Some(d) && (d.source_snapshots.contains(
            snapshot,
        ) || d.source_snapshots.len() < capacity)),
        r is Err ==> after == s,
        r is Ok ==> (lookup(after.descriptors, scope) matches Some(d) && (d.source_snapshots.contains(
            other,
        ) <==> other == snapshot || lookup(s.descriptors, scope)->Some_0.source_snapshots.contains(
            other,
        ))),
{
    broadcast use lemma_lookup_put;

}

} // verus!
