//! Where artifacts are kept, for whom, and how they are fetched.
use vstd::prelude::*;

use crate::artifact_registry::{ArtifactFlush, ArtifactHoldModel, ArtifactHoldReasonModel, ArtifactMetadata, ArtifactMetadataModel, ArtifactRegistryModel, ArtifactUnavailable, DOWNLOAD_LINK_TOMBSTONE_SECONDS, DownloadError, DownloadLink, IssuedDownloadLink, StorageLocation, candidate_is_evictable, download_refusal, flush_eviction, flush_scope, has_reason, held, is_source, link_created, link_revoked, location_dropped, location_verified, metadata_flushed, needs_room, node_collected, project_count, remembered, retention_reconciled, stored_explicitly, well_formed, without_artifact};
use crate::coordinator::Authorization;
use crate::ids::{AuthContext, Digest, ScopeText};
use crate::ordered::Ranked;
use crate::ordered_map::{ascending, bound_at, lemma_delete_ascending, lemma_filter_ascending, lemma_lookup_at, lemma_lookup_delete, lemma_lookup_filter, lemma_lookup_found, lemma_lookup_put, lemma_same_keys, lookup};

verus! {

/// An artifact that was flushed is known as it was flushed, on the node that has it, and is held for its
/// process. It is refused only where the project is full and nothing of it may go. Flushes are told apart by a
/// count that grows.
pub proof fn flushed_artifacts_are_known(
    before: ArtifactRegistryModel,
    after: ArtifactRegistryModel,
    flush: ArtifactFlush,
    pinned: Set<ScopeText>,
    protected: Set<Seq<char>>,
    r: Result<ArtifactMetadata, String>,
    node: Seq<char>,
)
    requires
        well_formed(before),
        metadata_flushed(before, after, flush, pinned, protected, r),
    ensures
        ({
            let key = (flush.tenant@, flush.project@, flush.id@);
            &&& r is Err ==> after == before && lookup(before.artifacts, key) is None && project_count(
                before.artifacts,
                flush.tenant@,
                flush.project@,
            ) >= 1024
            &&& lookup(before.artifacts, key) is Some ==> r is Ok
            &&& project_count(before.artifacts, flush.tenant@, flush.project@) < 1024 ==> r is Ok
            &&& r matches Ok(metadata) ==> {
                &&& lookup(after.artifacts, key) == Some(metadata@)
                &&& metadata@.digest@ == flush.digest@ && metadata@.size == flush.size
                &&& metadata@.process@ == flush.process@
                &&& metadata@.producer_task@ == flush.producer_task@
                &&& metadata@.producer_node@ == flush.retaining_node@
                &&& metadata@.retaining_nodes.contains(node) <==> node == flush.retaining_node@
                &&& metadata@.explicit_locations.len() == 0
                &&& !metadata@.coordinator_has_large_bytes
                &&& before.next_epoch < u64::MAX ==> metadata@.flushed_epoch == before.next_epoch + 1
                &&& after.next_epoch == metadata@.flushed_epoch
                &&& exists|i: int|
                    0 <= i < held(after.holds, key).len() && (#[trigger] held(after.holds, key)[i]).reason
                        == (ArtifactHoldReasonModel::ProcessRetention { process: flush.process@ })
            }
            &&& after.issued_download_links == before.issued_download_links
        }),
{
    broadcast use lemma_lookup_put, lemma_lookup_delete;

    let key = flush_scope(flush);
    let reason = ArtifactHoldReasonModel::ProcessRetention { process: flush.process@ };
    if r is Ok {
        let state = if needs_room(before, flush) {
            let all = protected.insert(flush.process@);
            candidate_is_evictable(before, flush.tenant@, flush.project@, pinned, all);
            let gone = flush_eviction(before, flush, pinned, protected)->Some_0;
            lemma_delete_ascending(before.artifacts, gone);
            lemma_delete_ascending(before.holds, gone);
            without_artifact(before, gone)
        } else {
            before
        };
        let list = held(state.holds, key);
        if has_reason(list, reason) {
            let i = choose|i: int|
                0 <= i < list.len() && (|h: ArtifactHoldModel|
                    h.reason == reason)(#[trigger] list[i]);
            assert(held(after.holds, key)[i].reason == reason);
        } else {
            let now = held(after.holds, key);
            assert(now.len() == list.len() + 1);
            assert(now[list.len() as int].reason == reason);
        }
    }
}

/// A node is known to have an artifact only where it has those very bytes; every other artifact, and every
/// other node's, stays.
pub proof fn a_location_is_of_the_same_bytes(
    before: ArtifactRegistryModel,
    after: ArtifactRegistryModel,
    key: ScopeText,
    node: Seq<char>,
    digest: Seq<char>,
    size: u64,
    r: Result<(), ArtifactUnavailable>,
    other: ScopeText,
    elsewhere: Seq<char>,
)
    requires
        ascending(before.artifacts),
        location_verified(before, after, key, node, digest, size, r),
    ensures
        r is Ok <==> (lookup(before.artifacts, key) matches Some(metadata) && metadata.digest@ == digest
            && metadata.size == size),
        r is Err ==> after == before,
        r is Ok ==> (lookup(after.artifacts, key) matches Some(metadata)
            && metadata.retaining_nodes.contains(node) && metadata.digest@ == digest && (elsewhere
            != node ==> metadata.retaining_nodes.contains(elsewhere) == lookup(
            before.artifacts,
            key,
        )->Some_0.retaining_nodes.contains(elsewhere))),
        other != key ==> lookup(after.artifacts, other) == lookup(before.artifacts, other),
        after.holds == before.holds,
{
    broadcast use lemma_lookup_put;

}

/// A node that lost an artifact is no longer known to have it, and is told whether it was.
pub proof fn a_location_that_is_dropped_is_gone(
    before: ArtifactRegistryModel,
    after: ArtifactRegistryModel,
    key: ScopeText,
    node: Seq<char>,
    r: bool,
    other: ScopeText,
    elsewhere: Seq<char>,
)
    requires
        ascending(before.artifacts),
        location_dropped(before, after, key, node, r),
    ensures
        r <==> (lookup(before.artifacts, key) matches Some(metadata)
            && metadata.retaining_nodes.contains(node)),
        lookup(after.artifacts, key) is Some <==> lookup(before.artifacts, key) is Some,
        lookup(after.artifacts, key) matches Some(metadata) ==> !metadata.retaining_nodes.contains(node)
            && (elsewhere != node ==> metadata.retaining_nodes.contains(elsewhere) == lookup(
            before.artifacts,
            key,
        )->Some_0.retaining_nodes.contains(elsewhere)),
        other != key ==> lookup(after.artifacts, other) == lookup(before.artifacts, other),
{
    broadcast use lemma_lookup_put;

}

/// An artifact that was put into a store is known to be there, after those that it was put into before.
pub proof fn stores_are_remembered(
    before: ArtifactRegistryModel,
    after: ArtifactRegistryModel,
    key: ScopeText,
    location: Seq<char>,
    r: Result<(), ArtifactUnavailable>,
    other: ScopeText,
)
    requires
        ascending(before.artifacts),
        stored_explicitly(before, after, key, location, r),
    ensures
        r is Ok <==> lookup(before.artifacts, key) is Some,
        r is Err ==> after == before,
        r is Ok ==> {
            let was = lookup(before.artifacts, key)->Some_0;
            &&& lookup(after.artifacts, key) matches Some(next)
            &&& next.explicit_locations.len() == was.explicit_locations.len() + 1
            &&& next.explicit_locations.last() == location
            &&& forall|i: int|
                0 <= i < was.explicit_locations.len() ==> next.explicit_locations[i]
                    == #[trigger] was.explicit_locations[i]
            &&& next.retaining_nodes == was.retaining_nodes && next.digest == was.digest
        },
        other != key ==> lookup(after.artifacts, other) == lookup(before.artifacts, other),
{
    broadcast use lemma_lookup_put;

}

proof fn lemma_same_place(
    before: Seq<(ScopeText, ArtifactMetadataModel)>,
    after: Seq<(ScopeText, ArtifactMetadataModel)>,
    key: ScopeText,
) -> (i: int)
    requires
        ascending(before),
        after.len() == before.len(),
        forall|i: int| 0 <= i < before.len() ==> (#[trigger] after[i]).0 == before[i].0,
        lookup(before, key) is Some,
    ensures
        0 <= i < before.len(),
        before[i].0 == key,
        lookup(before, key) == Some(before[i].1),
        lookup(after, key) == Some(after[i].1),
{
    lemma_same_keys(before, after);
    lemma_lookup_found(before, key);
    let i = choose|i: int| bound_at(before, key, i);
    lemma_lookup_at(before, i);
    lemma_lookup_at(after, i);
    i
}

/// After a node has said what it has of a project, it is known to have exactly that, of what is known there;
/// what other nodes have, and what there is in other projects, stays. A node that was lost has nothing.
pub proof fn nodes_have_what_they_say(
    s: ArtifactRegistryModel,
    tenant: Seq<char>,
    project: Seq<char>,
    node: Seq<char>,
    retained: Set<Seq<char>>,
    key: ScopeText,
    elsewhere: Seq<char>,
)
    requires
        well_formed(s),
        lookup(s.artifacts, key) is Some,
    ensures
        ({
            let was = lookup(s.artifacts, key)->Some_0;
            let here = key.0 == tenant && key.1 == project;
            &&& lookup(
                retention_reconciled(s, tenant, project, node, retained).artifacts,
                key,
            ) matches Some(told)
            &&& lookup(node_collected(s, tenant, project, node).artifacts, key) matches Some(left)
            &&& here ==> (told.retaining_nodes.contains(node) <==> retained.contains(key.2))
            &&& here ==> !left.retaining_nodes.contains(node)
            &&& here && elsewhere != node ==> {
                &&& told.retaining_nodes.contains(elsewhere) == was.retaining_nodes.contains(elsewhere)
                &&& left.retaining_nodes.contains(elsewhere) == was.retaining_nodes.contains(elsewhere)
            }
            &&& !here ==> told == was && left == was
            &&& told.digest == was.digest && left.digest == was.digest
        }),
{
    let _i = lemma_same_place(
        s.artifacts,
        retention_reconciled(s, tenant, project, node, retained).artifacts,
        key,
    );
    let _j = lemma_same_place(
        s.artifacts,
        node_collected(s, tenant, project, node).artifacts,
        key,
    );
}

/// An artifact can be fetched exactly where it is known, the one who asks may, it is no larger than allowed, and
/// a node or a store has it. It is fetched from the first node that has it, and from a store only where none
/// has.
pub proof fn artifacts_are_fetched_where_they_are(
    s: ArtifactRegistryModel,
    key: ScopeText,
    authz: Authorization,
    max_bytes: u64,
    source: StorageLocation,
    metadata: ArtifactMetadataModel,
    node: Seq<char>,
)
    ensures
        download_refusal(s, key, authz, max_bytes) is None <==> {
            &&& lookup(s.artifacts, key) matches Some(known)
            &&& authz.allowed
            &&& known.size <= max_bytes
            &&& known.retaining_nodes != Set::<Seq<char>>::empty() || known.explicit_locations.len()
                > 0
        },
        lookup(s.artifacts, key) is None ==> download_refusal(s, key, authz, max_bytes) == Some(
            DownloadError::NotFound,
        ),
        (lookup(s.artifacts, key) matches Some(known) && !authz.allowed) ==> download_refusal(
            s,
            key,
            authz,
            max_bytes,
        ) == Some(DownloadError::Unauthorized(authz.reason)),
        is_source(metadata, source) ==> match source {
            StorageLocation::RetainedNode(from) => metadata.retaining_nodes.contains(from@) && (
            metadata.retaining_nodes.contains(node) ==> node == from@ || from@.before(node)),
            StorageLocation::ExplicitStore(location) => !metadata.retaining_nodes.contains(node)
                && location@ == metadata.explicit_locations[0],
        },
{
}

/// A link is given for an artifact that can be fetched by the one who asked, and to them. It lasts as long as
/// was asked, and an artifact has no more than it may. Links that have expired long ago are forgotten, and no
/// other.
pub proof fn links_are_given_to_those_who_may_fetch(
    before: ArtifactRegistryModel,
    after: ArtifactRegistryModel,
    context: AuthContext,
    authz: Authorization,
    artifact: Seq<char>,
    max_bytes: u64,
    policy_context_digest: Digest,
    scoped_token_digest: Digest,
    now: u64,
    ttl: u64,
    r: Result<DownloadLink, DownloadError>,
    token: Seq<char>,
)
    requires
        well_formed(before),
        now + ttl <= u64::MAX,
        link_created(
            before,
            after,
            context,
            authz,
            artifact,
            max_bytes,
            policy_context_digest,
            scoped_token_digest,
            now,
            ttl,
            r,
        ),
    ensures
        ({
            let key = (context.tenant@, context.project@, artifact);
            let long_gone = lookup(before.issued_download_links, token) matches Some(issued)
                && issued.link.expires_at_epoch_seconds
                + DOWNLOAD_LINK_TOMBSTONE_SECONDS < now;
            &&& r matches Ok(link) ==> {
                &&& authz.allowed
                &&& lookup(before.artifacts, key) matches Some(metadata)
                &&& metadata.size <= max_bytes
                &&& link.tenant@ == metadata.tenant@ && link.project@ == metadata.project@
                    && link.artifact@ == metadata.id@ && link.artifact_digest@ == metadata.digest@
                    && link.artifact_size_bytes == metadata.size
                &&& link.process@ == metadata.process@
                &&& link.url_path@ == "/artifacts/"@ + (metadata.tenant@ + "/"@ + metadata.project@
                    + "/"@ + metadata.process@ + "/"@ + metadata.id@)
                &&& link.policy_context_digest@ == policy_context_digest@
                &&& link.actor == context.actor
                &&& link.max_bytes == max_bytes
                &&& link.expires_at_epoch_seconds == now + ttl
                &&& link.scoped_token_digest@ == scoped_token_digest@
                &&& lookup(after.issued_download_links, scoped_token_digest@) == Some(
                    IssuedDownloadLink { link, revoked: false },
                )
            }
            &&& r is Err || token != scoped_token_digest@ ==> lookup(
                after.issued_download_links,
                token,
            ) == (if long_gone {
                None
            } else {
                lookup(before.issued_download_links, token)
            })
            &&& after.artifacts == before.artifacts
        }),
{
    broadcast use lemma_lookup_put;

    let p = |e: (Seq<char>, IssuedDownloadLink)| remembered(e, now);
    lemma_lookup_filter(before.issued_download_links, p, token);
    lemma_filter_ascending(before.issued_download_links, p);
}

/// A link is revoked only by the one whom it was given to, and then is known as revoked. Every other link stays
/// as it is.
pub proof fn links_are_revoked_by_their_owner(
    before: ArtifactRegistryModel,
    after: ArtifactRegistryModel,
    context: AuthContext,
    authz: Authorization,
    artifact: Seq<char>,
    token: Seq<char>,
    r: Result<DownloadLink, DownloadError>,
    other: Seq<char>,
)
    requires
        well_formed(before),
        link_revoked(before, after, context, authz, artifact, token, r),
    ensures
        r is Err ==> after == before,
        r matches Ok(link) ==> {
            &&& lookup(before.issued_download_links, token) matches Some(issued)
            &&& issued.link == link
            &&& link.tenant@ == context.tenant@ && link.project@ == context.project@
                && link.artifact@ == artifact
            &&& link.actor.same(&context.actor)
            &&& authz.allowed
            &&& lookup(after.issued_download_links, token) matches Some(left)
            &&& left.revoked && left.link == link
        },
        other != token ==> lookup(after.issued_download_links, other) == lookup(
            before.issued_download_links,
            other,
        ),
        after.artifacts == before.artifacts,
{
    broadcast use lemma_lookup_put;

}

} // verus!
