//! Why artifacts are kept: each hold stands until what it is for has ended, and no longer.
use vstd::prelude::*;

use crate::artifact_registry::{ArtifactHoldModel, ArtifactHoldReasonModel, ArtifactRegistryModel, ArtifactUnavailable, DownloadLink, StorageLocation, consumed_by, has_reason, held, hold_added, kept_in_scope, of_process, other_holds, released, without_hold};
use crate::artifacts::{ArtifactExport, ArtifactHandle, ArtifactReleased, artifact_exported, artifact_released, link_asked, process_hold, source_refusal};
use crate::configuration::clamped_ttl;
use crate::coordinator::Authorization;
use crate::duplicate::views;
use crate::ids::{ArtifactId, AuthContext, Digest, NodeScopeKey, ScopeText};
use crate::interchange::TransferTokens;
use crate::keys::ProcessText;
use crate::ordered_map::{ascending, bound_at, lemma_lookup_at, lemma_lookup_delete, lemma_lookup_filter, lemma_lookup_found, lemma_lookup_put, lemma_same_keys, lookup};
use crate::service::CoordinatorServiceModel;
use crate::service_error::CoordinatorServiceError;
use crate::transfer::TransferRules;

verus! {

/// Something is held for a reason.
pub open spec fn is_held_for(holds: Seq<ArtifactHoldModel>, reason: ArtifactHoldReasonModel) -> bool {
    exists|i: int| 0 <= i < holds.len() && (#[trigger] holds[i]).reason == reason
}

proof fn lemma_held_for(holds: Seq<ArtifactHoldModel>, reason: ArtifactHoldReasonModel)
    ensures
        has_reason(holds, reason) == is_held_for(holds, reason),
{
    let p = |h: ArtifactHoldModel| h.reason == reason;
    if has_reason(holds, reason) {
        let i = choose|i: int| 0 <= i < holds.len() && p(#[trigger] holds[i]);
        assert(holds[i].reason == reason);
    }
    if is_held_for(holds, reason) {
        let i = choose|i: int| 0 <= i < holds.len() && (#[trigger] holds[i]).reason == reason;
        assert(p(holds[i]));
    }
}

/// A hold is added once: where the artifact is known, it is held for the reason from then on. Whoever adds it
/// learns whether it is new. The holds that there were stay, and so do those of other artifacts.
pub proof fn holds_are_added_once(
    before: ArtifactRegistryModel,
    after: ArtifactRegistryModel,
    key: ScopeText,
    reason: ArtifactHoldReasonModel,
    at: u64,
    r: Result<bool, ArtifactUnavailable>,
    hold: ArtifactHoldModel,
    other: ScopeText,
)
    requires
        ascending(before.holds),
        hold_added(before, after, key, reason, at, r),
    ensures
        r is Ok <==> lookup(before.artifacts, key) is Some,
        r is Err ==> after == before,
        r matches Ok(new) ==> {
            &&& is_held_for(held(after.holds, key), reason)
            &&& new <==> !is_held_for(held(before.holds, key), reason)
            &&& !new ==> after == before
            &&& new ==> held(after.holds, key).len() == held(before.holds, key).len() + 1
            &&& new ==> held(after.holds, key).last().created_at_epoch_seconds == at
        },
        held(before.holds, key).contains(hold) ==> held(after.holds, key).contains(hold),
        other != key ==> held(after.holds, other) == held(before.holds, other),
{
    broadcast use lemma_lookup_put;

    let list = held(before.holds, key);
    let next = held(after.holds, key);
    lemma_held_for(list, reason);
    if r is Ok {
        if has_reason(list, reason) {
        } else {
            assert(next == list.push(
                ArtifactHoldModel { reason, created_at_epoch_seconds: at },
            ));
            assert(next[list.len() as int].reason == reason);
            if list.contains(hold) {
                let i = choose|i: int| 0 <= i < list.len() && list[i] == hold;
                assert(next[i] == hold);
            }
        }
    }
}

/// What is kept of a list is what it holds that passes.
pub broadcast proof fn lemma_kept<A>(s: Seq<A>, p: spec_fn(A) -> bool, x: A)
    ensures
        #[trigger] s.filter(p).contains(x) <==> s.contains(x) && p(x),
{
    broadcast use vstd::seq_lib::group_filter_ensures;

    if s.filter(p).contains(x) {
        s.lemma_filter_contains_rev(p, x);
        let i = choose|i: int| 0 <= i < s.filter(p).len() && s.filter(p)[i] == x;
        s.lemma_filter_pred(p, i);
    }
    if s.contains(x) && p(x) {
        let i = choose|i: int| 0 <= i < s.len() && s[i] == x;
        s.lemma_filter_contains(p, i);
    }
}

/// Of an artifact that is let go, no hold for the reason is left, and every other hold is.
pub proof fn letting_go_ends_one_reason(
    holds: Seq<(ScopeText, Seq<ArtifactHoldModel>)>,
    key: ScopeText,
    reason: ArtifactHoldReasonModel,
    hold: ArtifactHoldModel,
    other: ScopeText,
)
    requires
        ascending(holds),
    ensures
        held(without_hold(holds, key, reason), key).contains(hold) <==> held(holds, key).contains(hold)
            && hold.reason != reason,
        other != key ==> held(without_hold(holds, key, reason), other) == held(holds, other),
{
    broadcast use lemma_lookup_put, lemma_lookup_delete;

    let p = |h: ArtifactHoldModel| h.reason != reason;
    match lookup(holds, key) {
        None => {},
        Some(list) => {
            lemma_kept(list, p, hold);
            assert(other_holds(list, reason) == list.filter(p));
        },
    }
}

/// What is released in a project are the holds whose reason is gone, of every artifact there; every other hold
/// stays, and so do those of other projects.
pub proof fn releasing_ends_what_is_gone(
    holds: Seq<(ScopeText, Seq<ArtifactHoldModel>)>,
    tenant: Seq<char>,
    project: Seq<char>,
    gone: spec_fn(ArtifactHoldReasonModel) -> bool,
    key: ScopeText,
    hold: ArtifactHoldModel,
)
    requires
        ascending(holds),
    ensures
        held(released(holds, tenant, project, gone), key).contains(hold) <==> held(holds, key).contains(
            hold,
        ) && !(key.0 == tenant && key.1 == project && gone(hold.reason)),
{
    let f = |e: (ScopeText, Seq<ArtifactHoldModel>)|
        (e.0, kept_in_scope(e, tenant, project, gone));
    let p = |e: (ScopeText, Seq<ArtifactHoldModel>)| e.1.len() > 0;
    let mapped = holds.map_values(f);
    assert forall|i: int| 0 <= i < holds.len() implies (#[trigger] mapped[i]).0 == holds[i].0 by {}
    lemma_same_keys(holds, mapped);
    lemma_lookup_filter(mapped, p, key);
    assert(released(holds, tenant, project, gone) == mapped.filter(p));
    lemma_lookup_found(holds, key);
    lemma_lookup_found(mapped, key);
    if lookup(holds, key) is Some {
        let i = choose|i: int| bound_at(holds, key, i);
        lemma_lookup_at(holds, i);
        lemma_lookup_at(mapped, i);
        let q = |h: ArtifactHoldModel| !gone(h.reason);
        lemma_kept(holds[i].1, q, hold);
    } else if lookup(mapped, key) is Some {
        let i = choose|i: int| bound_at(mapped, key, i);
        lemma_lookup_at(holds, i);
    }
}

/// The holds that end with a task are those for which it consumes the artifact; those that end with a process
/// are the ones of the process itself, of its tasks and of its checkpoints.
pub proof fn holds_end_with_what_they_are_for(
    reason: ArtifactHoldReasonModel,
    process: Seq<char>,
    task: Seq<char>,
)
    ensures
        consumed_by(process, task)(reason) <==> reason == (ArtifactHoldReasonModel::ConsumerTask {
            process,
            task,
        }),
        of_process(reason, process) <==> reason == (ArtifactHoldReasonModel::ProcessRetention { process })
            || (reason matches ArtifactHoldReasonModel::ConsumerTask { process: of, task: t } && of
            == process) || (reason matches ArtifactHoldReasonModel::RestartCheckpoint {
            process: of,
            task: t,
        } && of == process),
{
}

pub proof fn lemma_fewer_left(holds: Seq<ArtifactHoldModel>, reason: ArtifactHoldReasonModel)
    ensures
        other_holds(holds, reason).len() <= holds.len(),
        other_holds(holds, reason).len() < holds.len() <==> is_held_for(holds, reason),
    decreases holds.len(),
{
    let p = |h: ArtifactHoldModel| h.reason != reason;
    if holds.len() > 0 {
        let rest = holds.drop_last();
        lemma_fewer_left(rest, reason);
        assert(rest.push(holds.last()) =~= holds);
        rest.lemma_filter_len_push(p, holds.last());
        assert(other_holds(holds, reason) == holds.filter(p));
        assert(other_holds(rest, reason) == rest.filter(p));
        if is_held_for(rest, reason) {
            let i = choose|i: int| 0 <= i < rest.len() && (#[trigger] rest[i]).reason == reason;
            assert(holds[i].reason == reason);
        }
        if is_held_for(holds, reason) && holds.last().reason != reason {
            let i = choose|i: int| 0 <= i < holds.len() && (#[trigger] holds[i]).reason == reason;
            assert(rest[i].reason == reason);
        }
        if holds.last().reason == reason {
            assert(holds[holds.len() - 1].reason == reason);
        }
    } else {
        assert(holds =~= Seq::empty());
        assert(holds.filter(p).len() <= holds.len()) by {
            holds.lemma_filter_len(p);
        }
    }
}

/// A process lets go only of an artifact of its own, that is what it says. It then no longer holds it; whatever
/// else holds it still does, and is told.
pub proof fn processes_let_go_of_their_own(
    before: CoordinatorServiceModel,
    after: CoordinatorServiceModel,
    key: ProcessText,
    handle: ArtifactHandle,
    r: Result<ArtifactReleased, CoordinatorServiceError>,
    hold: ArtifactHoldModel,
    other: ScopeText,
)
    requires
        ascending(before.artifacts.holds),
        artifact_released(before, after, key, handle, r),
    ensures
        ({
            let scope = (key.0, key.1, handle.id@);
            let own = ArtifactHoldReasonModel::ProcessRetention { process: key.2 };
            &&& r is Ok <==> (lookup(before.artifacts.artifacts, scope) matches Some(metadata)
                && metadata.process@ == key.2 && metadata.digest@ == handle.digest@ && metadata.size
                == handle.size_bytes)
            &&& r is Err ==> after == before
            &&& r matches Ok(told) ==> {
                &&& held(after.artifacts.holds, scope).contains(hold) <==> held(
                    before.artifacts.holds,
                    scope,
                ).contains(hold) && hold.reason != own
                &&& views(told.remaining_holds@) == held(after.artifacts.holds, scope)
                &&& told.hold_removed <==> is_held_for(held(before.artifacts.holds, scope), own)
                &&& other != scope ==> held(after.artifacts.holds, other) == held(
                    before.artifacts.holds,
                    other,
                )
                &&& after.artifacts.artifacts == before.artifacts.artifacts
            }
        }),
{
    letting_go_ends_one_reason(
        before.artifacts.holds,
        (key.0, key.1, handle.id@),
        process_hold(key.2),
        hold,
        other,
    );
    lemma_fewer_left(held(before.artifacts.holds, (key.0, key.1, handle.id@)), process_hold(key.2));
}

/// An artifact is fetched from a store at any time, and from a node only where that has reported and was seen
/// lately.
pub proof fn sources_that_can_be_reached(
    s: CoordinatorServiceModel,
    tenant: Seq<char>,
    project: Seq<char>,
    source: StorageLocation,
    now: u64,
)
    ensures
        source is ExplicitStore ==> source_refusal(s, tenant, project, source, now) is None,
        source matches StorageLocation::RetainedNode(node) ==> (source_refusal(
            s,
            tenant,
            project,
            source,
            now,
        ) is None <==> lookup(s.nodes.descriptors, (tenant, project, node@)) is Some && (lookup(
            s.nodes.last_seen_epoch_seconds,
            (tenant, project, node@),
        ) matches Some(at) && now <= at + s.node_stale_after_seconds)),
{
}

/// A link is given only for an artifact that the one who asks may fetch and that can be reached, and lasts as
/// long as was asked, but a second at least and no longer than it may.
pub proof fn links_are_given_for_what_can_be_reached(
    before: CoordinatorServiceModel,
    after: CoordinatorServiceModel,
    context: AuthContext,
    authz: Authorization,
    artifact: Seq<char>,
    max_bytes: u64,
    asked: u64,
    most: u64,
    digests: (Digest, Digest),
    now: u64,
    r: Result<DownloadLink, CoordinatorServiceError>,
)
    requires
        1 <= most,
        now + most <= u64::MAX,
        link_asked(
            before,
            after,
            context,
            authz,
            artifact,
            max_bytes,
            clamped_ttl(asked, most),
            digests,
            now,
            r,
        ),
    ensures
        r matches Ok(link) ==> {
            &&& lookup(
                before.artifacts.artifacts,
                (context.tenant@, context.project@, artifact),
            ) matches Some(metadata)
            &&& authz.allowed && metadata.size <= max_bytes
            &&& link.artifact_digest@ == metadata.digest@ && link.actor == context.actor
            &&& now + 1 <= link.expires_at_epoch_seconds <= now + most
            &&& 1 <= asked <= most ==> link.expires_at_epoch_seconds == now + asked
        },
        !authz.allowed ==> r is Err && after == before,
{
}

/// An artifact is exported only to one who may fetch it. A node that has it already is told so, and nothing
/// changes; one that nobody has cannot be exported.
pub proof fn artifacts_are_exported_to_those_who_lack_them(
    before: CoordinatorServiceModel,
    after: CoordinatorServiceModel,
    context: AuthContext,
    authz: Authorization,
    artifact: ArtifactId,
    receiver: NodeScopeKey,
    label: Seq<char>,
    cancelled: bool,
    rules: TransferRules,
    tokens: TransferTokens,
    secret: Result<[u8; 32], String>,
    now: u64,
    r: Result<ArtifactExport, CoordinatorServiceError>,
)
    requires
        artifact_exported(
            before,
            after,
            context,
            authz,
            artifact,
            receiver,
            label,
            cancelled,
            rules,
            tokens,
            secret,
            now,
            r,
        ),
    ensures
        ({
            let known = lookup(
                before.artifacts.artifacts,
                (context.tenant@, context.project@, artifact@),
            );
            &&& known is None || !authz.allowed ==> r is Err && after == before
            &&& (known matches Some(metadata) && metadata.retaining_nodes
                == Set::<Seq<char>>::empty()) ==> r is Err && after == before
            &&& (known matches Some(metadata) && metadata.retaining_nodes.contains(receiver.node@)
                && authz.allowed) ==> after == before && (r matches Ok(export)
                && export.already_present && export.transfer is None)
            &&& r matches Ok(export) ==> {
                &&& export.artifact_size_bytes == known->Some_0.size
                &&& export.already_present <==> export.transfer is None
            }
        }),
{
}

} // verus!
