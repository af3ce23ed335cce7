//! What the coordinator knows of nodes: capabilities, liveness, draining, enrollment and
//! endpoints.
use vstd::prelude::*;
use vstd::string::*;

use crate::coordinator::EnrollmentGrant;
use crate::duplicate::{Duplicate, TextList, copy_all, views};
use crate::ids::{ArtifactId, Digest, NodeId, NodeScopeKey, ProjectId, ScopeText, TenantId};
use crate::ordered::OrderedKey;
use crate::ordered_map::{OrderedMap, ascending, bound_at, delete, lemma_delete_ascending, lemma_filter_step, lemma_lookup_at, lemma_lookup_delete, lemma_lookup_found, lemma_lookup_put, lemma_put_ascending, lemma_put_delete, lookup, put, values};
use crate::ordered_set::OrderedSet;

verus! {

/// A compiler bundle that a node has installed.
pub struct SystemBundle {
    pub bundle_id: String,
    pub bundle_digest: Digest,
    pub environment_digest: Digest,
    pub sdk_abi_version: u32,
    pub wasm_target: String,
    pub rust_toolchain: String,
    pub max_source_bytes: u64,
    pub max_output_bytes: u64,
}

impl View for SystemBundle {
    type V = SystemBundle;

    open spec fn view(&self) -> SystemBundle {
        *self
    }
}

impl Duplicate for SystemBundle {
    fn duplicate(&self) -> (r: Self) {
        SystemBundle {
            bundle_id: self.bundle_id.clone(),
            bundle_digest: self.bundle_digest.clone(),
            environment_digest: self.environment_digest.clone(),
            sdk_abi_version: self.sdk_abi_version,
            wasm_target: self.wasm_target.clone(),
            rust_toolchain: self.rust_toolchain.clone(),
            max_source_bytes: self.max_source_bytes,
            max_output_bytes: self.max_output_bytes,
        }
    }
}

/// What a node reports that it can do.
pub struct NodeCapabilities {
    pub execution_only: bool,
    pub linux: bool,
    pub arch: String,
    pub container_backend: bool,
    pub rootless_podman: bool,
    pub system_bundles: Vec<SystemBundle>,
}

/// The model of [`NodeCapabilities`].
#[verifier::ext_equal]
pub struct NodeCapabilitiesModel {
    pub execution_only: bool,
    pub linux: bool,
    pub arch: String,
    pub container_backend: bool,
    pub rootless_podman: bool,
    pub system_bundles: Seq<SystemBundle>,
}

impl View for NodeCapabilities {
    type V = NodeCapabilitiesModel;

    open spec fn view(&self) -> NodeCapabilitiesModel {
        NodeCapabilitiesModel {
            execution_only: self.execution_only,
            linux: self.linux,
            arch: self.arch,
            container_backend: self.container_backend,
            rootless_podman: self.rootless_podman,
            system_bundles: views(self.system_bundles@),
        }
    }
}

impl Duplicate for NodeCapabilities {
    fn duplicate(&self) -> (r: Self) {
        NodeCapabilities {
            execution_only: self.execution_only,
            linux: self.linux,
            arch: self.arch.clone(),
            container_backend: self.container_backend,
            rootless_podman: self.rootless_podman,
            system_bundles: copy_all(&self.system_bundles),
        }
    }
}

/// What a node has reported of itself.
pub struct NodeDescriptor {
    pub id: NodeId,
    pub tenant: TenantId,
    pub project: ProjectId,
    pub online: bool,
    pub capabilities: NodeCapabilities,
    pub source_snapshots: OrderedSet<Digest>,
    pub artifact_locations: OrderedSet<ArtifactId>,
}

/// The model of [`NodeDescriptor`].
#[verifier::ext_equal]
pub struct NodeDescriptorModel {
    pub id: NodeId,
    pub tenant: TenantId,
    pub project: ProjectId,
    pub online: bool,
    pub capabilities: NodeCapabilitiesModel,
    pub source_snapshots: Set<Seq<char>>,
    pub artifact_locations: Set<Seq<char>>,
}

impl View for NodeDescriptor {
    type V = NodeDescriptorModel;

    open spec fn view(&self) -> NodeDescriptorModel {
        NodeDescriptorModel {
            id: self.id,
            tenant: self.tenant,
            project: self.project,
            online: self.online,
            capabilities: self.capabilities@,
            source_snapshots: self.source_snapshots@,
            artifact_locations: self.artifact_locations@,
        }
    }
}

impl Duplicate for NodeDescriptor {
    fn duplicate(&self) -> (r: Self) {
        NodeDescriptor {
            id: self.id.clone(),
            tenant: self.tenant.clone(),
            project: self.project.clone(),
            online: self.online,
            capabilities: self.capabilities.duplicate(),
            source_snapshots: self.source_snapshots.duplicate(),
            artifact_locations: self.artifact_locations.duplicate(),
        }
    }
}

/// Where a node stands between work and release.
#[derive(Clone, Copy, Debug, PartialEq, Eq, Structural)]
pub enum NodeLifecycleState {
    Active,
    Draining,
    ReadyToRelease,
    Released,
}

/// How far the draining of a node has come.
pub struct NodeDrainStatus {
    pub node: NodeId,
    pub state: NodeLifecycleState,
    pub ephemeral: bool,
    pub provider_deadline_epoch_seconds: Option<u64>,
    pub soft_drain_deadline_epoch_seconds: Option<u64>,
    pub hard_drain_deadline_epoch_seconds: Option<u64>,
}

impl View for NodeDrainStatus {
    type V = NodeDrainStatus;

    open spec fn view(&self) -> NodeDrainStatus {
        *self
    }
}

impl Duplicate for NodeDrainStatus {
    fn duplicate(&self) -> (r: Self) {
        NodeDrainStatus {
            node: self.node.clone(),
            state: self.state,
            ephemeral: self.ephemeral,
            provider_deadline_epoch_seconds: self.provider_deadline_epoch_seconds,
            soft_drain_deadline_epoch_seconds: self.soft_drain_deadline_epoch_seconds,
            hard_drain_deadline_epoch_seconds: self.hard_drain_deadline_epoch_seconds,
        }
    }
}

/// Where a node can be reached for artifact transfers.
pub struct IrohEndpointAdvertisement {
    pub tenant: TenantId,
    pub project: ProjectId,
    pub node: NodeId,
    pub endpoint_id: String,
    pub generation: u64,
    pub relay_configuration_generation: u64,
    pub expires_at: u64,
    pub direct_addresses: TextList,
    pub relay_urls: TextList,
}

/// The model of [`IrohEndpointAdvertisement`].
#[verifier::ext_equal]
pub struct IrohEndpointAdvertisementModel {
    pub tenant: TenantId,
    pub project: ProjectId,
    pub node: NodeId,
    pub endpoint_id: String,
    pub generation: u64,
    pub relay_configuration_generation: u64,
    pub expires_at: u64,
    pub direct_addresses: Seq<Seq<char>>,
    pub relay_urls: Seq<Seq<char>>,
}

impl View for IrohEndpointAdvertisement {
    type V = IrohEndpointAdvertisementModel;

    open spec fn view(&self) -> IrohEndpointAdvertisementModel {
        IrohEndpointAdvertisementModel {
            tenant: self.tenant,
            project: self.project,
            node: self.node,
            endpoint_id: self.endpoint_id,
            generation: self.generation,
            relay_configuration_generation: self.relay_configuration_generation,
            expires_at: self.expires_at,
            direct_addresses: self.direct_addresses@,
            relay_urls: self.relay_urls@,
        }
    }
}

impl Duplicate for IrohEndpointAdvertisement {
    fn duplicate(&self) -> (r: Self) {
        IrohEndpointAdvertisement {
            tenant: self.tenant.clone(),
            project: self.project.clone(),
            node: self.node.clone(),
            endpoint_id: self.endpoint_id.clone(),
            generation: self.generation,
            relay_configuration_generation: self.relay_configuration_generation,
            expires_at: self.expires_at,
            direct_addresses: self.direct_addresses.duplicate(),
            relay_urls: self.relay_urls.duplicate(),
        }
    }
}

/// Why a source snapshot is not recorded.
#[derive(Clone, Copy, Debug, PartialEq, Eq, Structural)]
pub enum SourceSnapshotAdmissionError {
    MissingDescriptor,
    Capacity,
}

/// Why an endpoint is not registered.
#[derive(Clone, Copy, Debug, PartialEq, Eq, Structural)]
pub enum EndpointAdvertisementError {
    BoundToAnotherScope,
    IdentityChanged,
    StaleGeneration,
}

/// What the coordinator knows of nodes.
pub struct NodeRegistry {
    descriptors: OrderedMap<NodeScopeKey, NodeDescriptor>,
    drain_statuses: OrderedMap<NodeScopeKey, NodeDrainStatus>,
    last_seen_epoch_seconds: OrderedMap<NodeScopeKey, u64>,
    enrollment_grants: OrderedMap<(TenantId, ProjectId, String), EnrollmentGrant>,
    advertisements: OrderedMap<NodeScopeKey, IrohEndpointAdvertisement>,
    bindings: OrderedMap<String, NodeScopeKey>,
}

/// The model of [`NodeRegistry`].
#[verifier::ext_equal]
pub struct NodeRegistryModel {
    pub descriptors: Seq<((Seq<char>, Seq<char>, Seq<char>), NodeDescriptorModel)>,
    pub drain_statuses: Seq<((Seq<char>, Seq<char>, Seq<char>), NodeDrainStatus)>,
    pub last_seen_epoch_seconds: Seq<((Seq<char>, Seq<char>, Seq<char>), u64)>,
    pub enrollment_grants: Seq<((Seq<char>, Seq<char>, Seq<char>), EnrollmentGrant)>,
    pub advertisements: Seq<((Seq<char>, Seq<char>, Seq<char>), IrohEndpointAdvertisementModel)>,
    pub bindings: Seq<(Seq<char>, ScopeText)>,
}

impl View for NodeRegistry {
    type V = NodeRegistryModel;

    closed spec fn view(&self) -> NodeRegistryModel {
        NodeRegistryModel {
            descriptors: self.descriptors@,
            drain_statuses: self.drain_statuses@,
            last_seen_epoch_seconds: self.last_seen_epoch_seconds@,
            enrollment_grants: self.enrollment_grants@,
            advertisements: self.advertisements@,
            bindings: self.bindings@,
        }
    }
}

/// Whether a node was seen within the last `stale_after` seconds.
pub open spec fn seen_recently(last_seen: Option<u64>, now: u64, stale_after: u64) -> bool {
    last_seen matches Some(at) && now - at <= stale_after
}

/// Whether the node of a scope is live.
pub open spec fn live(state: NodeRegistryModel, scope: ScopeText, now: u64, stale_after: u64) -> bool {
    seen_recently(lookup(state.last_seen_epoch_seconds, scope), now, stale_after)
}

/// Whether the node of a scope is neither draining nor drained.
pub open spec fn takes_work(state: NodeRegistryModel, scope: ScopeText) -> bool {
    lookup(state.drain_statuses, scope) matches Some(status) ==> status.state
        == NodeLifecycleState::Active
}

/// The status of a node that is not draining.
pub open spec fn undrained(node: NodeId) -> NodeDrainStatus {
    NodeDrainStatus {
        node,
        state: NodeLifecycleState::Active,
        ephemeral: false,
        provider_deadline_epoch_seconds: None,
        soft_drain_deadline_epoch_seconds: None,
        hard_drain_deadline_epoch_seconds: None,
    }
}

impl NodeDrainStatus {
    /// The status of a node that is not draining.
    pub fn active(node: NodeId) -> (r: Self)
        ensures
            r == undrained(node),
    {
        NodeDrainStatus {
            node,
            state: NodeLifecycleState::Active,
            ephemeral: false,
            provider_deadline_epoch_seconds: None,
            soft_drain_deadline_epoch_seconds: None,
            hard_drain_deadline_epoch_seconds: None,
        }
    }
}

/// A status after a request to drain the node.
pub open spec fn drain_requested(
    status: NodeDrainStatus,
    ephemeral: bool,
    provider_deadline: Option<u64>,
    soft_deadline: Option<u64>,
    hard_deadline: Option<u64>,
) -> NodeDrainStatus {
    let deadline = if hard_deadline is Some {
        hard_deadline
    } else {
        provider_deadline
    };
    NodeDrainStatus {
        node: status.node,
        state: if status.state == NodeLifecycleState::Active {
            NodeLifecycleState::Draining
        } else {
            status.state
        },
        ephemeral: status.ephemeral || ephemeral,
        provider_deadline_epoch_seconds: if deadline is Some {
            deadline
        } else {
            status.provider_deadline_epoch_seconds
        },
        soft_drain_deadline_epoch_seconds: if soft_deadline is Some {
            soft_deadline
        } else {
            status.soft_drain_deadline_epoch_seconds
        },
        hard_drain_deadline_epoch_seconds: if deadline is Some {
            deadline
        } else {
            status.hard_drain_deadline_epoch_seconds
        },
    }
}

/// The registry without the endpoint of a scope.
pub open spec fn without_endpoint(state: NodeRegistryModel, scope: ScopeText) -> NodeRegistryModel {
    match lookup(state.advertisements, scope) {
        None => state,
        Some(advertisement) => NodeRegistryModel {
            advertisements: delete(state.advertisements, scope),
            bindings: delete(state.bindings, advertisement.endpoint_id@),
            ..state
        },
    }
}

/// Why an advertisement is refused.
pub open spec fn advertisement_refusal(
    state: NodeRegistryModel,
    scope: ScopeText,
    advertisement: IrohEndpointAdvertisementModel,
) -> Option<EndpointAdvertisementError> {
    let bound = lookup(state.bindings, advertisement.endpoint_id@);
    let current = lookup(state.advertisements, scope);
    if bound matches Some(other) && other != scope {
        Some(EndpointAdvertisementError::BoundToAnotherScope)
    } else if current matches Some(known) && known.endpoint_id@ != advertisement.endpoint_id@ {
        Some(EndpointAdvertisementError::IdentityChanged)
    } else if current matches Some(known) && advertisement.generation < known.generation {
        Some(EndpointAdvertisementError::StaleGeneration)
    } else {
        None
    }
}

/// The registry with an advertisement.
pub open spec fn with_advertisement(
    state: NodeRegistryModel,
    scope: ScopeText,
    advertisement: IrohEndpointAdvertisementModel,
) -> NodeRegistryModel {
    NodeRegistryModel {
        advertisements: put(state.advertisements, scope, advertisement),
        bindings: put(state.bindings, advertisement.endpoint_id@, scope),
        ..state
    }
}

/// An advertisement that is to be dropped: it has expired, or its node is not live.
pub open spec fn lapsed(
    state: NodeRegistryModel,
    entry: (ScopeText, IrohEndpointAdvertisementModel),
    now: u64,
    stale_after: u64,
) -> bool {
    entry.1.expires_at <= now || !live(state, entry.0, now, stale_after)
}

/// What comes of a source that a node has.
pub open spec fn snapshot_recorded(
    before: NodeRegistryModel,
    after: NodeRegistryModel,
    scope: ScopeText,
    snapshot: Seq<char>,
    capacity: usize,
    r: Result<(), SourceSnapshotAdmissionError>,
) -> bool {
    let known = lookup(before.descriptors, scope);
    let full = known matches Some(d) && !d.source_snapshots.contains(snapshot)
        && d.source_snapshots.len() >= capacity;
    &&& known is None ==> r == Err::<(), SourceSnapshotAdmissionError>(
        SourceSnapshotAdmissionError::MissingDescriptor,
    )
    &&& full ==> r == Err::<(), SourceSnapshotAdmissionError>(
        SourceSnapshotAdmissionError::Capacity,
    )
    &&& r is Err ==> after == before
    &&& known is Some && !full ==> {
        let d = known->Some_0;
        &&& r is Ok
        &&& after == (NodeRegistryModel {
            descriptors: put(
                before.descriptors,
                scope,
                NodeDescriptorModel {
                    source_snapshots: d.source_snapshots.insert(snapshot),
                    ..d
                },
            ),
            ..before
        })
    }
}

/// The registry after a node was seen.
pub open spec fn node_seen(state: NodeRegistryModel, scope: ScopeText, at: u64) -> NodeRegistryModel {
    NodeRegistryModel {
        drain_statuses: if lookup(state.drain_statuses, scope) matches Some(status) && status.state
            == NodeLifecycleState::Released && !status.ephemeral {
            delete(state.drain_statuses, scope)
        } else {
            state.drain_statuses
        },
        last_seen_epoch_seconds: put(state.last_seen_epoch_seconds, scope, at),
        descriptors: match lookup(state.descriptors, scope) {
            Some(d) => put(
                state.descriptors,
                scope,
                NodeDescriptorModel { online: true, ..d },
            ),
            None => state.descriptors,
        },
        ..state
    }
}

/// The registry after a request to drain a node.
pub open spec fn drain_begun(
    state: NodeRegistryModel,
    scope: ScopeText,
    node: NodeId,
    ephemeral: bool,
    provider_deadline: Option<u64>,
    soft_deadline: Option<u64>,
    hard_deadline: Option<u64>,
) -> NodeRegistryModel {
    NodeRegistryModel {
        drain_statuses: put(
            state.drain_statuses,
            scope,
            drain_requested(
                match lookup(state.drain_statuses, scope) {
                    Some(status) => status,
                    None => undrained(node),
                },
                ephemeral,
                provider_deadline,
                soft_deadline,
                hard_deadline,
            ),
        ),
        ..state
    }
}

/// The registry after a node was released.
pub open spec fn node_released(state: NodeRegistryModel, scope: ScopeText) -> NodeRegistryModel {
    without_endpoint(
        match lookup(state.descriptors, scope) {
            Some(d) => NodeRegistryModel {
                descriptors: put(
                    state.descriptors,
                    scope,
                    NodeDescriptorModel {
                        artifact_locations: Set::empty(),
                        online: false,
                        ..d
                    },
                ),
                ..state
            },
            None => state,
        },
        scope,
    )
}

/// The registry without a node.
pub open spec fn node_removed(state: NodeRegistryModel, scope: ScopeText) -> NodeRegistryModel {
    without_endpoint(
        NodeRegistryModel {
            descriptors: delete(state.descriptors, scope),
            drain_statuses: delete(state.drain_statuses, scope),
            last_seen_epoch_seconds: delete(state.last_seen_epoch_seconds, scope),
            ..state
        },
        scope,
    )
}

/// The registry without the grants that were used or have expired.
pub open spec fn grants_pruned(state: NodeRegistryModel, now: u64) -> NodeRegistryModel {
    NodeRegistryModel {
        enrollment_grants: state.enrollment_grants.filter(
            |e: (ScopeText, EnrollmentGrant)|
                !e.1.consumed && e.1.expires_at_epoch_seconds >= now,
        ),
        ..state
    }
}

/// What comes of a grant that is exchanged.
pub open spec fn grant_exchanged<T, E>(
    before: NodeRegistryModel,
    after: NodeRegistryModel,
    at: ScopeText,
    grant: EnrollmentGrant,
    exchanged: Result<T, E>,
    r: Result<Option<T>, E>,
) -> bool {
    let known = lookup(before.enrollment_grants, at) is Some;
    &&& !known ==> r == Ok::<Option<T>, E>(None) && after == before
    &&& known ==> match exchanged {
        Ok(value) => {
            &&& r == Ok::<Option<T>, E>(Some(value))
            &&& after == (NodeRegistryModel {
                enrollment_grants: delete(before.enrollment_grants, at),
                ..before
            })
        },
        Err(error) => {
            &&& r == Err::<Option<T>, E>(error)
            &&& after == (NodeRegistryModel {
                enrollment_grants: put(before.enrollment_grants, at, grant),
                ..before
            })
        },
    }
}

/// What comes of an advertisement.
pub open spec fn advertisement_taken(
    before: NodeRegistryModel,
    after: NodeRegistryModel,
    scope: ScopeText,
    advertisement: IrohEndpointAdvertisementModel,
    r: Result<(), EndpointAdvertisementError>,
) -> bool {
    match advertisement_refusal(before, scope, advertisement) {
        Some(error) => r == Err::<(), EndpointAdvertisementError>(error) && after == before,
        None => r is Ok && after == with_advertisement(before, scope, advertisement),
    }
}

impl NodeRegistry {
    /// A registry that knows no node.
    pub fn new() -> (r: Self)
        ensures
            r@.descriptors.len() == 0,
            r@.drain_statuses.len() == 0,
            r@.last_seen_epoch_seconds.len() == 0,
            r@.enrollment_grants.len() == 0,
            r@.advertisements.len() == 0,
            r@.bindings.len() == 0,
    {
        NodeRegistry {
            descriptors: OrderedMap::new(),
            drain_statuses: OrderedMap::new(),
            last_seen_epoch_seconds: OrderedMap::new(),
            enrollment_grants: OrderedMap::new(),
            advertisements: OrderedMap::new(),
            bindings: OrderedMap::new(),
        }
    }

    pub fn descriptor(&self, scope: &NodeScopeKey) -> (r: Option<&NodeDescriptor>)
        ensures
            r is Some <==> lookup(self@.descriptors, scope@) is Some,
            r matches Some(d) ==> lookup(self@.descriptors, scope@) == Some(d@),
    {
        assert(scope.key() == scope@);
        self.descriptors.get(scope)
    }

    pub fn contains_node(&self, scope: &NodeScopeKey) -> (r: bool)
        ensures
            r == (lookup(self@.descriptors, scope@) is Some),
    {
        assert(scope.key() == scope@);
        self.descriptors.contains_key(scope)
    }

    pub fn is_empty(&self) -> (r: bool)
        ensures
            r == (self@.descriptors.len() == 0),
    {
        self.descriptors.is_empty()
    }

    pub fn reported_count(&self) -> (r: usize)
        ensures
            r == self@.descriptors.len(),
    {
        self.descriptors.len()
    }

    pub fn record_descriptor(&mut self, scope: NodeScopeKey, descriptor: NodeDescriptor)
        ensures
            final(self)@ == (NodeRegistryModel {
                descriptors: put(old(self)@.descriptors, scope@, descriptor@),
                ..old(self)@
            }),
    {
        assert(scope.key() == scope@);
        self.descriptors.insert(scope, descriptor);
    }

    pub fn is_live(
        &self,
        scope: &NodeScopeKey,
        now_epoch_seconds: u64,
        stale_after_seconds: u64,
    ) -> (r: bool)
        ensures
            r == live(self@, scope@, now_epoch_seconds, stale_after_seconds),
    {
        assert(scope.key() == scope@);
        match self.last_seen_epoch_seconds.get(scope) {
            Some(last_seen) => now_epoch_seconds.saturating_sub(*last_seen) <= stale_after_seconds,
            None => false,
        }
    }

    /// The number of reported nodes that are live.
    pub fn live_count(&self, now_epoch_seconds: u64, stale_after_seconds: u64) -> (r: usize)
        ensures
            r == self@.descriptors.filter(
                |e: (ScopeText, NodeDescriptorModel)|
                    live(self@, e.0, now_epoch_seconds, stale_after_seconds),
            ).len(),
    {
        let n: usize = self.descriptors.len();
        let ghost all = self@.descriptors;
        let ghost p = |e: (ScopeText, NodeDescriptorModel)|
            live(self@, e.0, now_epoch_seconds, stale_after_seconds);
        let mut count: usize = 0;
        let mut i: usize = 0;
        assert(all.take(0).filter(p) =~= Seq::empty()) by {
            reveal(Seq::filter);
        }
        while i < n
            invariant
                n == self.descriptors@.len(),
                all == self.descriptors@,
                p == |e: (ScopeText, NodeDescriptorModel)|
                    live(self@, e.0, now_epoch_seconds, stale_after_seconds),
                0 <= i <= n,
                count <= i,
                count == all.take(i as int).filter(p).len(),
            decreases n - i,
        {
            proof {
                lemma_filter_step(all, p, i as int);
            }
            let scope: &NodeScopeKey = self.descriptors.key_at(i);
            assert(scope.key() == scope@);
            if self.is_live(scope, now_epoch_seconds, stale_after_seconds) {
                count = count + 1;
            }
            i = i + 1;
        }
        assert(all.take(n as int) =~= all);
        count
    }

    pub fn descriptor_count_for_project(&self, tenant: &TenantId, project: &ProjectId) -> (r: usize)
        ensures
            r == values(self@.descriptors).filter(
                |d: NodeDescriptorModel| d.tenant@ == tenant@ && d.project@ == project@,
            ).len(),
    {
        let n: usize = self.descriptors.len();
        let ghost all = values(self@.descriptors);
        let ghost p = |d: NodeDescriptorModel| d.tenant@ == tenant@ && d.project@ == project@;
        let mut count: usize = 0;
        let mut i: usize = 0;
        assert(all.take(0).filter(p) =~= Seq::empty()) by {
            reveal(Seq::filter);
        }
        while i < n
            invariant
                n == self.descriptors@.len(),
                all == values(self.descriptors@),
                p == |d: NodeDescriptorModel| d.tenant@ == tenant@ && d.project@ == project@,
                0 <= i <= n,
                count <= i,
                count == all.take(i as int).filter(p).len(),
            decreases n - i,
        {
            proof {
                lemma_filter_step(all, p, i as int);
            }
            let descriptor: &NodeDescriptor = self.descriptors.value_at(i);
            if descriptor.tenant == *tenant && descriptor.project == *project {
                count = count + 1;
            }
            i = i + 1;
        }
        assert(all.take(n as int) =~= all);
        count
    }

    /// Records a source snapshot of a node, unless that takes it beyond its capacity.
    pub fn record_source_snapshot(
        &mut self,
        scope: &NodeScopeKey,
        source_snapshot: Digest,
        capacity: usize,
    ) -> (r: Result<(), SourceSnapshotAdmissionError>)
        ensures
            snapshot_recorded(
                old(self)@,
                final(self)@,
                scope@,
                source_snapshot@,
                capacity,
                r,
            ),
    {
        broadcast use lemma_put_delete;

        assert(scope.key() == scope@);
        assert(source_snapshot.key() == source_snapshot@);
        match self.descriptors.get(scope) {
            None => {
                return Err(SourceSnapshotAdmissionError::MissingDescriptor);
            },
            Some(descriptor) => {
                if !descriptor.source_snapshots.contains(&source_snapshot)
                    && descriptor.source_snapshots.count() >= capacity {
                    return Err(SourceSnapshotAdmissionError::Capacity);
                }
            },
        }
        match self.descriptors.remove(scope) {
            Some(found) => {
                let mut descriptor: NodeDescriptor = found;
                let _fresh: bool = descriptor.source_snapshots.insert(source_snapshot);
                let key: NodeScopeKey = scope.duplicate();
                assert(key.key() == scope@);
                self.descriptors.insert(key, descriptor);
            },
            None => {},
        }
        Ok(())
    }

    /// Records that a node was seen. A released node that is not ephemeral takes work again.
    pub fn mark_seen(&mut self, scope: &NodeScopeKey, seen_at_epoch_seconds: u64)
        ensures
            final(self)@ == node_seen(old(self)@, scope@, seen_at_epoch_seconds),
    {
        broadcast use lemma_put_delete;

        assert(scope.key() == scope@);
        let revived: bool = match self.drain_statuses.get(scope) {
            Some(status) => status.state == NodeLifecycleState::Released && !status.ephemeral,
            None => false,
        };
        if revived {
            let _status: Option<NodeDrainStatus> = self.drain_statuses.remove(scope);
        }
        let seen_key: NodeScopeKey = scope.duplicate();
        assert(seen_key.key() == scope@);
        self.last_seen_epoch_seconds.insert(seen_key, seen_at_epoch_seconds);
        match self.descriptors.remove(scope) {
            Some(found) => {
                let mut descriptor: NodeDescriptor = found;
                descriptor.online = true;
                let key: NodeScopeKey = scope.duplicate();
                assert(key.key() == scope@);
                self.descriptors.insert(key, descriptor);
            },
            None => {},
        }
    }

    pub fn last_seen(&self, scope: &NodeScopeKey) -> (r: Option<u64>)
        ensures
            r == lookup(self@.last_seen_epoch_seconds, scope@),
    {
        assert(scope.key() == scope@);
        match self.last_seen_epoch_seconds.get(scope) {
            Some(at) => Some(*at),
            None => None,
        }
    }

    /// The descriptors in key order, each marked online if its node is live and takes work.
    pub fn live_descriptors(&self, now_epoch_seconds: u64, stale_after_seconds: u64) -> (r: Vec<
        NodeDescriptor,
    >)
        ensures
            views(r@) == values(self@.descriptors).map_values(
                |d: NodeDescriptorModel|
                    {
                        let scope = (d.tenant@, d.project@, d.id@);
                        NodeDescriptorModel {
                            online: live(self@, scope, now_epoch_seconds, stale_after_seconds)
                                && takes_work(self@, scope),
                            ..d
                        }
                    },
            ),
    {
        let n: usize = self.descriptors.len();
        let ghost all = values(self@.descriptors);
        let ghost f = |d: NodeDescriptorModel|
            {
                let scope = (d.tenant@, d.project@, d.id@);
                NodeDescriptorModel {
                    online: live(self@, scope, now_epoch_seconds, stale_after_seconds)
                        && takes_work(self@, scope),
                    ..d
                }
            };
        let mut out: Vec<NodeDescriptor> = Vec::new();
        let mut i: usize = 0;
        while i < n
            invariant
                n == self.descriptors@.len(),
                all == values(self.descriptors@),
                f == |d: NodeDescriptorModel|
                    {
                        let scope = (d.tenant@, d.project@, d.id@);
                        NodeDescriptorModel {
                            online: live(self@, scope, now_epoch_seconds, stale_after_seconds)
                                && takes_work(self@, scope),
                            ..d
                        }
                    },
                0 <= i <= n,
                views(out@) == all.take(i as int).map_values(f),
            decreases n - i,
        {
            let mut descriptor: NodeDescriptor = self.descriptors.value_at(i).duplicate();
            let scope: NodeScopeKey = NodeScopeKey::from_refs(
                &descriptor.tenant,
                &descriptor.project,
                &descriptor.id,
            );
            descriptor.online = self.is_live(&scope, now_epoch_seconds, stale_after_seconds)
                && self.accepts_new_work(&scope);
            let ghost before = out@;
            assert(descriptor@ == f(all[i as int]));
            out.push(descriptor);
            assert(views(out@) =~= views(before).push(f(all[i as int])));
            assert(all.take(i + 1).map_values(f) =~= all.take(i as int).map_values(f).push(
                f(all[i as int]),
            ));
            i = i + 1;
        }
        assert(all.take(n as int) =~= all);
        out
    }

    /// Records a request to drain a node.
    pub fn begin_drain(
        &mut self,
        scope: &NodeScopeKey,
        ephemeral: bool,
        provider_deadline_epoch_seconds: Option<u64>,
        soft_drain_deadline_epoch_seconds: Option<u64>,
        hard_drain_deadline_epoch_seconds: Option<u64>,
    )
        ensures
            final(self)@ == drain_begun(
                old(self)@,
                scope@,
                scope.node,
                ephemeral,
                provider_deadline_epoch_seconds,
                soft_drain_deadline_epoch_seconds,
                hard_drain_deadline_epoch_seconds,
            ),
    {
        broadcast use lemma_put_delete;

        assert(scope.key() == scope@);
        let mut status: NodeDrainStatus = match self.drain_statuses.remove(scope) {
            Some(status) => status,
            None => NodeDrainStatus::active(scope.node.clone()),
        };
        status.ephemeral = status.ephemeral || ephemeral;
        let deadline: Option<u64> = if hard_drain_deadline_epoch_seconds.is_some() {
            hard_drain_deadline_epoch_seconds
        } else {
            provider_deadline_epoch_seconds
        };
        if deadline.is_some() {
            status.provider_deadline_epoch_seconds = deadline;
            status.hard_drain_deadline_epoch_seconds = deadline;
        }
        if soft_drain_deadline_epoch_seconds.is_some() {
            status.soft_drain_deadline_epoch_seconds = soft_drain_deadline_epoch_seconds;
        }
        if status.state == NodeLifecycleState::Active {
            status.state = NodeLifecycleState::Draining;
        }
        let key: NodeScopeKey = scope.duplicate();
        assert(key.key() == scope@);
        self.drain_statuses.insert(key, status);
    }

    pub fn drain_status(&self, scope: &NodeScopeKey) -> (r: Option<&NodeDrainStatus>)
        ensures
            r is Some <==> lookup(self@.drain_statuses, scope@) is Some,
            r matches Some(status) ==> lookup(self@.drain_statuses, scope@) == Some(*status),
    {
        assert(scope.key() == scope@);
        self.drain_statuses.get(scope)
    }

    pub fn drain_status_or_active(&self, scope: &NodeScopeKey) -> (r: NodeDrainStatus)
        ensures
            r == (match lookup(self@.drain_statuses, scope@) {
                Some(status) => status,
                None => undrained(scope.node),
            }),
    {
        match self.drain_status(scope) {
            Some(status) => status.duplicate(),
            None => NodeDrainStatus::active(scope.node.clone()),
        }
    }

    pub fn record_drain_status(&mut self, scope: NodeScopeKey, status: NodeDrainStatus)
        ensures
            final(self)@ == (NodeRegistryModel {
                drain_statuses: put(old(self)@.drain_statuses, scope@, status),
                ..old(self)@
            }),
    {
        assert(scope.key() == scope@);
        self.drain_statuses.insert(scope, status);
    }

    /// The scopes with a drain status, in key order.
    pub fn drain_scopes(&self) -> (r: Vec<NodeScopeKey>)
        ensures
            views(r@) == self@.drain_statuses.map_values(
                |e: (ScopeText, NodeDrainStatus)| e.0,
            ),
    {
        let n: usize = self.drain_statuses.len();
        let ghost all = self@.drain_statuses;
        let ghost f = |e: (ScopeText, NodeDrainStatus)| e.0;
        let mut out: Vec<NodeScopeKey> = Vec::new();
        let mut i: usize = 0;
        while i < n
            invariant
                n == self.drain_statuses@.len(),
                all == self.drain_statuses@,
                f == |e: (ScopeText, NodeDrainStatus)| e.0,
                0 <= i <= n,
                views(out@) == all.take(i as int).map_values(f),
            decreases n - i,
        {
            let ghost before = out@;
            let scope: &NodeScopeKey = self.drain_statuses.key_at(i);
            assert(scope.key() == scope@);
            out.push(scope.duplicate());
            assert(views(out@) =~= views(before).push(f(all[i as int])));
            assert(all.take(i + 1).map_values(f) =~= all.take(i as int).map_values(f).push(
                f(all[i as int]),
            ));
            i = i + 1;
        }
        assert(all.take(n as int) =~= all);
        out
    }

    pub fn accepts_new_work(&self, scope: &NodeScopeKey) -> (r: bool)
        ensures
            r == takes_work(self@, scope@),
    {
        assert(scope.key() == scope@);
        match self.drain_statuses.get(scope) {
            Some(status) => status.state == NodeLifecycleState::Active,
            None => true,
        }
    }
}

impl NodeRegistry {
    /// Forgets the endpoint of a node.
    fn remove_endpoint(&mut self, scope: &NodeScopeKey)
        ensures
            final(self)@ == without_endpoint(old(self)@, scope@),
    {
        assert(scope.key() == scope@);
        match self.advertisements.remove(scope) {
            Some(advertisement) => {
                assert(advertisement.endpoint_id.key() == advertisement.endpoint_id@);
                let _scope: Option<NodeScopeKey> = self.bindings.remove(&advertisement.endpoint_id);
            },
            None => {},
        }
    }

    /// Takes a released node offline: it holds no artifact and has no endpoint.
    pub fn mark_released(&mut self, scope: &NodeScopeKey)
        ensures
            final(self)@ == node_released(old(self)@, scope@),
    {
        broadcast use lemma_put_delete;

        assert(scope.key() == scope@);
        match self.descriptors.remove(scope) {
            Some(found) => {
                let mut descriptor: NodeDescriptor = found;
                descriptor.artifact_locations = OrderedSet::new();
                descriptor.online = false;
                let key: NodeScopeKey = scope.duplicate();
                assert(key.key() == scope@);
                self.descriptors.insert(key, descriptor);
            },
            None => {},
        }
        self.remove_endpoint(scope);
    }

    /// Forgets a node. Tells whether it had reported itself.
    pub fn remove_node(&mut self, scope: &NodeScopeKey) -> (r: bool)
        ensures
            r == (lookup(old(self)@.descriptors, scope@) is Some),
            final(self)@ == node_removed(old(self)@, scope@),
    {
        assert(scope.key() == scope@);
        let removed: bool = self.descriptors.remove(scope).is_some();
        let _status: Option<NodeDrainStatus> = self.drain_statuses.remove(scope);
        let _seen: Option<u64> = self.last_seen_epoch_seconds.remove(scope);
        self.remove_endpoint(scope);
        removed
    }

    /// Drops the enrollment grants that are spent or have expired.
    pub fn prune_enrollment_grants(&mut self, now_epoch_seconds: u64)
        ensures
            final(self)@ == grants_pruned(old(self)@, now_epoch_seconds),
    {
        let ghost p = |e: (ScopeText, EnrollmentGrant)|
            !e.1.consumed && e.1.expires_at_epoch_seconds >= now_epoch_seconds;
        let keep = |_key: &(TenantId, ProjectId, String), grant: &EnrollmentGrant| -> (b: bool)
            ensures
                b == (!grant@.consumed && grant@.expires_at_epoch_seconds >= now_epoch_seconds),
        { !grant.consumed && grant.expires_at_epoch_seconds >= now_epoch_seconds };
        self.enrollment_grants.retain(keep, Ghost(p));
    }

    pub fn enrollment_grant_count(&self, tenant: &TenantId, project: &ProjectId) -> (r: usize)
        ensures
            r == self@.enrollment_grants.filter(
                |e: (ScopeText, EnrollmentGrant)|
                    e.1.tenant@ == tenant@ && e.1.project@ == project@,
            ).len(),
    {
        let ghost p = |e: (ScopeText, EnrollmentGrant)|
            e.1.tenant@ == tenant@ && e.1.project@ == project@;
        let found = |_key: &(TenantId, ProjectId, String), grant: &EnrollmentGrant| -> (b: bool)
            ensures
                b == (grant@.tenant@ == tenant@ && grant@.project@ == project@),
        { grant.tenant == *tenant && grant.project == *project };
        self.enrollment_grants.count_where(found, Ghost(p))
    }

    /// Records an enrollment grant under its tenant, project and digest.
    pub fn insert_enrollment_grant(
        &mut self,
        key: (TenantId, ProjectId, String),
        grant: EnrollmentGrant,
    )
        ensures
            final(self)@ == (NodeRegistryModel {
                enrollment_grants: put(
                    old(self)@.enrollment_grants,
                    (key.0@, key.1@, key.2@),
                    grant,
                ),
                ..old(self)@
            }),
    {
        assert(key.key() == (key.0@, key.1@, key.2@));
        self.enrollment_grants.insert(key, grant);
    }

    /// Exchanges a grant. `exchanged` is what the exchange of the recorded grant gave, and
    /// `after` the grant as that left it. A grant that was exchanged is gone.
    pub fn exchange_enrollment_grant<T, E>(
        &mut self,
        key: &(TenantId, ProjectId, String),
        after: EnrollmentGrant,
        exchanged: Result<T, E>,
    ) -> (r: Result<Option<T>, E>)
        ensures
            grant_exchanged(
                old(self)@,
                final(self)@,
                (key.0@, key.1@, key.2@),
                after,
                exchanged,
                r,
            ),
    {
        broadcast use lemma_put_delete;

        assert(key.key() == (key.0@, key.1@, key.2@));
        if !self.enrollment_grants.contains_key(key) {
            return Ok(None);
        }
        let _before: Option<EnrollmentGrant> = self.enrollment_grants.remove(key);
        match exchanged {
            Ok(value) => Ok(Some(value)),
            Err(error) => {
                let kept: (TenantId, ProjectId, String) = key.copy_key();
                self.enrollment_grants.insert(kept, after);
                Err(error)
            },
        }
    }

    pub fn endpoint_scope(&self, endpoint_id: &String) -> (r: Option<&NodeScopeKey>)
        ensures
            r is Some <==> lookup(self@.bindings, endpoint_id@) is Some,
            r matches Some(scope) ==> lookup(self@.bindings, endpoint_id@) == Some(scope@),
    {
        assert(endpoint_id.key() == endpoint_id@);
        self.bindings.get(endpoint_id)
    }

    pub fn advertisement(&self, scope: &NodeScopeKey) -> (r: Option<&IrohEndpointAdvertisement>)
        ensures
            r is Some <==> lookup(self@.advertisements, scope@) is Some,
            r matches Some(a) ==> lookup(self@.advertisements, scope@) == Some(a@),
    {
        assert(scope.key() == scope@);
        self.advertisements.get(scope)
    }

    pub fn has_active_advertisement(&self, scope: &NodeScopeKey, now_epoch_seconds: u64) -> (r: bool)
        ensures
            r == (lookup(self@.advertisements, scope@) matches Some(a) && a.expires_at
                > now_epoch_seconds),
    {
        match self.advertisement(scope) {
            Some(advertisement) => advertisement.expires_at > now_epoch_seconds,
            None => false,
        }
    }

    /// Registers where a node can be reached. An endpoint belongs to one node, a node keeps its
    /// endpoint, and generations do not go back.
    pub fn register_advertisement(
        &mut self,
        scope: NodeScopeKey,
        advertisement: IrohEndpointAdvertisement,
    ) -> (r: Result<(), EndpointAdvertisementError>)
        ensures
            advertisement_taken(old(self)@, final(self)@, scope@, advertisement@, r),
    {
        assert(scope.key() == scope@);
        assert(advertisement.endpoint_id.key() == advertisement.endpoint_id@);
        match self.bindings.get(&advertisement.endpoint_id) {
            Some(bound) => {
                assert(bound.key() == bound@);
                if !bound.same(&scope) {
                    return Err(EndpointAdvertisementError::BoundToAnotherScope);
                }
            },
            None => {},
        }
        match self.advertisements.get(&scope) {
            Some(current) => {
                if current.endpoint_id != advertisement.endpoint_id {
                    return Err(EndpointAdvertisementError::IdentityChanged);
                }
                if advertisement.generation < current.generation {
                    return Err(EndpointAdvertisementError::StaleGeneration);
                }
            },
            None => {},
        }
        let endpoint: String = advertisement.endpoint_id.clone();
        assert(endpoint.key() == advertisement.endpoint_id@);
        self.bindings.insert(endpoint, scope.duplicate());
        self.advertisements.insert(scope, advertisement);
        Ok(())
    }

    /// Forgets all endpoints.
    pub fn clear_advertisements(&mut self)
        ensures
            final(self)@ == (NodeRegistryModel {
                advertisements: Seq::empty(),
                bindings: Seq::empty(),
                ..old(self)@
            }),
    {
        self.advertisements = OrderedMap::new();
        self.bindings = OrderedMap::new();
    }

    /// Forgets the endpoints whose advertisement has expired or whose node is not live.
    pub fn expire_advertisements(&mut self, now_epoch_seconds: u64, stale_after_seconds: u64)
        ensures
            final(self)@ == expired(old(self)@, now_epoch_seconds, stale_after_seconds),
    {
        let ghost before = self@;
        let ghost all = before.advertisements;
        let n: usize = self.advertisements.len();
        let mut scopes: Vec<NodeScopeKey> = Vec::new();
        let mut i: usize = 0;
        while i < n
            invariant
                n == all.len(),
                self@ == before,
                all == before.advertisements,
                0 <= i <= n,
                views(scopes@) == lapsed_scopes(
                    before,
                    now_epoch_seconds,
                    stale_after_seconds,
                    i as int,
                ),
            decreases n - i,
        {
            let scope: &NodeScopeKey = self.advertisements.key_at(i);
            assert(scope.key() == scope@);
            let gone: bool = self.advertisements.value_at(i).expires_at <= now_epoch_seconds
                || !self.is_live(scope, now_epoch_seconds, stale_after_seconds);
            if gone {
                let ghost earlier = scopes@;
                scopes.push(scope.duplicate());
                assert(views(scopes@) =~= views(earlier).push(scope@));
            }
            i = i + 1;
        }
        let ghost listed = views(scopes@);
        let mut j: usize = 0;
        let m: usize = scopes.len();
        while j < m
            invariant
                m == listed.len(),
                listed == views(scopes@),
                0 <= j <= m,
                self@ == without_endpoints(before, listed, j as int),
            decreases m - j,
        {
            self.remove_endpoint(&scopes[j]);
            j = j + 1;
        }
    }
}

/// The scopes of the lapsed ones among the first `n` advertisements.
pub open spec fn lapsed_scopes(
    state: NodeRegistryModel,
    now: u64,
    stale_after: u64,
    n: int,
) -> Seq<ScopeText>
    decreases n,
{
    if n <= 0 {
        Seq::empty()
    } else {
        let earlier = lapsed_scopes(state, now, stale_after, n - 1);
        if lapsed(state, state.advertisements[n - 1], now, stale_after) {
            earlier.push(state.advertisements[n - 1].0)
        } else {
            earlier
        }
    }
}

/// The registry without the endpoints of the first `n` scopes.
pub open spec fn without_endpoints(
    state: NodeRegistryModel,
    scopes: Seq<ScopeText>,
    n: int,
) -> NodeRegistryModel
    decreases n,
{
    if n <= 0 {
        state
    } else {
        without_endpoint(without_endpoints(state, scopes, n - 1), scopes[n - 1])
    }
}

/// The registry without the endpoints that have lapsed.
pub open spec fn expired(state: NodeRegistryModel, now: u64, stale_after: u64) -> NodeRegistryModel {
    let gone = lapsed_scopes(state, now, stale_after, state.advertisements.len() as int);
    without_endpoints(state, gone, gone.len() as int)
}

/// The maps of the registry that hold endpoints stand in key order.
pub open spec fn endpoints_ordered(state: NodeRegistryModel) -> bool {
    ascending(state.advertisements) && ascending(state.bindings)
}

/// The advertisement of a scope is bound to it.
pub open spec fn advertised_is_bound(state: NodeRegistryModel, scope: ScopeText) -> bool {
    lookup(state.advertisements, scope) matches Some(a) ==> lookup(
        state.bindings,
        a.endpoint_id@,
    ) == Some(scope)
}

/// The scope that an endpoint is bound to advertises it.
pub open spec fn bound_is_advertised(state: NodeRegistryModel, endpoint: Seq<char>) -> bool {
    lookup(state.bindings, endpoint) matches Some(scope) ==> (lookup(
        state.advertisements,
        scope,
    ) matches Some(a) && a.endpoint_id@ == endpoint)
}

/// Each advertised endpoint is bound to its node, and each bound endpoint is advertised by it.
pub open spec fn endpoints_agree(state: NodeRegistryModel) -> bool {
    &&& endpoints_ordered(state)
    &&& forall|scope: ScopeText| #[trigger] advertised_is_bound(state, scope)
    &&& forall|endpoint: Seq<char>| #[trigger] bound_is_advertised(state, endpoint)
}

/// Registering an endpoint keeps bindings and advertisements in agreement.
pub proof fn registration_keeps_endpoints_in_agreement(
    state: NodeRegistryModel,
    scope: ScopeText,
    advertisement: IrohEndpointAdvertisementModel,
)
    requires
        endpoints_agree(state),
        advertisement_refusal(state, scope, advertisement) is None,
    ensures
        endpoints_agree(with_advertisement(state, scope, advertisement)),
{
    broadcast use lemma_lookup_put;

    let after = with_advertisement(state, scope, advertisement);
    lemma_put_ascending(state.advertisements, scope, advertisement);
    lemma_put_ascending(state.bindings, advertisement.endpoint_id@, scope);
    assert forall|s: ScopeText| #[trigger] advertised_is_bound(after, s) by {
        assert(advertised_is_bound(state, s));
        if s != scope && lookup(state.advertisements, s) is Some {
            let a = lookup(state.advertisements, s)->Some_0;
            assert(a.endpoint_id@ != advertisement.endpoint_id@);
        }
    }
    assert forall|e: Seq<char>| #[trigger] bound_is_advertised(after, e) by {
        assert(bound_is_advertised(state, e));
        assert(advertised_is_bound(state, scope));
    }
}

/// Forgetting the endpoint of a node keeps bindings and advertisements in agreement.
pub proof fn removal_keeps_endpoints_in_agreement(state: NodeRegistryModel, scope: ScopeText)
    requires
        endpoints_agree(state),
    ensures
        endpoints_agree(without_endpoint(state, scope)),
        lookup(without_endpoint(state, scope).advertisements, scope) is None,
        forall|s: ScopeText|
            s != scope ==> #[trigger] lookup(without_endpoint(state, scope).advertisements, s)
                == lookup(state.advertisements, s),
{
    broadcast use lemma_lookup_delete;

    let after = without_endpoint(state, scope);
    if lookup(state.advertisements, scope) is Some {
        let gone = lookup(state.advertisements, scope)->Some_0;
        lemma_delete_ascending(state.advertisements, scope);
        lemma_delete_ascending(state.bindings, gone.endpoint_id@);
        assert(advertised_is_bound(state, scope));
        assert forall|s: ScopeText| #[trigger] advertised_is_bound(after, s) by {
            assert(advertised_is_bound(state, s));
        }
        assert forall|e: Seq<char>| #[trigger] bound_is_advertised(after, e) by {
            assert(bound_is_advertised(state, e));
        }
    }
}

proof fn lemma_without_endpoints(state: NodeRegistryModel, scopes: Seq<ScopeText>, n: int)
    requires
        endpoints_agree(state),
        0 <= n <= scopes.len(),
    ensures
        endpoints_agree(without_endpoints(state, scopes, n)),
        forall|s: ScopeText|
            #[trigger] lookup(without_endpoints(state, scopes, n).advertisements, s) == (
            if scopes.take(n).contains(s) {
                None
            } else {
                lookup(state.advertisements, s)
            }),
    decreases n,
{
    if n > 0 {
        lemma_without_endpoints(state, scopes, n - 1);
        let mid = without_endpoints(state, scopes, n - 1);
        removal_keeps_endpoints_in_agreement(mid, scopes[n - 1]);
        let after = without_endpoints(state, scopes, n);
        assert forall|s: ScopeText| #[trigger] lookup(after.advertisements, s) == (
        if scopes.take(n).contains(s) {
            None
        } else {
            lookup(state.advertisements, s)
        }) by {
            let longer = scopes.take(n);
            let shorter = scopes.take(n - 1);
            let _ = lookup(mid.advertisements, s);
            assert(longer =~= shorter.push(scopes[n - 1]));
            if s == scopes[n - 1] {
                assert(longer[n - 1] == s);
            } else if longer.contains(s) {
                let i = choose|i: int| 0 <= i < longer.len() && longer[i] == s;
                assert(shorter[i] == s);
            } else if shorter.contains(s) {
                let i = choose|i: int| 0 <= i < shorter.len() && shorter[i] == s;
                assert(longer[i] == s);
            }
        }
    } else {
        assert(scopes.take(0).len() == 0);
    }
}

proof fn lemma_lapsed_scopes(state: NodeRegistryModel, now: u64, stale_after: u64, n: int, s: ScopeText)
    requires
        0 <= n <= state.advertisements.len(),
    ensures
        lapsed_scopes(state, now, stale_after, n).contains(s) <==> exists|i: int|
            0 <= i < n && lapsed(state, #[trigger] state.advertisements[i], now, stale_after)
                && state.advertisements[i].0 == s,
    decreases n,
{
    if n > 0 {
        lemma_lapsed_scopes(state, now, stale_after, n - 1, s);
        let earlier = lapsed_scopes(state, now, stale_after, n - 1);
        let all = lapsed_scopes(state, now, stale_after, n);
        let last = state.advertisements[n - 1];
        if lapsed(state, last, now, stale_after) {
            assert(all[all.len() - 1] == last.0);
            if earlier.contains(s) {
                let i = choose|i: int| 0 <= i < earlier.len() && earlier[i] == s;
                assert(all[i] == s);
            }
            if all.contains(s) && s != last.0 {
                let i = choose|i: int| 0 <= i < all.len() && all[i] == s;
                assert(earlier[i] == s);
            }
        }
    }
}

/// Expiry drops the advertisements that have lapsed, keeps all others, and keeps bindings and
/// advertisements in agreement.
pub proof fn expiry_drops_exactly_the_lapsed(state: NodeRegistryModel, now: u64, stale_after: u64)
    requires
        endpoints_agree(state),
    ensures
        endpoints_agree(expired(state, now, stale_after)),
        forall|s: ScopeText|
            #[trigger] lookup(expired(state, now, stale_after).advertisements, s) == (match lookup(
                state.advertisements,
                s,
            ) {
                Some(a) if !lapsed(state, (s, a), now, stale_after) => Some(a),
                _ => None,
            }),
{
    let all = state.advertisements;
    let gone = lapsed_scopes(state, now, stale_after, all.len() as int);
    lemma_without_endpoints(state, gone, gone.len() as int);
    let after = expired(state, now, stale_after);
    assert(gone.take(gone.len() as int) =~= gone);
    assert forall|s: ScopeText| #[trigger] lookup(after.advertisements, s) == (match lookup(all, s) {
        Some(a) if !lapsed(state, (s, a), now, stale_after) => Some(a),
        _ => None,
    }) by {
        lemma_lapsed_scopes(state, now, stale_after, all.len() as int, s);
        lemma_lookup_found(all, s);
        if lookup(all, s) is Some {
            let i = choose|i: int| bound_at(all, s, i);
            assert(bound_at(all, s, i));
            lemma_lookup_at(all, i);
            let a = lookup(all, s)->Some_0;
            assert(all[i] == (s, a));
            if gone.contains(s) {
                let j = choose|j: int|
                    0 <= j < all.len() && lapsed(state, #[trigger] all[j], now, stale_after)
                        && all[j].0 == s;
                lemma_lookup_at(all, j);
                assert(all[j] == (s, a));
            }
        }
    }
}

/// A registry without endpoints has them in agreement.
pub proof fn no_endpoints_agree(state: NodeRegistryModel)
    requires
        state.advertisements.len() == 0,
        state.bindings.len() == 0,
    ensures
        endpoints_agree(state),
{
    reveal(ascending);
    assert forall|s: ScopeText| #[trigger] advertised_is_bound(state, s) by {
        lemma_lookup_found(state.advertisements, s);
    }
    assert forall|e: Seq<char>| #[trigger] bound_is_advertised(state, e) by {
        lemma_lookup_found(state.bindings, e);
    }
}

} // verus!
