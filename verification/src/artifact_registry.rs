//! Artifacts: their metadata, what holds them, and the links by which they are downloaded.
use vstd::prelude::*;
use vstd::string::*;

use crate::coordinator::Authorization;
use crate::duplicate::{Duplicate, TextList, copy_all, option_view, views};
use crate::ids::{Actor, ArtifactId, AuthContext, Digest, NodeId, ProcessId, ProjectId, ScopeText, TaskInstanceId, TenantId};
use crate::keyed::{holds_keys, lemma_filter_holds_keys, lemma_found_holds_key, lemma_put_holds_keys};
use crate::ordered::OrderedKey;
use crate::ordered_map::{OrderedMap, ascending, bound_at, delete, lemma_count_delete, lemma_count_put, lemma_delete_ascending, lemma_filter_agree, lemma_filter_ascending, lemma_filter_fewer, lemma_filter_step, lemma_lookup_at, lemma_lookup_delete, lemma_lookup_found, lemma_lookup_put, lemma_put_ascending, lemma_put_delete, lemma_same_keys, lookup, model, put};
use crate::ordered_set::{OrderedSet, is_least};
use crate::sequences::{any_item, holds_of_some, keep_items};
use crate::text::{concat2, concat5, decimal, decimal_text};

verus! {

/// The most download links that one artifact has.
pub const MAX_ISSUED_DOWNLOAD_LINKS_PER_ARTIFACT: usize = 32;

/// How long an expired link is remembered.
pub const DOWNLOAD_LINK_TOMBSTONE_SECONDS: u64 = 900;

/// The most artifacts whose metadata one project has.
pub const MAX_ARTIFACT_METADATA_PER_PROJECT: usize = 1024;

/// An artifact of a project of a tenant.
pub type ArtifactScopeKey = (TenantId, ProjectId, ArtifactId);

/// Where the bytes of an artifact are.
#[derive(Debug, PartialEq, Eq)]
pub enum StorageLocation {
    RetainedNode(NodeId),
    ExplicitStore(String),
}

impl View for StorageLocation {
    type V = StorageLocation;

    open spec fn view(&self) -> StorageLocation {
        *self
    }
}

impl Duplicate for StorageLocation {
    fn duplicate(&self) -> (r: Self) {
        match self {
            StorageLocation::RetainedNode(node) => StorageLocation::RetainedNode(node.clone()),
            StorageLocation::ExplicitStore(location) => StorageLocation::ExplicitStore(
                location.clone(),
            ),
        }
    }
}

/// Why an artifact is held.
pub enum ArtifactHoldReason {
    ProcessRetention { process: ProcessId },
    ConsumerTask { process: ProcessId, task: TaskInstanceId },
    RestartCheckpoint { process: ProcessId, task: TaskInstanceId },
    ActiveTransfer { transfer_id: String },
    DownloadExport { token_digest: Digest },
    ExplicitRetention { label: String },
}

/// The model of [`ArtifactHoldReason`].
#[verifier::ext_equal]
pub enum ArtifactHoldReasonModel {
    ProcessRetention { process: Seq<char> },
    ConsumerTask { process: Seq<char>, task: Seq<char> },
    RestartCheckpoint { process: Seq<char>, task: Seq<char> },
    ActiveTransfer { transfer_id: Seq<char> },
    DownloadExport { token_digest: Seq<char> },
    ExplicitRetention { label: Seq<char> },
}

impl View for ArtifactHoldReason {
    type V = ArtifactHoldReasonModel;

    open spec fn view(&self) -> ArtifactHoldReasonModel {
        match *self {
            ArtifactHoldReason::ProcessRetention {
                process,
            } => ArtifactHoldReasonModel::ProcessRetention { process: process@ },
            ArtifactHoldReason::ConsumerTask {
                process,
                task,
            } => ArtifactHoldReasonModel::ConsumerTask { process: process@, task: task@ },
            ArtifactHoldReason::RestartCheckpoint {
                process,
                task,
            } => ArtifactHoldReasonModel::RestartCheckpoint { process: process@, task: task@ },
            ArtifactHoldReason::ActiveTransfer {
                transfer_id,
            } => ArtifactHoldReasonModel::ActiveTransfer { transfer_id: transfer_id@ },
            ArtifactHoldReason::DownloadExport {
                token_digest,
            } => ArtifactHoldReasonModel::DownloadExport { token_digest: token_digest@ },
            ArtifactHoldReason::ExplicitRetention {
                label,
            } => ArtifactHoldReasonModel::ExplicitRetention { label: label@ },
        }
    }
}

impl Duplicate for ArtifactHoldReason {
    fn duplicate(&self) -> (r: Self) {
        match self {
            ArtifactHoldReason::ProcessRetention {
                process,
            } => ArtifactHoldReason::ProcessRetention { process: process.clone() },
            ArtifactHoldReason::ConsumerTask {
                process,
                task,
            } => ArtifactHoldReason::ConsumerTask { process: process.clone(), task: task.clone() },
            ArtifactHoldReason::RestartCheckpoint {
                process,
                task,
            } => ArtifactHoldReason::RestartCheckpoint {
                process: process.clone(),
                task: task.clone(),
            },
            ArtifactHoldReason::ActiveTransfer {
                transfer_id,
            } => ArtifactHoldReason::ActiveTransfer { transfer_id: transfer_id.clone() },
            ArtifactHoldReason::DownloadExport {
                token_digest,
            } => ArtifactHoldReason::DownloadExport { token_digest: token_digest.clone() },
            ArtifactHoldReason::ExplicitRetention {
                label,
            } => ArtifactHoldReason::ExplicitRetention { label: label.clone() },
        }
    }
}

impl ArtifactHoldReason {
    pub fn same_as(&self, other: &ArtifactHoldReason) -> (r: bool)
        ensures
            r == (self@ == other@),
    {
        match (self, other) {
            (
                ArtifactHoldReason::ProcessRetention { process: a },
                ArtifactHoldReason::ProcessRetention { process: b },
            ) => *a == *b,
            (
                ArtifactHoldReason::ConsumerTask { process: a, task: s },
                ArtifactHoldReason::ConsumerTask { process: b, task: t },
            ) => *a == *b && *s == *t,
            (
                ArtifactHoldReason::RestartCheckpoint { process: a, task: s },
                ArtifactHoldReason::RestartCheckpoint { process: b, task: t },
            ) => *a == *b && *s == *t,
            (
                ArtifactHoldReason::ActiveTransfer { transfer_id: a },
                ArtifactHoldReason::ActiveTransfer { transfer_id: b },
            ) => *a == *b,
            (
                ArtifactHoldReason::DownloadExport { token_digest: a },
                ArtifactHoldReason::DownloadExport { token_digest: b },
            ) => *a == *b,
            (
                ArtifactHoldReason::ExplicitRetention { label: a },
                ArtifactHoldReason::ExplicitRetention { label: b },
            ) => *a == *b,
            _ => false,
        }
    }
}

/// What keeps an artifact from being collected, and since when.
pub struct ArtifactHold {
    pub reason: ArtifactHoldReason,
    pub created_at_epoch_seconds: u64,
}

/// The model of [`ArtifactHold`].
#[verifier::ext_equal]
pub struct ArtifactHoldModel {
    pub reason: ArtifactHoldReasonModel,
    pub created_at_epoch_seconds: u64,
}

impl View for ArtifactHold {
    type V = ArtifactHoldModel;

    open spec fn view(&self) -> ArtifactHoldModel {
        ArtifactHoldModel {
            reason: self.reason@,
            created_at_epoch_seconds: self.created_at_epoch_seconds,
        }
    }
}

impl Duplicate for ArtifactHold {
    fn duplicate(&self) -> (r: Self) {
        ArtifactHold {
            reason: self.reason.duplicate(),
            created_at_epoch_seconds: self.created_at_epoch_seconds,
        }
    }
}

/// The holds of one artifact, in the order in which they were taken.
pub struct HoldList {
    pub items: Vec<ArtifactHold>,
}

impl View for HoldList {
    type V = Seq<ArtifactHoldModel>;

    open spec fn view(&self) -> Seq<ArtifactHoldModel> {
        views(self.items@)
    }
}

/// What a node reports when it has written an artifact.
pub struct ArtifactFlush {
    pub id: ArtifactId,
    pub tenant: TenantId,
    pub project: ProjectId,
    pub process: ProcessId,
    pub producer_task: TaskInstanceId,
    pub retaining_node: NodeId,
    pub digest: Digest,
    pub size: u64,
}

impl View for ArtifactFlush {
    type V = ArtifactFlush;

    open spec fn view(&self) -> ArtifactFlush {
        *self
    }
}

impl Duplicate for ArtifactFlush {
    fn duplicate(&self) -> (r: Self) {
        ArtifactFlush {
            id: self.id.clone(),
            tenant: self.tenant.clone(),
            project: self.project.clone(),
            process: self.process.clone(),
            producer_task: self.producer_task.clone(),
            retaining_node: self.retaining_node.clone(),
            digest: self.digest.clone(),
            size: self.size,
        }
    }
}

/// What is known of an artifact.
pub struct ArtifactMetadata {
    pub id: ArtifactId,
    pub tenant: TenantId,
    pub project: ProjectId,
    pub process: ProcessId,
    pub producer_task: TaskInstanceId,
    pub producer_node: NodeId,
    pub digest: Digest,
    pub size: u64,
    pub flushed_epoch: u64,
    pub retaining_nodes: OrderedSet<NodeId>,
    pub explicit_locations: TextList,
    pub coordinator_has_large_bytes: bool,
}

/// The model of [`ArtifactMetadata`].
#[verifier::ext_equal]
pub struct ArtifactMetadataModel {
    pub id: ArtifactId,
    pub tenant: TenantId,
    pub project: ProjectId,
    pub process: ProcessId,
    pub producer_task: TaskInstanceId,
    pub producer_node: NodeId,
    pub digest: Digest,
    pub size: u64,
    pub flushed_epoch: u64,
    pub retaining_nodes: Set<Seq<char>>,
    pub explicit_locations: Seq<Seq<char>>,
    pub coordinator_has_large_bytes: bool,
}

impl View for ArtifactMetadata {
    type V = ArtifactMetadataModel;

    open spec fn view(&self) -> ArtifactMetadataModel {
        ArtifactMetadataModel {
            id: self.id,
            tenant: self.tenant,
            project: self.project,
            process: self.process,
            producer_task: self.producer_task,
            producer_node: self.producer_node,
            digest: self.digest,
            size: self.size,
            flushed_epoch: self.flushed_epoch,
            retaining_nodes: self.retaining_nodes@,
            explicit_locations: self.explicit_locations@,
            coordinator_has_large_bytes: self.coordinator_has_large_bytes,
        }
    }
}

impl Duplicate for ArtifactMetadata {
    fn duplicate(&self) -> (r: Self) {
        ArtifactMetadata {
            id: self.id.clone(),
            tenant: self.tenant.clone(),
            project: self.project.clone(),
            process: self.process.clone(),
            producer_task: self.producer_task.clone(),
            producer_node: self.producer_node.clone(),
            digest: self.digest.clone(),
            size: self.size,
            flushed_epoch: self.flushed_epoch,
            retaining_nodes: self.retaining_nodes.duplicate(),
            explicit_locations: self.explicit_locations.duplicate(),
            coordinator_has_large_bytes: self.coordinator_has_large_bytes,
        }
    }
}

/// An artifact is not there, or is not the one that was meant.
#[derive(Clone, Copy, Debug, PartialEq, Eq, Structural)]
pub struct ArtifactUnavailable {}

/// What a download may be.
#[derive(Clone, Copy, Debug, PartialEq, Eq, Structural)]
pub struct DownloadPolicy {
    pub max_bytes: u64,
}

/// Why a download is refused.
#[derive(Debug, PartialEq, Eq)]
pub enum DownloadError {
    NotFound,
    LimitExceeded { size: u64, limit: u64 },
    Unavailable,
    InvalidToken,
    Unauthorized(String),
    DirectConnectivityUnavailable(String),
    Usage(String),
}

/// Where to download an artifact from, and for which subject.
pub struct DownloadAction {
    pub artifact: ArtifactId,
    pub source: StorageLocation,
    pub scoped_token_subject: String,
}

/// A link by which an artifact can be downloaded until it expires.
pub struct DownloadLink {
    pub artifact: ArtifactId,
    pub artifact_digest: Digest,
    pub artifact_size_bytes: u64,
    pub source: StorageLocation,
    pub url_path: String,
    pub scoped_token_digest: Digest,
    pub expires_at_epoch_seconds: u64,
    pub tenant: TenantId,
    pub project: ProjectId,
    pub process: ProcessId,
    pub actor: Actor,
    pub max_bytes: u64,
    pub policy_context_digest: Digest,
}

impl View for DownloadLink {
    type V = DownloadLink;

    open spec fn view(&self) -> DownloadLink {
        *self
    }
}

impl Duplicate for DownloadLink {
    fn duplicate(&self) -> (r: Self) {
        DownloadLink {
            artifact: self.artifact.clone(),
            artifact_digest: self.artifact_digest.clone(),
            artifact_size_bytes: self.artifact_size_bytes,
            source: self.source.duplicate(),
            url_path: self.url_path.clone(),
            scoped_token_digest: self.scoped_token_digest.clone(),
            expires_at_epoch_seconds: self.expires_at_epoch_seconds,
            tenant: self.tenant.clone(),
            project: self.project.clone(),
            process: self.process.clone(),
            actor: self.actor.copy(),
            max_bytes: self.max_bytes,
            policy_context_digest: self.policy_context_digest.clone(),
        }
    }
}

/// A link that was handed out.
pub struct IssuedDownloadLink {
    pub link: DownloadLink,
    pub revoked: bool,
}

impl View for IssuedDownloadLink {
    type V = IssuedDownloadLink;

    open spec fn view(&self) -> IssuedDownloadLink {
        *self
    }
}

impl Duplicate for IssuedDownloadLink {
    fn duplicate(&self) -> (r: Self) {
        IssuedDownloadLink {
            link: self.link.duplicate(),
            revoked: self.revoked,
        }
    }
}

/// The artifacts of all projects, what holds them, and their download links.
pub struct ArtifactRegistry {
    artifacts: OrderedMap<ArtifactScopeKey, ArtifactMetadata>,
    holds: OrderedMap<ArtifactScopeKey, HoldList>,
    issued_download_links: OrderedMap<Digest, IssuedDownloadLink>,
    next_epoch: u64,
}

/// The model of [`ArtifactRegistry`].
#[verifier::ext_equal]
pub struct ArtifactRegistryModel {
    pub artifacts: Seq<(ScopeText, ArtifactMetadataModel)>,
    pub holds: Seq<(ScopeText, Seq<ArtifactHoldModel>)>,
    pub issued_download_links: Seq<(Seq<char>, IssuedDownloadLink)>,
    pub next_epoch: u64,
}

impl View for ArtifactRegistry {
    type V = ArtifactRegistryModel;

    closed spec fn view(&self) -> ArtifactRegistryModel {
        ArtifactRegistryModel {
            artifacts: self.artifacts@,
            holds: self.holds@,
            issued_download_links: self.issued_download_links@,
            next_epoch: self.next_epoch,
        }
    }
}

/// The scope of an artifact.
pub open spec fn scope_of(metadata: ArtifactMetadataModel) -> ScopeText {
    (metadata.tenant@, metadata.project@, metadata.id@)
}

/// Each artifact stands under its own scope.
pub open spec fn keyed(artifacts: Seq<(ScopeText, ArtifactMetadataModel)>) -> bool {
    forall|i: int|
        0 <= i < artifacts.len() ==> (#[trigger] artifacts[i]).0 == scope_of(artifacts[i].1)
}

/// The key that a download link holds: the digest of its token.
pub open spec fn links_key() -> spec_fn(IssuedDownloadLink) -> Seq<char> {
    |issued: IssuedDownloadLink| issued.link.scoped_token_digest@
}

/// The state that a registry can be in: each artifact stands under its own scope, and each download
/// link under the digest of its own token.
pub open spec fn well_formed(state: ArtifactRegistryModel) -> bool {
    &&& ascending(state.artifacts)
    &&& ascending(state.holds)
    &&& ascending(state.issued_download_links)
    &&& keyed(state.artifacts)
    &&& holds_keys(state.issued_download_links, links_key())
}

/// The holds of an artifact.
pub open spec fn held(holds: Seq<(ScopeText, Seq<ArtifactHoldModel>)>, key: ScopeText) -> Seq<
    ArtifactHoldModel,
> {
    match lookup(holds, key) {
        Some(list) => list,
        None => Seq::empty(),
    }
}

/// Whether one of the holds has the reason.
pub open spec fn has_reason(list: Seq<ArtifactHoldModel>, reason: ArtifactHoldReasonModel) -> bool {
    holds_of_some(list, |h: ArtifactHoldModel| h.reason == reason)
}

/// The holds with one more, unless the artifact is already held for that reason.
pub open spec fn with_hold(
    holds: Seq<(ScopeText, Seq<ArtifactHoldModel>)>,
    key: ScopeText,
    reason: ArtifactHoldReasonModel,
    at: u64,
) -> Seq<(ScopeText, Seq<ArtifactHoldModel>)> {
    if has_reason(held(holds, key), reason) {
        holds
    } else {
        put(
            holds,
            key,
            held(holds, key).push(ArtifactHoldModel { reason, created_at_epoch_seconds: at }),
        )
    }
}

/// The holds that have another reason.
pub open spec fn other_holds(
    list: Seq<ArtifactHoldModel>,
    reason: ArtifactHoldReasonModel,
) -> Seq<ArtifactHoldModel> {
    list.filter(|h: ArtifactHoldModel| h.reason != reason)
}

/// The holds without one of the artifact.
pub open spec fn without_hold(
    holds: Seq<(ScopeText, Seq<ArtifactHoldModel>)>,
    key: ScopeText,
    reason: ArtifactHoldReasonModel,
) -> Seq<(ScopeText, Seq<ArtifactHoldModel>)> {
    match lookup(holds, key) {
        None => holds,
        Some(list) => if other_holds(list, reason).len() == 0 {
            delete(holds, key)
        } else {
            put(holds, key, other_holds(list, reason))
        },
    }
}

/// The hold that a task has on what it consumes.
pub open spec fn consumed_by(process: Seq<char>, task: Seq<char>) -> spec_fn(ArtifactHoldReasonModel) -> bool {
    |h: ArtifactHoldReasonModel| h == (ArtifactHoldReasonModel::ConsumerTask { process, task })
}

/// The holds of a project without those whose reason is to go.
pub open spec fn released(
    holds: Seq<(ScopeText, Seq<ArtifactHoldModel>)>,
    tenant: Seq<char>,
    project: Seq<char>,
    gone: spec_fn(ArtifactHoldReasonModel) -> bool,
) -> Seq<(ScopeText, Seq<ArtifactHoldModel>)> {
    holds.map_values(
        |e: (ScopeText, Seq<ArtifactHoldModel>)|
            (e.0, kept_in_scope(e, tenant, project, gone)),
    ).filter(|e: (ScopeText, Seq<ArtifactHoldModel>)| e.1.len() > 0)
}

/// What is left of the holds of one artifact.
pub open spec fn kept_in_scope(
    e: (ScopeText, Seq<ArtifactHoldModel>),
    tenant: Seq<char>,
    project: Seq<char>,
    gone: spec_fn(ArtifactHoldReasonModel) -> bool,
) -> Seq<ArtifactHoldModel> {
    if e.0.0 == tenant && e.0.1 == project {
        e.1.filter(|h: ArtifactHoldModel| !gone(h.reason))
    } else {
        e.1
    }
}

/// The number of holds of the first `n` artifacts that are to go.
pub open spec fn released_count(
    holds: Seq<(ScopeText, Seq<ArtifactHoldModel>)>,
    tenant: Seq<char>,
    project: Seq<char>,
    gone: spec_fn(ArtifactHoldReasonModel) -> bool,
    n: int,
) -> int
    decreases n,
{
    if n <= 0 {
        0
    } else {
        released_count(holds, tenant, project, gone, n - 1) + holds[n - 1].1.len() - kept_in_scope(
            holds[n - 1],
            tenant,
            project,
            gone,
        ).len()
    }
}

/// A hold that ends with its process.
pub open spec fn of_process(reason: ArtifactHoldReasonModel, ended: Seq<char>) -> bool {
    match reason {
        ArtifactHoldReasonModel::ProcessRetention { process } => process == ended,
        ArtifactHoldReasonModel::ConsumerTask { process, task } => process == ended,
        ArtifactHoldReasonModel::RestartCheckpoint { process, task } => process == ended,
        _ => false,
    }
}

/// A sum of counts as a machine word holds it.
pub open spec fn capped(n: int) -> usize {
    if n > usize::MAX {
        usize::MAX
    } else {
        n as usize
    }
}

impl HoldList {
    /// Whether one of the holds has the reason.
    fn has(&self, reason: &ArtifactHoldReason) -> (r: bool)
        ensures
            r == has_reason(self@, reason@),
    {
        let ghost p = |h: ArtifactHoldModel| h.reason == reason@;
        let same = |h: &ArtifactHold| -> (b: bool)
            ensures
                b == (h@.reason == reason@),
        { h.reason.same_as(reason) };
        any_item(&self.items, same, Ghost(p))
    }

    /// The holds that are not to go.
    fn without<F: Fn(&ArtifactHoldReason) -> bool>(
        self,
        goes: &F,
        Ghost(gone): Ghost<spec_fn(ArtifactHoldReasonModel) -> bool>,
    ) -> (r: Self)
        requires
            picks(*goes, gone),
        ensures
            r@ == self@.filter(|h: ArtifactHoldModel| !gone(h.reason)),
            r@.len() <= self@.len(),
    {
        let ghost p = |h: ArtifactHoldModel| !gone(h.reason);
        let keep = |h: &ArtifactHold| -> (b: bool)
            ensures
                b == !gone(h@.reason),
        { !goes(&h.reason) };
        HoldList { items: keep_items(self.items, keep, Ghost(p)) }
    }
}

/// Whether a test of reasons decides `gone`.
pub open spec fn picks<F: Fn(&ArtifactHoldReason) -> bool>(
    test: F,
    gone: spec_fn(ArtifactHoldReasonModel) -> bool,
) -> bool {
    &&& forall|h: &ArtifactHoldReason| #[trigger] call_requires(test, (h,))
    &&& forall|h: &ArtifactHoldReason, b: bool| #[trigger]
        call_ensures(test, (h,), b) ==> b == gone(h@)
}

/// The key of an artifact.
pub fn artifact_scope_key(tenant: &TenantId, project: &ProjectId, artifact: &ArtifactId) -> (r: (
    TenantId,
    ProjectId,
    ArtifactId,
))
    ensures
        r.key() == (tenant@, project@, artifact@),
        r.0@ == tenant@,
        r.1@ == project@,
        r.2@ == artifact@,
{
    let key: ArtifactScopeKey = (
        tenant.clone(),
        project.clone(),
        artifact.clone(),
    );
    assert(key.key() == (tenant@, project@, artifact@));
    key
}

/// What a process that lets go of an artifact comes to.
pub open spec fn process_let_go(
    before: ArtifactRegistryModel,
    after: ArtifactRegistryModel,
    tenant: TenantId,
    project: ProjectId,
    process: ProcessId,
    artifact: ArtifactId,
    r: bool,
) -> bool {
    let key = (tenant@, project@, artifact@);
    let reason = ArtifactHoldReasonModel::ProcessRetention { process: process@ };
    &&& r == (other_holds(held(before.holds, key), reason).len() < held(
        before.holds,
        key,
    ).len())
    &&& after == (ArtifactRegistryModel {
        holds: without_hold(before.holds, key, reason),
        ..before
    })
}

impl ArtifactRegistry {
    /// A registry without artifacts.
    pub fn new() -> (r: Self)
        ensures
            r@.artifacts.len() == 0,
            r@.holds.len() == 0,
            r@.issued_download_links.len() == 0,
            r@.next_epoch == 0,
            well_formed(r@),
    {
        proof {
            reveal(ascending);
        }
        ArtifactRegistry {
            artifacts: OrderedMap::new(),
            holds: OrderedMap::new(),
            issued_download_links: OrderedMap::new(),
            next_epoch: 0,
        }
    }

    /// Holds an artifact for a reason. Tells whether it was not held for that reason before.
    pub fn add_hold(
        &mut self,
        tenant: &TenantId,
        project: &ProjectId,
        artifact: &ArtifactId,
        reason: ArtifactHoldReason,
        created_at_epoch_seconds: u64,
    ) -> (r: Result<bool, ArtifactUnavailable>)
        ensures
            hold_added(
                old(self)@,
                final(self)@,
                (tenant@, project@, artifact@),
                reason@,
                created_at_epoch_seconds,
                r,
            ),
            well_formed(old(self)@) ==> well_formed(final(self)@),
    {
        broadcast use lemma_put_delete;

        let key: ArtifactScopeKey = artifact_scope_key(tenant, project, artifact);
        if !self.artifacts.contains_key(&key) {
            return Err(ArtifactUnavailable {  });
        }
        match self.holds.get(&key) {
            Some(list) => {
                if list.has(&reason) {
                    return Ok(false);
                }
            },
            None => {},
        }
        let mut list: HoldList = match self.holds.remove(&key) {
            Some(list) => list,
            None => HoldList { items: Vec::new() },
        };
        let ghost before = list@;
        assert(before =~= held(old(self)@.holds, key.key()));
        let hold: ArtifactHold = ArtifactHold { reason, created_at_epoch_seconds };
        let ghost shown = hold@;
        list.items.push(hold);
        assert(list@ =~= before.push(shown));
        self.holds.insert(key, list);
        Ok(true)
    }

    /// Ends the hold of an artifact for a reason. Tells whether there was one.
    pub fn remove_hold(
        &mut self,
        tenant: &TenantId,
        project: &ProjectId,
        artifact: &ArtifactId,
        reason: &ArtifactHoldReason,
    ) -> (r: bool)
        ensures
            r == (other_holds(
                held(old(self)@.holds, (tenant@, project@, artifact@)),
                reason@,
            ).len() < held(old(self)@.holds, (tenant@, project@, artifact@)).len()),
            final(self)@ == (ArtifactRegistryModel {
                holds: without_hold(old(self)@.holds, (tenant@, project@, artifact@), reason@),
                ..old(self)@
            }),
            well_formed(old(self)@) ==> well_formed(final(self)@),
    {
        broadcast use lemma_put_delete;

        let key: ArtifactScopeKey = artifact_scope_key(tenant, project, artifact);
        let ghost gone = |h: ArtifactHoldReasonModel| h == reason@;
        match self.holds.remove(&key) {
            None => {
                assert(other_holds(Seq::empty(), reason@).len() == 0) by {
                    reveal(Seq::filter);
                }
                false
            },
            Some(list) => {
                let ghost before = list@;
                let count: usize = list.items.len();
                let goes = |h: &ArtifactHoldReason| -> (b: bool)
                    ensures
                        b == (h@ == reason@),
                { h.same_as(reason) };
                let left: HoldList = list.without(&goes, Ghost(gone));
                proof {
                    lemma_filter_agree(
                        before,
                        |h: ArtifactHoldModel| !gone(h.reason),
                        |h: ArtifactHoldModel| h.reason != reason@,
                    );
                }
                let rest: usize = left.items.len();
                if rest > 0 {
                    self.holds.insert(key, left);
                }
                rest < count
            },
        }
    }

    /// The holds of an artifact.
    pub fn holds(&self, tenant: &TenantId, project: &ProjectId, artifact: &ArtifactId) -> (r: Vec<
        ArtifactHold,
    >)
        ensures
            views(r@) == held(self@.holds, (tenant@, project@, artifact@)),
    {
        let key: ArtifactScopeKey = artifact_scope_key(tenant, project, artifact);
        match self.holds.get(&key) {
            Some(list) => copy_all(&list.items),
            None => {
                let none: Vec<ArtifactHold> = Vec::new();
                assert(views(none@) =~= Seq::empty());
                none
            },
        }
    }

    /// Ends the hold that a process has on an artifact of its own.
    pub fn release_process_hold(
        &mut self,
        tenant: &TenantId,
        project: &ProjectId,
        process: &ProcessId,
        artifact: &ArtifactId,
    ) -> (r: bool)
        ensures
            process_let_go(
                old(self)@,
                final(self)@,
                *tenant,
                *project,
                *process,
                *artifact,
                r,
            ),
            well_formed(old(self)@) ==> well_formed(final(self)@),
    {
        let reason: ArtifactHoldReason = ArtifactHoldReason::ProcessRetention {
            process: process.clone(),
        };
        self.remove_hold(tenant, project, artifact, &reason)
    }

    /// Ends the holds of a project whose reason is to go. Tells how many there were.
    fn release_matching<F: Fn(&ArtifactHoldReason) -> bool>(
        &mut self,
        tenant: &TenantId,
        project: &ProjectId,
        goes: F,
        Ghost(gone): Ghost<spec_fn(ArtifactHoldReasonModel) -> bool>,
    ) -> (r: usize)
        requires
            picks(goes, gone),
        ensures
            r == capped(
                released_count(
                    old(self)@.holds,
                    tenant@,
                    project@,
                    gone,
                    old(self)@.holds.len() as int,
                ),
            ),
            final(self)@ == (ArtifactRegistryModel {
                holds: released(old(self)@.holds, tenant@, project@, gone),
                ..old(self)@
            }),
            well_formed(old(self)@) ==> well_formed(final(self)@),
    {
        let ghost before = self.holds@;
        let ghost mapped = before.map_values(
            |e: (ScopeText, Seq<ArtifactHoldModel>)|
                (e.0, kept_in_scope(e, tenant@, project@, gone)),
        );
        let ghost nonempty = |e: (ScopeText, Seq<ArtifactHoldModel>)| e.1.len() > 0;
        let entries: Vec<(ArtifactScopeKey, HoldList)> = self.holds.take_entries();
        let mut kept: Vec<(ArtifactScopeKey, HoldList)> = Vec::new();
        let mut removed: usize = 0;
        assert(mapped.take(0).filter(nonempty) =~= Seq::empty()) by {
            reveal(Seq::filter);
        }
        assert(model(kept@) =~= mapped.take(0).filter(nonempty));
        for e in it: entries
            invariant
                before == model(it.seq()),
                mapped == before.map_values(
                    |e: (ScopeText, Seq<ArtifactHoldModel>)|
                        (e.0, kept_in_scope(e, tenant@, project@, gone)),
                ),
                nonempty == |e: (ScopeText, Seq<ArtifactHoldModel>)| e.1.len() > 0,
                picks(goes, gone),
                model(kept@) == mapped.take(it.index() as int).filter(nonempty),
                removed == capped(
                    released_count(before, tenant@, project@, gone, it.index() as int),
                ),
                0 <= released_count(before, tenant@, project@, gone, it.index() as int),
        {
            let ghost i = it.index() as int;
            let ghost earlier = kept@;
            proof {
                lemma_filter_step(mapped, nonempty, i);
                assert(before[i] == (e.0.key(), e.1@));
                assert(e.0.key() == (e.0.0@, e.0.1@, e.0.2@));
            }
            let (key, list) = e;
            let count: usize = list.items.len();
            let left: HoldList = if key.0 == *tenant && key.1 == *project {
                list.without(&goes, Ghost(gone))
            } else {
                list
            };
            let rest: usize = left.items.len();
            removed = removed.saturating_add(count - rest);
            let ghost pair = (key.key(), left@);
            assert(mapped[i] == pair);
            if rest > 0 {
                kept.push((key, left));
                assert(model(kept@) =~= model(earlier).push(pair));
            }
        }
        proof {
            assert(mapped.take(mapped.len() as int) =~= mapped);
            lemma_same_keys(before, mapped);
            lemma_filter_ascending(mapped, nonempty);
        }
        self.holds = OrderedMap::from_entries(kept);
        removed
    }

    /// Ends all holds that end with a process. Tells how many there were.
    pub fn release_process_holds(
        &mut self,
        tenant: &TenantId,
        project: &ProjectId,
        process: &ProcessId,
    ) -> (r: usize)
        ensures
            ({
                let gone = |h: ArtifactHoldReasonModel| of_process(h, process@);
                &&& r == capped(
                    released_count(
                        old(self)@.holds,
                        tenant@,
                        project@,
                        gone,
                        old(self)@.holds.len() as int,
                    ),
                )
                &&& final(self)@ == (ArtifactRegistryModel {
                    holds: released(old(self)@.holds, tenant@, project@, gone),
                    ..old(self)@
                })
            }),
            well_formed(old(self)@) ==> well_formed(final(self)@),
    {
        let ghost gone = |h: ArtifactHoldReasonModel| of_process(h, process@);
        let goes = |h: &ArtifactHoldReason| -> (b: bool)
            ensures
                b == of_process(h@, process@),
        {
            match h {
                ArtifactHoldReason::ProcessRetention { process: held } => *held == *process,
                ArtifactHoldReason::ConsumerTask { process: held, task: _ } => *held == *process,
                ArtifactHoldReason::RestartCheckpoint {
                    process: held,
                    task: _,
                } => *held == *process,
                _ => false,
            }
        };
        self.release_matching(tenant, project, goes, Ghost(gone))
    }

    /// Ends the holds that a consuming task has. Tells how many there were.
    pub fn release_task_holds(
        &mut self,
        tenant: &TenantId,
        project: &ProjectId,
        process: &ProcessId,
        task: &TaskInstanceId,
    ) -> (r: usize)
        ensures
            ({
                let gone = consumed_by(process@, task@);
                &&& r == capped(
                    released_count(
                        old(self)@.holds,
                        tenant@,
                        project@,
                        gone,
                        old(self)@.holds.len() as int,
                    ),
                )
                &&& final(self)@ == (ArtifactRegistryModel {
                    holds: released(old(self)@.holds, tenant@, project@, gone),
                    ..old(self)@
                })
            }),
            well_formed(old(self)@) ==> well_formed(final(self)@),
    {
        let ghost gone = consumed_by(process@, task@);
        let target: ArtifactHoldReason = ArtifactHoldReason::ConsumerTask {
            process: process.clone(),
            task: task.clone(),
        };
        let goes = |h: &ArtifactHoldReason| -> (b: bool)
            ensures
                b == (h@ == target@),
        { h.same_as(&target) };
        self.release_matching(tenant, project, goes, Ghost(gone))
    }

    /// Ends the holds that the restart checkpoint of a task has. Tells how many there were.
    pub fn release_restart_checkpoint_holds(
        &mut self,
        tenant: &TenantId,
        project: &ProjectId,
        process: &ProcessId,
        task: &TaskInstanceId,
    ) -> (r: usize)
        ensures
            ({
                let gone = |h: ArtifactHoldReasonModel|
                    h == (ArtifactHoldReasonModel::RestartCheckpoint {
                        process: process@,
                        task: task@,
                    });
                &&& r == capped(
                    released_count(
                        old(self)@.holds,
                        tenant@,
                        project@,
                        gone,
                        old(self)@.holds.len() as int,
                    ),
                )
                &&& final(self)@ == (ArtifactRegistryModel {
                    holds: released(old(self)@.holds, tenant@, project@, gone),
                    ..old(self)@
                })
            }),
            well_formed(old(self)@) ==> well_formed(final(self)@),
    {
        let ghost gone = |h: ArtifactHoldReasonModel|
            h == (ArtifactHoldReasonModel::RestartCheckpoint { process: process@, task: task@ });
        let target: ArtifactHoldReason = ArtifactHoldReason::RestartCheckpoint {
            process: process.clone(),
            task: task.clone(),
        };
        let goes = |h: &ArtifactHoldReason| -> (b: bool)
            ensures
                b == (h@ == target@),
        { h.same_as(&target) };
        self.release_matching(tenant, project, goes, Ghost(gone))
    }
}

/// An artifact of the project.
pub open spec fn in_project(
    e: (ScopeText, ArtifactMetadataModel),
    tenant: Seq<char>,
    project: Seq<char>,
) -> bool {
    e.1.tenant@ == tenant && e.1.project@ == project
}

/// The number of artifacts of a project.
pub open spec fn project_count(
    artifacts: Seq<(ScopeText, ArtifactMetadataModel)>,
    tenant: Seq<char>,
    project: Seq<char>,
) -> nat {
    artifacts.filter(|e: (ScopeText, ArtifactMetadataModel)| in_project(e, tenant, project)).len()
}

/// A link of the artifact that was not revoked.
pub open spec fn live_link(
    e: (Seq<char>, IssuedDownloadLink),
    metadata: ArtifactMetadataModel,
) -> bool {
    !e.1.revoked && e.1.link.tenant@ == metadata.tenant@ && e.1.link.project@ == metadata.project@
        && e.1.link.artifact@ == metadata.id@
}

/// Whether the metadata of an artifact may be dropped: it is of the project, nobody pins or
/// holds it, its process is not protected, it is in no explicit store, and no link leads to it.
pub open spec fn evictable(
    state: ArtifactRegistryModel,
    tenant: Seq<char>,
    project: Seq<char>,
    pinned: Set<ScopeText>,
    protected: Set<Seq<char>>,
    e: (ScopeText, ArtifactMetadataModel),
) -> bool {
    &&& in_project(e, tenant, project)
    &&& !pinned.contains(scope_of(e.1))
    &&& !protected.contains(e.1.process@)
    &&& held(state.holds, scope_of(e.1)).len() == 0
    &&& e.1.explicit_locations.len() == 0
    &&& !holds_of_some(
        state.issued_download_links,
        |l: (Seq<char>, IssuedDownloadLink)| live_link(l, e.1),
    )
}

/// Entry `i` is the oldest that `p` holds of.
pub open spec fn is_oldest(
    s: Seq<(ScopeText, ArtifactMetadataModel)>,
    p: spec_fn((ScopeText, ArtifactMetadataModel)) -> bool,
    i: int,
) -> bool {
    &&& 0 <= i < s.len()
    &&& p(s[i])
    &&& forall|j: int|
        0 <= j < s.len() && p(#[trigger] s[j]) ==> s[i].1.flushed_epoch <= s[j].1.flushed_epoch && (
        j < i ==> s[i].1.flushed_epoch < s[j].1.flushed_epoch)
}

/// The scope of the artifact that is dropped first.
pub open spec fn eviction_candidate(
    state: ArtifactRegistryModel,
    tenant: Seq<char>,
    project: Seq<char>,
    pinned: Set<ScopeText>,
    protected: Set<Seq<char>>,
) -> Option<ScopeText> {
    let p = |e: (ScopeText, ArtifactMetadataModel)|
        evictable(state, tenant, project, pinned, protected, e);
    if exists|i: int| is_oldest(state.artifacts, p, i) {
        Some(scope_of(state.artifacts[choose|i: int| is_oldest(state.artifacts, p, i)].1))
    } else {
        None
    }
}

/// The registry without an artifact.
pub open spec fn without_artifact(state: ArtifactRegistryModel, key: ScopeText) -> ArtifactRegistryModel {
    ArtifactRegistryModel {
        artifacts: delete(state.artifacts, key),
        holds: delete(state.holds, key),
        ..state
    }
}

/// The epoch after this one.
pub open spec fn next(epoch: u64) -> u64 {
    if epoch == u64::MAX {
        epoch
    } else {
        (epoch + 1) as u64
    }
}

/// The metadata of a flushed artifact.
pub open spec fn flushed(flush: ArtifactFlush, epoch: u64) -> ArtifactMetadataModel {
    ArtifactMetadataModel {
        id: flush.id,
        tenant: flush.tenant,
        project: flush.project,
        process: flush.process,
        producer_task: flush.producer_task,
        producer_node: flush.retaining_node,
        digest: flush.digest,
        size: flush.size,
        flushed_epoch: epoch,
        retaining_nodes: Set::empty().insert(flush.retaining_node@),
        explicit_locations: Seq::empty(),
        coordinator_has_large_bytes: false,
    }
}

/// The scope of a flushed artifact.
pub open spec fn flush_scope(flush: ArtifactFlush) -> ScopeText {
    (flush.tenant@, flush.project@, flush.id@)
}

/// Whether a flush needs room: its artifact is new, and the project has as many as it may have.
pub open spec fn needs_room(state: ArtifactRegistryModel, flush: ArtifactFlush) -> bool {
    lookup(state.artifacts, flush_scope(flush)) is None && project_count(
        state.artifacts,
        flush.tenant@,
        flush.project@,
    ) >= MAX_ARTIFACT_METADATA_PER_PROJECT
}

/// The artifact that makes room for a flush.
pub open spec fn flush_eviction(
    state: ArtifactRegistryModel,
    flush: ArtifactFlush,
    pinned: Set<ScopeText>,
    protected: Set<Seq<char>>,
) -> Option<ScopeText> {
    eviction_candidate(
        state,
        flush.tenant@,
        flush.project@,
        pinned,
        protected.insert(flush.process@),
    )
}

/// The registry with a flushed artifact, held by its process.
pub open spec fn with_artifact(state: ArtifactRegistryModel, flush: ArtifactFlush) -> ArtifactRegistryModel {
    let epoch = next(state.next_epoch);
    ArtifactRegistryModel {
        artifacts: put(state.artifacts, flush_scope(flush), flushed(flush, epoch)),
        holds: with_hold(
            state.holds,
            flush_scope(flush),
            ArtifactHoldReasonModel::ProcessRetention { process: flush.process@ },
            epoch,
        ),
        next_epoch: epoch,
        ..state
    }
}

/// The registry after a flush that was admitted.
pub open spec fn after_flush(
    state: ArtifactRegistryModel,
    flush: ArtifactFlush,
    pinned: Set<ScopeText>,
    protected: Set<Seq<char>>,
) -> ArtifactRegistryModel {
    if needs_room(state, flush) {
        with_artifact(
            without_artifact(state, flush_eviction(state, flush, pinned, protected)->Some_0),
            flush,
        )
    } else {
        with_artifact(state, flush)
    }
}

/// The registry after `n` evictions.
pub open spec fn after_evictions(
    state: ArtifactRegistryModel,
    tenant: Seq<char>,
    project: Seq<char>,
    pinned: Set<ScopeText>,
    protected: Set<Seq<char>>,
    n: int,
) -> ArtifactRegistryModel
    decreases n,
{
    if n <= 0 {
        state
    } else {
        let earlier = after_evictions(state, tenant, project, pinned, protected, n - 1);
        without_artifact(
            earlier,
            eviction_candidate(earlier, tenant, project, pinned, protected)->Some_0,
        )
    }
}

/// Whether a project has too many artifacts and one of them may be dropped.
pub open spec fn evicts(
    state: ArtifactRegistryModel,
    tenant: Seq<char>,
    project: Seq<char>,
    pinned: Set<ScopeText>,
    protected: Set<Seq<char>>,
) -> bool {
    project_count(state.artifacts, tenant, project) > MAX_ARTIFACT_METADATA_PER_PROJECT
        && eviction_candidate(state, tenant, project, pinned, protected) is Some
}

/// Unbinding keeps artifacts under their scopes.
proof fn lemma_delete_keyed(artifacts: Seq<(ScopeText, ArtifactMetadataModel)>, key: ScopeText)
    requires
        ascending(artifacts),
        keyed(artifacts),
    ensures
        keyed(delete(artifacts, key)),
        ascending(delete(artifacts, key)),
{
    let after = delete(artifacts, key);
    lemma_delete_ascending(artifacts, key);
    assert forall|i: int| 0 <= i < after.len() implies (#[trigger] after[i]).0 == scope_of(
        after[i].1,
    ) by {
        lemma_lookup_at(after, i);
        lemma_lookup_delete(artifacts, key, after[i].0);
        lemma_lookup_found(artifacts, after[i].0);
        let j = choose|j: int| bound_at(artifacts, after[i].0, j);
        assert(bound_at(artifacts, after[i].0, j));
        lemma_lookup_at(artifacts, j);
    }
}

/// Binding an artifact to its scope keeps all under theirs.
proof fn lemma_put_keyed(
    artifacts: Seq<(ScopeText, ArtifactMetadataModel)>,
    key: ScopeText,
    metadata: ArtifactMetadataModel,
)
    requires
        ascending(artifacts),
        keyed(artifacts),
        key == scope_of(metadata),
    ensures
        keyed(put(artifacts, key, metadata)),
        ascending(put(artifacts, key, metadata)),
{
    let after = put(artifacts, key, metadata);
    lemma_put_ascending(artifacts, key, metadata);
    assert forall|i: int| 0 <= i < after.len() implies (#[trigger] after[i]).0 == scope_of(
        after[i].1,
    ) by {
        lemma_lookup_at(after, i);
        lemma_lookup_put(artifacts, key, metadata, after[i].0);
        if after[i].0 != key {
            lemma_lookup_found(artifacts, after[i].0);
            let j = choose|j: int| bound_at(artifacts, after[i].0, j);
            assert(bound_at(artifacts, after[i].0, j));
            lemma_lookup_at(artifacts, j);
        }
    }
}

/// The candidate is the scope of the oldest artifact that may go.
proof fn lemma_candidate(
    state: ArtifactRegistryModel,
    tenant: Seq<char>,
    project: Seq<char>,
    pinned: Set<ScopeText>,
    protected: Set<Seq<char>>,
    i: int,
)
    requires
        is_oldest(
            state.artifacts,
            |e: (ScopeText, ArtifactMetadataModel)|
                evictable(state, tenant, project, pinned, protected, e),
            i,
        ),
    ensures
        eviction_candidate(state, tenant, project, pinned, protected) == Some(
            scope_of(state.artifacts[i].1),
        ),
{
    let p = |e: (ScopeText, ArtifactMetadataModel)|
        evictable(state, tenant, project, pinned, protected, e);
    let j = choose|j: int| is_oldest(state.artifacts, p, j);
    assert(is_oldest(state.artifacts, p, i));
    assert(is_oldest(state.artifacts, p, j));
    assert(p(state.artifacts[i]) && p(state.artifacts[j]));
    assert(i == j);
}

/// The candidate is an artifact that may go.
pub proof fn candidate_is_evictable(
    state: ArtifactRegistryModel,
    tenant: Seq<char>,
    project: Seq<char>,
    pinned: Set<ScopeText>,
    protected: Set<Seq<char>>,
)
    requires
        well_formed(state),
        eviction_candidate(state, tenant, project, pinned, protected) is Some,
    ensures
        ({
            let key = eviction_candidate(state, tenant, project, pinned, protected)->Some_0;
            &&& lookup(state.artifacts, key) matches Some(metadata)
            &&& scope_of(metadata) == key
            &&& evictable(state, tenant, project, pinned, protected, (key, metadata))
        }),
{
    let p = |e: (ScopeText, ArtifactMetadataModel)|
        evictable(state, tenant, project, pinned, protected, e);
    let i = choose|i: int| is_oldest(state.artifacts, p, i);
    assert(is_oldest(state.artifacts, p, i));
    lemma_lookup_at(state.artifacts, i);
    assert(p(state.artifacts[i]));
}

impl ArtifactRegistry {
    /// The artifact that is dropped first: the oldest that may go.
    fn project_metadata_eviction_candidate(
        &self,
        tenant: &TenantId,
        project: &ProjectId,
        pinned: &OrderedSet<ArtifactScopeKey>,
        protected_processes: &OrderedSet<ProcessId>,
    ) -> (r: Option<ArtifactScopeKey>)
        ensures
            r is Some <==> eviction_candidate(
                self@,
                tenant@,
                project@,
                pinned@,
                protected_processes@,
            ) is Some,
            r matches Some(key) ==> eviction_candidate(
                self@,
                tenant@,
                project@,
                pinned@,
                protected_processes@,
            ) == Some(key.key()),
    {
        let ghost p = |e: (ScopeText, ArtifactMetadataModel)|
            evictable(self@, tenant@, project@, pinned@, protected_processes@, e);
        let n: usize = self.artifacts.len();
        let mut best: Option<usize> = None;
        let mut i: usize = 0;
        while i < n
            invariant
                n == self@.artifacts.len(),
                self.artifacts@ == self@.artifacts,
                p == |e: (ScopeText, ArtifactMetadataModel)|
                    evictable(self@, tenant@, project@, pinned@, protected_processes@, e),
                0 <= i <= n,
                best matches Some(b) ==> is_oldest(self@.artifacts.take(i as int), p, b as int),
                best is None ==> forall|j: int| 0 <= j < i ==> !p(#[trigger] self@.artifacts[j]),
            decreases n - i,
        {
            let metadata: &ArtifactMetadata = self.artifacts.value_at(i);
            let goes: bool = self.is_evictable(
                metadata,
                tenant,
                project,
                pinned,
                protected_processes,
            );
            let ghost entry = self@.artifacts[i as int];
            assert(entry == (entry.0, metadata@));
            assert(goes == evictable(
                self@,
                tenant@,
                project@,
                pinned@,
                protected_processes@,
                (entry.0, metadata@),
            ));
            let ghost shorter = self@.artifacts.take(i as int);
            let ghost longer = self@.artifacts.take(i + 1);
            assert(forall|j: int| 0 <= j < i ==> shorter[j] == self@.artifacts[j]);
            assert(forall|j: int| 0 <= j <= i ==> longer[j] == self@.artifacts[j]);
            if goes {
                match best {
                    None => {
                        best = Some(i);
                        assert(is_oldest(longer, p, i as int));
                    },
                    Some(b) => {
                        assert(longer[b as int] == shorter[b as int]);
                        if metadata.flushed_epoch < self.artifacts.value_at(b).flushed_epoch {
                            best = Some(i);
                            assert forall|j: int| 0 <= j < longer.len() && p(#[trigger] longer[j]) implies
                                longer[i as int].1.flushed_epoch <= longer[j].1.flushed_epoch && (j
                                < i ==> longer[i as int].1.flushed_epoch
                                < longer[j].1.flushed_epoch) by {
                                if j < i {
                                    assert(p(shorter[j]));
                                }
                            }
                            assert(is_oldest(longer, p, i as int));
                        } else {
                            assert forall|j: int| 0 <= j < longer.len() && p(#[trigger] longer[j]) implies
                                longer[b as int].1.flushed_epoch <= longer[j].1.flushed_epoch && (j
                                < b ==> longer[b as int].1.flushed_epoch
                                < longer[j].1.flushed_epoch) by {
                                if j < i {
                                    assert(p(shorter[j]));
                                }
                            }
                            assert(is_oldest(longer, p, b as int));
                        }
                    },
                }
            } else {
                match best {
                    Some(b) => {
                        assert(longer[b as int] == shorter[b as int]);
                        assert forall|j: int| 0 <= j < longer.len() && p(#[trigger] longer[j]) implies
                            longer[b as int].1.flushed_epoch <= longer[j].1.flushed_epoch && (j < b
                            ==> longer[b as int].1.flushed_epoch < longer[j].1.flushed_epoch) by {
                            if j < i {
                                assert(p(shorter[j]));
                            }
                        }
                        assert(is_oldest(longer, p, b as int));
                    },
                    None => {},
                }
            }
            i = i + 1;
        }
        assert(self@.artifacts.take(n as int) =~= self@.artifacts);
        match best {
            Some(b) => {
                proof {
                    lemma_candidate(
                        self@,
                        tenant@,
                        project@,
                        pinned@,
                        protected_processes@,
                        b as int,
                    );
                }
                let metadata: &ArtifactMetadata = self.artifacts.value_at(b);
                Some(artifact_scope_key(&metadata.tenant, &metadata.project, &metadata.id))
            },
            None => {
                assert(forall|j: int| !is_oldest(self@.artifacts, p, j));
                None
            },
        }
    }

    /// Whether the metadata of an artifact may be dropped.
    fn is_evictable(
        &self,
        metadata: &ArtifactMetadata,
        tenant: &TenantId,
        project: &ProjectId,
        pinned: &OrderedSet<ArtifactScopeKey>,
        protected_processes: &OrderedSet<ProcessId>,
    ) -> (r: bool)
        ensures
            forall|key: ScopeText|
                r == #[trigger] evictable(
                    self@,
                    tenant@,
                    project@,
                    pinned@,
                    protected_processes@,
                    (key, metadata@),
                ),
    {
        let ghost p = |l: (Seq<char>, IssuedDownloadLink)| live_link(l, metadata@);
        let linked = |_token: &Digest, issued: &IssuedDownloadLink| -> (b: bool)
            ensures
                b == live_link((_token.key(), issued@), metadata@),
        {
            !issued.revoked && issued.link.tenant == metadata.tenant && issued.link.project
                == metadata.project && issued.link.artifact == metadata.id
        };
        let key: ArtifactScopeKey = artifact_scope_key(
            &metadata.tenant,
            &metadata.project,
            &metadata.id,
        );
        assert(metadata.process.key() == metadata.process@);
        let free: bool = match self.holds.get(&key) {
            Some(list) => list.items.len() == 0,
            None => true,
        };
        assert(metadata@.explicit_locations.len() == metadata.explicit_locations.items@.len());
        metadata.tenant == *tenant && metadata.project == *project && !pinned.contains(&key)
            && !protected_processes.contains(&metadata.process) && free
            && metadata.explicit_locations.items.len() == 0 && !self.issued_download_links.any(
            linked,
            Ghost(p),
        )
    }

    /// The number of artifacts of a project.
    fn project_metadata_count(&self, tenant: &TenantId, project: &ProjectId) -> (r: usize)
        ensures
            r == project_count(self@.artifacts, tenant@, project@),
    {
        let ghost p = |e: (ScopeText, ArtifactMetadataModel)| in_project(e, tenant@, project@);
        let found = |_key: &ArtifactScopeKey, metadata: &ArtifactMetadata| -> (b:
            bool)
            ensures
                b == (metadata@.tenant@ == tenant@ && metadata@.project@ == project@),
        { metadata.tenant == *tenant && metadata.project == *project };
        self.artifacts.count_where(found, Ghost(p))
    }

    /// Records an artifact that a node has written. Where the project has no room, the oldest
    /// artifact that may go makes room; if none may go, the flush is rejected.
    pub fn flush_metadata_with_protected_processes(
        &mut self,
        flush: ArtifactFlush,
        pinned: &OrderedSet<ArtifactScopeKey>,
        protected_processes: &OrderedSet<ProcessId>,
    ) -> (r: Result<ArtifactMetadata, String>)
        ensures
            metadata_flushed(
                old(self)@,
                final(self)@,
                flush,
                pinned@,
                protected_processes@,
                r,
            ),
            well_formed(old(self)@) ==> well_formed(final(self)@),
    {
        let ghost before = self@;
        let key: ArtifactScopeKey = artifact_scope_key(
            &flush.tenant,
            &flush.project,
            &flush.id,
        );
        let replacing: bool = self.artifacts.contains_key(&key);
        let retained: usize = self.project_metadata_count(&flush.tenant, &flush.project);
        let eviction: Option<ArtifactScopeKey> = if replacing || retained
            < MAX_ARTIFACT_METADATA_PER_PROJECT {
            None
        } else {
            let mut protected: OrderedSet<ProcessId> = protected_processes.copy_set();
            let process: ProcessId = flush.process.clone();
            assert(process.key() == flush.process@);
            let _fresh: bool = protected.insert(process);
            match self.project_metadata_eviction_candidate(
                &flush.tenant,
                &flush.project,
                pinned,
                &protected,
            ) {
                Some(candidate) => Some(candidate),
                None => {
                    return Err(
                        "artifact metadata capacity of 1024 is exhausted by active or retained artifacts".to_owned(),
                    );
                },
            }
        };
        self.next_epoch = self.next_epoch.saturating_add(1);
        let mut retaining_nodes: OrderedSet<NodeId> = OrderedSet::new();
        let node: NodeId = flush.retaining_node.clone();
        assert(node.key() == flush.retaining_node@);
        let _fresh: bool = retaining_nodes.insert(node);
        let metadata: ArtifactMetadata = ArtifactMetadata {
            id: flush.id.clone(),
            tenant: flush.tenant.clone(),
            project: flush.project.clone(),
            process: flush.process.clone(),
            producer_task: flush.producer_task.clone(),
            producer_node: flush.retaining_node.clone(),
            digest: flush.digest.clone(),
            size: flush.size,
            flushed_epoch: self.next_epoch,
            retaining_nodes,
            explicit_locations: TextList::empty(),
            coordinator_has_large_bytes: false,
        };
        assert(metadata@ =~= flushed(flush, next(before.next_epoch)));
        match &eviction {
            Some(gone) => {
                let _metadata: Option<ArtifactMetadata> = self.artifacts.remove(gone);
                let _holds: Option<HoldList> = self.holds.remove(gone);
            },
            None => {},
        }
        let ghost room = self@;
        let copy: ArtifactMetadata = metadata.duplicate();
        self.artifacts.insert(key, metadata);
        proof {
            lemma_lookup_put(room.artifacts, flush_scope(flush), copy@, flush_scope(flush));
        }
        let _held: Result<bool, ArtifactUnavailable> = self.add_hold(
            &flush.tenant,
            &flush.project,
            &flush.id,
            ArtifactHoldReason::ProcessRetention { process: flush.process.clone() },
            self.next_epoch,
        );
        proof {
            if well_formed(before) {
                if eviction is Some {
                    lemma_delete_keyed(before.artifacts, eviction->Some_0.key());
                    lemma_delete_ascending(before.holds, eviction->Some_0.key());
                }
                lemma_put_keyed(room.artifacts, flush_scope(flush), copy@);
                lemma_with_hold(
                    room.holds,
                    flush_scope(flush),
                    ArtifactHoldReasonModel::ProcessRetention { process: flush.process@ },
                    self.next_epoch,
                );
            }
        }
        Ok(copy)
    }

    /// Drops the oldest artifacts that may go, until the project has no more than it may have.
    /// Tells how many went.
    pub fn enforce_project_metadata_limit(
        &mut self,
        tenant: &TenantId,
        project: &ProjectId,
        pinned: &OrderedSet<ArtifactScopeKey>,
        protected_processes: &OrderedSet<ProcessId>,
    ) -> (r: usize)
        requires
            well_formed(old(self)@),
        ensures
            final(self)@ == after_evictions(
                old(self)@,
                tenant@,
                project@,
                pinned@,
                protected_processes@,
                r as int,
            ),
            !evicts(final(self)@, tenant@, project@, pinned@, protected_processes@),
            forall|n: int|
                0 <= n < r ==> evicts(
                    #[trigger] after_evictions(
                        old(self)@,
                        tenant@,
                        project@,
                        pinned@,
                        protected_processes@,
                        n,
                    ),
                    tenant@,
                    project@,
                    pinned@,
                    protected_processes@,
                ),
            well_formed(final(self)@),
    {
        let ghost start = self@;
        let ghost total = self@.artifacts.len();
        let size: usize = self.artifacts.len();
        let mut evicted: usize = 0;
        loop
            invariant
                well_formed(self@),
                size == total,
                self@.artifacts.len() + evicted == total,
                self@ == after_evictions(
                    start,
                    tenant@,
                    project@,
                    pinned@,
                    protected_processes@,
                    evicted as int,
                ),
                forall|n: int|
                    0 <= n < evicted ==> evicts(
                        #[trigger] after_evictions(
                            start,
                            tenant@,
                            project@,
                            pinned@,
                            protected_processes@,
                            n,
                        ),
                        tenant@,
                        project@,
                        pinned@,
                        protected_processes@,
                    ),
            ensures
                !evicts(self@, tenant@, project@, pinned@, protected_processes@),
            decreases self@.artifacts.len(),
        {
            if self.project_metadata_count(tenant, project) <= MAX_ARTIFACT_METADATA_PER_PROJECT {
                break;
            }
            match self.project_metadata_eviction_candidate(
                tenant,
                project,
                pinned,
                protected_processes,
            ) {
                None => {
                    break;
                },
                Some(candidate) => {
                    let ghost here = self@;
                    proof {
                        candidate_is_evictable(
                            here,
                            tenant@,
                            project@,
                            pinned@,
                            protected_processes@,
                        );
                        lemma_delete_keyed(here.artifacts, candidate.key());
                        lemma_delete_ascending(here.artifacts, candidate.key());
                        lemma_delete_ascending(here.holds, candidate.key());
                    }
                    let _metadata: Option<ArtifactMetadata> = self.artifacts.remove(&candidate);
                    let _holds: Option<HoldList> = self.holds.remove(&candidate);
                    evicted = evicted + 1;
                },
            }
        }
        evicted
    }
}

/// Taking a hold keeps the holds in key order.
proof fn lemma_with_hold(
    holds: Seq<(ScopeText, Seq<ArtifactHoldModel>)>,
    key: ScopeText,
    reason: ArtifactHoldReasonModel,
    at: u64,
)
    requires
        ascending(holds),
    ensures
        ascending(with_hold(holds, key, reason, at)),
{
    lemma_put_ascending(
        holds,
        key,
        held(holds, key).push(ArtifactHoldModel { reason, created_at_epoch_seconds: at }),
    );
}

/// The artifacts of a project after a change of their metadata.
pub open spec fn in_project_changed(
    artifacts: Seq<(ScopeText, ArtifactMetadataModel)>,
    tenant: Seq<char>,
    project: Seq<char>,
    change: spec_fn((ScopeText, ArtifactMetadataModel)) -> ArtifactMetadataModel,
) -> Seq<(ScopeText, ArtifactMetadataModel)> {
    artifacts.map_values(
        |e: (ScopeText, ArtifactMetadataModel)|
            if in_project(e, tenant, project) {
                (e.0, change(e))
            } else {
                e
            },
    )
}

/// The metadata of an artifact that a node no longer retains.
pub open spec fn not_on(metadata: ArtifactMetadataModel, node: Seq<char>) -> ArtifactMetadataModel {
    ArtifactMetadataModel { retaining_nodes: metadata.retaining_nodes.remove(node), ..metadata }
}

/// The metadata of an artifact that a node retains.
pub open spec fn also_on(metadata: ArtifactMetadataModel, node: Seq<char>) -> ArtifactMetadataModel {
    ArtifactMetadataModel { retaining_nodes: metadata.retaining_nodes.insert(node), ..metadata }
}

/// Metadata that keeps its scope leaves artifacts under theirs.
proof fn lemma_changed_keyed(
    before: Seq<(ScopeText, ArtifactMetadataModel)>,
    after: Seq<(ScopeText, ArtifactMetadataModel)>,
)
    requires
        keyed(before),
        before.len() == after.len(),
        forall|i: int|
            0 <= i < before.len() ==> (#[trigger] after[i]).0 == before[i].0 && scope_of(after[i].1)
                == scope_of(before[i].1),
    ensures
        keyed(after),
{
}

impl ArtifactRegistry {
    pub fn metadata(&self, tenant: &TenantId, project: &ProjectId, artifact: &ArtifactId) -> (r:
        Option<&ArtifactMetadata>)
        ensures
            r is Some <==> lookup(self@.artifacts, (tenant@, project@, artifact@)) is Some,
            r matches Some(metadata) ==> lookup(self@.artifacts, (tenant@, project@, artifact@))
                == Some(metadata@),
    {
        let key: ArtifactScopeKey = artifact_scope_key(tenant, project, artifact);
        self.artifacts.get(&key)
    }

    /// The artifacts of a project, in key order.
    pub fn metadata_for_project(&self, tenant: &TenantId, project: &ProjectId) -> (r: Vec<
        ArtifactMetadata,
    >)
        ensures
            views(r@) == self@.artifacts.filter_map(
                |e: (ScopeText, ArtifactMetadataModel)|
                    if in_project(e, tenant@, project@) {
                        Some(e.1)
                    } else {
                        None
                    },
            ),
    {
        let ghost g = |e: (ScopeText, ArtifactMetadataModel)|
            if in_project(e, tenant@, project@) {
                Some(e.1)
            } else {
                None
            };
        let choice = |_key: &ArtifactScopeKey, metadata: &ArtifactMetadata| -> (r:
            Option<ArtifactMetadata>)
            ensures
                option_view(r) == (if metadata@.tenant@ == tenant@ && metadata@.project@ == project@ {
                    Some(metadata@)
                } else {
                    None
                }),
        {
            if metadata.tenant == *tenant && metadata.project == *project {
                Some(metadata.duplicate())
            } else {
                None
            }
        };
        self.artifacts.collect(choice, Ghost(g))
    }

    /// Records that an artifact is in an explicit store.
    pub fn sync_to_explicit_store(
        &mut self,
        tenant: &TenantId,
        project: &ProjectId,
        artifact: &ArtifactId,
        location: String,
    ) -> (r: Result<(), ArtifactUnavailable>)
        ensures
            stored_explicitly(
                old(self)@,
                final(self)@,
                (tenant@, project@, artifact@),
                location@,
                r,
            ),
            well_formed(old(self)@) ==> well_formed(final(self)@),
    {
        broadcast use lemma_put_delete;

        let ghost before = self@;
        let key: ArtifactScopeKey = artifact_scope_key(tenant, project, artifact);
        match self.artifacts.remove(&key) {
            None => Err(ArtifactUnavailable {  }),
            Some(found) => {
                let mut metadata: ArtifactMetadata = found;
                let ghost earlier = metadata.explicit_locations@;
                let ghost shown = location@;
                metadata.explicit_locations.items.push(location);
                assert(metadata.explicit_locations@ =~= earlier.push(shown));
                proof {
                    if well_formed(before) {
                        lemma_keyed_lookup(before.artifacts, key.key());
                        lemma_put_keyed(before.artifacts, key.key(), metadata@);
                    }
                }
                self.artifacts.insert(key, metadata);
                Ok(())
            },
        }
    }

    /// Forgets that a node retains artifacts of a project.
    pub fn garbage_collect_node(&mut self, tenant: &TenantId, project: &ProjectId, node: &NodeId)
        ensures
            final(self)@ == node_collected(old(self)@, tenant@, project@, node@),
            well_formed(old(self)@) ==> well_formed(final(self)@),
    {
        let ghost before = self@;
        let ghost g = |e: (ScopeText, ArtifactMetadataModel)|
            if in_project(e, tenant@, project@) {
                not_on(e.1, node@)
            } else {
                e.1
            };
        assert(node.key() == node@);
        let update = |_key: &ArtifactScopeKey, metadata: ArtifactMetadata| -> (r:
            ArtifactMetadata)
            ensures
                r@ == (if metadata@.tenant@ == tenant@ && metadata@.project@ == project@ {
                    not_on(metadata@, node@)
                } else {
                    metadata@
                }),
        {
            let mut changed: ArtifactMetadata = metadata;
            assert(node.key() == node@);
            if changed.tenant == *tenant && changed.project == *project {
                let _was: bool = changed.retaining_nodes.remove(node);
            }
            changed
        };
        self.artifacts.update_values(update, Ghost(g));
        assert(self@.artifacts =~= in_project_changed(
            before.artifacts,
            tenant@,
            project@,
            |e: (ScopeText, ArtifactMetadataModel)| not_on(e.1, node@),
        ));
        proof {
            if well_formed(before) {
                lemma_changed_keyed(before.artifacts, self@.artifacts);
            }
        }
    }

    /// Forgets that a node retains an artifact, after the node has reported that it is gone. Tells
    /// whether the node was known to retain it.
    pub fn remove_retaining_location(
        &mut self,
        tenant: &TenantId,
        project: &ProjectId,
        artifact: &ArtifactId,
        node: &NodeId,
    ) -> (r: bool)
        ensures
            location_dropped(
                old(self)@,
                final(self)@,
                (tenant@, project@, artifact@),
                node@,
                r,
            ),
            well_formed(old(self)@) ==> well_formed(final(self)@),
    {
        broadcast use lemma_put_delete;

        let ghost before = self@;
        let key: ArtifactScopeKey = artifact_scope_key(tenant, project, artifact);
        assert(node.key() == node@);
        match self.artifacts.remove(&key) {
            None => false,
            Some(found) => {
                let mut metadata: ArtifactMetadata = found;
                let was: bool = metadata.retaining_nodes.remove(node);
                proof {
                    if well_formed(before) {
                        lemma_keyed_lookup(before.artifacts, key.key());
                        lemma_put_keyed(before.artifacts, key.key(), metadata@);
                    }
                }
                self.artifacts.insert(key, metadata);
                was
            },
        }
    }

    /// Records which artifacts of a project a node retains, after the node's full inventory.
    pub fn reconcile_node_retention(
        &mut self,
        tenant: &TenantId,
        project: &ProjectId,
        node: &NodeId,
        retained_artifacts: &OrderedSet<ArtifactId>,
    )
        ensures
            final(self)@ == retention_reconciled(
                old(self)@,
                tenant@,
                project@,
                node@,
                retained_artifacts@,
            ),
            well_formed(old(self)@) ==> well_formed(final(self)@),
    {
        let ghost before = self@;
        let ghost g = |e: (ScopeText, ArtifactMetadataModel)|
            if e.0.0 != tenant@ || e.0.1 != project@ {
                e.1
            } else if retained_artifacts@.contains(e.0.2) {
                also_on(e.1, node@)
            } else {
                not_on(e.1, node@)
            };
        let update = |key: &ArtifactScopeKey, metadata: ArtifactMetadata| -> (r:
            ArtifactMetadata)
            ensures
                r@ == (if key.key().0 != tenant@ || key.key().1 != project@ {
                    metadata@
                } else if retained_artifacts@.contains(key.key().2) {
                    also_on(metadata@, node@)
                } else {
                    not_on(metadata@, node@)
                }),
        {
            let mut changed: ArtifactMetadata = metadata;
            assert(node.key() == node@);
            assert(key.key() == (key.0@, key.1@, key.2@));
            assert(key.2.key() == key.2@);
            if key.0 == *tenant && key.1 == *project {
                if retained_artifacts.contains(&key.2) {
                    let held: NodeId = node.clone();
                    assert(held.key() == node@);
                    let _fresh: bool = changed.retaining_nodes.insert(held);
                } else {
                    let _was: bool = changed.retaining_nodes.remove(node);
                }
            }
            changed
        };
        self.artifacts.update_values(update, Ghost(g));
        proof {
            if well_formed(before) {
                lemma_changed_keyed(before.artifacts, self@.artifacts);
            }
        }
    }

    /// Records that a node retains an artifact, after the node has verified and installed its
    /// bytes.
    pub fn record_verified_retaining_location(
        &mut self,
        tenant: &TenantId,
        project: &ProjectId,
        artifact: &ArtifactId,
        node: &NodeId,
        digest: &Digest,
        size: u64,
    ) -> (r: Result<(), ArtifactUnavailable>)
        ensures
            location_verified(
                old(self)@,
                final(self)@,
                (tenant@, project@, artifact@),
                node@,
                digest@,
                size,
                r,
            ),
            well_formed(old(self)@) ==> well_formed(final(self)@),
    {
        broadcast use lemma_put_delete;

        let ghost before = self@;
        let key: ArtifactScopeKey = artifact_scope_key(tenant, project, artifact);
        match self.artifacts.get(&key) {
            None => {
                return Err(ArtifactUnavailable {  });
            },
            Some(metadata) => {
                if metadata.digest != *digest || metadata.size != size {
                    return Err(ArtifactUnavailable {  });
                }
            },
        }
        match self.artifacts.remove(&key) {
            None => {},
            Some(found) => {
                let mut metadata: ArtifactMetadata = found;
                let held: NodeId = node.clone();
                assert(held.key() == node@);
                let _fresh: bool = metadata.retaining_nodes.insert(held);
                proof {
                    if well_formed(before) {
                        lemma_keyed_lookup(before.artifacts, key.key());
                        lemma_put_keyed(before.artifacts, key.key(), metadata@);
                    }
                }
                self.artifacts.insert(key, metadata);
            },
        }
        Ok(())
    }

    /// The held artifacts of a project that a node retains, in key order, each with its holds.
    pub fn held_artifacts_on_node(&self, tenant: &TenantId, project: &ProjectId, node: &NodeId) -> (r:
        Vec<HeldArtifact>)
        ensures
            views(r@) == self@.artifacts.filter_map(
                |e: (ScopeText, ArtifactMetadataModel)| held_on(self@, e, tenant@, project@, node@),
            ),
    {
        let ghost g = |e: (ScopeText, ArtifactMetadataModel)|
            held_on(self@, e, tenant@, project@, node@);
        let choice = |_key: &ArtifactScopeKey, metadata: &ArtifactMetadata| -> (r:
            Option<HeldArtifact>)
            ensures
                option_view(r) == held_on(
                    self@,
                    (_key.key(), metadata@),
                    tenant@,
                    project@,
                    node@,
                ),
        {
            assert(node.key() == node@);
            if metadata.tenant != *tenant || metadata.project != *project
                || !metadata.retaining_nodes.contains(node) {
                None
            } else {
                let holds: Vec<ArtifactHold> = self.holds(tenant, project, &metadata.id);
                if holds.len() == 0 {
                    None
                } else {
                    Some(HeldArtifact { metadata: metadata.duplicate(), holds: HoldList { items: holds } })
                }
            }
        };
        self.artifacts.collect(choice, Ghost(g))
    }

    pub fn retained_download_link_count(&self) -> (r: usize)
        ensures
            r == self@.issued_download_links.len(),
    {
        self.issued_download_links.len()
    }

    pub fn artifact_count(&self) -> (r: usize)
        ensures
            r == self@.artifacts.len(),
    {
        self.artifacts.len()
    }

    pub fn current_epoch(&self) -> (r: u64)
        ensures
            r == self@.next_epoch,
    {
        self.next_epoch
    }
}

/// An artifact and what holds it.
pub struct HeldArtifact {
    pub metadata: ArtifactMetadata,
    pub holds: HoldList,
}

impl View for HeldArtifact {
    type V = (ArtifactMetadataModel, Seq<ArtifactHoldModel>);

    open spec fn view(&self) -> (ArtifactMetadataModel, Seq<ArtifactHoldModel>) {
        (self.metadata@, self.holds@)
    }
}

/// An artifact of the project with its holds, if the node retains it and it is held.
pub open spec fn held_on(
    state: ArtifactRegistryModel,
    e: (ScopeText, ArtifactMetadataModel),
    tenant: Seq<char>,
    project: Seq<char>,
    node: Seq<char>,
) -> Option<(ArtifactMetadataModel, Seq<ArtifactHoldModel>)> {
    let holds = held(state.holds, (tenant, project, e.1.id@));
    if in_project(e, tenant, project) && e.1.retaining_nodes.contains(node) && holds.len() > 0 {
        Some((e.1, holds))
    } else {
        None
    }
}

/// What stands under a scope is the artifact of that scope.
proof fn lemma_keyed_lookup(artifacts: Seq<(ScopeText, ArtifactMetadataModel)>, key: ScopeText)
    requires
        ascending(artifacts),
        keyed(artifacts),
        lookup(artifacts, key) is Some,
    ensures
        scope_of(lookup(artifacts, key)->Some_0) == key,
{
    lemma_lookup_found(artifacts, key);
    let j = choose|j: int| bound_at(artifacts, key, j);
    assert(bound_at(artifacts, key, j));
    lemma_lookup_at(artifacts, j);
}

/// Where an artifact is downloaded from: the first of the nodes that retain it or, if none does,
/// the first explicit store.
pub open spec fn is_source(metadata: ArtifactMetadataModel, source: StorageLocation) -> bool {
    match source {
        StorageLocation::RetainedNode(node) => is_least(metadata.retaining_nodes, node@),
        StorageLocation::ExplicitStore(location) => {
            &&& metadata.retaining_nodes == Set::<Seq<char>>::empty()
            &&& metadata.explicit_locations.len() > 0
            &&& location@ == metadata.explicit_locations[0]
        },
    }
}

/// Why a download is refused.
pub open spec fn download_refusal(
    state: ArtifactRegistryModel,
    key: ScopeText,
    authz: Authorization,
    max_bytes: u64,
) -> Option<DownloadError> {
    match lookup(state.artifacts, key) {
        None => Some(DownloadError::NotFound),
        Some(metadata) => if !authz.allowed {
            Some(DownloadError::Unauthorized(authz.reason))
        } else if metadata.size > max_bytes {
            Some(DownloadError::LimitExceeded { size: metadata.size, limit: max_bytes })
        } else if metadata.retaining_nodes == Set::<Seq<char>>::empty()
            && metadata.explicit_locations.len() == 0 {
            Some(DownloadError::Unavailable)
        } else {
            None
        },
    }
}

/// Tenant, project, process and artifact, each behind a slash but the first.
pub open spec fn artifact_path(metadata: ArtifactMetadataModel) -> Seq<char> {
    metadata.tenant@ + "/"@ + metadata.project@ + "/"@ + metadata.process@ + "/"@ + metadata.id@
}

/// The subject of an actor.
pub open spec fn actor_text(actor: Actor) -> Seq<char> {
    match actor {
        Actor::User(id) => "user:"@ + id@,
        Actor::Agent(id) => "agent:"@ + id@,
        Actor::Node(id) => "node:"@ + id@,
        Actor::Task(id) => "task:"@ + id@,
    }
}

pub fn actor_subject(actor: &Actor) -> (r: String)
    ensures
        r@ == actor_text(*actor),
{
    match actor {
        Actor::User(id) => concat2("user:", id.as_str()),
        Actor::Agent(id) => concat2("agent:", id.as_str()),
        Actor::Node(id) => concat2("node:", id.as_str()),
        Actor::Task(id) => concat2("task:", id.as_str()),
    }
}

/// The text of a location.
pub open spec fn location_text(source: StorageLocation) -> Seq<char> {
    match source {
        StorageLocation::RetainedNode(node) => "retained-node:"@ + node@,
        StorageLocation::ExplicitStore(location) => "explicit-store:"@ + location@,
    }
}

pub fn storage_location_key(source: &StorageLocation) -> (r: String)
    ensures
        r@ == location_text(*source),
{
    match source {
        StorageLocation::RetainedNode(node) => concat2("retained-node:", node.as_str()),
        StorageLocation::ExplicitStore(location) => concat2("explicit-store:", location.as_str()),
    }
}

fn artifact_path_text(metadata: &ArtifactMetadata) -> (r: String)
    ensures
        r@ == artifact_path(metadata@),
{
    let head: String = concat5(
        metadata.tenant.as_str(),
        "/",
        metadata.project.as_str(),
        "/",
        metadata.process.as_str(),
    );
    let tail: String = concat2("/", metadata.id.as_str());
    assert(artifact_path(metadata@) =~= head@ + tail@);
    concat2(head.as_str(), tail.as_str())
}

/// What the digest of a download's policy context is taken of.
pub open spec fn policy_context_parts(
    metadata: ArtifactMetadataModel,
    source: StorageLocation,
    max_bytes: u64,
) -> Seq<Seq<char>> {
    seq![
        "artifact-download-policy-context:v1"@,
        metadata.tenant@,
        metadata.project@,
        metadata.process@,
        metadata.id@,
        metadata.digest@,
        decimal(metadata.size as nat),
        location_text(source),
        decimal(max_bytes as nat),
    ]
}

/// What the digest of a download's token is taken of.
pub open spec fn download_token_parts(
    metadata: ArtifactMetadataModel,
    actor: Actor,
    token_nonce: Seq<char>,
    policy_context_digest: Seq<char>,
    expires_at: u64,
) -> Seq<Seq<char>> {
    seq![
        "artifact-download-token:v2"@,
        artifact_path(metadata),
        actor_text(actor),
        token_nonce,
        metadata.digest@,
        decimal(metadata.size as nat),
        policy_context_digest,
        decimal(expires_at as nat),
    ]
}

pub fn download_policy_context_parts(
    metadata: &ArtifactMetadata,
    source: &StorageLocation,
    policy: &DownloadPolicy,
) -> (r: TextList)
    ensures
        r@ == policy_context_parts(metadata@, *source, policy.max_bytes),
{
    let mut items: Vec<String> = Vec::new();
    items.push("artifact-download-policy-context:v1".to_owned());
    items.push(metadata.tenant.clone());
    items.push(metadata.project.clone());
    items.push(metadata.process.clone());
    items.push(metadata.id.clone());
    items.push(metadata.digest.clone());
    items.push(decimal_text(metadata.size));
    items.push(storage_location_key(source));
    items.push(decimal_text(policy.max_bytes));
    let parts: TextList = TextList { items };
    assert(parts@ =~= policy_context_parts(metadata@, *source, policy.max_bytes));
    parts
}

pub fn download_token_digest_parts(
    metadata: &ArtifactMetadata,
    actor: &Actor,
    token_nonce: &String,
    policy_context_digest: &Digest,
    expires_at_epoch_seconds: u64,
) -> (r: TextList)
    ensures
        r@ == download_token_parts(
            metadata@,
            *actor,
            token_nonce@,
            policy_context_digest@,
            expires_at_epoch_seconds,
        ),
{
    let mut items: Vec<String> = Vec::new();
    items.push("artifact-download-token:v2".to_owned());
    items.push(artifact_path_text(metadata));
    items.push(actor_subject(actor));
    items.push(token_nonce.clone());
    items.push(metadata.digest.clone());
    items.push(decimal_text(metadata.size));
    items.push(policy_context_digest.clone());
    items.push(decimal_text(expires_at_epoch_seconds));
    let parts: TextList = TextList { items };
    assert(parts@ =~= download_token_parts(
        metadata@,
        *actor,
        token_nonce@,
        policy_context_digest@,
        expires_at_epoch_seconds,
    ));
    parts
}

/// A link to the artifact.
pub open spec fn is_link(
    link: DownloadLink,
    metadata: ArtifactMetadataModel,
    actor: Actor,
    max_bytes: u64,
    expires_at: u64,
    policy_context_digest: Digest,
    scoped_token_digest: Digest,
) -> bool {
    &&& link.artifact@ == metadata.id@
    &&& link.artifact_digest@ == metadata.digest@
    &&& link.artifact_size_bytes == metadata.size
    &&& is_source(metadata, link.source)
    &&& link.url_path@ == "/artifacts/"@ + artifact_path(metadata)
    &&& link.scoped_token_digest@ == scoped_token_digest@
    &&& link.expires_at_epoch_seconds == expires_at
    &&& link.tenant@ == metadata.tenant@
    &&& link.project@ == metadata.project@
    &&& link.process@ == metadata.process@
    &&& link.actor == actor
    &&& link.max_bytes == max_bytes
    &&& link.policy_context_digest@ == policy_context_digest@
}

/// The reason for which a link holds its artifact.
pub open spec fn link_reason(token: Seq<char>) -> ArtifactHoldReasonModel {
    ArtifactHoldReasonModel::DownloadExport { token_digest: token }
}

/// The holds without those of the first `n` links that have expired.
pub open spec fn without_expired_holds(
    holds: Seq<(ScopeText, Seq<ArtifactHoldModel>)>,
    links: Seq<(Seq<char>, IssuedDownloadLink)>,
    now: u64,
    n: int,
) -> Seq<(ScopeText, Seq<ArtifactHoldModel>)>
    decreases n,
{
    if n <= 0 {
        holds
    } else {
        let earlier = without_expired_holds(holds, links, now, n - 1);
        let link = links[n - 1].1.link;
        if link.expires_at_epoch_seconds < now {
            without_hold(
                earlier,
                (link.tenant@, link.project@, link.artifact@),
                link_reason(link.scoped_token_digest@),
            )
        } else {
            earlier
        }
    }
}

/// A link that is still remembered.
pub open spec fn remembered(e: (Seq<char>, IssuedDownloadLink), now: u64) -> bool {
    e.1.link.expires_at_epoch_seconds + DOWNLOAD_LINK_TOMBSTONE_SECONDS >= now
}

/// The registry after links have expired: they hold nothing, and the old ones are forgotten.
pub open spec fn links_expired(state: ArtifactRegistryModel, now: u64) -> ArtifactRegistryModel {
    ArtifactRegistryModel {
        holds: without_expired_holds(
            state.holds,
            state.issued_download_links,
            now,
            state.issued_download_links.len() as int,
        ),
        issued_download_links: state.issued_download_links.filter(
            |e: (Seq<char>, IssuedDownloadLink)| remembered(e, now),
        ),
        ..state
    }
}

/// A link of the artifact.
pub open spec fn link_to(e: (Seq<char>, IssuedDownloadLink), key: ScopeText) -> bool {
    e.1.link.tenant@ == key.0 && e.1.link.project@ == key.1 && e.1.link.artifact@ == key.2
}

/// The number of links that an artifact has.
pub open spec fn link_count(links: Seq<(Seq<char>, IssuedDownloadLink)>, key: ScopeText) -> nat {
    links.filter(|e: (Seq<char>, IssuedDownloadLink)| link_to(e, key)).len()
}

/// The registry with a new link, which holds its artifact.
pub open spec fn with_link(
    state: ArtifactRegistryModel,
    key: ScopeText,
    link: DownloadLink,
    now: u64,
) -> ArtifactRegistryModel {
    ArtifactRegistryModel {
        issued_download_links: put(
            state.issued_download_links,
            link.scoped_token_digest@,
            IssuedDownloadLink { link, revoked: false },
        ),
        holds: with_hold(state.holds, key, link_reason(link.scoped_token_digest@), now),
        ..state
    }
}

/// The registry after a link was revoked.
pub open spec fn with_revoked(
    state: ArtifactRegistryModel,
    token: Seq<char>,
    link: DownloadLink,
) -> ArtifactRegistryModel {
    ArtifactRegistryModel {
        issued_download_links: put(
            state.issued_download_links,
            token,
            IssuedDownloadLink { link, revoked: true },
        ),
        holds: without_hold(
            state.holds,
            (link.tenant@, link.project@, link.artifact@),
            link_reason(link.scoped_token_digest@),
        ),
        ..state
    }
}

/// Whether a presented token is that of a link which the actor has to the artifact.
pub open spec fn own_link(
    state: ArtifactRegistryModel,
    context: AuthContext,
    artifact: Seq<char>,
    token: Seq<char>,
) -> bool {
    lookup(state.issued_download_links, token) matches Some(issued) && link_to(
        (token, issued),
        (context.tenant@, context.project@, artifact),
    ) && issued.link.actor.same(&context.actor)
}

/// What a request to fetch an artifact comes to.
pub open spec fn action_offered(
    s: ArtifactRegistryModel,
    context: AuthContext,
    authz: Authorization,
    artifact: ArtifactId,
    policy: DownloadPolicy,
    r: Result<DownloadAction, DownloadError>,
) -> bool {
    let key = (context.tenant@, context.project@, artifact@);
    match download_refusal(s, key, authz, policy.max_bytes) {
        Some(error) => r == Err::<DownloadAction, DownloadError>(error),
        None => {
            let metadata = lookup(s.artifacts, key)->Some_0;
            &&& r matches Ok(action)
            &&& action.artifact@ == artifact@
            &&& is_source(metadata, action.source)
            &&& action.scoped_token_subject@ == artifact_path(metadata)
            &&& scope_of(metadata) == key
        },
    }
}

impl ArtifactRegistry {
    /// Where an artifact can be downloaded from. An artifact of another tenant or project is not
    /// found. `authz` is what is decided of the caller and the scope of the artifact.
    pub fn download_action(
        &self,
        context: &AuthContext,
        authz: &Authorization,
        artifact: &ArtifactId,
        policy: &DownloadPolicy,
    ) -> (r: Result<DownloadAction, DownloadError>)
        requires
            well_formed(self@),
        ensures
            action_offered(
                self@,
                *context,
                *authz,
                *artifact,
                *policy,
                r,
            ),
    {
        let metadata: &ArtifactMetadata = match self.metadata(
            &context.tenant,
            &context.project,
            artifact,
        ) {
            Some(metadata) => metadata,
            None => {
                return Err(DownloadError::NotFound);
            },
        };
        proof {
            lemma_keyed_lookup(
                self@.artifacts,
                (context.tenant@, context.project@, artifact@),
            );
        }
        if !authz.allowed {
            return Err(DownloadError::Unauthorized(authz.reason.clone()));
        }
        if metadata.size > policy.max_bytes {
            return Err(
                DownloadError::LimitExceeded { size: metadata.size, limit: policy.max_bytes },
            );
        }
        let source: StorageLocation = match metadata.retaining_nodes.first() {
            Some(node) => {
                assert(node.key() == node@);
                assert(metadata@.retaining_nodes.contains(node@));
                StorageLocation::RetainedNode(node.clone())
            },
            None => {
                assert(metadata@.retaining_nodes =~= Set::<Seq<char>>::empty());
                if metadata.explicit_locations.items.len() == 0 {
                    return Err(DownloadError::Unavailable);
                }
                StorageLocation::ExplicitStore(metadata.explicit_locations.items[0].clone())
            },
        };
        Ok(
            DownloadAction {
                artifact: artifact.clone(),
                source,
                scoped_token_subject: artifact_path_text(metadata),
            },
        )
    }

    pub fn downloadable_size(
        &self,
        context: &AuthContext,
        authz: &Authorization,
        artifact: &ArtifactId,
        policy: &DownloadPolicy,
    ) -> (r: Result<u64, DownloadError>)
        requires
            well_formed(self@),
        ensures
            ({
                let key = (context.tenant@, context.project@, artifact@);
                r == (match download_refusal(self@, key, *authz, policy.max_bytes) {
                    Some(error) => Err::<u64, DownloadError>(error),
                    None => Ok(lookup(self@.artifacts, key)->Some_0.size),
                })
            }),
    {
        match self.download_action(context, authz, artifact, policy) {
            Err(error) => Err(error),
            Ok(_action) => match self.metadata(&context.tenant, &context.project, artifact) {
                Some(metadata) => Ok(metadata.size),
                None => Err(DownloadError::NotFound),
            },
        }
    }

    /// Ends the holds of links that have expired, and forgets links some time after.
    pub fn expire_download_links(&mut self, now_epoch_seconds: u64)
        ensures
            final(self)@ == links_expired(old(self)@, now_epoch_seconds),
            well_formed(old(self)@) ==> well_formed(final(self)@),
    {
        let ghost before = self@;
        let ghost links = self@.issued_download_links;
        let n: usize = self.issued_download_links.len();
        let mut i: usize = 0;
        proof {
            if well_formed(before) {
                lemma_expired_holds_ordered(before.holds, links, now_epoch_seconds, links.len() as int);
            }
        }
        while i < n
            invariant
                n == links.len(),
                0 <= i <= n,
                self.issued_download_links@ == links,
                self@ == (ArtifactRegistryModel {
                    holds: without_expired_holds(before.holds, links, now_epoch_seconds, i as int),
                    ..before
                }),
            decreases n - i,
        {
            let link: DownloadLink = self.issued_download_links.value_at(i).link.duplicate();
            if link.expires_at_epoch_seconds < now_epoch_seconds {
                let reason: ArtifactHoldReason = ArtifactHoldReason::DownloadExport {
                    token_digest: link.scoped_token_digest,
                };
                let _was: bool = self.remove_hold(
                    &link.tenant,
                    &link.project,
                    &link.artifact,
                    &reason,
                );
            }
            i = i + 1;
        }
        let ghost p = |e: (Seq<char>, IssuedDownloadLink)| remembered(e, now_epoch_seconds);
        let keep = |_token: &Digest, issued: &IssuedDownloadLink| -> (b: bool)
            ensures
                b == remembered((_token.key(), issued@), now_epoch_seconds),
        {
            issued.link.expires_at_epoch_seconds.saturating_add(DOWNLOAD_LINK_TOMBSTONE_SECONDS)
                >= now_epoch_seconds
        };
        self.issued_download_links.retain(keep, Ghost(p));
        proof {
            if well_formed(before) {
                lemma_filter_holds_keys(links, p, links_key());
            }
        }
    }

    /// Hands out a link to an artifact. `policy_context_digest` and `scoped_token_digest` are the
    /// digests of [`download_policy_context_parts`] and [`download_token_digest_parts`].
    pub fn create_download_link(
        &mut self,
        context: &AuthContext,
        authz: &Authorization,
        artifact: &ArtifactId,
        policy: &DownloadPolicy,
        policy_context_digest: Digest,
        scoped_token_digest: Digest,
        now_epoch_seconds: u64,
        ttl_seconds: u64,
    ) -> (r: Result<DownloadLink, DownloadError>)
        requires
            well_formed(old(self)@),
        ensures
            link_created(
                old(self)@,
                final(self)@,
                *context,
                *authz,
                artifact@,
                policy.max_bytes,
                policy_context_digest,
                scoped_token_digest,
                now_epoch_seconds,
                ttl_seconds,
                r,
            ),
            well_formed(final(self)@),
    {
        self.expire_download_links(now_epoch_seconds);
        let ghost state = self@;
        let ghost key = (context.tenant@, context.project@, artifact@);
        let ghost p = |e: (Seq<char>, IssuedDownloadLink)| link_to(e, key);
        let found = |_token: &Digest, issued: &IssuedDownloadLink| -> (b: bool)
            ensures
                b == link_to(
                    (_token.key(), issued@),
                    (context.tenant@, context.project@, artifact@),
                ),
        {
            issued.link.tenant == context.tenant && issued.link.project == context.project
                && issued.link.artifact == *artifact
        };
        let count: usize = self.issued_download_links.count_where(found, Ghost(p));
        if count >= MAX_ISSUED_DOWNLOAD_LINKS_PER_ARTIFACT {
            return Err(
                DownloadError::Usage(
                    "artifact download session limit reached; revoke a link or wait for expiry".to_owned(),
                ),
            );
        }
        let action: DownloadAction = match self.download_action(context, authz, artifact, policy) {
            Ok(action) => action,
            Err(error) => {
                return Err(error);
            },
        };
        let metadata: &ArtifactMetadata = match self.metadata(
            &context.tenant,
            &context.project,
            artifact,
        ) {
            Some(metadata) => metadata,
            None => {
                return Err(DownloadError::NotFound);
            },
        };
        let path: String = artifact_path_text(metadata);
        let link: DownloadLink = DownloadLink {
            artifact: artifact.clone(),
            artifact_digest: metadata.digest.clone(),
            artifact_size_bytes: metadata.size,
            source: action.source,
            url_path: concat2("/artifacts/", path.as_str()),
            scoped_token_digest,
            expires_at_epoch_seconds: now_epoch_seconds.saturating_add(ttl_seconds),
            tenant: metadata.tenant.clone(),
            project: metadata.project.clone(),
            process: metadata.process.clone(),
            actor: context.actor.copy(),
            max_bytes: policy.max_bytes,
            policy_context_digest,
        };
        let token: Digest = link.scoped_token_digest.clone();
        assert(token.key() == link.scoped_token_digest@);
        self.issued_download_links.insert(
            token,
            IssuedDownloadLink { link: link.duplicate(), revoked: false },
        );
        let _held: Result<bool, ArtifactUnavailable> = self.add_hold(
            &link.tenant,
            &link.project,
            &link.artifact,
            ArtifactHoldReason::DownloadExport { token_digest: link.scoped_token_digest.clone() },
            now_epoch_seconds,
        );
        proof {
            lemma_put_holds_keys(
                state.issued_download_links,
                link.scoped_token_digest@,
                IssuedDownloadLink { link, revoked: false },
                links_key(),
            );
            lemma_with_hold(
                state.holds,
                key,
                link_reason(link.scoped_token_digest@),
                now_epoch_seconds,
            );
        }
        Ok(link)
    }

    /// Revokes a link that the actor has to the artifact.
    pub fn revoke_download_link(
        &mut self,
        context: &AuthContext,
        authz: &Authorization,
        artifact: &ArtifactId,
        presented_token_digest: &Digest,
    ) -> (r: Result<DownloadLink, DownloadError>)
        requires
            well_formed(old(self)@),
        ensures
            link_revoked(
                old(self)@,
                final(self)@,
                *context,
                *authz,
                artifact@,
                presented_token_digest@,
                r,
            ),
            well_formed(final(self)@),
    {
        broadcast use lemma_put_delete;

        assert(presented_token_digest.key() == presented_token_digest@);
        let link: DownloadLink = match self.issued_download_links.get(presented_token_digest) {
            Some(issued) => {
                if issued.link.tenant != context.tenant || issued.link.project != context.project
                    || issued.link.artifact != *artifact || !issued.link.actor.same_as(
                    &context.actor,
                ) {
                    return Err(DownloadError::InvalidToken);
                }
                issued.link.duplicate()
            },
            None => {
                return Err(DownloadError::InvalidToken);
            },
        };
        match self.download_action(context, authz, artifact, &DownloadPolicy { max_bytes: link.max_bytes }) {
            Ok(_action) => {},
            Err(error) => {
                return Err(error);
            },
        }
        let ghost before = self@;
        let token: Digest = presented_token_digest.clone();
        assert(token.key() == presented_token_digest@);
        self.issued_download_links.insert(
            token,
            IssuedDownloadLink { link: link.duplicate(), revoked: true },
        );
        let reason: ArtifactHoldReason = ArtifactHoldReason::DownloadExport {
            token_digest: link.scoped_token_digest.clone(),
        };
        let _was: bool = self.remove_hold(&link.tenant, &link.project, &link.artifact, &reason);
        proof {
            lemma_found_holds_key(
                before.issued_download_links,
                presented_token_digest@,
                links_key(),
            );
            lemma_put_holds_keys(
                before.issued_download_links,
                presented_token_digest@,
                IssuedDownloadLink { link, revoked: true },
                links_key(),
            );
            lemma_without_hold(
                before.holds,
                (link.tenant@, link.project@, link.artifact@),
                link_reason(link.scoped_token_digest@),
            );
        }
        Ok(link)
    }

    pub fn issued_download_link(&self, token: &Digest) -> (r: Option<&IssuedDownloadLink>)
        ensures
            r is Some <==> lookup(self@.issued_download_links, token@) is Some,
            r matches Some(issued) ==> lookup(self@.issued_download_links, token@) == Some(*issued),
    {
        assert(token.key() == token@);
        self.issued_download_links.get(token)
    }
}

/// A time that does not go past the last.
pub open spec fn saturating(at: int) -> u64 {
    if at > u64::MAX {
        u64::MAX
    } else {
        at as u64
    }
}

/// Ending a hold keeps the holds in key order.
proof fn lemma_without_hold(
    holds: Seq<(ScopeText, Seq<ArtifactHoldModel>)>,
    key: ScopeText,
    reason: ArtifactHoldReasonModel,
)
    requires
        ascending(holds),
    ensures
        ascending(without_hold(holds, key, reason)),
{
    lemma_delete_ascending(holds, key);
    lemma_put_ascending(holds, key, other_holds(held(holds, key), reason));
}

proof fn lemma_expired_holds_ordered(
    holds: Seq<(ScopeText, Seq<ArtifactHoldModel>)>,
    links: Seq<(Seq<char>, IssuedDownloadLink)>,
    now: u64,
    n: int,
)
    requires
        ascending(holds),
    ensures
        ascending(without_expired_holds(holds, links, now, n)),
    decreases n,
{
    if n > 0 {
        lemma_expired_holds_ordered(holds, links, now, n - 1);
        let link = links[n - 1].1.link;
        lemma_without_hold(
            without_expired_holds(holds, links, now, n - 1),
            (link.tenant@, link.project@, link.artifact@),
            link_reason(link.scoped_token_digest@),
        );
    }
}

/// What comes of a hold on an artifact.
pub open spec fn hold_added(
    before: ArtifactRegistryModel,
    after: ArtifactRegistryModel,
    key: ScopeText,
    reason: ArtifactHoldReasonModel,
    at: u64,
    r: Result<bool, ArtifactUnavailable>,
) -> bool {
    if lookup(before.artifacts, key) is None {
        r is Err && after == before
    } else {
        &&& r == Ok::<bool, ArtifactUnavailable>(!has_reason(held(before.holds, key), reason))
        &&& after == (ArtifactRegistryModel {
            holds: with_hold(before.holds, key, reason, at),
            ..before
        })
    }
}

/// What comes of an artifact that was flushed.
pub open spec fn metadata_flushed(
    before: ArtifactRegistryModel,
    after: ArtifactRegistryModel,
    flush: ArtifactFlush,
    pinned: Set<ScopeText>,
    protected: Set<Seq<char>>,
    r: Result<ArtifactMetadata, String>,
) -> bool {
    let rejected = needs_room(before, flush) && flush_eviction(
        before,
        flush,
        pinned,
        protected,
    ) is None;
    &&& rejected ==> r is Err && after == before && r->Err_0@
        == "artifact metadata capacity of 1024 is exhausted by active or retained artifacts"@
    &&& !rejected ==> {
        &&& r matches Ok(metadata)
        &&& metadata@ == flushed(flush, next(before.next_epoch))
        &&& after == after_flush(before, flush, pinned, protected)
    }
}

/// What comes of a node that says that it has an artifact.
pub open spec fn location_verified(
    before: ArtifactRegistryModel,
    after: ArtifactRegistryModel,
    key: ScopeText,
    node: Seq<char>,
    digest: Seq<char>,
    size: u64,
    r: Result<(), ArtifactUnavailable>,
) -> bool {
    match lookup(before.artifacts, key) {
        Some(metadata) if metadata.digest@ == digest && metadata.size == size => r is Ok && after == (
        ArtifactRegistryModel {
            artifacts: put(before.artifacts, key, also_on(metadata, node)),
            ..before
        }),
        _ => r is Err && after == before,
    }
}

/// What comes of a node that no longer has an artifact.
pub open spec fn location_dropped(
    before: ArtifactRegistryModel,
    after: ArtifactRegistryModel,
    key: ScopeText,
    node: Seq<char>,
    r: bool,
) -> bool {
    match lookup(before.artifacts, key) {
        None => !r && after == before,
        Some(metadata) => r == metadata.retaining_nodes.contains(node) && after == (
        ArtifactRegistryModel {
            artifacts: put(before.artifacts, key, not_on(metadata, node)),
            ..before
        }),
    }
}

/// What comes of an artifact that was put into a store.
pub open spec fn stored_explicitly(
    before: ArtifactRegistryModel,
    after: ArtifactRegistryModel,
    key: ScopeText,
    location: Seq<char>,
    r: Result<(), ArtifactUnavailable>,
) -> bool {
    match lookup(before.artifacts, key) {
        None => r is Err && after == before,
        Some(metadata) => r is Ok && after == (ArtifactRegistryModel {
            artifacts: put(
                before.artifacts,
                key,
                ArtifactMetadataModel {
                    explicit_locations: metadata.explicit_locations.push(location),
                    ..metadata
                },
            ),
            ..before
        }),
    }
}

/// The registry after a node lost everything of a project.
pub open spec fn node_collected(
    state: ArtifactRegistryModel,
    tenant: Seq<char>,
    project: Seq<char>,
    node: Seq<char>,
) -> ArtifactRegistryModel {
    ArtifactRegistryModel {
        artifacts: in_project_changed(
            state.artifacts,
            tenant,
            project,
            |e: (ScopeText, ArtifactMetadataModel)| not_on(e.1, node),
        ),
        ..state
    }
}

/// The registry after a node said what it has of a project.
pub open spec fn retention_reconciled(
    state: ArtifactRegistryModel,
    tenant: Seq<char>,
    project: Seq<char>,
    node: Seq<char>,
    retained: Set<Seq<char>>,
) -> ArtifactRegistryModel {
    ArtifactRegistryModel {
        artifacts: state.artifacts.map_values(
            |e: (ScopeText, ArtifactMetadataModel)|
                if e.0.0 != tenant || e.0.1 != project {
                    e
                } else if retained.contains(e.0.2) {
                    (e.0, also_on(e.1, node))
                } else {
                    (e.0, not_on(e.1, node))
                },
        ),
        ..state
    }
}

/// What comes of asking for a link to an artifact.
pub open spec fn link_created(
    before: ArtifactRegistryModel,
    after: ArtifactRegistryModel,
    context: AuthContext,
    authz: Authorization,
    artifact: Seq<char>,
    max_bytes: u64,
    policy_context_digest: Digest,
    scoped_token_digest: Digest,
    now: u64,
    ttl: u64,
    r: Result<DownloadLink, DownloadError>,
) -> bool {
    let key = (context.tenant@, context.project@, artifact);
    let state = links_expired(before, now);
    if link_count(state.issued_download_links, key) >= MAX_ISSUED_DOWNLOAD_LINKS_PER_ARTIFACT {
        &&& r matches Err(DownloadError::Usage(message))
        &&& message@
            == "artifact download session limit reached; revoke a link or wait for expiry"@
        &&& after == state
    } else {
        match download_refusal(state, key, authz, max_bytes) {
            Some(error) => r == Err::<DownloadLink, DownloadError>(error) && after == state,
            None => {
                &&& r matches Ok(link)
                &&& is_link(
                    link,
                    lookup(state.artifacts, key)->Some_0,
                    context.actor,
                    max_bytes,
                    saturating(now + ttl),
                    policy_context_digest,
                    scoped_token_digest,
                )
                &&& after == with_link(state, key, link, now)
            },
        }
    }
}

/// What comes of revoking a link.
pub open spec fn link_revoked(
    before: ArtifactRegistryModel,
    after: ArtifactRegistryModel,
    context: AuthContext,
    authz: Authorization,
    artifact: Seq<char>,
    token: Seq<char>,
    r: Result<DownloadLink, DownloadError>,
) -> bool {
    let key = (context.tenant@, context.project@, artifact);
    if !own_link(before, context, artifact, token) {
        r == Err::<DownloadLink, DownloadError>(DownloadError::InvalidToken) && after == before
    } else {
        let link = lookup(before.issued_download_links, token)->Some_0.link;
        match download_refusal(before, key, authz, link.max_bytes) {
            Some(error) => r == Err::<DownloadLink, DownloadError>(error) && after == before,
            None => r == Ok::<DownloadLink, DownloadError>(link) && after == with_revoked(
                before,
                token,
                link,
            ),
        }
    }
}

/// Whether a flush is admitted.
pub open spec fn flush_admitted(
    state: ArtifactRegistryModel,
    flush: ArtifactFlush,
    pinned: Set<ScopeText>,
    protected: Set<Seq<char>>,
) -> bool {
    needs_room(state, flush) ==> flush_eviction(state, flush, pinned, protected) is Some
}

/// A flush changes no artifact of another project, even one with the same identifier.
pub proof fn flush_leaves_other_projects_alone(
    state: ArtifactRegistryModel,
    flush: ArtifactFlush,
    pinned: Set<ScopeText>,
    protected: Set<Seq<char>>,
    key: ScopeText,
)
    requires
        well_formed(state),
        flush_admitted(state, flush, pinned, protected),
        key.0 != flush.tenant@ || key.1 != flush.project@,
    ensures
        lookup(after_flush(state, flush, pinned, protected).artifacts, key) == lookup(
            state.artifacts,
            key,
        ),
        held(after_flush(state, flush, pinned, protected).holds, key) == held(state.holds, key),
{
    broadcast use lemma_lookup_put, lemma_lookup_delete;

    if needs_room(state, flush) {
        let all = protected.insert(flush.process@);
        candidate_is_evictable(state, flush.tenant@, flush.project@, pinned, all);
        let gone = flush_eviction(state, flush, pinned, protected)->Some_0;
        lemma_delete_ascending(state.artifacts, gone);
        lemma_delete_ascending(state.holds, gone);
    }
}

/// A flush keeps every artifact of its project that is pinned, held, of a protected process, in an
/// explicit store, or linked to.
pub proof fn flush_spares_the_protected(
    state: ArtifactRegistryModel,
    flush: ArtifactFlush,
    pinned: Set<ScopeText>,
    protected: Set<Seq<char>>,
    key: ScopeText,
)
    requires
        well_formed(state),
        flush_admitted(state, flush, pinned, protected),
        key != flush_scope(flush),
        lookup(state.artifacts, key) matches Some(metadata) && !evictable(
            state,
            flush.tenant@,
            flush.project@,
            pinned,
            protected.insert(flush.process@),
            (key, metadata),
        ),
    ensures
        lookup(after_flush(state, flush, pinned, protected).artifacts, key) == lookup(
            state.artifacts,
            key,
        ),
{
    broadcast use lemma_lookup_put, lemma_lookup_delete;

    if needs_room(state, flush) {
        let all = protected.insert(flush.process@);
        candidate_is_evictable(state, flush.tenant@, flush.project@, pinned, all);
        let gone = flush_eviction(state, flush, pinned, protected)->Some_0;
        lemma_delete_ascending(state.artifacts, gone);
    }
}

/// A flush never takes a project past the most artifacts that it may have.
pub proof fn flush_keeps_projects_bounded(
    state: ArtifactRegistryModel,
    flush: ArtifactFlush,
    pinned: Set<ScopeText>,
    protected: Set<Seq<char>>,
    tenant: Seq<char>,
    project: Seq<char>,
)
    requires
        well_formed(state),
        flush_admitted(state, flush, pinned, protected),
        project_count(state.artifacts, tenant, project) <= MAX_ARTIFACT_METADATA_PER_PROJECT,
    ensures
        project_count(after_flush(state, flush, pinned, protected).artifacts, tenant, project)
            <= MAX_ARTIFACT_METADATA_PER_PROJECT,
{
    let p = |e: (ScopeText, ArtifactMetadataModel)| in_project(e, tenant, project);
    let q = |e: (ScopeText, ArtifactMetadataModel)|
        in_project(e, flush.tenant@, flush.project@);
    let scope = flush_scope(flush);
    let metadata = flushed(flush, next(state.next_epoch));
    if needs_room(state, flush) {
        let all = protected.insert(flush.process@);
        candidate_is_evictable(state, flush.tenant@, flush.project@, pinned, all);
        let gone = flush_eviction(state, flush, pinned, protected)->Some_0;
        let room = delete(state.artifacts, gone);
        lemma_delete_ascending(state.artifacts, gone);
        lemma_count_delete(state.artifacts, gone, p);
        lemma_count_delete(room, scope, p);
        lemma_count_put(room, scope, metadata, p);
        lemma_lookup_delete(state.artifacts, gone, scope);
    } else {
        lemma_count_delete(state.artifacts, scope, p);
        lemma_count_put(state.artifacts, scope, metadata, p);
        if p((scope, metadata)) {
            assert(tenant == flush.tenant@ && project == flush.project@);
            if lookup(state.artifacts, scope) is Some {
                lemma_keyed_lookup(state.artifacts, scope);
            }
        }
    }
}

/// No artifact has more links than it may have.
pub open spec fn links_bounded(state: ArtifactRegistryModel) -> bool {
    forall|key: ScopeText|
        #[trigger] link_count(state.issued_download_links, key)
            <= MAX_ISSUED_DOWNLOAD_LINKS_PER_ARTIFACT
}

/// Expiry and new links keep the number of links of each artifact bounded.
pub proof fn links_stay_bounded(
    state: ArtifactRegistryModel,
    key: ScopeText,
    link: DownloadLink,
    now: u64,
)
    requires
        well_formed(state),
        links_bounded(state),
        link_to((link.scoped_token_digest@, IssuedDownloadLink { link, revoked: false }), key),
    ensures
        links_bounded(links_expired(state, now)),
        link_count(links_expired(state, now).issued_download_links, key)
            < MAX_ISSUED_DOWNLOAD_LINKS_PER_ARTIFACT ==> links_bounded(
            with_link(links_expired(state, now), key, link, now),
        ),
{
    let p = |e: (Seq<char>, IssuedDownloadLink)| remembered(e, now);
    let mid = links_expired(state, now);
    assert forall|k: ScopeText| #[trigger]
        link_count(mid.issued_download_links, k) <= MAX_ISSUED_DOWNLOAD_LINKS_PER_ARTIFACT by {
        lemma_filter_fewer(
            state.issued_download_links,
            p,
            |e: (Seq<char>, IssuedDownloadLink)| link_to(e, k),
        );
        assert(link_count(state.issued_download_links, k)
            <= MAX_ISSUED_DOWNLOAD_LINKS_PER_ARTIFACT);
    }
    lemma_filter_ascending(state.issued_download_links, p);
    if link_count(mid.issued_download_links, key) < MAX_ISSUED_DOWNLOAD_LINKS_PER_ARTIFACT {
        let token = link.scoped_token_digest@;
        let issued = IssuedDownloadLink { link, revoked: false };
        let after = with_link(mid, key, link, now);
        assert forall|k: ScopeText| #[trigger]
            link_count(after.issued_download_links, k) <= MAX_ISSUED_DOWNLOAD_LINKS_PER_ARTIFACT by {
            let q = |e: (Seq<char>, IssuedDownloadLink)| link_to(e, k);
            lemma_count_delete(mid.issued_download_links, token, q);
            lemma_count_put(mid.issued_download_links, token, issued, q);
            assert(link_count(mid.issued_download_links, k)
                <= MAX_ISSUED_DOWNLOAD_LINKS_PER_ARTIFACT);
        }
    }
}

/// Revoking a link changes no number of links, and leaves the link revoked.
pub proof fn revocation_keeps_link_counts(
    state: ArtifactRegistryModel,
    context: AuthContext,
    artifact: Seq<char>,
    token: Seq<char>,
    key: ScopeText,
)
    requires
        well_formed(state),
        own_link(state, context, artifact, token),
    ensures
        ({
            let link = lookup(state.issued_download_links, token)->Some_0.link;
            let after = with_revoked(state, token, link);
            &&& link_count(after.issued_download_links, key) == link_count(
                state.issued_download_links,
                key,
            )
            &&& lookup(after.issued_download_links, token) == Some(
                IssuedDownloadLink { link, revoked: true },
            )
        }),
{
    let link = lookup(state.issued_download_links, token)->Some_0.link;
    let q = |e: (Seq<char>, IssuedDownloadLink)| link_to(e, key);
    let issued = IssuedDownloadLink { link, revoked: true };
    lemma_count_delete(state.issued_download_links, token, q);
    lemma_count_put(state.issued_download_links, token, issued, q);
    lemma_lookup_put(state.issued_download_links, token, issued, token);
}

} // verus!
