//! Artifact transfers between nodes: what is recorded of them, and the leases that authorize them.
use vstd::prelude::*;
use vstd::string::*;

use crate::duplicate::{Duplicate, TextList};
use crate::ids::{ArtifactId, Digest, NodeId, ProcessId, ProjectId, TenantId};
use crate::node_registry::{IrohEndpointAdvertisement, IrohEndpointAdvertisementModel};

verus! {

/// Where a transfer stands.
#[derive(Clone, Copy, Debug, PartialEq, Eq, Structural)]
pub enum ArtifactTransferState {
    Requested,
    SourceSelected,
    Connecting,
    WaitingForDirect,
    Transferring,
    Verifying,
    Retrying,
    Completed,
    Failed,
    Cancelled,
    Expired,
}

/// What a transfer is shown to be doing.
#[derive(Clone, Copy, Debug, PartialEq, Eq, Structural)]
pub enum ArtifactTransferPhase {
    Queued,
    Connecting,
    WaitingForDirect,
    Transferring,
    Verifying,
    Complete,
}

/// By which path the bytes of a transfer travel.
#[derive(Clone, Copy, Debug, PartialEq, Eq, Structural)]
pub enum ClusterfluxPathKind {
    Local,
    Direct,
    Relayed,
    Unknown,
}

/// Whether the bytes of a transfer may travel through a relay.
#[derive(Clone, Copy, Debug, PartialEq, Eq, Structural)]
pub enum ArtifactRelayPolicy {
    DirectRequired,
    RelayFallbackAllowed,
}

/// How far a node has taken up its part in a transfer.
#[derive(Clone, Copy, Debug, PartialEq, Eq, Structural)]
pub enum ArtifactAssignmentState {
    Offered,
    Acknowledged,
    Ready,
}

/// The part of a node in a transfer.
#[derive(Clone, Copy, Debug, PartialEq, Eq, Structural)]
pub enum ArtifactAssignmentRole {
    Provider,
    Receiver,
}

/// Why a transfer failed. Codes that decide nothing here are told apart by their number.
#[derive(Clone, Copy, Debug, PartialEq, Eq, Structural)]
pub enum ArtifactTransferErrorCode {
    NoArtifactLocation,
    RangeInvalid,
    EndpointAdvertisementMissing,
    CapacityUnavailable,
    DirectPathTimeout,
    RelayPathForbidden,
    ArtifactMissingAtSource,
    TransferCancelled,
    TransferLeaseExpired,
    SourceNodeOffline,
    DestinationNodeOffline,
    Other(u64),
}

/// What is recorded of a transfer.
pub struct ArtifactTransferRecord {
    pub transfer_id: String,
    pub tenant: TenantId,
    pub project: ProjectId,
    pub process: ProcessId,
    pub artifact: ArtifactId,
    pub source_node: NodeId,
    pub destination_node: NodeId,
    pub bytes_completed: u64,
    pub path_kind: ClusterfluxPathKind,
    pub state: ArtifactTransferState,
    pub created_at: u64,
    pub updated_at: u64,
    pub expires_at: u64,
    pub stream_ticket_expires_at: u64,
    pub last_progress_at: u64,
    pub total_bytes: u64,
    pub phase: ArtifactTransferPhase,
    pub failure_code: Option<ArtifactTransferErrorCode>,
    pub attempt_count: u32,
}

impl View for ArtifactTransferRecord {
    type V = ArtifactTransferRecord;

    open spec fn view(&self) -> ArtifactTransferRecord {
        *self
    }
}

impl Duplicate for ArtifactTransferRecord {
    fn duplicate(&self) -> (r: Self) {
        ArtifactTransferRecord {
            transfer_id: self.transfer_id.clone(),
            tenant: self.tenant.clone(),
            project: self.project.clone(),
            process: self.process.clone(),
            artifact: self.artifact.clone(),
            source_node: self.source_node.clone(),
            destination_node: self.destination_node.clone(),
            bytes_completed: self.bytes_completed,
            path_kind: self.path_kind,
            state: self.state,
            created_at: self.created_at,
            updated_at: self.updated_at,
            expires_at: self.expires_at,
            stream_ticket_expires_at: self.stream_ticket_expires_at,
            last_progress_at: self.last_progress_at,
            total_bytes: self.total_bytes,
            phase: self.phase,
            failure_code: self.failure_code,
            attempt_count: self.attempt_count,
        }
    }
}

/// What a transfer may move, between whom, and until when.
pub struct ArtifactTransferLease {
    pub transfer_id: String,
    pub tenant: TenantId,
    pub project: ProjectId,
    pub process: ProcessId,
    pub artifact: ArtifactId,
    pub digest: Digest,
    pub size_bytes: u64,
    pub source_node: NodeId,
    pub source_endpoint_id: String,
    pub destination_node: NodeId,
    pub destination_endpoint_id: String,
    pub allowed_offset: u64,
    pub maximum_bytes: u64,
    pub relay_policy: ArtifactRelayPolicy,
    pub direct_path_deadline_ms: u64,
    pub expires_at: u64,
    pub active_lease_expires_at: u64,
    pub nonce: String,
}

impl View for ArtifactTransferLease {
    type V = ArtifactTransferLease;

    open spec fn view(&self) -> ArtifactTransferLease {
        *self
    }
}

impl Duplicate for ArtifactTransferLease {
    fn duplicate(&self) -> (r: Self) {
        ArtifactTransferLease {
            transfer_id: self.transfer_id.clone(),
            tenant: self.tenant.clone(),
            project: self.project.clone(),
            process: self.process.clone(),
            artifact: self.artifact.clone(),
            digest: self.digest.clone(),
            size_bytes: self.size_bytes,
            source_node: self.source_node.clone(),
            source_endpoint_id: self.source_endpoint_id.clone(),
            destination_node: self.destination_node.clone(),
            destination_endpoint_id: self.destination_endpoint_id.clone(),
            allowed_offset: self.allowed_offset,
            maximum_bytes: self.maximum_bytes,
            relay_policy: self.relay_policy,
            direct_path_deadline_ms: self.direct_path_deadline_ms,
            expires_at: self.expires_at,
            active_lease_expires_at: self.active_lease_expires_at,
            nonce: self.nonce.clone(),
        }
    }
}

/// The other end of a transfer.
pub struct AuthorizedPeerEndpoint {
    pub node: NodeId,
    pub endpoint_id: String,
    pub generation: u64,
    pub direct_addresses: TextList,
    pub relay_urls: TextList,
}

/// The model of [`AuthorizedPeerEndpoint`].
#[verifier::ext_equal]
pub struct AuthorizedPeerEndpointModel {
    pub node: NodeId,
    pub endpoint_id: String,
    pub generation: u64,
    pub direct_addresses: Seq<Seq<char>>,
    pub relay_urls: Seq<Seq<char>>,
}

impl View for AuthorizedPeerEndpoint {
    type V = AuthorizedPeerEndpointModel;

    open spec fn view(&self) -> AuthorizedPeerEndpointModel {
        AuthorizedPeerEndpointModel {
            node: self.node,
            endpoint_id: self.endpoint_id,
            generation: self.generation,
            direct_addresses: self.direct_addresses@,
            relay_urls: self.relay_urls@,
        }
    }
}

impl Duplicate for AuthorizedPeerEndpoint {
    fn duplicate(&self) -> (r: Self) {
        AuthorizedPeerEndpoint {
            node: self.node.clone(),
            endpoint_id: self.endpoint_id.clone(),
            generation: self.generation,
            direct_addresses: self.direct_addresses.duplicate(),
            relay_urls: self.relay_urls.duplicate(),
        }
    }
}

/// What a node needs to take its part in a transfer.
pub struct ArtifactTransferAuthorization {
    pub lease: ArtifactTransferLease,
    pub transfer_secret: [u8; 32],
    pub peer: AuthorizedPeerEndpoint,
}

/// The model of [`ArtifactTransferAuthorization`].
#[verifier::ext_equal]
pub struct ArtifactTransferAuthorizationModel {
    pub lease: ArtifactTransferLease,
    pub transfer_secret: [u8; 32],
    pub peer: AuthorizedPeerEndpointModel,
}

impl View for ArtifactTransferAuthorization {
    type V = ArtifactTransferAuthorizationModel;

    open spec fn view(&self) -> ArtifactTransferAuthorizationModel {
        ArtifactTransferAuthorizationModel {
            lease: self.lease,
            transfer_secret: self.transfer_secret,
            peer: self.peer@,
        }
    }
}

impl Duplicate for ArtifactTransferAuthorization {
    fn duplicate(&self) -> (r: Self) {
        ArtifactTransferAuthorization {
            lease: self.lease.duplicate(),
            transfer_secret: self.transfer_secret,
            peer: self.peer.duplicate(),
        }
    }
}

/// A transfer, and how far each of its two nodes has taken it up.
pub struct InterchangeTransfer {
    pub record: ArtifactTransferRecord,
    pub destination_authorization: ArtifactTransferAuthorization,
    pub provider_authorization: ArtifactTransferAuthorization,
    pub destination_assignment: ArtifactAssignmentState,
    pub provider_assignment: ArtifactAssignmentState,
    pub destination_acknowledged_at: Option<u64>,
    pub provider_acknowledged_at: Option<u64>,
    pub metered_body_bytes: u64,
}

/// The model of [`InterchangeTransfer`].
#[verifier::ext_equal]
pub struct InterchangeTransferModel {
    pub record: ArtifactTransferRecord,
    pub destination_authorization: ArtifactTransferAuthorizationModel,
    pub provider_authorization: ArtifactTransferAuthorizationModel,
    pub destination_assignment: ArtifactAssignmentState,
    pub provider_assignment: ArtifactAssignmentState,
    pub destination_acknowledged_at: Option<u64>,
    pub provider_acknowledged_at: Option<u64>,
    pub metered_body_bytes: u64,
}

impl View for InterchangeTransfer {
    type V = InterchangeTransferModel;

    open spec fn view(&self) -> InterchangeTransferModel {
        InterchangeTransferModel {
            record: self.record,
            destination_authorization: self.destination_authorization@,
            provider_authorization: self.provider_authorization@,
            destination_assignment: self.destination_assignment,
            provider_assignment: self.provider_assignment,
            destination_acknowledged_at: self.destination_acknowledged_at,
            provider_acknowledged_at: self.provider_acknowledged_at,
            metered_body_bytes: self.metered_body_bytes,
        }
    }
}

impl Duplicate for InterchangeTransfer {
    fn duplicate(&self) -> (r: Self) {
        InterchangeTransfer {
            record: self.record.duplicate(),
            destination_authorization: self.destination_authorization.duplicate(),
            provider_authorization: self.provider_authorization.duplicate(),
            destination_assignment: self.destination_assignment,
            provider_assignment: self.provider_assignment,
            destination_acknowledged_at: self.destination_acknowledged_at,
            provider_acknowledged_at: self.provider_acknowledged_at,
            metered_body_bytes: self.metered_body_bytes,
        }
    }
}

/// A state that a transfer does not leave.
pub open spec fn is_terminal(state: ArtifactTransferState) -> bool {
    state == ArtifactTransferState::Completed || state == ArtifactTransferState::Failed || state
        == ArtifactTransferState::Cancelled || state == ArtifactTransferState::Expired
}

/// What a transfer in a state is shown to be doing.
pub open spec fn phase_of(state: ArtifactTransferState) -> ArtifactTransferPhase {
    match state {
        ArtifactTransferState::Requested => ArtifactTransferPhase::Queued,
        ArtifactTransferState::SourceSelected => ArtifactTransferPhase::Queued,
        ArtifactTransferState::Retrying => ArtifactTransferPhase::Queued,
        ArtifactTransferState::Connecting => ArtifactTransferPhase::Connecting,
        ArtifactTransferState::WaitingForDirect => ArtifactTransferPhase::WaitingForDirect,
        ArtifactTransferState::Transferring => ArtifactTransferPhase::Transferring,
        ArtifactTransferState::Verifying => ArtifactTransferPhase::Verifying,
        ArtifactTransferState::Completed => ArtifactTransferPhase::Complete,
        ArtifactTransferState::Failed => ArtifactTransferPhase::Complete,
        ArtifactTransferState::Cancelled => ArtifactTransferPhase::Complete,
        ArtifactTransferState::Expired => ArtifactTransferPhase::Complete,
    }
}

/// The name of a state.
pub open spec fn state_text(state: ArtifactTransferState) -> Seq<char> {
    match state {
        ArtifactTransferState::Requested => "Requested"@,
        ArtifactTransferState::SourceSelected => "SourceSelected"@,
        ArtifactTransferState::Connecting => "Connecting"@,
        ArtifactTransferState::WaitingForDirect => "WaitingForDirect"@,
        ArtifactTransferState::Transferring => "Transferring"@,
        ArtifactTransferState::Verifying => "Verifying"@,
        ArtifactTransferState::Retrying => "Retrying"@,
        ArtifactTransferState::Completed => "Completed"@,
        ArtifactTransferState::Failed => "Failed"@,
        ArtifactTransferState::Cancelled => "Cancelled"@,
        ArtifactTransferState::Expired => "Expired"@,
    }
}

impl ArtifactTransferState {
    pub fn terminal(self) -> (r: bool)
        ensures
            r == is_terminal(self),
    {
        matches!(
            self,
            ArtifactTransferState::Completed
                | ArtifactTransferState::Failed
                | ArtifactTransferState::Cancelled
                | ArtifactTransferState::Expired
        )
    }

    pub fn phase(self) -> (r: ArtifactTransferPhase)
        ensures
            r == phase_of(self),
    {
        match self {
            ArtifactTransferState::Requested => ArtifactTransferPhase::Queued,
            ArtifactTransferState::SourceSelected => ArtifactTransferPhase::Queued,
            ArtifactTransferState::Retrying => ArtifactTransferPhase::Queued,
            ArtifactTransferState::Connecting => ArtifactTransferPhase::Connecting,
            ArtifactTransferState::WaitingForDirect => ArtifactTransferPhase::WaitingForDirect,
            ArtifactTransferState::Transferring => ArtifactTransferPhase::Transferring,
            ArtifactTransferState::Verifying => ArtifactTransferPhase::Verifying,
            ArtifactTransferState::Completed => ArtifactTransferPhase::Complete,
            ArtifactTransferState::Failed => ArtifactTransferPhase::Complete,
            ArtifactTransferState::Cancelled => ArtifactTransferPhase::Complete,
            ArtifactTransferState::Expired => ArtifactTransferPhase::Complete,
        }
    }

    pub fn name(self) -> (r: &'static str)
        ensures
            r@ == state_text(self),
    {
        match self {
            ArtifactTransferState::Requested => "Requested",
            ArtifactTransferState::SourceSelected => "SourceSelected",
            ArtifactTransferState::Connecting => "Connecting",
            ArtifactTransferState::WaitingForDirect => "WaitingForDirect",
            ArtifactTransferState::Transferring => "Transferring",
            ArtifactTransferState::Verifying => "Verifying",
            ArtifactTransferState::Retrying => "Retrying",
            ArtifactTransferState::Completed => "Completed",
            ArtifactTransferState::Failed => "Failed",
            ArtifactTransferState::Cancelled => "Cancelled",
            ArtifactTransferState::Expired => "Expired",
        }
    }
}

/// The rules of the transfer protocol that nodes and coordinator share: which state may follow
/// which, and which failures speak against the source.
pub struct TransferRules {
    pub permitted: Vec<(ArtifactTransferState, ArtifactTransferState)>,
    pub source_rejecting: Vec<ArtifactTransferErrorCode>,
}

impl TransferRules {
    /// Whether a transfer may go from one state to the other.
    pub open spec fn permits(&self, from: ArtifactTransferState, to: ArtifactTransferState) -> bool {
        self.permitted@.contains((from, to))
    }

    /// Whether a failure speaks against the source.
    pub open spec fn rejects_source(&self, code: ArtifactTransferErrorCode) -> bool {
        self.source_rejecting@.contains(code)
    }

    pub fn permits_transition(&self, from: ArtifactTransferState, to: ArtifactTransferState) -> (r: bool)
        ensures
            r == self.permits(from, to),
    {
        let mut i: usize = 0;
        while i < self.permitted.len()
            invariant
                0 <= i <= self.permitted@.len(),
                forall|j: int| 0 <= j < i ==> self.permitted@[j] != (from, to),
            decreases self.permitted@.len() - i,
        {
            let (a, b) = self.permitted[i];
            if a == from && b == to {
                assert(self.permitted@[i as int] == (from, to));
                return true;
            }
            i = i + 1;
        }
        false
    }

    pub fn rejects(&self, code: ArtifactTransferErrorCode) -> (r: bool)
        ensures
            r == self.rejects_source(code),
    {
        let mut i: usize = 0;
        while i < self.source_rejecting.len()
            invariant
                0 <= i <= self.source_rejecting@.len(),
                forall|j: int| 0 <= j < i ==> self.source_rejecting@[j] != code,
            decreases self.source_rejecting@.len() - i,
        {
            if self.source_rejecting[i] == code {
                assert(self.source_rejecting@[i as int] == code);
                return true;
            }
            i = i + 1;
        }
        false
    }
}

/// The peer that an advertisement describes.
pub open spec fn peer_of(advertisement: IrohEndpointAdvertisementModel) -> AuthorizedPeerEndpointModel {
    AuthorizedPeerEndpointModel {
        node: advertisement.node,
        endpoint_id: advertisement.endpoint_id,
        generation: advertisement.generation,
        direct_addresses: advertisement.direct_addresses,
        relay_urls: advertisement.relay_urls,
    }
}

pub fn authorized_peer(advertisement: &IrohEndpointAdvertisement) -> (r: AuthorizedPeerEndpoint)
    ensures
        r@ == peer_of(advertisement@),
{
    AuthorizedPeerEndpoint {
        node: advertisement.node.clone(),
        endpoint_id: advertisement.endpoint_id.clone(),
        generation: advertisement.generation,
        direct_addresses: advertisement.direct_addresses.duplicate(),
        relay_urls: advertisement.relay_urls.duplicate(),
    }
}

} // verus!
