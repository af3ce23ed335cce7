//! All transfers of artifacts between nodes, from admission to expiry, and the bytes they moved.
use vstd::prelude::*;
use vstd::string::*;

use crate::artifact_registry::{ArtifactHoldReason, ArtifactHoldReasonModel, ArtifactRegistry, ArtifactRegistryModel, also_on, not_on, saturating, well_formed, without_hold};
use crate::duplicate::{Duplicate, option_view, texts, views};
use crate::ids::{ArtifactId, Digest, NodeScopeKey, ProcessId, ProjectId, ScopeText, TenantId};
use crate::ordered::OrderedKey;
use crate::ordered_map::{OrderedMap, ascending, delete, lemma_delete_ascending, is_least_at, least_key, lemma_least_key, lemma_lookup_at, lemma_lookup_put, lemma_put_ascending, lemma_put_delete, lookup, put};
use crate::sequences::{holds_of_some, is_first};
use crate::transfer::{ArtifactAssignmentRole, ArtifactAssignmentState, ArtifactRelayPolicy, ArtifactTransferAuthorization, ArtifactTransferAuthorizationModel, ArtifactTransferErrorCode, ArtifactTransferLease, ArtifactTransferPhase, ArtifactTransferRecord, ArtifactTransferState, ClusterfluxPathKind, InterchangeTransfer, InterchangeTransferModel, TransferRules, is_terminal, phase_of};

verus! {

/// The hold that a transfer had on its artifact.
pub struct ReleasedTransferHold {
    pub tenant: TenantId,
    pub project: ProjectId,
    pub artifact: ArtifactId,
    pub reason: ArtifactHoldReason,
}

impl View for ReleasedTransferHold {
    type V = (ScopeText, ArtifactHoldReasonModel);

    open spec fn view(&self) -> (ScopeText, ArtifactHoldReasonModel) {
        ((self.tenant@, self.project@, self.artifact@), self.reason@)
    }
}

/// Why an acknowledgement is refused.
#[derive(Clone, Copy, Debug, PartialEq, Eq, Structural)]
pub enum AssignmentAcknowledgementError {
    UnknownTransfer,
    OutsideScope,
    RoleMismatch,
}

/// Why a transfer is not admitted.
#[derive(Clone, Copy, Debug, PartialEq, Eq, Structural)]
pub enum TransferAdmissionError {
    CapacityUnavailable,
}

/// Why a report on a transfer is refused.
#[derive(Clone, Copy, Debug, PartialEq, Eq, Structural)]
pub enum TransferReportError {
    UnknownTransfer,
    OutsideScope,
    AlreadyTerminal { state: ArtifactTransferState, code: Option<ArtifactTransferErrorCode> },
    InvalidByteProgress,
    LifecycleViolation { from: ArtifactTransferState, to: ArtifactTransferState },
    RelayPathForbidden,
    UnprovenCompletion,
    FailureCodeMissing,
    ForeignMissingSource,
    ArtifactUnavailable,
}

/// What a node reports of a transfer.
pub struct TransferReport {
    pub state: ArtifactTransferState,
    pub bytes_completed: u64,
    pub path_kind: ClusterfluxPathKind,
    pub failure_code: Option<ArtifactTransferErrorCode>,
    pub verified_digest: Option<Digest>,
    pub verified_size: Option<u64>,
}

/// For how long leases and tickets are given, and how long a transfer may take at most.
#[derive(Clone, Copy, Debug, PartialEq, Eq, Structural)]
pub struct LeaseTerms {
    pub active_lease_ttl_seconds: u64,
    pub transfer_ticket_ttl_seconds: u64,
    pub absolute_transfer_max_seconds: Option<u64>,
}

/// What a report that was accepted leads to.
pub struct InterchangeProgress {
    pub record: ArtifactTransferRecord,
    pub authorization: Option<ArtifactTransferAuthorization>,
    pub terminal_hold: Option<ReleasedTransferHold>,
}

/// All transfers, and how many bytes have travelled by which path.
pub struct InterchangeRegistry {
    transfers: OrderedMap<String, InterchangeTransfer>,
    direct_body_bytes: u64,
    relayed_body_bytes: u64,
    unknown_path_body_bytes: u64,
}

/// The model of [`InterchangeRegistry`].
#[verifier::ext_equal]
pub struct InterchangeRegistryModel {
    pub transfers: Seq<(Seq<char>, InterchangeTransferModel)>,
    pub direct_body_bytes: u64,
    pub relayed_body_bytes: u64,
    pub unknown_path_body_bytes: u64,
}

impl View for InterchangeRegistry {
    type V = InterchangeRegistryModel;

    closed spec fn view(&self) -> InterchangeRegistryModel {
        InterchangeRegistryModel {
            transfers: self.transfers@,
            direct_body_bytes: self.direct_body_bytes,
            relayed_body_bytes: self.relayed_body_bytes,
            unknown_path_body_bytes: self.unknown_path_body_bytes,
        }
    }
}

/// The earlier of two times.
pub open spec fn earlier(a: u64, b: u64) -> u64 {
    if a <= b {
        a
    } else {
        b
    }
}

/// Until when a lease that is renewed now lasts.
pub open spec fn lease_expiry(now: u64, ttl: u64, created_at: u64, maximum: Option<u64>) -> u64 {
    match maximum {
        Some(most) => earlier(saturating(now + ttl), saturating(created_at + most)),
        None => saturating(now + ttl),
    }
}

fn lease_expiry_at(now: u64, ttl: u64, created_at: u64, maximum: Option<u64>) -> (r: u64)
    ensures
        r == lease_expiry(now, ttl, created_at, maximum),
{
    let renewed: u64 = now.saturating_add(ttl);
    match maximum {
        Some(most) => {
            let last: u64 = created_at.saturating_add(most);
            if renewed <= last {
                renewed
            } else {
                last
            }
        },
        None => renewed,
    }
}

/// Whether the node takes part in the transfer.
pub open spec fn takes_part(t: InterchangeTransferModel, scope: ScopeText) -> bool {
    &&& t.record.tenant@ == scope.0
    &&& t.record.project@ == scope.1
    &&& (t.record.source_node@ == scope.2 || t.record.destination_node@ == scope.2)
}

/// Whether a report repeats what is recorded of a transfer that has ended.
pub open spec fn repeats(t: InterchangeTransferModel, report: TransferReport) -> bool {
    &&& t.record.state == report.state
    &&& t.record.bytes_completed == report.bytes_completed
    &&& t.record.path_kind == report.path_kind
    &&& t.record.failure_code == report.failure_code
}

/// Whether a provider reports again that it is ready. That takes a transfer back to no earlier
/// state.
pub open spec fn refreshes(t: InterchangeTransferModel, scope: ScopeText, report: TransferReport) -> bool {
    &&& scope.2 == t.record.source_node@
    &&& report.state == ArtifactTransferState::Connecting
    &&& (t.record.state == ArtifactTransferState::Connecting || t.record.state
        == ArtifactTransferState::WaitingForDirect || t.record.state
        == ArtifactTransferState::Transferring || t.record.state
        == ArtifactTransferState::Verifying)
}

/// Why a report is refused before it changes anything.
pub open spec fn report_refusal(
    t: InterchangeTransferModel,
    scope: ScopeText,
    report: TransferReport,
    rules: TransferRules,
) -> Option<TransferReportError> {
    if !takes_part(t, scope) {
        Some(TransferReportError::OutsideScope)
    } else if is_terminal(t.record.state) {
        if repeats(t, report) {
            None
        } else {
            Some(
                TransferReportError::AlreadyTerminal {
                    state: t.record.state,
                    code: t.record.failure_code,
                },
            )
        }
    } else if report.bytes_completed < t.record.bytes_completed || report.bytes_completed
        > t.destination_authorization.lease.size_bytes {
        Some(TransferReportError::InvalidByteProgress)
    } else if !refreshes(t, scope, report) && !rules.permits(t.record.state, report.state) {
        Some(TransferReportError::LifecycleViolation { from: t.record.state, to: report.state })
    } else {
        None
    }
}

/// The transfer with its assignments as the report shows them taken up.
pub open spec fn taken_up(t: InterchangeTransferModel, scope: ScopeText, report: TransferReport) -> InterchangeTransferModel {
    let provider_ready = scope.2 == t.record.source_node@ && (report.state
        == ArtifactTransferState::Connecting || report.state
        == ArtifactTransferState::WaitingForDirect || report.state
        == ArtifactTransferState::Transferring);
    let receiver_ready = scope.2 == t.record.destination_node@ && (report.state
        == ArtifactTransferState::Transferring || report.state == ArtifactTransferState::Verifying
        || report.state == ArtifactTransferState::Completed);
    InterchangeTransferModel {
        provider_assignment: if provider_ready {
            ArtifactAssignmentState::Ready
        } else {
            t.provider_assignment
        },
        destination_assignment: if receiver_ready {
            ArtifactAssignmentState::Ready
        } else if provider_ready {
            ArtifactAssignmentState::Offered
        } else {
            t.destination_assignment
        },
        destination_acknowledged_at: if provider_ready {
            None
        } else {
            t.destination_acknowledged_at
        },
        ..t
    }
}

/// Whether bytes came by a path that the lease forbids.
pub open spec fn path_forbidden(t: InterchangeTransferModel, report: TransferReport) -> bool {
    &&& t.destination_authorization.lease.relay_policy == ArtifactRelayPolicy::DirectRequired
    &&& report.bytes_completed > t.destination_authorization.lease.allowed_offset
    &&& report.path_kind != ClusterfluxPathKind::Direct
    &&& report.path_kind != ClusterfluxPathKind::Local
}

/// A transfer that has failed because bytes came by a path that its lease forbids.
pub open spec fn failed_by_path(t: InterchangeTransferModel, now: u64) -> InterchangeTransferModel {
    InterchangeTransferModel {
        record: ArtifactTransferRecord {
            state: ArtifactTransferState::Failed,
            failure_code: Some(ArtifactTransferErrorCode::RelayPathForbidden),
            updated_at: now,
            ..t.record
        },
        ..t
    }
}

/// Whether the destination proves that it has the whole artifact.
pub open spec fn completion_proven(t: InterchangeTransferModel, scope: ScopeText, report: TransferReport) -> bool {
    let lease = t.destination_authorization.lease;
    &&& scope.2 == t.record.destination_node@
    &&& report.bytes_completed == lease.size_bytes
    &&& report.verified_digest matches Some(digest) && digest@ == lease.digest@
    &&& report.verified_size == Some(lease.size_bytes)
    &&& report.failure_code is None
}

/// Why a report is refused after the assignments were taken up, but for the path.
pub open spec fn report_flaw(t: InterchangeTransferModel, scope: ScopeText, report: TransferReport) -> Option<
    TransferReportError,
> {
    let source_missing = report.failure_code == Some(
        ArtifactTransferErrorCode::ArtifactMissingAtSource,
    );
    if report.state == ArtifactTransferState::Completed && !completion_proven(t, scope, report) {
        Some(TransferReportError::UnprovenCompletion)
    } else if is_terminal(report.state) && report.state != ArtifactTransferState::Completed
        && report.failure_code is None {
        Some(TransferReportError::FailureCodeMissing)
    } else if source_missing && (report.state != ArtifactTransferState::Failed || scope.2
        != t.record.source_node@) {
        Some(TransferReportError::ForeignMissingSource)
    } else {
        None
    }
}

/// The scope of the artifact that a transfer moves.
pub open spec fn moved_artifact(t: InterchangeTransferModel) -> ScopeText {
    (t.record.tenant@, t.record.project@, t.record.artifact@)
}

/// Whether the artifact is known with the digest and size of the lease.
pub open spec fn artifact_matches(artifacts: ArtifactRegistryModel, t: InterchangeTransferModel) -> bool {
    lookup(artifacts.artifacts, moved_artifact(t)) matches Some(metadata) && metadata.digest@
        == t.destination_authorization.lease.digest@ && metadata.size
        == t.destination_authorization.lease.size_bytes
}

/// The artifacts after a report that was accepted: a completed transfer adds the destination to
/// the nodes that retain the artifact, and a source that misses it no longer counts as one.
pub open spec fn artifacts_after(
    artifacts: ArtifactRegistryModel,
    t: InterchangeTransferModel,
    report: TransferReport,
) -> ArtifactRegistryModel {
    let known = lookup(artifacts.artifacts, moved_artifact(t));
    if report.state == ArtifactTransferState::Completed {
        ArtifactRegistryModel {
            artifacts: put(
                artifacts.artifacts,
                moved_artifact(t),
                also_on(known->Some_0, t.record.destination_node@),
            ),
            ..artifacts
        }
    } else if report.failure_code == Some(ArtifactTransferErrorCode::ArtifactMissingAtSource)
        && known is Some {
        ArtifactRegistryModel {
            artifacts: put(
                artifacts.artifacts,
                moved_artifact(t),
                not_on(known->Some_0, t.record.source_node@),
            ),
            ..artifacts
        }
    } else {
        artifacts
    }
}

/// The bytes that travelled, as far as they count.
pub open spec fn body_bytes(t: InterchangeTransferModel, report: TransferReport) -> u64 {
    let offset = t.destination_authorization.lease.allowed_offset;
    if report.path_kind == ClusterfluxPathKind::Local || report.bytes_completed <= offset {
        0
    } else {
        (report.bytes_completed - offset) as u64
    }
}

/// The state that is recorded.
pub open spec fn recorded_state(t: InterchangeTransferModel, scope: ScopeText, report: TransferReport) -> ArtifactTransferState {
    if refreshes(t, scope, report) {
        t.record.state
    } else {
        report.state
    }
}

/// Whether a report renews the lease: bytes have come, or the transfer waits for what takes time.
pub open spec fn renews(t: InterchangeTransferModel, scope: ScopeText, report: TransferReport) -> bool {
    let waits = report.state == ArtifactTransferState::Connecting || report.state
        == ArtifactTransferState::WaitingForDirect || report.state
        == ArtifactTransferState::Verifying;
    !is_terminal(recorded_state(t, scope, report)) && (report.bytes_completed
        > t.record.bytes_completed || waits)
}

/// Whether a report starts a stream ticket: the provider is ready.
pub open spec fn starts_ticket(t: InterchangeTransferModel, scope: ScopeText, report: TransferReport) -> bool {
    scope.2 == t.record.source_node@ && report.state == ArtifactTransferState::Connecting
        && !is_terminal(recorded_state(t, scope, report))
}

/// Until when the lease lasts after a report.
pub open spec fn lease_until(
    t: InterchangeTransferModel,
    scope: ScopeText,
    report: TransferReport,
    now: u64,
    terms: LeaseTerms,
) -> u64 {
    if renews(t, scope, report) {
        lease_expiry(
            now,
            terms.active_lease_ttl_seconds,
            t.record.created_at,
            terms.absolute_transfer_max_seconds,
        )
    } else {
        t.record.expires_at
    }
}

/// An authorization with the lease and the ticket renewed as far as they are.
pub open spec fn renewed_authorization(
    a: ArtifactTransferAuthorizationModel,
    lease_until: Option<u64>,
    ticket_until: Option<u64>,
) -> ArtifactTransferAuthorizationModel {
    ArtifactTransferAuthorizationModel {
        lease: ArtifactTransferLease {
            active_lease_expires_at: match lease_until {
                Some(at) => at,
                None => a.lease.active_lease_expires_at,
            },
            expires_at: match ticket_until {
                Some(at) => at,
                None => a.lease.expires_at,
            },
            ..a.lease
        },
        ..a
    }
}

/// The transfer after a report that was accepted.
pub open spec fn advanced(
    t: InterchangeTransferModel,
    scope: ScopeText,
    report: TransferReport,
    now: u64,
    terms: LeaseTerms,
) -> InterchangeTransferModel {
    let state = recorded_state(t, scope, report);
    let until = lease_until(t, scope, report, now, terms);
    let lease = if renews(t, scope, report) {
        Some(until)
    } else {
        None
    };
    let ticket = if starts_ticket(t, scope, report) {
        Some(earlier(saturating(now + terms.transfer_ticket_ttl_seconds), until))
    } else {
        None
    };
    let to_provider = renews(t, scope, report) && scope.2 == t.record.destination_node@;
    let to_receiver = renews(t, scope, report) && scope.2 != t.record.destination_node@;
    InterchangeTransferModel {
        record: ArtifactTransferRecord {
            state,
            bytes_completed: report.bytes_completed,
            path_kind: report.path_kind,
            failure_code: report.failure_code,
            updated_at: now,
            phase: phase_of(state),
            last_progress_at: if renews(t, scope, report) {
                now
            } else {
                t.record.last_progress_at
            },
            expires_at: until,
            stream_ticket_expires_at: match ticket {
                Some(at) => at,
                None => t.record.stream_ticket_expires_at,
            },
            ..t.record
        },
        destination_authorization: renewed_authorization(t.destination_authorization, lease, ticket),
        provider_authorization: renewed_authorization(t.provider_authorization, lease, ticket),
        provider_assignment: if to_provider {
            ArtifactAssignmentState::Offered
        } else {
            t.provider_assignment
        },
        provider_acknowledged_at: if to_provider {
            None
        } else {
            t.provider_acknowledged_at
        },
        destination_assignment: if to_receiver {
            ArtifactAssignmentState::Offered
        } else {
            t.destination_assignment
        },
        destination_acknowledged_at: if to_receiver {
            None
        } else {
            t.destination_acknowledged_at
        },
        metered_body_bytes: if t.metered_body_bytes >= body_bytes(t, report) {
            t.metered_body_bytes
        } else {
            body_bytes(t, report)
        },
    }
}

/// The bytes that a report adds to what was counted.
pub open spec fn newly_metered(t: InterchangeTransferModel, report: TransferReport) -> u64 {
    if body_bytes(t, report) > t.metered_body_bytes {
        (body_bytes(t, report) - t.metered_body_bytes) as u64
    } else {
        0
    }
}

/// The registry after bytes were counted.
pub open spec fn metered(state: InterchangeRegistryModel, path: ClusterfluxPathKind, bytes: u64) -> InterchangeRegistryModel {
    match path {
        ClusterfluxPathKind::Local => state,
        ClusterfluxPathKind::Direct => InterchangeRegistryModel {
            direct_body_bytes: saturating(state.direct_body_bytes + bytes),
            ..state
        },
        ClusterfluxPathKind::Relayed => InterchangeRegistryModel {
            relayed_body_bytes: saturating(state.relayed_body_bytes + bytes),
            ..state
        },
        ClusterfluxPathKind::Unknown => InterchangeRegistryModel {
            unknown_path_body_bytes: saturating(state.unknown_path_body_bytes + bytes),
            ..state
        },
    }
}

/// The hold that a transfer has on its artifact.
pub open spec fn active_hold_of(t: InterchangeTransferModel) -> (ScopeText, ArtifactHoldReasonModel) {
    (
        moved_artifact(t),
        ArtifactHoldReasonModel::ActiveTransfer { transfer_id: t.record.transfer_id@ },
    )
}

/// What is answered to a report that was accepted.
pub open spec fn is_progress(p: InterchangeProgress, t: InterchangeTransferModel, scope: ScopeText) -> bool {
    &&& p.record == t.record
    &&& option_view(p.terminal_hold) == (if is_terminal(t.record.state) {
        Some(active_hold_of(t))
    } else {
        None
    })
    &&& option_view(p.authorization) == (if is_terminal(t.record.state) {
        None
    } else if scope.2 == t.record.source_node@ {
        Some(t.provider_authorization)
    } else {
        Some(t.destination_authorization)
    })
}

/// The registry with a transfer.
pub open spec fn with_transfer(
    state: InterchangeRegistryModel,
    id: Seq<char>,
    t: InterchangeTransferModel,
) -> InterchangeRegistryModel {
    InterchangeRegistryModel { transfers: put(state.transfers, id, t), ..state }
}

/// What a report does to the registry, to the artifacts, and what is answered.
pub open spec fn report_outcome(
    before: InterchangeRegistryModel,
    artifacts: ArtifactRegistryModel,
    scope: ScopeText,
    id: Seq<char>,
    report: TransferReport,
    now: u64,
    terms: LeaseTerms,
    rules: TransferRules,
    after: InterchangeRegistryModel,
    artifacts_then: ArtifactRegistryModel,
    answer: Result<InterchangeProgress, TransferReportError>,
) -> bool {
    match lookup(before.transfers, id) {
        None => {
            &&& answer == Err::<InterchangeProgress, TransferReportError>(
                TransferReportError::UnknownTransfer,
            )
            &&& after == before
            &&& artifacts_then == artifacts
        },
        Some(t) => match report_refusal(t, scope, report, rules) {
            Some(error) => {
                &&& answer == Err::<InterchangeProgress, TransferReportError>(error)
                &&& after == before
                &&& artifacts_then == artifacts
            },
            None => if is_terminal(t.record.state) {
                &&& answer matches Ok(p)
                &&& p.record == t.record
                &&& p.authorization is None
                &&& p.terminal_hold is None
                &&& after == before
                &&& artifacts_then == artifacts
            } else {
                report_effect(
                    before,
                    artifacts,
                    scope,
                    id,
                    t,
                    report,
                    now,
                    terms,
                    after,
                    artifacts_then,
                    answer,
                )
            },
        },
    }
}

/// What a report does that is not refused at once.
pub open spec fn report_effect(
    before: InterchangeRegistryModel,
    artifacts: ArtifactRegistryModel,
    scope: ScopeText,
    id: Seq<char>,
    t: InterchangeTransferModel,
    report: TransferReport,
    now: u64,
    terms: LeaseTerms,
    after: InterchangeRegistryModel,
    artifacts_then: ArtifactRegistryModel,
    answer: Result<InterchangeProgress, TransferReportError>,
) -> bool {
    let up = taken_up(t, scope, report);
    if path_forbidden(t, report) {
        &&& answer == Err::<InterchangeProgress, TransferReportError>(
            TransferReportError::RelayPathForbidden,
        )
        &&& after == with_transfer(
            before,
            id,
            failed_by_path(up, now),
        )
        &&& artifacts_then == (ArtifactRegistryModel {
            holds: without_hold(artifacts.holds, active_hold_of(t).0, active_hold_of(t).1),
            ..artifacts
        })
    } else if report_flaw(t, scope, report) is Some {
        &&& answer == Err::<InterchangeProgress, TransferReportError>(
            report_flaw(t, scope, report)->Some_0,
        )
        &&& after == with_transfer(before, id, up)
        &&& artifacts_then == artifacts
    } else if report.state == ArtifactTransferState::Completed && !artifact_matches(artifacts, t) {
        &&& answer == Err::<InterchangeProgress, TransferReportError>(
            TransferReportError::ArtifactUnavailable,
        )
        &&& after == with_transfer(before, id, up)
        &&& artifacts_then == artifacts
    } else {
        let then = advanced(up, scope, report, now, terms);
        &&& answer matches Ok(p)
        &&& is_progress(p, then, scope)
        &&& after == metered(
            with_transfer(before, id, then),
            report.path_kind,
            newly_metered(t, report),
        )
        &&& artifacts_then == artifacts_after(artifacts, t, report)
    }
}

/// The hold that a transfer has on its artifact.
fn active_hold(transfer: &InterchangeTransfer) -> (r: ReleasedTransferHold)
    ensures
        r@ == active_hold_of(transfer@),
{
    ReleasedTransferHold {
        tenant: transfer.record.tenant.clone(),
        project: transfer.record.project.clone(),
        artifact: transfer.record.artifact.clone(),
        reason: ArtifactHoldReason::ActiveTransfer {
            transfer_id: transfer.record.transfer_id.clone(),
        },
    }
}

fn is_refresh(transfer: &InterchangeTransfer, scope: &NodeScopeKey, report: &TransferReport) -> (r: bool)
    ensures
        r == refreshes(transfer@, scope@, *report),
{
    scope.node == transfer.record.source_node && report.state == ArtifactTransferState::Connecting
        && matches!(
        transfer.record.state,
        ArtifactTransferState::Connecting
            | ArtifactTransferState::WaitingForDirect
            | ArtifactTransferState::Transferring
            | ArtifactTransferState::Verifying
    )
}

fn refusal_of_report(
    transfer: &InterchangeTransfer,
    scope: &NodeScopeKey,
    report: &TransferReport,
    rules: &TransferRules,
) -> (r: Option<TransferReportError>)
    ensures
        r == report_refusal(transfer@, scope@, *report, *rules),
{
    let record: &ArtifactTransferRecord = &transfer.record;
    if record.tenant != scope.tenant || record.project != scope.project || (record.source_node
        != scope.node && record.destination_node != scope.node) {
        return Some(TransferReportError::OutsideScope);
    }
    if record.state.terminal() {
        if record.state == report.state && record.bytes_completed == report.bytes_completed
            && record.path_kind == report.path_kind && same_code(
            record.failure_code,
            report.failure_code,
        ) {
            return None;
        }
        return Some(
            TransferReportError::AlreadyTerminal { state: record.state, code: record.failure_code },
        );
    }
    if report.bytes_completed < record.bytes_completed || report.bytes_completed
        > transfer.destination_authorization.lease.size_bytes {
        return Some(TransferReportError::InvalidByteProgress);
    }
    if !is_refresh(transfer, scope, report) && !rules.permits_transition(
        record.state,
        report.state,
    ) {
        return Some(
            TransferReportError::LifecycleViolation { from: record.state, to: report.state },
        );
    }
    None
}

fn same_code(a: Option<ArtifactTransferErrorCode>, b: Option<ArtifactTransferErrorCode>) -> (r: bool)
    ensures
        r == (a == b),
{
    match (a, b) {
        (Some(x), Some(y)) => x == y,
        (None, None) => true,
        _ => false,
    }
}

fn flaw_of_report(transfer: &InterchangeTransfer, scope: &NodeScopeKey, report: &TransferReport) -> (r:
    Option<TransferReportError>)
    ensures
        r == report_flaw(transfer@, scope@, *report),
{
    let lease: &ArtifactTransferLease = &transfer.destination_authorization.lease;
    if report.state == ArtifactTransferState::Completed {
        let digest_matches: bool = match &report.verified_digest {
            Some(digest) => *digest == lease.digest,
            None => false,
        };
        let size_matches: bool = match report.verified_size {
            Some(size) => size == lease.size_bytes,
            None => false,
        };
        if scope.node != transfer.record.destination_node || report.bytes_completed
            != lease.size_bytes || !digest_matches || !size_matches
            || report.failure_code.is_some() {
            return Some(TransferReportError::UnprovenCompletion);
        }
    } else if report.state.terminal() && report.failure_code.is_none() {
        return Some(TransferReportError::FailureCodeMissing);
    }
    if same_code(
        report.failure_code,
        Some(ArtifactTransferErrorCode::ArtifactMissingAtSource),
    ) && (report.state != ArtifactTransferState::Failed || scope.node
        != transfer.record.source_node) {
        return Some(TransferReportError::ForeignMissingSource);
    }
    None
}

impl InterchangeTransfer {
    fn take_up(&mut self, scope: &NodeScopeKey, report: &TransferReport)
        ensures
            final(self)@ == taken_up(old(self)@, scope@, *report),
    {
        if scope.node == self.record.source_node && matches!(
            report.state,
            ArtifactTransferState::Connecting
                | ArtifactTransferState::WaitingForDirect
                | ArtifactTransferState::Transferring
        ) {
            self.provider_assignment = ArtifactAssignmentState::Ready;
            self.destination_assignment = ArtifactAssignmentState::Offered;
            self.destination_acknowledged_at = None;
        }
        if scope.node == self.record.destination_node && matches!(
            report.state,
            ArtifactTransferState::Transferring
                | ArtifactTransferState::Verifying
                | ArtifactTransferState::Completed
        ) {
            self.destination_assignment = ArtifactAssignmentState::Ready;
        }
    }

    fn counted_bytes(&self, report: &TransferReport) -> (r: u64)
        ensures
            r == body_bytes(self@, *report),
    {
        if report.path_kind == ClusterfluxPathKind::Local {
            0
        } else {
            report.bytes_completed.saturating_sub(
                self.destination_authorization.lease.allowed_offset,
            )
        }
    }

    fn advance(&mut self, scope: &NodeScopeKey, report: &TransferReport, now: u64, terms: LeaseTerms)
        ensures
            final(self)@ == advanced(old(self)@, scope@, *report, now, terms),
    {
        let body: u64 = self.counted_bytes(report);
        let made_progress: bool = report.bytes_completed > self.record.bytes_completed;
        let state: ArtifactTransferState = if is_refresh(self, scope, report) {
            self.record.state
        } else {
            report.state
        };
        if self.metered_body_bytes < body {
            self.metered_body_bytes = body;
        }
        self.record.state = state;
        self.record.bytes_completed = report.bytes_completed;
        self.record.path_kind = report.path_kind;
        self.record.failure_code = report.failure_code;
        self.record.updated_at = now;
        self.record.phase = state.phase();
        let waits: bool = matches!(
            report.state,
            ArtifactTransferState::Connecting
                | ArtifactTransferState::WaitingForDirect
                | ArtifactTransferState::Verifying
        );
        let renewed: bool = !state.terminal() && (made_progress || waits);
        if renewed {
            self.record.last_progress_at = now;
            let until: u64 = lease_expiry_at(
                now,
                terms.active_lease_ttl_seconds,
                self.record.created_at,
                terms.absolute_transfer_max_seconds,
            );
            self.record.expires_at = until;
            self.destination_authorization.lease.active_lease_expires_at = until;
            self.provider_authorization.lease.active_lease_expires_at = until;
        }
        if scope.node == self.record.source_node && report.state
            == ArtifactTransferState::Connecting && !state.terminal() {
            let ticket: u64 = now.saturating_add(terms.transfer_ticket_ttl_seconds);
            let until: u64 = if ticket <= self.record.expires_at {
                ticket
            } else {
                self.record.expires_at
            };
            self.record.stream_ticket_expires_at = until;
            self.destination_authorization.lease.expires_at = until;
            self.provider_authorization.lease.expires_at = until;
        }
        if renewed {
            if scope.node == self.record.destination_node {
                self.provider_assignment = ArtifactAssignmentState::Offered;
                self.provider_acknowledged_at = None;
            } else {
                self.destination_assignment = ArtifactAssignmentState::Offered;
                self.destination_acknowledged_at = None;
            }
        }
    }

    fn progress(&self, scope: &NodeScopeKey) -> (r: InterchangeProgress)
        ensures
            is_progress(r, self@, scope@),
    {
        let ended: bool = self.record.state.terminal();
        InterchangeProgress {
            record: self.record.duplicate(),
            authorization: if ended {
                None
            } else if scope.node == self.record.source_node {
                Some(self.provider_authorization.duplicate())
            } else {
                Some(self.destination_authorization.duplicate())
            },
            terminal_hold: if ended {
                Some(active_hold(self))
            } else {
                None
            },
        }
    }
}

impl InterchangeRegistry {
    /// A registry without transfers.
    pub fn new() -> (r: Self)
        ensures
            r@.transfers.len() == 0,
            r@.direct_body_bytes == 0,
            r@.relayed_body_bytes == 0,
            r@.unknown_path_body_bytes == 0,
    {
        InterchangeRegistry {
            transfers: OrderedMap::new(),
            direct_body_bytes: 0,
            relayed_body_bytes: 0,
            unknown_path_body_bytes: 0,
        }
    }

    pub fn transfer(&self, transfer_id: &String) -> (r: Option<&InterchangeTransfer>)
        ensures
            r is Some <==> lookup(self@.transfers, transfer_id@) is Some,
            r matches Some(t) ==> lookup(self@.transfers, transfer_id@) == Some(t@),
    {
        assert(transfer_id.key() == transfer_id@);
        self.transfers.get(transfer_id)
    }

    /// The transfers, in the order of their identifiers.
    pub fn transfers(&self) -> (r: &OrderedMap<String, InterchangeTransfer>)
        ensures
            r@ == self@.transfers,
    {
        &self.transfers
    }

    pub fn len(&self) -> (r: usize)
        ensures
            r == self@.transfers.len(),
    {
        self.transfers.len()
    }

    /// The bytes that travelled directly, through a relay, and by an unknown path.
    pub fn metrics(&self) -> (r: (u64, u64, u64))
        ensures
            r == (self@.direct_body_bytes, self@.relayed_body_bytes, self@.unknown_path_body_bytes),
    {
        (self.direct_body_bytes, self.relayed_body_bytes, self.unknown_path_body_bytes)
    }

    pub fn meter_body_bytes(&mut self, path_kind: ClusterfluxPathKind, bytes: u64)
        ensures
            final(self)@ == metered(old(self)@, path_kind, bytes),
    {
        match path_kind {
            ClusterfluxPathKind::Local => {},
            ClusterfluxPathKind::Direct => {
                self.direct_body_bytes = self.direct_body_bytes.saturating_add(bytes);
            },
            ClusterfluxPathKind::Relayed => {
                self.relayed_body_bytes = self.relayed_body_bytes.saturating_add(bytes);
            },
            ClusterfluxPathKind::Unknown => {
                self.unknown_path_body_bytes = self.unknown_path_body_bytes.saturating_add(bytes);
            },
        }
    }

    /// Takes up what a node reports of a transfer. Bytes that came by a path that the lease forbids
    /// end it, and its hold on the artifact with it.
    pub fn report_progress(
        &mut self,
        artifacts: &mut ArtifactRegistry,
        scope: &NodeScopeKey,
        transfer_id: &String,
        report: &TransferReport,
        now: u64,
        terms: LeaseTerms,
        rules: &TransferRules,
    ) -> (r: Result<InterchangeProgress, TransferReportError>)
        ensures
            report_outcome(
                old(self)@,
                old(artifacts)@,
                scope@,
                transfer_id@,
                *report,
                now,
                terms,
                *rules,
                final(self)@,
                final(artifacts)@,
                r,
            ),
            well_formed(old(artifacts)@) ==> well_formed(final(artifacts)@),
    {
        broadcast use lemma_put_delete;

        assert(transfer_id.key() == transfer_id@);
        let ghost before = self@;
        match self.transfers.get(transfer_id) {
            None => {
                return Err(TransferReportError::UnknownTransfer);
            },
            Some(transfer) => {
                match refusal_of_report(transfer, scope, report, rules) {
                    Some(error) => {
                        return Err(error);
                    },
                    None => {},
                }
                if transfer.record.state.terminal() {
                    return Ok(
                        InterchangeProgress {
                            record: transfer.record.duplicate(),
                            authorization: None,
                            terminal_hold: None,
                        },
                    );
                }
            },
        }
        let mut transfer: InterchangeTransfer = match self.transfers.remove(transfer_id) {
            Some(transfer) => transfer,
            None => {
                return Err(TransferReportError::UnknownTransfer);
            },
        };
        let ghost t = transfer@;
        let id: String = transfer_id.clone();
        assert(id.key() == transfer_id@);
        transfer.take_up(scope, report);
        let ghost up = transfer@;
        if transfer.destination_authorization.lease.relay_policy
            == ArtifactRelayPolicy::DirectRequired && report.bytes_completed
            > transfer.destination_authorization.lease.allowed_offset && !matches!(
            report.path_kind,
            ClusterfluxPathKind::Direct | ClusterfluxPathKind::Local
        ) {
            let hold: ReleasedTransferHold = active_hold(&transfer);
            let _was: bool = artifacts.remove_hold(
                &hold.tenant,
                &hold.project,
                &hold.artifact,
                &hold.reason,
            );
            transfer.record.state = ArtifactTransferState::Failed;
            transfer.record.failure_code = Some(ArtifactTransferErrorCode::RelayPathForbidden);
            transfer.record.updated_at = now;
            self.transfers.insert(id, transfer);
            return Err(TransferReportError::RelayPathForbidden);
        }
        match flaw_of_report(&transfer, scope, report) {
            Some(error) => {
                self.transfers.insert(id, transfer);
                return Err(error);
            },
            None => {},
        }
        if report.state == ArtifactTransferState::Completed {
            let recorded = artifacts.record_verified_retaining_location(
                &transfer.record.tenant,
                &transfer.record.project,
                &transfer.record.artifact,
                &transfer.record.destination_node,
                &transfer.destination_authorization.lease.digest,
                transfer.destination_authorization.lease.size_bytes,
            );
            if recorded.is_err() {
                self.transfers.insert(id, transfer);
                return Err(TransferReportError::ArtifactUnavailable);
            }
        }
        if same_code(
            report.failure_code,
            Some(ArtifactTransferErrorCode::ArtifactMissingAtSource),
        ) {
            let _was: bool = artifacts.remove_retaining_location(
                &transfer.record.tenant,
                &transfer.record.project,
                &transfer.record.artifact,
                &transfer.record.source_node,
            );
        }
        let newly: u64 = transfer.counted_bytes(report).saturating_sub(transfer.metered_body_bytes);
        transfer.advance(scope, report, now, terms);
        let progress: InterchangeProgress = transfer.progress(scope);
        self.transfers.insert(id, transfer);
        self.meter_body_bytes(report.path_kind, newly);
        Ok(progress)
    }
}

/// The terminal transfer that was updated longest ago.
pub open spec fn oldest_terminal(transfers: Seq<(Seq<char>, InterchangeTransferModel)>) -> Option<
    Seq<char>,
> {
    least_key(
        transfers,
        |e: (Seq<char>, InterchangeTransferModel)| is_terminal(e.1.record.state),
        |t: InterchangeTransferModel| t.record.updated_at,
    )
}

/// The transfers after `n` terminal ones were dropped, the oldest first.
pub open spec fn after_prunes(transfers: Seq<(Seq<char>, InterchangeTransferModel)>, n: int) -> Seq<
    (Seq<char>, InterchangeTransferModel),
>
    decreases n,
{
    if n <= 0 {
        transfers
    } else {
        let earlier = after_prunes(transfers, n - 1);
        delete(earlier, oldest_terminal(earlier)->Some_0)
    }
}

/// Whether a transfer is dropped to make room.
pub open spec fn prunes(transfers: Seq<(Seq<char>, InterchangeTransferModel)>, capacity: usize) -> bool {
    transfers.len() >= capacity && oldest_terminal(transfers) is Some
}

/// The transfers after as many terminal ones were dropped as making room takes.
pub open spec fn is_pruned(
    before: Seq<(Seq<char>, InterchangeTransferModel)>,
    after: Seq<(Seq<char>, InterchangeTransferModel)>,
    capacity: usize,
    n: int,
) -> bool {
    &&& 0 <= n <= before.len()
    &&& after == after_prunes(before, n)
    &&& !prunes(after, capacity)
    &&& forall|k: int| 0 <= k < n ==> prunes(#[trigger] after_prunes(before, k), capacity)
}

/// What admission does: `n` terminal transfers make room, and the transfer is admitted if that is
/// enough.
pub open spec fn admission(
    before: InterchangeRegistryModel,
    after: InterchangeRegistryModel,
    answer: Result<(), TransferAdmissionError>,
    id: Seq<char>,
    t: InterchangeTransferModel,
    capacity: usize,
    n: int,
) -> bool {
    let room = InterchangeRegistryModel {
        transfers: after_prunes(before.transfers, n),
        ..before
    };
    &&& is_pruned(before.transfers, room.transfers, capacity, n)
    &&& answer is Ok <==> room.transfers.len() < capacity
    &&& after == (if answer is Ok {
        with_transfer(room, id, t)
    } else {
        room
    })
}

/// A transfer of the artifact to the node.
pub open spec fn same_request(
    t: InterchangeTransferModel,
    tenant: Seq<char>,
    project: Seq<char>,
    process: Seq<char>,
    artifact: Seq<char>,
    destination: Seq<char>,
) -> bool {
    &&& t.record.tenant@ == tenant
    &&& t.record.project@ == project
    &&& t.record.process@ == process
    &&& t.record.artifact@ == artifact
    &&& t.record.destination_node@ == destination
}

/// A transfer that has not ended, nor outlived its lease.
pub open spec fn runs(t: InterchangeTransferModel, now: u64) -> bool {
    t.record.expires_at >= now && !is_terminal(t.record.state)
}

/// The transfer after its destination has asked for it again.
pub open spec fn renewed(t: InterchangeTransferModel, now: u64, terms: LeaseTerms) -> InterchangeTransferModel {
    let until = lease_expiry(
        now,
        terms.active_lease_ttl_seconds,
        t.record.created_at,
        terms.absolute_transfer_max_seconds,
    );
    let ticket = earlier(saturating(now + terms.transfer_ticket_ttl_seconds), until);
    let waits = t.record.state == ArtifactTransferState::Requested || t.record.state
        == ArtifactTransferState::SourceSelected || t.record.state
        == ArtifactTransferState::Connecting || t.record.state
        == ArtifactTransferState::WaitingForDirect || t.record.state
        == ArtifactTransferState::Retrying;
    let lease = if waits {
        Some(until)
    } else {
        None
    };
    InterchangeTransferModel {
        record: ArtifactTransferRecord {
            stream_ticket_expires_at: ticket,
            last_progress_at: if waits {
                now
            } else {
                t.record.last_progress_at
            },
            expires_at: if waits {
                until
            } else {
                t.record.expires_at
            },
            ..t.record
        },
        destination_authorization: renewed_authorization(
            t.destination_authorization,
            lease,
            Some(ticket),
        ),
        provider_authorization: renewed_authorization(t.provider_authorization, lease, Some(ticket)),
        ..t
    }
}

/// Whether an assignment is to be delivered: it was offered, or acknowledged too long ago.
pub open spec fn deliverable(
    assignment: ArtifactAssignmentState,
    acknowledged_at: Option<u64>,
    now: u64,
    recovery: u64,
) -> bool {
    let at = match acknowledged_at {
        Some(at) => at,
        None => 0,
    };
    assignment == ArtifactAssignmentState::Offered || (assignment
        == ArtifactAssignmentState::Acknowledged && saturating(at + recovery) < now)
}

fn is_deliverable(
    assignment: ArtifactAssignmentState,
    acknowledged_at: Option<u64>,
    now: u64,
    recovery: u64,
) -> (r: bool)
    ensures
        r == deliverable(assignment, acknowledged_at, now, recovery),
{
    let at: u64 = match acknowledged_at {
        Some(at) => at,
        None => 0,
    };
    assignment == ArtifactAssignmentState::Offered || (assignment
        == ArtifactAssignmentState::Acknowledged && at.saturating_add(recovery) < now)
}

/// A transfer of which the node is the provider.
pub open spec fn provided_by(t: InterchangeTransferModel, scope: ScopeText) -> bool {
    &&& t.record.tenant@ == scope.0
    &&& t.record.project@ == scope.1
    &&& t.record.source_node@ == scope.2
}

/// A transfer of which the node is the receiver.
pub open spec fn received_by(t: InterchangeTransferModel, scope: ScopeText) -> bool {
    &&& t.record.tenant@ == scope.0
    &&& t.record.project@ == scope.1
    &&& t.record.destination_node@ == scope.2
}

/// A transfer that is to be delivered to its provider.
pub open spec fn for_provider(t: InterchangeTransferModel, scope: ScopeText, now: u64, recovery: u64) -> bool {
    provided_by(t, scope) && deliverable(
        t.provider_assignment,
        t.provider_acknowledged_at,
        now,
        recovery,
    ) && runs(t, now)
}

/// A transfer that is to be delivered to its receiver.
pub open spec fn for_receiver(t: InterchangeTransferModel, scope: ScopeText, now: u64, recovery: u64) -> bool {
    received_by(t, scope) && deliverable(
        t.destination_assignment,
        t.destination_acknowledged_at,
        now,
        recovery,
    ) && runs(t, now)
}

/// The transfer after it was offered to its provider again.
pub open spec fn offered_to_provider(t: InterchangeTransferModel) -> InterchangeTransferModel {
    if t.provider_assignment == ArtifactAssignmentState::Acknowledged {
        InterchangeTransferModel {
            provider_assignment: ArtifactAssignmentState::Offered,
            provider_acknowledged_at: None,
            ..t
        }
    } else {
        t
    }
}

/// The transfer after it was offered to its receiver again.
pub open spec fn offered_to_receiver(t: InterchangeTransferModel) -> InterchangeTransferModel {
    if t.destination_assignment == ArtifactAssignmentState::Acknowledged {
        InterchangeTransferModel {
            destination_assignment: ArtifactAssignmentState::Offered,
            destination_acknowledged_at: None,
            ..t
        }
    } else {
        t
    }
}

/// Transfer `i` is the first running one of the request. It is renewed, and no other changes.
pub open spec fn renewal(
    before: InterchangeRegistryModel,
    after: InterchangeRegistryModel,
    request: (Seq<char>, Seq<char>, Seq<char>, Seq<char>, Seq<char>),
    now: u64,
    terms: LeaseTerms,
    i: int,
) -> bool {
    &&& is_first(
        before.transfers,
        |e: (Seq<char>, InterchangeTransferModel)|
            runs(e.1, now) && same_request(
                e.1,
                request.0,
                request.1,
                request.2,
                request.3,
                request.4,
            ),
        i,
    )
    &&& after == with_transfer(
        before,
        before.transfers[i].0,
        renewed(before.transfers[i].1, now, terms),
    )
}

/// Transfer `i` is the first that is to be delivered to its provider, and is offered to it.
pub open spec fn provider_delivery(
    before: InterchangeRegistryModel,
    after: InterchangeRegistryModel,
    scope: ScopeText,
    now: u64,
    recovery: u64,
    i: int,
) -> bool {
    &&& is_first(
        before.transfers,
        |e: (Seq<char>, InterchangeTransferModel)| for_provider(e.1, scope, now, recovery),
        i,
    )
    &&& after == with_transfer(
        before,
        before.transfers[i].0,
        offered_to_provider(before.transfers[i].1),
    )
}

/// Transfer `i` is the first that is to be delivered to its receiver, and is offered to it.
pub open spec fn receiver_delivery(
    before: InterchangeRegistryModel,
    after: InterchangeRegistryModel,
    scope: ScopeText,
    now: u64,
    recovery: u64,
    i: int,
) -> bool {
    &&& is_first(
        before.transfers,
        |e: (Seq<char>, InterchangeTransferModel)| for_receiver(e.1, scope, now, recovery),
        i,
    )
    &&& after == with_transfer(
        before,
        before.transfers[i].0,
        offered_to_receiver(before.transfers[i].1),
    )
}

/// A transfer that is given up.
pub open spec fn ended(
    t: InterchangeTransferModel,
    state: ArtifactTransferState,
    code: ArtifactTransferErrorCode,
    now: u64,
) -> InterchangeTransferModel {
    InterchangeTransferModel {
        record: ArtifactTransferRecord {
            state,
            failure_code: Some(code),
            updated_at: now,
            phase: ArtifactTransferPhase::Complete,
            ..t.record
        },
        ..t
    }
}

fn end_transfer(
    transfer: InterchangeTransfer,
    state: ArtifactTransferState,
    code: ArtifactTransferErrorCode,
    now: u64,
) -> (r: InterchangeTransfer)
    ensures
        r@ == ended(transfer@, state, code, now),
{
    let mut t: InterchangeTransfer = transfer;
    t.record.state = state;
    t.record.failure_code = Some(code);
    t.record.updated_at = now;
    t.record.phase = ArtifactTransferPhase::Complete;
    t
}

/// The transfers, with those that `p` holds of ended.
pub open spec fn all_ended(
    transfers: Seq<(Seq<char>, InterchangeTransferModel)>,
    p: spec_fn(InterchangeTransferModel) -> bool,
    state: ArtifactTransferState,
    code: spec_fn(InterchangeTransferModel) -> ArtifactTransferErrorCode,
    now: u64,
) -> Seq<(Seq<char>, InterchangeTransferModel)> {
    transfers.map_values(
        |e: (Seq<char>, InterchangeTransferModel)|
            (
                e.0,
                if p(e.1) {
                    ended(e.1, state, code(e.1), now)
                } else {
                    e.1
                },
            ),
    )
}

/// A transfer of the process that has not ended.
pub open spec fn active_in_process(
    t: InterchangeTransferModel,
    tenant: Seq<char>,
    project: Seq<char>,
    process: Seq<char>,
) -> bool {
    &&& !is_terminal(t.record.state)
    &&& t.record.tenant@ == tenant
    &&& t.record.project@ == project
    &&& t.record.process@ == process
}

/// A transfer that has not ended and in which the node takes part.
pub open spec fn active_on_node(t: InterchangeTransferModel, scope: ScopeText) -> bool {
    !is_terminal(t.record.state) && takes_part(t, scope)
}

fn is_active_on_node(transfer: &InterchangeTransfer, scope: &NodeScopeKey) -> (r: bool)
    ensures
        r == active_on_node(transfer@, scope@),
{
    !transfer.record.state.terminal() && transfer.record.tenant == scope.tenant
        && transfer.record.project == scope.project && (transfer.record.source_node == scope.node
        || transfer.record.destination_node == scope.node)
}

/// A transfer that has not ended and whose time is over.
pub open spec fn overdue(
    t: InterchangeTransferModel,
    now: u64,
    no_progress_timeout: u64,
    absolute_max: Option<u64>,
) -> bool {
    &&& !is_terminal(t.record.state)
    &&& {
        ||| t.record.expires_at < now
        ||| saturating(t.record.last_progress_at + no_progress_timeout) < now
        ||| (absolute_max matches Some(most) && saturating(t.record.created_at + most) < now)
    }
}

fn is_overdue(
    transfer: &InterchangeTransfer,
    now: u64,
    no_progress_timeout: u64,
    absolute_max: Option<u64>,
) -> (r: bool)
    ensures
        r == overdue(transfer@, now, no_progress_timeout, absolute_max),
{
    let stalled: bool = transfer.record.last_progress_at.saturating_add(no_progress_timeout) < now;
    let too_long: bool = match absolute_max {
        Some(most) => transfer.record.created_at.saturating_add(most) < now,
        None => false,
    };
    !transfer.record.state.terminal() && (transfer.record.expires_at < now || stalled || too_long)
}

/// A transfer that is still remembered.
pub open spec fn kept(t: InterchangeTransferModel, now: u64, retention: u64) -> bool {
    !is_terminal(t.record.state) || saturating(t.record.updated_at + retention) >= now
}

/// The transfers after those whose time is over have expired and old ones were forgotten.
pub open spec fn transfers_expired(
    transfers: Seq<(Seq<char>, InterchangeTransferModel)>,
    now: u64,
    no_progress_timeout: u64,
    absolute_max: Option<u64>,
    retention: u64,
) -> Seq<(Seq<char>, InterchangeTransferModel)> {
    all_ended(
        transfers,
        |t: InterchangeTransferModel| overdue(t, now, no_progress_timeout, absolute_max),
        ArtifactTransferState::Expired,
        |t: InterchangeTransferModel| ArtifactTransferErrorCode::TransferLeaseExpired,
        now,
    ).filter(|e: (Seq<char>, InterchangeTransferModel)| kept(e.1, now, retention))
}

/// The holds of the transfers that `p` holds of, in the order of the transfers.
pub open spec fn holds_of(
    transfers: Seq<(Seq<char>, InterchangeTransferModel)>,
    p: spec_fn(InterchangeTransferModel) -> bool,
) -> Seq<(ScopeText, ArtifactHoldReasonModel)> {
    transfers.filter_map(
        |e: (Seq<char>, InterchangeTransferModel)|
            if p(e.1) {
                Some(active_hold_of(e.1))
            } else {
                None
            },
    )
}

/// What comes of asking once more for an artifact that is on its way.
pub open spec fn transfer_renewed(
    before: InterchangeRegistryModel,
    after: InterchangeRegistryModel,
    request: (Seq<char>, Seq<char>, Seq<char>, Seq<char>, Seq<char>),
    now: u64,
    terms: LeaseTerms,
    r: Option<(ArtifactTransferAuthorization, ArtifactTransferRecord)>,
) -> bool {
    let p = |e: (Seq<char>, InterchangeTransferModel)|
        runs(e.1, now) && same_request(
            e.1,
            request.0,
            request.1,
            request.2,
            request.3,
            request.4,
        );
    &&& r is Some <==> holds_of_some(before.transfers, p)
    &&& r is None ==> after == before
    &&& r matches Some(answer) ==> exists|i: int| #[trigger]
        renewal(before, after, request, now, terms, i) && answer.0@ == renewed(
            before.transfers[i].1,
            now,
            terms,
        ).destination_authorization && answer.1 == renewed(before.transfers[i].1, now, terms).record
}

/// What comes of a node that asks what it is to provide.
pub open spec fn provider_polled(
    before: InterchangeRegistryModel,
    after: InterchangeRegistryModel,
    scope: ScopeText,
    now: u64,
    recovery: u64,
    r: (Vec<String>, Option<ArtifactTransferAuthorization>),
) -> bool {
    let p = |e: (Seq<char>, InterchangeTransferModel)| for_provider(e.1, scope, now, recovery);
    &&& texts(r.0@) == before.transfers.filter_map(
        |e: (Seq<char>, InterchangeTransferModel)|
            if provided_by(e.1, scope) && is_terminal(e.1.record.state) {
                Some(e.1.record.transfer_id@)
            } else {
                None
            },
    )
    &&& r.1 is Some <==> holds_of_some(before.transfers, p)
    &&& r.1 is None ==> after == before
    &&& r.1 matches Some(answer) ==> exists|i: int| #[trigger]
        provider_delivery(before, after, scope, now, recovery, i) && answer@
            == before.transfers[i].1.provider_authorization
}

/// What comes of a node that asks what it is to receive.
pub open spec fn receiver_polled(
    before: InterchangeRegistryModel,
    after: InterchangeRegistryModel,
    scope: ScopeText,
    now: u64,
    recovery: u64,
    r: Option<ArtifactTransferAuthorization>,
) -> bool {
    let p = |e: (Seq<char>, InterchangeTransferModel)| for_receiver(e.1, scope, now, recovery);
    &&& r is Some <==> holds_of_some(before.transfers, p)
    &&& r is None ==> after == before
    &&& r matches Some(answer) ==> exists|i: int| #[trigger]
        receiver_delivery(before, after, scope, now, recovery, i) && answer@
            == before.transfers[i].1.destination_authorization
}

/// What comes of a node that takes its part of a transfer.
pub open spec fn assignment_acknowledged(
    before: InterchangeRegistryModel,
    after: InterchangeRegistryModel,
    scope: ScopeText,
    id: Seq<char>,
    role: ArtifactAssignmentRole,
    now: u64,
    r: Result<ArtifactAssignmentState, AssignmentAcknowledgementError>,
) -> bool {
    match acknowledgement_refusal(before, scope, id, role) {
        Some(error) => r == Err::<ArtifactAssignmentState, AssignmentAcknowledgementError>(error)
            && after == before,
        None => {
            let t = acknowledged(lookup(before.transfers, id)->Some_0, role, now);
            &&& r == Ok::<ArtifactAssignmentState, AssignmentAcknowledgementError>(
                assignment_of(t, role),
            )
            &&& after == with_transfer(before, id, t)
        },
    }
}

/// The registry after the transfers of a process were cancelled.
pub open spec fn process_cancelled(
    state: InterchangeRegistryModel,
    tenant: Seq<char>,
    project: Seq<char>,
    process: Seq<char>,
    now: u64,
) -> InterchangeRegistryModel {
    InterchangeRegistryModel {
        transfers: all_ended(
            state.transfers,
            |t: InterchangeTransferModel| active_in_process(t, tenant, project, process),
            ArtifactTransferState::Cancelled,
            |t: InterchangeTransferModel| ArtifactTransferErrorCode::TransferCancelled,
            now,
        ),
        ..state
    }
}

/// The registry after the transfers of a node were cancelled.
pub open spec fn node_drained(state: InterchangeRegistryModel, scope: ScopeText, now: u64) -> InterchangeRegistryModel {
    InterchangeRegistryModel {
        transfers: all_ended(
            state.transfers,
            |t: InterchangeTransferModel| active_on_node(t, scope),
            ArtifactTransferState::Cancelled,
            |t: InterchangeTransferModel| ArtifactTransferErrorCode::TransferCancelled,
            now,
        ),
        ..state
    }
}

/// The registry after a node was lost.
pub open spec fn node_failed(state: InterchangeRegistryModel, scope: ScopeText, now: u64) -> InterchangeRegistryModel {
    InterchangeRegistryModel {
        transfers: all_ended(
            state.transfers,
            |t: InterchangeTransferModel| active_on_node(t, scope),
            ArtifactTransferState::Failed,
            |t: InterchangeTransferModel|
                if t.record.source_node@ == scope.2 {
                    ArtifactTransferErrorCode::SourceNodeOffline
                } else {
                    ArtifactTransferErrorCode::DestinationNodeOffline
                },
            now,
        ),
        ..state
    }
}

impl InterchangeRegistry {
    /// Drops terminal transfers, the oldest first, until there is room for one more.
    fn prune_terminal_to_fit(&mut self, capacity: usize)
        ensures
            exists|n: int| is_pruned(old(self)@.transfers, final(self)@.transfers, capacity, n),
            final(self)@ == (InterchangeRegistryModel {
                transfers: final(self)@.transfers,
                ..old(self)@
            }),
            ascending(final(self)@.transfers),
    {
        let ghost start = self@;
        let ghost p = |e: (Seq<char>, InterchangeTransferModel)| is_terminal(e.1.record.state);
        let ghost f = |t: InterchangeTransferModel| t.record.updated_at;
        let total: usize = self.transfers.len();
        let mut n: usize = 0;
        loop
            invariant
                p == |e: (Seq<char>, InterchangeTransferModel)| is_terminal(e.1.record.state),
                f == |t: InterchangeTransferModel| t.record.updated_at,
                total == start.transfers.len(),
                ascending(self.transfers@),
                self.transfers@.len() + n == total,
                self@ == (InterchangeRegistryModel { transfers: self.transfers@, ..start }),
                self.transfers@ == after_prunes(start.transfers, n as int),
                forall|k: int|
                    0 <= k < n ==> prunes(#[trigger] after_prunes(start.transfers, k), capacity),
            ensures
                !prunes(self.transfers@, capacity),
            decreases self.transfers@.len(),
        {
            if self.transfers.len() < capacity {
                break;
            }
            let test = |_id: &String, t: &InterchangeTransfer| -> (b: bool)
                ensures
                    b == is_terminal(t@.record.state),
            { t.record.state.terminal() };
            let measure = |t: &InterchangeTransfer| -> (at: u64)
                ensures
                    at == t@.record.updated_at,
            { t.record.updated_at };
            match self.transfers.find_least(test, measure, Ghost(p), Ghost(f)) {
                None => {
                    break;
                },
                Some(oldest) => {
                    let ghost here = self.transfers@;
                    proof {
                        let i = choose|i: int| is_least_at(here, p, f, i);
                        assert(is_least_at(here, p, f, i));
                        lemma_least_key(here, p, f, i);
                        lemma_lookup_at(here, i);
                        lemma_delete_ascending(here, here[i].0);
                    }
                    let _gone: Option<InterchangeTransfer> = self.transfers.remove(&oldest);
                    n = n + 1;
                },
            }
        }
        assert(is_pruned(start.transfers, self.transfers@, capacity, n as int));
    }

    /// Admits a transfer, if there is room or room can be made.
    pub fn create(&mut self, transfer_id: String, transfer: InterchangeTransfer, capacity: usize) -> (r:
        Result<(), TransferAdmissionError>)
        ensures
            exists|n: int|
                admission(
                    old(self)@,
                    final(self)@,
                    r,
                    transfer_id@,
                    transfer@,
                    capacity,
                    n,
                ),
            r is Ok ==> final(self)@.transfers.len() <= capacity,
    {
        self.prune_terminal_to_fit(capacity);
        let ghost room = self.transfers@;
        let ghost n = choose|n: int| is_pruned(old(self)@.transfers, room, capacity, n);
        assert(is_pruned(old(self)@.transfers, room, capacity, n));
        assert(room == after_prunes(old(self)@.transfers, n));
        if self.transfers.len() >= capacity {
            assert(admission(
                old(self)@,
                self@,
                Err(TransferAdmissionError::CapacityUnavailable),
                transfer_id@,
                transfer@,
                capacity,
                n,
            ));
            return Err(TransferAdmissionError::CapacityUnavailable);
        }
        let ghost id = transfer_id@;
        let ghost shown = transfer@;
        assert(transfer_id.key() == transfer_id@);
        proof {
            lemma_put_ascending(room, transfer_id@, transfer@);
        }
        self.transfers.insert(transfer_id, transfer);
        assert(admission(old(self)@, self@, Ok(()), id, shown, capacity, n));
        Ok(())
    }

    /// Renews the running transfer of an artifact to a node, if there is one.
    pub fn renew(
        &mut self,
        tenant: &TenantId,
        project: &ProjectId,
        process: &ProcessId,
        artifact: &ArtifactId,
        destination: &NodeScopeKey,
        now: u64,
        terms: LeaseTerms,
    ) -> (r: Option<(ArtifactTransferAuthorization, ArtifactTransferRecord)>)
        ensures
            transfer_renewed(
                old(self)@,
                final(self)@,
                (tenant@, project@, process@, artifact@, destination@.2),
                now,
                terms,
                r,
            ),
    {
        broadcast use lemma_put_delete;

        let ghost before = self@;
        let ghost p = |e: (Seq<char>, InterchangeTransferModel)|
            runs(e.1, now) && same_request(
                e.1,
                tenant@,
                project@,
                process@,
                artifact@,
                destination@.2,
            );
        let test = |_id: &String, t: &InterchangeTransfer| -> (b: bool)
            ensures
                b == (runs(t@, now) && same_request(
                    t@,
                    tenant@,
                    project@,
                    process@,
                    artifact@,
                    destination@.2,
                )),
        {
            t.record.expires_at >= now && !t.record.state.terminal() && t.record.tenant == *tenant
                && t.record.project == *project && t.record.process == *process
                && t.record.artifact == *artifact && t.record.destination_node == destination.node
        };
        let place: usize = match self.transfers.find(test, Ghost(p)) {
            Some(place) => place,
            None => {
                return None;
            },
        };
        let id: String = self.transfers.key_at(place).copy_key();
        proof {
            lemma_lookup_at(before.transfers, place as int);
        }
        let mut t: InterchangeTransfer = match self.transfers.remove(&id) {
            Some(t) => t,
            None => {
                return None;
            },
        };
        let ghost was = t@;
        let until: u64 = lease_expiry_at(
            now,
            terms.active_lease_ttl_seconds,
            t.record.created_at,
            terms.absolute_transfer_max_seconds,
        );
        let asked: u64 = now.saturating_add(terms.transfer_ticket_ttl_seconds);
        let ticket: u64 = if asked <= until {
            asked
        } else {
            until
        };
        t.record.stream_ticket_expires_at = ticket;
        t.destination_authorization.lease.expires_at = ticket;
        t.provider_authorization.lease.expires_at = ticket;
        if matches!(
            t.record.state,
            ArtifactTransferState::Requested
                | ArtifactTransferState::SourceSelected
                | ArtifactTransferState::Connecting
                | ArtifactTransferState::WaitingForDirect
                | ArtifactTransferState::Retrying
        ) {
            t.record.last_progress_at = now;
            t.record.expires_at = until;
            t.destination_authorization.lease.active_lease_expires_at = until;
            t.provider_authorization.lease.active_lease_expires_at = until;
        }
        assert(t@ =~= renewed(was, now, terms));
        let authorization: ArtifactTransferAuthorization = t.destination_authorization.duplicate();
        let record: ArtifactTransferRecord = t.record.duplicate();
        self.transfers.insert(id, t);
        assert(renewal(
            before,
            self@,
            (tenant@, project@, process@, artifact@, destination@.2),
            now,
            terms,
            place as int,
        ));
        Some((authorization, record))
    }

    /// The assignment that a provider is to take up, and the transfers that it may forget.
    pub fn poll_provider_assignment(
        &mut self,
        scope: &NodeScopeKey,
        now: u64,
        acknowledgement_recovery_seconds: u64,
    ) -> (r: (Vec<String>, Option<ArtifactTransferAuthorization>))
        ensures
            provider_polled(
                old(self)@,
                final(self)@,
                scope@,
                now,
                acknowledgement_recovery_seconds,
                r,
            ),
    {
        broadcast use lemma_put_delete;

        let ghost before = self@;
        let ghost g = |e: (Seq<char>, InterchangeTransferModel)|
            if provided_by(e.1, scope@) && is_terminal(e.1.record.state) {
                Some(e.1.record.transfer_id@)
            } else {
                None
            };
        let retired_id = |_id: &String, t: &InterchangeTransfer| -> (r: Option<String>)
            ensures
                option_view(r) == (if provided_by(t@, scope@) && is_terminal(t@.record.state) {
                    Some(t@.record.transfer_id@)
                } else {
                    None
                }),
        {
            if t.record.tenant == scope.tenant && t.record.project == scope.project
                && t.record.source_node == scope.node && t.record.state.terminal() {
                Some(t.record.transfer_id.clone())
            } else {
                None
            }
        };
        let retired: Vec<String> = self.transfers.collect(retired_id, Ghost(g));
        assert(views(retired@) =~= texts(retired@));
        let ghost p = |e: (Seq<char>, InterchangeTransferModel)|
            for_provider(e.1, scope@, now, acknowledgement_recovery_seconds);
        let test = |_id: &String, t: &InterchangeTransfer| -> (b: bool)
            ensures
                b == for_provider(t@, scope@, now, acknowledgement_recovery_seconds),
        {
            t.record.tenant == scope.tenant && t.record.project == scope.project
                && t.record.source_node == scope.node && is_deliverable(
                t.provider_assignment,
                t.provider_acknowledged_at,
                now,
                acknowledgement_recovery_seconds,
            ) && !t.record.state.terminal() && t.record.expires_at >= now
        };
        let place: usize = match self.transfers.find(test, Ghost(p)) {
            Some(place) => place,
            None => {
                return (retired, None);
            },
        };
        let id: String = self.transfers.key_at(place).copy_key();
        proof {
            lemma_lookup_at(before.transfers, place as int);
        }
        let mut t: InterchangeTransfer = match self.transfers.remove(&id) {
            Some(t) => t,
            None => {
                return (retired, None);
            },
        };
        if t.provider_assignment == ArtifactAssignmentState::Acknowledged {
            t.provider_assignment = ArtifactAssignmentState::Offered;
            t.provider_acknowledged_at = None;
        }
        let authorization: ArtifactTransferAuthorization = t.provider_authorization.duplicate();
        self.transfers.insert(id, t);
        assert(provider_delivery(
            before,
            self@,
            scope@,
            now,
            acknowledgement_recovery_seconds,
            place as int,
        ));
        (retired, Some(authorization))
    }

    /// The assignment that a receiver is to take up.
    pub fn poll_receiver_assignment(
        &mut self,
        scope: &NodeScopeKey,
        now: u64,
        acknowledgement_recovery_seconds: u64,
    ) -> (r: Option<ArtifactTransferAuthorization>)
        ensures
            receiver_polled(
                old(self)@,
                final(self)@,
                scope@,
                now,
                acknowledgement_recovery_seconds,
                r,
            ),
    {
        broadcast use lemma_put_delete;

        let ghost before = self@;
        let ghost p = |e: (Seq<char>, InterchangeTransferModel)|
            for_receiver(e.1, scope@, now, acknowledgement_recovery_seconds);
        let test = |_id: &String, t: &InterchangeTransfer| -> (b: bool)
            ensures
                b == for_receiver(t@, scope@, now, acknowledgement_recovery_seconds),
        {
            is_deliverable(
                t.destination_assignment,
                t.destination_acknowledged_at,
                now,
                acknowledgement_recovery_seconds,
            ) && !t.record.state.terminal() && t.record.destination_node == scope.node
                && t.record.tenant == scope.tenant && t.record.project == scope.project
                && t.record.expires_at >= now
        };
        let place: usize = match self.transfers.find(test, Ghost(p)) {
            Some(place) => place,
            None => {
                return None;
            },
        };
        let id: String = self.transfers.key_at(place).copy_key();
        proof {
            lemma_lookup_at(before.transfers, place as int);
        }
        let mut t: InterchangeTransfer = match self.transfers.remove(&id) {
            Some(t) => t,
            None => {
                return None;
            },
        };
        if t.destination_assignment == ArtifactAssignmentState::Acknowledged {
            t.destination_assignment = ArtifactAssignmentState::Offered;
            t.destination_acknowledged_at = None;
        }
        let authorization: ArtifactTransferAuthorization = t.destination_authorization.duplicate();
        self.transfers.insert(id, t);
        assert(receiver_delivery(
            before,
            self@,
            scope@,
            now,
            acknowledgement_recovery_seconds,
            place as int,
        ));
        Some(authorization)
    }
}

/// Why an acknowledgement is refused.
pub open spec fn acknowledgement_refusal(
    state: InterchangeRegistryModel,
    scope: ScopeText,
    id: Seq<char>,
    role: ArtifactAssignmentRole,
) -> Option<AssignmentAcknowledgementError> {
    match lookup(state.transfers, id) {
        None => Some(AssignmentAcknowledgementError::UnknownTransfer),
        Some(t) => if t.record.tenant@ != scope.0 || t.record.project@ != scope.1 {
            Some(AssignmentAcknowledgementError::OutsideScope)
        } else if (role == ArtifactAssignmentRole::Provider && t.record.source_node@ != scope.2) || (
        role == ArtifactAssignmentRole::Receiver && t.record.destination_node@ != scope.2) {
            Some(AssignmentAcknowledgementError::RoleMismatch)
        } else {
            None
        },
    }
}

/// The transfer after one of its nodes has acknowledged its assignment. A node that is ready stays
/// so.
pub open spec fn acknowledged(t: InterchangeTransferModel, role: ArtifactAssignmentRole, now: u64) -> InterchangeTransferModel {
    match role {
        ArtifactAssignmentRole::Provider => if t.provider_assignment
            == ArtifactAssignmentState::Ready {
            t
        } else {
            InterchangeTransferModel {
                provider_assignment: ArtifactAssignmentState::Acknowledged,
                provider_acknowledged_at: Some(now),
                ..t
            }
        },
        ArtifactAssignmentRole::Receiver => if t.destination_assignment
            == ArtifactAssignmentState::Ready {
            t
        } else {
            InterchangeTransferModel {
                destination_assignment: ArtifactAssignmentState::Acknowledged,
                destination_acknowledged_at: Some(now),
                ..t
            }
        },
    }
}

/// How far the node of a role has taken up the transfer.
pub open spec fn assignment_of(t: InterchangeTransferModel, role: ArtifactAssignmentRole) -> ArtifactAssignmentState {
    match role {
        ArtifactAssignmentRole::Provider => t.provider_assignment,
        ArtifactAssignmentRole::Receiver => t.destination_assignment,
    }
}

/// The transfers and artifacts that end when a node is drained at once.
pub struct DrainedTransfer {
    pub artifact: ArtifactId,
    pub transfer_id: String,
}

impl View for DrainedTransfer {
    type V = (Seq<char>, Seq<char>);

    open spec fn view(&self) -> (Seq<char>, Seq<char>) {
        (self.artifact@, self.transfer_id@)
    }
}

impl InterchangeRegistry {
    /// Records that a node has acknowledged its assignment.
    pub fn acknowledge_assignment(
        &mut self,
        scope: &NodeScopeKey,
        transfer_id: &String,
        role: ArtifactAssignmentRole,
        now: u64,
    ) -> (r: Result<ArtifactAssignmentState, AssignmentAcknowledgementError>)
        ensures
            assignment_acknowledged(old(self)@, final(self)@, scope@, transfer_id@, role, now, r),
    {
        broadcast use lemma_put_delete;

        assert(transfer_id.key() == transfer_id@);
        match self.transfers.get(transfer_id) {
            None => {
                return Err(AssignmentAcknowledgementError::UnknownTransfer);
            },
            Some(t) => {
                if t.record.tenant != scope.tenant || t.record.project != scope.project {
                    return Err(AssignmentAcknowledgementError::OutsideScope);
                }
                let fits: bool = match role {
                    ArtifactAssignmentRole::Provider => t.record.source_node == scope.node,
                    ArtifactAssignmentRole::Receiver => t.record.destination_node == scope.node,
                };
                if !fits {
                    return Err(AssignmentAcknowledgementError::RoleMismatch);
                }
            },
        }
        let mut t: InterchangeTransfer = match self.transfers.remove(transfer_id) {
            Some(t) => t,
            None => {
                return Err(AssignmentAcknowledgementError::UnknownTransfer);
            },
        };
        let state: ArtifactAssignmentState = match role {
            ArtifactAssignmentRole::Provider => {
                if t.provider_assignment != ArtifactAssignmentState::Ready {
                    t.provider_assignment = ArtifactAssignmentState::Acknowledged;
                    t.provider_acknowledged_at = Some(now);
                }
                t.provider_assignment
            },
            ArtifactAssignmentRole::Receiver => {
                if t.destination_assignment != ArtifactAssignmentState::Ready {
                    t.destination_assignment = ArtifactAssignmentState::Acknowledged;
                    t.destination_acknowledged_at = Some(now);
                }
                t.destination_assignment
            },
        };
        let id: String = transfer_id.clone();
        assert(id.key() == transfer_id@);
        self.transfers.insert(id, t);
        Ok(state)
    }

    /// Cancels the transfers of a process. Hands out the holds that they had.
    pub fn cancel_process(
        &mut self,
        tenant: &TenantId,
        project: &ProjectId,
        process: &ProcessId,
        now: u64,
    ) -> (r: Vec<ReleasedTransferHold>)
        ensures
            ({
                let p = |t: InterchangeTransferModel|
                    active_in_process(t, tenant@, project@, process@);
                &&& views(r@) == holds_of(old(self)@.transfers, p)
                &&& final(self)@ == process_cancelled(
                    old(self)@,
                    tenant@,
                    project@,
                    process@,
                    now,
                )
            }),
    {
        let ghost before = self@;
        let ghost g = |e: (Seq<char>, InterchangeTransferModel)|
            if active_in_process(e.1, tenant@, project@, process@) {
                Some(active_hold_of(e.1))
            } else {
                None
            };
        let ghost h = |e: (Seq<char>, InterchangeTransferModel)|
            if active_in_process(e.1, tenant@, project@, process@) {
                ended(
                    e.1,
                    ArtifactTransferState::Cancelled,
                    ArtifactTransferErrorCode::TransferCancelled,
                    now,
                )
            } else {
                e.1
            };
        let hold = |_id: &String, t: &InterchangeTransfer| -> (r: Option<ReleasedTransferHold>)
            ensures
                option_view(r) == (if active_in_process(t@, tenant@, project@, process@) {
                    Some(active_hold_of(t@))
                } else {
                    None
                }),
        {
            if !t.record.state.terminal() && t.record.tenant == *tenant && t.record.project
                == *project && t.record.process == *process {
                Some(active_hold(t))
            } else {
                None
            }
        };
        let released: Vec<ReleasedTransferHold> = self.transfers.collect(hold, Ghost(g));
        let update = |_id: &String, t: InterchangeTransfer| -> (r: InterchangeTransfer)
            ensures
                r@ == (if active_in_process(t@, tenant@, project@, process@) {
                    ended(
                        t@,
                        ArtifactTransferState::Cancelled,
                        ArtifactTransferErrorCode::TransferCancelled,
                        now,
                    )
                } else {
                    t@
                }),
        {
            if !t.record.state.terminal() && t.record.tenant == *tenant && t.record.project
                == *project && t.record.process == *process {
                end_transfer(
                    t,
                    ArtifactTransferState::Cancelled,
                    ArtifactTransferErrorCode::TransferCancelled,
                    now,
                )
            } else {
                t
            }
        };
        self.transfers.update_values(update, Ghost(h));
        proof {
            let p = |t: InterchangeTransferModel| active_in_process(t, tenant@, project@, process@);
            lemma_filter_map_agree(
                before.transfers,
                g,
                |e: (Seq<char>, InterchangeTransferModel)|
                    if p(e.1) {
                        Some(active_hold_of(e.1))
                    } else {
                        None
                    },
            );
            assert(self.transfers@ =~= all_ended(
                before.transfers,
                p,
                ArtifactTransferState::Cancelled,
                |t: InterchangeTransferModel| ArtifactTransferErrorCode::TransferCancelled,
                now,
            ));
        }
        released
    }

    /// Cancels the transfers in which a node takes part. Hands out their artifacts and identifiers.
    pub fn cancel_node_for_hard_drain(&mut self, scope: &NodeScopeKey, now: u64) -> (r: Vec<
        DrainedTransfer,
    >)
        ensures
            views(r@) == old(self)@.transfers.filter_map(
                |e: (Seq<char>, InterchangeTransferModel)|
                    if active_on_node(e.1, scope@) {
                        Some((e.1.record.artifact@, e.1.record.transfer_id@))
                    } else {
                        None
                    },
            ),
            final(self)@ == node_drained(old(self)@, scope@, now),
    {
        let ghost before = self@;
        let ghost g = |e: (Seq<char>, InterchangeTransferModel)|
            if active_on_node(e.1, scope@) {
                Some((e.1.record.artifact@, e.1.record.transfer_id@))
            } else {
                None
            };
        let ghost h = |e: (Seq<char>, InterchangeTransferModel)|
            if active_on_node(e.1, scope@) {
                ended(
                    e.1,
                    ArtifactTransferState::Cancelled,
                    ArtifactTransferErrorCode::TransferCancelled,
                    now,
                )
            } else {
                e.1
            };
        let drained = |_id: &String, t: &InterchangeTransfer| -> (r: Option<DrainedTransfer>)
            ensures
                option_view(r) == (if active_on_node(t@, scope@) {
                    Some((t@.record.artifact@, t@.record.transfer_id@))
                } else {
                    None
                }),
        {
            if is_active_on_node(t, scope) {
                Some(
                    DrainedTransfer {
                        artifact: t.record.artifact.clone(),
                        transfer_id: t.record.transfer_id.clone(),
                    },
                )
            } else {
                None
            }
        };
        let released: Vec<DrainedTransfer> = self.transfers.collect(drained, Ghost(g));
        let update = |_id: &String, t: InterchangeTransfer| -> (r: InterchangeTransfer)
            ensures
                r@ == (if active_on_node(t@, scope@) {
                    ended(
                        t@,
                        ArtifactTransferState::Cancelled,
                        ArtifactTransferErrorCode::TransferCancelled,
                        now,
                    )
                } else {
                    t@
                }),
        {
            if is_active_on_node(&t, scope) {
                end_transfer(
                    t,
                    ArtifactTransferState::Cancelled,
                    ArtifactTransferErrorCode::TransferCancelled,
                    now,
                )
            } else {
                t
            }
        };
        self.transfers.update_values(update, Ghost(h));
        assert(self.transfers@ =~= all_ended(
            before.transfers,
            |t: InterchangeTransferModel| active_on_node(t, scope@),
            ArtifactTransferState::Cancelled,
            |t: InterchangeTransferModel| ArtifactTransferErrorCode::TransferCancelled,
            now,
        ));
        released
    }

    /// Fails the transfers in which a node takes part. Hands out the holds that they had.
    pub fn fail_node(&mut self, scope: &NodeScopeKey, now: u64) -> (r: Vec<ReleasedTransferHold>)
        ensures
            views(r@) == holds_of(
                old(self)@.transfers,
                |t: InterchangeTransferModel| active_on_node(t, scope@),
            ),
            final(self)@ == node_failed(old(self)@, scope@, now),
    {
        let ghost before = self@;
        let ghost code = |t: InterchangeTransferModel|
            if t.record.source_node@ == scope@.2 {
                ArtifactTransferErrorCode::SourceNodeOffline
            } else {
                ArtifactTransferErrorCode::DestinationNodeOffline
            };
        let ghost h = |e: (Seq<char>, InterchangeTransferModel)|
            if active_on_node(e.1, scope@) {
                ended(e.1, ArtifactTransferState::Failed, code(e.1), now)
            } else {
                e.1
            };
        let ghost g = |e: (Seq<char>, InterchangeTransferModel)|
            if active_on_node(e.1, scope@) {
                Some(active_hold_of(e.1))
            } else {
                None
            };
        let hold = |_id: &String, t: &InterchangeTransfer| -> (r: Option<ReleasedTransferHold>)
            ensures
                option_view(r) == (if active_on_node(t@, scope@) {
                    Some(active_hold_of(t@))
                } else {
                    None
                }),
        {
            if is_active_on_node(t, scope) {
                Some(active_hold(t))
            } else {
                None
            }
        };
        let released: Vec<ReleasedTransferHold> = self.transfers.collect(hold, Ghost(g));
        let update = |_id: &String, t: InterchangeTransfer| -> (r: InterchangeTransfer)
            ensures
                r@ == (if active_on_node(t@, scope@) {
                    ended(t@, ArtifactTransferState::Failed, code(t@), now)
                } else {
                    t@
                }),
        {
            if is_active_on_node(&t, scope) {
                let offline: ArtifactTransferErrorCode = if t.record.source_node == scope.node {
                    ArtifactTransferErrorCode::SourceNodeOffline
                } else {
                    ArtifactTransferErrorCode::DestinationNodeOffline
                };
                end_transfer(t, ArtifactTransferState::Failed, offline, now)
            } else {
                t
            }
        };
        self.transfers.update_values(update, Ghost(h));
        assert(self.transfers@ =~= all_ended(
            before.transfers,
            |t: InterchangeTransferModel| active_on_node(t, scope@),
            ArtifactTransferState::Failed,
            code,
            now,
        ));
        proof {
            let p = |t: InterchangeTransferModel| active_on_node(t, scope@);
            lemma_filter_map_agree(
                before.transfers,
                g,
                |e: (Seq<char>, InterchangeTransferModel)|
                    if p(e.1) {
                        Some(active_hold_of(e.1))
                    } else {
                        None
                    },
            );
        }
        released
    }

    /// Expires the transfers whose time is over, and forgets old ones. Hands out the holds of those
    /// that expired.
    pub fn expire(
        &mut self,
        now: u64,
        no_progress_timeout_seconds: u64,
        absolute_transfer_max_seconds: Option<u64>,
        terminal_retention_seconds: u64,
    ) -> (r: Vec<ReleasedTransferHold>)
        ensures
            views(r@) == holds_of(
                old(self)@.transfers,
                |t: InterchangeTransferModel|
                    overdue(t, now, no_progress_timeout_seconds, absolute_transfer_max_seconds),
            ),
            final(self)@ == (InterchangeRegistryModel {
                transfers: transfers_expired(
                    old(self)@.transfers,
                    now,
                    no_progress_timeout_seconds,
                    absolute_transfer_max_seconds,
                    terminal_retention_seconds,
                ),
                ..old(self)@
            }),
    {
        let ghost before = self@;
        let ghost p = |t: InterchangeTransferModel|
            overdue(t, now, no_progress_timeout_seconds, absolute_transfer_max_seconds);
        let ghost g = |e: (Seq<char>, InterchangeTransferModel)|
            if p(e.1) {
                Some(active_hold_of(e.1))
            } else {
                None
            };
        let ghost h = |e: (Seq<char>, InterchangeTransferModel)|
            if p(e.1) {
                ended(
                    e.1,
                    ArtifactTransferState::Expired,
                    ArtifactTransferErrorCode::TransferLeaseExpired,
                    now,
                )
            } else {
                e.1
            };
        let hold = |_id: &String, t: &InterchangeTransfer| -> (r: Option<ReleasedTransferHold>)
            ensures
                option_view(r) == (if p(t@) {
                    Some(active_hold_of(t@))
                } else {
                    None
                }),
        {
            if is_overdue(t, now, no_progress_timeout_seconds, absolute_transfer_max_seconds) {
                Some(active_hold(t))
            } else {
                None
            }
        };
        let released: Vec<ReleasedTransferHold> = self.transfers.collect(hold, Ghost(g));
        let update = |_id: &String, t: InterchangeTransfer| -> (r: InterchangeTransfer)
            ensures
                r@ == (if p(t@) {
                    ended(
                        t@,
                        ArtifactTransferState::Expired,
                        ArtifactTransferErrorCode::TransferLeaseExpired,
                        now,
                    )
                } else {
                    t@
                }),
        {
            if is_overdue(&t, now, no_progress_timeout_seconds, absolute_transfer_max_seconds) {
                end_transfer(
                    t,
                    ArtifactTransferState::Expired,
                    ArtifactTransferErrorCode::TransferLeaseExpired,
                    now,
                )
            } else {
                t
            }
        };
        self.transfers.update_values(update, Ghost(h));
        let ghost mid = self.transfers@;
        assert(mid =~= all_ended(
            before.transfers,
            p,
            ArtifactTransferState::Expired,
            |t: InterchangeTransferModel| ArtifactTransferErrorCode::TransferLeaseExpired,
            now,
        ));
        let ghost q = |e: (Seq<char>, InterchangeTransferModel)|
            kept(e.1, now, terminal_retention_seconds);
        let keep = |_id: &String, t: &InterchangeTransfer| -> (b: bool)
            ensures
                b == kept(t@, now, terminal_retention_seconds),
        {
            !t.record.state.terminal() || t.record.updated_at.saturating_add(
                terminal_retention_seconds,
            ) >= now
        };
        self.transfers.retain(keep, Ghost(q));
        released
    }
}

/// Choices that agree on the elements collect the same.
proof fn lemma_filter_map_agree<A, B>(
    s: Seq<A>,
    f: spec_fn(A) -> Option<B>,
    g: spec_fn(A) -> Option<B>,
)
    requires
        forall|x: A| #[trigger] f(x) == g(x),
    ensures
        s.filter_map(f) == s.filter_map(g),
    decreases s.len(),
{
    if s.len() > 0 {
        lemma_filter_map_agree(s.drop_last(), f, g);
        assert(f(s.last()) == g(s.last()));
    }
}

/// A transfer that has ended does not change by a report, nor do the artifacts.
pub proof fn ended_transfers_stay_as_they_are(
    before: InterchangeRegistryModel,
    artifacts: ArtifactRegistryModel,
    scope: ScopeText,
    id: Seq<char>,
    report: TransferReport,
    now: u64,
    terms: LeaseTerms,
    rules: TransferRules,
    after: InterchangeRegistryModel,
    artifacts_then: ArtifactRegistryModel,
    answer: Result<InterchangeProgress, TransferReportError>,
)
    requires
        report_outcome(
            before,
            artifacts,
            scope,
            id,
            report,
            now,
            terms,
            rules,
            after,
            artifacts_then,
            answer,
        ),
        lookup(before.transfers, id) matches Some(t) && is_terminal(t.record.state),
    ensures
        after == before,
        artifacts_then == artifacts,
{
}

/// A report changes no transfer but its own. It takes back neither the bytes that have come nor
/// those that were counted, and the bytes of a transfer do not exceed its lease.
pub proof fn reports_only_add_bytes(
    before: InterchangeRegistryModel,
    artifacts: ArtifactRegistryModel,
    scope: ScopeText,
    id: Seq<char>,
    report: TransferReport,
    now: u64,
    terms: LeaseTerms,
    rules: TransferRules,
    after: InterchangeRegistryModel,
    artifacts_then: ArtifactRegistryModel,
    answer: Result<InterchangeProgress, TransferReportError>,
    other: Seq<char>,
)
    requires
        ascending(before.transfers),
        report_outcome(
            before,
            artifacts,
            scope,
            id,
            report,
            now,
            terms,
            rules,
            after,
            artifacts_then,
            answer,
        ),
    ensures
        other != id ==> lookup(after.transfers, other) == lookup(before.transfers, other),
        lookup(before.transfers, id) matches Some(t) ==> {
            &&& lookup(after.transfers, id) matches Some(u)
            &&& u.record.bytes_completed >= t.record.bytes_completed
            &&& u.metered_body_bytes >= t.metered_body_bytes
            &&& t.record.bytes_completed <= t.destination_authorization.lease.size_bytes
                ==> u.record.bytes_completed <= u.destination_authorization.lease.size_bytes
            &&& u.destination_authorization.lease.size_bytes
                == t.destination_authorization.lease.size_bytes
        },
        after.direct_body_bytes >= before.direct_body_bytes,
        after.relayed_body_bytes >= before.relayed_body_bytes,
        after.unknown_path_body_bytes >= before.unknown_path_body_bytes,
{
    broadcast use lemma_lookup_put;

}

/// A provider that reports again that it is ready takes no transfer back to an earlier state.
pub proof fn ready_again_keeps_the_state(
    t: InterchangeTransferModel,
    scope: ScopeText,
    report: TransferReport,
    now: u64,
    terms: LeaseTerms,
)
    requires
        refreshes(t, scope, report),
    ensures
        advanced(taken_up(t, scope, report), scope, report, now, terms).record.state
            == t.record.state,
{
}

/// A transfer completes only on the proof that its destination has the whole artifact.
pub proof fn completion_needs_proof(
    before: InterchangeRegistryModel,
    artifacts: ArtifactRegistryModel,
    scope: ScopeText,
    id: Seq<char>,
    report: TransferReport,
    now: u64,
    terms: LeaseTerms,
    rules: TransferRules,
    after: InterchangeRegistryModel,
    artifacts_then: ArtifactRegistryModel,
    answer: Result<InterchangeProgress, TransferReportError>,
)
    requires
        ascending(before.transfers),
        report_outcome(
            before,
            artifacts,
            scope,
            id,
            report,
            now,
            terms,
            rules,
            after,
            artifacts_then,
            answer,
        ),
        lookup(before.transfers, id) matches Some(t) && t.record.state
            != ArtifactTransferState::Completed,
        lookup(after.transfers, id) matches Some(u) && u.record.state
            == ArtifactTransferState::Completed,
    ensures
        completion_proven(lookup(before.transfers, id)->Some_0, scope, report),
        artifact_matches(artifacts, lookup(before.transfers, id)->Some_0),
{
    broadcast use lemma_lookup_put;

}

/// After expiry no transfer is overdue, and no ended one is older than it may be.
pub proof fn expiry_leaves_nothing_overdue(
    transfers: Seq<(Seq<char>, InterchangeTransferModel)>,
    now: u64,
    no_progress_timeout: u64,
    absolute_max: Option<u64>,
    retention: u64,
    i: int,
)
    requires
        0 <= i < transfers_expired(transfers, now, no_progress_timeout, absolute_max, retention).len(),
    ensures
        ({
            let t = transfers_expired(
                transfers,
                now,
                no_progress_timeout,
                absolute_max,
                retention,
            )[i].1;
            !overdue(t, now, no_progress_timeout, absolute_max) && kept(t, now, retention)
        }),
{
    let p = |t: InterchangeTransferModel| overdue(t, now, no_progress_timeout, absolute_max);
    let mid = all_ended(
        transfers,
        p,
        ArtifactTransferState::Expired,
        |t: InterchangeTransferModel| ArtifactTransferErrorCode::TransferLeaseExpired,
        now,
    );
    let q = |e: (Seq<char>, InterchangeTransferModel)| kept(e.1, now, retention);
    let after = mid.filter(q);
    mid.lemma_filter_contains_rev(q, after[i]);
    assert(after.contains(after[i]));
    let j = choose|j: int| 0 <= j < mid.len() && mid[j] == after[i];
    assert(mid[j].0 == transfers[j].0);
    assert(q(after[i])) by {
        mid.lemma_filter_pred(q, i);
    }
}

} // verus!
