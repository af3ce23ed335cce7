//! Requests of nodes that concern the interchange of artifacts.
use vstd::prelude::*;
use vstd::string::*;

use crate::artifact_registry::{ArtifactHoldReason, ArtifactHoldReasonModel, ArtifactMetadata, ArtifactMetadataModel, ArtifactRegistry, ArtifactRegistryModel, held, saturating, well_formed, with_hold, without_hold};
use crate::coordinator::CoordinatorError;
use crate::duplicate::{Duplicate, TextList, option_view, texts, views};
use crate::ids::{ArtifactId, NodeId, NodeScopeKey, ProcessId, ProjectId, ScopeText, TenantId};
use crate::interchange_configuration::{ASSIGNMENT_ACK_RECOVERY_SECONDS, ArtifactDataPlanePolicy, CoordinatorArtifactInterchangeConfiguration, CoordinatorArtifactInterchangeConfigurationModel, ENDPOINT_ADVERTISEMENT_CLOCK_SKEW_SECONDS, IrohRelayConfiguration, IrohRelayConfigurationModel, MAX_INTERCHANGE_TRANSFERS, RelayLimits, TERMINAL_TRANSFER_RETENTION_SECONDS, configuration_refusal, policy_of};
use crate::interchange_registry::{AssignmentAcknowledgementError, InterchangeProgress, InterchangeRegistryModel, LeaseTerms, ReleasedTransferHold, TransferReport, TransferReportError, acknowledged, acknowledgement_refusal, active_in_process, admission, all_ended, assignment_of, earlier, for_provider, for_receiver, holds_of, overdue, provided_by, provider_delivery, receiver_delivery, renewal, renewed, report_outcome, runs, same_request, takes_part, transfers_expired, with_transfer};
use crate::node_registry::{EndpointAdvertisementError, IrohEndpointAdvertisement, IrohEndpointAdvertisementModel, NodeRegistryModel, advertisement_refusal, expired, live, with_advertisement};
use crate::ordered::{OrderedKey, Ranked};
use crate::ordered_map::{OrderedMap, lookup};
use crate::ordered_set::enumerates;
use crate::relay::{relay_urls_match, same_relay};
use crate::sequences::holds_of_some;
use crate::service::{CoordinatorService, CoordinatorServiceModel};
use crate::service_error::{CoordinatorServiceError, protocol, unauthorized};
use crate::text::{concat2, concat4};
use crate::transfer::{ArtifactAssignmentRole, ArtifactAssignmentState, ArtifactRelayPolicy, ArtifactTransferAuthorization, ArtifactTransferErrorCode, ArtifactTransferLease, ArtifactTransferPhase, ArtifactTransferRecord, ArtifactTransferState, ClusterfluxPathKind, InterchangeTransfer, InterchangeTransferModel, TransferRules, authorized_peer, is_terminal, peer_of, state_text};

verus! {

/// The artifacts after the first `n` of the given holds have ended.
pub open spec fn holds_ended(
    artifacts: ArtifactRegistryModel,
    released: Seq<(ScopeText, ArtifactHoldReasonModel)>,
    n: int,
) -> ArtifactRegistryModel
    decreases n,
{
    if n <= 0 {
        artifacts
    } else {
        let earlier = holds_ended(artifacts, released, n - 1);
        ArtifactRegistryModel {
            holds: without_hold(earlier.holds, released[n - 1].0, released[n - 1].1),
            ..earlier
        }
    }
}

/// The artifacts after all of the given holds have ended.
pub open spec fn all_holds_ended(
    artifacts: ArtifactRegistryModel,
    released: Seq<(ScopeText, ArtifactHoldReasonModel)>,
) -> ArtifactRegistryModel {
    holds_ended(artifacts, released, released.len() as int)
}

fn end_holds(artifacts: &mut ArtifactRegistry, released: &Vec<ReleasedTransferHold>)
    ensures
        final(artifacts)@ == all_holds_ended(old(artifacts)@, views(released@)),
        well_formed(old(artifacts)@) ==> well_formed(final(artifacts)@),
{
    let ghost before = artifacts@;
    let ghost list = views(released@);
    let n: usize = released.len();
    let mut i: usize = 0;
    while i < n
        invariant
            n == released@.len(),
            list == views(released@),
            0 <= i <= n,
            artifacts@ == holds_ended(before, list, i as int),
            well_formed(before) ==> well_formed(artifacts@),
        decreases n - i,
    {
        let hold: &ReleasedTransferHold = &released[i];
        assert(list[i as int] == hold@);
        let _was: bool = artifacts.remove_hold(
            &hold.tenant,
            &hold.project,
            &hold.artifact,
            &hold.reason,
        );
        i = i + 1;
    }
}

/// The service after what concerns the interchange of artifacts has expired.
pub open spec fn interchange_expired(s: CoordinatorServiceModel, now: u64) -> CoordinatorServiceModel {
    let c = s.interchange_configuration;
    CoordinatorServiceModel {
        nodes: expired(s.nodes, now, s.node_stale_after_seconds),
        interchange: InterchangeRegistryModel {
            transfers: transfers_expired(
                s.interchange.transfers,
                now,
                c.no_progress_timeout_seconds,
                c.absolute_transfer_max_seconds,
                TERMINAL_TRANSFER_RETENTION_SECONDS,
            ),
            ..s.interchange
        },
        artifacts: all_holds_ended(
            s.artifacts,
            holds_of(
                s.interchange.transfers,
                |t: InterchangeTransferModel|
                    overdue(t, now, c.no_progress_timeout_seconds, c.absolute_transfer_max_seconds),
            ),
        ),
        ..s
    }
}

/// Whether the node has an identity.
pub open spec fn enrolled(s: CoordinatorServiceModel, scope: ScopeText) -> bool {
    lookup(s.coordinator.durable.node_identities, scope) is Some
}

/// The advertisement of a node, as long as it has not expired.
pub open spec fn current_advertisement(
    nodes: NodeRegistryModel,
    scope: ScopeText,
    now: u64,
) -> Option<IrohEndpointAdvertisementModel> {
    match lookup(nodes.advertisements, scope) {
        Some(a) if a.expires_at > now => Some(a),
        _ => None,
    }
}

/// Whether a transfer that has not ended needs the node.
pub open spec fn needed(s: CoordinatorServiceModel, scope: ScopeText, now: u64) -> bool {
    holds_of_some(
        s.interchange.transfers,
        |e: (Seq<char>, InterchangeTransferModel)| runs(e.1, now) && takes_part(e.1, scope),
    )
}

/// The node whose endpoint may use the relay: relays are in use, the endpoint is that of a live and
/// enrolled node, and a running transfer needs it.
pub open spec fn relay_scope(s: CoordinatorServiceModel, endpoint: Seq<char>, now: u64) -> Option<ScopeText> {
    match lookup(s.nodes.bindings, endpoint) {
        Some(scope) if s.interchange_configuration.relay is Custom && needed(s, scope, now) && live(
            s.nodes,
            scope,
            now,
            s.node_stale_after_seconds,
        ) && enrolled(s, scope) => Some(scope),
        _ => None,
    }
}

/// What the coordinator knows of how a node can be reached.
#[derive(Clone, Copy, Debug, PartialEq, Eq, Structural)]
pub struct ArtifactConnectivityFacts {
    pub endpoint_advertised: bool,
    pub recent_path: ClusterfluxPathKind,
    pub recent_direct_failure: bool,
    pub relay_policy: ArtifactRelayPolicy,
}

/// Transfer `i` is the one of the node that was updated last.
pub open spec fn is_latest(
    transfers: Seq<(Seq<char>, InterchangeTransferModel)>,
    scope: ScopeText,
    i: int,
) -> bool {
    &&& 0 <= i < transfers.len()
    &&& takes_part(transfers[i].1, scope)
    &&& forall|j: int|
        0 <= j < transfers.len() && takes_part((#[trigger] transfers[j]).1, scope)
            ==> transfers[j].1.record.updated_at <= transfers[i].1.record.updated_at && (j > i
            ==> transfers[j].1.record.updated_at < transfers[i].1.record.updated_at)
}

/// What a transfer that was updated last tells of its node.
pub open spec fn facts_from(
    facts: ArtifactConnectivityFacts,
    latest: Option<InterchangeTransferModel>,
) -> bool {
    match latest {
        Some(t) => {
            &&& facts.recent_path == t.record.path_kind
            &&& facts.recent_direct_failure == (t.record.failure_code == Some(
                ArtifactTransferErrorCode::DirectPathTimeout,
            ))
        },
        None => facts.recent_path == ClusterfluxPathKind::Unknown && !facts.recent_direct_failure,
    }
}

/// What a new configuration of the interchange comes to.
pub open spec fn interchange_configured(
    before: CoordinatorServiceModel,
    after: CoordinatorServiceModel,
    configuration: CoordinatorArtifactInterchangeConfiguration,
    limits: RelayLimits,
    r: Result<(), CoordinatorServiceError>,
) -> bool {
    match configuration_refusal(configuration@, limits) {
        Some(text) => {
            &&& r matches Err(error)
            &&& error.protests(text)
            &&& after == before
        },
        None => if configuration@.generation
            <= before.interchange_configuration.generation {
            &&& r matches Err(error)
            &&& error.protests("artifact interchange policy generation must increase"@)
            &&& after == before
        } else {
            &&& r is Ok
            &&& after == (CoordinatorServiceModel {
                interchange_configuration: configuration@,
                nodes: NodeRegistryModel {
                    advertisements: Seq::empty(),
                    bindings: Seq::empty(),
                    ..before.nodes
                },
                ..before
            })
        },
    }
}

impl CoordinatorService {
    /// The terms on which leases are given.
    fn lease_terms(&self) -> (r: LeaseTerms)
        ensures
            r == terms_of(self@.interchange_configuration),
    {
        LeaseTerms {
            active_lease_ttl_seconds: self.artifact_interchange_configuration.active_transfer_lease_ttl_seconds,
            transfer_ticket_ttl_seconds: self.artifact_interchange_configuration.transfer_lease_ttl_seconds,
            absolute_transfer_max_seconds: self.artifact_interchange_configuration.absolute_transfer_max_seconds,
        }
    }

    pub fn node_is_live(&self, scope: &NodeScopeKey, now: u64) -> (r: bool)
        ensures
            r == live(self@.nodes, scope@, now, self@.node_stale_after_seconds),
    {
        self.node_registry.is_live(scope, now, self.node_stale_after_seconds)
    }

    /// Expires advertisements and transfers, and ends the holds of the transfers that expired.
    pub fn expire_interchange_state(&mut self, now: u64)
        ensures
            final(self)@ == interchange_expired(old(self)@, now),
            well_formed(old(self)@.artifacts) ==> well_formed(final(self)@.artifacts),
    {
        self.node_registry.expire_advertisements(now, self.node_stale_after_seconds);
        let released: Vec<ReleasedTransferHold> = self.interchange_registry.expire(
            now,
            self.artifact_interchange_configuration.no_progress_timeout_seconds,
            self.artifact_interchange_configuration.absolute_transfer_max_seconds,
            TERMINAL_TRANSFER_RETENTION_SECONDS,
        );
        end_holds(&mut self.artifact_registry, &released);
    }

    /// Whether the node has an identity.
    pub fn authorize_interchange_node(&self, scope: &NodeScopeKey) -> (r: Result<
        (),
        CoordinatorServiceError,
    >)
        ensures
            enrolled(self@, scope@) ==> r is Ok,
            !enrolled(self@, scope@) ==> r == Err::<(), CoordinatorServiceError>(
                CoordinatorServiceError::Coordinator(CoordinatorError::UnknownNode),
            ),
    {
        if self.coordinator.node_identity(&scope.tenant, &scope.project, &scope.node).is_some() {
            Ok(())
        } else {
            Err(CoordinatorServiceError::Coordinator(CoordinatorError::UnknownNode))
        }
    }

    /// Whether the endpoint may use the relay.
    pub fn authorize_relay_endpoint(&mut self, endpoint_id: &String, now: u64) -> (r: bool)
        ensures
            final(self)@ == interchange_expired(old(self)@, now),
            r == (relay_scope(final(self)@, endpoint_id@, now) is Some),
    {
        self.authorized_relay_endpoint_scope(endpoint_id, now).is_some()
    }

    /// The node whose endpoint may use the relay.
    pub fn authorized_relay_endpoint_scope(&mut self, endpoint_id: &String, now: u64) -> (r: Option<
        NodeScopeKey,
    >)
        ensures
            final(self)@ == interchange_expired(old(self)@, now),
            option_view(r) == relay_scope(final(self)@, endpoint_id@, now),
            well_formed(old(self)@.artifacts) ==> well_formed(final(self)@.artifacts),
    {
        self.expire_interchange_state(now);
        let custom: bool = matches!(
            self.artifact_interchange_configuration.relay,
            IrohRelayConfiguration::Custom(_)
        );
        if !custom {
            return None;
        }
        let scope: &NodeScopeKey = match self.node_registry.endpoint_scope(endpoint_id) {
            Some(scope) => scope,
            None => {
                return None;
            },
        };
        let ghost p = |e: (Seq<char>, InterchangeTransferModel)|
            runs(e.1, now) && takes_part(e.1, scope@);
        let needs = |_id: &String, t: &InterchangeTransfer| -> (b: bool)
            ensures
                b == (runs(t@, now) && takes_part(t@, scope@)),
        {
            !t.record.state.terminal() && t.record.expires_at >= now && t.record.tenant
                == scope.tenant && t.record.project == scope.project && (t.record.source_node
                == scope.node || t.record.destination_node == scope.node)
        };
        let active: bool = self.interchange_registry.transfers().any(needs, Ghost(p));
        if active && self.node_is_live(scope, now) && self.coordinator.node_identity(
            &scope.tenant,
            &scope.project,
            &scope.node,
        ).is_some() {
            Some(scope.duplicate())
        } else {
            None
        }
    }

    /// What the coordinator knows of how a node can be reached.
    pub fn artifact_connectivity_facts(&self, scope: &NodeScopeKey, now: u64) -> (r:
        ArtifactConnectivityFacts)
        ensures
            r.endpoint_advertised == (current_advertisement(self@.nodes, scope@, now) is Some),
            r.relay_policy == self@.interchange_configuration.artifact_relay_policy,
            (exists|i: int| is_latest(self@.interchange.transfers, scope@, i)) ==> exists|i: int|
                #[trigger] is_latest(self@.interchange.transfers, scope@, i) && facts_from(
                    r,
                    Some(self@.interchange.transfers[i].1),
                ),
            !(exists|i: int| is_latest(self@.interchange.transfers, scope@, i)) ==> facts_from(
                r,
                None,
            ),
    {
        let transfers: &OrderedMap<String, InterchangeTransfer> =
            self.interchange_registry.transfers();
        let ghost s = self@.interchange.transfers;
        let n: usize = transfers.len();
        let mut best: Option<usize> = None;
        let mut i: usize = 0;
        while i < n
            invariant
                n == s.len(),
                s == transfers@,
                0 <= i <= n,
                best matches Some(b) ==> b < i && takes_part(s[b as int].1, scope@) && forall|j: int|
                    0 <= j < i && takes_part((#[trigger] s[j]).1, scope@)
                        ==> s[j].1.record.updated_at <= s[b as int].1.record.updated_at && (j > b
                        ==> s[j].1.record.updated_at < s[b as int].1.record.updated_at),
                best is None ==> forall|j: int|
                    0 <= j < i ==> !takes_part((#[trigger] s[j]).1, scope@),
            decreases n - i,
        {
            let t: &InterchangeTransfer = transfers.value_at(i);
            assert(s[i as int].1 == t@);
            if t.record.tenant == scope.tenant && t.record.project == scope.project && (
            t.record.source_node == scope.node || t.record.destination_node == scope.node) {
                match best {
                    None => {
                        best = Some(i);
                    },
                    Some(b) => {
                        if t.record.updated_at >= transfers.value_at(b).record.updated_at {
                            best = Some(i);
                        }
                    },
                }
            }
            i = i + 1;
        }
        let endpoint_advertised: bool = self.node_registry.has_active_advertisement(scope, now);
        let relay_policy: ArtifactRelayPolicy =
            self.artifact_interchange_configuration.artifact_relay_policy;
        match best {
            Some(b) => {
                assert(is_latest(s, scope@, b as int));
                let t: &InterchangeTransfer = transfers.value_at(b);
                ArtifactConnectivityFacts {
                    endpoint_advertised,
                    recent_path: t.record.path_kind,
                    recent_direct_failure: matches!(
                        t.record.failure_code,
                        Some(ArtifactTransferErrorCode::DirectPathTimeout)
                    ),
                    relay_policy,
                }
            },
            None => {
                assert(forall|j: int| !is_latest(s, scope@, j));
                ArtifactConnectivityFacts {
                    endpoint_advertised,
                    recent_path: ClusterfluxPathKind::Unknown,
                    recent_direct_failure: false,
                    relay_policy,
                }
            },
        }
    }

    /// Replaces the configuration. All endpoints have to advertise themselves again.
    pub fn configure_artifact_interchange(
        &mut self,
        configuration: CoordinatorArtifactInterchangeConfiguration,
        limits: RelayLimits,
    ) -> (r: Result<(), CoordinatorServiceError>)
        ensures
            interchange_configured(
                old(self)@,
                final(self)@,
                configuration,
                limits,
                r,
            ),
    {
        match configuration.validate(limits) {
            Err(text) => {
                return Err(CoordinatorServiceError::Protocol(text));
            },
            Ok(()) => {},
        }
        if configuration.generation <= self.artifact_interchange_configuration.generation {
            return Err(protocol("artifact interchange policy generation must increase"));
        }
        self.artifact_interchange_configuration = configuration;
        self.node_registry.clear_advertisements();
        Ok(())
    }

    /// What a node is told of how artifacts are interchanged.
    pub fn handle_get_artifact_data_plane_policy(&self, scope: Result<NodeScopeKey, String>) -> (r:
        Result<ArtifactDataPlanePolicy, CoordinatorServiceError>)
        ensures
            match scope {
                Err(text) => r matches Err(error) && error.protests(text@),
                Ok(scope) => if enrolled(self@, scope@) {
                    r matches Ok(policy) && policy@ == policy_of(self@.interchange_configuration)
                } else {
                    r matches Err(error) && error == CoordinatorServiceError::Coordinator(
                        CoordinatorError::UnknownNode,
                    )
                },
            },
    {
        match scope {
            Err(text) => Err(CoordinatorServiceError::Protocol(text)),
            Ok(scope) => match self.authorize_interchange_node(&scope) {
                Err(error) => Err(error),
                Ok(()) => Ok(self.artifact_interchange_configuration.node_policy()),
            },
        }
    }
}

/// The terms on which leases are given.
pub open spec fn terms_of(c: CoordinatorArtifactInterchangeConfigurationModel) -> LeaseTerms {
    LeaseTerms {
        active_lease_ttl_seconds: c.active_transfer_lease_ttl_seconds,
        transfer_ticket_ttl_seconds: c.transfer_lease_ttl_seconds,
        absolute_transfer_max_seconds: c.absolute_transfer_max_seconds,
    }
}

/// Whether the URL is that of a configured relay.
pub open spec fn relay_configured(relay: IrohRelayConfigurationModel, url: Seq<char>) -> bool {
    match relay {
        IrohRelayConfigurationModel::Disabled => false,
        IrohRelayConfigurationModel::Custom(relays) => exists|i: int|
            0 <= i < relays.len() && same_relay((#[trigger] relays[i]).url@, url),
    }
}

/// Whether all relays that an endpoint names are configured.
pub open spec fn relays_allowed(relay: IrohRelayConfigurationModel, urls: Seq<Seq<char>>) -> bool {
    forall|i: int| 0 <= i < urls.len() ==> relay_configured(relay, #[trigger] urls[i])
}

fn is_relay_configured(relay: &IrohRelayConfiguration, url: &String) -> (r: bool)
    ensures
        r == relay_configured(relay@, url@),
{
    match relay {
        IrohRelayConfiguration::Disabled => false,
        IrohRelayConfiguration::Custom(relays) => {
            let ghost seen = views(relays@);
            assert(relay@ == IrohRelayConfigurationModel::Custom(seen));
            let mut i: usize = 0;
            while i < relays.len()
                invariant
                    relay@ == IrohRelayConfigurationModel::Custom(seen),
                    0 <= i <= relays@.len(),
                    seen == views(relays@),
                    forall|k: int| 0 <= k < i ==> !same_relay((#[trigger] seen[k]).url@, url@),
                decreases relays@.len() - i,
            {
                assert(seen[i as int].url@ == relays@[i as int].url@);
                if relay_urls_match(relays[i].url.as_str(), url.as_str()) {
                    assert(same_relay(seen[i as int].url@, url@));
                    return true;
                }
                i = i + 1;
            }
            false
        },
    }
}

/// What is answered to an advertisement that was accepted.
pub struct AdvertisementAccepted {
    pub endpoint_id: String,
    pub generation: u64,
    pub expires_at: u64,
}

/// Whether the expiry of an advertisement is later than now and no later than the policy allows.
pub open spec fn expiry_allowed(
    c: CoordinatorArtifactInterchangeConfigurationModel,
    expires_at: u64,
    now: u64,
) -> bool {
    &&& expires_at > now
    &&& expires_at <= saturating(
        saturating(now + c.endpoint_advertisement_ttl_seconds)
            + ENDPOINT_ADVERTISEMENT_CLOCK_SKEW_SECONDS,
    )
}

/// What is answered to an advertisement, once the node is known and old state has expired.
pub open spec fn advertisement_answer(
    s: CoordinatorServiceModel,
    scope: ScopeText,
    a: IrohEndpointAdvertisementModel,
    bounds: Result<(), String>,
    now: u64,
    r: Result<AdvertisementAccepted, CoordinatorServiceError>,
) -> bool {
    let c = s.interchange_configuration;
    if bounds is Err {
        r matches Err(error) && error.protests(bounds->Err_0@)
    } else if a.tenant@ != scope.0 || a.project@ != scope.1 || a.node@ != scope.2 {
        r matches Err(error) && error.denies(
            "Iroh endpoint advertisement is outside the signed node scope"@,
        )
    } else if a.relay_configuration_generation != c.generation {
        r matches Err(error) && error.protests(
            "Iroh endpoint advertisement uses a stale relay policy generation"@,
        )
    } else if !expiry_allowed(c, a.expires_at, now) {
        r matches Err(error) && error.protests(
            "Iroh endpoint advertisement expiry is outside the coordinator policy"@,
        )
    } else if !relays_allowed(c.relay, a.relay_urls) {
        r matches Err(error) && error.denies(
            "Iroh endpoint advertised a relay outside coordinator policy"@,
        )
    } else {
        match advertisement_refusal(s.nodes, scope, a) {
            Some(EndpointAdvertisementError::BoundToAnotherScope) => r matches Err(error)
                && error.denies("Iroh EndpointId is already bound to another active node scope"@),
            Some(EndpointAdvertisementError::IdentityChanged) => r matches Err(error)
                && error.denies("Iroh EndpointId changed without a node identity rotation"@),
            Some(EndpointAdvertisementError::StaleGeneration) => r matches Err(error)
                && error.protests("Iroh endpoint advertisement generation is stale"@),
            None => {
                &&& r matches Ok(accepted)
                &&& accepted.endpoint_id@ == a.endpoint_id@
                &&& accepted.generation == a.generation
                &&& accepted.expires_at == a.expires_at
            },
        }
    }
}

/// What an advertisement is refused or accepted for comes after the node is known.
pub open spec fn node_known(
    s: CoordinatorServiceModel,
    scope: Result<NodeScopeKey, String>,
    refusal: Option<CoordinatorServiceError>,
) -> bool {
    match scope {
        Err(text) => refusal matches Some(error) && error.protests(text@),
        Ok(scope) => if enrolled(s, scope@) {
            refusal is None
        } else {
            refusal matches Some(error) && error == CoordinatorServiceError::Coordinator(
                CoordinatorError::UnknownNode,
            )
        },
    }
}

/// The error of a result.
pub open spec fn error_of<T>(r: Result<T, CoordinatorServiceError>) -> Option<
    CoordinatorServiceError,
> {
    match r {
        Ok(_) => None,
        Err(error) => Some(error),
    }
}

/// Whether a request comes from a node that is known.
pub open spec fn from_known_node(s: CoordinatorServiceModel, scope: Result<NodeScopeKey, String>) -> bool {
    scope matches Ok(key) && enrolled(s, key@)
}

/// What a node is given when it asks for its part in a transfer.
pub struct ProviderAssignment {
    pub authorization: Option<ArtifactTransferAuthorization>,
    pub retired_transfer_ids: Vec<String>,
}

/// What is answered to an acknowledgement.
pub struct AssignmentAcknowledged {
    pub transfer_id: String,
    pub role: ArtifactAssignmentRole,
    pub state: ArtifactAssignmentState,
}

/// What is answered to a report on a transfer.
pub struct TransferProgressAccepted {
    pub transfer: ArtifactTransferRecord,
    pub authorization: Option<ArtifactTransferAuthorization>,
}

/// How a refused report is worded.
pub open spec fn report_error(e: TransferReportError, error: CoordinatorServiceError) -> bool {
    match e {
        TransferReportError::UnknownTransfer => error.protests("unknown artifact transfer"@),
        TransferReportError::OutsideScope => error.denies(
            "artifact transfer report is outside the signed node scope"@,
        ),
        TransferReportError::AlreadyTerminal { state, code } => match state {
            ArtifactTransferState::Cancelled => error == CoordinatorServiceError::Transfer(
                ArtifactTransferErrorCode::TransferCancelled,
            ),
            ArtifactTransferState::Expired => error == CoordinatorServiceError::Transfer(
                ArtifactTransferErrorCode::TransferLeaseExpired,
            ),
            ArtifactTransferState::Failed => match code {
                Some(code) => error == CoordinatorServiceError::Transfer(code),
                None => error.protests("artifact_transfer_failed"@),
            },
            _ => error.protests("artifact_transfer_completed"@),
        },
        TransferReportError::InvalidByteProgress => error.protests(
            "artifact transfer byte progress is invalid"@,
        ),
        TransferReportError::LifecycleViolation { from, to } => error.protests(
            "artifact transfer lifecycle cannot move from "@ + state_text(from) + " to "@
                + state_text(to),
        ),
        TransferReportError::RelayPathForbidden => error == CoordinatorServiceError::Transfer(
            ArtifactTransferErrorCode::RelayPathForbidden,
        ),
        TransferReportError::UnprovenCompletion => error.protests(
            "artifact completion lacks exact destination verification proof"@,
        ),
        TransferReportError::FailureCodeMissing => error.protests(
            "terminal artifact transfer failure requires a stable failure code"@,
        ),
        TransferReportError::ForeignMissingSource => error.denies(
            "only the selected source may report that retained artifact bytes are missing"@,
        ),
        TransferReportError::ArtifactUnavailable => error
            == CoordinatorServiceError::ArtifactUnavailable,
    }
}

fn word_report_error(e: TransferReportError) -> (r: CoordinatorServiceError)
    ensures
        report_error(e, r),
{
    match e {
        TransferReportError::UnknownTransfer => protocol("unknown artifact transfer"),
        TransferReportError::OutsideScope => unauthorized(
            "artifact transfer report is outside the signed node scope",
        ),
        TransferReportError::AlreadyTerminal { state, code } => match state {
            ArtifactTransferState::Cancelled => CoordinatorServiceError::Transfer(
                ArtifactTransferErrorCode::TransferCancelled,
            ),
            ArtifactTransferState::Expired => CoordinatorServiceError::Transfer(
                ArtifactTransferErrorCode::TransferLeaseExpired,
            ),
            ArtifactTransferState::Failed => match code {
                Some(code) => CoordinatorServiceError::Transfer(code),
                None => protocol("artifact_transfer_failed"),
            },
            _ => protocol("artifact_transfer_completed"),
        },
        TransferReportError::InvalidByteProgress => protocol(
            "artifact transfer byte progress is invalid",
        ),
        TransferReportError::LifecycleViolation { from, to } => {
            let text: String = concat4(
                "artifact transfer lifecycle cannot move from ",
                from.name(),
                " to ",
                to.name(),
            );
            CoordinatorServiceError::Protocol(text)
        },
        TransferReportError::RelayPathForbidden => CoordinatorServiceError::Transfer(
            ArtifactTransferErrorCode::RelayPathForbidden,
        ),
        TransferReportError::UnprovenCompletion => protocol(
            "artifact completion lacks exact destination verification proof",
        ),
        TransferReportError::FailureCodeMissing => protocol(
            "terminal artifact transfer failure requires a stable failure code",
        ),
        TransferReportError::ForeignMissingSource => unauthorized(
            "only the selected source may report that retained artifact bytes are missing",
        ),
        TransferReportError::ArtifactUnavailable => CoordinatorServiceError::ArtifactUnavailable,
    }
}

/// What a report on a transfer does to the service, once the node is known and old state has
/// expired.
pub open spec fn reported(
    s: CoordinatorServiceModel,
    scope: ScopeText,
    id: Seq<char>,
    report: TransferReport,
    now: u64,
    rules: TransferRules,
    after: CoordinatorServiceModel,
    r: Result<TransferProgressAccepted, CoordinatorServiceError>,
    progress: Result<InterchangeProgress, TransferReportError>,
    artifacts: ArtifactRegistryModel,
) -> bool {
    &&& report_outcome(
        s.interchange,
        s.artifacts,
        scope,
        id,
        report,
        now,
        terms_of(s.interchange_configuration),
        rules,
        after.interchange,
        artifacts,
        progress,
    )
    &&& match progress {
        Ok(p) => {
            &&& r matches Ok(accepted)
            &&& accepted.transfer == p.record
            &&& accepted.authorization == p.authorization
            &&& after.artifacts == (match p.terminal_hold {
                Some(hold) => ArtifactRegistryModel {
                    holds: without_hold(artifacts.holds, hold@.0, hold@.1),
                    ..artifacts
                },
                None => artifacts,
            })
        },
        Err(e) => {
            &&& r matches Err(error)
            &&& report_error(e, error)
            &&& after.artifacts == artifacts
        },
    }
    &&& after == (CoordinatorServiceModel {
        interchange: after.interchange,
        artifacts: after.artifacts,
        ..s
    })
}

/// What the acknowledgement of an assignment by a node comes to.
pub open spec fn acknowledgement_answered(
    before: CoordinatorServiceModel,
    after: CoordinatorServiceModel,
    scope: Result<NodeScopeKey, String>,
    transfer_id: String,
    role: ArtifactAssignmentRole,
    now: u64,
    r: Result<AssignmentAcknowledged, CoordinatorServiceError>,
) -> bool {
    &&& !from_known_node(before, scope) ==> {
        &&& node_known(before, scope, error_of(r))
        &&& after == before
    }
    &&& from_known_node(before, scope) ==> {
        let s = interchange_expired(before, now);
        let at = scope->Ok_0@;
        match acknowledgement_refusal(s.interchange, at, transfer_id@, role) {
            Some(e) => {
                &&& r matches Err(error)
                &&& match e {
                    AssignmentAcknowledgementError::UnknownTransfer => error.protests(
                        "unknown artifact transfer"@,
                    ),
                    AssignmentAcknowledgementError::OutsideScope => error.denies(
                        "artifact assignment acknowledgement is outside the signed node scope"@,
                    ),
                    AssignmentAcknowledgementError::RoleMismatch => error.denies(
                        "artifact assignment role does not match the signed node"@,
                    ),
                }
                &&& after == s
            },
            None => {
                let t = acknowledged(
                    lookup(s.interchange.transfers, transfer_id@)->Some_0,
                    role,
                    now,
                );
                &&& r matches Ok(answer)
                &&& answer.transfer_id@ == transfer_id@
                &&& answer.role == role
                &&& answer.state == assignment_of(t, role)
                &&& after == (CoordinatorServiceModel {
                    interchange: with_transfer(s.interchange, transfer_id@, t),
                    ..s
                })
            },
        }
    }
}

/// What the advertisement of an endpoint by a node comes to.
pub open spec fn advertisement_reported(
    before: CoordinatorServiceModel,
    after: CoordinatorServiceModel,
    scope: Result<NodeScopeKey, String>,
    advertisement: IrohEndpointAdvertisement,
    bounds: Result<(), String>,
    now: u64,
    r: Result<AdvertisementAccepted, CoordinatorServiceError>,
) -> bool {
    &&& !from_known_node(before, scope) ==> {
        &&& node_known(before, scope, error_of(r))
        &&& after == before
    }
    &&& from_known_node(before, scope) ==> {
        let s = interchange_expired(before, now);
        let at = scope->Ok_0@;
        &&& advertisement_answer(s, at, advertisement@, bounds, now, r)
        &&& after == (if r is Ok {
            CoordinatorServiceModel {
                nodes: with_advertisement(s.nodes, at, advertisement@),
                ..s
            }
        } else {
            s
        })
    }
}

/// What a node that asks what it is to provide comes to.
pub open spec fn provider_answered(
    before: CoordinatorServiceModel,
    after: CoordinatorServiceModel,
    scope: Result<NodeScopeKey, String>,
    now: u64,
    r: Result<ProviderAssignment, CoordinatorServiceError>,
) -> bool {
    &&& !from_known_node(before, scope) ==> {
        &&& node_known(before, scope, error_of(r))
        &&& after == before
    }
    &&& from_known_node(before, scope) ==> {
        let s = interchange_expired(before, now);
        let at = scope->Ok_0@;
        let p = |e: (Seq<char>, InterchangeTransferModel)|
            for_provider(e.1, at, now, ASSIGNMENT_ACK_RECOVERY_SECONDS);
        &&& r matches Ok(assignment)
        &&& texts(assignment.retired_transfer_ids@) == s.interchange.transfers.filter_map(
            |e: (Seq<char>, InterchangeTransferModel)|
                if provided_by(e.1, at) && is_terminal(e.1.record.state) {
                    Some(e.1.record.transfer_id@)
                } else {
                    None
                },
        )
        &&& assignment.authorization is Some <==> holds_of_some(s.interchange.transfers, p)
        &&& assignment.authorization is None ==> after == s
        &&& assignment.authorization matches Some(answer) ==> exists|i: int|
            #[trigger] provider_delivery(
                s.interchange,
                after.interchange,
                at,
                now,
                ASSIGNMENT_ACK_RECOVERY_SECONDS,
                i,
            ) && answer@ == s.interchange.transfers[i].1.provider_authorization
        &&& after == (CoordinatorServiceModel {
            interchange: after.interchange,
            ..s
        })
    }
}

/// What a node that asks what it is to receive comes to.
pub open spec fn receiver_answered(
    before: CoordinatorServiceModel,
    after: CoordinatorServiceModel,
    scope: Result<NodeScopeKey, String>,
    now: u64,
    r: Result<Option<ArtifactTransferAuthorization>, CoordinatorServiceError>,
) -> bool {
    &&& !from_known_node(before, scope) ==> {
        &&& node_known(before, scope, error_of(r))
        &&& after == before
    }
    &&& from_known_node(before, scope) ==> {
        let s = interchange_expired(before, now);
        let at = scope->Ok_0@;
        let p = |e: (Seq<char>, InterchangeTransferModel)|
            for_receiver(e.1, at, now, ASSIGNMENT_ACK_RECOVERY_SECONDS);
        &&& r matches Ok(authorization)
        &&& authorization is Some <==> holds_of_some(s.interchange.transfers, p)
        &&& authorization is None ==> after == s
        &&& authorization matches Some(answer) ==> exists|i: int|
            #[trigger] receiver_delivery(
                s.interchange,
                after.interchange,
                at,
                now,
                ASSIGNMENT_ACK_RECOVERY_SECONDS,
                i,
            ) && answer@ == s.interchange.transfers[i].1.destination_authorization
        &&& after == (CoordinatorServiceModel {
            interchange: after.interchange,
            ..s
        })
    }
}

impl CoordinatorService {
    fn validate_advertised_relays(&self, urls: &TextList) -> (r: bool)
        ensures
            r == relays_allowed(self@.interchange_configuration.relay, urls@),
    {
        let mut i: usize = 0;
        while i < urls.items.len()
            invariant
                0 <= i <= urls.items@.len(),
                forall|k: int|
                    0 <= k < i ==> relay_configured(
                        self@.interchange_configuration.relay,
                        #[trigger] urls@[k],
                    ),
            decreases urls.items@.len() - i,
        {
            assert(urls@[i as int] == urls.items@[i as int]@);
            if !is_relay_configured(
                &self.artifact_interchange_configuration.relay,
                &urls.items[i],
            ) {
                return false;
            }
            i = i + 1;
        }
        true
    }

    /// The node that a request comes from, if it is known.
    fn known_node(&self, scope: Result<NodeScopeKey, String>) -> (r: Result<
        NodeScopeKey,
        CoordinatorServiceError,
    >)
        ensures
            node_known(self@, scope, error_of(r)),
            r matches Ok(key) ==> scope matches Ok(given) && given@ == key@,
    {
        match scope {
            Err(text) => Err(CoordinatorServiceError::Protocol(text)),
            Ok(key) => match self.authorize_interchange_node(&key) {
                Err(error) => Err(error),
                Ok(()) => Ok(key),
            },
        }
    }

    /// Registers where a node can be reached. `bounds` tells whether the advertisement keeps to the
    /// bounds of the protocol.
    pub fn handle_report_iroh_endpoint_advertisement(
        &mut self,
        scope: Result<NodeScopeKey, String>,
        advertisement: IrohEndpointAdvertisement,
        bounds: Result<(), String>,
        now: u64,
    ) -> (r: Result<AdvertisementAccepted, CoordinatorServiceError>)
        ensures
            advertisement_reported(
                old(self)@,
                final(self)@,
                scope,
                advertisement,
                bounds,
                now,
                r,
            ),
            well_formed(old(self)@.artifacts) ==> well_formed(final(self)@.artifacts),
    {
        let key: NodeScopeKey = match self.known_node(scope) {
            Ok(key) => key,
            Err(error) => {
                return Err(error);
            },
        };
        self.expire_interchange_state(now);
        match bounds {
            Err(text) => {
                return Err(CoordinatorServiceError::Protocol(text));
            },
            Ok(()) => {},
        }
        if advertisement.tenant != key.tenant || advertisement.project != key.project
            || advertisement.node != key.node {
            return Err(
                unauthorized("Iroh endpoint advertisement is outside the signed node scope"),
            );
        }
        if advertisement.relay_configuration_generation
            != self.artifact_interchange_configuration.generation {
            return Err(
                protocol("Iroh endpoint advertisement uses a stale relay policy generation"),
            );
        }
        let latest: u64 = now.saturating_add(
            self.artifact_interchange_configuration.endpoint_advertisement_ttl_seconds,
        ).saturating_add(ENDPOINT_ADVERTISEMENT_CLOCK_SKEW_SECONDS);
        if advertisement.expires_at <= now || advertisement.expires_at > latest {
            return Err(
                protocol("Iroh endpoint advertisement expiry is outside the coordinator policy"),
            );
        }
        if !self.validate_advertised_relays(&advertisement.relay_urls) {
            return Err(unauthorized("Iroh endpoint advertised a relay outside coordinator policy"));
        }
        let accepted: AdvertisementAccepted = AdvertisementAccepted {
            endpoint_id: advertisement.endpoint_id.clone(),
            generation: advertisement.generation,
            expires_at: advertisement.expires_at,
        };
        match self.node_registry.register_advertisement(key, advertisement) {
            Ok(()) => Ok(accepted),
            Err(EndpointAdvertisementError::BoundToAnotherScope) => Err(
                unauthorized("Iroh EndpointId is already bound to another active node scope"),
            ),
            Err(EndpointAdvertisementError::IdentityChanged) => Err(
                unauthorized("Iroh EndpointId changed without a node identity rotation"),
            ),
            Err(EndpointAdvertisementError::StaleGeneration) => Err(
                protocol("Iroh endpoint advertisement generation is stale"),
            ),
        }
    }

    /// The assignment that a provider is to take up.
    pub fn handle_poll_artifact_provider_assignment(
        &mut self,
        scope: Result<NodeScopeKey, String>,
        now: u64,
    ) -> (r: Result<ProviderAssignment, CoordinatorServiceError>)
        ensures
            provider_answered(
                old(self)@,
                final(self)@,
                scope,
                now,
                r,
            ),
            well_formed(old(self)@.artifacts) ==> well_formed(final(self)@.artifacts),
    {
        let key: NodeScopeKey = match self.known_node(scope) {
            Ok(key) => key,
            Err(error) => {
                return Err(error);
            },
        };
        self.expire_interchange_state(now);
        let (retired_transfer_ids, authorization) =
            self.interchange_registry.poll_provider_assignment(
            &key,
            now,
            ASSIGNMENT_ACK_RECOVERY_SECONDS,
        );
        Ok(ProviderAssignment { authorization, retired_transfer_ids })
    }

    /// The assignment that a receiver is to take up.
    pub fn handle_poll_artifact_receiver_assignment(
        &mut self,
        scope: Result<NodeScopeKey, String>,
        now: u64,
    ) -> (r: Result<Option<ArtifactTransferAuthorization>, CoordinatorServiceError>)
        ensures
            receiver_answered(
                old(self)@,
                final(self)@,
                scope,
                now,
                r,
            ),
            well_formed(old(self)@.artifacts) ==> well_formed(final(self)@.artifacts),
    {
        let key: NodeScopeKey = match self.known_node(scope) {
            Ok(key) => key,
            Err(error) => {
                return Err(error);
            },
        };
        self.expire_interchange_state(now);
        Ok(
            self.interchange_registry.poll_receiver_assignment(
                &key,
                now,
                ASSIGNMENT_ACK_RECOVERY_SECONDS,
            ),
        )
    }

    /// Records that a node has acknowledged its part in a transfer.
    pub fn handle_acknowledge_artifact_assignment(
        &mut self,
        scope: Result<NodeScopeKey, String>,
        transfer_id: String,
        role: ArtifactAssignmentRole,
        now: u64,
    ) -> (r: Result<AssignmentAcknowledged, CoordinatorServiceError>)
        ensures
            acknowledgement_answered(
                old(self)@,
                final(self)@,
                scope,
                transfer_id,
                role,
                now,
                r,
            ),
            well_formed(old(self)@.artifacts) ==> well_formed(final(self)@.artifacts),
    {
        let key: NodeScopeKey = match self.known_node(scope) {
            Ok(key) => key,
            Err(error) => {
                return Err(error);
            },
        };
        self.expire_interchange_state(now);
        match self.interchange_registry.acknowledge_assignment(&key, &transfer_id, role, now) {
            Ok(state) => Ok(AssignmentAcknowledged { transfer_id, role, state }),
            Err(AssignmentAcknowledgementError::UnknownTransfer) => Err(
                protocol("unknown artifact transfer"),
            ),
            Err(AssignmentAcknowledgementError::OutsideScope) => Err(
                unauthorized(
                    "artifact assignment acknowledgement is outside the signed node scope",
                ),
            ),
            Err(AssignmentAcknowledgementError::RoleMismatch) => Err(
                unauthorized("artifact assignment role does not match the signed node"),
            ),
        }
    }

    /// Takes up what a node reports of a transfer.
    pub fn handle_report_artifact_interchange(
        &mut self,
        scope: Result<NodeScopeKey, String>,
        transfer_id: String,
        report: TransferReport,
        rules: &TransferRules,
        now: u64,
    ) -> (r: Result<TransferProgressAccepted, CoordinatorServiceError>)
        ensures
            !from_known_node(old(self)@, scope) ==> {
                &&& node_known(old(self)@, scope, error_of(r))
                &&& final(self)@ == old(self)@
            },
            from_known_node(old(self)@, scope) ==> {
                let s = interchange_expired(old(self)@, now);
                exists|
                    progress: Result<InterchangeProgress, TransferReportError>,
                    artifacts: ArtifactRegistryModel,
                |
                    #![auto]
                    reported(
                        s,
                        scope->Ok_0@,
                        transfer_id@,
                        report,
                        now,
                        *rules,
                        final(self)@,
                        r,
                        progress,
                        artifacts,
                    )
            },
            well_formed(old(self)@.artifacts) ==> well_formed(final(self)@.artifacts),
    {
        let key: NodeScopeKey = match self.known_node(scope) {
            Ok(key) => key,
            Err(error) => {
                return Err(error);
            },
        };
        self.expire_interchange_state(now);
        let ghost s = self@;
        let terms: LeaseTerms = self.lease_terms();
        let progress: Result<InterchangeProgress, TransferReportError> =
            self.interchange_registry.report_progress(
            &mut self.artifact_registry,
            &key,
            &transfer_id,
            &report,
            now,
            terms,
            rules,
        );
        let ghost outcome = progress;
        let ghost artifacts = self.artifact_registry@;
        let r: Result<TransferProgressAccepted, CoordinatorServiceError> = match progress {
            Ok(p) => {
                match &p.terminal_hold {
                    Some(hold) => {
                        let _was: bool = self.artifact_registry.remove_hold(
                            &hold.tenant,
                            &hold.project,
                            &hold.artifact,
                            &hold.reason,
                        );
                    },
                    None => {},
                }
                Ok(TransferProgressAccepted { transfer: p.record, authorization: p.authorization })
            },
            Err(e) => Err(word_report_error(e)),
        };
        assert(reported(
            s,
            key@,
            transfer_id@,
            report,
            now,
            *rules,
            self@,
            r,
            outcome,
            artifacts,
        ));
        r
    }

    /// Cancels the transfers of a process, and ends their holds. Tells how many there were.
    pub fn cancel_artifact_interchanges_for_process(
        &mut self,
        tenant: &TenantId,
        project: &ProjectId,
        process: &ProcessId,
        now: u64,
    ) -> (r: usize)
        ensures
            ({
                let p = |t: InterchangeTransferModel|
                    active_in_process(t, tenant@, project@, process@);
                let released = holds_of(old(self)@.interchange.transfers, p);
                &&& r == released.len()
                &&& final(self)@ == (CoordinatorServiceModel {
                    interchange: InterchangeRegistryModel {
                        transfers: all_ended(
                            old(self)@.interchange.transfers,
                            p,
                            ArtifactTransferState::Cancelled,
                            |t: InterchangeTransferModel|
                                ArtifactTransferErrorCode::TransferCancelled,
                            now,
                        ),
                        ..old(self)@.interchange
                    },
                    artifacts: all_holds_ended(old(self)@.artifacts, released),
                    ..old(self)@
                })
            }),
            well_formed(old(self)@.artifacts) ==> well_formed(final(self)@.artifacts),
    {
        let released: Vec<ReleasedTransferHold> = self.interchange_registry.cancel_process(
            tenant,
            project,
            process,
            now,
        );
        end_holds(&mut self.artifact_registry, &released);
        assert(views(released@).len() == released@.len());
        released.len()
    }
}

/// What has no capacity for a transfer at present.
#[derive(Clone, Copy, Debug, PartialEq, Eq, Structural)]
pub enum CapacityScope {
    Tenant,
    Project,
    Process,
    Receiver,
    PartialBytes,
    CreationRate,
    Provider,
}

/// The words for what has no capacity.
pub open spec fn capacity_text(scope: CapacityScope) -> Seq<char> {
    match scope {
        CapacityScope::Tenant => "tenant active-transfer capacity"@,
        CapacityScope::Project => "project active-transfer capacity"@,
        CapacityScope::Process => "process active-transfer capacity"@,
        CapacityScope::Receiver => "receiver node lease capacity"@,
        CapacityScope::PartialBytes => "node/project partial-byte capacity"@,
        CapacityScope::CreationRate => "tenant/node transfer creation rate"@,
        CapacityScope::Provider => "provider node lease capacity"@,
    }
}

fn temporary_capacity(scope: CapacityScope) -> (r: CoordinatorServiceError)
    ensures
        r.lacks_capacity(capacity_text(scope)),
{
    let text: &'static str = match scope {
        CapacityScope::Tenant => "tenant active-transfer capacity",
        CapacityScope::Project => "project active-transfer capacity",
        CapacityScope::Process => "process active-transfer capacity",
        CapacityScope::Receiver => "receiver node lease capacity",
        CapacityScope::PartialBytes => "node/project partial-byte capacity",
        CapacityScope::CreationRate => "tenant/node transfer creation rate",
        CapacityScope::Provider => "provider node lease capacity",
    };
    CoordinatorServiceError::TransferCapacity(text.to_owned())
}

/// Why a request for an artifact is refused.
#[derive(Clone, Copy, Debug, PartialEq, Eq, Structural)]
pub enum RequestRefusal {
    Transfer(ArtifactTransferErrorCode),
    ForeignProcess,
    Released,
    Capacity(CapacityScope),
}

/// How a refused request is worded.
pub open spec fn request_error(refusal: RequestRefusal, error: CoordinatorServiceError) -> bool {
    match refusal {
        RequestRefusal::Transfer(code) => error == CoordinatorServiceError::Transfer(code),
        RequestRefusal::ForeignProcess => error.denies(
            "artifact transfer process does not own the requested artifact"@,
        ),
        RequestRefusal::Released => error.protests("artifact_released"@),
        RequestRefusal::Capacity(scope) => error.lacks_capacity(capacity_text(scope)),
    }
}

fn word_request_refusal(refusal: RequestRefusal) -> (r: CoordinatorServiceError)
    ensures
        request_error(refusal, r),
{
    match refusal {
        RequestRefusal::Transfer(code) => CoordinatorServiceError::Transfer(code),
        RequestRefusal::ForeignProcess => unauthorized(
            "artifact transfer process does not own the requested artifact",
        ),
        RequestRefusal::Released => protocol("artifact_released"),
        RequestRefusal::Capacity(scope) => temporary_capacity(scope),
    }
}

/// Which artifact is asked for, by which process, on which node, and from which byte on.
pub struct InterchangeRequest {
    pub process: ProcessId,
    pub artifact: ArtifactId,
    pub offset: u64,
}

/// The metadata of the artifact that is asked for.
pub open spec fn requested(s: CoordinatorServiceModel, scope: ScopeText, q: InterchangeRequest) -> Option<
    ArtifactMetadataModel,
> {
    lookup(s.artifacts.artifacts, (scope.0, scope.1, q.artifact@))
}

/// Why a request is refused for what is known of the artifact.
pub open spec fn artifact_refusal(
    s: CoordinatorServiceModel,
    scope: ScopeText,
    q: InterchangeRequest,
    cancelled: bool,
) -> Option<RequestRefusal> {
    if cancelled {
        Some(RequestRefusal::Transfer(ArtifactTransferErrorCode::TransferCancelled))
    } else {
        match requested(s, scope, q) {
            None => Some(RequestRefusal::Transfer(ArtifactTransferErrorCode::NoArtifactLocation)),
            Some(metadata) => if metadata.process@ != q.process@ {
                Some(RequestRefusal::ForeignProcess)
            } else if held(s.artifacts.holds, (scope.0, scope.1, q.artifact@)).len() == 0 {
                Some(RequestRefusal::Released)
            } else if q.offset > metadata.size {
                Some(RequestRefusal::Transfer(ArtifactTransferErrorCode::RangeInvalid))
            } else {
                None
            },
        }
    }
}

/// How many transfers `p` holds of.
pub open spec fn transfer_count(
    s: CoordinatorServiceModel,
    p: spec_fn(InterchangeTransferModel) -> bool,
) -> nat {
    s.interchange.transfers.filter(|e: (Seq<char>, InterchangeTransferModel)| p(e.1)).len()
}

/// The bytes that the receiver still waits for, of the first `n` transfers.
pub open spec fn partial_bytes(
    transfers: Seq<(Seq<char>, InterchangeTransferModel)>,
    tenant: Seq<char>,
    project: Seq<char>,
    node: Seq<char>,
    n: int,
) -> u64
    decreases n,
{
    if n <= 0 {
        0
    } else {
        let earlier = partial_bytes(transfers, tenant, project, node, n - 1);
        let t = transfers[n - 1].1;
        if receives(t, tenant, project, node) {
            let missing = if t.record.total_bytes > t.record.bytes_completed {
                t.record.total_bytes - t.record.bytes_completed
            } else {
                0
            };
            saturating(earlier + missing)
        } else {
            earlier
        }
    }
}

/// A transfer to the node that has not ended.
pub open spec fn receives(
    t: InterchangeTransferModel,
    tenant: Seq<char>,
    project: Seq<char>,
    node: Seq<char>,
) -> bool {
    !is_terminal(t.record.state) && t.record.tenant@ == tenant && t.record.project@ == project
        && t.record.destination_node@ == node
}

/// A transfer to the node that was created within the last minute.
pub open spec fn created_lately(
    t: InterchangeTransferModel,
    tenant: Seq<char>,
    node: Seq<char>,
    now: u64,
) -> bool {
    t.record.tenant@ == tenant && t.record.destination_node@ == node && t.record.created_at + 60
        >= now
}

/// Why a new transfer is not admitted.
pub open spec fn capacity_refusal(
    s: CoordinatorServiceModel,
    scope: ScopeText,
    process: Seq<char>,
    requested_bytes: u64,
    now: u64,
) -> Option<CapacityScope> {
    let c = s.interchange_configuration;
    let all = s.interchange.transfers;
    if transfer_count(
        s,
        |t: InterchangeTransferModel| !is_terminal(t.record.state) && t.record.tenant@ == scope.0,
    ) >= c.max_active_transfers_per_tenant {
        Some(CapacityScope::Tenant)
    } else if transfer_count(
        s,
        |t: InterchangeTransferModel|
            !is_terminal(t.record.state) && t.record.tenant@ == scope.0 && t.record.project@
                == scope.1,
    ) >= c.max_active_transfers_per_project {
        Some(CapacityScope::Project)
    } else if transfer_count(
        s,
        |t: InterchangeTransferModel| active_in_process(t, scope.0, scope.1, process),
    ) >= c.max_active_transfers_per_process {
        Some(CapacityScope::Process)
    } else if transfer_count(
        s,
        |t: InterchangeTransferModel| receives(t, scope.0, scope.1, scope.2),
    ) >= c.max_receiver_leases_per_node {
        Some(CapacityScope::Receiver)
    } else if saturating(
        partial_bytes(all, scope.0, scope.1, scope.2, all.len() as int) + requested_bytes,
    ) > c.max_partial_bytes_per_node_project {
        Some(CapacityScope::PartialBytes)
    } else if transfer_count(
        s,
        |t: InterchangeTransferModel| created_lately(t, scope.0, scope.2, now),
    ) >= c.max_transfer_creations_per_tenant_node_minute {
        Some(CapacityScope::CreationRate)
    } else {
        None
    }
}

/// A transfer of the artifact to the node, running or ended.
pub open spec fn attempt(t: InterchangeTransferModel, scope: ScopeText, q: InterchangeRequest) -> bool {
    same_request(t, scope.0, scope.1, q.process@, q.artifact@, scope.2)
}

/// An ended attempt whose failure speaks against its source.
pub open spec fn speaks_against(
    t: InterchangeTransferModel,
    scope: ScopeText,
    q: InterchangeRequest,
    rules: TransferRules,
    source: Seq<char>,
) -> bool {
    &&& attempt(t, scope, q)
    &&& is_terminal(t.record.state)
    &&& t.record.failure_code matches Some(code) && rules.rejects_source(code)
    &&& t.record.source_node@ == source
}

/// Whether one of the first `n` transfers speaks against the source.
pub open spec fn rejected(
    transfers: Seq<(Seq<char>, InterchangeTransferModel)>,
    scope: ScopeText,
    q: InterchangeRequest,
    rules: TransferRules,
    source: Seq<char>,
    n: int,
) -> bool {
    exists|i: int|
        0 <= i < n && speaks_against((#[trigger] transfers[i]).1, scope, q, rules, source)
}

/// The most attempts that one of the first `n` transfers counts.
pub open spec fn most_attempts(
    transfers: Seq<(Seq<char>, InterchangeTransferModel)>,
    scope: ScopeText,
    q: InterchangeRequest,
    n: int,
) -> u32
    decreases n,
{
    if n <= 0 {
        0
    } else {
        let earlier = most_attempts(transfers, scope, q, n - 1);
        let t = transfers[n - 1].1;
        if attempt(t, scope, q) && t.record.attempt_count > earlier {
            t.record.attempt_count
        } else {
            earlier
        }
    }
}

/// The number of a new attempt.
pub open spec fn next_attempt(s: CoordinatorServiceModel, scope: ScopeText, q: InterchangeRequest) -> u32 {
    let all = s.interchange.transfers;
    let most = most_attempts(all, scope, q, all.len() as int);
    if most == u32::MAX {
        most
    } else {
        (most + 1) as u32
    }
}

/// Whether a node can be the source: it is another node, nothing speaks against it, it is live, and
/// it can be reached.
pub open spec fn eligible(
    s: CoordinatorServiceModel,
    scope: ScopeText,
    q: InterchangeRequest,
    rules: TransferRules,
    now: u64,
    source: Seq<char>,
) -> bool {
    let at = (scope.0, scope.1, source);
    &&& source != scope.2
    &&& !rejected(
        s.interchange.transfers,
        scope,
        q,
        rules,
        source,
        s.interchange.transfers.len() as int,
    )
    &&& live(s.nodes, at, now, s.node_stale_after_seconds)
    &&& current_advertisement(s.nodes, at, now) is Some
}

/// The first of the nodes that retain the artifact which can be the source.
pub open spec fn is_chosen_source(
    s: CoordinatorServiceModel,
    scope: ScopeText,
    q: InterchangeRequest,
    rules: TransferRules,
    now: u64,
    source: Seq<char>,
) -> bool {
    let nodes = requested(s, scope, q)->Some_0.retaining_nodes;
    &&& nodes.contains(source)
    &&& eligible(s, scope, q, rules, now, source)
    &&& forall|other: Seq<char>| #[trigger]
        nodes.contains(other) && eligible(s, scope, q, rules, now, other) ==> other == source
            || source.before(other)
}

/// The tokens and the secret of a new transfer, as far as they could be made.
pub struct TransferTokens {
    pub local_transfer: Result<String, String>,
    pub transfer: Result<String, String>,
    pub nonce: Result<String, String>,
}

/// What is answered to a request for an artifact.
pub struct TransferAnswer {
    pub authorization: Option<ArtifactTransferAuthorization>,
    pub transfer: Option<ArtifactTransferRecord>,
}

/// The record of an artifact that the node already has.
pub open spec fn is_local_record(
    record: ArtifactTransferRecord,
    scope: ScopeText,
    q: InterchangeRequest,
    metadata: ArtifactMetadataModel,
    token: Seq<char>,
    now: u64,
) -> bool {
    &&& record.transfer_id@ == token
    &&& record.tenant@ == scope.0
    &&& record.project@ == scope.1
    &&& record.process@ == q.process@
    &&& record.artifact@ == q.artifact@
    &&& record.source_node@ == scope.2
    &&& record.destination_node@ == scope.2
    &&& record.bytes_completed == metadata.size
    &&& record.path_kind == ClusterfluxPathKind::Local
    &&& record.state == ArtifactTransferState::Completed
    &&& record.created_at == now
    &&& record.updated_at == now
    &&& record.expires_at == now
    &&& record.stream_ticket_expires_at == now
    &&& record.last_progress_at == now
    &&& record.total_bytes == metadata.size
    &&& record.phase == ArtifactTransferPhase::Complete
    &&& record.failure_code is None
    &&& record.attempt_count == 0
}

/// A new transfer from the source to the node that asks.
pub open spec fn is_new_transfer(
    t: InterchangeTransferModel,
    s: CoordinatorServiceModel,
    scope: ScopeText,
    q: InterchangeRequest,
    source: Seq<char>,
    id: Seq<char>,
    nonce: Seq<char>,
    secret: [u8; 32],
    now: u64,
) -> bool {
    let c = s.interchange_configuration;
    let metadata = requested(s, scope, q)->Some_0;
    let from = lookup(s.nodes.advertisements, (scope.0, scope.1, source))->Some_0;
    let to = lookup(s.nodes.advertisements, scope)->Some_0;
    let lease = t.destination_authorization.lease;
    &&& t.record.transfer_id@ == id
    &&& t.record.tenant@ == scope.0
    &&& t.record.project@ == scope.1
    &&& t.record.process@ == q.process@
    &&& t.record.artifact@ == q.artifact@
    &&& t.record.source_node@ == source
    &&& t.record.destination_node@ == scope.2
    &&& t.record.bytes_completed == q.offset
    &&& t.record.path_kind == ClusterfluxPathKind::Unknown
    &&& t.record.state == ArtifactTransferState::SourceSelected
    &&& t.record.created_at == now
    &&& t.record.updated_at == now
    &&& t.record.expires_at == saturating(now + c.active_transfer_lease_ttl_seconds)
    &&& t.record.stream_ticket_expires_at == saturating(now + c.transfer_lease_ttl_seconds)
    &&& t.record.last_progress_at == now
    &&& t.record.total_bytes == metadata.size
    &&& t.record.phase == ArtifactTransferPhase::Queued
    &&& t.record.failure_code is None
    &&& t.record.attempt_count == next_attempt(s, scope, q)
    &&& is_new_lease(lease, s, scope, q, source, id, nonce, now)
    &&& t.provider_authorization.lease == lease
    &&& t.destination_authorization.transfer_secret == secret
    &&& t.provider_authorization.transfer_secret == secret
    &&& t.destination_authorization.peer == peer_of(from)
    &&& t.provider_authorization.peer == peer_of(to)
    &&& t.destination_assignment == ArtifactAssignmentState::Offered
    &&& t.provider_assignment == ArtifactAssignmentState::Offered
    &&& t.destination_acknowledged_at is None
    &&& t.provider_acknowledged_at is None
    &&& t.metered_body_bytes == 0
}

/// The lease of a new transfer.
pub open spec fn is_new_lease(
    lease: ArtifactTransferLease,
    s: CoordinatorServiceModel,
    scope: ScopeText,
    q: InterchangeRequest,
    source: Seq<char>,
    id: Seq<char>,
    nonce: Seq<char>,
    now: u64,
) -> bool {
    let c = s.interchange_configuration;
    let metadata = requested(s, scope, q)->Some_0;
    let from = lookup(s.nodes.advertisements, (scope.0, scope.1, source))->Some_0;
    let to = lookup(s.nodes.advertisements, scope)->Some_0;
    &&& lease.transfer_id@ == id
    &&& lease.tenant@ == scope.0
    &&& lease.project@ == scope.1
    &&& lease.process@ == q.process@
    &&& lease.artifact@ == q.artifact@
    &&& lease.digest@ == metadata.digest@
    &&& lease.size_bytes == metadata.size
    &&& lease.source_node@ == source
    &&& lease.source_endpoint_id@ == from.endpoint_id@
    &&& lease.destination_node@ == scope.2
    &&& lease.destination_endpoint_id@ == to.endpoint_id@
    &&& lease.allowed_offset == q.offset
    &&& lease.maximum_bytes == metadata.size - q.offset
    &&& lease.relay_policy == c.artifact_relay_policy
    &&& lease.direct_path_deadline_ms == c.direct_path_deadline_ms
    &&& lease.expires_at == saturating(now + c.transfer_lease_ttl_seconds)
    &&& lease.active_lease_expires_at == saturating(now + c.active_transfer_lease_ttl_seconds)
    &&& lease.nonce@ == nonce
}

/// The reason for which a transfer holds its artifact.
pub open spec fn transfer_reason(id: Seq<char>) -> ArtifactHoldReasonModel {
    ArtifactHoldReasonModel::ActiveTransfer { transfer_id: id }
}

/// How many of a source's transfers have not ended.
pub open spec fn provider_busy(s: CoordinatorServiceModel, at: ScopeText) -> nat {
    transfer_count(
        s,
        |t: InterchangeTransferModel| !is_terminal(t.record.state) && provided_by(t, at),
    )
}

/// What a new transfer is refused for before a token is made, and its source otherwise.
pub open spec fn source_chosen(
    s: CoordinatorServiceModel,
    scope: ScopeText,
    q: InterchangeRequest,
    rules: TransferRules,
    now: u64,
    source: Result<NodeId, RequestRefusal>,
) -> bool {
    let metadata = requested(s, scope, q)->Some_0;
    match capacity_refusal(s, scope, q.process@, (metadata.size - q.offset) as u64, now) {
        Some(full) => source == Err::<NodeId, RequestRefusal>(RequestRefusal::Capacity(full)),
        None => match source {
            Ok(node) => is_chosen_source(s, scope, q, rules, now, node@) && provider_busy(
                s,
                (scope.0, scope.1, node@),
            ) < s.interchange_configuration.max_provider_leases_per_node,
            Err(RequestRefusal::Capacity(full)) => full == CapacityScope::Provider
                && exists|node: Seq<char>| #[trigger]
                is_chosen_source(s, scope, q, rules, now, node) && provider_busy(
                    s,
                    (scope.0, scope.1, node),
                ) >= s.interchange_configuration.max_provider_leases_per_node,
            Err(refusal) => refusal == RequestRefusal::Transfer(
                ArtifactTransferErrorCode::EndpointAdvertisementMissing,
            ) && forall|node: Seq<char>|
                !(metadata.retaining_nodes.contains(node) && #[trigger] eligible(
                    s,
                    scope,
                    q,
                    rules,
                    now,
                    node,
                )),
        },
    }
}

impl CoordinatorService {
    /// The number of transfers that pass a test.
    fn count_transfers<F: Fn(&InterchangeTransfer) -> bool>(
        &self,
        test: F,
        Ghost(p): Ghost<spec_fn(InterchangeTransferModel) -> bool>,
    ) -> (r: usize)
        requires
            crate::sequences::tells(test, p),
        ensures
            r == transfer_count(self@, p),
    {
        let ghost q = |e: (Seq<char>, InterchangeTransferModel)| p(e.1);
        let on_entry = |_id: &String, t: &InterchangeTransfer| -> (b: bool)
            ensures
                b == p(t@),
        { test(t) };
        self.interchange_registry.transfers().count_where(on_entry, Ghost(q))
    }

    /// The bytes that the receiver still waits for.
    fn bytes_awaited(&self, scope: &NodeScopeKey) -> (r: u64)
        ensures
            r == partial_bytes(
                self@.interchange.transfers,
                scope@.0,
                scope@.1,
                scope@.2,
                self@.interchange.transfers.len() as int,
            ),
    {
        let transfers: &OrderedMap<String, InterchangeTransfer> =
            self.interchange_registry.transfers();
        let ghost all = transfers@;
        let n: usize = transfers.len();
        let mut total: u64 = 0;
        let mut i: usize = 0;
        while i < n
            invariant
                n == all.len(),
                all == transfers@,
                0 <= i <= n,
                total == partial_bytes(all, scope@.0, scope@.1, scope@.2, i as int),
            decreases n - i,
        {
            let t: &InterchangeTransfer = transfers.value_at(i);
            assert(all[i as int].1 == t@);
            if !t.record.state.terminal() && t.record.tenant == scope.tenant && t.record.project
                == scope.project && t.record.destination_node == scope.node {
                total = total.saturating_add(
                    t.record.total_bytes.saturating_sub(t.record.bytes_completed),
                );
            }
            i = i + 1;
        }
        total
    }

    /// Whether a new transfer is admitted.
    pub fn enforce_interchange_admission(
        &self,
        scope: &NodeScopeKey,
        process: &ProcessId,
        requested_partial_bytes: u64,
        now: u64,
    ) -> (r: Option<CapacityScope>)
        ensures
            r == capacity_refusal(self@, scope@, process@, requested_partial_bytes, now),
    {
        let c: &CoordinatorArtifactInterchangeConfiguration =
            &self.artifact_interchange_configuration;
        let ghost of_tenant = |t: InterchangeTransferModel|
            !is_terminal(t.record.state) && t.record.tenant@ == scope@.0;
        let tenant_test = |t: &InterchangeTransfer| -> (b: bool)
            ensures
                b == (!is_terminal(t@.record.state) && t@.record.tenant@ == scope@.0),
        { !t.record.state.terminal() && t.record.tenant == scope.tenant };
        if self.count_transfers(tenant_test, Ghost(of_tenant))
            >= c.max_active_transfers_per_tenant {
            return Some(CapacityScope::Tenant);
        }
        let ghost of_project = |t: InterchangeTransferModel|
            !is_terminal(t.record.state) && t.record.tenant@ == scope@.0 && t.record.project@
                == scope@.1;
        let project_test = |t: &InterchangeTransfer| -> (b: bool)
            ensures
                b == (!is_terminal(t@.record.state) && t@.record.tenant@ == scope@.0
                    && t@.record.project@ == scope@.1),
        {
            !t.record.state.terminal() && t.record.tenant == scope.tenant && t.record.project
                == scope.project
        };
        if self.count_transfers(project_test, Ghost(of_project))
            >= c.max_active_transfers_per_project {
            return Some(CapacityScope::Project);
        }
        let ghost of_process = |t: InterchangeTransferModel|
            active_in_process(t, scope@.0, scope@.1, process@);
        let process_test = |t: &InterchangeTransfer| -> (b: bool)
            ensures
                b == active_in_process(t@, scope@.0, scope@.1, process@),
        {
            !t.record.state.terminal() && t.record.tenant == scope.tenant && t.record.project
                == scope.project && t.record.process == *process
        };
        if self.count_transfers(process_test, Ghost(of_process))
            >= c.max_active_transfers_per_process {
            return Some(CapacityScope::Process);
        }
        let ghost to_node = |t: InterchangeTransferModel|
            receives(t, scope@.0, scope@.1, scope@.2);
        let receiver_test = |t: &InterchangeTransfer| -> (b: bool)
            ensures
                b == receives(t@, scope@.0, scope@.1, scope@.2),
        {
            !t.record.state.terminal() && t.record.tenant == scope.tenant && t.record.project
                == scope.project && t.record.destination_node == scope.node
        };
        if self.count_transfers(receiver_test, Ghost(to_node)) >= c.max_receiver_leases_per_node {
            return Some(CapacityScope::Receiver);
        }
        if self.bytes_awaited(scope).saturating_add(requested_partial_bytes)
            > c.max_partial_bytes_per_node_project {
            return Some(CapacityScope::PartialBytes);
        }
        let ghost lately = |t: InterchangeTransferModel|
            created_lately(t, scope@.0, scope@.2, now);
        let lately_test = |t: &InterchangeTransfer| -> (b: bool)
            ensures
                b == created_lately(t@, scope@.0, scope@.2, now),
        {
            t.record.tenant == scope.tenant && t.record.destination_node == scope.node
                && t.record.created_at >= now.saturating_sub(60)
        };
        if self.count_transfers(lately_test, Ghost(lately))
            >= c.max_transfer_creations_per_tenant_node_minute {
            return Some(CapacityScope::CreationRate);
        }
        None
    }

    /// Why a request is refused for what is known of the artifact.
    fn refusal_for_artifact(&self, scope: &NodeScopeKey, q: &InterchangeRequest, cancelled: bool) -> (r:
        Option<RequestRefusal>)
        ensures
            r == artifact_refusal(self@, scope@, *q, cancelled),
    {
        if cancelled {
            return Some(RequestRefusal::Transfer(ArtifactTransferErrorCode::TransferCancelled));
        }
        match self.artifact_registry.metadata(&scope.tenant, &scope.project, &q.artifact) {
            None => Some(RequestRefusal::Transfer(ArtifactTransferErrorCode::NoArtifactLocation)),
            Some(metadata) => {
                if metadata.process != q.process {
                    return Some(RequestRefusal::ForeignProcess);
                }
                let holds = self.artifact_registry.holds(
                    &scope.tenant,
                    &scope.project,
                    &q.artifact,
                );
                assert(views(holds@).len() == holds@.len());
                if holds.len() == 0 {
                    return Some(RequestRefusal::Released);
                }
                if q.offset > metadata.size {
                    return Some(RequestRefusal::Transfer(ArtifactTransferErrorCode::RangeInvalid));
                }
                None
            },
        }
    }

    /// Whether an ended attempt speaks against the source.
    fn is_rejected(
        &self,
        scope: &NodeScopeKey,
        q: &InterchangeRequest,
        rules: &TransferRules,
        source: &NodeId,
    ) -> (r: bool)
        ensures
            r == rejected(
                self@.interchange.transfers,
                scope@,
                *q,
                *rules,
                source@,
                self@.interchange.transfers.len() as int,
            ),
    {
        let transfers: &OrderedMap<String, InterchangeTransfer> =
            self.interchange_registry.transfers();
        let ghost all = transfers@;
        let n: usize = transfers.len();
        let mut i: usize = 0;
        while i < n
            invariant
                n == all.len(),
                all == transfers@,
                all == self@.interchange.transfers,
                0 <= i <= n,
                forall|j: int|
                    0 <= j < i ==> !speaks_against(
                        (#[trigger] all[j]).1,
                        scope@,
                        *q,
                        *rules,
                        source@,
                    ),
            decreases n - i,
        {
            let t: &InterchangeTransfer = transfers.value_at(i);
            assert(all[i as int].1 == t@);
            let failed_by_source: bool = match t.record.failure_code {
                Some(code) => rules.rejects(code),
                None => false,
            };
            if t.record.tenant == scope.tenant && t.record.project == scope.project
                && t.record.process == q.process && t.record.artifact == q.artifact
                && t.record.destination_node == scope.node && t.record.state.terminal()
                && failed_by_source && t.record.source_node == *source {
                assert(speaks_against(all[i as int].1, scope@, *q, *rules, source@));
                return true;
            }
            i = i + 1;
        }
        false
    }

    /// The number of a new attempt.
    fn new_attempt(&self, scope: &NodeScopeKey, q: &InterchangeRequest) -> (r: u32)
        ensures
            r == next_attempt(self@, scope@, *q),
    {
        let transfers: &OrderedMap<String, InterchangeTransfer> =
            self.interchange_registry.transfers();
        let ghost all = transfers@;
        let n: usize = transfers.len();
        let mut most: u32 = 0;
        let mut i: usize = 0;
        while i < n
            invariant
                n == all.len(),
                all == transfers@,
                0 <= i <= n,
                most == most_attempts(all, scope@, *q, i as int),
            decreases n - i,
        {
            let t: &InterchangeTransfer = transfers.value_at(i);
            assert(all[i as int].1 == t@);
            if t.record.tenant == scope.tenant && t.record.project == scope.project
                && t.record.process == q.process && t.record.artifact == q.artifact
                && t.record.destination_node == scope.node && t.record.attempt_count > most {
                most = t.record.attempt_count;
            }
            i = i + 1;
        }
        most.saturating_add(1)
    }

    /// The source of a new transfer, if it is admitted and there is one.
    fn choose_source(
        &self,
        scope: &NodeScopeKey,
        q: &InterchangeRequest,
        rules: &TransferRules,
        metadata: &ArtifactMetadata,
        now: u64,
    ) -> (r: Result<NodeId, RequestRefusal>)
        requires
            requested(self@, scope@, *q) == Some(metadata@),
            q.offset <= metadata.size,
        ensures
            source_chosen(self@, scope@, *q, *rules, now, r),
    {
        match self.enforce_interchange_admission(scope, &q.process, metadata.size - q.offset, now) {
            Some(full) => {
                return Err(RequestRefusal::Capacity(full));
            },
            None => {},
        }
        let ghost nodes = metadata@.retaining_nodes;
        let count: usize = metadata.retaining_nodes.count();
        let ghost items = metadata.retaining_nodes.items();
        let mut i: usize = 0;
        while i < count
            invariant
                count == items.len(),
                items == metadata.retaining_nodes.items(),
                nodes == metadata@.retaining_nodes,
                nodes == metadata.retaining_nodes@,
                enumerates(items, nodes),
                requested(self@, scope@, *q) == Some(metadata@),
                q.offset <= metadata.size,
                capacity_refusal(
                    self@,
                    scope@,
                    q.process@,
                    (metadata@.size - q.offset) as u64,
                    now,
                ) is None,
                0 <= i <= count,
                forall|j: int|
                    0 <= j < i ==> !eligible(self@, scope@, *q, *rules, now, #[trigger] items[j]),
            decreases count - i,
        {
            let source: &NodeId = metadata.retaining_nodes.item(i);
            assert(source.key() == source@);
            let at: NodeScopeKey = NodeScopeKey::from_refs(&scope.tenant, &scope.project, source);
            let fits: bool = *source != scope.node && !self.is_rejected(scope, q, rules, source)
                && self.node_is_live(&at, now) && self.node_registry.has_active_advertisement(
                &at,
                now,
            );
            assert(fits == eligible(self@, scope@, *q, *rules, now, source@));
            if fits {
                assert(is_chosen_source(self@, scope@, *q, *rules, now, source@)) by {
                    assert(nodes.contains(items[i as int]));
                    assert forall|other: Seq<char>| #[trigger]
                        nodes.contains(other) && eligible(
                            self@,
                            scope@,
                            *q,
                            *rules,
                            now,
                            other,
                        ) implies other == source@ || source@.before(other) by {
                        let j = choose|j: int| 0 <= j < items.len() && items[j] == other;
                        assert(items[j] == other);
                        if i < j {
                            assert(items[i as int].before(items[j]));
                        }
                    }
                }
                let ghost busy = |t: InterchangeTransferModel|
                    !is_terminal(t.record.state) && provided_by(t, at@);
                let test = |t: &InterchangeTransfer| -> (b: bool)
                    ensures
                        b == (!is_terminal(t@.record.state) && provided_by(t@, at@)),
                {
                    !t.record.state.terminal() && t.record.tenant == at.tenant && t.record.project
                        == at.project && t.record.source_node == at.node
                };
                if self.count_transfers(test, Ghost(busy))
                    >= self.artifact_interchange_configuration.max_provider_leases_per_node {
                    return Err(RequestRefusal::Capacity(CapacityScope::Provider));
                }
                return Ok(source.clone());
            }
            i = i + 1;
        }
        assert forall|node: Seq<char>|
            !(nodes.contains(node) && #[trigger] eligible(
                self@,
                scope@,
                *q,
                *rules,
                now,
                node,
            )) by {
            if nodes.contains(node) {
                let j = choose|j: int| 0 <= j < items.len() && items[j] == node;
                assert(items[j] == node);
            }
        }
        Err(RequestRefusal::Transfer(ArtifactTransferErrorCode::EndpointAdvertisementMissing))
    }
}

/// What a request leads to for which a new transfer is set up: what is missing for it, or the
/// transfer.
pub open spec fn set_up(
    s: CoordinatorServiceModel,
    scope: ScopeText,
    q: InterchangeRequest,
    source: Seq<char>,
    tokens: TransferTokens,
    secret: Result<[u8; 32], String>,
    now: u64,
    after: CoordinatorServiceModel,
    r: Result<TransferAnswer, CoordinatorServiceError>,
    t: InterchangeTransferModel,
    n: int,
) -> bool {
    match (tokens.transfer, tokens.nonce, secret) {
        (Err(text), _, _) => r matches Err(error) && error.protests(text@) && after == s,
        (Ok(_), Err(text), _) => r matches Err(error) && error.protests(text@) && after == s,
        (Ok(_), Ok(_), Err(text)) => r matches Err(error) && error.protests(
            "generate artifact transfer secret: "@ + text@,
        ) && after == s,
        (Ok(id), Ok(nonce), Ok(secret)) => {
            &&& is_new_transfer(t, s, scope, q, source, id@, nonce@, secret, now)
            &&& admission(
                s.interchange,
                after.interchange,
                if r is Ok {
                    Ok(())
                } else {
                    Err(crate::interchange_registry::TransferAdmissionError::CapacityUnavailable)
                },
                id@,
                t,
                MAX_INTERCHANGE_TRANSFERS,
                n,
            )
            &&& match r {
                Err(error) => {
                    &&& error == CoordinatorServiceError::Transfer(
                        ArtifactTransferErrorCode::CapacityUnavailable,
                    )
                    &&& after == (CoordinatorServiceModel { interchange: after.interchange, ..s })
                },
                Ok(answer) => {
                    &&& answer.transfer == Some(t.record)
                    &&& option_view(answer.authorization) == Some(t.destination_authorization)
                    &&& after == (CoordinatorServiceModel {
                        interchange: after.interchange,
                        artifacts: ArtifactRegistryModel {
                            holds: with_hold(
                                s.artifacts.holds,
                                (scope.0, scope.1, q.artifact@),
                                transfer_reason(id@),
                                now,
                            ),
                            ..s.artifacts
                        },
                        ..s
                    })
                },
            }
        },
    }
}

/// Whether some transfer is what a request sets up.
pub open spec fn transfer_set_up(
    s: CoordinatorServiceModel,
    scope: ScopeText,
    q: InterchangeRequest,
    source: Seq<char>,
    tokens: TransferTokens,
    secret: Result<[u8; 32], String>,
    now: u64,
    after: CoordinatorServiceModel,
    r: Result<TransferAnswer, CoordinatorServiceError>,
) -> bool {
    exists|t: InterchangeTransferModel, n: int|
        #[trigger] set_up(s, scope, q, source, tokens, secret, now, after, r, t, n)
}

/// The running transfer that a request renews is `i`, and this is the answer.
pub open spec fn renewed_answer(
    s: CoordinatorServiceModel,
    scope: ScopeText,
    q: InterchangeRequest,
    now: u64,
    after: CoordinatorServiceModel,
    r: Result<TransferAnswer, CoordinatorServiceError>,
    i: int,
) -> bool {
    let t = renewed(
        s.interchange.transfers[i].1,
        now,
        terms_of(s.interchange_configuration),
    );
    &&& renewal(
        s.interchange,
        after.interchange,
        (scope.0, scope.1, q.process@, q.artifact@, scope.2),
        now,
        terms_of(s.interchange_configuration),
        i,
    )
    &&& after == (CoordinatorServiceModel { interchange: after.interchange, ..s })
    &&& r matches Ok(answer)
    &&& answer.transfer == Some(t.record)
    &&& option_view(answer.authorization) == Some(t.destination_authorization)
}

/// Whether a transfer of what is requested is running.
pub open spec fn request_runs(s: CoordinatorServiceModel, scope: ScopeText, q: InterchangeRequest, now: u64) -> bool {
    holds_of_some(
        s.interchange.transfers,
        |e: (Seq<char>, InterchangeTransferModel)| runs(e.1, now) && attempt(e.1, scope, q),
    )
}

/// What a request leads to for an artifact that the node does not have.
pub open spec fn remote_request(
    s: CoordinatorServiceModel,
    scope: ScopeText,
    q: InterchangeRequest,
    rules: TransferRules,
    tokens: TransferTokens,
    secret: Result<[u8; 32], String>,
    now: u64,
    after: CoordinatorServiceModel,
    r: Result<TransferAnswer, CoordinatorServiceError>,
    source: Result<NodeId, RequestRefusal>,
) -> bool {
    if current_advertisement(s.nodes, scope, now) is None {
        &&& r matches Err(error)
        &&& error == CoordinatorServiceError::Transfer(
            ArtifactTransferErrorCode::EndpointAdvertisementMissing,
        )
        &&& after == s
    } else if request_runs(s, scope, q, now) {
        exists|i: int| renewed_answer(s, scope, q, now, after, r, i)
    } else {
        &&& source_chosen(s, scope, q, rules, now, source)
        &&& match source {
            Err(refusal) => {
                &&& r matches Err(error)
                &&& request_error(refusal, error)
                &&& after == s
            },
            Ok(node) => transfer_set_up(s, scope, q, node@, tokens, secret, now, after, r),
        }
    }
}

/// What a request leads to, once the node is known to be live and old state has expired.
pub open spec fn request_outcome(
    s: CoordinatorServiceModel,
    scope: ScopeText,
    q: InterchangeRequest,
    cancelled: bool,
    rules: TransferRules,
    tokens: TransferTokens,
    secret: Result<[u8; 32], String>,
    now: u64,
    after: CoordinatorServiceModel,
    r: Result<TransferAnswer, CoordinatorServiceError>,
) -> bool {
    match artifact_refusal(s, scope, q, cancelled) {
        Some(refusal) => {
            &&& r matches Err(error)
            &&& request_error(refusal, error)
            &&& after == s
        },
        None => {
            let metadata = requested(s, scope, q)->Some_0;
            if metadata.retaining_nodes.contains(scope.2) {
                &&& after == s
                &&& match tokens.local_transfer {
                    Err(text) => r matches Err(error) && error.protests(text@),
                    Ok(token) => {
                        &&& r matches Ok(answer)
                        &&& answer.authorization is None
                        &&& answer.transfer matches Some(record)
                        &&& is_local_record(record, scope, q, metadata, token@, now)
                    },
                }
            } else {
                exists|source: Result<NodeId, RequestRefusal>| #[trigger]
                    remote_request(s, scope, q, rules, tokens, secret, now, after, r, source)
            }
        },
    }
}

/// Calls `getrandom::fill` on the bytes of a secret. Nothing is promised of the bytes: they are
/// random.
#[verifier::external_body]
pub(crate) fn random_secret() -> (r: Result<[u8; 32], String>) {
    let mut secret = [0_u8; 32];
    match getrandom::fill(&mut secret) {
        Ok(()) => Ok(secret),
        Err(error) => Err(error.to_string()),
    }
}

/// What comes of a request for an artifact.
pub open spec fn interchange_requested(
    before: CoordinatorServiceModel,
    after: CoordinatorServiceModel,
    scope: Result<NodeScopeKey, String>,
    process: Result<ProcessId, String>,
    artifact: Result<ArtifactId, String>,
    offset: u64,
    cancelled: bool,
    rules: TransferRules,
    tokens: TransferTokens,
    secret: Result<[u8; 32], String>,
    now: u64,
    r: Result<TransferAnswer, CoordinatorServiceError>,
) -> bool {
    if !from_known_node(before, scope) {
        &&& node_known(before, scope, error_of(r))
        &&& after == before
    } else {
        let s = interchange_expired(before, now);
        let at = scope->Ok_0@;
        if !live(s.nodes, at, now, s.node_stale_after_seconds) {
            &&& r matches Err(error)
            &&& error == CoordinatorServiceError::Transfer(
                ArtifactTransferErrorCode::DestinationNodeOffline,
            )
            &&& after == s
        } else {
            match (process, artifact) {
                (Err(text), _) => r matches Err(error) && error.protests(text@) && after == s,
                (Ok(_), Err(text)) => r matches Err(error) && error.protests(text@) && after == s,
                (Ok(process), Ok(artifact)) => request_outcome(
                    s,
                    at,
                    InterchangeRequest { process, artifact, offset },
                    cancelled,
                    rules,
                    tokens,
                    secret,
                    now,
                    after,
                    r,
                ),
            }
        }
    }
}

/// What comes of a request for an artifact, with the secret that was drawn for it.
pub open spec fn interchange_handled(
    before: CoordinatorServiceModel,
    after: CoordinatorServiceModel,
    scope: Result<NodeScopeKey, String>,
    process: Result<ProcessId, String>,
    artifact: Result<ArtifactId, String>,
    offset: u64,
    cancelled: bool,
    rules: TransferRules,
    tokens: TransferTokens,
    now: u64,
    r: Result<TransferAnswer, CoordinatorServiceError>,
) -> bool {
    exists|secret: Result<[u8; 32], String>| #[trigger]
        interchange_requested(
            before,
            after,
            scope,
            process,
            artifact,
            offset,
            cancelled,
            rules,
            tokens,
            secret,
            now,
            r,
        )
}

impl CoordinatorService {
    /// Sets up a transfer from the source.
    fn set_up_transfer(
        &mut self,
        scope: &NodeScopeKey,
        q: &InterchangeRequest,
        source: &NodeId,
        tokens: TransferTokens,
        secret: Result<[u8; 32], String>,
        now: u64,
    ) -> (r: Result<TransferAnswer, CoordinatorServiceError>)
        requires
            requested(old(self)@, scope@, *q) matches Some(metadata) && q.offset <= metadata.size,
            current_advertisement(old(self)@.nodes, scope@, now) is Some,
            current_advertisement(old(self)@.nodes, (scope@.0, scope@.1, source@), now) is Some,
        ensures
            transfer_set_up(
                old(self)@,
                scope@,
                *q,
                source@,
                tokens,
                secret,
                now,
                final(self)@,
                r,
            ),
            well_formed(old(self)@.artifacts) ==> well_formed(final(self)@.artifacts),
    {
        let ghost s = self@;
        let ghost none: InterchangeTransferModel = arbitrary();
        let id: String = match &tokens.transfer {
            Ok(id) => id.clone(),
            Err(text) => {
                let r: Result<TransferAnswer, CoordinatorServiceError> = Err(
                    CoordinatorServiceError::Protocol(text.clone()),
                );
                assert(set_up(s, scope@, *q, source@, tokens, secret, now, self@, r, none, 0));
                return r;
            },
        };
        let nonce: String = match &tokens.nonce {
            Ok(nonce) => nonce.clone(),
            Err(text) => {
                let r: Result<TransferAnswer, CoordinatorServiceError> = Err(
                    CoordinatorServiceError::Protocol(text.clone()),
                );
                assert(set_up(s, scope@, *q, source@, tokens, secret, now, self@, r, none, 0));
                return r;
            },
        };
        let transfer_secret: [u8; 32] = match &secret {
            Ok(bytes) => *bytes,
            Err(text) => {
                let r: Result<TransferAnswer, CoordinatorServiceError> = Err(
                    CoordinatorServiceError::Protocol(
                        concat2("generate artifact transfer secret: ", text.as_str()),
                    ),
                );
                assert(set_up(s, scope@, *q, source@, tokens, secret, now, self@, r, none, 0));
                return r;
            },
        };
        let transfer: InterchangeTransfer = self.new_transfer(
            scope,
            q,
            source,
            &id,
            nonce,
            transfer_secret,
            now,
        );
        let ghost t = transfer@;
        let record: ArtifactTransferRecord = transfer.record.duplicate();
        let authorization: ArtifactTransferAuthorization =
            transfer.destination_authorization.duplicate();
        let created = self.interchange_registry.create(
            id.clone(),
            transfer,
            MAX_INTERCHANGE_TRANSFERS,
        );
        let ghost n = choose|n: int|
            admission(
                s.interchange,
                self@.interchange,
                created,
                id@,
                t,
                MAX_INTERCHANGE_TRANSFERS,
                n,
            );
        if created.is_err() {
            let r: Result<TransferAnswer, CoordinatorServiceError> = Err(
                CoordinatorServiceError::Transfer(ArtifactTransferErrorCode::CapacityUnavailable),
            );
            assert(set_up(s, scope@, *q, source@, tokens, secret, now, self@, r, t, n));
            return r;
        }
        let _held = self.artifact_registry.add_hold(
            &scope.tenant,
            &scope.project,
            &q.artifact,
            ArtifactHoldReason::ActiveTransfer { transfer_id: id.clone() },
            now,
        );
        let r: Result<TransferAnswer, CoordinatorServiceError> = Ok(
            TransferAnswer { authorization: Some(authorization), transfer: Some(record) },
        );
        assert(set_up(s, scope@, *q, source@, tokens, secret, now, self@, r, t, n));
        r
    }

    /// A new transfer from the source to the node that asks.
    fn new_transfer(
        &self,
        scope: &NodeScopeKey,
        q: &InterchangeRequest,
        source: &NodeId,
        id: &String,
        nonce: String,
        transfer_secret: [u8; 32],
        now: u64,
    ) -> (r: InterchangeTransfer)
        requires
            requested(self@, scope@, *q) matches Some(metadata) && q.offset <= metadata.size,
            lookup(self@.nodes.advertisements, scope@) is Some,
            lookup(self@.nodes.advertisements, (scope@.0, scope@.1, source@)) is Some,
        ensures
            is_new_transfer(
                r@,
                self@,
                scope@,
                *q,
                source@,
                id@,
                nonce@,
                transfer_secret,
                now,
            ),
    {
        let c: &CoordinatorArtifactInterchangeConfiguration =
            &self.artifact_interchange_configuration;
        let at: NodeScopeKey = NodeScopeKey::from_refs(&scope.tenant, &scope.project, source);
        let metadata: &ArtifactMetadata = self.artifact_registry.metadata(
            &scope.tenant,
            &scope.project,
            &q.artifact,
        ).unwrap();
        let from: &IrohEndpointAdvertisement = self.node_registry.advertisement(&at).unwrap();
        let to: &IrohEndpointAdvertisement = self.node_registry.advertisement(scope).unwrap();
        let ticket: u64 = now.saturating_add(c.transfer_lease_ttl_seconds);
        let until: u64 = now.saturating_add(c.active_transfer_lease_ttl_seconds);
        let lease: ArtifactTransferLease = ArtifactTransferLease {
            transfer_id: id.clone(),
            tenant: scope.tenant.clone(),
            project: scope.project.clone(),
            process: q.process.clone(),
            artifact: q.artifact.clone(),
            digest: metadata.digest.clone(),
            size_bytes: metadata.size,
            source_node: source.clone(),
            source_endpoint_id: from.endpoint_id.clone(),
            destination_node: scope.node.clone(),
            destination_endpoint_id: to.endpoint_id.clone(),
            allowed_offset: q.offset,
            maximum_bytes: metadata.size - q.offset,
            relay_policy: c.artifact_relay_policy,
            direct_path_deadline_ms: c.direct_path_deadline_ms,
            expires_at: ticket,
            active_lease_expires_at: until,
            nonce,
        };
        let record: ArtifactTransferRecord = ArtifactTransferRecord {
            transfer_id: id.clone(),
            tenant: scope.tenant.clone(),
            project: scope.project.clone(),
            process: q.process.clone(),
            artifact: q.artifact.clone(),
            source_node: source.clone(),
            destination_node: scope.node.clone(),
            bytes_completed: q.offset,
            path_kind: ClusterfluxPathKind::Unknown,
            state: ArtifactTransferState::SourceSelected,
            created_at: now,
            updated_at: now,
            expires_at: until,
            stream_ticket_expires_at: ticket,
            last_progress_at: now,
            total_bytes: metadata.size,
            phase: ArtifactTransferPhase::Queued,
            failure_code: None,
            attempt_count: self.new_attempt(scope, q),
        };
        InterchangeTransfer {
            record,
            destination_authorization: ArtifactTransferAuthorization {
                lease: lease.duplicate(),
                transfer_secret,
                peer: authorized_peer(from),
            },
            provider_authorization: ArtifactTransferAuthorization {
                lease,
                transfer_secret,
                peer: authorized_peer(to),
            },
            destination_assignment: ArtifactAssignmentState::Offered,
            provider_assignment: ArtifactAssignmentState::Offered,
            destination_acknowledged_at: None,
            provider_acknowledged_at: None,
            metered_body_bytes: 0,
        }
    }

    /// The record of an artifact that the node already has.
    fn local_record(
        &self,
        scope: &NodeScopeKey,
        q: &InterchangeRequest,
        size: u64,
        token: &String,
        now: u64,
    ) -> (r: ArtifactTransferRecord)
        ensures
            forall|metadata: ArtifactMetadataModel|
                metadata.size == size ==> #[trigger] is_local_record(
                    r,
                    scope@,
                    *q,
                    metadata,
                    token@,
                    now,
                ),
    {
        ArtifactTransferRecord {
            transfer_id: token.clone(),
            tenant: scope.tenant.clone(),
            project: scope.project.clone(),
            process: q.process.clone(),
            artifact: q.artifact.clone(),
            source_node: scope.node.clone(),
            destination_node: scope.node.clone(),
            bytes_completed: size,
            path_kind: ClusterfluxPathKind::Local,
            state: ArtifactTransferState::Completed,
            created_at: now,
            updated_at: now,
            expires_at: now,
            stream_ticket_expires_at: now,
            last_progress_at: now,
            total_bytes: size,
            phase: ArtifactTransferPhase::Complete,
            failure_code: None,
            attempt_count: 0,
        }
    }

    /// Takes up the request of a live node.
    fn request_transfer(
        &mut self,
        scope: &NodeScopeKey,
        q: &InterchangeRequest,
        cancelled: bool,
        rules: &TransferRules,
        tokens: TransferTokens,
        secret: Result<[u8; 32], String>,
        now: u64,
    ) -> (r: Result<TransferAnswer, CoordinatorServiceError>)
        ensures
            request_outcome(
                old(self)@,
                scope@,
                *q,
                cancelled,
                *rules,
                tokens,
                secret,
                now,
                final(self)@,
                r,
            ),
            well_formed(old(self)@.artifacts) ==> well_formed(final(self)@.artifacts),
    {
        let ghost s = self@;
        match self.refusal_for_artifact(scope, q, cancelled) {
            Some(refusal) => {
                return Err(word_request_refusal(refusal));
            },
            None => {},
        }
        let metadata: ArtifactMetadata = self.artifact_registry.metadata(
            &scope.tenant,
            &scope.project,
            &q.artifact,
        ).unwrap().duplicate();
        assert(scope.node.key() == scope.node@);
        if metadata.retaining_nodes.contains(&scope.node) {
            return match &tokens.local_transfer {
                Err(text) => Err(CoordinatorServiceError::Protocol(text.clone())),
                Ok(token) => {
                    let record: ArtifactTransferRecord = self.local_record(
                        scope,
                        q,
                        metadata.size,
                        token,
                        now,
                    );
                    assert(is_local_record(record, scope@, *q, metadata@, token@, now));
                    Ok(TransferAnswer { authorization: None, transfer: Some(record) })
                },
            };
        }
        let ghost nowhere: Result<NodeId, RequestRefusal> = Err(RequestRefusal::Released);
        if !self.node_registry.has_active_advertisement(scope, now) {
            let r: Result<TransferAnswer, CoordinatorServiceError> = Err(
                CoordinatorServiceError::Transfer(
                    ArtifactTransferErrorCode::EndpointAdvertisementMissing,
                ),
            );
            assert(remote_request(
                s,
                scope@,
                *q,
                *rules,
                tokens,
                secret,
                now,
                self@,
                r,
                nowhere,
            ));
            return r;
        }
        let terms: LeaseTerms = self.lease_terms();
        let running = self.interchange_registry.renew(
            &scope.tenant,
            &scope.project,
            &q.process,
            &q.artifact,
            scope,
            now,
            terms,
        );
        proof {
            lemma_request_runs(s, scope@, *q, now);
        }
        match running {
            Some((authorization, record)) => {
                let r: Result<TransferAnswer, CoordinatorServiceError> = Ok(
                    TransferAnswer { authorization: Some(authorization), transfer: Some(record) },
                );
                proof {
                    let i = choose|i: int|
                        #[trigger] renewal(
                            s.interchange,
                            self@.interchange,
                            (scope@.0, scope@.1, q.process@, q.artifact@, scope@.2),
                            now,
                            terms,
                            i,
                        ) && authorization@ == renewed(
                            s.interchange.transfers[i].1,
                            now,
                            terms,
                        ).destination_authorization && record == renewed(
                            s.interchange.transfers[i].1,
                            now,
                            terms,
                        ).record;
                    assert(renewed_answer(s, scope@, *q, now, self@, r, i));
                    assert(remote_request(
                        s,
                        scope@,
                        *q,
                        *rules,
                        tokens,
                        secret,
                        now,
                        self@,
                        r,
                        nowhere,
                    ));
                }
                return r;
            },
            None => {},
        }
        assert(self@ == s);
        let source: Result<NodeId, RequestRefusal> = self.choose_source(
            scope,
            q,
            rules,
            &metadata,
            now,
        );
        match &source {
            Err(refusal) => {
                let r: Result<TransferAnswer, CoordinatorServiceError> = Err(
                    word_request_refusal(*refusal),
                );
                assert(remote_request(
                    s,
                    scope@,
                    *q,
                    *rules,
                    tokens,
                    secret,
                    now,
                    self@,
                    r,
                    source,
                ));
                r
            },
            Ok(node) => {
                let ghost given = tokens;
                let ghost given_secret = secret;
                let r: Result<TransferAnswer, CoordinatorServiceError> = self.set_up_transfer(
                    scope,
                    q,
                    node,
                    tokens,
                    secret,
                    now,
                );
                assert(remote_request(
                    s,
                    scope@,
                    *q,
                    *rules,
                    given,
                    given_secret,
                    now,
                    self@,
                    r,
                    source,
                ));
                r
            },
        }
    }

    /// Takes up the request of a node for an artifact, given the tokens and the secret for it.
    pub fn request_artifact_interchange(
        &mut self,
        scope: Result<NodeScopeKey, String>,
        process: Result<ProcessId, String>,
        artifact: Result<ArtifactId, String>,
        offset: u64,
        cancelled: bool,
        rules: &TransferRules,
        tokens: TransferTokens,
        secret: Result<[u8; 32], String>,
        now: u64,
    ) -> (r: Result<TransferAnswer, CoordinatorServiceError>)
        ensures
            interchange_requested(
                old(self)@,
                final(self)@,
                scope,
                process,
                artifact,
                offset,
                cancelled,
                *rules,
                tokens,
                secret,
                now,
                r,
            ),
            well_formed(old(self)@.artifacts) ==> well_formed(final(self)@.artifacts),
    {
        let key: NodeScopeKey = match self.known_node(scope) {
            Ok(key) => key,
            Err(error) => {
                return Err(error);
            },
        };
        self.expire_interchange_state(now);
        if !self.node_is_live(&key, now) {
            return Err(
                CoordinatorServiceError::Transfer(
                    ArtifactTransferErrorCode::DestinationNodeOffline,
                ),
            );
        }
        match (process, artifact) {
            (Err(text), _) => Err(CoordinatorServiceError::Protocol(text)),
            (Ok(_), Err(text)) => Err(CoordinatorServiceError::Protocol(text)),
            (Ok(process), Ok(artifact)) => {
                let q: InterchangeRequest = InterchangeRequest { process, artifact, offset };
                self.request_transfer(&key, &q, cancelled, rules, tokens, secret, now)
            },
        }
    }

    /// Takes up the request of a node for an artifact. The secret of a new transfer is random.
    pub fn handle_request_artifact_interchange(
        &mut self,
        scope: Result<NodeScopeKey, String>,
        process: Result<ProcessId, String>,
        artifact: Result<ArtifactId, String>,
        offset: u64,
        cancelled: bool,
        rules: &TransferRules,
        tokens: TransferTokens,
        now: u64,
    ) -> (r: Result<TransferAnswer, CoordinatorServiceError>)
        ensures
            interchange_handled(
                old(self)@,
                final(self)@,
                scope,
                process,
                artifact,
                offset,
                cancelled,
                *rules,
                tokens,
                now,
                r,
            ),
            well_formed(old(self)@.artifacts) ==> well_formed(final(self)@.artifacts),
    {
        let secret: Result<[u8; 32], String> = random_secret();
        let ghost before = self@;
        let r: Result<TransferAnswer, CoordinatorServiceError> = self.request_artifact_interchange(
            scope,
            process,
            artifact,
            offset,
            cancelled,
            rules,
            tokens,
            secret,
            now,
        );
        assert(interchange_requested(
            before,
            self@,
            scope,
            process,
            artifact,
            offset,
            cancelled,
            *rules,
            tokens,
            secret,
            now,
            r,
        ));
        r
    }
}

/// The running transfer that is asked for is the one that would be renewed.
proof fn lemma_request_runs(s: CoordinatorServiceModel, scope: ScopeText, q: InterchangeRequest, now: u64)
    ensures
        request_runs(s, scope, q, now) <==> holds_of_some(
            s.interchange.transfers,
            |e: (Seq<char>, InterchangeTransferModel)|
                runs(e.1, now) && same_request(
                    e.1,
                    scope.0,
                    scope.1,
                    q.process@,
                    q.artifact@,
                    scope.2,
                ),
        ),
{
    let p = |e: (Seq<char>, InterchangeTransferModel)| runs(e.1, now) && attempt(e.1, scope, q);
    let w = |e: (Seq<char>, InterchangeTransferModel)|
        runs(e.1, now) && same_request(
            e.1,
            scope.0,
            scope.1,
            q.process@,
            q.artifact@,
            scope.2,
        );
    let all = s.interchange.transfers;
    if holds_of_some(all, p) {
        let i = choose|i: int| 0 <= i < all.len() && p(#[trigger] all[i]);
        assert(w(all[i]));
    }
    if holds_of_some(all, w) {
        let i = choose|i: int| 0 <= i < all.len() && w(#[trigger] all[i]);
        assert(p(all[i]));
    }
}

} // verus!
