//! How artifacts are interchanged between nodes: the configuration that bounds it.
use vstd::prelude::*;
use vstd::string::*;

use crate::duplicate::{Duplicate, copy_all, copy_text, views};
use crate::relay::{ClusterfluxDeploymentMode, relay_url_is_forbidden_or_invalid, relay_url_refused};
use crate::text::{byte_len, text_len};
use crate::transfer::ArtifactRelayPolicy;

verus! {

/// The most transfers that are recorded at one time.
pub const MAX_INTERCHANGE_TRANSFERS: usize = 4096;

pub const DEFAULT_ENDPOINT_ADVERTISEMENT_TTL_SECONDS: u64 = 60;

pub const ENDPOINT_ADVERTISEMENT_CLOCK_SKEW_SECONDS: u64 = 5;

pub const DEFAULT_TRANSFER_LEASE_TTL_SECONDS: u64 = 120;

pub const DEFAULT_ACTIVE_TRANSFER_LEASE_TTL_SECONDS: u64 = 600;

pub const DEFAULT_NO_PROGRESS_TIMEOUT_SECONDS: u64 = 300;

pub const MAX_ACTIVE_TRANSFER_LEASE_TTL_SECONDS: u64 = 86400;

pub const MAX_NO_PROGRESS_TIMEOUT_SECONDS: u64 = 86400;

pub const MAX_ABSOLUTE_TRANSFER_SECONDS: u64 = 604800;

pub const MAX_TRANSFER_CREATIONS_PER_TENANT_NODE_MINUTE: usize = 1000000;

pub const MAX_PARTIAL_BYTES_PER_NODE_PROJECT: u64 = 1099511627776;

pub const MAX_DIRECT_PATH_DEADLINE_MS: u64 = 600000;

pub const ASSIGNMENT_ACK_RECOVERY_SECONDS: u64 = 5;

/// How long a transfer that has ended is remembered.
pub const TERMINAL_TRANSFER_RETENTION_SECONDS: u64 = 600;

/// A relay, and the token by which it is used.
pub struct ClusterfluxRelayConfig {
    pub url: String,
    pub access_token: Option<String>,
}

impl View for ClusterfluxRelayConfig {
    type V = ClusterfluxRelayConfig;

    open spec fn view(&self) -> ClusterfluxRelayConfig {
        *self
    }
}

impl Duplicate for ClusterfluxRelayConfig {
    fn duplicate(&self) -> (r: Self) {
        ClusterfluxRelayConfig {
            url: self.url.clone(),
            access_token: copy_text(&self.access_token),
        }
    }
}

/// Which relays a deployment uses.
pub enum IrohRelayConfiguration {
    Disabled,
    Custom(Vec<ClusterfluxRelayConfig>),
}

/// The model of [`IrohRelayConfiguration`].
#[verifier::ext_equal]
pub enum IrohRelayConfigurationModel {
    Disabled,
    Custom(Seq<ClusterfluxRelayConfig>),
}

impl View for IrohRelayConfiguration {
    type V = IrohRelayConfigurationModel;

    open spec fn view(&self) -> IrohRelayConfigurationModel {
        match *self {
            IrohRelayConfiguration::Disabled => IrohRelayConfigurationModel::Disabled,
            IrohRelayConfiguration::Custom(relays) => IrohRelayConfigurationModel::Custom(
                views(relays@),
            ),
        }
    }
}

impl Duplicate for IrohRelayConfiguration {
    fn duplicate(&self) -> (r: Self) {
        match self {
            IrohRelayConfiguration::Disabled => IrohRelayConfiguration::Disabled,
            IrohRelayConfiguration::Custom(relays) => IrohRelayConfiguration::Custom(
                copy_all(relays),
            ),
        }
    }
}

/// How artifacts are interchanged, and within which bounds.
pub struct CoordinatorArtifactInterchangeConfiguration {
    pub deployment_mode: ClusterfluxDeploymentMode,
    pub relay: IrohRelayConfiguration,
    pub artifact_relay_policy: ArtifactRelayPolicy,
    pub generation: u64,
    pub endpoint_advertisement_ttl_seconds: u64,
    pub transfer_lease_ttl_seconds: u64,
    pub active_transfer_lease_ttl_seconds: u64,
    pub no_progress_timeout_seconds: u64,
    pub absolute_transfer_max_seconds: Option<u64>,
    pub max_active_transfers_per_tenant: usize,
    pub max_active_transfers_per_project: usize,
    pub max_active_transfers_per_process: usize,
    pub max_provider_leases_per_node: usize,
    pub max_receiver_leases_per_node: usize,
    pub max_transfer_creations_per_tenant_node_minute: usize,
    pub max_partial_bytes_per_node_project: u64,
    pub direct_path_deadline_ms: u64,
    pub direct_path_grace_period_ms: u64,
}

/// The model of [`CoordinatorArtifactInterchangeConfiguration`].
#[verifier::ext_equal]
pub struct CoordinatorArtifactInterchangeConfigurationModel {
    pub deployment_mode: ClusterfluxDeploymentMode,
    pub relay: IrohRelayConfigurationModel,
    pub artifact_relay_policy: ArtifactRelayPolicy,
    pub generation: u64,
    pub endpoint_advertisement_ttl_seconds: u64,
    pub transfer_lease_ttl_seconds: u64,
    pub active_transfer_lease_ttl_seconds: u64,
    pub no_progress_timeout_seconds: u64,
    pub absolute_transfer_max_seconds: Option<u64>,
    pub max_active_transfers_per_tenant: usize,
    pub max_active_transfers_per_project: usize,
    pub max_active_transfers_per_process: usize,
    pub max_provider_leases_per_node: usize,
    pub max_receiver_leases_per_node: usize,
    pub max_transfer_creations_per_tenant_node_minute: usize,
    pub max_partial_bytes_per_node_project: u64,
    pub direct_path_deadline_ms: u64,
    pub direct_path_grace_period_ms: u64,
}

impl View for CoordinatorArtifactInterchangeConfiguration {
    type V = CoordinatorArtifactInterchangeConfigurationModel;

    open spec fn view(&self) -> CoordinatorArtifactInterchangeConfigurationModel {
        CoordinatorArtifactInterchangeConfigurationModel {
            deployment_mode: self.deployment_mode,
            relay: self.relay@,
            artifact_relay_policy: self.artifact_relay_policy,
            generation: self.generation,
            endpoint_advertisement_ttl_seconds: self.endpoint_advertisement_ttl_seconds,
            transfer_lease_ttl_seconds: self.transfer_lease_ttl_seconds,
            active_transfer_lease_ttl_seconds: self.active_transfer_lease_ttl_seconds,
            no_progress_timeout_seconds: self.no_progress_timeout_seconds,
            absolute_transfer_max_seconds: self.absolute_transfer_max_seconds,
            max_active_transfers_per_tenant: self.max_active_transfers_per_tenant,
            max_active_transfers_per_project: self.max_active_transfers_per_project,
            max_active_transfers_per_process: self.max_active_transfers_per_process,
            max_provider_leases_per_node: self.max_provider_leases_per_node,
            max_receiver_leases_per_node: self.max_receiver_leases_per_node,
            max_transfer_creations_per_tenant_node_minute: self.max_transfer_creations_per_tenant_node_minute,
            max_partial_bytes_per_node_project: self.max_partial_bytes_per_node_project,
            direct_path_deadline_ms: self.direct_path_deadline_ms,
            direct_path_grace_period_ms: self.direct_path_grace_period_ms,
        }
    }
}

impl Duplicate for CoordinatorArtifactInterchangeConfiguration {
    fn duplicate(&self) -> (r: Self) {
        CoordinatorArtifactInterchangeConfiguration {
            deployment_mode: self.deployment_mode,
            relay: self.relay.duplicate(),
            artifact_relay_policy: self.artifact_relay_policy,
            generation: self.generation,
            endpoint_advertisement_ttl_seconds: self.endpoint_advertisement_ttl_seconds,
            transfer_lease_ttl_seconds: self.transfer_lease_ttl_seconds,
            active_transfer_lease_ttl_seconds: self.active_transfer_lease_ttl_seconds,
            no_progress_timeout_seconds: self.no_progress_timeout_seconds,
            absolute_transfer_max_seconds: self.absolute_transfer_max_seconds,
            max_active_transfers_per_tenant: self.max_active_transfers_per_tenant,
            max_active_transfers_per_project: self.max_active_transfers_per_project,
            max_active_transfers_per_process: self.max_active_transfers_per_process,
            max_provider_leases_per_node: self.max_provider_leases_per_node,
            max_receiver_leases_per_node: self.max_receiver_leases_per_node,
            max_transfer_creations_per_tenant_node_minute: self.max_transfer_creations_per_tenant_node_minute,
            max_partial_bytes_per_node_project: self.max_partial_bytes_per_node_project,
            direct_path_deadline_ms: self.direct_path_deadline_ms,
            direct_path_grace_period_ms: self.direct_path_grace_period_ms,
        }
    }
}

/// What a node is told of how artifacts are interchanged.
pub struct ArtifactDataPlanePolicy {
    pub relay: IrohRelayConfiguration,
    pub artifact_relay_policy: ArtifactRelayPolicy,
    pub generation: u64,
    pub endpoint_advertisement_ttl_seconds: u64,
    pub direct_path_deadline_ms: u64,
    pub direct_path_grace_period_ms: u64,
}

/// The model of [`ArtifactDataPlanePolicy`].
#[verifier::ext_equal]
pub struct ArtifactDataPlanePolicyModel {
    pub relay: IrohRelayConfigurationModel,
    pub artifact_relay_policy: ArtifactRelayPolicy,
    pub generation: u64,
    pub endpoint_advertisement_ttl_seconds: u64,
    pub direct_path_deadline_ms: u64,
    pub direct_path_grace_period_ms: u64,
}

impl View for ArtifactDataPlanePolicy {
    type V = ArtifactDataPlanePolicyModel;

    open spec fn view(&self) -> ArtifactDataPlanePolicyModel {
        ArtifactDataPlanePolicyModel {
            relay: self.relay@,
            artifact_relay_policy: self.artifact_relay_policy,
            generation: self.generation,
            endpoint_advertisement_ttl_seconds: self.endpoint_advertisement_ttl_seconds,
            direct_path_deadline_ms: self.direct_path_deadline_ms,
            direct_path_grace_period_ms: self.direct_path_grace_period_ms,
        }
    }
}

impl Duplicate for ArtifactDataPlanePolicy {
    fn duplicate(&self) -> (r: Self) {
        ArtifactDataPlanePolicy {
            relay: self.relay.duplicate(),
            artifact_relay_policy: self.artifact_relay_policy,
            generation: self.generation,
            endpoint_advertisement_ttl_seconds: self.endpoint_advertisement_ttl_seconds,
            direct_path_deadline_ms: self.direct_path_deadline_ms,
            direct_path_grace_period_ms: self.direct_path_grace_period_ms,
        }
    }
}

/// How many relays an endpoint may name, and how long their URLs may be.
#[derive(Clone, Copy, Debug, PartialEq, Eq, Structural)]
pub struct RelayLimits {
    pub max_endpoint_relay_urls: usize,
    pub max_relay_url_bytes: usize,
}

/// Every generation, time and count is within its bounds.
pub open spec fn within_bounds(c: CoordinatorArtifactInterchangeConfigurationModel) -> bool {
    &&& c.generation != 0
    &&& 0 < c.endpoint_advertisement_ttl_seconds <= 600
    &&& 0 < c.transfer_lease_ttl_seconds <= 900
    &&& 0 < c.active_transfer_lease_ttl_seconds <= MAX_ACTIVE_TRANSFER_LEASE_TTL_SECONDS
    &&& 0 < c.no_progress_timeout_seconds <= MAX_NO_PROGRESS_TIMEOUT_SECONDS
    &&& c.no_progress_timeout_seconds >= c.active_transfer_lease_ttl_seconds / 4
    &&& c.absolute_transfer_max_seconds matches Some(most)
        ==> c.active_transfer_lease_ttl_seconds <= most <= MAX_ABSOLUTE_TRANSFER_SECONDS
    &&& 0 < c.max_active_transfers_per_tenant <= MAX_INTERCHANGE_TRANSFERS
    &&& 0 < c.max_active_transfers_per_project <= MAX_INTERCHANGE_TRANSFERS
    &&& 0 < c.max_active_transfers_per_process <= MAX_INTERCHANGE_TRANSFERS
    &&& 0 < c.max_provider_leases_per_node <= MAX_INTERCHANGE_TRANSFERS
    &&& 0 < c.max_receiver_leases_per_node <= MAX_INTERCHANGE_TRANSFERS
    &&& 0 < c.max_transfer_creations_per_tenant_node_minute
        <= MAX_TRANSFER_CREATIONS_PER_TENANT_NODE_MINUTE
    &&& 0 < c.max_partial_bytes_per_node_project <= MAX_PARTIAL_BYTES_PER_NODE_PROJECT
    &&& 0 < c.direct_path_deadline_ms <= MAX_DIRECT_PATH_DEADLINE_MS
    &&& c.direct_path_grace_period_ms <= c.direct_path_deadline_ms
}

/// Whether relay `i` is refused: its URL is empty, too long, forbidden, or stands before it.
pub open spec fn relay_refused(
    relays: Seq<ClusterfluxRelayConfig>,
    mode: ClusterfluxDeploymentMode,
    max_bytes: usize,
    i: int,
) -> bool {
    ||| relays[i].url@.len() == 0
    ||| byte_len(relays[i].url@) > max_bytes
    ||| relay_url_refused(relays[i].url@, mode)
    ||| exists|j: int| 0 <= j < i && (#[trigger] relays[j]).url@ == relays[i].url@
}

/// Why a configuration is refused.
pub open spec fn configuration_refusal(
    c: CoordinatorArtifactInterchangeConfigurationModel,
    limits: RelayLimits,
) -> Option<Seq<char>> {
    let hosted = c.deployment_mode == ClusterfluxDeploymentMode::HostedPublic;
    let disabled = c.relay is Disabled;
    if !within_bounds(c) {
        Some("artifact interchange policy contains an invalid generation or bound"@)
    } else if hosted && c.artifact_relay_policy != ArtifactRelayPolicy::DirectRequired {
        Some("hosted public artifact transfers must require direct paths"@)
    } else if hosted && disabled {
        Some("hosted public NAT traversal requires a Clusterflux assist relay"@)
    } else if c.deployment_mode == ClusterfluxDeploymentMode::LocalOffline && !disabled {
        Some("local/offline artifact interchange must disable relays"@)
    } else if disabled && c.artifact_relay_policy == ArtifactRelayPolicy::RelayFallbackAllowed {
        Some("artifact relay fallback cannot be enabled without a configured relay"@)
    } else {
        match c.relay {
            IrohRelayConfigurationModel::Disabled => None,
            IrohRelayConfigurationModel::Custom(relays) => if relays.len() == 0 || relays.len()
                > limits.max_endpoint_relay_urls {
                Some("artifact interchange relay list is empty or too large"@)
            } else if exists|i: int|
                0 <= i < relays.len() && #[trigger] relay_refused(
                    relays,
                    c.deployment_mode,
                    limits.max_relay_url_bytes,
                    i,
                ) {
                Some("artifact interchange relay URL is invalid or duplicated"@)
            } else {
                None
            },
        }
    }
}

/// What a node is told of the configuration.
pub open spec fn policy_of(c: CoordinatorArtifactInterchangeConfigurationModel) -> ArtifactDataPlanePolicyModel {
    ArtifactDataPlanePolicyModel {
        relay: c.relay,
        artifact_relay_policy: c.artifact_relay_policy,
        generation: c.generation,
        endpoint_advertisement_ttl_seconds: c.endpoint_advertisement_ttl_seconds,
        direct_path_deadline_ms: c.direct_path_deadline_ms,
        direct_path_grace_period_ms: c.direct_path_grace_period_ms,
    }
}

impl Default for CoordinatorArtifactInterchangeConfiguration {
    fn default() -> (r: Self)
        ensures
            r@ == default_configuration(),
    {
        CoordinatorArtifactInterchangeConfiguration {
            deployment_mode: ClusterfluxDeploymentMode::SelfHosted,
            relay: IrohRelayConfiguration::Disabled,
            artifact_relay_policy: ArtifactRelayPolicy::DirectRequired,
            generation: 1,
            endpoint_advertisement_ttl_seconds: DEFAULT_ENDPOINT_ADVERTISEMENT_TTL_SECONDS,
            transfer_lease_ttl_seconds: DEFAULT_TRANSFER_LEASE_TTL_SECONDS,
            active_transfer_lease_ttl_seconds: DEFAULT_ACTIVE_TRANSFER_LEASE_TTL_SECONDS,
            no_progress_timeout_seconds: DEFAULT_NO_PROGRESS_TIMEOUT_SECONDS,
            absolute_transfer_max_seconds: None,
            max_active_transfers_per_tenant: 128,
            max_active_transfers_per_project: 64,
            max_active_transfers_per_process: 32,
            max_provider_leases_per_node: 64,
            max_receiver_leases_per_node: 64,
            max_transfer_creations_per_tenant_node_minute: 120,
            max_partial_bytes_per_node_project: 68719476736,
            direct_path_deadline_ms: 20000,
            direct_path_grace_period_ms: 2000,
        }
    }
}

/// The configuration of a deployment that sets nothing.
pub open spec fn default_configuration() -> CoordinatorArtifactInterchangeConfigurationModel {
    CoordinatorArtifactInterchangeConfigurationModel {
        deployment_mode: ClusterfluxDeploymentMode::SelfHosted,
        relay: IrohRelayConfigurationModel::Disabled,
        artifact_relay_policy: ArtifactRelayPolicy::DirectRequired,
        generation: 1,
        endpoint_advertisement_ttl_seconds: 60,
        transfer_lease_ttl_seconds: 120,
        active_transfer_lease_ttl_seconds: 600,
        no_progress_timeout_seconds: 300,
        absolute_transfer_max_seconds: None,
        max_active_transfers_per_tenant: 128,
        max_active_transfers_per_project: 64,
        max_active_transfers_per_process: 32,
        max_provider_leases_per_node: 64,
        max_receiver_leases_per_node: 64,
        max_transfer_creations_per_tenant_node_minute: 120,
        max_partial_bytes_per_node_project: 68719476736,
        direct_path_deadline_ms: 20000,
        direct_path_grace_period_ms: 2000,
    }
}

/// The configuration of a deployment that sets nothing is accepted.
pub proof fn default_configuration_is_accepted(limits: RelayLimits)
    ensures
        configuration_refusal(default_configuration(), limits) is None,
{
}

/// Whether a URL stands among the first `n` relays.
fn stands_before(relays: &Vec<ClusterfluxRelayConfig>, n: usize, url: &String) -> (r: bool)
    requires
        n <= relays@.len(),
    ensures
        r == (exists|j: int| 0 <= j < n && (#[trigger] views(relays@)[j]).url@ == url@),
{
    let mut j: usize = 0;
    while j < n
        invariant
            0 <= j <= n,
            n <= relays@.len(),
            forall|k: int| 0 <= k < j ==> (#[trigger] views(relays@)[k]).url@ != url@,
        decreases n - j,
    {
        if relays[j].url == *url {
            assert(views(relays@)[j as int].url@ == url@);
            return true;
        }
        j = j + 1;
    }
    false
}

impl CoordinatorArtifactInterchangeConfiguration {
    fn is_within_bounds(&self) -> (r: bool)
        ensures
            r == within_bounds(self@),
    {
        let absolute: bool = match self.absolute_transfer_max_seconds {
            Some(most) => most >= self.active_transfer_lease_ttl_seconds && most
                <= MAX_ABSOLUTE_TRANSFER_SECONDS,
            None => true,
        };
        let times: bool = self.generation != 0 && self.endpoint_advertisement_ttl_seconds != 0
            && self.endpoint_advertisement_ttl_seconds <= 600 && self.transfer_lease_ttl_seconds
            != 0 && self.transfer_lease_ttl_seconds <= 900 && self.active_transfer_lease_ttl_seconds
            != 0 && self.active_transfer_lease_ttl_seconds <= MAX_ACTIVE_TRANSFER_LEASE_TTL_SECONDS
            && self.no_progress_timeout_seconds != 0 && self.no_progress_timeout_seconds
            <= MAX_NO_PROGRESS_TIMEOUT_SECONDS && self.no_progress_timeout_seconds
            >= self.active_transfer_lease_ttl_seconds / 4;
        let counts: bool = self.max_active_transfers_per_tenant != 0
            && self.max_active_transfers_per_tenant <= MAX_INTERCHANGE_TRANSFERS
            && self.max_active_transfers_per_project != 0 && self.max_active_transfers_per_project
            <= MAX_INTERCHANGE_TRANSFERS && self.max_active_transfers_per_process != 0
            && self.max_active_transfers_per_process <= MAX_INTERCHANGE_TRANSFERS
            && self.max_provider_leases_per_node != 0 && self.max_provider_leases_per_node
            <= MAX_INTERCHANGE_TRANSFERS && self.max_receiver_leases_per_node != 0
            && self.max_receiver_leases_per_node <= MAX_INTERCHANGE_TRANSFERS
            && self.max_transfer_creations_per_tenant_node_minute != 0
            && self.max_transfer_creations_per_tenant_node_minute
            <= MAX_TRANSFER_CREATIONS_PER_TENANT_NODE_MINUTE;
        times && absolute && counts && self.max_partial_bytes_per_node_project != 0
            && self.max_partial_bytes_per_node_project <= MAX_PARTIAL_BYTES_PER_NODE_PROJECT
            && self.direct_path_deadline_ms != 0 && self.direct_path_deadline_ms
            <= MAX_DIRECT_PATH_DEADLINE_MS && self.direct_path_grace_period_ms
            <= self.direct_path_deadline_ms
    }

    /// Whether the configuration can be used.
    pub fn validate(&self, limits: RelayLimits) -> (r: Result<(), String>)
        ensures
            match configuration_refusal(self@, limits) {
                Some(text) => r is Err && r->Err_0@ == text,
                None => r is Ok,
            },
    {
        if !self.is_within_bounds() {
            return Err(
                "artifact interchange policy contains an invalid generation or bound".to_owned(),
            );
        }
        let disabled: bool = matches!(self.relay, IrohRelayConfiguration::Disabled);
        if self.deployment_mode == ClusterfluxDeploymentMode::HostedPublic {
            if self.artifact_relay_policy != ArtifactRelayPolicy::DirectRequired {
                return Err("hosted public artifact transfers must require direct paths".to_owned());
            }
            if disabled {
                return Err(
                    "hosted public NAT traversal requires a Clusterflux assist relay".to_owned(),
                );
            }
        }
        if self.deployment_mode == ClusterfluxDeploymentMode::LocalOffline && !disabled {
            return Err("local/offline artifact interchange must disable relays".to_owned());
        }
        if disabled && self.artifact_relay_policy == ArtifactRelayPolicy::RelayFallbackAllowed {
            return Err(
                "artifact relay fallback cannot be enabled without a configured relay".to_owned(),
            );
        }
        match &self.relay {
            IrohRelayConfiguration::Disabled => Ok(()),
            IrohRelayConfiguration::Custom(relays) => {
                let ghost seen = views(relays@);
                assert(self@.relay == IrohRelayConfigurationModel::Custom(seen));
                if relays.len() == 0 || relays.len() > limits.max_endpoint_relay_urls {
                    return Err("artifact interchange relay list is empty or too large".to_owned());
                }
                let mut i: usize = 0;
                while i < relays.len()
                    invariant
                        0 <= i <= relays@.len(),
                        seen == views(relays@),
                        self@.relay == IrohRelayConfigurationModel::Custom(seen),
                        self@.deployment_mode == self.deployment_mode,
                        0 < relays@.len() <= limits.max_endpoint_relay_urls,
                        within_bounds(self@),
                        configuration_refusal(self@, limits) matches Some(text) ==> text
                            == "artifact interchange relay URL is invalid or duplicated"@,
                        (exists|k: int|
                            0 <= k < seen.len() && #[trigger] relay_refused(
                                seen,
                                self@.deployment_mode,
                                limits.max_relay_url_bytes,
                                k,
                            )) ==> configuration_refusal(self@, limits) is Some,
                        configuration_refusal(self@, limits) is Some ==> exists|k: int|
                            0 <= k < seen.len() && #[trigger] relay_refused(
                                seen,
                                self@.deployment_mode,
                                limits.max_relay_url_bytes,
                                k,
                            ),
                        forall|k: int|
                            0 <= k < i ==> !#[trigger] relay_refused(
                                seen,
                                self@.deployment_mode,
                                limits.max_relay_url_bytes,
                                k,
                            ),
                    decreases relays@.len() - i,
                {
                    let url: &String = &relays[i].url;
                    assert(seen[i as int].url@ == url@);
                    let length: usize = text_len(url.as_str());
                    proof {
                        crate::text::lemma_byte_len(url@);
                    }
                    if length == 0 || length > limits.max_relay_url_bytes
                        || relay_url_is_forbidden_or_invalid(url.as_str(), self.deployment_mode)
                        || stands_before(relays, i, url) {
                        assert(relay_refused(
                            seen,
                            self@.deployment_mode,
                            limits.max_relay_url_bytes,
                            i as int,
                        ));
                        return Err(
                            "artifact interchange relay URL is invalid or duplicated".to_owned(),
                        );
                    }
                    i = i + 1;
                }
                Ok(())
            },
        }
    }

    /// What a node is told of the configuration.
    pub fn node_policy(&self) -> (r: ArtifactDataPlanePolicy)
        ensures
            r@ == policy_of(self@),
    {
        ArtifactDataPlanePolicy {
            relay: self.relay.duplicate(),
            artifact_relay_policy: self.artifact_relay_policy,
            generation: self.generation,
            endpoint_advertisement_ttl_seconds: self.endpoint_advertisement_ttl_seconds,
            direct_path_deadline_ms: self.direct_path_deadline_ms,
            direct_path_grace_period_ms: self.direct_path_grace_period_ms,
        }
    }
}

} // verus!
