//! What a deployment sets: each figure is what its own setting says and otherwise its default, the relays are
//! those that are listed, and the policy without relays is to connect directly.
use vstd::prelude::*;

use crate::duplicate::option_view;
use crate::durable_runtime::database_address;
use crate::environment::{DeploymentPolicies, EnvironmentValue, InterchangeEnvironment, SelfHostedSessionEnvironment, callback_read, is_set_configuration, listed, session_names_read, setting_refusal};
use crate::interchange_configuration::{CoordinatorArtifactInterchangeConfigurationModel, IrohRelayConfigurationModel, default_configuration};
use crate::settings_laws::numbers_are_read_as_written;
use crate::text::{decimal, trimmed};
use crate::transfer::ArtifactRelayPolicy;

verus! {

/// A figure is the default where it is not set, and the number that is written otherwise.
pub open spec fn follows(figure: nat, set: EnvironmentValue, default: nat, n: nat) -> bool {
    &&& set is Missing ==> figure == default
    &&& set matches EnvironmentValue::Text(text) ==> (text@ == decimal(n) ==> figure == n)
}

proof fn lemma_follows(name: Seq<char>, default: nat, set: EnvironmentValue, limit: nat, n: nat)
    requires
        n <= limit,
    ensures
        crate::environment::number_set(name, default, set, limit) matches Ok(figure) ==> follows(
            figure,
            set,
            default,
            n,
        ),
        crate::environment::positive_set(name, default, set, limit) matches Ok(figure) ==> follows(
            figure,
            set,
            default,
            n,
        ) && figure > 0,
{
    match set {
        EnvironmentValue::Text(text) => {
            if text@ == decimal(n) {
                numbers_are_read_as_written(name, default, text, limit, n);
            }
        },
        _ => {},
    }
}

/// Each figure of a configuration follows its own setting, and no other.
pub proof fn figures_follow_their_settings(
    found: CoordinatorArtifactInterchangeConfigurationModel,
    set: InterchangeEnvironment,
    policies: DeploymentPolicies,
    n: nat,
)
    requires
        n <= usize::MAX,
        n <= u64::MAX,
        is_set_configuration(found, set, policies),
    ensures
        ({
            let f = set.figures;
            let d = default_configuration();
            &&& follows(found.endpoint_advertisement_ttl_seconds as nat, f.endpoint_advertisement_ttl_seconds, d.endpoint_advertisement_ttl_seconds as nat, n)
            &&& follows(found.transfer_lease_ttl_seconds as nat, f.transfer_lease_ttl_seconds, d.transfer_lease_ttl_seconds as nat, n)
            &&& follows(found.active_transfer_lease_ttl_seconds as nat, f.active_transfer_lease_ttl_seconds, d.active_transfer_lease_ttl_seconds as nat, n)
            &&& follows(found.no_progress_timeout_seconds as nat, f.no_progress_timeout_seconds, d.no_progress_timeout_seconds as nat, n)
            &&& follows(found.max_active_transfers_per_tenant as nat, f.max_active_transfers_per_tenant, d.max_active_transfers_per_tenant as nat, n)
            &&& follows(found.max_active_transfers_per_project as nat, f.max_active_transfers_per_project, d.max_active_transfers_per_project as nat, n)
            &&& follows(found.max_active_transfers_per_process as nat, f.max_active_transfers_per_process, d.max_active_transfers_per_process as nat, n)
            &&& follows(found.max_provider_leases_per_node as nat, f.max_provider_leases_per_node, d.max_provider_leases_per_node as nat, n)
            &&& follows(found.max_receiver_leases_per_node as nat, f.max_receiver_leases_per_node, d.max_receiver_leases_per_node as nat, n)
            &&& follows(found.max_transfer_creations_per_tenant_node_minute as nat, f.max_transfer_creations_per_tenant_node_minute, d.max_transfer_creations_per_tenant_node_minute as nat, n)
            &&& follows(found.max_partial_bytes_per_node_project as nat, f.max_partial_bytes_per_node_project, d.max_partial_bytes_per_node_project as nat, n)
            &&& follows(found.direct_path_deadline_ms as nat, f.direct_path_deadline_ms, d.direct_path_deadline_ms as nat, n)
            &&& follows(found.direct_path_grace_period_ms as nat, f.direct_path_grace_period_ms, d.direct_path_grace_period_ms as nat, n)
            &&& f.absolute_transfer_max_seconds is Missing ==> found.absolute_transfer_max_seconds
                == d.absolute_transfer_max_seconds
        }),
        found.transfer_lease_ttl_seconds > 0,
        found.direct_path_deadline_ms > 0,
        found.no_progress_timeout_seconds > 0,
{
    let f = set.figures;
    let d = default_configuration();
    let wide = u64::MAX as nat;
    lemma_follows("CLUSTERFLUX_ARTIFACT_ENDPOINT_ADVERTISEMENT_TTL_SECONDS"@, d.endpoint_advertisement_ttl_seconds as nat, f.endpoint_advertisement_ttl_seconds, wide, n);
    lemma_follows("CLUSTERFLUX_ARTIFACT_STREAM_TICKET_TTL_SECONDS"@, d.transfer_lease_ttl_seconds as nat, f.transfer_lease_ttl_seconds, wide, n);
    lemma_follows("CLUSTERFLUX_ARTIFACT_ACTIVE_TRANSFER_LEASE_TTL_SECONDS"@, d.active_transfer_lease_ttl_seconds as nat, f.active_transfer_lease_ttl_seconds, wide, n);
    lemma_follows("CLUSTERFLUX_ARTIFACT_NO_PROGRESS_TIMEOUT_SECONDS"@, d.no_progress_timeout_seconds as nat, f.no_progress_timeout_seconds, wide, n);
    lemma_follows("CLUSTERFLUX_ARTIFACT_MAX_ACTIVE_TRANSFERS_PER_TENANT"@, d.max_active_transfers_per_tenant as nat, f.max_active_transfers_per_tenant, usize::MAX as nat, n);
    lemma_follows("CLUSTERFLUX_ARTIFACT_MAX_ACTIVE_TRANSFERS_PER_PROJECT"@, d.max_active_transfers_per_project as nat, f.max_active_transfers_per_project, usize::MAX as nat, n);
    lemma_follows("CLUSTERFLUX_ARTIFACT_MAX_ACTIVE_TRANSFERS_PER_PROCESS"@, d.max_active_transfers_per_process as nat, f.max_active_transfers_per_process, usize::MAX as nat, n);
    lemma_follows("CLUSTERFLUX_ARTIFACT_MAX_PROVIDER_LEASES_PER_NODE"@, d.max_provider_leases_per_node as nat, f.max_provider_leases_per_node, usize::MAX as nat, n);
    lemma_follows("CLUSTERFLUX_ARTIFACT_MAX_RECEIVER_LEASES_PER_NODE"@, d.max_receiver_leases_per_node as nat, f.max_receiver_leases_per_node, usize::MAX as nat, n);
    lemma_follows("CLUSTERFLUX_ARTIFACT_MAX_TRANSFER_CREATIONS_PER_TENANT_NODE_MINUTE"@, d.max_transfer_creations_per_tenant_node_minute as nat, f.max_transfer_creations_per_tenant_node_minute, usize::MAX as nat, n);
    lemma_follows("CLUSTERFLUX_ARTIFACT_MAX_PARTIAL_BYTES_PER_NODE_PROJECT"@, d.max_partial_bytes_per_node_project as nat, f.max_partial_bytes_per_node_project, wide, n);
    lemma_follows("CLUSTERFLUX_ARTIFACT_DIRECT_PATH_DEADLINE_MS"@, d.direct_path_deadline_ms as nat, f.direct_path_deadline_ms, wide, n);
    lemma_follows("CLUSTERFLUX_ARTIFACT_DIRECT_PATH_GRACE_PERIOD_MS"@, d.direct_path_grace_period_ms as nat, f.direct_path_grace_period_ms, wide, n);
}

/// The relays of a configuration are those that are listed, each with the token that is set. Without any,
/// and without a policy that is set, artifacts are to be fetched directly.
pub proof fn relays_are_those_that_are_listed(
    found: CoordinatorArtifactInterchangeConfigurationModel,
    set: InterchangeEnvironment,
    policies: DeploymentPolicies,
)
    requires
        is_set_configuration(found, set, policies),
        setting_refusal(set) is None,
    ensures
        set.relay_urls is Missing ==> found.relay is Disabled,
        set.relay_urls matches EnvironmentValue::Text(text) ==> {
            let urls = listed(text@);
            &&& urls.len() == 0 ==> found.relay is Disabled
            &&& urls.len() > 0 ==> {
                &&& found.relay matches IrohRelayConfigurationModel::Custom(relays)
                &&& relays.len() == urls.len()
                &&& forall|i: int| 0 <= i < urls.len() ==> (#[trigger] relays[i]).url@ == urls[i]
                &&& set.relay_access_token is Missing ==> forall|i: int|
                    0 <= i < urls.len() ==> (#[trigger] relays[i]).access_token is None
                &&& set.relay_access_token matches EnvironmentValue::Text(token) ==> forall|i: int|
                    0 <= i < urls.len() ==> option_view((#[trigger] relays[i]).access_token)
                        == Some(token@)
            }
        },
        set.artifact_relay_policy is Missing && found.relay is Disabled
            ==> found.artifact_relay_policy == ArtifactRelayPolicy::DirectRequired,
        set.artifact_relay_policy matches EnvironmentValue::Text(text) ==> (text@
            == "direct-required"@ <==> found.artifact_relay_policy
            == ArtifactRelayPolicy::DirectRequired),
{
    reveal_strlit("direct-required");
    reveal_strlit("relay-fallback-allowed");
}

/// A setting that is no text is refused.
pub proof fn settings_are_texts(set: InterchangeEnvironment)
    ensures
        set.deployment_mode is NotUnicode ==> setting_refusal(set) is Some,
        set.relay_urls is NotUnicode ==> setting_refusal(set) is Some,
        set.relay_access_token is NotUnicode ==> setting_refusal(set) is Some,
        set.relay_access_token is Text && set.relay_access_token_checked is Err ==> setting_refusal(
            set,
        ) is Some,
{
}

/// A self-hosted session is of the tenant, project and user that are set, and otherwise of the usual ones.
pub proof fn sessions_are_of_who_is_set(set: SelfHostedSessionEnvironment)
    ensures
        ({
            let (tenant, project, user) = session_names_read(set);
            &&& set.tenant is Missing && tenant is Ok ==> tenant->Ok_0 == "tenant"@
            &&& set.project is Missing && project is Ok ==> project->Ok_0 == "project"@
            &&& set.user is Missing && user is Ok ==> user->Ok_0 == "user"@
            &&& set.tenant matches EnvironmentValue::Text(text) ==> (tenant is Ok ==> tenant->Ok_0
                == text@)
            &&& set.project matches EnvironmentValue::Text(text) ==> (project is Ok ==> project->Ok_0
                == text@)
            &&& set.user matches EnvironmentValue::Text(text) ==> (user is Ok ==> user->Ok_0
                == text@)
            &&& tenant is Ok <==> set.tenant !is NotUnicode && set.tenant_checked is Ok
            &&& project is Ok <==> set.project !is NotUnicode && set.project_checked is Ok
            &&& user is Ok <==> set.user !is NotUnicode && set.user_checked is Ok
        }),
{
}

/// What is set to blanks is as if it were not set.
pub proof fn blanks_set_nothing(text: String, url: Seq<char>)
    ensures
        trimmed(text@).len() == 0 ==> callback_read(EnvironmentValue::Text(text)) == callback_read(
            EnvironmentValue::Missing,
        ),
        trimmed(text@).len() > 0 ==> callback_read(EnvironmentValue::Text(text)) == Ok::<
            Option<Seq<char>>,
            Seq<char>,
        >(Some(text@)),
        callback_read(EnvironmentValue::Missing) == Ok::<Option<Seq<char>>, Seq<char>>(None),
        trimmed(url).len() == 0 ==> database_address(Some(url)) == database_address(None),
        database_address(None) is None,
        trimmed(url).len() > 0 ==> database_address(Some(url)) == Some(trimmed(url)),
{
}

} // verus!
