use clusterflux_coordinator::interchange_configuration::{
    ClusterfluxRelayConfig, CoordinatorArtifactInterchangeConfiguration, IrohRelayConfiguration,
    RelayLimits,
};
use clusterflux_coordinator::relay::ClusterfluxDeploymentMode;
use clusterflux_coordinator::transfer::ArtifactRelayPolicy;

fn text(value: &str) -> String {
    value.to_owned()
}

fn limits() -> RelayLimits {
    RelayLimits { max_endpoint_relay_urls: 8, max_relay_url_bytes: 512 }
}

fn custom(url: &str, access_token: Option<&str>) -> IrohRelayConfiguration {
    IrohRelayConfiguration::Custom(vec![ClusterfluxRelayConfig {
        url: text(url),
        access_token: access_token.map(text),
    }])
}

fn default() -> CoordinatorArtifactInterchangeConfiguration {
    CoordinatorArtifactInterchangeConfiguration::default()
}

#[test]
fn interchange_configuration_rejects_effectively_unbounded_limits() {
    assert!(default().validate(limits()).is_ok());
    let fields: [fn(&mut CoordinatorArtifactInterchangeConfiguration); 5] = [
        |configuration: &mut CoordinatorArtifactInterchangeConfiguration| {
            configuration.active_transfer_lease_ttl_seconds = u64::MAX;
        },
        |configuration: &mut CoordinatorArtifactInterchangeConfiguration| {
            configuration.no_progress_timeout_seconds = u64::MAX;
        },
        |configuration: &mut CoordinatorArtifactInterchangeConfiguration| {
            configuration.absolute_transfer_max_seconds = Some(u64::MAX);
        },
        |configuration: &mut CoordinatorArtifactInterchangeConfiguration| {
            configuration.max_partial_bytes_per_node_project = u64::MAX;
        },
        |configuration: &mut CoordinatorArtifactInterchangeConfiguration| {
            configuration.direct_path_deadline_ms = u64::MAX;
        },
    ];
    for mutate in fields {
        let mut configuration = default();
        mutate(&mut configuration);
        assert!(configuration.validate(limits()).is_err());
    }

    let configuration = CoordinatorArtifactInterchangeConfiguration {
        max_active_transfers_per_tenant: usize::MAX,
        ..default()
    };
    assert_eq!(
        configuration.validate(limits()).unwrap_err(),
        "artifact interchange policy contains an invalid generation or bound"
    );
}

#[test]
fn hosted_policy_requires_clusterflux_assist_and_direct_artifact_paths() {
    let mut configuration = CoordinatorArtifactInterchangeConfiguration {
        deployment_mode: ClusterfluxDeploymentMode::HostedPublic,
        artifact_relay_policy: ArtifactRelayPolicy::DirectRequired,
        ..default()
    };
    assert_eq!(
        configuration.validate(limits()).unwrap_err(),
        "hosted public NAT traversal requires a Clusterflux assist relay"
    );
    configuration.relay = custom("https://relay.clusterflux.example", None);
    assert!(configuration.validate(limits()).is_ok());
    configuration.artifact_relay_policy = ArtifactRelayPolicy::RelayFallbackAllowed;
    assert_eq!(
        configuration.validate(limits()).unwrap_err(),
        "hosted public artifact transfers must require direct paths"
    );
}

#[test]
fn coordinator_rejects_iroh_public_relay_domains() {
    let configuration = CoordinatorArtifactInterchangeConfiguration {
        relay: custom("https://use1-1.relay.iroh.link", None),
        ..default()
    };
    assert!(configuration.validate(limits()).is_err());
}

#[test]
fn self_hosted_relay_fallback_requires_an_operator_owned_relay() {
    let configuration = CoordinatorArtifactInterchangeConfiguration {
        deployment_mode: ClusterfluxDeploymentMode::SelfHosted,
        relay: custom("https://relay.self-hosted.example", Some("deployment-token")),
        artifact_relay_policy: ArtifactRelayPolicy::RelayFallbackAllowed,
        ..default()
    };
    assert!(configuration.validate(limits()).is_ok());

    let direct_only_without_relay = CoordinatorArtifactInterchangeConfiguration {
        deployment_mode: ClusterfluxDeploymentMode::SelfHosted,
        relay: IrohRelayConfiguration::Disabled,
        artifact_relay_policy: ArtifactRelayPolicy::DirectRequired,
        ..default()
    };
    assert!(direct_only_without_relay.validate(limits()).is_ok());

    let invalid_fallback_without_relay = CoordinatorArtifactInterchangeConfiguration {
        artifact_relay_policy: ArtifactRelayPolicy::RelayFallbackAllowed,
        ..direct_only_without_relay
    };
    assert!(invalid_fallback_without_relay.validate(limits()).is_err());
}

#[test]
fn local_offline_mode_rejects_even_custom_relays() {
    let configuration = CoordinatorArtifactInterchangeConfiguration {
        deployment_mode: ClusterfluxDeploymentMode::LocalOffline,
        relay: custom("http://127.0.0.1:3340", None),
        artifact_relay_policy: ArtifactRelayPolicy::DirectRequired,
        ..default()
    };
    assert!(configuration.validate(limits()).is_err());
}

#[test]
fn nodes_are_told_the_data_plane_part_of_the_configuration() {
    let configuration = CoordinatorArtifactInterchangeConfiguration {
        relay: custom("https://relay.self-hosted.example", Some("deployment-token")),
        generation: 7,
        ..default()
    };
    let policy = configuration.node_policy();
    assert_eq!(policy.generation, 7);
    assert_eq!(policy.endpoint_advertisement_ttl_seconds, 60);
    assert!(matches!(
        policy.relay,
        IrohRelayConfiguration::Custom(relays) if relays.len() == 1
            && relays[0].url == "https://relay.self-hosted.example"
            && relays[0].access_token.as_deref() == Some("deployment-token")
    ));
}
