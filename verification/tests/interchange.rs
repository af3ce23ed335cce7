use clusterflux_coordinator::artifact_registry::{
    ArtifactFlush, ArtifactHoldReason, DownloadError, StorageLocation,
};
use clusterflux_coordinator::configuration::{
    CoordinatorAdmission, CoordinatorMainRuntimeConfiguration,
    CoordinatorServiceStartupConfiguration, MainRuntimeCeilings,
};
use clusterflux_coordinator::coordinator::{Authorization, Coordinator};
use clusterflux_coordinator::duplicate::TextList;
use clusterflux_coordinator::durable::InMemoryDurableStore;
use clusterflux_coordinator::ids::{Actor, AuthContext, NodeScopeKey};
use clusterflux_coordinator::interchange::{TransferAnswer, TransferTokens};
use clusterflux_coordinator::interchange_configuration::{
    ClusterfluxRelayConfig, CoordinatorArtifactInterchangeConfiguration, IrohRelayConfiguration,
    RelayLimits,
};
use clusterflux_coordinator::interchange_registry::TransferReport;
use clusterflux_coordinator::node_registry::{
    EndpointAdvertisementError, IrohEndpointAdvertisement, NodeCapabilities, NodeDescriptor,
    NodeRegistry,
};
use clusterflux_coordinator::ordered_set::OrderedSet;
use clusterflux_coordinator::service::CoordinatorService;
use clusterflux_coordinator::service_error::CoordinatorServiceError;
use clusterflux_coordinator::transfer::{
    ArtifactAssignmentRole, ArtifactAssignmentState, ArtifactTransferErrorCode,
    ArtifactTransferPhase, ArtifactTransferState, ClusterfluxPathKind, TransferRules,
};

const NOW: u64 = 1_000;

fn allowed() -> Authorization {
    Authorization { allowed: true, reason: text("") }
}

fn text(value: &str) -> String {
    value.to_owned()
}

fn scope(node: &str) -> NodeScopeKey {
    NodeScopeKey::new(text("tenant"), text("project"), text(node))
}

fn descriptor(node: &str) -> NodeDescriptor {
    NodeDescriptor {
        id: text(node),
        tenant: text("tenant"),
        project: text("project"),
        online: true,
        capabilities: NodeCapabilities {
            execution_only: false,
            linux: true,
            arch: text("x86_64"),
            container_backend: false,
            rootless_podman: false,
            system_bundles: Vec::new(),
        },
        source_snapshots: OrderedSet::new(),
        artifact_locations: OrderedSet::new(),
    }
}

fn advertisement(node: &str, endpoint: &str, generation: u64) -> IrohEndpointAdvertisement {
    IrohEndpointAdvertisement {
        tenant: text("tenant"),
        project: text("project"),
        node: text(node),
        endpoint_id: text(endpoint),
        generation,
        relay_configuration_generation: 1,
        expires_at: NOW + 50,
        direct_addresses: TextList { items: vec![text("10.0.0.1:1")] },
        relay_urls: TextList::empty(),
    }
}

fn rules() -> TransferRules {
    use_states(&[
        (ArtifactTransferState::SourceSelected, ArtifactTransferState::Connecting),
        (ArtifactTransferState::Connecting, ArtifactTransferState::Transferring),
        (ArtifactTransferState::Transferring, ArtifactTransferState::Transferring),
        (ArtifactTransferState::Transferring, ArtifactTransferState::Verifying),
        (ArtifactTransferState::Verifying, ArtifactTransferState::Completed),
        (ArtifactTransferState::Connecting, ArtifactTransferState::Failed),
    ])
}

fn use_states(permitted: &[(ArtifactTransferState, ArtifactTransferState)]) -> TransferRules {
    TransferRules { permitted: permitted.to_vec(), source_rejecting: Vec::new() }
}

fn service() -> CoordinatorService {
    let limits = CoordinatorMainRuntimeConfiguration::default_for(MainRuntimeCeilings {
        max_mains: 8,
        max_state_bytes: 1_048_576,
    });
    let mut coordinator = Coordinator::boot(&InMemoryDurableStore::default(), 1);
    for node in ["source", "target"] {
        coordinator.enroll_node(
            text("tenant"),
            text("project"),
            text(node),
            text("key"),
            text("node:attach"),
        );
    }
    coordinator.start_process(text("tenant"), text("project"), text("vp"));
    let mut service = match CoordinatorService::new_with_startup_configuration(
        coordinator,
        None,
        CoordinatorAdmission::default(),
        CoordinatorServiceStartupConfiguration::default(),
        limits,
        NOW,
    ) {
        Ok(service) => service,
        Err(_) => panic!("the default configuration is accepted"),
    };
    for (node, endpoint) in [("source", "endpoint-s"), ("target", "endpoint-t")] {
        service.node_registry.record_descriptor(scope(node), descriptor(node));
        service.node_registry.mark_seen(&scope(node), NOW);
        match service.handle_report_iroh_endpoint_advertisement(
            Ok(scope(node)),
            advertisement(node, endpoint, 1),
            Ok(()),
            NOW,
        ) {
            Ok(accepted) => assert_eq!(accepted.endpoint_id, endpoint),
            Err(error) => panic!("{}", error.message("")),
        }
    }
    assert!(service
        .artifact_registry
        .flush_metadata_with_protected_processes(
            ArtifactFlush {
                id: text("artifact"),
                tenant: text("tenant"),
                project: text("project"),
                process: text("vp"),
                producer_task: text("task"),
                retaining_node: text("source"),
                digest: text("sha256:bytes"),
                size: 32,
            },
            &OrderedSet::new(),
            &OrderedSet::new(),
        )
        .is_ok());
    service
}

fn tokens(id: &str) -> TransferTokens {
    TransferTokens {
        local_transfer: Ok(format!("local-{id}")),
        transfer: Ok(text(id)),
        nonce: Ok(format!("nonce-{id}")),
    }
}

fn request(
    service: &mut CoordinatorService,
    id: &str,
    artifact: &str,
) -> Result<TransferAnswer, CoordinatorServiceError> {
    service.handle_request_artifact_interchange(
        Ok(scope("target")),
        Ok(text("vp")),
        Ok(text(artifact)),
        0,
        false,
        &rules(),
        tokens(id),
        NOW,
    )
}

fn report(
    service: &mut CoordinatorService,
    id: &str,
    state: ArtifactTransferState,
    bytes: u64,
    verified: bool,
) -> Result<ArtifactTransferState, CoordinatorServiceError> {
    service
        .handle_report_artifact_interchange(
            Ok(scope("target")),
            text(id),
            TransferReport {
                state,
                bytes_completed: bytes,
                path_kind: ClusterfluxPathKind::Direct,
                failure_code: None,
                verified_digest: if verified { Some(text("sha256:bytes")) } else { None },
                verified_size: if verified { Some(32) } else { None },
            },
            &rules(),
            NOW + 1,
        )
        .map(|accepted| accepted.transfer.state)
}

fn authorized(answer: Result<TransferAnswer, CoordinatorServiceError>) -> TransferAnswer {
    match answer {
        Ok(answer) => answer,
        Err(error) => panic!("{}", error.message("")),
    }
}

#[test]
fn an_artifact_is_transferred_from_the_node_that_retains_it() {
    let mut service = service();
    let answer = authorized(request(&mut service, "transfer-1", "artifact"));
    let authorization = answer.authorization.unwrap();
    assert_eq!(authorization.lease.transfer_id, "transfer-1");
    assert_eq!(authorization.lease.source_node, "source");
    assert_eq!(authorization.lease.destination_node, "target");
    assert_eq!(authorization.lease.size_bytes, 32);
    assert_eq!(authorization.peer.endpoint_id, "endpoint-s");
    assert_eq!(service.interchange_registry.len(), 1);
    assert!(service
        .artifact_registry
        .holds(&text("tenant"), &text("project"), &text("artifact"))
        .iter()
        .any(|hold| matches!(
            &hold.reason,
            ArtifactHoldReason::ActiveTransfer { transfer_id } if transfer_id == "transfer-1"
        )));

    let assignment = match service.handle_poll_artifact_provider_assignment(Ok(scope("source")), NOW)
    {
        Ok(assignment) => assignment,
        Err(_) => panic!("the source is known"),
    };
    assert_eq!(
        assignment.authorization.unwrap().transfer_secret,
        authorization.transfer_secret
    );
    match service.handle_acknowledge_artifact_assignment(
        Ok(scope("source")),
        text("transfer-1"),
        ArtifactAssignmentRole::Provider,
        NOW,
    ) {
        Ok(done) => assert_eq!(done.state, ArtifactAssignmentState::Acknowledged),
        Err(_) => panic!("the assignment is offered"),
    }

    for (state, bytes) in [
        (ArtifactTransferState::Connecting, 0),
        (ArtifactTransferState::Transferring, 16),
    ] {
        assert!(matches!(
            report(&mut service, "transfer-1", state, bytes, false),
            Ok(found) if found == state
        ));
    }
    assert!(matches!(
        report(&mut service, "transfer-1", ArtifactTransferState::Transferring, 8, false),
        Err(CoordinatorServiceError::Protocol(reason))
            if reason == "artifact transfer byte progress is invalid"
    ));
    assert!(report(&mut service, "transfer-1", ArtifactTransferState::Verifying, 32, false).is_ok());
    assert!(matches!(
        report(&mut service, "transfer-1", ArtifactTransferState::Completed, 32, false),
        Err(CoordinatorServiceError::Protocol(reason))
            if reason == "artifact completion lacks exact destination verification proof"
    ));
    assert!(report(&mut service, "transfer-1", ArtifactTransferState::Completed, 32, true).is_ok());
    assert!(service
        .artifact_registry
        .metadata(&text("tenant"), &text("project"), &text("artifact"))
        .unwrap()
        .retaining_nodes
        .contains(&text("target")));
    assert_eq!(service.interchange_registry.metrics(), (32, 0, 0));
    assert!(report(&mut service, "transfer-1", ArtifactTransferState::Failed, 32, false).is_err());
}

#[test]
fn every_transfer_has_a_secret_of_its_own() {
    let mut secrets = Vec::new();
    for id in ["transfer-1", "transfer-2"] {
        let mut service = service();
        let answer = authorized(request(&mut service, id, "artifact"));
        secrets.push(answer.authorization.unwrap().transfer_secret);
    }
    assert_ne!(secrets[0], [0; 32]);
    assert_ne!(secrets[0], secrets[1]);
}

#[test]
fn transfers_of_a_process_that_is_cancelled_end() {
    let mut service = service();
    authorized(request(&mut service, "transfer-1", "artifact"));
    let ended = service.cancel_artifact_interchanges_for_process(
        &text("tenant"),
        &text("project"),
        &text("vp"),
        NOW + 2,
    );
    assert_eq!(ended, 1);
    assert_eq!(
        service
            .interchange_registry
            .transfer(&text("transfer-1"))
            .unwrap()
            .record
            .state,
        ArtifactTransferState::Cancelled
    );
    assert!(matches!(
        report(&mut service, "transfer-1", ArtifactTransferState::Connecting, 0, false),
        Err(CoordinatorServiceError::Transfer(ArtifactTransferErrorCode::TransferCancelled))
    ));
}

#[test]
fn transfers_without_progress_expire_and_are_forgotten() {
    let mut service = service();
    authorized(request(&mut service, "transfer-1", "artifact"));
    service.expire_interchange_state(NOW + 10_000);
    assert!(service
        .interchange_registry
        .transfer(&text("transfer-1"))
        .map_or(true, |transfer| transfer.record.state == ArtifactTransferState::Expired));
    service.expire_interchange_state(NOW + 20_000);
    assert_eq!(service.interchange_registry.len(), 0);
}

#[test]
fn requests_for_what_nobody_has_are_refused() {
    let mut service = service();
    assert!(request(&mut service, "transfer-1", "unknown").is_err());
    service.artifact_registry.garbage_collect_node(
        &text("tenant"),
        &text("project"),
        &text("source"),
    );
    assert!(request(&mut service, "transfer-1", "artifact").is_err());
    assert_eq!(service.interchange_registry.len(), 0);
}

#[test]
fn an_endpoint_belongs_to_one_node() {
    let mut registry = NodeRegistry::new();
    assert!(registry
        .register_advertisement(scope("a"), advertisement("a", "e", 2))
        .is_ok());
    assert!(matches!(
        registry.register_advertisement(scope("b"), advertisement("b", "e", 2)),
        Err(EndpointAdvertisementError::BoundToAnotherScope)
    ));
    assert!(matches!(
        registry.register_advertisement(scope("a"), advertisement("a", "e", 1)),
        Err(EndpointAdvertisementError::StaleGeneration)
    ));
    assert_eq!(registry.endpoint_scope(&text("e")).unwrap().node, "a");
    registry.remove_node(&scope("a"));
    assert!(registry.endpoint_scope(&text("e")).is_none());
    assert!(registry
        .register_advertisement(scope("b"), advertisement("b", "e", 2))
        .is_ok());
    registry.clear_advertisements();
    assert!(registry.advertisement(&scope("b")).is_none());
}

#[test]
fn a_download_needs_a_source_that_is_online() {
    let mut service = service();
    let (tenant, project) = (text("tenant"), text("project"));
    let source = StorageLocation::RetainedNode(text("source"));
    assert!(service
        .ensure_download_source_connectivity(&tenant, &project, &source, NOW)
        .is_ok());
    assert_eq!(
        service.ensure_download_source_connectivity(&tenant, &project, &source, NOW + 100_000),
        Err(DownloadError::DirectConnectivityUnavailable(text(
            "retaining node source is offline for artifact download"
        )))
    );
    assert_eq!(
        service.ensure_download_source_connectivity(
            &tenant,
            &project,
            &StorageLocation::RetainedNode(text("nobody")),
            NOW,
        ),
        Err(DownloadError::DirectConnectivityUnavailable(text(
            "retaining node nobody has not reported online status for artifact download"
        )))
    );
    let user = AuthContext {
        tenant: tenant.clone(),
        project: project.clone(),
        actor: Actor::User(text("user")),
    };
    let link = match service.handle_create_artifact_download_link(
        &user,
        &allowed(),
        &text("artifact"),
        100,
        600,
        60,
        text("sha256:policy"),
        text("sha256:token"),
        NOW,
    ) {
        Ok(link) => link,
        Err(error) => panic!("{}", error.message("")),
    };
    assert_eq!(link.expires_at_epoch_seconds, NOW + 60);
    assert!(service
        .handle_revoke_artifact_download_link(
            &user,
            &allowed(),
            &text("artifact"),
            &text("sha256:token"),
            NOW,
        )
        .is_ok());
}

#[test]
fn endpoints_that_transfer_may_use_the_relay() {
    let mut service = service();
    authorized(request(&mut service, "transfer-1", "artifact"));
    assert!(!service.authorize_relay_endpoint(&text("endpoint-s"), NOW));
    let mut service = self::service();
    let configuration = CoordinatorArtifactInterchangeConfiguration {
        generation: 2,
        relay: IrohRelayConfiguration::Custom(vec![ClusterfluxRelayConfig {
            url: text("https://relay.example.test/"),
            access_token: None,
        }]),
        ..CoordinatorArtifactInterchangeConfiguration::default()
    };
    assert!(service
        .configure_artifact_interchange(
            configuration,
            RelayLimits { max_endpoint_relay_urls: 8, max_relay_url_bytes: 512 },
        )
        .is_ok());
    assert!(!service.artifact_connectivity_facts(&scope("target"), NOW).endpoint_advertised);
    for (node, endpoint) in [("source", "endpoint-s"), ("target", "endpoint-t")] {
        let mut renewed = advertisement(node, endpoint, 2);
        renewed.relay_configuration_generation = 2;
        assert!(service
            .handle_report_iroh_endpoint_advertisement(Ok(scope(node)), renewed, Ok(()), NOW)
            .is_ok());
    }
    assert!(!service.authorize_relay_endpoint(&text("endpoint-s"), NOW));
    authorized(request(&mut service, "transfer-1", "artifact"));
    assert!(service.authorize_relay_endpoint(&text("endpoint-s"), NOW));
    let known = service.authorized_relay_endpoint_scope(&text("endpoint-t"), NOW).unwrap();
    assert_eq!(known.node, "target");
    assert!(!service.authorize_relay_endpoint(&text("endpoint-x"), NOW));
}

#[test]
fn receivers_are_offered_their_transfers() {
    let mut service = service();
    match service.handle_poll_artifact_receiver_assignment(Ok(scope("target")), NOW) {
        Ok(nothing) => assert!(nothing.is_none()),
        Err(error) => panic!("{}", error.message("")),
    }
    authorized(request(&mut service, "transfer-1", "artifact"));
    match service.handle_poll_artifact_receiver_assignment(Ok(scope("target")), NOW) {
        Ok(Some(offered)) => assert_eq!(offered.lease.transfer_id, "transfer-1"),
        _ => panic!("the transfer is offered"),
    }
    assert!(matches!(
        service.handle_poll_artifact_receiver_assignment(Ok(scope("stranger")), NOW),
        Err(CoordinatorServiceError::Coordinator(_))
    ));
    assert!(matches!(
        service.handle_poll_artifact_receiver_assignment(Err(text("bad node")), NOW),
        Err(CoordinatorServiceError::Protocol(reason)) if reason == "bad node"
    ));
}

#[test]
fn connectivity_is_told_from_the_latest_transfer() {
    let mut service = service();
    assert!(service.artifact_connectivity_facts(&scope("target"), NOW).endpoint_advertised);
    assert!(!service.artifact_connectivity_facts(&scope("target"), NOW + 50).endpoint_advertised);
    assert!(service.handle_get_artifact_data_plane_policy(Ok(scope("target"))).is_ok());
    assert!(service.handle_get_artifact_data_plane_policy(Ok(scope("stranger"))).is_err());
    authorized(request(&mut service, "transfer-1", "artifact"));
    assert!(service.artifact_connectivity_facts(&scope("target"), NOW).endpoint_advertised);
}

#[test]
fn a_request_is_renewed_while_its_transfer_runs() {
    let mut service = service();
    let first = authorized(request(&mut service, "transfer-1", "artifact"));
    let again = authorized(request(&mut service, "transfer-2", "artifact"));
    assert_eq!(again.transfer.unwrap().transfer_id, "transfer-1");
    assert_eq!(
        again.authorization.unwrap().transfer_secret,
        first.authorization.unwrap().transfer_secret
    );
    assert_eq!(service.interchange_registry.len(), 1);
}

#[test]
fn an_artifact_is_exported_to_a_node() {
    let mut service = service();
    let context = AuthContext {
        tenant: text("tenant"),
        project: text("project"),
        actor: Actor::User(text("user")),
    };
    let export = |service: &mut CoordinatorService, artifact: &str, node: &str| {
        service.handle_export_artifact_to_node(
            &context,
            &allowed(),
            &text(artifact),
            scope(node),
            &text("export"),
            false,
            &rules(),
            tokens("transfer-1"),
            NOW,
        )
    };
    match export(&mut service, "artifact", "source") {
        Ok(present) => {
            assert!(present.already_present);
            assert_eq!(present.artifact_size_bytes, 32);
        }
        Err(error) => panic!("{}", error.message("")),
    }
    match export(&mut service, "artifact", "target") {
        Ok(started) => {
            assert!(!started.already_present);
            assert_eq!(started.transfer.unwrap().transfer_id, "transfer-1");
        }
        Err(error) => panic!("{}", error.message("")),
    }
    assert!(matches!(
        export(&mut service, "unknown", "target"),
        Err(CoordinatorServiceError::Download(DownloadError::NotFound))
    ));
}

fn active_holds(service: &CoordinatorService) -> usize {
    service
        .artifact_registry
        .holds(&text("tenant"), &text("project"), &text("artifact"))
        .iter()
        .filter(|hold| matches!(&hold.reason, ArtifactHoldReason::ActiveTransfer { .. }))
        .count()
}

#[test]
fn bytes_that_come_by_a_forbidden_path_end_the_transfer_and_its_hold() {
    let mut service = service();
    authorized(request(&mut service, "transfer-1", "artifact"));
    assert_eq!(active_holds(&service), 1);
    assert!(report(&mut service, "transfer-1", ArtifactTransferState::Connecting, 0, false).is_ok());
    let phase =
        service.interchange_registry.transfer(&text("transfer-1")).unwrap().record.phase;
    assert_ne!(phase, ArtifactTransferPhase::Complete);
    let by_relay = service.handle_report_artifact_interchange(
        Ok(scope("target")),
        text("transfer-1"),
        TransferReport {
            state: ArtifactTransferState::Transferring,
            bytes_completed: 16,
            path_kind: ClusterfluxPathKind::Relayed,
            failure_code: None,
            verified_digest: None,
            verified_size: None,
        },
        &rules(),
        NOW + 1,
    );
    assert!(matches!(
        by_relay,
        Err(CoordinatorServiceError::Transfer(ArtifactTransferErrorCode::RelayPathForbidden))
    ));
    let ended = service.interchange_registry.transfer(&text("transfer-1")).unwrap();
    assert_eq!(ended.record.state, ArtifactTransferState::Failed);
    assert_eq!(ended.record.phase, phase);
    assert_eq!(
        ended.record.failure_code,
        Some(ArtifactTransferErrorCode::RelayPathForbidden)
    );
    assert_eq!(active_holds(&service), 0);
}

#[test]
fn transfers_of_a_node_that_fails_hand_out_their_holds() {
    let mut service = service();
    authorized(request(&mut service, "transfer-1", "artifact"));
    let released = service.interchange_registry.fail_node(&scope("source"), NOW + 1);
    assert_eq!(released.len(), 1);
    assert_eq!(released[0].artifact, "artifact");
    assert!(matches!(
        &released[0].reason,
        ArtifactHoldReason::ActiveTransfer { transfer_id } if transfer_id == "transfer-1"
    ));
    assert_eq!(
        service
            .interchange_registry
            .transfer(&text("transfer-1"))
            .unwrap()
            .record
            .failure_code,
        Some(ArtifactTransferErrorCode::SourceNodeOffline)
    );
    assert!(service.interchange_registry.fail_node(&scope("source"), NOW + 1).is_empty());
}

#[test]
fn transfers_that_end_let_go_of_their_artifact() {
    let mut service = service();
    assert_eq!(active_holds(&service), 0);
    authorized(request(&mut service, "transfer-1", "artifact"));
    assert_eq!(active_holds(&service), 1);
    service.expire_interchange_state(NOW + 10_000);
    assert_eq!(active_holds(&service), 0);
    let mut service = self::service();
    authorized(request(&mut service, "transfer-1", "artifact"));
    service.cancel_artifact_interchanges_for_process(
        &text("tenant"),
        &text("project"),
        &text("vp"),
        NOW + 2,
    );
    assert_eq!(active_holds(&service), 0);
}
