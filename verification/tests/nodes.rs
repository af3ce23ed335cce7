use clusterflux_coordinator::coordinator::EnrollmentGrant;
use clusterflux_coordinator::duplicate::TextList;
use clusterflux_coordinator::ids::NodeScopeKey;
use clusterflux_coordinator::keys::enrollment_grant_key;
use clusterflux_coordinator::node_registry::{
    IrohEndpointAdvertisement, NodeCapabilities, NodeDescriptor, NodeLifecycleState,
    NodeRegistry, SourceSnapshotAdmissionError,
};
use clusterflux_coordinator::ordered_set::OrderedSet;

fn text(value: &str) -> String {
    value.to_owned()
}

fn scope(project: &str, node: &str) -> NodeScopeKey {
    NodeScopeKey::new(text("tenant"), text(project), text(node))
}

fn descriptor(project: &str, node: &str) -> NodeDescriptor {
    NodeDescriptor {
        id: text(node),
        tenant: text("tenant"),
        project: text(project),
        online: false,
        capabilities: NodeCapabilities {
            execution_only: false,
            linux: true,
            arch: text("x86_64"),
            container_backend: false,
            rootless_podman: false,
            system_bundles: Vec::new(),
        },
        source_snapshots: OrderedSet::new(),
        artifact_locations: OrderedSet::new(),
    }
}

fn registry() -> NodeRegistry {
    let mut registry = NodeRegistry::new();
    for (project, node, seen) in
        [("project", "early", 10), ("project", "late", 90), ("other", "late", 50)]
    {
        registry.record_descriptor(scope(project, node), descriptor(project, node));
        registry.mark_seen(&scope(project, node), seen);
    }
    registry
}

#[test]
fn nodes_are_live_while_they_were_seen_lately() {
    let registry = registry();
    assert_eq!(registry.reported_count(), 3);
    assert_eq!(registry.descriptor_count_for_project(&text("tenant"), &text("project")), 2);
    assert!(registry.contains_node(&scope("project", "early")));
    assert!(!registry.contains_node(&scope("other", "early")));
    assert!(registry.is_live(&scope("project", "late"), 100, 30));
    assert!(registry.is_live(&scope("project", "late"), 120, 30));
    assert!(!registry.is_live(&scope("project", "late"), 121, 30));
    assert_eq!(registry.live_count(100, 50), 2);
    let online: Vec<bool> =
        registry.live_descriptors(100, 50).iter().map(|node| node.online).collect();
    assert_eq!(online, vec![true, false, true]);
}

#[test]
fn a_node_that_drains_takes_no_work() {
    let mut registry = registry();
    let late = scope("project", "late");
    assert!(registry.drain_status(&late).is_none());
    assert_eq!(registry.drain_status_or_active(&late).state, NodeLifecycleState::Active);
    registry.begin_drain(&late, false, Some(500), Some(300), None);
    let status = registry.drain_status(&late).unwrap();
    assert_eq!(status.state, NodeLifecycleState::Draining);
    assert_eq!(status.provider_deadline_epoch_seconds, Some(500));
    assert_eq!(status.hard_drain_deadline_epoch_seconds, Some(500));
    assert_eq!(status.soft_drain_deadline_epoch_seconds, Some(300));
    registry.begin_drain(&late, true, Some(500), None, Some(400));
    let status = registry.drain_status(&late).unwrap();
    assert!(status.ephemeral);
    assert_eq!(status.provider_deadline_epoch_seconds, Some(400));
    assert_eq!(status.soft_drain_deadline_epoch_seconds, Some(300));
    assert!(!registry.accepts_new_work(&late));
    assert_eq!(registry.drain_scopes().len(), 1);
    let online: Vec<bool> =
        registry.live_descriptors(100, 50).iter().map(|node| node.online).collect();
    assert_eq!(online, vec![true, false, false]);
}

#[test]
fn a_released_node_is_offline_and_has_no_endpoint() {
    let mut registry = registry();
    let late = scope("project", "late");
    assert!(registry
        .register_advertisement(
            scope("project", "late"),
            IrohEndpointAdvertisement {
                tenant: text("tenant"),
                project: text("project"),
                node: text("late"),
                endpoint_id: text("endpoint"),
                generation: 1,
                relay_configuration_generation: 1,
                expires_at: 150,
                direct_addresses: TextList::empty(),
                relay_urls: TextList::empty(),
            },
        )
        .is_ok());
    assert!(registry.has_active_advertisement(&late, 149));
    assert!(!registry.has_active_advertisement(&late, 150));
    registry.mark_released(&late);
    assert!(!registry.has_active_advertisement(&late, 100));
    assert!(!registry.descriptor(&late).unwrap().online);
}

#[test]
fn a_node_keeps_so_many_snapshots() {
    let mut registry = registry();
    let late = scope("project", "late");
    assert!(registry.record_source_snapshot(&late, text("sha256:1"), 1).is_ok());
    assert!(registry.record_source_snapshot(&late, text("sha256:1"), 1).is_ok());
    assert!(matches!(
        registry.record_source_snapshot(&late, text("sha256:2"), 1),
        Err(SourceSnapshotAdmissionError::Capacity)
    ));
    assert!(matches!(
        registry.record_source_snapshot(&scope("project", "gone"), text("sha256:1"), 1),
        Err(SourceSnapshotAdmissionError::MissingDescriptor)
    ));
}

fn grant(id: &str, expires_at_epoch_seconds: u64, consumed: bool) -> EnrollmentGrant {
    EnrollmentGrant {
        tenant: text("tenant"),
        project: text("project"),
        grant_id: text(id),
        scope: text("node:attach"),
        expires_at_epoch_seconds,
        consumed,
    }
}

#[test]
fn grants_are_exchanged_once() {
    let mut registry = registry();
    let key = |id: &str| enrollment_grant_key(&text("tenant"), &text("project"), id);
    registry.insert_enrollment_grant(key("spent"), grant("spent", 200, true));
    registry.insert_enrollment_grant(key("old"), grant("old", 99, false));
    registry.insert_enrollment_grant(key("good"), grant("good", 100, false));
    assert_eq!(registry.enrollment_grant_count(&text("tenant"), &text("project")), 3);
    registry.prune_enrollment_grants(100);
    assert_eq!(registry.enrollment_grant_count(&text("tenant"), &text("project")), 1);
    let failed: Result<Option<u8>, String> = registry.exchange_enrollment_grant(
        &key("good"),
        grant("good", 100, false),
        Err(text("wrong scope")),
    );
    assert_eq!(failed, Err(text("wrong scope")));
    assert_eq!(registry.enrollment_grant_count(&text("tenant"), &text("project")), 1);
    let exchanged: Result<Option<u8>, String> =
        registry.exchange_enrollment_grant(&key("good"), grant("good", 100, true), Ok(1));
    assert_eq!(exchanged, Ok(Some(1)));
    let again: Result<Option<u8>, String> =
        registry.exchange_enrollment_grant(&key("good"), grant("good", 100, true), Ok(1));
    assert_eq!(again, Ok(None));
}
