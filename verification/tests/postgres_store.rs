use clusterflux_coordinator::coordinator::Coordinator;
use clusterflux_coordinator::durable::{
    CliSessionRecord, CredentialKind, DurableState, FallibleDurableStore, InMemoryDurableStore,
};
use clusterflux_coordinator::postgres_store::{durable_rows, state_from_rows, PostgresDurableStore};

fn text(value: &str) -> String {
    value.to_owned()
}

#[test]
fn postgres_schema_contains_only_restart_surviving_durable_tables() {
    let names = PostgresDurableStore::durable_tables()
        .iter()
        .map(|table| table.name)
        .collect::<Vec<_>>();

    assert_eq!(names.len(), 12);
    assert!(names.contains(&"clusterflux_tenants"));
    assert!(names.contains(&"clusterflux_users"));
    assert!(names.contains(&"clusterflux_projects"));
    assert!(names.contains(&"clusterflux_node_identities"));
    assert!(names.contains(&"clusterflux_credentials"));
    assert!(names.contains(&"clusterflux_cli_sessions"));
    assert!(names.contains(&"clusterflux_agent_public_keys"));
    assert!(names.contains(&"clusterflux_source_provider_configs"));
    assert!(names.contains(&"clusterflux_service_policy_records"));
    assert!(names.contains(&"clusterflux_project_permissions"));
    assert!(names.contains(&"clusterflux_automation_state"));
    assert!(names.contains(&"clusterflux_hosted_admin_state"));
    assert!(PostgresDurableStore::durable_tables()
        .iter()
        .all(|table| table.restart_surviving));

    for runtime_only in [
        "active_process",
        "virtual_thread",
        "scheduler_state",
        "debug_epoch",
        "vfs_manifest",
        "transient_artifact_location",
    ] {
        assert!(
            !PostgresDurableStore::schema_sql().contains(runtime_only),
            "{runtime_only} must remain outside Postgres durable state"
        );
    }
    for name in names {
        assert!(PostgresDurableStore::schema_sql()
            .contains(&format!("CREATE TABLE IF NOT EXISTS {name} (")));
    }
}

#[test]
fn fallible_store_boot_uses_durable_state_and_still_drops_live_processes() {
    let mut store = InMemoryDurableStore::default();
    let mut first = match Coordinator::try_boot(&mut store, 1) {
        Ok(coordinator) => coordinator,
        Err(reason) => panic!("the store works: {reason}"),
    };
    first.upsert_tenant(text("tenant"));
    first.upsert_user(text("tenant"), text("user"), CredentialKind::CliDeviceSession);
    first.upsert_project(text("tenant"), text("project"), text("demo"));
    first.enroll_node(
        text("tenant"),
        text("project"),
        text("node"),
        text("public-key"),
        text("node:attach"),
    );
    first.upsert_source_provider_config(
        text("tenant"),
        text("project"),
        text("Git"),
        text("sha256:git-manifest"),
    );
    first.start_process(text("tenant"), text("project"), text("process"));
    first.try_persist(&mut store).unwrap();

    let restarted = match Coordinator::try_boot(&mut store, 2) {
        Ok(coordinator) => coordinator,
        Err(reason) => panic!("the store works: {reason}"),
    };

    assert!(restarted.project(&text("project")).is_some());
    assert!(restarted
        .node_identity(&text("tenant"), &text("project"), &text("node"))
        .is_some());
    assert_eq!(restarted.active_process_count(), 0);
}

#[test]
fn rows_of_a_state_make_that_state_again() {
    let mut store = InMemoryDurableStore::default();
    let mut coordinator = Coordinator::boot(&store, 1);
    coordinator.upsert_tenant(text("tenant"));
    coordinator.upsert_user(text("tenant"), text("user"), CredentialKind::CliDeviceSession);
    coordinator.upsert_project(text("tenant"), text("b"), text("B"));
    coordinator.upsert_project(text("tenant"), text("a"), text("A"));
    for node in ["node-2", "node-1"] {
        coordinator.enroll_node(text("tenant"), text("a"), text(node), text("key"), text("scope"));
    }
    coordinator.put_cli_session(CliSessionRecord {
        session_digest: text("sha256:session"),
        tenant: text("tenant"),
        project: text("a"),
        user: text("user"),
        credential_kind: CredentialKind::CliDeviceSession,
        expires_at_epoch_seconds: Some(9),
        revoked: false,
    });
    coordinator.record_hosted_admin_audit(
        text("tenant"),
        text("account_suspend"),
        None,
        None,
        text("admin"),
        3,
    );
    coordinator.persist(&mut store);

    let stored = store.load_state().unwrap();
    let rows = durable_rows(&stored);
    assert_eq!(rows.projects.iter().map(|p| p.id.as_str()).collect::<Vec<_>>(), vec!["a", "b"]);
    assert_eq!(
        rows.node_identities.iter().map(|n| n.id.as_str()).collect::<Vec<_>>(),
        vec!["node-1", "node-2"]
    );
    let loaded = state_from_rows(&rows);
    assert_eq!(loaded.projects.len(), 2);
    assert_eq!(loaded.projects.get(&text("b")).unwrap().name, "B");
    assert_eq!(loaded.node_identities.len(), 2);
    assert_eq!(
        loaded
            .cli_sessions
            .get(&text("sha256:session"))
            .unwrap()
            .expires_at_epoch_seconds,
        Some(9)
    );
    assert_eq!(loaded.hosted_admin.audit.len(), 1);
    assert_eq!(loaded.hosted_admin.next_audit_sequence, 1);
}

#[test]
fn rows_without_the_single_records_make_them_empty() {
    let mut rows = durable_rows(&DurableState::empty());
    rows.automation = None;
    rows.hosted_admin = None;
    let state = state_from_rows(&rows);
    assert!(state.automation.automated_runs.is_empty());
    assert_eq!(state.hosted_admin.next_audit_sequence, 0);
}
