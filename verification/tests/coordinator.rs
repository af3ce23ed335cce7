use clusterflux_coordinator::coordinator::{Coordinator, CoordinatorError, NodeCredential};
use clusterflux_coordinator::durable::{
    CliSessionRecord, CredentialKind, DurableStore, InMemoryDurableStore,
    TenantQuotaOverrideValues,
};
use clusterflux_coordinator::ids::{Actor, AuthContext, NodeScopeKey};

fn text(value: &str) -> String {
    value.to_owned()
}

fn digest(seed: &str) -> String {
    let mut hex = String::new();
    for i in 0..32 {
        let byte = seed.bytes().fold(i as u8, |a, b| a.wrapping_mul(31).wrapping_add(b));
        hex.push_str(&format!("{byte:02x}"));
    }
    format!("sha256:{hex}")
}

fn context(tenant: &str, project: &str, user: &str) -> AuthContext {
    AuthContext {
        tenant: text(tenant),
        project: text(project),
        actor: Actor::User(text(user)),
    }
}

fn credential(tenant: &str, project: &str, key: &str) -> NodeCredential {
    NodeCredential {
        tenant: text(tenant),
        project: text(project),
        scope: text("node:attach"),
        credential_kind: CredentialKind::NodeCredential,
        public_key_fingerprint: digest(key),
    }
}

fn subject(tenant: &str, project: &str, node: &str) -> String {
    NodeScopeKey::from_refs(&text(tenant), &text(project), &text(node)).credential_subject()
}

#[test]
fn coordinator_restart_preserves_project_but_not_live_processes() {
    let mut store = InMemoryDurableStore::default();
    let mut first = Coordinator::boot(&store, 1);
    first.upsert_tenant(text("tenant"));
    first.upsert_user(text("tenant"), text("user"), CredentialKind::CliDeviceSession);
    first.upsert_project(text("tenant"), text("project"), text("demo"));
    first.upsert_source_provider_config(
        text("tenant"),
        text("project"),
        text("Git"),
        digest("git-manifest"),
    );
    first.upsert_service_policy_record(text("tenant"), text("community tier"), digest("policy"));
    let grant = first.create_node_enrollment_grant(
        text("tenant"),
        text("project"),
        text("grant"),
        text("node:attach"),
        100,
    );
    assert_eq!(grant.expires_at_epoch_seconds, 100);
    assert!(!grant.consumed);
    first
        .exchange_node_enrollment_grant(
            Ok(credential("tenant", "project", "public-key")),
            text("node"),
            text("public-key"),
        )
        .unwrap();
    first.start_process(text("tenant"), text("project"), text("process"));
    first.persist(&mut store);

    let mut restarted = Coordinator::boot(&store, 2);

    assert!(restarted.durable_state().tenants.contains_key(&text("tenant")));
    assert!(restarted.durable_state().users.contains_key(&text("user")));
    assert!(restarted.project(&text("project")).is_some());
    assert!(restarted
        .node_identity(&text("tenant"), &text("project"), &text("node"))
        .is_some());
    let node_subject = subject("tenant", "project", "node");
    assert_eq!(
        restarted
            .durable_state()
            .credentials
            .get(&node_subject)
            .map(|credential| &credential.kind),
        Some(&CredentialKind::NodeCredential)
    );
    assert!(restarted
        .source_provider_config(&text("tenant"), &text("project"), "Git")
        .is_some());
    assert!(restarted
        .service_policy_record(&text("tenant"), "community tier")
        .is_some());
    assert_eq!(restarted.active_process_count(), 0);

    let process = text("process-rerun");
    let rerun = restarted.start_process(text("tenant"), text("project"), process.clone());
    assert_eq!(rerun.coordinator_epoch, 2);
    restarted
        .reconnect_node(
            &text("tenant"),
            &text("project"),
            &text("node"),
            Some((&process, 2)),
        )
        .unwrap();
    assert!(restarted
        .active_process(&text("tenant"), &text("project"), &process)
        .unwrap()
        .connected_nodes
        .contains(&text("node")));
}

#[test]
fn duplicate_node_ids_use_distinct_durable_identities_and_credential_subjects() {
    let store = InMemoryDurableStore::default();
    let mut coordinator = Coordinator::boot(&store, 1);
    let scopes = [
        ("tenant-a", "project-a"),
        ("tenant-b", "project-b"),
        ("tenant-a", "project-c"),
    ];
    for (index, (tenant, project)) in scopes.iter().enumerate() {
        let key = format!("public-key-{index}");
        coordinator
            .exchange_node_enrollment_grant(
                Ok(credential(tenant, project, &key)),
                text("shared-node"),
                key,
            )
            .unwrap();
    }
    let subject_a = subject("tenant-a", "project-a", "shared-node");
    let subject_b = subject("tenant-b", "project-b", "shared-node");
    let subject_c = subject("tenant-a", "project-c", "shared-node");
    assert_ne!(subject_a, subject_b);
    assert_ne!(subject_a, subject_c);
    for (index, (tenant, project)) in scopes.iter().enumerate() {
        let scope =
            NodeScopeKey::from_refs(&text(tenant), &text(project), &text("shared-node"));
        let by_scope = coordinator.durable_state().node_identities.get(&scope).unwrap();
        let identity = coordinator
            .node_identity(&scope.tenant, &scope.project, &scope.node)
            .unwrap();
        assert_eq!(identity.tenant, by_scope.tenant);
        assert_eq!(identity.project, by_scope.project);
        assert_eq!(identity.public_key, format!("public-key-{index}"));
    }
    assert!(coordinator.durable_state().credentials.contains_key(&subject_a));
    assert!(coordinator.durable_state().credentials.contains_key(&subject_b));
    assert!(coordinator.durable_state().credentials.contains_key(&subject_c));
    assert_eq!(coordinator.durable_state().node_identities.len(), 3);
    assert_eq!(coordinator.durable_state().credentials.len(), 3);
}

#[test]
fn identical_process_ids_are_isolated_by_tenant_and_project() {
    let store = InMemoryDurableStore::default();
    let mut coordinator = Coordinator::boot(&store, 1);
    let process = text("vp-current");
    let tenant_a = text("tenant-a");
    let project_a = text("project-a");
    let tenant_b = text("tenant-b");
    let project_b = text("project-b");

    coordinator.start_process(tenant_a.clone(), project_a.clone(), process.clone());
    coordinator.start_process(tenant_b.clone(), project_b.clone(), process.clone());

    assert_eq!(coordinator.active_process_count(), 2);
    assert!(coordinator.active_process(&tenant_a, &project_a, &process).is_some());
    assert!(coordinator.active_process(&tenant_b, &project_b, &process).is_some());
    assert!(coordinator.abort_process(&tenant_a, &project_a, &process).is_ok());
    assert!(coordinator.active_process(&tenant_a, &project_a, &process).is_none());
    assert!(coordinator.active_process(&tenant_b, &project_b, &process).is_some());
}

#[test]
fn node_reconnect_rejects_stale_process_epoch_after_restart() {
    let mut store = InMemoryDurableStore::default();
    let mut first = Coordinator::boot(&store, 1);
    first.upsert_tenant(text("tenant"));
    first.upsert_project(text("tenant"), text("project"), text("demo"));
    first.enroll_node(
        text("tenant"),
        text("project"),
        text("node"),
        text("public-key"),
        text("node"),
    );
    first.persist(&mut store);

    let mut restarted = Coordinator::boot(&store, 2);
    restarted
        .reconnect_node(&text("tenant"), &text("project"), &text("node"), None)
        .unwrap();

    let error = restarted
        .reconnect_node(
            &text("tenant"),
            &text("project"),
            &text("node"),
            Some((&text("process"), 1)),
        )
        .unwrap_err();

    assert!(matches!(
        error,
        CoordinatorError::StaleProcessEpoch { stale_epoch: 1, current_epoch: 2 }
    ));
}

#[test]
fn node_enrollment_grant_becomes_persistent_node_identity() {
    let store = InMemoryDurableStore::default();
    let mut coordinator = Coordinator::boot(&store, 1);
    let credential = coordinator
        .exchange_node_enrollment_grant(
            Ok(credential("tenant", "project", "public-key")),
            text("node"),
            text("public-key"),
        )
        .unwrap();

    assert_eq!(credential.credential_kind, CredentialKind::NodeCredential);
    assert!(coordinator
        .node_identity(&text("tenant"), &text("project"), &text("node"))
        .is_some());
}

#[test]
fn node_credential_revocation_is_project_scoped_and_removes_identity() {
    let store = InMemoryDurableStore::default();
    let mut coordinator = Coordinator::boot(&store, 1);
    coordinator
        .exchange_node_enrollment_grant(
            Ok(credential("tenant", "project", "public-key")),
            text("node"),
            text("public-key"),
        )
        .unwrap();
    let node_subject = subject("tenant", "project", "node");
    assert!(coordinator.durable_state().credentials.contains_key(&node_subject));
    coordinator.start_process(text("tenant"), text("project"), text("process"));
    coordinator
        .reconnect_node(
            &text("tenant"),
            &text("project"),
            &text("node"),
            Some((&text("process"), 1)),
        )
        .unwrap();

    let foreign =
        coordinator.revoke_node_credential(&context("other", "project", "user"), &text("node"));
    assert!(matches!(foreign, Err(CoordinatorError::UnknownNode)));

    let revoked = match coordinator
        .revoke_node_credential(&context("tenant", "project", "user"), &text("node"))
    {
        Ok(revoked) => revoked,
        Err(_) => panic!("the node is known"),
    };
    assert_eq!(revoked.id, "node");
    assert!(coordinator
        .node_identity(&text("tenant"), &text("project"), &text("node"))
        .is_none());
    assert!(!coordinator.durable_state().credentials.contains_key(&node_subject));
    assert!(!coordinator
        .active_process(&text("tenant"), &text("project"), &text("process"))
        .unwrap()
        .connected_nodes
        .contains(&text("node")));
}

#[test]
fn project_listing_is_filtered_by_tenant() {
    let store = InMemoryDurableStore::default();
    let mut coordinator = Coordinator::boot(&store, 1);
    coordinator.upsert_project(text("tenant-a"), text("project-a"), text("a"));
    coordinator.upsert_project(text("tenant-b"), text("project-b"), text("b"));

    let projects = coordinator.list_projects(&context("tenant-a", "project-a", "user-a"));

    assert_eq!(projects.len(), 1);
    assert_eq!(projects[0].id, "project-a");
}

#[test]
fn tenant_suspension_is_durable_admin_policy_state() {
    let mut store = InMemoryDurableStore::default();
    let mut coordinator = Coordinator::boot(&store, 1);
    let parts = Coordinator::suspension_digest_parts(&text("tenant"), &text("admin-user"));
    assert_eq!(parts.items, vec!["tenant-suspension:v1", "tenant", "admin-user"]);
    let record = coordinator.suspend_tenant(text("tenant"), digest("suspension"));

    assert_eq!(record.tenant, "tenant");
    assert_eq!(record.name, "tenant:suspended");
    assert!(coordinator.tenant_suspended(&text("tenant")));
    assert!(coordinator
        .ensure_tenant_active(&text("tenant"))
        .unwrap_err()
        .message()
        .contains("suspended"));

    coordinator.persist(&mut store);
    let restarted = Coordinator::boot(&store, 2);
    assert!(restarted.tenant_suspended(&text("tenant")));
}

#[test]
fn account_policy_state_summarizes_sensitive_admin_records_safely() {
    let tenant = text("tenant");
    let mut coordinator = Coordinator::boot(&InMemoryDurableStore::default(), 1);

    let active = coordinator.account_policy_state(&tenant);
    assert_eq!(active.account_status, "active");
    assert!(active.sanitized_reason.is_none());
    assert!(active.next_actions.items.is_empty());

    coordinator.upsert_service_policy_record(
        tenant.clone(),
        text("tenant:manual_review"),
        digest("manual-review"),
    );
    let manual_review = coordinator.account_policy_state(&tenant);
    assert_eq!(manual_review.account_status, "manual_review");
    assert!(manual_review.manual_review);
    assert_eq!(
        manual_review.sanitized_reason.as_deref(),
        Some("account or tenant is pending hosted review")
    );

    coordinator.upsert_service_policy_record(
        tenant.clone(),
        text("tenant:disabled"),
        digest("disabled"),
    );
    let disabled = coordinator.account_policy_state(&tenant);
    assert_eq!(disabled.account_status, "disabled");
    assert!(disabled.disabled);
    assert!(disabled.manual_review);
    assert_eq!(
        disabled.sanitized_reason.as_deref(),
        Some("account or tenant is disabled by hosted policy")
    );

    coordinator.upsert_service_policy_record(
        tenant.clone(),
        text("tenant:deleted"),
        digest("deleted"),
    );
    let deleted = coordinator.account_policy_state(&tenant);
    assert_eq!(deleted.account_status, "deleted");
    assert!(deleted.deleted);
    assert!(deleted.disabled);
    assert!(deleted.manual_review);
    assert_eq!(
        deleted.sanitized_reason.as_deref(),
        Some("account or tenant is no longer active")
    );
    assert!(deleted
        .next_actions
        .items
        .iter()
        .any(|action| action.contains("hosted operator")));
}

#[test]
fn hosted_account_and_quota_policy_survive_restart_and_resume_is_reversible() {
    let mut store = InMemoryDurableStore::default();
    let tenant = text("tenant");
    let operator = text("hosted-admin");
    let mut first = Coordinator::boot(&store, 1);
    first.upsert_project(tenant.clone(), text("project"), text("Project"));
    let session = digest("session-secret");
    first.put_cli_session(CliSessionRecord {
        session_digest: session.clone(),
        tenant: tenant.clone(),
        project: text("project"),
        user: text("user"),
        credential_kind: CredentialKind::CliDeviceSession,
        expires_at_epoch_seconds: None,
        revoked: false,
    });
    assert!(first
        .replace_tenant_quota_override(
            tenant.clone(),
            Some(TenantQuotaOverrideValues {
                max_projects: Some(1_000),
                max_nodes: Some(32),
                max_active_processes: Some(8),
            }),
            operator.clone(),
            text("quota_set"),
            10,
        )
        .is_ok());
    first.suspend_tenant(tenant.clone(), digest("suspension"));
    assert_eq!(first.revoke_cli_sessions_for_tenant(&tenant), 1);
    first.record_hosted_admin_audit(
        tenant.clone(),
        text("account_suspend"),
        None,
        None,
        operator.clone(),
        11,
    );
    first.persist(&mut store);

    let mut restarted = Coordinator::boot(&store, 2);
    assert!(restarted.tenant_suspended(&tenant));
    assert_eq!(
        restarted.tenant_quota_override(&tenant).unwrap().values.max_projects,
        Some(1_000)
    );
    assert!(restarted.durable_state().cli_sessions.get(&session).unwrap().revoked);
    assert_eq!(restarted.durable_state().hosted_admin.audit.len(), 2);

    assert!(restarted.resume_tenant(&tenant));
    assert!(!restarted.resume_tenant(&tenant));
    restarted.record_hosted_admin_audit(
        tenant.clone(),
        text("account_resume"),
        None,
        None,
        operator,
        12,
    );
    restarted.persist(&mut store);
    let resumed = Coordinator::boot(&store, 3);
    assert_eq!(resumed.account_policy_state(&tenant).account_status, "active");
    assert!(resumed.durable_state().cli_sessions.get(&session).unwrap().revoked);
    assert!(resumed.project(&text("project")).is_some());
}

#[test]
fn agent_public_keys_are_project_user_scoped_and_restart_durable() {
    let mut store = InMemoryDurableStore::default();
    let mut coordinator = Coordinator::boot(&store, 1);
    coordinator.upsert_tenant(text("tenant"));
    coordinator.upsert_user(text("tenant"), text("user"), CredentialKind::CliDeviceSession);
    coordinator.upsert_project(text("tenant"), text("project"), text("demo"));

    let registered = coordinator.register_agent_public_key(
        text("tenant"),
        text("project"),
        text("user"),
        text("agent-ci"),
        text("agent-key-v1"),
        digest("agent-key-v1"),
    );
    assert_eq!(registered.version, 1);
    assert!(!registered.revoked);
    assert!(!registered.human_account_creation_privilege);
    assert_eq!(registered.scopes.items, vec!["project:read", "project:run"]);

    let rotated = coordinator.register_agent_public_key(
        text("tenant"),
        text("project"),
        text("user"),
        text("agent-ci"),
        text("agent-key-v2"),
        digest("agent-key-v2"),
    );
    assert_eq!(rotated.version, 2);
    assert_eq!(rotated.public_key, "agent-key-v2");

    coordinator.persist(&mut store);
    let mut restarted = Coordinator::boot(&store, 2);
    let owner = context("tenant", "project", "user");
    let listed = restarted.list_agent_public_keys(&owner);
    assert_eq!(listed.len(), 1);
    assert_eq!(listed[0].agent, "agent-ci");
    assert_eq!(listed[0].version, 2);

    assert!(restarted
        .list_agent_public_keys(&context("tenant", "project", "other-user"))
        .is_empty());
    assert!(restarted
        .list_agent_public_keys(&context("tenant", "other-project", "user"))
        .is_empty());

    let revoked = match restarted.revoke_agent_public_key(&owner, &text("agent-ci")) {
        Ok(revoked) => revoked,
        Err(_) => panic!("the owner may revoke the key"),
    };
    assert!(revoked.revoked);
    assert!(!restarted
        .durable_state()
        .credentials
        .contains_key(&text("agent:tenant:project:agent-ci")));
}

#[test]
fn node_cannot_claim_process_outside_authorized_scope() {
    let store = InMemoryDurableStore::default();
    let mut coordinator = Coordinator::boot(&store, 1);
    coordinator.enroll_node(
        text("tenant-a"),
        text("project-a"),
        text("node-a"),
        text("public-key"),
        text("node"),
    );
    coordinator.start_process(text("tenant-b"), text("project-b"), text("process-b"));

    let error = coordinator
        .authorize_node_for_process(
            &text("node-a"),
            &text("tenant-b"),
            &text("project-b"),
            &text("process-b"),
        )
        .unwrap_err();

    assert!(matches!(error, CoordinatorError::UnknownNode));
}

#[test]
fn debug_attach_requires_explicit_project_permission() {
    let store = InMemoryDurableStore::default();
    let mut coordinator = Coordinator::boot(&store, 1);
    coordinator.start_process(text("tenant"), text("project"), text("process"));
    let user = context("tenant", "project", "user");

    let denied = coordinator.authorize_debug_attach(&user, &text("process"));
    coordinator.grant_project_debug(text("tenant"), text("project"), text("user"));
    let allowed = coordinator.authorize_debug_attach(&user, &text("process"));

    assert!(!denied.allowed);
    assert!(denied.reason.contains("explicit project permission"));
    assert!(allowed.allowed);
}

#[test]
fn an_agent_runs_a_project_with_a_fresh_request_and_its_own_key() {
    let mut coordinator = Coordinator::boot(&InMemoryDurableStore::default(), 1);
    coordinator.register_agent_public_key(
        text("tenant"),
        text("project"),
        text("user"),
        text("agent-ci"),
        text("agent-key"),
        digest("agent-key"),
    );
    let run = |coordinator: &Coordinator, agent: &str, key: &str, issued: u64, now: u64| {
        match coordinator.authorize_agent_project_run(
            &text("tenant"),
            &text("project"),
            &text(agent),
            &Some(digest(key)),
            issued,
            now,
            Ok(()),
        ) {
            Ok(record) => Ok(record.agent),
            Err(CoordinatorError::Unauthorized(reason)) => Err(reason),
            Err(_) => panic!("another error"),
        }
    };
    assert_eq!(run(&coordinator, "agent-ci", "agent-key", 1_000, 1_300), Ok(text("agent-ci")));
    assert_eq!(run(&coordinator, "agent-ci", "agent-key", 1_300, 1_000), Ok(text("agent-ci")));
    for (issued, now) in [(1_000, 1_301), (1_301, 1_000)] {
        assert_eq!(
            run(&coordinator, "agent-ci", "agent-key", issued, now),
            Err(text("agent signed request is expired or outside the allowed clock skew"))
        );
    }
    assert_eq!(
        run(&coordinator, "agent-ci", "other-key", 1_000, 1_000),
        Err(text("agent public key fingerprint does not match the registered key"))
    );
    assert_eq!(
        run(&coordinator, "stranger", "agent-key", 1_000, 1_000),
        Err(text("agent public key is not registered for this tenant/project"))
    );
    let owner = context("tenant", "project", "user");
    assert!(coordinator.revoke_agent_public_key(&owner, &text("agent-ci")).is_ok());
    assert_eq!(
        run(&coordinator, "agent-ci", "agent-key", 1_000, 1_000),
        Err(text("agent public key has been revoked"))
    );
}

#[test]
fn processes_are_counted_and_listed_by_their_scope() {
    let mut coordinator = Coordinator::boot(&InMemoryDurableStore::default(), 1);
    coordinator.start_process(text("tenant"), text("b"), text("vp"));
    coordinator.start_process(text("tenant"), text("a"), text("vp"));
    coordinator.start_process(text("other"), text("a"), text("vp-2"));
    assert_eq!(coordinator.active_process_count_for_tenant(&text("tenant")), 2);
    assert_eq!(
        coordinator.active_process_scopes_for_tenant(&text("tenant")),
        vec![(text("a"), text("vp")), (text("b"), text("vp"))]
    );
    assert_eq!(
        coordinator.active_process_for_project(&text("other"), &text("a")).unwrap().id,
        "vp-2"
    );
    assert!(coordinator.active_process_for_project(&text("other"), &text("b")).is_none());
    assert!(coordinator.active_process_exists_outside_scope(&text("tenant"), &text("a"), &text("vp")));
    assert!(!coordinator.active_process_exists_outside_scope(
        &text("other"),
        &text("a"),
        &text("vp-2")
    ));
}

#[test]
fn a_coordinator_is_restored_from_a_loaded_state_without_its_processes() {
    let mut store = InMemoryDurableStore::default();
    let mut first = Coordinator::boot(&store, 1);
    first.upsert_project(text("tenant"), text("project"), text("demo"));
    first.start_process(text("tenant"), text("project"), text("vp"));
    first.persist(&mut store);
    let restored = Coordinator::restored(store.load(), 2);
    assert_eq!(restored.coordinator_epoch(), 2);
    assert_eq!(restored.active_process_count(), 0);
    assert_eq!(restored.durable_state().projects.len(), 1);
    assert_eq!(first.active_process_count(), 1);
}
