use clusterflux_coordinator::admin::{check_nonce, check_quota_values, ReplayAdmission};
use clusterflux_coordinator::automated_run::{
    AcceptedCommitTriggerRecord, AutomatedRunState, CommitTrigger,
};
use clusterflux_coordinator::configuration::{
    bounded_ttl, CoordinatorAdmission, CoordinatorMainRuntimeConfiguration,
    CoordinatorServiceStartupConfiguration, MainRuntimeCeilings,
};
use clusterflux_coordinator::coordinator::Coordinator;
use clusterflux_coordinator::durable::{
    CliSessionRecord, CredentialKind, InMemoryDurableStore, TenantQuotaOverrideValues,
};
use clusterflux_coordinator::durable_runtime::{store_for_database_url, RuntimeDurableStoreKind};
use clusterflux_coordinator::ordered_map::OrderedMap;
use clusterflux_coordinator::service::{usable_admin_token, CoordinatorService};
use clusterflux_coordinator::service_error::CoordinatorServiceError;
use clusterflux_coordinator::service_status::{AdmissionQuotaLimits, TaskFigures};

fn text(value: &str) -> String {
    value.to_owned()
}

fn ceilings() -> MainRuntimeCeilings {
    MainRuntimeCeilings { max_mains: 8, max_state_bytes: 1_048_576 }
}

fn start(stale_after: u64) -> Result<CoordinatorService, CoordinatorServiceError> {
    CoordinatorService::new_with_startup_configuration(
        Coordinator::boot(&InMemoryDurableStore::default(), 1),
        Some(text("sha256:admin")),
        CoordinatorAdmission::default(),
        CoordinatorServiceStartupConfiguration { node_stale_after_seconds: stale_after },
        CoordinatorMainRuntimeConfiguration::default_for(ceilings()),
        100,
    )
}

fn service() -> CoordinatorService {
    match start(60) {
        Ok(service) => service,
        Err(_) => panic!("the interval is within its bounds"),
    }
}

fn protest<T>(result: Result<T, CoordinatorServiceError>) -> String {
    match result {
        Err(CoordinatorServiceError::Protocol(text)) => text,
        Err(_) => panic!("another error"),
        Ok(_) => panic!("no error"),
    }
}

fn limits() -> AdmissionQuotaLimits {
    AdmissionQuotaLimits { max_projects: 5, max_nodes: 4, max_active_processes: 3 }
}

fn suspended(service: &CoordinatorService, tenant: &str) -> bool {
    let proof = text("sha256:proof");
    match service.handle_admin_status(
        &text(tenant),
        &text("admin"),
        &proof,
        &proof,
        "nonce",
        100,
        100,
        ReplayAdmission::Fresh,
    ) {
        Ok(status) => {
            assert_eq!(status.tenant, tenant);
            assert_eq!(status.actor, "admin");
            assert_eq!(status.safe_default, "read_only");
            status.suspended
        }
        Err(_) => panic!("the request is in order"),
    }
}

#[test]
fn the_service_starts_within_its_bounds() {
    assert!(start(1).is_ok());
    assert!(start(86_400).is_ok());
    for out in [0, 86_401] {
        assert_eq!(
            protest(start(out)),
            "node stale interval must be between 1 and 86400 seconds"
        );
    }
    assert_eq!(usable_admin_token(Some(text(" "))), None);
    assert_eq!(usable_admin_token(Some(text("token"))), Some(text("token")));
    assert_eq!(usable_admin_token(None), None);
}

#[test]
fn limits_of_mains_are_positive_and_within_the_ceilings() {
    let limits = CoordinatorMainRuntimeConfiguration::default_for(ceilings());
    assert!(limits.validate(ceilings(), Ok(())).is_ok());
    assert_eq!(limits.validate(ceilings(), Err(text("no fuel"))), Err(text("no fuel")));
    let mut none = limits;
    none.max_active_mains = 0;
    assert_eq!(
        none.validate(ceilings(), Ok(())),
        Err(text(
            "coordinator main limits are zero or exceed the bounded runtime ceilings (max_active_mains=8)"
        ))
    );
    assert_eq!(bounded_ttl(10, 5), 5);
    assert_eq!(bounded_ttl(3, 5), 3);
}

#[test]
fn suspending_an_account_revokes_its_sessions_and_resuming_does_not_restore_them() {
    let mut service = service();
    service.coordinator.upsert_project(text("tenant"), text("project"), text("demo"));
    let session = |tenant: &str| CliSessionRecord {
        session_digest: format!("sha256:{tenant}"),
        tenant: text(tenant),
        project: text("project"),
        user: text("user"),
        credential_kind: CredentialKind::CliDeviceSession,
        expires_at_epoch_seconds: None,
        revoked: false,
    };
    service.coordinator.put_cli_session(session("tenant"));
    service.coordinator.put_cli_session(session("other"));
    let suspension = match service.suspend_hosted_account(
        text("tenant"),
        text("operator"),
        text("sha256:policy"),
        50,
        50,
    ) {
        Ok(suspension) => suspension,
        Err(_) => panic!("the tenant has no run that is not known"),
    };
    assert_eq!(suspension.audit.action, "account_suspend");
    assert_eq!(suspension.revoked_sessions, 1);
    assert!(suspension.runs.is_empty());
    assert!(suspension.processes.is_empty());
    let answer = service.finish_account_suspension(suspension, limits(), limits());
    assert_eq!(answer.status.account.account_status, "suspended");
    assert_eq!(answer.status.projects_current, 1);
    assert_eq!((answer.revoked_sessions, answer.aborted_processes), (1, 0));
    assert!(suspended(&service, "tenant"));
    assert!(!suspended(&service, "other"));
    assert_eq!(
        service.hosted_account_policy_state(&text("tenant")).account_status,
        "suspended"
    );
    let answer = service.resume_hosted_account(
        text("tenant"),
        text("operator"),
        51,
        limits(),
        limits(),
    );
    assert_eq!(answer.audit.action, "account_resume");
    assert_eq!(answer.audit.sequence, 1);
    assert_eq!(answer.status.account.account_status, "active");
    assert_eq!((answer.revoked_sessions, answer.aborted_processes), (0, 0));
    assert_eq!(service.hosted_account_policy_state(&text("tenant")).account_status, "active");
    let sessions = &service.coordinator.durable_state().cli_sessions;
    assert!(sessions.get(&text("sha256:tenant")).unwrap().revoked);
    assert!(!sessions.get(&text("sha256:other")).unwrap().revoked);
}

#[test]
fn quotas_are_set_within_the_ceiling_and_counted() {
    let mut service = service();
    let values = |max| {
        Some(TenantQuotaOverrideValues {
            max_projects: Some(max),
            max_nodes: None,
            max_active_processes: None,
        })
    };
    assert!(check_quota_values(&values(10), 10).is_ok());
    assert!(check_quota_values(&values(11), 10).is_err());
    assert!(check_quota_values(&values(0), 10).is_err());
    let status = match service.configure_hosted_tenant_quota(
        text("tenant"),
        values(5),
        text("operator"),
        text("quota_set"),
        7,
        10,
        limits(),
        limits(),
    ) {
        Ok(status) => status,
        Err(_) => panic!("the quota is within the ceiling"),
    };
    assert_eq!(status.tenant, "tenant");
    assert_eq!(status.quota_override.unwrap().values.max_projects, Some(5));
    assert_eq!(status.default_quota.max_nodes, 4);
    assert_eq!(status.effective_quota.max_active_processes, 3);
    assert_eq!(
        protest(service.configure_hosted_tenant_quota(
            text("tenant"),
            values(11),
            text("operator"),
            text("quota_set"),
            7,
            10,
            limits(),
            limits(),
        )),
        "max_projects must be positive and no greater than the hosted safety ceiling of 10"
    );
    assert_eq!(
        service
            .coordinator
            .tenant_quota_override(&text("tenant"))
            .unwrap()
            .values
            .max_projects,
        Some(5)
    );
    service.coordinator.upsert_project(text("tenant"), text("project"), text("demo"));
    let status = match service.handle_quota_status(&text("tenant"), &text("project"), limits()) {
        Ok(status) => status,
        Err(_) => panic!("the project is of the tenant"),
    };
    assert_eq!((status.projects_current, status.projects_maximum), (1, 5));
    assert_eq!((status.node_identities_current, status.active_processes_current), (0, 0));
}

#[test]
fn administration_needs_a_fresh_proof() {
    let service = service();
    let good = text("sha256:proof");
    assert!(service.verify_admin_request(&good, &good, "nonce", 100, 100).is_ok());
    assert!(service
        .verify_admin_request(&text("sha256:else"), &good, "nonce", 100, 100)
        .is_err());
    assert!(service.verify_admin_request(&good, &good, "nonce", 100, 100_000).is_err());
    assert!(check_nonce(ReplayAdmission::Fresh).is_ok());
    assert!(check_nonce(ReplayAdmission::Duplicate).is_err());
    assert!(check_nonce(ReplayAdmission::Capacity).is_err());
}

#[test]
fn a_database_address_chooses_the_store() {
    let (kind, url) = store_for_database_url(None);
    assert_eq!(kind, RuntimeDurableStoreKind::InMemory);
    assert_eq!(url, None);
    let (kind, url) = store_for_database_url(Some("postgres://db"));
    assert_eq!(kind, RuntimeDurableStoreKind::Postgres);
    assert_eq!(url.as_deref(), Some("postgres://db"));
    assert_eq!(RuntimeDurableStoreKind::InMemory.kind(), "in_memory");
    assert_eq!(RuntimeDurableStoreKind::Postgres.kind(), "postgres");
}

#[test]
fn a_session_makes_the_project_that_is_missing() {
    let mut service = service();
    let session = |tenant: &str| CliSessionRecord {
        session_digest: format!("sha256:{tenant}"),
        tenant: text(tenant),
        project: text("project"),
        user: text("user"),
        credential_kind: CredentialKind::CliDeviceSession,
        expires_at_epoch_seconds: None,
        revoked: false,
    };
    assert!(service.project_record(&text("project")).is_none());
    assert!(service.issue_cli_session(session("tenant")).is_ok());
    assert_eq!(service.project_record(&text("project")).unwrap().tenant, "tenant");
    assert!(service.issue_cli_session(session("other")).is_err());
    assert!(service
        .suspend_hosted_account(
            text("tenant"),
            text("operator"),
            text("sha256:policy"),
            50,
            50,
        )
        .is_ok());
    match service.issue_cli_session(session("tenant")) {
        Err(error) => {
            assert!(error.message("").contains("tenant is suspended by admin controls"))
        }
        Ok(_) => panic!("the tenant is suspended"),
    }
}

#[test]
fn the_figures_of_the_service_count_what_it_holds() {
    let mut service = service();
    service.coordinator.upsert_project(text("tenant"), text("project"), text("demo"));
    service.coordinator.start_process(text("tenant"), text("project"), text("vp"));
    let figures = service.operational_metrics(
        &TaskFigures { active_tasks: 3, queued_tasks: 2, acknowledged: OrderedMap::new() },
        100,
    );
    assert_eq!(figures.projects, 1);
    assert_eq!(figures.active_processes, 1);
    assert_eq!(figures.active_tasks, 3);
    assert_eq!(figures.queued_tasks, 2);
    assert_eq!(figures.max_active_coordinator_mains, 8);
    assert_eq!(figures.live_nodes, 0);
}

#[test]
fn a_policy_is_recorded_under_its_tenant_and_name() {
    let mut service = service();
    let policy =
        service.record_service_policy(text("tenant"), text("retention"), text("sha256:policy"));
    assert_eq!(policy.digest, "sha256:policy");
    let proof = text("sha256:proof");
    let suspension = match service.handle_suspend_tenant(
        text("operators"),
        text("admin"),
        text("tenant"),
        text("sha256:suspended"),
        &proof,
        &proof,
        "nonce",
        100,
        100,
        ReplayAdmission::Fresh,
    ) {
        Ok(policy) => policy,
        Err(_) => panic!("the request is in order"),
    };
    assert_eq!(suspension.tenant, "tenant");
    assert_eq!(service.coordinator.durable_state().service_policy_records.len(), 2);
    assert!(service.coordinator.durable_state().users.len() == 1);
}

#[test]
fn requests_of_an_administrator_are_refused_without_a_change() {
    let good = text("sha256:proof");
    let cases = [
        (
            &good,
            " ",
            100,
            ReplayAdmission::Fresh,
            "admin request nonce is missing or invalid",
        ),
        (
            &good,
            "nonce",
            401,
            ReplayAdmission::Fresh,
            "admin request timestamp is outside the allowed 300-second window",
        ),
        (
            &text("sha256:else"),
            "nonce",
            400,
            ReplayAdmission::Fresh,
            "admin request proof is invalid",
        ),
        (
            &good,
            "nonce",
            400,
            ReplayAdmission::Duplicate,
            "admin request nonce was already used",
        ),
        (
            &good,
            "nonce",
            400,
            ReplayAdmission::Capacity,
            "admin request replay window is full; retry after the bounded signature window advances",
        ),
    ];
    for (proof, nonce, now, replay, reason) in cases {
        let mut service = service();
        let status = service.handle_admin_status(
            &text("tenant"),
            &text("admin"),
            proof,
            &good,
            nonce,
            100,
            now,
            replay,
        );
        match status {
            Err(error) => assert!(error.message("").contains(reason)),
            Ok(_) => panic!("the request is not in order"),
        }
        let suspension = service.handle_suspend_tenant(
            text("operators"),
            text("admin"),
            text("tenant"),
            text("sha256:suspended"),
            proof,
            &good,
            nonce,
            100,
            now,
            replay,
        );
        match suspension {
            Err(error) => assert!(error.message("").contains(reason)),
            Ok(_) => panic!("the request is not in order"),
        }
        assert!(!suspended(&service, "tenant"));
        assert_eq!(service.coordinator.durable_state().tenants.len(), 0);
        assert_eq!(service.coordinator.durable_state().users.len(), 0);
    }
    let mut bare = match CoordinatorService::new_with_startup_configuration(
        Coordinator::boot(&InMemoryDurableStore::default(), 1),
        None,
        CoordinatorAdmission::default(),
        CoordinatorServiceStartupConfiguration { node_stale_after_seconds: 60 },
        CoordinatorMainRuntimeConfiguration::default_for(ceilings()),
        100,
    ) {
        Ok(service) => service,
        Err(_) => panic!("the interval is within its bounds"),
    };
    match bare.handle_suspend_tenant(
        text("operators"),
        text("admin"),
        text("tenant"),
        text("sha256:suspended"),
        &good,
        &good,
        "nonce",
        100,
        100,
        ReplayAdmission::Fresh,
    ) {
        Err(error) => assert!(error
            .message("")
            .contains("self-hosted admin credential is not configured")),
        Ok(_) => panic!("no credential is configured"),
    }
    assert_eq!(bare.coordinator.durable_state().service_policy_records.len(), 0);
}

#[test]
fn suspending_an_account_cancels_its_runs_and_names_its_processes() {
    let mut service = service();
    for (tenant, project) in [("tenant", "project"), ("other", "elsewhere")] {
        service.coordinator.upsert_project(text(tenant), text(project), text("demo"));
        service.coordinator.start_process(text(tenant), text(project), text("vp"));
        let pushed = service.accept_commit_trigger(
            AcceptedCommitTriggerRecord {
                tenant: text(tenant),
                project: text(project),
                binding_id: text("binding"),
                body_digest: text("sha256:body"),
                trigger: CommitTrigger {
                    trigger_id: format!("trigger-{project}"),
                    delivery_id: format!("delivery-{project}"),
                    forge: text("forgejo"),
                    repository_id: text("repository"),
                    commit_sha: text("commit"),
                    git_ref: text("refs/heads/main"),
                    trusted: true,
                    received_at: 10,
                    run_identity: format!("sha256:{project}"),
                },
            },
            Ok(()),
            true,
        );
        assert!(pushed.is_ok());
    }
    let suspension = match service.suspend_hosted_account(
        text("tenant"),
        text("operator"),
        text("sha256:policy"),
        50,
        51,
    ) {
        Ok(suspension) => suspension,
        Err(_) => panic!("the runs are known"),
    };
    assert_eq!(suspension.runs, vec![text("run-project")]);
    assert_eq!(suspension.processes, vec![(text("project"), text("vp"))]);
    let run = &service.automated_run(&text("run-project")).unwrap().run;
    assert_eq!(run.state, AutomatedRunState::Cancelled);
    assert_eq!(run.ended_at, Some(51));
    assert_eq!(
        service.automated_run(&text("run-elsewhere")).unwrap().run.state,
        AutomatedRunState::Accepted
    );
    let answer = service.finish_account_suspension(suspension, limits(), limits());
    assert_eq!(answer.aborted_processes, 1);
    assert_eq!(answer.audit.action, "account_suspend");
}
