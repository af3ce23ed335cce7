use clusterflux_coordinator::automated_run::{
    AcceptedCommitTriggerRecord, AutomatedRunState, CommitTrigger, CompiledWorkflowBundle,
    CompilerIdentity, RepositoryRevision, WorkflowCompilationRequest, WorkflowSource,
};
use clusterflux_coordinator::configuration::{
    CoordinatorAdmission, CoordinatorMainRuntimeConfiguration,
    CoordinatorServiceStartupConfiguration, MainRuntimeCeilings,
};
use clusterflux_coordinator::coordinator::{Coordinator, CoordinatorError};
use clusterflux_coordinator::duplicate::TextList;
use clusterflux_coordinator::durable::InMemoryDurableStore;
use clusterflux_coordinator::ids::NodeScopeKey;
use clusterflux_coordinator::node_registry::{NodeCapabilities, NodeDescriptor, SystemBundle};
use clusterflux_coordinator::ordered_map::OrderedMap;
use clusterflux_coordinator::ordered_set::OrderedSet;
use clusterflux_coordinator::service::CoordinatorService;
use clusterflux_coordinator::service_error::CoordinatorServiceError;
use clusterflux_coordinator::system_tasks::{
    compile_attempt_id, compile_attempt_text, AssignmentAuthority, AssignmentKind,
    CompilerAssignment, ReportStanding, SystemManifest, SystemTaskStep, WorkflowCompilationResult,
};
use clusterflux_coordinator::workflow_bundle::{BundleChecks, BundleRules};

const NOW: u64 = 1_000;

fn text(value: &str) -> String {
    value.to_owned()
}

fn manifest() -> SystemManifest {
    SystemManifest {
        bundle_id: text("workflow-compiler"),
        bundle_digest: text("sha256:system"),
        environment_digest: text("sha256:image"),
        sdk_abi_version: 1,
        wasm_target: text("wasm32-unknown-unknown"),
        supported_arch: text("x86_64"),
        sdk_digest: text("sha256:sdk"),
        rust_toolchain: text("1.90"),
        compiler_profile: text("profile"),
    }
}

fn system_bundle() -> SystemBundle {
    SystemBundle {
        bundle_id: text("workflow-compiler"),
        bundle_digest: text("sha256:system"),
        environment_digest: text("sha256:image"),
        sdk_abi_version: 1,
        wasm_target: text("wasm32-unknown-unknown"),
        rust_toolchain: text("1.90"),
        max_source_bytes: 100,
        max_output_bytes: 100,
    }
}

fn capabilities() -> NodeCapabilities {
    NodeCapabilities {
        execution_only: false,
        linux: true,
        arch: text("x86_64"),
        container_backend: true,
        rootless_podman: true,
        system_bundles: vec![system_bundle()],
    }
}

fn source() -> WorkflowSource {
    WorkflowSource {
        trigger_id: text("trigger"),
        repository_id: text("repository"),
        commit_sha: text("commit"),
        tree_digest: text("sha256:tree"),
        manifest_digest: text("sha256:manifest"),
        environments: Vec::new(),
        total_bytes: 10,
        content: text("{}"),
    }
}

fn service() -> CoordinatorService {
    let mut coordinator = Coordinator::boot(&InMemoryDurableStore::default(), 1);
    for node in ["compiler", "silent"] {
        coordinator.enroll_node(
            text("tenant"),
            text("project"),
            text(node),
            text("key"),
            text("node:attach"),
        );
    }
    match CoordinatorService::new_with_startup_configuration(
        coordinator,
        None,
        CoordinatorAdmission::default(),
        CoordinatorServiceStartupConfiguration::default(),
        CoordinatorMainRuntimeConfiguration::default_for(MainRuntimeCeilings {
            max_mains: 8,
            max_state_bytes: 1_048_576,
        }),
        NOW,
    ) {
        Ok(service) => service,
        Err(_) => panic!("the default configuration is accepted"),
    }
}

fn describe(service: &mut CoordinatorService, capabilities: NodeCapabilities) {
    service.node_registry.record_descriptor(
        NodeScopeKey::new(text("tenant"), text("project"), text("compiler")),
        NodeDescriptor {
            id: text("compiler"),
            tenant: text("tenant"),
            project: text("project"),
            online: true,
            capabilities,
            source_snapshots: OrderedSet::new(),
            artifact_locations: OrderedSet::new(),
        },
    );
}

/// A service with one run, `run-key`, that waits for a compiler.
fn waiting() -> CoordinatorService {
    let mut service = service();
    describe(&mut service, capabilities());
    let runs = service.coordinator.automation_mut();
    let accepted = runs.accept_commit_trigger(AcceptedCommitTriggerRecord {
        tenant: text("tenant"),
        project: text("project"),
        binding_id: text("binding"),
        body_digest: text("sha256:body"),
        trigger: CommitTrigger {
            trigger_id: text("trigger"),
            delivery_id: text("delivery"),
            forge: text("forgejo"),
            repository_id: text("repository"),
            commit_sha: text("commit"),
            git_ref: text("refs/heads/main"),
            trusted: true,
            received_at: 100,
            run_identity: text("sha256:key"),
        },
    });
    assert!(accepted.is_ok());
    assert!(runs.claim_source_load(&text("trigger")).is_ok());
    assert!(runs
        .record_automated_run_source(
            &text("run-key"),
            source(),
            RepositoryRevision {
                repository_id: text("repository"),
                commit_sha: text("commit"),
                source_snapshot: text("sha256:snapshot"),
                content: text("{}"),
            },
            Ok(()),
            Ok(()),
        )
        .is_ok());
    assert!(runs
        .enqueue_workflow_compilation(
            WorkflowCompilationRequest {
                run_id: text("run-key"),
                source: source(),
                compiler_profile: text("profile"),
                compiler_image: text("sha256:image"),
                compiler_sdk: text("sha256:sdk"),
                rust_toolchain: text("1.90"),
                max_output_bytes: 100,
                wall_clock_seconds: 600,
                content: text("{}"),
            },
            Ok(()),
        )
        .is_ok());
    service
}

fn poll(
    service: &mut CoordinatorService,
    node: &str,
    assignments: &OrderedMap<String, CompilerAssignment>,
) -> Result<SystemTaskStep, CoordinatorServiceError> {
    service.poll_system_task_offer(
        &text("tenant"),
        &text("project"),
        &text(node),
        &manifest(),
        assignments,
        NOW,
    )
}

fn state(service: &CoordinatorService) -> AutomatedRunState {
    match service.coordinator.durable_state().automation.automated_run(&text("run-key")) {
        Some(record) => record.run.state,
        None => panic!("the run is known"),
    }
}

fn waiting_reason(service: &CoordinatorService) -> Option<String> {
    match service.coordinator.durable_state().automation.automated_run(&text("run-key")) {
        Some(record) => record.run.waiting_reason.clone(),
        None => panic!("the run is known"),
    }
}

#[test]
fn a_compilation_is_assigned_and_offered() {
    let mut service = waiting();
    let none = OrderedMap::new();
    match poll(&mut service, "compiler", &none) {
        Ok(SystemTaskStep::Assign { run_id, attempts, offer_epoch, offer_seconds }) => {
            assert_eq!(run_id, "run-key");
            assert_eq!(attempts, 1);
            assert_eq!(offer_epoch, 1);
            assert_eq!(offer_seconds, 30);
        }
        _ => panic!("the run is to be assigned"),
    }
    assert_eq!(state(&service), AutomatedRunState::WaitingForCompilerNode);
    let offer = service
        .complete_system_task_offer(
            text("run-key"),
            &text("tenant"),
            &text("project"),
            &text("compiler"),
            &manifest(),
            AssignmentAuthority {
                assignment_id: text("assignment"),
                attempt_id: text("attempt"),
                offer_epoch: 1,
            },
            NOW + 30,
        )
        .unwrap();
    assert_eq!(offer.authority.assignment_id, "assignment");
    assert_eq!(offer.expires_at_epoch_seconds, 1_030);
    assert_eq!(offer.environment_digest, "sha256:image");
    assert_eq!(offer.request.run_id, "run-key");
    assert_eq!(state(&service), AutomatedRunState::CompilingWorkflow);
}

#[test]
fn an_offer_stands_for_the_node_that_has_it() {
    let mut service = waiting();
    let mut assignments = OrderedMap::new();
    assignments.insert(
        text("run-key"),
        CompilerAssignment {
            assignment_id: text("assignment"),
            attempt_id: text("attempt"),
            offer_epoch: 4,
            node: text("compiler"),
            offered: true,
            lease_expires_at: NOW,
        },
    );
    match poll(&mut service, "compiler", &assignments) {
        Ok(SystemTaskStep::Offer(offer)) => {
            assert_eq!(offer.authority.offer_epoch, 4);
            assert_eq!(offer.expires_at_epoch_seconds, NOW);
            assert_eq!(offer.bundle_digest, "sha256:system");
        }
        _ => panic!("the assignment is offered again"),
    }
    let mut elsewhere = OrderedMap::new();
    elsewhere.insert(
        text("run-key"),
        CompilerAssignment {
            assignment_id: text("assignment"),
            attempt_id: text("attempt"),
            offer_epoch: 4,
            node: text("another"),
            offered: true,
            lease_expires_at: NOW,
        },
    );
    assert!(matches!(
        poll(&mut service, "compiler", &elsewhere),
        Ok(SystemTaskStep::Nothing)
    ));
}

#[test]
fn nodes_that_cannot_compile_say_why_the_run_waits() {
    let mut service = waiting();
    let none = OrderedMap::new();
    let mut only = capabilities();
    only.execution_only = true;
    describe(&mut service, only);
    assert!(matches!(poll(&mut service, "compiler", &none), Ok(SystemTaskStep::Nothing)));
    assert_eq!(
        waiting_reason(&service).as_deref(),
        Some("node_policy_disables_workflow_compilation")
    );
    let mut other = capabilities();
    other.arch = text("aarch64");
    describe(&mut service, other);
    assert!(matches!(poll(&mut service, "compiler", &none), Ok(SystemTaskStep::Nothing)));
    assert_eq!(
        waiting_reason(&service).as_deref(),
        Some("no_compatible_linux_container_backend")
    );
    let mut old = capabilities();
    old.system_bundles[0].sdk_abi_version = 0;
    describe(&mut service, old);
    assert!(matches!(poll(&mut service, "compiler", &none), Ok(SystemTaskStep::Nothing)));
    assert_eq!(
        waiting_reason(&service).as_deref(),
        Some("system_bundle_version_mismatch_or_unavailable")
    );
    assert!(matches!(
        poll(&mut service, "unknown", &none),
        Err(CoordinatorServiceError::Coordinator(CoordinatorError::UnknownNode))
    ));
    match poll(&mut service, "silent", &none) {
        Err(error) => assert!(error.message("").contains("node has no capability report")),
        Ok(_) => panic!("the node has reported nothing"),
    }
}

#[test]
fn a_run_that_is_too_large_for_the_bundle_is_not_offered() {
    let mut service = waiting();
    let mut small = capabilities();
    small.system_bundles[0].max_source_bytes = 9;
    describe(&mut service, small);
    assert!(matches!(
        poll(&mut service, "compiler", &OrderedMap::new()),
        Ok(SystemTaskStep::Nothing)
    ));
    assert_eq!(state(&service), AutomatedRunState::WaitingForCompilerNode);
}

#[test]
fn a_run_fails_after_its_last_attempt() {
    let mut service = waiting();
    let none = OrderedMap::new();
    for attempt in 1..=5 {
        match poll(&mut service, "compiler", &none) {
            Ok(SystemTaskStep::Assign { attempts, .. }) => assert_eq!(attempts, attempt),
            _ => panic!("the run is to be assigned"),
        }
    }
    assert!(matches!(poll(&mut service, "compiler", &none), Ok(SystemTaskStep::Nothing)));
    assert_eq!(state(&service), AutomatedRunState::Failed);
    let runs = &service.coordinator.durable_state().automation;
    let record = runs.automated_run(&text("run-key")).unwrap();
    assert_eq!(record.run.failure_code.as_deref(), Some("system_assignment_node_lost"));
    assert_eq!(
        record.run.failure_message.as_deref(),
        Some("workflow compilation exhausted 5 bounded node attempts")
    );
    assert_eq!(record.run.ended_at, Some(NOW));
    assert!(record.compilation_request.is_none());
}

#[test]
fn assignments_last_as_long_as_their_compilation_may() {
    let service = waiting();
    let kind = Some(AssignmentKind::WorkflowCompiler { run_id: text("run-key") });
    let authority = AssignmentAuthority {
        assignment_id: text("assignment"),
        attempt_id: text("attempt"),
        offer_epoch: 2,
    };
    let acknowledged = |assignment: &str, epoch: u64| {
        service.acknowledge_system_task_offer(
            &text("tenant"),
            &text("project"),
            &kind,
            assignment,
            epoch,
            &authority,
        )
    };
    assert_eq!(acknowledged("assignment", 2), Some(630));
    assert_eq!(acknowledged("assignment", 3), None);
    assert_eq!(acknowledged("another", 2), None);
    let authorized = |kind: &Option<AssignmentKind>| {
        service.active_node_assignment_is_authorized(
            &text("tenant"),
            &text("project"),
            kind,
            false,
            true,
        )
    };
    assert_eq!(authorized(&kind), None);
    assert_eq!(authorized(&None), None);
    let task = Some(AssignmentKind::ProcessTask { process: text("vp"), task: text("task") });
    assert_eq!(authorized(&task), None);
}

#[test]
fn tasks_of_running_processes_stay_assigned() {
    let mut service = waiting();
    service.coordinator.start_process(text("tenant"), text("project"), text("vp"));
    let task = Some(AssignmentKind::ProcessTask { process: text("vp"), task: text("task") });
    let authorized = |cancelled: bool, checkpointed: bool| {
        service.active_node_assignment_is_authorized(
            &text("tenant"),
            &text("project"),
            &task,
            cancelled,
            checkpointed,
        )
    };
    assert_eq!(authorized(false, true), Some(180));
    assert_eq!(authorized(true, true), None);
    assert_eq!(authorized(false, false), None);
}

fn report(retryable: bool) -> WorkflowCompilationResult {
    WorkflowCompilationResult {
        run_id: text("run-key"),
        node: text("compiler"),
        authority: AssignmentAuthority {
            assignment_id: text("assignment"),
            attempt_id: text("attempt"),
            offer_epoch: 1,
        },
        bundle: None,
        retryable,
        failure_code: Some(text("compile_failed")),
        compiler_transcript: text("error: no main"),
    }
}

fn standing() -> ReportStanding {
    ReportStanding { ended: false, active_run: Some(text("run-key")), active: true }
}

fn reported(
    service: &mut CoordinatorService,
    digest: &str,
    result: WorkflowCompilationResult,
    standing: ReportStanding,
) -> Result<AutomatedRunState, CoordinatorServiceError> {
    match service.report_system_task(
        &text("workflow-compiler"),
        &text(digest),
        result,
        Ok(()),
        Ok(()),
        &manifest(),
        &standing,
        &BundleRules {
            sdk_version: text("0.1"),
            abi_version: 1,
            max_module_bytes: 1_024,
            serde_version: text("1.0"),
        },
        BundleChecks {
            metadata: Ok(()),
            module_digest: text("sha256:module"),
            dependency_digest_valid: true,
            manifest: Ok(Vec::new()),
        },
        NOW,
    ) {
        Ok(record) => Ok(record.run.state),
        Err(error) => Err(error),
    }
}

#[test]
fn a_compilation_that_may_be_tried_again_waits_for_a_node() {
    let mut service = waiting();
    match reported(&mut service, "sha256:system", report(true), standing()) {
        Ok(state) => assert_eq!(state, AutomatedRunState::WaitingForCompilerNode),
        Err(error) => panic!("{}", error.message("")),
    }
    assert_eq!(waiting_reason(&service).as_deref(), Some("eligible_node_retry_pending"));
    match reported(&mut service, "sha256:system", report(false), standing()) {
        Ok(state) => assert_eq!(state, AutomatedRunState::Failed),
        Err(error) => panic!("{}", error.message("")),
    }
    let runs = &service.coordinator.durable_state().automation;
    let record = runs.automated_run(&text("run-key")).unwrap();
    assert_eq!(record.run.failure_code.as_deref(), Some("compile_failed"));
    assert_eq!(record.run.failure_message.as_deref(), Some("error: no main"));
    assert!(record.source.is_none());
}

#[test]
fn reports_that_do_not_count_change_nothing() {
    let mut service = waiting();
    let stale = ReportStanding { ended: false, active_run: None, active: false };
    match reported(&mut service, "sha256:system", report(false), stale) {
        Err(error) => assert!(error
            .message("")
            .contains("system task result is stale, expired, or was not acknowledged")),
        Ok(_) => panic!("the assignment is not active"),
    }
    match reported(&mut service, "sha256:else", report(false), standing()) {
        Err(error) => assert!(error
            .message("")
            .contains("system task result does not match this release's pinned bundle")),
        Ok(_) => panic!("the bundle is another"),
    }
    let mut unknown = report(false);
    unknown.run_id = text("run-else");
    assert!(matches!(
        reported(&mut service, "sha256:system", unknown, standing()),
        Err(CoordinatorServiceError::Protocol(text)) if text == "unknown automated run"
    ));
    let mut wrong = report(false);
    wrong.bundle = Some(CompiledWorkflowBundle {
        bundle_digest: text("sha256:bundle"),
        source_tree_digest: text("sha256:else"),
        manifest_digest: text("sha256:manifest"),
        execution_module_digest: text("sha256:module"),
        sdk_abi_version: 1,
        module_base64: String::new(),
        debug_metadata_base64: String::new(),
        default_entrypoint: text("main"),
        entrypoints: TextList::empty(),
        task_definitions: TextList::empty(),
        environments: Vec::new(),
        compiler_identity: CompilerIdentity {
            hosted_sandbox: true,
            sdk_digest: text("sha256:sdk"),
            sandbox_image_digest: Some(text("sha256:image")),
            rustc_version: text("1.90"),
            target: text("wasm32-unknown-unknown"),
            sdk_version: text("0.1"),
            flags: TextList::empty(),
            trusted_dependencies: Vec::new(),
        },
    });
    assert!(matches!(
        reported(&mut service, "sha256:system", wrong, standing()),
        Err(CoordinatorServiceError::Protocol(text))
            if text == "compiled bundle source digest does not match its run"
    ));
    assert_eq!(state(&service), AutomatedRunState::WaitingForCompilerNode);
}

#[test]
fn attempts_are_named_by_their_run_and_number() {
    assert_eq!(compile_attempt_text(&text("run-key"), 3), "run-key\0".to_owned() + "3");
    assert_eq!(compile_attempt_id(&text("sha256:0123")), "compile-attempt-0123");
}
