use base64::Engine;
use clusterflux_coordinator::automated_launch::LaunchStep;
use clusterflux_coordinator::automated_run::{
    AcceptedCommitTriggerRecord, AutomatedRunState, CommitTrigger, CompiledWorkflowBundle,
    CompilerIdentity, RepositoryRevision,
};
use clusterflux_coordinator::capability::{Capabilities, Capability};
use clusterflux_coordinator::configuration::{
    CoordinatorAdmission, CoordinatorMainRuntimeConfiguration,
    CoordinatorServiceStartupConfiguration, MainRuntimeCeilings,
};
use clusterflux_coordinator::coordinator::Coordinator;
use clusterflux_coordinator::duplicate::TextList;
use clusterflux_coordinator::durable::InMemoryDurableStore;
use clusterflux_coordinator::keys::{process_control_key, task_restart_key};
use clusterflux_coordinator::main_runtime::{MainLaunch, MainRefusal, MainState};
use clusterflux_coordinator::service::CoordinatorService;
use clusterflux_coordinator::service_error::{protocol, CoordinatorServiceError};
use clusterflux_coordinator::tasks::{TaskDispatch, TaskFailurePolicy, TaskSpec, WasmExportAbi};

fn text(value: &str) -> String {
    value.to_owned()
}

fn service(max_mains: usize) -> CoordinatorService {
    let mut coordinator = Coordinator::boot(&InMemoryDurableStore::default(), 7);
    coordinator.start_process(text("tenant"), text("project"), text("vp"));
    match CoordinatorService::new_with_startup_configuration(
        coordinator,
        None,
        CoordinatorAdmission::default(),
        CoordinatorServiceStartupConfiguration::default(),
        CoordinatorMainRuntimeConfiguration::default_for(MainRuntimeCeilings {
            max_mains,
            max_state_bytes: 1_048_576,
        }),
        100,
    ) {
        Ok(service) => service,
        Err(_) => panic!("the default configuration is accepted"),
    }
}

fn leb_u32(mut value: u32) -> Vec<u8> {
    let mut encoded = Vec::new();
    loop {
        let mut byte = (value & 0x7f) as u8;
        value >>= 7;
        if value != 0 {
            byte |= 0x80;
        }
        encoded.push(byte);
        if value == 0 {
            return encoded;
        }
    }
}

fn module(name: &str, record: &str) -> String {
    let mut section = leb_u32(name.len() as u32);
    section.extend_from_slice(name.as_bytes());
    section.extend_from_slice(record.as_bytes());
    section.push(b'\n');
    let mut module = b"\0asm\x01\0\0\0".to_vec();
    module.push(0);
    module.extend(leb_u32(section.len() as u32));
    module.extend(section);
    base64::engine::general_purpose::STANDARD.encode(module)
}

fn tasks() -> String {
    module("clusterflux.tasks", r#"{"name":"build","export":"run","abi_version":1}"#)
}

fn spec() -> TaskSpec {
    TaskSpec {
        tenant: text("tenant"),
        project: text("project"),
        process: text("vp"),
        task_definition: text("main"),
        task_instance: text("main-1"),
        dispatch: TaskDispatch::CoordinatorNodeWasm {
            export: Some(text("clusterflux_entry_v1")),
            abi: WasmExportAbi::EntrypointV1,
        },
        environment_id: None,
        environment: None,
        environment_digest: None,
        required_capabilities: Capabilities::none(),
        dependency_cache: None,
        source_snapshot: None,
        source_revision: None,
        required_artifacts: TextList::empty(),
        args: Vec::new(),
        requested_secrets: TextList::empty(),
        vfs_epoch: 7,
        failure_policy: TaskFailurePolicy::FailFast,
        bundle_digest: Some(text("sha256:module")),
    }
}

fn launch(
    service: &mut CoordinatorService,
    spec: &TaskSpec,
    module: &str,
    digest: &str,
) -> Result<MainLaunch, MainRefusal> {
    service.handle_launch_coordinator_main(
        &text("tenant"),
        &text("project"),
        spec,
        module,
        &text(digest),
        Ok(()),
        Ok(Vec::new()),
    )
}

fn launched(service: &mut CoordinatorService) -> MainLaunch {
    match launch(service, &spec(), &tasks(), "sha256:module") {
        Ok(launch) => launch,
        Err(refusal) => panic!("{}", refusal.error.message("")),
    }
}

#[test]
fn a_main_is_launched_with_what_its_module_holds() {
    let mut service = service(8);
    let launch = launched(&mut service);
    assert_eq!(launch.export, "clusterflux_entry_v1");
    assert_eq!(launch.scope.process, "vp");
    assert_eq!(launch.scope.epoch, 7);
    assert_eq!(launch.bundle_digest, "sha256:module");
    assert!(launch.task_descriptors.contains_key(&text("build")));
    assert!(launch.module.starts_with(b"\0asm"));
    assert_eq!(service.main_runtime.active_main_count(), 1);
    assert!(service.main_runtime.is_current_scope(&launch.scope));
    let key = process_control_key(&text("tenant"), &text("project"), &text("vp"));
    let control = service.main_runtime.controls.get(&key).unwrap();
    assert_eq!(control.state, MainState::Running);
    assert_eq!(control.task_instance, "main-1");
}

#[test]
fn a_process_has_one_main() {
    let mut service = service(8);
    launched(&mut service);
    match launch(&mut service, &spec(), &tasks(), "sha256:module") {
        Err(refusal) => assert!(!refusal.process_failed),
        Ok(_) => panic!("the process has a main"),
    }
    assert_eq!(service.coordinator.active_process_count(), 1);
    assert_eq!(service.main_runtime.active_main_count(), 1);
}

fn refused(spec: &TaskSpec, module: &str, digest: &str) -> String {
    let mut service = service(8);
    service.main_runtime.join_waiters.insert(task_restart_key(
        &text("tenant"),
        &text("project"),
        &text("vp"),
        &text("child"),
    ));
    match launch(&mut service, spec, module, digest) {
        Err(refusal) => {
            assert!(refusal.process_failed);
            assert_eq!(refusal.told.count(), 1);
            assert_eq!(service.coordinator.active_process_count(), 0);
            assert!(service.main_runtime.join_waiters.is_empty());
            refusal.error.message("")
        }
        Ok(_) => panic!("the main is refused"),
    }
}

#[test]
fn a_main_that_is_refused_ends_its_process() {
    let mut elsewhere = spec();
    elsewhere.tenant = text("other");
    assert!(refused(&elsewhere, &tasks(), "sha256:module")
        .contains("coordinator main TaskSpec is outside the authenticated scope"));
    let mut stale = spec();
    stale.vfs_epoch = 6;
    assert!(refused(&stale, &tasks(), "sha256:module").contains(
        "coordinator main TaskSpec VFS epoch 6 does not match active process epoch 7"
    ));
    let mut task = spec();
    task.dispatch = TaskDispatch::CoordinatorNodeWasm {
        export: Some(text("run")),
        abi: WasmExportAbi::TaskV1,
    };
    assert!(refused(&task, &tasks(), "sha256:module")
        .contains("coordinator main requires an explicit EntrypointV1 Wasm export"));
    let mut capable = spec();
    capable.required_capabilities =
        Capabilities::none().including(Capability::SourceFilesystem);
    assert!(refused(&capable, &tasks(), "sha256:module")
        .contains("coordinator main must be capless"));
    let mut nameless = spec();
    nameless.bundle_digest = None;
    assert!(refused(&nameless, &tasks(), "sha256:module")
        .contains("coordinator main TaskSpec omitted bundle digest"));
    assert!(refused(&spec(), "not base64!", "sha256:module")
        .contains("coordinator main module is not valid base64: Invalid symbol"));
    assert!(refused(&spec(), &tasks(), "sha256:else").contains(
        "coordinator main module digest mismatch: expected sha256:module, actual sha256:else"
    ));
    let unnamed = module("clusterflux.tasks", r#"{"export":"run"}"#);
    assert!(refused(&spec(), &unnamed, "sha256:module")
        .contains("task descriptor omitted its name"));
}

#[test]
fn a_launch_that_the_runtime_refuses_is_taken_back() {
    let mut service = service(8);
    let launch = launched(&mut service);
    let refusal = service.abandon_main_launch(&launch.scope, protocol("no fuel"));
    assert!(refusal.process_failed);
    assert!(refusal.told.is_empty());
    assert_eq!(service.main_runtime.active_main_count(), 0);
    assert_eq!(service.coordinator.active_process_count(), 0);
}

#[test]
fn a_main_that_is_interrupted_is_told_to_stop() {
    let mut service = service(8);
    let launch = launched(&mut service);
    let waits = task_restart_key(
        &text("tenant"),
        &text("project"),
        &text("vp"),
        &text("child"),
    );
    service.main_runtime.join_waiters.insert(waits);
    assert!(service.main_runtime.is_waiting_for_task(
        &text("tenant"),
        &text("project"),
        &text("vp")
    ));
    let told = service.main_runtime.interrupt_process(
        &text("tenant"),
        &text("project"),
        &text("vp"),
    );
    assert_eq!(told.count(), 1);
    assert!(service.main_runtime.join_waiters.is_empty());
    let key = process_control_key(&text("tenant"), &text("project"), &text("vp"));
    let control = service.main_runtime.controls.get(&key).unwrap();
    assert!(control.abort);
    assert_eq!(control.state, MainState::Stopping);
    assert!(service.main_runtime.is_current_scope(&launch.scope));
}

/// A service without a process, and with one run, `run-key`, whose workflow was compiled.
fn compiled() -> CoordinatorService {
    let mut service = service(8);
    assert!(service
        .coordinator
        .abort_process(&text("tenant"), &text("project"), &text("vp"))
        .is_ok());
    let runs = service.coordinator.automation_mut();
    let mut record = match runs.accept_commit_trigger(AcceptedCommitTriggerRecord {
        tenant: text("tenant"),
        project: text("project"),
        binding_id: text("binding"),
        body_digest: text("sha256:body"),
        trigger: CommitTrigger {
            trigger_id: text("trigger"),
            delivery_id: text("delivery"),
            forge: text("forgejo"),
            repository_id: text("repository"),
            commit_sha: text("commit"),
            git_ref: text("refs/heads/main"),
            trusted: true,
            received_at: 100,
            run_identity: text("sha256:key"),
        },
    }) {
        Ok(record) => record,
        Err(error) => panic!("{}", error.message("")),
    };
    record.run.state = AutomatedRunState::WaitingForProcessSlot;
    record.revision = Some(RepositoryRevision {
        repository_id: text("repository"),
        commit_sha: text("commit"),
        source_snapshot: text("sha256:snapshot"),
        content: text("{}"),
    });
    record.compiled_bundle = Some(CompiledWorkflowBundle {
        bundle_digest: text("sha256:bundle"),
        source_tree_digest: text("sha256:tree"),
        manifest_digest: text("sha256:manifest"),
        execution_module_digest: text("sha256:module"),
        sdk_abi_version: 1,
        module_base64: module(
            "clusterflux.entrypoints",
            r#"{"name":"main","export":"clusterflux_entry_v1"}"#,
        ),
        debug_metadata_base64: String::new(),
        default_entrypoint: text("main"),
        entrypoints: TextList { items: vec![text("main")] },
        task_definitions: TextList::empty(),
        environments: Vec::new(),
        compiler_identity: CompilerIdentity {
            hosted_sandbox: true,
            sdk_digest: text("sha256:sdk"),
            sandbox_image_digest: None,
            rustc_version: text("1.90"),
            target: text("wasm32-unknown-unknown"),
            sdk_version: text("0.1"),
            flags: TextList::empty(),
            trusted_dependencies: Vec::new(),
        },
    });
    runs.automated_runs.insert(text("run-key"), record);
    service
}

#[test]
fn a_compiled_run_is_launched_step_by_step() {
    let mut service = compiled();
    let launch = match service.launch_automated_run(&text("run-key")) {
        Ok(LaunchStep::Start(launch)) => launch,
        Ok(LaunchStep::Settled(_)) => panic!("the slot is free"),
        Err(error) => panic!("{}", error.message("")),
    };
    assert_eq!(launch.process, "process-key");
    assert_eq!(launch.launch_attempt, "launch-key");
    assert_eq!(launch.entrypoint_export, "clusterflux_entry_v1");
    let started = service.coordinator.start_process_for_launch_attempt(
        text("tenant"),
        text("project"),
        launch.process.clone(),
        Some(launch.launch_attempt.clone()),
    );
    let context = match service.automated_launch_context(&launch) {
        Ok(context) => context,
        Err(error) => panic!("{}", error.message("")),
    };
    assert_eq!(context.forge, "forgejo");
    assert_eq!(context.source_snapshot, "sha256:snapshot");
    let main = match service.prepare_automated_main(
        &text("run-key"),
        &launch,
        context,
        Ok(()),
        started.coordinator_epoch,
    ) {
        Ok(main) => main,
        Err(error) => panic!("{}", error.message("")),
    };
    assert_eq!(main.task_instance, "main-key");
    assert_eq!(main.vfs_epoch, 7);
    assert_eq!(main.bundle_digest.as_deref(), Some("sha256:module"));
    let launched = match service.handle_launch_coordinator_main(
        &text("tenant"),
        &text("project"),
        &main,
        &launch.bundle.module_base64,
        &text("sha256:module"),
        Ok(()),
        Ok(Vec::new()),
    ) {
        Ok(launched) => launched,
        Err(refusal) => panic!("{}", refusal.error.message("")),
    };
    assert_eq!(launched.trigger_context.unwrap().trigger_id, "trigger");
    assert_eq!(launched.source_snapshot.as_deref(), Some("sha256:snapshot"));
    let running = service.finish_automated_launch(&text("run-key"), text("{}"), 300);
    assert_eq!(running.run.state, AutomatedRunState::Running);
    assert_eq!(running.run.started_at, Some(300));
    assert!(running.compiled_bundle.is_none());
    assert_eq!(running.compiled_summary.as_deref(), Some("{}"));
    match service.launch_automated_run(&text("run-key")) {
        Ok(LaunchStep::Settled(again)) => assert_eq!(again.run.state, AutomatedRunState::Running),
        _ => panic!("the run is under way"),
    }
}

#[test]
fn a_compiled_run_waits_for_the_process_of_its_project() {
    let mut service = compiled();
    service.coordinator.start_process(text("tenant"), text("project"), text("other"));
    match service.launch_automated_run(&text("run-key")) {
        Ok(LaunchStep::Settled(waiting)) => {
            assert_eq!(waiting.run.state, AutomatedRunState::WaitingForProcessSlot);
            assert!(waiting.run.process_id.is_none());
        }
        _ => panic!("the slot is taken"),
    }
    assert!(matches!(
        service.launch_automated_run(&text("run-else")),
        Err(CoordinatorServiceError::Protocol(text)) if text == "unknown automated run"
    ));
}

#[test]
fn an_attempt_takes_back_only_its_own_process() {
    let mut service = compiled();
    service.coordinator.start_process_for_launch_attempt(
        text("tenant"),
        text("project"),
        text("process-key"),
        Some(text("launch-key")),
    );
    let mut abort = |attempt: &str| {
        service.coordinator.abort_process_for_launch_attempt(
            &text("tenant"),
            &text("project"),
            &text("process-key"),
            &text(attempt),
        )
    };
    assert!(abort("launch-else").is_err());
    assert!(abort("launch-key").is_ok());
    assert!(abort("launch-key").is_err());
}
