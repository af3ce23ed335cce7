use clusterflux_coordinator::artifact_registry::ArtifactFlush;
use clusterflux_coordinator::artifacts::ArtifactHandle;
use clusterflux_coordinator::automation::ProcessFinalResult;
use clusterflux_coordinator::capability::Capability;
use clusterflux_coordinator::configuration::{
    CoordinatorAdmission, CoordinatorMainRuntimeConfiguration,
    CoordinatorServiceStartupConfiguration, MainRuntimeCeilings,
};
use clusterflux_coordinator::coordinator::Coordinator;
use clusterflux_coordinator::debug_registry::{DebugCommand, DebugEpochRuntime};
use clusterflux_coordinator::duplicate::TextList;
use clusterflux_coordinator::durable::InMemoryDurableStore;
use clusterflux_coordinator::keys::{process_control_key, task_control_key, TaskControlKey};
use clusterflux_coordinator::logs::{ProcessFacts, ProcessRetirement};
use clusterflux_coordinator::main_runtime::{
    CoordinatorMainControl, CoordinatorMainHost, GuestWakeRate, JoinAnswer, MainCommand,
    MainResult, MainScope, MainState, MainStep, TaskStartRequest,
};
use clusterflux_coordinator::ordered_map::OrderedMap;
use clusterflux_coordinator::ordered_set::OrderedSet;
use clusterflux_coordinator::service::CoordinatorService;
use clusterflux_coordinator::tasks::{
    TaskBoundaryValue, TaskExecutor, TaskFailurePolicy, TaskJoinResult, TaskJoinState,
    TaskTerminalState,
};
use clusterflux_coordinator::workflow_bundle::Descriptor;

fn text(value: &str) -> String {
    value.to_owned()
}

fn service(epoch: u64) -> CoordinatorService {
    let limits = CoordinatorMainRuntimeConfiguration::default_for(MainRuntimeCeilings {
        max_mains: 8,
        max_state_bytes: 1_048_576,
    });
    let coordinator = Coordinator::boot(&InMemoryDurableStore::default(), epoch);
    match CoordinatorService::new_with_startup_configuration(
        coordinator,
        None,
        CoordinatorAdmission::default(),
        CoordinatorServiceStartupConfiguration::default(),
        limits,
        100,
    ) {
        Ok(service) => service,
        Err(_) => panic!("the default configuration is accepted"),
    }
}

fn scope(process: &str, definition: &str, epoch: u64) -> MainScope {
    MainScope {
        tenant: text("tenant"),
        project: text("project"),
        process: text(process),
        task_definition: text(definition),
        task_instance: format!("ti:{process}:main"),
        epoch,
        launch_id: 1,
    }
}

fn control(scope: &MainScope) -> CoordinatorMainControl {
    CoordinatorMainControl {
        task_definition: scope.task_definition.clone(),
        task_instance: scope.task_instance.clone(),
        abort: false,
        state: MainState::Running,
        stopped_probe_symbol: None,
        handles: OrderedMap::new(),
        launch_id: 1,
    }
}

fn host(scope: MainScope) -> CoordinatorMainHost {
    CoordinatorMainHost {
        scope,
        task_descriptors: OrderedMap::new(),
        environments: OrderedMap::new(),
        trigger_context: None,
        source_snapshot: None,
        source_revision: None,
        bundle_digest: text("sha256:coordinator-main-test-bundle"),
        next_handle_id: 1,
        wake_rate: GuestWakeRate::new(100, 0),
    }
}

fn descriptor(export: &str, capabilities: &[&str]) -> Descriptor {
    Descriptor {
        name: None,
        export: Some(text(export)),
        required_capabilities: Some(capabilities.iter().map(|c| Some(text(c))).collect()),
        abi_version: None,
        restart_compatibility: None,
    }
}

fn request(definition: &str) -> TaskStartRequest {
    TaskStartRequest {
        task_definition: text(definition),
        environment_id: None,
        args: Vec::new(),
        requested_secrets: TextList::empty(),
        failure_policy: TaskFailurePolicy::FailFast,
    }
}

fn null_result() -> MainResult {
    MainResult {
        completed: true,
        result: Some(TaskBoundaryValue {
            content: text("null"),
            required_artifacts: TextList::empty(),
            source_snapshots: TextList::empty(),
        }),
        encoded_bytes: Some(4),
        error: None,
    }
}

/// The child that a process has on a worker.
fn child(process: &str) -> TaskControlKey {
    task_control_key(
        &text("tenant"),
        &text("project"),
        &text(process),
        &text("worker"),
        &format!("ti:{process}:child:1"),
    )
}

/// The active tasks of all processes: one child of each.
fn active() -> OrderedSet<TaskControlKey> {
    let mut tasks = OrderedSet::new();
    tasks.insert(child("vp-current"));
    tasks.insert(child("vp-failed-main"));
    tasks
}

fn facts(runnable_remote_work: bool) -> ProcessFacts {
    ProcessFacts {
        runnable_remote_work,
        main_completed: false,
        cancelled: false,
        any_task_failed: false,
        any_task_cancelled: false,
    }
}

#[test]
fn source_less_child_has_no_source_authority_or_placement_constraint() {
    let mut host = host(scope("vp-source-bound", "main", 7));
    host.source_snapshot = Some(text("sha256:process working tree"));
    host.task_descriptors.insert(
        text("source-less"),
        descriptor("clusterflux_task_v1_source_less", &[]),
    );

    let captured = match host.start_task(request("source-less"), Ok(()), false, 0, 0) {
        Ok(spec) => spec,
        Err(reason) => panic!("source-less child should start: {reason}"),
    };

    assert_eq!(captured.source_snapshot, None);
    assert!(captured.source_revision.is_none());
    assert!(!captured.required_capabilities.contains(Capability::SourceFilesystem));
}

#[test]
fn source_backed_child_inherits_process_source_authority() {
    let mut host = host(scope("vp-source-backed", "main", 7));
    let process_source = text("sha256:process working tree");
    host.source_snapshot = Some(process_source.clone());
    host.task_descriptors.insert(
        text("source-backed"),
        descriptor("clusterflux_task_v1_source_backed", &["source_filesystem"]),
    );

    let captured = match host.start_task(request("source-backed"), Ok(()), false, 0, 0) {
        Ok(spec) => spec,
        Err(reason) => panic!("source-backed child should start: {reason}"),
    };

    assert_eq!(captured.source_snapshot, Some(process_source));
    assert!(captured.source_revision.is_none());
    assert!(captured.required_capabilities.contains(Capability::SourceFilesystem));
}

#[test]
fn coordinator_main_artifact_release_is_capless_metadata_control() {
    let mut service = service(6);
    let (tenant, project, process) = (text("tenant"), text("project"), text("vp-release"));
    let main = scope("vp-release", "main", 6);
    service
        .coordinator
        .start_process(tenant.clone(), project.clone(), process.clone());
    service
        .main_runtime
        .controls
        .insert(process_control_key(&tenant, &project, &process), control(&main));
    let artifact = ArtifactHandle {
        id: text("main-release-artifact"),
        digest: text("sha256:main release bytes"),
        size_bytes: 18,
    };
    assert!(service
        .artifact_registry
        .flush_metadata_with_protected_processes(
            ArtifactFlush {
                id: artifact.id.clone(),
                tenant: tenant.clone(),
                project: project.clone(),
                process: process.clone(),
                producer_task: text("producer"),
                retaining_node: text("worker"),
                digest: artifact.digest.clone(),
                size: artifact.size_bytes,
            },
            &OrderedSet::new(),
            &OrderedSet::new(),
        )
        .is_ok());
    assert_eq!(service.artifact_registry.holds(&tenant, &project, &artifact.id).len(), 1);

    let mut main_host = host(main);
    assert!(main_host.vfs_operation(true, Ok(()), 0).is_ok());
    let step = service.main_runtime.command_step(&MainCommand::ReleaseArtifact {
        scope: scope("vp-release", "main", 6),
        artifact: artifact.id.clone(),
    });
    assert!(matches!(step, MainStep::Release));
    let released = match service
        .handle_coordinator_main_release_artifact(&tenant, &project, &process, &artifact)
    {
        Ok(released) => released,
        Err(_) => panic!("capless coordinator main release should succeed"),
    };
    assert!(released.hold_removed);
    assert!(released.remaining_holds.is_empty());
    assert!(service
        .artifact_registry
        .holds(&tenant, &project, &artifact.id)
        .is_empty());

    let materialize = main_host.vfs_operation(false, Ok(()), 0);
    assert!(materialize.unwrap_err().contains("cannot access task VFS files"));
}

#[test]
fn completed_main_releases_process_slot_and_debug_state() {
    let mut service = service(7);
    let (tenant, project, process) = (text("tenant"), text("project"), text("vp-current"));
    let main = scope("vp-current", "build", 7);
    service
        .coordinator
        .start_process(tenant.clone(), project.clone(), process.clone());
    let key = process_control_key(&tenant, &project, &process);
    service.main_runtime.controls.insert(key.clone(), control(&main));
    service.debug_registry.set_epoch(key.clone(), 2);
    service.debug_registry.set_runtime(
        key.clone(),
        DebugEpochRuntime {
            epoch: 2,
            command: DebugCommand::Resume,
            expected: OrderedSet::new(),
            acknowledgements: OrderedMap::new(),
            deadline: 0,
        },
    );

    let (event, ending) = service.record_coordinator_main_completion(
        &main,
        Ok(()),
        Ok(null_result()),
        None,
        &facts(false),
        &Vec::new(),
        &active(),
    );

    assert_eq!(event.terminal_state, TaskTerminalState::Completed);
    assert_eq!(event.status_code, Some(0));
    assert_eq!(ending.retirement, ProcessRetirement::Ended(ProcessFinalResult::Completed));
    assert!(!ending.abort_process);
    assert!(ending.aborted_tasks.is_empty());
    assert!(service
        .coordinator
        .active_process(&tenant, &project, &process)
        .is_none());
    assert_eq!(service.coordinator.active_process_count(), 0);
    assert!(!service.main_runtime.controls.contains_key(&key));
    assert!(service.debug_registry.epoch(&key).is_none());
    assert!(service.debug_registry.runtime(&key).is_none());
}

#[test]
fn completed_main_keeps_process_and_debug_state_for_active_children() {
    let mut service = service(7);
    let (tenant, project, process) = (text("tenant"), text("project"), text("vp-current"));
    let main = scope("vp-current", "build", 7);
    service
        .coordinator
        .start_process(tenant.clone(), project.clone(), process.clone());
    let key = process_control_key(&tenant, &project, &process);
    service.main_runtime.controls.insert(key.clone(), control(&main));
    service.debug_registry.set_epoch(key.clone(), 2);

    let (_, ending) = service.record_coordinator_main_completion(
        &main,
        Ok(()),
        Ok(null_result()),
        None,
        &facts(true),
        &Vec::new(),
        &active(),
    );

    assert_eq!(ending.retirement, ProcessRetirement::GoesOn);
    assert!(!ending.abort_process);
    assert!(!ending.aborted_tasks.contains(&child("vp-current")));
    assert!(service
        .coordinator
        .active_process(&tenant, &project, &process)
        .is_some());
    assert!(!service.main_runtime.controls.contains_key(&key));
    assert_eq!(service.debug_registry.epoch(&key), Some(2));
}

#[test]
fn failed_main_aborts_unfinished_children_and_clears_process_debug_state() {
    let mut service = service(7);
    let (tenant, project, process) = (text("tenant"), text("project"), text("vp-failed-main"));
    let main = scope("vp-failed-main", "build", 7);
    service
        .coordinator
        .start_process(tenant.clone(), project.clone(), process.clone());
    let key = process_control_key(&tenant, &project, &process);
    service.main_runtime.controls.insert(key.clone(), control(&main));
    service.debug_registry.set_epoch(key.clone(), 2);
    let tasks = active();

    let (event, ending) = service.record_coordinator_main_completion(
        &main,
        Ok(()),
        Err(text("main crashed")),
        None,
        &facts(true),
        &Vec::new(),
        &tasks,
    );

    assert_eq!(ending.retirement, ProcessRetirement::Ended(ProcessFinalResult::Failed));
    assert!(ending.abort_process);
    assert!(tasks.contains(&child("vp-failed-main")));
    assert!(ending.aborted_tasks.contains(&child("vp-failed-main")));
    assert_eq!(ending.aborted_tasks.count(), 1);
    assert!(service
        .coordinator
        .active_process(&tenant, &project, &process)
        .is_none());
    assert!(service.debug_registry.epoch(&key).is_none());
    assert_eq!(event.process, process);
    assert_eq!(event.executor, TaskExecutor::CoordinatorMain);
    assert_eq!(event.terminal_state, TaskTerminalState::Failed);
    assert_eq!(event.stderr_tail, "main crashed");
    assert_eq!(event.stderr_bytes, 12);
    assert_eq!(event.status_code, None);
}

#[test]
fn a_result_over_the_limits_fails_the_main() {
    let mut service = service(7);
    service.main_runtime.limits.max_state_bytes = 3;
    service.main_runtime.limits.max_output_bytes = 2;
    let main = scope("vp", "build", 7);
    let (event, _) = service.record_coordinator_main_completion(
        &main,
        Ok(()),
        Ok(null_result()),
        None,
        &facts(false),
        &Vec::new(),
        &active(),
    );
    assert_eq!(
        event.stderr_tail,
        "coordinator main result state exceeds the configured 3-byte limit"
    );
    let mut loud = null_result();
    loud.error = Some(text("abc"));
    let (event, _) = service.record_coordinator_main_completion(
        &main,
        Ok(()),
        Ok(loud),
        None,
        &facts(false),
        &Vec::new(),
        &active(),
    );
    assert_eq!(
        event.stderr_tail,
        "coordinator main error output exceeds the configured 2-byte limit"
    );
    let failed = MainResult {
        completed: false,
        result: None,
        encoded_bytes: None,
        error: None,
    };
    let (event, _) = service.record_coordinator_main_completion(
        &main,
        Ok(()),
        Ok(failed),
        None,
        &facts(false),
        &Vec::new(),
        &active(),
    );
    assert_eq!(event.stderr_tail, "coordinator main failed without an error");
    let (event, _) = service.record_coordinator_main_completion(
        &main,
        Err(text("for another task")),
        Ok(null_result()),
        None,
        &facts(false),
        &Vec::new(),
        &active(),
    );
    assert_eq!(event.stderr_tail, "for another task");
}

#[test]
fn commands_of_a_replaced_main_are_turned_away() {
    let mut service = service(7);
    let main = scope("vp", "build", 7);
    let key = process_control_key(&main.tenant, &main.project, &main.process);
    let mut current = control(&main);
    current.launch_id = 2;
    service.main_runtime.controls.insert(key.clone(), current);
    let stale = service.main_runtime.command_step(&MainCommand::JoinTask {
        scope: scope("vp", "build", 7),
        task_instance: text("child"),
    });
    assert!(matches!(
        stale,
        MainStep::Answer(reason) if reason == "coordinator main process incarnation was replaced"
    ));
    assert!(matches!(
        service
            .main_runtime
            .command_step(&MainCommand::Finished { scope: scope("vp", "build", 7) }),
        MainStep::Nothing
    ));
    let mut newer = scope("vp", "build", 7);
    newer.launch_id = 2;
    assert!(matches!(
        service.main_runtime.command_step(&MainCommand::StartTask {
            scope: newer,
            task_instance: text("child"),
        }),
        MainStep::Launch { artifact_path } if artifact_path == "/vfs/artifacts/child-result.json"
    ));
}

#[test]
fn a_main_that_joins_a_pending_task_is_told_of_its_end() {
    let mut service = service(7);
    let main = scope("vp", "build", 7);
    let join = |state, message: &str| TaskJoinResult {
        process: text("vp"),
        task: text("child"),
        node: None,
        state,
        result: None,
        status_code: None,
        message: text(message),
    };
    assert!(matches!(
        service
            .main_runtime
            .join_task(&main, &text("child"), join(TaskJoinState::Failed, "broke")),
        JoinAnswer::Ready(Err(reason)) if reason == "broke"
    ));
    assert!(matches!(
        service
            .main_runtime
            .join_task(&main, &text("child"), join(TaskJoinState::Completed, "")),
        JoinAnswer::Ready(Err(reason))
            if reason == "completed child task omitted its boundary result"
    ));
    assert!(matches!(
        service
            .main_runtime
            .join_task(&main, &text("child"), join(TaskJoinState::Pending, "")),
        JoinAnswer::Waiting
    ));
    let (mut event, _) = service.record_coordinator_main_completion(
        &main,
        Ok(()),
        Ok(null_result()),
        None,
        &facts(true),
        &Vec::new(),
        &active(),
    );
    event.task = text("child");
    match service.main_runtime.notify_waiters(&event) {
        Some(Ok(value)) => assert_eq!(value.content, "null"),
        _ => panic!("the main waits for the child"),
    }
    assert!(service.main_runtime.notify_waiters(&event).is_none());
}

#[test]
fn a_main_is_woken_only_so_often_in_a_minute() {
    let mut rate = GuestWakeRate::new(2, 1_000);
    assert!(rate.charge(1_000).is_ok());
    assert!(rate.charge(1_001).is_ok());
    assert_eq!(
        rate.charge(1_002).unwrap_err(),
        "coordinator main wake-rate limit of 2 per minute reached"
    );
    assert!(rate.charge(61_000).is_ok());
}

#[test]
fn a_child_that_the_bundle_lacks_is_refused() {
    let mut host = host(scope("vp", "main", 7));
    assert!(matches!(
        host.start_task(request("absent"), Ok(()), false, 0, 0),
        Err(reason) if reason == "bundle has no task descriptor named `absent`"
    ));
    assert!(matches!(
        host.start_task(request("absent"), Ok(()), true, 0, 0),
        Err(reason) if reason == "coordinator main is stopping"
    ));
    assert_eq!(host.task_started(), 1);
    assert_eq!(host.task_started(), 2);
    assert_eq!(
        host.run_command(0),
        "coordinator main is capless and cannot run native commands"
    );
    assert_eq!(
        host.snapshot_source(0),
        "coordinator main is capless and cannot access source checkouts"
    );
    assert!(matches!(
        host.trigger_context(Ok(()), 0),
        Err(reason) if reason == "this Wasm invocation has no forge trigger context"
    ));
}

#[test]
fn a_process_has_one_main_and_the_refusal_names_the_process_that_asks() {
    let mut service = service(7);
    let key = process_control_key(&text("tenant"), &text("project"), &text("vp"));
    assert!(service.main_runtime.ensure_launch_capacity(&key, &text("vp")).is_ok());
    let main = scope("vp", "build", 7);
    service.main_runtime.controls.insert(key.clone(), control(&main));
    for name in ["vp", "vp-other"] {
        match service.main_runtime.ensure_launch_capacity(&key, &text(name)) {
            Err(error) => assert!(error.message("").contains(&format!(
                "virtual process {name} already has a coordinator main instance"
            ))),
            Ok(_) => panic!("the process has a main"),
        }
    }
    service.main_runtime.limits.max_active_mains = 1;
    let other = process_control_key(&text("tenant"), &text("project"), &text("vp-other"));
    match service.main_runtime.ensure_launch_capacity(&other, &text("vp-other")) {
        Err(error) => assert!(error.message("").contains(
            "admission.coordinator_main_limit: global coordinator-main limit of 1 reached"
        )),
        Ok(_) => panic!("there is no room for another main"),
    }
}
