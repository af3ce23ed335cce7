use base64::Engine;
use clusterflux_coordinator::artifact_registry::ArtifactFlush;
use clusterflux_coordinator::capability::Capabilities;
use clusterflux_coordinator::configuration::{
    CoordinatorAdmission, CoordinatorMainRuntimeConfiguration,
    CoordinatorServiceStartupConfiguration, MainRuntimeCeilings,
};
use clusterflux_coordinator::coordinator::Coordinator;
use clusterflux_coordinator::debug::DebugCharge;
use clusterflux_coordinator::duplicate::TextList;
use clusterflux_coordinator::durable::InMemoryDurableStore;
use clusterflux_coordinator::ordered_set::OrderedSet;
use clusterflux_coordinator::restart::{
    restart_assignment, validate_task_replacement, ReplacementChecks, RestartFacts,
    RestartOutcome, RestartStep, TaskFailureResolution, TaskReplacementBundle,
    ValidatedTaskReplacement,
};
use clusterflux_coordinator::service::CoordinatorService;
use clusterflux_coordinator::service_error::CoordinatorServiceError;
use clusterflux_coordinator::tasks::{
    CheckpointBoundary, TaskAssignment, TaskCheckpoint, TaskCompletionEvent, TaskDispatch,
    TaskExecutor, TaskFailurePolicy, TaskSpec, TaskTerminalState, VfsObject, WasmExportAbi,
};

fn text(value: &str) -> String {
    value.to_owned()
}

fn service() -> CoordinatorService {
    let mut coordinator = Coordinator::boot(&InMemoryDurableStore::default(), 1);
    coordinator.upsert_project(text("tenant"), text("project"), text("demo"));
    coordinator.start_process(text("tenant"), text("project"), text("vp"));
    coordinator.grant_project_debug(text("tenant"), text("project"), text("user"));
    match CoordinatorService::new_with_startup_configuration(
        coordinator,
        None,
        CoordinatorAdmission::default(),
        CoordinatorServiceStartupConfiguration::default(),
        CoordinatorMainRuntimeConfiguration::default_for(MainRuntimeCeilings {
            max_mains: 8,
            max_state_bytes: 1_048_576,
        }),
        100,
    ) {
        Ok(service) => service,
        Err(_) => panic!("the default configuration is accepted"),
    }
}

fn spec(source: Option<&str>) -> TaskSpec {
    TaskSpec {
        tenant: text("tenant"),
        project: text("project"),
        process: text("vp"),
        task_definition: text("build"),
        task_instance: text("task"),
        dispatch: TaskDispatch::Other(text("local")),
        environment_id: None,
        environment: None,
        environment_digest: None,
        required_capabilities: Capabilities::none(),
        dependency_cache: None,
        source_snapshot: source.map(text),
        source_revision: None,
        required_artifacts: TextList::empty(),
        args: Vec::new(),
        requested_secrets: TextList::empty(),
        vfs_epoch: 3,
        failure_policy: TaskFailurePolicy::AwaitOperator,
        bundle_digest: None,
    }
}

fn assignment(source: Option<&str>) -> TaskAssignment {
    TaskAssignment {
        node: text("worker"),
        task: text("task"),
        task_spec: spec(source),
        artifact_path: text("/vfs/artifacts/task-result.json"),
        wasm_module_base64: text("AAAA"),
    }
}

fn checkpoint(objects: Vec<VfsObject>) -> TaskCheckpoint {
    TaskCheckpoint {
        assignment: assignment(None),
        boundary: CheckpointBoundary {
            task_entrypoint: text("entry"),
            serialized_args: text("[]"),
            environment_digest: text("sha256:environment"),
            task_abi: text("sha256:abi"),
        },
        objects,
    }
}

fn facts(checkpoint: Option<TaskCheckpoint>) -> RestartFacts {
    let checked_names = match &checkpoint {
        Some(checkpoint) => checkpoint.objects.iter().map(|_| Ok(())).collect(),
        None => Vec::new(),
    };
    RestartFacts { active_task: false, completed_event_observed: true, checkpoint, checked_names }
}

fn checks() -> ReplacementChecks {
    ReplacementChecks {
        actual_digest: text("sha256:edited"),
        compatibility: Ok(text("sha256:compatible")),
        manifest: Ok(Vec::new()),
        abi_version: 1,
        unconstrained_environment: text("sha256:unconstrained"),
    }
}

fn charge() -> DebugCharge {
    DebugCharge { granted: Ok(()), used_bytes: 7 }
}

fn restart(
    service: &mut CoordinatorService,
    user: &str,
    facts: &RestartFacts,
    bundle: Option<TaskReplacementBundle>,
) -> Result<RestartStep, CoordinatorServiceError> {
    service.handle_restart_task(
        &text("tenant"),
        &text("project"),
        &text("vp"),
        &text("task"),
        &text(user),
        facts,
        &bundle,
        checks(),
        &charge(),
    )
}

fn settled(step: Result<RestartStep, CoordinatorServiceError>) -> String {
    match step {
        Ok(RestartStep::Settled(text)) => text,
        Ok(RestartStep::Decide(..)) => panic!("nothing stands in the way"),
        Err(error) => panic!("{}", error.message("")),
    }
}

#[test]
fn restarts_that_cannot_be_say_why() {
    let mut service = service();
    let mut active = facts(None);
    active.active_task = true;
    assert!(settled(restart(&mut service, "user", &active, None))
        .starts_with("selected task is still active; wait for its terminal event"));
    let mut unknown = facts(None);
    unknown.completed_event_observed = false;
    assert!(settled(restart(&mut service, "user", &unknown, None))
        .starts_with("selected task is not known in the active process"));
    assert!(settled(restart(&mut service, "user", &facts(None), None))
        .contains("no captured clean VFS entry boundary"));
    let gone = facts(Some(checkpoint(vec![VfsObject {
        path: text("/vfs/artifacts/output"),
        digest: text("sha256:output"),
        size: 4,
    }])));
    assert!(settled(restart(&mut service, "user", &gone, None))
        .contains("references VFS artifacts that are no longer retained"));
    let astray = facts(Some(checkpoint(vec![VfsObject {
        path: text("/elsewhere"),
        digest: text("sha256:output"),
        size: 4,
    }])));
    assert!(matches!(
        restart(&mut service, "user", &astray, None),
        Err(CoordinatorServiceError::InvalidArtifactPath(_))
    ));
}

#[test]
fn a_restart_takes_the_right_to_debug() {
    let mut service = service();
    match restart(&mut service, "stranger", &facts(None), None) {
        Err(error) => assert!(error
            .message("")
            .contains("task restart denied: debug attach requires explicit project permission")),
        Ok(_) => panic!("the user has no right"),
    }
    let denied = service.debug_registry.audit_events().last().unwrap();
    assert_eq!(denied.operation, "restart_task");
    assert_eq!(denied.task.as_deref(), Some("task"));
    assert!(!denied.allowed);
    assert_eq!(denied.charged_debug_read_bytes, 0);
    assert_eq!(denied.used_debug_read_bytes, 7);
}

#[test]
fn a_task_whose_files_are_held_is_held_against_its_checkpoint() {
    let mut service = service();
    assert!(service
        .artifact_registry
        .flush_metadata_with_protected_processes(
            ArtifactFlush {
                id: text("output"),
                tenant: text("tenant"),
                project: text("project"),
                process: text("vp"),
                producer_task: text("task"),
                retaining_node: text("worker"),
                digest: text("sha256:output"),
                size: 4,
            },
            &OrderedSet::new(),
            &OrderedSet::new(),
        )
        .is_ok());
    let held = facts(Some(checkpoint(vec![VfsObject {
        path: text("/vfs/artifacts/output"),
        digest: text("sha256:output"),
        size: 4,
    }])));
    match restart(&mut service, "user", &held, None) {
        Ok(RestartStep::Decide(request, None)) => {
            assert_eq!(request.task, "task");
            assert_eq!(request.entrypoint, "entry");
            assert_eq!(request.serialized_args, "[]");
            assert_eq!(request.environment_digest, "sha256:environment");
            assert_eq!(request.task_abi, "sha256:abi");
            assert!(!request.source_edited);
        }
        _ => panic!("the files are held"),
    }
}

fn leb_u32(mut value: u32) -> Vec<u8> {
    let mut encoded = Vec::new();
    loop {
        let mut byte = (value & 0x7f) as u8;
        value >>= 7;
        if value != 0 {
            byte |= 0x80;
        }
        encoded.push(byte);
        if value == 0 {
            return encoded;
        }
    }
}

fn edited(record: &str) -> TaskReplacementBundle {
    let name = "clusterflux.tasks";
    let mut section = leb_u32(name.len() as u32);
    section.extend_from_slice(name.as_bytes());
    section.extend_from_slice(record.as_bytes());
    section.push(b'\n');
    let mut module = b"\0asm\x01\0\0\0".to_vec();
    module.push(0);
    module.extend(leb_u32(section.len() as u32));
    module.extend(section);
    TaskReplacementBundle {
        bundle_digest: text("sha256:edited"),
        wasm_module_base64: base64::engine::general_purpose::STANDARD.encode(module),
        source_snapshot: None,
    }
}

fn validated(
    bundle: &TaskReplacementBundle,
) -> Result<ValidatedTaskReplacement, CoordinatorServiceError> {
    validate_task_replacement(bundle, &text("build"), &None, checks())
}

fn protest<T>(result: Result<T, CoordinatorServiceError>) -> String {
    match result {
        Err(CoordinatorServiceError::Protocol(text)) => text,
        Err(_) => panic!("another error"),
        Ok(_) => panic!("no error"),
    }
}

const BUILD: &str =
    r#"{"name":"build","export":"run","abi_version":1,"restart_compatibility_hash":"sha256:c"}"#;

#[test]
fn an_edited_module_fits_its_task() {
    let found = match validated(&edited(BUILD)) {
        Ok(found) => found,
        Err(error) => panic!("{}", error.message("")),
    };
    assert_eq!(found.export, "run");
    assert_eq!(found.restart_compatibility, "sha256:compatible");
    assert_eq!(found.environment_digest, "sha256:unconstrained");
    assert_eq!(found.bundle_digest, "sha256:edited");
    assert!(found.environment.is_none());
}

#[test]
fn edited_modules_that_do_not_fit_are_refused() {
    let mut torn = edited(BUILD);
    torn.wasm_module_base64 = text("not base64!");
    assert!(protest(validated(&torn))
        .starts_with("replacement task bundle is not valid base64: Invalid symbol"));
    let mut other = edited(BUILD);
    other.bundle_digest = text("sha256:else");
    assert_eq!(
        protest(validated(&other)),
        "replacement task bundle digest mismatch: expected sha256:else, actual sha256:edited"
    );
    assert_eq!(
        protest(validated(&edited(r#"{"name":"check"}"#))),
        "replacement bundle has no task definition `build`"
    );
    assert_eq!(
        protest(validated(&edited(r#"{"name":"build","export":"run","abi_version":2}"#))),
        "replacement task `build` uses an unsupported task ABI"
    );
    assert_eq!(
        protest(validated(&edited(r#"{"name":"build","export":"","abi_version":1}"#))),
        "replacement task `build` omitted its export"
    );
    assert_eq!(
        protest(validated(&edited(r#"{"name":"build","export":"run","abi_version":1}"#))),
        "replacement task `build` omitted restart compatibility metadata"
    );
    assert_eq!(
        protest(validate_task_replacement(
            &edited(BUILD),
            &text("build"),
            &Some(text("linux")),
            checks(),
        )),
        "replacement bundle has no environment `linux`"
    );
}

#[test]
fn a_restarted_task_runs_as_its_next_attempt() {
    let again = match restart_assignment(
        assignment(None),
        &text("task"),
        1,
        None,
        &None,
        Err(text("unused")),
    ) {
        Ok(again) => again,
        Err(error) => panic!("{}", error.message("")),
    };
    assert_eq!(again.artifact_path, "/vfs/artifacts/task-attempt-2-result.json");
    assert_eq!(again.wasm_module_base64, "AAAA");
    assert!(matches!(again.task_spec.dispatch, TaskDispatch::Other(_)));
}

#[test]
fn an_edited_module_of_a_task_with_a_source_brings_one_along() {
    let replacement = || match validated(&edited(BUILD)) {
        Ok(found) => Some(found),
        Err(error) => panic!("{}", error.message("")),
    };
    assert_eq!(
        protest(restart_assignment(
            assignment(Some("sha256:old")),
            &text("task"),
            1,
            replacement(),
            &None,
            Ok(spec(Some("sha256:new"))),
        )),
        "replacement task omitted the current SourceSnapshot for source-bound arguments"
    );
    assert_eq!(
        protest(restart_assignment(
            assignment(Some("sha256:old")),
            &text("task"),
            1,
            replacement(),
            &Some(text("sha256:new")),
            Err(text("no such argument")),
        )),
        "replacement task SourceSnapshot is invalid: no such argument"
    );
    match restart_assignment(
        assignment(Some("sha256:old")),
        &text("task"),
        4,
        replacement(),
        &Some(text("sha256:new")),
        Ok(spec(Some("sha256:new"))),
    ) {
        Ok(again) => {
            assert_eq!(again.task_spec.source_snapshot.as_deref(), Some("sha256:new"));
            assert_eq!(again.task_spec.bundle_digest.as_deref(), Some("sha256:edited"));
            assert_eq!(again.artifact_path, "/vfs/artifacts/task-attempt-5-result.json");
            assert!(matches!(
                again.task_spec.dispatch,
                TaskDispatch::CoordinatorNodeWasm { export: Some(export), abi: WasmExportAbi::TaskV1 }
                    if export == "run"
            ));
        }
        Err(error) => panic!("{}", error.message("")),
    }
}

#[test]
fn the_user_is_told_what_became_of_a_restart() {
    let mut service = service();
    let answer = match service.finish_task_restart(
        &text("tenant"),
        &text("project"),
        &text("vp"),
        &text("task"),
        &text("user"),
        false,
        true,
        RestartOutcome::Launched { from_vfs_epoch: 3, attempt: Some(text("attempt-2")) },
        &charge(),
    ) {
        Ok(answer) => answer,
        Err(error) => panic!("{}", error.message("")),
    };
    assert!(answer.accepted);
    assert!(answer.clean_boundary_available);
    assert!(!answer.requires_whole_process_restart);
    assert_eq!(answer.restarted_task_instance.as_deref(), Some("task"));
    assert_eq!(answer.restarted_attempt_id.as_deref(), Some("attempt-2"));
    assert_eq!(
        answer.message,
        "selected logical task task restarted as a new attempt from clean VFS entry boundary \
         epoch 3; unflushed task changes were discarded"
    );
    assert_eq!(answer.audit_event.charged_debug_read_bytes, 1024);
    match service.finish_task_restart(
        &text("tenant"),
        &text("project"),
        &text("vp"),
        &text("task"),
        &text("user"),
        true,
        false,
        RestartOutcome::Settled(text("not now")),
        &DebugCharge { granted: Err(text("debug budget spent")), used_bytes: 0 },
    ) {
        Err(CoordinatorServiceError::Resource(reason)) => assert_eq!(reason, "debug budget spent"),
        _ => panic!("the charge was not granted"),
    }
}

fn failed_event() -> TaskCompletionEvent {
    TaskCompletionEvent {
        tenant: text("tenant"),
        project: text("project"),
        process: text("vp"),
        node: text("worker"),
        executor: TaskExecutor::Node,
        task_definition: text("build"),
        task: text("task"),
        attempt_id: Some(text("attempt-1")),
        placement: None,
        terminal_state: TaskTerminalState::Failed,
        status_code: Some(2),
        stdout_bytes: 0,
        stderr_bytes: 4,
        stdout_tail: String::new(),
        stderr_tail: text("oops"),
        stdout_truncated: false,
        stderr_truncated: false,
        artifact_path: None,
        artifact_digest: None,
        artifact_size_bytes: None,
        result: None,
    }
}

#[test]
fn an_operator_decides_what_a_failed_task_ended_as() {
    let service = service();
    let resolve = |user: &str, resolution, attempt: Option<&str>, event| {
        service.handle_resolve_task_failure(
            &text("tenant"),
            &text("project"),
            &text("vp"),
            &text(user),
            resolution,
            attempt.map(text),
            event,
        )
    };
    let accept = TaskFailureResolution::AcceptFailure;
    match resolve("user", accept, Some("attempt-1"), Some(failed_event())) {
        Ok((attempt, event)) => {
            assert_eq!(attempt, "attempt-1");
            assert_eq!(event.terminal_state, TaskTerminalState::Failed);
            assert_eq!(event.stderr_tail, "oops");
        }
        Err(error) => panic!("{}", error.message("")),
    }
    let cancel = TaskFailureResolution::Cancel;
    match resolve("user", cancel, Some("attempt-1"), Some(failed_event())) {
        Ok((_, event)) => {
            assert_eq!(event.terminal_state, TaskTerminalState::Cancelled);
            assert_eq!(event.stderr_tail, "operator cancelled task after failure");
        }
        Err(error) => panic!("{}", error.message("")),
    }
    assert_eq!(
        protest(resolve("user", accept, None, Some(failed_event()))),
        "task is not failed awaiting operator action"
    );
    assert_eq!(
        protest(resolve("user", accept, Some("attempt-1"), None)),
        "failed attempt terminal event is unavailable"
    );
    match resolve("stranger", accept, Some("attempt-1"), Some(failed_event())) {
        Err(error) => assert!(error.message("").contains("task failure resolution denied: ")),
        Ok(_) => panic!("the user has no right"),
    }
}
