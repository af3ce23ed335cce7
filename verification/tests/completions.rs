use clusterflux_coordinator::automation::ProcessFinalResult;
use clusterflux_coordinator::configuration::{
    CoordinatorAdmission, CoordinatorMainRuntimeConfiguration,
    CoordinatorServiceStartupConfiguration, MainRuntimeCeilings,
};
use clusterflux_coordinator::coordinator::{Coordinator, CoordinatorError};
use clusterflux_coordinator::duplicate::TextList;
use clusterflux_coordinator::durable::InMemoryDurableStore;
use clusterflux_coordinator::keys::task_restart_key;
use clusterflux_coordinator::logs::{
    ArtifactClaim, CompletionFacts, LogChunk, LogLine, LogStreamState, ProcessFacts,
    ProcessRetirement, ProcessSightings, RecentLogEntry, TaskAttempts, TaskCompletion,
    TaskCompletionReport, TaskLogReport, VfsReport,
};
use clusterflux_coordinator::service::CoordinatorService;
use clusterflux_coordinator::service_error::CoordinatorServiceError;
use clusterflux_coordinator::tasks::{
    TaskAttempt, TaskAttemptState, TaskBoundaryValue, TaskCompletionOrigin, TaskFailurePolicy,
    TaskJoinState, TaskLogStream, TaskTerminalState,
};

fn text(value: &str) -> String {
    value.to_owned()
}

fn service() -> CoordinatorService {
    let mut coordinator = Coordinator::boot(&InMemoryDurableStore::default(), 1);
    coordinator.enroll_node(
        text("tenant"),
        text("project"),
        text("worker"),
        text("key"),
        text("node:attach"),
    );
    coordinator.start_process(text("tenant"), text("project"), text("vp"));
    match CoordinatorService::new_with_startup_configuration(
        coordinator,
        None,
        CoordinatorAdmission::default(),
        CoordinatorServiceStartupConfiguration::default(),
        CoordinatorMainRuntimeConfiguration::default_for(MainRuntimeCeilings {
            max_mains: 8,
            max_state_bytes: 1_048_576,
        }),
        100,
    ) {
        Ok(service) => service,
        Err(_) => panic!("the default configuration is accepted"),
    }
}

fn logs(stdout: &str, stderr: &str) -> TaskLogReport {
    TaskLogReport {
        stdout_bytes: stdout.len() as u64,
        stderr_bytes: stderr.len() as u64,
        stdout_tail: text(stdout),
        stderr_tail: text(stderr),
        stdout_truncated: false,
        stderr_truncated: false,
    }
}

fn report(terminal_state: TaskTerminalState) -> TaskCompletionReport {
    TaskCompletionReport {
        node: text("worker"),
        task: text("task"),
        terminal_state,
        status_code: Some(0),
        logs: logs("out", ""),
        artifact_path: Some(text("/vfs/artifacts/output")),
        artifact_digest: Some(text("sha256:output")),
        artifact_size_bytes: None,
        result: Some(TaskBoundaryValue {
            content: text("42"),
            required_artifacts: TextList::empty(),
            source_snapshots: TextList::empty(),
        }),
    }
}

fn facts() -> CompletionFacts {
    CompletionFacts {
        origin: TaskCompletionOrigin::SignedNode,
        stopping: false,
        process_was_aborted: false,
        assigned: Some((text("worker"), text("build"))),
        placement: Some(text("placed")),
        path_checked: Ok(()),
        name_checked: Ok(()),
        stdout_granted: true,
        stderr_granted: true,
        now: 200,
    }
}

fn attempt() -> TaskAttempt {
    TaskAttempt {
        attempt_id: text("attempt-1"),
        state: TaskAttemptState::Running,
        failure_policy: TaskFailurePolicy::AwaitOperator,
        status_code: None,
        artifact_path: None,
        artifact_digest: None,
        artifact_size_bytes: None,
        error: None,
        command_state: None,
        probe_symbol: None,
    }
}

fn complete(
    service: &mut CoordinatorService,
    report: &TaskCompletionReport,
    facts: &CompletionFacts,
    attempt: &mut Option<TaskAttempt>,
) -> Result<TaskCompletion, CoordinatorServiceError> {
    service.handle_task_completed(
        &text("tenant"),
        &text("project"),
        &text("vp"),
        report,
        facts,
        &Vec::new(),
        &mut LogStreamState::new(),
        &mut LogStreamState::new(),
        attempt,
    )
}

fn waiter(service: &mut CoordinatorService) {
    service.main_runtime.join_waiters.insert(task_restart_key(
        &text("tenant"),
        &text("project"),
        &text("vp"),
        &text("task"),
    ));
}

#[test]
fn the_end_of_a_task_records_what_it_left() {
    let mut service = service();
    waiter(&mut service);
    let mut running = Some(attempt());
    let ended = match complete(
        &mut service,
        &report(TaskTerminalState::Completed),
        &facts(),
        &mut running,
    ) {
        Ok(ended) => ended,
        Err(error) => panic!("{}", error.message("")),
    };
    assert_eq!(ended.event.task_definition, "build");
    assert_eq!(ended.event.attempt_id.as_deref(), Some("attempt-1"));
    assert_eq!(ended.event.placement.as_deref(), Some("placed"));
    assert_eq!(ended.event.stdout_bytes, 3);
    assert_eq!(ended.stdout_lines.len(), 1);
    assert_eq!(ended.stdout_lines[0].text, "out");
    assert!(!ended.awaiting_operator);
    assert!(!ended.drop_checkpoint);
    match ended.notice {
        Some(Ok(value)) => assert_eq!(value.content, "42"),
        _ => panic!("a main waits for the task"),
    }
    assert!(service.main_runtime.join_waiters.is_empty());
    let running = running.unwrap();
    assert_eq!(running.state, TaskAttemptState::Completed);
    assert_eq!(running.command_state.as_deref(), Some("completed"));
    let metadata = service
        .artifact_registry
        .metadata(&text("tenant"), &text("project"), &text("output"))
        .unwrap();
    assert_eq!(metadata.size, 3);
    assert_eq!(metadata.digest, "sha256:output");
}

#[test]
fn a_failure_waits_for_an_operator_where_the_task_says_so() {
    let mut service = service();
    waiter(&mut service);
    let mut failed = report(TaskTerminalState::Failed);
    failed.logs = logs("", "oops");
    let mut running = Some(attempt());
    let ended = match complete(&mut service, &failed, &facts(), &mut running) {
        Ok(ended) => ended,
        Err(error) => panic!("{}", error.message("")),
    };
    assert!(ended.awaiting_operator);
    assert!(ended.notice.is_none());
    assert!(!service.main_runtime.join_waiters.is_empty());
    let running = running.unwrap();
    assert_eq!(running.state, TaskAttemptState::FailedAwaitingAction);
    assert_eq!(running.error.as_deref(), Some("oops"));
    let mut fast = Some(attempt());
    if let Some(fast) = &mut fast {
        fast.failure_policy = TaskFailurePolicy::FailFast;
    }
    match complete(&mut service, &failed, &facts(), &mut fast) {
        Ok(ended) => {
            assert!(!ended.awaiting_operator);
            assert!(matches!(ended.notice, Some(Err(reason)) if reason == "oops"));
        }
        Err(error) => panic!("{}", error.message("")),
    }
}

#[test]
fn ends_of_tasks_that_do_not_count_change_nothing() {
    let mut service = service();
    let denied = |service: &mut CoordinatorService, report: &TaskCompletionReport, facts: &CompletionFacts| {
        match complete(service, report, facts, &mut None) {
            Err(error) => error.message(""),
            Ok(_) => panic!("the end does not count"),
        }
    };
    let done = report(TaskTerminalState::Completed);
    let mut unassigned = facts();
    unassigned.assigned = None;
    assert!(denied(&mut service, &done, &unassigned)
        .contains("does not name a coordinator-issued task instance"));
    let mut elsewhere = facts();
    elsewhere.assigned = Some((text("another"), text("build")));
    assert!(denied(&mut service, &done, &elsewhere)
        .contains("came from a node other than the assigned node"));
    let mut stranger = report(TaskTerminalState::Completed);
    stranger.node = text("stranger");
    assert!(matches!(
        complete(&mut service, &stranger, &facts(), &mut None),
        Err(CoordinatorServiceError::Coordinator(CoordinatorError::UnknownNode))
    ));
    let mut misnamed = report(TaskTerminalState::Completed);
    misnamed.artifact_path = Some(text("/elsewhere"));
    assert!(matches!(
        complete(&mut service, &misnamed, &facts(), &mut None),
        Err(CoordinatorServiceError::InvalidArtifactPath(_))
    ));
    let mut long = report(TaskTerminalState::Completed);
    long.logs.stdout_tail = "x".repeat(262_145);
    assert!(matches!(
        complete(&mut service, &long, &facts(), &mut None),
        Err(CoordinatorServiceError::InvalidTaskLogTail(_))
    ));
    assert_eq!(
        service
            .artifact_registry
            .metadata(&text("tenant"), &text("project"), &text("output"))
            .is_some(),
        false
    );
}

#[test]
fn streams_over_the_quota_keep_a_note() {
    let mut service = service();
    let mut unpaid = facts();
    unpaid.stdout_granted = false;
    unpaid.process_was_aborted = true;
    match complete(
        &mut service,
        &report(TaskTerminalState::Completed),
        &unpaid,
        &mut None,
    ) {
        Ok(ended) => {
            assert_eq!(ended.event.stdout_tail, "[log output truncated at project log quota]");
            assert!(ended.event.stdout_truncated);
            assert!(ended.event.attempt_id.is_none());
            assert!(ended.drop_checkpoint);
        }
        Err(error) => panic!("{}", error.message("")),
    }
}

#[test]
fn nodes_report_parts_of_streams_of_running_processes() {
    let service = service();
    let chunk = |offset: u64, content: &str| LogChunk {
        offset,
        source_bytes: content.len() as u64,
        text: text(content),
        truncated: false,
    };
    let mut stream = LogStreamState::new();
    let reported = |process: &str, stream: &mut LogStreamState, chunk: &LogChunk| {
        service.handle_report_task_log_chunk(
            &text("tenant"),
            &text("project"),
            &text(process),
            &text("worker"),
            false,
            stream,
            chunk,
            true,
        )
    };
    match reported("vp", &mut stream, &chunk(0, "hello")) {
        Ok(record) => assert_eq!(record.next_offset, 5),
        Err(error) => panic!("{}", error.message("")),
    }
    match reported("other", &mut stream, &chunk(5, "more")) {
        Err(error) => assert!(error
            .message("")
            .contains("virtual process is not active in coordinator memory")),
        Ok(_) => panic!("the process does not run"),
    }
    let long = "x".repeat(16_385);
    assert!(matches!(
        reported("vp", &mut stream, &chunk(5, &long)),
        Err(CoordinatorServiceError::InvalidTaskLogTail(reason))
            if reason == "live log chunk is 16385 bytes; max is 16384"
    ));
    match service.log_chunk_charge(
        &text("tenant"),
        &text("project"),
        &text("vp"),
        &text("worker"),
        false,
        &stream,
        &chunk(3, "lo more"),
    ) {
        Ok(charge) => assert_eq!(charge, Some(5)),
        Err(error) => panic!("{}", error.message("")),
    }
}

#[test]
fn nodes_report_the_ends_of_both_streams() {
    let service = service();
    let mut stdout = LogStreamState::new();
    let mut stderr = LogStreamState::new();
    let record = match service.handle_report_task_log(
        &text("tenant"),
        &text("project"),
        &text("vp"),
        &text("worker"),
        false,
        &logs("out", "err"),
        &mut stdout,
        &mut stderr,
        true,
        false,
    ) {
        Ok(record) => record,
        Err(error) => panic!("{}", error.message("")),
    };
    assert_eq!(record.stdout_tail, "out");
    assert_eq!(record.stdout_bytes, 3);
    assert_eq!(record.stderr_tail, "[log output truncated at project log quota]");
    assert_eq!(stdout.accounted, 3);
    assert!(stderr.quota_truncated);
}

#[test]
fn a_process_retires_once_nothing_of_it_runs() {
    let retire = |service: &mut CoordinatorService, facts: &ProcessFacts| {
        service.maybe_retire_terminal_process(
            &text("tenant"),
            &text("project"),
            &text("vp"),
            facts,
            &Vec::new(),
        )
    };
    let facts = |runnable: bool, main: bool, failed: bool| ProcessFacts {
        runnable_remote_work: runnable,
        main_completed: main,
        cancelled: false,
        any_task_failed: failed,
        any_task_cancelled: false,
    };
    let mut service = service();
    assert_eq!(retire(&mut service, &facts(true, true, false)), ProcessRetirement::GoesOn);
    assert_eq!(retire(&mut service, &facts(false, false, false)), ProcessRetirement::GoesOn);
    assert_eq!(service.coordinator.active_process_count(), 1);
    assert_eq!(
        retire(&mut service, &facts(false, true, true)),
        ProcessRetirement::Ended(ProcessFinalResult::Failed)
    );
    assert_eq!(service.coordinator.active_process_count(), 0);
}

#[test]
fn a_file_that_a_task_left_is_recorded() {
    let mut service = service();
    let claims = vec![ArtifactClaim {
        tenant: text("tenant"),
        project: text("project"),
        required_artifacts: TextList { items: vec![text("kept")] },
    }];
    let vfs = |service: &mut CoordinatorService, path: Option<&str>, digest: Option<&str>| {
        service.handle_report_vfs_metadata(
            &text("tenant"),
            &text("project"),
            &text("vp"),
            &VfsReport {
                node: text("worker"),
                task: text("task"),
                artifact_path: path.map(text),
                artifact_digest: digest.map(text),
                artifact_size_bytes: Some(9),
            },
            false,
            Ok(()),
            Ok(()),
            &claims,
            200,
        )
    };
    assert!(vfs(&mut service, Some("/vfs/artifacts/output"), Some("sha256:output")).is_ok());
    let metadata = service
        .artifact_registry
        .metadata(&text("tenant"), &text("project"), &text("output"))
        .unwrap();
    assert_eq!(metadata.size, 9);
    assert!(vfs(&mut service, Some("/elsewhere"), Some("sha256:output")).is_err());
    let (artifacts, processes) = service.artifact_retention_guards_for_project(
        &text("tenant"),
        &text("project"),
        &claims,
    );
    assert!(artifacts.contains(&(text("tenant"), text("project"), text("kept"))));
    assert!(processes.contains(&text("vp")));
}

#[test]
fn tasks_are_told_of_in_their_own_scope() {
    let mut service = service();
    let ended = match complete(
        &mut service,
        &report(TaskTerminalState::Completed),
        &facts(),
        &mut Some(attempt()),
    ) {
        Ok(ended) => ended,
        Err(error) => panic!("{}", error.message("")),
    };
    let events = vec![ended.event];
    let nowhere = ProcessSightings { seen_in_scope: false, seen_outside_scope: false };
    match service.handle_list_task_events(
        &text("tenant"),
        &text("project"),
        &Some(text("vp")),
        &events,
        &nowhere,
    ) {
        Ok(listed) => assert_eq!(listed.len(), 1),
        Err(error) => panic!("{}", error.message("")),
    }
    match service.handle_list_task_events(&text("tenant"), &text("other"), &None, &events, &nowhere) {
        Ok(listed) => assert!(listed.is_empty()),
        Err(error) => panic!("{}", error.message("")),
    }
    let outside = ProcessSightings { seen_in_scope: false, seen_outside_scope: true };
    assert!(service
        .authorize_task_event_process_scope(
            &text("tenant"),
            &text("other"),
            &text("vp"),
            &outside,
        )
        .is_err());
    let attempts = vec![TaskAttempts {
        tenant: text("tenant"),
        project: text("project"),
        process: text("vp"),
        attempts: vec![attempt()],
    }];
    match service.handle_list_task_snapshots(
        &text("tenant"),
        &text("project"),
        &text("vp"),
        &attempts,
        &nowhere,
    ) {
        Ok(snapshots) => assert_eq!(snapshots[0].attempt_id, "attempt-1"),
        Err(error) => panic!("{}", error.message("")),
    }
    let entries = vec![RecentLogEntry {
        sequence: 8,
        stream: TaskLogStream::Stdout,
        line: LogLine { text: text("out"), truncated: false },
    }];
    match service.handle_list_recent_logs(
        &text("tenant"),
        &text("project"),
        &text("vp"),
        &nowhere,
        entries,
        true,
    ) {
        Ok(page) => {
            assert_eq!(page.next_sequence, Some(8));
            assert!(page.history_truncated);
        }
        Err(error) => panic!("{}", error.message("")),
    }
}

#[test]
fn a_parent_joins_its_child_while_it_runs() {
    let mut service = service();
    let ended = match complete(
        &mut service,
        &report(TaskTerminalState::Completed),
        &facts(),
        &mut None,
    ) {
        Ok(ended) => ended,
        Err(error) => panic!("{}", error.message("")),
    };
    let join = |parent_active: bool| {
        service.handle_join_child_task(
            &text("tenant"),
            &text("project"),
            &text("vp"),
            &text("worker"),
            false,
            parent_active,
            &text("task"),
            None,
            Some(&ended.event),
            true,
        )
    };
    match join(true) {
        Ok(joined) => {
            assert_eq!(joined.state, TaskJoinState::Completed);
            assert_eq!(joined.node.as_deref(), Some("worker"));
            assert_eq!(joined.result.unwrap().content, "42");
        }
        Err(error) => panic!("{}", error.message("")),
    }
    assert!(join(false).is_err());
}
