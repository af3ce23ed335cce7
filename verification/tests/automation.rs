use clusterflux_coordinator::automated_launch::{
    automated_process_failure_message, bounded_automated_failure_message,
};
use clusterflux_coordinator::automated_run::{
    AcceptedCommitTriggerRecord, AutomatedRunStageRecord, AutomatedRunState, AutomationState,
    CommitTrigger, EnvironmentRequirements, EnvironmentResource, ProjectEnvironmentRecord,
    RepositoryRevision, WorkflowCompilationRequest, WorkflowSource,
};
use clusterflux_coordinator::automation::{
    process_id_for_run, retry_body_text, retry_key_parts, run_id_from_key, ProcessFinalResult,
    RetryDigests,
};
use clusterflux_coordinator::capability::Capabilities;
use clusterflux_coordinator::service_error::CoordinatorServiceError;

fn text(value: &str) -> String {
    value.to_owned()
}

fn push(number: u64) -> AcceptedCommitTriggerRecord {
    AcceptedCommitTriggerRecord {
        tenant: text("tenant"),
        project: text("project"),
        binding_id: text("binding"),
        body_digest: format!("sha256:body-{number}"),
        trigger: CommitTrigger {
            trigger_id: format!("trigger-{number}"),
            delivery_id: format!("delivery-{number}"),
            forge: text("forgejo"),
            repository_id: text("repository"),
            commit_sha: format!("commit-{number}"),
            git_ref: text("refs/heads/main"),
            trusted: true,
            received_at: 100 + number,
            run_identity: format!("sha256:key{number}"),
        },
    }
}

fn accepted(state: &mut AutomationState, number: u64) -> AutomatedRunStageRecord {
    match state.accept_commit_trigger(push(number)) {
        Ok(record) => record,
        Err(error) => panic!("{}", error.message("")),
    }
}

fn protest<T>(result: Result<T, CoordinatorServiceError>) -> String {
    match result {
        Err(CoordinatorServiceError::Protocol(text)) => text,
        Err(_) => panic!("another error"),
        Ok(_) => panic!("no error"),
    }
}

fn source(number: u64) -> WorkflowSource {
    WorkflowSource {
        trigger_id: format!("trigger-{number}"),
        repository_id: text("repository"),
        commit_sha: format!("commit-{number}"),
        tree_digest: text("sha256:tree"),
        manifest_digest: text("sha256:manifest"),
        environments: Vec::new(),
        total_bytes: 10,
        content: text("{}"),
    }
}

fn revision(number: u64) -> RepositoryRevision {
    RepositoryRevision {
        repository_id: text("repository"),
        commit_sha: format!("commit-{number}"),
        source_snapshot: text("sha256:snapshot"),
        content: text("{}"),
    }
}

#[test]
fn a_delivery_is_taken_once() {
    let mut state = AutomationState::empty();
    let first = accepted(&mut state, 1);
    assert_eq!(first.run.run_id, "run-key1");
    assert_eq!(first.run.state, AutomatedRunState::Accepted);
    assert_eq!(first.run.created_at, 101);
    let again = accepted(&mut state, 1);
    assert_eq!(again.run.run_id, first.run.run_id);
    assert_eq!(state.automated_runs.len(), 1);
    assert_eq!(
        state
            .automated_run_for_trigger_delivery(&text("binding"), &text("delivery-1"))
            .as_deref(),
        Some("run-key1")
    );
    let mut replayed = push(1);
    replayed.body_digest = text("sha256:other");
    assert_eq!(
        protest(state.accept_commit_trigger(replayed)),
        "forge delivery ID was replayed with a different body"
    );
}

#[test]
fn pushes_of_one_commit_share_a_run() {
    let mut state = AutomationState::empty();
    accepted(&mut state, 1);
    let mut other = push(2);
    other.trigger.run_identity = text("sha256:key1");
    let shared = match state.accept_commit_trigger(other) {
        Ok(record) => record,
        Err(_) => panic!("the run is known"),
    };
    assert_eq!(shared.run.run_id, "run-key1");
    assert_eq!(shared.run.primary_trigger_id, "trigger-1");
    assert_eq!(state.automated_runs.len(), 1);
    assert_eq!(state.accepted_commit_triggers.len(), 2);
}

#[test]
fn a_project_has_no_more_waiting_runs_than_its_queue() {
    let mut state = AutomationState::empty();
    for number in 0..8 {
        accepted(&mut state, number);
    }
    assert_eq!(
        protest(state.accept_commit_trigger(push(8))),
        "project automated-run queue is full (8)"
    );
    assert_eq!(state.automated_runs.len(), 8);
    let mut elsewhere = push(8);
    elsewhere.project = text("other");
    assert!(state.accept_commit_trigger(elsewhere).is_ok());
}

#[test]
fn old_runs_that_have_ended_make_room_with_their_traces() {
    let mut state = AutomationState::empty();
    for number in 0..64 {
        let run = accepted(&mut state, number);
        assert!(state.cancel_automated_run(&run.run.run_id, 1_000 + number).is_ok());
    }
    assert_eq!(state.automated_runs.len(), 64);
    accepted(&mut state, 64);
    assert_eq!(state.automated_runs.len(), 64);
    assert!(state.automated_run(&text("run-key0")).is_none());
    assert!(state.automated_run(&text("run-key1")).is_some());
    assert!(!state.automated_run_keys.contains_key(&text("sha256:key0")));
    assert!(!state.accepted_commit_triggers.contains_key(&text("trigger-0")));
    assert!(!state
        .trigger_deliveries
        .contains_key(&(text("binding"), text("delivery-0"))));
}

#[test]
fn only_runs_that_failed_or_were_cancelled_are_retried() {
    let mut state = AutomationState::empty();
    let run = accepted(&mut state, 1).run.run_id;
    let retries = vec![
        RetryDigests { run_key: text("sha256:key1"), body_digest: text("sha256:b1") },
        RetryDigests { run_key: text("sha256:retry2"), body_digest: text("sha256:b2") },
    ];
    assert_eq!(
        protest(state.retry_automated_run(&text("run-none"), &retries, 200)),
        "unknown automated run"
    );
    assert_eq!(
        protest(state.retry_automated_run(&run, &retries, 200)),
        "only failed or cancelled automated runs can be retried"
    );
    assert!(state.fail_automated_run(&run, "broken", "why not", 3, 150).is_ok());
    let failed = state.automated_run(&run).unwrap();
    assert_eq!(failed.run.state, AutomatedRunState::Failed);
    assert_eq!(failed.run.failure_code.as_deref(), Some("broken"));
    assert_eq!(failed.run.failure_message.as_deref(), Some("why"));
    let retry = match state.retry_automated_run(&run, &retries, 200) {
        Ok(record) => record,
        Err(error) => panic!("{}", error.message("")),
    };
    assert_eq!(retry.run.run_id, "run-retry2");
    assert_eq!(retry.run.primary_trigger_id, "trigger-retry-retry2");
    assert_eq!(retry.run.created_at, 200);
    assert_eq!(retry.run.state, AutomatedRunState::Accepted);
    let trigger = state
        .accepted_commit_triggers
        .get(&text("trigger-retry-retry2"))
        .unwrap();
    assert_eq!(trigger.trigger.delivery_id, "manual-retry-run-key1-2");
    assert_eq!(state.automated_run(&run).unwrap().run.state, AutomatedRunState::Failed);
    assert_eq!(
        retry_key_parts(&run, 2).items,
        vec!["clusterflux-automated-run-retry:v1", "run-key1", "2"]
    );
    assert_eq!(retry_body_text(&run, 2), "manual-retry\0run-key1\02");
}

#[test]
fn cancelling_a_run_twice_changes_nothing_more() {
    let mut state = AutomationState::empty();
    let run = accepted(&mut state, 1).run.run_id;
    assert!(state.cancel_automated_run(&run, 5).is_ok());
    assert!(state.cancel_automated_run(&run, 9).is_ok());
    let record = state.automated_run(&run).unwrap();
    assert_eq!(record.run.state, AutomatedRunState::Cancelled);
    assert_eq!(record.run.ended_at, Some(5));
    assert!(state.fail_automated_run(&run, "late", "", 10, 11).is_ok());
    assert_eq!(state.automated_run(&run).unwrap().run.state, AutomatedRunState::Cancelled);
}

#[test]
fn a_run_loads_its_source_and_waits_for_a_compiler() {
    let mut state = AutomationState::empty();
    let run = accepted(&mut state, 1).run.run_id;
    assert_eq!(state.pending_source_loads(10).len(), 1);
    match state.claim_source_load(&text("trigger-1")) {
        Ok(claimed) => assert_eq!(claimed, run),
        Err(_) => panic!("the run awaits its source"),
    }
    assert_eq!(
        state.automated_run(&run).unwrap().run.state,
        AutomatedRunState::LoadingSource
    );
    assert!(matches!(
        state.record_automated_run_source(&run, source(2), revision(2), Ok(()), Ok(())),
        Err(_)
    ));
    let loaded = match state.record_automated_run_source(
        &run,
        source(1),
        revision(1),
        Ok(()),
        Ok(()),
    ) {
        Ok(record) => record,
        Err(error) => panic!("{}", error.message("")),
    };
    assert_eq!(loaded.run.workflow_tree_digest.as_deref(), Some("sha256:tree"));
    let request = WorkflowCompilationRequest {
        run_id: run.clone(),
        source: source(1),
        compiler_profile: text("profile"),
        compiler_image: text("sha256:image"),
        compiler_sdk: text("sha256:sdk"),
        rust_toolchain: text("stable"),
        max_output_bytes: 1,
        wall_clock_seconds: 1,
        content: text("{}"),
    };
    let queued = match state.enqueue_workflow_compilation(request, Ok(())) {
        Ok(record) => record,
        Err(error) => panic!("{}", error.message("")),
    };
    assert_eq!(queued.run.state, AutomatedRunState::WaitingForCompilerNode);
}

#[test]
fn a_restart_fails_the_runs_that_ran() {
    let mut state = AutomationState::empty();
    let waiting = accepted(&mut state, 1).run.run_id;
    let running = accepted(&mut state, 2).run.run_id;
    let mut record = state.automated_runs.remove(&running).unwrap();
    record.run.state = AutomatedRunState::Running;
    record.run.process_id = Some(process_id_for_run(&running));
    state.automated_runs.insert(running.clone(), record);
    let interrupted = state.reconcile_automated_runs_after_coordinator_restart(900);
    assert_eq!(interrupted, vec![running.clone()]);
    assert_eq!(state.automated_run(&running).unwrap().run.state, AutomatedRunState::Failed);
    assert_eq!(state.automated_run(&running).unwrap().run.ended_at, Some(900));
    assert_eq!(state.automated_run(&waiting).unwrap().run.state, AutomatedRunState::Accepted);
}

#[test]
fn the_end_of_a_process_ends_its_run() {
    let mut state = AutomationState::empty();
    let run = accepted(&mut state, 1).run.run_id;
    let process = process_id_for_run(&run);
    assert_eq!(process, "process-key1");
    let mut record = state.automated_runs.remove(&run).unwrap();
    record.run.process_id = Some(process.clone());
    state.automated_runs.insert(run.clone(), record);
    state.record_automated_publication(
        &text("tenant"),
        &text("project"),
        &process,
        text("v1"),
        text("https://forge.example/v1"),
    );
    state.record_automated_process_terminal(
        &text("tenant"),
        &text("project"),
        &process,
        ProcessFinalResult::Failed,
        text("task broke"),
        77,
    );
    let ended = state.automated_run(&run).unwrap();
    assert_eq!(ended.run.state, AutomatedRunState::Failed);
    assert_eq!(ended.run.failure_code.as_deref(), Some("process_failed"));
    assert_eq!(ended.run.failure_message.as_deref(), Some("task broke"));
    assert_eq!(ended.run.publication_tag.as_deref(), Some("v1"));
    assert_eq!(ended.run.ended_at, Some(77));
}

#[test]
fn runs_are_paged_from_the_newest() {
    let mut state = AutomationState::empty();
    for number in 1..4 {
        accepted(&mut state, number);
    }
    let (tenant, project) = (text("tenant"), text("project"));
    let (page, next) = match state.automated_runs_page(&tenant, &project, None, 2) {
        Ok(page) => page,
        Err(_) => panic!("the first page exists"),
    };
    let ids = |page: &[clusterflux_coordinator::automated_run::AutomatedRunRecord]| {
        page.iter().map(|run| run.run_id.clone()).collect::<Vec<_>>()
    };
    assert_eq!(ids(&page), vec!["run-key3", "run-key2"]);
    assert_eq!(next.as_deref(), Some("run-key2"));
    let (rest, end) = match state.automated_runs_page(&tenant, &project, next.as_deref(), 2) {
        Ok(page) => page,
        Err(_) => panic!("the second page exists"),
    };
    assert_eq!(ids(&rest), vec!["run-key1"]);
    assert_eq!(end, None);
    assert_eq!(
        protest(state.automated_runs_page(&tenant, &project, Some("run-none"), 2)),
        "automated run cursor is unknown or expired"
    );
    assert_eq!(ids(&state.automated_runs(&tenant, &project)).len(), 3);
}

#[test]
fn environments_are_what_they_say_they_are() {
    let mut state = AutomationState::empty();
    let record = |name: &str, digest: &str| ProjectEnvironmentRecord {
        tenant: text("tenant"),
        project: text("project"),
        name: text(name),
        definition: EnvironmentResource {
            name: text("linux"),
            digest: text("sha256:linux"),
            requirements: EnvironmentRequirements {
                arch: Some(text("x86_64")),
                capabilities: Capabilities::none(),
                detail: text(""),
            },
            definition: text("{}"),
        },
        immutable_digest: text(digest),
    };
    assert_eq!(
        protest(state.configure_project_environment(record("", "sha256:linux"))),
        "environment name is empty or too long"
    );
    assert_eq!(
        protest(state.configure_project_environment(record("other", "sha256:linux"))),
        "environment record name does not match its definition"
    );
    assert_eq!(
        protest(state.configure_project_environment(record("linux", "sha256:else"))),
        "environment immutable digest does not match its definition"
    );
    assert!(state.configure_project_environment(record("linux", "sha256:linux")).is_ok());
    assert_eq!(state.project_environments.len(), 1);
}

#[test]
fn keys_and_runs_have_one_suffix() {
    assert_eq!(run_id_from_key(&text("sha256:abc")), "run-abc");
    assert_eq!(process_id_for_run(&text("run-a-b")), "process-b");
}

#[test]
fn failure_messages_keep_the_end_of_what_went_wrong() {
    assert_eq!(bounded_automated_failure_message("task", "short", 100), "task short");
    let long = bounded_automated_failure_message("task", &"x".repeat(50), 20);
    assert_eq!(long, format!("task\n\u{2026}\n{}", "x".repeat(11)));
    assert_eq!(long.len(), 20);
    assert_eq!(
        automated_process_failure_message(
            &Vec::new(),
            &text("tenant"),
            &text("project"),
            &text("process"),
            100,
        ),
        "The automated process failed without a retained task diagnostic."
    );
}

#[test]
fn the_pages_of_any_size_make_the_list() {
    let mut state = AutomationState::empty();
    for number in 1..8 {
        accepted(&mut state, number);
    }
    let (tenant, project) = (text("tenant"), text("project"));
    let list: Vec<String> =
        state.automated_runs(&tenant, &project).iter().map(|run| run.run_id.clone()).collect();
    assert_eq!(list.len(), 7);
    for limit in 1..9 {
        let mut seen: Vec<String> = Vec::new();
        let mut cursor: Option<String> = None;
        loop {
            match state.automated_runs_page(&tenant, &project, cursor.as_deref(), limit) {
                Ok((page, next)) => {
                    assert!(!page.is_empty());
                    seen.extend(page.iter().map(|run| run.run_id.clone()));
                    cursor = next;
                }
                Err(_) => panic!("a cursor leads on"),
            }
            if cursor.is_none() {
                break;
            }
        }
        assert_eq!(seen, list);
    }
}

#[test]
fn deliveries_that_are_kept_lead_to_runs_while_old_runs_make_room() {
    let mut state = AutomationState::empty();
    for number in 1..70 {
        let record = accepted(&mut state, number);
        assert!(state.cancel_automated_run(&record.run.run_id, 500 + number).is_ok());
    }
    assert_eq!(state.automated_runs.len(), 64);
    assert_eq!(state.trigger_deliveries.len(), 64);
    assert_eq!(state.accepted_commit_triggers.len(), 64);
    for number in 1..70 {
        let run = state.automated_run_for_trigger_delivery(
            &text("binding"),
            &format!("delivery-{number}"),
        );
        if number < 6 {
            assert_eq!(run, None);
        } else {
            assert_eq!(run, Some(format!("run-key{number}")));
            assert_eq!(
                state.automated_run(&format!("run-key{number}")).unwrap().run.run_id,
                format!("run-key{number}")
            );
        }
    }
}
