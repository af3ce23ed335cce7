use clusterflux_coordinator::authorization::AuthenticatedCoordinatorRequest;
use clusterflux_coordinator::configuration::{
    CoordinatorAdmission, CoordinatorMainRuntimeConfiguration,
    CoordinatorServiceStartupConfiguration, MainRuntimeCeilings,
};
use clusterflux_coordinator::coordinator::Coordinator;
use clusterflux_coordinator::debug::{DebugCharge, MainDebugView};
use clusterflux_coordinator::debug_registry::{
    DebugAcknowledgementState, DebugAuditEvent, DebugCommand, DebugRegistry,
};
use clusterflux_coordinator::debug_requests::{
    DebugAction, DebugRequest, DebugResponse, DebugSurroundings,
};
use clusterflux_coordinator::debug_validation::DebugSnapshot;
use clusterflux_coordinator::duplicate::TextList;
use clusterflux_coordinator::durable::InMemoryDurableStore;
use clusterflux_coordinator::keys::{process_control_key, task_control_key, TaskControlKey};
use clusterflux_coordinator::ordered_set::OrderedSet;
use clusterflux_coordinator::service::CoordinatorService;
use clusterflux_coordinator::service_error::CoordinatorServiceError;

fn text(value: &str) -> String {
    value.to_owned()
}

fn service() -> CoordinatorService {
    let limits = CoordinatorMainRuntimeConfiguration::default_for(MainRuntimeCeilings {
        max_mains: 8,
        max_state_bytes: 1_048_576,
    });
    let mut coordinator = Coordinator::boot(&InMemoryDurableStore::default(), 1);
    coordinator.upsert_project(text("tenant"), text("project"), text("demo"));
    coordinator.enroll_node(
        text("tenant"),
        text("project"),
        text("worker"),
        text("key"),
        text("node:attach"),
    );
    coordinator.start_process(text("tenant"), text("project"), text("vp"));
    coordinator.grant_project_debug(text("tenant"), text("project"), text("user"));
    match CoordinatorService::new_with_startup_configuration(
        coordinator,
        None,
        CoordinatorAdmission::default(),
        CoordinatorServiceStartupConfiguration::default(),
        limits,
        100,
    ) {
        Ok(service) => service,
        Err(_) => panic!("the default configuration is accepted"),
    }
}

fn participant() -> TaskControlKey {
    task_control_key(
        &text("tenant"),
        &text("project"),
        &text("vp"),
        &text("worker"),
        &text("task"),
    )
}

fn known(now: u64) -> DebugSurroundings {
    let mut active_tasks = OrderedSet::new();
    active_tasks.insert(participant());
    DebugSurroundings {
        active_tasks,
        view: MainDebugView {
            frozen_epoch: None,
            resume_requested: false,
            current_source_location: None,
        },
        charge: DebugCharge { granted: Ok(()), used_bytes: 64 },
        now,
    }
}

fn ask(
    service: &mut CoordinatorService,
    actor: &str,
    action: DebugAction,
    now: u64,
) -> Result<DebugResponse, CoordinatorServiceError> {
    service.handle_debug_request(
        DebugRequest {
            tenant: text("tenant"),
            project: text("project"),
            actor: text(actor),
            process: text("vp"),
            action,
        },
        &known(now),
    )
}

fn snapshot() -> DebugSnapshot {
    DebugSnapshot {
        stack_frames: TextList::empty(),
        local_values: Vec::new(),
        task_args: Vec::new(),
        handles: Vec::new(),
        command_status: None,
        recent_output: TextList::empty(),
        message: None,
        current_source_location: None,
    }
}

fn report(service: &mut CoordinatorService, epoch: u64, state: DebugAcknowledgementState) -> bool {
    service
        .handle_report_debug_state(
            &text("tenant"),
            &text("project"),
            &text("vp"),
            &text("worker"),
            &text("task"),
            epoch,
            state,
            snapshot(),
            Some(text("build")),
        )
        .is_ok()
}

#[test]
fn attaching_is_audited_whether_or_not_it_is_allowed() {
    let mut service = service();
    match ask(&mut service, "stranger", DebugAction::Attach, 0) {
        Ok(DebugResponse::Attachment(told)) => {
            assert!(!told.authorization.allowed);
            assert!(!told.audit_event.allowed);
        }
        _ => panic!("the answer says whether it is allowed"),
    }
    match ask(&mut service, "user", DebugAction::Attach, 0) {
        Ok(DebugResponse::Attachment(told)) => {
            assert!(told.authorization.allowed);
            assert_eq!(told.audit_event.operation, "debug_attach");
        }
        _ => panic!("the answer says whether it is allowed"),
    }
    assert_eq!(service.debug_registry.audit_events().len(), 2);
}

#[test]
fn a_process_is_stopped_and_goes_on_in_one_epoch_after_another() {
    let mut service = service();
    let stop = || DebugAction::CreateEpoch { stopped_task: text("task"), reason: text("pause") };
    let epoch = match ask(&mut service, "user", stop(), 1_000) {
        Ok(DebugResponse::Epoch(epoch)) => epoch,
        _ => panic!("the user may stop the process"),
    };
    assert_eq!(epoch.command, DebugCommand::Freeze);
    assert_eq!(epoch.affected_tasks.len(), 1);
    assert!(epoch.all_stop_requested);
    let key = process_control_key(&text("tenant"), &text("project"), &text("vp"));
    assert_eq!(service.debug_registry.epoch(&key), Some(epoch.epoch));
    let pending = service.handle_poll_debug_command(
        &text("tenant"),
        &text("project"),
        &text("vp"),
        &text("worker"),
        &text("task"),
    );
    match pending {
        Ok(Some(command)) => assert_eq!(command.epoch, epoch.epoch),
        _ => panic!("the task is told to stop"),
    }
    assert!(!report(&mut service, epoch.epoch + 5, DebugAcknowledgementState::Frozen));
    assert!(report(&mut service, epoch.epoch, DebugAcknowledgementState::Frozen));
    match ask(&mut service, "user", DebugAction::InspectEpoch { epoch: epoch.epoch }, 1_001) {
        Ok(DebugResponse::EpochStatus(status)) => {
            assert!(status.fully_frozen);
            assert!(!status.fully_resumed);
        }
        _ => panic!("the epoch is known"),
    }
    let resumed = match ask(
        &mut service,
        "user",
        DebugAction::ResumeEpoch { epoch: epoch.epoch },
        1_002,
    ) {
        Ok(DebugResponse::Epoch(resumed)) => resumed,
        _ => panic!("the process is stopped"),
    };
    assert_eq!(resumed.command, DebugCommand::Resume);
    assert!(matches!(
        ask(&mut service, "stranger", stop(), 1_003),
        Err(CoordinatorServiceError::Coordinator(_))
    ));
}

#[test]
fn a_signed_in_user_debugs_the_project_of_the_session() {
    let mut service = service();
    let request = || AuthenticatedCoordinatorRequest::DebugAttach { process: text("vp") };
    match service.handle_authenticated_debug_request(
        &text("tenant"),
        &text("project"),
        &text("user"),
        request(),
        &known(0),
    ) {
        Ok(DebugResponse::Attachment(told)) => assert!(told.authorization.allowed),
        _ => panic!("the user may attach"),
    }
    match service.handle_authenticated_debug_request(
        &text("tenant"),
        &text("elsewhere"),
        &text("user"),
        request(),
        &known(0),
    ) {
        Ok(DebugResponse::Attachment(told)) => assert!(!told.authorization.allowed),
        _ => panic!("the answer says whether it is allowed"),
    }
}

#[test]
fn breakpoints_of_an_older_revision_do_not_replace_newer_ones() {
    let mut service = service();
    let set = |revision: u64, symbol: &str| DebugAction::SetBreakpoints {
        revision,
        probe_symbols: TextList { items: vec![text(symbol)] },
        probe_locations: Vec::new(),
    };
    let told = |answer| match answer {
        Ok(DebugResponse::Breakpoints(told)) => told,
        _ => panic!("the user may set breakpoints"),
    };
    let first = told(ask(&mut service, "user", set(2, "clusterflux.probe.build"), 0));
    assert_eq!(first.revision, 2);
    let stale = ask(&mut service, "user", set(1, "clusterflux.probe.other"), 0);
    let shown = told(ask(&mut service, "user", DebugAction::InspectBreakpoints, 0));
    assert_eq!(shown.revision, 2);
    assert_eq!(shown.probe_symbols.items, vec!["clusterflux.probe.build"]);
    match stale {
        Ok(DebugResponse::Breakpoints(told)) => assert_eq!(told.revision, 2),
        Ok(_) => panic!("another answer"),
        Err(_) => {}
    }
}

fn audit(process: &str, number: u64) -> DebugAuditEvent {
    DebugAuditEvent {
        tenant: text("tenant"),
        project: text("project"),
        process: text(process),
        task: None,
        actor: text("user"),
        operation: text("debug_attach"),
        allowed: true,
        reason: text(""),
        charged_debug_read_bytes: number,
        used_debug_read_bytes: 0,
    }
}

#[test]
fn the_audit_trail_is_bounded_per_process_and_in_all() {
    let mut registry = DebugRegistry::new();
    for number in 0..5 {
        registry.append_audit(audit("a", number), 3, 4);
    }
    assert_eq!(registry.audit_events().len(), 3);
    assert_eq!(registry.audit_events()[0].charged_debug_read_bytes, 2);
    registry.append_audit(audit("b", 9), 3, 4);
    registry.append_audit(audit("b", 10), 3, 4);
    assert_eq!(registry.audit_events().len(), 4);
    registry.remove_audit_for_process(&text("tenant"), &text("project"), &text("a"));
    assert_eq!(registry.audit_events().len(), 2);
}

#[test]
fn clearing_a_process_spares_the_others() {
    let mut registry = DebugRegistry::new();
    let key = |process: &str| process_control_key(&text("tenant"), &text("project"), &text(process));
    registry.set_epoch(key("a"), 1);
    registry.set_epoch(key("b"), 2);
    registry.append_audit(audit("a", 1), 3, 4);
    registry.append_audit(audit("b", 2), 3, 4);
    registry.clear_process(&text("tenant"), &text("project"), &text("a"));
    assert_eq!(registry.epoch(&key("a")), None);
    assert_eq!(registry.epoch(&key("b")), Some(2));
    assert_eq!(registry.audit_events().len(), 1);
    assert_eq!(registry.audit_events()[0].process, "b");
}
