use clusterflux_coordinator::authorization::{
    authenticated_agent_key_request, authorize_authenticated_user_operation, AgentKeyAction,
    AuthenticatedCoordinatorRequest, PublicUserOperation,
};
use clusterflux_coordinator::ids::{Actor, AuthContext, NodeScopeKey};
use clusterflux_coordinator::keys::{
    artifact_id_from_path, artifact_name_from_path, ArtifactPathError,
};
use clusterflux_coordinator::node_registry::{NodeDrainStatus, NodeLifecycleState, NodeRegistry};

fn text(value: &str) -> String {
    value.to_owned()
}

fn scope(node: &str) -> NodeScopeKey {
    NodeScopeKey::new(text("tenant"), text("project"), text(node))
}

fn released_status(node: &str, ephemeral: bool) -> NodeDrainStatus {
    let mut status = NodeDrainStatus::active(text(node));
    status.state = NodeLifecycleState::Released;
    status.ephemeral = ephemeral;
    status
}

#[test]
fn signed_liveness_reactivates_a_released_persistent_node() {
    let scope = scope("persistent");
    let mut registry = NodeRegistry::new();
    registry.record_drain_status(self::scope("persistent"), released_status("persistent", false));

    registry.mark_seen(&scope, 42);

    assert!(registry.accepts_new_work(&scope));
    assert_eq!(registry.last_seen(&scope), Some(42));
}

#[test]
fn signed_liveness_does_not_reactivate_a_released_ephemeral_node() {
    let scope = scope("ephemeral");
    let mut registry = NodeRegistry::new();
    registry.record_drain_status(self::scope("ephemeral"), released_status("ephemeral", true));

    registry.mark_seen(&scope, 42);

    assert!(!registry.accepts_new_work(&scope));
    assert_eq!(registry.last_seen(&scope), Some(42));
}

/// Stands for the check of identifiers: letters, digits and a few marks, up to 255 bytes.
fn checked(path: &str) -> Result<(), String> {
    match artifact_name_from_path(path) {
        Ok(name)
            if name.len() <= 255
                && name
                    .bytes()
                    .all(|b| b.is_ascii_alphanumeric() || b":-_.".contains(&b)) =>
        {
            Ok(())
        }
        Ok(_) => Err(text("malformed")),
        Err(_) => Ok(()),
    }
}

#[test]
fn artifact_id_conversion_is_fallible_and_structural() {
    let path = "/vfs/artifacts/build/output";
    assert_eq!(artifact_id_from_path(path, checked(path)).unwrap(), "build:output");
    for path in ["/vfs/other/output", "/vfs/artifacts", "/vfs/artifacts/bad artifact!"] {
        assert!(artifact_id_from_path(path, checked(path)).is_err(), "{path:?}");
    }

    let mapped = format!("/vfs/artifacts/{}", "x".repeat(256));
    assert!(artifact_id_from_path(&mapped, checked(&mapped)).is_err());
}

#[test]
fn every_fault_of_an_artifact_path_has_its_text() {
    let wrong = artifact_id_from_path("/vfs/artifacts", Ok(())).unwrap_err();
    assert!(matches!(wrong, ArtifactPathError::WrongPrefix));
    assert_eq!(wrong.message(), "path must start with the exact /vfs/artifacts/ prefix");
    let empty = artifact_id_from_path("/vfs/artifacts/", Ok(())).unwrap_err();
    assert!(matches!(empty, ArtifactPathError::EmptyArtifact));
    assert_eq!(empty.message(), "path must name an artifact after /vfs/artifacts/");
    let invalid = artifact_id_from_path("/vfs/artifacts/a b", Err(text("why"))).unwrap_err();
    assert_eq!(invalid.message(), "mapped artifact identifier is invalid: why");
}

fn context(actor: Actor) -> AuthContext {
    AuthContext { tenant: text("tenant"), project: text("project"), actor }
}

#[test]
fn authenticated_public_authorization_requires_user_context_and_names_operation() {
    let request = AuthenticatedCoordinatorRequest::DebugAttach { process: text("vp") };

    let denied = authorize_authenticated_user_operation(
        &context(Actor::Agent(text("agent-ci"))),
        &request,
    )
    .err()
    .unwrap();
    assert!(denied
        .message("")
        .contains("authenticated debug_attach request requires a user CLI session"));

    let authorized =
        match authorize_authenticated_user_operation(&context(Actor::User(text("user"))), &request)
        {
            Ok(authorized) => authorized,
            Err(_) => panic!("a user may attach"),
        };
    assert_eq!(authorized.actor, "user");
    assert_eq!(authorized.operation, PublicUserOperation::DebugAttach);
}

#[test]
fn key_requests_stay_in_the_scope_of_the_session() {
    let request = AuthenticatedCoordinatorRequest::RotateAgentPublicKey {
        agent: text("ci"),
        public_key: text("key"),
    };
    let wanted = authenticated_agent_key_request(
        &context(Actor::User(text("user"))),
        &text("user"),
        request,
    )
    .unwrap();
    assert_eq!((wanted.tenant.as_str(), wanted.project.as_str()), ("tenant", "project"));
    assert_eq!(wanted.user, "user");
    assert!(matches!(
        wanted.action,
        AgentKeyAction::Rotate { agent, public_key } if agent == "ci" && public_key == "key"
    ));
    assert!(authenticated_agent_key_request(
        &context(Actor::User(text("user"))),
        &text("user"),
        AuthenticatedCoordinatorRequest::QuotaStatus,
    )
    .is_none());
}

#[test]
fn operations_are_told_apart_by_their_names() {
    let operations = [
        PublicUserOperation::AuthStatus,
        PublicUserOperation::RevokeCliSession,
        PublicUserOperation::CreateProject,
        PublicUserOperation::SelectProject,
        PublicUserOperation::ListProjects,
        PublicUserOperation::ListAutomatedRuns,
        PublicUserOperation::GetAutomatedRun,
        PublicUserOperation::CancelAutomatedRun,
        PublicUserOperation::RetryAutomatedRun,
        PublicUserOperation::TriggerAutomatedRun,
        PublicUserOperation::ListWebhookDeliveries,
        PublicUserOperation::SetProjectSecret,
        PublicUserOperation::ListProjectSecrets,
        PublicUserOperation::RevokeProjectSecret,
        PublicUserOperation::RegisterAgentPublicKey,
        PublicUserOperation::ListAgentPublicKeys,
        PublicUserOperation::RotateAgentPublicKey,
        PublicUserOperation::RevokeAgentPublicKey,
        PublicUserOperation::CreateNodeEnrollmentGrant,
        PublicUserOperation::ListNodeDescriptors,
        PublicUserOperation::ListNodeSummaries,
        PublicUserOperation::RevokeNodeCredential,
        PublicUserOperation::StartProcess,
        PublicUserOperation::ScheduleTask,
        PublicUserOperation::LaunchTask,
        PublicUserOperation::CancelProcess,
        PublicUserOperation::AbortProcess,
        PublicUserOperation::ListProcesses,
        PublicUserOperation::ListProcessSummaries,
        PublicUserOperation::QuotaStatus,
        PublicUserOperation::RestartTask,
        PublicUserOperation::ResolveTaskFailure,
        PublicUserOperation::DebugAttach,
        PublicUserOperation::SetDebugBreakpoints,
        PublicUserOperation::InspectDebugBreakpoints,
        PublicUserOperation::CreateDebugEpoch,
        PublicUserOperation::ResumeDebugEpoch,
        PublicUserOperation::InspectDebugEpoch,
        PublicUserOperation::ListTaskEvents,
        PublicUserOperation::ListTaskSnapshots,
        PublicUserOperation::ListRecentLogs,
        PublicUserOperation::JoinTask,
        PublicUserOperation::ListArtifacts,
        PublicUserOperation::GetArtifact,
        PublicUserOperation::CreateArtifactDownloadLink,
        PublicUserOperation::RevokeArtifactDownloadLink,
        PublicUserOperation::ExportArtifactToNode,
    ];
    for (i, one) in operations.iter().enumerate() {
        for (j, other) in operations.iter().enumerate() {
            assert_eq!(one.as_str() == other.as_str(), i == j);
        }
    }
    assert_eq!(PublicUserOperation::ExportArtifactToNode.as_str(), "export_artifact_to_node");
}
