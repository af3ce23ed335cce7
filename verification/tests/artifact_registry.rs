use clusterflux_coordinator::artifact_registry::{
    actor_subject, download_policy_context_parts, download_token_digest_parts,
    storage_location_key, ArtifactFlush, ArtifactHoldReason, ArtifactRegistry, DownloadError,
    DownloadLink, DownloadPolicy, StorageLocation, DOWNLOAD_LINK_TOMBSTONE_SECONDS,
    MAX_ARTIFACT_METADATA_PER_PROJECT, MAX_ISSUED_DOWNLOAD_LINKS_PER_ARTIFACT,
};
use clusterflux_coordinator::coordinator::Authorization;
use clusterflux_coordinator::ids::{Actor, AuthContext};
use clusterflux_coordinator::ordered_set::OrderedSet;
use std::collections::hash_map::DefaultHasher;
use std::hash::{Hash, Hasher};

fn allowed() -> Authorization {
    Authorization { allowed: true, reason: text("") }
}

fn text(value: &str) -> String {
    value.to_owned()
}

/// Stands for the content hash: equal parts give equal digests of the usual shape.
fn digest_of(parts: &[String]) -> String {
    let mut digest = text("sha256:");
    for round in 0..4u8 {
        let mut hasher = DefaultHasher::new();
        round.hash(&mut hasher);
        parts.hash(&mut hasher);
        digest.push_str(&format!("{:016x}", hasher.finish()));
    }
    digest
}

fn digest(content: &str) -> String {
    digest_of(&[text(content)])
}

fn is_valid_sha256(digest: &str) -> bool {
    match digest.strip_prefix("sha256:") {
        Some(hex) => hex.len() == 64 && hex.bytes().all(|b| b.is_ascii_hexdigit()),
        None => false,
    }
}

fn context(tenant: &str, project: &str, user: &str) -> AuthContext {
    AuthContext {
        tenant: text(tenant),
        project: text(project),
        actor: Actor::User(text(user)),
    }
}

fn flush(registry: &mut ArtifactRegistry, flush: ArtifactFlush) {
    registry
        .flush_metadata_with_protected_processes(flush, &OrderedSet::new(), &OrderedSet::new())
        .map(|_| ())
        .unwrap();
}

fn artifact_flush(
    id: &str,
    scope: (&str, &str),
    process: &str,
    task: &str,
    node: &str,
    content: &str,
    size: u64,
) -> ArtifactFlush {
    ArtifactFlush {
        id: text(id),
        tenant: text(scope.0),
        project: text(scope.1),
        process: text(process),
        producer_task: text(task),
        retaining_node: text(node),
        digest: digest(content),
        size,
    }
}

fn registry_with_artifact() -> ArtifactRegistry {
    let mut registry = ArtifactRegistry::new();
    flush(
        &mut registry,
        artifact_flush("artifact", ("tenant", "project"), "process", "task", "node", "bytes", 32),
    );
    registry
}

fn create_link(
    registry: &mut ArtifactRegistry,
    context: &AuthContext,
    artifact: &str,
    max_bytes: u64,
    nonce: &str,
    now: u64,
    ttl: u64,
) -> Result<DownloadLink, DownloadError> {
    let artifact = text(artifact);
    let policy = DownloadPolicy { max_bytes };
    let source = registry
        .download_action(context, &allowed(), &artifact, &policy)
        .map(|action| action.source);
    let (policy_digest, token_digest) =
        match (registry.metadata(&context.tenant, &context.project, &artifact), source) {
            (Some(metadata), Ok(source)) => {
                let policy_digest =
                    digest_of(&download_policy_context_parts(metadata, &source, &policy).items);
                let parts = download_token_digest_parts(
                    metadata,
                    &context.actor,
                    &text(nonce),
                    &policy_digest,
                    now + ttl,
                );
                (policy_digest, digest_of(&parts.items))
            }
            _ => (digest("none"), digest(nonce)),
        };
    registry.create_download_link(
        context,
        &allowed(),
        &artifact,
        &policy,
        policy_digest,
        token_digest,
        now,
        ttl,
    )
}

#[test]
fn flush_publishes_metadata_without_coordinator_bytes() {
    let registry = registry_with_artifact();
    let metadata = registry
        .metadata(&text("tenant"), &text("project"), &text("artifact"))
        .unwrap();

    assert!(!metadata.coordinator_has_large_bytes);
    assert_eq!(metadata.id, "artifact");
    assert_eq!(metadata.tenant, "tenant");
    assert_eq!(metadata.project, "project");
    assert_eq!(metadata.process, "process");
    assert_eq!(metadata.producer_task, "task");
    assert_eq!(metadata.producer_node, "node");
    assert_eq!(metadata.digest, digest("bytes"));
    assert_eq!(metadata.size, 32);
    assert_eq!(metadata.flushed_epoch, 1);
    assert!(metadata.retaining_nodes.contains(&text("node")));
    assert!(metadata.explicit_locations.items.is_empty());
}

#[test]
fn unsynced_node_loss_surfaces_as_unavailable() {
    let mut registry = registry_with_artifact();
    registry.garbage_collect_node(&text("tenant"), &text("project"), &text("node"));

    let error = registry
        .download_action(
            &context("tenant", "project", "user"),
            &allowed(),
            &text("artifact"),
            &DownloadPolicy { max_bytes: 100 },
        )
        .err()
        .unwrap();

    assert_eq!(error, DownloadError::Unavailable);
}

#[test]
fn signed_node_retention_inventory_removes_garbage_collected_location() {
    let mut registry = registry_with_artifact();
    registry.reconcile_node_retention(
        &text("tenant"),
        &text("project"),
        &text("node"),
        &OrderedSet::new(),
    );

    let metadata = registry
        .metadata(&text("tenant"), &text("project"), &text("artifact"))
        .unwrap();

    assert!(metadata.retaining_nodes.is_empty());
}

#[test]
fn signed_node_retention_inventory_restores_readvertised_location() {
    let mut registry = registry_with_artifact();
    let node = text("node");
    let artifact = text("artifact");
    registry.garbage_collect_node(&text("tenant"), &text("project"), &node);

    let mut retained = OrderedSet::new();
    retained.insert(artifact.clone());
    registry.reconcile_node_retention(&text("tenant"), &text("project"), &node, &retained);

    let metadata = registry
        .metadata(&text("tenant"), &text("project"), &artifact)
        .unwrap();
    assert!(metadata.retaining_nodes.contains(&node));
}

#[test]
fn explicit_user_storage_location_survives_node_retention_loss() {
    let mut registry = registry_with_artifact();
    assert!(registry
        .sync_to_explicit_store(
            &text("tenant"),
            &text("project"),
            &text("artifact"),
            text("s3://bucket/app"),
        )
        .is_ok());
    registry.garbage_collect_node(&text("tenant"), &text("project"), &text("node"));

    let action = registry
        .download_action(
            &context("tenant", "project", "user"),
            &allowed(),
            &text("artifact"),
            &DownloadPolicy { max_bytes: 100 },
        )
        .unwrap();

    assert_eq!(action.source, StorageLocation::ExplicitStore(text("s3://bucket/app")));
    assert!(
        !registry
            .metadata(&text("tenant"), &text("project"), &text("artifact"))
            .unwrap()
            .coordinator_has_large_bytes
    );
}

#[test]
fn cross_tenant_download_is_denied_even_with_known_artifact_id() {
    let registry = registry_with_artifact();

    let error = registry
        .download_action(
            &context("other", "project", "user"),
            &allowed(),
            &text("artifact"),
            &DownloadPolicy { max_bytes: 100 },
        )
        .err()
        .unwrap();

    assert_eq!(error, DownloadError::NotFound);
}

#[test]
fn cross_project_download_is_denied_even_with_known_artifact_id() {
    let registry = registry_with_artifact();

    let error = registry
        .download_action(
            &context("tenant", "other-project", "user"),
            &allowed(),
            &text("artifact"),
            &DownloadPolicy { max_bytes: 100 },
        )
        .err()
        .unwrap();

    assert_eq!(error, DownloadError::NotFound);
}

#[test]
fn duplicate_artifact_ids_are_isolated_across_metadata_links_retention_and_limits() {
    let artifact = text("shared-artifact");
    let tenant_a = text("tenant-a");
    let project_a = text("project-a");
    let tenant_b = text("tenant-b");
    let project_b = text("project-b");
    let project_c = text("project-c");
    let mut registry = ArtifactRegistry::new();
    for (scope, process, node, content, size) in [
        (("tenant-a", "project-a"), "process-a", "node-a", "bytes-a", 17),
        (("tenant-b", "project-b"), "process-b", "node-b", "bytes-b", 29),
        (("tenant-a", "project-c"), "process-c", "node-c", "bytes-c", 31),
    ] {
        flush(
            &mut registry,
            artifact_flush(&artifact, scope, process, "producer", node, content, size),
        );
    }

    assert_eq!(registry.artifact_count(), 3);
    assert_eq!(
        registry.metadata(&tenant_a, &project_a, &artifact).unwrap().digest,
        digest("bytes-a")
    );
    assert_eq!(
        registry.metadata(&tenant_b, &project_b, &artifact).unwrap().digest,
        digest("bytes-b")
    );
    assert_eq!(
        registry.metadata(&tenant_a, &project_c, &artifact).unwrap().digest,
        digest("bytes-c")
    );
    flush(
        &mut registry,
        artifact_flush(
            &artifact,
            ("tenant-a", "project-a"),
            "process-a",
            "producer-repeat",
            "node-a",
            "bytes-a-repeat",
            18,
        ),
    );
    assert_eq!(registry.artifact_count(), 3);
    assert_eq!(
        registry.metadata(&tenant_a, &project_a, &artifact).unwrap().digest,
        digest("bytes-a-repeat")
    );
    assert_eq!(
        registry.metadata(&tenant_b, &project_b, &artifact).unwrap().digest,
        digest("bytes-b")
    );

    assert!(registry
        .sync_to_explicit_store(&tenant_a, &project_a, &artifact, text("store://tenant-a"))
        .is_ok());
    registry.garbage_collect_node(&tenant_a, &project_a, &text("node-a"));
    let context_a = context("tenant-a", "project-a", "user");
    let context_b = context("tenant-b", "project-b", "user");
    let policy = DownloadPolicy { max_bytes: 100 };
    assert_eq!(
        registry.download_action(&context_a, &allowed(), &artifact, &policy).unwrap().source,
        StorageLocation::ExplicitStore(text("store://tenant-a"))
    );
    assert_eq!(
        registry.download_action(&context_b, &allowed(), &artifact, &policy).unwrap().source,
        StorageLocation::RetainedNode(text("node-b"))
    );

    let first_a =
        create_link(&mut registry, &context_a, &artifact, 100, "same-nonce", 10, 60).unwrap();
    let first_b =
        create_link(&mut registry, &context_b, &artifact, 100, "same-nonce", 10, 60).unwrap();
    assert_ne!(
        first_a.scoped_token_digest, first_b.scoped_token_digest,
        "the full artifact scope must contribute to download tokens"
    );
    for index in 1..MAX_ISSUED_DOWNLOAD_LINKS_PER_ARTIFACT {
        assert!(create_link(
            &mut registry,
            &context_a,
            &artifact,
            100,
            &format!("tenant-a-{index}"),
            10,
            60,
        )
        .is_ok());
    }
    assert!(matches!(
        create_link(&mut registry, &context_a, &artifact, 100, "tenant-a-over-limit", 10, 60),
        Err(DownloadError::Usage(_))
    ));
    assert!(create_link(
        &mut registry,
        &context_b,
        &artifact,
        100,
        "tenant-b-still-independent",
        10,
        60,
    )
    .is_ok());
    assert!(registry
        .revoke_download_link(&context_a, &allowed(), &artifact, &first_a.scoped_token_digest)
        .is_ok());
    assert!(
        registry
            .revoke_download_link(&context_b, &allowed(), &artifact, &first_b.scoped_token_digest)
            .is_ok(),
        "revoking tenant A's link must not revoke tenant B's link"
    );
    assert_eq!(
        registry
            .revoke_download_link(&context_b, &allowed(), &artifact, &first_a.scoped_token_digest)
            .err()
            .unwrap(),
        DownloadError::InvalidToken
    );
}

#[test]
fn download_link_is_not_created_when_artifact_is_unavailable_or_too_large() {
    let mut registry = registry_with_artifact();
    registry.garbage_collect_node(&text("tenant"), &text("project"), &text("node"));
    let context = context("tenant", "project", "user");

    assert_eq!(
        create_link(&mut registry, &context, "artifact", 100, "nonce", 10, 60)
            .err()
            .unwrap(),
        DownloadError::Unavailable
    );

    let mut registry = registry_with_artifact();
    assert!(matches!(
        create_link(&mut registry, &context, "artifact", 1, "nonce", 10, 60),
        Err(DownloadError::LimitExceeded { .. })
    ));
}

#[test]
fn download_link_is_authenticated_scoped_and_not_guessable() {
    let mut registry = registry_with_artifact();
    let context = context("tenant", "project", "user");
    let link = create_link(&mut registry, &context, "artifact", 100, "nonce-a", 10, 60).unwrap();
    let other = create_link(&mut registry, &context, "artifact", 100, "nonce-b", 10, 60).unwrap();

    assert_eq!(link.tenant, "tenant");
    assert_eq!(link.project, "project");
    assert_eq!(link.process, "process");
    assert!(link.actor.same_as(&Actor::User(text("user"))));
    assert_eq!(link.max_bytes, 100);
    assert!(is_valid_sha256(&link.policy_context_digest));
    assert_eq!(link.expires_at_epoch_seconds, 70);
    assert!(link.url_path.contains("/artifacts/tenant/project/process/artifact"));
    assert_ne!(link.scoped_token_digest, other.scoped_token_digest);
    assert!(matches!(link.source, StorageLocation::RetainedNode(_)));
}

#[test]
fn download_link_is_bound_to_actor_and_policy_context_metadata() {
    let mut registry = registry_with_artifact();
    let owner = context("tenant", "project", "user");
    let other_actor = context("tenant", "project", "other-user");
    let link = create_link(&mut registry, &owner, "artifact", 100, "nonce", 10, 60).unwrap();
    let other_policy_link =
        create_link(&mut registry, &owner, "artifact", 99, "other-policy", 10, 60).unwrap();
    assert_ne!(link.policy_context_digest, other_policy_link.policy_context_digest);
    assert_eq!(
        registry
            .revoke_download_link(&other_actor, &allowed(), &text("artifact"), &link.scoped_token_digest)
            .err()
            .unwrap(),
        DownloadError::InvalidToken
    );
}

#[test]
fn download_link_history_expires_and_active_links_can_be_revoked() {
    let mut registry = registry_with_artifact();
    let context = context("tenant", "project", "user");
    assert!(create_link(&mut registry, &context, "artifact", 100, "expired", 10, 5).is_ok());
    assert_eq!(registry.retained_download_link_count(), 1);
    registry.expire_download_links(10 + 5 + DOWNLOAD_LINK_TOMBSTONE_SECONDS + 1);
    assert_eq!(registry.retained_download_link_count(), 0);

    let active = create_link(&mut registry, &context, "artifact", 100, "active", 20, 60).unwrap();
    let revoked = registry
        .revoke_download_link(&context, &allowed(), &text("artifact"), &active.scoped_token_digest)
        .unwrap();
    assert_eq!(revoked.scoped_token_digest, active.scoped_token_digest);
    assert!(registry.issued_download_link(&active.scoped_token_digest).unwrap().revoked);
}

#[test]
fn download_session_history_is_count_and_time_bounded() {
    let mut registry = registry_with_artifact();
    let context = context("tenant", "project", "user");
    for index in 0..MAX_ISSUED_DOWNLOAD_LINKS_PER_ARTIFACT {
        assert!(create_link(
            &mut registry,
            &context,
            "artifact",
            100,
            &format!("bounded-{index}"),
            10,
            1,
        )
        .is_ok());
    }
    assert_eq!(
        registry.retained_download_link_count(),
        MAX_ISSUED_DOWNLOAD_LINKS_PER_ARTIFACT
    );
    assert!(matches!(
        create_link(&mut registry, &context, "artifact", 100, "over-limit", 10, 1),
        Err(DownloadError::Usage(_))
    ));

    registry.expire_download_links(12 + DOWNLOAD_LINK_TOMBSTONE_SECONDS);
    assert_eq!(registry.retained_download_link_count(), 0);
    assert!(create_link(
        &mut registry,
        &context,
        "artifact",
        100,
        "after-expiry",
        12 + DOWNLOAD_LINK_TOMBSTONE_SECONDS,
        1,
    )
    .is_ok());
}

#[test]
fn artifact_metadata_is_bounded_per_project_without_evicting_live_or_retained_state() {
    let mut registry = ArtifactRegistry::new();
    let tenant = text("tenant");
    let project = text("project");
    flush(
        &mut registry,
        artifact_flush(
            "artifact-0",
            ("other-tenant", "other-project"),
            "process",
            "other-task",
            "other-node",
            "other-content",
            1,
        ),
    );
    for index in 0..MAX_ARTIFACT_METADATA_PER_PROJECT {
        let process = if index == 3 {
            text("active-process-3")
        } else {
            format!("completed-process-{index}")
        };
        flush(
            &mut registry,
            artifact_flush(
                &format!("artifact-{index}"),
                ("tenant", "project"),
                &process,
                &format!("task-{index}"),
                "node",
                &format!("content-{index}"),
                1,
            ),
        );
        if index != 3 {
            registry.release_process_holds(&tenant, &project, &process);
        }
    }
    assert_eq!(registry.artifact_count(), MAX_ARTIFACT_METADATA_PER_PROJECT + 1);
    let mut pinned = OrderedSet::new();
    pinned.insert((tenant.clone(), project.clone(), text("artifact-0")));
    assert!(registry
        .sync_to_explicit_store(
            &tenant,
            &project,
            &text("artifact-1"),
            text("store://retained-export"),
        )
        .is_ok());
    let context = context("tenant", "project", "user");
    assert!(
        create_link(&mut registry, &context, "artifact-2", 1, "active-download", 10, 60).is_ok()
    );
    let mut protected_processes = OrderedSet::new();
    protected_processes.insert(text("active-process-3"));
    protected_processes.insert(text("active-process"));
    let next = artifact_flush(
        "artifact-next",
        ("tenant", "project"),
        "active-process",
        "task-next",
        "node",
        "next",
        1,
    );
    assert!(registry
        .flush_metadata_with_protected_processes(next, &pinned, &protected_processes)
        .is_ok());
    assert_eq!(registry.artifact_count(), MAX_ARTIFACT_METADATA_PER_PROJECT + 1);
    for id in ["artifact-0", "artifact-1", "artifact-2", "artifact-3"] {
        assert!(
            registry.metadata(&tenant, &project, &text(id)).is_some(),
            "{id} was evicted despite being pinned, exported, downloaded, or live"
        );
    }
    assert!(
        registry.metadata(&tenant, &project, &text("artifact-4")).is_none(),
        "the oldest completed unprotected metadata should be evicted"
    );
    assert!(registry.metadata(&tenant, &project, &text("artifact-next")).is_some());
    assert_eq!(
        registry
            .metadata(&text("other-tenant"), &text("other-project"), &text("artifact-0"))
            .unwrap()
            .digest,
        digest("other-content"),
        "eviction and pins in one scope must not affect an equal ID in another scope"
    );
}

#[test]
fn artifact_metadata_capacity_rejects_atomically_when_every_entry_is_protected() {
    let mut registry = ArtifactRegistry::new();
    let tenant = text("tenant");
    let project = text("project");
    for index in 0..MAX_ARTIFACT_METADATA_PER_PROJECT {
        flush(
            &mut registry,
            artifact_flush(
                &format!("artifact-{index}"),
                ("tenant", "project"),
                "active-process",
                &format!("task-{index}"),
                "node",
                &format!("content-{index}"),
                1,
            ),
        );
    }

    let replacement = artifact_flush(
        "artifact-0",
        ("tenant", "project"),
        "active-process",
        "replacement-task",
        "node",
        "replacement",
        2,
    );
    let mut active = OrderedSet::new();
    active.insert(text("active-process"));
    assert!(
        registry
            .flush_metadata_with_protected_processes(replacement, &OrderedSet::new(), &active)
            .is_ok(),
        "replacement must remain possible at the metadata bound"
    );
    assert_eq!(
        registry.metadata(&tenant, &project, &text("artifact-0")).unwrap().digest,
        digest("replacement")
    );

    let epoch_before_rejection = registry.current_epoch();
    let rejected = artifact_flush(
        "artifact-rejected",
        ("tenant", "project"),
        "active-process",
        "rejected-task",
        "node",
        "rejected",
        3,
    );
    let result =
        registry.flush_metadata_with_protected_processes(rejected, &OrderedSet::new(), &active);

    assert!(result
        .err()
        .unwrap()
        .contains("exhausted by active or retained artifacts"));
    assert_eq!(registry.current_epoch(), epoch_before_rejection);
    assert_eq!(
        registry.metadata_for_project(&tenant, &project).len(),
        MAX_ARTIFACT_METADATA_PER_PROJECT
    );
    assert!(registry.metadata(&tenant, &project, &text("artifact-rejected")).is_none());
    assert_eq!(
        registry.metadata(&tenant, &project, &text("artifact-0")).unwrap().digest,
        digest("replacement"),
        "rejection must not modify existing metadata"
    );
}

#[test]
fn guessed_download_token_is_rejected() {
    let mut registry = registry_with_artifact();
    let error = registry
        .revoke_download_link(
            &context("tenant", "project", "user"),
            &allowed(),
            &text("artifact"),
            &digest("guessed"),
        )
        .err()
        .unwrap();

    assert_eq!(error, DownloadError::InvalidToken);
}

#[test]
fn digest_parts_name_scope_actor_source_and_limits() {
    let registry = registry_with_artifact();
    let metadata = registry
        .metadata(&text("tenant"), &text("project"), &text("artifact"))
        .unwrap();
    let source = StorageLocation::RetainedNode(text("node"));
    assert_eq!(storage_location_key(&source), "retained-node:node");
    assert_eq!(
        storage_location_key(&StorageLocation::ExplicitStore(text("s3://b"))),
        "explicit-store:s3://b"
    );
    assert_eq!(
        download_policy_context_parts(metadata, &source, &DownloadPolicy { max_bytes: 7 }).items,
        vec![
            text("artifact-download-policy-context:v1"),
            text("tenant"),
            text("project"),
            text("process"),
            text("artifact"),
            digest("bytes"),
            text("32"),
            text("retained-node:node"),
            text("7"),
        ]
    );
    assert_eq!(
        download_token_digest_parts(
            metadata,
            &Actor::Agent(text("ci")),
            &text("nonce"),
            &digest("policy"),
            70,
        )
        .items,
        vec![
            text("artifact-download-token:v2"),
            text("tenant/project/process/artifact"),
            text("agent:ci"),
            text("nonce"),
            digest("bytes"),
            text("32"),
            digest("policy"),
            text("70"),
        ]
    );
    assert_eq!(actor_subject(&Actor::User(text("u"))), "user:u");
    assert_eq!(actor_subject(&Actor::Node(text("n"))), "node:n");
    assert_eq!(actor_subject(&Actor::Task(text("t"))), "task:t");
}

#[test]
fn holds_are_added_once_and_released_by_process_and_task() {
    let mut registry = registry_with_artifact();
    let (tenant, project, artifact) = (text("tenant"), text("project"), text("artifact"));
    let consumer = || ArtifactHoldReason::ConsumerTask {
        process: text("other"),
        task: text("consumer"),
    };
    assert_eq!(registry.add_hold(&tenant, &project, &artifact, consumer(), 3).ok(), Some(true));
    assert_eq!(registry.add_hold(&tenant, &project, &artifact, consumer(), 4).ok(), Some(false));
    assert!(registry
        .add_hold(&tenant, &project, &text("unknown"), consumer(), 4)
        .is_err());
    assert_eq!(registry.holds(&tenant, &project, &artifact).len(), 2);
    assert_eq!(
        registry.release_task_holds(&tenant, &project, &text("other"), &text("consumer")),
        1
    );
    assert!(registry.release_process_hold(&tenant, &project, &text("process"), &artifact));
    assert!(!registry.release_process_hold(&tenant, &project, &text("process"), &artifact));
    assert!(registry.holds(&tenant, &project, &artifact).is_empty());
    assert!(!registry.remove_hold(&tenant, &project, &artifact, &consumer()));
}

#[test]
fn a_location_is_recorded_only_for_the_same_content() {
    let mut registry = registry_with_artifact();
    let (tenant, project, artifact) = (text("tenant"), text("project"), text("artifact"));
    let node = text("second");
    assert!(registry
        .record_verified_retaining_location(
            &tenant, &project, &artifact, &node, &digest("other"), 32,
        )
        .is_err());
    assert!(registry
        .record_verified_retaining_location(
            &tenant, &project, &artifact, &node, &digest("bytes"), 33,
        )
        .is_err());
    assert!(registry
        .record_verified_retaining_location(
            &tenant, &project, &artifact, &node, &digest("bytes"), 32,
        )
        .is_ok());
    assert_eq!(registry.held_artifacts_on_node(&tenant, &project, &node).len(), 1);
    assert!(registry.remove_retaining_location(&tenant, &project, &artifact, &node));
    assert!(!registry.remove_retaining_location(&tenant, &project, &artifact, &node));
    assert_eq!(registry.held_artifacts_on_node(&tenant, &project, &node).len(), 0);
}

#[test]
fn a_download_over_the_limit_names_both_sizes() {
    let registry = registry_with_artifact();
    let context = context("tenant", "project", "user");
    assert_eq!(
        registry.downloadable_size(
            &context,
            &allowed(),
            &text("artifact"),
            &DownloadPolicy { max_bytes: 31 },
        ),
        Err(DownloadError::LimitExceeded { size: 32, limit: 31 })
    );
    assert_eq!(
        registry.downloadable_size(
            &context,
            &allowed(),
            &text("artifact"),
            &DownloadPolicy { max_bytes: 32 },
        ),
        Ok(32)
    );
}

#[test]
fn a_download_that_is_not_allowed_is_refused_before_its_size_is_looked_at() {
    let mut registry = registry_with_artifact();
    let context = context("tenant", "project", "user");
    let denied = Authorization { allowed: false, reason: text("outside the scope") };
    let policy = DownloadPolicy { max_bytes: 1 };
    let refusal = Err(DownloadError::Unauthorized(text("outside the scope")));
    assert_eq!(
        registry.download_action(&context, &denied, &text("artifact"), &policy).map(|_| 0),
        refusal
    );
    assert_eq!(
        registry.downloadable_size(&context, &denied, &text("artifact"), &policy),
        refusal
    );
    assert_eq!(
        registry
            .create_download_link(
                &context,
                &denied,
                &text("artifact"),
                &policy,
                text("sha256:policy"),
                text("sha256:token"),
                10,
                60,
            )
            .map(|_| 0),
        refusal
    );
    assert_eq!(
        registry.download_action(&context, &denied, &text("unknown"), &policy).map(|_| 0),
        Err(DownloadError::NotFound)
    );
}
