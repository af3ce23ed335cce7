//! Releasing, downloading and exporting artifacts.
use vstd::prelude::*;
use vstd::string::*;

use crate::artifact_registry::{ArtifactHold, ArtifactHoldReason, ArtifactHoldReasonModel, ArtifactMetadataModel, ArtifactRegistryModel, DownloadAction, DownloadError, DownloadLink, DownloadPolicy, MAX_ISSUED_DOWNLOAD_LINKS_PER_ARTIFACT, StorageLocation, download_refusal, held, is_link, is_source, link_count, links_expired, other_holds, own_link, saturating, well_formed, with_hold, with_link, with_revoked, without_hold};
use crate::configuration::{bounded_ttl, clamped_ttl};
use crate::coordinator::Authorization;
use crate::duplicate::views;
use crate::ids::{ArtifactId, AuthContext, Digest, NodeId, NodeScopeKey, ProcessId, ProjectId, ScopeText, TenantId};
use crate::keys::ProcessText;
use crate::interchange::{TransferAnswer, TransferTokens, interchange_requested, random_secret};
use crate::transfer::{ArtifactTransferRecord, TransferRules};
use crate::logs::{node_may, node_turned_away};
use crate::ordered::OrderedKey;
use crate::ordered_map::lookup;
use crate::service::{CoordinatorService, CoordinatorServiceModel};
use crate::service_error::{CoordinatorServiceError, protocol};
use crate::text::concat3;
use crate::node_registry::live;

verus! {

/// An artifact as its holder names it.
pub struct ArtifactHandle {
    pub id: ArtifactId,
    pub digest: Digest,
    pub size_bytes: u64,
}

/// What became of the hold of a process on an artifact: whether there was one, and the holds that are
/// left.
pub struct ArtifactReleased {
    pub hold_removed: bool,
    pub remaining_holds: Vec<ArtifactHold>,
}

/// The artifact is the one that its holder names.
pub open spec fn handle_fits(metadata: ArtifactMetadataModel, process: Seq<char>, handle: ArtifactHandle) -> bool {
    metadata.process@ == process && metadata.digest@ == handle.digest@ && metadata.size
        == handle.size_bytes
}

/// Why an artifact is not released, before it is asked who wants it.
pub open spec fn handle_refused(s: CoordinatorServiceModel, key: ProcessText, handle: ArtifactHandle, error: CoordinatorServiceError) -> bool {
    if lookup(s.artifacts.artifacts, (key.0, key.1, handle.id@)) is None {
        error == CoordinatorServiceError::Download(DownloadError::NotFound)
    } else {
        error.protests("artifact release handle does not match scoped coordinator metadata"@)
    }
}

/// The holder names an artifact of the process.
pub open spec fn handle_known(s: CoordinatorServiceModel, key: ProcessText, handle: ArtifactHandle) -> bool {
    lookup(s.artifacts.artifacts, (key.0, key.1, handle.id@)) matches Some(metadata) && handle_fits(
        metadata,
        key.2,
        handle,
    )
}

/// The hold that a process has on what its tasks leave.
pub open spec fn process_hold(process: Seq<char>) -> ArtifactHoldReasonModel {
    ArtifactHoldReasonModel::ProcessRetention { process }
}

/// What comes of releasing an artifact.
pub open spec fn artifact_released(
    before: CoordinatorServiceModel,
    after: CoordinatorServiceModel,
    key: ProcessText,
    handle: ArtifactHandle,
    r: Result<ArtifactReleased, CoordinatorServiceError>,
) -> bool {
    let scope = (key.0, key.1, handle.id@);
    let holds = held(before.artifacts.holds, scope);
    let left = without_hold(before.artifacts.holds, scope, process_hold(key.2));
    if !handle_known(before, key, handle) {
        &&& r matches Err(error)
        &&& handle_refused(before, key, handle, error)
        &&& after == before
    } else {
        &&& r matches Ok(released)
        &&& released.hold_removed == (other_holds(holds, process_hold(key.2)).len() < holds.len())
        &&& views(released.remaining_holds@) == held(left, scope)
        &&& after == (CoordinatorServiceModel {
            artifacts: ArtifactRegistryModel { holds: left, ..before.artifacts },
            ..before
        })
    }
}

impl CoordinatorService {
    fn check_handle(&self, tenant: &TenantId, project: &ProjectId, process: &ProcessId, handle: &ArtifactHandle) -> (r: Result<
        (),
        CoordinatorServiceError,
    >)
        ensures
            ({
                let key = (tenant@, project@, process@);
                &&& r is Ok <==> handle_known(self@, key, *handle)
                &&& r matches Err(error) ==> handle_refused(self@, key, *handle, error)
            }),
    {
        match self.artifact_registry.metadata(tenant, project, &handle.id) {
            None => Err(CoordinatorServiceError::Download(DownloadError::NotFound)),
            Some(metadata) => {
                if metadata.process != *process || metadata.digest != handle.digest
                    || metadata.size != handle.size_bytes {
                    return Err(
                        protocol(
                            "artifact release handle does not match scoped coordinator metadata",
                        ),
                    );
                }
                Ok(())
            },
        }
    }

    /// Ends the hold that a process has on an artifact of its own.
    pub fn release_process_artifact_hold(
        &mut self,
        tenant: &TenantId,
        project: &ProjectId,
        process: &ProcessId,
        handle: &ArtifactHandle,
    ) -> (r: Result<ArtifactReleased, CoordinatorServiceError>)
        ensures
            artifact_released(
                old(self)@,
                final(self)@,
                (tenant@, project@, process@),
                *handle,
                r,
            ),
            well_formed(old(self)@.artifacts) ==> well_formed(final(self)@.artifacts),
    {
        match self.check_handle(tenant, project, process, handle) {
            Ok(_) => {},
            Err(error) => {
                return Err(error);
            },
        }
        let hold_removed: bool = self.artifact_registry.release_process_hold(
            tenant,
            project,
            process,
            &handle.id,
        );
        let remaining_holds: Vec<ArtifactHold> = self.artifact_registry.holds(
            tenant,
            project,
            &handle.id,
        );
        Ok(ArtifactReleased { hold_removed, remaining_holds })
    }

    /// Ends the hold that a process has on an artifact of its own, for a task that runs on a node.
    /// `task_active` is whether it does, and `cancelled` whether the process was cancelled.
    pub fn handle_release_artifact(
        &mut self,
        tenant: &TenantId,
        project: &ProjectId,
        process: &ProcessId,
        node: &NodeId,
        stopping: bool,
        handle: &ArtifactHandle,
        task_active: bool,
        cancelled: bool,
    ) -> (r: Result<ArtifactReleased, CoordinatorServiceError>)
        ensures
            ({
                let key = (tenant@, project@, process@);
                if !node_may(old(self)@, key, node@, stopping) {
                    &&& r matches Err(error)
                    &&& node_turned_away(old(self)@, key, node@, error)
                    &&& final(self)@ == old(self)@
                } else if handle_known(old(self)@, key, *handle) && !task_active && !cancelled {
                    &&& r matches Err(error)
                    &&& error.protests(
                        "artifact release must originate from an active task in the owning process"@,
                    )
                    &&& final(self)@ == old(self)@
                } else {
                    artifact_released(old(self)@, final(self)@, key, *handle, r)
                }
            }),
            well_formed(old(self)@.artifacts) ==> well_formed(final(self)@.artifacts),
    {
        match self.authorize_node_for_process_or_termination(
            node,
            tenant,
            project,
            process,
            stopping,
        ) {
            Ok(_) => {},
            Err(error) => {
                return Err(error);
            },
        }
        match self.check_handle(tenant, project, process, handle) {
            Ok(_) => {},
            Err(error) => {
                return Err(error);
            },
        }
        if !task_active && !cancelled {
            return Err(
                protocol(
                    "artifact release must originate from an active task in the owning process",
                ),
            );
        }
        self.release_process_artifact_hold(tenant, project, process, handle)
    }

    /// Ends the hold that a process has on an artifact of its own, for its main.
    pub fn handle_coordinator_main_release_artifact(
        &mut self,
        tenant: &TenantId,
        project: &ProjectId,
        process: &ProcessId,
        handle: &ArtifactHandle,
    ) -> (r: Result<ArtifactReleased, CoordinatorServiceError>)
        ensures
            artifact_released(
                old(self)@,
                final(self)@,
                (tenant@, project@, process@),
                *handle,
                r,
            ),
            well_formed(old(self)@.artifacts) ==> well_formed(final(self)@.artifacts),
    {
        self.release_process_artifact_hold(tenant, project, process, handle)
    }
}

/// Why an artifact cannot be had from where it is, if it cannot: the node that holds it never told
/// that it is online, or is not.
pub open spec fn source_refusal(
    s: CoordinatorServiceModel,
    tenant: Seq<char>,
    project: Seq<char>,
    source: StorageLocation,
    now: u64,
) -> Option<Seq<char>> {
    match source {
        StorageLocation::ExplicitStore(_) => None,
        StorageLocation::RetainedNode(node) => if lookup(
            s.nodes.descriptors,
            (tenant, project, node@),
        ) is None {
            Some(
                "retaining node "@ + node@
                    + " has not reported online status for artifact download"@,
            )
        } else if !live(s.nodes, (tenant, project, node@), now, s.node_stale_after_seconds) {
            Some("retaining node "@ + node@ + " is offline for artifact download"@)
        } else {
            None
        },
    }
}

/// An artifact cannot be had from where it is.
pub open spec fn is_unreachable(error: DownloadError, reason: Seq<char>) -> bool {
    error matches DownloadError::DirectConnectivityUnavailable(text) && text@ == reason
}

/// What comes of making a link to an artifact that may be downloaded from where it is.
pub open spec fn link_made(
    before: CoordinatorServiceModel,
    after: CoordinatorServiceModel,
    context: AuthContext,
    artifact: Seq<char>,
    max_bytes: u64,
    ttl: u64,
    digests: (Digest, Digest),
    now: u64,
    r: Result<DownloadLink, CoordinatorServiceError>,
) -> bool {
    let key = (context.tenant@, context.project@, artifact);
    let state = links_expired(before.artifacts, now);
    if link_count(state.issued_download_links, key) >= MAX_ISSUED_DOWNLOAD_LINKS_PER_ARTIFACT {
        &&& r matches Err(CoordinatorServiceError::Download(DownloadError::Usage(text)))
        &&& text@ == "artifact download session limit reached; revoke a link or wait for expiry"@
        &&& after == (CoordinatorServiceModel { artifacts: state, ..before })
    } else {
        &&& r matches Ok(link)
        &&& is_link(
            link,
            lookup(state.artifacts, key)->Some_0,
            context.actor,
            max_bytes,
            saturating(now + ttl),
            digests.0,
            digests.1,
        )
        &&& after == (CoordinatorServiceModel {
            artifacts: with_link(state, key, link, now),
            ..before
        })
    }
}

/// What comes of asking for a link to an artifact.
pub open spec fn link_asked(
    before: CoordinatorServiceModel,
    after: CoordinatorServiceModel,
    context: AuthContext,
    authz: Authorization,
    artifact: Seq<char>,
    max_bytes: u64,
    ttl: u64,
    digests: (Digest, Digest),
    now: u64,
    r: Result<DownloadLink, CoordinatorServiceError>,
) -> bool {
    let key = (context.tenant@, context.project@, artifact);
    match download_refusal(before.artifacts, key, authz, max_bytes) {
        Some(error) => {
            &&& r == Err::<DownloadLink, CoordinatorServiceError>(
                CoordinatorServiceError::Download(error),
            )
            &&& after == before
        },
        None => exists|source: StorageLocation| #[trigger]
            is_source(lookup(before.artifacts.artifacts, key)->Some_0, source) && match source_refusal(
                before,
                context.tenant@,
                context.project@,
                source,
                now,
            ) {
                Some(reason) => {
                    &&& r matches Err(CoordinatorServiceError::Download(error))
                    &&& is_unreachable(error, reason)
                    &&& after == before
                },
                None => link_made(
                    before,
                    after,
                    context,
                    artifact,
                    max_bytes,
                    ttl,
                    digests,
                    now,
                    r,
                ),
            },
    }
}

/// What a request to revoke a link comes to.
pub open spec fn revocation_answered(
    before: CoordinatorServiceModel,
    after: CoordinatorServiceModel,
    context: AuthContext,
    authz: Authorization,
    artifact: ArtifactId,
    token_digest: Digest,
    now: u64,
    r: Result<DownloadLink, CoordinatorServiceError>,
) -> bool {
    let key = (context.tenant@, context.project@, artifact@);
    let state = links_expired(before.artifacts, now);
    if !own_link(state, context, artifact@, token_digest@) {
        &&& r == Err::<DownloadLink, CoordinatorServiceError>(
            CoordinatorServiceError::Download(DownloadError::InvalidToken),
        )
        &&& after == (CoordinatorServiceModel { artifacts: state, ..before })
    } else {
        let link = lookup(state.issued_download_links, token_digest@)->Some_0.link;
        match download_refusal(state, key, authz, link.max_bytes) {
            Some(error) => {
                &&& r == Err::<DownloadLink, CoordinatorServiceError>(
                    CoordinatorServiceError::Download(error),
                )
                &&& after == (CoordinatorServiceModel {
                    artifacts: state,
                    ..before
                })
            },
            None => {
                &&& r == Ok::<DownloadLink, CoordinatorServiceError>(link)
                &&& after == (CoordinatorServiceModel {
                    artifacts: with_revoked(state, token_digest@, link),
                    ..before
                })
            },
        }
    }
}

impl CoordinatorService {
    /// Checks that an artifact can be had from where it is.
    pub fn ensure_download_source_connectivity(&self, tenant: &TenantId, project: &ProjectId, source: &StorageLocation, now: u64) -> (r: Result<
        (),
        DownloadError,
    >)
        ensures
            match source_refusal(self@, tenant@, project@, *source, now) {
                None => r is Ok,
                Some(reason) => r matches Err(error) && is_unreachable(error, reason),
            },
    {
        match source {
            StorageLocation::ExplicitStore(_) => Ok(()),
            StorageLocation::RetainedNode(node) => {
                let scope: NodeScopeKey = NodeScopeKey::from_refs(tenant, project, node);
                if self.node_registry.descriptor(&scope).is_none() {
                    return Err(
                        DownloadError::DirectConnectivityUnavailable(
                            concat3(
                                "retaining node ",
                                node.as_str(),
                                " has not reported online status for artifact download",
                            ),
                        ),
                    );
                }
                if !self.node_is_live(&scope, now) {
                    return Err(
                        DownloadError::DirectConnectivityUnavailable(
                            concat3(
                                "retaining node ",
                                node.as_str(),
                                " is offline for artifact download",
                            ),
                        ),
                    );
                }
                Ok(())
            },
        }
    }

    /// Makes a link to an artifact. It lasts for as long as is asked for, but no longer than
    /// `max_ttl_seconds`. `authz` is what is decided of the caller and the scope of the artifact.
    pub fn handle_create_artifact_download_link(
        &mut self,
        context: &AuthContext,
        authz: &Authorization,
        artifact: &ArtifactId,
        max_bytes: u64,
        ttl_seconds: u64,
        max_ttl_seconds: u64,
        policy_context_digest: Digest,
        scoped_token_digest: Digest,
        now: u64,
    ) -> (r: Result<DownloadLink, CoordinatorServiceError>)
        requires
            well_formed(old(self)@.artifacts),
            max_ttl_seconds >= 1,
        ensures
            link_asked(
                old(self)@,
                final(self)@,
                *context,
                *authz,
                artifact@,
                max_bytes,
                clamped_ttl(ttl_seconds, max_ttl_seconds),
                (policy_context_digest, scoped_token_digest),
                now,
                r,
            ),
            well_formed(final(self)@.artifacts),
    {
        let ghost before = self@;
        let ghost key = (context.tenant@, context.project@, artifact@);
        let ghost digests = (policy_context_digest, scoped_token_digest);
        let policy: DownloadPolicy = DownloadPolicy { max_bytes };
        let action: DownloadAction = match self.artifact_registry.download_action(
            context,
            authz,
            artifact,
            &policy,
        ) {
            Ok(action) => action,
            Err(error) => {
                return Err(CoordinatorServiceError::Download(error));
            },
        };
        assert(is_source(lookup(before.artifacts.artifacts, key)->Some_0, action.source));
        match self.ensure_download_source_connectivity(
            &context.tenant,
            &context.project,
            &action.source,
            now,
        ) {
            Ok(_) => {},
            Err(error) => {
                return Err(CoordinatorServiceError::Download(error));
            },
        }
        let ttl: u64 = bounded_ttl(ttl_seconds, max_ttl_seconds);
        assert(links_expired(before.artifacts, now).artifacts == before.artifacts.artifacts);
        let r: Result<DownloadLink, CoordinatorServiceError> =
            match self.artifact_registry.create_download_link(
            context,
            authz,
            artifact,
            &policy,
            policy_context_digest,
            scoped_token_digest,
            now,
            ttl,
        ) {
            Ok(link) => Ok(link),
            Err(error) => Err(CoordinatorServiceError::Download(error)),
        };
        assert(link_made(
            before,
            self@,
            *context,
            artifact@,
            max_bytes,
            ttl,
            digests,
            now,
            r,
        ));
        r
    }

    /// Revokes a link to an artifact. Links that have run out end first.
    pub fn handle_revoke_artifact_download_link(
        &mut self,
        context: &AuthContext,
        authz: &Authorization,
        artifact: &ArtifactId,
        token_digest: &Digest,
        now: u64,
    ) -> (r: Result<DownloadLink, CoordinatorServiceError>)
        requires
            well_formed(old(self)@.artifacts),
        ensures
            revocation_answered(
                old(self)@,
                final(self)@,
                *context,
                *authz,
                *artifact,
                *token_digest,
                now,
                r,
            ),
            well_formed(final(self)@.artifacts),
    {
        self.artifact_registry.expire_download_links(now);
        match self.artifact_registry.revoke_download_link(context, authz, artifact, token_digest) {
            Ok(link) => Ok(link),
            Err(error) => Err(CoordinatorServiceError::Download(error)),
        }
    }
}

/// What an export of an artifact to a node comes to: whether the node has it already, or the transfer
/// that brings it there.
pub struct ArtifactExport {
    pub already_present: bool,
    pub transfer: Option<ArtifactTransferRecord>,
    pub artifact_size_bytes: u64,
}

/// The hold that keeps an artifact while its export is arranged.
pub open spec fn export_hold(label: Seq<char>) -> ArtifactHoldReasonModel {
    ArtifactHoldReasonModel::ExplicitRetention { label }
}

/// The service with a hold on an artifact.
pub open spec fn holding(s: CoordinatorServiceModel, key: ScopeText, label: Seq<char>, now: u64) -> CoordinatorServiceModel {
    CoordinatorServiceModel {
        artifacts: ArtifactRegistryModel {
            holds: with_hold(s.artifacts.holds, key, export_hold(label), now),
            ..s.artifacts
        },
        ..s
    }
}

/// The service without that hold.
pub open spec fn letting_go(s: CoordinatorServiceModel, key: ScopeText, label: Seq<char>) -> CoordinatorServiceModel {
    CoordinatorServiceModel {
        artifacts: ArtifactRegistryModel {
            holds: without_hold(s.artifacts.holds, key, export_hold(label)),
            ..s.artifacts
        },
        ..s
    }
}

/// A transfer is asked for while the artifact is held, and the hold ends with the answer.
pub open spec fn export_arranged(
    before: CoordinatorServiceModel,
    after: CoordinatorServiceModel,
    key: ScopeText,
    metadata: ArtifactMetadataModel,
    receiver: NodeScopeKey,
    artifact: ArtifactId,
    label: Seq<char>,
    cancelled: bool,
    rules: TransferRules,
    tokens: TransferTokens,
    secret: Result<[u8; 32], String>,
    now: u64,
    r: Result<ArtifactExport, CoordinatorServiceError>,
) -> bool {
    exists|asked: CoordinatorServiceModel, answer: Result<TransferAnswer, CoordinatorServiceError>|
     #[trigger]
        interchange_requested(
            holding(before, key, label, now),
            asked,
            Ok::<NodeScopeKey, String>(receiver),
            Ok::<ProcessId, String>(metadata.process),
            Ok::<ArtifactId, String>(artifact),
            0,
            cancelled,
            rules,
            tokens,
            secret,
            now,
            answer,
        ) && after == letting_go(asked, key, label) && match answer {
            Err(error) => r == Err::<ArtifactExport, CoordinatorServiceError>(error),
            Ok(given) => {
                &&& r matches Ok(export)
                &&& export.already_present == (given.transfer is None)
                &&& export.transfer == given.transfer
                &&& export.artifact_size_bytes == metadata.size
            },
        }
}

/// What comes of exporting an artifact to a node.
pub open spec fn artifact_exported(
    before: CoordinatorServiceModel,
    after: CoordinatorServiceModel,
    context: AuthContext,
    authz: Authorization,
    artifact: ArtifactId,
    receiver: NodeScopeKey,
    label: Seq<char>,
    cancelled: bool,
    rules: TransferRules,
    tokens: TransferTokens,
    secret: Result<[u8; 32], String>,
    now: u64,
    r: Result<ArtifactExport, CoordinatorServiceError>,
) -> bool {
    let key = (context.tenant@, context.project@, artifact@);
    match download_refusal(before.artifacts, key, authz, u64::MAX) {
        Some(error) => {
            &&& r == Err::<ArtifactExport, CoordinatorServiceError>(
                CoordinatorServiceError::Download(error),
            )
            &&& after == before
        },
        None => {
            let metadata = lookup(before.artifacts.artifacts, key)->Some_0;
            if metadata.retaining_nodes == Set::<Seq<char>>::empty() {
                &&& r == Err::<ArtifactExport, CoordinatorServiceError>(
                    CoordinatorServiceError::Download(DownloadError::Unavailable),
                )
                &&& after == before
            } else if metadata.retaining_nodes.contains(receiver.node@) {
                &&& r matches Ok(export)
                &&& export.already_present && export.transfer is None
                &&& export.artifact_size_bytes == metadata.size
                &&& after == before
            } else {
                export_arranged(
                    before,
                    after,
                    key,
                    metadata,
                    receiver,
                    artifact,
                    label,
                    cancelled,
                    rules,
                    tokens,
                    secret,
                    now,
                    r,
                )
            }
        },
    }
}

impl CoordinatorService {
    /// Exports an artifact to a node. While the transfer is arranged, a hold under `label` keeps the
    /// artifact, also where its process has let go of it.
    pub fn export_artifact_to_node(
        &mut self,
        context: &AuthContext,
        authz: &Authorization,
        artifact: &ArtifactId,
        receiver: NodeScopeKey,
        label: &String,
        cancelled: bool,
        rules: &TransferRules,
        tokens: TransferTokens,
        secret: Result<[u8; 32], String>,
        now: u64,
    ) -> (r: Result<ArtifactExport, CoordinatorServiceError>)
        requires
            well_formed(old(self)@.artifacts),
        ensures
            artifact_exported(
                old(self)@,
                final(self)@,
                *context,
                *authz,
                *artifact,
                receiver,
                label@,
                cancelled,
                *rules,
                tokens,
                secret,
                now,
                r,
            ),
            well_formed(final(self)@.artifacts),
    {
        let ghost before = self@;
        let ghost key = (context.tenant@, context.project@, artifact@);
        let ghost at = receiver;
        let ghost given_tokens = tokens;
        let policy: DownloadPolicy = DownloadPolicy { max_bytes: u64::MAX };
        let action: DownloadAction = match self.artifact_registry.download_action(
            context,
            authz,
            artifact,
            &policy,
        ) {
            Ok(action) => action,
            Err(error) => {
                return Err(CoordinatorServiceError::Download(error));
            },
        };
        let ghost metadata = lookup(before.artifacts.artifacts, key)->Some_0;
        match &action.source {
            StorageLocation::RetainedNode(node) => {
                assert(metadata.retaining_nodes.contains(node@));
                assert(metadata.retaining_nodes != Set::<Seq<char>>::empty());
            },
            StorageLocation::ExplicitStore(_) => {
                return Err(CoordinatorServiceError::Download(DownloadError::Unavailable));
            },
        }
        let (process, size, present): (ProcessId, u64, bool) =
            match self.artifact_registry.metadata(&context.tenant, &context.project, artifact) {
            Some(found) => {
                assert(receiver.node.key() == receiver.node@);
                (found.process.clone(), found.size, found.retaining_nodes.contains(&receiver.node))
            },
            None => {
                return Err(CoordinatorServiceError::Download(DownloadError::NotFound));
            },
        };
        if present {
            return Ok(
                ArtifactExport { already_present: true, transfer: None, artifact_size_bytes: size },
            );
        }
        let hold: ArtifactHoldReason = ArtifactHoldReason::ExplicitRetention {
            label: label.clone(),
        };
        let same: ArtifactHoldReason = ArtifactHoldReason::ExplicitRetention {
            label: label.clone(),
        };
        assert(hold@ == export_hold(label@) && same@ == export_hold(label@));
        match self.artifact_registry.add_hold(
            &context.tenant,
            &context.project,
            artifact,
            hold,
            now,
        ) {
            Ok(_) => {},
            Err(_) => {
                return Err(CoordinatorServiceError::Download(DownloadError::Unavailable));
            },
        }
        let ghost held_state = self@;
        assert(held_state =~= holding(before, key, label@, now));
        let answer: Result<TransferAnswer, CoordinatorServiceError> =
            self.request_artifact_interchange(
            Ok(receiver),
            Ok(process),
            Ok(artifact.clone()),
            0,
            cancelled,
            rules,
            tokens,
            secret,
            now,
        );
        let ghost asked = self@;
        let ghost known = answer;
        assert(interchange_requested(
            holding(before, key, label@, now),
            asked,
            Ok::<NodeScopeKey, String>(at),
            Ok::<ProcessId, String>(metadata.process),
            Ok::<ArtifactId, String>(*artifact),
            0,
            cancelled,
            *rules,
            given_tokens,
            secret,
            now,
            known,
        ));
        let _removed: bool = self.artifact_registry.remove_hold(
            &context.tenant,
            &context.project,
            artifact,
            &same,
        );
        assert(self@ =~= letting_go(asked, key, label@));
        let r: Result<ArtifactExport, CoordinatorServiceError> = match answer {
            Err(error) => Err(error),
            Ok(given) => Ok(
                ArtifactExport {
                    already_present: given.transfer.is_none(),
                    transfer: given.transfer,
                    artifact_size_bytes: size,
                },
            ),
        };
        assert(export_arranged(
            before,
            self@,
            key,
            metadata,
            at,
            *artifact,
            label@,
            cancelled,
            *rules,
            given_tokens,
            secret,
            now,
            r,
        ));
        r
    }

    /// Exports an artifact to a node, under a secret that is drawn for the transfer.
    pub fn handle_export_artifact_to_node(
        &mut self,
        context: &AuthContext,
        authz: &Authorization,
        artifact: &ArtifactId,
        receiver: NodeScopeKey,
        label: &String,
        cancelled: bool,
        rules: &TransferRules,
        tokens: TransferTokens,
        now: u64,
    ) -> (r: Result<ArtifactExport, CoordinatorServiceError>)
        requires
            well_formed(old(self)@.artifacts),
        ensures
            export_handled(
                old(self)@,
                final(self)@,
                *context,
                *authz,
                *artifact,
                receiver,
                label@,
                cancelled,
                *rules,
                tokens,
                now,
                r,
            ),
            well_formed(final(self)@.artifacts),
    {
        let ghost before = self@;
        let ghost at = receiver;
        let ghost given = tokens;
        let secret: Result<[u8; 32], String> = random_secret();
        let r: Result<ArtifactExport, CoordinatorServiceError> = self.export_artifact_to_node(
            context,
            authz,
            artifact,
            receiver,
            label,
            cancelled,
            rules,
            tokens,
            secret,
            now,
        );
        assert(artifact_exported(
            before,
            self@,
            *context,
            *authz,
            *artifact,
            at,
            label@,
            cancelled,
            *rules,
            given,
            secret,
            now,
            r,
        ));
        r
    }
}

/// What comes of exporting an artifact to a node, with the secret that was drawn for the transfer.
pub open spec fn export_handled(
    before: CoordinatorServiceModel,
    after: CoordinatorServiceModel,
    context: AuthContext,
    authz: Authorization,
    artifact: ArtifactId,
    receiver: NodeScopeKey,
    label: Seq<char>,
    cancelled: bool,
    rules: TransferRules,
    tokens: TransferTokens,
    now: u64,
    r: Result<ArtifactExport, CoordinatorServiceError>,
) -> bool {
    exists|secret: Result<[u8; 32], String>| #[trigger]
        artifact_exported(
            before,
            after,
            context,
            authz,
            artifact,
            receiver,
            label,
            cancelled,
            rules,
            tokens,
            secret,
            now,
            r,
        )
}

} // verus!
