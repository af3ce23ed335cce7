//! The coordinator: durable records of tenants, projects, nodes and policies, and the
//! processes that are active in memory.
use vstd::prelude::*;
use vstd::string::*;

use crate::automated_run::{AutomationState, AutomationStateModel};
use crate::duplicate::{Duplicate, TextList, copy_text, option_view, views};
use crate::durable::{CliSessionRecord, AgentPublicKeyRecord, AgentPublicKeyRecordModel, CredentialKind, CredentialRecord, DurableState, DurableStateModel, DurableStore, FallibleDurableStore, HostedAdminAuditRecord, HostedAdminDurableStateModel, NodeIdentityRecord, ProjectPermissionRecord, ProjectRecord, ServicePolicyRecord, SourceProviderConfigRecord, TenantQuotaOverrideRecord, TenantQuotaOverrideValues, TenantRecord, UserRecord};
use crate::ids::{Actor, AgentId, AuthContext, Digest, LaunchAttemptId, NodeId, NodeScopeKey, ProcessId, ProjectId, ScopeText, TenantId, UserId, node_subject};
use crate::keyed::{holds_keys, lemma_delete_holds_keys, lemma_found_holds_key, lemma_put_holds_keys, well_keyed};
use crate::ordered::OrderedKey;
use crate::ordered_map::{OrderedMap, ascending, delete, lemma_filter_step, lemma_lookup_put, lookup, model, put, values};
use crate::ordered_set::OrderedSet;
use crate::text::{concat2, concat3, concat4, concat5, decimal, decimal_text};

verus! {

pub const MAX_TENANT_QUOTA_OVERRIDES: usize = 100_000;

pub const MAX_HOSTED_ADMIN_AUDIT_RECORDS: usize = 10_000;

/// A virtual process that is active in memory.
pub struct ActiveProcess {
    pub id: ProcessId,
    pub launch_attempt: Option<LaunchAttemptId>,
    pub tenant: TenantId,
    pub project: ProjectId,
    pub connected_nodes: OrderedSet<NodeId>,
    pub coordinator_epoch: u64,
}

/// The model of [`ActiveProcess`].
#[verifier::ext_equal]
pub struct ActiveProcessModel {
    pub id: ProcessId,
    pub launch_attempt: Option<LaunchAttemptId>,
    pub tenant: TenantId,
    pub project: ProjectId,
    pub connected_nodes: Set<Seq<char>>,
    pub coordinator_epoch: u64,
}

impl View for ActiveProcess {
    type V = ActiveProcessModel;

    open spec fn view(&self) -> ActiveProcessModel {
        ActiveProcessModel {
            id: self.id,
            launch_attempt: self.launch_attempt,
            tenant: self.tenant,
            project: self.project,
            connected_nodes: self.connected_nodes@,
            coordinator_epoch: self.coordinator_epoch,
        }
    }
}

impl Duplicate for ActiveProcess {
    fn duplicate(&self) -> (r: Self) {
        ActiveProcess {
            id: self.id.clone(),
            launch_attempt: copy_text(&self.launch_attempt),
            tenant: self.tenant.clone(),
            project: self.project.clone(),
            connected_nodes: self.connected_nodes.duplicate(),
            coordinator_epoch: self.coordinator_epoch,
        }
    }
}

/// Why a grant could not be exchanged for a node identity.
#[derive(Debug, PartialEq, Eq)]
pub struct EnrollmentError {
    pub detail: String,
}

impl View for EnrollmentError {
    type V = EnrollmentError;

    open spec fn view(&self) -> EnrollmentError {
        *self
    }
}

impl Duplicate for EnrollmentError {
    fn duplicate(&self) -> (r: Self) {
        EnrollmentError {
            detail: self.detail.clone(),
        }
    }
}

/// The right to enroll one node.
pub struct EnrollmentGrant {
    pub tenant: TenantId,
    pub project: ProjectId,
    pub grant_id: String,
    pub scope: String,
    pub expires_at_epoch_seconds: u64,
    pub consumed: bool,
}

impl View for EnrollmentGrant {
    type V = EnrollmentGrant;

    open spec fn view(&self) -> EnrollmentGrant {
        *self
    }
}

impl Duplicate for EnrollmentGrant {
    fn duplicate(&self) -> (r: Self) {
        EnrollmentGrant {
            tenant: self.tenant.clone(),
            project: self.project.clone(),
            grant_id: self.grant_id.clone(),
            scope: self.scope.clone(),
            expires_at_epoch_seconds: self.expires_at_epoch_seconds,
            consumed: self.consumed,
        }
    }
}

/// What a node gets in exchange for a grant.
pub struct NodeCredential {
    pub tenant: TenantId,
    pub project: ProjectId,
    pub scope: String,
    pub credential_kind: CredentialKind,
    pub public_key_fingerprint: Digest,
}

impl View for NodeCredential {
    type V = NodeCredential;

    open spec fn view(&self) -> NodeCredential {
        *self
    }
}

impl Duplicate for NodeCredential {
    fn duplicate(&self) -> (r: Self) {
        NodeCredential {
            tenant: self.tenant.clone(),
            project: self.project.clone(),
            scope: self.scope.clone(),
            credential_kind: self.credential_kind,
            public_key_fingerprint: self.public_key_fingerprint.clone(),
        }
    }
}

/// Whether something is allowed, and why.
pub struct Authorization {
    pub allowed: bool,
    pub reason: String,
}

impl View for Authorization {
    type V = Authorization;

    open spec fn view(&self) -> Authorization {
        *self
    }
}

impl Duplicate for Authorization {
    fn duplicate(&self) -> (r: Self) {
        Authorization {
            allowed: self.allowed,
            reason: self.reason.clone(),
        }
    }
}

/// What the policy records say of the account of a tenant.
pub struct AccountPolicyState {
    pub account_status: String,
    pub suspended: bool,
    pub disabled: bool,
    pub deleted: bool,
    pub manual_review: bool,
    pub sanitized_reason: Option<String>,
    pub next_actions: TextList,
}

/// The model of [`AccountPolicyState`].
#[verifier::ext_equal]
pub struct AccountPolicyStateModel {
    pub account_status: String,
    pub suspended: bool,
    pub disabled: bool,
    pub deleted: bool,
    pub manual_review: bool,
    pub sanitized_reason: Option<String>,
    pub next_actions: Seq<Seq<char>>,
}

impl View for AccountPolicyState {
    type V = AccountPolicyStateModel;

    open spec fn view(&self) -> AccountPolicyStateModel {
        AccountPolicyStateModel {
            account_status: self.account_status,
            suspended: self.suspended,
            disabled: self.disabled,
            deleted: self.deleted,
            manual_review: self.manual_review,
            sanitized_reason: self.sanitized_reason,
            next_actions: self.next_actions@,
        }
    }
}

impl Duplicate for AccountPolicyState {
    fn duplicate(&self) -> (r: Self) {
        AccountPolicyState {
            account_status: self.account_status.clone(),
            suspended: self.suspended,
            disabled: self.disabled,
            deleted: self.deleted,
            manual_review: self.manual_review,
            sanitized_reason: copy_text(&self.sanitized_reason),
            next_actions: self.next_actions.duplicate(),
        }
    }
}

/// Why the coordinator refuses an action.
#[derive(Debug, PartialEq, Eq)]
pub enum CoordinatorError {
    UnknownNode,
    Enrollment(EnrollmentError),
    StaleProcessEpoch { stale_epoch: u64, current_epoch: u64 },
    Unauthorized(String),
}

impl CoordinatorError {
    /// The action is refused with the given reason.
    pub open spec fn denies(&self, reason: Seq<char>) -> bool {
        *self matches CoordinatorError::Unauthorized(text) && text@ == reason
    }

    /// The text of the error.
    pub open spec fn text(&self) -> Seq<char> {
        match *self {
            CoordinatorError::UnknownNode => "node identity is not enrolled"@,
            CoordinatorError::Enrollment(error) => "node enrollment failed: "@ + error.detail@,
            CoordinatorError::StaleProcessEpoch { stale_epoch, current_epoch } => {
                "stale virtual process state from coordinator epoch "@ + decimal(
                    stale_epoch as nat,
                ) + "; current epoch is "@ + decimal(current_epoch as nat)
            },
            CoordinatorError::Unauthorized(reason) => "unauthorized coordinator action: "@
                + reason@,
        }
    }

    /// The text of the error.
    pub fn message(&self) -> (r: String)
        ensures
            r@ == self.text(),
    {
        match self {
            CoordinatorError::UnknownNode => "node identity is not enrolled".to_owned(),
            CoordinatorError::Enrollment(error) => concat2(
                "node enrollment failed: ",
                error.detail.as_str(),
            ),
            CoordinatorError::StaleProcessEpoch { stale_epoch, current_epoch } => {
                let stale: String = decimal_text(*stale_epoch);
                let current: String = decimal_text(*current_epoch);
                concat4(
                    "stale virtual process state from coordinator epoch ",
                    stale.as_str(),
                    "; current epoch is ",
                    current.as_str(),
                )
            },
            CoordinatorError::Unauthorized(reason) => concat2(
                "unauthorized coordinator action: ",
                reason.as_str(),
            ),
        }
    }
}

/// The coordinator.
pub struct Coordinator {
    durable: DurableState,
    active_processes: OrderedMap<(TenantId, ProjectId, ProcessId), ActiveProcess>,
    coordinator_epoch: u64,
}

/// The model of [`Coordinator`].
#[verifier::ext_equal]
pub struct CoordinatorModel {
    pub durable: DurableStateModel,
    pub active_processes: Seq<(ScopeText, ActiveProcessModel)>,
    pub coordinator_epoch: u64,
}

impl View for Coordinator {
    type V = CoordinatorModel;

    closed spec fn view(&self) -> CoordinatorModel {
        CoordinatorModel {
            durable: self.durable@,
            active_processes: self.active_processes@,
            coordinator_epoch: self.coordinator_epoch,
        }
    }
}

/// The key that an active process holds.
pub open spec fn processes_key() -> spec_fn(ActiveProcessModel) -> ScopeText {
    |p: ActiveProcessModel| (p.tenant@, p.project@, p.id@)
}

/// Each active process stands under its own tenant, project and identifier.
pub open spec fn processes_keyed(s: CoordinatorModel) -> bool {
    ascending(s.active_processes) && holds_keys(s.active_processes, processes_key())
}

/// What a store holds once the coordinator has put its state into it.
pub open spec fn persisted(s: CoordinatorModel, stored: DurableStateModel) -> bool {
    stored == s.durable
}

/// A coordinator that starts from what a store holds, with no process active.
pub open spec fn booted(stored: DurableStateModel, epoch: u64, s: CoordinatorModel) -> bool {
    &&& s.durable == stored
    &&& s.active_processes.len() == 0
    &&& s.coordinator_epoch == epoch
}

/// The record of a credential of a project.
pub open spec fn is_credential(
    record: Option<CredentialRecord>,
    subject: Seq<char>,
    tenant: TenantId,
    project: ProjectId,
    kind: CredentialKind,
    fingerprint: Digest,
) -> bool {
    record matches Some(credential) && {
        &&& credential.subject@ == subject
        &&& credential.tenant == tenant
        &&& credential.project == Some(project)
        &&& credential.kind == kind
        &&& credential.public_key_fingerprint == Some(fingerprint)
    }
}

impl Coordinator {
    /// The state that survives a restart.
    pub fn durable_state(&self) -> (r: &DurableState)
        ensures
            r@ == self@.durable,
    {
        &self.durable
    }

    /// Starts from what the store holds, with no process active.
    pub fn boot<S: DurableStore>(store: &S, coordinator_epoch: u64) -> (r: Self)
        ensures
            booted(store.stored(), coordinator_epoch, r@),
            processes_keyed(r@),
    {
        Coordinator::restored(store.load(), coordinator_epoch)
    }

    /// A coordinator with the given durable state, and with no process active.
    pub fn restored(durable: DurableState, coordinator_epoch: u64) -> (r: Self)
        ensures
            booted(durable@, coordinator_epoch, r@),
            processes_keyed(r@),
    {
        reveal(ascending);
        Coordinator { durable, active_processes: OrderedMap::new(), coordinator_epoch }
    }

    /// Starts from what the store holds, with no process active, unless the store fails.
    pub fn try_boot<S: FallibleDurableStore>(store: &mut S, coordinator_epoch: u64) -> (r: Result<
        Self,
        S::Error,
    >)
        ensures
            final(store).held() == old(store).held(),
            r matches Ok(coordinator) ==> booted(
                old(store).held(),
                coordinator_epoch,
                coordinator@,
            ) && processes_keyed(coordinator@),
    {
        match store.load_state() {
            Ok(durable) => Ok(Coordinator::restored(durable, coordinator_epoch)),
            Err(error) => Err(error),
        }
    }

    /// Puts the durable state into the store.
    pub fn persist<S: DurableStore>(&self, store: &mut S)
        ensures
            persisted(self@, final(store).stored()),
    {
        store.save(self.durable.duplicate());
    }

    /// Puts the durable state into the store, unless the store fails.
    pub fn try_persist<S: FallibleDurableStore>(&self, store: &mut S) -> (r: Result<(), S::Error>)
        ensures
            r is Ok ==> persisted(self@, final(store).held()),
    {
        store.save_state(&self.durable)
    }

    pub fn coordinator_epoch(&self) -> (r: u64)
        ensures
            r == self@.coordinator_epoch,
    {
        self.coordinator_epoch
    }

    pub fn upsert_tenant(&mut self, id: TenantId)
        ensures
            final(self)@ == (CoordinatorModel {
                durable: DurableStateModel {
                    tenants: put(old(self)@.durable.tenants, id@, TenantRecord { id }),
                    ..old(self)@.durable
                },
                ..old(self)@
            }),
            well_keyed(old(self)@.durable) ==> well_keyed(final(self)@.durable),
    {
        broadcast use {lemma_delete_holds_keys, lemma_put_holds_keys};

        let key: TenantId = id.clone();
        assert(key.key() == id@);
        self.durable.tenants.insert(key, TenantRecord { id });
    }

    pub fn upsert_user(&mut self, tenant: TenantId, id: UserId, credential_kind: CredentialKind)
        ensures
            final(self)@ == (CoordinatorModel {
                durable: DurableStateModel {
                    users: put(
                        old(self)@.durable.users,
                        id@,
                        UserRecord { id, tenant, credential_kind },
                    ),
                    ..old(self)@.durable
                },
                ..old(self)@
            }),
            well_keyed(old(self)@.durable) ==> well_keyed(final(self)@.durable),
    {
        broadcast use {lemma_delete_holds_keys, lemma_put_holds_keys};

        let key: UserId = id.clone();
        assert(key.key() == id@);
        self.durable.users.insert(key, UserRecord { id, tenant, credential_kind });
    }

    pub fn upsert_project(&mut self, tenant: TenantId, id: ProjectId, name: String)
        ensures
            final(self)@ == (CoordinatorModel {
                durable: DurableStateModel {
                    projects: put(
                        old(self)@.durable.projects,
                        id@,
                        ProjectRecord { id, tenant, name },
                    ),
                    ..old(self)@.durable
                },
                ..old(self)@
            }),
            well_keyed(old(self)@.durable) ==> well_keyed(final(self)@.durable),
    {
        broadcast use {lemma_delete_holds_keys, lemma_put_holds_keys};

        let key: ProjectId = id.clone();
        assert(key.key() == id@);
        self.durable.projects.insert(key, ProjectRecord { id, tenant, name });
    }

    /// Records a node of a project; a node of the same scope is replaced.
    pub fn enroll_node(
        &mut self,
        tenant: TenantId,
        project: ProjectId,
        node: NodeId,
        public_key: String,
        enrollment_scope: String,
    )
        ensures
            final(self)@ == (CoordinatorModel {
                durable: DurableStateModel {
                    node_identities: put(
                        old(self)@.durable.node_identities,
                        (tenant@, project@, node@),
                        NodeIdentityRecord {
                            id: node,
                            tenant,
                            project,
                            public_key,
                            enrollment_scope,
                            last_seen_epoch_seconds: None,
                        },
                    ),
                    ..old(self)@.durable
                },
                ..old(self)@
            }),
            well_keyed(old(self)@.durable) ==> well_keyed(final(self)@.durable),
    {
        broadcast use {lemma_delete_holds_keys, lemma_put_holds_keys};

        let key: NodeScopeKey = NodeScopeKey::from_refs(&tenant, &project, &node);
        assert(key.key() == (tenant@, project@, node@));
        self.durable.node_identities.insert(
            key,
            NodeIdentityRecord {
                id: node,
                tenant,
                project,
                public_key,
                enrollment_scope,
                last_seen_epoch_seconds: None,
            },
        );
    }

    /// A grant that has not been used.
    pub fn create_node_enrollment_grant(
        &self,
        tenant: TenantId,
        project: ProjectId,
        grant_id: String,
        scope: String,
        expires_at_epoch_seconds: u64,
    ) -> (r: EnrollmentGrant)
        ensures
            r == (EnrollmentGrant {
                tenant,
                project,
                grant_id,
                scope,
                expires_at_epoch_seconds,
                consumed: false,
            }),
    {
        EnrollmentGrant {
            tenant,
            project,
            grant_id,
            scope,
            expires_at_epoch_seconds,
            consumed: false,
        }
    }

    /// Enrolls the node that exchanged a grant, and records its credential. `exchanged` is the
    /// outcome of the exchange.
    pub fn exchange_node_enrollment_grant(
        &mut self,
        exchanged: Result<NodeCredential, EnrollmentError>,
        node: NodeId,
        public_key: String,
    ) -> (r: Result<NodeCredential, CoordinatorError>)
        ensures
            node_enrolled(old(self)@, final(self)@, exchanged, node, public_key, r),
            well_keyed(old(self)@.durable) ==> well_keyed(final(self)@.durable),
    {
        broadcast use {lemma_lookup_put, lemma_delete_holds_keys, lemma_found_holds_key, lemma_put_holds_keys};

        match exchanged {
            Err(error) => Err(CoordinatorError::Enrollment(error)),
            Ok(credential) => {
                let scope: NodeScopeKey = NodeScopeKey::from_refs(
                    &credential.tenant,
                    &credential.project,
                    &node,
                );
                assert(scope.key() == (credential.tenant@, credential.project@, node@));
                self.enroll_node(
                    credential.tenant.clone(),
                    credential.project.clone(),
                    node,
                    public_key,
                    credential.scope.clone(),
                );
                let subject: String = scope.credential_subject();
                let key: String = subject.clone();
                assert(key.key() == node_subject(scope.key()));
                self.durable.credentials.insert(
                    key,
                    CredentialRecord {
                        subject,
                        tenant: credential.tenant.clone(),
                        project: Some(credential.project.clone()),
                        kind: credential.credential_kind,
                        public_key_fingerprint: Some(credential.public_key_fingerprint.clone()),
                    },
                );
                Ok(credential)
            },
        }
    }
}

/// The sequence with `item` at its end, cut at its start so that it holds at most `capacity`
/// items.
pub open spec fn bounded_push<A>(s: Seq<A>, item: A, capacity: int) -> Seq<A> {
    if s.len() < capacity {
        s.push(item)
    } else {
        s.skip(s.len() - capacity + 1).push(item)
    }
}

/// Whether a tenant has a policy record of the given name.
pub open spec fn has_policy(durable: DurableStateModel, tenant: Seq<char>, name: Seq<char>) -> bool {
    lookup(durable.service_policy_records, (tenant, name)) is Some
}

/// The status of an account: the gravest of its policy records.
pub open spec fn account_status(durable: DurableStateModel, tenant: Seq<char>) -> Seq<char> {
    if has_policy(durable, tenant, "tenant:deleted"@) {
        "deleted"@
    } else if has_policy(durable, tenant, "tenant:disabled"@) {
        "disabled"@
    } else if has_policy(durable, tenant, "tenant:suspended"@) {
        "suspended"@
    } else if has_policy(durable, tenant, "tenant:manual_review"@) {
        "manual_review"@
    } else {
        "active"@
    }
}

/// No policy record keeps the tenant from working.
pub open spec fn account_active(durable: DurableStateModel, tenant: Seq<char>) -> bool {
    &&& !has_policy(durable, tenant, "tenant:deleted"@)
    &&& !has_policy(durable, tenant, "tenant:disabled"@)
    &&& !has_policy(durable, tenant, "tenant:suspended"@)
    &&& !has_policy(durable, tenant, "tenant:manual_review"@)
}

/// What an account is told of its status.
pub open spec fn account_reason(durable: DurableStateModel, tenant: Seq<char>) -> Option<Seq<char>> {
    if has_policy(durable, tenant, "tenant:deleted"@) {
        Some("account or tenant is no longer active"@)
    } else if has_policy(durable, tenant, "tenant:disabled"@) {
        Some("account or tenant is disabled by hosted policy"@)
    } else if has_policy(durable, tenant, "tenant:suspended"@) {
        Some("account or tenant is suspended by hosted policy"@)
    } else if has_policy(durable, tenant, "tenant:manual_review"@) {
        Some("account or tenant is pending hosted review"@)
    } else {
        None
    }
}

/// The administrative state with one action more in its trail.
pub open spec fn audited(
    state: HostedAdminDurableStateModel,
    record: HostedAdminAuditRecord,
) -> HostedAdminDurableStateModel {
    HostedAdminDurableStateModel {
        audit: bounded_push(state.audit, record, MAX_HOSTED_ADMIN_AUDIT_RECORDS as int),
        next_audit_sequence: if state.next_audit_sequence == u64::MAX {
            u64::MAX
        } else {
            (state.next_audit_sequence + 1) as u64
        },
        ..state
    }
}

/// What comes of setting or clearing the quota of a tenant.
pub open spec fn quota_replaced(
    before: CoordinatorModel,
    after: CoordinatorModel,
    tenant: TenantId,
    values: Option<TenantQuotaOverrideValues>,
    operator: UserId,
    action: String,
    occurred_at_epoch_seconds: u64,
    r: Result<HostedAdminAuditRecord, String>,
) -> bool {
    let overrides = before.durable.hosted_admin.tenant_quota_overrides;
    let known = lookup(overrides, tenant@);
    let previous = match known {
        Some(record) => Some(record.values),
        None => None,
    };
    let wanted = match values {
        Some(v) if !v.unset() => Some(v),
        _ => None,
    };
    let full = wanted is Some && known is None && overrides.len()
        >= MAX_TENANT_QUOTA_OVERRIDES;
    &&& full ==> {
        &&& r is Err
        &&& r->Err_0@ == "hosted tenant quota override capacity is full"@
        &&& after == before
    }
    &&& !full ==> {
        let record = HostedAdminAuditRecord {
            sequence: before.durable.hosted_admin.next_audit_sequence,
            tenant,
            action,
            old_quota_override: previous,
            new_quota_override: wanted,
            operator,
            occurred_at_epoch_seconds,
        };
        &&& r == Ok::<HostedAdminAuditRecord, String>(record)
        &&& after == (CoordinatorModel {
            durable: DurableStateModel {
                tenants: match wanted {
                    Some(_) => put(
                        before.durable.tenants,
                        tenant@,
                        TenantRecord { id: tenant },
                    ),
                    None => before.durable.tenants,
                },
                hosted_admin: audited(
                    HostedAdminDurableStateModel {
                        tenant_quota_overrides: match wanted {
                            Some(v) => put(
                                overrides,
                                tenant@,
                                TenantQuotaOverrideRecord {
                                    tenant,
                                    values: v,
                                    updated_at_epoch_seconds: occurred_at_epoch_seconds,
                                    operator,
                                },
                            ),
                            None => delete(overrides, tenant@),
                        },
                        ..before.durable.hosted_admin
                    },
                    record,
                ),
                ..before.durable
            },
            ..before
        })
    }
}

impl Coordinator {
    pub fn upsert_source_provider_config(
        &mut self,
        tenant: TenantId,
        project: ProjectId,
        provider: String,
        manifest_digest: Digest,
    )
        ensures
            final(self)@ == (CoordinatorModel {
                durable: DurableStateModel {
                    source_provider_configs: put(
                        old(self)@.durable.source_provider_configs,
                        (tenant@, project@, provider@),
                        SourceProviderConfigRecord { tenant, project, provider, manifest_digest },
                    ),
                    ..old(self)@.durable
                },
                ..old(self)@
            }),
            well_keyed(old(self)@.durable) ==> well_keyed(final(self)@.durable),
    {
        broadcast use {lemma_delete_holds_keys, lemma_put_holds_keys};

        let key: (TenantId, ProjectId, String) = (tenant.clone(), project.clone(), provider.clone());
        assert(key.key() == (tenant@, project@, provider@));
        self.durable.source_provider_configs.insert(
            key,
            SourceProviderConfigRecord { tenant, project, provider, manifest_digest },
        );
    }

    pub fn upsert_service_policy_record(&mut self, tenant: TenantId, name: String, digest: Digest)
        ensures
            final(self)@ == (CoordinatorModel {
                durable: DurableStateModel {
                    service_policy_records: put(
                        old(self)@.durable.service_policy_records,
                        (tenant@, name@),
                        ServicePolicyRecord { tenant, name, digest },
                    ),
                    ..old(self)@.durable
                },
                ..old(self)@
            }),
            well_keyed(old(self)@.durable) ==> well_keyed(final(self)@.durable),
    {
        broadcast use {lemma_delete_holds_keys, lemma_put_holds_keys};

        let key: (TenantId, String) = (tenant.clone(), name.clone());
        assert(key.key() == (tenant@, name@));
        self.durable.service_policy_records.insert(
            key,
            ServicePolicyRecord { tenant, name, digest },
        );
    }

    /// What the digest of a tenant suspension is taken of.
    pub fn suspension_digest_parts(tenant: &TenantId, actor: &UserId) -> (r: TextList)
        ensures
            r@ == seq!["tenant-suspension:v1"@, tenant@, actor@],
    {
        let r = TextList {
            items: vec!["tenant-suspension:v1".to_owned(), tenant.clone(), actor.clone()],
        };
        assert(r@ =~= seq!["tenant-suspension:v1"@, tenant@, actor@]);
        r
    }

    /// Suspends a tenant. `digest` is the digest of [`Self::suspension_digest_parts`].
    pub fn suspend_tenant(&mut self, tenant: TenantId, digest: Digest) -> (r: ServicePolicyRecord)
        ensures
            r.tenant == tenant,
            r.name@ == "tenant:suspended"@,
            r.digest == digest,
            final(self)@ == (CoordinatorModel {
                durable: DurableStateModel {
                    tenants: put(
                        old(self)@.durable.tenants,
                        tenant@,
                        TenantRecord { id: tenant },
                    ),
                    service_policy_records: put(
                        old(self)@.durable.service_policy_records,
                        (tenant@, "tenant:suspended"@),
                        r,
                    ),
                    ..old(self)@.durable
                },
                ..old(self)@
            }),
            well_keyed(old(self)@.durable) ==> well_keyed(final(self)@.durable),
    {
        broadcast use {lemma_delete_holds_keys, lemma_put_holds_keys};

        self.upsert_tenant(tenant.clone());
        let name: String = "tenant:suspended".to_owned();
        let record = ServicePolicyRecord {
            tenant: tenant.clone(),
            name: name.clone(),
            digest: digest.clone(),
        };
        self.upsert_service_policy_record(tenant, name, digest);
        record
    }

    /// Lifts the suspension of a tenant; the result says whether there was one.
    pub fn resume_tenant(&mut self, tenant: &TenantId) -> (r: bool)
        ensures
            r == has_policy(old(self)@.durable, tenant@, "tenant:suspended"@),
            final(self)@ == (CoordinatorModel {
                durable: DurableStateModel {
                    service_policy_records: delete(
                        old(self)@.durable.service_policy_records,
                        (tenant@, "tenant:suspended"@),
                    ),
                    ..old(self)@.durable
                },
                ..old(self)@
            }),
            well_keyed(old(self)@.durable) ==> well_keyed(final(self)@.durable),
    {
        broadcast use {lemma_delete_holds_keys, lemma_put_holds_keys};

        let key: (TenantId, String) = (tenant.clone(), "tenant:suspended".to_owned());
        assert(key.key() == (tenant@, "tenant:suspended"@));
        self.durable.service_policy_records.remove(&key).is_some()
    }

    pub fn tenant_quota_override(&self, tenant: &TenantId) -> (r: Option<&TenantQuotaOverrideRecord>)
        ensures
            r is Some <==> lookup(
                self@.durable.hosted_admin.tenant_quota_overrides,
                tenant@,
            ) is Some,
            r matches Some(record) ==> lookup(
                self@.durable.hosted_admin.tenant_quota_overrides,
                tenant@,
            ) == Some(*record),
    {
        assert(tenant.key() == tenant@);
        self.durable.hosted_admin.tenant_quota_overrides.get(tenant)
    }

    /// Records an administrative action; the oldest records give way.
    pub fn record_hosted_admin_audit(
        &mut self,
        tenant: TenantId,
        action: String,
        old_quota_override: Option<TenantQuotaOverrideValues>,
        new_quota_override: Option<TenantQuotaOverrideValues>,
        operator: UserId,
        occurred_at_epoch_seconds: u64,
    ) -> (r: HostedAdminAuditRecord)
        ensures
            r == (HostedAdminAuditRecord {
                sequence: old(self)@.durable.hosted_admin.next_audit_sequence,
                tenant,
                action,
                old_quota_override,
                new_quota_override,
                operator,
                occurred_at_epoch_seconds,
            }),
            final(self)@ == (CoordinatorModel {
                durable: DurableStateModel {
                    hosted_admin: audited(old(self)@.durable.hosted_admin, r),
                    ..old(self)@.durable
                },
                ..old(self)@
            }),
            well_keyed(old(self)@.durable) ==> well_keyed(final(self)@.durable),
    {
        broadcast use {lemma_delete_holds_keys, lemma_put_holds_keys};

        let sequence: u64 = self.durable.hosted_admin.next_audit_sequence;
        self.durable.hosted_admin.next_audit_sequence = sequence.saturating_add(1);
        let record = HostedAdminAuditRecord {
            sequence,
            tenant,
            action,
            old_quota_override,
            new_quota_override,
            operator,
            occurred_at_epoch_seconds,
        };
        let kept: HostedAdminAuditRecord = record.duplicate();
        push_bounded(&mut self.durable.hosted_admin.audit, kept, MAX_HOSTED_ADMIN_AUDIT_RECORDS);
        record
    }

    /// Sets or, where no value is given, takes away the quota limits of a tenant, and records
    /// the action.
    pub fn replace_tenant_quota_override(
        &mut self,
        tenant: TenantId,
        values: Option<TenantQuotaOverrideValues>,
        operator: UserId,
        action: String,
        occurred_at_epoch_seconds: u64,
    ) -> (r: Result<HostedAdminAuditRecord, String>)
        ensures
            quota_replaced(
                old(self)@,
                final(self)@,
                tenant,
                values,
                operator,
                action,
                occurred_at_epoch_seconds,
                r,
            ),
            well_keyed(old(self)@.durable) ==> well_keyed(final(self)@.durable),
    {
        broadcast use {lemma_delete_holds_keys, lemma_put_holds_keys};

        let previous: Option<TenantQuotaOverrideValues> = match self.tenant_quota_override(&tenant) {
            Some(record) => Some(record.values.duplicate()),
            None => None,
        };
        let wanted: Option<TenantQuotaOverrideValues> = match values {
            Some(v) => {
                if v.is_empty() {
                    None
                } else {
                    Some(v)
                }
            },
            None => None,
        };
        if wanted.is_some() && previous.is_none()
            && self.durable.hosted_admin.tenant_quota_overrides.len() >= MAX_TENANT_QUOTA_OVERRIDES {
            return Err("hosted tenant quota override capacity is full".to_owned());
        }
        assert(tenant.key() == tenant@);
        match &wanted {
            Some(v) => {
                self.upsert_tenant(tenant.clone());
                let key: TenantId = tenant.clone();
                self.durable.hosted_admin.tenant_quota_overrides.insert(
                    key,
                    TenantQuotaOverrideRecord {
                        tenant: tenant.clone(),
                        values: v.duplicate(),
                        updated_at_epoch_seconds: occurred_at_epoch_seconds,
                        operator: operator.clone(),
                    },
                );
            },
            None => {
                let _removed: Option<TenantQuotaOverrideRecord> =
                    self.durable.hosted_admin.tenant_quota_overrides.remove(&tenant);
            },
        }
        Ok(
            self.record_hosted_admin_audit(
                tenant,
                action,
                previous,
                wanted,
                operator,
                occurred_at_epoch_seconds,
            ),
        )
    }

    pub fn service_policy_record(&self, tenant: &TenantId, name: &str) -> (r: Option<
        &ServicePolicyRecord,
    >)
        ensures
            r is Some <==> has_policy(self@.durable, tenant@, name@),
            r matches Some(record) ==> lookup(
                self@.durable.service_policy_records,
                (tenant@, name@),
            ) == Some(*record),
    {
        let key: (TenantId, String) = (tenant.clone(), name.to_owned());
        assert(key.key() == (tenant@, name@));
        self.durable.service_policy_records.get(&key)
    }

    pub fn tenant_suspended(&self, tenant: &TenantId) -> (r: bool)
        ensures
            r == has_policy(self@.durable, tenant@, "tenant:suspended"@),
    {
        self.service_policy_record(tenant, "tenant:suspended").is_some()
    }

    pub fn tenant_disabled(&self, tenant: &TenantId) -> (r: bool)
        ensures
            r == has_policy(self@.durable, tenant@, "tenant:disabled"@),
    {
        self.service_policy_record(tenant, "tenant:disabled").is_some()
    }

    pub fn tenant_deleted(&self, tenant: &TenantId) -> (r: bool)
        ensures
            r == has_policy(self@.durable, tenant@, "tenant:deleted"@),
    {
        self.service_policy_record(tenant, "tenant:deleted").is_some()
    }

    pub fn tenant_manual_review(&self, tenant: &TenantId) -> (r: bool)
        ensures
            r == has_policy(self@.durable, tenant@, "tenant:manual_review"@),
    {
        self.service_policy_record(tenant, "tenant:manual_review").is_some()
    }

    /// What the policy records say of the account of a tenant.
    pub fn account_policy_state(&self, tenant: &TenantId) -> (r: AccountPolicyState)
        ensures
            r.account_status@ == account_status(self@.durable, tenant@),
            r.suspended == has_policy(self@.durable, tenant@, "tenant:suspended"@),
            r.disabled == has_policy(self@.durable, tenant@, "tenant:disabled"@),
            r.deleted == has_policy(self@.durable, tenant@, "tenant:deleted"@),
            r.manual_review == has_policy(self@.durable, tenant@, "tenant:manual_review"@),
            option_view(r.sanitized_reason) == account_reason(self@.durable, tenant@),
            r.next_actions@ == (if account_active(self@.durable, tenant@) {
                Seq::<Seq<char>>::empty()
            } else {
                seq![
                    "clusterflux auth status --json"@,
                    "contact the hosted operator or use a self-hosted coordinator"@,
                ]
            }),
    {
        let suspended: bool = self.tenant_suspended(tenant);
        let disabled: bool = self.tenant_disabled(tenant);
        let deleted: bool = self.tenant_deleted(tenant);
        let manual_review: bool = self.tenant_manual_review(tenant);
        let (status, reason): (&str, Option<String>) = if deleted {
            ("deleted", Some("account or tenant is no longer active".to_owned()))
        } else if disabled {
            ("disabled", Some("account or tenant is disabled by hosted policy".to_owned()))
        } else if suspended {
            ("suspended", Some("account or tenant is suspended by hosted policy".to_owned()))
        } else if manual_review {
            ("manual_review", Some("account or tenant is pending hosted review".to_owned()))
        } else {
            ("active", None)
        };
        let next_actions: TextList = if reason.is_none() {
            TextList::empty()
        } else {
            let actions = TextList {
                items: vec![
                    "clusterflux auth status --json".to_owned(),
                    "contact the hosted operator or use a self-hosted coordinator".to_owned(),
                ],
            };
            assert(actions@ =~= seq![
                "clusterflux auth status --json"@,
                "contact the hosted operator or use a self-hosted coordinator"@,
            ]);
            actions
        };
        AccountPolicyState {
            account_status: status.to_owned(),
            suspended,
            disabled,
            deleted,
            manual_review,
            sanitized_reason: reason,
            next_actions,
        }
    }

    /// Refuses a tenant that some policy record keeps from working.
    pub fn ensure_tenant_active(&self, tenant: &TenantId) -> (r: Result<(), CoordinatorError>)
        ensures
            r is Ok <==> account_active(self@.durable, tenant@),
            r matches Err(error) ==> error.denies(
                "tenant is "@ + account_status(self@.durable, tenant@) + " by admin controls"@,
            ),
    {
        let state: AccountPolicyState = self.account_policy_state(tenant);
        if state.sanitized_reason.is_some() {
            return Err(
                CoordinatorError::Unauthorized(
                    concat3("tenant is ", state.account_status.as_str(), " by admin controls"),
                ),
            );
        }
        Ok(())
    }
}

/// Appends an item, and drops items from the start so that at most `capacity` are left.
pub fn push_bounded<T: View>(items: &mut Vec<T>, item: T, capacity: usize)
    requires
        capacity > 0,
    ensures
        views(final(items)@) == bounded_push(views(old(items)@), item@, capacity as int),
        final(items)@ == bounded_push(old(items)@, item, capacity as int),
{
    let ghost before = items@;
    let ghost mut dropped: int = 0;
    while items.len() >= capacity
        invariant
            capacity > 0,
            0 <= dropped <= before.len(),
            items@ == before.skip(dropped),
            dropped > 0 ==> before.len() - dropped + 1 >= capacity,
        decreases items@.len(),
    {
        let _oldest: T = items.remove(0);
        assert(before.skip(dropped).remove(0) =~= before.skip(dropped + 1));
        proof {
            dropped = dropped + 1;
        }
    }
    proof {
        assert(before.skip(0) =~= before);
    }
    items.push(item);
    assert(views(items@) =~= bounded_push(views(before), item@, capacity as int));
}

/// The model of a process that was just started.
pub open spec fn started(
    tenant: TenantId,
    project: ProjectId,
    id: ProcessId,
    launch_attempt: Option<LaunchAttemptId>,
    epoch: u64,
) -> ActiveProcessModel {
    ActiveProcessModel {
        id,
        launch_attempt,
        tenant,
        project,
        connected_nodes: Set::empty(),
        coordinator_epoch: epoch,
    }
}

/// A process without the node among its connected nodes, if it is of the given project.
pub open spec fn disconnected(
    process: ActiveProcessModel,
    tenant: Seq<char>,
    project: Seq<char>,
    node: Seq<char>,
) -> ActiveProcessModel {
    if process.tenant@ == tenant && process.project@ == project {
        ActiveProcessModel { connected_nodes: process.connected_nodes.remove(node), ..process }
    } else {
        process
    }
}

/// The active processes without the node among their connected nodes.
pub open spec fn all_disconnected(
    processes: Seq<(ScopeText, ActiveProcessModel)>,
    tenant: Seq<char>,
    project: Seq<char>,
    node: Seq<char>,
) -> Seq<(ScopeText, ActiveProcessModel)> {
    processes.map_values(
        |e: (ScopeText, ActiveProcessModel)| (e.0, disconnected(e.1, tenant, project, node)),
    )
}

/// What comes of a node that connects again, perhaps for a process of an epoch.
pub open spec fn reconnected(before: CoordinatorModel, after: CoordinatorModel, tenant: Seq<char>, project: Seq<char>, node: Seq<char>, process: Option<(&ProcessId, u64)>, r: Result<(), CoordinatorError>) -> bool {
    let enrolled = lookup(
        before.durable.node_identities,
        (tenant, project, node),
    ) is Some;
    let current = process matches Some(p) ==> p.1 == before.coordinator_epoch;
    &&& r is Ok <==> enrolled && current
    &&& !enrolled ==> r == Err::<(), CoordinatorError>(CoordinatorError::UnknownNode)
    &&& enrolled && !current ==> r == Err::<(), CoordinatorError>(
        CoordinatorError::StaleProcessEpoch {
            stale_epoch: process->Some_0.1,
            current_epoch: before.coordinator_epoch,
        },
    )
    &&& (r is Err || process is None) ==> after == before
    &&& r is Ok ==> (process matches Some(p) ==> {
        let key = (tenant, project, p.0@);
        &&& lookup(before.active_processes, key) is None ==> after == before
        &&& lookup(before.active_processes, key) matches Some(active)
            ==> after == (CoordinatorModel {
            active_processes: put(
                before.active_processes,
                key,
                ActiveProcessModel {
                    connected_nodes: active.connected_nodes.insert(node),
                    ..active
                },
            ),
            ..before
        })
    })
}

/// What comes of revoking the credential of a node.
pub open spec fn node_revoked(before: CoordinatorModel, after: CoordinatorModel, context: AuthContext, node: Seq<char>, r: Result<NodeIdentityRecord, CoordinatorError>) -> bool {
    let scope = (context.tenant@, context.project@, node);
    let known = lookup(before.durable.node_identities, scope);
    &&& known is None ==> r == Err::<NodeIdentityRecord, CoordinatorError>(
        CoordinatorError::UnknownNode,
    )
    &&& known is Some && !(context.actor is User) ==> r is Err && r->Err_0.denies(
        "node credential revocation requires a user identity"@,
    )
    &&& r is Err ==> after == before
    &&& known is Some && context.actor is User ==> {
        &&& r == Ok::<NodeIdentityRecord, CoordinatorError>(known->Some_0)
        &&& after == (CoordinatorModel {
            durable: DurableStateModel {
                node_identities: delete(before.durable.node_identities, scope),
                credentials: delete(
                    before.durable.credentials,
                    node_subject(scope),
                ),
                ..before.durable
            },
            active_processes: all_disconnected(
                before.active_processes,
                context.tenant@,
                context.project@,
                node,
            ),
            ..before
        })
    }
}

/// What comes of aborting a process.
pub open spec fn process_aborted(before: CoordinatorModel, after: CoordinatorModel, tenant: Seq<char>, project: Seq<char>, process: Seq<char>, r: Result<ActiveProcess, CoordinatorError>) -> bool {
    let key = (tenant, project, process);
    let active = lookup(before.active_processes, key);
    &&& active is None ==> {
        &&& r is Err
        &&& r->Err_0.denies("process abort requires an active virtual process"@)
        &&& after == before
    }
    &&& active is Some ==> {
        &&& r is Ok
        &&& r->Ok_0@ == active->Some_0
        &&& after == (CoordinatorModel {
            active_processes: delete(before.active_processes, key),
            ..before
        })
    }
}

/// What the sight of a node comes to.
pub open spec fn identity_seen(
    before: CoordinatorModel,
    after: CoordinatorModel,
    tenant: TenantId,
    project: ProjectId,
    node: NodeId,
    seen_at_epoch_seconds: u64,
) -> bool {
    let scope = (tenant@, project@, node@);
    let known = lookup(before.durable.node_identities, scope);
    &&& known is None ==> after == before
    &&& known matches Some(identity) ==> after == (CoordinatorModel {
        durable: DurableStateModel {
            node_identities: put(
                before.durable.node_identities,
                scope,
                NodeIdentityRecord {
                    last_seen_epoch_seconds: Some(
                        latest(
                            identity.last_seen_epoch_seconds,
                            seen_at_epoch_seconds,
                        ),
                    ),
                    ..identity
                },
            ),
            ..before.durable
        },
        ..before
    })
}

impl Coordinator {
    pub fn start_process(&mut self, tenant: TenantId, project: ProjectId, id: ProcessId) -> (r:
        ActiveProcess)
        ensures
            r@ == started(tenant, project, id, None, old(self)@.coordinator_epoch),
            final(self)@ == (CoordinatorModel {
                active_processes: put(
                    old(self)@.active_processes,
                    (tenant@, project@, id@),
                    r@,
                ),
                ..old(self)@
            }),
            processes_keyed(old(self)@) ==> processes_keyed(final(self)@),
    {
        self.start_process_for_launch_attempt(tenant, project, id, None)
    }

    /// Starts a process, in place of an active one of the same scope and identifier.
    pub fn start_process_for_launch_attempt(
        &mut self,
        tenant: TenantId,
        project: ProjectId,
        id: ProcessId,
        launch_attempt: Option<LaunchAttemptId>,
    ) -> (r: ActiveProcess)
        ensures
            r@ == started(tenant, project, id, launch_attempt, old(self)@.coordinator_epoch),
            final(self)@ == (CoordinatorModel {
                active_processes: put(
                    old(self)@.active_processes,
                    (tenant@, project@, id@),
                    r@,
                ),
                ..old(self)@
            }),
            processes_keyed(old(self)@) ==> processes_keyed(final(self)@),
    {
        broadcast use lemma_put_holds_keys;

        let key: (TenantId, ProjectId, ProcessId) = (tenant.clone(), project.clone(), id.clone());
        assert(key.key() == (tenant@, project@, id@));
        let process = ActiveProcess {
            id,
            launch_attempt,
            tenant,
            project,
            connected_nodes: OrderedSet::new(),
            coordinator_epoch: self.coordinator_epoch,
        };
        self.active_processes.insert(key, process.duplicate());
        process
    }

    /// Lets an enrolled node of the scope act on an active process of the scope.
    pub fn authorize_node_for_process(
        &self,
        node: &NodeId,
        tenant: &TenantId,
        project: &ProjectId,
        process: &ProcessId,
    ) -> (r: Result<(), CoordinatorError>)
        ensures
            ({
                let enrolled = lookup(
                    self@.durable.node_identities,
                    (tenant@, project@, node@),
                ) is Some;
                let active = lookup(self@.active_processes, (tenant@, project@, process@)) is Some;
                &&& r is Ok <==> enrolled && active
                &&& !enrolled ==> r == Err::<(), CoordinatorError>(CoordinatorError::UnknownNode)
                &&& enrolled && !active ==> r is Err && r->Err_0.denies(
                    "virtual process is not active in coordinator memory"@,
                )
            }),
    {
        let scope: NodeScopeKey = NodeScopeKey::from_refs(tenant, project, node);
        assert(scope.key() == (tenant@, project@, node@));
        if !self.durable.node_identities.contains_key(&scope) {
            return Err(CoordinatorError::UnknownNode);
        }
        let key: (TenantId, ProjectId, ProcessId) = (
            tenant.clone(),
            project.clone(),
            process.clone(),
        );
        assert(key.key() == (tenant@, project@, process@));
        if !self.active_processes.contains_key(&key) {
            return Err(
                CoordinatorError::Unauthorized(
                    "virtual process is not active in coordinator memory".to_owned(),
                ),
            );
        }
        Ok(())
    }

    /// Connects an enrolled node to a process of the current epoch, where that process is
    /// active.
    pub fn reconnect_node(
        &mut self,
        tenant: &TenantId,
        project: &ProjectId,
        node: &NodeId,
        process: Option<(&ProcessId, u64)>,
    ) -> (r: Result<(), CoordinatorError>)
        ensures
            reconnected(old(self)@, final(self)@, tenant@, project@, node@, process, r),
            processes_keyed(old(self)@) ==> processes_keyed(final(self)@),
    {
        broadcast use crate::ordered_map::lemma_put_delete;
        broadcast use {lemma_found_holds_key, lemma_put_holds_keys};

        let scope: NodeScopeKey = NodeScopeKey::from_refs(tenant, project, node);
        assert(scope.key() == (tenant@, project@, node@));
        if !self.durable.node_identities.contains_key(&scope) {
            return Err(CoordinatorError::UnknownNode);
        }
        if let Some((process_id, stale_epoch)) = process {
            if stale_epoch != self.coordinator_epoch {
                return Err(
                    CoordinatorError::StaleProcessEpoch {
                        stale_epoch,
                        current_epoch: self.coordinator_epoch,
                    },
                );
            }
            let key: (TenantId, ProjectId, ProcessId) = (
                tenant.clone(),
                project.clone(),
                process_id.clone(),
            );
            assert(key.key() == (tenant@, project@, process_id@));
            match self.active_processes.remove(&key) {
                Some(active) => {
                    let mut process: ActiveProcess = active;
                    assert(node.key() == node@);
                    let _fresh: bool = process.connected_nodes.insert(node.clone());
                    self.active_processes.insert(key, process);
                },
                None => {},
            }
        }
        Ok(())
    }

    /// Takes away the identity and the credential of a node, and disconnects it from the
    /// processes of its project.
    pub fn revoke_node_credential(&mut self, context: &AuthContext, node: &NodeId) -> (r: Result<
        NodeIdentityRecord,
        CoordinatorError,
    >)
        ensures
            node_revoked(old(self)@, final(self)@, *context, node@, r),
            well_keyed(old(self)@.durable) ==> well_keyed(final(self)@.durable),
            processes_keyed(old(self)@) ==> processes_keyed(final(self)@),
    {
        broadcast use {lemma_delete_holds_keys, lemma_put_holds_keys};

        let key: NodeScopeKey = NodeScopeKey::from_refs(&context.tenant, &context.project, node);
        assert(key.key() == (context.tenant@, context.project@, node@));
        let identity: NodeIdentityRecord = match self.durable.node_identities.get(&key) {
            Some(identity) => identity.duplicate(),
            None => {
                return Err(CoordinatorError::UnknownNode);
            },
        };
        if !matches!(context.actor, Actor::User(_)) {
            return Err(
                CoordinatorError::Unauthorized(
                    "node credential revocation requires a user identity".to_owned(),
                ),
            );
        }
        let _identity: Option<NodeIdentityRecord> = self.durable.node_identities.remove(&key);
        let subject: String = key.credential_subject();
        assert(subject.key() == node_subject(key.key()));
        let _credential: Option<CredentialRecord> = self.durable.credentials.remove(&subject);
        self.disconnect_node(context, node);
        Ok(identity)
    }

    fn disconnect_node(&mut self, context: &AuthContext, node: &NodeId)
        ensures
            final(self)@ == (CoordinatorModel {
                active_processes: all_disconnected(
                    old(self)@.active_processes,
                    context.tenant@,
                    context.project@,
                    node@,
                ),
                ..old(self)@
            }),
            processes_keyed(old(self)@) ==> processes_keyed(final(self)@),
    {
        let mut entries: Vec<((TenantId, ProjectId, ProcessId), ActiveProcess)> =
            self.active_processes.take_entries();
        let ghost start = model(entries@);
        let ghost target = all_disconnected(start, context.tenant@, context.project@, node@);
        assert(node.key() == node@);
        let mut i: usize = 0;
        while i < entries.len()
            invariant
                0 <= i <= entries@.len(),
                entries@.len() == start.len(),
                node.key() == node@,
                target == all_disconnected(start, context.tenant@, context.project@, node@),
                forall|j: int| 0 <= j < i ==> model(entries@)[j] == #[trigger] target[j],
                forall|j: int| i <= j < start.len() ==> model(entries@)[j] == #[trigger] start[j],
            decreases entries@.len() - i,
        {
            assert(model(entries@)[i as int] == start[i as int]);
            if entries[i].1.tenant == context.tenant && entries[i].1.project == context.project {
                let ghost before = entries@;
                let _known: bool = entries[i].1.connected_nodes.remove(node);
                assert forall|j: int| 0 <= j < start.len() && j != i implies model(entries@)[j]
                    == #[trigger] model(before)[j] by {
                    assert(entries@[j] == before[j]);
                }
            }
            assert(model(entries@)[i as int] == target[i as int]);
            i = i + 1;
        }
        assert(model(entries@) =~= target);
        proof {
            crate::ordered_map::lemma_same_keys(start, target);
        }
        self.active_processes = OrderedMap::from_entries(entries);
    }

    pub fn mark_node_identity_seen(
        &mut self,
        tenant: &TenantId,
        project: &ProjectId,
        node: &NodeId,
        seen_at_epoch_seconds: u64,
    )
        ensures
            identity_seen(
                old(self)@,
                final(self)@,
                *tenant,
                *project,
                *node,
                seen_at_epoch_seconds,
            ),
            well_keyed(old(self)@.durable) ==> well_keyed(final(self)@.durable),
    {
        broadcast use {crate::ordered_map::lemma_put_delete, lemma_delete_holds_keys, lemma_found_holds_key, lemma_put_holds_keys};

        let key: NodeScopeKey = NodeScopeKey::from_refs(tenant, project, node);
        assert(key.key() == (tenant@, project@, node@));
        match self.durable.node_identities.remove(&key) {
            Some(record) => {
                let mut identity: NodeIdentityRecord = record;
                let last: u64 = match identity.last_seen_epoch_seconds {
                    Some(at) => at,
                    None => 0,
                };
                identity.last_seen_epoch_seconds = Some(
                    if last < seen_at_epoch_seconds {
                        seen_at_epoch_seconds
                    } else {
                        last
                    },
                );
                self.durable.node_identities.insert(key, identity);
            },
            None => {},
        }
    }

    /// Takes an active process out of memory.
    pub fn abort_process(
        &mut self,
        tenant: &TenantId,
        project: &ProjectId,
        process: &ProcessId,
    ) -> (r: Result<ActiveProcess, CoordinatorError>)
        ensures
            process_aborted(old(self)@, final(self)@, tenant@, project@, process@, r),
            processes_keyed(old(self)@) ==> processes_keyed(final(self)@),
    {
        broadcast use lemma_delete_holds_keys;

        let key: (TenantId, ProjectId, ProcessId) = (
            tenant.clone(),
            project.clone(),
            process.clone(),
        );
        assert(key.key() == (tenant@, project@, process@));
        match self.active_processes.remove(&key) {
            Some(active) => Ok(active),
            None => Err(
                CoordinatorError::Unauthorized(
                    "process abort requires an active virtual process".to_owned(),
                ),
            ),
        }
    }

    /// Takes an active process out of memory if it belongs to the given launch attempt.
    pub fn abort_process_for_launch_attempt(
        &mut self,
        tenant: &TenantId,
        project: &ProjectId,
        process: &ProcessId,
        launch_attempt: &LaunchAttemptId,
    ) -> (r: Result<ActiveProcess, CoordinatorError>)
        ensures
            launch_rolled_back(
                old(self)@,
                final(self)@,
                (tenant@, project@, process@),
                launch_attempt@,
                r,
            ),
            processes_keyed(old(self)@) ==> processes_keyed(final(self)@),
    {
        broadcast use lemma_delete_holds_keys;

        let key: (TenantId, ProjectId, ProcessId) = (
            tenant.clone(),
            project.clone(),
            process.clone(),
        );
        assert(key.key() == (tenant@, project@, process@));
        match self.active_processes.get(&key) {
            None => {
                return Err(
                    CoordinatorError::Unauthorized(
                        "launch rollback requires an active virtual process".to_owned(),
                    ),
                );
            },
            Some(active) => {
                let owned: bool = match &active.launch_attempt {
                    Some(attempt) => *attempt == *launch_attempt,
                    None => false,
                };
                if !owned {
                    return Err(
                        CoordinatorError::Unauthorized(
                            concat4(
                                "launch rollback denied: attempt ",
                                launch_attempt.as_str(),
                                " does not own process ",
                                process.as_str(),
                            ),
                        ),
                    );
                }
            },
        }
        match self.active_processes.remove(&key) {
            Some(active) => Ok(active),
            None => Err(CoordinatorError::UnknownNode),
        }
    }
}

/// The later of two times; a time that is not known counts as zero.
pub open spec fn latest(known: Option<u64>, at: u64) -> u64 {
    match known {
        Some(before) if before > at => before,
        _ => at,
    }
}

/// The projects of a tenant, in the order of their identifiers.
pub open spec fn projects_of(durable: DurableStateModel, tenant: Seq<char>) -> Seq<ProjectRecord> {
    values(durable.projects).filter(|p: ProjectRecord| p.tenant@ == tenant)
}

/// The enrolled nodes of a tenant.
pub open spec fn nodes_of(durable: DurableStateModel, tenant: Seq<char>) -> Seq<NodeIdentityRecord> {
    values(durable.node_identities).filter(|n: NodeIdentityRecord| n.tenant@ == tenant)
}

/// The active processes of a tenant, in key order.
pub open spec fn processes_of(
    processes: Seq<(ScopeText, ActiveProcessModel)>,
    tenant: Seq<char>,
) -> Seq<ActiveProcessModel> {
    values(processes).filter(|p: ActiveProcessModel| p.tenant@ == tenant)
}

/// The active processes of a project, in key order.
pub open spec fn processes_in(
    processes: Seq<(ScopeText, ActiveProcessModel)>,
    tenant: Seq<char>,
    project: Seq<char>,
) -> Seq<ActiveProcessModel> {
    values(processes).filter(
        |p: ActiveProcessModel| p.tenant@ == tenant && p.project@ == project,
    )
}

/// Why a debugger may or may not attach to a process.
pub open spec fn debug_attach_reason(
    state: CoordinatorModel,
    tenant: Seq<char>,
    project: Seq<char>,
    actor: Actor,
    process: Seq<char>,
) -> (bool, Seq<char>) {
    match lookup(state.active_processes, (tenant, project, process)) {
        None => (false, "virtual process is not active in this tenant or project"@),
        Some(active) => match actor {
            Actor::User(user) => {
                let permission = lookup(
                    state.durable.project_permissions,
                    (active.tenant@, active.project@, user@),
                );
                if permission matches Some(p) && p.can_debug {
                    (true, "debug attach authorized for project"@)
                } else {
                    (false, "debug attach requires explicit project permission"@)
                }
            },
            _ => (false, "debug attach requires a user identity"@),
        },
    }
}

impl Coordinator {
    pub fn list_projects(&self, context: &AuthContext) -> (r: Vec<ProjectRecord>)
        ensures
            r@ == projects_of(self@.durable, context.tenant@),
    {
        let mut out: Vec<ProjectRecord> = Vec::new();
        let n: usize = self.durable.projects.len();
        let ghost all = values(self@.durable.projects);
        let ghost p = |p: ProjectRecord| p.tenant@ == context.tenant@;
        let mut i: usize = 0;
        assert(all.take(0).filter(p) =~= Seq::empty()) by {
            reveal(Seq::filter);
        }
        while i < n
            invariant
                n == self.durable.projects@.len(),
                all == values(self.durable.projects@),
                p == |p: ProjectRecord| p.tenant@ == context.tenant@,
                0 <= i <= n,
                out@ == all.take(i as int).filter(p),
            decreases n - i,
        {
            let project: &ProjectRecord = self.durable.projects.value_at(i);
            proof {
                lemma_filter_step(all, p, i as int);
            }
            if project.tenant == context.tenant {
                out.push(project.duplicate());
            }
            i = i + 1;
        }
        assert(all.take(n as int) =~= all);
        out
    }

    pub fn project(&self, id: &ProjectId) -> (r: Option<&ProjectRecord>)
        ensures
            r is Some <==> lookup(self@.durable.projects, id@) is Some,
            r matches Some(record) ==> lookup(self@.durable.projects, id@) == Some(*record),
    {
        assert(id.key() == id@);
        self.durable.projects.get(id)
    }

    pub fn project_count_for_tenant(&self, tenant: &TenantId) -> (r: usize)
        ensures
            r == projects_of(self@.durable, tenant@).len(),
    {
        let n: usize = self.durable.projects.len();
        let ghost all = values(self@.durable.projects);
        let ghost p = |p: ProjectRecord| p.tenant@ == tenant@;
        let mut count: usize = 0;
        let mut i: usize = 0;
        assert(all.take(0).filter(p) =~= Seq::empty()) by {
            reveal(Seq::filter);
        }
        while i < n
            invariant
                n == self.durable.projects@.len(),
                all == values(self.durable.projects@),
                p == |p: ProjectRecord| p.tenant@ == tenant@,
                0 <= i <= n,
                count <= i,
                count == all.take(i as int).filter(p).len(),
            decreases n - i,
        {
            proof {
                lemma_filter_step(all, p, i as int);
            }
            if self.durable.projects.value_at(i).tenant == *tenant {
                count = count + 1;
            }
            i = i + 1;
        }
        assert(all.take(n as int) =~= all);
        count
    }

    pub fn node_identity_count_for_tenant(&self, tenant: &TenantId) -> (r: usize)
        ensures
            r == nodes_of(self@.durable, tenant@).len(),
    {
        let n: usize = self.durable.node_identities.len();
        let ghost all = values(self@.durable.node_identities);
        let ghost p = |n: NodeIdentityRecord| n.tenant@ == tenant@;
        let mut count: usize = 0;
        let mut i: usize = 0;
        assert(all.take(0).filter(p) =~= Seq::empty()) by {
            reveal(Seq::filter);
        }
        while i < n
            invariant
                n == self.durable.node_identities@.len(),
                all == values(self.durable.node_identities@),
                p == |n: NodeIdentityRecord| n.tenant@ == tenant@,
                0 <= i <= n,
                count <= i,
                count == all.take(i as int).filter(p).len(),
            decreases n - i,
        {
            proof {
                lemma_filter_step(all, p, i as int);
            }
            if self.durable.node_identities.value_at(i).tenant == *tenant {
                count = count + 1;
            }
            i = i + 1;
        }
        assert(all.take(n as int) =~= all);
        count
    }

    pub fn active_process_count_for_tenant(&self, tenant: &TenantId) -> (r: usize)
        ensures
            r == processes_of(self@.active_processes, tenant@).len(),
    {
        let n: usize = self.active_processes.len();
        let ghost all = values(self@.active_processes);
        let ghost p = |p: ActiveProcessModel| p.tenant@ == tenant@;
        let mut count: usize = 0;
        let mut i: usize = 0;
        assert(all.take(0).filter(p) =~= Seq::empty()) by {
            reveal(Seq::filter);
        }
        while i < n
            invariant
                n == self.active_processes@.len(),
                all == values(self.active_processes@),
                p == |p: ActiveProcessModel| p.tenant@ == tenant@,
                0 <= i <= n,
                count <= i,
                count == all.take(i as int).filter(p).len(),
            decreases n - i,
        {
            proof {
                lemma_filter_step(all, p, i as int);
            }
            if self.active_processes.value_at(i).tenant == *tenant {
                count = count + 1;
            }
            i = i + 1;
        }
        assert(all.take(n as int) =~= all);
        count
    }

    /// Project and identifier of each active process of a tenant, in key order.
    pub fn active_process_scopes_for_tenant(&self, tenant: &TenantId) -> (r: Vec<
        (ProjectId, ProcessId),
    >)
        ensures
            r@ == processes_of(self@.active_processes, tenant@).map_values(
                |p: ActiveProcessModel| (p.project, p.id),
            ),
    {
        let n: usize = self.active_processes.len();
        let ghost all = values(self@.active_processes);
        let ghost p = |p: ActiveProcessModel| p.tenant@ == tenant@;
        let ghost f = |p: ActiveProcessModel| (p.project, p.id);
        let mut out: Vec<(ProjectId, ProcessId)> = Vec::new();
        let mut i: usize = 0;
        assert(all.take(0).filter(p).map_values(f) =~= Seq::empty()) by {
            reveal(Seq::filter);
        }
        while i < n
            invariant
                n == self.active_processes@.len(),
                all == values(self.active_processes@),
                p == |p: ActiveProcessModel| p.tenant@ == tenant@,
                f == |p: ActiveProcessModel| (p.project, p.id),
                0 <= i <= n,
                out@ == all.take(i as int).filter(p).map_values(f),
            decreases n - i,
        {
            proof {
                lemma_filter_step(all, p, i as int);
            }
            let process: &ActiveProcess = self.active_processes.value_at(i);
            if process.tenant == *tenant {
                let ghost before = all.take(i as int).filter(p);
                out.push((process.project.clone(), process.id.clone()));
                assert(before.push(all[i as int]).map_values(f) =~= before.map_values(f).push(
                    f(all[i as int]),
                ));
            }
            i = i + 1;
        }
        assert(all.take(n as int) =~= all);
        out
    }

    /// Whether a debugger may attach to a process.
    pub fn authorize_debug_attach(&self, context: &AuthContext, process: &ProcessId) -> (r:
        Authorization)
        ensures
            (r.allowed, r.reason@) == debug_attach_reason(
                self@,
                context.tenant@,
                context.project@,
                context.actor,
                process@,
            ),
    {
        match self.active_process(&context.tenant, &context.project, process) {
            None => Authorization {
                allowed: false,
                reason: "virtual process is not active in this tenant or project".to_owned(),
            },
            Some(active) => match &context.actor {
                Actor::User(user) => {
                    let key: (TenantId, ProjectId, UserId) = (
                        active.tenant.clone(),
                        active.project.clone(),
                        user.clone(),
                    );
                    assert(key.key() == (active.tenant@, active.project@, user@));
                    let permitted: bool = match self.durable.project_permissions.get(&key) {
                        Some(permission) => permission.can_debug,
                        None => false,
                    };
                    if permitted {
                        Authorization {
                            allowed: true,
                            reason: "debug attach authorized for project".to_owned(),
                        }
                    } else {
                        Authorization {
                            allowed: false,
                            reason: "debug attach requires explicit project permission".to_owned(),
                        }
                    }
                },
                _ => Authorization {
                    allowed: false,
                    reason: "debug attach requires a user identity".to_owned(),
                },
            },
        }
    }

    pub fn active_process(&self, tenant: &TenantId, project: &ProjectId, id: &ProcessId) -> (r:
        Option<&ActiveProcess>)
        ensures
            r is Some <==> lookup(self@.active_processes, (tenant@, project@, id@)) is Some,
            r matches Some(p) ==> lookup(self@.active_processes, (tenant@, project@, id@)) == Some(
                p@,
            ),
    {
        let key: (TenantId, ProjectId, ProcessId) = (tenant.clone(), project.clone(), id.clone());
        assert(key.key() == (tenant@, project@, id@));
        self.active_processes.get(&key)
    }

    /// The active processes of a project, in key order.
    pub fn active_processes_for_project(&self, tenant: &TenantId, project: &ProjectId) -> (r: Vec<
        ActiveProcess,
    >)
        ensures
            views(r@) == processes_in(self@.active_processes, tenant@, project@),
    {
        let n: usize = self.active_processes.len();
        let ghost all = values(self@.active_processes);
        let ghost p = |p: ActiveProcessModel| p.tenant@ == tenant@ && p.project@ == project@;
        let mut out: Vec<ActiveProcess> = Vec::new();
        let mut i: usize = 0;
        assert(views(out@) =~= all.take(0).filter(p)) by {
            reveal(Seq::filter);
        }
        while i < n
            invariant
                n == self.active_processes@.len(),
                all == values(self.active_processes@),
                p == |p: ActiveProcessModel| p.tenant@ == tenant@ && p.project@ == project@,
                0 <= i <= n,
                views(out@) == all.take(i as int).filter(p),
            decreases n - i,
        {
            proof {
                lemma_filter_step(all, p, i as int);
            }
            let process: &ActiveProcess = self.active_processes.value_at(i);
            if process.tenant == *tenant && process.project == *project {
                let ghost before = out@;
                out.push(process.duplicate());
                assert(views(out@) =~= views(before).push(all[i as int]));
            }
            i = i + 1;
        }
        assert(all.take(n as int) =~= all);
        out
    }

    /// The first active process of a project in key order.
    pub fn active_process_for_project(&self, tenant: &TenantId, project: &ProjectId) -> (r: Option<
        &ActiveProcess,
    >)
        ensures
            r is None <==> processes_in(self@.active_processes, tenant@, project@).len() == 0,
            r matches Some(p) ==> processes_in(self@.active_processes, tenant@, project@).first()
                == p@,
    {
        let n: usize = self.active_processes.len();
        let ghost all = values(self@.active_processes);
        let ghost p = |p: ActiveProcessModel| p.tenant@ == tenant@ && p.project@ == project@;
        let mut i: usize = 0;
        assert(all.take(0).filter(p) =~= Seq::empty()) by {
            reveal(Seq::filter);
        }
        while i < n
            invariant
                n == self.active_processes@.len(),
                all == values(self.active_processes@),
                p == |p: ActiveProcessModel| p.tenant@ == tenant@ && p.project@ == project@,
                0 <= i <= n,
                all.take(i as int).filter(p).len() == 0,
            decreases n - i,
        {
            proof {
                lemma_filter_step(all, p, i as int);
            }
            let process: &ActiveProcess = self.active_processes.value_at(i);
            if process.tenant == *tenant && process.project == *project {
                proof {
                    lemma_filter_first(all, p, i as int);
                }
                return Some(process);
            }
            i = i + 1;
        }
        assert(all.take(n as int) =~= all);
        None
    }

    /// Whether a process of that identifier is active in another project.
    pub fn active_process_exists_outside_scope(
        &self,
        tenant: &TenantId,
        project: &ProjectId,
        id: &ProcessId,
    ) -> (r: bool)
        ensures
            r == exists|i: int|
                0 <= i < self@.active_processes.len() && outside_scope(
                    #[trigger] self@.active_processes[i].1,
                    tenant@,
                    project@,
                    id@,
                ),
    {
        let n: usize = self.active_processes.len();
        let mut i: usize = 0;
        while i < n
            invariant
                n == self.active_processes@.len(),
                self.active_processes@ == self@.active_processes,
                0 <= i <= n,
                forall|j: int|
                    0 <= j < i ==> !outside_scope(
                        #[trigger] self@.active_processes[j].1,
                        tenant@,
                        project@,
                        id@,
                    ),
            decreases n - i,
        {
            let process: &ActiveProcess = self.active_processes.value_at(i);
            if process.id == *id && (process.tenant != *tenant || process.project != *project) {
                assert(outside_scope(self@.active_processes[i as int].1, tenant@, project@, id@));
                return true;
            }
            i = i + 1;
        }
        false
    }

    pub fn active_process_count(&self) -> (r: usize)
        ensures
            r == self@.active_processes.len(),
    {
        self.active_processes.len()
    }

    pub fn tenant_count(&self) -> (r: usize)
        ensures
            r == self@.durable.tenants.len(),
    {
        self.durable.tenants.len()
    }

    pub fn user_count(&self) -> (r: usize)
        ensures
            r == self@.durable.users.len(),
    {
        self.durable.users.len()
    }

    pub fn project_count(&self) -> (r: usize)
        ensures
            r == self@.durable.projects.len(),
    {
        self.durable.projects.len()
    }

    pub fn node_identity_count(&self) -> (r: usize)
        ensures
            r == self@.durable.node_identities.len(),
    {
        self.durable.node_identities.len()
    }

    pub fn node_identity(&self, tenant: &TenantId, project: &ProjectId, id: &NodeId) -> (r: Option<
        &NodeIdentityRecord,
    >)
        ensures
            r is Some <==> lookup(self@.durable.node_identities, (tenant@, project@, id@)) is Some,
            r matches Some(record) ==> lookup(
                self@.durable.node_identities,
                (tenant@, project@, id@),
            ) == Some(*record),
    {
        let key: NodeScopeKey = NodeScopeKey::from_refs(tenant, project, id);
        assert(key.key() == (tenant@, project@, id@));
        self.durable.node_identities.get(&key)
    }

    pub fn source_provider_config(
        &self,
        tenant: &TenantId,
        project: &ProjectId,
        provider: &str,
    ) -> (r: Option<&SourceProviderConfigRecord>)
        ensures
            r is Some <==> lookup(
                self@.durable.source_provider_configs,
                (tenant@, project@, provider@),
            ) is Some,
            r matches Some(record) ==> lookup(
                self@.durable.source_provider_configs,
                (tenant@, project@, provider@),
            ) == Some(*record),
    {
        let key: (TenantId, ProjectId, String) = (
            tenant.clone(),
            project.clone(),
            provider.to_owned(),
        );
        assert(key.key() == (tenant@, project@, provider@));
        self.durable.source_provider_configs.get(&key)
    }
}

/// What comes of rolling a launch back.
pub open spec fn launch_rolled_back(
    before: CoordinatorModel,
    after: CoordinatorModel,
    key: ScopeText,
    launch_attempt: Seq<char>,
    r: Result<ActiveProcess, CoordinatorError>,
) -> bool {
    let active = lookup(before.active_processes, key);
    let owned = active matches Some(a) && (a.launch_attempt matches Some(attempt) && attempt@
        == launch_attempt);
    &&& active is None ==> {
        &&& r is Err
        &&& r->Err_0.denies("launch rollback requires an active virtual process"@)
    }
    &&& active is Some && !owned ==> {
        &&& r is Err
        &&& r->Err_0.denies(
            "launch rollback denied: attempt "@ + launch_attempt + " does not own process "@ + key.2,
        )
    }
    &&& !owned ==> after == before
    &&& owned ==> {
        &&& r is Ok
        &&& r->Ok_0@ == active->Some_0
        &&& after == (CoordinatorModel {
            active_processes: delete(before.active_processes, key),
            ..before
        })
    }
}

/// What comes of the exchange of an enrollment grant.
pub open spec fn node_enrolled(
    before: CoordinatorModel,
    after: CoordinatorModel,
    exchanged: Result<NodeCredential, EnrollmentError>,
    node: NodeId,
    public_key: String,
    r: Result<NodeCredential, CoordinatorError>,
) -> bool {
    &&& exchanged matches Err(error) ==> {
        &&& r == Err::<NodeCredential, CoordinatorError>(CoordinatorError::Enrollment(error))
        &&& after == before
    }
    &&& exchanged matches Ok(credential) ==> {
        let scope = (credential.tenant@, credential.project@, node@);
        &&& r == Ok::<NodeCredential, CoordinatorError>(credential)
        &&& after.durable.node_identities == put(
            before.durable.node_identities,
            scope,
            NodeIdentityRecord {
                id: node,
                tenant: credential.tenant,
                project: credential.project,
                public_key,
                enrollment_scope: credential.scope,
                last_seen_epoch_seconds: None,
            },
        )
        &&& is_credential(
            lookup(after.durable.credentials, node_subject(scope)),
            node_subject(scope),
            credential.tenant,
            credential.project,
            credential.credential_kind,
            credential.public_key_fingerprint,
        )
        &&& after == (CoordinatorModel {
            durable: DurableStateModel {
                node_identities: after.durable.node_identities,
                credentials: put(
                    before.durable.credentials,
                    node_subject(scope),
                    lookup(after.durable.credentials, node_subject(scope))->Some_0,
                ),
                ..before.durable
            },
            ..before
        })
    }
}

/// What comes of registering the key of an agent.
pub open spec fn agent_registered(
    before: CoordinatorModel,
    after: CoordinatorModel,
    tenant: TenantId,
    project: ProjectId,
    user: UserId,
    agent: AgentId,
    public_key: String,
    public_key_fingerprint: Digest,
    r: AgentPublicKeyRecord,
) -> bool {
    let known = lookup(before.durable.agent_public_keys, (tenant@, project@, agent@));
    let subject = agent_subject(tenant@, project@, agent@);
    &&& r@ == (AgentPublicKeyRecordModel {
        tenant,
        project,
        user,
        agent,
        public_key,
        public_key_fingerprint,
        version: match known {
            None => 1,
            Some(record) => if record.version == u64::MAX {
                u64::MAX
            } else {
                (record.version + 1) as u64
            },
        },
        revoked: false,
        scopes: seq!["project:read"@, "project:run"@],
        human_account_creation_privilege: false,
        browser_interaction_required_each_run: false,
    })
    &&& is_credential(
        lookup(after.durable.credentials, subject),
        subject,
        tenant,
        project,
        CredentialKind::PublicKey,
        public_key_fingerprint,
    )
    &&& after == (CoordinatorModel {
        durable: DurableStateModel {
            agent_public_keys: put(
                before.durable.agent_public_keys,
                (tenant@, project@, agent@),
                r@,
            ),
            credentials: put(
                before.durable.credentials,
                subject,
                lookup(after.durable.credentials, subject)->Some_0,
            ),
            ..before.durable
        },
        ..before
    })
}

/// What comes of revoking the key of an agent.
pub open spec fn agent_revoked(
    before: CoordinatorModel,
    after: CoordinatorModel,
    context: AuthContext,
    agent: Seq<char>,
    r: Result<AgentPublicKeyRecord, CoordinatorError>,
) -> bool {
    let key = (context.tenant@, context.project@, agent);
    let known = lookup(before.durable.agent_public_keys, key);
    let owner = known matches Some(record) && (context.actor matches Actor::User(user) && user@
        == record.user@);
    &&& known is None ==> r is Err && r->Err_0.denies(
        "agent public key is not registered for this project"@,
    )
    &&& known is Some && !owner && context.actor is User ==> r is Err && r->Err_0.denies(
        "agent public key is outside the signed-in user scope"@,
    )
    &&& known is Some && !(context.actor is User) ==> r is Err && r->Err_0.denies(
        "agent public-key revocation requires a user identity"@,
    )
    &&& !owner ==> after == before
    &&& owner ==> {
        let revoked = AgentPublicKeyRecordModel { revoked: true, ..known->Some_0 };
        &&& r is Ok
        &&& r->Ok_0@ == revoked
        &&& after == (CoordinatorModel {
            durable: DurableStateModel {
                agent_public_keys: put(before.durable.agent_public_keys, key, revoked),
                credentials: delete(
                    before.durable.credentials,
                    agent_subject(context.tenant@, context.project@, known->Some_0.agent@),
                ),
                ..before.durable
            },
            ..before
        })
    }
}

/// What comes of a request that an agent has signed.
pub open spec fn agent_authorized(
    s: CoordinatorModel,
    key: ScopeText,
    fingerprint: Option<Digest>,
    issued_at: u64,
    now: u64,
    verified: Result<(), String>,
    r: Result<AgentPublicKeyRecord, CoordinatorError>,
) -> bool {
    let known = lookup(s.durable.agent_public_keys, key);
    let refusal = agent_refusal(known, fingerprint, issued_at, now);
    &&& refusal matches Some(reason) ==> r is Err && r->Err_0.denies(reason)
    &&& refusal is None ==> (verified matches Err(reason) ==> r is Err && r->Err_0.denies(reason@))
    &&& refusal is None && verified is Ok ==> r is Ok && r->Ok_0@ == known->Some_0
}

/// A process of that identifier in another project.
pub open spec fn outside_scope(
    process: ActiveProcessModel,
    tenant: Seq<char>,
    project: Seq<char>,
    id: Seq<char>,
) -> bool {
    process.id@ == id && (process.tenant@ != tenant || process.project@ != project)
}

/// The first selected element is the first of the selection.
pub proof fn lemma_filter_first<A>(s: Seq<A>, p: spec_fn(A) -> bool, i: int)
    requires
        0 <= i < s.len(),
        p(s[i]),
        s.take(i).filter(p).len() == 0,
    ensures
        s.filter(p).len() > 0,
        s.filter(p).first() == s[i],
{
    lemma_filter_step(s, p, i);
    let head = s.take(i + 1);
    let tail = s.skip(i + 1);
    assert(s =~= head + tail);
    Seq::filter_distributes_over_add(head, tail, p);
    assert(s.take(i).filter(p) =~= Seq::empty());
}

/// The longest that the clock of a signer may be off.
pub const MAX_AGENT_SIGNATURE_SKEW_SECONDS: u64 = 300;

/// The subject of the credential of an agent.
pub open spec fn agent_subject(
    tenant: Seq<char>,
    project: Seq<char>,
    agent: Seq<char>,
) -> Seq<char> {
    "agent:"@ + tenant + ":"@ + project + ":"@ + agent
}

fn agent_subject_text(tenant: &TenantId, project: &ProjectId, agent: &AgentId) -> (r: String)
    ensures
        r@ == agent_subject(tenant@, project@, agent@),
{
    let head: String = concat5("agent:", tenant.as_str(), ":", project.as_str(), ":");
    head.concat(agent.as_str())
}

/// The keys that an actor may see: those of a user, or that of an agent.
pub open spec fn key_visible(
    record: AgentPublicKeyRecordModel,
    tenant: Seq<char>,
    project: Seq<char>,
    actor: Actor,
) -> bool {
    &&& record.tenant@ == tenant
    &&& record.project@ == project
    &&& match actor {
        Actor::User(user) => record.user@ == user@,
        Actor::Agent(agent) => record.agent@ == agent@,
        _ => false,
    }
}

/// Why a signed request of an agent is refused, as far as the records decide.
pub open spec fn agent_refusal(
    registered: Option<AgentPublicKeyRecordModel>,
    fingerprint: Option<Digest>,
    issued_at: u64,
    now: u64,
) -> Option<Seq<char>> {
    match registered {
        None => Some("agent public key is not registered for this tenant/project"@),
        Some(record) => if record.revoked {
            Some("agent public key has been revoked"@)
        } else if fingerprint matches Some(f) && f@ != record.public_key_fingerprint@ {
            Some("agent public key fingerprint does not match the registered key"@)
        } else if issued_at - now > MAX_AGENT_SIGNATURE_SKEW_SECONDS || now - issued_at
            > MAX_AGENT_SIGNATURE_SKEW_SECONDS {
            Some("agent signed request is expired or outside the allowed clock skew"@)
        } else if !record.scopes.contains("project:run"@) {
            Some("agent public key is not scoped for project runs"@)
        } else {
            None
        },
    }
}

impl Coordinator {
    pub fn grant_project_debug(&mut self, tenant: TenantId, project: ProjectId, user: UserId)
        ensures
            final(self)@ == (CoordinatorModel {
                durable: DurableStateModel {
                    project_permissions: put(
                        old(self)@.durable.project_permissions,
                        (tenant@, project@, user@),
                        ProjectPermissionRecord { tenant, project, user, can_debug: true },
                    ),
                    ..old(self)@.durable
                },
                ..old(self)@
            }),
            well_keyed(old(self)@.durable) ==> well_keyed(final(self)@.durable),
    {
        broadcast use {lemma_delete_holds_keys, lemma_put_holds_keys};

        let key: (TenantId, ProjectId, UserId) = (tenant.clone(), project.clone(), user.clone());
        assert(key.key() == (tenant@, project@, user@));
        self.durable.project_permissions.insert(
            key,
            ProjectPermissionRecord { tenant, project, user, can_debug: true },
        );
    }

    /// Registers or rotates the key of an agent, and records its credential.
    /// `public_key_fingerprint` is the digest of the key.
    pub fn register_agent_public_key(
        &mut self,
        tenant: TenantId,
        project: ProjectId,
        user: UserId,
        agent: AgentId,
        public_key: String,
        public_key_fingerprint: Digest,
    ) -> (r: AgentPublicKeyRecord)
        ensures
            agent_registered(
                old(self)@,
                final(self)@,
                tenant,
                project,
                user,
                agent,
                public_key,
                public_key_fingerprint,
                r,
            ),
            well_keyed(old(self)@.durable) ==> well_keyed(final(self)@.durable),
    {
        broadcast use {lemma_lookup_put, lemma_delete_holds_keys, lemma_found_holds_key, lemma_put_holds_keys};

        let key: (TenantId, ProjectId, AgentId) = (tenant.clone(), project.clone(), agent.clone());
        assert(key.key() == (tenant@, project@, agent@));
        let version: u64 = match self.durable.agent_public_keys.get(&key) {
            Some(record) => record.version.saturating_add(1),
            None => 1,
        };
        let subject: String = agent_subject_text(&tenant, &project, &agent);
        let scopes = TextList {
            items: vec!["project:read".to_owned(), "project:run".to_owned()],
        };
        assert(scopes@ =~= seq!["project:read"@, "project:run"@]);
        let record = AgentPublicKeyRecord {
            tenant: tenant.clone(),
            project: project.clone(),
            user,
            agent,
            public_key,
            public_key_fingerprint: public_key_fingerprint.clone(),
            version,
            revoked: false,
            scopes,
            human_account_creation_privilege: false,
            browser_interaction_required_each_run: false,
        };
        self.durable.agent_public_keys.insert(key, record.duplicate());
        let credential_key: String = subject.clone();
        assert(credential_key.key() == subject@);
        self.durable.credentials.insert(
            credential_key,
            CredentialRecord {
                subject,
                tenant,
                project: Some(project),
                kind: CredentialKind::PublicKey,
                public_key_fingerprint: Some(public_key_fingerprint),
            },
        );
        record
    }

    /// The keys that the actor may see, in key order.
    pub fn list_agent_public_keys(&self, context: &AuthContext) -> (r: Vec<AgentPublicKeyRecord>)
        ensures
            views(r@) == values(self@.durable.agent_public_keys).filter(
                |k: AgentPublicKeyRecordModel|
                    key_visible(k, context.tenant@, context.project@, context.actor),
            ),
    {
        let n: usize = self.durable.agent_public_keys.len();
        let ghost all = values(self@.durable.agent_public_keys);
        let ghost p = |k: AgentPublicKeyRecordModel|
            key_visible(k, context.tenant@, context.project@, context.actor);
        let mut out: Vec<AgentPublicKeyRecord> = Vec::new();
        let mut i: usize = 0;
        assert(views(out@) =~= all.take(0).filter(p)) by {
            reveal(Seq::filter);
        }
        while i < n
            invariant
                n == self.durable.agent_public_keys@.len(),
                all == values(self.durable.agent_public_keys@),
                p == |k: AgentPublicKeyRecordModel|
                    key_visible(k, context.tenant@, context.project@, context.actor),
                0 <= i <= n,
                views(out@) == all.take(i as int).filter(p),
            decreases n - i,
        {
            proof {
                lemma_filter_step(all, p, i as int);
            }
            let record: &AgentPublicKeyRecord = self.durable.agent_public_keys.value_at(i);
            let owned: bool = match &context.actor {
                Actor::User(user) => record.user == *user,
                Actor::Agent(agent) => record.agent == *agent,
                _ => false,
            };
            if record.tenant == context.tenant && record.project == context.project && owned {
                let ghost before = out@;
                out.push(record.duplicate());
                assert(views(out@) =~= views(before).push(all[i as int]));
            }
            i = i + 1;
        }
        assert(all.take(n as int) =~= all);
        out
    }

    /// Revokes the key of an agent, and takes away its credential.
    pub fn revoke_agent_public_key(&mut self, context: &AuthContext, agent: &AgentId) -> (r: Result<
        AgentPublicKeyRecord,
        CoordinatorError,
    >)
        ensures
            agent_revoked(old(self)@, final(self)@, *context, agent@, r),
            well_keyed(old(self)@.durable) ==> well_keyed(final(self)@.durable),
    {
        broadcast use {crate::ordered_map::lemma_put_delete, lemma_delete_holds_keys, lemma_found_holds_key, lemma_put_holds_keys};

        let key: (TenantId, ProjectId, AgentId) = (
            context.tenant.clone(),
            context.project.clone(),
            agent.clone(),
        );
        assert(key.key() == (context.tenant@, context.project@, agent@));
        match self.durable.agent_public_keys.get(&key) {
            None => {
                return Err(
                    CoordinatorError::Unauthorized(
                        "agent public key is not registered for this project".to_owned(),
                    ),
                );
            },
            Some(record) => match &context.actor {
                Actor::User(user) => {
                    if record.user != *user {
                        return Err(
                            CoordinatorError::Unauthorized(
                                "agent public key is outside the signed-in user scope".to_owned(),
                            ),
                        );
                    }
                },
                _ => {
                    return Err(
                        CoordinatorError::Unauthorized(
                            "agent public-key revocation requires a user identity".to_owned(),
                        ),
                    );
                },
            },
        }
        match self.durable.agent_public_keys.remove(&key) {
            Some(found) => {
                let mut record: AgentPublicKeyRecord = found;
                record.revoked = true;
                let subject: String = agent_subject_text(
                    &context.tenant,
                    &context.project,
                    &record.agent,
                );
                assert(subject.key() == subject@);
                let _credential: Option<CredentialRecord> = self.durable.credentials.remove(
                    &subject,
                );
                self.durable.agent_public_keys.insert(key, record.duplicate());
                Ok(record)
            },
            None => Err(CoordinatorError::UnknownNode),
        }
    }

    /// Lets an agent run workflows of a project. `verified` is what the verification of the
    /// signature against the registered key says.
    pub fn authorize_agent_project_run(
        &self,
        tenant: &TenantId,
        project: &ProjectId,
        agent: &AgentId,
        public_key_fingerprint: &Option<Digest>,
        issued_at_epoch_seconds: u64,
        now_epoch_seconds: u64,
        verified: Result<(), String>,
    ) -> (r: Result<AgentPublicKeyRecord, CoordinatorError>)
        ensures
            agent_authorized(
                self@,
                (tenant@, project@, agent@),
                *public_key_fingerprint,
                issued_at_epoch_seconds,
                now_epoch_seconds,
                verified,
                r,
            ),
    {
        let key: (TenantId, ProjectId, AgentId) = (tenant.clone(), project.clone(), agent.clone());
        assert(key.key() == (tenant@, project@, agent@));
        let record: &AgentPublicKeyRecord = match self.durable.agent_public_keys.get(&key) {
            Some(record) => record,
            None => {
                return Err(
                    CoordinatorError::Unauthorized(
                        "agent public key is not registered for this tenant/project".to_owned(),
                    ),
                );
            },
        };
        if record.revoked {
            return Err(
                CoordinatorError::Unauthorized("agent public key has been revoked".to_owned()),
            );
        }
        if let Some(fingerprint) = public_key_fingerprint {
            if record.public_key_fingerprint != *fingerprint {
                return Err(
                    CoordinatorError::Unauthorized(
                        "agent public key fingerprint does not match the registered key".to_owned(),
                    ),
                );
            }
        }
        let skew: u64 = if issued_at_epoch_seconds > now_epoch_seconds {
            issued_at_epoch_seconds - now_epoch_seconds
        } else {
            now_epoch_seconds - issued_at_epoch_seconds
        };
        if skew > MAX_AGENT_SIGNATURE_SKEW_SECONDS {
            return Err(
                CoordinatorError::Unauthorized(
                    "agent signed request is expired or outside the allowed clock skew".to_owned(),
                ),
            );
        }
        if !record.scopes.holds("project:run") {
            return Err(
                CoordinatorError::Unauthorized(
                    "agent public key is not scoped for project runs".to_owned(),
                ),
            );
        }
        match verified {
            Ok(_) => Ok(record.duplicate()),
            Err(reason) => Err(CoordinatorError::Unauthorized(reason)),
        }
    }
}

/// The coordinator with other automated runs.
pub open spec fn with_automation(c: CoordinatorModel, automation: AutomationStateModel) -> CoordinatorModel {
    CoordinatorModel { durable: DurableStateModel { automation, ..c.durable }, ..c }
}

/// A session of the tenant that is not revoked.
pub open spec fn session_open(tenant: Seq<char>) -> spec_fn((Seq<char>, CliSessionRecord)) -> bool {
    |e: (Seq<char>, CliSessionRecord)| e.1.tenant@ == tenant && !e.1.revoked
}

/// A session, revoked where it is one of the tenant.
pub open spec fn session_revoked(tenant: Seq<char>) -> spec_fn((Seq<char>, CliSessionRecord)) -> CliSessionRecord {
    |e: (Seq<char>, CliSessionRecord)|
        if e.1.tenant@ == tenant {
            CliSessionRecord { revoked: true, ..e.1 }
        } else {
            e.1
        }
}

impl Coordinator {
    /// The automated runs.
    pub fn automation(&self) -> (r: &AutomationState)
        ensures
            r@ == self@.durable.automation,
    {
        &self.durable.automation
    }

    /// Revokes the sessions of a tenant. Tells how many were not revoked before.
    pub fn revoke_cli_sessions_for_tenant(&mut self, tenant: &TenantId) -> (r: usize)
        ensures
            r == old(self)@.durable.cli_sessions.filter(session_open(tenant@)).len(),
            final(self)@ == (CoordinatorModel {
                durable: DurableStateModel {
                    cli_sessions: old(self)@.durable.cli_sessions.map_values(
                        |e: (Seq<char>, CliSessionRecord)| (e.0, session_revoked(tenant@)(e)),
                    ),
                    ..old(self)@.durable
                },
                ..old(self)@
            }),
            well_keyed(old(self)@.durable) ==> well_keyed(final(self)@.durable),
    {
        broadcast use {lemma_delete_holds_keys, lemma_put_holds_keys};

        let ghost p = session_open(tenant@);
        let open = |_digest: &Digest, session: &CliSessionRecord| -> (b: bool)
            ensures
                b == (session.tenant@ == tenant@ && !session.revoked),
            { session.tenant == *tenant && !session.revoked };
        let count: usize = self.durable.cli_sessions.count_where(open, Ghost(p));
        let ghost g = session_revoked(tenant@);
        let revoke = |_digest: &Digest, session: CliSessionRecord| -> (r: CliSessionRecord)
            ensures
                r == (if session.tenant@ == tenant@ {
                    CliSessionRecord { revoked: true, ..session }
                } else {
                    session
                }),
            {
                if session.tenant == *tenant {
                    CliSessionRecord { revoked: true, ..session }
                } else {
                    session
                }
            };
        self.durable.cli_sessions.update_values(revoke, Ghost(g));
        count
    }

    /// Keeps a session.
    pub fn put_cli_session(&mut self, session: CliSessionRecord)
        ensures
            final(self)@ == (CoordinatorModel {
                durable: DurableStateModel {
                    cli_sessions: put(
                        old(self)@.durable.cli_sessions,
                        session.session_digest@,
                        session,
                    ),
                    ..old(self)@.durable
                },
                ..old(self)@
            }),
            well_keyed(old(self)@.durable) ==> well_keyed(final(self)@.durable),
    {
        broadcast use {lemma_delete_holds_keys, lemma_put_holds_keys};

        let digest: Digest = session.session_digest.clone();
        assert(digest.key() == session.session_digest@);
        self.durable.cli_sessions.insert(digest, session);
    }

    /// The automated runs, to be changed.
    pub fn automation_mut(&mut self) -> (r: &mut AutomationState)
        ensures
            r@ == old(self)@.durable.automation,
            final(self)@ == with_automation(old(self)@, final(r)@),
    {
        &mut self.durable.automation
    }
}

} // verus!
