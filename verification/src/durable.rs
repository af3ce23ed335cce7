//! The state that survives a restart, and the stores that hold it.
use vstd::prelude::*;
use vstd::string::*;

use crate::automated_run::{AutomationState, AutomationStateModel};
use crate::duplicate::{Duplicate, copy_all, copy_option, copy_text, views, TextList};
use crate::ids::{AgentId, Digest, NodeId, NodeScopeKey, ProjectId, TenantId, UserId};
use crate::ordered_map::OrderedMap;

verus! {

/// How a credential authenticates.
#[derive(Clone, Copy, Debug, PartialEq, Eq, Structural)]
pub enum CredentialKind {
    CliDeviceSession,
    NodeCredential,
    TaskCredential,
    PublicKey,
}

/// A tenant.
pub struct TenantRecord {
    pub id: TenantId,
}

impl View for TenantRecord {
    type V = TenantRecord;

    open spec fn view(&self) -> TenantRecord {
        *self
    }
}

impl Duplicate for TenantRecord {
    fn duplicate(&self) -> (r: Self) {
        TenantRecord {
            id: self.id.clone(),
        }
    }
}

/// A user of a tenant.
pub struct UserRecord {
    pub id: UserId,
    pub tenant: TenantId,
    pub credential_kind: CredentialKind,
}

impl View for UserRecord {
    type V = UserRecord;

    open spec fn view(&self) -> UserRecord {
        *self
    }
}

impl Duplicate for UserRecord {
    fn duplicate(&self) -> (r: Self) {
        UserRecord {
            id: self.id.clone(),
            tenant: self.tenant.clone(),
            credential_kind: self.credential_kind,
        }
    }
}

/// A project of a tenant.
pub struct ProjectRecord {
    pub id: ProjectId,
    pub tenant: TenantId,
    pub name: String,
}

impl View for ProjectRecord {
    type V = ProjectRecord;

    open spec fn view(&self) -> ProjectRecord {
        *self
    }
}

impl Duplicate for ProjectRecord {
    fn duplicate(&self) -> (r: Self) {
        ProjectRecord {
            id: self.id.clone(),
            tenant: self.tenant.clone(),
            name: self.name.clone(),
        }
    }
}

/// An enrolled node of a project.
pub struct NodeIdentityRecord {
    pub id: NodeId,
    pub tenant: TenantId,
    pub project: ProjectId,
    pub public_key: String,
    pub enrollment_scope: String,
    pub last_seen_epoch_seconds: Option<u64>,
}

impl View for NodeIdentityRecord {
    type V = NodeIdentityRecord;

    open spec fn view(&self) -> NodeIdentityRecord {
        *self
    }
}

impl Duplicate for NodeIdentityRecord {
    fn duplicate(&self) -> (r: Self) {
        NodeIdentityRecord {
            id: self.id.clone(),
            tenant: self.tenant.clone(),
            project: self.project.clone(),
            public_key: self.public_key.clone(),
            enrollment_scope: self.enrollment_scope.clone(),
            last_seen_epoch_seconds: self.last_seen_epoch_seconds,
        }
    }
}

/// A credential and the scope it is good for.
pub struct CredentialRecord {
    pub subject: String,
    pub tenant: TenantId,
    pub project: Option<ProjectId>,
    pub kind: CredentialKind,
    pub public_key_fingerprint: Option<Digest>,
}

impl View for CredentialRecord {
    type V = CredentialRecord;

    open spec fn view(&self) -> CredentialRecord {
        *self
    }
}

impl Duplicate for CredentialRecord {
    fn duplicate(&self) -> (r: Self) {
        CredentialRecord {
            subject: self.subject.clone(),
            tenant: self.tenant.clone(),
            project: copy_text(&self.project),
            kind: self.kind,
            public_key_fingerprint: copy_text(&self.public_key_fingerprint),
        }
    }
}

/// A session of the command line.
pub struct CliSessionRecord {
    pub session_digest: Digest,
    pub tenant: TenantId,
    pub project: ProjectId,
    pub user: UserId,
    pub credential_kind: CredentialKind,
    pub expires_at_epoch_seconds: Option<u64>,
    pub revoked: bool,
}

impl View for CliSessionRecord {
    type V = CliSessionRecord;

    open spec fn view(&self) -> CliSessionRecord {
        *self
    }
}

impl Duplicate for CliSessionRecord {
    fn duplicate(&self) -> (r: Self) {
        CliSessionRecord {
            session_digest: self.session_digest.clone(),
            tenant: self.tenant.clone(),
            project: self.project.clone(),
            user: self.user.clone(),
            credential_kind: self.credential_kind,
            expires_at_epoch_seconds: self.expires_at_epoch_seconds,
            revoked: self.revoked,
        }
    }
}

/// The public key of an agent of a project.
pub struct AgentPublicKeyRecord {
    pub tenant: TenantId,
    pub project: ProjectId,
    pub user: UserId,
    pub agent: AgentId,
    pub public_key: String,
    pub public_key_fingerprint: Digest,
    pub version: u64,
    pub revoked: bool,
    pub scopes: TextList,
    pub human_account_creation_privilege: bool,
    pub browser_interaction_required_each_run: bool,
}

/// The model of [`AgentPublicKeyRecord`].
#[verifier::ext_equal]
pub struct AgentPublicKeyRecordModel {
    pub tenant: TenantId,
    pub project: ProjectId,
    pub user: UserId,
    pub agent: AgentId,
    pub public_key: String,
    pub public_key_fingerprint: Digest,
    pub version: u64,
    pub revoked: bool,
    pub scopes: Seq<Seq<char>>,
    pub human_account_creation_privilege: bool,
    pub browser_interaction_required_each_run: bool,
}

impl View for AgentPublicKeyRecord {
    type V = AgentPublicKeyRecordModel;

    open spec fn view(&self) -> AgentPublicKeyRecordModel {
        AgentPublicKeyRecordModel {
            tenant: self.tenant,
            project: self.project,
            user: self.user,
            agent: self.agent,
            public_key: self.public_key,
            public_key_fingerprint: self.public_key_fingerprint,
            version: self.version,
            revoked: self.revoked,
            scopes: self.scopes@,
            human_account_creation_privilege: self.human_account_creation_privilege,
            browser_interaction_required_each_run: self.browser_interaction_required_each_run,
        }
    }
}

impl Duplicate for AgentPublicKeyRecord {
    fn duplicate(&self) -> (r: Self) {
        AgentPublicKeyRecord {
            tenant: self.tenant.clone(),
            project: self.project.clone(),
            user: self.user.clone(),
            agent: self.agent.clone(),
            public_key: self.public_key.clone(),
            public_key_fingerprint: self.public_key_fingerprint.clone(),
            version: self.version,
            revoked: self.revoked,
            scopes: self.scopes.duplicate(),
            human_account_creation_privilege: self.human_account_creation_privilege,
            browser_interaction_required_each_run: self.browser_interaction_required_each_run,
        }
    }
}

/// The configuration of a source provider of a project.
pub struct SourceProviderConfigRecord {
    pub tenant: TenantId,
    pub project: ProjectId,
    pub provider: String,
    pub manifest_digest: Digest,
}

impl View for SourceProviderConfigRecord {
    type V = SourceProviderConfigRecord;

    open spec fn view(&self) -> SourceProviderConfigRecord {
        *self
    }
}

impl Duplicate for SourceProviderConfigRecord {
    fn duplicate(&self) -> (r: Self) {
        SourceProviderConfigRecord {
            tenant: self.tenant.clone(),
            project: self.project.clone(),
            provider: self.provider.clone(),
            manifest_digest: self.manifest_digest.clone(),
        }
    }
}

/// A named policy of a tenant.
pub struct ServicePolicyRecord {
    pub tenant: TenantId,
    pub name: String,
    pub digest: Digest,
}

impl View for ServicePolicyRecord {
    type V = ServicePolicyRecord;

    open spec fn view(&self) -> ServicePolicyRecord {
        *self
    }
}

impl Duplicate for ServicePolicyRecord {
    fn duplicate(&self) -> (r: Self) {
        ServicePolicyRecord {
            tenant: self.tenant.clone(),
            name: self.name.clone(),
            digest: self.digest.clone(),
        }
    }
}

/// What a user may do in a project.
pub struct ProjectPermissionRecord {
    pub tenant: TenantId,
    pub project: ProjectId,
    pub user: UserId,
    pub can_debug: bool,
}

impl View for ProjectPermissionRecord {
    type V = ProjectPermissionRecord;

    open spec fn view(&self) -> ProjectPermissionRecord {
        *self
    }
}

impl Duplicate for ProjectPermissionRecord {
    fn duplicate(&self) -> (r: Self) {
        ProjectPermissionRecord {
            tenant: self.tenant.clone(),
            project: self.project.clone(),
            user: self.user.clone(),
            can_debug: self.can_debug,
        }
    }
}

/// The quota limits that a tenant has of its own.
pub struct TenantQuotaOverrideValues {
    pub max_projects: Option<u64>,
    pub max_nodes: Option<u64>,
    pub max_active_processes: Option<u64>,
}

impl View for TenantQuotaOverrideValues {
    type V = TenantQuotaOverrideValues;

    open spec fn view(&self) -> TenantQuotaOverrideValues {
        *self
    }
}

impl Duplicate for TenantQuotaOverrideValues {
    fn duplicate(&self) -> (r: Self) {
        TenantQuotaOverrideValues {
            max_projects: self.max_projects,
            max_nodes: self.max_nodes,
            max_active_processes: self.max_active_processes,
        }
    }
}

/// The quota limits of a tenant, and who set them.
pub struct TenantQuotaOverrideRecord {
    pub tenant: TenantId,
    pub values: TenantQuotaOverrideValues,
    pub updated_at_epoch_seconds: u64,
    pub operator: UserId,
}

impl View for TenantQuotaOverrideRecord {
    type V = TenantQuotaOverrideRecord;

    open spec fn view(&self) -> TenantQuotaOverrideRecord {
        *self
    }
}

impl Duplicate for TenantQuotaOverrideRecord {
    fn duplicate(&self) -> (r: Self) {
        TenantQuotaOverrideRecord {
            tenant: self.tenant.clone(),
            values: self.values.duplicate(),
            updated_at_epoch_seconds: self.updated_at_epoch_seconds,
            operator: self.operator.clone(),
        }
    }
}

/// One administrative action on a tenant.
pub struct HostedAdminAuditRecord {
    pub sequence: u64,
    pub tenant: TenantId,
    pub action: String,
    pub old_quota_override: Option<TenantQuotaOverrideValues>,
    pub new_quota_override: Option<TenantQuotaOverrideValues>,
    pub operator: UserId,
    pub occurred_at_epoch_seconds: u64,
}

impl View for HostedAdminAuditRecord {
    type V = HostedAdminAuditRecord;

    open spec fn view(&self) -> HostedAdminAuditRecord {
        *self
    }
}

impl Duplicate for HostedAdminAuditRecord {
    fn duplicate(&self) -> (r: Self) {
        HostedAdminAuditRecord {
            sequence: self.sequence,
            tenant: self.tenant.clone(),
            action: self.action.clone(),
            old_quota_override: copy_option(&self.old_quota_override),
            new_quota_override: copy_option(&self.new_quota_override),
            operator: self.operator.clone(),
            occurred_at_epoch_seconds: self.occurred_at_epoch_seconds,
        }
    }
}

/// Quota limits by tenant, and the bounded trail of administrative actions.
pub struct HostedAdminDurableState {
    pub tenant_quota_overrides: OrderedMap<TenantId, TenantQuotaOverrideRecord>,
    pub audit: Vec<HostedAdminAuditRecord>,
    pub next_audit_sequence: u64,
}

/// The model of [`HostedAdminDurableState`].
#[verifier::ext_equal]
pub struct HostedAdminDurableStateModel {
    pub tenant_quota_overrides: Seq<(Seq<char>, TenantQuotaOverrideRecord)>,
    pub audit: Seq<HostedAdminAuditRecord>,
    pub next_audit_sequence: u64,
}

impl View for HostedAdminDurableState {
    type V = HostedAdminDurableStateModel;

    open spec fn view(&self) -> HostedAdminDurableStateModel {
        HostedAdminDurableStateModel {
            tenant_quota_overrides: self.tenant_quota_overrides@,
            audit: views(self.audit@),
            next_audit_sequence: self.next_audit_sequence,
        }
    }
}

impl Duplicate for HostedAdminDurableState {
    fn duplicate(&self) -> (r: Self) {
        HostedAdminDurableState {
            tenant_quota_overrides: self.tenant_quota_overrides.duplicate(),
            audit: copy_all(&self.audit),
            next_audit_sequence: self.next_audit_sequence,
        }
    }
}

/// Everything that survives a restart.
pub struct DurableState {
    pub tenants: OrderedMap<TenantId, TenantRecord>,
    pub users: OrderedMap<UserId, UserRecord>,
    pub projects: OrderedMap<ProjectId, ProjectRecord>,
    pub node_identities: OrderedMap<NodeScopeKey, NodeIdentityRecord>,
    pub credentials: OrderedMap<String, CredentialRecord>,
    pub cli_sessions: OrderedMap<Digest, CliSessionRecord>,
    pub agent_public_keys: OrderedMap<(TenantId, ProjectId, AgentId), AgentPublicKeyRecord>,
    pub source_provider_configs: OrderedMap<(TenantId, ProjectId, String), SourceProviderConfigRecord>,
    pub service_policy_records: OrderedMap<(TenantId, String), ServicePolicyRecord>,
    pub project_permissions: OrderedMap<(TenantId, ProjectId, UserId), ProjectPermissionRecord>,
    pub hosted_admin: HostedAdminDurableState,
    pub automation: AutomationState,
}

/// The model of [`DurableState`].
#[verifier::ext_equal]
pub struct DurableStateModel {
    pub tenants: Seq<(Seq<char>, TenantRecord)>,
    pub users: Seq<(Seq<char>, UserRecord)>,
    pub projects: Seq<(Seq<char>, ProjectRecord)>,
    pub node_identities: Seq<((Seq<char>, Seq<char>, Seq<char>), NodeIdentityRecord)>,
    pub credentials: Seq<(Seq<char>, CredentialRecord)>,
    pub cli_sessions: Seq<(Seq<char>, CliSessionRecord)>,
    pub agent_public_keys: Seq<((Seq<char>, Seq<char>, Seq<char>), AgentPublicKeyRecordModel)>,
    pub source_provider_configs: Seq<((Seq<char>, Seq<char>, Seq<char>), SourceProviderConfigRecord)>,
    pub service_policy_records: Seq<((Seq<char>, Seq<char>), ServicePolicyRecord)>,
    pub project_permissions: Seq<((Seq<char>, Seq<char>, Seq<char>), ProjectPermissionRecord)>,
    pub hosted_admin: HostedAdminDurableStateModel,
    pub automation: AutomationStateModel,
}

impl View for DurableState {
    type V = DurableStateModel;

    open spec fn view(&self) -> DurableStateModel {
        DurableStateModel {
            tenants: self.tenants@,
            users: self.users@,
            projects: self.projects@,
            node_identities: self.node_identities@,
            credentials: self.credentials@,
            cli_sessions: self.cli_sessions@,
            agent_public_keys: self.agent_public_keys@,
            source_provider_configs: self.source_provider_configs@,
            service_policy_records: self.service_policy_records@,
            project_permissions: self.project_permissions@,
            hosted_admin: self.hosted_admin@,
            automation: self.automation@,
        }
    }
}

impl Duplicate for DurableState {
    fn duplicate(&self) -> (r: Self) {
        DurableState {
            tenants: self.tenants.duplicate(),
            users: self.users.duplicate(),
            projects: self.projects.duplicate(),
            node_identities: self.node_identities.duplicate(),
            credentials: self.credentials.duplicate(),
            cli_sessions: self.cli_sessions.duplicate(),
            agent_public_keys: self.agent_public_keys.duplicate(),
            source_provider_configs: self.source_provider_configs.duplicate(),
            service_policy_records: self.service_policy_records.duplicate(),
            project_permissions: self.project_permissions.duplicate(),
            hosted_admin: self.hosted_admin.duplicate(),
            automation: self.automation.duplicate(),
        }
    }
}

impl DurableStateModel {
    /// A state without records.
    pub open spec fn is_empty(&self) -> bool {
        &&& self.tenants.len() == 0
        &&& self.users.len() == 0
        &&& self.projects.len() == 0
        &&& self.node_identities.len() == 0
        &&& self.credentials.len() == 0
        &&& self.cli_sessions.len() == 0
        &&& self.agent_public_keys.len() == 0
        &&& self.source_provider_configs.len() == 0
        &&& self.service_policy_records.len() == 0
        &&& self.project_permissions.len() == 0
        &&& self.hosted_admin.tenant_quota_overrides.len() == 0
        &&& self.hosted_admin.audit.len() == 0
        &&& self.hosted_admin.next_audit_sequence == 0
        &&& self.automation.is_empty()
    }
}

impl DurableState {
    /// The state of a coordinator that has never stored anything.
    pub fn empty() -> (r: Self)
        ensures
            r@.is_empty(),
    {
        DurableState {
            tenants: OrderedMap::new(),
            users: OrderedMap::new(),
            projects: OrderedMap::new(),
            node_identities: OrderedMap::new(),
            credentials: OrderedMap::new(),
            cli_sessions: OrderedMap::new(),
            agent_public_keys: OrderedMap::new(),
            source_provider_configs: OrderedMap::new(),
            service_policy_records: OrderedMap::new(),
            project_permissions: OrderedMap::new(),
            hosted_admin: HostedAdminDurableState {
                tenant_quota_overrides: OrderedMap::new(),
                audit: Vec::new(),
                next_audit_sequence: 0,
            },
            automation: AutomationState::empty(),
        }
    }
}

impl TenantQuotaOverrideValues {
    /// No limit is set.
    pub open spec fn unset(&self) -> bool {
        &&& self.max_projects is None
        &&& self.max_nodes is None
        &&& self.max_active_processes is None
    }

    pub fn is_empty(&self) -> (r: bool)
        ensures
            r == self.unset(),
    {
        self.max_projects.is_none() && self.max_nodes.is_none() && self.max_active_processes.is_none()
    }
}

/// A store that always works.
pub trait DurableStore: Sized {
    /// What the store holds.
    spec fn stored(&self) -> DurableStateModel;

    fn load(&self) -> (r: DurableState)
        ensures
            r@ == self.stored(),
    ;

    fn save(&mut self, state: DurableState)
        ensures
            final(self).stored() == state@,
    ;
}

/// A store that may fail.
pub trait FallibleDurableStore: Sized {
    type Error;

    /// What the store holds.
    spec fn held(&self) -> DurableStateModel;

    fn load_state(&mut self) -> (r: Result<DurableState, Self::Error>)
        ensures
            final(self).held() == old(self).held(),
            r matches Ok(state) ==> state@ == old(self).held(),
    ;

    fn save_state(&mut self, state: &DurableState) -> (r: Result<(), Self::Error>)
        ensures
            r is Ok ==> final(self).held() == state@,
    ;
}

/// A store in memory.
pub struct InMemoryDurableStore {
    state: DurableState,
}

impl Default for InMemoryDurableStore {
    fn default() -> (r: Self)
        ensures
            r.stored().is_empty(),
    {
        InMemoryDurableStore { state: DurableState::empty() }
    }
}

impl DurableStore for InMemoryDurableStore {
    closed spec fn stored(&self) -> DurableStateModel {
        self.state@
    }

    fn load(&self) -> (r: DurableState) {
        self.state.duplicate()
    }

    fn save(&mut self, state: DurableState) {
        self.state = state;
    }
}

impl FallibleDurableStore for InMemoryDurableStore {
    type Error = String;

    open spec fn held(&self) -> DurableStateModel {
        self.stored()
    }

    fn load_state(&mut self) -> (r: Result<DurableState, String>)
        ensures
            r is Ok,
    {
        Ok(self.state.duplicate())
    }

    fn save_state(&mut self, state: &DurableState) -> (r: Result<(), String>)
        ensures
            r is Ok,
    {
        self.state = state.duplicate();
        Ok(())
    }
}

} // verus!
