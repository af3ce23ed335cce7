//! The tables that keep the durable state: their schema, and the rows that a state is stored as.
use vstd::prelude::*;
use vstd::string::*;

use crate::automated_run::{AutomationState, AutomationStateModel};
use crate::duplicate::{Duplicate, copy_option, option_view, views};
use crate::durable::{AgentPublicKeyRecord, AgentPublicKeyRecordModel, CliSessionRecord, CredentialRecord, DurableState, DurableStateModel, HostedAdminDurableState, HostedAdminDurableStateModel, NodeIdentityRecord, ProjectPermissionRecord, ProjectRecord, ServicePolicyRecord, SourceProviderConfigRecord, TenantRecord, UserRecord};
use crate::keyed::{agent_public_keys_key, cli_sessions_key, credentials_key, holds_keys, node_identities_key, project_permissions_key, projects_key, service_policy_records_key, source_provider_configs_key, tenants_key, users_key, well_keyed};
use crate::ids::{AgentId, Digest, NodeScopeKey, ProjectId, TenantId, UserId};
use crate::ordered::{OrderedKey, Ranked};
use crate::ordered_map::{OrderedMap, ascending, lemma_split, put, values};

verus! {

/// A table of the durable state.
#[derive(Clone, Copy, Debug)]
pub struct PostgresTable {
    pub name: &'static str,
    pub durable_record: &'static str,
    pub restart_surviving: bool,
}

/// The statements that make the tables, and that bring older ones to their present shape.
pub const POSTGRES_SCHEMA_SQL: &'static str = r#"
CREATE TABLE IF NOT EXISTS clusterflux_tenants (
    tenant_id TEXT PRIMARY KEY,
    record JSONB NOT NULL
);

CREATE TABLE IF NOT EXISTS clusterflux_users (
    user_id TEXT PRIMARY KEY,
    tenant_id TEXT NOT NULL REFERENCES clusterflux_tenants(tenant_id) ON DELETE CASCADE,
    record JSONB NOT NULL
);

CREATE TABLE IF NOT EXISTS clusterflux_projects (
    project_id TEXT PRIMARY KEY,
    tenant_id TEXT NOT NULL REFERENCES clusterflux_tenants(tenant_id) ON DELETE CASCADE,
    record JSONB NOT NULL
);

CREATE TABLE IF NOT EXISTS clusterflux_node_identities (
    tenant_id TEXT NOT NULL REFERENCES clusterflux_tenants(tenant_id) ON DELETE CASCADE,
    project_id TEXT NOT NULL REFERENCES clusterflux_projects(project_id) ON DELETE CASCADE,
    node_id TEXT NOT NULL,
    record JSONB NOT NULL,
    PRIMARY KEY (tenant_id, project_id, node_id)
);

DO $clusterflux_node_scope_migration$
DECLARE
    current_primary_key TEXT;
    current_primary_key_columns TEXT[];
BEGIN
    IF EXISTS (
        SELECT 1
        FROM clusterflux_node_identities
        WHERE record->>'id' IS DISTINCT FROM node_id
           OR record->>'tenant' IS DISTINCT FROM tenant_id
           OR record->>'project' IS DISTINCT FROM project_id
    ) THEN
        RAISE EXCEPTION
            'clusterflux node identity migration refused an internally inconsistent legacy row';
    END IF;

    SELECT
        constraint_record.conname,
        array_agg(attribute.attname ORDER BY key_column.ordinality)
    INTO current_primary_key, current_primary_key_columns
    FROM pg_constraint AS constraint_record
    CROSS JOIN LATERAL unnest(constraint_record.conkey)
        WITH ORDINALITY AS key_column(attribute_number, ordinality)
    JOIN pg_attribute AS attribute
      ON attribute.attrelid = constraint_record.conrelid
     AND attribute.attnum = key_column.attribute_number
    WHERE constraint_record.conrelid = 'clusterflux_node_identities'::regclass
      AND constraint_record.contype = 'p'
    GROUP BY constraint_record.conname;

    IF current_primary_key_columns = ARRAY['node_id']::TEXT[] THEN
        EXECUTE format(
            'ALTER TABLE clusterflux_node_identities DROP CONSTRAINT %I',
            current_primary_key
        );
        ALTER TABLE clusterflux_node_identities
            ADD PRIMARY KEY (tenant_id, project_id, node_id);
    ELSIF current_primary_key_columns
        IS DISTINCT FROM ARRAY['tenant_id', 'project_id', 'node_id']::TEXT[]
    THEN
        RAISE EXCEPTION
            'clusterflux node identity migration found an unexpected primary key shape';
    END IF;
END
$clusterflux_node_scope_migration$;

CREATE TABLE IF NOT EXISTS clusterflux_credentials (
    subject TEXT PRIMARY KEY,
    tenant_id TEXT NOT NULL REFERENCES clusterflux_tenants(tenant_id) ON DELETE CASCADE,
    project_id TEXT REFERENCES clusterflux_projects(project_id) ON DELETE CASCADE,
    record JSONB NOT NULL
);

DO $clusterflux_node_credential_migration$
BEGIN
    IF EXISTS (
        SELECT 1
        FROM clusterflux_credentials
        WHERE record->>'subject' IS DISTINCT FROM subject
           OR record->>'tenant' IS DISTINCT FROM tenant_id
           OR record->>'project' IS DISTINCT FROM project_id
    ) THEN
        RAISE EXCEPTION
            'clusterflux node credential migration refused an internally inconsistent legacy row';
    END IF;

    UPDATE clusterflux_credentials AS credential
    SET subject = format(
            'node:%s:%s:%s:%s:%s:%s',
            octet_length(identity.tenant_id),
            identity.tenant_id,
            octet_length(identity.project_id),
            identity.project_id,
            octet_length(identity.node_id),
            identity.node_id
        ),
        record = jsonb_set(
            credential.record,
            '{subject}',
            to_jsonb(format(
                'node:%s:%s:%s:%s:%s:%s',
                octet_length(identity.tenant_id),
                identity.tenant_id,
                octet_length(identity.project_id),
                identity.project_id,
                octet_length(identity.node_id),
                identity.node_id
            )),
            false
        )
    FROM clusterflux_node_identities AS identity
    WHERE credential.subject = 'node:' || identity.node_id
      AND credential.tenant_id = identity.tenant_id
      AND credential.project_id = identity.project_id;

    IF EXISTS (
        SELECT 1
        FROM clusterflux_credentials AS credential
        WHERE credential.subject LIKE 'node:%'
          AND NOT EXISTS (
              SELECT 1
              FROM clusterflux_node_identities AS identity
              WHERE credential.tenant_id = identity.tenant_id
                AND credential.project_id = identity.project_id
                AND credential.subject = format(
                    'node:%s:%s:%s:%s:%s:%s',
                    octet_length(identity.tenant_id),
                    identity.tenant_id,
                    octet_length(identity.project_id),
                    identity.project_id,
                    octet_length(identity.node_id),
                    identity.node_id
                )
          )
    ) THEN
        RAISE EXCEPTION
            'clusterflux node credential migration found an unscoped or orphaned node subject';
    END IF;
END
$clusterflux_node_credential_migration$;

CREATE TABLE IF NOT EXISTS clusterflux_cli_sessions (
    session_digest TEXT PRIMARY KEY,
    tenant_id TEXT NOT NULL REFERENCES clusterflux_tenants(tenant_id) ON DELETE CASCADE,
    project_id TEXT NOT NULL REFERENCES clusterflux_projects(project_id) ON DELETE CASCADE,
    user_id TEXT NOT NULL REFERENCES clusterflux_users(user_id) ON DELETE CASCADE,
    record JSONB NOT NULL
);

CREATE TABLE IF NOT EXISTS clusterflux_agent_public_keys (
    tenant_id TEXT NOT NULL REFERENCES clusterflux_tenants(tenant_id) ON DELETE CASCADE,
    project_id TEXT NOT NULL REFERENCES clusterflux_projects(project_id) ON DELETE CASCADE,
    user_id TEXT NOT NULL REFERENCES clusterflux_users(user_id) ON DELETE CASCADE,
    agent_id TEXT NOT NULL,
    record JSONB NOT NULL,
    PRIMARY KEY (tenant_id, project_id, agent_id)
);

CREATE TABLE IF NOT EXISTS clusterflux_source_provider_configs (
    tenant_id TEXT NOT NULL REFERENCES clusterflux_tenants(tenant_id) ON DELETE CASCADE,
    project_id TEXT NOT NULL REFERENCES clusterflux_projects(project_id) ON DELETE CASCADE,
    provider_key TEXT NOT NULL,
    record JSONB NOT NULL,
    PRIMARY KEY (tenant_id, project_id, provider_key)
);

CREATE TABLE IF NOT EXISTS clusterflux_service_policy_records (
    tenant_id TEXT NOT NULL REFERENCES clusterflux_tenants(tenant_id) ON DELETE CASCADE,
    name TEXT NOT NULL,
    record JSONB NOT NULL,
    PRIMARY KEY (tenant_id, name)
);

CREATE TABLE IF NOT EXISTS clusterflux_project_permissions (
    tenant_id TEXT NOT NULL REFERENCES clusterflux_tenants(tenant_id) ON DELETE CASCADE,
    project_id TEXT NOT NULL REFERENCES clusterflux_projects(project_id) ON DELETE CASCADE,
    user_id TEXT NOT NULL REFERENCES clusterflux_users(user_id) ON DELETE CASCADE,
    record JSONB NOT NULL,
    PRIMARY KEY (tenant_id, project_id, user_id)
);

CREATE TABLE IF NOT EXISTS clusterflux_automation_state (
    state_name TEXT PRIMARY KEY,
    record JSONB NOT NULL
);

CREATE TABLE IF NOT EXISTS clusterflux_hosted_admin_state (
    state_name TEXT PRIMARY KEY,
    record JSONB NOT NULL
);
"#;

/// The store that keeps the durable state in tables.
pub struct PostgresDurableStore {}

/// The names of the tables, and what each of them holds.
pub open spec fn table_names() -> Seq<(Seq<char>, Seq<char>)> {
    seq![
        ("clusterflux_tenants"@, "tenants"@),
        ("clusterflux_users"@, "users"@),
        ("clusterflux_projects"@, "projects"@),
        ("clusterflux_node_identities"@, "node identities"@),
        ("clusterflux_credentials"@, "credentials"@),
        ("clusterflux_cli_sessions"@, "CLI sessions"@),
        ("clusterflux_agent_public_keys"@, "agent public keys"@),
        ("clusterflux_source_provider_configs"@, "source-provider configuration"@),
        ("clusterflux_service_policy_records"@, "durable service policy records"@),
        ("clusterflux_project_permissions"@, "explicit project permissions"@),
        ("clusterflux_automation_state"@, "trigger, run, environment, and encrypted secret state"@),
        ("clusterflux_hosted_admin_state"@, "bounded tenant quota overrides and hosted admin audit"@),
    ]
}

impl PostgresDurableStore {
    /// The statements that make the tables.
    pub fn schema_sql() -> (r: &'static str)
        ensures
            r@ == POSTGRES_SCHEMA_SQL@,
    {
        POSTGRES_SCHEMA_SQL
    }

    /// The tables. All of them hold what survives a restart.
    pub fn durable_tables() -> (r: Vec<PostgresTable>)
        ensures
            r@.len() == table_names().len(),
            forall|i: int|
                0 <= i < r@.len() ==> ((#[trigger] r@[i]).name@, r@[i].durable_record@)
                    == table_names()[i] && r@[i].restart_surviving,
    {
        let mut tables: Vec<PostgresTable> = Vec::new();
        tables.push(
            PostgresTable {
                name: "clusterflux_tenants",
                durable_record: "tenants",
                restart_surviving: true,
            },
        );
        tables.push(
            PostgresTable {
                name: "clusterflux_users",
                durable_record: "users",
                restart_surviving: true,
            },
        );
        tables.push(
            PostgresTable {
                name: "clusterflux_projects",
                durable_record: "projects",
                restart_surviving: true,
            },
        );
        tables.push(
            PostgresTable {
                name: "clusterflux_node_identities",
                durable_record: "node identities",
                restart_surviving: true,
            },
        );
        tables.push(
            PostgresTable {
                name: "clusterflux_credentials",
                durable_record: "credentials",
                restart_surviving: true,
            },
        );
        tables.push(
            PostgresTable {
                name: "clusterflux_cli_sessions",
                durable_record: "CLI sessions",
                restart_surviving: true,
            },
        );
        tables.push(
            PostgresTable {
                name: "clusterflux_agent_public_keys",
                durable_record: "agent public keys",
                restart_surviving: true,
            },
        );
        tables.push(
            PostgresTable {
                name: "clusterflux_source_provider_configs",
                durable_record: "source-provider configuration",
                restart_surviving: true,
            },
        );
        tables.push(
            PostgresTable {
                name: "clusterflux_service_policy_records",
                durable_record: "durable service policy records",
                restart_surviving: true,
            },
        );
        tables.push(
            PostgresTable {
                name: "clusterflux_project_permissions",
                durable_record: "explicit project permissions",
                restart_surviving: true,
            },
        );
        tables.push(
            PostgresTable {
                name: "clusterflux_automation_state",
                durable_record: "trigger, run, environment, and encrypted secret state",
                restart_surviving: true,
            },
        );
        tables.push(
            PostgresTable {
                name: "clusterflux_hosted_admin_state",
                durable_record: "bounded tenant quota overrides and hosted admin audit",
                restart_surviving: true,
            },
        );
        tables
    }
}

/// The rows of each table.
pub struct DurableRows {
    pub tenants: Vec<TenantRecord>,
    pub users: Vec<UserRecord>,
    pub projects: Vec<ProjectRecord>,
    pub node_identities: Vec<NodeIdentityRecord>,
    pub credentials: Vec<CredentialRecord>,
    pub cli_sessions: Vec<CliSessionRecord>,
    pub agent_public_keys: Vec<AgentPublicKeyRecord>,
    pub source_provider_configs: Vec<SourceProviderConfigRecord>,
    pub service_policy_records: Vec<ServicePolicyRecord>,
    pub project_permissions: Vec<ProjectPermissionRecord>,
    pub automation: Option<AutomationState>,
    pub hosted_admin: Option<HostedAdminDurableState>,
}

/// The model of [`DurableRows`].
#[verifier::ext_equal]
pub struct DurableRowsModel {
    pub tenants: Seq<TenantRecord>,
    pub users: Seq<UserRecord>,
    pub projects: Seq<ProjectRecord>,
    pub node_identities: Seq<NodeIdentityRecord>,
    pub credentials: Seq<CredentialRecord>,
    pub cli_sessions: Seq<CliSessionRecord>,
    pub agent_public_keys: Seq<AgentPublicKeyRecordModel>,
    pub source_provider_configs: Seq<SourceProviderConfigRecord>,
    pub service_policy_records: Seq<ServicePolicyRecord>,
    pub project_permissions: Seq<ProjectPermissionRecord>,
    pub automation: Option<AutomationStateModel>,
    pub hosted_admin: Option<HostedAdminDurableStateModel>,
}

impl View for DurableRows {
    type V = DurableRowsModel;

    open spec fn view(&self) -> DurableRowsModel {
        DurableRowsModel {
            tenants: views(self.tenants@),
            users: views(self.users@),
            projects: views(self.projects@),
            node_identities: views(self.node_identities@),
            credentials: views(self.credentials@),
            cli_sessions: views(self.cli_sessions@),
            agent_public_keys: views(self.agent_public_keys@),
            source_provider_configs: views(self.source_provider_configs@),
            service_policy_records: views(self.service_policy_records@),
            project_permissions: views(self.project_permissions@),
            automation: option_view(self.automation),
            hosted_admin: option_view(self.hosted_admin),
        }
    }
}

/// The entries that rows make, each under the key that it holds, a later one in place of an earlier
/// one.
pub open spec fn entries_of<M: Ranked, X>(rows: Seq<X>, key: spec_fn(X) -> M) -> Seq<(M, X)>
    decreases rows.len(),
{
    if rows.len() == 0 {
        Seq::empty()
    } else {
        put(entries_of(rows.drop_last(), key), key(rows.last()), rows.last())
    }
}

/// The key of a row.
pub open spec fn keys_rows<V: View, K: OrderedKey, F: Fn(&V) -> K>(key_of: F, key: spec_fn(V::V) -> K::M) -> bool {
    &&& forall|v: &V| #[trigger] key_of.requires((v,))
    &&& forall|v: &V, k: K| #[trigger] key_of.ensures((v,), k) ==> k.key() == key(v@)
}

fn load_rows<K: OrderedKey, V: Duplicate, F: Fn(&V) -> K>(rows: &Vec<V>, key_of: F, Ghost(key): Ghost<
    spec_fn(V::V) -> K::M,
>) -> (r: OrderedMap<K, V>)
    requires
        keys_rows(key_of, key),
    ensures
        r@ == entries_of(views(rows@), key),
{
    let ghost all = views(rows@);
    let mut map: OrderedMap<K, V> = OrderedMap::new();
    let mut i: usize = 0;
    while i < rows.len()
        invariant
            0 <= i <= rows@.len(),
            all == views(rows@),
            keys_rows(key_of, key),
            map@ == entries_of(all.take(i as int), key),
        decreases rows@.len() - i,
    {
        let row: V = rows[i].duplicate();
        let k: K = key_of(&row);
        assert(all.take(i + 1).drop_last() =~= all.take(i as int));
        assert(all.take(i + 1).last() == row@);
        map.insert(k, row);
        i = i + 1;
    }
    assert(all.take(all.len() as int) =~= all);
    map
}

fn store_rows<K: OrderedKey, V: Duplicate>(map: &OrderedMap<K, V>) -> (r: Vec<V>)
    ensures
        views(r@) == values(map@),
{
    let ghost all = values(map@);
    let mut rows: Vec<V> = Vec::new();
    let mut i: usize = 0;
    assert(views(rows@) =~= all.take(0));
    while i < map.len()
        invariant
            0 <= i <= map@.len(),
            all == values(map@),
            views(rows@) == all.take(i as int),
        decreases map@.len() - i,
    {
        let row: V = map.value_at(i).duplicate();
        let ghost known = rows@;
        rows.push(row);
        assert(views(rows@) =~= views(known).push(row@));
        assert(all.take(i + 1) =~= all.take(i as int).push(all[i as int]));
        i = i + 1;
    }
    assert(all.take(all.len() as int) =~= all);
    rows
}

/// The rows that a state is stored as.
pub open spec fn rows_of(s: DurableStateModel) -> DurableRowsModel {
    DurableRowsModel {
        tenants: values(s.tenants),
        users: values(s.users),
        projects: values(s.projects),
        node_identities: values(s.node_identities),
        credentials: values(s.credentials),
        cli_sessions: values(s.cli_sessions),
        agent_public_keys: values(s.agent_public_keys),
        source_provider_configs: values(s.source_provider_configs),
        service_policy_records: values(s.service_policy_records),
        project_permissions: values(s.project_permissions),
        automation: Some(s.automation),
        hosted_admin: Some(s.hosted_admin),
    }
}

/// The state that rows make, over one without records.
pub open spec fn is_state_of(s: DurableStateModel, rows: DurableRowsModel) -> bool {
    &&& s.tenants == entries_of(rows.tenants, tenants_key())
    &&& s.users == entries_of(rows.users, users_key())
    &&& s.projects == entries_of(rows.projects, projects_key())
    &&& s.node_identities == entries_of(rows.node_identities, node_identities_key())
    &&& s.credentials == entries_of(rows.credentials, credentials_key())
    &&& s.cli_sessions == entries_of(rows.cli_sessions, cli_sessions_key())
    &&& s.agent_public_keys == entries_of(rows.agent_public_keys, agent_public_keys_key())
    &&& s.source_provider_configs == entries_of(rows.source_provider_configs, source_provider_configs_key())
    &&& s.service_policy_records == entries_of(rows.service_policy_records, service_policy_records_key())
    &&& s.project_permissions == entries_of(rows.project_permissions, project_permissions_key())
    &&& match rows.automation {
        Some(automation) => s.automation == automation,
        None => s.automation.is_empty(),
    }
    &&& match rows.hosted_admin {
        Some(hosted_admin) => s.hosted_admin == hosted_admin,
        None => {
            &&& s.hosted_admin.tenant_quota_overrides.len() == 0
            &&& s.hosted_admin.audit.len() == 0
            &&& s.hosted_admin.next_audit_sequence == 0
        },
    }
}

/// The rows that a state is stored as.
pub fn durable_rows(state: &DurableState) -> (r: DurableRows)
    ensures
        r@ == rows_of(state@),
{
    DurableRows {
        tenants: store_rows(&state.tenants),
        users: store_rows(&state.users),
        projects: store_rows(&state.projects),
        node_identities: store_rows(&state.node_identities),
        credentials: store_rows(&state.credentials),
        cli_sessions: store_rows(&state.cli_sessions),
        agent_public_keys: store_rows(&state.agent_public_keys),
        source_provider_configs: store_rows(&state.source_provider_configs),
        service_policy_records: store_rows(&state.service_policy_records),
        project_permissions: store_rows(&state.project_permissions),
        automation: Some(state.automation.duplicate()),
        hosted_admin: Some(state.hosted_admin.duplicate()),
    }
}

/// The state that rows make.
pub fn state_from_rows(rows: &DurableRows) -> (r: DurableState)
    ensures
        is_state_of(r@, rows@),
{
    let mut state: DurableState = DurableState::empty();
    let ghost tenants_k = tenants_key();
    let tenants_of = |record: &TenantRecord| -> (k: TenantId)
        ensures
            k.key() == tenants_k(record@),
        { record.id.clone() };
    state.tenants = load_rows(&rows.tenants, tenants_of, Ghost(tenants_k));
    let ghost users_k = users_key();
    let users_of = |record: &UserRecord| -> (k: UserId)
        ensures
            k.key() == users_k(record@),
        { record.id.clone() };
    state.users = load_rows(&rows.users, users_of, Ghost(users_k));
    let ghost projects_k = projects_key();
    let projects_of = |record: &ProjectRecord| -> (k: ProjectId)
        ensures
            k.key() == projects_k(record@),
        { record.id.clone() };
    state.projects = load_rows(&rows.projects, projects_of, Ghost(projects_k));
    let ghost node_identities_k = node_identities_key();
    let node_identities_of = |record: &NodeIdentityRecord| -> (k: NodeScopeKey)
        ensures
            k.key() == node_identities_k(record@),
        { NodeScopeKey::from_refs(&record.tenant, &record.project, &record.id) };
    state.node_identities = load_rows(&rows.node_identities, node_identities_of, Ghost(node_identities_k));
    let ghost credentials_k = credentials_key();
    let credentials_of = |record: &CredentialRecord| -> (k: String)
        ensures
            k.key() == credentials_k(record@),
        { record.subject.clone() };
    state.credentials = load_rows(&rows.credentials, credentials_of, Ghost(credentials_k));
    let ghost cli_sessions_k = cli_sessions_key();
    let cli_sessions_of = |record: &CliSessionRecord| -> (k: Digest)
        ensures
            k.key() == cli_sessions_k(record@),
        { record.session_digest.clone() };
    state.cli_sessions = load_rows(&rows.cli_sessions, cli_sessions_of, Ghost(cli_sessions_k));
    let ghost agent_public_keys_k = agent_public_keys_key();
    let agent_public_keys_of = |record: &AgentPublicKeyRecord| -> (k: (TenantId, ProjectId, AgentId))
        ensures
            k.key() == agent_public_keys_k(record@),
        { (record.tenant.clone(), record.project.clone(), record.agent.clone()) };
    state.agent_public_keys = load_rows(&rows.agent_public_keys, agent_public_keys_of, Ghost(agent_public_keys_k));
    let ghost source_provider_configs_k = source_provider_configs_key();
    let source_provider_configs_of = |record: &SourceProviderConfigRecord| -> (k: (TenantId, ProjectId, String))
        ensures
            k.key() == source_provider_configs_k(record@),
        { (record.tenant.clone(), record.project.clone(), record.provider.clone()) };
    state.source_provider_configs = load_rows(&rows.source_provider_configs, source_provider_configs_of, Ghost(source_provider_configs_k));
    let ghost service_policy_records_k = service_policy_records_key();
    let service_policy_records_of = |record: &ServicePolicyRecord| -> (k: (TenantId, String))
        ensures
            k.key() == service_policy_records_k(record@),
        { (record.tenant.clone(), record.name.clone()) };
    state.service_policy_records = load_rows(&rows.service_policy_records, service_policy_records_of, Ghost(service_policy_records_k));
    let ghost project_permissions_k = project_permissions_key();
    let project_permissions_of = |record: &ProjectPermissionRecord| -> (k: (TenantId, ProjectId, UserId))
        ensures
            k.key() == project_permissions_k(record@),
        { (record.tenant.clone(), record.project.clone(), record.user.clone()) };
    state.project_permissions = load_rows(&rows.project_permissions, project_permissions_of, Ghost(project_permissions_k));
    match copy_option(&rows.automation) {
        Some(automation) => {
            state.automation = automation;
        },
        None => {},
    }
    match copy_option(&rows.hosted_admin) {
        Some(hosted_admin) => {
            state.hosted_admin = hosted_admin;
        },
        None => {},
    }
    state
}

proof fn lemma_put_last<M: Ranked, X>(s: Seq<(M, X)>, k: M, x: X)
    requires
        forall|i: int| 0 <= i < s.len() ==> (#[trigger] s[i]).0.before(k),
    ensures
        put(s, k, x) == s.push((k, x)),
{
    reveal(put);
    lemma_split(s, k, s.len() as int, s.len() as int);
    assert(s.take(s.len() as int) =~= s);
    assert(s.skip(s.len() as int) =~= Seq::empty());
    assert(s.push((k, x)) + Seq::empty() =~= s.push((k, x)));
}

proof fn lemma_entries<M: Ranked, X>(s: Seq<(M, X)>, key: spec_fn(X) -> M, n: int)
    requires
        ascending(s),
        holds_keys(s, key),
        0 <= n <= s.len(),
    ensures
        entries_of(values(s).take(n), key) == s.take(n),
    decreases n,
{
    let rows = values(s).take(n);
    if n == 0 {
        assert(entries_of(rows, key) =~= s.take(0));
    } else {
        lemma_entries(s, key, n - 1);
        assert(rows.drop_last() =~= values(s).take(n - 1));
        assert(rows.last() == s[n - 1].1);
        let before = s.take(n - 1);
        assert forall|i: int| 0 <= i < before.len() implies (#[trigger] before[i]).0.before(
            s[n - 1].0,
        ) by {
            reveal(ascending);
            assert(s[i].0.before(s[n - 1].0));
        }
        lemma_put_last(before, s[n - 1].0, s[n - 1].1);
        assert(s.take(n) =~= before.push(s[n - 1]));
    }
}

/// What was stored is what is loaded: the rows of a state make that state again, where each record
/// stands under the key that it holds.
pub proof fn stored_state_is_loaded(s: DurableStateModel, loaded: DurableStateModel)
    requires
        well_keyed(s),
        is_state_of(loaded, rows_of(s)),
    ensures
        loaded == s,
{
    lemma_entries(s.tenants, tenants_key(), s.tenants.len() as int);
    assert(values(s.tenants).take(s.tenants.len() as int) =~= values(s.tenants));
    assert(s.tenants.take(s.tenants.len() as int) =~= s.tenants);
    lemma_entries(s.users, users_key(), s.users.len() as int);
    assert(values(s.users).take(s.users.len() as int) =~= values(s.users));
    assert(s.users.take(s.users.len() as int) =~= s.users);
    lemma_entries(s.projects, projects_key(), s.projects.len() as int);
    assert(values(s.projects).take(s.projects.len() as int) =~= values(s.projects));
    assert(s.projects.take(s.projects.len() as int) =~= s.projects);
    lemma_entries(s.node_identities, node_identities_key(), s.node_identities.len() as int);
    assert(values(s.node_identities).take(s.node_identities.len() as int) =~= values(s.node_identities));
    assert(s.node_identities.take(s.node_identities.len() as int) =~= s.node_identities);
    lemma_entries(s.credentials, credentials_key(), s.credentials.len() as int);
    assert(values(s.credentials).take(s.credentials.len() as int) =~= values(s.credentials));
    assert(s.credentials.take(s.credentials.len() as int) =~= s.credentials);
    lemma_entries(s.cli_sessions, cli_sessions_key(), s.cli_sessions.len() as int);
    assert(values(s.cli_sessions).take(s.cli_sessions.len() as int) =~= values(s.cli_sessions));
    assert(s.cli_sessions.take(s.cli_sessions.len() as int) =~= s.cli_sessions);
    lemma_entries(s.agent_public_keys, agent_public_keys_key(), s.agent_public_keys.len() as int);
    assert(values(s.agent_public_keys).take(s.agent_public_keys.len() as int) =~= values(s.agent_public_keys));
    assert(s.agent_public_keys.take(s.agent_public_keys.len() as int) =~= s.agent_public_keys);
    lemma_entries(s.source_provider_configs, source_provider_configs_key(), s.source_provider_configs.len() as int);
    assert(values(s.source_provider_configs).take(s.source_provider_configs.len() as int) =~= values(s.source_provider_configs));
    assert(s.source_provider_configs.take(s.source_provider_configs.len() as int) =~= s.source_provider_configs);
    lemma_entries(s.service_policy_records, service_policy_records_key(), s.service_policy_records.len() as int);
    assert(values(s.service_policy_records).take(s.service_policy_records.len() as int) =~= values(s.service_policy_records));
    assert(s.service_policy_records.take(s.service_policy_records.len() as int) =~= s.service_policy_records);
    lemma_entries(s.project_permissions, project_permissions_key(), s.project_permissions.len() as int);
    assert(values(s.project_permissions).take(s.project_permissions.len() as int) =~= values(s.project_permissions));
    assert(s.project_permissions.take(s.project_permissions.len() as int) =~= s.project_permissions);
    assert(loaded =~= s);
}

} // verus!
