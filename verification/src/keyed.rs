//! Records that stand under the keys that they hold.
use vstd::prelude::*;

use crate::durable::{AgentPublicKeyRecordModel, CliSessionRecord, CredentialRecord, DurableStateModel, NodeIdentityRecord, ProjectPermissionRecord, ProjectRecord, ServicePolicyRecord, SourceProviderConfigRecord, TenantRecord, UserRecord};
use crate::ids::ScopeText;
use crate::ordered::Ranked;
use crate::ordered_map::{ascending, delete, lemma_delete_ascending, lemma_lookup_at, lemma_lookup_delete, lemma_lookup_found, lemma_lookup_put, lemma_put_ascending, lookup, put};

verus! {

/// The key that a record holds, of the tenants.
pub open spec fn tenants_key() -> spec_fn(TenantRecord) -> Seq<char> {
    |r: TenantRecord| r.id@
}

/// The key that a record holds, of the users.
pub open spec fn users_key() -> spec_fn(UserRecord) -> Seq<char> {
    |r: UserRecord| r.id@
}

/// The key that a record holds, of the projects.
pub open spec fn projects_key() -> spec_fn(ProjectRecord) -> Seq<char> {
    |r: ProjectRecord| r.id@
}

/// The key that a record holds, of the node identities.
pub open spec fn node_identities_key() -> spec_fn(NodeIdentityRecord) -> ScopeText {
    |r: NodeIdentityRecord| (r.tenant@, r.project@, r.id@)
}

/// The key that a record holds, of the credentials.
pub open spec fn credentials_key() -> spec_fn(CredentialRecord) -> Seq<char> {
    |r: CredentialRecord| r.subject@
}

/// The key that a record holds, of the CLI sessions.
pub open spec fn cli_sessions_key() -> spec_fn(CliSessionRecord) -> Seq<char> {
    |r: CliSessionRecord| r.session_digest@
}

/// The key that a record holds, of the agent public keys.
pub open spec fn agent_public_keys_key() -> spec_fn(AgentPublicKeyRecordModel) -> ScopeText {
    |r: AgentPublicKeyRecordModel| (r.tenant@, r.project@, r.agent@)
}

/// The key that a record holds, of the source provider configs.
pub open spec fn source_provider_configs_key() -> spec_fn(SourceProviderConfigRecord) -> ScopeText {
    |r: SourceProviderConfigRecord| (r.tenant@, r.project@, r.provider@)
}

/// The key that a record holds, of the service policy records.
pub open spec fn service_policy_records_key() -> spec_fn(ServicePolicyRecord) -> (Seq<char>, Seq<char>) {
    |r: ServicePolicyRecord| (r.tenant@, r.name@)
}

/// The key that a record holds, of the project permissions.
pub open spec fn project_permissions_key() -> spec_fn(ProjectPermissionRecord) -> ScopeText {
    |r: ProjectPermissionRecord| (r.tenant@, r.project@, r.user@)
}

/// Each entry stands under the key that it holds.
pub open spec fn holds_keys<M, X>(s: Seq<(M, X)>, key: spec_fn(X) -> M) -> bool {
    forall|i: int| 0 <= i < s.len() ==> (#[trigger] s[i]).0 == key(s[i].1)
}

/// Each record of a state stands under the key that it holds.
pub open spec fn well_keyed(s: DurableStateModel) -> bool {
    &&& ascending(s.tenants) && holds_keys(s.tenants, tenants_key())
    &&& ascending(s.users) && holds_keys(s.users, users_key())
    &&& ascending(s.projects) && holds_keys(s.projects, projects_key())
    &&& ascending(s.node_identities) && holds_keys(s.node_identities, node_identities_key())
    &&& ascending(s.credentials) && holds_keys(s.credentials, credentials_key())
    &&& ascending(s.cli_sessions) && holds_keys(s.cli_sessions, cli_sessions_key())
    &&& ascending(s.agent_public_keys) && holds_keys(s.agent_public_keys, agent_public_keys_key())
    &&& ascending(s.source_provider_configs) && holds_keys(s.source_provider_configs, source_provider_configs_key())
    &&& ascending(s.service_policy_records) && holds_keys(s.service_policy_records, service_policy_records_key())
    &&& ascending(s.project_permissions) && holds_keys(s.project_permissions, project_permissions_key())
}

/// What is found under a key holds that key.
pub broadcast proof fn lemma_found_holds_key<M: Ranked, X>(s: Seq<(M, X)>, k: M, key: spec_fn(X) -> M)
    requires
        ascending(s),
        #[trigger] holds_keys(s, key),
    ensures
        (#[trigger] lookup(s, k)) matches Some(x) ==> key(x) == k,
{
    lemma_lookup_found(s, k);
    if lookup(s, k) is Some {
        let i = choose|i: int| 0 <= i < s.len() && (#[trigger] s[i]).0 == k;
        lemma_lookup_at(s, i);
    }
}

proof fn lemma_lookups_hold_keys<M: Ranked, X>(s: Seq<(M, X)>, key: spec_fn(X) -> M)
    requires
        ascending(s),
        forall|k: M| (#[trigger] lookup(s, k)) matches Some(x) ==> key(x) == k,
    ensures
        holds_keys(s, key),
{
    assert forall|i: int| 0 <= i < s.len() implies (#[trigger] s[i]).0 == key(s[i].1) by {
        lemma_lookup_at(s, i);
        assert(lookup(s, s[i].0) is Some);
    }
}

/// A record that is put under the key that it holds leaves every record under its key.
pub broadcast proof fn lemma_put_holds_keys<M: Ranked, X>(s: Seq<(M, X)>, k: M, x: X, key: spec_fn(X) -> M)
    requires
        ascending(s),
        holds_keys(s, key),
        key(x) == k,
    ensures
        ascending(put(s, k, x)),
        #[trigger] holds_keys(put(s, k, x), key),
{
    broadcast use lemma_found_holds_key, lemma_lookup_put;

    lemma_put_ascending(s, k, x);
    lemma_lookups_hold_keys(put(s, k, x), key);
}

/// A record that is taken away leaves every other record under its key.
pub broadcast proof fn lemma_delete_holds_keys<M: Ranked, X>(s: Seq<(M, X)>, k: M, key: spec_fn(X) -> M)
    requires
        ascending(s),
        holds_keys(s, key),
    ensures
        ascending(delete(s, k)),
        #[trigger] holds_keys(delete(s, k), key),
{
    broadcast use lemma_found_holds_key, lemma_lookup_delete;

    lemma_delete_ascending(s, k);
    lemma_lookups_hold_keys(delete(s, k), key);
}

/// Records that are selected stand under their keys as before.
pub proof fn lemma_filter_holds_keys<M: Ranked, X>(s: Seq<(M, X)>, p: spec_fn((M, X)) -> bool, key: spec_fn(X) -> M)
    requires
        holds_keys(s, key),
    ensures
        holds_keys(s.filter(p), key),
{
    let left = s.filter(p);
    assert forall|i: int| 0 <= i < left.len() implies (#[trigger] left[i]).0 == key(left[i].1) by {
        assert(left.contains(left[i]));
        s.lemma_filter_contains_rev(p, left[i]);
        let j = choose|j: int| 0 <= j < s.len() && s[j] == left[i];
        assert(s[j].0 == key(s[j].1));
    }
}

/// A state without records has none under another key.
pub proof fn empty_states_are_well_keyed(s: DurableStateModel)
    requires
        s.is_empty(),
    ensures
        well_keyed(s),
{
    reveal(ascending);
}

} // verus!
