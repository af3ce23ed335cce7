//! Who may do what: users, nodes, agents and operators have the rights that they were given, until those are
//! taken back.
use vstd::prelude::*;

use crate::admin::{ReplayAdmission, account_suspended, is_suspension, quota_refusal, request_refusal, sessions_closed, with_suspension};
use crate::coordinator::{ActiveProcess, CoordinatorError, CoordinatorModel, EnrollmentError, NodeCredential, account_active, account_status, agent_authorized, agent_registered, agent_revoked, debug_attach_reason, launch_rolled_back, node_enrolled, node_revoked, quota_replaced, reconnected};
use crate::durable::{AgentPublicKeyRecord, DurableStateModel, HostedAdminAuditRecord, NodeIdentityRecord, ServicePolicyRecord, TenantQuotaOverrideValues};
use crate::ids::{Actor, AgentId, AuthContext, Digest, NodeId, ProcessId, ProjectId, ScopeText, TenantId, UserId, node_subject};
use crate::ordered_map::{ascending, bound_at, lemma_lookup_at, lemma_lookup_delete, lemma_lookup_found, lemma_lookup_put, lemma_same_keys, lookup};
use crate::text::{byte_len, trimmed};

verus! {

/// An agent whose key was registered may run the project, with that key and while the request is recent. The
/// key replaces the one before it, and that of no other agent.
pub proof fn a_registered_agent_may_run(
    before: CoordinatorModel,
    after: CoordinatorModel,
    tenant: TenantId,
    project: ProjectId,
    user: UserId,
    agent: AgentId,
    public_key: String,
    fingerprint: Digest,
    record: AgentPublicKeyRecord,
    shown: Option<Digest>,
    issued_at: u64,
    now: u64,
    verified: Result<(), String>,
    r: Result<AgentPublicKeyRecord, CoordinatorError>,
    other: ScopeText,
)
    requires
        ascending(before.durable.agent_public_keys),
        agent_registered(
            before,
            after,
            tenant,
            project,
            user,
            agent,
            public_key,
            fingerprint,
            record,
        ),
        agent_authorized(
            after,
            (tenant@, project@, agent@),
            shown,
            issued_at,
            now,
            verified,
            r,
        ),
    ensures
        r is Ok <==> verified is Ok && now - 300 <= issued_at <= now + 300 && (shown is Some
            ==> shown->Some_0@ == fingerprint@),
        r matches Ok(found) ==> found@ == record@,
        record@.public_key == public_key && record@.user == user && !record@.revoked,
        record@.version >= 1,
        lookup(before.durable.agent_public_keys, (tenant@, project@, agent@)) matches Some(earlier)
            ==> record@.version > earlier.version || earlier.version == u64::MAX,
        !record@.human_account_creation_privilege,
        !record@.browser_interaction_required_each_run,
        record@.scopes.len() == 2 && record@.scopes[0] == "project:read"@ && record@.scopes[1]
            == "project:run"@,
        ({
            let subject = "agent:"@ + tenant@ + ":"@ + project@ + ":"@ + agent@;
            &&& lookup(after.durable.credentials, subject) matches Some(kept)
            &&& kept.subject@ == subject && kept.tenant == tenant && kept.project == Some(project)
            &&& kept.kind is PublicKey && kept.public_key_fingerprint == Some(fingerprint)
        }),
        other != (tenant@, project@, agent@) ==> lookup(after.durable.agent_public_keys, other)
            == lookup(before.durable.agent_public_keys, other),
{
    broadcast use lemma_lookup_put;

    let scopes = seq!["project:read"@, "project:run"@];
    assert(scopes[1] == "project:run"@);
    assert(record@.scopes.contains("project:run"@));
}

/// An agent whose key was revoked may not run the project, whatever it shows. Only the user who registered the
/// key revokes it, and every other agent keeps its own.
pub proof fn a_revoked_agent_may_not_run(
    before: CoordinatorModel,
    after: CoordinatorModel,
    context: AuthContext,
    agent: Seq<char>,
    revoked: Result<AgentPublicKeyRecord, CoordinatorError>,
    shown: Option<Digest>,
    issued_at: u64,
    now: u64,
    verified: Result<(), String>,
    r: Result<AgentPublicKeyRecord, CoordinatorError>,
    other: ScopeText,
)
    requires
        ascending(before.durable.agent_public_keys),
        agent_revoked(before, after, context, agent, revoked),
        agent_authorized(
            after,
            (context.tenant@, context.project@, agent),
            shown,
            issued_at,
            now,
            verified,
            r,
        ),
    ensures
        revoked is Ok ==> r is Err,
        revoked is Ok <==> (lookup(
            before.durable.agent_public_keys,
            (context.tenant@, context.project@, agent),
        ) matches Some(known) && (context.actor matches Actor::User(user) && user@ == known.user@)),
        revoked is Err ==> after == before,
        other != (context.tenant@, context.project@, agent) ==> lookup(
            after.durable.agent_public_keys,
            other,
        ) == lookup(before.durable.agent_public_keys, other),
{
    broadcast use lemma_lookup_put;

}

/// A node that exchanges a grant is enrolled in the project of the grant, with the key that it showed. One
/// whose exchange failed is not, and no other node changes.
pub proof fn a_grant_enrolls_its_node(
    before: CoordinatorModel,
    after: CoordinatorModel,
    exchanged: Result<NodeCredential, EnrollmentError>,
    node: NodeId,
    public_key: String,
    r: Result<NodeCredential, CoordinatorError>,
    other: ScopeText,
)
    requires
        ascending(before.durable.node_identities),
        node_enrolled(before, after, exchanged, node, public_key, r),
    ensures
        r is Ok <==> exchanged is Ok,
        r is Err ==> after == before,
        r matches Ok(credential) ==> {
            let scope = (credential.tenant@, credential.project@, node@);
            &&& lookup(after.durable.node_identities, scope) matches Some(identity)
            &&& identity.public_key == public_key && identity.id == node
            &&& identity.tenant == credential.tenant && identity.project == credential.project
            &&& identity.enrollment_scope == credential.scope
            &&& identity.last_seen_epoch_seconds is None
            &&& lookup(after.durable.credentials, node_subject(scope)) matches Some(kept)
            &&& kept.public_key_fingerprint == Some(credential.public_key_fingerprint)
            &&& kept.tenant == credential.tenant && kept.project == Some(credential.project)
            &&& kept.subject@ == node_subject(scope) && kept.kind == credential.credential_kind
            &&& other != scope ==> lookup(after.durable.node_identities, other) == lookup(
                before.durable.node_identities,
                other,
            )
        },
{
    broadcast use lemma_lookup_put;

}

/// A node whose credential was revoked is connected to no process of the project, can no longer connect, and
/// is still connected to those of other projects.
pub proof fn a_revoked_node_is_disconnected(
    before: CoordinatorModel,
    after: CoordinatorModel,
    context: AuthContext,
    node: Seq<char>,
    r: Result<NodeIdentityRecord, CoordinatorError>,
    i: int,
    other: Seq<char>,
    last: CoordinatorModel,
    process: Option<(&ProcessId, u64)>,
    again: Result<(), CoordinatorError>,
)
    requires
        ascending(before.durable.node_identities),
        node_revoked(before, after, context, node, r),
        r is Ok,
        0 <= i < before.active_processes.len(),
        reconnected(after, last, context.tenant@, context.project@, node, process, again),
    ensures
        context.actor is User,
        again is Err,
        after.active_processes.len() == before.active_processes.len(),
        ({
            let was = before.active_processes[i].1;
            let next = after.active_processes[i].1;
            let here = was.tenant@ == context.tenant@ && was.project@ == context.project@;
            &&& after.active_processes[i].0 == before.active_processes[i].0
            &&& here ==> !next.connected_nodes.contains(node)
            &&& here && other != node ==> next.connected_nodes.contains(other)
                == was.connected_nodes.contains(other)
            &&& !here ==> next == was
        }),
{
    broadcast use lemma_lookup_delete;

}

/// A node that is enrolled connects to a process of the present epoch, where that is active, and keeps what
/// else is connected. It starts no process and ends none.
pub proof fn enrolled_nodes_connect(
    before: CoordinatorModel,
    after: CoordinatorModel,
    tenant: Seq<char>,
    project: Seq<char>,
    node: Seq<char>,
    id: &ProcessId,
    epoch: u64,
    r: Result<(), CoordinatorError>,
    other: Seq<char>,
    elsewhere: ScopeText,
)
    requires
        ascending(before.active_processes),
        reconnected(before, after, tenant, project, node, Some((id, epoch)), r),
    ensures
        r is Ok <==> lookup(before.durable.node_identities, (tenant, project, node)) is Some && epoch
            == before.coordinator_epoch,
        ({
            let key = (tenant, project, id@);
            &&& lookup(after.active_processes, key) is Some <==> lookup(
                before.active_processes,
                key,
            ) is Some
            &&& lookup(after.active_processes, key) matches Some(next) ==> {
                let was = lookup(before.active_processes, key)->Some_0;
                &&& r is Ok ==> next.connected_nodes.contains(node)
                &&& other != node || r is Err ==> next.connected_nodes.contains(other)
                    == was.connected_nodes.contains(other)
                &&& next.coordinator_epoch == was.coordinator_epoch && next.id == was.id
            }
            &&& elsewhere != key ==> lookup(after.active_processes, elsewhere) == lookup(
                before.active_processes,
                elsewhere,
            )
            &&& after.durable == before.durable
        }),
{
    broadcast use lemma_lookup_put;

}

/// A launch is rolled back only by the attempt that started the process, and ends that process alone.
pub proof fn a_launch_is_rolled_back_by_its_own_attempt(
    before: CoordinatorModel,
    after: CoordinatorModel,
    key: ScopeText,
    attempt: Seq<char>,
    r: Result<ActiveProcess, CoordinatorError>,
    other: ScopeText,
)
    requires
        ascending(before.active_processes),
        launch_rolled_back(before, after, key, attempt, r),
    ensures
        r is Ok <==> (lookup(before.active_processes, key) matches Some(active) && (
        active.launch_attempt matches Some(own) && own@ == attempt)),
        r is Ok ==> lookup(after.active_processes, key) is None,
        r is Err ==> after == before,
        other != key ==> lookup(after.active_processes, other) == lookup(
            before.active_processes,
            other,
        ),
        after.durable == before.durable,
{
    broadcast use lemma_lookup_delete;

}

/// A debugger attaches to an active process for a user who was given the right to debug its project, and in no
/// other case.
pub proof fn the_right_to_debug_is_given_by_project(
    s: CoordinatorModel,
    tenant: Seq<char>,
    project: Seq<char>,
    actor: Actor,
    process: Seq<char>,
)
    ensures
        debug_attach_reason(s, tenant, project, actor, process).0 <==> {
            &&& lookup(s.active_processes, (tenant, project, process)) matches Some(active)
            &&& actor matches Actor::User(user)
            &&& lookup(
                s.durable.project_permissions,
                (active.tenant@, active.project@, user@),
            ) matches Some(permission)
            &&& permission.can_debug
        },
{
}

/// A tenant is active exactly where no policy stands against it, and its status names the gravest that does.
pub proof fn a_tenant_is_active_where_nothing_stands_against_it(s: DurableStateModel, tenant: Seq<char>)
    ensures
        ({
            let deleted = lookup(s.service_policy_records, (tenant, "tenant:deleted"@)) is Some;
            let disabled = lookup(s.service_policy_records, (tenant, "tenant:disabled"@)) is Some;
            let suspended = lookup(s.service_policy_records, (tenant, "tenant:suspended"@)) is Some;
            let reviewed = lookup(
                s.service_policy_records,
                (tenant, "tenant:manual_review"@),
            ) is Some;
            &&& account_active(s, tenant) <==> !deleted && !disabled && !suspended && !reviewed
            &&& account_active(s, tenant) ==> account_status(s, tenant) == "active"@
            &&& deleted ==> account_status(s, tenant) == "deleted"@
            &&& !deleted && disabled ==> account_status(s, tenant) == "disabled"@
            &&& !deleted && !disabled && suspended ==> account_status(s, tenant) == "suspended"@
            &&& !deleted && !disabled && !suspended && reviewed ==> account_status(s, tenant)
                == "manual_review"@
        }),
{
}

/// A tenant that is suspended is not active, and every session of it is revoked. Sessions of other tenants, and
/// whether those are active, stay as they were.
pub proof fn a_suspended_tenant_has_no_session(
    before: DurableStateModel,
    after: DurableStateModel,
    tenant: TenantId,
    digest: Digest,
    audit: HostedAdminAuditRecord,
    session: Seq<char>,
    other: Seq<char>,
)
    requires
        ascending(before.service_policy_records),
        ascending(before.cli_sessions),
        account_suspended(before, after, tenant, digest, audit),
    ensures
        !account_active(after, tenant@),
        other != tenant@ ==> account_active(after, other) == account_active(before, other),
        lookup(after.cli_sessions, session) is Some <==> lookup(before.cli_sessions, session) is Some,
        lookup(after.cli_sessions, session) matches Some(next) ==> {
            let was = lookup(before.cli_sessions, session)->Some_0;
            &&& was.tenant@ == tenant@ ==> next.revoked
            &&& was.tenant@ != tenant@ ==> next == was
            &&& next.user == was.user && next.tenant == was.tenant
        },
        after.hosted_admin.audit.len() > 0 && after.hosted_admin.audit.last() == audit,
        after.hosted_admin.audit.len() <= 10_000 || after.hosted_admin.audit.len()
            <= before.hosted_admin.audit.len(),
{
    broadcast use lemma_lookup_put;

    let policy = choose|policy: ServicePolicyRecord| #[trigger]
        is_suspension(policy, tenant, digest) && after == crate::admin::with_admin_audit(
            sessions_closed(with_suspension(before, tenant, policy), tenant@),
            audit,
        );
    let was = before.cli_sessions;
    let next = after.cli_sessions;
    assert(next.len() == was.len());
    assert forall|i: int| 0 <= i < was.len() implies (#[trigger] next[i]).0 == was[i].0 by {}
    lemma_same_keys(was, next);
    lemma_lookup_found(was, session);
    lemma_lookup_found(next, session);
    if lookup(was, session) is Some {
        let i = choose|i: int| bound_at(was, session, i);
        lemma_lookup_at(was, i);
        lemma_lookup_at(next, i);
    }
    if lookup(next, session) is Some {
        let i = choose|i: int| bound_at(next, session, i);
        lemma_lookup_at(was, i);
        lemma_lookup_at(next, i);
    }
}

/// A tenant has the limits that an operator set, and the default ones where none is set. Each change is
/// recorded last, with the limits before and after it, and no other tenant has others.
pub proof fn limits_are_as_the_operator_set_them(
    before: CoordinatorModel,
    after: CoordinatorModel,
    tenant: TenantId,
    values: Option<TenantQuotaOverrideValues>,
    operator: UserId,
    action: String,
    at: u64,
    r: Result<HostedAdminAuditRecord, String>,
    other: Seq<char>,
)
    requires
        ascending(before.durable.hosted_admin.tenant_quota_overrides),
        quota_replaced(before, after, tenant, values, operator, action, at, r),
    ensures
        ({
            let known = before.durable.hosted_admin.tenant_quota_overrides;
            let kept = after.durable.hosted_admin.tenant_quota_overrides;
            let sets = values matches Some(v) && (v.max_projects is Some || v.max_nodes is Some
                || v.max_active_processes is Some);
            &&& r is Err <==> sets && lookup(known, tenant@) is None && known.len() >= 100_000
            &&& r is Err ==> after == before
            &&& r matches Ok(record) ==> {
                &&& sets ==> (lookup(kept, tenant@) matches Some(limits) && limits.values
                    == values->Some_0 && limits.operator == operator
                    && limits.updated_at_epoch_seconds == at)
                &&& !sets ==> lookup(kept, tenant@) is None
                &&& record.new_quota_override is Some <==> sets
                &&& record.old_quota_override == (match lookup(known, tenant@) {
                    Some(limits) => Some(limits.values),
                    None => None,
                })
                &&& record.tenant == tenant && record.operator == operator
                    && record.occurred_at_epoch_seconds == at
                &&& record.sequence == before.durable.hosted_admin.next_audit_sequence
                &&& after.durable.hosted_admin.next_audit_sequence > record.sequence || record.sequence
                    == u64::MAX
                &&& after.durable.hosted_admin.audit.last() == record
                &&& after.durable.hosted_admin.audit.len() > 0
            }
            &&& other != tenant@ ==> lookup(kept, other) == lookup(known, other)
            &&& after.active_processes == before.active_processes
        }),
{
    broadcast use lemma_lookup_put, lemma_lookup_delete;

}

/// A limit is taken exactly where it is at least one and no more than the ceiling, which is positive.
pub proof fn limits_keep_to_the_ceiling(values: TenantQuotaOverrideValues, ceiling: u64)
    ensures
        quota_refusal(None, ceiling) is None <==> ceiling > 0,
        quota_refusal(Some(values), ceiling) is None <==> {
            &&& ceiling > 0
            &&& values.max_projects matches Some(n) ==> 1 <= n <= ceiling
            &&& values.max_nodes matches Some(n) ==> 1 <= n <= ceiling
            &&& values.max_active_processes matches Some(n) ==> 1 <= n <= ceiling
        },
{
}

/// An operator is heard exactly where a credential is configured, the proof is the expected one, the request is
/// recent, and its nonce was not used before.
pub proof fn operators_prove_themselves(
    configured: bool,
    proof: Seq<char>,
    expected: Seq<char>,
    nonce: Seq<char>,
    issued_at: u64,
    now: u64,
    replay: ReplayAdmission,
)
    ensures
        request_refusal(configured, proof, expected, nonce, issued_at, now, replay) is None <==> {
            &&& configured
            &&& proof == expected
            &&& trimmed(nonce).len() > 0 && byte_len(nonce) <= 256
            &&& now - 300 <= issued_at <= now + 300
            &&& replay == ReplayAdmission::Fresh
        },
{
}

} // verus!
