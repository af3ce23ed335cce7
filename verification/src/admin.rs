//! What the administrator of the service does: quotas of tenants, and suspending and resuming their
//! accounts.
use vstd::prelude::*;
use vstd::string::*;

use crate::automated_run::{AutomatedRunStageRecord, AutomatedRunStageRecordModel, AutomationStateModel};
use crate::automation::run_ended;
use crate::coordinator::{AccountPolicyState, ActiveProcessModel, CoordinatorModel, account_active, account_reason, account_status, audited, has_policy, processes_of, quota_replaced, session_open, session_revoked};
use crate::duplicate::{Duplicate, option_view, texts};
use crate::durable::{CliSessionRecord, CredentialKind, DurableStateModel, HostedAdminAuditRecord, ServicePolicyRecord, TenantQuotaOverrideRecord, TenantQuotaOverrideValues, TenantRecord, UserRecord};
use crate::ids::{Digest, ProcessId, ProjectId, RunId, TenantId, UserId};
use crate::keyed::holds_keys;
use crate::ordered_map::{OrderedMap, ascending, bound_at, delete, lemma_lookup_at, lemma_lookup_found, lemma_lookup_put, lemma_put_ascending, lookup, put};
use crate::sequences::{holds_of_some, is_first};
use crate::service::{CoordinatorService, CoordinatorServiceModel};
use crate::service_automation::{cancelled_run, runs_closed};
use crate::service_error::{CoordinatorServiceError, protocol, unauthorized};
use crate::service_status::{AdmissionQuotaLimits, tenant_usage, with_coordinator};
use crate::system_tasks::service_with;
use crate::text::{byte_len, concat3, decimal, decimal_text, is_blank, text_eq, text_len, trimmed};

verus! {

/// By how much the time of a request of the administrator may be off.
pub const ADMIN_REQUEST_MAX_CLOCK_SKEW_SECONDS: u64 = 300;

/// How a tenant stands.
pub struct HostedTenantAdminStatus {
    pub tenant: TenantId,
    pub account: AccountPolicyState,
    pub default_quota: AdmissionQuotaLimits,
    pub quota_override: Option<TenantQuotaOverrideRecord>,
    pub effective_quota: AdmissionQuotaLimits,
    pub projects_current: u64,
    pub node_identities_current: u64,
    pub active_processes_current: u64,
}

/// What suspending or resuming an account came to.
pub struct HostedAccountMutationResult {
    pub status: HostedTenantAdminStatus,
    pub audit: HostedAdminAuditRecord,
    pub revoked_sessions: u64,
    pub aborted_processes: u64,
}

/// What suspending an account came to, before its processes are aborted.
pub struct AccountSuspension {
    pub tenant: TenantId,
    pub audit: HostedAdminAuditRecord,
    pub revoked_sessions: u64,
    pub runs: Vec<RunId>,
    pub processes: Vec<(ProjectId, ProcessId)>,
}

/// What an administrator is told of a tenant.
pub struct AdminStatus {
    pub tenant: TenantId,
    pub actor: UserId,
    pub suspended: bool,
    pub safe_default: String,
}

/// The state of an account, by the policies of its tenant.
pub open spec fn is_account_state(account: AccountPolicyState, state: DurableStateModel, tenant: Seq<char>) -> bool {
    &&& account.account_status@ == account_status(state, tenant)
    &&& account.suspended == has_policy(state, tenant, "tenant:suspended"@)
    &&& account.disabled == has_policy(state, tenant, "tenant:disabled"@)
    &&& account.deleted == has_policy(state, tenant, "tenant:deleted"@)
    &&& account.manual_review == has_policy(state, tenant, "tenant:manual_review"@)
    &&& option_view(account.sanitized_reason) == account_reason(state, tenant)
    &&& account.next_actions@ == (if account_active(state, tenant) {
        Seq::<Seq<char>>::empty()
    } else {
        seq![
            "clusterflux auth status --json"@,
            "contact the hosted operator or use a self-hosted coordinator"@,
        ]
    })
}

/// How a tenant stands.
pub open spec fn is_admin_status(
    status: HostedTenantAdminStatus,
    s: CoordinatorModel,
    tenant: Seq<char>,
    default_quota: AdmissionQuotaLimits,
    effective_quota: AdmissionQuotaLimits,
) -> bool {
    &&& status.tenant@ == tenant
    &&& is_account_state(status.account, s.durable, tenant)
    &&& status.default_quota == default_quota
    &&& status.quota_override == lookup(s.durable.hosted_admin.tenant_quota_overrides, tenant)
    &&& status.effective_quota == effective_quota
    &&& (status.projects_current, status.node_identities_current, status.active_processes_current)
        == tenant_usage(s, tenant)
}

/// A limit that may be set: none, or one that is positive and no greater than the ceiling.
pub open spec fn limit_fits(limit: Option<u64>, ceiling: u64) -> bool {
    limit matches Some(value) ==> 1 <= value <= ceiling
}

/// Why quotas may not be set, if they may not: the first that is out of range is named.
pub open spec fn quota_refusal(values: Option<TenantQuotaOverrideValues>, ceiling: u64) -> Option<Seq<char>> {
    if ceiling == 0 {
        Some("hosted quota safety ceiling must be positive"@)
    } else {
        match values {
            None => None,
            Some(values) => if !limit_fits(values.max_projects, ceiling) {
                Some(quota_range_text("max_projects"@, ceiling))
            } else if !limit_fits(values.max_nodes, ceiling) {
                Some(quota_range_text("max_nodes"@, ceiling))
            } else if !limit_fits(values.max_active_processes, ceiling) {
                Some(quota_range_text("max_active_processes"@, ceiling))
            } else {
                None
            },
        }
    }
}

/// What is said of a limit that is out of range.
pub open spec fn quota_range_text(name: Seq<char>, ceiling: u64) -> Seq<char> {
    name + " must be positive and no greater than the hosted safety ceiling of "@ + decimal(
        ceiling as nat,
    )
}

fn check_limit(limit: Option<u64>, ceiling: u64) -> (r: bool)
    ensures
        r == limit_fits(limit, ceiling),
{
    match limit {
        Some(value) => value >= 1 && value <= ceiling,
        None => true,
    }
}

fn limit_range_message(name: &str, ceiling: u64) -> (r: CoordinatorServiceError)
    ensures
        r.protests(quota_range_text(name@, ceiling)),
{
    let number: String = decimal_text(ceiling);
    CoordinatorServiceError::Protocol(
        concat3(
            name,
            " must be positive and no greater than the hosted safety ceiling of ",
            number.as_str(),
        ),
    )
}

/// Checks quotas that are to be set.
pub fn check_quota_values(values: &Option<TenantQuotaOverrideValues>, safety_ceiling: u64) -> (r: Result<
    (),
    CoordinatorServiceError,
>)
    ensures
        match quota_refusal(*values, safety_ceiling) {
            None => r is Ok,
            Some(reason) => r matches Err(error) && error.protests(reason),
        },
{
    if safety_ceiling == 0 {
        return Err(protocol("hosted quota safety ceiling must be positive"));
    }
    match values {
        None => Ok(()),
        Some(values) => {
            if !check_limit(values.max_projects, safety_ceiling) {
                return Err(limit_range_message("max_projects", safety_ceiling));
            }
            if !check_limit(values.max_nodes, safety_ceiling) {
                return Err(limit_range_message("max_nodes", safety_ceiling));
            }
            if !check_limit(values.max_active_processes, safety_ceiling) {
                return Err(limit_range_message("max_active_processes", safety_ceiling));
            }
            Ok(())
        },
    }
}

/// A run of the tenant that has not ended.
pub open spec fn runs_of_tenant(tenant: Seq<char>) -> spec_fn((Seq<char>, AutomatedRunStageRecordModel)) -> bool {
    |e: (Seq<char>, AutomatedRunStageRecordModel)|
        e.1.run.tenant@ == tenant && !run_ended(e.1.run.state)
}

/// The runs of a tenant that have not ended, in the order of their identifiers.
pub open spec fn open_runs(runs: Seq<(Seq<char>, AutomatedRunStageRecordModel)>, tenant: Seq<char>) -> Seq<Seq<char>> {
    runs.filter(runs_of_tenant(tenant)).map_values(
        |e: (Seq<char>, AutomatedRunStageRecordModel)| e.1.run.run_id@,
    )
}

/// What is recorded of an account that is suspended or resumed.
pub open spec fn is_account_audit(audit: HostedAdminAuditRecord, s: DurableStateModel, tenant: TenantId, action: Seq<char>, operator: UserId, now: u64) -> bool {
    &&& audit.action@ == action
    &&& audit == (HostedAdminAuditRecord {
        sequence: s.hosted_admin.next_audit_sequence,
        tenant,
        action: audit.action,
        old_quota_override: None,
        new_quota_override: None,
        operator,
        occurred_at_epoch_seconds: now,
    })
}

/// A policy that suspends a tenant.
pub open spec fn is_suspension(policy: ServicePolicyRecord, tenant: TenantId, digest: Digest) -> bool {
    policy.tenant == tenant && policy.name@ == "tenant:suspended"@ && policy.digest == digest
}

/// The state with a tenant suspended.
pub open spec fn with_suspension(s: DurableStateModel, tenant: TenantId, policy: ServicePolicyRecord) -> DurableStateModel {
    DurableStateModel {
        tenants: put(s.tenants, tenant@, TenantRecord { id: tenant }),
        service_policy_records: put(
            s.service_policy_records,
            (tenant@, "tenant:suspended"@),
            policy,
        ),
        ..s
    }
}

/// The state with an event of the administrator.
pub open spec fn with_admin_audit(s: DurableStateModel, audit: HostedAdminAuditRecord) -> DurableStateModel {
    DurableStateModel { hosted_admin: audited(s.hosted_admin, audit), ..s }
}

/// What suspending an account leaves.
pub open spec fn account_suspended(before: DurableStateModel, after: DurableStateModel, tenant: TenantId, digest: Digest, audit: HostedAdminAuditRecord) -> bool {
    exists|policy: ServicePolicyRecord| #[trigger]
        is_suspension(policy, tenant, digest) && after == with_admin_audit(
            sessions_closed(with_suspension(before, tenant, policy), tenant@),
            audit,
        )
}

/// The state with the sessions of a tenant revoked.
pub open spec fn sessions_closed(s: DurableStateModel, tenant: Seq<char>) -> DurableStateModel {
    DurableStateModel {
        cli_sessions: s.cli_sessions.map_values(
            |e: (Seq<char>, CliSessionRecord)| (e.0, session_revoked(tenant)(e)),
        ),
        ..s
    }
}

/// The service with another durable state.
pub open spec fn with_durable(s: CoordinatorServiceModel, durable: DurableStateModel) -> CoordinatorServiceModel {
    with_coordinator(s, CoordinatorModel { durable, ..s.coordinator })
}

/// What an administrator who asks how a tenant stands comes to.
pub open spec fn status_asked(
    s: CoordinatorServiceModel,
    tenant: TenantId,
    actor: UserId,
    proof: Digest,
    expected_proof: Digest,
    nonce: Seq<char>,
    issued_at: u64,
    now: u64,
    replay: ReplayAdmission,
    r: Result<AdminStatus, CoordinatorServiceError>,
) -> bool {
    match request_refusal(
        s.admin_token_digest is Some,
        proof@,
        expected_proof@,
        nonce,
        issued_at,
        now,
        replay,
    ) {
        Some(reason) => r matches Err(error) && error.denies(reason),
        None => {
            &&& r matches Ok(status)
            &&& status.tenant@ == tenant@
            &&& status.actor@ == actor@
            &&& status.suspended == has_policy(
                s.coordinator.durable,
                tenant@,
                "tenant:suspended"@,
            )
            &&& status.safe_default@ == "read_only"@
        },
    }
}

/// What an administrator who suspends a tenant comes to.
pub open spec fn suspension_asked(
    before: CoordinatorServiceModel,
    after: CoordinatorServiceModel,
    actor_tenant: TenantId,
    actor: UserId,
    target_tenant: TenantId,
    policy_digest: Digest,
    proof: Digest,
    expected_proof: Digest,
    nonce: Seq<char>,
    issued_at: u64,
    now: u64,
    replay: ReplayAdmission,
    r: Result<ServicePolicyRecord, CoordinatorServiceError>,
) -> bool {
    match request_refusal(
        before.admin_token_digest is Some,
        proof@,
        expected_proof@,
        nonce,
        issued_at,
        now,
        replay,
    ) {
        Some(reason) => {
            &&& r matches Err(error)
            &&& error.denies(reason)
            &&& after == before
        },
        None => {
            &&& r matches Ok(policy)
            &&& is_suspension(policy, target_tenant, policy_digest)
            &&& after == with_durable(
                before,
                with_suspension(
                    with_admin(before.coordinator.durable, actor_tenant, actor),
                    target_tenant,
                    policy,
                ),
            )
        },
    }
}

/// What resuming an account comes to.
pub open spec fn account_resumed(
    before: CoordinatorServiceModel,
    after: CoordinatorServiceModel,
    tenant: TenantId,
    operator: UserId,
    occurred_at_epoch_seconds: u64,
    default_quota: AdmissionQuotaLimits,
    effective_quota: AdmissionQuotaLimits,
    r: HostedAccountMutationResult,
) -> bool {
    &&& is_account_audit(
        r.audit,
        before.coordinator.durable,
        tenant,
        "account_resume"@,
        operator,
        occurred_at_epoch_seconds,
    )
    &&& after == with_durable(
        before,
        with_admin_audit(
            without_suspension(before.coordinator.durable, tenant@),
            r.audit,
        ),
    )
    &&& is_admin_status(
        r.status,
        after.coordinator,
        tenant@,
        default_quota,
        effective_quota,
    )
    &&& r.revoked_sessions == 0
    &&& r.aborted_processes == 0
}

/// What a quota that an operator sets comes to.
pub open spec fn quota_configured(
    before: CoordinatorServiceModel,
    after: CoordinatorServiceModel,
    tenant: TenantId,
    values: Option<TenantQuotaOverrideValues>,
    operator: UserId,
    action: String,
    occurred_at_epoch_seconds: u64,
    safety_ceiling: u64,
    default_quota: AdmissionQuotaLimits,
    effective_quota: AdmissionQuotaLimits,
    r: Result<HostedTenantAdminStatus, CoordinatorServiceError>,
) -> bool {
    match quota_refusal(values, safety_ceiling) {
        Some(reason) => {
            &&& r matches Err(error)
            &&& error.protests(reason)
            &&& after == before
        },
        None => {
            &&& after == with_coordinator(before, after.coordinator)
            &&& match r {
                Ok(status) => {
                    &&& is_admin_status(
                        status,
                        after.coordinator,
                        tenant@,
                        default_quota,
                        effective_quota,
                    )
                    &&& exists|audit: HostedAdminAuditRecord|
                        quota_replaced(
                            before.coordinator,
                            after.coordinator,
                            tenant,
                            values,
                            operator,
                            action,
                            occurred_at_epoch_seconds,
                            Ok::<HostedAdminAuditRecord, String>(audit),
                        )
                },
                Err(error) => {
                    &&& error matches CoordinatorServiceError::Protocol(text)
                    &&& quota_replaced(
                        before.coordinator,
                        after.coordinator,
                        tenant,
                        values,
                        operator,
                        action,
                        occurred_at_epoch_seconds,
                        Err::<HostedAdminAuditRecord, String>(text),
                    )
                },
            }
        },
    }
}

impl CoordinatorService {
    /// How a tenant stands. The quotas are what the service is configured with, and what is in force
    /// for the tenant.
    pub fn hosted_tenant_admin_status(
        &self,
        tenant: &TenantId,
        default_quota: AdmissionQuotaLimits,
        effective_quota: AdmissionQuotaLimits,
    ) -> (r: HostedTenantAdminStatus)
        ensures
            is_admin_status(r, self@.coordinator, tenant@, default_quota, effective_quota),
    {
        let quota_override: Option<TenantQuotaOverrideRecord> =
            match self.coordinator.tenant_quota_override(tenant) {
            Some(record) => Some(record.duplicate()),
            None => None,
        };
        HostedTenantAdminStatus {
            tenant: tenant.clone(),
            account: self.coordinator.account_policy_state(tenant),
            default_quota,
            quota_override,
            effective_quota,
            projects_current: self.coordinator.project_count_for_tenant(tenant) as u64,
            node_identities_current: self.coordinator.node_identity_count_for_tenant(tenant) as u64,
            active_processes_current: self.coordinator.active_process_count_for_tenant(
                tenant,
            ) as u64,
        }
    }

    /// The state of the account of a tenant.
    pub fn hosted_account_policy_state(&self, tenant: &TenantId) -> (r: AccountPolicyState)
        ensures
            is_account_state(r, self@.coordinator.durable, tenant@),
    {
        self.coordinator.account_policy_state(tenant)
    }

    /// Sets or clears the quotas of a tenant. None may be beyond the safety ceiling. The quotas that the
    /// answer tells are what the service is configured with, and what is then in force for the tenant.
    pub fn configure_hosted_tenant_quota(
        &mut self,
        tenant: TenantId,
        values: Option<TenantQuotaOverrideValues>,
        operator: UserId,
        action: String,
        occurred_at_epoch_seconds: u64,
        safety_ceiling: u64,
        default_quota: AdmissionQuotaLimits,
        effective_quota: AdmissionQuotaLimits,
    ) -> (r: Result<HostedTenantAdminStatus, CoordinatorServiceError>)
        ensures
            quota_configured(
                old(self)@,
                final(self)@,
                tenant,
                values,
                operator,
                action,
                occurred_at_epoch_seconds,
                safety_ceiling,
                default_quota,
                effective_quota,
                r,
            ),
    {
        match check_quota_values(&values, safety_ceiling) {
            Ok(_) => {},
            Err(error) => {
                return Err(error);
            },
        }
        match self.coordinator.replace_tenant_quota_override(
            tenant.clone(),
            values,
            operator,
            action,
            occurred_at_epoch_seconds,
        ) {
            Ok(audit) => {
                assert(quota_replaced(
                    old(self)@.coordinator,
                    self@.coordinator,
                    tenant,
                    values,
                    operator,
                    action,
                    occurred_at_epoch_seconds,
                    Ok::<HostedAdminAuditRecord, String>(audit),
                ));
                Ok(self.hosted_tenant_admin_status(&tenant, default_quota, effective_quota))
            },
            Err(text) => Err(CoordinatorServiceError::Protocol(text)),
        }
    }

    fn open_runs_of(&self, tenant: &TenantId) -> (r: Vec<RunId>)
        ensures
            texts(r@) == open_runs(
                self@.coordinator.durable.automation.automated_runs,
                tenant@,
            ),
            ascending(self@.coordinator.durable.automation.automated_runs),
    {
        let runs: &OrderedMap<RunId, AutomatedRunStageRecord> =
            &self.coordinator.automation().automated_runs;
        let n: usize = runs.len();
        let ghost all = runs@;
        let ghost p = runs_of_tenant(tenant@);
        let ghost f = |e: (Seq<char>, AutomatedRunStageRecordModel)| e.1.run.run_id@;
        let mut out: Vec<RunId> = Vec::new();
        let mut i: usize = 0;
        assert(all.take(0).filter(p) =~= Seq::empty()) by {
            reveal(Seq::filter);
        }
        assert(texts(out@) =~= all.take(0).filter(p).map_values(f));
        while i < n
            invariant
                0 <= i <= n == runs@.len(),
                all == runs@,
                p == runs_of_tenant(tenant@),
                ascending(runs@),
                f == |e: (Seq<char>, AutomatedRunStageRecordModel)| e.1.run.run_id@,
                texts(out@) == all.take(i as int).filter(p).map_values(f),
            decreases runs@.len() - i,
        {
            let record: &AutomatedRunStageRecord = runs.value_at(i);
            let ghost known = out@;
            proof {
                assert(all.take(i + 1).drop_last() =~= all.take(i as int));
                assert(all.take(i + 1).last() == all[i as int]);
                reveal(Seq::filter);
            }
            if record.run.tenant == *tenant && !record.run.state.is_terminal() {
                out.push(record.run.run_id.clone());
                assert(p(all[i as int]));
                assert(texts(out@) =~= texts(known).push(record.run.run_id@));
                assert(all.take(i + 1).filter(p) == all.take(i as int).filter(p).push(all[i as int]));
                assert(all.take(i as int).filter(p).push(all[i as int]).map_values(f) =~= all.take(
                    i as int,
                ).filter(p).map_values(f).push(f(all[i as int])));
            } else {
                assert(!p(all[i as int]));
                assert(all.take(i + 1).filter(p) == all.take(i as int).filter(p));
            }
            i = i + 1;
        }
        assert(all.take(all.len() as int) =~= all);
        out
    }

    /// Cancels runs, one after the other. One that is not known ends it.
    fn close_runs(&mut self, runs: &Vec<RunId>, now: u64) -> (r: Result<(), CoordinatorServiceError>)
        requires
            ascending(old(self)@.coordinator.durable.automation.automated_runs),
        ensures
            ({
                let before = old(self)@.coordinator.durable.automation;
                match first_unknown(before, texts(runs@)) {
                    None => {
                        &&& r is Ok
                        &&& final(self)@ == service_with(
                            old(self)@,
                            runs_closed(before, texts(runs@), runs@.len() as int, now),
                        )
                    },
                    Some(n) => {
                        &&& r matches Err(error)
                        &&& error.protests("unknown automated run"@)
                        &&& final(self)@ == service_with(
                            old(self)@,
                            runs_closed(before, texts(runs@), n, now),
                        )
                    },
                }
            }),
    {
        let ghost start = self@;
        let ghost before = start.coordinator.durable.automation;
        let ghost ids = texts(runs@);
        let mut i: usize = 0;
        assert(self@ == service_with(start, runs_closed(before, ids, 0, now)));
        while i < runs.len()
            invariant
                0 <= i <= runs@.len(),
                ids == texts(runs@),
                start == old(self)@,
                before == start.coordinator.durable.automation,
                ascending(before.automated_runs),
                self@ == service_with(start, runs_closed(before, ids, i as int, now)),
                forall|k: int| 0 <= k < i ==> !is_unknown(before, #[trigger] ids[k]),
            decreases runs@.len() - i,
        {
            proof {
                lemma_runs_closed(before, ids, i as int, now, ids[i as int]);
            }
            assert(ids[i as int] == runs@[i as int]@);
            match self.cancel_automated_run(&runs[i], now) {
                Ok(_) => {},
                Err(error) => {
                    proof {
                        assert(is_unknown(before, ids[i as int]));
                        lemma_first_unknown(before, ids, i as int);
                    }
                    return Err(error);
                },
            }
            i = i + 1;
        }
        proof {
            lemma_all_known(before, ids);
        }
        Ok(())
    }

    /// Suspends the account of a tenant, revokes its sessions and cancels its runs. What comes back names
    /// the processes that are to be aborted before the account is answered for.
    pub fn suspend_hosted_account(
        &mut self,
        tenant: TenantId,
        operator: UserId,
        policy_digest: Digest,
        occurred_at_epoch_seconds: u64,
        now: u64,
    ) -> (r: Result<AccountSuspension, CoordinatorServiceError>)
        ensures
            exists|audit: HostedAdminAuditRecord, middle: DurableStateModel|
                #[trigger] suspension_begun(
                    old(self)@.coordinator.durable,
                    middle,
                    tenant,
                    operator,
                    policy_digest,
                    occurred_at_epoch_seconds,
                    audit,
                ) && tenant_stopped(
                    old(self)@,
                    with_durable(old(self)@, middle),
                    final(self)@,
                    tenant,
                    audit,
                    now,
                    r,
                ),
    {
        let ghost start = self@;
        let ghost before = self@.coordinator.durable;
        let ghost digest = policy_digest;
        let policy: ServicePolicyRecord = self.coordinator.suspend_tenant(
            tenant.clone(),
            policy_digest,
        );
        assert(is_suspension(policy, tenant, digest));
        let revoked_sessions: usize = self.coordinator.revoke_cli_sessions_for_tenant(&tenant);
        let audit: HostedAdminAuditRecord = self.coordinator.record_hosted_admin_audit(
            tenant.clone(),
            "account_suspend".to_owned(),
            None,
            None,
            operator,
            occurred_at_epoch_seconds,
        );
        let ghost middle = self@.coordinator.durable;
        let ghost given = audit;
        assert(middle =~= with_admin_audit(
            sessions_closed(with_suspension(before, tenant, policy), tenant@),
            audit,
        ));
        assert(account_suspended(before, middle, tenant, digest, audit));
        assert(suspension_begun(
            before,
            middle,
            tenant,
            operator,
            digest,
            occurred_at_epoch_seconds,
            given,
        ));
        let ghost stopped = self@;
        assert(stopped == with_durable(start, middle));
        let runs: Vec<RunId> = self.open_runs_of(&tenant);
        match self.close_runs(&runs, now) {
            Err(error) => {
                let r: Result<AccountSuspension, CoordinatorServiceError> = Err(error);
                assert(tenant_stopped(start, stopped, self@, tenant, given, now, r));
                r
            },
            Ok(_) => {
                let processes: Vec<(ProjectId, ProcessId)> =
                    self.coordinator.active_process_scopes_for_tenant(&tenant);
                let r: Result<AccountSuspension, CoordinatorServiceError> = Ok(
                    AccountSuspension {
                        tenant,
                        audit,
                        revoked_sessions: revoked_sessions as u64,
                        runs,
                        processes,
                    },
                );
                assert(tenant_stopped(start, stopped, self@, tenant, given, now, r));
                r
            },
        }
    }

    /// Answers for an account that was suspended, once its processes have been aborted.
    pub fn finish_account_suspension(
        &self,
        suspension: AccountSuspension,
        default_quota: AdmissionQuotaLimits,
        effective_quota: AdmissionQuotaLimits,
    ) -> (r: HostedAccountMutationResult)
        ensures
            is_admin_status(
                r.status,
                self@.coordinator,
                suspension.tenant@,
                default_quota,
                effective_quota,
            ),
            r.audit == suspension.audit,
            r.revoked_sessions == suspension.revoked_sessions,
            r.aborted_processes == suspension.processes@.len(),
    {
        HostedAccountMutationResult {
            status: self.hosted_tenant_admin_status(
                &suspension.tenant,
                default_quota,
                effective_quota,
            ),
            audit: suspension.audit,
            revoked_sessions: suspension.revoked_sessions,
            aborted_processes: suspension.processes.len() as u64,
        }
    }

    /// Resumes the account of a tenant.
    pub fn resume_hosted_account(
        &mut self,
        tenant: TenantId,
        operator: UserId,
        occurred_at_epoch_seconds: u64,
        default_quota: AdmissionQuotaLimits,
        effective_quota: AdmissionQuotaLimits,
    ) -> (r: HostedAccountMutationResult)
        ensures
            account_resumed(
                old(self)@,
                final(self)@,
                tenant,
                operator,
                occurred_at_epoch_seconds,
                default_quota,
                effective_quota,
                r,
            ),
    {
        let _was_suspended: bool = self.coordinator.resume_tenant(&tenant);
        let audit: HostedAdminAuditRecord = self.coordinator.record_hosted_admin_audit(
            tenant.clone(),
            "account_resume".to_owned(),
            None,
            None,
            operator,
            occurred_at_epoch_seconds,
        );
        HostedAccountMutationResult {
            status: self.hosted_tenant_admin_status(&tenant, default_quota, effective_quota),
            audit,
            revoked_sessions: 0,
            aborted_processes: 0,
        }
    }

    /// Tells an administrator whether a tenant is suspended.
    pub fn handle_admin_status(
        &self,
        tenant: &TenantId,
        actor: &UserId,
        proof: &Digest,
        expected_proof: &Digest,
        nonce: &str,
        issued_at: u64,
        now: u64,
        replay: ReplayAdmission,
    ) -> (r: Result<AdminStatus, CoordinatorServiceError>)
        ensures
            status_asked(
                self@,
                *tenant,
                *actor,
                *proof,
                *expected_proof,
                nonce@,
                issued_at,
                now,
                replay,
                r,
            ),
    {
        match self.admit_admin_request(proof, expected_proof, nonce, issued_at, now, replay) {
            Err(error) => Err(error),
            Ok(_) => Ok(
                AdminStatus {
                    tenant: tenant.clone(),
                    actor: actor.clone(),
                    suspended: self.coordinator.tenant_suspended(tenant),
                    safe_default: "read_only".to_owned(),
                },
            ),
        }
    }

    /// Suspends a tenant for an administrator, who is kept as a user of their own tenant.
    pub fn handle_suspend_tenant(
        &mut self,
        actor_tenant: TenantId,
        actor: UserId,
        target_tenant: TenantId,
        policy_digest: Digest,
        proof: &Digest,
        expected_proof: &Digest,
        nonce: &str,
        issued_at: u64,
        now: u64,
        replay: ReplayAdmission,
    ) -> (r: Result<ServicePolicyRecord, CoordinatorServiceError>)
        ensures
            suspension_asked(
                old(self)@,
                final(self)@,
                actor_tenant,
                actor,
                target_tenant,
                policy_digest,
                *proof,
                *expected_proof,
                nonce@,
                issued_at,
                now,
                replay,
                r,
            ),
    {
        match self.admit_admin_request(proof, expected_proof, nonce, issued_at, now, replay) {
            Err(error) => {
                return Err(error);
            },
            Ok(_) => {},
        }
        self.coordinator.upsert_tenant(actor_tenant.clone());
        self.coordinator.upsert_user(actor_tenant, actor, CredentialKind::CliDeviceSession);
        Ok(self.coordinator.suspend_tenant(target_tenant, policy_digest))
    }

    /// Checks a request of the administrator, and what became of its nonce.
    fn admit_admin_request(
        &self,
        proof: &Digest,
        expected_proof: &Digest,
        nonce: &str,
        issued_at: u64,
        now: u64,
        replay: ReplayAdmission,
    ) -> (r: Result<(), CoordinatorServiceError>)
        ensures
            match request_refusal(
                self@.admin_token_digest is Some,
                proof@,
                expected_proof@,
                nonce@,
                issued_at,
                now,
                replay,
            ) {
                None => r is Ok,
                Some(reason) => r matches Err(error) && error.denies(reason),
            },
    {
        match self.verify_admin_request(proof, expected_proof, nonce, issued_at, now) {
            Err(error) => Err(error),
            Ok(_) => check_nonce(replay),
        }
    }
}

/// Whether a run is not known.
pub open spec fn is_unknown(s: AutomationStateModel, id: Seq<char>) -> bool {
    lookup(s.automated_runs, id) is None
}

/// The place of the first run that is not known.
pub open spec fn first_unknown(s: AutomationStateModel, ids: Seq<Seq<char>>) -> Option<int> {
    let p = |id: Seq<char>| is_unknown(s, id);
    if holds_of_some(ids, p) {
        Some(choose|n: int| is_first(ids, p, n))
    } else {
        None
    }
}

proof fn lemma_first_unknown(s: AutomationStateModel, ids: Seq<Seq<char>>, n: int)
    requires
        0 <= n < ids.len(),
        is_unknown(s, ids[n]),
        forall|k: int| 0 <= k < n ==> !is_unknown(s, #[trigger] ids[k]),
    ensures
        first_unknown(s, ids) == Some(n),
{
    let p = |id: Seq<char>| is_unknown(s, id);
    assert(p(ids[n]));
    assert(is_first(ids, p, n));
    let m = choose|m: int| is_first(ids, p, m);
    assert(is_first(ids, p, m));
    assert(p(ids[m]));
    if m < n {
        assert(!is_unknown(s, ids[m]));
    }
    if n < m {
        assert(!p(ids[n]));
    }
}

proof fn lemma_all_known(s: AutomationStateModel, ids: Seq<Seq<char>>)
    requires
        forall|k: int| 0 <= k < ids.len() ==> !is_unknown(s, #[trigger] ids[k]),
    ensures
        first_unknown(s, ids) is None,
{
}

/// Cancelling runs makes none known or unknown, and changes only those that are named.
pub proof fn lemma_runs_closed(s: AutomationStateModel, ids: Seq<Seq<char>>, n: int, now: u64, id: Seq<char>)
    requires
        ascending(s.automated_runs),
        0 <= n <= ids.len(),
    ensures
        ascending(runs_closed(s, ids, n, now).automated_runs),
        lookup(runs_closed(s, ids, n, now).automated_runs, id) == (match lookup(
            s.automated_runs,
            id,
        ) {
            None => None,
            Some(run) => if ids.take(n).contains(id) {
                Some(cancelled_run(run, now))
            } else {
                Some(run)
            },
        }),
    decreases n,
{
    broadcast use lemma_lookup_put;

    if n > 0 {
        lemma_runs_closed(s, ids, n - 1, now, id);
        lemma_runs_closed(s, ids, n - 1, now, ids[n - 1]);
        let earlier = runs_closed(s, ids, n - 1, now);
        let last = ids[n - 1];
        match lookup(earlier.automated_runs, last) {
            None => {},
            Some(run) => {
                lemma_put_ascending(earlier.automated_runs, last, cancelled_run(run, now));
            },
        }
        assert(ids.take(n) =~= ids.take(n - 1).push(last));
        assert(ids.take(n).contains(id) <==> ids.take(n - 1).contains(id) || id == last) by {
            if id == last {
                assert(ids.take(n)[n - 1] == id);
            }
            if ids.take(n - 1).contains(id) {
                let fewer = ids.take(n - 1);
                let k = choose|k: int| 0 <= k < fewer.len() && fewer[k] == id;
                assert(ids.take(n)[k] == id);
            }
        }
    }
}

/// Once its account is suspended, no run of a tenant is open, and the runs of other tenants are as they
/// were.
pub proof fn suspension_leaves_no_open_run(s: AutomationStateModel, tenant: Seq<char>, now: u64, id: Seq<char>)
    requires
        ascending(s.automated_runs),
        holds_keys(s.automated_runs, |r: AutomatedRunStageRecordModel| r.run.run_id@),
    ensures
        ({
            let ids = open_runs(s.automated_runs, tenant);
            let after = runs_closed(s, ids, ids.len() as int, now);
            &&& first_unknown(s, ids) is None
            &&& lookup(after.automated_runs, id) matches Some(run) ==> !runs_of_tenant(tenant)((id, run))
            &&& lookup(s.automated_runs, id) matches Some(run) ==> (run.run.tenant@ != tenant
                ==> lookup(after.automated_runs, id) == Some(run))
        }),
{
    let runs = s.automated_runs;
    let p = runs_of_tenant(tenant);
    let f = |e: (Seq<char>, AutomatedRunStageRecordModel)| e.1.run.run_id@;
    let kept = runs.filter(p);
    let ids = open_runs(runs, tenant);
    assert(ids == kept.map_values(f));
    assert forall|k: int| 0 <= k < ids.len() implies !is_unknown(s, #[trigger] ids[k]) && lookup(
        runs,
        ids[k],
    )->Some_0.run.tenant@ == tenant by {
        runs.lemma_filter_pred(p, k);
        runs.lemma_filter_contains_rev(p, kept[k]);
        let i = choose|i: int| 0 <= i < runs.len() && runs[i] == kept[k];
        lemma_lookup_at(runs, i);
    }
    lemma_all_known(s, ids);
    lemma_runs_closed(s, ids, ids.len() as int, now, id);
    assert(ids.take(ids.len() as int) =~= ids);
    if lookup(runs, id) is Some && p((id, lookup(runs, id)->Some_0)) {
        lemma_lookup_found(runs, id);
        let i = choose|i: int| bound_at(runs, id, i);
        lemma_lookup_at(runs, i);
        assert(p(runs[i]));
        runs.lemma_filter_contains(p, i);
        let k = choose|k: int| 0 <= k < kept.len() && kept[k] == runs[i];
        assert(ids[k] == id);
    }
}

/// The account is suspended and its sessions are revoked, and that is recorded.
pub open spec fn suspension_begun(
    before: DurableStateModel,
    middle: DurableStateModel,
    tenant: TenantId,
    operator: UserId,
    digest: Digest,
    at: u64,
    audit: HostedAdminAuditRecord,
) -> bool {
    &&& is_account_audit(audit, before, tenant, "account_suspend"@, operator, at)
    &&& account_suspended(before, middle, tenant, digest, audit)
}

/// What stopping the work of a suspended tenant comes to. `middle` is the service with the account
/// suspended.
pub open spec fn tenant_stopped(
    before: CoordinatorServiceModel,
    middle: CoordinatorServiceModel,
    after: CoordinatorServiceModel,
    tenant: TenantId,
    audit: HostedAdminAuditRecord,
    now: u64,
    r: Result<AccountSuspension, CoordinatorServiceError>,
) -> bool {
    let runs = middle.coordinator.durable.automation;
    let ids = open_runs(runs.automated_runs, tenant@);
    match first_unknown(runs, ids) {
        Some(n) => {
            &&& r matches Err(error)
            &&& error.protests("unknown automated run"@)
            &&& after == service_with(middle, runs_closed(runs, ids, n, now))
        },
        None => {
            &&& r matches Ok(suspension)
            &&& after == service_with(middle, runs_closed(runs, ids, ids.len() as int, now))
            &&& suspension.tenant == tenant
            &&& suspension.audit == audit
            &&& suspension.revoked_sessions == before.coordinator.durable.cli_sessions.filter(
                session_open(tenant@),
            ).len()
            &&& texts(suspension.runs@) == ids
            &&& suspension.processes@ == processes_of(
                before.coordinator.active_processes,
                tenant@,
            ).map_values(|p: ActiveProcessModel| (p.project, p.id))
        },
    }
}

/// The state with a tenant no longer suspended.
pub open spec fn without_suspension(s: DurableStateModel, tenant: Seq<char>) -> DurableStateModel {
    DurableStateModel {
        service_policy_records: delete(s.service_policy_records, (tenant, "tenant:suspended"@)),
        ..s
    }
}

/// The state with an administrator as a user of their own tenant.
pub open spec fn with_admin(s: DurableStateModel, tenant: TenantId, actor: UserId) -> DurableStateModel {
    DurableStateModel {
        tenants: put(s.tenants, tenant@, TenantRecord { id: tenant }),
        users: put(
            s.users,
            actor@,
            UserRecord { id: actor, tenant, credential_kind: CredentialKind::CliDeviceSession },
        ),
        ..s
    }
}

/// What became of the nonce of a request: it is new, it was used, or no more can be remembered.
#[derive(Clone, Copy, Debug, PartialEq, Eq, Structural)]
pub enum ReplayAdmission {
    Fresh,
    Duplicate,
    Capacity,
}

/// The time between two moments.
pub open spec fn time_between(a: u64, b: u64) -> int {
    if a >= b {
        a - b
    } else {
        b - a
    }
}

/// Why a request of the administrator is refused, if it is: before the nonce is remembered.
pub open spec fn admin_refusal(
    configured: bool,
    proof: Seq<char>,
    expected_proof: Seq<char>,
    nonce: Seq<char>,
    issued_at: u64,
    now: u64,
) -> Option<Seq<char>> {
    if !configured {
        Some("self-hosted admin credential is not configured"@)
    } else if trimmed(nonce).len() == 0 || byte_len(nonce) > 256 {
        Some("admin request nonce is missing or invalid"@)
    } else if time_between(now, issued_at) > ADMIN_REQUEST_MAX_CLOCK_SKEW_SECONDS {
        Some("admin request timestamp is outside the allowed 300-second window"@)
    } else if proof != expected_proof {
        Some("admin request proof is invalid"@)
    } else {
        None
    }
}

/// Why a request of the administrator is refused, if it is.
pub open spec fn request_refusal(
    configured: bool,
    proof: Seq<char>,
    expected_proof: Seq<char>,
    nonce: Seq<char>,
    issued_at: u64,
    now: u64,
    replay: ReplayAdmission,
) -> Option<Seq<char>> {
    match admin_refusal(configured, proof, expected_proof, nonce, issued_at, now) {
        Some(reason) => Some(reason),
        None => replay_refusal(replay),
    }
}

/// Why the nonce of a request is refused, if it is.
pub open spec fn replay_refusal(outcome: ReplayAdmission) -> Option<Seq<char>> {
    match outcome {
        ReplayAdmission::Fresh => None,
        ReplayAdmission::Duplicate => Some("admin request nonce was already used"@),
        ReplayAdmission::Capacity => Some(
            "admin request replay window is full; retry after the bounded signature window advances"@,
        ),
    }
}

impl CoordinatorService {
    /// Checks a request of the administrator, up to its nonce. `expected_proof` is the proof that the
    /// configured token gives for the request.
    pub fn verify_admin_request(&self, proof: &Digest, expected_proof: &Digest, nonce: &str, issued_at_epoch_seconds: u64, now: u64) -> (r: Result<
        (),
        CoordinatorServiceError,
    >)
        ensures
            match admin_refusal(
                self@.admin_token_digest is Some,
                proof@,
                expected_proof@,
                nonce@,
                issued_at_epoch_seconds,
                now,
            ) {
                None => r is Ok,
                Some(reason) => r matches Err(error) && error.denies(reason),
            },
    {
        if self.admin_token_digest.is_none() {
            return Err(unauthorized("self-hosted admin credential is not configured"));
        }
        if is_blank(nonce) || text_len(nonce) > 256 {
            return Err(unauthorized("admin request nonce is missing or invalid"));
        }
        let off: u64 = if now >= issued_at_epoch_seconds {
            now - issued_at_epoch_seconds
        } else {
            issued_at_epoch_seconds - now
        };
        if off > ADMIN_REQUEST_MAX_CLOCK_SKEW_SECONDS {
            return Err(
                unauthorized("admin request timestamp is outside the allowed 300-second window"),
            );
        }
        if !text_eq(proof.as_str(), expected_proof.as_str()) {
            return Err(unauthorized("admin request proof is invalid"));
        }
        Ok(())
    }
}

/// Turns away a request of the administrator whose nonce is not new.
pub fn check_nonce(outcome: ReplayAdmission) -> (r: Result<(), CoordinatorServiceError>)
    ensures
        match replay_refusal(outcome) {
            None => r is Ok,
            Some(reason) => r matches Err(error) && error.denies(reason),
        },
{
    match outcome {
        ReplayAdmission::Fresh => Ok(()),
        ReplayAdmission::Duplicate => Err(unauthorized("admin request nonce was already used")),
        ReplayAdmission::Capacity => Err(
            unauthorized(
                "admin request replay window is full; retry after the bounded signature window advances",
            ),
        ),
    }
}

} // verus!
