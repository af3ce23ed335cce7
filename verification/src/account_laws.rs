//! What an account and its runs come to: how a tenant stands is told as it is, a suspended tenant has nothing
//! that runs, and a run that is cancelled has ended.
use vstd::prelude::*;

use crate::admin::{AccountSuspension, is_account_state, lemma_runs_closed, open_runs, runs_of_tenant, suspension_leaves_no_open_run, tenant_stopped, with_admin};
use crate::automated_run::{AutomatedRunStageRecordModel, AutomatedRunState, ProjectEnvironmentRecord};
use crate::automation::environment_refusal;
use crate::coordinator::{AccountPolicyState, session_open};
use crate::durable::{CliSessionRecord, DurableStateModel, HostedAdminAuditRecord};
use crate::ids::{TenantId, UserId};
use crate::keyed::holds_keys;
use crate::ordered_map::{ascending, bound_at, lemma_lookup_at, lemma_lookup_found, lemma_lookup_put, lookup};
use crate::service::CoordinatorServiceModel;
use crate::service_automation::{cancelled_process, cancelled_run, run_closed};
use crate::service_error::CoordinatorServiceError;
use crate::text::{byte_len, trimmed};

verus! {

/// Something stands against a tenant.
pub open spec fn stands_against(s: DurableStateModel, tenant: Seq<char>, what: Seq<char>) -> bool {
    lookup(s.service_policy_records, (tenant, what)) is Some
}

/// A tenant is told what stands against it, and to do nothing where nothing does.
pub proof fn accounts_are_told_as_they_stand(account: AccountPolicyState, s: DurableStateModel, tenant: Seq<char>)
    requires
        is_account_state(account, s, tenant),
    ensures
        account.suspended <==> stands_against(s, tenant, "tenant:suspended"@),
        account.disabled <==> stands_against(s, tenant, "tenant:disabled"@),
        account.deleted <==> stands_against(s, tenant, "tenant:deleted"@),
        account.manual_review <==> stands_against(s, tenant, "tenant:manual_review"@),
        ({
            let clear = !account.suspended && !account.disabled && !account.deleted
                && !account.manual_review;
            &&& account.account_status@ == "active"@ <==> clear
            &&& account.sanitized_reason is None <==> clear
            &&& account.next_actions@.len() == 0 <==> clear
        }),
        account.account_status@ == "deleted"@ <==> account.deleted,
        account.account_status@ == "suspended"@ <==> account.suspended && !account.deleted
            && !account.disabled,
{
    reveal_strlit("active");
    reveal_strlit("deleted");
    reveal_strlit("disabled");
    reveal_strlit("suspended");
    reveal_strlit("manual_review");
    assert("active"@.len() == 6 && "deleted"@.len() == 7 && "disabled"@.len() == 8);
    assert("suspended"@.len() == 9 && "manual_review"@.len() == 13);
}

/// A run has not ended.
pub open spec fn is_open(run: AutomatedRunStageRecordModel) -> bool {
    &&& run.run.state != AutomatedRunState::Completed
    &&& run.run.state != AutomatedRunState::Failed
    &&& run.run.state != AutomatedRunState::Cancelled
}

/// A run that is cancelled has ended then and no more is compiled for it; one that had ended stays as it
/// was. It keeps its name, its tenant, and what it was for.
pub proof fn a_cancelled_run_has_ended(run: AutomatedRunStageRecordModel, now: u64)
    ensures
        ({
            let after = cancelled_run(run, now);
            &&& !is_open(after)
            &&& !is_open(run) ==> after == run
            &&& is_open(run) ==> {
                &&& after.run.state == AutomatedRunState::Cancelled
                &&& after.run.ended_at == Some(now)
                &&& after.compilation_request is None && after.source is None
                &&& after.compiled_bundle is None
            }
            &&& after.run.run_id == run.run.run_id
            &&& after.run.tenant == run.run.tenant && after.run.project == run.run.project
            &&& after.run.process_id == run.run.process_id
            &&& after.run.created_at == run.run.created_at
            &&& after.revision == run.revision
        }),
{
}

/// Cancelling a run touches that run alone, and only one that is known and open.
pub proof fn cancelling_touches_one_run(
    s: CoordinatorServiceModel,
    id: Seq<char>,
    other: Seq<char>,
    now: u64,
)
    requires
        ascending(s.coordinator.durable.automation.automated_runs),
    ensures
        ({
            let before = s.coordinator.durable.automation;
            let after = run_closed(before, id, now);
            &&& other != id ==> lookup(after.automated_runs, other) == lookup(
                before.automated_runs,
                other,
            )
            &&& lookup(before.automated_runs, id) is None ==> after == before
            &&& lookup(before.automated_runs, id) matches Some(run) ==> {
                &&& lookup(after.automated_runs, id) matches Some(closed)
                &&& !is_open(closed)
                &&& !is_open(run) ==> after == before
                &&& is_open(run) ==> closed.run.state == AutomatedRunState::Cancelled
                    && closed.run.ended_at == Some(now)
            }
            &&& cancelled_process(
                CoordinatorServiceModel {
                    coordinator: crate::coordinator::CoordinatorModel {
                        durable: DurableStateModel { automation: after, ..s.coordinator.durable },
                        ..s.coordinator
                    },
                    ..s
                },
                id,
            ) is None
        }),
{
    broadcast use lemma_lookup_put;

}

/// The process that a cancelled run still has is named exactly where the run is open and the process active.
pub proof fn the_process_of_a_cancelled_run_is_named(
    s: CoordinatorServiceModel,
    id: Seq<char>,
    run: AutomatedRunStageRecordModel,
)
    requires
        lookup(s.coordinator.durable.automation.automated_runs, id) == Some(run),
    ensures
        cancelled_process(s, id) is Some <==> is_open(run) && (run.run.process_id matches Some(process)
            && lookup(
            s.coordinator.active_processes,
            (run.run.tenant@, run.run.project@, process@),
        ) is Some),
        cancelled_process(s, id) matches Some(name) ==> (run.run.process_id matches Some(process)
            && name == process@),
{
}

/// Once a tenant is stopped, each of its runs that was open is cancelled, and no other run changes.
pub proof fn a_stopped_tenant_has_no_open_run(
    before: CoordinatorServiceModel,
    middle: CoordinatorServiceModel,
    after: CoordinatorServiceModel,
    tenant: TenantId,
    audit: HostedAdminAuditRecord,
    now: u64,
    r: Result<AccountSuspension, CoordinatorServiceError>,
    id: Seq<char>,
    run: AutomatedRunStageRecordModel,
)
    requires
        ascending(middle.coordinator.durable.automation.automated_runs),
        holds_keys(
            middle.coordinator.durable.automation.automated_runs,
            |r: AutomatedRunStageRecordModel| r.run.run_id@,
        ),
        tenant_stopped(before, middle, after, tenant, audit, now, r),
        lookup(middle.coordinator.durable.automation.automated_runs, id) == Some(run),
    ensures
        r matches Ok(suspension) && suspension.tenant == tenant && suspension.audit == audit,
        ({
            let own = run.run.tenant@ == tenant@;
            &&& lookup(after.coordinator.durable.automation.automated_runs, id) matches Some(closed)
            &&& own ==> !is_open(closed)
            &&& own && is_open(run) ==> closed.run.state == AutomatedRunState::Cancelled
                && closed.run.ended_at == Some(now) && closed.run.run_id == run.run.run_id
            &&& !(own && is_open(run)) ==> closed == run
        }),
{
    let s = middle.coordinator.durable.automation;
    let runs = s.automated_runs;
    let ids = open_runs(runs, tenant@);
    let p = runs_of_tenant(tenant@);
    suspension_leaves_no_open_run(s, tenant@, now, id);
    lemma_runs_closed(s, ids, ids.len() as int, now, id);
    assert(ids.take(ids.len() as int) =~= ids);
    if ids.contains(id) {
        let kept = runs.filter(p);
        let k = choose|k: int| 0 <= k < ids.len() && ids[k] == id;
        runs.lemma_filter_pred(p, k);
        runs.lemma_filter_contains_rev(p, kept[k]);
        let i = choose|i: int| 0 <= i < runs.len() && runs[i] == kept[k];
        lemma_lookup_at(runs, i);
        assert(runs[i].0 == id);
    }
}

/// No session counts as ended by a suspension exactly where the tenant had none open.
pub proof fn ended_sessions_are_those_that_were_open(
    sessions: Seq<(Seq<char>, CliSessionRecord)>,
    tenant: Seq<char>,
    id: Seq<char>,
    session: CliSessionRecord,
)
    requires
        ascending(sessions),
        lookup(sessions, id) == Some(session),
    ensures
        session.tenant@ == tenant && !session.revoked ==> sessions.filter(session_open(tenant)).len()
            > 0,
        (session.tenant@ == tenant && !session.revoked) <==> sessions.filter(
            session_open(tenant),
        ).contains((id, session)),
{
    let p = session_open(tenant);
    lemma_lookup_found(sessions, id);
    let i = choose|i: int| bound_at(sessions, id, i);
    lemma_lookup_at(sessions, i);
    let kept = sessions.filter(p);
    if p(sessions[i]) {
        sessions.lemma_filter_contains(p, i);
    }
    if kept.contains((id, session)) {
        let k = choose|k: int| 0 <= k < kept.len() && kept[k] == (id, session);
        sessions.lemma_filter_pred(p, k);
    }
}

/// The administrator who acts is known afterwards, under the tenant that was named, and nobody else changes.
pub proof fn acting_administrators_are_known(
    s: DurableStateModel,
    tenant: TenantId,
    actor: UserId,
    other: Seq<char>,
)
    requires
        ascending(s.tenants),
        ascending(s.users),
    ensures
        ({
            let after = with_admin(s, tenant, actor);
            &&& lookup(after.tenants, tenant@) matches Some(record) && record.id == tenant
            &&& lookup(after.users, actor@) matches Some(user) && user.id == actor && user.tenant
                == tenant
            &&& other != tenant@ ==> lookup(after.tenants, other) == lookup(s.tenants, other)
            &&& other != actor@ ==> lookup(after.users, other) == lookup(s.users, other)
            &&& after.projects == s.projects && after.cli_sessions == s.cli_sessions
            &&& after.service_policy_records == s.service_policy_records
        }),
{
    broadcast use lemma_lookup_put;

}

/// An environment is taken exactly where its record is of its definition and its names have a fair length.
pub proof fn environments_are_taken_as_defined(record: ProjectEnvironmentRecord)
    ensures
        environment_refusal(record) is None <==> {
            &&& 0 < record.name@.len() && byte_len(record.name@) <= 128
            &&& record.definition.name@ == record.name@
            &&& record.definition.digest@ == record.immutable_digest@
            &&& record.definition.requirements.arch matches Some(arch) ==> trimmed(arch@).len() > 0
                && byte_len(arch@) <= 128
        },
{
}

} // verus!
