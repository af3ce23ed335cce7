//! The figures that the service reports of itself, and what is set or recorded on it directly.
use vstd::prelude::*;
use vstd::string::*;

use crate::automated_run::{AutomatedRunStageRecord, AutomatedRunStageRecordModel, AutomatedRunState, AutomationState};
use crate::automation::run_count;
use crate::configuration::{CoordinatorMainRuntimeConfiguration, CoordinatorOperationalMetrics, MainRuntimeCeilings};
use crate::coordinator::{CoordinatorModel, account_active, account_status, nodes_of, processes_of, projects_of};
use crate::duplicate::{Duplicate, option_view};
use crate::durable::{CliSessionRecord, DurableStateModel, ProjectPermissionRecord, ProjectRecord, ServicePolicyRecord};
use crate::ids::{Digest, ProjectId, RunId, ScopeText, TenantId};
use crate::main_runtime::CoordinatorMainRuntimeModel;
use crate::ordered::OrderedKey;
use crate::ordered_map::{OrderedMap, lookup, put};
use crate::service::{CoordinatorService, CoordinatorServiceModel};
use crate::service_error::{CoordinatorServiceError, unauthorized};
use crate::text::{begins_with, byte_len, chars_of, starts_with, text_eq, text_len};
use crate::node_registry::{NodeDescriptorModel, live};

verus! {

/// A run that is in a state.
pub open spec fn in_state(state: AutomatedRunState) -> spec_fn(AutomatedRunStageRecordModel) -> bool {
    |run: AutomatedRunStageRecordModel| run.run.state == state
}

/// A run that failed to be compiled.
pub open spec fn failed_to_compile() -> spec_fn(AutomatedRunStageRecordModel) -> bool {
    |run: AutomatedRunStageRecordModel|
        run.run.state is Failed && (run.run.failure_code matches Some(code) && (starts_with(
            code@,
            "compile"@,
        ) || starts_with(code@, "system_assignment"@)))
}

/// A run that waits for a reason.
pub open spec fn waits_because(reason: Seq<char>) -> spec_fn(AutomatedRunStageRecordModel) -> bool {
    |run: AutomatedRunStageRecordModel| option_view(run.run.waiting_reason) == Some(reason)
}

/// For how long a moment has passed.
pub open spec fn passed(since: u64, now: u64) -> nat {
    if now >= since {
        (now - since) as nat
    } else {
        0
    }
}

/// For how long the runs that wait for a compiler have waited, all together.
pub open spec fn waited(runs: Seq<(Seq<char>, AutomatedRunStageRecordModel)>, now: u64) -> nat
    decreases runs.len(),
{
    if runs.len() == 0 {
        0
    } else {
        let run = runs.last().1;
        waited(runs.drop_last(), now) + if run.run.state is WaitingForCompilerNode {
            passed(run.run.created_at, now)
        } else {
            0
        }
    }
}

/// For how long the runs that are being compiled have been, all together, by when their compilation
/// was acknowledged.
pub open spec fn compiled_for(
    runs: Seq<(Seq<char>, AutomatedRunStageRecordModel)>,
    acknowledged: Seq<(Seq<char>, u64)>,
    now: u64,
) -> nat
    decreases runs.len(),
{
    if runs.len() == 0 {
        0
    } else {
        let run = runs.last().1;
        compiled_for(runs.drop_last(), acknowledged, now) + if run.run.state is CompilingWorkflow {
            match lookup(acknowledged, run.run.run_id@) {
                Some(since) => passed(since, now),
                None => 0,
            }
        } else {
            0
        }
    }
}

/// How much the modules that were compiled take, all together.
pub open spec fn compiled_bytes(runs: Seq<(Seq<char>, AutomatedRunStageRecordModel)>) -> nat
    decreases runs.len(),
{
    if runs.len() == 0 {
        0
    } else {
        compiled_bytes(runs.drop_last()) + match runs.last().1.compiled_bundle {
            Some(bundle) => byte_len(bundle.module_base64@) + byte_len(bundle.debug_metadata_base64@),
            None => 0,
        }
    }
}

/// A number, or the limit where it is beyond.
pub open spec fn at_most(n: nat, limit: nat) -> nat {
    if n <= limit {
        n
    } else {
        limit
    }
}

/// What the registry of tasks knows: how many tasks run, how many wait, and when the compilations that
/// are under way were acknowledged.
pub struct TaskFigures {
    pub active_tasks: usize,
    pub queued_tasks: usize,
    pub acknowledged: OrderedMap<RunId, u64>,
}

/// The figures of the service.
pub open spec fn metrics_of(s: CoordinatorServiceModel, tasks: TaskFigures, now: u64) -> CoordinatorOperationalMetrics {
    let runs = s.coordinator.durable.automation.automated_runs;
    CoordinatorOperationalMetrics {
        tenants: s.coordinator.durable.tenants.len() as usize,
        users: s.coordinator.durable.users.len() as usize,
        projects: s.coordinator.durable.projects.len() as usize,
        enrolled_nodes: s.coordinator.durable.node_identities.len() as usize,
        reported_nodes: s.nodes.descriptors.len() as usize,
        live_nodes: live_nodes(s, now) as usize,
        active_processes: s.coordinator.active_processes.len() as usize,
        active_coordinator_mains: s.mains.controls.len() as usize,
        max_active_coordinator_mains: s.mains.limits.max_active_mains,
        active_tasks: tasks.active_tasks,
        queued_tasks: tasks.queued_tasks,
        artifacts: s.artifacts.artifacts.len() as usize,
        retained_download_links: s.artifacts.issued_download_links.len() as usize,
        artifact_direct_body_bytes: s.interchange.direct_body_bytes,
        artifact_relayed_body_bytes: s.interchange.relayed_body_bytes,
        artifact_unknown_path_body_bytes: s.interchange.unknown_path_body_bytes,
        system_assignments_pending: run_count(
            runs,
            in_state(AutomatedRunState::WaitingForCompilerNode),
        ) as usize,
        system_assignments_running: run_count(
            runs,
            in_state(AutomatedRunState::CompilingWorkflow),
        ) as usize,
        system_assignments_failed: run_count(runs, failed_to_compile()) as usize,
        compile_wait_seconds: at_most(waited(runs, now), u64::MAX as nat) as u64,
        compile_duration_seconds: at_most(
            compiled_for(runs, tasks.acknowledged@, now),
            u64::MAX as nat,
        ) as u64,
        compile_result_bytes: at_most(compiled_bytes(runs), usize::MAX as nat) as usize,
        system_bundle_mismatches: run_count(
            runs,
            waits_because("system_bundle_version_mismatch_or_unavailable"@),
        ) as usize,
        node_policy_rejections: run_count(
            runs,
            waits_because("node_policy_disables_workflow_compilation"@),
        ) as usize,
    }
}

/// How many nodes are live.
pub open spec fn live_nodes(s: CoordinatorServiceModel, now: u64) -> nat {
    s.nodes.descriptors.filter(is_live_entry(s, now)).len()
}

/// A node that is live.
pub open spec fn is_live_entry(s: CoordinatorServiceModel, now: u64) -> spec_fn((ScopeText, NodeDescriptorModel)) -> bool {
    |e: (ScopeText, NodeDescriptorModel)| live(s.nodes, e.0, now, s.node_stale_after_seconds)
}

fn sum_within(a: u64, b: u64) -> (r: u64)
    ensures
        r == at_most((a + b) as nat, u64::MAX as nat),
{
    if a > u64::MAX - b {
        u64::MAX
    } else {
        a + b
    }
}

fn size_within(a: usize, b: usize) -> (r: usize)
    ensures
        r == at_most((a + b) as nat, usize::MAX as nat),
{
    if a > usize::MAX - b {
        usize::MAX
    } else {
        a + b
    }
}

fn time_passed(since: u64, now: u64) -> (r: u64)
    ensures
        r == passed(since, now),
{
    if now >= since {
        now - since
    } else {
        0
    }
}

fn sum_waits(runs: &OrderedMap<RunId, AutomatedRunStageRecord>, now: u64) -> (r: u64)
    ensures
        r == at_most(waited(runs@, now), u64::MAX as nat),
{
    let mut sum: u64 = 0;
    let mut i: usize = 0;
    while i < runs.len()
        invariant
            0 <= i <= runs@.len(),
            sum == at_most(waited(runs@.take(i as int), now), u64::MAX as nat),
        decreases runs@.len() - i,
    {
        let record: &AutomatedRunStageRecord = runs.value_at(i);
        assert(runs@.take(i + 1).drop_last() =~= runs@.take(i as int));
        if record.run.state == AutomatedRunState::WaitingForCompilerNode {
            sum = sum_within(sum, time_passed(record.run.created_at, now));
        }
        i = i + 1;
    }
    assert(runs@.take(runs@.len() as int) =~= runs@);
    sum
}

fn sum_compilations(runs: &OrderedMap<RunId, AutomatedRunStageRecord>, acknowledged: &OrderedMap<RunId, u64>, now: u64) -> (r: u64)
    ensures
        r == at_most(compiled_for(runs@, acknowledged@, now), u64::MAX as nat),
{
    let mut sum: u64 = 0;
    let mut i: usize = 0;
    while i < runs.len()
        invariant
            0 <= i <= runs@.len(),
            sum == at_most(
                compiled_for(runs@.take(i as int), acknowledged@, now),
                u64::MAX as nat,
            ),
        decreases runs@.len() - i,
    {
        let record: &AutomatedRunStageRecord = runs.value_at(i);
        assert(runs@.take(i + 1).drop_last() =~= runs@.take(i as int));
        if record.run.state == AutomatedRunState::CompilingWorkflow {
            assert(record.run.run_id.key() == record.run.run_id@);
            match acknowledged.get(&record.run.run_id) {
                Some(since) => {
                    sum = sum_within(sum, time_passed(*since, now));
                },
                None => {},
            }
        }
        i = i + 1;
    }
    assert(runs@.take(runs@.len() as int) =~= runs@);
    sum
}

fn sum_modules(runs: &OrderedMap<RunId, AutomatedRunStageRecord>) -> (r: usize)
    ensures
        r == at_most(compiled_bytes(runs@), usize::MAX as nat),
{
    let mut sum: usize = 0;
    let mut i: usize = 0;
    while i < runs.len()
        invariant
            0 <= i <= runs@.len(),
            sum == at_most(compiled_bytes(runs@.take(i as int)), usize::MAX as nat),
        decreases runs@.len() - i,
    {
        let record: &AutomatedRunStageRecord = runs.value_at(i);
        assert(runs@.take(i + 1).drop_last() =~= runs@.take(i as int));
        match &record.compiled_bundle {
            Some(bundle) => {
                let module: usize = text_len(bundle.module_base64.as_str());
                let metadata: usize = text_len(bundle.debug_metadata_base64.as_str());
                sum = size_within(size_within(sum, module), metadata);
            },
            None => {},
        }
        i = i + 1;
    }
    assert(runs@.take(runs@.len() as int) =~= runs@);
    sum
}

fn is_compile_failure(record: &AutomatedRunStageRecord) -> (r: bool)
    ensures
        r == failed_to_compile()(record@),
{
    if record.run.state != AutomatedRunState::Failed {
        return false;
    }
    match &record.run.failure_code {
        Some(code) => {
            let chars: Vec<char> = chars_of(code.as_str());
            let compile: Vec<char> = chars_of("compile");
            let assignment: Vec<char> = chars_of("system_assignment");
            begins_with(&chars, &compile) || begins_with(&chars, &assignment)
        },
        None => false,
    }
}

fn waits_for_reason(record: &AutomatedRunStageRecord, reason: &str) -> (r: bool)
    ensures
        r == waits_because(reason@)(record@),
{
    match &record.run.waiting_reason {
        Some(text) => text_eq(text.as_str(), reason),
        None => false,
    }
}

impl CoordinatorService {
    /// The figures of the service. A sum that no number can hold stands at the largest one.
    pub fn operational_metrics(&self, tasks: &TaskFigures, now: u64) -> (r: CoordinatorOperationalMetrics)
        ensures
            r == metrics_of(self@, *tasks, now),
    {
        let automation: &AutomationState = self.coordinator.automation();
        let runs: &OrderedMap<RunId, AutomatedRunStageRecord> = &automation.automated_runs;
        let (direct, relayed, unknown): (u64, u64, u64) = self.interchange_registry.metrics();
        let ghost pending_p = in_state(AutomatedRunState::WaitingForCompilerNode);
        let pending = |record: &AutomatedRunStageRecord| -> (b: bool)
            ensures
                b == pending_p(record@),
            { record.run.state == AutomatedRunState::WaitingForCompilerNode };
        let ghost running_p = in_state(AutomatedRunState::CompilingWorkflow);
        let running = |record: &AutomatedRunStageRecord| -> (b: bool)
            ensures
                b == running_p(record@),
            { record.run.state == AutomatedRunState::CompilingWorkflow };
        let ghost failed_p = failed_to_compile();
        let failed = |record: &AutomatedRunStageRecord| -> (b: bool)
            ensures
                b == failed_p(record@),
            { is_compile_failure(record) };
        let ghost mismatch_p = waits_because("system_bundle_version_mismatch_or_unavailable"@);
        let mismatch = |record: &AutomatedRunStageRecord| -> (b: bool)
            ensures
                b == mismatch_p(record@),
            { waits_for_reason(record, "system_bundle_version_mismatch_or_unavailable") };
        let ghost rejected_p = waits_because("node_policy_disables_workflow_compilation"@);
        let rejected = |record: &AutomatedRunStageRecord| -> (b: bool)
            ensures
                b == rejected_p(record@),
            { waits_for_reason(record, "node_policy_disables_workflow_compilation") };
        let online: usize = self.node_registry.live_count(now, self.node_stale_after_seconds);
        proof {
            let p = |e: (ScopeText, NodeDescriptorModel)|
                live(self@.nodes, e.0, now, self@.node_stale_after_seconds);
            assert(p =~= is_live_entry(self@, now));
        }
        CoordinatorOperationalMetrics {
            tenants: self.coordinator.tenant_count(),
            users: self.coordinator.user_count(),
            projects: self.coordinator.project_count(),
            enrolled_nodes: self.coordinator.node_identity_count(),
            reported_nodes: self.node_registry.reported_count(),
            live_nodes: online,
            active_processes: self.coordinator.active_process_count(),
            active_coordinator_mains: self.main_runtime.active_main_count(),
            max_active_coordinator_mains: self.main_runtime.max_active_mains(),
            active_tasks: tasks.active_tasks,
            queued_tasks: tasks.queued_tasks,
            artifacts: self.artifact_registry.artifact_count(),
            retained_download_links: self.artifact_registry.retained_download_link_count(),
            artifact_direct_body_bytes: direct,
            artifact_relayed_body_bytes: relayed,
            artifact_unknown_path_body_bytes: unknown,
            system_assignments_pending: automation.count_runs(pending, Ghost(pending_p)),
            system_assignments_running: automation.count_runs(running, Ghost(running_p)),
            system_assignments_failed: automation.count_runs(failed, Ghost(failed_p)),
            compile_wait_seconds: sum_waits(runs, now),
            compile_duration_seconds: sum_compilations(runs, &tasks.acknowledged, now),
            compile_result_bytes: sum_modules(runs),
            system_bundle_mismatches: automation.count_runs(mismatch, Ghost(mismatch_p)),
            node_policy_rejections: automation.count_runs(rejected, Ghost(rejected_p)),
        }
    }
}

/// The most of each that a tenant may have.
#[derive(Clone, Copy, Debug, PartialEq, Eq, Structural)]
pub struct AdmissionQuotaLimits {
    pub max_projects: u64,
    pub max_nodes: u64,
    pub max_active_processes: u64,
}

/// How much of each a tenant has, and the most that it may.
#[derive(Clone, Copy, Debug, PartialEq, Eq, Structural)]
pub struct TenantAdmissionStatus {
    pub projects_current: u64,
    pub projects_maximum: u64,
    pub node_identities_current: u64,
    pub node_identities_maximum: u64,
    pub active_processes_current: u64,
    pub active_processes_maximum: u64,
}

/// How much of each a tenant has: projects, nodes and active processes.
pub open spec fn tenant_usage(s: CoordinatorModel, tenant: Seq<char>) -> (u64, u64, u64) {
    (
        projects_of(s.durable, tenant).len() as u64,
        nodes_of(s.durable, tenant).len() as u64,
        processes_of(s.active_processes, tenant).len() as u64,
    )
}

/// What is told of the limits of a tenant.
pub open spec fn quota_told(
    s: CoordinatorServiceModel,
    tenant: Seq<char>,
    project: Seq<char>,
    limits: AdmissionQuotaLimits,
    r: Result<TenantAdmissionStatus, CoordinatorServiceError>,
) -> bool {
    match lookup(s.coordinator.durable.projects, project) {
        None => r matches Err(error) && error.denies("quota status requires an existing project"@),
        Some(known) => if known.tenant@ != tenant {
            r matches Err(error) && error.denies(
                "quota status project is outside the tenant scope"@,
            )
        } else {
            let usage = tenant_usage(s.coordinator, tenant);
            r == Ok::<TenantAdmissionStatus, CoordinatorServiceError>(
                TenantAdmissionStatus {
                    projects_current: usage.0,
                    projects_maximum: limits.max_projects,
                    node_identities_current: usage.1,
                    node_identities_maximum: limits.max_nodes,
                    active_processes_current: usage.2,
                    active_processes_maximum: limits.max_active_processes,
                },
            )
        },
    }
}

/// The service with another coordinator.
pub open spec fn with_coordinator(s: CoordinatorServiceModel, coordinator: CoordinatorModel) -> CoordinatorServiceModel {
    CoordinatorServiceModel { coordinator, ..s }
}

/// What a session that is issued leaves: the project where it was missing, the right of its user to
/// debug it, and the session.
pub open spec fn session_issued(before: DurableStateModel, after: DurableStateModel, session: CliSessionRecord) -> bool {
    &&& if lookup(before.projects, session.project@) is None {
        session_project_made(before, after, session)
    } else {
        after.projects == before.projects
    }
    &&& after == (DurableStateModel {
        projects: after.projects,
        project_permissions: put(
            before.project_permissions,
            (session.tenant@, session.project@, session.user@),
            ProjectPermissionRecord {
                tenant: session.tenant,
                project: session.project,
                user: session.user,
                can_debug: true,
            },
        ),
        cli_sessions: put(before.cli_sessions, session.session_digest@, session),
        ..before
    })
}

/// What comes of asking for a session.
pub open spec fn session_asked(
    before: CoordinatorServiceModel,
    after: CoordinatorServiceModel,
    session: CliSessionRecord,
    r: Result<CliSessionRecord, CoordinatorServiceError>,
) -> bool {
    let known = lookup(before.coordinator.durable.projects, session.project@);
    if !account_active(before.coordinator.durable, session.tenant@) {
        &&& r matches Err(error)
        &&& error.denies(
            "tenant is "@ + account_status(before.coordinator.durable, session.tenant@)
                + " by admin controls"@,
        )
        &&& after == before
    } else if known matches Some(project) && project.tenant@ != session.tenant@ {
        &&& r matches Err(error)
        &&& error.denies("CLI session project belongs to a different tenant"@)
        &&& after == before
    } else {
        &&& r == Ok::<CliSessionRecord, CoordinatorServiceError>(session)
        &&& session_issued(before.coordinator.durable, after.coordinator.durable, session)
        &&& after == with_coordinator(
            before,
            CoordinatorModel { durable: after.coordinator.durable, ..before.coordinator },
        )
    }
}

/// The project of a session is made.
pub open spec fn session_project_made(before: DurableStateModel, after: DurableStateModel, session: CliSessionRecord) -> bool {
    exists|name: String|
        name@ == "Session project"@ && after.projects == #[trigger] put(
            before.projects,
            session.project@,
            ProjectRecord { id: session.project, tenant: session.tenant, name },
        )
}

impl CoordinatorService {
    /// A project.
    pub fn project_record(&self, project: &ProjectId) -> (r: Option<&ProjectRecord>)
        ensures
            r is Some <==> lookup(self@.coordinator.durable.projects, project@) is Some,
            r matches Some(record) ==> lookup(self@.coordinator.durable.projects, project@)
                == Some(*record),
    {
        self.coordinator.project(project)
    }

    /// Sets for how long a stop of the debugger may take, at least a millisecond.
    pub fn set_debug_freeze_timeout(&mut self, timeout_ms: u64)
        ensures
            final(self)@ == (CoordinatorServiceModel {
                debug_freeze_timeout_ms: if timeout_ms == 0 {
                    1
                } else {
                    timeout_ms
                },
                ..old(self)@
            }),
    {
        self.debug_freeze_timeout_ms = if timeout_ms == 0 {
            1
        } else {
            timeout_ms
        };
    }

    /// Sets the limits of the coordinator mains.
    pub fn configure_coordinator_main_runtime(
        &mut self,
        configuration: CoordinatorMainRuntimeConfiguration,
        ceilings: MainRuntimeCeilings,
        runtime: Result<(), String>,
    ) -> (r: Result<(), CoordinatorServiceError>)
        ensures
            if !configuration.within(ceilings) {
                &&& r matches Err(error)
                &&& error.protests(CoordinatorMainRuntimeConfiguration::refusal(ceilings))
                &&& final(self)@ == old(self)@
            } else {
                match runtime {
                    Err(reason) => {
                        &&& r matches Err(error)
                        &&& error.protests(reason@)
                        &&& final(self)@ == old(self)@
                    },
                    Ok(_) => {
                        &&& r is Ok
                        &&& final(self)@ == (CoordinatorServiceModel {
                            mains: CoordinatorMainRuntimeModel {
                                limits: configuration,
                                ..old(self)@.mains
                            },
                            ..old(self)@
                        })
                    },
                }
            },
    {
        self.main_runtime.configure(configuration, ceilings, runtime)
    }

    /// Records a policy of a tenant.
    pub fn record_service_policy(&mut self, tenant: TenantId, name: String, digest: Digest) -> (r:
        ServicePolicyRecord)
        ensures
            r.tenant@ == tenant@ && r.name@ == name@ && r.digest@ == digest@,
            final(self)@ == with_coordinator(
                old(self)@,
                CoordinatorModel {
                    durable: DurableStateModel {
                        service_policy_records: put(
                            old(self)@.coordinator.durable.service_policy_records,
                            (tenant@, name@),
                            ServicePolicyRecord { tenant, name, digest },
                        ),
                        ..old(self)@.coordinator.durable
                    },
                    ..old(self)@.coordinator
                },
            ),
    {
        let record: ServicePolicyRecord = ServicePolicyRecord {
            tenant: tenant.clone(),
            name: name.clone(),
            digest: digest.clone(),
        };
        self.coordinator.upsert_service_policy_record(tenant, name, digest);
        record
    }

    /// How much of each a tenant has, for a user of a project of the tenant. `limits` is the most that
    /// the tenant may have.
    pub fn handle_quota_status(&self, tenant: &TenantId, project: &ProjectId, limits: AdmissionQuotaLimits) -> (r: Result<
        TenantAdmissionStatus,
        CoordinatorServiceError,
    >)
        ensures
            quota_told(self@, tenant@, project@, limits, r),
    {
        match self.coordinator.project(project) {
            None => {
                return Err(unauthorized("quota status requires an existing project"));
            },
            Some(known) => {
                if known.tenant != *tenant {
                    return Err(unauthorized("quota status project is outside the tenant scope"));
                }
            },
        }
        Ok(
            TenantAdmissionStatus {
                projects_current: self.coordinator.project_count_for_tenant(tenant) as u64,
                projects_maximum: limits.max_projects,
                node_identities_current: self.coordinator.node_identity_count_for_tenant(
                    tenant,
                ) as u64,
                node_identities_maximum: limits.max_nodes,
                active_processes_current: self.coordinator.active_process_count_for_tenant(
                    tenant,
                ) as u64,
                active_processes_maximum: limits.max_active_processes,
            },
        )
    }

    /// Issues a session to a user of a tenant that is active. A project that is missing is made, and the
    /// user may debug it.
    pub fn issue_cli_session(&mut self, session: CliSessionRecord) -> (r: Result<
        CliSessionRecord,
        CoordinatorServiceError,
    >)
        ensures
            session_asked(old(self)@, final(self)@, session, r),
    {
        match self.coordinator.ensure_tenant_active(&session.tenant) {
            Ok(_) => {},
            Err(error) => {
                return Err(CoordinatorServiceError::Coordinator(error));
            },
        }
        let exists_already: bool = match self.coordinator.project(&session.project) {
            Some(known) => {
                if known.tenant != session.tenant {
                    return Err(unauthorized("CLI session project belongs to a different tenant"));
                }
                true
            },
            None => false,
        };
        let ghost before = self@.coordinator.durable;
        if !exists_already {
            let name: String = "Session project".to_owned();
            let ghost made = name;
            self.coordinator.upsert_project(
                session.tenant.clone(),
                session.project.clone(),
                name,
            );
            assert(self@.coordinator.durable.projects == put(
                before.projects,
                session.project@,
                ProjectRecord { id: session.project, tenant: session.tenant, name: made },
            ));
            assert(session_project_made(before, self@.coordinator.durable, session));
        }
        self.coordinator.grant_project_debug(
            session.tenant.clone(),
            session.project.clone(),
            session.user.clone(),
        );
        self.coordinator.put_cli_session(session.duplicate());
        Ok(session)
    }
}

} // verus!
