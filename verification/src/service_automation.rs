//! Automated runs, as the service has them.
use vstd::prelude::*;
use vstd::string::*;

use crate::automated_run::{AcceptedCommitTriggerRecord, AutomatedRunRecord, AutomatedRunStageRecord, AutomatedRunStageRecordModel, AutomatedRunState, AutomationStateModel, EnvironmentResource, ProjectEnvironmentRecord, RepositoryRevision, TriggerContext, WorkflowCompilationRequest, WorkflowSource};
use crate::automation::{MAX_RUNS_PER_PROJECT, ProcessFinalResult, RetryDigests, by_name, claims_source, compilation_asked, delivered, delivered_run, environment_refusal, first_chars, first_run, interrupted, is_digest_text, is_failed_run, launches_pending, made_by, page, process_end_recorded, publication_recorded, retry_made, retry_refusal, run_ended, runs_newest_first, runs_paged, runs_process, source_recorded, sources_pending, trigger_of_run, waiting_recorded, with_run, without_compilation};
use crate::duplicate::{option_view, texts, views};
use crate::ids::{ProcessId, ProjectId, RunId, TenantId, TriggerId};
use crate::ordered_map::{OrderedMap, lookup, put};
use crate::sequences::holds_of_some;
use crate::service::{CoordinatorService, CoordinatorServiceModel};
use crate::service_error::{CoordinatorServiceError, protocol, unauthorized};
use crate::system_tasks::service_with;

verus! {

/// What an environment that is set for a project comes to.
pub open spec fn environment_configured(
    before: CoordinatorServiceModel,
    after: CoordinatorServiceModel,
    record: ProjectEnvironmentRecord,
    r: Result<(), CoordinatorServiceError>,
) -> bool {
    &&& match environment_refusal(record) {
        Some(reason) => r matches Err(error) && error.protests(reason) && after.coordinator.durable.automation
            == before.coordinator.durable.automation,
        None => r is Ok && after.coordinator.durable.automation == (AutomationStateModel {
            project_environments: put(
                before.coordinator.durable.automation.project_environments,
                (record.tenant@, record.project@, record.name@),
                record,
            ),
            ..before.coordinator.durable.automation
        }),
    }
    &&& after == service_with(before, after.coordinator.durable.automation)
}

impl CoordinatorService {
    pub fn automated_run(&self, run_id: &RunId) -> (r: Option<&AutomatedRunStageRecord>)
        ensures
            r is Some <==> lookup(self@.coordinator.durable.automation.automated_runs, run_id@) is Some,
            r matches Some(record) ==> lookup(self@.coordinator.durable.automation.automated_runs, run_id@) == Some(record@),
    {
        self.coordinator.automation().automated_run(run_id)
    }

    /// The run that a delivery of a forge has led to.
    pub fn automated_run_for_trigger_delivery(&self, binding_id: &String, delivery_id: &String) -> (r:
        Option<RunId>)
        ensures
            option_view(r) == delivered_run(self@.coordinator.durable.automation, binding_id@, delivery_id@),
    {
        self.coordinator.automation().automated_run_for_trigger_delivery(binding_id, delivery_id)
    }

    /// Tenant and project of a run, as its trigger has them.
    pub fn automated_run_scope(&self, run_id: &RunId) -> (r: Option<(TenantId, ProjectId)>)
        ensures
            match trigger_of_run(self@.coordinator.durable.automation, run_id@) {
                Some(accepted) => r == Some((accepted.tenant, accepted.project)),
                None => r is None,
            },
    {
        self.coordinator.automation().automated_run_scope(run_id)
    }

    /// Fails the runs that were running when the coordinator stopped. Hands out their identifiers.
    pub fn reconcile_automated_runs_after_coordinator_restart(&mut self, now: u64) -> (r: Vec<RunId>)
        ensures
            interrupted(old(self)@.coordinator.durable.automation, final(self)@.coordinator.durable.automation, now),
            texts(r@) == old(self)@.coordinator.durable.automation.automated_runs.filter_map(
                |e: (Seq<char>, AutomatedRunStageRecordModel)|
                    if e.1.run.state == AutomatedRunState::Running {
                        Some(e.0)
                    } else {
                        None
                    },
            ),
            final(self)@ == service_with(old(self)@, final(self)@.coordinator.durable.automation),
    {
        self.coordinator.automation_mut().reconcile_automated_runs_after_coordinator_restart(now)
    }

    /// The triggers of runs whose source is to be loaded, the oldest first, no more than a page.
    pub fn pending_source_loads(&self, limit: usize) -> (r: Vec<AcceptedCommitTriggerRecord>)
        ensures
            sources_pending(self@.coordinator.durable.automation, limit, views(r@)),
    {
        self.coordinator.automation().pending_source_loads(limit)
    }

    /// Marks the run of a trigger as loading its source.
    pub fn claim_source_load(&mut self, trigger_id: &TriggerId) -> (r: Result<
        RunId,
        CoordinatorServiceError,
    >)
        ensures
            !holds_of_some(old(self)@.coordinator.durable.automation.automated_runs, made_by(trigger_id@)) ==> {
                &&& r matches Err(error)
                &&& error.protests("unknown trigger run"@)
                &&& final(self)@.coordinator.durable.automation == old(self)@.coordinator.durable.automation
            },
            holds_of_some(old(self)@.coordinator.durable.automation.automated_runs, made_by(trigger_id@)) ==> {
                &&& r matches Ok(run_id)
                &&& claims_source(old(self)@.coordinator.durable.automation, final(self)@.coordinator.durable.automation, trigger_id@, run_id@)
            },
            final(self)@ == service_with(old(self)@, final(self)@.coordinator.durable.automation),
    {
        self.coordinator.automation_mut().claim_source_load(trigger_id)
    }

    /// The runs whose process can be launched, the oldest first, no more than a page.
    pub fn launchable_automated_runs(&self, limit: usize) -> (r: Vec<RunId>)
        ensures
            launches_pending(self@.coordinator.durable.automation, limit, texts(r@)),
    {
        self.coordinator.automation().launchable_automated_runs(limit)
    }

    /// The runs of a project, the newest first.
    pub fn automated_runs(&self, tenant: &TenantId, project: &ProjectId) -> (r: Vec<
        AutomatedRunRecord,
    >)
        ensures
            runs_newest_first(self@.coordinator.durable.automation, tenant@, project@, r@),
    {
        self.coordinator.automation().automated_runs(tenant, project)
    }

    /// A page of the runs of a project, the newest first, and the cursor of the next page.
    pub fn automated_runs_page(
        &self,
        tenant: &TenantId,
        project: &ProjectId,
        cursor: Option<&str>,
        limit: usize,
    ) -> (r: Result<(Vec<AutomatedRunRecord>, Option<String>), CoordinatorServiceError>)
        ensures
            limit == 0 || limit > MAX_RUNS_PER_PROJECT ==> (r matches Err(error) && error.protests(
                "automated run page limit must be between 1 and 64"@,
            )),
            0 < limit <= MAX_RUNS_PER_PROJECT ==> runs_paged(
                self@.coordinator.durable.automation,
                tenant@,
                project@,
                option_view(cursor),
                limit,
                r,
            ),
    {
        self.coordinator.automation().automated_runs_page(tenant, project, cursor, limit)
    }

    /// Records the source that was loaded for a run. `source_check` and `revision_check` are what
    /// the checks of the two in themselves gave.
    pub fn record_automated_run_source(
        &mut self,
        run_id: &RunId,
        source: WorkflowSource,
        revision: RepositoryRevision,
        source_check: Result<(), String>,
        revision_check: Result<(), String>,
    ) -> (r: Result<AutomatedRunStageRecord, CoordinatorServiceError>)
        ensures
            source_recorded(
                old(self)@.coordinator.durable.automation,
                final(self)@.coordinator.durable.automation,
                run_id@,
                source@,
                revision,
                source_check,
                revision_check,
                r,
            ),
            final(self)@ == service_with(old(self)@, final(self)@.coordinator.durable.automation),
    {
        self.coordinator.automation_mut().record_automated_run_source(run_id, source, revision, source_check, revision_check)
    }

    /// Asks for the compilation of a run. `check` is what the check of the request in itself gave.
    pub fn enqueue_workflow_compilation(
        &mut self,
        request: WorkflowCompilationRequest,
        check: Result<(), String>,
    ) -> (r: Result<AutomatedRunStageRecord, CoordinatorServiceError>)
        ensures
            compilation_asked(
                old(self)@.coordinator.durable.automation,
                final(self)@.coordinator.durable.automation,
                request@,
                check,
                r,
            ),
            final(self)@ == service_with(old(self)@, final(self)@.coordinator.durable.automation),
    {
        self.coordinator.automation_mut().enqueue_workflow_compilation(request, check)
    }

    /// Runs a failed or cancelled run again, as a run of its own. `retries` holds the digests of
    /// the first, second and further retries.
    pub fn retry_automated_run(&mut self, run_id: &RunId, retries: &Vec<RetryDigests>, now: u64) -> (r:
        Result<AutomatedRunStageRecord, CoordinatorServiceError>)
        requires
            retries@.len() <= MAX_RUNS_PER_PROJECT,
            forall|i: int|
                0 <= i < retries@.len() ==> is_digest_text((#[trigger] retries@[i]).run_key@),
        ensures
            match retry_refusal(old(self)@.coordinator.durable.automation, run_id@) {
                Some(text) => {
                    &&& r matches Err(error)
                    &&& error.protests(text)
                    &&& final(self)@.coordinator.durable.automation == old(self)@.coordinator.durable.automation
                },
                None => retry_made(old(self)@.coordinator.durable.automation, final(self)@.coordinator.durable.automation, run_id@, retries@, now, r),
            },
            final(self)@ == service_with(old(self)@, final(self)@.coordinator.durable.automation),
    {
        self.coordinator.automation_mut().retry_automated_run(run_id, retries, now)
    }

    /// Defines an environment of a project.
    pub fn configure_project_environment(&mut self, record: ProjectEnvironmentRecord) -> (r: Result<
        (),
        CoordinatorServiceError,
    >)
        ensures
            environment_configured(
                old(self)@,
                final(self)@,
                record,
                r,
            ),
    {
        self.coordinator.automation_mut().configure_project_environment(record)
    }

    /// What the run of a process is told of its trigger.
    pub fn automated_trigger_context(
        &self,
        tenant: &TenantId,
        project: &ProjectId,
        process: &ProcessId,
    ) -> (r: Option<TriggerContext>)
        ensures
            option_view(r) == match first_run(
                self@.coordinator.durable.automation,
                runs_process(tenant@, project@, process@),
            ) {
                Some(e) => e.1.trigger_context,
                None => None,
            },
    {
        self.coordinator.automation().automated_trigger_context(tenant, project, process)
    }

    /// The revision that the run of a process is of.
    pub fn automated_source_revision(
        &self,
        tenant: &TenantId,
        project: &ProjectId,
        process: &ProcessId,
    ) -> (r: Option<RepositoryRevision>)
        ensures
            option_view(r) == match first_run(
                self@.coordinator.durable.automation,
                runs_process(tenant@, project@, process@),
            ) {
                Some(e) => e.1.revision,
                None => None,
            },
    {
        self.coordinator.automation().automated_source_revision(tenant, project, process)
    }

    /// The environments that the revision of a process defines, by their names.
    pub fn automated_environment_definitions(
        &self,
        tenant: &TenantId,
        project: &ProjectId,
        process: &ProcessId,
    ) -> (r: OrderedMap<String, EnvironmentResource>)
        ensures
            r@ == match first_run(self@.coordinator.durable.automation, runs_process(tenant@, project@, process@)) {
                Some(e) => by_name(e.1.revision_environments),
                None => Seq::empty(),
            },
    {
        self.coordinator.automation().automated_environment_definitions(tenant, project, process)
    }

    /// Notes why the run of a process waits; `reason` is short enough to be kept.
    pub fn record_automated_process_waiting_reason(
        &mut self,
        tenant: &TenantId,
        project: &ProjectId,
        process: &ProcessId,
        reason: Option<String>,
    )
        ensures
            waiting_recorded(
                old(self)@.coordinator.durable.automation,
                final(self)@.coordinator.durable.automation,
                (tenant@, project@, process@),
                reason,
            ),
            final(self)@ == service_with(old(self)@, final(self)@.coordinator.durable.automation),
    {
        self.coordinator.automation_mut().record_automated_process_waiting_reason(tenant, project, process, reason)
    }

    /// Notes the release that the run of a process has published.
    pub fn record_automated_publication(
        &mut self,
        tenant: &TenantId,
        project: &ProjectId,
        process: &ProcessId,
        tag: String,
        release_url: String,
    )
        ensures
            publication_recorded(
                old(self)@.coordinator.durable.automation,
                final(self)@.coordinator.durable.automation,
                (tenant@, project@, process@),
                tag,
                release_url,
            ),
            final(self)@ == service_with(old(self)@, final(self)@.coordinator.durable.automation),
    {
        self.coordinator.automation_mut().record_automated_publication(tenant, project, process, tag, release_url)
    }

    /// Ends the run of a process that has ended. `failure_message` says why where it has failed.
    pub fn record_automated_process_terminal(
        &mut self,
        tenant: &TenantId,
        project: &ProjectId,
        process: &ProcessId,
        result: ProcessFinalResult,
        failure_message: String,
        now: u64,
    )
        ensures
            process_end_recorded(
                old(self)@.coordinator.durable.automation,
                final(self)@.coordinator.durable.automation,
                (tenant@, project@, process@),
                result,
                failure_message@,
                now,
            ),
            final(self)@ == service_with(old(self)@, final(self)@.coordinator.durable.automation),
    {
        self.coordinator.automation_mut().record_automated_process_terminal(tenant, project, process, result, failure_message, now)
    }
}

/// Why a push is refused before it is looked up.
pub open spec fn push_refused(
    s: CoordinatorServiceModel,
    accepted: AcceptedCommitTriggerRecord,
    trigger_check: Result<(), String>,
    body_digest_valid: bool,
    error: CoordinatorServiceError,
) -> bool {
    if trigger_check is Err {
        error.protests(trigger_check->Err_0@)
    } else if !body_digest_valid {
        error.protests("webhook body digest is not a SHA-256 digest"@)
    } else if lookup(s.coordinator.durable.projects, accepted.project@) is None {
        error.denies("trigger project does not exist"@)
    } else {
        error.denies("trigger project is outside the tenant scope"@)
    }
}

/// A push of a project of the tenant, in order.
pub open spec fn push_fits(
    s: CoordinatorServiceModel,
    accepted: AcceptedCommitTriggerRecord,
    trigger_check: Result<(), String>,
    body_digest_valid: bool,
) -> bool {
    &&& trigger_check is Ok
    &&& body_digest_valid
    &&& lookup(s.coordinator.durable.projects, accepted.project@) matches Some(project)
    &&& project.tenant@ == accepted.tenant@
}

/// What a failure in a stage of a run comes to.
pub open spec fn stage_failed(
    before: CoordinatorServiceModel,
    after: CoordinatorServiceModel,
    run_id: RunId,
    code: Seq<char>,
    message: Seq<char>,
    limit: usize,
    now: u64,
    r: Result<(), CoordinatorServiceError>,
) -> bool {
    let runs = before.coordinator.durable.automation;
    let left = after.coordinator.durable.automation;
    match lookup(runs.automated_runs, run_id@) {
        None => r matches Err(error) && error.protests("unknown automated run"@)
            && after == before,
        Some(run) => {
            &&& r is Ok
            &&& if run_ended(run.run.state) {
                after == before
            } else {
                &&& lookup(left.automated_runs, run_id@) matches Some(failed)
                &&& is_failed_run(
                    failed,
                    run,
                    code,
                    first_chars(message, limit as int),
                    now,
                )
                &&& after == service_with(
                    before,
                    with_run(runs, run_id@, failed),
                )
            }
        },
    }
}

/// What cancelling a run comes to.
pub open spec fn run_cancelled_by_request(
    before: CoordinatorServiceModel,
    after: CoordinatorServiceModel,
    run_id: RunId,
    now: u64,
    r: Result<RunCancellation, CoordinatorServiceError>,
) -> bool {
    let runs = before.coordinator.durable.automation;
    match lookup(runs.automated_runs, run_id@) {
        None => r matches Err(error) && error.protests("unknown automated run"@)
            && after == before,
        Some(run) => {
            &&& r matches Ok(cancellation)
            &&& cancellation.record@ == cancelled_run(run, now)
            &&& option_view(cancellation.process) == cancelled_process(
                before,
                run_id@,
            )
            &&& after == service_with(before, run_closed(runs, run_id@, now))
        },
    }
}

impl CoordinatorService {
    /// Accepts a push that a forge has delivered. A push that was accepted is answered with its run.
    pub fn accept_commit_trigger(
        &mut self,
        accepted: AcceptedCommitTriggerRecord,
        trigger_check: Result<(), String>,
        body_digest_valid: bool,
    ) -> (r: Result<AutomatedRunStageRecord, CoordinatorServiceError>)
        requires
            is_digest_text(accepted.trigger.run_identity@),
        ensures
            if push_fits(old(self)@, accepted, trigger_check, body_digest_valid) {
                &&& delivered(
                    old(self)@.coordinator.durable.automation,
                    final(self)@.coordinator.durable.automation,
                    accepted,
                    r,
                )
                &&& final(self)@ == service_with(
                    old(self)@,
                    final(self)@.coordinator.durable.automation,
                )
            } else {
                &&& r matches Err(error)
                &&& push_refused(old(self)@, accepted, trigger_check, body_digest_valid, error)
                &&& final(self)@ == old(self)@
            },
    {
        match trigger_check {
            Ok(_) => {},
            Err(text) => {
                return Err(CoordinatorServiceError::Protocol(text));
            },
        }
        if !body_digest_valid {
            return Err(protocol("webhook body digest is not a SHA-256 digest"));
        }
        match self.coordinator.project(&accepted.project) {
            None => {
                return Err(unauthorized("trigger project does not exist"));
            },
            Some(project) => {
                if project.tenant != accepted.tenant {
                    return Err(unauthorized("trigger project is outside the tenant scope"));
                }
            },
        }
        self.coordinator.automation_mut().accept_commit_trigger(accepted)
    }

    /// Fails a run that has not ended. `limit` bounds the message.
    pub fn fail_automated_run_stage(
        &mut self,
        run_id: &RunId,
        code: &str,
        message: &str,
        limit: usize,
        now: u64,
    ) -> (r: Result<(), CoordinatorServiceError>)
        ensures
            stage_failed(
                old(self)@,
                final(self)@,
                *run_id,
                code@,
                message@,
                limit,
                now,
                r,
            ),
    {
        self.coordinator.automation_mut().fail_automated_run(run_id, code, message, limit, now)
    }

    /// The process that is to be cancelled along with a run: the one of a run that has not ended, while
    /// it is active.
    fn process_to_cancel(&self, run_id: &RunId) -> (r: Option<ProcessId>)
        ensures
            option_view(r) == cancelled_process(self@, run_id@),
    {
        match self.automated_run(run_id) {
            None => None,
            Some(record) => {
                if record.run.state.is_terminal() {
                    return None;
                }
                match &record.run.process_id {
                    None => None,
                    Some(process) => {
                        if self.coordinator.active_process(
                            &record.run.tenant,
                            &record.run.project,
                            process,
                        ).is_some() {
                            Some(process.clone())
                        } else {
                            None
                        }
                    },
                }
            },
        }
    }

    /// Cancels a run that has not ended. The answer names the process that is to be cancelled along with
    /// it.
    pub fn cancel_automated_run(&mut self, run_id: &RunId, now: u64) -> (r: Result<
        RunCancellation,
        CoordinatorServiceError,
    >)
        ensures
            run_cancelled_by_request(
                old(self)@,
                final(self)@,
                *run_id,
                now,
                r,
            ),
    {
        let process: Option<ProcessId> = self.process_to_cancel(run_id);
        match self.coordinator.automation_mut().cancel_automated_run(run_id, now) {
            Ok(record) => Ok(RunCancellation { record, process }),
            Err(error) => Err(error),
        }
    }
}

/// A run that was cancelled, and the process that is to be cancelled along with it.
pub struct RunCancellation {
    pub record: AutomatedRunStageRecord,
    pub process: Option<ProcessId>,
}

/// The runs with one cancelled. One that is not known or has ended changes nothing.
pub open spec fn run_closed(s: AutomationStateModel, id: Seq<char>, now: u64) -> AutomationStateModel {
    match lookup(s.automated_runs, id) {
        None => s,
        Some(run) => if run_ended(run.run.state) {
            s
        } else {
            with_run(s, id, cancelled_run(run, now))
        },
    }
}

/// The runs with the first `n` of the given ones cancelled.
pub open spec fn runs_closed(s: AutomationStateModel, ids: Seq<Seq<char>>, n: int, now: u64) -> AutomationStateModel
    decreases n,
{
    if n <= 0 {
        s
    } else {
        run_closed(runs_closed(s, ids, n - 1, now), ids[n - 1], now)
    }
}

/// The process that is to be cancelled along with a run.
pub open spec fn cancelled_process(s: CoordinatorServiceModel, run: Seq<char>) -> Option<Seq<char>> {
    match lookup(s.coordinator.durable.automation.automated_runs, run) {
        None => None,
        Some(record) => if run_ended(record.run.state) {
            None
        } else {
            match record.run.process_id {
                None => None,
                Some(process) => if lookup(
                    s.coordinator.active_processes,
                    (record.run.tenant@, record.run.project@, process@),
                ) is Some {
                    Some(process@)
                } else {
                    None
                },
            }
        },
    }
}

/// A run that is cancelled. One that has ended stays as it is.
pub open spec fn cancelled_run(run: AutomatedRunStageRecordModel, now: u64) -> AutomatedRunStageRecordModel {
    if run_ended(run.run.state) {
        run
    } else {
        without_compilation(
            AutomatedRunStageRecordModel {
                run: AutomatedRunRecord {
                    state: AutomatedRunState::Cancelled,
                    ended_at: Some(now),
                    ..run.run
                },
                ..run
            },
        )
    }
}

/// Cancelling a run once more changes nothing: a run that has ended stays as it is.
pub proof fn cancelling_twice_is_cancelling_once(run: AutomatedRunStageRecordModel, now: u64, later: u64)
    ensures
        cancelled_run(cancelled_run(run, now), later) == cancelled_run(run, now),
        run_ended(cancelled_run(run, now).run.state),
{
}

} // verus!
