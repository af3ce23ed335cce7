//! Launching the process of an automated run, and telling why one failed.
use vstd::prelude::*;
use vstd::string::*;
use vstd::utf8::encode_utf8;

use crate::automated_run::{AutomatedRunRecord, AutomatedRunStageRecord, AutomatedRunStageRecordModel, AutomatedRunState, AutomationState, CompiledWorkflowBundle, CompiledWorkflowBundleModel, RepositoryRevision, TriggerContext};
use crate::automation::{after_last, id_suffix, process_id_for_run, run_ended, with_run, without_compilation};
use crate::capability::Capabilities;
use crate::coordinator::processes_in;
use crate::duplicate::{Duplicate, TextList, option_view, views};
use crate::ids::{ProcessId, ProjectId, RunId, TenantId};
use crate::ordered::OrderedKey;
use crate::ordered_map::{lemma_lookup_put, lemma_put_delete, lookup};
use crate::service::{CoordinatorService, CoordinatorServiceModel};
use crate::service_error::{CoordinatorServiceError, protocol};
use crate::system_tasks::service_with;
use crate::tasks::{TaskCompletionEvent, TaskCompletionEventModel, TaskDispatch, TaskExecutor, TaskFailurePolicy, TaskSpec, TaskSpecModel, TaskTerminalState, WasmExportAbi};
use crate::text::{byte_len, byte_tail, concat2, concat3, concat5, lemma_encode_concat, signed_decimal, signed_decimal_text, tail_within, text_eq, text_len, trim_text, trimmed};
use crate::workflow_bundle::{base64_bytes, compiled_entrypoint_export, entrypoint_section, export_selected, module_descriptors};

verus! {

/// A process that is about to be started for a run: the run as it was, the process and the attempt, and
/// what its main enters.
pub struct AutomatedLaunch {
    pub snapshot: AutomatedRunStageRecord,
    pub bundle: CompiledWorkflowBundle,
    pub revision: RepositoryRevision,
    pub process: ProcessId,
    pub launch_attempt: String,
    pub entrypoint_export: String,
}

/// What comes next for a run that is to be launched: nothing, or its process is started.
pub enum LaunchStep {
    Settled(AutomatedRunStageRecord),
    Start(AutomatedLaunch),
}

/// A run that waits for another process of its project to end.
pub open spec fn waiting_for_slot(run: AutomatedRunStageRecordModel) -> AutomatedRunStageRecordModel {
    AutomatedRunStageRecordModel {
        run: AutomatedRunRecord { state: AutomatedRunState::WaitingForProcessSlot, ..run.run },
        ..run
    }
}

/// A run that is being launched.
pub open spec fn is_launching(after: AutomatedRunStageRecordModel, before: AutomatedRunStageRecordModel, process: Seq<char>, attempt: Seq<char>) -> bool {
    &&& option_view(after.run.process_id) == Some(process)
    &&& option_view(after.launch_attempt) == Some(attempt)
    &&& after == (AutomatedRunStageRecordModel {
        run: AutomatedRunRecord {
            state: AutomatedRunState::Launching,
            process_id: after.run.process_id,
            ..before.run
        },
        launch_attempt: after.launch_attempt,
        ..before
    })
}

/// Whether another process than the one of the run is active in its project.
pub open spec fn slot_taken(s: CoordinatorServiceModel, run: AutomatedRunRecord) -> bool {
    let active = processes_in(s.coordinator.active_processes, run.tenant@, run.project@);
    active.len() > 0 && option_view(run.process_id) != Some(active.first().id@)
}

/// The process of a run.
pub open spec fn process_of_run(run: AutomatedRunStageRecordModel, id: Seq<char>) -> Seq<char> {
    match run.run.process_id {
        Some(process) => process@,
        None => "process-"@ + after_last(id, '-'),
    }
}

/// The attempt under which the process of a run is launched.
pub open spec fn attempt_of_run(run: AutomatedRunStageRecordModel, id: Seq<char>) -> Seq<char> {
    match run.launch_attempt {
        Some(attempt) => attempt@,
        None => "launch-"@ + after_last(id, '-'),
    }
}

/// What comes of looking for the export that the main of a run enters.
pub open spec fn entered(bundle: CompiledWorkflowBundleModel, r: Result<String, CoordinatorServiceError>) -> bool {
    match base64_bytes(bundle.module_base64@) {
        Err(text) => r matches Err(error) && error.protests(
            "compiled workflow module is not valid base64: "@ + text,
        ),
        Ok(module) => match module_descriptors(module, entrypoint_section()) {
            Err(fault) => r matches Err(error) && error.reports(fault),
            Ok(list) => export_selected(list, bundle.default_entrypoint@, r),
        },
    }
}

/// What is started for a run.
pub open spec fn is_automated_launch(
    launch: AutomatedLaunch,
    run: AutomatedRunStageRecordModel,
    id: Seq<char>,
    export: String,
) -> bool {
    &&& launch.snapshot@ == run
    &&& Some(launch.bundle@) == run.compiled_bundle
    &&& Some(launch.revision) == run.revision
    &&& launch.process@ == process_of_run(run, id)
    &&& launch.launch_attempt@ == attempt_of_run(run, id)
    &&& launch.entrypoint_export == export
}

/// What comes of a run whose main is found.
pub open spec fn run_placed(
    before: CoordinatorServiceModel,
    after: CoordinatorServiceModel,
    id: Seq<char>,
    run: AutomatedRunStageRecordModel,
    export: String,
    r: Result<LaunchStep, CoordinatorServiceError>,
) -> bool {
    let runs = before.coordinator.durable.automation;
    if slot_taken(before, run.run) {
        &&& r matches Ok(LaunchStep::Settled(record))
        &&& record@ == waiting_for_slot(run)
        &&& after == service_with(before, with_run(runs, id, waiting_for_slot(run)))
    } else {
        &&& r matches Ok(LaunchStep::Start(launch))
        &&& is_automated_launch(launch, run, id, export)
        &&& lookup(after.coordinator.durable.automation.automated_runs, id) matches Some(left)
        &&& is_launching(left, run, process_of_run(run, id), attempt_of_run(run, id))
        &&& after == service_with(before, with_run(runs, id, left))
    }
}

/// What comes of a run that is compiled.
pub open spec fn compiled_run_begun(
    before: CoordinatorServiceModel,
    after: CoordinatorServiceModel,
    id: Seq<char>,
    run: AutomatedRunStageRecordModel,
    r: Result<LaunchStep, CoordinatorServiceError>,
) -> bool {
    exists|export: Result<String, CoordinatorServiceError>| #[trigger]
        entered(run.compiled_bundle->Some_0, export) && match export {
            Err(fault) => r == Err::<LaunchStep, CoordinatorServiceError>(fault) && after == before,
            Ok(name) => run_placed(before, after, id, run, name, r),
        }
}

/// What comes of a run that is to be launched.
pub open spec fn launch_begun(
    before: CoordinatorServiceModel,
    after: CoordinatorServiceModel,
    id: Seq<char>,
    r: Result<LaunchStep, CoordinatorServiceError>,
) -> bool {
    match lookup(before.coordinator.durable.automation.automated_runs, id) {
        None => {
            &&& r matches Err(error)
            &&& error.protests("unknown automated run"@)
            &&& after == before
        },
        Some(run) => if run.run.state is Running || run_ended(run.run.state) {
            &&& r matches Ok(LaunchStep::Settled(record))
            &&& record@ == run
            &&& after == before
        } else if run.compiled_bundle is None {
            &&& r matches Err(error)
            &&& error.protests("automated run is not compiled"@)
            &&& after == before
        } else if run.revision is None {
            &&& r matches Err(error)
            &&& error.protests("automated run has no repository revision"@)
            &&& after == before
        } else {
            compiled_run_begun(before, after, id, run, r)
        },
    }
}

impl AutomationState {
    fn put_run(&mut self, run_id: &RunId, record: AutomatedRunStageRecord)
        ensures
            final(self)@ == with_run(old(self)@, run_id@, record@),
    {
        let id: RunId = run_id.clone();
        assert(id.key() == run_id@);
        self.automated_runs.insert(id, record);
    }
}

impl CoordinatorService {
    fn is_slot_taken(&self, run: &AutomatedRunRecord) -> (r: bool)
        ensures
            r == slot_taken(self@, *run),
    {
        match self.coordinator.active_process_for_project(&run.tenant, &run.project) {
            None => false,
            Some(active) => match &run.process_id {
                Some(own) => !text_eq(own.as_str(), active.id.as_str()),
                None => true,
            },
        }
    }

    /// Begins to launch the process of a run. A run that is compiled waits while another process of its
    /// project is active.
    pub fn launch_automated_run(&mut self, run_id: &RunId) -> (r: Result<
        LaunchStep,
        CoordinatorServiceError,
    >)
        ensures
            launch_begun(old(self)@, final(self)@, run_id@, r),
    {
        broadcast use lemma_lookup_put;

        let ghost before = self@;
        assert(run_id.key() == run_id@);
        let snapshot: AutomatedRunStageRecord = match self.coordinator.automation().automated_runs.get(
            run_id,
        ) {
            Some(record) => record.duplicate(),
            None => {
                return Err(protocol("unknown automated run"));
            },
        };
        let ghost run = snapshot@;
        assert(lookup(before.coordinator.durable.automation.automated_runs, run_id@) == Some(run));
        if snapshot.run.state == AutomatedRunState::Running || snapshot.run.state.is_terminal() {
            return Ok(LaunchStep::Settled(snapshot));
        }
        let bundle: CompiledWorkflowBundle = match &snapshot.compiled_bundle {
            Some(bundle) => bundle.duplicate(),
            None => {
                return Err(protocol("automated run is not compiled"));
            },
        };
        let revision: RepositoryRevision = match &snapshot.revision {
            Some(revision) => revision.duplicate(),
            None => {
                return Err(protocol("automated run has no repository revision"));
            },
        };
        let found: Result<String, CoordinatorServiceError> = compiled_entrypoint_export(
            bundle.module_base64.as_str(),
            bundle.default_entrypoint.as_str(),
        );
        let ghost known = found;
        assert(entered(run.compiled_bundle->Some_0, known));
        let entrypoint_export: String = match found {
            Ok(export) => export,
            Err(error) => {
                let r: Result<LaunchStep, CoordinatorServiceError> = Err(error);
                assert(compiled_run_begun(before, self@, run_id@, run, r));
                return r;
            },
        };
        if self.is_slot_taken(&snapshot.run) {
            let mut record: AutomatedRunStageRecord = snapshot;
            record.run.state = AutomatedRunState::WaitingForProcessSlot;
            let answer: AutomatedRunStageRecord = record.duplicate();
            self.coordinator.automation_mut().put_run(run_id, record);
            let r: Result<LaunchStep, CoordinatorServiceError> = Ok(LaunchStep::Settled(answer));
            assert(run_placed(before, self@, run_id@, run, entrypoint_export, r));
            assert(compiled_run_begun(before, self@, run_id@, run, r));
            return r;
        }
        let process: ProcessId = match &snapshot.run.process_id {
            Some(process) => process.clone(),
            None => process_id_for_run(run_id),
        };
        let launch_attempt: String = match &snapshot.launch_attempt {
            Some(attempt) => attempt.clone(),
            None => {
                let suffix: String = id_suffix(run_id.as_str());
                concat2("launch-", suffix.as_str())
            },
        };
        let mut record: AutomatedRunStageRecord = snapshot.duplicate();
        record.run.state = AutomatedRunState::Launching;
        record.run.process_id = Some(process.clone());
        record.launch_attempt = Some(launch_attempt.clone());
        let ghost left = record@;
        assert(is_launching(left, run, process@, launch_attempt@));
        self.coordinator.automation_mut().put_run(run_id, record);
        let ghost export = entrypoint_export;
        let launch: AutomatedLaunch = AutomatedLaunch {
            snapshot,
            bundle,
            revision,
            process,
            launch_attempt,
            entrypoint_export,
        };
        assert(is_automated_launch(launch, run, run_id@, export));
        let r: Result<LaunchStep, CoordinatorServiceError> = Ok(LaunchStep::Start(launch));
        assert(run_placed(before, self@, run_id@, run, export, r));
        assert(compiled_run_begun(before, self@, run_id@, run, r));
        r
    }
}

/// What the tasks of a run learn of the trigger behind it.
pub open spec fn is_launch_context(context: TriggerContext, run: AutomatedRunRecord, forge: Seq<char>, revision: RepositoryRevision) -> bool {
    &&& context.trigger_id@ == run.primary_trigger_id@
    &&& context.forge@ == forge
    &&& context.repository_id@ == run.repository_id@
    &&& context.commit_sha@ == run.commit_sha@
    &&& context.git_ref@ == run.git_ref@
    &&& context.trusted == run.trusted
    &&& context.source_snapshot@ == revision.source_snapshot@
}

/// What the main of a run is launched with.
pub open spec fn is_main_task(spec: TaskSpecModel, launch: AutomatedLaunch, id: Seq<char>, epoch: u64) -> bool {
    &&& spec.tenant@ == launch.snapshot.run.tenant@
    &&& spec.project@ == launch.snapshot.run.project@
    &&& spec.process@ == launch.process@
    &&& spec.task_definition@ == launch.bundle.default_entrypoint@
    &&& spec.task_instance@ == "main-"@ + after_last(id, '-')
    &&& spec.dispatch == (TaskDispatch::CoordinatorNodeWasm {
        export: Some(launch.entrypoint_export),
        abi: WasmExportAbi::EntrypointV1,
    })
    &&& spec.environment_id is None
    &&& spec.environment is None
    &&& spec.environment_digest is None
    &&& spec.required_capabilities == Capabilities::empty()
    &&& spec.dependency_cache is None
    &&& spec.source_snapshot == Some(launch.revision.source_snapshot)
    &&& spec.source_revision == Some(launch.revision)
    &&& spec.required_artifacts == Seq::<Seq<char>>::empty()
    &&& spec.args.len() == 0
    &&& spec.requested_secrets == Seq::<Seq<char>>::empty()
    &&& spec.vfs_epoch == epoch
    &&& spec.failure_policy is FailFast
    &&& spec.bundle_digest == Some(launch.bundle.execution_module_digest)
}

/// A run that is under way. It keeps only the summary of what was compiled.
pub open spec fn is_running(
    after: AutomatedRunStageRecordModel,
    before: AutomatedRunStageRecordModel,
    summary: String,
    now: u64,
) -> bool {
    after == without_compilation(
        AutomatedRunStageRecordModel {
            run: AutomatedRunRecord {
                state: AutomatedRunState::Running,
                started_at: match before.run.started_at {
                    Some(started) => Some(started),
                    None => Some(now),
                },
                ..before.run
            },
            compiled_summary: Some(summary),
            ..before
        },
    )
}

/// What comes of preparing the main of a run.
pub open spec fn main_prepared(
    before: CoordinatorServiceModel,
    after: CoordinatorServiceModel,
    id: Seq<char>,
    launch: AutomatedLaunch,
    context: TriggerContext,
    checked: Result<(), String>,
    epoch: u64,
    r: Result<TaskSpec, CoordinatorServiceError>,
) -> bool {
    let runs = before.coordinator.durable.automation;
    let run = lookup(runs.automated_runs, id)->Some_0;
    match checked {
        Err(text) => {
            &&& r == Err::<TaskSpec, CoordinatorServiceError>(
                CoordinatorServiceError::Protocol(text),
            )
            &&& after == before
        },
        Ok(_) => {
            &&& r matches Ok(spec)
            &&& is_main_task(spec@, launch, id, epoch)
            &&& after == service_with(
                before,
                with_run(
                    runs,
                    id,
                    AutomatedRunStageRecordModel { trigger_context: Some(context), ..run },
                ),
            )
        },
    }
}

/// What comes of a launch that has succeeded.
pub open spec fn launch_finished(
    before: CoordinatorServiceModel,
    after: CoordinatorServiceModel,
    id: Seq<char>,
    summary: String,
    now: u64,
    r: AutomatedRunStageRecordModel,
) -> bool {
    let runs = before.coordinator.durable.automation;
    let run = lookup(runs.automated_runs, id)->Some_0;
    &&& is_running(r, run, summary, now)
    &&& after == service_with(before, with_run(runs, id, r))
}

impl CoordinatorService {
    /// What the tasks of a run that is being launched learn of the trigger behind it.
    pub fn automated_launch_context(&self, launch: &AutomatedLaunch) -> (r: Result<
        TriggerContext,
        CoordinatorServiceError,
    >)
        ensures
            match lookup(
                self@.coordinator.durable.automation.accepted_commit_triggers,
                launch.snapshot.run.primary_trigger_id@,
            ) {
                None => r matches Err(error) && error.protests("run trigger was removed"@),
                Some(accepted) => r matches Ok(context) && is_launch_context(
                    context,
                    launch.snapshot.run,
                    accepted.trigger.forge@,
                    launch.revision,
                ),
            },
    {
        let run: &AutomatedRunRecord = &launch.snapshot.run;
        assert(run.primary_trigger_id.key() == run.primary_trigger_id@);
        match self.coordinator.automation().accepted_commit_triggers.get(&run.primary_trigger_id) {
            None => Err(protocol("run trigger was removed")),
            Some(accepted) => Ok(
                TriggerContext {
                    trigger_id: run.primary_trigger_id.clone(),
                    forge: accepted.trigger.forge.clone(),
                    repository_id: run.repository_id.clone(),
                    commit_sha: run.commit_sha.clone(),
                    git_ref: run.git_ref.clone(),
                    trusted: run.trusted,
                    source_snapshot: launch.revision.source_snapshot.clone(),
                },
            ),
        }
    }

    /// Keeps what the tasks of a run learn of the trigger behind it, once it was checked, and makes
    /// what its main is launched with. The process was started in the given epoch.
    pub fn prepare_automated_main(
        &mut self,
        run_id: &RunId,
        launch: &AutomatedLaunch,
        context: TriggerContext,
        checked: Result<(), String>,
        process_epoch: u64,
    ) -> (r: Result<TaskSpec, CoordinatorServiceError>)
        requires
            lookup(old(self)@.coordinator.durable.automation.automated_runs, run_id@) is Some,
        ensures
            main_prepared(
                old(self)@,
                final(self)@,
                run_id@,
                *launch,
                context,
                checked,
                process_epoch,
                r,
            ),
    {
        match checked {
            Ok(_) => {},
            Err(text) => {
                return Err(CoordinatorServiceError::Protocol(text));
            },
        }
        assert(run_id.key() == run_id@);
        let found: Option<AutomatedRunStageRecord> =
            match self.coordinator.automation().automated_runs.get(run_id) {
            Some(record) => Some(record.duplicate()),
            None => None,
        };
        match found {
            Some(mut record) => {
                record.trigger_context = Some(context);
                self.coordinator.automation_mut().put_run(run_id, record);
            },
            None => {},
        }
        let suffix: String = id_suffix(run_id.as_str());
        let bundle: &CompiledWorkflowBundle = &launch.bundle;
        Ok(
            TaskSpec {
                tenant: launch.snapshot.run.tenant.clone(),
                project: launch.snapshot.run.project.clone(),
                process: launch.process.clone(),
                task_definition: bundle.default_entrypoint.clone(),
                task_instance: concat2("main-", suffix.as_str()),
                dispatch: TaskDispatch::CoordinatorNodeWasm {
                    export: Some(launch.entrypoint_export.clone()),
                    abi: WasmExportAbi::EntrypointV1,
                },
                environment_id: None,
                environment: None,
                environment_digest: None,
                required_capabilities: Capabilities::none(),
                dependency_cache: None,
                source_snapshot: Some(launch.revision.source_snapshot.clone()),
                source_revision: Some(launch.revision.duplicate()),
                required_artifacts: TextList::empty(),
                args: Vec::new(),
                requested_secrets: TextList::empty(),
                vfs_epoch: process_epoch,
                failure_policy: TaskFailurePolicy::FailFast,
                bundle_digest: Some(bundle.execution_module_digest.clone()),
            },
        )
    }

    /// Records that the main of a run was launched. `summary` is what is kept of what was compiled.
    pub fn finish_automated_launch(&mut self, run_id: &RunId, summary: String, now: u64) -> (r:
        AutomatedRunStageRecord)
        requires
            lookup(old(self)@.coordinator.durable.automation.automated_runs, run_id@) is Some,
        ensures
            launch_finished(old(self)@, final(self)@, run_id@, summary, now, r@),
    {
        broadcast use lemma_put_delete;

        assert(run_id.key() == run_id@);
        let found: Option<&AutomatedRunStageRecord> =
            self.coordinator.automation().automated_runs.get(run_id);
        let mut record: AutomatedRunStageRecord = found.unwrap().duplicate();
        record.run.state = AutomatedRunState::Running;
        if record.run.started_at.is_none() {
            record.run.started_at = Some(now);
        }
        record.compiled_summary = Some(summary);
        record.compiled_bundle = None;
        record.compilation_request = None;
        record.source = None;
        let answer: AutomatedRunStageRecord = record.duplicate();
        self.coordinator.automation_mut().put_run(run_id, record);
        answer
    }
}

/// The last item of a list that a test holds of.
pub open spec fn last_where<T>(s: Seq<T>, p: spec_fn(T) -> bool) -> Option<T>
    decreases s.len(),
{
    if s.len() == 0 {
        None
    } else if p(s.last()) {
        Some(s.last())
    } else {
        last_where(s.drop_last(), p)
    }
}

/// A task of a process that failed. Where `on_node` is set, it ran on a node.
pub open spec fn failed_in(tenant: Seq<char>, project: Seq<char>, process: Seq<char>, on_node: bool) -> spec_fn(
    TaskCompletionEventModel,
) -> bool {
    |event: TaskCompletionEventModel|
        event.tenant@ == tenant && event.project@ == project && event.process@ == process
            && event.terminal_state is Failed && (on_node ==> event.executor is Node)
}

/// What is said of why a task failed.
pub open spec fn failure_detail(stderr: Seq<char>, status: Option<i32>) -> Seq<char> {
    if trimmed(stderr).len() > 0 {
        trimmed(stderr)
    } else {
        match status {
            Some(status) => "command exited with status "@ + signed_decimal(status as int),
            None => "no error text was reported"@,
        }
    }
}

/// A message that keeps within a number of bytes where its beginning does: the end of what it tells
/// is kept.
pub open spec fn bounded_failure(prefix: Seq<char>, detail: Seq<char>, maximum: nat) -> Seq<char> {
    if byte_len(prefix) + 1 + byte_len(detail) <= maximum {
        prefix + " "@ + detail
    } else {
        let available = if byte_len(prefix) + 5 <= maximum {
            (maximum - byte_len(prefix) - 5) as nat
        } else {
            0
        };
        prefix + "\n…\n"@ + byte_tail(detail, available)
    }
}

/// Why the process of a run failed, by the ends of its tasks.
pub open spec fn process_failure(
    events: Seq<TaskCompletionEventModel>,
    tenant: Seq<char>,
    project: Seq<char>,
    process: Seq<char>,
    maximum: nat,
) -> Seq<char> {
    let on_node = last_where(events, failed_in(tenant, project, process, true));
    let found = if on_node is Some {
        on_node
    } else {
        last_where(events, failed_in(tenant, project, process, false))
    };
    match found {
        None => "The automated process failed without a retained task diagnostic."@,
        Some(event) => bounded_failure(
            "Task "@ + event.task@ + " ("@ + event.task_definition@ + ") failed:"@,
            failure_detail(event.stderr_tail@, event.status_code),
            maximum,
        ),
    }
}

/// A message that keeps within a number of bytes.
pub fn bounded_automated_failure_message(prefix: &str, detail: &str, maximum: usize) -> (r: String)
    ensures
        r@ == bounded_failure(prefix@, detail@, maximum as nat),
{
    let head: usize = text_len(prefix);
    let length: usize = text_len(detail);
    if head < maximum && length <= maximum - head - 1 {
        return concat3(prefix, " ", detail);
    }
    let available: usize = if maximum >= 5 && head <= maximum - 5 {
        maximum - 5 - head
    } else {
        0
    };
    let tail: String = tail_within(detail, available);
    concat3(prefix, "\n…\n", tail.as_str())
}

fn last_failed<'a>(
    events: &'a Vec<TaskCompletionEvent>,
    tenant: &TenantId,
    project: &ProjectId,
    process: &ProcessId,
    on_node: bool,
) -> (r: Option<&'a TaskCompletionEvent>)
    ensures
        ({
            let found = last_where(
                views(events@),
                failed_in(tenant@, project@, process@, on_node),
            );
            &&& r is None <==> found is None
            &&& r matches Some(event) ==> found == Some(event@)
        }),
{
    let ghost all = views(events@);
    let ghost p = failed_in(tenant@, project@, process@, on_node);
    let mut i: usize = events.len();
    assert(all.take(i as int) =~= all);
    while i > 0
        invariant
            0 <= i <= events@.len(),
            all == views(events@),
            p == failed_in(tenant@, project@, process@, on_node),
            last_where(all, p) == last_where(all.take(i as int), p),
        decreases i,
    {
        let event: &TaskCompletionEvent = &events[i - 1];
        assert(all.take(i as int).last() == event@);
        assert(all.take(i as int).drop_last() =~= all.take(i - 1));
        if event.tenant == *tenant && event.project == *project && event.process == *process
            && event.terminal_state == TaskTerminalState::Failed && (!on_node || event.executor
            == TaskExecutor::Node) {
            return Some(event);
        }
        i = i - 1;
    }
    None
}

/// Why the process of a run failed: what the last of its tasks on a node that failed reported, or else
/// the last of its tasks that failed.
pub fn automated_process_failure_message(
    events: &Vec<TaskCompletionEvent>,
    tenant: &TenantId,
    project: &ProjectId,
    process: &ProcessId,
    maximum: usize,
) -> (r: String)
    ensures
        r@ == process_failure(views(events@), tenant@, project@, process@, maximum as nat),
{
    let found: Option<&TaskCompletionEvent> = match last_failed(
        events,
        tenant,
        project,
        process,
        true,
    ) {
        Some(event) => Some(event),
        None => last_failed(events, tenant, project, process, false),
    };
    match found {
        None => "The automated process failed without a retained task diagnostic.".to_owned(),
        Some(event) => {
            let told: String = trim_text(event.stderr_tail.as_str());
            proof {
                reveal_strlit("");
                if told@.len() == 0 {
                    assert(told@ =~= ""@);
                }
            }
            let detail: String = if text_eq(told.as_str(), "") {
                match event.status_code {
                    Some(status) => {
                        let number: String = signed_decimal_text(status);
                        concat2("command exited with status ", number.as_str())
                    },
                    None => "no error text was reported".to_owned(),
                }
            } else {
                told
            };
            let prefix: String = concat5(
                "Task ",
                event.task.as_str(),
                " (",
                event.task_definition.as_str(),
                ") failed:",
            );
            bounded_automated_failure_message(prefix.as_str(), detail.as_str(), maximum)
        },
    }
}

proof fn lemma_tail_bound(s: Seq<char>, n: nat)
    ensures
        byte_len(byte_tail(s, n)) <= n,
    decreases s.len(),
{
    if s.len() > 0 && byte_len(s) > n {
        lemma_tail_bound(s.drop_first(), n);
    }
}

/// The message of a failure never takes more bytes than its limit, where the limit leaves room for
/// its beginning.
pub proof fn failure_messages_are_bounded(prefix: Seq<char>, detail: Seq<char>, maximum: nat)
    requires
        byte_len(prefix) + 5 <= maximum,
    ensures
        byte_len(bounded_failure(prefix, detail, maximum)) <= maximum,
{
    let tail = byte_tail(detail, (maximum - byte_len(prefix) - 5) as nat);
    lemma_separators();
    lemma_tail_bound(detail, (maximum - byte_len(prefix) - 5) as nat);
    lemma_encode_concat(prefix, " "@);
    lemma_encode_concat(prefix + " "@, detail);
    lemma_encode_concat(prefix, "\n…\n"@);
    lemma_encode_concat(prefix + "\n…\n"@, tail);
}

proof fn lemma_separators()
    ensures
        byte_len(" "@) == 1,
        byte_len("\n…\n"@) == 5,
{
    reveal_strlit(" ");
    reveal_strlit("\n…\n");
    reveal_with_fuel(encode_utf8, 4);
    assert(" "@ =~= seq![' ']);
    assert("\n…\n"@ =~= seq!['\n', '…', '\n']);
    assert(" "@.drop_first() =~= Seq::<char>::empty());
    assert("\n…\n"@.drop_first() =~= seq!['…', '\n']);
    assert("\n…\n"@.drop_first().drop_first() =~= seq!['\n']);
    assert("\n…\n"@.drop_first().drop_first().drop_first() =~= Seq::<char>::empty());
}

} // verus!
