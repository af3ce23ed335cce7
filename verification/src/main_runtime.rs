//! Coordinator mains: the entry tasks of processes, which the coordinator itself hosts, and the
//! children that they start.
use vstd::prelude::*;
use vstd::string::*;

use crate::artifact_registry::well_formed;
use crate::automated_run::{AutomatedRunRecord, AutomatedRunStageRecordModel, AutomationStateModel, EnvironmentRequirements, EnvironmentResource, RepositoryRevision, TriggerContext, repository_revision_alike};
use crate::automation::{ProcessFinalResult, by_name, first_run, runs_process, with_run};
use crate::capability::{Capabilities, Capability, capability_from_descriptor, capability_of};
use crate::configuration::{CoordinatorMainRuntimeConfiguration, MAX_IN_FLIGHT_TASKS_PER_PROCESS, MainRuntimeCeilings};
use crate::coordinator::{ActiveProcess, CoordinatorModel};
use crate::debug_registry::{process_cleared, task_of};
use crate::duplicate::{Duplicate, TextList, copy_option, copy_text, option_view, views};
use crate::ids::{Digest, ProcessId, ProjectId, TaskDefinitionId, TaskInstanceId, TenantId};
use crate::keys::{ProcessControlKey, ProcessText, TaskControlKey, TaskRestartKey, TaskText, process_control_key, task_restart_key};
use crate::logs::{ArtifactClaim, ProcessFacts, ProcessRetirement, process_retired, retirement};
use crate::ordered::OrderedKey;
use crate::ordered_map::{OrderedMap, delete, lemma_lookup_put, lemma_put_delete, lookup, put};
use crate::ordered_set::{OrderedSet, enumerates, list_texts};
use crate::service::{CoordinatorService, CoordinatorServiceModel};
use crate::service_error::{CoordinatorServiceError, protocol, unauthorized};
use crate::system_tasks::service_with;
use crate::tasks::{TaskBoundaryValue, TaskBoundaryValueModel, TaskCompletionEvent, TaskCompletionEventModel, TaskDispatch, TaskExecutor, TaskFailurePolicy, TaskJoinResult, TaskJoinResultModel, TaskJoinState, TaskSpec, TaskSpecModel, TaskTerminalState, WasmExportAbi};
use crate::text::{concat2, concat3, concat4, decimal, decimal_text, is_blank, text_eq, text_len, byte_len};
use crate::workflow_bundle::{Descriptor, DescriptorFault, DescriptorModel, base64_bytes, bundle_environments, decode_base64, environments_read, items_view, list_view, module_tasks, named_export, task_descriptors};

verus! {

/// Where a coordinator main stands.
#[derive(Clone, Copy, Debug, PartialEq, Eq, Structural)]
pub enum MainState {
    Running,
    Stopping,
}

/// A launch of a coordinator main.
pub struct MainScope {
    pub tenant: TenantId,
    pub project: ProjectId,
    pub process: ProcessId,
    pub task_definition: TaskDefinitionId,
    pub task_instance: TaskInstanceId,
    pub epoch: u64,
    pub launch_id: u64,
}

impl View for MainScope {
    type V = MainScope;

    open spec fn view(&self) -> MainScope {
        *self
    }
}

impl Duplicate for MainScope {
    fn duplicate(&self) -> (r: Self) {
        MainScope {
            tenant: self.tenant.clone(),
            project: self.project.clone(),
            process: self.process.clone(),
            task_definition: self.task_definition.clone(),
            task_instance: self.task_instance.clone(),
            epoch: self.epoch,
            launch_id: self.launch_id,
        }
    }
}

/// A child that a coordinator main has started.
pub struct MainHandle {
    pub task_definition: TaskDefinitionId,
    pub task_instance: TaskInstanceId,
}

impl View for MainHandle {
    type V = MainHandle;

    open spec fn view(&self) -> MainHandle {
        *self
    }
}

impl Duplicate for MainHandle {
    fn duplicate(&self) -> (r: Self) {
        MainHandle {
            task_definition: self.task_definition.clone(),
            task_instance: self.task_instance.clone(),
        }
    }
}

/// A coordinator main that runs. `abort` tells it to stop.
pub struct CoordinatorMainControl {
    pub task_definition: TaskDefinitionId,
    pub task_instance: TaskInstanceId,
    pub abort: bool,
    pub state: MainState,
    pub stopped_probe_symbol: Option<String>,
    pub handles: OrderedMap<u64, MainHandle>,
    pub launch_id: u64,
}

/// The model of [`CoordinatorMainControl`].
#[verifier::ext_equal]
pub struct CoordinatorMainControlModel {
    pub task_definition: TaskDefinitionId,
    pub task_instance: TaskInstanceId,
    pub abort: bool,
    pub state: MainState,
    pub stopped_probe_symbol: Option<String>,
    pub handles: Seq<(u64, MainHandle)>,
    pub launch_id: u64,
}

impl View for CoordinatorMainControl {
    type V = CoordinatorMainControlModel;

    open spec fn view(&self) -> CoordinatorMainControlModel {
        CoordinatorMainControlModel {
            task_definition: self.task_definition,
            task_instance: self.task_instance,
            abort: self.abort,
            state: self.state,
            stopped_probe_symbol: self.stopped_probe_symbol,
            handles: self.handles@,
            launch_id: self.launch_id,
        }
    }
}

/// The coordinator mains, and the tasks that they wait for.
pub struct CoordinatorMainRuntime {
    pub controls: OrderedMap<ProcessControlKey, CoordinatorMainControl>,
    pub join_waiters: OrderedSet<TaskRestartKey>,
    pub next_launch_id: u64,
    pub limits: CoordinatorMainRuntimeConfiguration,
}

/// The model of [`CoordinatorMainRuntime`].
#[verifier::ext_equal]
pub struct CoordinatorMainRuntimeModel {
    pub controls: Seq<(ProcessText, CoordinatorMainControlModel)>,
    pub join_waiters: Set<(Seq<char>, Seq<char>, Seq<char>, Seq<char>)>,
    pub next_launch_id: u64,
    pub limits: CoordinatorMainRuntimeConfiguration,
}

impl View for CoordinatorMainRuntime {
    type V = CoordinatorMainRuntimeModel;

    open spec fn view(&self) -> CoordinatorMainRuntimeModel {
        CoordinatorMainRuntimeModel {
            controls: self.controls@,
            join_waiters: self.join_waiters@,
            next_launch_id: self.next_launch_id,
            limits: self.limits,
        }
    }
}

/// How often a coordinator main may be woken. `window_started` counts milliseconds.
pub struct GuestWakeRate {
    pub maximum_per_minute: u64,
    pub window_started: u64,
    pub used: u64,
}

impl GuestWakeRate {
    pub fn new(maximum_per_minute: u64, now: u64) -> (r: Self)
        ensures
            r == (GuestWakeRate { maximum_per_minute, window_started: now, used: 0 }),
    {
        GuestWakeRate { maximum_per_minute, window_started: now, used: 0 }
    }

    /// How often the main was woken in the minute that the time falls in.
    pub open spec fn used_at(&self, now: u64) -> u64 {
        if now >= self.window_started + 60_000 {
            0
        } else {
            self.used
        }
    }

    /// Counts one more time; the count starts anew after a minute.
    pub fn charge(&mut self, now: u64) -> (r: Result<(), String>)
        ensures
            final(self).maximum_per_minute == old(self).maximum_per_minute,
            final(self).window_started == (if now >= old(self).window_started + 60_000 {
                now
            } else {
                old(self).window_started
            }),
            if old(self).used_at(now) >= old(self).maximum_per_minute {
                &&& r matches Err(text)
                &&& text@ == "coordinator main wake-rate limit of "@ + decimal(
                    old(self).maximum_per_minute as nat,
                ) + " per minute reached"@
                &&& final(self).used == old(self).used_at(now)
            } else {
                &&& r is Ok
                &&& final(self).used == old(self).used_at(now) + 1
            },
    {
        if now >= self.window_started && now - self.window_started >= 60_000 {
            self.window_started = now;
            self.used = 0;
        }
        if self.used >= self.maximum_per_minute {
            let limit: String = decimal_text(self.maximum_per_minute);
            return Err(
                concat3(
                    "coordinator main wake-rate limit of ",
                    limit.as_str(),
                    " per minute reached",
                ),
            );
        }
        self.used = self.used + 1;
        Ok(())
    }
}

/// Whether a task that is waited for is one of a process.
pub open spec fn waits_in(process: ProcessText) -> spec_fn(
    (Seq<char>, Seq<char>, Seq<char>, Seq<char>),
) -> bool {
    |key: (Seq<char>, Seq<char>, Seq<char>, Seq<char>)|
        key.0 == process.0 && key.1 == process.1 && key.2 == process.2
}

/// Why no coordinator main can be launched for a process, if none can.
pub open spec fn capacity_refusal(
    s: CoordinatorMainRuntimeModel,
    key: ProcessText,
    process: Seq<char>,
) -> Option<Seq<char>> {
    if lookup(s.controls, key) is Some {
        Some("virtual process "@ + process + " already has a coordinator main instance"@)
    } else if s.controls.len() >= s.limits.max_active_mains {
        Some(
            "admission.coordinator_main_limit: global coordinator-main limit of "@ + decimal(
                s.limits.max_active_mains as nat,
            ) + " reached"@,
        )
    } else {
        None
    }
}

/// The mains after that of a process was told to stop, and nobody waits for its tasks any more.
pub open spec fn interrupted_main(s: CoordinatorMainRuntimeModel, key: ProcessText) -> CoordinatorMainRuntimeModel {
    CoordinatorMainRuntimeModel {
        controls: match lookup(s.controls, key) {
            Some(control) => put(
                s.controls,
                key,
                CoordinatorMainControlModel { abort: true, state: MainState::Stopping, ..control },
            ),
            None => s.controls,
        },
        join_waiters: s.join_waiters.filter(
            |k: (Seq<char>, Seq<char>, Seq<char>, Seq<char>)| !waits_in(key)(k),
        ),
        ..s
    }
}

impl CoordinatorMainRuntime {
    /// A runtime without mains.
    pub fn new(limits: CoordinatorMainRuntimeConfiguration) -> (r: Self)
        ensures
            r@ == (CoordinatorMainRuntimeModel {
                controls: Seq::empty(),
                join_waiters: Set::empty(),
                next_launch_id: 1,
                limits,
            }),
    {
        CoordinatorMainRuntime {
            controls: OrderedMap::new(),
            join_waiters: OrderedSet::new(),
            next_launch_id: 1,
            limits,
        }
    }

    /// The number of mains that run.
    pub fn active_main_count(&self) -> (r: usize)
        ensures
            r == self@.controls.len(),
    {
        self.controls.len()
    }

    /// The number of mains that may run.
    pub fn max_active_mains(&self) -> (r: usize)
        ensures
            r == self@.limits.max_active_mains,
    {
        self.limits.max_active_mains
    }

    /// Changes the limits. `runtime` is what the Wasm runtime says of those for fuel and memory.
    pub fn configure(
        &mut self,
        configuration: CoordinatorMainRuntimeConfiguration,
        ceilings: MainRuntimeCeilings,
        runtime: Result<(), String>,
    ) -> (r: Result<(), CoordinatorServiceError>)
        ensures
            if !configuration.within(ceilings) {
                &&& r matches Err(error)
                &&& error.protests(CoordinatorMainRuntimeConfiguration::refusal(ceilings))
                &&& final(self)@ == old(self)@
            } else {
                match runtime {
                    Err(reason) => {
                        &&& r matches Err(error)
                        &&& error.protests(reason@)
                        &&& final(self)@ == old(self)@
                    },
                    Ok(_) => {
                        &&& r is Ok
                        &&& final(self)@ == (CoordinatorMainRuntimeModel {
                            limits: configuration,
                            ..old(self)@
                        })
                    },
                }
            },
    {
        match configuration.validate(ceilings, runtime) {
            Err(reason) => Err(CoordinatorServiceError::Protocol(reason)),
            Ok(_) => {
                self.limits = configuration;
                Ok(())
            },
        }
    }

    /// Checks that a main can be launched for a process.
    pub fn ensure_launch_capacity(&self, process_key: &ProcessControlKey, process: &ProcessId) -> (r:
        Result<(), CoordinatorServiceError>)
        ensures
            match capacity_refusal(self@, process_key.key(), process@) {
                Some(reason) => r matches Err(error) && error.protests(reason),
                None => r is Ok,
            },
    {
        if self.controls.contains_key(process_key) {
            return Err(
                CoordinatorServiceError::Protocol(
                    concat3(
                        "virtual process ",
                        process.as_str(),
                        " already has a coordinator main instance",
                    ),
                ),
            );
        }
        if self.controls.len() >= self.limits.max_active_mains {
            let limit: String = decimal_text(self.limits.max_active_mains as u64);
            return Err(
                CoordinatorServiceError::Protocol(
                    concat3(
                        "admission.coordinator_main_limit: global coordinator-main limit of ",
                        limit.as_str(),
                        " reached",
                    ),
                ),
            );
        }
        Ok(())
    }

    /// Whether the main of a process waits for a task.
    pub fn is_waiting_for_task(&self, tenant: &TenantId, project: &ProjectId, process: &ProcessId) -> (r:
        bool)
        ensures
            r == (self@.join_waiters.filter(waits_in((tenant@, project@, process@))) != Set::<
                (Seq<char>, Seq<char>, Seq<char>, Seq<char>),
            >::empty()),
    {
        let ghost p = waits_in((tenant@, project@, process@));
        let test = |key: &TaskRestartKey| -> (b: bool)
            ensures
                b == waits_in((tenant@, project@, process@))(key.key()),
        {
            assert(key.key() == (key.0@, key.1@, key.2@, key.3@));
            text_eq(key.0.as_str(), tenant.as_str()) && text_eq(key.1.as_str(), project.as_str())
                && text_eq(key.2.as_str(), process.as_str())
        };
        let found: OrderedSet<TaskRestartKey> = self.join_waiters.select(test, Ghost(p));
        !found.is_empty()
    }

    /// Tells the main of a process to stop. The result holds the tasks that were waited for: who
    /// waits for them is told why nobody will.
    pub fn interrupt_process(&mut self, tenant: &TenantId, project: &ProjectId, process: &ProcessId) -> (r:
        OrderedSet<TaskRestartKey>)
        ensures
            final(self)@ == interrupted_main(old(self)@, (tenant@, project@, process@)),
            r@ == old(self)@.join_waiters.filter(waits_in((tenant@, project@, process@))),
    {
        broadcast use lemma_put_delete;

        let ghost before = self@;
        let key: ProcessControlKey = process_control_key(tenant, project, process);
        match self.controls.remove(&key) {
            None => {
                proof {
                    crate::ordered_map::lemma_delete_absent(before.controls, key.key());
                }
            },
            Some(found) => {
                let mut control: CoordinatorMainControl = found;
                control.abort = true;
                control.state = MainState::Stopping;
                self.controls.insert(key, control);
            },
        }
        let ghost p = waits_in((tenant@, project@, process@));
        let ghost q = |k: (Seq<char>, Seq<char>, Seq<char>, Seq<char>)|
            !waits_in((tenant@, project@, process@))(k);
        let test = |key: &TaskRestartKey| -> (b: bool)
            ensures
                b == waits_in((tenant@, project@, process@))(key.key()),
        {
            assert(key.key() == (key.0@, key.1@, key.2@, key.3@));
            text_eq(key.0.as_str(), tenant.as_str()) && text_eq(key.1.as_str(), project.as_str())
                && text_eq(key.2.as_str(), process.as_str())
        };
        let other = |key: &TaskRestartKey| -> (b: bool)
            ensures
                b == !waits_in((tenant@, project@, process@))(key.key()),
        { !test(key) };
        let told: OrderedSet<TaskRestartKey> = self.join_waiters.select(&test, Ghost(p));
        self.join_waiters.retain(other, Ghost(q));
        assert(self@.join_waiters =~= interrupted_main(
            before,
            (tenant@, project@, process@),
        ).join_waiters);
        told
    }

    /// Whether a launch of a main is the one that runs.
    pub open spec fn is_current(s: CoordinatorMainRuntimeModel, scope: MainScope) -> bool {
        lookup(s.controls, (scope.tenant@, scope.project@, scope.process@)) matches Some(control)
            && control.launch_id == scope.launch_id
    }

    /// Whether a launch of a main is the one that runs.
    pub fn is_current_scope(&self, scope: &MainScope) -> (r: bool)
        ensures
            r == Self::is_current(self@, *scope),
    {
        match self.controls.get(&process_control_key(&scope.tenant, &scope.project, &scope.process)) {
            Some(control) => control.launch_id == scope.launch_id,
            None => false,
        }
    }
}

/// What a coordinator main asks for when it starts a task.
pub struct TaskStartRequest {
    pub task_definition: TaskDefinitionId,
    pub environment_id: Option<String>,
    pub args: Vec<TaskBoundaryValue>,
    pub requested_secrets: TextList,
    pub failure_policy: TaskFailurePolicy,
}

/// The model of [`TaskStartRequest`].
#[verifier::ext_equal]
pub struct TaskStartRequestModel {
    pub task_definition: TaskDefinitionId,
    pub environment_id: Option<String>,
    pub args: Seq<TaskBoundaryValueModel>,
    pub requested_secrets: Seq<Seq<char>>,
    pub failure_policy: TaskFailurePolicy,
}

impl View for TaskStartRequest {
    type V = TaskStartRequestModel;

    open spec fn view(&self) -> TaskStartRequestModel {
        TaskStartRequestModel {
            task_definition: self.task_definition,
            environment_id: self.environment_id,
            args: views(self.args@),
            requested_secrets: self.requested_secrets@,
            failure_policy: self.failure_policy,
        }
    }
}

/// What a coordinator main has at hand while it runs.
pub struct CoordinatorMainHost {
    pub scope: MainScope,
    pub task_descriptors: OrderedMap<String, Descriptor>,
    pub environments: OrderedMap<String, EnvironmentResource>,
    pub trigger_context: Option<TriggerContext>,
    pub source_snapshot: Option<Digest>,
    pub source_revision: Option<RepositoryRevision>,
    pub bundle_digest: Digest,
    pub next_handle_id: u64,
    pub wake_rate: GuestWakeRate,
}

/// The capabilities that a list names, added to a set; or why one is none. `absent` is said of an
/// item that is no text.
pub open spec fn listed_capabilities(
    found: Capabilities,
    items: Seq<Option<Seq<char>>>,
    absent: Seq<char>,
) -> Result<
    Capabilities,
    Seq<char>,
>
    decreases items.len(),
{
    if items.len() == 0 {
        Ok(found)
    } else {
        match items[0] {
            None => Err(absent),
            Some(word) => match capability_of(word) {
                Err(reason) => Err(reason),
                Ok(capability) => listed_capabilities(
                    found.with(capability),
                    items.skip(1),
                    absent,
                ),
            },
        }
    }
}

/// The capabilities that a descriptor requires; or why it names one that is none.
pub open spec fn descriptor_capabilities(descriptor: DescriptorModel) -> Result<Capabilities, Seq<char>> {
    match descriptor.required_capabilities {
        None => Ok(Capabilities::empty()),
        Some(items) => listed_capabilities(
            Capabilities::empty(),
            items,
            "task capability descriptor is not a string"@,
        ),
    }
}

/// Reads the capabilities that a list names. `absent` is said of an item that is no text.
pub(crate) fn read_capabilities(list: &Option<Vec<Option<String>>>, absent: &str) -> (r: Result<
    Capabilities,
    String,
>)
    ensures
        match list_view(*list) {
            None => r == Ok::<Capabilities, String>(Capabilities::empty()),
            Some(items) => match listed_capabilities(Capabilities::empty(), items, absent@) {
                Ok(found) => r == Ok::<Capabilities, String>(found),
                Err(reason) => r matches Err(text) && text@ == reason,
            },
        },
{
    let mut found: Capabilities = Capabilities::none();
    match list {
        None => {},
        Some(items) => {
            let ghost shown = items_view(items@);
            let n: usize = items.len();
            let mut i: usize = 0;
            assert(shown.skip(0) =~= shown);
            while i < n
                invariant
                    n == items@.len(),
                    shown == items_view(items@),
                    list_view(*list) == Some(shown),
                    0 <= i <= n,
                    listed_capabilities(found, shown.skip(i as int), absent@)
                        == listed_capabilities(Capabilities::empty(), shown, absent@),
                decreases n - i,
            {
                assert(shown.skip(i as int).skip(1) =~= shown.skip(i + 1));
                assert(shown.skip(i as int)[0] == option_view(items@[i as int]));
                match &items[i] {
                    None => {
                        return Err(absent.to_owned());
                    },
                    Some(word) => {
                        match capability_from_descriptor(word.as_str()) {
                            Err(reason) => {
                                return Err(reason);
                            },
                            Ok(capability) => {
                                found = found.including(capability);
                            },
                        }
                    },
                }
                i = i + 1;
            }
            assert(shown.skip(n as int).len() == 0);
        },
    }
    Ok(found)
}

/// The artifacts that some values refer to.
pub open spec fn artifacts_of(values: Seq<TaskBoundaryValueModel>) -> Set<Seq<char>> {
    Set::new(
        |x: Seq<char>|
            exists|i: int|
                0 <= i < values.len() && (#[trigger] values[i]).required_artifacts.contains(x),
    )
}

/// The source snapshots that some values refer to.
pub open spec fn snapshots_of(values: Seq<TaskBoundaryValueModel>) -> Set<Seq<char>> {
    Set::new(
        |x: Seq<char>|
            exists|i: int|
                0 <= i < values.len() && (#[trigger] values[i]).source_snapshots.contains(x),
    )
}

/// Adds the texts of a list to a set.
fn add_texts(set: &mut OrderedSet<String>, list: &TextList)
    ensures
        final(set)@ == old(set)@.union(list@.to_set()),
{
    let ghost before = set@;
    let n: usize = list.items.len();
    let mut i: usize = 0;
    assert(list@.take(0).to_set() =~= Set::empty());
    assert(before.union(Set::empty()) =~= before);
    while i < n
        invariant
            n == list.items@.len(),
            n == list@.len(),
            0 <= i <= n,
            set@ == before.union(list@.take(i as int).to_set()),
        decreases n - i,
    {
        let text: String = list.items[i].clone();
        assert(text.key() == list@[i as int]);
        let _new: bool = set.insert(text);
        assert(list@.take(i + 1).to_set() =~= list@.take(i as int).to_set().insert(
            list@[i as int],
        )) by {
            let longer = list@.take(i + 1);
            let shorter = list@.take(i as int);
            assert forall|x: Seq<char>| longer.contains(x) <==> shorter.contains(x) || x
                == list@[i as int] by {
                if longer.contains(x) {
                    let j = choose|j: int| 0 <= j < longer.len() && longer[j] == x;
                    if j < i {
                        assert(shorter[j] == x);
                    }
                }
                if shorter.contains(x) {
                    let j = choose|j: int| 0 <= j < shorter.len() && shorter[j] == x;
                    assert(longer[j] == x);
                }
                assert(longer[i as int] == list@[i as int]);
            }
        }
        assert(set@ =~= before.union(list@.take(i + 1).to_set()));
        i = i + 1;
    }
    assert(list@.take(n as int) =~= list@);
}

fn collect_artifacts(values: &Vec<TaskBoundaryValue>) -> (r: OrderedSet<String>)
    ensures
        r@ == artifacts_of(views(values@)),
{
    let ghost all = views(values@);
    let mut found: OrderedSet<String> = OrderedSet::new();
    let n: usize = values.len();
    let mut i: usize = 0;
    assert(found@ =~= artifacts_of(all.take(0)));
    while i < n
        invariant
            n == values@.len(),
            all == views(values@),
            0 <= i <= n,
            found@ == artifacts_of(all.take(i as int)),
        decreases n - i,
    {
        let ghost shorter = all.take(i as int);
        let ghost longer = all.take(i + 1);
        let ghost one = all[i as int].required_artifacts;
        add_texts(&mut found, &values[i].required_artifacts);
        assert(found@ =~= artifacts_of(longer)) by {
            assert forall|x: Seq<char>| found@.contains(x) <==> artifacts_of(longer).contains(x) by {
                if artifacts_of(shorter).contains(x) {
                    let j = choose|j: int|
                        0 <= j < shorter.len() && (#[trigger] shorter[j]).required_artifacts.contains(
                            x,
                        );
                    assert(longer[j].required_artifacts.contains(x));
                }
                if one.contains(x) {
                    assert(longer[i as int].required_artifacts.contains(x));
                }
                if artifacts_of(longer).contains(x) {
                    let j = choose|j: int|
                        0 <= j < longer.len() && (#[trigger] longer[j]).required_artifacts.contains(
                            x,
                        );
                    if j < i {
                        assert(shorter[j].required_artifacts.contains(x));
                    }
                }
            }
        }
        i = i + 1;
    }
    assert(all.take(n as int) =~= all);
    found
}

fn collect_snapshots(values: &Vec<TaskBoundaryValue>) -> (r: OrderedSet<String>)
    ensures
        r@ == snapshots_of(views(values@)),
{
    let ghost all = views(values@);
    let mut found: OrderedSet<String> = OrderedSet::new();
    let n: usize = values.len();
    let mut i: usize = 0;
    assert(found@ =~= snapshots_of(all.take(0)));
    while i < n
        invariant
            n == values@.len(),
            all == views(values@),
            0 <= i <= n,
            found@ == snapshots_of(all.take(i as int)),
        decreases n - i,
    {
        let ghost shorter = all.take(i as int);
        let ghost longer = all.take(i + 1);
        let ghost one = all[i as int].source_snapshots;
        add_texts(&mut found, &values[i].source_snapshots);
        assert(found@ =~= snapshots_of(longer)) by {
            assert forall|x: Seq<char>| found@.contains(x) <==> snapshots_of(longer).contains(x) by {
                if snapshots_of(shorter).contains(x) {
                    let j = choose|j: int|
                        0 <= j < shorter.len() && (#[trigger] shorter[j]).source_snapshots.contains(
                            x,
                        );
                    assert(longer[j].source_snapshots.contains(x));
                }
                if one.contains(x) {
                    assert(longer[i as int].source_snapshots.contains(x));
                }
                if snapshots_of(longer).contains(x) {
                    let j = choose|j: int|
                        0 <= j < longer.len() && (#[trigger] longer[j]).source_snapshots.contains(x);
                    if j < i {
                        assert(shorter[j].source_snapshots.contains(x));
                    }
                }
            }
        }
        i = i + 1;
    }
    assert(all.take(n as int) =~= all);
    found
}

/// The source that a child of a coordinator main works on: the snapshot, and the revision.
pub open spec fn child_source(
    host: CoordinatorMainHost,
    snapshot: Option<Seq<char>>,
    required: Capabilities,
) -> (Option<Seq<char>>, Option<RepositoryRevision>) {
    let revision = match snapshot {
        Some(text) => match host.source_revision {
            Some(known) => if known.source_snapshot@ == text {
                Some(known)
            } else {
                None
            },
            None => None,
        },
        None => if required.holds(Capability::SourceFilesystem) {
            host.source_revision
        } else {
            None
        },
    };
    let found = if snapshot is Some {
        snapshot
    } else if revision is Some {
        Some(revision->Some_0.source_snapshot@)
    } else if required.holds(Capability::SourceFilesystem) {
        option_view(host.source_snapshot)
    } else {
        None
    };
    (found, revision)
}

/// The snapshot that values refer to, where they refer to one.
pub open spec fn snapshot_of(values: Seq<TaskBoundaryValueModel>, snapshot: Option<Seq<char>>) -> bool {
    match snapshot {
        None => snapshots_of(values) == Set::<Seq<char>>::empty(),
        Some(text) => snapshots_of(values) == set![text],
    }
}

/// Why a child cannot be started, if it cannot.
pub open spec fn child_refusal(
    host: CoordinatorMainHost,
    request: TaskStartRequestModel,
    check: Result<(), String>,
    aborted: bool,
    handle_count: usize,
) -> Option<Seq<char>> {
    let name = request.task_definition@;
    let descriptor = lookup(host.task_descriptors@, name);
    if check is Err {
        Some(check->Err_0@)
    } else if aborted {
        Some("coordinator main is stopping"@)
    } else if descriptor is None {
        Some("bundle has no task descriptor named `"@ + name + "`"@)
    } else if named_export(descriptor->Some_0) is None {
        Some("task `"@ + name + "` descriptor omitted its Wasm export"@)
    } else if descriptor_capabilities(descriptor->Some_0) is Err {
        Some(descriptor_capabilities(descriptor->Some_0)->Err_0)
    } else if request.environment_id is Some && lookup(
        host.environments@,
        request.environment_id->Some_0@,
    ) is None {
        Some(
            "bundle environment manifest has no environment `"@ + request.environment_id->Some_0@
                + "`"@,
        )
    } else if snapshots_of(request.args).len() > 1 {
        Some("one task invocation cannot require multiple distinct source snapshots"@)
    } else if handle_count >= MAX_IN_FLIGHT_TASKS_PER_PROCESS {
        Some("coordinator main task-handle limit of 256 reached"@)
    } else {
        None
    }
}

/// The environment that a request names.
pub open spec fn child_environment(host: CoordinatorMainHost, request: TaskStartRequestModel) -> Option<
    EnvironmentResource,
> {
    match request.environment_id {
        Some(id) => lookup(host.environments@, id@),
        None => None,
    }
}

/// The capabilities that a child requires.
pub open spec fn child_capabilities(host: CoordinatorMainHost, request: TaskStartRequestModel) -> Capabilities {
    let own = descriptor_capabilities(
        lookup(host.task_descriptors@, request.task_definition@)->Some_0,
    )->Ok_0;
    match child_environment(host, request) {
        Some(environment) => own.joined(environment.requirements.capabilities),
        None => own,
    }
}

/// What a child of a coordinator main is asked to do.
pub open spec fn is_child_spec(
    spec: TaskSpecModel,
    host: CoordinatorMainHost,
    request: TaskStartRequestModel,
    snapshot: Option<Seq<char>>,
) -> bool {
    let descriptor = lookup(host.task_descriptors@, request.task_definition@)->Some_0;
    let environment = child_environment(host, request);
    let required = child_capabilities(host, request);
    let source = child_source(host, snapshot, required);
    &&& snapshot_of(request.args, snapshot)
    &&& spec.tenant@ == host.scope.tenant@
    &&& spec.project@ == host.scope.project@
    &&& spec.process@ == host.scope.process@
    &&& spec.task_definition@ == request.task_definition@
    &&& spec.task_instance@ == host.scope.task_instance@ + ":child:"@ + decimal(
        host.next_handle_id as nat,
    )
    &&& spec.dispatch matches TaskDispatch::CoordinatorNodeWasm { export, abi }
    &&& option_view(export) == named_export(descriptor)
    &&& abi == WasmExportAbi::TaskV1
    &&& option_view(spec.environment_id) == option_view(request.environment_id)
    &&& spec.environment == (match environment {
        Some(environment) => Some(environment.requirements),
        None => None,
    })
    &&& option_view(spec.environment_digest) == (match environment {
        Some(environment) => Some(environment.digest@),
        None => None,
    })
    &&& spec.required_capabilities == required
    &&& spec.dependency_cache is None
    &&& option_view(spec.source_snapshot) == source.0
    &&& spec.source_revision == source.1
    &&& enumerates(spec.required_artifacts, artifacts_of(request.args))
    &&& spec.args == request.args
    &&& spec.requested_secrets == request.requested_secrets
    &&& spec.vfs_epoch == host.scope.epoch
    &&& spec.failure_policy == request.failure_policy
    &&& option_view(spec.bundle_digest) == Some(host.bundle_digest@)
}

/// A child can be started with what it is asked to do.
pub open spec fn child_planned(
    host: CoordinatorMainHost,
    request: TaskStartRequestModel,
    spec: TaskSpecModel,
) -> bool {
    exists|snapshot: Option<Seq<char>>| #[trigger] is_child_spec(spec, host, request, snapshot)
}

/// The host after it was woken.
pub open spec fn woken(host: CoordinatorMainHost, after: CoordinatorMainHost, now: u64) -> bool {
    &&& after == (CoordinatorMainHost { wake_rate: after.wake_rate, ..host })
    &&& after.wake_rate.maximum_per_minute == host.wake_rate.maximum_per_minute
    &&& after.wake_rate.window_started == (if now >= host.wake_rate.window_started + 60_000 {
        now
    } else {
        host.wake_rate.window_started
    })
    &&& after.wake_rate.used == host.wake_rate.used_at(now) + (if host.wake_rate.used_at(now)
        >= host.wake_rate.maximum_per_minute {
        0int
    } else {
        1int
    })
}

/// What is said to a main that was woken too often.
pub open spec fn wake_refusal(host: CoordinatorMainHost) -> Seq<char> {
    "coordinator main wake-rate limit of "@ + decimal(host.wake_rate.maximum_per_minute as nat)
        + " per minute reached"@
}

/// Whether a main was woken too often.
pub open spec fn woken_too_often(host: CoordinatorMainHost, now: u64) -> bool {
    host.wake_rate.used_at(now) >= host.wake_rate.maximum_per_minute
}

/// What comes of asking for a child.
pub open spec fn child_asked_for(
    host: CoordinatorMainHost,
    request: TaskStartRequestModel,
    check: Result<(), String>,
    aborted: bool,
    handle_count: usize,
    now: u64,
    r: Result<TaskSpec, String>,
) -> bool {
    if woken_too_often(host, now) {
        r matches Err(text) && text@ == wake_refusal(host)
    } else {
        match child_refusal(host, request, check, aborted, handle_count) {
            Some(reason) => r matches Err(text) && text@ == reason,
            None => r matches Ok(spec) && child_planned(host, request, spec@),
        }
    }
}

impl CoordinatorMainHost {
    /// Plans a child. `check` is what the check of the request in itself gave; `aborted` says
    /// whether the main is to stop, and `handle_count` how many children it waits for.
    pub fn start_task(
        &mut self,
        request: TaskStartRequest,
        check: Result<(), String>,
        aborted: bool,
        handle_count: usize,
        now: u64,
    ) -> (r: Result<TaskSpec, String>)
        ensures
            woken(*old(self), *final(self), now),
            child_asked_for(*old(self), request@, check, aborted, handle_count, now, r),
    {
        let ghost host = *self;
        match self.wake_rate.charge(now) {
            Err(text) => {
                return Err(text);
            },
            Ok(_) => {},
        }
        match check {
            Err(text) => {
                return Err(text);
            },
            Ok(_) => {},
        }
        if aborted {
            return Err("coordinator main is stopping".to_owned());
        }
        assert(request.task_definition.key() == request.task_definition@);
        let descriptor: &Descriptor = match self.task_descriptors.get(&request.task_definition) {
            Some(descriptor) => descriptor,
            None => {
                return Err(
                    concat3(
                        "bundle has no task descriptor named `",
                        request.task_definition.as_str(),
                        "`",
                    ),
                );
            },
        };
        let export: String = match &descriptor.export {
            Some(export) => {
                if is_blank(export.as_str()) {
                    return Err(
                        concat3(
                            "task `",
                            request.task_definition.as_str(),
                            "` descriptor omitted its Wasm export",
                        ),
                    );
                }
                export.clone()
            },
            None => {
                return Err(
                    concat3(
                        "task `",
                        request.task_definition.as_str(),
                        "` descriptor omitted its Wasm export",
                    ),
                );
            },
        };
        let own: Capabilities = match read_capabilities(
            &descriptor.required_capabilities,
            "task capability descriptor is not a string",
        ) {
            Ok(own) => own,
            Err(reason) => {
                return Err(reason);
            },
        };
        let environment: Option<EnvironmentResource> = match &request.environment_id {
            None => None,
            Some(id) => {
                assert(id.key() == id@);
                match self.environments.get(id) {
                    Some(environment) => Some(environment.duplicate()),
                    None => {
                        return Err(
                            concat3(
                                "bundle environment manifest has no environment `",
                                id.as_str(),
                                "`",
                            ),
                        );
                    },
                }
            },
        };
        let required: Capabilities = match &environment {
            Some(environment) => own.union(&environment.requirements.capabilities),
            None => own,
        };
        let artifacts: OrderedSet<String> = collect_artifacts(&request.args);
        let snapshots: OrderedSet<String> = collect_snapshots(&request.args);
        let snapshot_count: usize = snapshots.count();
        if snapshot_count > 1 {
            return Err(
                "one task invocation cannot require multiple distinct source snapshots".to_owned(),
            );
        }
        if handle_count >= MAX_IN_FLIGHT_TASKS_PER_PROCESS {
            return Err("coordinator main task-handle limit of 256 reached".to_owned());
        }
        let named: Option<Digest> = match snapshots.first() {
            Some(text) => Some(text.clone()),
            None => None,
        };
        let ghost snapshot = option_view(named);
        assert(snapshot_of(request@.args, snapshot)) by {
            let all = snapshots_of(request@.args);
            match snapshot {
                None => {},
                Some(text) => {
                    assert(all.contains(text));
                    assert(all.finite() && all.len() == 1);
                    assert(all.remove(text).len() == 0);
                    assert(all =~= set![text]) by {
                        assert forall|x: Seq<char>| all.contains(x) implies x == text by {
                            if x != text {
                                assert(all.remove(text).contains(x));
                            }
                        }
                    }
                },
            }
        }
        let filesystem: bool = required.contains(Capability::SourceFilesystem);
        let revision: Option<RepositoryRevision> = match &named {
            Some(text) => match &self.source_revision {
                Some(known) => {
                    if text_eq(known.source_snapshot.as_str(), text.as_str()) {
                        Some(known.duplicate())
                    } else {
                        None
                    }
                },
                None => None,
            },
            None => {
                if filesystem {
                    copy_option(&self.source_revision)
                } else {
                    None
                }
            },
        };
        let source_snapshot: Option<Digest> = match named {
            Some(text) => Some(text),
            None => match &revision {
                Some(known) => Some(known.source_snapshot.clone()),
                None => {
                    if filesystem {
                        copy_text(&self.source_snapshot)
                    } else {
                        None
                    }
                },
            },
        };
        let number: String = decimal_text(self.next_handle_id);
        let task_instance: TaskInstanceId = concat3(
            self.scope.task_instance.as_str(),
            ":child:",
            number.as_str(),
        );
        let environment_digest: Option<Digest> = match &environment {
            Some(environment) => Some(environment.digest.clone()),
            None => None,
        };
        let requirements: Option<EnvironmentRequirements> = match environment {
            Some(environment) => Some(environment.requirements),
            None => None,
        };
        let ghost asked = request@;
        let spec: TaskSpec = TaskSpec {
            tenant: self.scope.tenant.clone(),
            project: self.scope.project.clone(),
            process: self.scope.process.clone(),
            task_definition: request.task_definition,
            task_instance,
            dispatch: TaskDispatch::CoordinatorNodeWasm {
                export: Some(export),
                abi: WasmExportAbi::TaskV1,
            },
            environment_id: request.environment_id,
            environment: requirements,
            environment_digest,
            required_capabilities: required,
            dependency_cache: None,
            source_snapshot,
            source_revision: revision,
            required_artifacts: list_texts(&artifacts),
            args: request.args,
            requested_secrets: request.requested_secrets,
            vfs_epoch: self.scope.epoch,
            failure_policy: request.failure_policy,
            bundle_digest: Some(self.bundle_digest.clone()),
        };
        assert(is_child_spec(spec@, host, asked, snapshot));
        Ok(spec)
    }

    /// Counts a child that was started.
    pub fn task_started(&mut self) -> (r: u64)
        ensures
            r == old(self).next_handle_id,
            *final(self) == (CoordinatorMainHost {
                next_handle_id: if old(self).next_handle_id < u64::MAX {
                    (old(self).next_handle_id + 1) as u64
                } else {
                    u64::MAX
                },
                ..*old(self)
            }),
    {
        let handle_id: u64 = self.next_handle_id;
        self.next_handle_id = self.next_handle_id.saturating_add(1);
        handle_id
    }

    /// A main cannot run commands.
    pub fn run_command(&mut self, now: u64) -> (r: String)
        ensures
            woken(*old(self), *final(self), now),
            r@ == (if woken_too_often(*old(self), now) {
                wake_refusal(*old(self))
            } else {
                "coordinator main is capless and cannot run native commands"@
            }),
    {
        match self.wake_rate.charge(now) {
            Err(text) => text,
            Ok(_) => "coordinator main is capless and cannot run native commands".to_owned(),
        }
    }

    /// A main has no checkout of the source.
    pub fn snapshot_source(&mut self, now: u64) -> (r: String)
        ensures
            woken(*old(self), *final(self), now),
            r@ == (if woken_too_often(*old(self), now) {
                wake_refusal(*old(self))
            } else {
                "coordinator main is capless and cannot access source checkouts"@
            }),
    {
        match self.wake_rate.charge(now) {
            Err(text) => text,
            Ok(_) => "coordinator main is capless and cannot access source checkouts".to_owned(),
        }
    }

    /// Admits a request that needs nothing but to be valid: `check` is what its check gave.
    pub fn let_in(&mut self, check: Result<(), String>, now: u64) -> (r: Result<(), String>)
        ensures
            woken(*old(self), *final(self), now),
            if woken_too_often(*old(self), now) {
                r matches Err(text) && text@ == wake_refusal(*old(self))
            } else {
                r == check
            },
    {
        match self.wake_rate.charge(now) {
            Err(text) => Err(text),
            Ok(_) => check,
        }
    }

    /// Admits an operation on files: a main may release artifacts and nothing else.
    pub fn vfs_operation(&mut self, releases: bool, check: Result<(), String>, now: u64) -> (r: Result<
        (),
        String,
    >)
        ensures
            woken(*old(self), *final(self), now),
            if woken_too_often(*old(self), now) {
                r matches Err(text) && text@ == wake_refusal(*old(self))
            } else if check is Err {
                r == check
            } else if !releases {
                r matches Err(text) && text@
                    == "coordinator main is capless and cannot access task VFS files"@
            } else {
                r is Ok
            },
    {
        match self.let_in(check, now) {
            Err(text) => Err(text),
            Ok(_) => {
                if releases {
                    Ok(())
                } else {
                    Err("coordinator main is capless and cannot access task VFS files".to_owned())
                }
            },
        }
    }

    /// What the main is told of its trigger.
    pub fn trigger_context(&mut self, check: Result<(), String>, now: u64) -> (r: Result<
        TriggerContext,
        String,
    >)
        ensures
            woken(*old(self), *final(self), now),
            if woken_too_often(*old(self), now) {
                r matches Err(text) && text@ == wake_refusal(*old(self))
            } else {
                match check {
                    Err(reason) => r matches Err(text) && text@ == reason@,
                    Ok(_) => match old(self).trigger_context {
                        Some(context) => r == Ok::<TriggerContext, String>(context),
                        None => r matches Err(text) && text@
                            == "this Wasm invocation has no forge trigger context"@,
                    },
                }
            },
    {
        match self.let_in(check, now) {
            Err(text) => Err(text),
            Ok(_) => match &self.trigger_context {
                Some(context) => Ok(context.duplicate()),
                None => Err("this Wasm invocation has no forge trigger context".to_owned()),
            },
        }
    }
}

/// A child that works on no source has no source, unless it requires the file system of one.
pub proof fn sourceless_children_have_no_source(host: CoordinatorMainHost, request: TaskStartRequestModel, spec: TaskSpecModel)
    requires
        child_planned(host, request, spec),
        snapshots_of(request.args) == Set::<Seq<char>>::empty(),
        !child_capabilities(host, request).holds(Capability::SourceFilesystem),
    ensures
        spec.source_snapshot is None,
        spec.source_revision is None,
{
    let snapshot = choose|snapshot: Option<Seq<char>>| #[trigger]
        is_child_spec(spec, host, request, snapshot);
    assert(snapshot is None) by {
        if snapshot is Some {
            assert(set![snapshot->Some_0].contains(snapshot->Some_0));
        }
    }
}

/// A child that requires the file system of the source, and names no snapshot, gets that of its
/// process.
pub proof fn source_backed_children_inherit_the_source(
    host: CoordinatorMainHost,
    request: TaskStartRequestModel,
    spec: TaskSpecModel,
)
    requires
        child_planned(host, request, spec),
        snapshots_of(request.args) == Set::<Seq<char>>::empty(),
        child_capabilities(host, request).holds(Capability::SourceFilesystem),
    ensures
        spec.source_revision == host.source_revision,
        option_view(spec.source_snapshot) == (match host.source_revision {
            Some(revision) => Some(revision.source_snapshot@),
            None => option_view(host.source_snapshot),
        }),
{
    let snapshot = choose|snapshot: Option<Seq<char>>| #[trigger]
        is_child_spec(spec, host, request, snapshot);
    assert(snapshot is None) by {
        if snapshot is Some {
            assert(set![snapshot->Some_0].contains(snapshot->Some_0));
        }
    }
}

/// What a coordinator main is launched with.
pub struct MainLaunch {
    pub scope: MainScope,
    pub export: String,
    pub module: Vec<u8>,
    pub task_descriptors: OrderedMap<String, Descriptor>,
    pub environments: OrderedMap<String, EnvironmentResource>,
    pub trigger_context: Option<TriggerContext>,
    pub source_snapshot: Option<Digest>,
    pub source_revision: Option<RepositoryRevision>,
    pub bundle_digest: Digest,
}

/// Why a coordinator main is not launched. Where `process_failed` holds, its process has ended, and
/// who waits for the tasks in `told` is told so.
pub struct MainRefusal {
    pub error: CoordinatorServiceError,
    pub process_failed: bool,
    pub told: OrderedSet<TaskRestartKey>,
}

/// The entries of one map, and those of another over them.
pub open spec fn overlaid<M: crate::ordered::Ranked, X>(a: Seq<(M, X)>, b: Seq<(M, X)>) -> Seq<(M, X)>
    decreases b.len(),
{
    if b.len() == 0 {
        a
    } else {
        put(overlaid(a, b.drop_last()), b.last().0, b.last().1)
    }
}

fn overlay(
    mut base: OrderedMap<String, EnvironmentResource>,
    other: &OrderedMap<String, EnvironmentResource>,
) -> (r: OrderedMap<String, EnvironmentResource>)
    ensures
        r@ == overlaid(base@, other@),
{
    let ghost start = base@;
    let n: usize = other.len();
    let mut i: usize = 0;
    while i < n
        invariant
            n == other@.len(),
            0 <= i <= n,
            base@ == overlaid(start, other@.take(i as int)),
        decreases n - i,
    {
        let ghost longer = other@.take(i + 1);
        assert(longer.drop_last() =~= other@.take(i as int));
        let key: String = other.key_at(i).copy_key();
        base.insert(key, other.value_at(i).duplicate());
        i = i + 1;
    }
    assert(other@.take(n as int) =~= other@);
    base
}

/// Whether a main is asked to have anything but its module.
pub open spec fn is_capless(spec: TaskSpecModel) -> bool {
    &&& spec.environment_id is None
    &&& spec.environment is None
    &&& spec.environment_digest is None
    &&& spec.required_capabilities.lacks_all()
    &&& spec.dependency_cache is None
    &&& spec.required_artifacts.len() == 0
    &&& spec.args.len() == 0
}

/// The export that a main is entered by.
pub open spec fn main_export(dispatch: TaskDispatch) -> Option<Seq<char>> {
    match dispatch {
        TaskDispatch::CoordinatorNodeWasm { export, abi } => if abi == WasmExportAbi::EntrypointV1 {
            option_view(export)
        } else {
            None
        },
        TaskDispatch::Other(_) => None,
    }
}

/// Why a main is refused before its module is read, if it is; and whether for want of authority.
pub open spec fn main_refusal(
    s: CoordinatorServiceModel,
    tenant: Seq<char>,
    project: Seq<char>,
    spec: TaskSpecModel,
) -> Option<(bool, Seq<char>)> {
    let key = (tenant, project, spec.process@);
    match lookup(s.coordinator.active_processes, key) {
        None => Some((true, "coordinator main launch requires an active virtual process"@)),
        Some(active) => if capacity_refusal(s.mains, key, key.2) is Some {
            Some((false, capacity_refusal(s.mains, key, key.2)->Some_0))
        } else if spec.tenant@ != tenant || spec.project@ != project {
            Some((true, "coordinator main TaskSpec is outside the authenticated scope"@))
        } else if spec.vfs_epoch != active.coordinator_epoch {
            Some(
                (
                    true,
                    "coordinator main TaskSpec VFS epoch "@ + decimal(spec.vfs_epoch as nat)
                        + " does not match active process epoch "@ + decimal(
                        active.coordinator_epoch as nat,
                    ),
                ),
            )
        } else if main_export(spec.dispatch) is None {
            Some((false, "coordinator main requires an explicit EntrypointV1 Wasm export"@))
        } else if !is_capless(spec) {
            Some(
                (
                    true,
                    "coordinator main must be capless and may not receive environment, artifact, cache, or argument authority"@,
                ),
            )
        } else if spec.bundle_digest is None {
            Some((false, "coordinator main TaskSpec omitted bundle digest"@))
        } else {
            None
        },
    }
}

/// Whether an error is the given refusal.
pub open spec fn is_refusal(error: CoordinatorServiceError, refusal: (bool, Seq<char>)) -> bool {
    if refusal.0 {
        error.denies(refusal.1)
    } else {
        error.protests(refusal.1)
    }
}

/// The revision that a process runs for, by the automated run that launched it.
pub open spec fn run_revision(s: CoordinatorServiceModel, key: ProcessText) -> Option<RepositoryRevision> {
    match first_run(s.coordinator.durable.automation, runs_process(key.0, key.1, key.2)) {
        Some(e) => e.1.revision,
        None => None,
    }
}

/// Whether a main names another revision than its automated run.
pub open spec fn revisions_clash(spec: TaskSpecModel, known: Option<RepositoryRevision>) -> bool {
    &&& spec.source_revision matches Some(own)
    &&& known matches Some(other)
    &&& !repository_revision_alike(own, other)
}

/// What a main is launched with.
pub open spec fn is_main_launch(
    s: CoordinatorServiceModel,
    tenant: Seq<char>,
    project: Seq<char>,
    spec: TaskSpecModel,
    module: Seq<u8>,
    embedded: Seq<(Seq<char>, EnvironmentResource)>,
    launch: MainLaunch,
) -> bool {
    let key = (tenant, project, spec.process@);
    let run = first_run(s.coordinator.durable.automation, runs_process(key.0, key.1, key.2));
    let revision = if spec.source_revision is Some {
        spec.source_revision
    } else {
        run_revision(s, key)
    };
    &&& launch.scope.tenant@ == tenant
    &&& launch.scope.project@ == project
    &&& launch.scope.process@ == spec.process@
    &&& launch.scope.task_definition@ == spec.task_definition@
    &&& launch.scope.task_instance@ == spec.task_instance@
    &&& launch.scope.epoch == spec.vfs_epoch
    &&& launch.scope.launch_id == s.mains.next_launch_id
    &&& main_export(spec.dispatch) == Some(launch.export@)
    &&& launch.module@ == module
    &&& module_tasks(module) == Ok::<Seq<(Seq<char>, DescriptorModel)>, DescriptorFault>(
        launch.task_descriptors@,
    )
    &&& launch.environments@ == overlaid(
        embedded,
        match run {
            Some(e) => by_name(e.1.revision_environments),
            None => Seq::empty(),
        },
    )
    &&& launch.trigger_context == (match run {
        Some(e) => e.1.trigger_context,
        None => None,
    })
    &&& launch.source_revision == revision
    &&& option_view(launch.source_snapshot) == (if spec.source_snapshot is Some {
        option_view(spec.source_snapshot)
    } else {
        match revision {
            Some(revision) => Some(revision.source_snapshot@),
            None => None,
        }
    })
    &&& option_view(spec.bundle_digest) == Some(launch.bundle_digest@)
}

/// The mains with one more.
pub open spec fn main_added(
    before: CoordinatorMainRuntimeModel,
    after: CoordinatorMainRuntimeModel,
    key: ProcessText,
    spec: TaskSpecModel,
) -> bool {
    &&& lookup(after.controls, key) matches Some(control)
    &&& control.task_definition@ == spec.task_definition@
    &&& control.task_instance@ == spec.task_instance@
    &&& control == (CoordinatorMainControlModel {
        task_definition: control.task_definition,
        task_instance: control.task_instance,
        abort: false,
        state: MainState::Running,
        stopped_probe_symbol: None,
        handles: Seq::empty(),
        launch_id: before.next_launch_id,
    })
    &&& after == (CoordinatorMainRuntimeModel {
        controls: put(before.controls, key, control),
        next_launch_id: if before.next_launch_id < u64::MAX {
            (before.next_launch_id + 1) as u64
        } else {
            u64::MAX
        },
        ..before
    })
}

/// What comes of checking a module for a main: the module and its environments, or an error.
pub open spec fn module_checked(
    s: CoordinatorServiceModel,
    key: ProcessText,
    spec: TaskSpecModel,
    wasm_module_base64: Seq<char>,
    actual_digest: Seq<char>,
    invocation: Result<(), String>,
    manifest: Result<Vec<EnvironmentResource>, String>,
    r: Result<(Seq<u8>, Seq<(Seq<char>, EnvironmentResource)>), CoordinatorServiceError>,
) -> bool {
    match base64_bytes(wasm_module_base64) {
        Err(text) => r matches Err(error) && error.protests(
            "coordinator main module is not valid base64: "@ + text,
        ),
        Ok(module) => if actual_digest != spec.bundle_digest->Some_0@ {
            r matches Err(error) && error.denies(
                "coordinator main module digest mismatch: expected "@ + spec.bundle_digest->Some_0@
                    + ", actual "@ + actual_digest,
            )
        } else if invocation is Err {
            r matches Err(error) && error.protests(invocation->Err_0@)
        } else {
            match module_tasks(module) {
                Err(fault) => r matches Err(error) && error.reports(fault),
                Ok(_) => exists|found: Result<
                    OrderedMap<String, EnvironmentResource>,
                    CoordinatorServiceError,
                >| #[trigger]
                    environments_read(module, manifest, found) && match found {
                        Err(fault) => r == Err::<
                            (Seq<u8>, Seq<(Seq<char>, EnvironmentResource)>),
                            CoordinatorServiceError,
                        >(fault),
                        Ok(embedded) => if revisions_clash(spec, run_revision(s, key)) {
                            r matches Err(error) && error.denies(
                                "coordinator main source revision does not match the automated run"@,
                            )
                        } else {
                            r == Ok::<
                                (Seq<u8>, Seq<(Seq<char>, EnvironmentResource)>),
                                CoordinatorServiceError,
                            >((module, embedded@))
                        },
                    },
            }
        },
    }
}

/// What comes of launching a coordinator main, but for what a refusal does to its process.
pub open spec fn main_launched(
    before: CoordinatorServiceModel,
    after: CoordinatorServiceModel,
    tenant: Seq<char>,
    project: Seq<char>,
    spec: TaskSpecModel,
    wasm_module_base64: Seq<char>,
    actual_digest: Seq<char>,
    invocation: Result<(), String>,
    manifest: Result<Vec<EnvironmentResource>, String>,
    r: Result<MainLaunch, CoordinatorServiceError>,
) -> bool {
    let key = (tenant, project, spec.process@);
    match main_refusal(before, tenant, project, spec) {
        Some(refusal) => {
            &&& after == before
            &&& r matches Err(error)
            &&& is_refusal(error, refusal)
        },
        None => exists|checked: Result<
            (Seq<u8>, Seq<(Seq<char>, EnvironmentResource)>),
            CoordinatorServiceError,
        >| #[trigger]
            module_checked(
                before,
                key,
                spec,
                wasm_module_base64,
                actual_digest,
                invocation,
                manifest,
                checked,
            ) && match checked {
                Err(fault) => after == before && r == Err::<MainLaunch, CoordinatorServiceError>(
                    fault,
                ),
                Ok((module, embedded)) => {
                    &&& r matches Ok(launch)
                    &&& is_main_launch(before, tenant, project, spec, module, embedded, launch)
                    &&& after == (CoordinatorServiceModel { mains: after.mains, ..before })
                    &&& main_added(before.mains, after.mains, key, spec)
                },
            },
    }
}

/// The service after the launch of a main was refused: unless the process had one already, it ends.
pub open spec fn main_refused(
    before: CoordinatorServiceModel,
    after: CoordinatorServiceModel,
    key: ProcessText,
    refusal: MainRefusal,
) -> bool {
    if lookup(before.mains.controls, key) is Some {
        after == before && !refusal.process_failed && refusal.told@ == Set::<
            (Seq<char>, Seq<char>, Seq<char>, Seq<char>),
        >::empty()
    } else {
        &&& refusal.process_failed
        &&& refusal.told@ == before.mains.join_waiters.filter(waits_in(key))
        &&& after == (CoordinatorServiceModel {
            mains: interrupted_main(before.mains, key),
            coordinator: without_process(before.coordinator, key),
            ..before
        })
    }
}

/// The coordinator without a process.
pub open spec fn without_process(c: CoordinatorModel, key: ProcessText) -> CoordinatorModel {
    match lookup(c.active_processes, key) {
        None => c,
        Some(_) => CoordinatorModel { active_processes: delete(c.active_processes, key), ..c },
    }
}

/// What a launch that is given up comes to.
pub open spec fn launch_abandoned(
    before: CoordinatorServiceModel,
    after: CoordinatorServiceModel,
    scope: MainScope,
    error: CoordinatorServiceError,
    r: MainRefusal,
) -> bool {
    &&& r.error == error
    &&& r.process_failed
    &&& r.told@ == before.mains.join_waiters.filter(
        waits_in((scope.tenant@, scope.project@, scope.process@)),
    )
    &&& after == (CoordinatorServiceModel {
        mains: interrupted_main(
            (CoordinatorMainRuntimeModel {
                controls: delete(
                    before.mains.controls,
                    (scope.tenant@, scope.project@, scope.process@),
                ),
                ..before.mains
            }),
            (scope.tenant@, scope.project@, scope.process@),
        ),
        coordinator: without_process(
            before.coordinator,
            (scope.tenant@, scope.project@, scope.process@),
        ),
        ..before
    })
}

impl CoordinatorService {
    fn check_main(&self, tenant: &TenantId, project: &ProjectId, spec: &TaskSpec) -> (r: Result<
        (String, Digest),
        CoordinatorServiceError,
    >)
        ensures
            match main_refusal(self@, tenant@, project@, spec@) {
                Some(refusal) => r matches Err(error) && is_refusal(error, refusal),
                None => {
                    &&& r matches Ok(found)
                    &&& main_export(spec.dispatch) == Some(found.0@)
                    &&& option_view(spec.bundle_digest) == Some(found.1@)
                },
            },
    {
        let key: ProcessControlKey = process_control_key(tenant, project, &spec.process);
        let active: &ActiveProcess = match self.coordinator.active_process(
            tenant,
            project,
            &spec.process,
        ) {
            Some(active) => active,
            None => {
                return Err(
                    unauthorized("coordinator main launch requires an active virtual process"),
                );
            },
        };
        match self.main_runtime.ensure_launch_capacity(&key, &spec.process) {
            Ok(_) => {},
            Err(error) => {
                return Err(error);
            },
        }
        if !text_eq(spec.tenant.as_str(), tenant.as_str()) || !text_eq(
            spec.project.as_str(),
            project.as_str(),
        ) {
            return Err(
                unauthorized("coordinator main TaskSpec is outside the authenticated scope"),
            );
        }
        if spec.vfs_epoch != active.coordinator_epoch {
            let asked: String = decimal_text(spec.vfs_epoch);
            let current: String = decimal_text(active.coordinator_epoch);
            let text: String = concat4(
                "coordinator main TaskSpec VFS epoch ",
                asked.as_str(),
                " does not match active process epoch ",
                current.as_str(),
            );
            return Err(unauthorized(text.as_str()));
        }
        let export: String = match &spec.dispatch {
            TaskDispatch::CoordinatorNodeWasm { export: Some(export), abi } => {
                if *abi != WasmExportAbi::EntrypointV1 {
                    return Err(
                        protocol("coordinator main requires an explicit EntrypointV1 Wasm export"),
                    );
                }
                export.clone()
            },
            _ => {
                return Err(
                    protocol("coordinator main requires an explicit EntrypointV1 Wasm export"),
                );
            },
        };
        if spec.environment_id.is_some() || spec.environment.is_some()
            || spec.environment_digest.is_some() || !spec.required_capabilities.is_empty()
            || spec.dependency_cache.is_some() || spec.required_artifacts.items.len() > 0
            || spec.args.len() > 0 {
            return Err(
                unauthorized(
                    "coordinator main must be capless and may not receive environment, artifact, cache, or argument authority",
                ),
            );
        }
        match &spec.bundle_digest {
            Some(digest) => Ok((export, digest.clone())),
            None => Err(protocol("coordinator main TaskSpec omitted bundle digest")),
        }
    }

    fn launch_main(
        &mut self,
        tenant: &TenantId,
        project: &ProjectId,
        spec: &TaskSpec,
        wasm_module_base64: &str,
        actual_digest: &Digest,
        invocation: Result<(), String>,
        manifest: Result<Vec<EnvironmentResource>, String>,
    ) -> (r: Result<MainLaunch, CoordinatorServiceError>)
        ensures
            main_launched(
                old(self)@,
                final(self)@,
                tenant@,
                project@,
                spec@,
                wasm_module_base64@,
                actual_digest@,
                invocation,
                manifest,
                r,
            ),
    {
        broadcast use lemma_lookup_put;

        let ghost before = self@;
        let ghost place = (tenant@, project@, spec.process@);
        let (export, bundle_digest) = match self.check_main(tenant, project, spec) {
            Ok(found) => found,
            Err(error) => {
                return Err(error);
            },
        };
        let module: Vec<u8> = match decode_base64(wasm_module_base64) {
            Ok(module) => module,
            Err(text) => {
                let error = CoordinatorServiceError::Protocol(
                    concat2("coordinator main module is not valid base64: ", text.as_str()),
                );
                assert(module_checked(
                    before,
                    place,
                    spec@,
                    wasm_module_base64@,
                    actual_digest@,
                    invocation,
                    manifest,
                    Err(error),
                ));
                return Err(error);
            },
        };
        if !text_eq(actual_digest.as_str(), bundle_digest.as_str()) {
            let text: String = concat4(
                "coordinator main module digest mismatch: expected ",
                bundle_digest.as_str(),
                ", actual ",
                actual_digest.as_str(),
            );
            let error = unauthorized(text.as_str());
            assert(module_checked(
                before,
                place,
                spec@,
                wasm_module_base64@,
                actual_digest@,
                invocation,
                manifest,
                Err(error),
            ));
            return Err(error);
        }
        match &invocation {
            Ok(_) => {},
            Err(reason) => {
                let error = CoordinatorServiceError::Protocol(reason.clone());
                assert(module_checked(
                    before,
                    place,
                    spec@,
                    wasm_module_base64@,
                    actual_digest@,
                    invocation,
                    manifest,
                    Err(error),
                ));
                return Err(error);
            },
        }
        let descriptors: OrderedMap<String, Descriptor> = match task_descriptors(&module) {
            Ok(descriptors) => descriptors,
            Err(error) => {
                assert(module_checked(
                    before,
                    place,
                    spec@,
                    wasm_module_base64@,
                    actual_digest@,
                    invocation,
                    manifest,
                    Err(error),
                ));
                return Err(error);
            },
        };
        let found: Result<OrderedMap<String, EnvironmentResource>, CoordinatorServiceError> =
            bundle_environments(&module, manifest);
        let ghost known = found;
        assert(environments_read(module@, manifest, known));
        let embedded: OrderedMap<String, EnvironmentResource> = match found {
            Ok(embedded) => embedded,
            Err(error) => {
                assert(module_checked(
                    before,
                    place,
                    spec@,
                    wasm_module_base64@,
                    actual_digest@,
                    invocation,
                    manifest,
                    Err(error),
                ));
                return Err(error);
            },
        };
        let runs = self.coordinator.automation();
        let defined: OrderedMap<String, EnvironmentResource> =
            runs.automated_environment_definitions(tenant, project, &spec.process);
        let trigger_context: Option<TriggerContext> = runs.automated_trigger_context(
            tenant,
            project,
            &spec.process,
        );
        let run_source: Option<RepositoryRevision> = runs.automated_source_revision(
            tenant,
            project,
            &spec.process,
        );
        assert(run_source == run_revision(before, place));
        match (&spec.source_revision, &run_source) {
            (Some(own), Some(other)) => {
                if !own.same_as(other) {
                    let error = unauthorized(
                        "coordinator main source revision does not match the automated run",
                    );
                    assert(module_checked(
                        before,
                        place,
                        spec@,
                        wasm_module_base64@,
                        actual_digest@,
                        invocation,
                        manifest,
                        Err(error),
                    ));
                    return Err(error);
                }
            },
            _ => {},
        }
        let ghost inner = embedded@;
        assert(module_checked(
            before,
            place,
            spec@,
            wasm_module_base64@,
            actual_digest@,
            invocation,
            manifest,
            Ok((module@, inner)),
        ));
        let environments: OrderedMap<String, EnvironmentResource> = overlay(embedded, &defined);
        let source_revision: Option<RepositoryRevision> = match &spec.source_revision {
            Some(own) => Some(own.duplicate()),
            None => run_source,
        };
        let source_snapshot: Option<Digest> = match &spec.source_snapshot {
            Some(own) => Some(own.clone()),
            None => match &source_revision {
                Some(revision) => Some(revision.source_snapshot.clone()),
                None => None,
            },
        };
        let scope: MainScope = MainScope {
            tenant: tenant.clone(),
            project: project.clone(),
            process: spec.process.clone(),
            task_definition: spec.task_definition.clone(),
            task_instance: spec.task_instance.clone(),
            epoch: spec.vfs_epoch,
            launch_id: self.main_runtime.next_launch_id,
        };
        let control: CoordinatorMainControl = CoordinatorMainControl {
            task_definition: spec.task_definition.clone(),
            task_instance: spec.task_instance.clone(),
            abort: false,
            state: MainState::Running,
            stopped_probe_symbol: None,
            handles: OrderedMap::new(),
            launch_id: self.main_runtime.next_launch_id,
        };
        self.main_runtime.next_launch_id = self.main_runtime.next_launch_id.saturating_add(1);
        let key: ProcessControlKey = process_control_key(tenant, project, &spec.process);
        proof {
            use_type_invariant(&self.main_runtime.controls);
        }
        self.main_runtime.controls.insert(key, control);
        assert(main_added(before.mains, self@.mains, place, spec@));
        Ok(
            MainLaunch {
                scope,
                export,
                module,
                task_descriptors: descriptors,
                environments,
                trigger_context,
                source_snapshot,
                source_revision,
                bundle_digest,
            },
        )
    }

    fn refuse_main(
        &mut self,
        tenant: &TenantId,
        project: &ProjectId,
        process: &ProcessId,
        had_main: bool,
        error: CoordinatorServiceError,
    ) -> (r: MainRefusal)
        requires
            had_main == (lookup(old(self)@.mains.controls, (tenant@, project@, process@)) is Some),
        ensures
            r.error == error,
            main_refused(old(self)@, final(self)@, (tenant@, project@, process@), r),
    {
        if had_main {
            return MainRefusal { error, process_failed: false, told: OrderedSet::new() };
        }
        let told: OrderedSet<TaskRestartKey> = self.main_runtime.interrupt_process(
            tenant,
            project,
            process,
        );
        let _gone = self.coordinator.abort_process(tenant, project, process);
        MainRefusal { error, process_failed: true, told }
    }

    /// Launches the coordinator main of a process. `actual_digest` is the digest of the module that
    /// is given in base64, `invocation` what the check of the call gave, and `manifest` what the
    /// manifest of the module holds.
    pub fn handle_launch_coordinator_main(
        &mut self,
        tenant: &TenantId,
        project: &ProjectId,
        spec: &TaskSpec,
        wasm_module_base64: &str,
        actual_digest: &Digest,
        invocation: Result<(), String>,
        manifest: Result<Vec<EnvironmentResource>, String>,
    ) -> (r: Result<MainLaunch, MainRefusal>)
        ensures
            match r {
                Ok(launch) => main_launched(
                    old(self)@,
                    final(self)@,
                    tenant@,
                    project@,
                    spec@,
                    wasm_module_base64@,
                    actual_digest@,
                    invocation,
                    manifest,
                    Ok(launch),
                ),
                Err(refusal) => {
                    &&& main_launched(
                        old(self)@,
                        old(self)@,
                        tenant@,
                        project@,
                        spec@,
                        wasm_module_base64@,
                        actual_digest@,
                        invocation,
                        manifest,
                        Err(refusal.error),
                    )
                    &&& main_refused(
                        old(self)@,
                        final(self)@,
                        (tenant@, project@, spec.process@),
                        refusal,
                    )
                },
            },
    {
        let key: ProcessControlKey = process_control_key(tenant, project, &spec.process);
        let had_main: bool = self.main_runtime.controls.contains_key(&key);
        match self.launch_main(
            tenant,
            project,
            spec,
            wasm_module_base64,
            actual_digest,
            invocation,
            manifest,
        ) {
            Ok(launch) => Ok(launch),
            Err(error) => Err(self.refuse_main(tenant, project, &spec.process, had_main, error)),
        }
    }

    /// Takes back a launch that the Wasm runtime has refused: the main is gone, and its process
    /// ends.
    pub fn abandon_main_launch(&mut self, scope: &MainScope, error: CoordinatorServiceError) -> (r:
        MainRefusal)
        ensures
            launch_abandoned(
                old(self)@,
                final(self)@,
                *scope,
                error,
                r,
            ),
    {
        let key: ProcessControlKey = process_control_key(
            &scope.tenant,
            &scope.project,
            &scope.process,
        );
        let _gone: Option<CoordinatorMainControl> = self.main_runtime.controls.remove(&key);
        let told: OrderedSet<TaskRestartKey> = self.main_runtime.interrupt_process(
            &scope.tenant,
            &scope.project,
            &scope.process,
        );
        let _ended = self.coordinator.abort_process(&scope.tenant, &scope.project, &scope.process);
        MainRefusal { error, process_failed: true, told }
    }
}

/// What a coordinator main asks the service for.
pub enum MainCommand {
    StartTask { scope: MainScope, task_instance: TaskInstanceId },
    JoinTask { scope: MainScope, task_instance: TaskInstanceId },
    DebugProbe { scope: MainScope, symbol: String },
    ReleaseArtifact { scope: MainScope, artifact: String },
    Finished { scope: MainScope },
}

impl MainCommand {
    /// The launch that the command comes from.
    pub open spec fn scope(&self) -> MainScope {
        match *self {
            MainCommand::StartTask { scope, .. } => scope,
            MainCommand::JoinTask { scope, .. } => scope,
            MainCommand::DebugProbe { scope, .. } => scope,
            MainCommand::ReleaseArtifact { scope, .. } => scope,
            MainCommand::Finished { scope } => scope,
        }
    }

    /// Whether the main has ended.
    pub open spec fn finishes(&self) -> bool {
        *self is Finished
    }
}

/// What is to be done about a command of a coordinator main.
pub enum MainStep {
    /// The main has been replaced: it is told so.
    Answer(String),
    /// The main has been replaced, and nobody waits for an answer.
    Nothing,
    /// The child is to be launched, with its result at the given path.
    Launch { artifact_path: String },
    /// The child is to be joined.
    Join,
    /// The probe is to be checked against the breakpoints.
    Probe,
    /// The artifact is to be released.
    Release,
    /// The end of the main is to be recorded.
    Complete,
}

/// Whether a step is what a command asks for.
pub open spec fn is_step(command: MainCommand, current: bool, step: MainStep) -> bool {
    if !current {
        if command.finishes() {
            step is Nothing
        } else {
            step matches MainStep::Answer(text) && text@
                == "coordinator main process incarnation was replaced"@
        }
    } else {
        match command {
            MainCommand::StartTask { task_instance, .. } => step matches MainStep::Launch {
                artifact_path,
            } && artifact_path@ == "/vfs/artifacts/"@ + task_instance@ + "-result.json"@,
            MainCommand::JoinTask { .. } => step is Join,
            MainCommand::DebugProbe { .. } => step is Probe,
            MainCommand::ReleaseArtifact { .. } => step is Release,
            MainCommand::Finished { .. } => step is Complete,
        }
    }
}

/// What a main learns that waits for a task.
pub enum JoinAnswer {
    Ready(Result<TaskBoundaryValue, String>),
    Waiting,
}

/// What a main learns of a task that is joined.
pub open spec fn is_join_answer(join: TaskJoinResultModel, answer: JoinAnswer) -> bool {
    match join.state {
        TaskJoinState::Completed => answer matches JoinAnswer::Ready(found) && match join.result {
            Some(value) => found matches Ok(given) && given@ == value,
            None => found matches Err(text) && text@
                == "completed child task omitted its boundary result"@,
        },
        TaskJoinState::Failed | TaskJoinState::Cancelled => answer matches JoinAnswer::Ready(found)
            && (found matches Err(text) && text@ == join.message@),
        TaskJoinState::Pending => answer is Waiting,
    }
}

/// What who waits for a task learns of its end.
pub open spec fn is_notice(event: TaskCompletionEventModel, notice: Result<TaskBoundaryValue, String>) -> bool {
    match event.terminal_state {
        TaskTerminalState::Completed => match event.result {
            Some(value) => notice matches Ok(given) && given@ == value,
            None => notice matches Err(text) && text@
                == "completed child task omitted its boundary result"@,
        },
        TaskTerminalState::Failed | TaskTerminalState::Cancelled => notice matches Err(text)
            && text@ == event.stderr_tail@,
    }
}

impl CoordinatorMainRuntime {
    /// What is to be done about a command of a coordinator main.
    pub fn command_step(&self, command: &MainCommand) -> (r: MainStep)
        ensures
            is_step(
                *command,
                CoordinatorMainRuntime::is_current(self@, command.scope()),
                r,
            ),
    {
        let scope: &MainScope = match command {
            MainCommand::StartTask { scope, .. } => scope,
            MainCommand::JoinTask { scope, .. } => scope,
            MainCommand::DebugProbe { scope, .. } => scope,
            MainCommand::ReleaseArtifact { scope, .. } => scope,
            MainCommand::Finished { scope } => scope,
        };
        let current: bool = self.is_current_scope(scope);
        match command {
            MainCommand::Finished { .. } => {
                if current {
                    MainStep::Complete
                } else {
                    MainStep::Nothing
                }
            },
            MainCommand::StartTask { task_instance, .. } => {
                if current {
                    MainStep::Launch {
                        artifact_path: concat3(
                            "/vfs/artifacts/",
                            task_instance.as_str(),
                            "-result.json",
                        ),
                    }
                } else {
                    MainStep::Answer("coordinator main process incarnation was replaced".to_owned())
                }
            },
            MainCommand::JoinTask { .. } => {
                if current {
                    MainStep::Join
                } else {
                    MainStep::Answer("coordinator main process incarnation was replaced".to_owned())
                }
            },
            MainCommand::DebugProbe { .. } => {
                if current {
                    MainStep::Probe
                } else {
                    MainStep::Answer("coordinator main process incarnation was replaced".to_owned())
                }
            },
            MainCommand::ReleaseArtifact { .. } => {
                if current {
                    MainStep::Release
                } else {
                    MainStep::Answer("coordinator main process incarnation was replaced".to_owned())
                }
            },
        }
    }

    /// Answers a main that joins a task, or has it wait for the end of the task.
    pub fn join_task(&mut self, scope: &MainScope, task: &TaskInstanceId, join: TaskJoinResult) -> (r:
        JoinAnswer)
        ensures
            is_join_answer(join@, r),
            final(self)@ == (CoordinatorMainRuntimeModel {
                join_waiters: if join.state == TaskJoinState::Pending {
                    old(self)@.join_waiters.insert(
                        (scope.tenant@, scope.project@, scope.process@, task@),
                    )
                } else {
                    old(self)@.join_waiters
                },
                ..old(self)@
            }),
    {
        match join.state {
            TaskJoinState::Completed => match join.result {
                Some(value) => JoinAnswer::Ready(Ok(value)),
                None => JoinAnswer::Ready(
                    Err("completed child task omitted its boundary result".to_owned()),
                ),
            },
            TaskJoinState::Failed | TaskJoinState::Cancelled => JoinAnswer::Ready(Err(join.message)),
            TaskJoinState::Pending => {
                let key: TaskRestartKey = task_restart_key(
                    &scope.tenant,
                    &scope.project,
                    &scope.process,
                    task,
                );
                let _new: bool = self.join_waiters.insert(key);
                JoinAnswer::Waiting
            },
        }
    }

    /// Tells who waits for a task of its end, where anybody does.
    pub fn notify_waiters(&mut self, event: &TaskCompletionEvent) -> (r: Option<
        Result<TaskBoundaryValue, String>,
    >)
        ensures
            ({
                let key = (event.tenant@, event.project@, event.process@, event.task@);
                &&& r is Some <==> old(self)@.join_waiters.contains(key)
                &&& r matches Some(notice) ==> is_notice(event@, notice)
                &&& final(self)@ == (CoordinatorMainRuntimeModel {
                    join_waiters: old(self)@.join_waiters.remove(key),
                    ..old(self)@
                })
            }),
    {
        let key: TaskRestartKey = task_restart_key(
            &event.tenant,
            &event.project,
            &event.process,
            &event.task,
        );
        if !self.join_waiters.remove(&key) {
            return None;
        }
        Some(
            match event.terminal_state {
                TaskTerminalState::Completed => match &event.result {
                    Some(value) => Ok(value.duplicate()),
                    None => Err("completed child task omitted its boundary result".to_owned()),
                },
                TaskTerminalState::Failed | TaskTerminalState::Cancelled => Err(
                    event.stderr_tail.clone(),
                ),
            },
        )
    }
}

/// What a coordinator main has computed. `encoded_bytes` is the size of the result in the form in
/// which it is kept, where it has one.
pub struct MainResult {
    pub completed: bool,
    pub result: Option<TaskBoundaryValue>,
    pub encoded_bytes: Option<u64>,
    pub error: Option<String>,
}

/// How a coordinator main has ended, and with what result or error.
pub open spec fn main_outcome(
    limits: CoordinatorMainRuntimeConfiguration,
    check: Result<(), String>,
    result: Result<MainResult, String>,
) -> (TaskTerminalState, Option<TaskBoundaryValueModel>, Seq<char>) {
    match result {
        Err(text) => (TaskTerminalState::Failed, None, text@),
        Ok(found) => if check is Err {
            (TaskTerminalState::Failed, None, check->Err_0@)
        } else if found.error is Some && byte_len(found.error->Some_0@) > limits.max_output_bytes {
            (
                TaskTerminalState::Failed,
                None,
                "coordinator main error output exceeds the configured "@ + decimal(
                    limits.max_output_bytes as nat,
                ) + "-byte limit"@,
            )
        } else if found.result is Some && (found.encoded_bytes is None
            || found.encoded_bytes->Some_0 > limits.max_state_bytes) {
            (
                TaskTerminalState::Failed,
                None,
                "coordinator main result state exceeds the configured "@ + decimal(
                    limits.max_state_bytes as nat,
                ) + "-byte limit"@,
            )
        } else if found.completed {
            (TaskTerminalState::Completed, option_view(found.result), ""@)
        } else {
            (
                TaskTerminalState::Failed,
                None,
                match found.error {
                    Some(text) => text@,
                    None => "coordinator main failed without an error"@,
                },
            )
        },
    }
}

fn judge_main(
    limits: &CoordinatorMainRuntimeConfiguration,
    check: Result<(), String>,
    result: Result<MainResult, String>,
) -> (r: (TaskTerminalState, Option<TaskBoundaryValue>, String))
    ensures
        ({
            let outcome = main_outcome(*limits, check, result);
            &&& r.0 == outcome.0
            &&& option_view(r.1) == outcome.1
            &&& r.2@ == outcome.2
        }),
{
    let found: MainResult = match result {
        Ok(found) => found,
        Err(text) => {
            return (TaskTerminalState::Failed, None, text);
        },
    };
    match check {
        Err(text) => {
            return (TaskTerminalState::Failed, None, text);
        },
        Ok(_) => {},
    }
    match &found.error {
        Some(text) => {
            if text_len(text.as_str()) > limits.max_output_bytes {
                let limit: String = decimal_text(limits.max_output_bytes as u64);
                return (
                    TaskTerminalState::Failed,
                    None,
                    concat3(
                        "coordinator main error output exceeds the configured ",
                        limit.as_str(),
                        "-byte limit",
                    ),
                );
            }
        },
        None => {},
    }
    if found.result.is_some() {
        let over: bool = match found.encoded_bytes {
            Some(bytes) => bytes > limits.max_state_bytes as u64,
            None => true,
        };
        if over {
            let limit: String = decimal_text(limits.max_state_bytes as u64);
            return (
                TaskTerminalState::Failed,
                None,
                concat3(
                    "coordinator main result state exceeds the configured ",
                    limit.as_str(),
                    "-byte limit",
                ),
            );
        }
    }
    if found.completed {
        (TaskTerminalState::Completed, found.result, "".to_owned())
    } else {
        (
            TaskTerminalState::Failed,
            None,
            match found.error {
                Some(text) => text,
                None => "coordinator main failed without an error".to_owned(),
            },
        )
    }
}

/// The event of the end of a coordinator main.
pub open spec fn is_main_event(
    event: TaskCompletionEventModel,
    scope: MainScope,
    outcome: (TaskTerminalState, Option<TaskBoundaryValueModel>, Seq<char>),
) -> bool {
    &&& event.tenant@ == scope.tenant@
    &&& event.project@ == scope.project@
    &&& event.process@ == scope.process@
    &&& event.node@ == "coordinator-main"@
    &&& event.executor == TaskExecutor::CoordinatorMain
    &&& event.task_definition@ == scope.task_definition@
    &&& event.task@ == scope.task_instance@
    &&& event.attempt_id is None
    &&& event.placement is None
    &&& event.terminal_state == outcome.0
    &&& event.status_code == (if outcome.2.len() == 0 {
        Some(0i32)
    } else {
        None
    })
    &&& event.stdout_bytes == 0
    &&& event.stderr_bytes == byte_len(outcome.2)
    &&& event.stdout_tail@ == ""@
    &&& event.stderr_tail@ == outcome.2
    &&& !event.stdout_truncated
    &&& !event.stderr_truncated
    &&& event.artifact_path is None
    &&& event.artifact_digest is None
    &&& event.artifact_size_bytes is None
    &&& event.result == outcome.1
}

/// A release that a run has published.
pub struct Publication {
    pub tag: String,
    pub release_url: String,
}

/// The automation after the run of a process has published a release.
pub open spec fn publication_noted(
    s: AutomationStateModel,
    key: ProcessText,
    publication: Publication,
) -> AutomationStateModel {
    match first_run(s, runs_process(key.0, key.1, key.2)) {
        None => s,
        Some(e) => with_run(
            s,
            e.0,
            (AutomatedRunStageRecordModel {
                run: AutomatedRunRecord {
                    publication_tag: Some(publication.tag),
                    publication_url: Some(publication.release_url),
                    ..e.1.run
                },
                ..e.1
            }),
        ),
    }
}

/// The service once a coordinator main that has ended is let go: its control is gone, and where its
/// result tells of a release, the run of the process has it.
pub open spec fn main_let_go(
    before: CoordinatorServiceModel,
    key: ProcessText,
    outcome: (TaskTerminalState, Option<TaskBoundaryValueModel>, Seq<char>),
    publication: Option<Publication>,
) -> CoordinatorServiceModel {
    let automation = if outcome.0 == TaskTerminalState::Completed && outcome.1 is Some
        && publication is Some {
        publication_noted(before.coordinator.durable.automation, key, publication->Some_0)
    } else {
        before.coordinator.durable.automation
    };
    CoordinatorServiceModel {
        mains: CoordinatorMainRuntimeModel {
            controls: delete(before.mains.controls, key),
            ..before.mains
        },
        ..service_with(before, automation)
    }
}

/// What the end of a coordinator main means for its process: what becomes of it, whether it is to be
/// marked as aborted, and which of its tasks are to be aborted. Those stay active until they report.
pub struct MainEnding {
    pub retirement: ProcessRetirement,
    pub abort_process: bool,
    pub aborted_tasks: OrderedSet<TaskControlKey>,
}

/// The tasks of a process.
pub open spec fn tasks_in(key: ProcessText) -> spec_fn(TaskText) -> bool {
    |task: TaskText| task_of(task, key)
}

/// The service after a coordinator main has ended. Where the main has completed, its process ends
/// once no other task of it has to run; where it has not, the process fails at once, and it and its
/// tasks are to be aborted. `active` are the active tasks of all processes.
pub open spec fn main_ended(
    before: CoordinatorServiceModel,
    after: CoordinatorServiceModel,
    key: ProcessText,
    outcome: (TaskTerminalState, Option<TaskBoundaryValueModel>, Seq<char>),
    publication: Option<Publication>,
    facts: ProcessFacts,
    claims: Seq<ArtifactClaim>,
    active: Set<TaskText>,
    ending: MainEnding,
) -> bool {
    let let_go = main_let_go(before, key, outcome, publication);
    &&& ending.abort_process == (outcome.0 != TaskTerminalState::Completed)
    &&& ending.aborted_tasks@ == (if ending.abort_process {
        active.filter(tasks_in(key))
    } else {
        Set::empty()
    })
    &&& if outcome.0 == TaskTerminalState::Completed {
        &&& ending.retirement == retirement(
            let_go,
            key,
            ProcessFacts { main_completed: true, ..facts },
        )
        &&& ending.retirement is Ended ==> process_retired(let_go, after, key, claims)
        &&& !(ending.retirement is Ended) ==> after == let_go
    } else {
        &&& ending.retirement == ProcessRetirement::Ended(ProcessFinalResult::Failed)
        &&& after == (CoordinatorServiceModel {
            coordinator: without_process(let_go.coordinator, key),
            debug: process_cleared(let_go.debug, key),
            ..let_go
        })
    }
}

impl CoordinatorService {
    /// Takes the end of a coordinator main. `check` is what the check of its result gave,
    /// `publication` the release that the result tells of, `facts` what is known of the other tasks
    /// of its process, `claims` the artifacts that waiting tasks need, and `active_tasks` the active
    /// tasks of all processes.
    pub fn record_coordinator_main_completion(
        &mut self,
        scope: &MainScope,
        check: Result<(), String>,
        result: Result<MainResult, String>,
        publication: Option<Publication>,
        facts: &ProcessFacts,
        claims: &Vec<ArtifactClaim>,
        active_tasks: &OrderedSet<TaskControlKey>,
    ) -> (r: (TaskCompletionEvent, MainEnding))
        requires
            well_formed(old(self)@.artifacts),
        ensures
            ({
                let outcome = main_outcome(old(self)@.mains.limits, check, result);
                &&& is_main_event(r.0@, *scope, outcome)
                &&& main_ended(
                    old(self)@,
                    final(self)@,
                    (scope.tenant@, scope.project@, scope.process@),
                    outcome,
                    publication,
                    *facts,
                    claims@,
                    active_tasks@,
                    r.1,
                )
            }),
            well_formed(final(self)@.artifacts),
    {
        proof {
            reveal_strlit("");
        }
        let (terminal_state, boundary, error) = judge_main(
            &self.main_runtime.limits,
            check,
            result,
        );
        let bytes: usize = text_len(error.as_str());
        proof {
            crate::text::lemma_byte_len(error@);
        }
        let ghost place = (scope.tenant@, scope.project@, scope.process@);
        assert(error@.len() == 0 <==> bytes == 0) by {
            if error@.len() == 0 {
                assert(error@ =~= Seq::<char>::empty());
            }
        }
        let event: TaskCompletionEvent = TaskCompletionEvent {
            tenant: scope.tenant.clone(),
            project: scope.project.clone(),
            process: scope.process.clone(),
            node: "coordinator-main".to_owned(),
            executor: TaskExecutor::CoordinatorMain,
            task_definition: scope.task_definition.clone(),
            task: scope.task_instance.clone(),
            attempt_id: None,
            placement: None,
            terminal_state,
            status_code: if bytes == 0 {
                Some(0)
            } else {
                None
            },
            stdout_bytes: 0,
            stderr_bytes: bytes as u64,
            stdout_tail: "".to_owned(),
            stderr_tail: error,
            stdout_truncated: false,
            stderr_truncated: false,
            artifact_path: None,
            artifact_digest: None,
            artifact_size_bytes: None,
            result: boundary,
        };
        if terminal_state == TaskTerminalState::Completed && event.result.is_some() {
            match publication {
                Some(publication) => self.record_automated_publication(
                    &scope.tenant,
                    &scope.project,
                    &scope.process,
                    publication.tag,
                    publication.release_url,
                ),
                None => {},
            }
        }
        let key: ProcessControlKey = process_control_key(
            &scope.tenant,
            &scope.project,
            &scope.process,
        );
        let _gone: Option<CoordinatorMainControl> = self.main_runtime.controls.remove(&key);
        let ending: MainEnding = if terminal_state == TaskTerminalState::Completed {
            let facts: ProcessFacts = ProcessFacts {
                runnable_remote_work: facts.runnable_remote_work,
                main_completed: true,
                cancelled: facts.cancelled,
                any_task_failed: facts.any_task_failed,
                any_task_cancelled: facts.any_task_cancelled,
            };
            let retirement: ProcessRetirement = self.maybe_retire_terminal_process(
                &scope.tenant,
                &scope.project,
                &scope.process,
                &facts,
                claims,
            );
            MainEnding { retirement, abort_process: false, aborted_tasks: OrderedSet::new() }
        } else {
            let ghost p = tasks_in(place);
            let test = |task: &TaskControlKey| -> (b: bool)
                ensures
                    b == task_of(task.key(), (scope.tenant@, scope.project@, scope.process@)),
            {
                assert(task.key() == (task.0@, task.1@, task.2@, task.3@, task.4@));
                text_eq(task.0.as_str(), scope.tenant.as_str()) && text_eq(
                    task.1.as_str(),
                    scope.project.as_str(),
                ) && text_eq(task.2.as_str(), scope.process.as_str())
            };
            let aborted_tasks: OrderedSet<TaskControlKey> = active_tasks.select(test, Ghost(p));
            let _ended = self.coordinator.abort_process(
                &scope.tenant,
                &scope.project,
                &scope.process,
            );
            self.debug_registry.clear_process(&scope.tenant, &scope.project, &scope.process);
            MainEnding {
                retirement: ProcessRetirement::Ended(ProcessFinalResult::Failed),
                abort_process: true,
                aborted_tasks,
            }
        };
        (event, ending)
    }
}

} // verus!
