//! Debug epochs, breakpoints, pending commands and the bounded audit of debugging.
use vstd::prelude::*;
use vstd::string::*;

use crate::duplicate::{Duplicate, TextList, copy_all, copy_option, copy_text, option_view, views};
use crate::ids::{NodeId, ProcessId, ProjectId, TaskDefinitionId, TaskInstanceId, TenantId, UserId};
use crate::keys::{ProcessControlKey, ProcessText, TaskControlKey, TaskText};
use crate::ordered::OrderedKey;
use crate::ordered_map::{OrderedMap, ascending, delete, lemma_put_delete, lookup, put};
use crate::ordered_set::OrderedSet;
use crate::sequences::{count_items, drop_items, drop_matching, keep_items, lemma_drop_matching};
use crate::service_error::{CoordinatorServiceError, unauthorized};
use crate::text::{concat2, concat3, concat4, concat5, decimal, decimal_text, text_eq};

verus! {

/// What the tasks of a process are told.
#[derive(Clone, Copy, Debug, PartialEq, Eq, Structural)]
pub enum DebugCommand {
    Freeze,
    Resume,
}

/// What a task answers.
#[derive(Clone, Copy, Debug, PartialEq, Eq, Structural)]
pub enum DebugAcknowledgementState {
    Frozen,
    Running,
    Failed,
}

/// A place in the source.
pub struct SourceLocation {
    pub probe_id: String,
    pub source_path: String,
    pub line: u32,
    pub column: Option<u32>,
}

impl View for SourceLocation {
    type V = SourceLocation;

    open spec fn view(&self) -> SourceLocation {
        *self
    }
}

impl Duplicate for SourceLocation {
    fn duplicate(&self) -> (r: Self) {
        SourceLocation {
            probe_id: self.probe_id.clone(),
            source_path: self.source_path.clone(),
            line: self.line,
            column: self.column,
        }
    }
}

/// A name and a value.
pub struct NamedValue {
    pub name: String,
    pub value: String,
}

impl View for NamedValue {
    type V = NamedValue;

    open spec fn view(&self) -> NamedValue {
        *self
    }
}

impl Duplicate for NamedValue {
    fn duplicate(&self) -> (r: Self) {
        NamedValue {
            name: self.name.clone(),
            value: self.value.clone(),
        }
    }
}

/// What a task reports when it obeys, or fails to obey, a command.
pub struct DebugParticipantAcknowledgement {
    pub node: NodeId,
    pub task_definition: TaskDefinitionId,
    pub task: TaskInstanceId,
    pub epoch: u64,
    pub state: DebugAcknowledgementState,
    pub current_source_location: Option<SourceLocation>,
    pub stack_frames: TextList,
    pub local_values: Vec<NamedValue>,
    pub task_args: Vec<NamedValue>,
    pub handles: Vec<NamedValue>,
    pub command_status: Option<String>,
    pub recent_output: TextList,
    pub message: Option<String>,
}

/// The model of [`DebugParticipantAcknowledgement`].
#[verifier::ext_equal]
pub struct DebugParticipantAcknowledgementModel {
    pub node: NodeId,
    pub task_definition: TaskDefinitionId,
    pub task: TaskInstanceId,
    pub epoch: u64,
    pub state: DebugAcknowledgementState,
    pub current_source_location: Option<SourceLocation>,
    pub stack_frames: Seq<Seq<char>>,
    pub local_values: Seq<NamedValue>,
    pub task_args: Seq<NamedValue>,
    pub handles: Seq<NamedValue>,
    pub command_status: Option<String>,
    pub recent_output: Seq<Seq<char>>,
    pub message: Option<String>,
}

impl View for DebugParticipantAcknowledgement {
    type V = DebugParticipantAcknowledgementModel;

    open spec fn view(&self) -> DebugParticipantAcknowledgementModel {
        DebugParticipantAcknowledgementModel {
            node: self.node,
            task_definition: self.task_definition,
            task: self.task,
            epoch: self.epoch,
            state: self.state,
            current_source_location: self.current_source_location,
            stack_frames: self.stack_frames@,
            local_values: views(self.local_values@),
            task_args: views(self.task_args@),
            handles: views(self.handles@),
            command_status: self.command_status,
            recent_output: self.recent_output@,
            message: self.message,
        }
    }
}

impl Duplicate for DebugParticipantAcknowledgement {
    fn duplicate(&self) -> (r: Self) {
        DebugParticipantAcknowledgement {
            node: self.node.clone(),
            task_definition: self.task_definition.clone(),
            task: self.task.clone(),
            epoch: self.epoch,
            state: self.state,
            current_source_location: copy_option(&self.current_source_location),
            stack_frames: self.stack_frames.duplicate(),
            local_values: copy_all(&self.local_values),
            task_args: copy_all(&self.task_args),
            handles: copy_all(&self.handles),
            command_status: copy_text(&self.command_status),
            recent_output: self.recent_output.duplicate(),
            message: copy_text(&self.message),
        }
    }
}

/// A debug request and whether it was allowed.
pub struct DebugAuditEvent {
    pub tenant: TenantId,
    pub project: ProjectId,
    pub process: ProcessId,
    pub task: Option<TaskInstanceId>,
    pub actor: UserId,
    pub operation: String,
    pub allowed: bool,
    pub reason: String,
    pub charged_debug_read_bytes: u64,
    pub used_debug_read_bytes: u64,
}

impl View for DebugAuditEvent {
    type V = DebugAuditEvent;

    open spec fn view(&self) -> DebugAuditEvent {
        *self
    }
}

impl Duplicate for DebugAuditEvent {
    fn duplicate(&self) -> (r: Self) {
        DebugAuditEvent {
            tenant: self.tenant.clone(),
            project: self.project.clone(),
            process: self.process.clone(),
            task: copy_text(&self.task),
            actor: self.actor.clone(),
            operation: self.operation.clone(),
            allowed: self.allowed,
            reason: self.reason.clone(),
            charged_debug_read_bytes: self.charged_debug_read_bytes,
            used_debug_read_bytes: self.used_debug_read_bytes,
        }
    }
}

/// A command that a task has not fetched.
pub struct DebugPendingCommand {
    pub epoch: u64,
    pub command: DebugCommand,
}

impl View for DebugPendingCommand {
    type V = DebugPendingCommand;

    open spec fn view(&self) -> DebugPendingCommand {
        *self
    }
}

impl Duplicate for DebugPendingCommand {
    fn duplicate(&self) -> (r: Self) {
        DebugPendingCommand {
            epoch: self.epoch,
            command: self.command,
        }
    }
}

/// An epoch: who is to obey its command, and who has. `deadline` counts milliseconds.
pub struct DebugEpochRuntime {
    pub epoch: u64,
    pub command: DebugCommand,
    pub expected: OrderedSet<TaskControlKey>,
    pub acknowledgements: OrderedMap<TaskControlKey, DebugParticipantAcknowledgement>,
    pub deadline: u64,
}

/// The model of [`DebugEpochRuntime`].
#[verifier::ext_equal]
pub struct DebugEpochRuntimeModel {
    pub epoch: u64,
    pub command: DebugCommand,
    pub expected: Set<TaskText>,
    pub acknowledgements: Seq<(TaskText, DebugParticipantAcknowledgementModel)>,
    pub deadline: u64,
}

impl View for DebugEpochRuntime {
    type V = DebugEpochRuntimeModel;

    open spec fn view(&self) -> DebugEpochRuntimeModel {
        DebugEpochRuntimeModel {
            epoch: self.epoch,
            command: self.command,
            expected: self.expected@,
            acknowledgements: self.acknowledgements@,
            deadline: self.deadline,
        }
    }
}

/// The breakpoints of a process, and the one that was hit.
pub struct DebugBreakpointPlan {
    pub actor: UserId,
    pub revision: u64,
    pub probe_symbols: OrderedSet<String>,
    pub probe_locations: OrderedMap<String, SourceLocation>,
    pub hit_epoch: Option<u64>,
    pub hit_task: Option<TaskInstanceId>,
    pub hit_probe_symbol: Option<String>,
}

/// The model of [`DebugBreakpointPlan`].
#[verifier::ext_equal]
pub struct DebugBreakpointPlanModel {
    pub actor: UserId,
    pub revision: u64,
    pub probe_symbols: Set<Seq<char>>,
    pub probe_locations: Seq<(Seq<char>, SourceLocation)>,
    pub hit_epoch: Option<u64>,
    pub hit_task: Option<TaskInstanceId>,
    pub hit_probe_symbol: Option<String>,
}

impl View for DebugBreakpointPlan {
    type V = DebugBreakpointPlanModel;

    open spec fn view(&self) -> DebugBreakpointPlanModel {
        DebugBreakpointPlanModel {
            actor: self.actor,
            revision: self.revision,
            probe_symbols: self.probe_symbols@,
            probe_locations: self.probe_locations@,
            hit_epoch: self.hit_epoch,
            hit_task: self.hit_task,
            hit_probe_symbol: self.hit_probe_symbol,
        }
    }
}

/// Debug epochs, participants, breakpoints, pending commands and the audit.
pub struct DebugRegistry {
    pub audit_events: Vec<DebugAuditEvent>,
    pub epochs: OrderedMap<ProcessControlKey, u64>,
    pub epoch_runtime: OrderedMap<ProcessControlKey, DebugEpochRuntime>,
    pub breakpoints: OrderedMap<ProcessControlKey, DebugBreakpointPlan>,
    pub commands: OrderedMap<TaskControlKey, DebugPendingCommand>,
}

/// The model of [`DebugRegistry`].
#[verifier::ext_equal]
pub struct DebugRegistryModel {
    pub audit_events: Seq<DebugAuditEvent>,
    pub epochs: Seq<(ProcessText, u64)>,
    pub epoch_runtime: Seq<(ProcessText, DebugEpochRuntimeModel)>,
    pub breakpoints: Seq<(ProcessText, DebugBreakpointPlanModel)>,
    pub commands: Seq<(TaskText, DebugPendingCommand)>,
}

impl View for DebugRegistry {
    type V = DebugRegistryModel;

    open spec fn view(&self) -> DebugRegistryModel {
        DebugRegistryModel {
            audit_events: views(self.audit_events@),
            epochs: self.epochs@,
            epoch_runtime: self.epoch_runtime@,
            breakpoints: self.breakpoints@,
            commands: self.commands@,
        }
    }
}

impl DebugCommand {
    /// The word for the command.
    pub open spec fn word(self) -> Seq<char> {
        match self {
            DebugCommand::Freeze => "freeze"@,
            DebugCommand::Resume => "resume"@,
        }
    }

    /// The word for the command.
    pub fn as_str(self) -> (r: &'static str)
        ensures
            r@ == self.word(),
    {
        match self {
            DebugCommand::Freeze => "freeze",
            DebugCommand::Resume => "resume",
        }
    }
}

impl DebugAcknowledgementState {
    /// The word for the state.
    pub open spec fn word(self) -> Seq<char> {
        match self {
            DebugAcknowledgementState::Frozen => "Frozen"@,
            DebugAcknowledgementState::Running => "Running"@,
            DebugAcknowledgementState::Failed => "Failed"@,
        }
    }

    fn as_str(self) -> (r: &'static str)
        ensures
            r@ == self.word(),
    {
        match self {
            DebugAcknowledgementState::Frozen => "Frozen",
            DebugAcknowledgementState::Running => "Running",
            DebugAcknowledgementState::Failed => "Failed",
        }
    }
}

/// Whether a command can be answered so.
pub open spec fn answers(command: DebugCommand, state: DebugAcknowledgementState) -> bool {
    match state {
        DebugAcknowledgementState::Frozen => command == DebugCommand::Freeze,
        DebugAcknowledgementState::Running => command == DebugCommand::Resume,
        DebugAcknowledgementState::Failed => true,
    }
}

/// Why an answer is not taken from a participant, if it is not; and whether the participant is to
/// blame.
pub open spec fn acknowledgement_refusal(
    runtime: Option<DebugEpochRuntimeModel>,
    participant: TaskText,
    process: Seq<char>,
    epoch: u64,
) -> Option<(bool, Seq<char>)> {
    let head = "cannot acknowledge debug epoch "@ + decimal(epoch as nat) + " for "@ + process;
    match runtime {
        None => Some((false, head + ": no active debug epoch"@)),
        Some(runtime) => if runtime.epoch != epoch {
            Some((false, head + ": current debug epoch is "@ + decimal(runtime.epoch as nat)))
        } else if !runtime.expected.contains(participant) {
            Some((
                true,
                "debug acknowledgement is not from an expected active task participant"@,
            ))
        } else {
            None
        },
    }
}

/// Whether a result is the refusal of an answer.
pub open spec fn refuses<T>(r: Result<T, CoordinatorServiceError>, refusal: (bool, Seq<char>)) -> bool {
    &&& r matches Err(error)
    &&& if refusal.0 {
        error.denies(refusal.1)
    } else {
        error.protests(refusal.1)
    }
}

/// Whether an audit event is of a process.
pub open spec fn audits(tenant: Seq<char>, project: Seq<char>, process: Seq<char>) -> spec_fn(
    DebugAuditEvent,
) -> bool {
    |event: DebugAuditEvent|
        event.tenant@ == tenant && event.project@ == project && event.process@ == process
}

/// The number of events that have to go so that one more keeps within a capacity.
pub open spec fn excess(held: nat, capacity: nat) -> nat {
    if held < capacity {
        0
    } else {
        (held - capacity + 1) as nat
    }
}

/// An audit after one more event: the oldest of the process go first, and then the oldest of all.
pub open spec fn audit_with(
    events: Seq<DebugAuditEvent>,
    event: DebugAuditEvent,
    per_process: nat,
    total: nat,
) -> Seq<DebugAuditEvent> {
    let p = audits(event.tenant@, event.project@, event.process@);
    let rest = drop_matching(events, p, excess(events.filter(p).len(), per_process));
    let n = excess(rest.len(), total);
    (if n <= rest.len() {
        rest.skip(n as int)
    } else {
        Seq::empty()
    }).push(event)
}

/// Whether a command is for a task of a process.
pub open spec fn task_of(key: TaskText, process: ProcessText) -> bool {
    key.0 == process.0 && key.1 == process.1 && key.2 == process.2
}

impl DebugRegistry {
    /// A registry without contents.
    pub fn new() -> (r: Self)
        ensures
            r@.audit_events == Seq::<DebugAuditEvent>::empty(),
            r@.epochs == Seq::<(ProcessText, u64)>::empty(),
            r@.epoch_runtime == Seq::<(ProcessText, DebugEpochRuntimeModel)>::empty(),
            r@.breakpoints == Seq::<(ProcessText, DebugBreakpointPlanModel)>::empty(),
            r@.commands == Seq::<(TaskText, DebugPendingCommand)>::empty(),
    {
        let r = DebugRegistry {
            audit_events: Vec::new(),
            epochs: OrderedMap::new(),
            epoch_runtime: OrderedMap::new(),
            breakpoints: OrderedMap::new(),
            commands: OrderedMap::new(),
        };
        assert(r@.audit_events =~= Seq::<DebugAuditEvent>::empty());
        r
    }

    pub fn breakpoint(&self, key: &ProcessControlKey) -> (r: Option<&DebugBreakpointPlan>)
        ensures
            r is Some <==> lookup(self@.breakpoints, key.key()) is Some,
            r matches Some(plan) ==> lookup(self@.breakpoints, key.key()) == Some(plan@),
    {
        self.breakpoints.get(key)
    }

    pub fn set_breakpoint(&mut self, key: ProcessControlKey, plan: DebugBreakpointPlan)
        ensures
            final(self)@ == (DebugRegistryModel {
                breakpoints: put(old(self)@.breakpoints, key.key(), plan@),
                ..old(self)@
            }),
    {
        self.breakpoints.insert(key, plan);
    }

    /// Notes where a breakpoint of a process was hit.
    pub fn record_breakpoint_hit(
        &mut self,
        key: &ProcessControlKey,
        epoch: u64,
        task: TaskInstanceId,
        probe_symbol: String,
    )
        ensures
            final(self)@ == breakpoint_hit(old(self)@, key.key(), epoch, task, probe_symbol),
    {
        broadcast use lemma_put_delete;

        match self.breakpoints.remove(key) {
            None => {
                proof {
                    crate::ordered_map::lemma_delete_absent(old(self)@.breakpoints, key.key());
                }
            },
            Some(found) => {
                let mut plan: DebugBreakpointPlan = found;
                plan.hit_epoch = Some(epoch);
                plan.hit_task = Some(task);
                plan.hit_probe_symbol = Some(probe_symbol);
                self.breakpoints.insert(key.copy_key(), plan);
            },
        }
    }

    /// Hands out the command that a task has not fetched.
    pub fn take_command(&mut self, key: &TaskControlKey) -> (r: Option<DebugPendingCommand>)
        ensures
            option_view(r) == lookup(old(self)@.commands, key.key()),
            final(self)@ == (DebugRegistryModel {
                commands: delete(old(self)@.commands, key.key()),
                ..old(self)@
            }),
    {
        self.commands.remove(key)
    }

    pub fn queue_command(&mut self, key: TaskControlKey, command: DebugPendingCommand)
        ensures
            final(self)@ == (DebugRegistryModel {
                commands: put(old(self)@.commands, key.key(), command),
                ..old(self)@
            }),
    {
        self.commands.insert(key, command);
    }

    pub fn clear_task_command(&mut self, key: &TaskControlKey)
        ensures
            final(self)@ == (DebugRegistryModel {
                commands: delete(old(self)@.commands, key.key()),
                ..old(self)@
            }),
    {
        let _gone: Option<DebugPendingCommand> = self.commands.remove(key);
    }

    /// Drops the commands to resume in an epoch, but for those of the given tasks.
    pub fn retain_resumable_commands(&mut self, epoch: u64, resumable: &OrderedSet<TaskControlKey>)
        ensures
            final(self)@ == (DebugRegistryModel {
                commands: resumable_commands(old(self)@.commands, epoch, resumable@),
                ..old(self)@
            }),
    {
        let ghost p = |e: (TaskText, DebugPendingCommand)|
            e.1.epoch != epoch || e.1.command != DebugCommand::Resume || resumable@.contains(e.0);
        let keep = |key: &TaskControlKey, pending: &DebugPendingCommand| -> (b: bool)
            ensures
                b == (pending.epoch != epoch || pending.command != DebugCommand::Resume
                    || resumable@.contains(key.key())),
        {
            pending.epoch != epoch || pending.command != DebugCommand::Resume || resumable.contains(
                key,
            )
        };
        let ghost before = self.commands@;
        self.commands.retain(keep, Ghost(p));
        proof {
            crate::ordered_map::lemma_filter_agree(
                before,
                p,
                |e: (TaskText, DebugPendingCommand)|
                    e.1.epoch != epoch || e.1.command != DebugCommand::Resume
                        || resumable@.contains(e.0),
            );
        }
    }

    pub fn epoch(&self, key: &ProcessControlKey) -> (r: Option<u64>)
        ensures
            r == lookup(self@.epochs, key.key()),
    {
        match self.epochs.get(key) {
            Some(epoch) => Some(*epoch),
            None => None,
        }
    }

    pub fn set_epoch(&mut self, key: ProcessControlKey, epoch: u64)
        ensures
            final(self)@ == (DebugRegistryModel {
                epochs: put(old(self)@.epochs, key.key(), epoch),
                ..old(self)@
            }),
    {
        self.epochs.insert(key, epoch);
    }

    pub fn runtime(&self, key: &ProcessControlKey) -> (r: Option<&DebugEpochRuntime>)
        ensures
            r is Some <==> lookup(self@.epoch_runtime, key.key()) is Some,
            r matches Some(runtime) ==> lookup(self@.epoch_runtime, key.key()) == Some(runtime@),
    {
        self.epoch_runtime.get(key)
    }

    pub fn set_runtime(&mut self, key: ProcessControlKey, runtime: DebugEpochRuntime)
        ensures
            final(self)@ == (DebugRegistryModel {
                epoch_runtime: put(old(self)@.epoch_runtime, key.key(), runtime@),
                ..old(self)@
            }),
    {
        self.epoch_runtime.insert(key, runtime);
    }

    /// Checks that an answer for an epoch is expected of a participant.
    pub fn validate_acknowledgement_source(
        &self,
        key: &ProcessControlKey,
        participant: &TaskControlKey,
        process: &ProcessId,
        epoch: u64,
    ) -> (r: Result<(), CoordinatorServiceError>)
        ensures
            match acknowledgement_refusal(
                lookup(self@.epoch_runtime, key.key()),
                participant.key(),
                process@,
                epoch,
            ) {
                Some(refusal) => refuses(r, refusal),
                None => r is Ok,
            },
    {
        let number: String = decimal_text(epoch);
        let head: String = concat4(
            "cannot acknowledge debug epoch ",
            number.as_str(),
            " for ",
            process.as_str(),
        );
        match self.epoch_runtime.get(key) {
            None => Err(
                CoordinatorServiceError::Protocol(
                    concat2(head.as_str(), ": no active debug epoch"),
                ),
            ),
            Some(runtime) => {
                if runtime.epoch != epoch {
                    let current: String = decimal_text(runtime.epoch);
                    return Err(
                        CoordinatorServiceError::Protocol(
                            concat3(
                                head.as_str(),
                                ": current debug epoch is ",
                                current.as_str(),
                            ),
                        ),
                    );
                }
                if !runtime.expected.contains(participant) {
                    return Err(
                        unauthorized(
                            "debug acknowledgement is not from an expected active task participant",
                        ),
                    );
                }
                Ok(())
            },
        }
    }

    /// Records the answer of a participant.
    pub fn record_acknowledgement(
        &mut self,
        key: &ProcessControlKey,
        participant: TaskControlKey,
        process: &ProcessId,
        acknowledgement: DebugParticipantAcknowledgement,
    ) -> (r: Result<(), CoordinatorServiceError>)
        ensures
            acknowledged(
                old(self)@,
                final(self)@,
                key.key(),
                participant.key(),
                process@,
                acknowledgement@,
                r,
            ),
    {
        broadcast use lemma_put_delete;

        match self.validate_acknowledgement_source(
            key,
            &participant,
            process,
            acknowledgement.epoch,
        ) {
            Err(error) => {
                return Err(error);
            },
            Ok(_) => {},
        }
        match self.epoch_runtime.get(key) {
            None => {},
            Some(runtime) => {
                let valid: bool = match acknowledgement.state {
                    DebugAcknowledgementState::Frozen => runtime.command == DebugCommand::Freeze,
                    DebugAcknowledgementState::Running => runtime.command == DebugCommand::Resume,
                    DebugAcknowledgementState::Failed => true,
                };
                if !valid {
                    let number: String = decimal_text(acknowledgement.epoch);
                    let head: String = concat5(
                        "debug epoch ",
                        number.as_str(),
                        " command `",
                        runtime.command.as_str(),
                        "` cannot be acknowledged as ",
                    );
                    return Err(
                        CoordinatorServiceError::Protocol(
                            concat2(head.as_str(), acknowledgement.state.as_str()),
                        ),
                    );
                }
            },
        }
        match self.epoch_runtime.remove(key) {
            None => {},
            Some(found) => {
                let mut runtime: DebugEpochRuntime = found;
                runtime.acknowledgements.insert(participant, acknowledgement);
                self.epoch_runtime.insert(key.copy_key(), runtime);
            },
        }
        Ok(())
    }

    /// Forgets all about the debugging of a process, its audit with the rest.
    pub fn clear_process(&mut self, tenant: &TenantId, project: &ProjectId, process: &ProcessId)
        ensures
            final(self)@ == process_cleared(old(self)@, (tenant@, project@, process@)),
    {
        let key: ProcessControlKey = (tenant.clone(), project.clone(), process.clone());
        assert(key.key() == (tenant@, project@, process@));
        let _epoch: Option<u64> = self.epochs.remove(&key);
        let _runtime: Option<DebugEpochRuntime> = self.epoch_runtime.remove(&key);
        let _plan: Option<DebugBreakpointPlan> = self.breakpoints.remove(&key);
        self.remove_audit_for_process(tenant, project, process);
        let ghost p = |e: (TaskText, DebugPendingCommand)| !task_of(e.0, (tenant@, project@, process@));
        let keep = |task: &TaskControlKey, _pending: &DebugPendingCommand| -> (b: bool)
            ensures
                b == !task_of(task.key(), (tenant@, project@, process@)),
        {
            assert(task.key() == (task.0@, task.1@, task.2@, task.3@, task.4@));
            !text_eq(task.0.as_str(), tenant.as_str()) || !text_eq(
                task.1.as_str(),
                project.as_str(),
            ) || !text_eq(task.2.as_str(), process.as_str())
        };
        let ghost before = self.commands@;
        self.commands.retain(keep, Ghost(p));
        proof {
            crate::ordered_map::lemma_filter_agree(
                before,
                p,
                |e: (TaskText, DebugPendingCommand)|
                    !task_of(e.0, (tenant@, project@, process@)),
            );
        }
    }

    /// Forgets the audit of a process.
    pub fn remove_audit_for_process(
        &mut self,
        tenant: &TenantId,
        project: &ProjectId,
        process: &ProcessId,
    )
        ensures
            final(self)@ == (DebugRegistryModel {
                audit_events: audit_without(old(self)@.audit_events, tenant@, project@, process@),
                ..old(self)@
            }),
    {
        let ghost p = |event: DebugAuditEvent| !audits(tenant@, project@, process@)(event);
        let keep = |event: &DebugAuditEvent| -> (b: bool)
            ensures
                b == !audits(tenant@, project@, process@)(*event),
        {
            !text_eq(event.tenant.as_str(), tenant.as_str()) || !text_eq(
                event.project.as_str(),
                project.as_str(),
            ) || !text_eq(event.process.as_str(), process.as_str())
        };
        let mut events: Vec<DebugAuditEvent> = Vec::new();
        std::mem::swap(&mut events, &mut self.audit_events);
        let ghost before = views(events@);
        self.audit_events = keep_items(events, keep, Ghost(p));
        proof {
            crate::ordered_map::lemma_filter_agree(
                before,
                p,
                |event: DebugAuditEvent| !audits(tenant@, project@, process@)(event),
            );
        }
    }

    /// Adds an event to the audit; the oldest go where it would outgrow its capacities.
    pub fn append_audit(
        &mut self,
        event: DebugAuditEvent,
        per_process_capacity: usize,
        total_capacity: usize,
    )
        requires
            total_capacity > 0,
        ensures
            final(self)@ == (DebugRegistryModel {
                audit_events: audit_with(
                    old(self)@.audit_events,
                    event,
                    per_process_capacity as nat,
                    total_capacity as nat,
                ),
                ..old(self)@
            }),
    {
        let ghost p = audits(event.tenant@, event.project@, event.process@);
        let test = |known: &DebugAuditEvent| -> (b: bool)
            ensures
                b == audits(event.tenant@, event.project@, event.process@)(*known),
        {
            text_eq(known.tenant.as_str(), event.tenant.as_str()) && text_eq(
                known.project.as_str(),
                event.project.as_str(),
            ) && text_eq(known.process.as_str(), event.process.as_str())
        };
        let mut events: Vec<DebugAuditEvent> = Vec::new();
        std::mem::swap(&mut events, &mut self.audit_events);
        let ghost before = views(events@);
        let held: usize = count_items(&events, &test, Ghost(p));
        let over: usize = if held < per_process_capacity {
            0
        } else if per_process_capacity == 0 {
            held
        } else {
            held - per_process_capacity + 1
        };
        let rest: Vec<DebugAuditEvent> = drop_items(events, &test, Ghost(p), over);
        proof {
            lemma_drop_matching(before, p, held as nat);
            if per_process_capacity == 0 {
                lemma_drop_all(before, p, held as nat);
            }
        }
        let n: usize = rest.len();
        let gone: usize = if n < total_capacity {
            0
        } else {
            n - total_capacity + 1
        };
        let all = |_known: &DebugAuditEvent| -> (b: bool)
            ensures
                b,
        { true };
        let ghost every = |_known: DebugAuditEvent| true;
        let ghost kept = views(rest@);
        self.audit_events = drop_items(rest, all, Ghost(every), gone);
        proof {
            lemma_drop_every(kept, every, gone as nat);
        }
        let ghost earlier = self.audit_events@;
        let ghost shown = event@;
        self.audit_events.push(event);
        assert(views(self.audit_events@) =~= views(earlier).push(shown));
    }

    /// The audit.
    pub fn audit_events(&self) -> (r: &Vec<DebugAuditEvent>)
        ensures
            views(r@) == self@.audit_events,
    {
        &self.audit_events
    }
}

/// Dropping as many items as `p` holds of, or more, drops the same.
proof fn lemma_drop_all(s: Seq<DebugAuditEvent>, p: spec_fn(DebugAuditEvent) -> bool, n: nat)
    requires
        s.filter(p).len() <= n,
    ensures
        drop_matching(s, p, n) == drop_matching(s, p, n + 1),
    decreases s.len(),
{
    reveal(Seq::filter);
    if s.len() > 0 {
        let rest = s.skip(1);
        assert(s =~= seq![s[0]] + rest);
        Seq::filter_distributes_over_add(seq![s[0]], rest, p);
        assert(seq![s[0]].filter(p) =~= (if p(s[0]) {
            seq![s[0]]
        } else {
            Seq::empty()
        })) by {
            reveal_with_fuel(Seq::filter, 2);
        }
        if p(s[0]) {
            lemma_drop_all(rest, p, (n - 1) as nat);
        } else {
            lemma_drop_all(rest, p, n);
            if n == 0 {
                assert(seq![s[0]] + rest =~= s);
            }
        }
    }
}

/// Dropping the first items, whatever they are, leaves the rest.
proof fn lemma_drop_every(s: Seq<DebugAuditEvent>, p: spec_fn(DebugAuditEvent) -> bool, n: nat)
    requires
        forall|v: DebugAuditEvent| #[trigger] p(v),
        n <= s.len(),
    ensures
        drop_matching(s, p, n) == s.skip(n as int),
    decreases s.len(),
{
    if s.len() > 0 && n > 0 {
        assert(p(s[0]));
        lemma_drop_every(s.skip(1), p, (n - 1) as nat);
        assert(s.skip(1).skip(n - 1) =~= s.skip(n as int));
    } else {
        assert(s.skip(0) =~= s);
    }
}

/// The registry after a breakpoint of a process was hit.
pub open spec fn breakpoint_hit(
    s: DebugRegistryModel,
    key: ProcessText,
    epoch: u64,
    task: TaskInstanceId,
    probe_symbol: String,
) -> DebugRegistryModel {
    match lookup(s.breakpoints, key) {
        None => s,
        Some(plan) => DebugRegistryModel {
            breakpoints: put(
                s.breakpoints,
                key,
                DebugBreakpointPlanModel {
                    hit_epoch: Some(epoch),
                    hit_task: Some(task),
                    hit_probe_symbol: Some(probe_symbol),
                    ..plan
                },
            ),
            ..s
        },
    }
}

/// The commands without those to resume in an epoch, but for those of the given tasks.
pub open spec fn resumable_commands(
    commands: Seq<(TaskText, DebugPendingCommand)>,
    epoch: u64,
    resumable: Set<TaskText>,
) -> Seq<(TaskText, DebugPendingCommand)> {
    commands.filter(
        |e: (TaskText, DebugPendingCommand)|
            e.1.epoch != epoch || e.1.command != DebugCommand::Resume || resumable.contains(e.0),
    )
}

/// What comes of the answer of a participant.
pub open spec fn acknowledged(
    before: DebugRegistryModel,
    after: DebugRegistryModel,
    key: ProcessText,
    participant: TaskText,
    process: Seq<char>,
    acknowledgement: DebugParticipantAcknowledgementModel,
    r: Result<(), CoordinatorServiceError>,
) -> bool {
    let runtime = lookup(before.epoch_runtime, key);
    match acknowledgement_refusal(runtime, participant, process, acknowledgement.epoch) {
        Some(refusal) => refuses(r, refusal) && after == before,
        None => if !answers(runtime->Some_0.command, acknowledgement.state) {
            &&& r matches Err(error)
            &&& error.protests(
                "debug epoch "@ + decimal(acknowledgement.epoch as nat) + " command `"@
                    + runtime->Some_0.command.word() + "` cannot be acknowledged as "@
                    + acknowledgement.state.word(),
            )
            &&& after == before
        } else {
            &&& r is Ok
            &&& after == (DebugRegistryModel {
                epoch_runtime: put(
                    before.epoch_runtime,
                    key,
                    DebugEpochRuntimeModel {
                        acknowledgements: put(
                            runtime->Some_0.acknowledgements,
                            participant,
                            acknowledgement,
                        ),
                        ..runtime->Some_0
                    },
                ),
                ..before
            })
        },
    }
}

/// The registry without the debugging of a process.
pub open spec fn process_cleared(s: DebugRegistryModel, process: ProcessText) -> DebugRegistryModel {
    DebugRegistryModel {
        audit_events: audit_without(s.audit_events, process.0, process.1, process.2),
        epochs: delete(s.epochs, process),
        epoch_runtime: delete(s.epoch_runtime, process),
        breakpoints: delete(s.breakpoints, process),
        commands: s.commands.filter(
            |e: (TaskText, DebugPendingCommand)| !task_of(e.0, process),
        ),
    }
}

/// The audit without the events of a process.
pub open spec fn audit_without(
    events: Seq<DebugAuditEvent>,
    tenant: Seq<char>,
    project: Seq<char>,
    process: Seq<char>,
) -> Seq<DebugAuditEvent> {
    events.filter(|event: DebugAuditEvent| !audits(tenant, project, process)(event))
}

/// The maps of a registry are in the order of their keys.
pub open spec fn in_order(s: DebugRegistryModel) -> bool {
    &&& ascending(s.epochs)
    &&& ascending(s.epoch_runtime)
    &&& ascending(s.breakpoints)
    &&& ascending(s.commands)
}

proof fn lemma_skip_filter(s: Seq<DebugAuditEvent>, p: spec_fn(DebugAuditEvent) -> bool, n: int)
    requires
        0 <= n <= s.len(),
    ensures
        s.skip(n).filter(p).len() <= s.filter(p).len(),
{
    assert(s =~= s.take(n) + s.skip(n));
    Seq::filter_distributes_over_add(s.take(n), s.skip(n), p);
}

/// The audit keeps within its capacities: that of all processes, and that of the process whose event
/// is added.
pub proof fn audit_stays_bounded(
    events: Seq<DebugAuditEvent>,
    event: DebugAuditEvent,
    per_process: nat,
    total: nat,
)
    requires
        per_process > 0,
        total > 0,
    ensures
        audit_with(events, event, per_process, total).len() <= total,
        audit_with(events, event, per_process, total).filter(
            audits(event.tenant@, event.project@, event.process@),
        ).len() <= per_process,
        audit_with(events, event, per_process, total).last() == event,
{
    let p = audits(event.tenant@, event.project@, event.process@);
    let over = excess(events.filter(p).len(), per_process);
    let rest = drop_matching(events, p, over);
    lemma_drop_matching(events, p, over);
    let n = excess(rest.len(), total);
    let kept = rest.skip(n as int);
    lemma_skip_filter(rest, p, n as int);
    reveal(Seq::filter);
    assert(kept.push(event).drop_last() =~= kept);
}

/// Forgetting the debugging of one process leaves that of every other as it is.
pub proof fn clearing_spares_other_processes(s: DebugRegistryModel, process: ProcessText, other: ProcessText, task: TaskText)
    requires
        in_order(s),
        other != process,
        !task_of(task, process),
    ensures
        lookup(process_cleared(s, process).epochs, other) == lookup(s.epochs, other),
        lookup(process_cleared(s, process).epoch_runtime, other) == lookup(s.epoch_runtime, other),
        lookup(process_cleared(s, process).breakpoints, other) == lookup(s.breakpoints, other),
        lookup(process_cleared(s, process).commands, task) == lookup(s.commands, task),
        process_cleared(s, process).audit_events.filter(audits(other.0, other.1, other.2))
            == s.audit_events.filter(audits(other.0, other.1, other.2)),
{
    let gone = |event: DebugAuditEvent| !audits(process.0, process.1, process.2)(event);
    let theirs = audits(other.0, other.1, other.2);
    crate::ordered_map::lemma_filter_twice(s.audit_events, gone, theirs, theirs);
    crate::ordered_map::lemma_lookup_delete(s.epochs, process, other);
    crate::ordered_map::lemma_lookup_delete(s.epoch_runtime, process, other);
    crate::ordered_map::lemma_lookup_delete(s.breakpoints, process, other);
    let p = |e: (TaskText, DebugPendingCommand)| !task_of(e.0, process);
    let left = s.commands.filter(p);
    crate::ordered_map::lemma_filter_ascending(s.commands, p);
    crate::ordered_map::lemma_lookup_found(s.commands, task);
    crate::ordered_map::lemma_lookup_found(left, task);
    if crate::ordered_map::binds(s.commands, task) {
        let i = choose|i: int| crate::ordered_map::bound_at(s.commands, task, i);
        crate::ordered_map::lemma_lookup_at(s.commands, i);
        assert(p(s.commands[i]));
        s.commands.lemma_filter_contains_rev(p, s.commands[i]);
        let j = choose|j: int| 0 <= j < left.len() && left[j] == s.commands[i];
        crate::ordered_map::lemma_lookup_at(left, j);
    } else if crate::ordered_map::binds(left, task) {
        let j = choose|j: int| crate::ordered_map::bound_at(left, task, j);
        s.commands.lemma_filter_pred(p, j);
        assert(s.commands.contains(left[j])) by {
            broadcast use vstd::seq_lib::group_filter_ensures;

            assert(left.contains(left[j]));
        }
        let i = choose|i: int| 0 <= i < s.commands.len() && s.commands[i] == left[j];
        assert(crate::ordered_map::bound_at(s.commands, task, i));
    }
}

/// Once the debugging of a process is forgotten, nothing of it is left.
pub proof fn clearing_leaves_nothing_of_the_process(s: DebugRegistryModel, process: ProcessText, task: TaskText)
    requires
        in_order(s),
        task_of(task, process),
    ensures
        lookup(process_cleared(s, process).epochs, process) is None,
        lookup(process_cleared(s, process).epoch_runtime, process) is None,
        lookup(process_cleared(s, process).breakpoints, process) is None,
        lookup(process_cleared(s, process).commands, task) is None,
        process_cleared(s, process).audit_events.filter(
            audits(process.0, process.1, process.2),
        ).len() == 0,
{
    let gone = |event: DebugAuditEvent| !audits(process.0, process.1, process.2)(event);
    let own = audits(process.0, process.1, process.2);
    let events = s.audit_events.filter(gone);
    let none = events.filter(own);
    if none.len() > 0 {
        events.lemma_filter_pred(own, 0);
        events.lemma_filter_contains_rev(own, none[0]);
        let j = choose|j: int| 0 <= j < events.len() && events[j] == none[0];
        s.audit_events.lemma_filter_pred(gone, j);
    }
    crate::ordered_map::lemma_lookup_delete(s.epochs, process, process);
    crate::ordered_map::lemma_lookup_delete(s.epoch_runtime, process, process);
    crate::ordered_map::lemma_lookup_delete(s.breakpoints, process, process);
    let p = |e: (TaskText, DebugPendingCommand)| !task_of(e.0, process);
    let left = s.commands.filter(p);
    crate::ordered_map::lemma_lookup_found(left, task);
    if crate::ordered_map::binds(left, task) {
        let j = choose|j: int| crate::ordered_map::bound_at(left, task, j);
        s.commands.lemma_filter_pred(p, j);
    }
}

} // verus!
