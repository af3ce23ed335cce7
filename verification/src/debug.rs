//! Debugging: attaching, breakpoints, and the epochs in which the tasks of a process stop and go on.
use vstd::prelude::*;
use vstd::string::*;

use crate::automated_run::RepositoryRevision;
use crate::automation::{first_run, runs_process};
use crate::configuration::{DEBUG_CONTROL_READ_BYTES, MAX_DEBUG_AUDIT_EVENTS_PER_PROCESS, MAX_DEBUG_AUDIT_EVENTS_TOTAL};
use crate::coordinator::{Authorization, CoordinatorError, debug_attach_reason};
use crate::debug_registry::{DebugAcknowledgementState, DebugAuditEvent, DebugBreakpointPlan, DebugBreakpointPlanModel, DebugCommand, DebugEpochRuntime, DebugEpochRuntimeModel, DebugParticipantAcknowledgement, DebugParticipantAcknowledgementModel, DebugPendingCommand, DebugRegistryModel, NamedValue, SourceLocation, acknowledged, acknowledgement_refusal, audit_with, breakpoint_hit, refuses, resumable_commands, task_of};
use crate::debug_validation::{DebugSnapshot, are_probe_symbols, is_probe_symbol, probe_refusal, runtime_all_in_state, all_in_state, snapshot_refusal, validate_debug_snapshot, validate_probe_symbols};
use crate::duplicate::{Duplicate, TextList, copy_option, copy_text, option_view, texts, views};
use crate::ids::{Actor, AuthContext, NodeId, ProcessId, ProjectId, TaskDefinitionId, TaskInstanceId, TenantId, UserId};
use crate::keys::{ProcessControlKey, ProcessText, TaskControlKey, TaskText, process_control_key, task_control_key};
use crate::main_runtime::{CoordinatorMainControl, CoordinatorMainControlModel, CoordinatorMainRuntimeModel, MainHandle};
use crate::ordered::OrderedKey;
use crate::ordered_map::{OrderedMap, ascending, lemma_lookup_put, lemma_put_delete, lookup, put};
use crate::ordered_set::{OrderedSet, enumerates, list_texts};
use crate::service::{CoordinatorService, CoordinatorServiceModel};
use crate::service_error::{CoordinatorServiceError, protocol, unauthorized};
use crate::text::{begins_with, byte_len, chars_of, concat2, concat3, concat4, concat5, decimal, decimal_text, find_text, part, starts_with, text_eq, text_len, text_of, text_position};

verus! {

/// A task on a node.
pub struct TaskCancellationTarget {
    pub process: ProcessId,
    pub node: NodeId,
    pub task: TaskInstanceId,
}

impl View for TaskCancellationTarget {
    type V = TaskCancellationTarget;

    open spec fn view(&self) -> TaskCancellationTarget {
        *self
    }
}

impl Duplicate for TaskCancellationTarget {
    fn duplicate(&self) -> (r: Self) {
        TaskCancellationTarget {
            process: self.process.clone(),
            node: self.node.clone(),
            task: self.task.clone(),
        }
    }
}

/// The answer to a debugger that attaches.
pub struct DebugAttachment {
    pub process: ProcessId,
    pub actor: UserId,
    pub authorization: Authorization,
    pub source_revision: Option<RepositoryRevision>,
    pub audit_event: DebugAuditEvent,
}

impl View for DebugAttachment {
    type V = DebugAttachment;

    open spec fn view(&self) -> DebugAttachment {
        *self
    }
}

/// The breakpoints of a process, and the one that was hit.
pub struct DebugBreakpoints {
    pub process: ProcessId,
    pub actor: UserId,
    pub revision: u64,
    pub probe_symbols: TextList,
    pub hit_epoch: Option<u64>,
    pub hit_task: Option<TaskInstanceId>,
    pub hit_probe_symbol: Option<String>,
    pub hit_source_location: Option<SourceLocation>,
    pub audit_event: DebugAuditEvent,
}

/// The model of [`DebugBreakpoints`].
#[verifier::ext_equal]
pub struct DebugBreakpointsModel {
    pub process: ProcessId,
    pub actor: UserId,
    pub revision: u64,
    pub probe_symbols: Seq<Seq<char>>,
    pub hit_epoch: Option<u64>,
    pub hit_task: Option<TaskInstanceId>,
    pub hit_probe_symbol: Option<String>,
    pub hit_source_location: Option<SourceLocation>,
    pub audit_event: DebugAuditEvent,
}

impl View for DebugBreakpoints {
    type V = DebugBreakpointsModel;

    open spec fn view(&self) -> DebugBreakpointsModel {
        DebugBreakpointsModel {
            process: self.process,
            actor: self.actor,
            revision: self.revision,
            probe_symbols: self.probe_symbols@,
            hit_epoch: self.hit_epoch,
            hit_task: self.hit_task,
            hit_probe_symbol: self.hit_probe_symbol,
            hit_source_location: self.hit_source_location,
            audit_event: self.audit_event,
        }
    }
}

/// The answer to a debugger that stops a process or has it go on. `main_told` says whether the coordinator main is to be told.
pub struct DebugEpoch {
    pub process: ProcessId,
    pub actor: UserId,
    pub epoch: u64,
    pub command: DebugCommand,
    pub affected_tasks: Vec<TaskCancellationTarget>,
    pub all_stop_requested: bool,
    pub main_told: bool,
    pub audit_event: DebugAuditEvent,
}

/// The model of [`DebugEpoch`].
#[verifier::ext_equal]
pub struct DebugEpochModel {
    pub process: ProcessId,
    pub actor: UserId,
    pub epoch: u64,
    pub command: DebugCommand,
    pub affected_tasks: Seq<TaskCancellationTarget>,
    pub all_stop_requested: bool,
    pub main_told: bool,
    pub audit_event: DebugAuditEvent,
}

impl View for DebugEpoch {
    type V = DebugEpochModel;

    open spec fn view(&self) -> DebugEpochModel {
        DebugEpochModel {
            process: self.process,
            actor: self.actor,
            epoch: self.epoch,
            command: self.command,
            affected_tasks: views(self.affected_tasks@),
            all_stop_requested: self.all_stop_requested,
            main_told: self.main_told,
            audit_event: self.audit_event,
        }
    }
}

/// Where an epoch stands.
pub struct DebugEpochStatus {
    pub process: ProcessId,
    pub actor: UserId,
    pub epoch: u64,
    pub command: DebugCommand,
    pub expected_tasks: Vec<TaskCancellationTarget>,
    pub acknowledgements: Vec<DebugParticipantAcknowledgement>,
    pub fully_frozen: bool,
    pub partially_frozen: bool,
    pub fully_resumed: bool,
    pub failed: bool,
    pub failure_messages: TextList,
    pub audit_event: DebugAuditEvent,
}

/// The model of [`DebugEpochStatus`].
#[verifier::ext_equal]
pub struct DebugEpochStatusModel {
    pub process: ProcessId,
    pub actor: UserId,
    pub epoch: u64,
    pub command: DebugCommand,
    pub expected_tasks: Seq<TaskCancellationTarget>,
    pub acknowledgements: Seq<DebugParticipantAcknowledgementModel>,
    pub fully_frozen: bool,
    pub partially_frozen: bool,
    pub fully_resumed: bool,
    pub failed: bool,
    pub failure_messages: Seq<Seq<char>>,
    pub audit_event: DebugAuditEvent,
}

impl View for DebugEpochStatus {
    type V = DebugEpochStatusModel;

    open spec fn view(&self) -> DebugEpochStatusModel {
        DebugEpochStatusModel {
            process: self.process,
            actor: self.actor,
            epoch: self.epoch,
            command: self.command,
            expected_tasks: views(self.expected_tasks@),
            acknowledgements: views(self.acknowledgements@),
            fully_frozen: self.fully_frozen,
            partially_frozen: self.partially_frozen,
            fully_resumed: self.fully_resumed,
            failed: self.failed,
            failure_messages: self.failure_messages@,
            audit_event: self.audit_event,
        }
    }
}

/// What is seen of a coordinator main that is debugged.
pub struct MainDebugView {
    pub frozen_epoch: Option<u64>,
    pub resume_requested: bool,
    pub current_source_location: Option<SourceLocation>,
}

impl View for MainDebugView {
    type V = MainDebugView;

    open spec fn view(&self) -> MainDebugView {
        *self
    }
}

/// What is charged for a debug request that is allowed: whether the charge is granted, and what has
/// been used with it.
pub struct DebugCharge {
    pub granted: Result<(), String>,
    pub used_bytes: u64,
}

/// An event of the audit.
pub open spec fn is_audit(
    event: DebugAuditEvent,
    key: ProcessText,
    task: Option<Seq<char>>,
    actor: Seq<char>,
    operation: Seq<char>,
    allowed: bool,
    reason: Seq<char>,
    used: u64,
) -> bool {
    &&& event.tenant@ == key.0
    &&& event.project@ == key.1
    &&& event.process@ == key.2
    &&& option_view(event.task) == task
    &&& event.actor@ == actor
    &&& event.operation@ == operation
    &&& event.allowed == allowed
    &&& event.reason@ == reason
    &&& event.charged_debug_read_bytes == (if allowed {
        DEBUG_CONTROL_READ_BYTES
    } else {
        0
    })
    &&& event.used_debug_read_bytes == used
}

/// The registry with one more event in its audit.
pub open spec fn with_audit(s: DebugRegistryModel, event: DebugAuditEvent) -> DebugRegistryModel {
    DebugRegistryModel {
        audit_events: audit_with(
            s.audit_events,
            event,
            MAX_DEBUG_AUDIT_EVENTS_PER_PROCESS as nat,
            MAX_DEBUG_AUDIT_EVENTS_TOTAL as nat,
        ),
        ..s
    }
}

/// What comes of auditing a debug request.
pub open spec fn audited(
    before: DebugRegistryModel,
    after: DebugRegistryModel,
    key: ProcessText,
    task: Option<Seq<char>>,
    actor: Seq<char>,
    operation: Seq<char>,
    allowed: bool,
    reason: Seq<char>,
    charge: DebugCharge,
    r: Result<DebugAuditEvent, CoordinatorServiceError>,
) -> bool {
    if allowed && charge.granted is Err {
        &&& r matches Err(CoordinatorServiceError::Resource(text))
        &&& text@ == charge.granted->Err_0@
        &&& after == before
    } else {
        &&& r matches Ok(event)
        &&& is_audit(event, key, task, actor, operation, allowed, reason, charge.used_bytes)
        &&& after == with_audit(before, event)
    }
}

/// Whether a user may debug a process, and why or why not.
pub open spec fn attach_reason(s: CoordinatorServiceModel, key: ProcessText, actor: UserId) -> (bool, Seq<char>) {
    debug_attach_reason(s.coordinator, key.0, key.1, Actor::User(actor), key.2)
}

/// Where a process is debugged.
pub open spec fn debug_only(before: CoordinatorServiceModel, after: CoordinatorServiceModel) -> bool {
    after == (CoordinatorServiceModel { debug: after.debug, ..before })
}

/// What a refused request or a charge that was not granted leaves: the error of the charge, or the
/// refusal, which the audit holds.
pub open spec fn debug_refused(
    before: CoordinatorServiceModel,
    after: CoordinatorServiceModel,
    key: ProcessText,
    task: Option<Seq<char>>,
    actor: UserId,
    operation: Seq<char>,
    reason: Seq<char>,
    charge: DebugCharge,
    error: CoordinatorServiceError,
) -> bool {
    let cause = attach_reason(before, key, actor);
    &&& debug_only(before, after)
    &&& if cause.0 {
        &&& charge.granted matches Err(reason)
        &&& error matches CoordinatorServiceError::Resource(text)
        &&& text@ == reason@
        &&& after.debug == before.debug
    } else {
        &&& error.denies(operation + " denied: "@ + cause.1)
        &&& is_audit(
            after.debug.audit_events.last(),
            key,
            task,
            actor@,
            operation,
            false,
            reason,
            charge.used_bytes,
        )
        &&& after.debug == with_audit(before.debug, after.debug.audit_events.last())
    }
}

/// A request that is allowed and charged: its event, and the registry that holds it.
pub open spec fn debug_granted(
    before: CoordinatorServiceModel,
    middle: DebugRegistryModel,
    key: ProcessText,
    task: Option<Seq<char>>,
    actor: UserId,
    operation: Seq<char>,
    reason: Seq<char>,
    charge: DebugCharge,
    event: DebugAuditEvent,
) -> bool {
    &&& attach_reason(before, key, actor).0
    &&& charge.granted is Ok
    &&& is_audit(event, key, task, actor@, operation, true, reason, charge.used_bytes)
    &&& middle == with_audit(before.debug, event)
}

/// What a debugger is told that attaches to a process. Where it is allowed, that is charged; either
/// way it is audited.
pub open spec fn attach_answered(
    before: CoordinatorServiceModel,
    after: CoordinatorServiceModel,
    key: ProcessText,
    actor: UserId,
    charge: DebugCharge,
    r: Result<DebugAttachment, CoordinatorServiceError>,
) -> bool {
    let (allowed, reason) = attach_reason(before, key, actor);
    &&& debug_only(before, after)
    &&& if allowed && charge.granted is Err {
        &&& r matches Err(CoordinatorServiceError::Resource(text))
        &&& text@ == charge.granted->Err_0@
        &&& after == before
    } else {
        &&& r matches Ok(attachment)
        &&& attachment.process@ == key.2
        &&& attachment.actor@ == actor@
        &&& attachment.authorization.allowed == allowed
        &&& attachment.authorization.reason@ == reason
        &&& attachment.source_revision == (match first_run(
            before.coordinator.durable.automation,
            runs_process(key.0, key.1, key.2),
        ) {
            Some(e) => e.1.revision,
            None => None,
        })
        &&& is_audit(
            attachment.audit_event,
            key,
            None,
            actor@,
            "debug_attach"@,
            allowed,
            reason,
            charge.used_bytes,
        )
        &&& after.debug == with_audit(before.debug, attachment.audit_event)
    }
}

impl CoordinatorService {
    /// Adds a debug request to the audit. A request that is allowed is charged for.
    pub fn record_debug_audit_event(
        &mut self,
        tenant: &TenantId,
        project: &ProjectId,
        process: &ProcessId,
        task: &Option<TaskInstanceId>,
        actor: &UserId,
        operation: &str,
        allowed: bool,
        reason: &str,
        charge: &DebugCharge,
    ) -> (r: Result<DebugAuditEvent, CoordinatorServiceError>)
        ensures
            debug_only(old(self)@, final(self)@),
            audited(
                old(self)@.debug,
                final(self)@.debug,
                (tenant@, project@, process@),
                option_view(*task),
                actor@,
                operation@,
                allowed,
                reason@,
                *charge,
                r,
            ),
    {
        if allowed {
            match &charge.granted {
                Err(text) => {
                    return Err(CoordinatorServiceError::Resource(text.clone()));
                },
                Ok(_) => {},
            }
        }
        let event: DebugAuditEvent = DebugAuditEvent {
            tenant: tenant.clone(),
            project: project.clone(),
            process: process.clone(),
            task: copy_text(task),
            actor: actor.clone(),
            operation: operation.to_owned(),
            allowed,
            reason: reason.to_owned(),
            charged_debug_read_bytes: if allowed {
                DEBUG_CONTROL_READ_BYTES
            } else {
                0
            },
            used_debug_read_bytes: charge.used_bytes,
        };
        self.debug_registry.append_audit(
            event.duplicate(),
            MAX_DEBUG_AUDIT_EVENTS_PER_PROCESS,
            MAX_DEBUG_AUDIT_EVENTS_TOTAL,
        );
        Ok(event)
    }

    pub(crate) fn authorize_debug(&self, tenant: &TenantId, project: &ProjectId, process: &ProcessId, actor: &UserId) -> (r:
        Authorization)
        ensures
            (r.allowed, r.reason@) == attach_reason(
                self@,
                (tenant@, project@, process@),
                *actor,
            ),
    {
        let context: AuthContext = AuthContext {
            tenant: tenant.clone(),
            project: project.clone(),
            actor: Actor::User(actor.clone()),
        };
        self.coordinator.authorize_debug_attach(&context, process)
    }

    /// Audits a request and charges for it; one that is not allowed is denied.
    fn grant_debug(
        &mut self,
        tenant: &TenantId,
        project: &ProjectId,
        process: &ProcessId,
        task: &Option<TaskInstanceId>,
        actor: &UserId,
        operation: &str,
        own_reason: Option<&str>,
        charge: &DebugCharge,
    ) -> (r: Result<DebugAuditEvent, CoordinatorServiceError>)
        ensures
            debug_only(old(self)@, final(self)@),
            ({
                let key = (tenant@, project@, process@);
                let cause = attach_reason(old(self)@, key, *actor);
                let reason = if cause.0 && own_reason is Some {
                    own_reason->Some_0@
                } else {
                    cause.1
                };
                match r {
                    Err(error) => debug_refused(
                        old(self)@,
                        final(self)@,
                        key,
                        option_view(*task),
                        *actor,
                        operation@,
                        reason,
                        *charge,
                        error,
                    ),
                    Ok(event) => debug_granted(
                        old(self)@,
                        final(self)@.debug,
                        key,
                        option_view(*task),
                        *actor,
                        operation@,
                        reason,
                        *charge,
                        event,
                    ),
                }
            }),
    {
        let ghost before = self@;
        let ghost key = (tenant@, project@, process@);
        let authorization: Authorization = self.authorize_debug(tenant, project, process, actor);
        let reason: String = match own_reason {
            Some(text) => {
                if authorization.allowed {
                    text.to_owned()
                } else {
                    authorization.reason.clone()
                }
            },
            None => authorization.reason.clone(),
        };
        let recorded: Result<DebugAuditEvent, CoordinatorServiceError> =
            self.record_debug_audit_event(
            tenant,
            project,
            process,
            task,
            actor,
            operation,
            authorization.allowed,
            reason.as_str(),
            charge,
        );
        assert(audited(
            before.debug,
            self@.debug,
            key,
            option_view(*task),
            actor@,
            operation@,
            authorization.allowed,
            reason@,
            *charge,
            recorded,
        ));
        match recorded {
            Err(error) => Err(error),
            Ok(event) => {
                if !authorization.allowed {
                    let text: String = concat3(
                        operation,
                        " denied: ",
                        authorization.reason.as_str(),
                    );
                    return Err(unauthorized(text.as_str()));
                }
                Ok(event)
            },
        }
    }

    /// Answers a debugger that attaches to a process.
    pub fn handle_debug_attach(
        &mut self,
        tenant: &TenantId,
        project: &ProjectId,
        actor: &UserId,
        process: &ProcessId,
        charge: &DebugCharge,
    ) -> (r: Result<DebugAttachment, CoordinatorServiceError>)
        ensures
            attach_answered(
                old(self)@,
                final(self)@,
                (tenant@, project@, process@),
                *actor,
                *charge,
                r,
            ),
    {
        let authorization: Authorization = self.authorize_debug(tenant, project, process, actor);
        let source_revision: Option<RepositoryRevision> =
            self.coordinator.automation().automated_source_revision(tenant, project, process);
        let none: Option<TaskInstanceId> = None;
        match self.record_debug_audit_event(
            tenant,
            project,
            process,
            &none,
            actor,
            "debug_attach",
            authorization.allowed,
            authorization.reason.as_str(),
            charge,
        ) {
            Err(error) => Err(error),
            Ok(audit_event) => Ok(
                DebugAttachment {
                    process: process.clone(),
                    actor: actor.clone(),
                    authorization,
                    source_revision,
                    audit_event,
                },
            ),
        }
    }
}

/// Whether a place in the source can hold a breakpoint of one of the symbols.
pub open spec fn is_probe_location(location: SourceLocation, symbols: Seq<Seq<char>>) -> bool {
    &&& symbols.contains(location.probe_id@)
    &&& location.source_path@.len() > 0
    &&& byte_len(location.source_path@) <= 512
    &&& location.source_path@[0] != '/'
    &&& find_text(location.source_path@, ".."@, 0) is None
    &&& location.line != 0
}

/// Whether places can hold the breakpoints of the symbols: there are none, or one for each.
pub open spec fn are_probe_locations(locations: Seq<SourceLocation>, symbols: Seq<Seq<char>>) -> bool {
    &&& locations.len() == 0 || locations.len() == symbols.len()
    &&& forall|i: int|
        0 <= i < locations.len() ==> is_probe_location(#[trigger] locations[i], symbols)
}

/// Places in the source by their probes; of two for one probe the later counts.
pub open spec fn by_probe(locations: Seq<SourceLocation>) -> Seq<(Seq<char>, SourceLocation)>
    decreases locations.len(),
{
    if locations.len() == 0 {
        Seq::empty()
    } else {
        put(by_probe(locations.drop_last()), locations.last().probe_id@, locations.last())
    }
}

fn check_probe_location(location: &SourceLocation, symbols: &TextList) -> (r: bool)
    ensures
        r == is_probe_location(*location, symbols@),
{
    if !symbols.holds(location.probe_id.as_str()) {
        return false;
    }
    let chars: Vec<char> = chars_of(location.source_path.as_str());
    if chars.len() == 0 || text_len(location.source_path.as_str()) > 512 || chars[0] == '/' {
        return false;
    }
    let dots: Vec<char> = chars_of("..");
    proof {
        reveal_strlit("..");
    }
    text_position(&chars, &dots).is_none() && location.line != 0
}

fn check_probe_locations(locations: &Vec<SourceLocation>, symbols: &TextList) -> (r: bool)
    ensures
        r == are_probe_locations(locations@, symbols@),
{
    let n: usize = locations.len();
    if n > 0 && n != symbols.items.len() {
        return false;
    }
    let mut i: usize = 0;
    while i < n
        invariant
            n == locations@.len(),
            0 <= i <= n,
            forall|j: int| 0 <= j < i ==> is_probe_location(#[trigger] locations@[j], symbols@),
        decreases n - i,
    {
        if !check_probe_location(&locations[i], symbols) {
            assert(!is_probe_location(locations@[i as int], symbols@));
            return false;
        }
        i = i + 1;
    }
    true
}

fn locations_by_probe(locations: &Vec<SourceLocation>) -> (r: OrderedMap<String, SourceLocation>)
    ensures
        r@ == by_probe(locations@),
{
    let mut found: OrderedMap<String, SourceLocation> = OrderedMap::new();
    let n: usize = locations.len();
    let mut i: usize = 0;
    assert(locations@.take(0) =~= Seq::empty());
    while i < n
        invariant
            n == locations@.len(),
            0 <= i <= n,
            found@ == by_probe(locations@.take(i as int)),
        decreases n - i,
    {
        assert(locations@.take(i + 1).drop_last() =~= locations@.take(i as int));
        let probe: String = locations[i].probe_id.clone();
        assert(probe.key() == locations@[i as int].probe_id@);
        found.insert(probe, locations[i].duplicate());
        i = i + 1;
    }
    assert(locations@.take(n as int) =~= locations@);
    found
}

/// The place of the breakpoint that was hit.
pub open spec fn hit_location(plan: DebugBreakpointPlanModel) -> Option<SourceLocation> {
    match plan.hit_probe_symbol {
        Some(symbol) => lookup(plan.probe_locations, symbol@),
        None => None,
    }
}

/// The answer that shows a plan.
pub open spec fn shows_plan(
    answer: DebugBreakpointsModel,
    key: ProcessText,
    actor: Seq<char>,
    plan: DebugBreakpointPlanModel,
    event: DebugAuditEvent,
) -> bool {
    &&& answer.process@ == key.2
    &&& answer.actor@ == actor
    &&& answer.revision == plan.revision
    &&& enumerates(answer.probe_symbols, plan.probe_symbols)
    &&& answer.hit_epoch == plan.hit_epoch
    &&& option_view(answer.hit_task) == option_view(plan.hit_task)
    &&& option_view(answer.hit_probe_symbol) == option_view(plan.hit_probe_symbol)
    &&& answer.hit_source_location == hit_location(plan)
    &&& answer.audit_event == event
}

fn show_plan(
    process: &ProcessId,
    actor: &UserId,
    plan: &DebugBreakpointPlan,
    audit_event: DebugAuditEvent,
    Ghost(key): Ghost<ProcessText>,
) -> (r: DebugBreakpoints)
    requires
        key.2 == process@,
    ensures
        shows_plan(r@, key, actor@, plan@, audit_event),
{
    let hit_source_location: Option<SourceLocation> = match &plan.hit_probe_symbol {
        Some(symbol) => {
            assert(symbol.key() == symbol@);
            match plan.probe_locations.get(symbol) {
                Some(location) => Some(location.duplicate()),
                None => None,
            }
        },
        None => None,
    };
    DebugBreakpoints {
        process: process.clone(),
        actor: actor.clone(),
        revision: plan.revision,
        probe_symbols: list_texts(&plan.probe_symbols),
        hit_epoch: plan.hit_epoch,
        hit_task: copy_text(&plan.hit_task),
        hit_probe_symbol: copy_text(&plan.hit_probe_symbol),
        hit_source_location,
        audit_event,
    }
}

/// A plan that was set and not hit yet.
pub open spec fn is_new_plan(
    plan: DebugBreakpointPlanModel,
    actor: Seq<char>,
    revision: u64,
    symbols: Set<Seq<char>>,
    locations: Seq<SourceLocation>,
) -> bool {
    &&& plan.actor@ == actor
    &&& plan.revision == revision
    &&& plan.probe_symbols == symbols
    &&& plan.probe_locations == by_probe(locations)
    &&& plan.hit_epoch is None
    &&& plan.hit_task is None
    &&& plan.hit_probe_symbol is None
}

/// What comes of setting breakpoints.
pub open spec fn breakpoints_set(
    before: CoordinatorServiceModel,
    after: CoordinatorServiceModel,
    key: ProcessText,
    actor: UserId,
    revision: u64,
    symbols: Seq<Seq<char>>,
    locations: Seq<SourceLocation>,
    charge: DebugCharge,
    r: Result<DebugBreakpoints, CoordinatorServiceError>,
) -> bool {
    let cause = attach_reason(before, key, actor);
    &&& debug_only(before, after)
    &&& if probe_refusal(symbols) is Some {
        after == before && (r matches Err(error) && error.protests(probe_refusal(symbols)->Some_0))
    } else if !locations_fit(locations, symbols) {
        after == before && (r matches Err(error) && error.protests(
            "debug probe source locations do not match the requested symbols"@,
        ))
    } else if !cause.0 || charge.granted is Err {
        r matches Err(error) && debug_refused(
            before,
            after,
            key,
            None,
            actor,
            "set_debug_breakpoints"@,
            cause.1,
            charge,
            error,
        )
    } else {
        &&& r matches Ok(answer)
        &&& is_audit(
            answer.audit_event,
            key,
            None,
            actor@,
            "set_debug_breakpoints"@,
            true,
            cause.1,
            charge.used_bytes,
        )
        &&& match lookup(before.debug.breakpoints, key) {
            Some(current) => if current.actor@ == actor@ && revision <= current.revision {
                &&& shows_plan(answer@, key, actor@, current, answer.audit_event)
                &&& after.debug == with_audit(before.debug, answer.audit_event)
            } else {
                plan_replaced(before, after, key, actor, revision, symbols, locations, answer)
            },
            None => plan_replaced(before, after, key, actor, revision, symbols, locations, answer),
        }
    }
}

/// Whether places fit the symbols, once these stand in order without repetition.
pub open spec fn locations_fit(locations: Seq<SourceLocation>, symbols: Seq<Seq<char>>) -> bool {
    exists|list: Seq<Seq<char>>| #[trigger]
        enumerates(list, symbols.to_set()) && are_probe_locations(locations, list)
}

/// The breakpoints of a process are new ones.
pub open spec fn plan_replaced(
    before: CoordinatorServiceModel,
    after: CoordinatorServiceModel,
    key: ProcessText,
    actor: UserId,
    revision: u64,
    symbols: Seq<Seq<char>>,
    locations: Seq<SourceLocation>,
    answer: DebugBreakpoints,
) -> bool {
    &&& lookup(after.debug.breakpoints, key) matches Some(plan)
    &&& is_new_plan(plan, actor@, revision, symbols.to_set(), locations)
    &&& shows_plan(answer@, key, actor@, plan, answer.audit_event)
    &&& after.debug == (DebugRegistryModel {
        breakpoints: put(before.debug.breakpoints, key, plan),
        ..with_audit(before.debug, answer.audit_event)
    })
}

/// What comes of asking for the breakpoints of a process.
pub open spec fn breakpoints_inspected(
    before: CoordinatorServiceModel,
    after: CoordinatorServiceModel,
    key: ProcessText,
    actor: UserId,
    charge: DebugCharge,
    r: Result<DebugBreakpoints, CoordinatorServiceError>,
) -> bool {
    let cause = attach_reason(before, key, actor);
    &&& debug_only(before, after)
    &&& match lookup(before.debug.breakpoints, key) {
        None => after == before && (r matches Err(error) && error.protests(
            "no debug breakpoints are configured for "@ + key.2,
        )),
        Some(plan) => if plan.actor@ != actor@ {
            after == before && (r matches Err(error) && error.denies(
                "debug breakpoint inspection belongs to another authenticated user"@,
            ))
        } else if !cause.0 || charge.granted is Err {
            r matches Err(error) && debug_refused(
                before,
                after,
                key,
                option_view(plan.hit_task),
                actor,
                "inspect_debug_breakpoints"@,
                cause.1,
                charge,
                error,
            )
        } else {
            &&& r matches Ok(answer)
            &&& is_audit(
                answer.audit_event,
                key,
                option_view(plan.hit_task),
                actor@,
                "inspect_debug_breakpoints"@,
                true,
                cause.1,
                charge.used_bytes,
            )
            &&& shows_plan(answer@, key, actor@, plan, answer.audit_event)
            &&& after.debug == with_audit(before.debug, answer.audit_event)
        },
    }
}

impl CoordinatorService {
    /// Sets the breakpoints of a process. Those of an older revision do not replace newer ones of
    /// the same user.
    pub fn handle_set_debug_breakpoints(
        &mut self,
        tenant: &TenantId,
        project: &ProjectId,
        actor: &UserId,
        process: &ProcessId,
        revision: u64,
        probe_symbols: TextList,
        probe_locations: &Vec<SourceLocation>,
        charge: &DebugCharge,
    ) -> (r: Result<DebugBreakpoints, CoordinatorServiceError>)
        ensures
            breakpoints_set(
                old(self)@,
                final(self)@,
                (tenant@, project@, process@),
                *actor,
                revision,
                probe_symbols@,
                probe_locations@,
                *charge,
                r,
            ),
    {
        broadcast use lemma_lookup_put;

        let ghost asked = probe_symbols@;
        let symbols: TextList = match validate_probe_symbols(probe_symbols) {
            Ok(symbols) => symbols,
            Err(error) => {
                return Err(error);
            },
        };
        proof {
            if locations_fit(probe_locations@, asked) {
                let list = choose|list: Seq<Seq<char>>| #[trigger]
                    enumerates(list, asked.to_set()) && are_probe_locations(probe_locations@, list);
                crate::ordered_set::lemma_enumerates_same(list, symbols@, asked.to_set());
            }
        }
        if !check_probe_locations(probe_locations, &symbols) {
            return Err(protocol("debug probe source locations do not match the requested symbols"));
        }
        assert(locations_fit(probe_locations@, asked));
        let none: Option<TaskInstanceId> = None;
        let audit_event: DebugAuditEvent = match self.grant_debug(
            tenant,
            project,
            process,
            &none,
            actor,
            "set_debug_breakpoints",
            None,
            charge,
        ) {
            Ok(event) => event,
            Err(error) => {
                return Err(error);
            },
        };
        let key: ProcessControlKey = process_control_key(tenant, project, process);
        match self.debug_registry.breakpoint(&key) {
            Some(current) => {
                if text_eq(current.actor.as_str(), actor.as_str()) && revision <= current.revision {
                    return Ok(
                        show_plan(process, actor, current, audit_event, Ghost(key.key())),
                    );
                }
            },
            None => {},
        }
        let mut chosen: OrderedSet<String> = OrderedSet::new();
        let n: usize = symbols.items.len();
        let mut i: usize = 0;
        assert(symbols@.take(0).to_set() =~= Set::empty());
        while i < n
            invariant
                n == symbols.items@.len(),
                n == symbols@.len(),
                0 <= i <= n,
                chosen@ == symbols@.take(i as int).to_set(),
            decreases n - i,
        {
            let symbol: String = symbols.items[i].clone();
            assert(symbol.key() == symbols@[i as int]);
            let _new: bool = chosen.insert(symbol);
            assert(chosen@ =~= symbols@.take(i + 1).to_set()) by {
                let longer = symbols@.take(i + 1);
                let shorter = symbols@.take(i as int);
                assert forall|x: Seq<char>| longer.contains(x) <==> shorter.contains(x) || x
                    == symbols@[i as int] by {
                    if longer.contains(x) {
                        let j = choose|j: int| 0 <= j < longer.len() && longer[j] == x;
                        if j < i {
                            assert(shorter[j] == x);
                        }
                    }
                    if shorter.contains(x) {
                        let j = choose|j: int| 0 <= j < shorter.len() && shorter[j] == x;
                        assert(longer[j] == x);
                    }
                    assert(longer[i as int] == symbols@[i as int]);
                }
            }
            i = i + 1;
        }
        assert(symbols@.take(n as int) =~= symbols@);
        assert(chosen@ =~= asked.to_set());
        let plan: DebugBreakpointPlan = DebugBreakpointPlan {
            actor: actor.clone(),
            revision,
            probe_symbols: chosen,
            probe_locations: locations_by_probe(probe_locations),
            hit_epoch: None,
            hit_task: None,
            hit_probe_symbol: None,
        };
        let answer: DebugBreakpoints = show_plan(
            process,
            actor,
            &plan,
            audit_event,
            Ghost(key.key()),
        );
        proof {
            use_type_invariant(&self.debug_registry.breakpoints);
        }
        self.debug_registry.set_breakpoint(key, plan);
        Ok(answer)
    }

    /// Shows the breakpoints of a process to the user who set them.
    pub fn handle_inspect_debug_breakpoints(
        &mut self,
        tenant: &TenantId,
        project: &ProjectId,
        actor: &UserId,
        process: &ProcessId,
        charge: &DebugCharge,
    ) -> (r: Result<DebugBreakpoints, CoordinatorServiceError>)
        ensures
            breakpoints_inspected(
                old(self)@,
                final(self)@,
                (tenant@, project@, process@),
                *actor,
                *charge,
                r,
            ),
    {
        let key: ProcessControlKey = process_control_key(tenant, project, process);
        let hit_task: Option<TaskInstanceId> = match self.debug_registry.breakpoint(&key) {
            None => {
                return Err(
                    CoordinatorServiceError::Protocol(
                        concat2("no debug breakpoints are configured for ", process.as_str()),
                    ),
                );
            },
            Some(plan) => {
                if !text_eq(plan.actor.as_str(), actor.as_str()) {
                    return Err(
                        unauthorized(
                            "debug breakpoint inspection belongs to another authenticated user",
                        ),
                    );
                }
                copy_text(&plan.hit_task)
            },
        };
        let audit_event: DebugAuditEvent = match self.grant_debug(
            tenant,
            project,
            process,
            &hit_task,
            actor,
            "inspect_debug_breakpoints",
            None,
            charge,
        ) {
            Ok(event) => event,
            Err(error) => {
                return Err(error);
            },
        };
        match self.debug_registry.breakpoint(&key) {
            Some(plan) => Ok(show_plan(process, actor, plan, audit_event, Ghost(key.key()))),
            None => Err(protocol("no debug breakpoints are configured")),
        }
    }
}

/// The node that stands for the coordinator itself.
pub open spec fn main_node() -> Seq<char> {
    "coordinator-main"@
}

/// The key of the coordinator main of a process, where it has one.
pub open spec fn main_key(s: CoordinatorServiceModel, key: ProcessText) -> Option<TaskText> {
    match lookup(s.mains.controls, key) {
        Some(control) => Some((key.0, key.1, key.2, main_node(), control.task_instance@)),
        None => None,
    }
}

/// The tasks of a process that are active.
pub open spec fn active_in(active: Set<TaskText>, key: ProcessText) -> Set<TaskText> {
    active.filter(|task: TaskText| task_of(task, key))
}

/// The participants that have stopped.
pub open spec fn frozen(runtime: Option<DebugEpochRuntimeModel>) -> Set<TaskText> {
    Set::new(
        |task: TaskText|
            runtime matches Some(runtime) && (lookup(runtime.acknowledgements, task) matches Some(
                answer,
            ) && answer.state == DebugAcknowledgementState::Frozen),
    )
}

/// Whether all who are to answer have answered.
pub open spec fn all_answered(runtime: DebugEpochRuntimeModel) -> bool {
    forall|task: TaskText| #[trigger]
        runtime.expected.contains(task) ==> lookup(runtime.acknowledgements, task) is Some
}

/// Why no epoch can begin or go on, if none can.
pub open spec fn epoch_refusal(
    s: DebugRegistryModel,
    key: ProcessText,
    expected: Option<u64>,
    now: u64,
) -> Option<Seq<char>> {
    match expected {
        Some(expected) => {
            let head = "cannot resume debug epoch "@ + decimal(expected as nat) + " for "@ + key.2;
            match lookup(s.epochs, key) {
                None => Some(head + ": no active debug epoch"@),
                Some(current) => if current != expected {
                    Some(head + ": current debug epoch is "@ + decimal(current as nat))
                } else {
                    match lookup(s.epoch_runtime, key) {
                        None => Some(head + ": participant state is unavailable"@),
                        Some(runtime) => if runtime.command != DebugCommand::Freeze || frozen(
                            Some(runtime),
                        ) == Set::<TaskText>::empty() || !(all_answered(runtime) || now
                            >= runtime.deadline) {
                            Some(head + ": no settled frozen participant set is available"@)
                        } else {
                            None
                        },
                    }
                },
            }
        },
        None => match lookup(s.epoch_runtime, key) {
            Some(runtime) => if runtime.command == DebugCommand::Resume && all_in_state(
                runtime,
                DebugAcknowledgementState::Running,
            ) {
                None
            } else {
                Some(
                    "cannot create a new debug epoch for "@ + key.2 + ": epoch "@ + decimal(
                        runtime.epoch as nat,
                    ) + " has not fully resumed"@,
                )
            },
            None => None,
        },
    }
}

/// The epoch that begins or goes on.
pub open spec fn epoch_of(s: DebugRegistryModel, key: ProcessText, expected: Option<u64>) -> int {
    match expected {
        Some(expected) => expected as int,
        None => match lookup(s.epochs, key) {
            Some(current) => current + 1,
            None => 1,
        },
    }
}

/// The commands with one for each task of a list.
pub open spec fn commands_with(
    commands: Seq<(TaskText, DebugPendingCommand)>,
    list: Seq<TaskText>,
    command: DebugPendingCommand,
) -> Seq<(TaskText, DebugPendingCommand)>
    decreases list.len(),
{
    if list.len() == 0 {
        commands
    } else {
        put(commands_with(commands, list.drop_last(), command), list.last(), command)
    }
}

/// A task on a node as text.
pub open spec fn target_text(target: TaskCancellationTarget) -> (Seq<char>, Seq<char>, Seq<char>) {
    (target.process@, target.node@, target.task@)
}

/// Tasks on nodes as texts.
pub open spec fn target_texts(targets: Seq<TaskCancellationTarget>) -> Seq<
    (Seq<char>, Seq<char>, Seq<char>),
> {
    targets.map_values(|target: TaskCancellationTarget| target_text(target))
}

/// The tasks of a list as texts.
pub open spec fn listed_targets(list: Seq<TaskText>) -> Seq<(Seq<char>, Seq<char>, Seq<char>)> {
    list.map_values(|task: TaskText| (task.2, task.3, task.4))
}

/// Whether a task is among those that can go on.
pub open spec fn goes_on(resumable: Set<TaskText>) -> spec_fn((Seq<char>, Seq<char>, Seq<char>)) -> bool {
    |target: (Seq<char>, Seq<char>, Seq<char>)|
        exists|task: TaskText| #[trigger]
            resumable.contains(task) && task.3 == target.1 && task.4 == target.2
}

/// The tasks that an epoch affects: those of the list, and the coordinator main; where they are to
/// go on, only those that can.
pub open spec fn affected(
    s: CoordinatorServiceModel,
    key: ProcessText,
    list: Seq<TaskText>,
    command: DebugCommand,
) -> Seq<(Seq<char>, Seq<char>, Seq<char>)> {
    let all = listed_targets(list) + match main_key(s, key) {
        Some(task) => seq![(task.2, task.3, task.4)],
        None => Seq::empty(),
    };
    match command {
        DebugCommand::Freeze => all,
        DebugCommand::Resume => all.filter(goes_on(frozen(lookup(s.debug.epoch_runtime, key)))),
    }
}

/// The participants of an epoch.
pub open spec fn participants(
    s: CoordinatorServiceModel,
    key: ProcessText,
    active: Set<TaskText>,
    command: DebugCommand,
) -> Set<TaskText> {
    let all = match main_key(s, key) {
        Some(task) => active_in(active, key).insert(task),
        None => active_in(active, key),
    };
    match command {
        DebugCommand::Freeze => all,
        DebugCommand::Resume => all.intersect(frozen(lookup(s.debug.epoch_runtime, key))),
    }
}

/// The commands of an epoch that begins or goes on.
pub open spec fn epoch_commands(
    s: CoordinatorServiceModel,
    key: ProcessText,
    list: Seq<TaskText>,
    epoch: u64,
    command: DebugCommand,
) -> Seq<(TaskText, DebugPendingCommand)> {
    let queued = commands_with(
        s.debug.commands,
        list,
        DebugPendingCommand { epoch, command },
    );
    match command {
        DebugCommand::Freeze => queued,
        DebugCommand::Resume => resumable_commands(
            queued,
            epoch,
            frozen(lookup(s.debug.epoch_runtime, key)),
        ),
    }
}

/// An epoch that begins or goes on.
pub open spec fn epoch_runs(
    before: CoordinatorServiceModel,
    after: CoordinatorServiceModel,
    key: ProcessText,
    actor: UserId,
    expected: Option<u64>,
    command: DebugCommand,
    all_stop: bool,
    active: Set<TaskText>,
    now: u64,
    list: Seq<TaskText>,
    answer: DebugEpoch,
) -> bool {
    let epoch = epoch_of(before.debug, key, expected);
    &&& enumerates(list, active_in(active, key))
    &&& answer.process@ == key.2
    &&& answer.actor@ == actor@
    &&& answer.epoch == epoch
    &&& answer.command == command
    &&& target_texts(answer.affected_tasks@) == affected(before, key, list, command)
    &&& answer.all_stop_requested == all_stop
    &&& answer.main_told == (main_key(before, key) matches Some(task) && (command
        == DebugCommand::Freeze || frozen(lookup(before.debug.epoch_runtime, key)).contains(task)))
    &&& after.debug == (DebugRegistryModel {
        epochs: if expected is None {
            put(before.debug.epochs, key, answer.epoch)
        } else {
            before.debug.epochs
        },
        commands: epoch_commands(before, key, list, answer.epoch, command),
        epoch_runtime: put(
            before.debug.epoch_runtime,
            key,
            DebugEpochRuntimeModel {
                epoch: answer.epoch,
                command,
                expected: participants(before, key, active, command),
                acknowledgements: Seq::empty(),
                deadline: crate::artifact_registry::saturating(
                    now + before.debug_freeze_timeout_ms,
                ),
            },
        ),
        ..with_audit(before.debug, answer.audit_event)
    })
}

/// Some list of the active tasks of the process makes the epoch run.
pub open spec fn epoch_ran(
    before: CoordinatorServiceModel,
    after: CoordinatorServiceModel,
    key: ProcessText,
    actor: UserId,
    expected: Option<u64>,
    command: DebugCommand,
    all_stop: bool,
    active: Set<TaskText>,
    now: u64,
    answer: DebugEpoch,
) -> bool {
    exists|list: Seq<TaskText>| #[trigger]
        epoch_runs(
            before,
            after,
            key,
            actor,
            expected,
            command,
            all_stop,
            active,
            now,
            list,
            answer,
        )
}

/// What comes of stopping a process or having it go on.
pub open spec fn epoch_controlled(
    before: CoordinatorServiceModel,
    after: CoordinatorServiceModel,
    key: ProcessText,
    actor: UserId,
    stopped_task: Option<Seq<char>>,
    expected: Option<u64>,
    operation: Seq<char>,
    command: DebugCommand,
    all_stop: bool,
    reason: Seq<char>,
    active: Set<TaskText>,
    charge: DebugCharge,
    now: u64,
    r: Result<DebugEpoch, CoordinatorServiceError>,
) -> bool {
    let cause = attach_reason(before, key, actor);
    &&& debug_only(before, after)
    &&& if !cause.0 || charge.granted is Err {
        r matches Err(error) && debug_refused(
            before,
            after,
            key,
            stopped_task,
            actor,
            operation,
            if cause.0 {
                reason
            } else {
                cause.1
            },
            charge,
            error,
        )
    } else if epoch_refusal(before.debug, key, expected, now) is Some {
        &&& r matches Err(error)
        &&& error.protests(epoch_refusal(before.debug, key, expected, now)->Some_0)
        &&& is_audit(
            after.debug.audit_events.last(),
            key,
            stopped_task,
            actor@,
            operation,
            true,
            reason,
            charge.used_bytes,
        )
        &&& after.debug == with_audit(before.debug, after.debug.audit_events.last())
    } else {
        &&& r matches Ok(answer)
        &&& is_audit(
            answer.audit_event,
            key,
            stopped_task,
            actor@,
            operation,
            true,
            reason,
            charge.used_bytes,
        )
        &&& epoch_ran(
            before,
            after,
            key,
            actor,
            expected,
            command,
            all_stop,
            active,
            now,
            answer,
        )
    }
}

fn find_frozen(runtime: Option<&DebugEpochRuntime>) -> (r: OrderedSet<TaskControlKey>)
    ensures
        r@ == frozen(match runtime {
            Some(runtime) => Some(runtime@),
            None => None,
        }),
{
    let mut found: OrderedSet<TaskControlKey> = OrderedSet::new();
    match runtime {
        None => {
            assert(found@ =~= frozen(None));
        },
        Some(runtime) => {
            let ghost answers = runtime@.acknowledgements;
            let n: usize = runtime.acknowledgements.len();
            let mut i: usize = 0;
            while i < n
                invariant
                    n == answers.len(),
                    answers == runtime.acknowledgements@,
                    ascending(answers),
                    0 <= i <= n,
                    forall|task: TaskText| #[trigger]
                        found@.contains(task) <==> exists|j: int|
                            0 <= j < i && (#[trigger] answers[j]).0 == task && answers[j].1.state
                                == DebugAcknowledgementState::Frozen,
                decreases n - i,
            {
                let ghost earlier = found@;
                if runtime.acknowledgements.value_at(i).state == DebugAcknowledgementState::Frozen {
                    let key: TaskControlKey = runtime.acknowledgements.key_at(i).copy_key();
                    let _new: bool = found.insert(key);
                }
                assert forall|task: TaskText| #[trigger] found@.contains(task) <==> exists|j: int|
                    0 <= j < i + 1 && (#[trigger] answers[j]).0 == task && answers[j].1.state
                        == DebugAcknowledgementState::Frozen by {
                    if earlier.contains(task) {
                        let j = choose|j: int|
                            0 <= j < i && (#[trigger] answers[j]).0 == task && answers[j].1.state
                                == DebugAcknowledgementState::Frozen;
                        assert(answers[j].0 == task);
                    }
                    if found@.contains(task) && !earlier.contains(task) {
                        assert(answers[i as int].0 == task);
                    }
                }
                i = i + 1;
            }
            assert(found@ =~= frozen(Some(runtime@))) by {
                assert forall|task: TaskText| found@.contains(task) <==> frozen(
                    Some(runtime@),
                ).contains(task) by {
                    crate::ordered_map::lemma_lookup_found(answers, task);
                    if found@.contains(task) {
                        let j = choose|j: int|
                            0 <= j < n && (#[trigger] answers[j]).0 == task && answers[j].1.state
                                == DebugAcknowledgementState::Frozen;
                        crate::ordered_map::lemma_lookup_at(answers, j);
                    }
                    if frozen(Some(runtime@)).contains(task) {
                        let j = choose|j: int| crate::ordered_map::bound_at(answers, task, j);
                        crate::ordered_map::lemma_lookup_at(answers, j);
                        assert(answers[j].0 == task);
                    }
                }
            }
        },
    }
    found
}

fn check_all_answered(runtime: &DebugEpochRuntime) -> (r: bool)
    ensures
        r == all_answered(runtime@),
{
    let n: usize = runtime.expected.count();
    let ghost items = runtime.expected.items();
    let mut i: usize = 0;
    while i < n
        invariant
            n == items.len(),
            items == runtime.expected.items(),
            enumerates(items, runtime.expected@),
            0 <= i <= n,
            forall|j: int|
                0 <= j < i ==> lookup(runtime@.acknowledgements, #[trigger] items[j]) is Some,
        decreases n - i,
    {
        let key: &TaskControlKey = runtime.expected.item(i);
        if !runtime.acknowledgements.contains_key(key) {
            assert(runtime@.expected.contains(key.key()));
            return false;
        }
        i = i + 1;
    }
    assert forall|task: TaskText| #[trigger] runtime@.expected.contains(task) implies lookup(
        runtime@.acknowledgements,
        task,
    ) is Some by {
        assert(items.contains(task));
        let j = choose|j: int| 0 <= j < items.len() && items[j] == task;
        assert(lookup(runtime@.acknowledgements, items[j]) is Some);
    }
    true
}

impl CoordinatorService {
    /// Checks that an epoch can begin or go on.
    fn check_epoch(&self, key: &ProcessControlKey, expected_epoch: Option<u64>, now: u64) -> (r: Result<
        (),
        CoordinatorServiceError,
    >)
        ensures
            match epoch_refusal(self@.debug, key.key(), expected_epoch, now) {
                Some(reason) => r matches Err(error) && error.protests(reason),
                None => r is Ok,
            },
    {
        assert(key.key() == (key.0@, key.1@, key.2@));
        match expected_epoch {
            Some(expected) => {
                let number: String = decimal_text(expected);
                let head: String = concat4(
                    "cannot resume debug epoch ",
                    number.as_str(),
                    " for ",
                    key.2.as_str(),
                );
                let current: u64 = match self.debug_registry.epoch(key) {
                    Some(current) => current,
                    None => {
                        return Err(
                            CoordinatorServiceError::Protocol(
                                concat2(head.as_str(), ": no active debug epoch"),
                            ),
                        );
                    },
                };
                if current != expected {
                    let text: String = decimal_text(current);
                    return Err(
                        CoordinatorServiceError::Protocol(
                            concat3(head.as_str(), ": current debug epoch is ", text.as_str()),
                        ),
                    );
                }
                let runtime: &DebugEpochRuntime = match self.debug_registry.runtime(key) {
                    Some(runtime) => runtime,
                    None => {
                        return Err(
                            CoordinatorServiceError::Protocol(
                                concat2(head.as_str(), ": participant state is unavailable"),
                            ),
                        );
                    },
                };
                let stopped: OrderedSet<TaskControlKey> = find_frozen(Some(runtime));
                let settled: bool = check_all_answered(runtime) || now >= runtime.deadline;
                if runtime.command != DebugCommand::Freeze || stopped.is_empty() || !settled {
                    return Err(
                        CoordinatorServiceError::Protocol(
                            concat2(
                                head.as_str(),
                                ": no settled frozen participant set is available",
                            ),
                        ),
                    );
                }
                Ok(())
            },
            None => {
                match self.debug_registry.runtime(key) {
                    Some(runtime) => {
                        let complete: bool = runtime.command == DebugCommand::Resume
                            && runtime_all_in_state(runtime, DebugAcknowledgementState::Running);
                        if !complete {
                            let number: String = decimal_text(runtime.epoch);
                            return Err(
                                CoordinatorServiceError::Protocol(
                                    concat5(
                                        "cannot create a new debug epoch for ",
                                        key.2.as_str(),
                                        ": epoch ",
                                        number.as_str(),
                                        " has not fully resumed",
                                    ),
                                ),
                            );
                        }
                    },
                    None => {},
                }
                Ok(())
            },
        }
    }

    /// Queues a command for the given tasks.
    fn enqueue_debug_command(
        &mut self,
        tasks: &OrderedSet<TaskControlKey>,
        epoch: u64,
        command: DebugCommand,
    ) -> (r: Vec<TaskCancellationTarget>)
        ensures
            target_texts(r@) == listed_targets(tasks.items()),
            enumerates(tasks.items(), tasks@),
            final(self)@ == (CoordinatorServiceModel {
                debug: DebugRegistryModel {
                    commands: commands_with(
                        old(self)@.debug.commands,
                        tasks.items(),
                        DebugPendingCommand { epoch, command },
                    ),
                    ..old(self)@.debug
                },
                ..old(self)@
            }),
    {
        let ghost start = self@;
        let ghost list = tasks.items();
        let ghost pending = DebugPendingCommand { epoch, command };
        let n: usize = tasks.count();
        let mut targets: Vec<TaskCancellationTarget> = Vec::new();
        let mut i: usize = 0;
        assert(list.take(0) =~= Seq::empty());
        assert(target_texts(targets@) =~= listed_targets(list.take(0)));
        while i < n
            invariant
                n == list.len(),
                list == tasks.items(),
                pending == (DebugPendingCommand { epoch, command }),
                0 <= i <= n,
                target_texts(targets@) == listed_targets(list.take(i as int)),
                self@ == (CoordinatorServiceModel {
                    debug: DebugRegistryModel {
                        commands: commands_with(
                            start.debug.commands,
                            list.take(i as int),
                            pending,
                        ),
                        ..start.debug
                    },
                    ..start
                }),
            decreases n - i,
        {
            let task: &TaskControlKey = tasks.item(i);
            assert(task.key() == (task.0@, task.1@, task.2@, task.3@, task.4@));
            assert(list.take(i + 1).drop_last() =~= list.take(i as int));
            self.debug_registry.queue_command(
                task.copy_key(),
                DebugPendingCommand { epoch, command },
            );
            let ghost earlier = targets@;
            let target: TaskCancellationTarget = TaskCancellationTarget {
                process: task.2.clone(),
                node: task.3.clone(),
                task: task.4.clone(),
            };
            let ghost shown = target_text(target);
            targets.push(target);
            assert(target_texts(targets@) =~= target_texts(earlier).push(shown));
            assert(listed_targets(list.take(i + 1)) =~= listed_targets(list.take(i as int)).push(
                shown,
            ));
            i = i + 1;
        }
        assert(list.take(n as int) =~= list);
        targets
    }

    /// Stops a process or has it go on. `active_tasks` are those of all processes.
    pub fn handle_debug_epoch_control(
        &mut self,
        tenant: &TenantId,
        project: &ProjectId,
        actor: &UserId,
        process: &ProcessId,
        stopped_task: &Option<TaskInstanceId>,
        expected_epoch: Option<u64>,
        operation: &str,
        command: DebugCommand,
        all_stop_requested: bool,
        reason: &str,
        active_tasks: &OrderedSet<TaskControlKey>,
        charge: &DebugCharge,
        now: u64,
    ) -> (r: Result<DebugEpoch, CoordinatorServiceError>)
        requires
            expected_epoch is None ==> lookup(
                old(self)@.debug.epochs,
                (tenant@, project@, process@),
            ) != Some(u64::MAX),
        ensures
            epoch_controlled(
                old(self)@,
                final(self)@,
                (tenant@, project@, process@),
                *actor,
                option_view(*stopped_task),
                expected_epoch,
                operation@,
                command,
                all_stop_requested,
                reason@,
                active_tasks@,
                *charge,
                now,
                r,
            ),
    {
        let ghost before = self@;
        let audit_event: DebugAuditEvent = match self.grant_debug(
            tenant,
            project,
            process,
            stopped_task,
            actor,
            operation,
            Some(reason),
            charge,
        ) {
            Ok(event) => event,
            Err(error) => {
                return Err(error);
            },
        };
        let key: ProcessControlKey = process_control_key(tenant, project, process);
        let ghost place = key.key();
        assert(epoch_refusal(self@.debug, place, expected_epoch, now) == epoch_refusal(
            before.debug,
            place,
            expected_epoch,
            now,
        ));
        assert(self@.debug.audit_events.last() == audit_event);
        match self.check_epoch(&key, expected_epoch, now) {
            Ok(_) => {},
            Err(error) => {
                return Err(error);
            },
        }
        let epoch: u64 = match expected_epoch {
            Some(expected) => expected,
            None => {
                let next: u64 = match self.debug_registry.epoch(&key) {
                    Some(current) => current + 1,
                    None => 1,
                };
                self.debug_registry.set_epoch(key.copy_key(), next);
                next
            },
        };
        let resumable: OrderedSet<TaskControlKey> = find_frozen(self.debug_registry.runtime(&key));
        let ghost in_place = |task: TaskText| task_of(task, (tenant@, project@, process@));
        let of_process = |task: &TaskControlKey| -> (b: bool)
            ensures
                b == task_of(task.key(), (tenant@, project@, process@)),
        {
            assert(task.key() == (task.0@, task.1@, task.2@, task.3@, task.4@));
            text_eq(task.0.as_str(), tenant.as_str()) && text_eq(task.1.as_str(), project.as_str())
                && text_eq(task.2.as_str(), process.as_str())
        };
        let mut expected: OrderedSet<TaskControlKey> = active_tasks.select(
            of_process,
            Ghost(in_place),
        );
        assert(expected@ =~= active_in(active_tasks@, place));
        let ghost list = expected.items();
        let mut targets: Vec<TaskCancellationTarget> = self.enqueue_debug_command(
            &expected,
            epoch,
            command,
        );
        let mut main_told: bool = false;
        match self.main_runtime.controls.get(&key) {
            None => {},
            Some(control) => {
                let node: NodeId = "coordinator-main".to_owned();
                let main: TaskControlKey = task_control_key(
                    tenant,
                    project,
                    process,
                    &node,
                    &control.task_instance,
                );
                main_told = command == DebugCommand::Freeze || resumable.contains(&main);
                let target: TaskCancellationTarget = TaskCancellationTarget {
                    process: process.clone(),
                    node,
                    task: control.task_instance.clone(),
                };
                let _new: bool = expected.insert(main);
                let ghost earlier = targets@;
                let ghost shown = target_text(target);
                targets.push(target);
                assert(target_texts(targets@) =~= target_texts(earlier).push(shown));
            },
        }
        let ghost all = target_texts(targets@);
        assert(all =~= listed_targets(list) + match main_key(before, place) {
            Some(task) => seq![(task.2, task.3, task.4)],
            None => Seq::empty(),
        });
        let ghost whole = expected@;
        if command == DebugCommand::Resume {
            let ghost stays = |task: TaskText| resumable@.contains(task);
            let can_go_on = |task: &TaskControlKey| -> (b: bool)
                ensures
                    b == resumable@.contains(task.key()),
            { resumable.contains(task) };
            expected.retain(can_go_on, Ghost(stays));
            assert(expected@ =~= whole.intersect(resumable@));
            targets = keep_resumable(targets, &resumable);
            self.debug_registry.retain_resumable_commands(epoch, &resumable);
        }
        let runtime: DebugEpochRuntime = DebugEpochRuntime {
            epoch,
            command,
            expected,
            acknowledgements: OrderedMap::new(),
            deadline: now.saturating_add(self.debug_freeze_timeout_ms),
        };
        self.debug_registry.set_runtime(key, runtime);
        let answer: DebugEpoch = DebugEpoch {
            process: process.clone(),
            actor: actor.clone(),
            epoch,
            command,
            affected_tasks: targets,
            all_stop_requested,
            main_told,
            audit_event,
        };
        assert(epoch_runs(
            before,
            self@,
            place,
            *actor,
            expected_epoch,
            command,
            all_stop_requested,
            active_tasks@,
            now,
            list,
            answer,
        ));
        Ok(answer)
    }
}

/// Keeps the tasks that can go on.
fn keep_resumable(targets: Vec<TaskCancellationTarget>, resumable: &OrderedSet<TaskControlKey>) -> (r:
    Vec<TaskCancellationTarget>)
    ensures
        target_texts(r@) == target_texts(targets@).filter(goes_on(resumable@)),
{
    let ghost all = target_texts(targets@);
    let ghost p = goes_on(resumable@);
    let mut kept: Vec<TaskCancellationTarget> = Vec::new();
    assert(all.take(0).filter(p) =~= Seq::empty()) by {
        reveal(Seq::filter);
    }
    assert(target_texts(kept@) =~= all.take(0).filter(p));
    for target in it: targets
        invariant
            all == target_texts(it.seq()),
            p == goes_on(resumable@),
            target_texts(kept@) == all.take(it.index() as int).filter(p),
    {
        let ghost i = it.index() as int;
        let ghost earlier = kept@;
        let ghost shown = target_text(target);
        assert(all[i] == shown);
        proof {
            crate::ordered_map::lemma_filter_step(all, p, i);
        }
        let ghost q = |task: TaskText| task.3 == target.node@ && task.4 == target.task@;
        let test = |task: &TaskControlKey| -> (b: bool)
            ensures
                b == (task.key().3 == target.node@ && task.key().4 == target.task@),
        {
            assert(task.key() == (task.0@, task.1@, task.2@, task.3@, task.4@));
            text_eq(task.3.as_str(), target.node.as_str()) && text_eq(
                task.4.as_str(),
                target.task.as_str(),
            )
        };
        let found: OrderedSet<TaskControlKey> = resumable.select(test, Ghost(q));
        let fits: bool = !found.is_empty();
        assert(fits == p(shown)) by {
            if fits {
                let task = choose|task: TaskText| found@.contains(task);
                assert(found@ != Set::<TaskText>::empty());
                if forall|task: TaskText| !found@.contains(task) {
                    assert(found@ =~= Set::empty());
                }
                assert(found@.contains(task));
                assert(resumable@.contains(task));
            }
            if p(shown) {
                let task = choose|task: TaskText| #[trigger]
                    resumable@.contains(task) && task.3 == shown.1 && task.4 == shown.2;
                assert(found@.contains(task));
            }
        }
        if fits {
            kept.push(target);
            assert(target_texts(kept@) =~= target_texts(earlier).push(shown));
        }
    }
    assert(all.take(all.len() as int) =~= all);
    kept
}

/// Whether a node may act for a process.
pub open spec fn node_acts(s: CoordinatorServiceModel, key: ProcessText, node: Seq<char>) -> bool {
    &&& lookup(s.coordinator.durable.node_identities, (key.0, key.1, node)) is Some
    &&& lookup(s.coordinator.active_processes, key) is Some
}

/// The refusal of a node that may not act for a process.
pub open spec fn node_refused(
    s: CoordinatorServiceModel,
    key: ProcessText,
    node: Seq<char>,
    error: CoordinatorServiceError,
) -> bool {
    if lookup(s.coordinator.durable.node_identities, (key.0, key.1, node)) is None {
        error matches CoordinatorServiceError::Coordinator(CoordinatorError::UnknownNode)
    } else {
        error.denies("virtual process is not active in coordinator memory"@)
    }
}

/// The answer of a task to a command.
pub open spec fn is_answer(
    answer: DebugParticipantAcknowledgementModel,
    task: TaskText,
    task_definition: Seq<char>,
    epoch: u64,
    state: DebugAcknowledgementState,
    snapshot: DebugSnapshot,
) -> bool {
    &&& answer.node@ == task.3
    &&& answer.task_definition@ == task_definition
    &&& answer.task@ == task.4
    &&& answer.epoch == epoch
    &&& answer.state == state
    &&& answer.current_source_location == snapshot.current_source_location
    &&& answer.stack_frames == snapshot.stack_frames@
    &&& answer.local_values == snapshot.local_values@
    &&& answer.task_args == snapshot.task_args@
    &&& answer.handles == snapshot.handles@
    &&& answer.command_status == snapshot.command_status
    &&& answer.recent_output == snapshot.recent_output@
    &&& answer.message == snapshot.message
}

/// The answer of a task is recorded, or refused.
pub open spec fn answer_recorded(
    before: CoordinatorServiceModel,
    after: CoordinatorServiceModel,
    key: ProcessText,
    task: TaskText,
    task_definition: Seq<char>,
    epoch: u64,
    state: DebugAcknowledgementState,
    snapshot: DebugSnapshot,
    r: Result<(), CoordinatorServiceError>,
) -> bool {
    exists|answer: DebugParticipantAcknowledgementModel| #[trigger]
        is_answer(answer, task, task_definition, epoch, state, snapshot) && acknowledged(
            before.debug,
            after.debug,
            key,
            task,
            key.2,
            answer,
            r,
        )
}

/// What comes of the answer of a task to a command.
pub open spec fn state_reported(
    before: CoordinatorServiceModel,
    after: CoordinatorServiceModel,
    key: ProcessText,
    task: TaskText,
    task_definition: Option<Seq<char>>,
    epoch: u64,
    state: DebugAcknowledgementState,
    snapshot: DebugSnapshot,
    r: Result<(), CoordinatorServiceError>,
) -> bool {
    let runtime = lookup(before.debug.epoch_runtime, key);
    &&& debug_only(before, after)
    &&& if snapshot_refusal(snapshot) is Some {
        after == before && (r matches Err(error) && error.protests(
            snapshot_refusal(snapshot)->Some_0,
        ))
    } else if !node_acts(before, key, task.3) {
        after == before && (r matches Err(error) && node_refused(before, key, task.3, error))
    } else if acknowledgement_refusal(runtime, task, key.2, epoch) is Some {
        after == before && refuses(r, acknowledgement_refusal(runtime, task, key.2, epoch)->Some_0)
    } else if task_definition is None {
        after == before && (r matches Err(error) && error.denies(
            "debug acknowledgement does not name a coordinator-issued task instance"@,
        ))
    } else {
        answer_recorded(
            before,
            after,
            key,
            task,
            task_definition->Some_0,
            epoch,
            state,
            snapshot,
            r,
        )
    }
}

/// Whether a probe that was hit stops a process, and in which epoch.
pub struct DebugProbeHit {
    pub probe_symbol: String,
    pub breakpoint_matched: bool,
    pub debug_epoch: Option<u64>,
}

/// Whether a process has a breakpoint on a probe.
pub open spec fn has_breakpoint(s: DebugRegistryModel, key: ProcessText, symbol: Seq<char>) -> bool {
    lookup(s.breakpoints, key) matches Some(plan) && plan.probe_symbols.contains(symbol)
}

/// A probe with a breakpoint was hit: the process stops, and the plan says where.
pub open spec fn probe_stopped(
    before: CoordinatorServiceModel,
    after: CoordinatorServiceModel,
    middle: CoordinatorServiceModel,
    controlled: Result<DebugEpoch, CoordinatorServiceError>,
    key: ProcessText,
    task: Seq<char>,
    symbol: Seq<char>,
    reason: Seq<char>,
    active: Set<TaskText>,
    charge: DebugCharge,
    now: u64,
    r: Result<DebugProbeHit, CoordinatorServiceError>,
) -> bool {
    &&& lookup(before.debug.breakpoints, key) matches Some(plan)
    &&& epoch_controlled(
        before,
        middle,
        key,
        plan.actor,
        Some(task),
        None,
        "wasm_debug_probe_hit"@,
        DebugCommand::Freeze,
        true,
        reason,
        active,
        charge,
        now,
        controlled,
    )
    &&& match controlled {
        Err(fault) => r == Err::<DebugProbeHit, CoordinatorServiceError>(fault) && after == middle,
        Ok(epoch) => {
            &&& r matches Ok(hit)
            &&& hit.probe_symbol@ == symbol
            &&& hit.breakpoint_matched
            &&& hit.debug_epoch == Some(epoch.epoch)
            &&& lookup(after.debug.breakpoints, key) matches Some(marked)
            &&& marked.hit_epoch == Some(epoch.epoch)
            &&& option_view(marked.hit_task) == Some(task)
            &&& option_view(marked.hit_probe_symbol) == Some(symbol)
            &&& after == (CoordinatorServiceModel {
                debug: breakpoint_hit(
                    middle.debug,
                    key,
                    epoch.epoch,
                    marked.hit_task->Some_0,
                    marked.hit_probe_symbol->Some_0,
                ),
                ..middle
            })
        },
    }
}

/// Some epoch makes the process stop at the probe, or is refused.
pub open spec fn probe_stops(
    before: CoordinatorServiceModel,
    after: CoordinatorServiceModel,
    key: ProcessText,
    task: Seq<char>,
    symbol: Seq<char>,
    reason: Seq<char>,
    active: Set<TaskText>,
    charge: DebugCharge,
    now: u64,
    r: Result<DebugProbeHit, CoordinatorServiceError>,
) -> bool {
    exists|middle: CoordinatorServiceModel, controlled: Result<DebugEpoch, CoordinatorServiceError>|
        #[trigger]
        probe_stopped(
            before,
            after,
            middle,
            controlled,
            key,
            task,
            symbol,
            reason,
            active,
            charge,
            now,
            r,
        )
}

/// A probe without a breakpoint changes nothing.
pub open spec fn probe_passed(symbol: Seq<char>, r: Result<DebugProbeHit, CoordinatorServiceError>) -> bool {
    &&& r matches Ok(hit)
    &&& hit.probe_symbol@ == symbol
    &&& !hit.breakpoint_matched
    &&& hit.debug_epoch is None
}

/// What comes of a probe that a task has hit.
pub open spec fn probe_reported(
    before: CoordinatorServiceModel,
    after: CoordinatorServiceModel,
    key: ProcessText,
    task: TaskText,
    symbol: Seq<char>,
    active: Set<TaskText>,
    charge: DebugCharge,
    now: u64,
    r: Result<DebugProbeHit, CoordinatorServiceError>,
) -> bool {
    if !is_probe_symbol(symbol) {
        after == before && (r matches Err(error) && error.protests(
            "debug breakpoint probe symbol is invalid"@,
        ))
    } else if !node_acts(before, key, task.3) {
        after == before && (r matches Err(error) && node_refused(before, key, task.3, error))
    } else if !active.contains(task) {
        after == before && (r matches Err(error) && error.denies(
            "debug probe hit is not from an active task participant"@,
        ))
    } else if !has_breakpoint(before.debug, key, symbol) {
        after == before && probe_passed(symbol, r)
    } else {
        probe_stops(
            before,
            after,
            key,
            task.4,
            symbol,
            "executing Wasm reached probe `"@ + symbol + "`"@,
            active,
            charge,
            now,
            r,
        )
    }
}

/// The service in which a coordinator main has stopped at a probe.
pub open spec fn main_stopped_at(
    before: CoordinatorServiceModel,
    after: CoordinatorServiceModel,
    key: ProcessText,
    symbol: Seq<char>,
) -> bool {
    &&& lookup(before.mains.controls, key) matches Some(control)
    &&& lookup(after.mains.controls, key) matches Some(stopped)
    &&& option_view(stopped.stopped_probe_symbol) == Some(symbol)
    &&& after == (CoordinatorServiceModel {
        mains: CoordinatorMainRuntimeModel {
            controls: put(
                before.mains.controls,
                key,
                CoordinatorMainControlModel {
                    stopped_probe_symbol: stopped.stopped_probe_symbol,
                    ..control
                },
            ),
            ..before.mains
        },
        ..before
    })
}

/// A coordinator main stops at a probe, or the epoch in which it would is refused.
pub open spec fn main_probe_stops(
    before: CoordinatorServiceModel,
    after: CoordinatorServiceModel,
    key: ProcessText,
    task: Seq<char>,
    symbol: Seq<char>,
    active: Set<TaskText>,
    charge: DebugCharge,
    now: u64,
    r: Result<DebugProbeHit, CoordinatorServiceError>,
) -> bool {
    exists|marked: CoordinatorServiceModel| #[trigger]
        main_stopped_at(before, marked, key, symbol) && probe_stops(
            marked,
            after,
            key,
            task,
            symbol,
            "coordinator main reached probe `"@ + symbol + "`"@,
            active,
            charge,
            now,
            r,
        )
}

/// What comes of a probe that a coordinator main has hit.
pub open spec fn main_probe_reported(
    before: CoordinatorServiceModel,
    after: CoordinatorServiceModel,
    key: ProcessText,
    task: Seq<char>,
    symbol: Seq<char>,
    active: Set<TaskText>,
    charge: DebugCharge,
    now: u64,
    r: Result<DebugProbeHit, CoordinatorServiceError>,
) -> bool {
    let control = lookup(before.mains.controls, key);
    if !is_probe_symbol(symbol) {
        after == before && (r matches Err(error) && error.protests(
            "debug breakpoint probe symbol is invalid"@,
        ))
    } else if control is None || control->Some_0.task_instance@ != task {
        after == before && (r matches Err(error) && error.denies(
            "debug probe does not belong to the active coordinator main participant"@,
        ))
    } else if !has_breakpoint(before.debug, key, symbol) {
        after == before && probe_passed(symbol, r)
    } else {
        main_probe_stops(before, after, key, task, symbol, active, charge, now, r)
    }
}

fn check_probe_symbol(symbol: &String) -> (r: Result<(), CoordinatorServiceError>)
    ensures
        is_probe_symbol(symbol@) ==> r is Ok,
        !is_probe_symbol(symbol@) ==> (r matches Err(error) && error.protests(
            "debug breakpoint probe symbol is invalid"@,
        )),
{
    let mut items: Vec<String> = Vec::new();
    items.push(symbol.clone());
    let list: TextList = TextList { items };
    assert(list@[0] == symbol@);
    assert(are_probe_symbols(list@) <==> is_probe_symbol(symbol@));
    match validate_probe_symbols(list) {
        Ok(_) => Ok(()),
        Err(error) => Err(error),
    }
}

/// What a node that asks for the next command of a task comes to.
pub open spec fn command_polled(
    before: CoordinatorServiceModel,
    after: CoordinatorServiceModel,
    tenant: TenantId,
    project: ProjectId,
    process: ProcessId,
    node: NodeId,
    task: TaskInstanceId,
    r: Result<Option<DebugPendingCommand>, CoordinatorServiceError>,
) -> bool {
    let key = (tenant@, project@, process@);
    let place = (tenant@, project@, process@, node@, task@);
    if node_acts(before, key, node@) {
        &&& r matches Ok(command)
        &&& option_view(command) == lookup(before.debug.commands, place)
        &&& after == (CoordinatorServiceModel {
            debug: DebugRegistryModel {
                commands: crate::ordered_map::delete(before.debug.commands, place),
                ..before.debug
            },
            ..before
        })
    } else {
        &&& r matches Err(error)
        &&& node_refused(before, key, node@, error)
        &&& after == before
    }
}

impl CoordinatorService {
    /// Stops a process.
    pub fn handle_create_debug_epoch(
        &mut self,
        tenant: &TenantId,
        project: &ProjectId,
        actor: &UserId,
        process: &ProcessId,
        stopped_task: TaskInstanceId,
        reason: &str,
        active_tasks: &OrderedSet<TaskControlKey>,
        charge: &DebugCharge,
        now: u64,
    ) -> (r: Result<DebugEpoch, CoordinatorServiceError>)
        requires
            lookup(old(self)@.debug.epochs, (tenant@, project@, process@)) != Some(u64::MAX),
        ensures
            epoch_controlled(
                old(self)@,
                final(self)@,
                (tenant@, project@, process@),
                *actor,
                Some(stopped_task@),
                None,
                "create_debug_epoch"@,
                DebugCommand::Freeze,
                true,
                reason@,
                active_tasks@,
                *charge,
                now,
                r,
            ),
    {
        self.handle_debug_epoch_control(
            tenant,
            project,
            actor,
            process,
            &Some(stopped_task),
            None,
            "create_debug_epoch",
            DebugCommand::Freeze,
            true,
            reason,
            active_tasks,
            charge,
            now,
        )
    }

    /// Has a process go on.
    pub fn handle_resume_debug_epoch(
        &mut self,
        tenant: &TenantId,
        project: &ProjectId,
        actor: &UserId,
        process: &ProcessId,
        epoch: u64,
        active_tasks: &OrderedSet<TaskControlKey>,
        charge: &DebugCharge,
        now: u64,
    ) -> (r: Result<DebugEpoch, CoordinatorServiceError>)
        ensures
            epoch_controlled(
                old(self)@,
                final(self)@,
                (tenant@, project@, process@),
                *actor,
                None,
                Some(epoch),
                "resume_debug_epoch"@,
                DebugCommand::Resume,
                false,
                "continue requested by debugger"@,
                active_tasks@,
                *charge,
                now,
                r,
            ),
    {
        self.handle_debug_epoch_control(
            tenant,
            project,
            actor,
            process,
            &None,
            Some(epoch),
            "resume_debug_epoch",
            DebugCommand::Resume,
            false,
            "continue requested by debugger",
            active_tasks,
            charge,
            now,
        )
    }

    /// Hands the pending command of a task to its node.
    pub fn handle_poll_debug_command(
        &mut self,
        tenant: &TenantId,
        project: &ProjectId,
        process: &ProcessId,
        node: &NodeId,
        task: &TaskInstanceId,
    ) -> (r: Result<Option<DebugPendingCommand>, CoordinatorServiceError>)
        ensures
            command_polled(
                old(self)@,
                final(self)@,
                *tenant,
                *project,
                *process,
                *node,
                *task,
                r,
            ),
    {
        match self.coordinator.authorize_node_for_process(node, tenant, project, process) {
            Ok(_) => {},
            Err(error) => {
                return Err(CoordinatorServiceError::Coordinator(error));
            },
        }
        let key: TaskControlKey = task_control_key(tenant, project, process, node, task);
        Ok(self.debug_registry.take_command(&key))
    }

    /// Takes the answer of a task to a command. `task_definition` is that of the task, where the
    /// coordinator has issued it.
    pub fn handle_report_debug_state(
        &mut self,
        tenant: &TenantId,
        project: &ProjectId,
        process: &ProcessId,
        node: &NodeId,
        task: &TaskInstanceId,
        epoch: u64,
        state: DebugAcknowledgementState,
        snapshot: DebugSnapshot,
        task_definition: Option<TaskDefinitionId>,
    ) -> (r: Result<(), CoordinatorServiceError>)
        ensures
            state_reported(
                old(self)@,
                final(self)@,
                (tenant@, project@, process@),
                (tenant@, project@, process@, node@, task@),
                option_view(task_definition),
                epoch,
                state,
                snapshot,
                r,
            ),
    {
        let ghost given = snapshot;
        match validate_debug_snapshot(&snapshot) {
            Ok(_) => {},
            Err(error) => {
                return Err(error);
            },
        }
        match self.coordinator.authorize_node_for_process(node, tenant, project, process) {
            Ok(_) => {},
            Err(error) => {
                return Err(CoordinatorServiceError::Coordinator(error));
            },
        }
        let participant: TaskControlKey = task_control_key(tenant, project, process, node, task);
        let key: ProcessControlKey = process_control_key(tenant, project, process);
        match self.debug_registry.validate_acknowledgement_source(
            &key,
            &participant,
            process,
            epoch,
        ) {
            Ok(_) => {},
            Err(error) => {
                return Err(error);
            },
        }
        let definition: TaskDefinitionId = match task_definition {
            Some(definition) => definition,
            None => {
                return Err(
                    unauthorized(
                        "debug acknowledgement does not name a coordinator-issued task instance",
                    ),
                );
            },
        };
        let answer: DebugParticipantAcknowledgement = DebugParticipantAcknowledgement {
            node: node.clone(),
            task_definition: definition,
            task: task.clone(),
            epoch,
            state,
            current_source_location: snapshot.current_source_location,
            stack_frames: snapshot.stack_frames,
            local_values: snapshot.local_values,
            task_args: snapshot.task_args,
            handles: snapshot.handles,
            command_status: snapshot.command_status,
            recent_output: snapshot.recent_output,
            message: snapshot.message,
        };
        assert(views(answer.local_values@) =~= answer.local_values@);
        assert(views(answer.task_args@) =~= answer.task_args@);
        assert(views(answer.handles@) =~= answer.handles@);
        assert(is_answer(
            answer@,
            (tenant@, project@, process@, node@, task@),
            definition@,
            epoch,
            state,
            given,
        ));
        self.debug_registry.record_acknowledgement(&key, participant, process, answer)
    }

    /// Stops a process at a probe with a breakpoint.
    fn stop_at_probe(
        &mut self,
        tenant: &TenantId,
        project: &ProjectId,
        process: &ProcessId,
        actor: &UserId,
        task: &TaskInstanceId,
        probe_symbol: String,
        reason: &str,
        active_tasks: &OrderedSet<TaskControlKey>,
        charge: &DebugCharge,
        now: u64,
    ) -> (r: Result<DebugProbeHit, CoordinatorServiceError>)
        requires
            lookup(old(self)@.debug.epochs, (tenant@, project@, process@)) != Some(u64::MAX),
            lookup(old(self)@.debug.breakpoints, (tenant@, project@, process@)) is Some,
            lookup(
                old(self)@.debug.breakpoints,
                (tenant@, project@, process@),
            )->Some_0.actor == *actor,
        ensures
            probe_stops(
                old(self)@,
                final(self)@,
                (tenant@, project@, process@),
                task@,
                probe_symbol@,
                reason@,
                active_tasks@,
                *charge,
                now,
                r,
            ),
    {
        broadcast use lemma_lookup_put;

        let ghost before = self@;
        let ghost place = (tenant@, project@, process@);
        let controlled: Result<DebugEpoch, CoordinatorServiceError> =
            self.handle_debug_epoch_control(
            tenant,
            project,
            actor,
            process,
            &Some(task.clone()),
            None,
            "wasm_debug_probe_hit",
            DebugCommand::Freeze,
            true,
            reason,
            active_tasks,
            charge,
            now,
        );
        let ghost middle = self@;
        let ghost known = controlled;
        match controlled {
            Err(error) => {
                let r: Result<DebugProbeHit, CoordinatorServiceError> = Err(error);
                assert(probe_stopped(
                    before,
                    self@,
                    middle,
                    known,
                    place,
                    task@,
                    probe_symbol@,
                    reason@,
                    active_tasks@,
                    *charge,
                    now,
                    r,
                ));
                r
            },
            Ok(epoch) => {
                let key: ProcessControlKey = process_control_key(tenant, project, process);
                proof {
                    use_type_invariant(&self.debug_registry.breakpoints);
                }
                let text: String = probe_symbol.clone();
                self.debug_registry.record_breakpoint_hit(
                    &key,
                    epoch.epoch,
                    task.clone(),
                    probe_symbol,
                );
                let r: Result<DebugProbeHit, CoordinatorServiceError> = Ok(
                    DebugProbeHit {
                        probe_symbol: text,
                        breakpoint_matched: true,
                        debug_epoch: Some(epoch.epoch),
                    },
                );
                assert(probe_stopped(
                    before,
                    self@,
                    middle,
                    known,
                    place,
                    task@,
                    text@,
                    reason@,
                    active_tasks@,
                    *charge,
                    now,
                    r,
                ));
                r
            },
        }
    }

    /// The user who set a breakpoint on a probe of a process, where one is set.
    fn breakpoint_owner(&self, key: &ProcessControlKey, symbol: &String) -> (r: Option<UserId>)
        ensures
            r is Some <==> has_breakpoint(self@.debug, key.key(), symbol@),
            r matches Some(actor) ==> lookup(self@.debug.breakpoints, key.key())->Some_0.actor
                == actor,
    {
        match self.debug_registry.breakpoint(key) {
            Some(plan) => {
                assert(symbol.key() == symbol@);
                if plan.probe_symbols.contains(symbol) {
                    Some(plan.actor.clone())
                } else {
                    None
                }
            },
            None => None,
        }
    }

    /// Takes the report of a probe that a task has hit.
    pub fn handle_report_debug_probe_hit(
        &mut self,
        tenant: &TenantId,
        project: &ProjectId,
        process: &ProcessId,
        node: &NodeId,
        task: &TaskInstanceId,
        probe_symbol: String,
        active_tasks: &OrderedSet<TaskControlKey>,
        charge: &DebugCharge,
        now: u64,
    ) -> (r: Result<DebugProbeHit, CoordinatorServiceError>)
        requires
            lookup(old(self)@.debug.epochs, (tenant@, project@, process@)) != Some(u64::MAX),
        ensures
            probe_reported(
                old(self)@,
                final(self)@,
                (tenant@, project@, process@),
                (tenant@, project@, process@, node@, task@),
                probe_symbol@,
                active_tasks@,
                *charge,
                now,
                r,
            ),
    {
        match check_probe_symbol(&probe_symbol) {
            Ok(_) => {},
            Err(error) => {
                return Err(error);
            },
        }
        match self.coordinator.authorize_node_for_process(node, tenant, project, process) {
            Ok(_) => {},
            Err(error) => {
                return Err(CoordinatorServiceError::Coordinator(error));
            },
        }
        let participant: TaskControlKey = task_control_key(tenant, project, process, node, task);
        if !active_tasks.contains(&participant) {
            return Err(unauthorized("debug probe hit is not from an active task participant"));
        }
        let key: ProcessControlKey = process_control_key(tenant, project, process);
        match self.breakpoint_owner(&key, &probe_symbol) {
            None => Ok(
                DebugProbeHit { probe_symbol, breakpoint_matched: false, debug_epoch: None },
            ),
            Some(actor) => {
                let reason: String = concat3(
                    "executing Wasm reached probe `",
                    probe_symbol.as_str(),
                    "`",
                );
                self.stop_at_probe(
                    tenant,
                    project,
                    process,
                    &actor,
                    task,
                    probe_symbol,
                    reason.as_str(),
                    active_tasks,
                    charge,
                    now,
                )
            },
        }
    }

    /// Takes the report of a probe that a coordinator main has hit.
    pub fn handle_coordinator_main_debug_probe(
        &mut self,
        tenant: &TenantId,
        project: &ProjectId,
        process: &ProcessId,
        task: &TaskInstanceId,
        probe_symbol: String,
        active_tasks: &OrderedSet<TaskControlKey>,
        charge: &DebugCharge,
        now: u64,
    ) -> (r: Result<DebugProbeHit, CoordinatorServiceError>)
        requires
            lookup(old(self)@.debug.epochs, (tenant@, project@, process@)) != Some(u64::MAX),
        ensures
            main_probe_reported(
                old(self)@,
                final(self)@,
                (tenant@, project@, process@),
                task@,
                probe_symbol@,
                active_tasks@,
                *charge,
                now,
                r,
            ),
    {
        broadcast use lemma_put_delete, lemma_lookup_put;

        let ghost before = self@;
        let ghost place = (tenant@, project@, process@);
        match check_probe_symbol(&probe_symbol) {
            Ok(_) => {},
            Err(error) => {
                return Err(error);
            },
        }
        let key: ProcessControlKey = process_control_key(tenant, project, process);
        let main_matches: bool = match self.main_runtime.controls.get(&key) {
            Some(control) => text_eq(control.task_instance.as_str(), task.as_str()),
            None => false,
        };
        if !main_matches {
            return Err(
                unauthorized(
                    "debug probe does not belong to the active coordinator main participant",
                ),
            );
        }
        let actor: UserId = match self.breakpoint_owner(&key, &probe_symbol) {
            None => {
                return Ok(
                    DebugProbeHit { probe_symbol, breakpoint_matched: false, debug_epoch: None },
                );
            },
            Some(actor) => actor,
        };
        match self.main_runtime.controls.remove(&key) {
            None => {},
            Some(found) => {
                let mut control: CoordinatorMainControl = found;
                control.stopped_probe_symbol = Some(probe_symbol.clone());
                self.main_runtime.controls.insert(key.copy_key(), control);
            },
        }
        assert(main_stopped_at(before, self@, place, probe_symbol@));
        let reason: String = concat3("coordinator main reached probe `", probe_symbol.as_str(), "`");
        self.stop_at_probe(
            tenant,
            project,
            process,
            &actor,
            task,
            probe_symbol,
            reason.as_str(),
            active_tasks,
            charge,
            now,
        )
    }
}

/// What a main that is debugged has come to, where it has come to anything.
pub open spec fn main_state(runtime: DebugEpochRuntimeModel, epoch: u64, view: MainDebugView) -> Option<
    DebugAcknowledgementState,
> {
    if runtime.command == DebugCommand::Freeze && view.frozen_epoch == Some(epoch) {
        Some(DebugAcknowledgementState::Frozen)
    } else if runtime.command == DebugCommand::Resume && view.resume_requested && view.frozen_epoch
        != Some(epoch) {
        Some(DebugAcknowledgementState::Running)
    } else {
        None
    }
}

/// The children of a main in words, by their names.
pub open spec fn handle_lines(handles: Seq<(u64, MainHandle)>) -> Seq<(Seq<char>, Seq<char>)>
    decreases handles.len(),
{
    if handles.len() == 0 {
        Seq::empty()
    } else {
        put(
            handle_lines(handles.drop_last()),
            "task_handle_"@ + decimal(handles.last().0 as nat),
            "definition="@ + handles.last().1.task_definition@ + " instance="@
                + handles.last().1.task_instance@ + " state=active"@,
        )
    }
}

/// Names and values as texts.
pub open spec fn pair_texts(pairs: Seq<NamedValue>) -> Seq<(Seq<char>, Seq<char>)> {
    pairs.map_values(|pair: NamedValue| (pair.name@, pair.value@))
}

/// The frames of a main that has stopped at a probe.
pub open spec fn main_frames(symbol: Option<Seq<char>>) -> Seq<Seq<char>> {
    match symbol {
        Some(symbol) => if starts_with(symbol, "clusterflux.probe."@) {
            seq![symbol.skip(18) + "::wasm"@]
        } else {
            Seq::empty()
        },
        None => Seq::empty(),
    }
}

/// The answer of a main that is debugged.
pub open spec fn is_main_answer(
    answer: DebugParticipantAcknowledgementModel,
    control: CoordinatorMainControlModel,
    epoch: u64,
    state: DebugAcknowledgementState,
    view: MainDebugView,
) -> bool {
    &&& answer.node@ == main_node()
    &&& answer.task_definition@ == control.task_definition@
    &&& answer.task@ == control.task_instance@
    &&& answer.epoch == epoch
    &&& answer.state == state
    &&& answer.current_source_location == view.current_source_location
    &&& answer.stack_frames == main_frames(option_view(control.stopped_probe_symbol))
    &&& answer.local_values.len() == 0
    &&& answer.task_args.len() == 0
    &&& pair_texts(answer.handles) == handle_lines(control.handles)
    &&& answer.command_status is None
    &&& answer.recent_output
        == seq!["coordinator-hosted capless main acknowledged all-stop control"@]
    &&& answer.message is None
}

/// What is done about a main that is debugged: what it has come to counts as its answer.
pub open spec fn main_synced(
    before: CoordinatorServiceModel,
    after: CoordinatorServiceModel,
    key: ProcessText,
    epoch: u64,
    view: MainDebugView,
) -> bool {
    let control = lookup(before.mains.controls, key);
    let runtime = lookup(before.debug.epoch_runtime, key);
    if control is Some && runtime is Some && runtime->Some_0.epoch == epoch && main_state(
        runtime->Some_0,
        epoch,
        view,
    ) is Some && runtime->Some_0.expected.contains(main_key(before, key)->Some_0) {
        main_answered(before, after, key, epoch, view)
    } else {
        after == before
    }
}

/// The answer of a main is recorded.
pub open spec fn main_answered(
    before: CoordinatorServiceModel,
    after: CoordinatorServiceModel,
    key: ProcessText,
    epoch: u64,
    view: MainDebugView,
) -> bool {
    let control = lookup(before.mains.controls, key)->Some_0;
    let runtime = lookup(before.debug.epoch_runtime, key)->Some_0;
    exists|answer: DebugParticipantAcknowledgementModel| #[trigger]
        is_main_answer(
            answer,
            control,
            epoch,
            main_state(runtime, epoch, view)->Some_0,
            view,
        ) && after == (CoordinatorServiceModel {
            debug: DebugRegistryModel {
                epoch_runtime: put(
                    before.debug.epoch_runtime,
                    key,
                    DebugEpochRuntimeModel {
                        acknowledgements: put(
                            runtime.acknowledgements,
                            main_key(before, key)->Some_0,
                            answer,
                        ),
                        ..runtime
                    },
                ),
                ..before.debug
            },
            ..before
        })
}

fn describe_handles(handles: &OrderedMap<u64, MainHandle>) -> (r: Vec<NamedValue>)
    ensures
        pair_texts(r@) == handle_lines(handles@),
{
    let ghost all = handles@;
    let n: usize = handles.len();
    let mut lines: OrderedMap<String, String> = OrderedMap::new();
    let mut i: usize = 0;
    assert(all.take(0) =~= Seq::empty());
    while i < n
        invariant
            n == all.len(),
            all == handles@,
            0 <= i <= n,
            lines@ == handle_lines(all.take(i as int)),
        decreases n - i,
    {
        assert(all.take(i + 1).drop_last() =~= all.take(i as int));
        let id: u64 = *handles.key_at(i);
        let handle: &MainHandle = handles.value_at(i);
        assert(id == all[i as int].0);
        let number: String = decimal_text(id);
        let name: String = concat2("task_handle_", number.as_str());
        let value: String = concat5(
            "definition=",
            handle.task_definition.as_str(),
            " instance=",
            handle.task_instance.as_str(),
            " state=active",
        );
        assert(name.key() == name@);
        lines.insert(name, value);
        i = i + 1;
    }
    assert(all.take(n as int) =~= all);
    let m: usize = lines.len();
    let mut out: Vec<NamedValue> = Vec::new();
    let mut j: usize = 0;
    assert(pair_texts(out@) =~= lines@.take(0));
    while j < m
        invariant
            m == lines@.len(),
            0 <= j <= m,
            pair_texts(out@) == lines@.take(j as int),
        decreases m - j,
    {
        let name: &String = lines.key_at(j);
        let value: &String = lines.value_at(j);
        assert(name.key() == name@);
        let ghost earlier = out@;
        let pair: NamedValue = NamedValue { name: name.clone(), value: value.clone() };
        out.push(pair);
        assert(pair_texts(out@) =~= pair_texts(earlier).push(lines@[j as int]));
        assert(lines@.take(j + 1) =~= lines@.take(j as int).push(lines@[j as int]));
        j = j + 1;
    }
    assert(lines@.take(m as int) =~= lines@);
    out
}

fn describe_frames(symbol: &Option<String>) -> (r: TextList)
    ensures
        r@ == main_frames(option_view(*symbol)),
{
    let mut items: Vec<String> = Vec::new();
    match symbol {
        Some(symbol) => {
            let chars: Vec<char> = chars_of(symbol.as_str());
            let prefix: Vec<char> = chars_of("clusterflux.probe.");
            proof {
                reveal_strlit("clusterflux.probe.");
            }
            if begins_with(&chars, &prefix) {
                let rest: Vec<char> = part(&chars, 18, chars.len());
                assert(rest@ =~= symbol@.skip(18));
                let function: String = text_of(&rest);
                items.push(concat2(function.as_str(), "::wasm"));
            }
        },
        None => {},
    }
    let list: TextList = TextList { items };
    assert(list@ =~= main_frames(option_view(*symbol)));
    list
}

impl CoordinatorService {
    /// Takes what the coordinator main of a process has come to as its answer in an epoch.
    pub fn sync_coordinator_main_debug_acknowledgement(
        &mut self,
        key: &ProcessControlKey,
        epoch: u64,
        view: &MainDebugView,
    )
        ensures
            main_synced(old(self)@, final(self)@, key.key(), epoch, *view),
    {
        broadcast use lemma_put_delete;

        let ghost before = self@;
        assert(key.key() == (key.0@, key.1@, key.2@));
        let control: &CoordinatorMainControl = match self.main_runtime.controls.get(key) {
            Some(control) => control,
            None => {
                return ;
            },
        };
        let runtime: &DebugEpochRuntime = match self.debug_registry.runtime(key) {
            Some(runtime) => runtime,
            None => {
                return ;
            },
        };
        if runtime.epoch != epoch {
            return ;
        }
        let stopped_here: bool = match view.frozen_epoch {
            Some(frozen_epoch) => frozen_epoch == epoch,
            None => false,
        };
        let state: DebugAcknowledgementState = if runtime.command == DebugCommand::Freeze
            && stopped_here {
            DebugAcknowledgementState::Frozen
        } else if runtime.command == DebugCommand::Resume && view.resume_requested && !stopped_here {
            DebugAcknowledgementState::Running
        } else {
            return ;
        };
        let node: NodeId = "coordinator-main".to_owned();
        let participant: TaskControlKey = task_control_key(
            &key.0,
            &key.1,
            &key.2,
            &node,
            &control.task_instance,
        );
        if !runtime.expected.contains(&participant) {
            return ;
        }
        let mut output: Vec<String> = Vec::new();
        output.push("coordinator-hosted capless main acknowledged all-stop control".to_owned());
        let answer: DebugParticipantAcknowledgement = DebugParticipantAcknowledgement {
            node,
            task_definition: control.task_definition.clone(),
            task: control.task_instance.clone(),
            epoch,
            state,
            current_source_location: copy_option(&view.current_source_location),
            stack_frames: describe_frames(&control.stopped_probe_symbol),
            local_values: Vec::new(),
            task_args: Vec::new(),
            handles: describe_handles(&control.handles),
            command_status: None,
            recent_output: TextList { items: output },
            message: None,
        };
        assert(views(answer.handles@) =~= answer.handles@);
        assert(answer.recent_output@
            =~= seq!["coordinator-hosted capless main acknowledged all-stop control"@]);
        assert(is_main_answer(answer@, control@, epoch, state, *view));
        let ghost shown = answer@;
        let ghost place = participant.key();
        let ghost known = lookup(before.debug.epoch_runtime, key.key());
        assert(place == main_key(before, key.key())->Some_0);
        assert(acknowledgement_refusal(known, place, key.2@, epoch) is None);
        let _recorded: Result<(), CoordinatorServiceError> =
            self.debug_registry.record_acknowledgement(key, participant, &key.2, answer);
        assert(is_main_answer(
            shown,
            lookup(before.mains.controls, key.key())->Some_0,
            epoch,
            main_state(known->Some_0, epoch, *view)->Some_0,
            *view,
        ));
        assert(self@ == (CoordinatorServiceModel { debug: self@.debug, ..before }));
        assert(self@.debug == (DebugRegistryModel {
            epoch_runtime: put(
                before.debug.epoch_runtime,
                key.key(),
                DebugEpochRuntimeModel {
                    acknowledgements: put(known->Some_0.acknowledgements, place, shown),
                    ..known->Some_0
                },
            ),
            ..before.debug
        }));
        assert(main_answered(before, self@, key.key(), epoch, *view));
    }
}

/// Whether all answers are so.
pub open spec fn all_are(answers: Seq<DebugParticipantAcknowledgementModel>, state: DebugAcknowledgementState) -> bool {
    forall|i: int| 0 <= i < answers.len() ==> (#[trigger] answers[i]).state == state
}

/// Whether some answer is so.
pub open spec fn some_is(answers: Seq<DebugParticipantAcknowledgementModel>, state: DebugAcknowledgementState) -> bool {
    exists|i: int| 0 <= i < answers.len() && (#[trigger] answers[i]).state == state
}

/// What the participants that have failed say.
pub open spec fn failure_lines(answers: Seq<DebugParticipantAcknowledgementModel>) -> Seq<Seq<char>>
    decreases answers.len(),
{
    if answers.len() == 0 {
        Seq::empty()
    } else {
        let rest = failure_lines(answers.drop_last());
        if answers.last().state == DebugAcknowledgementState::Failed {
            rest.push(
                match answers.last().message {
                    Some(text) => text@,
                    None => "task "@ + answers.last().task@ + " failed debug control"@,
                },
            )
        } else {
            rest
        }
    }
}

/// What is said of the participants that have not answered in time.
pub open spec fn missing_lines(
    list: Seq<TaskText>,
    answers: Seq<(TaskText, DebugParticipantAcknowledgementModel)>,
    timeout: u64,
) -> Seq<Seq<char>>
    decreases list.len(),
{
    if list.len() == 0 {
        Seq::empty()
    } else {
        let rest = missing_lines(list.drop_last(), answers, timeout);
        if lookup(answers, list.last()) is None {
            rest.push(
                "task "@ + list.last().4 + " on node "@ + list.last().3
                    + " did not acknowledge frozen state within "@ + decimal(timeout as nat) + " ms"@,
            )
        } else {
            rest
        }
    }
}

/// Where an epoch stands.
pub open spec fn is_status(
    status: DebugEpochStatusModel,
    key: ProcessText,
    actor: Seq<char>,
    runtime: DebugEpochRuntimeModel,
    list: Seq<TaskText>,
    timeout: u64,
    now: u64,
    event: DebugAuditEvent,
) -> bool {
    let answers = crate::ordered_map::values(runtime.acknowledgements);
    let complete = runtime.expected != Set::<TaskText>::empty() && all_answered(runtime);
    let freezing = runtime.command == DebugCommand::Freeze;
    let elapsed = freezing && now >= runtime.deadline;
    &&& enumerates(list, runtime.expected)
    &&& status.process@ == key.2
    &&& status.actor@ == actor
    &&& status.epoch == runtime.epoch
    &&& status.command == runtime.command
    &&& target_texts(status.expected_tasks) == listed_targets(list)
    &&& status.acknowledgements == answers
    &&& status.fully_frozen == (freezing && complete && all_are(
        answers,
        DebugAcknowledgementState::Frozen,
    ))
    &&& status.partially_frozen == (elapsed && some_is(answers, DebugAcknowledgementState::Frozen)
        && !status.fully_frozen)
    &&& status.fully_resumed == (!freezing && complete && all_are(
        answers,
        DebugAcknowledgementState::Running,
    ))
    &&& status.failed == (some_is(answers, DebugAcknowledgementState::Failed) || (elapsed
        && !all_answered(runtime)))
    &&& status.failure_messages == failure_lines(answers) + if elapsed {
        missing_lines(list, runtime.acknowledgements, timeout)
    } else {
        Seq::empty()
    }
    &&& status.audit_event == event
}

/// The status is where the epoch stands, for some list of its participants.
pub open spec fn status_shown(
    status: DebugEpochStatusModel,
    key: ProcessText,
    actor: Seq<char>,
    runtime: DebugEpochRuntimeModel,
    timeout: u64,
    now: u64,
    event: DebugAuditEvent,
) -> bool {
    exists|list: Seq<TaskText>| #[trigger]
        is_status(status, key, actor, runtime, list, timeout, now, event)
}

/// What comes of asking where an epoch stands, once the coordinator main has answered.
pub open spec fn epoch_inspected(
    before: CoordinatorServiceModel,
    after: CoordinatorServiceModel,
    key: ProcessText,
    actor: UserId,
    epoch: u64,
    charge: DebugCharge,
    now: u64,
    r: Result<DebugEpochStatus, CoordinatorServiceError>,
) -> bool {
    let cause = attach_reason(before, key, actor);
    match lookup(before.debug.epoch_runtime, key) {
        Some(runtime) => if runtime.epoch != epoch {
            after == before && (r matches Err(error) && error.protests(
                "debug epoch "@ + decimal(epoch as nat) + " is not active for "@ + key.2,
            ))
        } else if !cause.0 || charge.granted is Err {
            r matches Err(error) && debug_refused(
                before,
                after,
                key,
                None,
                actor,
                "inspect_debug_epoch"@,
                cause.1,
                charge,
                error,
            )
        } else {
            &&& r matches Ok(status)
            &&& is_audit(
                status.audit_event,
                key,
                None,
                actor@,
                "inspect_debug_epoch"@,
                true,
                cause.1,
                charge.used_bytes,
            )
            &&& status_shown(
                status@,
                key,
                actor@,
                runtime,
                before.debug_freeze_timeout_ms,
                now,
                status.audit_event,
            )
            &&& debug_only(before, after)
            &&& after.debug == with_audit(before.debug, status.audit_event)
        },
        None => after == before && (r matches Err(error) && error.protests(
            "debug epoch "@ + decimal(epoch as nat) + " is not active for "@ + key.2,
        )),
    }
}

/// What comes of asking where an epoch stands.
pub open spec fn epoch_shown(
    before: CoordinatorServiceModel,
    after: CoordinatorServiceModel,
    key: ProcessText,
    actor: UserId,
    epoch: u64,
    view: MainDebugView,
    charge: DebugCharge,
    now: u64,
    r: Result<DebugEpochStatus, CoordinatorServiceError>,
) -> bool {
    exists|middle: CoordinatorServiceModel| #[trigger]
        main_synced(before, middle, key, epoch, view) && epoch_inspected(
            middle,
            after,
            key,
            actor,
            epoch,
            charge,
            now,
            r,
        )
}

fn list_targets(tasks: &OrderedSet<TaskControlKey>) -> (r: Vec<TaskCancellationTarget>)
    ensures
        target_texts(r@) == listed_targets(tasks.items()),
        enumerates(tasks.items(), tasks@),
{
    let ghost list = tasks.items();
    let n: usize = tasks.count();
    let mut targets: Vec<TaskCancellationTarget> = Vec::new();
    let mut i: usize = 0;
    assert(target_texts(targets@) =~= listed_targets(list.take(0)));
    while i < n
        invariant
            n == list.len(),
            list == tasks.items(),
            0 <= i <= n,
            target_texts(targets@) == listed_targets(list.take(i as int)),
        decreases n - i,
    {
        let task: &TaskControlKey = tasks.item(i);
        assert(task.key() == (task.0@, task.1@, task.2@, task.3@, task.4@));
        let ghost earlier = targets@;
        let target: TaskCancellationTarget = TaskCancellationTarget {
            process: task.2.clone(),
            node: task.3.clone(),
            task: task.4.clone(),
        };
        let ghost shown = target_text(target);
        targets.push(target);
        assert(target_texts(targets@) =~= target_texts(earlier).push(shown));
        assert(listed_targets(list.take(i + 1)) =~= listed_targets(list.take(i as int)).push(shown));
        i = i + 1;
    }
    assert(list.take(n as int) =~= list);
    targets
}

fn list_answers(answers: &OrderedMap<TaskControlKey, DebugParticipantAcknowledgement>) -> (r: Vec<
    DebugParticipantAcknowledgement,
>)
    ensures
        views(r@) == crate::ordered_map::values(answers@),
{
    let ghost all = crate::ordered_map::values(answers@);
    let n: usize = answers.len();
    let mut out: Vec<DebugParticipantAcknowledgement> = Vec::new();
    let mut i: usize = 0;
    assert(views(out@) =~= all.take(0));
    while i < n
        invariant
            n == answers@.len(),
            n == all.len(),
            all == crate::ordered_map::values(answers@),
            0 <= i <= n,
            views(out@) == all.take(i as int),
        decreases n - i,
    {
        let ghost earlier = out@;
        let copy: DebugParticipantAcknowledgement = answers.value_at(i).duplicate();
        let ghost shown = copy@;
        out.push(copy);
        assert(views(out@) =~= views(earlier).push(shown));
        assert(all.take(i + 1) =~= all.take(i as int).push(all[i as int]));
        i = i + 1;
    }
    assert(all.take(n as int) =~= all);
    out
}

fn answers_are(answers: &Vec<DebugParticipantAcknowledgement>, state: DebugAcknowledgementState) -> (r: (
    bool,
    bool,
))
    ensures
        r.0 == all_are(views(answers@), state),
        r.1 == some_is(views(answers@), state),
{
    let ghost all = views(answers@);
    let n: usize = answers.len();
    let mut every: bool = true;
    let mut some: bool = false;
    let mut i: usize = 0;
    while i < n
        invariant
            n == answers@.len(),
            all == views(answers@),
            0 <= i <= n,
            every <==> (forall|j: int| 0 <= j < i ==> (#[trigger] all[j]).state == state),
            some <==> (exists|j: int| 0 <= j < i && (#[trigger] all[j]).state == state),
        decreases n - i,
    {
        assert(all[i as int] == answers@[i as int]@);
        if answers[i].state == state {
            some = true;
        } else {
            every = false;
        }
        i = i + 1;
    }
    (every, some)
}

fn list_failures(answers: &Vec<DebugParticipantAcknowledgement>) -> (r: Vec<String>)
    ensures
        texts(r@) == failure_lines(views(answers@)),
{
    let ghost all = views(answers@);
    let n: usize = answers.len();
    let mut out: Vec<String> = Vec::new();
    let mut i: usize = 0;
    assert(all.take(0) =~= Seq::empty());
    assert(texts(out@) =~= Seq::empty());
    while i < n
        invariant
            n == answers@.len(),
            all == views(answers@),
            0 <= i <= n,
            texts(out@) == failure_lines(all.take(i as int)),
        decreases n - i,
    {
        assert(all.take(i + 1).drop_last() =~= all.take(i as int));
        assert(all[i as int] == answers@[i as int]@);
        if answers[i].state == DebugAcknowledgementState::Failed {
            let text: String = match &answers[i].message {
                Some(text) => text.clone(),
                None => concat3("task ", answers[i].task.as_str(), " failed debug control"),
            };
            let ghost earlier = out@;
            let ghost shown = text@;
            out.push(text);
            assert(texts(out@) =~= texts(earlier).push(shown));
        }
        i = i + 1;
    }
    assert(all.take(n as int) =~= all);
    out
}

fn add_missing(lines: &mut Vec<String>, runtime: &DebugEpochRuntime, timeout: u64)
    ensures
        texts(final(lines)@) == texts(old(lines)@) + missing_lines(
            runtime.expected.items(),
            runtime@.acknowledgements,
            timeout,
        ),
{
    let ghost start = texts(lines@);
    let ghost list = runtime.expected.items();
    let n: usize = runtime.expected.count();
    let mut i: usize = 0;
    assert(list.take(0) =~= Seq::empty());
    assert(start + Seq::empty() =~= start);
    while i < n
        invariant
            n == list.len(),
            list == runtime.expected.items(),
            0 <= i <= n,
            texts(lines@) == start + missing_lines(
                list.take(i as int),
                runtime@.acknowledgements,
                timeout,
            ),
        decreases n - i,
    {
        assert(list.take(i + 1).drop_last() =~= list.take(i as int));
        let task: &TaskControlKey = runtime.expected.item(i);
        assert(task.key() == (task.0@, task.1@, task.2@, task.3@, task.4@));
        if !runtime.acknowledgements.contains_key(task) {
            let number: String = decimal_text(timeout);
            let head: String = concat4("task ", task.4.as_str(), " on node ", task.3.as_str());
            let text: String = concat4(
                head.as_str(),
                " did not acknowledge frozen state within ",
                number.as_str(),
                " ms",
            );
            let ghost earlier = lines@;
            let ghost shown = text@;
            lines.push(text);
            assert(texts(lines@) =~= texts(earlier).push(shown));
            assert(start + missing_lines(
                list.take(i as int),
                runtime@.acknowledgements,
                timeout,
            ).push(shown) =~= (start + missing_lines(
                list.take(i as int),
                runtime@.acknowledgements,
                timeout,
            )).push(shown));
        }
        i = i + 1;
    }
    assert(list.take(n as int) =~= list);
}

fn describe_epoch(
    process: &ProcessId,
    actor: &UserId,
    runtime: &DebugEpochRuntime,
    timeout: u64,
    now: u64,
    audit_event: DebugAuditEvent,
    Ghost(key): Ghost<ProcessText>,
) -> (r: DebugEpochStatus)
    requires
        key.2 == process@,
    ensures
        status_shown(r@, key, actor@, runtime@, timeout, now, audit_event),
        r.audit_event == audit_event,
{
    let acknowledgements: Vec<DebugParticipantAcknowledgement> = list_answers(
        &runtime.acknowledgements,
    );
    let expected_tasks: Vec<TaskCancellationTarget> = list_targets(&runtime.expected);
    let answered: bool = check_all_answered(runtime);
    let complete: bool = !runtime.expected.is_empty() && answered;
    let (all_frozen, some_frozen) = answers_are(
        &acknowledgements,
        DebugAcknowledgementState::Frozen,
    );
    let (all_running, _some_running) = answers_are(
        &acknowledgements,
        DebugAcknowledgementState::Running,
    );
    let (_all_failed, some_failed) = answers_are(
        &acknowledgements,
        DebugAcknowledgementState::Failed,
    );
    let freezing: bool = runtime.command == DebugCommand::Freeze;
    let elapsed: bool = freezing && now >= runtime.deadline;
    let fully_frozen: bool = freezing && complete && all_frozen;
    let mut lines: Vec<String> = list_failures(&acknowledgements);
    let ghost own = texts(lines@);
    if elapsed {
        add_missing(&mut lines, runtime, timeout);
    } else {
        assert(own + Seq::empty() =~= own);
    }
    let status: DebugEpochStatus = DebugEpochStatus {
        process: process.clone(),
        actor: actor.clone(),
        epoch: runtime.epoch,
        command: runtime.command,
        expected_tasks,
        acknowledgements,
        fully_frozen,
        partially_frozen: elapsed && some_frozen && !fully_frozen,
        fully_resumed: !freezing && complete && all_running,
        failed: some_failed || (elapsed && !answered),
        failure_messages: TextList { items: lines },
        audit_event,
    };
    assert(views(status.expected_tasks@) =~= status.expected_tasks@);
    assert(is_status(
        status@,
        key,
        actor@,
        runtime@,
        runtime.expected.items(),
        timeout,
        now,
        audit_event,
    ));
    status
}

impl CoordinatorService {
    /// Shows where an epoch stands. `view` is what is seen of the coordinator main.
    pub fn handle_inspect_debug_epoch(
        &mut self,
        tenant: &TenantId,
        project: &ProjectId,
        actor: &UserId,
        process: &ProcessId,
        epoch: u64,
        view: &MainDebugView,
        charge: &DebugCharge,
        now: u64,
    ) -> (r: Result<DebugEpochStatus, CoordinatorServiceError>)
        ensures
            epoch_shown(
                old(self)@,
                final(self)@,
                (tenant@, project@, process@),
                *actor,
                epoch,
                *view,
                *charge,
                now,
                r,
            ),
    {
        let ghost before = self@;
        let key: ProcessControlKey = process_control_key(tenant, project, process);
        self.sync_coordinator_main_debug_acknowledgement(&key, epoch, view);
        let ghost middle = self@;
        assert(main_synced(before, middle, key.key(), epoch, *view));
        let known: bool = match self.debug_registry.runtime(&key) {
            Some(runtime) => runtime.epoch == epoch,
            None => false,
        };
        if !known {
            let number: String = decimal_text(epoch);
            return Err(
                CoordinatorServiceError::Protocol(
                    concat4(
                        "debug epoch ",
                        number.as_str(),
                        " is not active for ",
                        process.as_str(),
                    ),
                ),
            );
        }
        let none: Option<TaskInstanceId> = None;
        let audit_event: DebugAuditEvent = match self.grant_debug(
            tenant,
            project,
            process,
            &none,
            actor,
            "inspect_debug_epoch",
            None,
            charge,
        ) {
            Ok(event) => event,
            Err(error) => {
                return Err(error);
            },
        };
        match self.debug_registry.runtime(&key) {
            None => Err(protocol("debug epoch is not active")),
            Some(runtime) => Ok(
                describe_epoch(
                    process,
                    actor,
                    runtime,
                    self.debug_freeze_timeout_ms,
                    now,
                    audit_event,
                    Ghost(key.key()),
                ),
            ),
        }
    }

    /// Forgets the debugging of a process.
    pub fn clear_debug_state_for_process(
        &mut self,
        tenant: &TenantId,
        project: &ProjectId,
        process: &ProcessId,
    )
        ensures
            final(self)@ == (CoordinatorServiceModel {
                debug: crate::debug_registry::process_cleared(
                    old(self)@.debug,
                    (tenant@, project@, process@),
                ),
                ..old(self)@
            }),
    {
        self.debug_registry.clear_process(tenant, project, process);
    }
}

/// No new epoch begins for a process before the last one has fully resumed.
pub proof fn epochs_do_not_overlap(
    before: CoordinatorServiceModel,
    after: CoordinatorServiceModel,
    key: ProcessText,
    actor: UserId,
    stopped_task: Option<Seq<char>>,
    operation: Seq<char>,
    command: DebugCommand,
    all_stop: bool,
    reason: Seq<char>,
    active: Set<TaskText>,
    charge: DebugCharge,
    now: u64,
    answer: DebugEpoch,
)
    requires
        epoch_controlled(
            before,
            after,
            key,
            actor,
            stopped_task,
            None,
            operation,
            command,
            all_stop,
            reason,
            active,
            charge,
            now,
            Ok(answer),
        ),
    ensures
        lookup(before.debug.epoch_runtime, key) matches Some(runtime) ==> runtime.command
            == DebugCommand::Resume && all_in_state(runtime, DebugAcknowledgementState::Running),
        answer.epoch == (match lookup(before.debug.epochs, key) {
            Some(current) => current + 1,
            None => 1,
        }),
{
}

/// Only tasks that had stopped are to go on.
pub proof fn only_the_stopped_go_on(
    before: CoordinatorServiceModel,
    after: CoordinatorServiceModel,
    key: ProcessText,
    actor: UserId,
    expected: Option<u64>,
    active: Set<TaskText>,
    now: u64,
    answer: DebugEpoch,
)
    requires
        ascending(before.debug.epoch_runtime),
        epoch_ran(
            before,
            after,
            key,
            actor,
            expected,
            DebugCommand::Resume,
            false,
            active,
            now,
            answer,
        ),
    ensures
        lookup(after.debug.epoch_runtime, key) matches Some(runtime) && runtime.expected.subset_of(
            frozen(lookup(before.debug.epoch_runtime, key)),
        ),
{
    broadcast use lemma_lookup_put;

}

} // verus!
