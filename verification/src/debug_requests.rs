//! Requests of debuggers, and who they come from.
use vstd::prelude::*;

use crate::authorization::AuthenticatedCoordinatorRequest;
use crate::debug::{DebugAttachment, DebugBreakpoints, DebugCharge, DebugEpoch, DebugEpochStatus, MainDebugView, attach_answered, breakpoints_inspected, breakpoints_set, epoch_controlled, epoch_shown};
use crate::debug_registry::{DebugCommand, SourceLocation};
use crate::duplicate::TextList;
use crate::ids::{ProcessId, ProjectId, TaskInstanceId, TenantId, UserId};
use crate::keys::{ProcessText, TaskControlKey};
use crate::ordered_map::lookup;
use crate::ordered_set::OrderedSet;
use crate::service::{CoordinatorService, CoordinatorServiceModel};
use crate::service_error::CoordinatorServiceError;

verus! {

/// What a debugger wants of a process.
pub enum DebugAction {
    Attach,
    SetBreakpoints { revision: u64, probe_symbols: TextList, probe_locations: Vec<SourceLocation> },
    InspectBreakpoints,
    CreateEpoch { stopped_task: TaskInstanceId, reason: String },
    ResumeEpoch { epoch: u64 },
    InspectEpoch { epoch: u64 },
}

/// What a debugger wants, and for whom it asks.
pub struct DebugRequest {
    pub tenant: TenantId,
    pub project: ProjectId,
    pub actor: UserId,
    pub process: ProcessId,
    pub action: DebugAction,
}

/// What is known as a debugger asks: the tasks that run, what is seen of the coordinator main, what
/// the request costs, and the time.
pub struct DebugSurroundings {
    pub active_tasks: OrderedSet<TaskControlKey>,
    pub view: MainDebugView,
    pub charge: DebugCharge,
    pub now: u64,
}

/// What a debugger is told.
pub enum DebugResponse {
    Attachment(DebugAttachment),
    Breakpoints(DebugBreakpoints),
    Epoch(DebugEpoch),
    EpochStatus(DebugEpochStatus),
}

/// The answer to a request is the one that its action has.
pub open spec fn debug_answered(
    before: CoordinatorServiceModel,
    after: CoordinatorServiceModel,
    key: ProcessText,
    actor: UserId,
    action: DebugAction,
    known: DebugSurroundings,
    r: Result<DebugResponse, CoordinatorServiceError>,
) -> bool {
    match action {
        DebugAction::Attach => match r {
            Ok(DebugResponse::Attachment(told)) => attach_answered(
                before,
                after,
                key,
                actor,
                known.charge,
                Ok(told),
            ),
            Ok(_) => false,
            Err(error) => attach_answered(before, after, key, actor, known.charge, Err(error)),
        },
        DebugAction::SetBreakpoints { revision, probe_symbols, probe_locations } => match r {
            Ok(DebugResponse::Breakpoints(told)) => breakpoints_set(
                before,
                after,
                key,
                actor,
                revision,
                probe_symbols@,
                probe_locations@,
                known.charge,
                Ok(told),
            ),
            Ok(_) => false,
            Err(error) => breakpoints_set(
                before,
                after,
                key,
                actor,
                revision,
                probe_symbols@,
                probe_locations@,
                known.charge,
                Err(error),
            ),
        },
        DebugAction::InspectBreakpoints => match r {
            Ok(DebugResponse::Breakpoints(told)) => breakpoints_inspected(
                before,
                after,
                key,
                actor,
                known.charge,
                Ok(told),
            ),
            Ok(_) => false,
            Err(error) => breakpoints_inspected(before, after, key, actor, known.charge, Err(error)),
        },
        DebugAction::CreateEpoch { stopped_task, reason } => epoch_answered(
            before,
            after,
            key,
            actor,
            Some(stopped_task@),
            None,
            "create_debug_epoch"@,
            DebugCommand::Freeze,
            true,
            reason@,
            known,
            r,
        ),
        DebugAction::ResumeEpoch { epoch } => epoch_answered(
            before,
            after,
            key,
            actor,
            None,
            Some(epoch),
            "resume_debug_epoch"@,
            DebugCommand::Resume,
            false,
            "continue requested by debugger"@,
            known,
            r,
        ),
        DebugAction::InspectEpoch { epoch } => match r {
            Ok(DebugResponse::EpochStatus(told)) => epoch_shown(
                before,
                after,
                key,
                actor,
                epoch,
                known.view,
                known.charge,
                known.now,
                Ok(told),
            ),
            Ok(_) => false,
            Err(error) => epoch_shown(
                before,
                after,
                key,
                actor,
                epoch,
                known.view,
                known.charge,
                known.now,
                Err(error),
            ),
        },
    }
}

/// The answer to a request that stops a process or has it go on.
pub open spec fn epoch_answered(
    before: CoordinatorServiceModel,
    after: CoordinatorServiceModel,
    key: ProcessText,
    actor: UserId,
    stopped_task: Option<Seq<char>>,
    epoch: Option<u64>,
    operation: Seq<char>,
    command: DebugCommand,
    stops: bool,
    reason: Seq<char>,
    known: DebugSurroundings,
    r: Result<DebugResponse, CoordinatorServiceError>,
) -> bool {
    match r {
        Ok(DebugResponse::Epoch(told)) => epoch_controlled(
            before,
            after,
            key,
            actor,
            stopped_task,
            epoch,
            operation,
            command,
            stops,
            reason,
            known.active_tasks@,
            known.charge,
            known.now,
            Ok(told),
        ),
        Ok(_) => false,
        Err(error) => epoch_controlled(
            before,
            after,
            key,
            actor,
            stopped_task,
            epoch,
            operation,
            command,
            stops,
            reason,
            known.active_tasks@,
            known.charge,
            known.now,
            Err(error),
        ),
    }
}

/// The process that a signed-in user wants to debug, and what they want of it.
pub open spec fn debug_part(request: AuthenticatedCoordinatorRequest) -> Option<(ProcessId, DebugAction)> {
    match request {
        AuthenticatedCoordinatorRequest::DebugAttach { process } => Some(
            (process, DebugAction::Attach),
        ),
        AuthenticatedCoordinatorRequest::SetDebugBreakpoints {
            process,
            revision,
            probe_symbols,
            probe_locations,
        } => Some(
            (process, DebugAction::SetBreakpoints { revision, probe_symbols, probe_locations }),
        ),
        AuthenticatedCoordinatorRequest::InspectDebugBreakpoints { process } => Some(
            (process, DebugAction::InspectBreakpoints),
        ),
        AuthenticatedCoordinatorRequest::CreateDebugEpoch { process, stopped_task, reason } => Some(
            (process, DebugAction::CreateEpoch { stopped_task, reason }),
        ),
        AuthenticatedCoordinatorRequest::ResumeDebugEpoch { process, epoch } => Some(
            (process, DebugAction::ResumeEpoch { epoch }),
        ),
        AuthenticatedCoordinatorRequest::InspectDebugEpoch { process, epoch } => Some(
            (process, DebugAction::InspectEpoch { epoch }),
        ),
        _ => None,
    }
}

fn split_debug_request(request: AuthenticatedCoordinatorRequest) -> (r: Option<
    (ProcessId, DebugAction),
>)
    ensures
        r == debug_part(request),
{
    match request {
        AuthenticatedCoordinatorRequest::DebugAttach { process } => Some(
            (process, DebugAction::Attach),
        ),
        AuthenticatedCoordinatorRequest::SetDebugBreakpoints {
            process,
            revision,
            probe_symbols,
            probe_locations,
        } => Some(
            (process, DebugAction::SetBreakpoints { revision, probe_symbols, probe_locations }),
        ),
        AuthenticatedCoordinatorRequest::InspectDebugBreakpoints { process } => Some(
            (process, DebugAction::InspectBreakpoints),
        ),
        AuthenticatedCoordinatorRequest::CreateDebugEpoch { process, stopped_task, reason } => Some(
            (process, DebugAction::CreateEpoch { stopped_task, reason }),
        ),
        AuthenticatedCoordinatorRequest::ResumeDebugEpoch { process, epoch } => Some(
            (process, DebugAction::ResumeEpoch { epoch }),
        ),
        AuthenticatedCoordinatorRequest::InspectDebugEpoch { process, epoch } => Some(
            (process, DebugAction::InspectEpoch { epoch }),
        ),
        _ => None,
    }
}

impl CoordinatorService {
    fn answer_debugger(
        &mut self,
        tenant: &TenantId,
        project: &ProjectId,
        actor: &UserId,
        process: &ProcessId,
        action: DebugAction,
        known: &DebugSurroundings,
    ) -> (r: Result<DebugResponse, CoordinatorServiceError>)
        requires
            action is CreateEpoch ==> lookup(
                old(self)@.debug.epochs,
                (tenant@, project@, process@),
            ) != Some(u64::MAX),
        ensures
            debug_answered(
                old(self)@,
                final(self)@,
                (tenant@, project@, process@),
                *actor,
                action,
                *known,
                r,
            ),
    {
        match action {
            DebugAction::Attach => match self.handle_debug_attach(
                tenant,
                project,
                actor,
                process,
                &known.charge,
            ) {
                Ok(told) => Ok(DebugResponse::Attachment(told)),
                Err(error) => Err(error),
            },
            DebugAction::SetBreakpoints { revision, probe_symbols, probe_locations } => {
                match self.handle_set_debug_breakpoints(
                    tenant,
                    project,
                    actor,
                    process,
                    revision,
                    probe_symbols,
                    &probe_locations,
                    &known.charge,
                ) {
                    Ok(told) => Ok(DebugResponse::Breakpoints(told)),
                    Err(error) => Err(error),
                }
            },
            DebugAction::InspectBreakpoints => match self.handle_inspect_debug_breakpoints(
                tenant,
                project,
                actor,
                process,
                &known.charge,
            ) {
                Ok(told) => Ok(DebugResponse::Breakpoints(told)),
                Err(error) => Err(error),
            },
            DebugAction::CreateEpoch { stopped_task, reason } => {
                match self.handle_create_debug_epoch(
                    tenant,
                    project,
                    actor,
                    process,
                    stopped_task,
                    reason.as_str(),
                    &known.active_tasks,
                    &known.charge,
                    known.now,
                ) {
                    Ok(told) => Ok(DebugResponse::Epoch(told)),
                    Err(error) => Err(error),
                }
            },
            DebugAction::ResumeEpoch { epoch } => match self.handle_resume_debug_epoch(
                tenant,
                project,
                actor,
                process,
                epoch,
                &known.active_tasks,
                &known.charge,
                known.now,
            ) {
                Ok(told) => Ok(DebugResponse::Epoch(told)),
                Err(error) => Err(error),
            },
            DebugAction::InspectEpoch { epoch } => match self.handle_inspect_debug_epoch(
                tenant,
                project,
                actor,
                process,
                epoch,
                &known.view,
                &known.charge,
                known.now,
            ) {
                Ok(told) => Ok(DebugResponse::EpochStatus(told)),
                Err(error) => Err(error),
            },
        }
    }

    /// Answers a debugger that says itself for whom it asks.
    pub fn handle_debug_request(&mut self, request: DebugRequest, known: &DebugSurroundings) -> (r:
        Result<DebugResponse, CoordinatorServiceError>)
        requires
            request.action is CreateEpoch ==> lookup(
                old(self)@.debug.epochs,
                (request.tenant@, request.project@, request.process@),
            ) != Some(u64::MAX),
        ensures
            debug_answered(
                old(self)@,
                final(self)@,
                (request.tenant@, request.project@, request.process@),
                request.actor,
                request.action,
                *known,
                r,
            ),
    {
        let DebugRequest { tenant, project, actor, process, action } = request;
        self.answer_debugger(&tenant, &project, &actor, &process, action, known)
    }

    /// Answers the debugger of a user who is signed in: whatever it asks for concerns the project of
    /// the session, and is asked for by its user.
    pub fn handle_authenticated_debug_request(
        &mut self,
        tenant: &TenantId,
        project: &ProjectId,
        actor: &UserId,
        request: AuthenticatedCoordinatorRequest,
        known: &DebugSurroundings,
    ) -> (r: Result<DebugResponse, CoordinatorServiceError>)
        requires
            debug_part(request) is Some,
            debug_part(request)->Some_0.1 is CreateEpoch ==> lookup(
                old(self)@.debug.epochs,
                (tenant@, project@, debug_part(request)->Some_0.0@),
            ) != Some(u64::MAX),
        ensures
            debug_answered(
                old(self)@,
                final(self)@,
                (tenant@, project@, debug_part(request)->Some_0.0@),
                *actor,
                debug_part(request)->Some_0.1,
                *known,
                r,
            ),
    {
        match split_debug_request(request) {
            Some((process, action)) => self.answer_debugger(
                tenant,
                project,
                actor,
                &process,
                action,
                known,
            ),
            None => vstd::pervasive::unreached(),
        }
    }
}

} // verus!
