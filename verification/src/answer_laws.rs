//! What callers and operators are told: each failure in its kind, with whether to try again, and the figures
//! of the service as they are.
use vstd::prelude::*;

use crate::artifact_registry::DownloadError;
use crate::automated_run::{AutomatedRunStageRecordModel, AutomatedRunState};
use crate::coordinator::CoordinatorError;
use crate::ids::ScopeText;
use crate::interchange::{ArtifactConnectivityFacts, facts_from, is_latest};
use crate::interchange_registry::takes_part;
use crate::ordered_map::lookup;
use crate::service::CoordinatorServiceModel;
use crate::service_error::{ApiErrorCode, CoordinatorServiceError};
use crate::service_status::{TaskFigures, compiled_bytes, compiled_for, failed_to_compile, in_state, is_live_entry, live_nodes, metrics_of, waited};
use crate::text::byte_len;
use crate::transfer::{ArtifactTransferErrorCode, InterchangeTransferModel};

verus! {

/// A failure is told with a code, and with whether trying again may help.
pub open spec fn told_as(error: CoordinatorServiceError, code: ApiErrorCode, again: bool) -> bool {
    error.classified() matches Some(told) && told.0 == code && told.2 == again
}

/// A failure that has a kind has it with its category: what is not allowed is of authority, what is not there
/// is of state, what is malformed is of the request, and trying again never helps with any of these. Where
/// there is no room or no node, trying again may.
pub proof fn failures_are_told_in_their_kind(error: CoordinatorServiceError)
    ensures
        error.classified() matches Some((code, category, again)) ==> {
            &&& code is Forbidden ==> category is Authorization && !again
            &&& code is Unauthenticated ==> category is Authentication && !again
            &&& code is ValidationError ==> category is Validation && !again
            &&& code is NotFound ==> category is State && !again
            &&& code is Conflict ==> category is State
            &&& code is InternalError ==> category is Internal && again
            &&& code is NoCapableNode ==> category is Availability && again
            &&& code is TemporaryCapacity ==> category is Availability && again
            &&& code is ArtifactUnavailable ==> category is Availability && again
            &&& code is ArtifactLimitExceeded ==> category is Resource && !again
            &&& code is QuotaExceeded ==> category is Resource
            &&& category is Authorization ==> code is Forbidden
            &&& category is Validation ==> code is ValidationError
            &&& category is Internal ==> error is Durable
        },
        error is Durable ==> told_as(error, ApiErrorCode::InternalError, true),
        error is Io ==> told_as(error, ApiErrorCode::TemporaryCapacity, true),
        error is Scheduler ==> told_as(error, ApiErrorCode::NoCapableNode, true),
        error is Json || error is CapabilityReport || error is InvalidArtifactPath
            || error is InvalidTaskLogTail ==> told_as(error, ApiErrorCode::ValidationError, false),
        error is Resource ==> told_as(error, ApiErrorCode::QuotaExceeded, true),
        error is TerminalOperationConflict ==> told_as(error, ApiErrorCode::Conflict, false),
        error is StaleNodeAssignmentAcknowledgement ==> told_as(error, ApiErrorCode::Conflict, true),
        error matches CoordinatorServiceError::Coordinator(CoordinatorError::UnknownNode)
            ==> told_as(error, ApiErrorCode::NotFound, false),
        error matches CoordinatorServiceError::Coordinator(CoordinatorError::Enrollment(_))
            ==> told_as(error, ApiErrorCode::Unauthenticated, false),
        error matches CoordinatorServiceError::Download(DownloadError::NotFound)
            ==> told_as(error, ApiErrorCode::NotFound, false),
        error matches CoordinatorServiceError::Download(DownloadError::InvalidToken)
            ==> told_as(error, ApiErrorCode::Forbidden, false),
        error matches CoordinatorServiceError::Download(DownloadError::Unauthorized(_))
            ==> told_as(error, ApiErrorCode::Forbidden, false),
        error matches CoordinatorServiceError::Download(DownloadError::Unavailable)
            ==> told_as(error, ApiErrorCode::ArtifactUnavailable, true),
        error is Protocol || error is Transfer || error is TransferCapacity
            || error is ArtifactUnavailable ==> error.classified() is None,
{
}

/// What a quota is exceeded by is told exactly where a quota of the account is, with the figures of the
/// failure, and trying again does not help.
pub proof fn exceeded_quotas_are_told_in_figures(error: CoordinatorServiceError)
    ensures
        error.quota_exceeded() is Some <==> error is NodeIdentityQuota || error is ProjectQuota
            || error is ActiveProcessQuota,
        error.quota_exceeded() is Some ==> told_as(error, ApiErrorCode::QuotaExceeded, false),
        error matches CoordinatorServiceError::NodeIdentityQuota { current, maximum } ==> {
            &&& error.quota_exceeded() matches Some(told)
            &&& told.0 == "node_identity"@ && told.1 == current && told.2 == maximum
        },
        error matches CoordinatorServiceError::ProjectQuota { current, maximum } ==> {
            &&& error.quota_exceeded() matches Some(told)
            &&& told.0 == "project"@ && told.1 == current && told.2 == maximum
        },
        error matches CoordinatorServiceError::ActiveProcessQuota { current, maximum } ==> {
            &&& error.quota_exceeded() matches Some(told)
            &&& told.0 == "active_process"@ && told.1 == current && told.2 == maximum
        },
{
}

/// How long runs have waited grows by each run that waits for a compiler, from when it was created, and by no
/// other. The same holds of what compiles, from when its node took it, and of what has been compiled.
pub proof fn waiting_adds_up_run_by_run(
    runs: Seq<(Seq<char>, AutomatedRunStageRecordModel)>,
    e: (Seq<char>, AutomatedRunStageRecordModel),
    acknowledged: Seq<(Seq<char>, u64)>,
    now: u64,
)
    ensures
        ({
            let more = runs.push(e);
            let run = e.1;
            &&& run.run.state == AutomatedRunState::WaitingForCompilerNode && run.run.created_at <= now
                ==> waited(more, now) == waited(runs, now) + (now - run.run.created_at)
            &&& run.run.state != AutomatedRunState::WaitingForCompilerNode || run.run.created_at > now
                ==> waited(more, now) == waited(runs, now)
            &&& run.run.state != AutomatedRunState::CompilingWorkflow || lookup(
                acknowledged,
                run.run.run_id@,
            ) is None ==> compiled_for(more, acknowledged, now) == compiled_for(
                runs,
                acknowledged,
                now,
            )
            &&& run.run.state == AutomatedRunState::CompilingWorkflow && (lookup(
                acknowledged,
                run.run.run_id@,
            ) matches Some(since) && since <= now) ==> compiled_for(more, acknowledged, now)
                == compiled_for(runs, acknowledged, now) + (now - lookup(
                acknowledged,
                run.run.run_id@,
            )->Some_0)
            &&& run.compiled_bundle is None ==> compiled_bytes(more) == compiled_bytes(runs)
            &&& run.compiled_bundle matches Some(bundle) ==> compiled_bytes(more) == compiled_bytes(
                runs,
            ) + byte_len(bundle.module_base64@) + byte_len(bundle.debug_metadata_base64@)
            &&& waited(Seq::empty(), now) == 0
            &&& compiled_for(Seq::empty(), acknowledged, now) == 0
            &&& compiled_bytes(Seq::empty()) == 0
        }),
{
    let more = runs.push(e);
    assert(more.drop_last() =~= runs);
    assert(more.last() == e);
}

/// Of the nodes that report, those that live are no more than there are.
pub proof fn live_nodes_are_among_the_reported(s: CoordinatorServiceModel, now: u64)
    ensures
        live_nodes(s, now) <= s.nodes.descriptors.len(),
{
    s.nodes.descriptors.lemma_filter_len(is_live_entry(s, now));
}

/// The figures of the service count what it holds, each kind on its own.
pub proof fn figures_count_what_there_is(s: CoordinatorServiceModel, tasks: TaskFigures, now: u64)
    requires
        s.coordinator.durable.tenants.len() <= usize::MAX,
        s.coordinator.durable.users.len() <= usize::MAX,
        s.coordinator.durable.projects.len() <= usize::MAX,
        s.coordinator.durable.node_identities.len() <= usize::MAX,
        s.nodes.descriptors.len() <= usize::MAX,
        s.coordinator.active_processes.len() <= usize::MAX,
        s.mains.controls.len() <= usize::MAX,
        s.artifacts.artifacts.len() <= usize::MAX,
        s.artifacts.issued_download_links.len() <= usize::MAX,
    ensures
        ({
            let told = metrics_of(s, tasks, now);
            &&& told.tenants == s.coordinator.durable.tenants.len()
            &&& told.users == s.coordinator.durable.users.len()
            &&& told.projects == s.coordinator.durable.projects.len()
            &&& told.enrolled_nodes == s.coordinator.durable.node_identities.len()
            &&& told.reported_nodes == s.nodes.descriptors.len()
            &&& told.live_nodes <= told.reported_nodes
            &&& told.active_processes == s.coordinator.active_processes.len()
            &&& told.active_coordinator_mains == s.mains.controls.len()
            &&& told.max_active_coordinator_mains == s.mains.limits.max_active_mains
            &&& told.active_tasks == tasks.active_tasks && told.queued_tasks == tasks.queued_tasks
            &&& told.artifacts == s.artifacts.artifacts.len()
            &&& told.retained_download_links == s.artifacts.issued_download_links.len()
            &&& told.artifact_direct_body_bytes == s.interchange.direct_body_bytes
            &&& told.artifact_relayed_body_bytes == s.interchange.relayed_body_bytes
            &&& told.artifact_unknown_path_body_bytes == s.interchange.unknown_path_body_bytes
            &&& waited(s.coordinator.durable.automation.automated_runs, now) <= u64::MAX
                ==> told.compile_wait_seconds == waited(
                s.coordinator.durable.automation.automated_runs,
                now,
            )
        }),
{
    live_nodes_are_among_the_reported(s, now);
}

/// Runs that wait, that compile and that failed to compile are counted apart: no run counts as two of them.
pub proof fn runs_are_counted_once(run: AutomatedRunStageRecordModel, rest: Seq<char>)
    ensures
        in_state(AutomatedRunState::WaitingForCompilerNode)(run) <==> run.run.state
            == AutomatedRunState::WaitingForCompilerNode,
        in_state(AutomatedRunState::CompilingWorkflow)(run) <==> run.run.state
            == AutomatedRunState::CompilingWorkflow,
        failed_to_compile()(run) ==> run.run.state == AutomatedRunState::Failed
            && run.run.failure_code is Some,
        run.run.state == AutomatedRunState::Failed && (run.run.failure_code matches Some(code)
            && (code@ == "compile"@ + rest || code@ == "system_assignment"@ + rest))
            ==> failed_to_compile()(run),
{
    assert(("compile"@ + rest).take("compile"@.len() as int) =~= "compile"@);
    assert(("system_assignment"@ + rest).take("system_assignment"@.len() as int)
        =~= "system_assignment"@);
}

/// What is known of how a node is reached is what its latest transfer showed.
pub proof fn reaching_a_node_is_known_from_its_latest_transfer(
    facts: ArtifactConnectivityFacts,
    transfers: Seq<(Seq<char>, InterchangeTransferModel)>,
    scope: ScopeText,
    i: int,
    j: int,
)
    requires
        is_latest(transfers, scope, i),
        facts_from(facts, Some(transfers[i].1)),
        0 <= j < transfers.len(),
        takes_part(transfers[j].1, scope),
    ensures
        facts.recent_path == transfers[i].1.record.path_kind,
        facts.recent_direct_failure <==> transfers[i].1.record.failure_code == Some(
            ArtifactTransferErrorCode::DirectPathTimeout,
        ),
        transfers[j].1.record.updated_at <= transfers[i].1.record.updated_at,
        is_latest(transfers, scope, j) ==> i == j,
{
}

} // verus!
