//! Why a request fails, and what is answered then.
use vstd::prelude::*;
use vstd::string::*;

use crate::artifact_registry::DownloadError;
use crate::coordinator::CoordinatorError;
use crate::duplicate::texts;
use crate::text::{concat2, concat5, decimal, decimal_text};
use crate::transfer::ArtifactTransferErrorCode;

verus! {

/// What kind of failure an operator panel reports.
#[derive(Clone, Copy, Debug, PartialEq, Eq, Structural)]
pub enum PanelFailure {
    RateLimited,
    LimitExceeded,
    UnknownWidget,
    Other,
}

/// Why a request fails.
#[derive(Debug)]
pub enum CoordinatorServiceError {
    Io(String),
    Json(String),
    Protocol(String),
    /// A protocol error whose text is that of the code.
    Transfer(ArtifactTransferErrorCode),
    /// A protocol error: what the text names has no capacity for transfers at present.
    TransferCapacity(String),
    /// A protocol error: the artifact is not there.
    ArtifactUnavailable,
    Coordinator(CoordinatorError),
    Download(DownloadError),
    Scheduler(String),
    Resource(String),
    Panel(PanelFailure, String),
    CapabilityReport(String),
    InvalidArtifactPath(String),
    InvalidTaskLogTail(String),
    TerminalOperationConflict,
    StaleNodeAssignmentAcknowledgement,
    NodeIdentityQuota { current: u64, maximum: u64 },
    ProjectQuota { current: u64, maximum: u64 },
    ActiveProcessQuota { current: u64, maximum: u64 },
    Durable(String),
}

/// The stable code of an error.
#[derive(Clone, Copy, Debug, PartialEq, Eq, Structural)]
pub enum ApiErrorCode {
    TemporaryCapacity,
    ValidationError,
    NotFound,
    Unauthenticated,
    Conflict,
    ArtifactUnavailable,
    ArtifactLimitExceeded,
    Forbidden,
    QuotaExceeded,
    NoCapableNode,
    InternalError,
}

/// What an error is about.
#[derive(Clone, Copy, Debug, PartialEq, Eq, Structural)]
pub enum ApiErrorCategory {
    Availability,
    Validation,
    State,
    Authentication,
    Resource,
    Authorization,
    Internal,
}

/// The quota that a request exceeds, and the commands that help.
pub struct QuotaDetails {
    pub resource: String,
    pub current: u64,
    pub maximum: u64,
    pub commands: Vec<String>,
}

/// What is answered to a request that fails. Where there is no code, code and category follow from
/// the message.
pub struct ApiError {
    pub code: Option<(ApiErrorCode, ApiErrorCategory, bool)>,
    pub message: String,
    pub request_id: String,
    pub quota: Option<QuotaDetails>,
}

/// A quota in words.
pub open spec fn quota_text(what: Seq<char>, current: u64, maximum: u64) -> Seq<char> {
    what + " quota exceeded ("@ + decimal(current as nat) + " of "@ + decimal(maximum as nat) + ")"@
}

fn quota_message(what: &str, current: u64, maximum: u64) -> (r: String)
    ensures
        r@ == quota_text(what@, current, maximum),
{
    let a: String = decimal_text(current);
    let b: String = decimal_text(maximum);
    let head: String = concat5(what, " quota exceeded (", a.as_str(), " of ", b.as_str());
    concat2(head.as_str(), ")")
}

impl CoordinatorServiceError {
    /// A protocol error with the given text.
    pub open spec fn protests(&self, reason: Seq<char>) -> bool {
        *self matches CoordinatorServiceError::Protocol(text) && text@ == reason
    }

    /// A refusal with the given reason.
    pub open spec fn denies(&self, reason: Seq<char>) -> bool {
        *self matches CoordinatorServiceError::Coordinator(error) && error.denies(reason)
    }

    /// A transfer has no capacity, for the given scope.
    pub open spec fn lacks_capacity(&self, scope: Seq<char>) -> bool {
        *self matches CoordinatorServiceError::TransferCapacity(text) && text@ == scope
    }

    /// The text of the error. `detail` is the text of what it wraps, where that is worded
    /// elsewhere.
    pub open spec fn text(&self, detail: Seq<char>) -> Seq<char> {
        match *self {
            CoordinatorServiceError::Io(text) => "coordinator protocol I/O error: "@ + text@,
            CoordinatorServiceError::Json(text) => "coordinator protocol JSON error: "@ + text@,
            CoordinatorServiceError::Protocol(text) => "coordinator protocol error: "@ + text@,
            CoordinatorServiceError::Transfer(_) => "coordinator protocol error: "@ + detail,
            CoordinatorServiceError::TransferCapacity(scope) => "coordinator protocol error: "@
                + detail + ": "@ + scope@ + " is temporarily full; retry with backoff"@,
            CoordinatorServiceError::ArtifactUnavailable => "coordinator protocol error: "@
                + detail,
            CoordinatorServiceError::Coordinator(error) => "coordinator request failed: "@
                + error.text(),
            CoordinatorServiceError::Download(_) => "artifact download request failed: "@ + detail,
            CoordinatorServiceError::Scheduler(text) => "scheduler placement failed: "@ + text@,
            CoordinatorServiceError::Resource(text) => "resource limit failed: "@ + text@,
            CoordinatorServiceError::Panel(_, text) => "operator panel request failed: "@ + text@,
            CoordinatorServiceError::CapabilityReport(text) => "invalid node capability report: "@
                + text@,
            CoordinatorServiceError::InvalidArtifactPath(text) =>
                "invalid VFS artifact path reported by node: "@ + text@,
            CoordinatorServiceError::InvalidTaskLogTail(text) =>
                "invalid task log tail reported by node: "@ + text@,
            CoordinatorServiceError::TerminalOperationConflict =>
                "terminal node operation conflicts with its previously committed payload"@,
            CoordinatorServiceError::StaleNodeAssignmentAcknowledgement =>
                "node assignment acknowledgement is stale or outside node scope"@,
            CoordinatorServiceError::NodeIdentityQuota { current, maximum } => quota_text(
                "node identity"@,
                current,
                maximum,
            ),
            CoordinatorServiceError::ProjectQuota { current, maximum } => quota_text(
                "project"@,
                current,
                maximum,
            ),
            CoordinatorServiceError::ActiveProcessQuota { current, maximum } => quota_text(
                "active process"@,
                current,
                maximum,
            ),
            CoordinatorServiceError::Durable(text) => "durable coordinator state failed: "@ + text@,
        }
    }

    /// The text of the error.
    pub fn message(&self, detail: &str) -> (r: String)
        ensures
            r@ == self.text(detail@),
    {
        match self {
            CoordinatorServiceError::Io(text) => concat2(
                "coordinator protocol I/O error: ",
                text.as_str(),
            ),
            CoordinatorServiceError::Json(text) => concat2(
                "coordinator protocol JSON error: ",
                text.as_str(),
            ),
            CoordinatorServiceError::Protocol(text) => concat2(
                "coordinator protocol error: ",
                text.as_str(),
            ),
            CoordinatorServiceError::Transfer(_) => concat2("coordinator protocol error: ", detail),
            CoordinatorServiceError::TransferCapacity(scope) => concat5(
                "coordinator protocol error: ",
                detail,
                ": ",
                scope.as_str(),
                " is temporarily full; retry with backoff",
            ),
            CoordinatorServiceError::ArtifactUnavailable => concat2(
                "coordinator protocol error: ",
                detail,
            ),
            CoordinatorServiceError::Coordinator(error) => {
                let text: String = error.message();
                concat2("coordinator request failed: ", text.as_str())
            },
            CoordinatorServiceError::Download(_) => concat2(
                "artifact download request failed: ",
                detail,
            ),
            CoordinatorServiceError::Scheduler(text) => concat2(
                "scheduler placement failed: ",
                text.as_str(),
            ),
            CoordinatorServiceError::Resource(text) => concat2(
                "resource limit failed: ",
                text.as_str(),
            ),
            CoordinatorServiceError::Panel(_, text) => concat2(
                "operator panel request failed: ",
                text.as_str(),
            ),
            CoordinatorServiceError::CapabilityReport(text) => concat2(
                "invalid node capability report: ",
                text.as_str(),
            ),
            CoordinatorServiceError::InvalidArtifactPath(text) => concat2(
                "invalid VFS artifact path reported by node: ",
                text.as_str(),
            ),
            CoordinatorServiceError::InvalidTaskLogTail(text) => concat2(
                "invalid task log tail reported by node: ",
                text.as_str(),
            ),
            CoordinatorServiceError::TerminalOperationConflict =>
                "terminal node operation conflicts with its previously committed payload".to_owned(),
            CoordinatorServiceError::StaleNodeAssignmentAcknowledgement =>
                "node assignment acknowledgement is stale or outside node scope".to_owned(),
            CoordinatorServiceError::NodeIdentityQuota { current, maximum } => quota_message(
                "node identity",
                *current,
                *maximum,
            ),
            CoordinatorServiceError::ProjectQuota { current, maximum } => quota_message(
                "project",
                *current,
                *maximum,
            ),
            CoordinatorServiceError::ActiveProcessQuota { current, maximum } => quota_message(
                "active process",
                *current,
                *maximum,
            ),
            CoordinatorServiceError::Durable(text) => concat2(
                "durable coordinator state failed: ",
                text.as_str(),
            ),
        }
    }

    /// The code of the error, what it is about, and whether a retry may help. Protocol errors and
    /// refusals are told apart by their message.
    pub open spec fn classified(&self) -> Option<(ApiErrorCode, ApiErrorCategory, bool)> {
        match *self {
            CoordinatorServiceError::Io(_) => Some(
                (ApiErrorCode::TemporaryCapacity, ApiErrorCategory::Availability, true),
            ),
            CoordinatorServiceError::Json(_) => Some(
                (ApiErrorCode::ValidationError, ApiErrorCategory::Validation, false),
            ),
            CoordinatorServiceError::CapabilityReport(_) => Some(
                (ApiErrorCode::ValidationError, ApiErrorCategory::Validation, false),
            ),
            CoordinatorServiceError::InvalidArtifactPath(_) => Some(
                (ApiErrorCode::ValidationError, ApiErrorCategory::Validation, false),
            ),
            CoordinatorServiceError::InvalidTaskLogTail(_) => Some(
                (ApiErrorCode::ValidationError, ApiErrorCategory::Validation, false),
            ),
            CoordinatorServiceError::Protocol(_) => None,
            CoordinatorServiceError::Transfer(_) => None,
            CoordinatorServiceError::TransferCapacity(_) => None,
            CoordinatorServiceError::ArtifactUnavailable => None,
            CoordinatorServiceError::Coordinator(error) => match error {
                CoordinatorError::Unauthorized(_) => None,
                CoordinatorError::UnknownNode => Some(
                    (ApiErrorCode::NotFound, ApiErrorCategory::State, false),
                ),
                CoordinatorError::Enrollment(_) => Some(
                    (ApiErrorCode::Unauthenticated, ApiErrorCategory::Authentication, false),
                ),
                CoordinatorError::StaleProcessEpoch { .. } => Some(
                    (ApiErrorCode::Conflict, ApiErrorCategory::State, true),
                ),
            },
            CoordinatorServiceError::TerminalOperationConflict => Some(
                (ApiErrorCode::Conflict, ApiErrorCategory::State, false),
            ),
            CoordinatorServiceError::StaleNodeAssignmentAcknowledgement => Some(
                (ApiErrorCode::Conflict, ApiErrorCategory::State, true),
            ),
            CoordinatorServiceError::Download(error) => Some(
                match error {
                    DownloadError::NotFound => (
                        ApiErrorCode::NotFound,
                        ApiErrorCategory::State,
                        false,
                    ),
                    DownloadError::Unavailable => (
                        ApiErrorCode::ArtifactUnavailable,
                        ApiErrorCategory::Availability,
                        true,
                    ),
                    DownloadError::DirectConnectivityUnavailable(_) => (
                        ApiErrorCode::ArtifactUnavailable,
                        ApiErrorCategory::Availability,
                        true,
                    ),
                    DownloadError::LimitExceeded { .. } => (
                        ApiErrorCode::ArtifactLimitExceeded,
                        ApiErrorCategory::Resource,
                        false,
                    ),
                    DownloadError::Unauthorized(_) => (
                        ApiErrorCode::Forbidden,
                        ApiErrorCategory::Authorization,
                        false,
                    ),
                    DownloadError::InvalidToken => (
                        ApiErrorCode::Forbidden,
                        ApiErrorCategory::Authorization,
                        false,
                    ),
                    DownloadError::Usage(_) => (
                        ApiErrorCode::QuotaExceeded,
                        ApiErrorCategory::Resource,
                        true,
                    ),
                },
            ),
            CoordinatorServiceError::Resource(_) => Some(
                (ApiErrorCode::QuotaExceeded, ApiErrorCategory::Resource, true),
            ),
            CoordinatorServiceError::Scheduler(_) => Some(
                (ApiErrorCode::NoCapableNode, ApiErrorCategory::Availability, true),
            ),
            CoordinatorServiceError::Panel(failure, _) => Some(
                match failure {
                    PanelFailure::RateLimited => (
                        ApiErrorCode::QuotaExceeded,
                        ApiErrorCategory::Resource,
                        true,
                    ),
                    PanelFailure::LimitExceeded => (
                        ApiErrorCode::QuotaExceeded,
                        ApiErrorCategory::Resource,
                        true,
                    ),
                    PanelFailure::UnknownWidget => (
                        ApiErrorCode::NotFound,
                        ApiErrorCategory::State,
                        false,
                    ),
                    PanelFailure::Other => (
                        ApiErrorCode::Forbidden,
                        ApiErrorCategory::Authorization,
                        false,
                    ),
                },
            ),
            CoordinatorServiceError::NodeIdentityQuota { .. } => Some(
                (ApiErrorCode::QuotaExceeded, ApiErrorCategory::Resource, false),
            ),
            CoordinatorServiceError::ProjectQuota { .. } => Some(
                (ApiErrorCode::QuotaExceeded, ApiErrorCategory::Resource, false),
            ),
            CoordinatorServiceError::ActiveProcessQuota { .. } => Some(
                (ApiErrorCode::QuotaExceeded, ApiErrorCategory::Resource, false),
            ),
            CoordinatorServiceError::Durable(_) => Some(
                (ApiErrorCode::InternalError, ApiErrorCategory::Internal, true),
            ),
        }
    }

    /// The quota that is exceeded: its name, what is used, what is allowed, and the commands that
    /// help.
    pub open spec fn quota_exceeded(&self) -> Option<(Seq<char>, u64, u64, Seq<Seq<char>>)> {
        match *self {
            CoordinatorServiceError::NodeIdentityQuota { current, maximum } => Some(
                (
                    "node_identity"@,
                    current,
                    maximum,
                    seq!["clusterflux node list"@, "clusterflux node revoke <node-id> --yes"@],
                ),
            ),
            CoordinatorServiceError::ProjectQuota { current, maximum } => Some(
                ("project"@, current, maximum, seq!["clusterflux project list"@]),
            ),
            CoordinatorServiceError::ActiveProcessQuota { current, maximum } => Some(
                ("active_process"@, current, maximum, seq!["clusterflux process list"@]),
            ),
            _ => None,
        }
    }

    fn classification(&self) -> (r: Option<(ApiErrorCode, ApiErrorCategory, bool)>)
        ensures
            r == self.classified(),
    {
        let validation: (ApiErrorCode, ApiErrorCategory, bool) = (
            ApiErrorCode::ValidationError,
            ApiErrorCategory::Validation,
            false,
        );
        let quota: (ApiErrorCode, ApiErrorCategory, bool) = (
            ApiErrorCode::QuotaExceeded,
            ApiErrorCategory::Resource,
            false,
        );
        let usage: (ApiErrorCode, ApiErrorCategory, bool) = (
            ApiErrorCode::QuotaExceeded,
            ApiErrorCategory::Resource,
            true,
        );
        let forbidden: (ApiErrorCode, ApiErrorCategory, bool) = (
            ApiErrorCode::Forbidden,
            ApiErrorCategory::Authorization,
            false,
        );
        let missing: (ApiErrorCode, ApiErrorCategory, bool) = (
            ApiErrorCode::NotFound,
            ApiErrorCategory::State,
            false,
        );
        let unavailable: (ApiErrorCode, ApiErrorCategory, bool) = (
            ApiErrorCode::ArtifactUnavailable,
            ApiErrorCategory::Availability,
            true,
        );
        match self {
            CoordinatorServiceError::Io(_) => Some(
                (ApiErrorCode::TemporaryCapacity, ApiErrorCategory::Availability, true),
            ),
            CoordinatorServiceError::Json(_) => Some(validation),
            CoordinatorServiceError::CapabilityReport(_) => Some(validation),
            CoordinatorServiceError::InvalidArtifactPath(_) => Some(validation),
            CoordinatorServiceError::InvalidTaskLogTail(_) => Some(validation),
            CoordinatorServiceError::Protocol(_) => None,
            CoordinatorServiceError::Transfer(_) => None,
            CoordinatorServiceError::TransferCapacity(_) => None,
            CoordinatorServiceError::ArtifactUnavailable => None,
            CoordinatorServiceError::Coordinator(error) => match error {
                CoordinatorError::Unauthorized(_) => None,
                CoordinatorError::UnknownNode => Some(missing),
                CoordinatorError::Enrollment(_) => Some(
                    (ApiErrorCode::Unauthenticated, ApiErrorCategory::Authentication, false),
                ),
                CoordinatorError::StaleProcessEpoch { .. } => Some(
                    (ApiErrorCode::Conflict, ApiErrorCategory::State, true),
                ),
            },
            CoordinatorServiceError::TerminalOperationConflict => Some(
                (ApiErrorCode::Conflict, ApiErrorCategory::State, false),
            ),
            CoordinatorServiceError::StaleNodeAssignmentAcknowledgement => Some(
                (ApiErrorCode::Conflict, ApiErrorCategory::State, true),
            ),
            CoordinatorServiceError::Download(error) => Some(
                match error {
                    DownloadError::NotFound => missing,
                    DownloadError::Unavailable => unavailable,
                    DownloadError::DirectConnectivityUnavailable(_) => unavailable,
                    DownloadError::LimitExceeded { .. } => (
                        ApiErrorCode::ArtifactLimitExceeded,
                        ApiErrorCategory::Resource,
                        false,
                    ),
                    DownloadError::Unauthorized(_) => forbidden,
                    DownloadError::InvalidToken => forbidden,
                    DownloadError::Usage(_) => usage,
                },
            ),
            CoordinatorServiceError::Resource(_) => Some(usage),
            CoordinatorServiceError::Scheduler(_) => Some(
                (ApiErrorCode::NoCapableNode, ApiErrorCategory::Availability, true),
            ),
            CoordinatorServiceError::Panel(failure, _) => Some(
                match failure {
                    PanelFailure::RateLimited => usage,
                    PanelFailure::LimitExceeded => usage,
                    PanelFailure::UnknownWidget => missing,
                    PanelFailure::Other => forbidden,
                },
            ),
            CoordinatorServiceError::NodeIdentityQuota { .. } => Some(quota),
            CoordinatorServiceError::ProjectQuota { .. } => Some(quota),
            CoordinatorServiceError::ActiveProcessQuota { .. } => Some(quota),
            CoordinatorServiceError::Durable(_) => Some(
                (ApiErrorCode::InternalError, ApiErrorCategory::Internal, true),
            ),
        }
    }

    fn quota_details(&self) -> (r: Option<QuotaDetails>)
        ensures
            r is Some <==> self.quota_exceeded() is Some,
            r matches Some(d) ==> self.quota_exceeded() == Some(
                (d.resource@, d.current, d.maximum, texts(d.commands@)),
            ),
    {
        let mut commands: Vec<String> = Vec::new();
        match self {
            CoordinatorServiceError::NodeIdentityQuota { current, maximum } => {
                commands.push("clusterflux node list".to_owned());
                commands.push("clusterflux node revoke <node-id> --yes".to_owned());
                assert(texts(commands@)
                    =~= seq!["clusterflux node list"@, "clusterflux node revoke <node-id> --yes"@]);
                Some(
                    QuotaDetails {
                        resource: "node_identity".to_owned(),
                        current: *current,
                        maximum: *maximum,
                        commands,
                    },
                )
            },
            CoordinatorServiceError::ProjectQuota { current, maximum } => {
                commands.push("clusterflux project list".to_owned());
                assert(texts(commands@) =~= seq!["clusterflux project list"@]);
                Some(
                    QuotaDetails {
                        resource: "project".to_owned(),
                        current: *current,
                        maximum: *maximum,
                        commands,
                    },
                )
            },
            CoordinatorServiceError::ActiveProcessQuota { current, maximum } => {
                commands.push("clusterflux process list".to_owned());
                assert(texts(commands@) =~= seq!["clusterflux process list"@]);
                Some(
                    QuotaDetails {
                        resource: "active_process".to_owned(),
                        current: *current,
                        maximum: *maximum,
                        commands,
                    },
                )
            },
            _ => None,
        }
    }

    /// What is answered to a request that fails.
    pub fn api_error(&self, request_id: String, detail: &str) -> (r: ApiError)
        ensures
            r.code == self.classified(),
            r.message@ == self.text(detail@),
            r.request_id@ == request_id@,
            r.quota is Some <==> self.quota_exceeded() is Some,
            r.quota matches Some(d) ==> self.quota_exceeded() == Some(
                (d.resource@, d.current, d.maximum, texts(d.commands@)),
            ),
    {
        ApiError {
            code: self.classification(),
            message: self.message(detail),
            request_id,
            quota: self.quota_details(),
        }
    }
}

/// The answer to a request that fails.
pub struct CoordinatorErrorResponse {
    pub error: ApiError,
}

pub fn coordinator_service_error_response(
    request_id: String,
    error: &CoordinatorServiceError,
    detail: &str,
) -> (r: CoordinatorErrorResponse)
    ensures
        r.error.code == error.classified(),
        r.error.message@ == error.text(detail@),
        r.error.request_id@ == request_id@,
        r.error.quota is Some <==> error.quota_exceeded() is Some,
        r.error.quota matches Some(d) ==> error.quota_exceeded() == Some(
            (d.resource@, d.current, d.maximum, texts(d.commands@)),
        ),
{
    CoordinatorErrorResponse { error: error.api_error(request_id, detail) }
}

/// A protocol error with the given text.
pub fn protocol(text: &str) -> (r: CoordinatorServiceError)
    ensures
        r.protests(text@),
{
    CoordinatorServiceError::Protocol(text.to_owned())
}

/// A refusal with the given reason.
pub fn unauthorized(reason: &str) -> (r: CoordinatorServiceError)
    ensures
        r.denies(reason@),
{
    CoordinatorServiceError::Coordinator(CoordinatorError::Unauthorized(reason.to_owned()))
}

} // verus!
