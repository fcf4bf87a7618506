//! Machine-readable API errors: an HTTP status, a stable code, a message, the next action to
//! take, and whether retrying can succeed.
use vstd::prelude::*;

use crate::coordinator::{CoordinatorError, CoordinatorFailure, coordinator_error_text};
use crate::runtime::{ExecutionError, execution_error_text};
use crate::text::{append, decimal, decimal_string, owned};

verus! {

/// The body of an API error response.
#[derive(Debug)]
pub struct ApiErrorBody {
    pub code: String,
    pub message: String,
    pub action: String,
    pub retryable: bool,
}

/// An API error: the HTTP status code and the body.
#[derive(Debug)]
pub struct ApiError {
    pub status: u16,
    pub body: ApiErrorBody,
}

/// An API error, each text taken by its characters.
pub struct ApiErrorView {
    pub status: u16,
    pub code: Seq<char>,
    pub message: Seq<char>,
    pub action: Seq<char>,
    pub retryable: bool,
}

impl View for ApiError {
    type V = ApiErrorView;

    open spec fn view(&self) -> ApiErrorView {
        ApiErrorView {
            status: self.status,
            code: self.body.code@,
            message: self.body.message@,
            action: self.body.action@,
            retryable: self.body.retryable,
        }
    }
}

/// The API error of an internal failure with this message.
pub open spec fn internal_error(message: Seq<char>) -> ApiErrorView {
    ApiErrorView {
        status: 500,
        code: "INTERNAL_ERROR"@,
        message,
        action: "Check service logs and persistent storage."@,
        retryable: false,
    }
}

/// The API error of a coordinator error.
pub open spec fn coordinator_api_error(e: CoordinatorFailure) -> ApiErrorView {
    let message = coordinator_error_text(e);
    match e {
        CoordinatorFailure::UnknownRobot(_) => ApiErrorView {
            status: 404,
            code: "IDENTITY_NOT_ENROLLED"@,
            message,
            action: "Enroll the robot public identity with POST /v1/robots."@,
            retryable: false,
        },
        CoordinatorFailure::RevokedRobot(_) => ApiErrorView {
            status: 403,
            code: "IDENTITY_REVOKED"@,
            message,
            action: "Use another enrolled identity or complete an audited key-rotation process."@,
            retryable: false,
        },
        CoordinatorFailure::AlreadyEnrolled(_) => ApiErrorView {
            status: 409,
            code: "IDENTITY_ALREADY_ENROLLED"@,
            message,
            action: "Use the enrolled identity. Key replacement requires a separate rotation process."@,
            retryable: false,
        },
        CoordinatorFailure::SubjectMismatch => ApiErrorView {
            status: 422,
            code: "IDENTITY_SUBJECT_MISMATCH"@,
            message,
            action: "Generate an identity whose subject equals the robot ID."@,
            retryable: false,
        },
        CoordinatorFailure::TwoPersonApprovalRequired => ApiErrorView {
            status: 422,
            code: "TWO_PERSON_APPROVAL_REQUIRED"@,
            message,
            action: "Add two distinct --approver values or submit two approval objects."@,
            retryable: true,
        },
        CoordinatorFailure::InvalidTtl => ApiErrorView {
            status: 422,
            code: "INVALID_TOKEN_TTL"@,
            message,
            action: "Set ttl_seconds between 1 and 300."@,
            retryable: true,
        },
        CoordinatorFailure::TaskAssigned { .. } => ApiErrorView {
            status: 409,
            code: "TASK_ALREADY_ASSIGNED"@,
            message,
            action: "Send the task to the robot that owns it, or choose another task."@,
            retryable: false,
        },
        CoordinatorFailure::Identity(_) => internal_error(message),
        CoordinatorFailure::Internal(_) => internal_error(message),
    }
}

/// The API error of an execution error.
pub open spec fn execution_api_error(e: ExecutionError) -> ApiErrorView {
    let message = execution_error_text(e);
    match e {
        ExecutionError::EmergencyStop => ApiErrorView {
            status: 423,
            code: "EMERGENCY_STOP_ACTIVE"@,
            message,
            action: "Clear the stop through an authorized local procedure before retrying."@,
            retryable: true,
        },
        ExecutionError::Schema => ApiErrorView {
            status: 422,
            code: "UNSUPPORTED_TOKEN_SCHEMA"@,
            message,
            action: "Issue a new spacl.action-token.v1 token."@,
            retryable: false,
        },
        ExecutionError::WrongRobot => ApiErrorView {
            status: 403,
            code: "WRONG_ROBOT"@,
            message,
            action: "Send the token to the robot ID in the signed claims."@,
            retryable: false,
        },
        ExecutionError::InvalidSignature(_) => ApiErrorView {
            status: 403,
            code: "INVALID_SIGNATURE"@,
            message,
            action: "Discard the token and issue a new token from the pinned coordinator."@,
            retryable: false,
        },
        ExecutionError::Expired => ApiErrorView {
            status: 410,
            code: "TOKEN_EXPIRED"@,
            message,
            action: "Issue a fresh token with the current execution context."@,
            retryable: true,
        },
        ExecutionError::Sequence { expected, .. } => ApiErrorView {
            status: 409,
            code: "SEQUENCE_GAP"@,
            message,
            action: "Reconcile or execute sequence "@ + decimal(expected as nat) + " before later tokens."@,
            retryable: true,
        },
        ExecutionError::Context => ApiErrorView {
            status: 409,
            code: "CONTEXT_MISMATCH"@,
            message,
            action: "Refresh the world state and issue a token for the current context."@,
            retryable: true,
        },
        ExecutionError::Policy(_) => ApiErrorView {
            status: 422,
            code: "POLICY_DENIED"@,
            message,
            action: "Reduce the requested limits or select an allowed skill and zone."@,
            retryable: true,
        },
        ExecutionError::Replay => ApiErrorView {
            status: 409,
            code: "TOKEN_REPLAY"@,
            message,
            action: "Do not retry a consumed token. Issue a new token."@,
            retryable: false,
        },
        ExecutionError::Internal(_) => internal_error(message),
    }
}

impl ApiErrorBody {
    /// The error as a client shows it: the message, the code, and the next action.
    pub fn summary(&self) -> (s: String)
        ensures
            s@ == self.message@ + " ("@ + self.code@ + ")\nNext: "@ + self.action@,
    {
        let mut s = self.message.clone();
        append(&mut s, " (");
        append(&mut s, self.code.as_str());
        append(&mut s, ")\nNext: ");
        append(&mut s, self.action.as_str());
        s
    }
}

impl ApiError {
    /// An API error with these parts.
    pub fn new(status: u16, code: &str, message: String, action: &str, retryable: bool) -> (e: Self)
        ensures
            e@ == (ApiErrorView { status, code: code@, message: message@, action: action@, retryable }),
    {
        ApiError {
            status,
            body: ApiErrorBody { code: owned(code), message, action: owned(action), retryable },
        }
    }

    /// The API error of an internal failure.
    pub fn internal(message: String) -> (e: Self)
        ensures
            e@ == internal_error(message@),
    {
        ApiError::new(500, "INTERNAL_ERROR", message, "Check service logs and persistent storage.", false)
    }

    /// The API error of a coordinator error.
    pub fn from_coordinator_error(error: &CoordinatorError) -> (e: Self)
        ensures
            e@ == coordinator_api_error(error@),
    {
        let message = error.message();
        match error {
            CoordinatorError::UnknownRobot(_) => ApiError::new(
                404,
                "IDENTITY_NOT_ENROLLED",
                message,
                "Enroll the robot public identity with POST /v1/robots.",
                false,
            ),
            CoordinatorError::RevokedRobot(_) => ApiError::new(
                403,
                "IDENTITY_REVOKED",
                message,
                "Use another enrolled identity or complete an audited key-rotation process.",
                false,
            ),
            CoordinatorError::AlreadyEnrolled(_) => ApiError::new(
                409,
                "IDENTITY_ALREADY_ENROLLED",
                message,
                "Use the enrolled identity. Key replacement requires a separate rotation process.",
                false,
            ),
            CoordinatorError::SubjectMismatch => ApiError::new(
                422,
                "IDENTITY_SUBJECT_MISMATCH",
                message,
                "Generate an identity whose subject equals the robot ID.",
                false,
            ),
            CoordinatorError::TwoPersonApprovalRequired => ApiError::new(
                422,
                "TWO_PERSON_APPROVAL_REQUIRED",
                message,
                "Add two distinct --approver values or submit two approval objects.",
                true,
            ),
            CoordinatorError::InvalidTtl => ApiError::new(
                422,
                "INVALID_TOKEN_TTL",
                message,
                "Set ttl_seconds between 1 and 300.",
                true,
            ),
            CoordinatorError::TaskAssigned { .. } => ApiError::new(
                409,
                "TASK_ALREADY_ASSIGNED",
                message,
                "Send the task to the robot that owns it, or choose another task.",
                false,
            ),
            CoordinatorError::Identity(_) => ApiError::internal(message),
            CoordinatorError::Internal(_) => ApiError::internal(message),
        }
    }

    /// The API error of an execution error.
    pub fn from_execution_error(error: &ExecutionError) -> (e: Self)
        ensures
            e@ == execution_api_error(*error),
    {
        let message = error.message();
        match error {
            ExecutionError::EmergencyStop => ApiError::new(
                423,
                "EMERGENCY_STOP_ACTIVE",
                message,
                "Clear the stop through an authorized local procedure before retrying.",
                true,
            ),
            ExecutionError::Schema => ApiError::new(
                422,
                "UNSUPPORTED_TOKEN_SCHEMA",
                message,
                "Issue a new spacl.action-token.v1 token.",
                false,
            ),
            ExecutionError::WrongRobot => ApiError::new(
                403,
                "WRONG_ROBOT",
                message,
                "Send the token to the robot ID in the signed claims.",
                false,
            ),
            ExecutionError::InvalidSignature(_) => ApiError::new(
                403,
                "INVALID_SIGNATURE",
                message,
                "Discard the token and issue a new token from the pinned coordinator.",
                false,
            ),
            ExecutionError::Expired => ApiError::new(
                410,
                "TOKEN_EXPIRED",
                message,
                "Issue a fresh token with the current execution context.",
                true,
            ),
            ExecutionError::Sequence { expected, .. } => {
                let mut action = owned("Reconcile or execute sequence ");
                let n = decimal_string(*expected);
                append(&mut action, n.as_str());
                append(&mut action, " before later tokens.");
                ApiError::new(409, "SEQUENCE_GAP", message, action.as_str(), true)
            },
            ExecutionError::Context => ApiError::new(
                409,
                "CONTEXT_MISMATCH",
                message,
                "Refresh the world state and issue a token for the current context.",
                true,
            ),
            ExecutionError::Policy(_) => ApiError::new(
                422,
                "POLICY_DENIED",
                message,
                "Reduce the requested limits or select an allowed skill and zone.",
                true,
            ),
            ExecutionError::Replay => ApiError::new(
                409,
                "TOKEN_REPLAY",
                message,
                "Do not retry a consumed token. Issue a new token.",
                false,
            ),
            ExecutionError::Internal(_) => ApiError::internal(message),
        }
    }
}

} // verus!
