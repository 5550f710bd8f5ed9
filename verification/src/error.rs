//! Failures of the coordinator and the status codes that callers see.

use vstd::prelude::*;
use vstd::string::StringExecFns;

verus! {

/// What can go wrong while the coordinator serves a call.
#[derive(Clone, Copy, Debug, PartialEq, Eq, Structural)]
pub enum CoordinatorError {
    /// A worker tried to register under an id that is taken.
    DuplicateRegistration,
    /// A poll found the worker unknown or its queue empty.
    NoJobAvailable,
    /// A completion report matched no queued job.
    JobNotFound,
    /// The user record could not be looked up or saved.
    PersistenceFailure,
    /// The notification sink no longer accepts events.
    NotificationChannelFailure,
}

/// The status codes of the protocol.
#[derive(Clone, Copy, Debug, PartialEq, Eq, Structural)]
pub enum StatusCode {
    AlreadyExists,
    NotFound,
    Internal,
}

impl CoordinatorError {
    /// The status code that stands for this failure in the protocol. A closed
    /// notification sink has none: it is a defect of the process, not an
    /// answer to a call.
    pub open spec fn status_code_spec(self) -> Option<StatusCode> {
        match self {
            CoordinatorError::DuplicateRegistration => Some(StatusCode::AlreadyExists),
            CoordinatorError::NoJobAvailable => Some(StatusCode::NotFound),
            CoordinatorError::JobNotFound => Some(StatusCode::NotFound),
            CoordinatorError::PersistenceFailure => Some(StatusCode::Internal),
            CoordinatorError::NotificationChannelFailure => None,
        }
    }

    /// The status code that stands for this failure in the protocol.
    #[verifier::when_used_as_spec(status_code_spec)]
    pub fn status_code(self) -> (code: Option<StatusCode>)
        ensures
            code == self.status_code_spec(),
    {
        match self {
            CoordinatorError::DuplicateRegistration => Some(StatusCode::AlreadyExists),
            CoordinatorError::NoJobAvailable => Some(StatusCode::NotFound),
            CoordinatorError::JobNotFound => Some(StatusCode::NotFound),
            CoordinatorError::PersistenceFailure => Some(StatusCode::Internal),
            CoordinatorError::NotificationChannelFailure => None,
        }
    }

    /// The text that accompanies this failure.
    pub open spec fn message_spec(self) -> Seq<char> {
        match self {
            CoordinatorError::DuplicateRegistration => "Worker already registered"@,
            CoordinatorError::NoJobAvailable => "No more jobs"@,
            CoordinatorError::JobNotFound => "Job not found"@,
            CoordinatorError::PersistenceFailure => "database error"@,
            CoordinatorError::NotificationChannelFailure => "Failed to send event."@,
        }
    }

    /// The text that accompanies this failure.
    pub fn message(self) -> (text: String)
        ensures
            text@ == self.message_spec(),
    {
        match self {
            CoordinatorError::DuplicateRegistration => String::from_str(
                "Worker already registered",
            ),
            CoordinatorError::NoJobAvailable => String::from_str("No more jobs"),
            CoordinatorError::JobNotFound => String::from_str("Job not found"),
            CoordinatorError::PersistenceFailure => String::from_str("database error"),
            CoordinatorError::NotificationChannelFailure => String::from_str(
                "Failed to send event.",
            ),
        }
    }
}

} // verus!
