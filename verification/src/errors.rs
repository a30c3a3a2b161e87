//! How a request or a background task can fail.

use vstd::prelude::*;

verus! {

/// The failure of a request, as the caller sees it.
#[derive(Clone, Copy, Debug, PartialEq, Eq, Structural)]
pub enum ApiError {
    /// The request is malformed.
    BadRequest,
    /// The caller did not prove who they are.
    Unauthorized,
    /// The caller may not do what they asked for.
    Forbidden,
    /// What the request names does not exist.
    NotFound,
    /// The budget of calls to the stats service is used up until the given
    /// time, in seconds since the Unix epoch.
    RateLimited { retry_after: u64 },
    /// The format asked for is not offered.
    NotImplemented,
    /// Something failed on this side or at a service that was called.
    Internal,
}

impl ApiError {
    /// The status code that answers the request.
    pub open spec fn spec_status(self) -> u16 {
        match self {
            ApiError::BadRequest => 400,
            ApiError::Unauthorized => 401,
            ApiError::Forbidden => 403,
            ApiError::NotFound => 404,
            ApiError::RateLimited { .. } => 429,
            ApiError::NotImplemented => 501,
            ApiError::Internal => 500,
        }
    }

    #[verifier::when_used_as_spec(spec_status)]
    pub fn status(self) -> (r: u16)
        ensures
            r == self.spec_status(),
    {
        match self {
            ApiError::BadRequest => 400,
            ApiError::Unauthorized => 401,
            ApiError::Forbidden => 403,
            ApiError::NotFound => 404,
            ApiError::RateLimited { .. } => 429,
            ApiError::NotImplemented => 501,
            ApiError::Internal => 500,
        }
    }

    /// What an error that nobody handled turns into.
    pub fn handle_internal_error() -> (r: ApiError)
        ensures
            r == ApiError::Internal,
    {
        ApiError::Internal
    }
}

/// The failure of a background task. It says no more than that the task
/// failed.
#[derive(Clone, Copy, Debug, PartialEq, Eq, Structural)]
pub struct TaskError;

impl TaskError {
    /// What any error met while a task ran turns into.
    pub fn handle() -> (r: TaskError)
        ensures
            r == TaskError,
    {
        TaskError
    }
}

} // verus!
