use vstd::prelude::*;

verus! {

/// The response that the interceptor generates itself when it turns a
/// request away before the wrapped service is reached.
#[derive(Clone, Copy, Debug, PartialEq, Eq)]
pub enum ErrorResponse {
    /// The request could not be processed for want of a pooled resource.
    InternalError,
    /// No authenticated identity could be established for the request.
    AuthenticationFailed,
}

/// Why a request was turned away: what is reported along with the generated
/// response.
#[derive(Clone, Copy, Debug, PartialEq, Eq)]
pub enum FailureCause {
    /// The pool handed out no resource.
    PoolUnavailable,
    /// The policy failed while it inspected the request.
    ResolutionFailed,
    /// The policy found no identity token on the request.
    TokenAbsent,
    /// No user was found for the token.
    LookupFailed,
}

impl FailureCause {
    /// The response that answers a request turned away for this cause.
    pub open spec fn response(self) -> ErrorResponse {
        match self {
            FailureCause::PoolUnavailable => ErrorResponse::InternalError,
            FailureCause::ResolutionFailed => ErrorResponse::AuthenticationFailed,
            FailureCause::TokenAbsent => ErrorResponse::AuthenticationFailed,
            FailureCause::LookupFailed => ErrorResponse::AuthenticationFailed,
        }
    }

    /// The response that answers a request turned away for this cause.
    pub fn to_response(self) -> (response: ErrorResponse)
        ensures
            response == self.response(),
    {
        match self {
            FailureCause::PoolUnavailable => ErrorResponse::InternalError,
            _ => ErrorResponse::AuthenticationFailed,
        }
    }
}

/// How the interceptor answers a request.
#[derive(Debug, PartialEq, Eq)]
pub enum Outcome<R, E> {
    /// The request was turned away before the wrapped service was reached:
    /// the generated response, and the cause to report.
    Rejected { answer: ErrorResponse, cause: FailureCause },
    /// The response of the wrapped service.
    Response(R),
    /// The response of the wrapped service, with the error of the failed
    /// commit to be attached to it.
    CommitFailed { response: R, error: E },
    /// The error of the wrapped service, as it came.
    Error(E),
}

} // verus!
