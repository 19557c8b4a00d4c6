use crate::context::IdentityContext;
use crate::error::{ErrorResponse, FailureCause, Outcome};
use crate::identity::Identity;
use vstd::prelude::*;

verus! {

/// Where the interceptor stands with one request. Each stage but the first
/// and the last awaits the result of the action that led to it.
#[derive(Clone, Copy, Debug, PartialEq, Eq)]
pub enum Stage {
    /// Nothing has happened yet.
    Idle,
    /// A resource is being checked out of the pool.
    Acquiring,
    /// The policy is inspecting the request.
    Resolving,
    /// The user is being looked up.
    LookingUp,
    /// The wrapped service is handling the request.
    Serving,
    /// The policy is writing the identity to the response.
    Committing,
    /// The request has been answered.
    Done,
}

/// What the driver reports to the interceptor.
#[derive(Debug, PartialEq, Eq)]
pub enum Event<U, R, E> {
    /// A request has arrived.
    Arrived,
    /// The pool handed out a resource.
    Acquired,
    /// The pool handed out none.
    AcquireFailed,
    /// The policy inspected the request and found this token, or none.
    Resolved(Option<String>),
    /// The policy failed on the request.
    ResolveFailed,
    /// The lookup found this user.
    Found(U),
    /// The lookup found no user, or failed.
    NotFound,
    /// The wrapped service produced this response; `identity` is the
    /// storage that came back with it, if it did come back.
    Served { response: R, identity: Option<Identity<U>> },
    /// The wrapped service failed with this error.
    ServiceFailed(E),
    /// The policy wrote the identity to this response.
    Committed(R),
    /// The policy failed with this error on this response.
    CommitFailed(R, E),
}

/// What the interceptor asks its driver to do next.
#[derive(Debug, PartialEq, Eq)]
pub enum Action<U, R, E> {
    /// Check one resource out of the pool.
    Acquire,
    /// Have the policy inspect the request.
    Resolve,
    /// Look up the user for this token, with the resource that was checked
    /// out; the lookup uses the resource up.
    Lookup { token: String },
    /// Attach this storage to the request and call the wrapped service.
    Forward(Identity<U>),
    /// Have the policy write this context to this response.
    Commit { context: IdentityContext<U>, response: R },
    /// Answer the request, and let go of whatever is still held for it.
    Finish(Outcome<R, E>),
    /// The event is not the one that the stage awaits: it is handed back
    /// and nothing has changed.
    Refused(Event<U, R, E>),
}

/// The outcome for a request that is turned away for `cause`.
pub open spec fn rejection<R, E>(cause: FailureCause) -> Outcome<R, E> {
    Outcome::Rejected { answer: cause.response(), cause }
}

/// The context that came back from the wrapped service, if any.
pub open spec fn returned_context<U>(identity: Option<Identity<U>>) -> Option<IdentityContext<U>> {
    match identity {
        Some(identity) => identity.context(),
        None => None,
    }
}

impl Stage {
    /// The place of the stage in the order in which a request passes
    /// through them.
    pub open spec fn rank(self) -> nat {
        match self {
            Stage::Idle => 0,
            Stage::Acquiring => 1,
            Stage::Resolving => 2,
            Stage::LookingUp => 3,
            Stage::Serving => 4,
            Stage::Committing => 5,
            Stage::Done => 6,
        }
    }

    /// The transition function of the interceptor: the stage that follows
    /// and the action that is asked for.
    pub open spec fn next<U, R, E>(self, event: Event<U, R, E>) -> (Stage, Action<U, R, E>) {
        match (self, event) {
            (Stage::Idle, Event::Arrived) => (Stage::Acquiring, Action::Acquire),
            (Stage::Acquiring, Event::Acquired) => (Stage::Resolving, Action::Resolve),
            (Stage::Acquiring, Event::AcquireFailed) => (
                Stage::Done,
                Action::Finish(rejection(FailureCause::PoolUnavailable)),
            ),
            (Stage::Resolving, Event::Resolved(Some(token))) => (
                Stage::LookingUp,
                Action::Lookup { token },
            ),
            (Stage::Resolving, Event::Resolved(None)) => (
                Stage::Done,
                Action::Finish(rejection(FailureCause::TokenAbsent)),
            ),
            (Stage::Resolving, Event::ResolveFailed) => (
                Stage::Done,
                Action::Finish(rejection(FailureCause::ResolutionFailed)),
            ),
            (Stage::LookingUp, Event::Found(user)) => (
                Stage::Serving,
                Action::Forward(Identity::holding(Some(IdentityContext::fresh(user)))),
            ),
            (Stage::LookingUp, Event::NotFound) => (
                Stage::Done,
                Action::Finish(rejection(FailureCause::LookupFailed)),
            ),
            (Stage::Serving, Event::Served { response, identity }) => match returned_context(
                identity,
            ) {
                Some(context) => (Stage::Committing, Action::Commit { context, response }),
                None => (Stage::Done, Action::Finish(Outcome::Response(response))),
            },
            (Stage::Serving, Event::ServiceFailed(error)) => (
                Stage::Done,
                Action::Finish(Outcome::Error(error)),
            ),
            (Stage::Committing, Event::Committed(response)) => (
                Stage::Done,
                Action::Finish(Outcome::Response(response)),
            ),
            (Stage::Committing, Event::CommitFailed(response, error)) => (
                Stage::Done,
                Action::Finish(Outcome::CommitFailed { response, error }),
            ),
            (stage, event) => (stage, Action::Refused(event)),
        }
    }

    /// The stage of a request that has just arrived.
    pub fn new() -> (stage: Stage)
        ensures
            stage == Stage::Idle,
    {
        Stage::Idle
    }

    /// Whether the request has been answered.
    pub fn is_done(&self) -> (done: bool)
        ensures
            done == (*self is Done),
    {
        match self {
            Stage::Done => true,
            _ => false,
        }
    }

    /// Takes the interceptor one step on: consumes the event that the
    /// driver reports, and returns the stage that follows together with the
    /// action to perform next.
    pub fn step<U, R, E>(self, event: Event<U, R, E>) -> (result: (Stage, Action<U, R, E>))
        ensures
            result == self.next(event),
    {
        match (self, event) {
            (Stage::Idle, Event::Arrived) => (Stage::Acquiring, Action::Acquire),
            (Stage::Acquiring, Event::Acquired) => (Stage::Resolving, Action::Resolve),
            (Stage::Acquiring, Event::AcquireFailed) => (
                Stage::Done,
                Action::Finish(reject(FailureCause::PoolUnavailable)),
            ),
            (Stage::Resolving, Event::Resolved(Some(token))) => (
                Stage::LookingUp,
                Action::Lookup { token },
            ),
            (Stage::Resolving, Event::Resolved(None)) => (
                Stage::Done,
                Action::Finish(reject(FailureCause::TokenAbsent)),
            ),
            (Stage::Resolving, Event::ResolveFailed) => (
                Stage::Done,
                Action::Finish(reject(FailureCause::ResolutionFailed)),
            ),
            (Stage::LookingUp, Event::Found(user)) => (
                Stage::Serving,
                Action::Forward(Identity::install(user)),
            ),
            (Stage::LookingUp, Event::NotFound) => (
                Stage::Done,
                Action::Finish(reject(FailureCause::LookupFailed)),
            ),
            (Stage::Serving, Event::Served { response, identity }) => {
                match extract(identity) {
                    Some(context) => (Stage::Committing, Action::Commit { context, response }),
                    None => (Stage::Done, Action::Finish(Outcome::Response(response))),
                }
            },
            (Stage::Serving, Event::ServiceFailed(error)) => (
                Stage::Done,
                Action::Finish(Outcome::Error(error)),
            ),
            (Stage::Committing, Event::Committed(response)) => (
                Stage::Done,
                Action::Finish(Outcome::Response(response)),
            ),
            (Stage::Committing, Event::CommitFailed(response, error)) => (
                Stage::Done,
                Action::Finish(Outcome::CommitFailed { response, error }),
            ),
            (stage, event) => (stage, Action::Refused(event)),
        }
    }
}

/// Turns a request away for `cause`.
fn reject<R, E>(cause: FailureCause) -> (outcome: Outcome<R, E>)
    ensures
        outcome == rejection::<R, E>(cause),
{
    Outcome::Rejected { answer: cause.to_response(), cause }
}

/// Removes the context from the storage that came back with the response.
fn extract<U>(identity: Option<Identity<U>>) -> (context: Option<IdentityContext<U>>)
    ensures
        context == returned_context(identity),
{
    match identity {
        Some(mut identity) => identity.take(),
        None => None,
    }
}

} // verus!
