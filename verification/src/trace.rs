use crate::context::IdentityContext;
use crate::error::{ErrorResponse, FailureCause, Outcome};
use crate::identity::Identity;
use crate::interceptor::{returned_context, Action, Event, Stage};
use vstd::prelude::*;

verus! {

impl<U, R, E> Action<U, R, E> {
    /// The place of the action in the order in which a request asks for
    /// them; a refusal has none and counts as 0.
    pub open spec fn rank(self) -> nat {
        match self {
            Action::Refused(_) => 0,
            Action::Acquire => 1,
            Action::Resolve => 2,
            Action::Lookup { .. } => 3,
            Action::Forward(_) => 4,
            Action::Commit { .. } => 5,
            Action::Finish(_) => 6,
        }
    }
}

/// The stage that a request has reached when its driver has reported
/// `events`, in this order, from its arrival on.
pub open spec fn stage_after<U, R, E>(events: Seq<Event<U, R, E>>) -> Stage
    decreases events.len(),
{
    if events.len() == 0 {
        Stage::Idle
    } else {
        stage_after(events.drop_last()).next(events.last()).0
    }
}

/// The stage in which the request stands when event `i` is reported.
pub open spec fn stage_before<U, R, E>(events: Seq<Event<U, R, E>>, i: int) -> Stage {
    stage_after(events.take(i))
}

/// The action with which the interceptor answers event `i`.
pub open spec fn action_at<U, R, E>(events: Seq<Event<U, R, E>>, i: int) -> Action<U, R, E> {
    stage_before(events, i).next(events[i]).1
}

/// A step never leads back. It leads on exactly when the event is accepted,
/// and then the action that is asked for is the one that belongs to the
/// stage that follows, or the request is answered.
pub proof fn lemma_step_leads_on<U, R, E>(stage: Stage, event: Event<U, R, E>)
    ensures
        stage.rank() <= stage.next(event).0.rank(),
        stage.next(event).1 is Refused <==> stage.next(event).0 == stage,
        stage.next(event).1 is Refused <==> stage.next(event).1 == Action::Refused(event),
        !(stage.next(event).1 is Refused) ==> stage.next(event).0.rank() == stage.next(
            event,
        ).1.rank() || stage.next(event).1 is Finish,
        !(stage.next(event).1 is Refused) && !(stage.next(event).1 is Finish)
            ==> stage.next(event).0.rank() == stage.rank() + 1,
        stage.next(event).1 is Finish <==> stage.next(event).0 is Done && !(stage is Done),
        stage is Done ==> stage.next(event).1 is Refused,
        stage.next(event).1 is Finish ==> stage.rank() >= 1,
{
}

/// The stage before event `i + 1` is the one to which event `i` led.
pub proof fn lemma_stage_unfolds<U, R, E>(events: Seq<Event<U, R, E>>, i: int)
    requires
        0 <= i < events.len(),
    ensures
        stage_before(events, i + 1) == stage_before(events, i).next(events[i]).0,
        stage_before(events, 0) == Stage::Idle,
{
    assert(events.take(i + 1).drop_last() =~= events.take(i));
    assert(events.take(i + 1).last() == events[i]);
}

/// A request passes through the stages in their order: what comes later in
/// the run happens in the same stage or in a later one.
pub proof fn lemma_stages_in_order<U, R, E>(events: Seq<Event<U, R, E>>, i: int, j: int)
    requires
        0 <= i <= j <= events.len(),
    ensures
        stage_before(events, i).rank() <= stage_before(events, j).rank(),
    decreases j - i,
{
    if i < j {
        lemma_stages_in_order(events, i, j - 1);
        lemma_stage_unfolds(events, j - 1);
        lemma_step_leads_on(stage_before(events, j - 1), events[j - 1]);
    }
}

/// The actions of a run come in their order, and none comes twice: of two
/// events that are accepted, the later one is answered with a later action.
/// So the pool is asked once at most, the policy inspects the request once
/// at most, the wrapped service is called once at most, and the request is
/// answered once at most.
pub proof fn lemma_actions_in_order<U, R, E>(events: Seq<Event<U, R, E>>, i: int, j: int)
    requires
        0 <= i < j < events.len(),
        !(action_at(events, i) is Refused),
        !(action_at(events, j) is Refused),
    ensures
        action_at(events, i).rank() < action_at(events, j).rank(),
{
    lemma_stage_unfolds(events, i);
    lemma_stage_unfolds(events, j);
    lemma_stages_in_order(events, i + 1, j);
    lemma_step_leads_on(stage_before(events, i), events[i]);
    lemma_step_leads_on(stage_before(events, j), events[j]);
}

/// No action is skipped: when an action other than the answer is asked for,
/// each action before it in the order has been asked for earlier in the
/// run. The index of that earlier event is returned.
pub proof fn lemma_no_action_skipped<U, R, E>(events: Seq<Event<U, R, E>>, j: int, k: nat) -> (i:
    int)
    requires
        0 <= j < events.len(),
        if action_at(events, j) is Finish {
            1 <= k <= stage_before(events, j).rank()
        } else {
            1 <= k < action_at(events, j).rank()
        },
    ensures
        0 <= i < j,
        action_at(events, i).rank() == k,
        !(action_at(events, i) is Finish),
{
    lemma_step_leads_on(stage_before(events, j), events[j]);
    lemma_stage_unfolds(events, j);
    lemma_stage_reached(events, j, k)
}

/// A stage that the run has reached was entered by the action that belongs
/// to it. The index of the event that was answered so is returned.
proof fn lemma_stage_reached<U, R, E>(events: Seq<Event<U, R, E>>, j: int, k: nat) -> (i: int)
    requires
        0 <= j <= events.len(),
        1 <= k <= stage_before(events, j).rank(),
        !(stage_before(events, j) is Done),
    ensures
        0 <= i < j,
        action_at(events, i).rank() == k,
        !(action_at(events, i) is Finish),
    decreases j,
{
    if j == 0 {
        assert(events.take(0).len() == 0);
        0
    } else {
        lemma_stage_unfolds(events, j - 1);
        lemma_step_leads_on(stage_before(events, j - 1), events[j - 1]);
        if stage_before(events, j - 1).rank() >= k {
            lemma_stage_reached(events, j - 1, k)
        } else {
            j - 1
        }
    }
}

/// Once the request is answered, every further event is refused.
pub proof fn lemma_answered_is_final<U, R, E>(events: Seq<Event<U, R, E>>, i: int, j: int)
    requires
        0 <= i <= j < events.len(),
        stage_before(events, i) is Done,
    ensures
        stage_before(events, j) is Done,
        action_at(events, j) == Action::Refused(events[j]),
{
    lemma_stages_in_order(events, i, j);
}

/// A request that is turned away never reaches the wrapped service, and
/// nothing is committed for it: in a run in which some event is answered
/// with a rejection, no event is answered with `Forward` or `Commit`.
pub proof fn lemma_rejected_is_never_served<U, R, E>(events: Seq<Event<U, R, E>>, i: int)
    requires
        0 <= i < events.len(),
        action_at(events, i) matches Action::Finish(Outcome::Rejected { .. }),
    ensures
        forall|j: int|
            0 <= j < events.len() ==> !(#[trigger] action_at(events, j) is Forward) && !(
            action_at(events, j) is Commit),
{
    assert forall|j: int| 0 <= j < events.len() implies !(#[trigger] action_at(events, j)
        is Forward) && !(action_at(events, j) is Commit) by {
        lemma_stage_unfolds(events, i);
        if j < i {
            lemma_stage_unfolds(events, j);
            lemma_stages_in_order(events, j + 1, i);
        } else if j > i {
            lemma_answered_is_final(events, i + 1, j);
        }
    }
}

/// When the policy finds no token, the request is answered at once with an
/// authentication failure that reports the missing token, and the wrapped
/// service is never called in that run.
pub proof fn lemma_absent_token_is_rejected<U, R, E>(events: Seq<Event<U, R, E>>, i: int)
    requires
        0 <= i < events.len(),
        stage_before(events, i) is Resolving,
        events[i] == Event::<U, R, E>::Resolved(None),
    ensures
        action_at(events, i) == Action::<U, R, E>::Finish(
            Outcome::Rejected {
                answer: ErrorResponse::AuthenticationFailed,
                cause: FailureCause::TokenAbsent,
            },
        ),
        stage_before(events, i + 1) is Done,
        forall|j: int| 0 <= j < events.len() ==> !(#[trigger] action_at(events, j) is Forward),
{
    lemma_stage_unfolds(events, i);
    lemma_rejected_is_never_served(events, i);
}

/// When the pool hands out no resource, the request is answered at once
/// with an internal error that reports the pool, and in that run the policy
/// is never asked, no user is looked up and the wrapped service is never
/// called.
pub proof fn lemma_pool_failure_is_rejected<U, R, E>(events: Seq<Event<U, R, E>>, i: int)
    requires
        0 <= i < events.len(),
        stage_before(events, i) is Acquiring,
        events[i] is AcquireFailed,
    ensures
        action_at(events, i) == Action::<U, R, E>::Finish(
            Outcome::Rejected {
                answer: ErrorResponse::InternalError,
                cause: FailureCause::PoolUnavailable,
            },
        ),
        stage_before(events, i + 1) is Done,
        forall|j: int|
            0 <= j < events.len() ==> !(#[trigger] action_at(events, j) is Resolve) && !(
            action_at(events, j) is Lookup) && !(action_at(events, j) is Forward) && !(
            action_at(events, j) is Commit),
{
    lemma_stage_unfolds(events, i);
    assert forall|j: int| 0 <= j < events.len() implies !(#[trigger] action_at(events, j)
        is Resolve) && !(action_at(events, j) is Lookup) && !(action_at(events, j) is Forward)
        && !(action_at(events, j) is Commit) by {
        if j < i {
            lemma_stage_unfolds(events, j);
            lemma_stages_in_order(events, j + 1, i);
        } else if j > i {
            lemma_answered_is_final(events, i + 1, j);
        }
    }
}

/// The wrapped service is called only after the pool, the policy and the
/// lookup have all succeeded, in this order; what it is handed is storage
/// with a fresh context for the user that the lookup found. The indices of
/// the three earlier events are returned.
pub proof fn lemma_service_follows_lookup<U, R, E>(events: Seq<Event<U, R, E>>, j: int) -> (at: (
    int,
    int,
    int,
))
    requires
        0 <= j < events.len(),
        action_at(events, j) is Forward,
    ensures
        0 <= at.0 < at.1 < at.2 < j,
        action_at(events, at.0) is Acquire && events[at.0] is Arrived,
        action_at(events, at.1) is Resolve && events[at.1] is Acquired,
        ({
            &&& events[at.2] matches Event::Resolved(Some(token))
            &&& action_at(events, at.2) == (Action::<U, R, E>::Lookup { token })
        }),
        ({
            &&& events[j] matches Event::Found(user)
            &&& action_at(events, j) == Action::<U, R, E>::Forward(
                Identity::holding(Some(IdentityContext::fresh(user))),
            )
        }),
{
    let a = lemma_no_action_skipped(events, j, 1);
    let b = lemma_no_action_skipped(events, j, 2);
    let c = lemma_no_action_skipped(events, j, 3);
    if b < a {
        lemma_actions_in_order(events, b, a);
    }
    if c < b {
        lemma_actions_in_order(events, c, b);
    }
    (a, b, c)
}

/// A request for which the lookup succeeds gets exactly one context: the
/// storage is handed out once in the whole run, when the lookup is
/// reported. The context is taken out of the storage again before the
/// policy commits: a commit is asked for only in answer to the response of
/// the wrapped service, after the storage was handed out, and what is
/// committed is the context that came back in the storage.
pub proof fn lemma_one_context_per_request<U, R, E>(events: Seq<Event<U, R, E>>, i: int)
    requires
        0 <= i < events.len(),
        stage_before(events, i) is LookingUp,
        events[i] is Found,
    ensures
        action_at(events, i) == Action::<U, R, E>::Forward(
            Identity::holding(Some(IdentityContext::fresh(events[i]->Found_0))),
        ),
        forall|j: int|
            0 <= j < events.len() && #[trigger] action_at(events, j) is Forward ==> j == i,
        forall|j: int|
            0 <= j < events.len() && #[trigger] action_at(events, j) is Commit ==> {
                &&& i < j
                &&& events[j] matches Event::Served { response, identity }
                &&& returned_context(identity) matches Some(context)
                &&& action_at(events, j) == (Action::<U, R, E>::Commit { context, response })
            },
{
    assert forall|j: int|
        0 <= j < events.len() && #[trigger] action_at(events, j) is Forward implies j == i by {
        if j < i {
            lemma_actions_in_order(events, j, i);
        } else if i < j {
            lemma_actions_in_order(events, i, j);
        }
    }
    assert forall|j: int|
        0 <= j < events.len() && #[trigger] action_at(events, j) is Commit implies {
            &&& i < j
            &&& events[j] matches Event::Served { response, identity }
            &&& returned_context(identity) matches Some(context)
            &&& action_at(events, j) == (Action::<U, R, E>::Commit { context, response })
        } by {
        if j < i {
            lemma_actions_in_order(events, j, i);
        }
    }
}

/// When the commit fails after the wrapped service succeeded, the request
/// is still answered with the response, which carries the error of the
/// commit. The response had come from the wrapped service and was handed to
/// the commit as it came.
pub proof fn lemma_commit_failure_keeps_response<U, R, E>(
    events: Seq<Event<U, R, E>>,
    i: int,
    response: R,
    error: E,
)
    requires
        0 <= i < events.len(),
        stage_before(events, i) is Committing,
        events[i] == Event::<U, R, E>::CommitFailed(response, error),
    ensures
        action_at(events, i) == Action::<U, R, E>::Finish(
            Outcome::CommitFailed { response, error },
        ),
        exists|h: int|
            0 <= h < i && (#[trigger] events[h]) is Served && action_at(events, h) is Commit
                && action_at(events, h)->Commit_response == events[h]->Served_response,
{
    let h = lemma_no_action_skipped(events, i, 5);
    assert(events[h] is Served);
}

/// An error of the wrapped service is passed on as it came, and nothing is
/// committed in that run.
pub proof fn lemma_service_error_is_passed_on<U, R, E>(
    events: Seq<Event<U, R, E>>,
    i: int,
    error: E,
)
    requires
        0 <= i < events.len(),
        stage_before(events, i) is Serving,
        events[i] == Event::<U, R, E>::ServiceFailed(error),
    ensures
        action_at(events, i) == Action::<U, R, E>::Finish(Outcome::Error(error)),
        forall|j: int| 0 <= j < events.len() ==> !(#[trigger] action_at(events, j) is Commit),
{
    lemma_stage_unfolds(events, i);
    assert forall|j: int| 0 <= j < events.len() implies !(#[trigger] action_at(events, j)
        is Commit) by {
        if j < i {
            lemma_stage_unfolds(events, j);
            lemma_step_leads_on(stage_before(events, j), events[j]);
            lemma_stages_in_order(events, j + 1, i);
        } else if j > i {
            lemma_answered_is_final(events, i + 1, j);
        }
    }
}

} // verus!
