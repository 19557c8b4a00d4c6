use crate::interceptor::{Action, Event, Stage};
use crate::trace::{action_at, stage_after};
use vstd::prelude::*;

verus! {

/// The stage of request `id` in a system that serves many requests at once,
/// after the steps of `schedule`: each step reports one event for one
/// request, and the requests take their steps in any order.
pub open spec fn stage_of<U, R, E>(schedule: Seq<(nat, Event<U, R, E>)>, id: nat) -> Stage
    decreases schedule.len(),
{
    if schedule.len() == 0 {
        Stage::Idle
    } else {
        let before = stage_of(schedule.drop_last(), id);
        if schedule.last().0 == id {
            before.next(schedule.last().1).0
        } else {
            before
        }
    }
}

/// The action with which step `k` of the schedule is answered.
pub open spec fn answer_at<U, R, E>(schedule: Seq<(nat, Event<U, R, E>)>, k: int) -> Action<
    U,
    R,
    E,
> {
    stage_of(schedule.take(k), schedule[k].0).next(schedule[k].1).1
}

/// The events that the schedule holds for request `id`, in their order.
pub open spec fn events_of<U, R, E>(schedule: Seq<(nat, Event<U, R, E>)>, id: nat) -> Seq<
    Event<U, R, E>,
>
    decreases schedule.len(),
{
    if schedule.len() == 0 {
        Seq::empty()
    } else if schedule.last().0 == id {
        events_of(schedule.drop_last(), id).push(schedule.last().1)
    } else {
        events_of(schedule.drop_last(), id)
    }
}

/// Where a request stands depends on its own events alone: in whatever
/// order the requests of a system take their steps, each is in the stage
/// that it would have reached if it had been served alone.
pub proof fn lemma_stage_is_own<U, R, E>(schedule: Seq<(nat, Event<U, R, E>)>, id: nat)
    ensures
        stage_of(schedule, id) == stage_after(events_of(schedule, id)),
    decreases schedule.len(),
{
    if schedule.len() > 0 {
        lemma_stage_is_own(schedule.drop_last(), id);
        if schedule.last().0 == id {
            let own = events_of(schedule, id);
            assert(own.drop_last() =~= events_of(schedule.drop_last(), id));
            assert(own.last() == schedule.last().1);
        }
    }
}

/// Requests do not interfere: each step of a system that serves many
/// requests is answered as the request's own run answers it. So the
/// storage that is handed to the wrapped service holds the user that was
/// looked up for this request, and the context that is committed is the one
/// that came back with this request's response, whatever the other requests
/// do meanwhile.
pub proof fn lemma_requests_are_isolated<U, R, E>(schedule: Seq<(nat, Event<U, R, E>)>, k: int)
    requires
        0 <= k < schedule.len(),
    ensures
        ({
            let own = events_of(schedule.take(k + 1), schedule[k].0);
            &&& own.len() > 0
            &&& own.last() == schedule[k].1
            &&& answer_at(schedule, k) == action_at(own, own.len() - 1)
        }),
{
    let id = schedule[k].0;
    let own = events_of(schedule.take(k + 1), id);
    assert(schedule.take(k + 1).drop_last() =~= schedule.take(k));
    assert(schedule.take(k + 1).last() == schedule[k]);
    lemma_stage_is_own(schedule.take(k), id);
    assert(own.take(own.len() - 1) =~= events_of(schedule.take(k), id));
}

} // verus!
