//! What a run of requests answers, one after another in the order in which
//! they reach the counter, and what holds of every such run.

use crate::counter::State;
use crate::fast_path::calls_served;
use crate::fast_path::serve;
use crate::fast_path::serve_spec;
use crate::fast_path::Conditions;
use crate::response::MyResponse;
use vstd::prelude::*;

verus! {

/// Where the counter stands before the request at `index` of a run that
/// found it at `calls`.
pub open spec fn calls_before(calls: nat, run: Seq<Conditions>, index: nat) -> nat
    decreases index,
{
    if index == 0 {
        calls
    } else {
        calls_served(calls_before(calls, run, (index - 1) as nat), run[index - 1])
    }
}

/// The responses to a run of requests on a counter that stands at `calls`.
pub open spec fn responses(calls: nat, run: Seq<Conditions>) -> Seq<MyResponse<u32>> {
    Seq::new(run.len(), |i: int| serve_spec(calls_before(calls, run, i as nat), run[i]))
}

/// Whether no request of the run meets a poisoned lock or a closed channel.
pub open spec fn undisturbed(run: Seq<Conditions>) -> bool {
    forall|i: int|
        0 <= i < run.len() ==> !(#[trigger] run[i]).lock_poisoned && !run[i].channel_closed
}

/// The responses `Success(1)`, `Success(2)` and so on, up to `Success(count)`.
pub open spec fn counting(count: nat) -> Seq<MyResponse<u32>> {
    Seq::new(count, |i: int| MyResponse::Success((i + 1) as u32))
}

/// Serves a run of requests one after another, each under the conditions
/// that it meets, and returns their responses in the same order.
pub fn serve_all(state: &mut State, run: &Vec<Conditions>) -> (answered: Vec<MyResponse<u32>>)
    ensures
        answered@ == responses(old(state)@, run@),
        final(state)@ == calls_before(old(state)@, run@, run@.len()),
{
    let mut answered: Vec<MyResponse<u32>> = Vec::new();
    let mut i: usize = 0;
    while i < run.len()
        invariant
            i <= run.len(),
            answered@.len() == i,
            state@ == calls_before(old(state)@, run@, i as nat),
            forall|k: int|
                0 <= k < i ==> answered@[k] == serve_spec(
                    calls_before(old(state)@, run@, k as nat),
                    run@[k],
                ),
        decreases run.len() - i,
    {
        let response = serve(state, run[i]);
        answered.push(response);
        i += 1;
    }
    assert(answered@ =~= responses(old(state)@, run@));
    answered
}

/// The counter never goes back, and moves by at most one for each request.
pub proof fn lemma_counter_monotonic(calls: nat, run: Seq<Conditions>, index: nat)
    requires
        index <= run.len(),
    ensures
        calls <= calls_before(calls, run, index) <= calls + index,
    decreases index,
{
    if index > 0 {
        lemma_counter_monotonic(calls, run, (index - 1) as nat);
    }
}

/// The counter stands no lower before a later request than before an
/// earlier one.
pub proof fn lemma_counter_ordered(calls: nat, run: Seq<Conditions>, earlier: nat, later: nat)
    requires
        earlier <= later <= run.len(),
    ensures
        calls_before(calls, run, earlier) <= calls_before(calls, run, later),
    decreases later,
{
    if earlier < later {
        lemma_counter_ordered(calls, run, earlier, (later - 1) as nat);
    }
}

/// Every request is answered with a value or with an internal error, and
/// with nothing else.
pub proof fn lemma_two_outcomes(calls: nat, run: Seq<Conditions>, index: int)
    requires
        0 <= index < run.len(),
    ensures
        responses(calls, run)[index] is Success || responses(calls, run)[index]
            is InternalServerError,
{
}

/// On a fresh counter, requests that meet no failure are answered with
/// 1, 2, 3 and so on, in the order in which they reach the counter: no
/// value comes twice and none is left out.
pub proof fn lemma_fresh_run_counts_up(run: Seq<Conditions>)
    requires
        undisturbed(run),
        run.len() <= u32::MAX,
    ensures
        responses(0, run) == counting(run.len()),
        responses(0, run).no_duplicates(),
        forall|value: u32|
            1 <= value <= run.len() ==> #[trigger] responses(0, run).contains(
                MyResponse::Success(value),
            ),
{
    let answered = responses(0, run);
    assert forall|i: int| 0 <= i < run.len() implies #[trigger] answered[i] == counting(
        run.len(),
    )[i] by {
        lemma_undisturbed_counter(run, i as nat);
    }
    assert(answered =~= counting(run.len()));
    assert forall|value: u32| 1 <= value <= run.len() implies #[trigger] answered.contains(
        MyResponse::Success(value),
    ) by {
        assert(answered[value - 1] == MyResponse::Success(value));
    }
}

/// Before the request at `index` of an undisturbed run on a fresh counter,
/// the counter stands at `index`.
pub proof fn lemma_undisturbed_counter(run: Seq<Conditions>, index: nat)
    requires
        undisturbed(run),
        index <= run.len() <= u32::MAX,
    ensures
        calls_before(0, run, index) == index,
    decreases index,
{
    if index > 0 {
        lemma_undisturbed_counter(run, (index - 1) as nat);
        assert(!run[index - 1].lock_poisoned);
    }
}

/// A request that meets a closed channel is answered with an internal
/// error, wherever the counter stands and whatever went before.
pub proof fn lemma_closed_channel_fails(calls: nat, run: Seq<Conditions>, index: int)
    requires
        0 <= index < run.len(),
        run[index].channel_closed,
    ensures
        responses(calls, run)[index] == MyResponse::<u32>::InternalServerError,
{
}

/// A request that meets a poisoned lock is answered with an internal error
/// and leaves the counter where it was.
pub proof fn lemma_poisoned_lock_fails(calls: nat, run: Seq<Conditions>, index: int)
    requires
        0 <= index < run.len(),
        run[index].lock_poisoned,
    ensures
        responses(calls, run)[index] == MyResponse::<u32>::InternalServerError,
        calls_before(calls, run, (index + 1) as nat) == calls_before(calls, run, index as nat),
{
}

/// Of two requests that are answered with a value, the later one gets the
/// larger value, whatever failures the run meets.
pub proof fn lemma_values_strictly_increase(
    calls: nat,
    run: Seq<Conditions>,
    earlier: int,
    later: int,
)
    requires
        0 <= earlier < later < run.len(),
        responses(calls, run)[earlier] is Success,
        responses(calls, run)[later] is Success,
    ensures
        responses(calls, run)[earlier]->Success_0 < responses(calls, run)[later]->Success_0,
{
    lemma_counter_ordered(calls, run, (earlier + 1) as nat, later as nat);
}

} // verus!
