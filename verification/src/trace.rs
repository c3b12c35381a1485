//! Whole runs of the executor: what holds of the actions it asks for,
//! whatever the chain answers and in whatever order the answers come.

use crate::error::FailureReason;
use crate::eth::Call;
use crate::executor::{Action, Event, RetryPolicy, State, POLL_INTERVAL};
use crate::receipt::{Receipt, TransactionHandle};
use vstd::prelude::*;

verus! {

/// Where a run stands: the state reached and the actions asked for so far,
/// in order.
pub struct Run {
    pub state: State,
    pub actions: Seq<Action>,
}

/// The run of a call over the events that its driver hands in, one after
/// the other.
pub open spec fn run(call: Call, policy: RetryPolicy, events: Seq<Event>) -> Run
    decreases events.len(),
{
    if events.len() == 0 {
        let (state, action) = State::start(call, policy);
        Run { state, actions: seq![action->0] }
    } else {
        let before = run(call, policy, events.drop_last());
        let (state, action) = before.state.step(events.last());
        Run {
            state,
            actions: match action {
                Some(a) => before.actions.push(a),
                None => before.actions,
            },
        }
    }
}

/// The number of unlocks among the actions.
pub open spec fn unlocks(actions: Seq<Action>) -> nat
    decreases actions.len(),
{
    if actions.len() == 0 {
        0
    } else {
        unlocks(actions.drop_last()) + if actions.last() is Unlock { 1nat } else { 0nat }
    }
}

/// The number of submissions among the actions.
pub open spec fn submissions(actions: Seq<Action>) -> nat
    decreases actions.len(),
{
    if actions.len() == 0 {
        0
    } else {
        submissions(actions.drop_last()) + if actions.last() is Submit { 1nat } else { 0nat }
    }
}

/// The number of polls among the actions.
pub open spec fn polls(actions: Seq<Action>) -> nat
    decreases actions.len(),
{
    if actions.len() == 0 {
        0
    } else {
        polls(actions.drop_last()) + if actions.last() is Poll { 1nat } else { 0nat }
    }
}

/// The number of queries among the actions.
pub open spec fn queries(actions: Seq<Action>) -> nat
    decreases actions.len(),
{
    if actions.len() == 0 {
        0
    } else {
        queries(actions.drop_last()) + if actions.last() is Query { 1nat } else { 0nat }
    }
}

/// Whether the state lies behind a successful authentication.
pub open spec fn authenticated(state: State) -> bool {
    match state {
        State::Submitting { .. } | State::Pending { .. } | State::Confirmed { .. } => true,
        State::Failed { reason } => reason == FailureReason::SubmissionError || reason
            == FailureReason::NodeError || reason == FailureReason::Timeout,
        _ => false,
    }
}

/// Whether the state lies behind a successful submission.
pub open spec fn submitted(state: State) -> bool {
    match state {
        State::Pending { .. } | State::Confirmed { .. } => true,
        State::Failed { reason } => reason == FailureReason::NodeError || reason
            == FailureReason::Timeout,
        _ => false,
    }
}

/// What the state of a run says of the actions asked for on the way to it.
pub open spec fn accounted(call: Call, r: Run) -> bool {
    let signed = call.operation.mutating();
    &&& unlocks(r.actions) == if signed { 1nat } else { 0nat }
    &&& queries(r.actions) == if signed { 0nat } else { 1nat }
    &&& submissions(r.actions) == if authenticated(r.state) { 1nat } else { 0nat }
    &&& polls(r.actions) > 0 ==> submitted(r.state)
    &&& r.state is Pending || r.state is Confirmed || r.state == (State::Failed {
        reason: FailureReason::NodeError,
    }) ==> polls(r.actions) > 0
    &&& signed ==> !(r.state is Querying) && !(r.state is Answered) && r.state != (State::Failed {
        reason: FailureReason::QueryError,
    })
    &&& !signed ==> r.state is Querying || r.state is Answered || r.state == (State::Failed {
        reason: FailureReason::QueryError,
    })
}

proof fn counts_of_push(actions: Seq<Action>, a: Action)
    ensures
        unlocks(actions.push(a)) == unlocks(actions) + if a is Unlock { 1nat } else { 0nat },
        submissions(actions.push(a)) == submissions(actions) + if a is Submit { 1nat } else { 0nat },
        polls(actions.push(a)) == polls(actions) + if a is Poll { 1nat } else { 0nat },
        queries(actions.push(a)) == queries(actions) + if a is Query { 1nat } else { 0nat },
{
    assert(actions.push(a).drop_last() =~= actions);
}

/// Every run is accounted for: one unlock for a state-changing call and
/// none for a query, one query for a query and none else, one submission
/// exactly behind a successful authentication, and polls only behind a
/// successful submission.
pub proof fn run_is_accounted(call: Call, policy: RetryPolicy, events: Seq<Event>)
    ensures
        accounted(call, run(call, policy, events)),
    decreases events.len(),
{
    if events.len() == 0 {
        let (state, action) = State::start(call, policy);
        counts_of_push(Seq::<Action>::empty(), action->0);
        assert(Seq::<Action>::empty().push(action->0) =~= seq![action->0]);
    } else {
        run_is_accounted(call, policy, events.drop_last());
        let before = run(call, policy, events.drop_last());
        let (state, action) = before.state.step(events.last());
        if action is Some {
            counts_of_push(before.actions, action->0);
        }
    }
}

/// As long as a run holds a call, it is the call that was started, under
/// the policy that it was started with: what is unlocked for, submitted or
/// queried is never another call.
pub proof fn run_keeps_the_call(call: Call, policy: RetryPolicy, events: Seq<Event>)
    ensures
        match run(call, policy, events).state {
            State::Authenticating { call: held, policy: kept } => held == call && kept == policy,
            State::Submitting { call: held, policy: kept } => held == call && kept == policy,
            State::Querying { call: held } => held == call,
            _ => true,
        },
    decreases events.len(),
{
    if events.len() > 0 {
        run_keeps_the_call(call, policy, events.drop_last());
    }
}

/// What a bound on the polls says of a run: no more polls than the bound,
/// and while the receipt is waited for, the polls made and the polls left
/// add up to it.
pub open spec fn within_bound(bound: u64, r: Run) -> bool {
    &&& polls(r.actions) <= bound
    &&& r.state is Authenticating || r.state is Submitting || r.state is Querying ==> polls(
        r.actions,
    ) == 0
    &&& r.state matches State::Pending { remaining, .. } ==> remaining matches Some(left)
        && polls(r.actions) + left == bound
}

/// Under a bounded policy no run polls more often than the bound allows.
pub proof fn polls_are_bounded(call: Call, policy: RetryPolicy, events: Seq<Event>)
    requires
        policy.max_polls is Some,
    ensures
        within_bound(policy.max_polls->0, run(call, policy, events)),
    decreases events.len(),
{
    if events.len() == 0 {
        let (state, action) = State::start(call, policy);
        counts_of_push(Seq::<Action>::empty(), action->0);
        assert(Seq::<Action>::empty().push(action->0) =~= seq![action->0]);
    } else {
        polls_are_bounded(call, policy, events.drop_last());
        run_keeps_the_call(call, policy, events.drop_last());
        let before = run(call, policy, events.drop_last());
        let (state, action) = before.state.step(events.last());
        if action is Some {
            counts_of_push(before.actions, action->0);
        }
    }
}

/// As many answers that the call is not mined yet.
pub open spec fn still_pending(count: nat) -> Seq<Event> {
    Seq::new(count, |i: int| Event::StillPending)
}

/// Under a bound of `n` polls, a submitted call that stays unmined is polled
/// for `n` times and no more: after fewer than `n` such answers the run
/// still waits on the same handle, and the `n`-th ends it in `Timeout`. A
/// bound of no polls ends it with the submission.
pub proof fn times_out_at_the_bound(
    call: Call,
    policy: RetryPolicy,
    events: Seq<Event>,
    handle: TransactionHandle,
    answers: nat,
)
    requires
        run(call, policy, events).state is Submitting,
        policy.max_polls matches Some(bound) && answers <= bound,
    ensures
        ({
            let bound = policy.max_polls->0;
            let reached = run(
                call,
                policy,
                events.push(Event::Submitted(handle)) + still_pending(answers),
            ).state;
            if answers < bound {
                reached == (State::Pending {
                    handle,
                    remaining: Some((bound - 1 - answers) as u64),
                })
            } else {
                reached == (State::Failed { reason: FailureReason::Timeout })
            }
        }),
    decreases answers,
{
    let taken = events.push(Event::Submitted(handle));
    run_keeps_the_call(call, policy, events);
    if answers == 0 {
        assert(taken + still_pending(0) =~= taken);
        assert(taken.drop_last() =~= events);
    } else {
        let fewer = (answers - 1) as nat;
        times_out_at_the_bound(call, policy, events, handle, fewer);
        let all = taken + still_pending(answers);
        assert(all.drop_last() =~= taken + still_pending(fewer));
        assert(all.last() == Event::StillPending);
    }
}

/// A call is submitted at most once, whatever the chain answers, and
/// exactly once where the run is past a successful authentication.
pub proof fn submitted_once(call: Call, policy: RetryPolicy, events: Seq<Event>)
    ensures
        submissions(run(call, policy, events).actions) <= 1,
        submissions(run(call, policy, events).actions) == 1 <==> authenticated(
            run(call, policy, events).state,
        ),
{
    run_is_accounted(call, policy, events);
}

/// Where the submission failed, no receipt was ever asked for.
pub proof fn no_poll_after_failed_submission(call: Call, policy: RetryPolicy, events: Seq<Event>)
    requires
        run(call, policy, events).state == (State::Failed {
            reason: FailureReason::SubmissionError,
        }),
    ensures
        polls(run(call, policy, events).actions) == 0,
{
    run_is_accounted(call, policy, events);
}

/// Where the authentication failed, nothing was submitted and no receipt
/// was asked for.
pub proof fn nothing_after_failed_authentication(
    call: Call,
    policy: RetryPolicy,
    events: Seq<Event>,
)
    requires
        run(call, policy, events).state == (State::Failed {
            reason: FailureReason::AuthenticationError,
        }),
    ensures
        submissions(run(call, policy, events).actions) == 0,
        polls(run(call, policy, events).actions) == 0,
{
    run_is_accounted(call, policy, events);
}

/// A query asks for the query and for nothing else: it never unlocks,
/// submits or polls.
pub proof fn query_only_queries(call: Call, policy: RetryPolicy, events: Seq<Event>)
    requires
        !call.operation.mutating(),
    ensures
        run(call, policy, events).actions == seq![Action::Query],
    decreases events.len(),
{
    run_is_accounted(call, policy, events);
    if events.len() > 0 {
        query_only_queries(call, policy, events.drop_last());
        run_is_accounted(call, policy, events.drop_last());
    }
}

/// While the chain says that the call is not mined yet, and the policy has
/// a poll left, the run goes on: it asks for the receipt of the same handle
/// again, after the interval.
pub proof fn polling_goes_on(call: Call, policy: RetryPolicy, events: Seq<Event>)
    requires
        run(call, policy, events).state matches State::Pending { remaining, .. } && remaining
            != Some(0u64),
    ensures
        ({
            let before = run(call, policy, events);
            let after = run(call, policy, events.push(Event::StillPending));
            &&& before.state matches State::Pending { handle, .. }
            &&& after.state matches State::Pending { handle: same, .. }
            &&& same == handle
            &&& after.actions == before.actions.push(Action::Poll { handle, wait: POLL_INTERVAL })
        }),
{
    assert(events.push(Event::StillPending).drop_last() =~= events);
}

/// A receipt ends the polling with the receipt, a node error ends it with
/// `NodeError`, and neither asks for anything more.
pub proof fn polling_stops(
    call: Call,
    policy: RetryPolicy,
    events: Seq<Event>,
    receipt: Receipt,
)
    requires
        run(call, policy, events).state is Pending,
    ensures
        run(call, policy, events.push(Event::ReceiptReady(receipt))).state == (State::Confirmed {
            receipt,
        }),
        run(call, policy, events.push(Event::ReceiptReady(receipt))).actions == run(
            call,
            policy,
            events,
        ).actions,
        run(call, policy, events.push(Event::PollFailed)).state == (State::Failed {
            reason: FailureReason::NodeError,
        }),
        run(call, policy, events.push(Event::PollFailed)).actions == run(
            call,
            policy,
            events,
        ).actions,
{
    assert(events.push(Event::ReceiptReady(receipt)).drop_last() =~= events);
    assert(events.push(Event::PollFailed).drop_last() =~= events);
}

/// Once a run has ended, no event changes its state or asks for anything.
pub proof fn ended_run_stays(
    call: Call,
    policy: RetryPolicy,
    events: Seq<Event>,
    more: Seq<Event>,
)
    requires
        run(call, policy, events).state.terminal(),
    ensures
        run(call, policy, events + more) == run(call, policy, events),
    decreases more.len(),
{
    if more.len() == 0 {
        assert(events + more =~= events);
    } else {
        ended_run_stays(call, policy, events, more.drop_last());
        assert((events + more).drop_last() =~= events + more.drop_last());
        assert((events + more).last() == more.last());
    }
}

/// Every poll of a run asks with the handle that the submission returned.
pub proof fn polls_keep_the_handle(
    call: Call,
    policy: RetryPolicy,
    events: Seq<Event>,
    handle: TransactionHandle,
    more: Seq<Event>,
)
    requires
        run(call, policy, events).state is Submitting,
    ensures
        ({
            let before = run(call, policy, events).actions;
            let after = run(call, policy, events.push(Event::Submitted(handle)) + more).actions;
            forall|i: int|
                before.len() <= i < after.len() ==> (#[trigger] after[i] matches Action::Poll {
                    handle: h,
                    ..
                } && h == handle)
        }),
    decreases more.len(),
{
    let taken = events.push(Event::Submitted(handle));
    assert(taken.drop_last() =~= events);
    handle_is_kept(call, policy, taken, handle, more);
    let before = run(call, policy, events).actions;
    let at = run(call, policy, taken).actions;
    let after = run(call, policy, taken + more).actions;
    assert forall|i: int| before.len() <= i < after.len() implies (#[trigger] after[i] matches Action::Poll {
        handle: h,
        ..
    } && h == handle) by {
        if i < at.len() {
            assert(after[i] == at[i]);
        }
    }
}

/// Behind a submission the run keeps its handle, and adds nothing but polls
/// of it.
proof fn handle_is_kept(
    call: Call,
    policy: RetryPolicy,
    taken: Seq<Event>,
    handle: TransactionHandle,
    more: Seq<Event>,
)
    requires
        taken.len() > 0,
        taken.last() == Event::Submitted(handle),
        run(call, policy, taken.drop_last()).state is Submitting,
    ensures
        ({
            let at = run(call, policy, taken);
            let after = run(call, policy, taken + more);
            &&& at.actions.len() <= after.actions.len()
            &&& after.state matches State::Pending { handle: h, .. } ==> h == handle
            &&& !(after.state is Authenticating) && !(after.state is Submitting)
            &&& forall|i: int| 0 <= i < at.actions.len() ==> after.actions[i] == at.actions[i]
            &&& forall|i: int|
                run(call, policy, taken.drop_last()).actions.len() <= i < after.actions.len() ==> (
                #[trigger] after.actions[i] matches Action::Poll { handle: h, .. } && h == handle)
        }),
    decreases more.len(),
{
    if more.len() == 0 {
        assert(taken + more =~= taken);
    } else {
        handle_is_kept(call, policy, taken, handle, more.drop_last());
        assert((taken + more).drop_last() =~= taken + more.drop_last());
        assert((taken + more).last() == more.last());
    }
}

} // verus!
