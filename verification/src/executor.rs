//! The transaction executor: a state machine that takes one contract call
//! from authentication over submission to a mined receipt or a typed
//! failure. The machine decides; whoever drives it performs the action it
//! names on the chain and hands back what happened.

use crate::error::FailureReason;
use crate::eth::{Call, OperationDescriptor};
use crate::receipt::{Receipt, TransactionHandle};
use crate::uint256::Uint256;
use vstd::prelude::*;

verus! {

/// The time to wait before a receipt is asked for again.
pub const POLL_INTERVAL: u64 = 1;

/// How long a receipt is waited for.
#[derive(Clone, Copy, Debug, PartialEq, Eq)]
pub struct RetryPolicy {
    /// The number of polls after which the execution ends in `Timeout`;
    /// `None` polls without bound.
    pub max_polls: Option<u64>,
}

/// What the chain did in answer to the last action.
#[derive(Clone, Copy, Debug, PartialEq, Eq)]
pub enum Event {
    /// The node answered the unlock: `true` where it unlocked the account.
    Unlocked(bool),
    /// The unlock call itself failed.
    UnlockFailed,
    /// The node took the call and returned its handle.
    Submitted(TransactionHandle),
    /// The node did not take the call.
    SubmitFailed,
    /// The poll returned the receipt.
    ReceiptReady(Receipt),
    /// The poll found the call not mined yet.
    StillPending,
    /// The poll failed.
    PollFailed,
    /// The query returned a value.
    QueryAnswered(Uint256),
    /// The query failed.
    QueryFailed,
}

/// What is to be done on the chain next. The call that `Unlock`, `Submit`
/// and `Query` speak of is the one that the executor holds.
#[derive(Clone, Copy, Debug, PartialEq, Eq)]
pub enum Action {
    /// Unlock the sender's account with the credential.
    Unlock,
    /// Submit the call.
    Submit,
    /// Wait `wait` time units, then ask for the receipt of `handle`.
    Poll { handle: TransactionHandle, wait: u64 },
    /// Run the read-only query.
    Query,
}

/// What an `Executor` stands for.
pub enum State {
    Authenticating { call: Call, policy: RetryPolicy },
    Submitting { call: Call, policy: RetryPolicy },
    Pending { handle: TransactionHandle, remaining: Option<u64> },
    Querying { call: Call },
    Confirmed { receipt: Receipt },
    Answered { balance: Uint256 },
    Failed { reason: FailureReason },
}

/// How an execution ended.
#[derive(Clone, Copy, Debug, PartialEq, Eq)]
pub enum Outcome {
    Confirmed(Receipt),
    Balance(Uint256),
    Failed(FailureReason),
}

/// One poll less of a bounded number, where at least one is left.
pub open spec fn one_less(polls: Option<u64>) -> Option<u64> {
    match polls {
        Some(n) => Some((n - 1) as u64),
        None => None,
    }
}

impl State {
    /// The state in which a call starts, with the first action: a
    /// state-changing call authenticates first, a query runs at once.
    pub open spec fn start(call: Call, policy: RetryPolicy) -> (State, Option<Action>) {
        if call.operation.mutating() {
            (State::Authenticating { call, policy }, Some(Action::Unlock))
        } else {
            (State::Querying { call }, Some(Action::Query))
        }
    }

    /// Whether the execution has ended.
    pub open spec fn terminal(self) -> bool {
        self is Confirmed || self is Answered || self is Failed
    }

    /// Whether the event answers the action that the state waits on.
    pub open spec fn awaits(self, event: Event) -> bool {
        match self {
            State::Authenticating { .. } => event is Unlocked || event is UnlockFailed,
            State::Submitting { .. } => event is Submitted || event is SubmitFailed,
            State::Pending { .. } => event is ReceiptReady || event is StillPending
                || event is PollFailed,
            State::Querying { .. } => event is QueryAnswered || event is QueryFailed,
            _ => false,
        }
    }

    /// The state after a submission, with the first poll, where the policy
    /// allows one.
    pub open spec fn after_submission(handle: TransactionHandle, polls: Option<u64>) -> (
        State,
        Option<Action>,
    ) {
        if polls == Some(0u64) {
            (State::Failed { reason: FailureReason::Timeout }, None)
        } else {
            (
                State::Pending { handle, remaining: one_less(polls) },
                Some(Action::Poll { handle, wait: 0 }),
            )
        }
    }

    /// The state after a poll that found the call not mined yet: the next
    /// poll of the same handle after the interval, where one is left.
    pub open spec fn after_pending(handle: TransactionHandle, remaining: Option<u64>) -> (
        State,
        Option<Action>,
    ) {
        if remaining == Some(0u64) {
            (State::Failed { reason: FailureReason::Timeout }, None)
        } else {
            (
                State::Pending { handle, remaining: one_less(remaining) },
                Some(Action::Poll { handle, wait: POLL_INTERVAL }),
            )
        }
    }

    /// The transition: the state after the event, and the action to perform
    /// next, if any. An event that does not answer the awaited action
    /// changes nothing and asks for nothing.
    pub open spec fn step(self, event: Event) -> (State, Option<Action>) {
        match self {
            State::Authenticating { call, policy } => match event {
                Event::Unlocked(true) => (
                    State::Submitting { call, policy },
                    Some(Action::Submit),
                ),
                Event::Unlocked(false) | Event::UnlockFailed => (
                    State::Failed { reason: FailureReason::AuthenticationError },
                    None,
                ),
                _ => (self, None),
            },
            State::Submitting { call, policy } => match event {
                Event::Submitted(handle) => State::after_submission(handle, policy.max_polls),
                Event::SubmitFailed => (
                    State::Failed { reason: FailureReason::SubmissionError },
                    None,
                ),
                _ => (self, None),
            },
            State::Pending { handle, remaining } => match event {
                Event::ReceiptReady(receipt) => (State::Confirmed { receipt }, None),
                Event::StillPending => State::after_pending(handle, remaining),
                Event::PollFailed => (State::Failed { reason: FailureReason::NodeError }, None),
                _ => (self, None),
            },
            State::Querying { call } => match event {
                Event::QueryAnswered(balance) => (State::Answered { balance }, None),
                Event::QueryFailed => (State::Failed { reason: FailureReason::QueryError }, None),
                _ => (self, None),
            },
            _ => (self, None),
        }
    }

    /// How the execution ended, once it has.
    pub open spec fn outcome(self) -> Option<Outcome> {
        match self {
            State::Confirmed { receipt } => Some(Outcome::Confirmed(receipt)),
            State::Answered { balance } => Some(Outcome::Balance(balance)),
            State::Failed { reason } => Some(Outcome::Failed(reason)),
            _ => None,
        }
    }
}

/// The executor of one call. It holds the call, and with it the credential,
/// only until the call is submitted.
#[derive(PartialEq, Eq)]
pub enum Executor {
    Authenticating { call: OperationDescriptor, policy: RetryPolicy },
    Submitting { call: OperationDescriptor, policy: RetryPolicy },
    Pending { handle: TransactionHandle, remaining: Option<u64> },
    Querying { call: OperationDescriptor },
    Confirmed { receipt: Receipt },
    Answered { balance: Uint256 },
    Failed { reason: FailureReason },
}

impl View for Executor {
    type V = State;

    open spec fn view(&self) -> State {
        match self {
            Executor::Authenticating { call, policy } => State::Authenticating {
                call: call@,
                policy: *policy,
            },
            Executor::Submitting { call, policy } => State::Submitting {
                call: call@,
                policy: *policy,
            },
            Executor::Pending { handle, remaining } => State::Pending {
                handle: *handle,
                remaining: *remaining,
            },
            Executor::Querying { call } => State::Querying { call: call@ },
            Executor::Confirmed { receipt } => State::Confirmed { receipt: *receipt },
            Executor::Answered { balance } => State::Answered { balance: *balance },
            Executor::Failed { reason } => State::Failed { reason: *reason },
        }
    }
}

/// One poll less of a bounded number.
fn decrement(polls: Option<u64>) -> (r: Option<u64>)
    requires
        polls != Some(0u64),
    ensures
        r == one_less(polls),
{
    match polls {
        Some(n) => Some(n - 1),
        None => None,
    }
}

impl Executor {
    /// Takes a call up: a state-changing call is to be authenticated first,
    /// a query is run at once, with no unlock, submission or poll.
    pub fn start(call: OperationDescriptor, policy: RetryPolicy) -> (r: (Executor, Option<Action>))
        ensures
            (r.0@, r.1) == State::start(call@, policy),
    {
        if call.operation().is_mutating() {
            (Executor::Authenticating { call, policy }, Some(Action::Unlock))
        } else {
            (Executor::Querying { call }, Some(Action::Query))
        }
    }

    /// Takes in what the chain did and decides what is next.
    pub fn step(self, event: Event) -> (r: (Executor, Option<Action>))
        ensures
            (r.0@, r.1) == self@.step(event),
    {
        match self {
            Executor::Authenticating { call, policy } => match event {
                Event::Unlocked(true) => (
                    Executor::Submitting { call, policy },
                    Some(Action::Submit),
                ),
                Event::Unlocked(false) | Event::UnlockFailed => (
                    Executor::Failed { reason: FailureReason::AuthenticationError },
                    None,
                ),
                _ => (Executor::Authenticating { call, policy }, None),
            },
            Executor::Submitting { call, policy } => match event {
                Event::Submitted(handle) => match policy.max_polls {
                    Some(0) => (Executor::Failed { reason: FailureReason::Timeout }, None),
                    polls => (
                        Executor::Pending { handle, remaining: decrement(polls) },
                        Some(Action::Poll { handle, wait: 0 }),
                    ),
                },
                Event::SubmitFailed => (
                    Executor::Failed { reason: FailureReason::SubmissionError },
                    None,
                ),
                _ => (Executor::Submitting { call, policy }, None),
            },
            Executor::Pending { handle, remaining } => match event {
                Event::ReceiptReady(receipt) => (Executor::Confirmed { receipt }, None),
                Event::StillPending => match remaining {
                    Some(0) => (Executor::Failed { reason: FailureReason::Timeout }, None),
                    polls => (
                        Executor::Pending { handle, remaining: decrement(polls) },
                        Some(Action::Poll { handle, wait: POLL_INTERVAL }),
                    ),
                },
                Event::PollFailed => (
                    Executor::Failed { reason: FailureReason::NodeError },
                    None,
                ),
                _ => (Executor::Pending { handle, remaining }, None),
            },
            Executor::Querying { call } => match event {
                Event::QueryAnswered(balance) => (Executor::Answered { balance }, None),
                Event::QueryFailed => (
                    Executor::Failed { reason: FailureReason::QueryError },
                    None,
                ),
                _ => (Executor::Querying { call }, None),
            },
            done => (done, None),
        }
    }

    /// Whether the event answers the action that the executor waits on.
    pub fn awaits(&self, event: &Event) -> (r: bool)
        ensures
            r == self@.awaits(*event),
    {
        match self {
            Executor::Authenticating { .. } => match event {
                Event::Unlocked(_) | Event::UnlockFailed => true,
                _ => false,
            },
            Executor::Submitting { .. } => match event {
                Event::Submitted(_) | Event::SubmitFailed => true,
                _ => false,
            },
            Executor::Pending { .. } => match event {
                Event::ReceiptReady(_) | Event::StillPending | Event::PollFailed => true,
                _ => false,
            },
            Executor::Querying { .. } => match event {
                Event::QueryAnswered(_) | Event::QueryFailed => true,
                _ => false,
            },
            _ => false,
        }
    }

    /// The call that the next `Unlock`, `Submit` or `Query` is about: there
    /// is one until the call is submitted or the query answered.
    pub fn call(&self) -> (r: Option<&OperationDescriptor>)
        ensures
            match self@ {
                State::Authenticating { call, .. } | State::Submitting { call, .. }
                | State::Querying { call } => r matches Some(c) && c@ == call,
                _ => r is None,
            },
    {
        match self {
            Executor::Authenticating { call, .. } => Some(call),
            Executor::Submitting { call, .. } => Some(call),
            Executor::Querying { call } => Some(call),
            _ => None,
        }
    }

    /// How the execution ended; `None` while it is under way.
    pub fn outcome(&self) -> (r: Option<Outcome>)
        ensures
            r == self@.outcome(),
    {
        match self {
            Executor::Confirmed { receipt } => Some(Outcome::Confirmed(*receipt)),
            Executor::Answered { balance } => Some(Outcome::Balance(*balance)),
            Executor::Failed { reason } => Some(Outcome::Failed(*reason)),
            _ => None,
        }
    }
}

} // verus!
