//! The slot through which an asynchronous call hands its result to the
//! host.

use vstd::prelude::*;
use crate::error::BridgeError;

verus! {

/// Where an asynchronous call stands. A call starts as `Pending` and moves
/// once, to `Resolved` or to `Failed`; from there it moves no more.
#[derive(Clone, Debug, PartialEq, Eq)]
pub enum OperationState<T> {
    /// The SDK has not answered yet.
    Pending,
    /// The SDK answered, and this is the marshalled result.
    Resolved(T),
    /// The SDK failed, or the call was refused.
    Failed(BridgeError),
}

/// The state that an outcome settles a call in.
pub open spec fn spec_settle<T>(outcome: Result<T, BridgeError>) -> OperationState<T> {
    match outcome {
        Ok(value) => OperationState::Resolved(value),
        Err(e) => OperationState::Failed(e),
    }
}

/// What the host finds in a slot: nothing while the call is pending, and
/// the outcome that settled it afterwards.
pub open spec fn spec_outcome<T>(state: OperationState<T>) -> Option<Result<T, BridgeError>> {
    match state {
        OperationState::Pending => None,
        OperationState::Resolved(value) => Some(Ok(value)),
        OperationState::Failed(e) => Some(Err(e)),
    }
}

/// One asynchronous call in flight: a slot that is filled exactly once, by
/// the continuation of the SDK's future, and read by the host's awaitable.
///
/// Nothing here cancels the SDK's work. A slot that is dropped while
/// pending leaves the SDK call running, and its result is discarded.
#[derive(Debug, PartialEq, Eq)]
pub struct PendingOperation<T> {
    state: OperationState<T>,
}

impl<T> PendingOperation<T> {
    /// Where the call stands.
    pub closed spec fn state(&self) -> OperationState<T> {
        self.state
    }

    /// The slot of a call that was just made.
    pub fn new() -> (operation: PendingOperation<T>)
        ensures
            operation.state() is Pending,
    {
        PendingOperation { state: OperationState::Pending }
    }

    /// The slot of a call that needs no SDK work and is settled from the
    /// start.
    pub fn settled(outcome: Result<T, BridgeError>) -> (operation: PendingOperation<T>)
        ensures
            operation.state() == spec_settle(outcome),
    {
        match outcome {
            Ok(value) => PendingOperation { state: OperationState::Resolved(value) },
            Err(e) => PendingOperation { state: OperationState::Failed(e) },
        }
    }

    /// Whether the SDK has yet to answer.
    pub fn is_pending(&self) -> (pending: bool)
        ensures
            pending == (self.state() is Pending),
    {
        match &self.state {
            OperationState::Pending => true,
            _ => false,
        }
    }

    /// Settles the call with the outcome of the SDK's future. Only a
    /// pending call can be settled: the SDK resolves each future once, so a
    /// second outcome for the same call does not occur.
    pub fn resolve(&mut self, outcome: Result<T, BridgeError>)
        requires
            old(self).state() is Pending,
        ensures
            final(self).state() == spec_settle(outcome),
            !(final(self).state() is Pending),
    {
        match outcome {
            Ok(value) => {
                self.state = OperationState::Resolved(value);
            },
            Err(e) => {
                self.state = OperationState::Failed(e);
            },
        }
    }

    /// Hands the slot's content to the host and releases the slot. A slot
    /// that is still pending holds nothing.
    pub fn into_outcome(self) -> (outcome: Option<Result<T, BridgeError>>)
        ensures
            outcome == spec_outcome(self.state()),
    {
        match self.state {
            OperationState::Pending => None,
            OperationState::Resolved(value) => Some(Ok(value)),
            OperationState::Failed(e) => Some(Err(e)),
        }
    }
}

/// A settled call is never pending, and what the host reads from its slot
/// is exactly the outcome it was settled with.
pub proof fn lemma_settled_holds_outcome<T>(outcome: Result<T, BridgeError>)
    ensures
        !(spec_settle(outcome) is Pending),
        spec_outcome(spec_settle(outcome)) == Some(outcome),
{
}

/// Two calls in flight settle independently. Starting from two pending
/// slots, settling the first and then the second leaves the same pair of
/// slots as settling the second and then the first: each slot holds its own
/// outcome, whichever the SDK resolved first.
pub proof fn lemma_settle_order_irrelevant<T, U>(
    first: Result<T, BridgeError>,
    second: Result<U, BridgeError>,
)
    ensures
        ({
            let start = (OperationState::<T>::Pending, OperationState::<U>::Pending);
            let first_only = (spec_settle(first), start.1);
            let second_only = (start.0, spec_settle(second));
            let first_then_second = (first_only.0, spec_settle(second));
            let second_then_first = (spec_settle(first), second_only.1);
            &&& first_only.1 is Pending
            &&& second_only.0 is Pending
            &&& first_then_second == second_then_first
            &&& spec_outcome(first_then_second.0) == Some(first)
            &&& spec_outcome(first_then_second.1) == Some(second)
        }),
{
}

} // verus!
