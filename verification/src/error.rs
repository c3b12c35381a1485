//! The typed failures of the executor and of the gateway around it.

use vstd::prelude::*;

verus! {

/// Why an execution ended without a result.
#[derive(Clone, Copy, Debug, PartialEq, Eq, Structural)]
pub enum FailureReason {
    /// The account could not be unlocked with the credential.
    AuthenticationError,
    /// The node did not take the call.
    SubmissionError,
    /// The node failed while the receipt was polled for.
    NodeError,
    /// The receipt did not come within the allowed number of polls.
    Timeout,
    /// The read-only query failed.
    QueryError,
}

/// Why a request did not yield a response payload.
#[derive(Clone, Copy, Debug, PartialEq, Eq, Structural)]
pub enum GatewayError {
    /// The operation name is not in the catalog.
    UnknownOperation,
    /// The auxiliary data is not base64, or not UTF-8 once decoded.
    DecodingError,
    /// An address text does not parse to 20 bytes.
    InvalidAddress,
    /// The execution ended in a failure.
    Failed(FailureReason),
}

} // verus!
