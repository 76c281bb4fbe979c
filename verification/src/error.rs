//! The errors that a command can end with by its own decision.

use vstd::prelude::*;

verus! {

/// Why a command is refused.
#[derive(Clone, Copy, Debug, PartialEq, Eq)]
pub enum Error {
    /// A collateral is too large to be computed.
    MathError,
    /// The issue request has been executed already.
    IssueCompleted,
    /// The issue request has been cancelled.
    IssueCancelled,
    /// Neither an issue request nor a recipient was given.
    ExpectedBitcoinAddress,
}

/// Why a run failed: by its own decision, or because an action did, with an error of type `E`.
#[derive(Debug, PartialEq, Eq)]
pub enum Failure<E> {
    Refused(Error),
    Service(E),
}

} // verus!
