//! Why an operation was refused.

use vstd::prelude::*;

verus! {

/// The reason for which an operation was refused. A refused operation
/// leaves every record as it was.
#[derive(Clone, Copy, Debug, PartialEq, Eq, Structural)]
pub enum Error {
    /// The required principal did not authorize the call, or is not allowed
    /// to do what was asked.
    Unauthorized,
    /// No record is stored for the agent that was named.
    NotFound,
    /// The service was used before it was set up.
    NotInitialized,
    /// The amount is above what the borrower's reputation allows.
    LimitExceeded,
    /// Too large a share of the pool is lent out already.
    PoolSaturated,
    /// The account holds less than the amount to move.
    InsufficientLiquidity,
    /// The agent has a loan that is not repaid yet.
    ActiveLoanExists,
    /// The agent has never taken a loan.
    NoActiveLoan,
    /// The loan was repaid before.
    AlreadyRepaid,
    /// The loan is not past its grace period.
    NotOverdue,
    /// The agent was charged for a default before.
    PenaltyAlreadyApplied,
}

/// The class of a refusal.
#[derive(Clone, Copy, Debug, PartialEq, Eq, Structural)]
pub enum ErrorKind {
    /// An authentication or authorization condition failed.
    Unauthorized,
    /// A record that the operation refers to is absent.
    NotFound,
    /// The record is already in the state that the operation leads to.
    AlreadyDone,
    /// The record is in a state that the operation does not start from.
    InvalidState,
    /// A numeric policy was violated: a tier limit, liquidity, utilization.
    LimitExceeded,
    /// The service was used before its one-time setup.
    NotInitialized,
}

impl Error {
    /// The class of this refusal.
    pub open spec fn kind_of(self) -> ErrorKind {
        match self {
            Error::Unauthorized => ErrorKind::Unauthorized,
            Error::NotFound | Error::NoActiveLoan => ErrorKind::NotFound,
            Error::NotInitialized => ErrorKind::NotInitialized,
            Error::LimitExceeded | Error::PoolSaturated | Error::InsufficientLiquidity =>
                ErrorKind::LimitExceeded,
            Error::ActiveLoanExists | Error::NotOverdue => ErrorKind::InvalidState,
            Error::AlreadyRepaid | Error::PenaltyAlreadyApplied => ErrorKind::AlreadyDone,
        }
    }

    /// The class of this refusal.
    pub fn kind(&self) -> (kind: ErrorKind)
        ensures
            kind == self.kind_of(),
    {
        match self {
            Error::Unauthorized => ErrorKind::Unauthorized,
            Error::NotFound => ErrorKind::NotFound,
            Error::NoActiveLoan => ErrorKind::NotFound,
            Error::NotInitialized => ErrorKind::NotInitialized,
            Error::LimitExceeded => ErrorKind::LimitExceeded,
            Error::PoolSaturated => ErrorKind::LimitExceeded,
            Error::InsufficientLiquidity => ErrorKind::LimitExceeded,
            Error::ActiveLoanExists => ErrorKind::InvalidState,
            Error::NotOverdue => ErrorKind::InvalidState,
            Error::AlreadyRepaid => ErrorKind::AlreadyDone,
            Error::PenaltyAlreadyApplied => ErrorKind::AlreadyDone,
        }
    }
}

} // verus!
