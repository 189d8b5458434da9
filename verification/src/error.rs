//! Errors the instructions report.
use vstd::prelude::*;

verus! {

/// Errors about the bank's own settings.
#[derive(Debug, Clone, Copy, PartialEq, Eq, Structural)]
pub enum BankError {
    /// The provided name is too long.
    NameTooLong,
    /// The interest rate is too high.
    InterestRateTooHigh,
}

/// Errors about a user's request.
#[derive(Debug, Clone, Copy, PartialEq, Eq, Structural)]
pub enum UserError {
    /// Insufficient balance.
    InsufficientBalance,
    /// Unauthorized bank.
    UnauthorizedBank,
    /// Unauthorized.
    Unauthorized,
    /// Not enough days have passed to withdraw.
    NotEnoughDay,
    /// Invalid permission.
    InvalidPermission,
}

/// The error of the role-based withdrawal.
#[derive(Debug, Clone, Copy, PartialEq, Eq, Structural)]
pub enum WithdrawAllError {
    /// Unauthorized.
    Unauthorized,
}

/// Everything an instruction of the bank can end with instead of success.
#[derive(Debug, Clone, Copy, PartialEq, Eq, Structural)]
pub enum TokenBankError {
    Bank(BankError),
    User(UserError),
    WithdrawAll(WithdrawAllError),
    /// The runtime could not report the current time.
    ClockUnavailable,
    /// The runtime refused to move the lamports.
    TransferFailed,
    /// No bump seed gives a program address for the bank's lamport account;
    /// the runtime aborts the whole transaction here.
    NoBankSolAddress,
}

impl TokenBankError {
    /// Whether this error aborts the transaction rather than being reported.
    pub open spec fn is_abort(self) -> bool {
        self is NoBankSolAddress
    }

    /// Whether this error aborts the transaction rather than being reported.
    pub fn aborts(&self) -> (abort: bool)
        ensures
            abort == self.is_abort(),
    {
        match self {
            TokenBankError::NoBankSolAddress => true,
            _ => false,
        }
    }
}

} // verus!
