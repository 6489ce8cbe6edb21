use vstd::prelude::*;

verus! {

/// Typed failures of the vault's handlers.
///
/// Every precondition of a handler is checked before the external transfer is
/// requested, so a failing invocation commits no side effect.
#[derive(Clone, Copy, Debug, PartialEq, Eq, Structural)]
pub enum LockBoxError {
    /// Initialize was asked for a target of zero.
    InvalidTargetAmount,
    /// Deposit was asked to move zero funds.
    InvalidDepositAmount,
    /// Withdraw was attempted before the target latch was set.
    TargetNotReached,
    /// Deposit or emergency withdrawal on a permanently deactivated vault.
    VaultInactive,
    /// The caller is not the stored owner.
    Unauthorized,
    /// Withdrawal amount exceeds the balance, or there is nothing to withdraw.
    InsufficientBalance,
    /// A deposit would carry the tracked balance past the largest
    /// representable value; checked before any transfer is requested.
    BalanceOverflow,
}

impl LockBoxError {
    /// A human-readable description of the failure.
    pub fn message(&self) -> (r: &'static str) {
        match self {
            LockBoxError::InvalidTargetAmount => "Target amount must be greater than zero",
            LockBoxError::InvalidDepositAmount => "Deposit amount must be greater than zero",
            LockBoxError::TargetNotReached => "Target not reached yet. Current balance is below the target amount.",
            LockBoxError::VaultInactive => "This vault has been deactivated and is no longer accessible",
            LockBoxError::Unauthorized => "Unauthorized: Only the owner can perform this action",
            LockBoxError::InsufficientBalance => "Insufficient balance in vault for withdrawal",
            LockBoxError::BalanceOverflow => "Deposit would overflow the tracked balance",
        }
    }
}

} // verus!
