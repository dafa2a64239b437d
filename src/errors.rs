use vstd::prelude::*;

verus! {

/// Every way an instruction can be refused.
#[derive(Clone, Copy, Debug, PartialEq, Eq, Structural)]
pub enum VaultError {
    ZeroAmount,
    DepositTooLarge,
    DailyLimitExceeded,
    InsufficientFunds,
    VaultLocked,
    AllowanceExceeded,
    DelegateExpired,
    Overflow,
    Unauthorised,
    VaultNotEmpty,
}

impl VaultError {
    /// Human-readable explanation of the error.
    pub fn message(&self) -> (r: &'static str) {
        match self {
            VaultError::ZeroAmount => "Amount must be greater than zero",
            VaultError::DepositTooLarge => "Deposit exceeds the configured maximum",
            VaultError::DailyLimitExceeded => "Withdrawal would exceed the daily limit",
            VaultError::InsufficientFunds => "Insufficient funds in vault",
            VaultError::VaultLocked => "Vault is locked: possible reentrancy attempt",
            VaultError::AllowanceExceeded => "Delegate allowance exceeded",
            VaultError::DelegateExpired => "Delegate record has expired",
            VaultError::Overflow => "Arithmetic overflow",
            VaultError::Unauthorised => "Unauthorised signer",
            VaultError::VaultNotEmpty => "Vault must be empty before closing",
        }
    }
}

} // verus!
