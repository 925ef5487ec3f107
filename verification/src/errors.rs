//! Why an operation on a vault is refused.

use vstd::prelude::*;

verus! {

/// The failures of a deposit or a withdrawal.
#[derive(Clone, Copy, Debug, PartialEq, Eq, Structural)]
pub enum VaultError {
    /// The vault is locked, or the caller of a withdrawal is not the vault's
    /// authority.
    VaultLocked,
    /// A balance would leave the range of `u64`.
    Overflow,
    /// The payer of a deposit, or the vault on a withdrawal, holds less than
    /// the amount.
    InsufficientBalance,
}

/// The failure of an attempt to change the lock by someone other than the
/// vault's authority.
#[derive(Clone, Copy, Debug, PartialEq, Eq, Structural)]
pub struct Unauthorized;

impl VaultError {
    /// The message that belongs to the error.
    pub open spec fn spec_message(self) -> Seq<char> {
        match self {
            VaultError::VaultLocked => "Vault is locked"@,
            VaultError::Overflow => "Overflow"@,
            VaultError::InsufficientBalance => "Insufficient balance"@,
        }
    }

    /// The message that belongs to the error.
    pub fn message(&self) -> (text: &'static str)
        ensures
            text@ == self.spec_message(),
    {
        match self {
            VaultError::VaultLocked => "Vault is locked",
            VaultError::Overflow => "Overflow",
            VaultError::InsufficientBalance => "Insufficient balance",
        }
    }
}

} // verus!
