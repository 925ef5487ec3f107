//! The notifications that successful operations leave in the event log.

use crate::pubkey::Pubkey;
use vstd::prelude::*;

verus! {

/// A vault was created.
#[derive(Clone, Copy, Debug, PartialEq, Eq)]
pub struct InitializeVaultEvent {
    pub vault: Pubkey,
    pub vault_authority: Pubkey,
    pub locked: bool,
}

/// Funds moved from a payer into a vault.
#[derive(Clone, Copy, Debug, PartialEq, Eq)]
pub struct DepositEvent {
    pub amount: u64,
    pub user: Pubkey,
    pub vault: Pubkey,
}

/// Funds moved from a vault to its authority.
#[derive(Clone, Copy, Debug, PartialEq, Eq)]
pub struct WithdrawEvent {
    pub amount: u64,
    pub vault_authority: Pubkey,
    pub vault: Pubkey,
}

/// The lock of a vault changed; `locked` is the new state.
#[derive(Clone, Copy, Debug, PartialEq, Eq)]
pub struct ToggleLockEvent {
    pub vault: Pubkey,
    pub vault_authority: Pubkey,
    pub locked: bool,
}

/// One record of the event log.
#[derive(Clone, Copy, Debug, PartialEq, Eq)]
pub enum Event {
    InitializeVault(InitializeVaultEvent),
    Deposit(DepositEvent),
    Withdraw(WithdrawEvent),
    ToggleLock(ToggleLockEvent),
}

} // verus!
