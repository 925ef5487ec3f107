//! The vault record, the accounts around it, and the vault as a mathematical
//! value.

use crate::errors::VaultError;
use crate::events::Event;
use crate::pubkey::Pubkey;
use vstd::prelude::*;

verus! {

/// The record that a vault account stores.
#[derive(Clone, Copy, Debug, PartialEq, Eq)]
pub struct Vault {
    /// Who may withdraw and change the lock. Set when the vault is created.
    pub vault_authority: Pubkey,
    /// While set, deposits and withdrawals are refused.
    pub locked: bool,
}

/// A party whose identity the host has verified, with the funds it holds.
#[derive(Clone, Copy, Debug, PartialEq, Eq)]
pub struct Signer {
    pub key: Pubkey,
    pub lamports: u64,
}

/// A vault account: its address, the funds it holds, and its record.
#[derive(Clone, Copy, Debug, PartialEq, Eq)]
pub struct VaultAccount {
    pub key: Pubkey,
    pub lamports: u64,
    pub data: Vault,
}

/// A vault as a mathematical value. The balance is an unbounded integer, so
/// that it is a statement, and not a matter of types, that it stays within
/// bounds.
pub struct VaultState {
    pub address: Pubkey,
    pub authority: Pubkey,
    pub locked: bool,
    pub balance: int,
}

impl View for VaultAccount {
    type V = VaultState;

    open spec fn view(&self) -> VaultState {
        VaultState {
            address: self.key,
            authority: self.data.vault_authority,
            locked: self.data.locked,
            balance: self.lamports as int,
        }
    }
}

impl VaultState {
    /// A vault is well-formed where its balance is one that an account can
    /// hold.
    pub open spec fn wf(self) -> bool {
        0 <= self.balance <= u64::MAX
    }

    /// The vault that creation gives: empty, bound to `authority`.
    pub open spec fn created(address: Pubkey, authority: Pubkey, locked: bool) -> VaultState {
        VaultState { address, authority, locked, balance: 0 }
    }

    /// Why a deposit of `amount` by a payer who holds `funds` is refused, if
    /// it is. The lock is looked at first, then the payer's funds, then the
    /// room left in the vault.
    pub open spec fn deposit_error(self, funds: nat, amount: nat) -> Option<VaultError> {
        if self.locked {
            Some(VaultError::VaultLocked)
        } else if funds < amount {
            Some(VaultError::InsufficientBalance)
        } else if self.balance + amount > u64::MAX {
            Some(VaultError::Overflow)
        } else {
            None
        }
    }

    /// Why a withdrawal of `amount` by `caller`, who holds `funds`, is
    /// refused, if it is. A caller other than the authority is turned away
    /// with the same error as a locked vault; then the vault's balance is
    /// looked at, then the room left with the caller.
    pub open spec fn withdraw_error(self, caller: Pubkey, funds: nat, amount: nat) -> Option<
        VaultError,
    > {
        if caller != self.authority {
            Some(VaultError::VaultLocked)
        } else if self.locked {
            Some(VaultError::VaultLocked)
        } else if self.balance < amount {
            Some(VaultError::InsufficientBalance)
        } else if funds + amount > u64::MAX {
            Some(VaultError::Overflow)
        } else {
            None
        }
    }

    /// Whether `caller` may change the lock.
    pub open spec fn authorizes(self, caller: Pubkey) -> bool {
        caller == self.authority
    }

    /// The vault with `amount` more in it.
    pub open spec fn credited(self, amount: nat) -> VaultState {
        VaultState { balance: self.balance + amount, ..self }
    }

    /// The vault with `amount` less in it.
    pub open spec fn debited(self, amount: nat) -> VaultState {
        VaultState { balance: self.balance - amount, ..self }
    }

    /// The vault with its lock flipped.
    pub open spec fn toggled(self) -> VaultState {
        VaultState { locked: !self.locked, ..self }
    }
}

/// What an operation is handed: the accounts it works on, already verified by
/// the host, and the event log, to which it may only add.
#[derive(Debug)]
pub struct Context<T> {
    pub accounts: T,
    pub events: Vec<Event>,
}

impl<T> Context<T> {
    /// A context over `accounts` with an empty event log.
    pub fn new(accounts: T) -> (ctx: Self)
        ensures
            ctx.accounts == accounts,
            ctx.events@ == Seq::<Event>::empty(),
    {
        Context { accounts, events: Vec::new() }
    }
}

} // verus!
