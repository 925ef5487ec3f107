//! Moving funds from a vault to its authority.

use crate::errors::VaultError;
use crate::events::{Event, WithdrawEvent};
use crate::state::{Context, Signer, VaultAccount};
use vstd::prelude::*;

verus! {

/// The accounts of a withdrawal: the caller, who receives, and the vault.
#[derive(Clone, Copy, Debug, PartialEq, Eq)]
pub struct Withdraw {
    pub vault_authority: Signer,
    pub vault: VaultAccount,
}

impl Withdraw {
    /// The constraints on the accounts, as the error of the first one that is
    /// violated: the caller must be the vault's authority, and the vault must
    /// not be locked. Both are reported as a locked vault.
    pub open spec fn violation(self) -> Option<VaultError> {
        if self.vault.data.vault_authority != self.vault_authority.key {
            Some(VaultError::VaultLocked)
        } else if self.vault.data.locked {
            Some(VaultError::VaultLocked)
        } else {
            None
        }
    }

    /// Why the handler refuses a withdrawal of `amount`, if it does. It looks
    /// at the caller first, who must be the vault's authority and is turned
    /// away as from a locked vault otherwise; then at the vault's funds, then
    /// at the lock, then at the room left with the receiver.
    pub open spec fn handler_error(self, amount: u64) -> Option<VaultError> {
        if self.vault.data.vault_authority != self.vault_authority.key {
            Some(VaultError::VaultLocked)
        } else if self.vault.lamports < amount {
            Some(VaultError::InsufficientBalance)
        } else if self.vault.data.locked {
            Some(VaultError::VaultLocked)
        } else if self.vault_authority.lamports + amount > u64::MAX {
            Some(VaultError::Overflow)
        } else {
            None
        }
    }

    /// The accounts after `amount` has moved from the vault to the caller.
    pub open spec fn withdrawn(self, amount: u64) -> Withdraw {
        Withdraw {
            vault_authority: Signer {
                lamports: (self.vault_authority.lamports + amount) as u64,
                ..self.vault_authority
            },
            vault: VaultAccount { lamports: (self.vault.lamports - amount) as u64, ..self.vault },
        }
    }

    /// The record of a withdrawal of `amount`.
    pub open spec fn event(self, amount: u64) -> Event {
        Event::Withdraw(
            WithdrawEvent {
                amount,
                vault_authority: self.vault_authority.key,
                vault: self.vault.key,
            },
        )
    }

    /// Checks the constraints on the accounts.
    pub fn validate(&self) -> (res: Result<(), VaultError>)
        ensures
            match self.violation() {
                Some(e) => res == Err::<(), VaultError>(e),
                None => res is Ok,
            },
    {
        if self.vault.data.vault_authority != self.vault_authority.key {
            Err(VaultError::VaultLocked)
        } else if self.vault.data.locked {
            Err(VaultError::VaultLocked)
        } else {
            Ok(())
        }
    }
}

/// Carries out a withdrawal of `amount`, for the vault's authority only. On
/// success the funds have moved and the withdrawal is recorded in the event
/// log. On failure nothing has changed.
pub fn _withdraw(ctx: &mut Context<Withdraw>, amount: u64) -> (res: Result<(), VaultError>)
    ensures
        match old(ctx).accounts.handler_error(amount) {
            Some(e) => res == Err::<(), VaultError>(e) && *final(ctx) == *old(ctx),
            None => {
                &&& res is Ok
                &&& final(ctx).accounts == old(ctx).accounts.withdrawn(amount)
                &&& final(ctx).events@ == old(ctx).events@.push(old(ctx).accounts.event(amount))
            },
        },
{
    if ctx.accounts.vault.data.vault_authority != ctx.accounts.vault_authority.key {
        return Err(VaultError::VaultLocked);
    }
    if ctx.accounts.vault.lamports < amount {
        return Err(VaultError::InsufficientBalance);
    }
    if ctx.accounts.vault.data.locked {
        return Err(VaultError::VaultLocked);
    }
    let credited: u64 = match ctx.accounts.vault_authority.lamports.checked_add(amount) {
        Some(sum) => sum,
        None => {
            return Err(VaultError::Overflow);
        },
    };
    ctx.accounts.vault.lamports = ctx.accounts.vault.lamports - amount;
    ctx.accounts.vault_authority.lamports = credited;
    ctx.events.push(
        Event::Withdraw(
            WithdrawEvent {
                amount,
                vault_authority: ctx.accounts.vault_authority.key,
                vault: ctx.accounts.vault.key,
            },
        ),
    );
    Ok(())
}

} // verus!
