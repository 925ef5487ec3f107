//! Moving funds from a payer into a vault.

use crate::errors::VaultError;
use crate::events::{DepositEvent, Event};
use crate::state::{Context, Signer, VaultAccount};
use crate::system_program::{system_transfer, transfer};
use anchor_lang::solana_program::instruction::Instruction;
use vstd::prelude::*;

verus! {

/// The accounts of a deposit: the payer and the vault that receives.
#[derive(Clone, Copy, Debug, PartialEq, Eq)]
pub struct Deposit {
    pub user: Signer,
    pub vault: VaultAccount,
}

impl Deposit {
    /// The constraint on the accounts, as the error of its violation: the
    /// vault must not be locked.
    pub open spec fn violation(self) -> Option<VaultError> {
        if self.vault.data.locked {
            Some(VaultError::VaultLocked)
        } else {
            None
        }
    }

    /// Why the handler refuses a deposit of `amount`, if it does. It looks at
    /// the payer's funds first, then at the lock, then at the room left in
    /// the vault.
    pub open spec fn handler_error(self, amount: u64) -> Option<VaultError> {
        if self.user.lamports < amount {
            Some(VaultError::InsufficientBalance)
        } else if self.vault.data.locked {
            Some(VaultError::VaultLocked)
        } else if self.vault.lamports + amount > u64::MAX {
            Some(VaultError::Overflow)
        } else {
            None
        }
    }

    /// The accounts after `amount` has moved from the payer to the vault.
    pub open spec fn deposited(self, amount: u64) -> Deposit {
        Deposit {
            user: Signer { lamports: (self.user.lamports - amount) as u64, ..self.user },
            vault: VaultAccount { lamports: (self.vault.lamports + amount) as u64, ..self.vault },
        }
    }

    /// The record of a deposit of `amount`.
    pub open spec fn event(self, amount: u64) -> Event {
        Event::Deposit(DepositEvent { amount, user: self.user.key, vault: self.vault.key })
    }

    /// Checks the constraint on the accounts.
    pub fn validate(&self) -> (res: Result<(), VaultError>)
        ensures
            match self.violation() {
                Some(e) => res == Err::<(), VaultError>(e),
                None => res is Ok,
            },
    {
        if self.vault.data.locked {
            Err(VaultError::VaultLocked)
        } else {
            Ok(())
        }
    }
}

/// Carries out a deposit of `amount`. On success the funds have moved, the
/// deposit is recorded in the event log, and the result is the transfer for
/// the system program to carry out. On failure nothing has changed.
pub fn _deposit(ctx: &mut Context<Deposit>, amount: u64) -> (res: Result<Instruction, VaultError>)
    ensures
        match old(ctx).accounts.handler_error(amount) {
            Some(e) => res == Err::<Instruction, VaultError>(e) && *final(ctx) == *old(ctx),
            None => {
                &&& res == Ok::<Instruction, VaultError>(
                    system_transfer(
                        old(ctx).accounts.user.key@,
                        old(ctx).accounts.vault.key@,
                        amount,
                    ),
                )
                &&& final(ctx).accounts == old(ctx).accounts.deposited(amount)
                &&& final(ctx).events@ == old(ctx).events@.push(old(ctx).accounts.event(amount))
            },
        },
{
    if ctx.accounts.user.lamports < amount {
        return Err(VaultError::InsufficientBalance);
    }
    if ctx.accounts.vault.data.locked {
        return Err(VaultError::VaultLocked);
    }
    let credited: u64 = match ctx.accounts.vault.lamports.checked_add(amount) {
        Some(sum) => sum,
        None => {
            return Err(VaultError::Overflow);
        },
    };
    let ix = transfer(&ctx.accounts.user.key, &ctx.accounts.vault.key, amount);
    ctx.accounts.user.lamports = ctx.accounts.user.lamports - amount;
    ctx.accounts.vault.lamports = credited;
    ctx.events.push(
        Event::Deposit(
            DepositEvent { amount, user: ctx.accounts.user.key, vault: ctx.accounts.vault.key },
        ),
    );
    Ok(ix)
}

} // verus!
