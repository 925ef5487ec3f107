//! A vault state machine and a small checked-arithmetic calculator.
//!
//! The vault holds funds for one authority. Anyone may deposit into it while
//! it is unlocked; only the authority may withdraw or change the lock. Each
//! operation is handed a [`Context`]: the accounts it works on, which the
//! host has verified, and the event log. It is carried out whole, leaving one
//! record in the log, or refused with nothing changed.

pub mod calculator;
pub mod decimal;
pub mod errors;
pub mod events;
pub mod instructions;
pub mod model;
pub mod pubkey;
pub mod state;
pub mod system_program;

use crate::errors::{Unauthorized, VaultError};
use crate::events::Event;
use crate::instructions::{
    Deposit, InitializeVault, ToggleLock, Withdraw, _deposit, _init_vault, _toggle_lock, _withdraw,
};
use crate::model::{emitted, step, Request};
use crate::state::{Context, VaultAccount, VaultState};
use crate::system_program::system_transfer;
use anchor_lang::solana_program::instruction::Instruction;
use vstd::prelude::*;

verus! {

/// Creates a vault at the address `ctx.accounts.vault`: empty, with the
/// signer as its authority, locked or not as `locked` says. The creation is
/// recorded in the event log.
pub fn init_vault(ctx: &mut Context<InitializeVault>, locked: bool) -> (vault: VaultAccount)
    ensures
        vault@ == VaultState::created(
            old(ctx).accounts.vault,
            old(ctx).accounts.vault_authority.key,
            locked,
        ),
        final(ctx).accounts == old(ctx).accounts,
        final(ctx).events@ == old(ctx).events@.push(old(ctx).accounts.event(locked)),
{
    _init_vault(ctx, locked)
}

/// Deposits `amount` from the payer into the vault.
///
/// The deposit is refused with `VaultLocked` where the vault is locked, else
/// with `InsufficientBalance` where the payer holds less than `amount`, else
/// with `Overflow` where the vault's balance would leave the range of `u64`;
/// nothing has changed then. Otherwise the funds have moved, the deposit is
/// recorded in the event log, and the result is the transfer for the system
/// program to carry out.
pub fn deposit(ctx: &mut Context<Deposit>, amount: u64) -> (res: Result<Instruction, VaultError>)
    ensures
        match old(ctx).accounts.vault@.deposit_error(
            old(ctx).accounts.user.lamports as nat,
            amount as nat,
        ) {
            Some(e) => res == Err::<Instruction, VaultError>(e) && *final(ctx) == *old(ctx),
            None => {
                &&& res == Ok::<Instruction, VaultError>(
                    system_transfer(
                        old(ctx).accounts.user.key@,
                        old(ctx).accounts.vault.key@,
                        amount,
                    ),
                )
                &&& final(ctx).accounts.user.key == old(ctx).accounts.user.key
                &&& final(ctx).accounts.user.lamports == old(ctx).accounts.user.lamports - amount
            },
        },
        final(ctx).accounts.vault@ == step(
            old(ctx).accounts.vault@,
            Request::Deposit {
                payer: old(ctx).accounts.user.key,
                funds: old(ctx).accounts.user.lamports as nat,
                amount: amount as nat,
            },
        ),
        final(ctx).events@ == old(ctx).events@ + emitted(
            old(ctx).accounts.vault@,
            Request::Deposit {
                payer: old(ctx).accounts.user.key,
                funds: old(ctx).accounts.user.lamports as nat,
                amount: amount as nat,
            },
        ),
{
    match ctx.accounts.validate() {
        Err(e) => {
            assert(ctx.events@ + Seq::<Event>::empty() =~= ctx.events@);
            return Err(e);
        },
        Ok(()) => {},
    }
    let res = _deposit(ctx, amount);
    proof {
        let r = Request::Deposit {
            payer: old(ctx).accounts.user.key,
            funds: old(ctx).accounts.user.lamports as nat,
            amount: amount as nat,
        };
        assert(ctx.events@ =~= old(ctx).events@ + emitted(old(ctx).accounts.vault@, r));
    }
    res
}

/// Withdraws `amount` from the vault to the caller.
///
/// The withdrawal is refused with `VaultLocked` where the caller is not the
/// vault's authority or the vault is locked, else with `InsufficientBalance`
/// where the vault holds less than `amount`, else with `Overflow` where the
/// caller's funds would leave the range of `u64`; nothing has changed then.
/// Otherwise the funds have moved and the withdrawal is recorded in the event
/// log.
pub fn withdraw(ctx: &mut Context<Withdraw>, amount: u64) -> (res: Result<(), VaultError>)
    ensures
        match old(ctx).accounts.vault@.withdraw_error(
            old(ctx).accounts.vault_authority.key,
            old(ctx).accounts.vault_authority.lamports as nat,
            amount as nat,
        ) {
            Some(e) => res == Err::<(), VaultError>(e) && *final(ctx) == *old(ctx),
            None => {
                &&& res is Ok
                &&& final(ctx).accounts.vault_authority.key == old(
                    ctx,
                ).accounts.vault_authority.key
                &&& final(ctx).accounts.vault_authority.lamports == old(
                    ctx,
                ).accounts.vault_authority.lamports + amount
            },
        },
        final(ctx).accounts.vault@ == step(
            old(ctx).accounts.vault@,
            Request::Withdraw {
                caller: old(ctx).accounts.vault_authority.key,
                funds: old(ctx).accounts.vault_authority.lamports as nat,
                amount: amount as nat,
            },
        ),
        final(ctx).events@ == old(ctx).events@ + emitted(
            old(ctx).accounts.vault@,
            Request::Withdraw {
                caller: old(ctx).accounts.vault_authority.key,
                funds: old(ctx).accounts.vault_authority.lamports as nat,
                amount: amount as nat,
            },
        ),
{
    match ctx.accounts.validate() {
        Err(e) => {
            assert(ctx.events@ + Seq::<Event>::empty() =~= ctx.events@);
            return Err(e);
        },
        Ok(()) => {},
    }
    let res = _withdraw(ctx, amount);
    proof {
        let r = Request::Withdraw {
            caller: old(ctx).accounts.vault_authority.key,
            funds: old(ctx).accounts.vault_authority.lamports as nat,
            amount: amount as nat,
        };
        assert(ctx.events@ =~= old(ctx).events@ + emitted(old(ctx).accounts.vault@, r));
    }
    res
}

/// Flips the lock of the vault.
///
/// The attempt is refused where the caller is not the vault's authority;
/// nothing has changed then. Otherwise the lock is flipped, the new state is
/// recorded in the event log, and nothing else has changed.
pub fn toggle_lock(ctx: &mut Context<ToggleLock>) -> (res: Result<(), Unauthorized>)
    ensures
        res is Ok <==> old(ctx).accounts.vault@.authorizes(old(ctx).accounts.vault_authority.key),
        res is Err ==> *final(ctx) == *old(ctx),
        final(ctx).accounts.vault_authority == old(ctx).accounts.vault_authority,
        final(ctx).accounts.vault@ == step(
            old(ctx).accounts.vault@,
            Request::ToggleLock { caller: old(ctx).accounts.vault_authority.key },
        ),
        final(ctx).events@ == old(ctx).events@ + emitted(
            old(ctx).accounts.vault@,
            Request::ToggleLock { caller: old(ctx).accounts.vault_authority.key },
        ),
{
    match ctx.accounts.validate() {
        Err(e) => {
            assert(ctx.events@ + Seq::<Event>::empty() =~= ctx.events@);
            return Err(e);
        },
        Ok(()) => {},
    }
    let res = _toggle_lock(ctx);
    proof {
        let r = Request::ToggleLock { caller: old(ctx).accounts.vault_authority.key };
        assert(ctx.events@ =~= old(ctx).events@ + emitted(old(ctx).accounts.vault@, r));
    }
    res
}

} // verus!
