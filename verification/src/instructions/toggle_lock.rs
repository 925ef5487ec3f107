//! Locking and unlocking a vault.

use crate::errors::Unauthorized;
use crate::events::{Event, ToggleLockEvent};
use crate::state::{Context, Signer, Vault, VaultAccount};
use vstd::prelude::*;

verus! {

/// The accounts of a change of the lock: the caller and the vault.
#[derive(Clone, Copy, Debug, PartialEq, Eq)]
pub struct ToggleLock {
    pub vault_authority: Signer,
    pub vault: VaultAccount,
}

impl ToggleLock {
    /// The constraint on the accounts: the caller must be the vault's
    /// authority.
    pub open spec fn authorized(self) -> bool {
        self.vault.data.vault_authority == self.vault_authority.key
    }

    /// The accounts after the lock has been flipped.
    pub open spec fn toggled(self) -> ToggleLock {
        ToggleLock {
            vault: VaultAccount {
                data: Vault { locked: !self.vault.data.locked, ..self.vault.data },
                ..self.vault
            },
            ..self
        }
    }

    /// The record of a change of the lock to `locked`.
    pub open spec fn event(self, locked: bool) -> Event {
        Event::ToggleLock(
            ToggleLockEvent {
                vault: self.vault.key,
                vault_authority: self.vault.data.vault_authority,
                locked,
            },
        )
    }

    /// Checks the constraint on the accounts.
    pub fn validate(&self) -> (res: Result<(), Unauthorized>)
        ensures
            res is Ok <==> self.authorized(),
    {
        if self.vault.data.vault_authority == self.vault_authority.key {
            Ok(())
        } else {
            Err(Unauthorized)
        }
    }
}

/// Flips the lock of the vault, for the vault's authority only, and records
/// the new state in the event log. Funds are not touched. For any other
/// caller the attempt is refused and nothing has changed.
pub fn _toggle_lock(ctx: &mut Context<ToggleLock>) -> (res: Result<(), Unauthorized>)
    ensures
        res is Ok <==> old(ctx).accounts.authorized(),
        res is Err ==> *final(ctx) == *old(ctx),
        res is Ok ==> final(ctx).accounts == old(ctx).accounts.toggled(),
        res is Ok ==> final(ctx).events@ == old(ctx).events@.push(
            old(ctx).accounts.event(!old(ctx).accounts.vault.data.locked),
        ),
{
    if ctx.accounts.vault.data.vault_authority != ctx.accounts.vault_authority.key {
        return Err(Unauthorized);
    }
    ctx.accounts.vault.data.locked = !ctx.accounts.vault.data.locked;
    ctx.events.push(
        Event::ToggleLock(
            ToggleLockEvent {
                vault: ctx.accounts.vault.key,
                vault_authority: ctx.accounts.vault.data.vault_authority,
                locked: ctx.accounts.vault.data.locked,
            },
        ),
    );
    Ok(())
}

} // verus!
