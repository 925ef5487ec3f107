//! Creating a vault.

use crate::events::{Event, InitializeVaultEvent};
use crate::pubkey::Pubkey;
use crate::state::{Context, Signer, Vault, VaultAccount, VaultState};
use vstd::prelude::*;

verus! {

/// The accounts of a creation: who will be the vault's authority, and the
/// address at which the host has made room for the vault. That no vault
/// existed there before is the host's to ensure.
#[derive(Clone, Copy, Debug, PartialEq, Eq)]
pub struct InitializeVault {
    pub vault_authority: Signer,
    pub vault: Pubkey,
}

impl InitializeVault {
    /// The record of a creation with the initial lock state `locked`.
    pub open spec fn event(self, locked: bool) -> Event {
        Event::InitializeVault(
            InitializeVaultEvent {
                vault: self.vault,
                vault_authority: self.vault_authority.key,
                locked,
            },
        )
    }
}

/// Creates the vault: empty, bound to the signer as its authority, locked or
/// not as asked. The creation is recorded in the event log.
pub fn _init_vault(ctx: &mut Context<InitializeVault>, locked: bool) -> (vault: VaultAccount)
    ensures
        vault@ == VaultState::created(
            old(ctx).accounts.vault,
            old(ctx).accounts.vault_authority.key,
            locked,
        ),
        final(ctx).accounts == old(ctx).accounts,
        final(ctx).events@ == old(ctx).events@.push(old(ctx).accounts.event(locked)),
{
    let vault = VaultAccount {
        key: ctx.accounts.vault,
        lamports: 0,
        data: Vault { vault_authority: ctx.accounts.vault_authority.key, locked },
    };
    ctx.events.push(
        Event::InitializeVault(
            InitializeVaultEvent {
                vault: vault.key,
                vault_authority: vault.data.vault_authority,
                locked,
            },
        ),
    );
    vault
}

} // verus!
