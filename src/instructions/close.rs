use vstd::prelude::*;
use crate::errors::VaultError;
use crate::events::VaultClosed;
use crate::state::{Pubkey, TokenAccount, VaultState};

verus! {

/// Accounts of a closure: the owner destroys the vault and its empty
/// custody account, and takes back their storage deposits.
#[derive(Clone, Copy, Debug, PartialEq, Eq)]
pub struct CloseVault {
    /// The signer.
    pub owner: Pubkey,
    pub mint: Pubkey,
    /// Address of the vault state record.
    pub vault_state: Pubkey,
    /// The vault's custody account.
    pub vault_ata: TokenAccount,
}

impl CloseVault {
    /// The accounts are bound to the vault.
    pub open spec fn authorised(&self, v: VaultState) -> bool {
        &&& self.owner == v.owner
        &&& self.mint == v.mint
        &&& self.vault_ata.address == v.vault_ata
    }

    pub fn check_accounts(&self, v: &VaultState) -> (r: bool)
        ensures
            r == self.authorised(*v),
    {
        self.owner.same(&v.owner) && self.mint.same(&v.mint) && self.vault_ata.address.same(
            &v.vault_ata,
        )
    }
}

/// Closing the custody account: its remaining storage deposit goes to
/// `destination`, signed by the vault's authority.
#[derive(Clone, Copy, Debug, PartialEq, Eq)]
pub struct CloseAccount {
    pub account: Pubkey,
    pub destination: Pubkey,
    pub authority: Pubkey,
}

/// Result of a closure at `now`.
pub open spec fn close_outcome(ctx: CloseVault, v: VaultState, now: i64) -> Result<
    (CloseAccount, VaultClosed),
    VaultError,
> {
    if !ctx.authorised(v) {
        Err(VaultError::Unauthorised)
    } else if ctx.vault_ata.amount != 0 {
        Err(VaultError::VaultNotEmpty)
    } else {
        Ok(
            (
                CloseAccount {
                    account: ctx.vault_ata.address,
                    destination: ctx.owner,
                    authority: ctx.vault_state,
                },
                VaultClosed { vault: ctx.vault_state, owner: v.owner, timestamp: now },
            ),
        )
    }
}

/// Checks that the vault may be closed: only an empty custody account is
/// closed. On success the caller performs the returned closing and destroys
/// the vault state record.
pub fn handler(ctx: &CloseVault, vault: &VaultState, now: i64) -> (r: Result<
    (CloseAccount, VaultClosed),
    VaultError,
>)
    ensures
        r == close_outcome(*ctx, *vault, now),
{
    if !ctx.check_accounts(vault) {
        return Err(VaultError::Unauthorised);
    }
    if ctx.vault_ata.amount != 0 {
        return Err(VaultError::VaultNotEmpty);
    }
    let close = CloseAccount {
        account: ctx.vault_ata.address,
        destination: ctx.owner,
        authority: ctx.vault_state,
    };
    Ok((close, VaultClosed { vault: ctx.vault_state, owner: vault.owner, timestamp: now }))
}

} // verus!
