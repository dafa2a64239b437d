use vstd::prelude::*;
use crate::events::VaultInitialised;
use crate::state::{Pubkey, VaultState};

verus! {

/// Accounts of a new vault. Allocating the state record and the custody
/// account, and refusing a vault that already exists, is the account
/// substrate's part.
#[derive(Clone, Copy, Debug, PartialEq, Eq)]
pub struct Initialize {
    /// The signer, who becomes the owner.
    pub owner: Pubkey,
    pub mint: Pubkey,
    /// Address of the new vault state record.
    pub vault_state: Pubkey,
    /// The new custody account, whose authority is the vault state address.
    pub vault_ata: Pubkey,
}

/// The vault as it is born at `now`: every counter zero, the window opening
/// at `now`, unlocked.
pub open spec fn new_vault(
    ctx: Initialize,
    max_deposit: u64,
    daily_withdraw_limit: u64,
    bump: u8,
    now: i64,
) -> VaultState {
    VaultState {
        owner: ctx.owner,
        mint: ctx.mint,
        vault_ata: ctx.vault_ata,
        total_deposited: 0,
        total_withdrawn: 0,
        max_deposit,
        daily_withdraw_limit,
        withdrawn_today: 0,
        window_start: now,
        bump,
        locked: false,
    }
}

/// Creates the vault state with the given caps (0 = unlimited) and the
/// event that announces it.
pub fn handler(
    ctx: &Initialize,
    max_deposit: u64,
    daily_withdraw_limit: u64,
    bump: u8,
    now: i64,
) -> (r: (VaultState, VaultInitialised))
    ensures
        r.0 == new_vault(*ctx, max_deposit, daily_withdraw_limit, bump, now),
        r.0.wf(),
        r.1 == (VaultInitialised {
            owner: ctx.owner,
            mint: ctx.mint,
            max_deposit,
            daily_withdraw_limit,
            timestamp: now,
        }),
{
    let vault = VaultState {
        owner: ctx.owner,
        mint: ctx.mint,
        vault_ata: ctx.vault_ata,
        total_deposited: 0,
        total_withdrawn: 0,
        max_deposit,
        daily_withdraw_limit,
        withdrawn_today: 0,
        window_start: now,
        bump,
        locked: false,
    };
    let event = VaultInitialised {
        owner: ctx.owner,
        mint: ctx.mint,
        max_deposit,
        daily_withdraw_limit,
        timestamp: now,
    };
    (vault, event)
}

} // verus!
