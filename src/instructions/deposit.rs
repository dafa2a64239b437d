use vstd::prelude::*;
use crate::errors::VaultError;
use crate::events::DepositMade;
use crate::state::{Pubkey, TokenAccount, Transfer, VaultState};

verus! {

/// Accounts of a deposit: the owner moves tokens from their own token
/// account into the vault's custody account.
#[derive(Clone, Copy, Debug, PartialEq, Eq)]
pub struct Deposit {
    /// The signer.
    pub owner: Pubkey,
    pub mint: Pubkey,
    /// Address of the vault state record.
    pub vault_state: Pubkey,
    /// Source: must belong to the owner and hold the vault's asset.
    pub owner_ata: TokenAccount,
    /// Destination: the vault's custody account.
    pub vault_ata: TokenAccount,
}

impl Deposit {
    /// The accounts are bound to the vault and to each other.
    pub open spec fn authorised(&self, v: VaultState) -> bool {
        &&& self.owner == v.owner
        &&& self.mint == v.mint
        &&& self.owner_ata.owner == self.owner
        &&& self.owner_ata.mint == self.mint
        &&& self.vault_ata.address == v.vault_ata
    }

    pub fn check_accounts(&self, v: &VaultState) -> (r: bool)
        ensures
            r == self.authorised(*v),
    {
        self.owner.same(&v.owner) && self.mint.same(&v.mint) && self.owner_ata.owner.same(
            &self.owner,
        ) && self.owner_ata.mint.same(&self.mint) && self.vault_ata.address.same(&v.vault_ata)
    }

    /// The inbound movement, signed by the owner.
    pub open spec fn transfer(&self, amount: u64) -> Transfer {
        Transfer {
            from: self.owner_ata.address,
            to: self.vault_ata.address,
            authority: self.owner,
            vault_signs: false,
            amount,
        }
    }
}

/// The first check that refuses a deposit, if any.
pub open spec fn deposit_error(ctx: Deposit, v: VaultState, amount: u64) -> Option<VaultError> {
    if amount == 0 {
        Some(VaultError::ZeroAmount)
    } else if !ctx.authorised(v) {
        Some(VaultError::Unauthorised)
    } else if v.locked {
        Some(VaultError::VaultLocked)
    } else if v.max_deposit > 0 && amount > v.max_deposit {
        Some(VaultError::DepositTooLarge)
    } else {
        None
    }
}

/// Vault state and result of the validating phase: a refused deposit leaves
/// the vault as it was; an accepted one locks it and asks for the transfer.
pub open spec fn handler_outcome(ctx: Deposit, v: VaultState, amount: u64) -> (
    VaultState,
    Result<Transfer, VaultError>,
) {
    match deposit_error(ctx, v, amount) {
        Some(e) => (v, Err(e)),
        None => (VaultState { locked: true, ..v }, Ok(ctx.transfer(amount))),
    }
}

/// Vault state and result of the settling phase, after the transfer: the
/// lifetime total grows by `amount` unless that overflows, and the lock is
/// released.
pub open spec fn settle_outcome(ctx: Deposit, v: VaultState, amount: u64, now: i64) -> (
    VaultState,
    Result<DepositMade, VaultError>,
) {
    if v.total_deposited + amount > u64::MAX {
        (v, Err(VaultError::Overflow))
    } else {
        let total = (v.total_deposited + amount) as u64;
        (
            VaultState { total_deposited: total, locked: false, ..v },
            Ok(
                DepositMade {
                    vault: ctx.vault_state,
                    depositor: ctx.owner,
                    amount,
                    total_deposited: total,
                    timestamp: now,
                },
            ),
        )
    }
}

/// Validates a deposit and takes the reentrancy lock. On success the caller
/// performs the returned transfer and then calls `settle`.
pub fn handler(ctx: &Deposit, vault: &mut VaultState, amount: u64) -> (r: Result<
    Transfer,
    VaultError,
>)
    ensures
        (*final(vault), r) == handler_outcome(*ctx, *old(vault), amount),
        old(vault).wf() ==> final(vault).wf(),
{
    if amount == 0 {
        return Err(VaultError::ZeroAmount);
    }
    if !ctx.check_accounts(vault) {
        return Err(VaultError::Unauthorised);
    }
    if vault.locked {
        return Err(VaultError::VaultLocked);
    }
    if vault.max_deposit > 0 && amount > vault.max_deposit {
        return Err(VaultError::DepositTooLarge);
    }
    vault.locked = true;
    Ok(
        Transfer {
            from: ctx.owner_ata.address,
            to: ctx.vault_ata.address,
            authority: ctx.owner,
            vault_signs: false,
            amount,
        },
    )
}

/// Completes a deposit whose transfer went through: adds `amount` to the
/// lifetime total with an overflow check, releases the lock and returns the
/// event to emit.
pub fn settle(ctx: &Deposit, vault: &mut VaultState, amount: u64, now: i64) -> (r: Result<
    DepositMade,
    VaultError,
>)
    ensures
        (*final(vault), r) == settle_outcome(*ctx, *old(vault), amount, now),
        old(vault).wf() ==> final(vault).wf(),
{
    let total = match vault.total_deposited.checked_add(amount) {
        Some(t) => t,
        None => return Err(VaultError::Overflow),
    };
    vault.total_deposited = total;
    vault.locked = false;
    Ok(
        DepositMade {
            vault: ctx.vault_state,
            depositor: ctx.owner,
            amount,
            total_deposited: total,
            timestamp: now,
        },
    )
}

} // verus!
