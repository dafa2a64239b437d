use vstd::prelude::*;
use crate::errors::VaultError;
use crate::events::WithdrawMade;
use crate::state::{Pubkey, TokenAccount, Transfer, VaultState};

verus! {

/// Length of the owner's withdrawal window, in seconds.
pub const DAY_SECONDS: i64 = 86_400;

/// Accounts of an owner withdrawal: tokens leave the custody account for the
/// owner's token account, signed by the vault's own authority.
#[derive(Clone, Copy, Debug, PartialEq, Eq)]
pub struct Withdraw {
    /// The signer.
    pub owner: Pubkey,
    pub mint: Pubkey,
    /// Address of the vault state record, which is also the authority of
    /// the custody account.
    pub vault_state: Pubkey,
    /// Source: the vault's custody account.
    pub vault_ata: TokenAccount,
    /// Destination: must belong to the owner and hold the vault's asset.
    pub owner_ata: TokenAccount,
}

impl Withdraw {
    /// The accounts are bound to the vault and to each other.
    pub open spec fn authorised(&self, v: VaultState) -> bool {
        &&& self.owner == v.owner
        &&& self.mint == v.mint
        &&& self.vault_ata.address == v.vault_ata
        &&& self.owner_ata.owner == self.owner
        &&& self.owner_ata.mint == self.mint
    }

    pub fn check_accounts(&self, v: &VaultState) -> (r: bool)
        ensures
            r == self.authorised(*v),
    {
        self.owner.same(&v.owner) && self.mint.same(&v.mint) && self.vault_ata.address.same(
            &v.vault_ata,
        ) && self.owner_ata.owner.same(&self.owner) && self.owner_ata.mint.same(&self.mint)
    }

    /// The outbound movement, signed by the vault.
    pub open spec fn transfer(&self, amount: u64) -> Transfer {
        Transfer {
            from: self.vault_ata.address,
            to: self.owner_ata.address,
            authority: self.vault_state,
            vault_signs: true,
            amount,
        }
    }
}

/// The vault after the fixed window rolls at `now`: once a full day has
/// passed since the window opened, a new one opens at `now` with nothing
/// withdrawn.
pub open spec fn roll_window(v: VaultState, now: i64) -> VaultState {
    if now - v.window_start >= DAY_SECONDS {
        VaultState { window_start: now, withdrawn_today: 0, ..v }
    } else {
        v
    }
}

/// The first check that refuses an owner withdrawal at `now`, if any.
pub open spec fn withdraw_error(ctx: Withdraw, v: VaultState, amount: u64, now: i64) -> Option<
    VaultError,
> {
    let rolled = roll_window(v, now);
    if amount == 0 {
        Some(VaultError::ZeroAmount)
    } else if !ctx.authorised(v) {
        Some(VaultError::Unauthorised)
    } else if v.locked {
        Some(VaultError::VaultLocked)
    } else if v.daily_withdraw_limit > 0 && rolled.withdrawn_today + amount > u64::MAX {
        Some(VaultError::Overflow)
    } else if v.daily_withdraw_limit > 0 && rolled.withdrawn_today + amount
        > v.daily_withdraw_limit {
        Some(VaultError::DailyLimitExceeded)
    } else if ctx.vault_ata.amount < amount {
        Some(VaultError::InsufficientFunds)
    } else {
        None
    }
}

/// The vault once an accepted withdrawal is counted against the window.
pub open spec fn counted(v: VaultState, amount: u64, now: i64) -> VaultState {
    let rolled = roll_window(v, now);
    if v.daily_withdraw_limit > 0 {
        VaultState { withdrawn_today: (rolled.withdrawn_today + amount) as u64, ..rolled }
    } else {
        rolled
    }
}

/// Vault state and result of the validating phase: a refused withdrawal
/// leaves the vault as it was; an accepted one rolls the window, counts the
/// amount against it, locks the vault and asks for the transfer.
pub open spec fn handler_outcome(ctx: Withdraw, v: VaultState, amount: u64, now: i64) -> (
    VaultState,
    Result<Transfer, VaultError>,
) {
    match withdraw_error(ctx, v, amount, now) {
        Some(e) => (v, Err(e)),
        None => (VaultState { locked: true, ..counted(v, amount, now) }, Ok(ctx.transfer(amount))),
    }
}

/// Vault state and result of the settling phase of any withdrawal, after
/// the transfer: the lifetime total grows by `amount` unless that overflows,
/// and the lock is released.
pub open spec fn settle_outcome(
    v: VaultState,
    vault_key: Pubkey,
    recipient: Pubkey,
    amount: u64,
    by_delegate: bool,
    now: i64,
) -> (VaultState, Result<WithdrawMade, VaultError>) {
    if v.total_withdrawn + amount > u64::MAX {
        (v, Err(VaultError::Overflow))
    } else {
        (
            VaultState { total_withdrawn: (v.total_withdrawn + amount) as u64, locked: false, ..v },
            Ok(WithdrawMade { vault: vault_key, recipient, amount, by_delegate, timestamp: now }),
        )
    }
}

/// Validates an owner withdrawal at `now`, rolls the window, counts the
/// amount and takes the reentrancy lock. On success the caller performs the
/// returned transfer and then calls `settle`.
pub fn handler(ctx: &Withdraw, vault: &mut VaultState, amount: u64, now: i64) -> (r: Result<
    Transfer,
    VaultError,
>)
    ensures
        (*final(vault), r) == handler_outcome(*ctx, *old(vault), amount, now),
        old(vault).wf() ==> final(vault).wf(),
{
    if amount == 0 {
        return Err(VaultError::ZeroAmount);
    }
    if !ctx.check_accounts(vault) {
        return Err(VaultError::Unauthorised);
    }
    if vault.locked {
        return Err(VaultError::VaultLocked);
    }
    let elapsed: i128 = now as i128 - vault.window_start as i128;
    let (window_start, mut today) = if elapsed >= DAY_SECONDS as i128 {
        (now, 0u64)
    } else {
        (vault.window_start, vault.withdrawn_today)
    };
    if vault.daily_withdraw_limit > 0 {
        let new_today = match today.checked_add(amount) {
            Some(t) => t,
            None => return Err(VaultError::Overflow),
        };
        if new_today > vault.daily_withdraw_limit {
            return Err(VaultError::DailyLimitExceeded);
        }
        today = new_today;
    }
    if ctx.vault_ata.amount < amount {
        return Err(VaultError::InsufficientFunds);
    }
    vault.window_start = window_start;
    vault.withdrawn_today = today;
    vault.locked = true;
    Ok(
        Transfer {
            from: ctx.vault_ata.address,
            to: ctx.owner_ata.address,
            authority: ctx.vault_state,
            vault_signs: true,
            amount,
        },
    )
}

/// Completes a withdrawal, by the owner or by a delegate, whose transfer
/// went through: adds `amount` to the lifetime total with an overflow check,
/// releases the lock and returns the event to emit.
pub fn settle(
    vault: &mut VaultState,
    vault_key: Pubkey,
    recipient: Pubkey,
    amount: u64,
    by_delegate: bool,
    now: i64,
) -> (r: Result<WithdrawMade, VaultError>)
    ensures
        (*final(vault), r) == settle_outcome(
            *old(vault),
            vault_key,
            recipient,
            amount,
            by_delegate,
            now,
        ),
        old(vault).wf() ==> final(vault).wf(),
{
    let total = match vault.total_withdrawn.checked_add(amount) {
        Some(t) => t,
        None => return Err(VaultError::Overflow),
    };
    vault.total_withdrawn = total;
    vault.locked = false;
    Ok(WithdrawMade { vault: vault_key, recipient, amount, by_delegate, timestamp: now })
}

} // verus!
