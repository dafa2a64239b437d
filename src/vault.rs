//! The program's instructions, one entry point each.
use vstd::prelude::*;
use crate::errors::VaultError;
use crate::events::{DelegateAdded, DelegateRemoved, VaultClosed, VaultInitialised};
use crate::instructions::close::{self, CloseAccount, CloseVault};
use crate::instructions::delegate::{self, AddDelegate, DelegateWithdraw, RemoveDelegate};
use crate::instructions::deposit::{self, Deposit};
use crate::instructions::initialize::{self, Initialize};
use crate::instructions::withdraw::{self, Withdraw};
use crate::state::{DelegateRecord, Transfer, VaultState};

verus! {

/// Initialise a new vault with configurable limits.
pub fn initialize(
    ctx: &Initialize,
    max_deposit: u64,
    daily_withdraw_limit: u64,
    bump: u8,
    now: i64,
) -> (r: (VaultState, VaultInitialised))
    ensures
        r.0 == initialize::new_vault(*ctx, max_deposit, daily_withdraw_limit, bump, now),
        r.0.wf(),
        r.1 == (VaultInitialised {
            owner: ctx.owner,
            mint: ctx.mint,
            max_deposit,
            daily_withdraw_limit,
            timestamp: now,
        }),
{
    initialize::handler(ctx, max_deposit, daily_withdraw_limit, bump, now)
}

/// Deposit tokens from the owner into the vault's custody account
/// (validating phase; see `deposit::settle`).
pub fn deposit(ctx: &Deposit, vault: &mut VaultState, amount: u64) -> (r: Result<
    Transfer,
    VaultError,
>)
    ensures
        (*final(vault), r) == deposit::handler_outcome(*ctx, *old(vault), amount),
        old(vault).wf() ==> final(vault).wf(),
{
    deposit::handler(ctx, vault, amount)
}

/// Withdraw tokens back to the owner (validating phase; see
/// `withdraw::settle`).
pub fn withdraw(ctx: &Withdraw, vault: &mut VaultState, amount: u64, now: i64) -> (r: Result<
    Transfer,
    VaultError,
>)
    ensures
        (*final(vault), r) == withdraw::handler_outcome(*ctx, *old(vault), amount, now),
        old(vault).wf() ==> final(vault).wf(),
{
    withdraw::handler(ctx, vault, amount, now)
}

/// Grant a delegate capped, time-limited withdrawal rights.
pub fn add_delegate(
    ctx: &AddDelegate,
    vault: &VaultState,
    allowance: u64,
    expires_at: i64,
    bump: u8,
    now: i64,
) -> (r: Result<(DelegateRecord, DelegateAdded), VaultError>)
    ensures
        r == delegate::add_outcome(*ctx, *vault, allowance, expires_at, bump, now),
        r matches Ok((rec, _)) ==> rec.wf(),
{
    delegate::add_handler(ctx, vault, allowance, expires_at, bump, now)
}

/// Revoke an existing delegate.
pub fn remove_delegate(ctx: &RemoveDelegate, vault: &VaultState, record: &DelegateRecord) -> (r:
    Result<DelegateRemoved, VaultError>)
    ensures
        r == if ctx.authorised(*vault, *record) {
            Ok(DelegateRemoved { vault: ctx.vault_state, delegate: ctx.delegate })
        } else {
            Err(VaultError::Unauthorised)
        },
{
    delegate::remove_handler(ctx, vault, record)
}

/// A delegate withdraws within its allowance (validating phase; see
/// `withdraw::settle`).
pub fn delegate_withdraw(
    ctx: &DelegateWithdraw,
    vault: &mut VaultState,
    record: &mut DelegateRecord,
    amount: u64,
    now: i64,
) -> (r: Result<Transfer, VaultError>)
    ensures
        (*final(vault), *final(record), r) == delegate::withdraw_outcome(
            *ctx,
            *old(vault),
            *old(record),
            amount,
            now,
        ),
        final(record).used >= old(record).used,
        old(record).wf() ==> final(record).wf(),
        old(vault).wf() ==> final(vault).wf(),
{
    delegate::withdraw_handler(ctx, vault, record, amount, now)
}

/// Close an empty vault and return its storage deposits to the owner.
pub fn close_vault(ctx: &CloseVault, vault: &VaultState, now: i64) -> (r: Result<
    (CloseAccount, VaultClosed),
    VaultError,
>)
    ensures
        r == close::close_outcome(*ctx, *vault, now),
{
    close::handler(ctx, vault, now)
}

} // verus!
