use vstd::prelude::*;
use crate::errors::VaultError;
use crate::events::{DelegateAdded, DelegateRemoved};
use crate::state::{DelegateRecord, Pubkey, TokenAccount, Transfer, VaultState};

verus! {

// ─── AddDelegate ─────────────────────────────────────────────────────────────

/// Accounts of a grant: the owner names a delegate of the vault.
#[derive(Clone, Copy, Debug, PartialEq, Eq)]
pub struct AddDelegate {
    /// The signer.
    pub owner: Pubkey,
    pub mint: Pubkey,
    /// Address of the vault state record.
    pub vault_state: Pubkey,
    /// The identity granted access.
    pub delegate: Pubkey,
}

impl AddDelegate {
    /// The signer owns the vault, and the vault holds this asset.
    pub open spec fn authorised(&self, v: VaultState) -> bool {
        self.owner == v.owner && self.mint == v.mint
    }

    pub fn check_accounts(&self, v: &VaultState) -> (r: bool)
        ensures
            r == self.authorised(*v),
    {
        self.owner.same(&v.owner) && self.mint.same(&v.mint)
    }
}

/// The first check that refuses a grant at `now`, if any.
pub open spec fn add_error(
    ctx: AddDelegate,
    v: VaultState,
    allowance: u64,
    expires_at: i64,
    now: i64,
) -> Option<VaultError> {
    if allowance == 0 {
        Some(VaultError::ZeroAmount)
    } else if !ctx.authorised(v) {
        Some(VaultError::Unauthorised)
    } else if expires_at <= now {
        Some(VaultError::DelegateExpired)
    } else {
        None
    }
}

/// Result of a grant: the new record, with nothing used yet, and its event.
pub open spec fn add_outcome(
    ctx: AddDelegate,
    v: VaultState,
    allowance: u64,
    expires_at: i64,
    bump: u8,
    now: i64,
) -> Result<(DelegateRecord, DelegateAdded), VaultError> {
    match add_error(ctx, v, allowance, expires_at, now) {
        Some(e) => Err(e),
        None => Ok(
            (
                DelegateRecord {
                    vault: ctx.vault_state,
                    delegate: ctx.delegate,
                    allowance,
                    used: 0,
                    expires_at,
                    bump,
                },
                DelegateAdded {
                    vault: ctx.vault_state,
                    delegate: ctx.delegate,
                    allowance,
                    expires_at,
                },
            ),
        ),
    }
}

/// Grants `ctx.delegate` the right to withdraw up to `allowance` in total
/// until `expires_at`, which must lie after `now`.
pub fn add_handler(
    ctx: &AddDelegate,
    vault: &VaultState,
    allowance: u64,
    expires_at: i64,
    bump: u8,
    now: i64,
) -> (r: Result<(DelegateRecord, DelegateAdded), VaultError>)
    ensures
        r == add_outcome(*ctx, *vault, allowance, expires_at, bump, now),
        r matches Ok((rec, _)) ==> rec.wf(),
{
    if allowance == 0 {
        return Err(VaultError::ZeroAmount);
    }
    if !ctx.check_accounts(vault) {
        return Err(VaultError::Unauthorised);
    }
    if expires_at <= now {
        return Err(VaultError::DelegateExpired);
    }
    let rec = DelegateRecord {
        vault: ctx.vault_state,
        delegate: ctx.delegate,
        allowance,
        used: 0,
        expires_at,
        bump,
    };
    let event = DelegateAdded {
        vault: ctx.vault_state,
        delegate: ctx.delegate,
        allowance,
        expires_at,
    };
    Ok((rec, event))
}

// ─── RemoveDelegate ──────────────────────────────────────────────────────────

/// Accounts of a revocation: the owner destroys a delegate's record.
#[derive(Clone, Copy, Debug, PartialEq, Eq)]
pub struct RemoveDelegate {
    /// The signer.
    pub owner: Pubkey,
    pub mint: Pubkey,
    /// Address of the vault state record.
    pub vault_state: Pubkey,
    /// The delegate being removed.
    pub delegate: Pubkey,
}

impl RemoveDelegate {
    /// The signer owns the vault, and the record is this delegate's grant on
    /// this vault.
    pub open spec fn authorised(&self, v: VaultState, rec: DelegateRecord) -> bool {
        &&& self.owner == v.owner
        &&& self.mint == v.mint
        &&& rec.vault == self.vault_state
        &&& rec.delegate == self.delegate
    }

    pub fn check_accounts(&self, v: &VaultState, rec: &DelegateRecord) -> (r: bool)
        ensures
            r == self.authorised(*v, *rec),
    {
        self.owner.same(&v.owner) && self.mint.same(&v.mint) && rec.vault.same(&self.vault_state)
            && rec.delegate.same(&self.delegate)
    }
}

/// Revokes a delegate, whatever is left of its allowance. On success the
/// caller destroys `record`.
pub fn remove_handler(ctx: &RemoveDelegate, vault: &VaultState, record: &DelegateRecord) -> (r:
    Result<DelegateRemoved, VaultError>)
    ensures
        r == if ctx.authorised(*vault, *record) {
            Ok(DelegateRemoved { vault: ctx.vault_state, delegate: ctx.delegate })
        } else {
            Err(VaultError::Unauthorised)
        },
{
    if !ctx.check_accounts(vault, record) {
        return Err(VaultError::Unauthorised);
    }
    Ok(DelegateRemoved { vault: ctx.vault_state, delegate: ctx.delegate })
}

// ─── DelegateWithdraw ────────────────────────────────────────────────────────

/// Accounts of a delegate withdrawal: tokens leave the custody account for
/// the delegate's token account, signed by the vault's own authority.
#[derive(Clone, Copy, Debug, PartialEq, Eq)]
pub struct DelegateWithdraw {
    /// The signer: must be the delegate named in the record.
    pub delegate_signer: Pubkey,
    pub mint: Pubkey,
    /// The vault's owner.
    pub owner: Pubkey,
    /// Address of the vault state record.
    pub vault_state: Pubkey,
    /// Source: the vault's custody account.
    pub vault_ata: TokenAccount,
    /// Destination: must belong to the delegate and hold the vault's asset.
    pub delegate_ata: TokenAccount,
}

impl DelegateWithdraw {
    /// The accounts are bound to the vault, the record and each other.
    pub open spec fn authorised(&self, v: VaultState, rec: DelegateRecord) -> bool {
        &&& self.owner == v.owner
        &&& self.mint == v.mint
        &&& self.vault_ata.address == v.vault_ata
        &&& self.delegate_ata.owner == self.delegate_signer
        &&& self.delegate_ata.mint == self.mint
        &&& rec.delegate == self.delegate_signer
        &&& rec.vault == self.vault_state
    }

    pub fn check_accounts(&self, v: &VaultState, rec: &DelegateRecord) -> (r: bool)
        ensures
            r == self.authorised(*v, *rec),
    {
        self.owner.same(&v.owner) && self.mint.same(&v.mint) && self.vault_ata.address.same(
            &v.vault_ata,
        ) && self.delegate_ata.owner.same(&self.delegate_signer) && self.delegate_ata.mint.same(
            &self.mint,
        ) && rec.delegate.same(&self.delegate_signer) && rec.vault.same(&self.vault_state)
    }

    /// The outbound movement, signed by the vault.
    pub open spec fn transfer(&self, amount: u64) -> Transfer {
        Transfer {
            from: self.vault_ata.address,
            to: self.delegate_ata.address,
            authority: self.vault_state,
            vault_signs: true,
            amount,
        }
    }
}

/// The first check that refuses a delegate withdrawal at `now`, if any.
pub open spec fn delegate_withdraw_error(
    ctx: DelegateWithdraw,
    v: VaultState,
    rec: DelegateRecord,
    amount: u64,
    now: i64,
) -> Option<VaultError> {
    if amount == 0 {
        Some(VaultError::ZeroAmount)
    } else if !ctx.authorised(v, rec) {
        Some(VaultError::Unauthorised)
    } else if now >= rec.expires_at {
        Some(VaultError::DelegateExpired)
    } else if rec.used + amount > u64::MAX {
        Some(VaultError::Overflow)
    } else if rec.used + amount > rec.allowance {
        Some(VaultError::AllowanceExceeded)
    } else if v.locked {
        Some(VaultError::VaultLocked)
    } else if ctx.vault_ata.amount < amount {
        Some(VaultError::InsufficientFunds)
    } else {
        None
    }
}

/// Vault, record and result of the validating phase: a refused withdrawal
/// changes neither record; an accepted one locks the vault, charges the
/// amount to the allowance and asks for the transfer. The owner's daily
/// window is neither read nor changed.
pub open spec fn withdraw_outcome(
    ctx: DelegateWithdraw,
    v: VaultState,
    rec: DelegateRecord,
    amount: u64,
    now: i64,
) -> (VaultState, DelegateRecord, Result<Transfer, VaultError>) {
    match delegate_withdraw_error(ctx, v, rec, amount, now) {
        Some(e) => (v, rec, Err(e)),
        None => (
            VaultState { locked: true, ..v },
            DelegateRecord { used: (rec.used + amount) as u64, ..rec },
            Ok(ctx.transfer(amount)),
        ),
    }
}

/// Validates a delegate withdrawal at `now`, charges it to the allowance and
/// takes the vault's reentrancy lock. On success the caller performs the
/// returned transfer and then calls `withdraw::settle` with the delegate as
/// recipient.
pub fn withdraw_handler(
    ctx: &DelegateWithdraw,
    vault: &mut VaultState,
    record: &mut DelegateRecord,
    amount: u64,
    now: i64,
) -> (r: Result<Transfer, VaultError>)
    ensures
        (*final(vault), *final(record), r) == withdraw_outcome(
            *ctx,
            *old(vault),
            *old(record),
            amount,
            now,
        ),
        final(record).used >= old(record).used,
        old(record).wf() ==> final(record).wf(),
        old(vault).wf() ==> final(vault).wf(),
{
    if amount == 0 {
        return Err(VaultError::ZeroAmount);
    }
    if !ctx.check_accounts(vault, record) {
        return Err(VaultError::Unauthorised);
    }
    if now >= record.expires_at {
        return Err(VaultError::DelegateExpired);
    }
    let new_used = match record.used.checked_add(amount) {
        Some(u) => u,
        None => return Err(VaultError::Overflow),
    };
    if new_used > record.allowance {
        return Err(VaultError::AllowanceExceeded);
    }
    if vault.locked {
        return Err(VaultError::VaultLocked);
    }
    if ctx.vault_ata.amount < amount {
        return Err(VaultError::InsufficientFunds);
    }
    vault.locked = true;
    record.used = new_used;
    Ok(
        Transfer {
            from: ctx.vault_ata.address,
            to: ctx.delegate_ata.address,
            authority: ctx.vault_state,
            vault_signs: true,
            amount,
        },
    )
}

} // verus!
