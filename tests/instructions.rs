use vault::errors::VaultError;
use vault::instructions::close::CloseVault;
use vault::instructions::delegate::{AddDelegate, DelegateWithdraw, RemoveDelegate};
use vault::instructions::deposit::{self, Deposit};
use vault::instructions::initialize::Initialize;
use vault::instructions::withdraw::{self, Withdraw, DAY_SECONDS};
use vault::state::{DelegateRecord, Pubkey, TokenAccount, VaultState};
use vault::vault as program;

const OWNER: u8 = 1;
const MINT: u8 = 2;
const VAULT: u8 = 3;
const VAULT_ATA: u8 = 4;
const OWNER_ATA: u8 = 5;
const DELEGATE: u8 = 6;
const DELEGATE_ATA: u8 = 7;
const STRANGER: u8 = 9;
const T0: i64 = 1_700_000_000;

fn key(b: u8) -> Pubkey {
    Pubkey::new([b; 32])
}

fn token(address: u8, owner: u8, amount: u64) -> TokenAccount {
    TokenAccount { address: key(address), owner: key(owner), mint: key(MINT), amount }
}

fn init(max_deposit: u64, daily_limit: u64) -> VaultState {
    let ctx = Initialize {
        owner: key(OWNER),
        mint: key(MINT),
        vault_state: key(VAULT),
        vault_ata: key(VAULT_ATA),
    };
    program::initialize(&ctx, max_deposit, daily_limit, 254, T0).0
}

fn deposit_ctx(custody: u64) -> Deposit {
    Deposit {
        owner: key(OWNER),
        mint: key(MINT),
        vault_state: key(VAULT),
        owner_ata: token(OWNER_ATA, OWNER, 10_000_000),
        vault_ata: token(VAULT_ATA, VAULT, custody),
    }
}

fn withdraw_ctx(custody: u64) -> Withdraw {
    Withdraw {
        owner: key(OWNER),
        mint: key(MINT),
        vault_state: key(VAULT),
        vault_ata: token(VAULT_ATA, VAULT, custody),
        owner_ata: token(OWNER_ATA, OWNER, 0),
    }
}

fn add_ctx() -> AddDelegate {
    AddDelegate { owner: key(OWNER), mint: key(MINT), vault_state: key(VAULT), delegate: key(DELEGATE) }
}

fn delegate_ctx(custody: u64) -> DelegateWithdraw {
    DelegateWithdraw {
        delegate_signer: key(DELEGATE),
        mint: key(MINT),
        owner: key(OWNER),
        vault_state: key(VAULT),
        vault_ata: token(VAULT_ATA, VAULT, custody),
        delegate_ata: token(DELEGATE_ATA, DELEGATE, 0),
    }
}

fn close_ctx(custody: u64) -> CloseVault {
    CloseVault {
        owner: key(OWNER),
        mint: key(MINT),
        vault_state: key(VAULT),
        vault_ata: token(VAULT_ATA, VAULT, custody),
    }
}

/// Both phases of a deposit.
fn full_deposit(v: &mut VaultState, amount: u64) -> Result<u64, VaultError> {
    let ctx = deposit_ctx(0);
    program::deposit(&ctx, v, amount)?;
    Ok(deposit::settle(&ctx, v, amount, T0)?.total_deposited)
}

/// Both phases of an owner withdrawal.
fn full_withdraw(v: &mut VaultState, amount: u64, now: i64) -> Result<(), VaultError> {
    let ctx = withdraw_ctx(1_000_000);
    program::withdraw(&ctx, v, amount, now)?;
    withdraw::settle(v, key(VAULT), key(OWNER), amount, false, now)?;
    Ok(())
}

/// Both phases of a delegate withdrawal.
fn full_delegate_withdraw(
    v: &mut VaultState,
    rec: &mut DelegateRecord,
    amount: u64,
    now: i64,
) -> Result<(), VaultError> {
    let ctx = delegate_ctx(1_000_000);
    program::delegate_withdraw(&ctx, v, rec, amount, now)?;
    withdraw::settle(v, key(VAULT), key(DELEGATE), amount, true, now)?;
    Ok(())
}

fn grant(v: &VaultState, allowance: u64, expires_at: i64) -> DelegateRecord {
    program::add_delegate(&add_ctx(), v, allowance, expires_at, 253, T0).unwrap().0
}

#[test]
fn initialize_zeroes_counters() {
    let ctx = Initialize {
        owner: key(OWNER),
        mint: key(MINT),
        vault_state: key(VAULT),
        vault_ata: key(VAULT_ATA),
    };
    let (v, event) = program::initialize(&ctx, 100, 500, 254, T0);
    assert_eq!(v.owner, key(OWNER));
    assert_eq!(v.mint, key(MINT));
    assert_eq!(v.vault_ata, key(VAULT_ATA));
    assert_eq!(v.total_deposited, 0);
    assert_eq!(v.total_withdrawn, 0);
    assert_eq!(v.max_deposit, 100);
    assert_eq!(v.daily_withdraw_limit, 500);
    assert_eq!(v.withdrawn_today, 0);
    assert_eq!(v.window_start, T0);
    assert_eq!(v.bump, 254);
    assert!(!v.locked);
    assert_eq!(event.timestamp, T0);
    assert_eq!(event.max_deposit, 100);
    assert_eq!(event.daily_withdraw_limit, 500);
}

#[test]
fn unlimited_deposit_is_counted() {
    let mut v = init(0, 0);
    assert_eq!(full_deposit(&mut v, 1_000_000), Ok(1_000_000));
    assert_eq!(v.total_deposited, 1_000_000);
    assert!(!v.locked);
}

#[test]
fn deposit_above_cap_is_refused() {
    let mut v = init(100, 0);
    assert_eq!(full_deposit(&mut v, 150), Err(VaultError::DepositTooLarge));
    assert_eq!(v.total_deposited, 0);
    assert_eq!(v, init(100, 0));
}

#[test]
fn deposit_at_cap_is_accepted() {
    let mut v = init(100, 0);
    assert_eq!(full_deposit(&mut v, 100), Ok(100));
    assert_eq!(full_deposit(&mut v, 101), Err(VaultError::DepositTooLarge));
    assert_eq!(v.total_deposited, 100);
}

#[test]
fn deposit_handler_locks_and_asks_for_inbound_transfer() {
    let mut v = init(0, 0);
    let ctx = deposit_ctx(0);
    let t = program::deposit(&ctx, &mut v, 42).unwrap();
    assert!(v.locked);
    assert_eq!(t.from, key(OWNER_ATA));
    assert_eq!(t.to, key(VAULT_ATA));
    assert_eq!(t.authority, key(OWNER));
    assert!(!t.vault_signs);
    assert_eq!(t.amount, 42);
    // A reentrant call while the transfer is in flight is refused.
    let before = v;
    assert_eq!(program::deposit(&ctx, &mut v, 1), Err(VaultError::VaultLocked));
    assert_eq!(v, before);
    let event = deposit::settle(&ctx, &mut v, 42, T0 + 5).unwrap();
    assert!(!v.locked);
    assert_eq!(event.amount, 42);
    assert_eq!(event.total_deposited, 42);
    assert_eq!(event.depositor, key(OWNER));
    assert_eq!(event.vault, key(VAULT));
    assert_eq!(event.timestamp, T0 + 5);
}

#[test]
fn deposit_settle_overflow() {
    let mut v = init(0, 0);
    v.total_deposited = u64::MAX - 1;
    let ctx = deposit_ctx(0);
    program::deposit(&ctx, &mut v, 2).unwrap();
    let before = v;
    assert_eq!(deposit::settle(&ctx, &mut v, 2, T0), Err(VaultError::Overflow));
    assert_eq!(v, before);
    v.locked = false;
    assert_eq!(full_deposit(&mut v, 1), Ok(u64::MAX));
}

#[test]
fn zero_amount_is_refused_everywhere() {
    let mut v = init(0, 0);
    let mut rec = grant(&v, 100, T0 + 1000);
    let before = v;
    let rec_before = rec;
    assert_eq!(program::deposit(&deposit_ctx(0), &mut v, 0), Err(VaultError::ZeroAmount));
    assert_eq!(program::withdraw(&withdraw_ctx(10), &mut v, 0, T0), Err(VaultError::ZeroAmount));
    assert_eq!(
        program::delegate_withdraw(&delegate_ctx(10), &mut v, &mut rec, 0, T0),
        Err(VaultError::ZeroAmount)
    );
    assert_eq!(
        program::add_delegate(&add_ctx(), &v, 0, T0 + 1000, 1, T0).map(|r| r.0),
        Err(VaultError::ZeroAmount)
    );
    // Zero comes first, even on a locked vault.
    v.locked = true;
    assert_eq!(program::deposit(&deposit_ctx(0), &mut v, 0), Err(VaultError::ZeroAmount));
    v.locked = false;
    assert_eq!(v, before);
    assert_eq!(rec, rec_before);
}

#[test]
fn refusal_twice_is_identical() {
    let mut v = init(100, 0);
    let first = program::deposit(&deposit_ctx(0), &mut v, 150);
    let after_first = v;
    let second = program::deposit(&deposit_ctx(0), &mut v, 150);
    assert_eq!(first, second);
    assert_eq!(first, Err(VaultError::DepositTooLarge));
    assert_eq!(v, after_first);

    let mut v = init(0, 500);
    let first = program::withdraw(&withdraw_ctx(10), &mut v, 300, T0);
    let after_first = v;
    let second = program::withdraw(&withdraw_ctx(10), &mut v, 300, T0);
    assert_eq!(first, Err(VaultError::InsufficientFunds));
    assert_eq!(first, second);
    assert_eq!(v, after_first);
}

#[test]
fn daily_limit_and_next_window() {
    let mut v = init(0, 500);
    assert_eq!(full_withdraw(&mut v, 300, T0 + 10), Ok(()));
    assert_eq!(v.withdrawn_today, 300);
    assert_eq!(full_withdraw(&mut v, 300, T0 + 20), Err(VaultError::DailyLimitExceeded));
    assert_eq!(v.withdrawn_today, 300);
    assert_eq!(full_withdraw(&mut v, 300, T0 + DAY_SECONDS), Ok(()));
    assert_eq!(v.withdrawn_today, 300);
    assert_eq!(v.window_start, T0 + DAY_SECONDS);
    assert_eq!(v.total_withdrawn, 600);
}

#[test]
fn window_boundary() {
    // One second before the day is over the window still counts.
    let mut v = init(0, 500);
    assert_eq!(full_withdraw(&mut v, 300, T0), Ok(()));
    let before = v;
    assert_eq!(full_withdraw(&mut v, 300, T0 + DAY_SECONDS - 1), Err(VaultError::DailyLimitExceeded));
    assert_eq!(v, before);
    assert_eq!(full_withdraw(&mut v, 200, T0 + DAY_SECONDS - 1), Ok(()));
    assert_eq!(v.withdrawn_today, 500);
    assert_eq!(v.window_start, T0);
    // Exactly a day later it starts afresh.
    assert_eq!(full_withdraw(&mut v, 500, T0 + DAY_SECONDS), Ok(()));
    assert_eq!(v.withdrawn_today, 500);
    assert_eq!(v.window_start, T0 + DAY_SECONDS);
}

#[test]
fn window_rolls_long_after() {
    let mut v = init(0, 500);
    assert_eq!(full_withdraw(&mut v, 500, T0), Ok(()));
    assert_eq!(full_withdraw(&mut v, 1, T0 + 3 * DAY_SECONDS + 17), Ok(()));
    assert_eq!(v.window_start, T0 + 3 * DAY_SECONDS + 17);
    assert_eq!(v.withdrawn_today, 1);
}

#[test]
fn window_with_extreme_times() {
    let mut v = init(0, 500);
    v.window_start = i64::MIN;
    assert_eq!(full_withdraw(&mut v, 10, i64::MAX), Ok(()));
    assert_eq!(v.window_start, i64::MAX);
    assert_eq!(v.withdrawn_today, 10);
}

#[test]
fn unlimited_withdrawals_do_not_count() {
    let mut v = init(0, 0);
    assert_eq!(full_withdraw(&mut v, 1_000_000, T0), Ok(()));
    assert_eq!(v.withdrawn_today, 0);
    assert_eq!(v.total_withdrawn, 1_000_000);
}

#[test]
fn withdraw_asks_for_vault_signed_transfer() {
    let mut v = init(0, 0);
    let t = program::withdraw(&withdraw_ctx(50), &mut v, 50, T0).unwrap();
    assert!(v.locked);
    assert_eq!(t.from, key(VAULT_ATA));
    assert_eq!(t.to, key(OWNER_ATA));
    assert_eq!(t.authority, key(VAULT));
    assert!(t.vault_signs);
    assert_eq!(t.amount, 50);
    let event = withdraw::settle(&mut v, key(VAULT), key(OWNER), 50, false, T0 + 1).unwrap();
    assert!(!v.locked);
    assert_eq!(event.recipient, key(OWNER));
    assert!(!event.by_delegate);
    assert_eq!(event.amount, 50);
    assert_eq!(event.timestamp, T0 + 1);
}

#[test]
fn withdraw_errors() {
    let mut v = init(0, 0);
    assert_eq!(program::withdraw(&withdraw_ctx(49), &mut v, 50, T0), Err(VaultError::InsufficientFunds));
    v.locked = true;
    assert_eq!(program::withdraw(&withdraw_ctx(100), &mut v, 50, T0), Err(VaultError::VaultLocked));
    v.locked = false;
    let mut ctx = withdraw_ctx(100);
    ctx.owner = key(STRANGER);
    assert_eq!(program::withdraw(&ctx, &mut v, 50, T0), Err(VaultError::Unauthorised));
    let mut ctx = withdraw_ctx(100);
    ctx.owner_ata.owner = key(STRANGER);
    assert_eq!(program::withdraw(&ctx, &mut v, 50, T0), Err(VaultError::Unauthorised));
    let mut v = init(0, u64::MAX);
    v.withdrawn_today = u64::MAX - 1;
    assert_eq!(program::withdraw(&withdraw_ctx(100), &mut v, 2, T0), Err(VaultError::Overflow));
    v.total_withdrawn = u64::MAX;
    v.withdrawn_today = 0;
    program::withdraw(&withdraw_ctx(100), &mut v, 1, T0).unwrap();
    assert_eq!(
        withdraw::settle(&mut v, key(VAULT), key(OWNER), 1, false, T0),
        Err(VaultError::Overflow)
    );
}

#[test]
fn deposit_unauthorised() {
    let mut v = init(0, 0);
    let mut ctx = deposit_ctx(0);
    ctx.mint = key(STRANGER);
    assert_eq!(program::deposit(&ctx, &mut v, 5), Err(VaultError::Unauthorised));
    let mut ctx = deposit_ctx(0);
    ctx.vault_ata.address = key(STRANGER);
    assert_eq!(program::deposit(&ctx, &mut v, 5), Err(VaultError::Unauthorised));
    assert_eq!(v, init(0, 0));
}

#[test]
fn delegate_allowance_is_enforced() {
    let mut v = init(0, 0);
    let mut rec = grant(&v, 200, T0 + 3600);
    assert_eq!(rec.used, 0);
    assert_eq!(full_delegate_withdraw(&mut v, &mut rec, 150, T0 + 1), Ok(()));
    assert_eq!(rec.used, 150);
    assert_eq!(full_delegate_withdraw(&mut v, &mut rec, 100, T0 + 2), Err(VaultError::AllowanceExceeded));
    assert_eq!(rec.used, 150);
    assert_eq!(full_delegate_withdraw(&mut v, &mut rec, 50, T0 + 3), Ok(()));
    assert_eq!(rec.used, 200);
    assert_eq!(v.total_withdrawn, 200);
}

#[test]
fn delegate_expiry_is_enforced() {
    let v = init(0, 0);
    assert_eq!(
        program::add_delegate(&add_ctx(), &v, 100, T0 - 1, 1, T0).map(|r| r.0),
        Err(VaultError::DelegateExpired)
    );
    assert_eq!(
        program::add_delegate(&add_ctx(), &v, 100, T0, 1, T0).map(|r| r.0),
        Err(VaultError::DelegateExpired)
    );
    let mut v = v;
    let mut rec = grant(&v, 100, T0 + 60);
    assert_eq!(full_delegate_withdraw(&mut v, &mut rec, 10, T0 + 59), Ok(()));
    assert_eq!(full_delegate_withdraw(&mut v, &mut rec, 10, T0 + 60), Err(VaultError::DelegateExpired));
    assert_eq!(full_delegate_withdraw(&mut v, &mut rec, 10, T0 + 61), Err(VaultError::DelegateExpired));
    assert_eq!(rec.used, 10);
}

#[test]
fn add_delegate_builds_record_and_event() {
    let v = init(0, 0);
    let (rec, event) = program::add_delegate(&add_ctx(), &v, 300, T0 + 10, 253, T0).unwrap();
    assert_eq!(rec.vault, key(VAULT));
    assert_eq!(rec.delegate, key(DELEGATE));
    assert_eq!(rec.allowance, 300);
    assert_eq!(rec.used, 0);
    assert_eq!(rec.expires_at, T0 + 10);
    assert_eq!(rec.bump, 253);
    assert_eq!(event.vault, key(VAULT));
    assert_eq!(event.delegate, key(DELEGATE));
    assert_eq!(event.allowance, 300);
    assert_eq!(event.expires_at, T0 + 10);
    let mut ctx = add_ctx();
    ctx.owner = key(STRANGER);
    assert_eq!(
        program::add_delegate(&ctx, &v, 300, T0 + 10, 253, T0).map(|r| r.0),
        Err(VaultError::Unauthorised)
    );
}

#[test]
fn delegate_withdraw_ignores_daily_limit() {
    let mut v = init(0, 100);
    let mut rec = grant(&v, 1000, T0 + 3600);
    assert_eq!(full_delegate_withdraw(&mut v, &mut rec, 500, T0), Ok(()));
    assert_eq!(v.withdrawn_today, 0);
    assert_eq!(v.total_withdrawn, 500);
}

#[test]
fn delegate_withdraw_transfer_and_event() {
    let mut v = init(0, 0);
    let mut rec = grant(&v, 1000, T0 + 3600);
    let t = program::delegate_withdraw(&delegate_ctx(70), &mut v, &mut rec, 70, T0).unwrap();
    assert!(v.locked);
    assert_eq!(rec.used, 70);
    assert_eq!(t.from, key(VAULT_ATA));
    assert_eq!(t.to, key(DELEGATE_ATA));
    assert_eq!(t.authority, key(VAULT));
    assert!(t.vault_signs);
    assert_eq!(t.amount, 70);
    let event = withdraw::settle(&mut v, key(VAULT), key(DELEGATE), 70, true, T0).unwrap();
    assert!(event.by_delegate);
    assert_eq!(event.recipient, key(DELEGATE));
    assert!(!v.locked);
}

#[test]
fn delegate_withdraw_errors() {
    let mut v = init(0, 0);
    let mut rec = grant(&v, 1000, T0 + 3600);
    assert_eq!(
        program::delegate_withdraw(&delegate_ctx(5), &mut v, &mut rec, 10, T0),
        Err(VaultError::InsufficientFunds)
    );
    v.locked = true;
    assert_eq!(
        program::delegate_withdraw(&delegate_ctx(50), &mut v, &mut rec, 10, T0),
        Err(VaultError::VaultLocked)
    );
    v.locked = false;
    let mut ctx = delegate_ctx(50);
    ctx.delegate_signer = key(STRANGER);
    ctx.delegate_ata.owner = key(STRANGER);
    assert_eq!(
        program::delegate_withdraw(&ctx, &mut v, &mut rec, 10, T0),
        Err(VaultError::Unauthorised)
    );
    rec.used = u64::MAX - 1;
    rec.allowance = u64::MAX;
    assert_eq!(
        program::delegate_withdraw(&delegate_ctx(50), &mut v, &mut rec, 10, T0),
        Err(VaultError::Overflow)
    );
    assert_eq!(rec.used, u64::MAX - 1);
    assert!(!v.locked);
}

#[test]
fn delegate_usage_never_decreases() {
    let mut v = init(0, 0);
    let mut rec = grant(&v, 100, T0 + 3600);
    let mut last = rec.used;
    for (i, amount) in [30u64, 0, 80, 70, 1, 0, 500].iter().enumerate() {
        let _ = full_delegate_withdraw(&mut v, &mut rec, *amount, T0 + i as i64);
        assert!(rec.used >= last);
        assert!(rec.used <= rec.allowance);
        last = rec.used;
    }
    assert_eq!(rec.used, 100);
}

#[test]
fn remove_delegate() {
    let v = init(0, 0);
    let rec = grant(&v, 100, T0 + 3600);
    let ctx = RemoveDelegate { owner: key(OWNER), mint: key(MINT), vault_state: key(VAULT), delegate: key(DELEGATE) };
    let event = program::remove_delegate(&ctx, &v, &rec).unwrap();
    assert_eq!(event.vault, key(VAULT));
    assert_eq!(event.delegate, key(DELEGATE));
    let mut other = ctx;
    other.delegate = key(STRANGER);
    assert_eq!(program::remove_delegate(&other, &v, &rec), Err(VaultError::Unauthorised));
    let mut other = ctx;
    other.owner = key(STRANGER);
    assert_eq!(program::remove_delegate(&other, &v, &rec), Err(VaultError::Unauthorised));
}

#[test]
fn close_needs_empty_custody() {
    let v = init(0, 0);
    let mut stored = Some(v);
    assert_eq!(
        program::close_vault(&close_ctx(1), stored.as_ref().unwrap(), T0).map(|r| r.1),
        Err(VaultError::VaultNotEmpty)
    );
    assert!(stored.is_some());
    let (close, event) = program::close_vault(&close_ctx(0), stored.as_ref().unwrap(), T0 + 9).unwrap();
    stored = None;
    assert!(stored.is_none());
    assert_eq!(close.account, key(VAULT_ATA));
    assert_eq!(close.destination, key(OWNER));
    assert_eq!(close.authority, key(VAULT));
    assert_eq!(event.vault, key(VAULT));
    assert_eq!(event.owner, key(OWNER));
    assert_eq!(event.timestamp, T0 + 9);
    let mut ctx = close_ctx(0);
    ctx.owner = key(STRANGER);
    assert_eq!(program::close_vault(&ctx, &v, T0).map(|r| r.1), Err(VaultError::Unauthorised));
}

#[test]
fn totals_are_sums_of_successes() {
    let mut v = init(100, 150);
    let mut deposited: u64 = 0;
    let mut withdrawn: u64 = 0;
    for amount in [50u64, 0, 100, 101, 7] {
        if full_deposit(&mut v, amount).is_ok() {
            deposited += amount;
        }
    }
    for (i, amount) in [60u64, 60, 60, 0, 30].iter().enumerate() {
        if full_withdraw(&mut v, *amount, T0 + i as i64).is_ok() {
            withdrawn += amount;
        }
    }
    assert_eq!(deposited, 157);
    assert_eq!(withdrawn, 150);
    assert_eq!(v.total_deposited, 157);
    assert_eq!(v.total_withdrawn, 150);
}

#[test]
fn deposit_guard_matches_cap_rule() {
    for (max_deposit, amount) in [(0u64, 0u64), (0, 1), (0, u64::MAX), (10, 10), (10, 11), (u64::MAX, u64::MAX), (1, 0)] {
        let mut v = init(max_deposit, 0);
        let allowed = amount > 0 && (max_deposit == 0 || amount <= max_deposit);
        assert_eq!(program::deposit(&deposit_ctx(0), &mut v, amount).is_ok(), allowed);
    }
}

#[test]
fn pubkey_equality_is_bytewise() {
    let mut b = [7u8; 32];
    assert!(key(7).same(&Pubkey::new(b)));
    b[31] = 8;
    assert!(!key(7).same(&Pubkey::new(b)));
    assert_ne!(key(7), Pubkey::new(b));
}

#[test]
fn error_messages() {
    assert_eq!(VaultError::ZeroAmount.message(), "Amount must be greater than zero");
    assert_eq!(VaultError::VaultNotEmpty.message(), "Vault must be empty before closing");
}
