//! Properties that hold across the instructions, proved over their outcome
//! functions.
use vstd::prelude::*;
use crate::errors::VaultError;
use crate::instructions::delegate::{self, AddDelegate, DelegateWithdraw};
use crate::instructions::deposit::{self, Deposit};
use crate::instructions::withdraw::{self, DAY_SECONDS, Withdraw};
use crate::state::{DelegateRecord, Pubkey, Transfer, VaultState};

verus! {

/// A zero amount is refused with `ZeroAmount` by every instruction that
/// moves funds or grants an allowance, before any other check, and the
/// records stay as they were.
pub proof fn zero_amount_is_refused(
    dctx: Deposit,
    wctx: Withdraw,
    gctx: DelegateWithdraw,
    actx: AddDelegate,
    v: VaultState,
    rec: DelegateRecord,
    expires_at: i64,
    bump: u8,
    now: i64,
)
    ensures
        deposit::handler_outcome(dctx, v, 0) == (v, Err::<Transfer, VaultError>(VaultError::ZeroAmount)),
        withdraw::handler_outcome(wctx, v, 0, now) == (v, Err::<Transfer, VaultError>(
            VaultError::ZeroAmount,
        )),
        delegate::withdraw_outcome(gctx, v, rec, 0, now) == (v, rec, Err::<Transfer, VaultError>(
            VaultError::ZeroAmount,
        )),
        delegate::add_outcome(actx, v, 0, expires_at, bump, now) == Err::<
            (DelegateRecord, crate::events::DelegateAdded),
            VaultError,
        >(VaultError::ZeroAmount),
{
}

/// With a cap set, a deposit above it is refused with `DepositTooLarge` and
/// the counters stay as they were (for an authorised caller on an unlocked
/// vault: those checks come first).
pub proof fn oversized_deposit_is_refused(ctx: Deposit, v: VaultState, amount: u64)
    requires
        v.max_deposit > 0,
        amount > v.max_deposit,
        ctx.authorised(v),
        !v.locked,
    ensures
        deposit::handler_outcome(ctx, v, amount) == (v, Err::<Transfer, VaultError>(
            VaultError::DepositTooLarge,
        )),
{
}

/// A refused deposit, run again on what it left, is refused the same way and
/// leaves the same vault; so is a refused settling.
pub proof fn deposit_refusal_is_idempotent(ctx: Deposit, v: VaultState, amount: u64, now: i64)
    ensures
        deposit::handler_outcome(ctx, v, amount).1 is Err ==> deposit::handler_outcome(
            ctx,
            deposit::handler_outcome(ctx, v, amount).0,
            amount,
        ) == deposit::handler_outcome(ctx, v, amount),
        deposit::settle_outcome(ctx, v, amount, now).1 is Err ==> deposit::settle_outcome(
            ctx,
            deposit::settle_outcome(ctx, v, amount, now).0,
            amount,
            now,
        ) == deposit::settle_outcome(ctx, v, amount, now),
{
}

/// A refused owner withdrawal, run again on what it left, is refused the
/// same way and leaves the same vault; so is a refused settling.
pub proof fn withdraw_refusal_is_idempotent(
    ctx: Withdraw,
    v: VaultState,
    amount: u64,
    now: i64,
    recipient: Pubkey,
    by_delegate: bool,
)
    ensures
        withdraw::handler_outcome(ctx, v, amount, now).1 is Err ==> withdraw::handler_outcome(
            ctx,
            withdraw::handler_outcome(ctx, v, amount, now).0,
            amount,
            now,
        ) == withdraw::handler_outcome(ctx, v, amount, now),
        withdraw::settle_outcome(v, ctx.vault_state, recipient, amount, by_delegate, now).1 is Err
            ==> withdraw::settle_outcome(
            withdraw::settle_outcome(v, ctx.vault_state, recipient, amount, by_delegate, now).0,
            ctx.vault_state,
            recipient,
            amount,
            by_delegate,
            now,
        ) == withdraw::settle_outcome(v, ctx.vault_state, recipient, amount, by_delegate, now),
{
}

/// A refused delegate withdrawal, run again on what it left, is refused the
/// same way and leaves the same vault and record.
pub proof fn delegate_refusal_is_idempotent(
    ctx: DelegateWithdraw,
    v: VaultState,
    rec: DelegateRecord,
    amount: u64,
    now: i64,
)
    ensures
        ({
            let first = delegate::withdraw_outcome(ctx, v, rec, amount, now);
            first.2 is Err ==> delegate::withdraw_outcome(ctx, first.0, first.1, amount, now)
                == first
        }),
{
}

/// The owner's window rolls exactly when a full day has passed: a
/// withdrawal one day after the window opened starts a fresh window and is
/// checked against the limit from zero, while one a second earlier is
/// counted on top of what was already withdrawn.
pub proof fn window_rolls_after_a_full_day(ctx: Withdraw, v: VaultState, amount: u64)
    requires
        v.window_start <= i64::MAX - DAY_SECONDS,
    ensures
        ({
            let t = (v.window_start + DAY_SECONDS) as i64;
            &&& withdraw::roll_window(v, t) == VaultState { window_start: t, withdrawn_today: 0, ..v }
            &&& withdraw::roll_window(v, (t - 1) as i64) == v
            &&& (ctx.authorised(v) && !v.locked && 0 < amount <= v.daily_withdraw_limit
                && amount <= ctx.vault_ata.amount) ==> withdraw::handler_outcome(ctx, v, amount, t)
                == (
                VaultState { window_start: t, withdrawn_today: amount, locked: true, ..v },
                Ok::<Transfer, VaultError>(ctx.transfer(amount)),
            )
            &&& (ctx.authorised(v) && !v.locked && 0 < amount && v.daily_withdraw_limit > 0
                && v.withdrawn_today + amount > v.daily_withdraw_limit) ==> withdraw::handler_outcome(
                ctx,
                v,
                amount,
                (t - 1) as i64,
            ).1 == Err::<Transfer, VaultError>(
                if v.withdrawn_today + amount > u64::MAX {
                    VaultError::Overflow
                } else {
                    VaultError::DailyLimitExceeded
                },
            )
            &&& withdraw::handler_outcome(ctx, v, amount, (t - 1) as i64).1 is Ok
                ==> withdraw::handler_outcome(ctx, v, amount, (t - 1) as i64).0 == (VaultState {
                withdrawn_today: if v.daily_withdraw_limit > 0 {
                    (v.withdrawn_today + amount) as u64
                } else {
                    v.withdrawn_today
                },
                locked: true,
                ..v
            })
        }),
{
}

/// The delegate record after a sequence of delegate withdrawals, each given
/// by its accounts, the vault as it then stands, the amount and the time.
pub open spec fn record_after(
    rec: DelegateRecord,
    calls: Seq<(DelegateWithdraw, VaultState, u64, i64)>,
) -> DelegateRecord
    decreases calls.len(),
{
    if calls.len() == 0 {
        rec
    } else {
        let c = calls.last();
        delegate::withdraw_outcome(c.0, c.1, record_after(rec, calls.drop_last()), c.2, c.3).1
    }
}

/// Over any sequence of delegate withdrawals, accepted or refused, `used`
/// never decreases, the allowance never changes, and a record that starts
/// within its allowance stays within it.
pub proof fn delegate_usage_is_monotone(
    rec: DelegateRecord,
    calls: Seq<(DelegateWithdraw, VaultState, u64, i64)>,
    i: int,
    j: int,
)
    requires
        0 <= i <= j <= calls.len(),
    ensures
        record_after(rec, calls.take(i)).used <= record_after(rec, calls.take(j)).used,
        record_after(rec, calls.take(j)).allowance == rec.allowance,
        rec.wf() ==> record_after(rec, calls.take(j)).wf(),
    decreases j,
{
    if j > 0 {
        assert(calls.take(j).drop_last() =~= calls.take(j - 1));
        if i < j {
            delegate_usage_is_monotone(rec, calls, i, j - 1);
        } else {
            delegate_usage_is_monotone(rec, calls, j - 1, j - 1);
        }
    } else {
        assert(calls.take(0) =~= Seq::<(DelegateWithdraw, VaultState, u64, i64)>::empty());
    }
}

/// An owner movement of funds: its accounts, the amount and the time.
pub enum Movement {
    Deposit(Deposit, u64, i64),
    Withdraw(Withdraw, u64, i64),
}

/// One complete movement, both phases: the vault after it and whether it
/// went through. A movement refused in either phase leaves the vault as it
/// was, since the instruction then fails as a whole.
pub open spec fn movement_step(v: VaultState, m: Movement) -> (VaultState, bool) {
    match m {
        Movement::Deposit(ctx, amount, now) => {
            let first = deposit::handler_outcome(ctx, v, amount);
            let second = deposit::settle_outcome(ctx, first.0, amount, now);
            if first.1 is Ok && second.1 is Ok {
                (second.0, true)
            } else {
                (v, false)
            }
        },
        Movement::Withdraw(ctx, amount, now) => {
            let first = withdraw::handler_outcome(ctx, v, amount, now);
            let second = withdraw::settle_outcome(
                first.0,
                ctx.vault_state,
                ctx.owner,
                amount,
                false,
                now,
            );
            if first.1 is Ok && second.1 is Ok {
                (second.0, true)
            } else {
                (v, false)
            }
        },
    }
}

/// The vault after a sequence of movements.
pub open spec fn vault_after(v: VaultState, ms: Seq<Movement>) -> VaultState
    decreases ms.len(),
{
    if ms.len() == 0 {
        v
    } else {
        movement_step(vault_after(v, ms.drop_last()), ms.last()).0
    }
}

/// The sum of the deposits that went through in a sequence of movements.
pub open spec fn deposited_sum(v: VaultState, ms: Seq<Movement>) -> int
    decreases ms.len(),
{
    if ms.len() == 0 {
        0
    } else {
        let before = vault_after(v, ms.drop_last());
        deposited_sum(v, ms.drop_last()) + match ms.last() {
            Movement::Deposit(_, amount, _) if movement_step(before, ms.last()).1 => amount as int,
            _ => 0,
        }
    }
}

/// The sum of the withdrawals that went through in a sequence of movements.
pub open spec fn withdrawn_sum(v: VaultState, ms: Seq<Movement>) -> int
    decreases ms.len(),
{
    if ms.len() == 0 {
        0
    } else {
        let before = vault_after(v, ms.drop_last());
        withdrawn_sum(v, ms.drop_last()) + match ms.last() {
            Movement::Withdraw(_, amount, _) if movement_step(before, ms.last()).1 => amount as int,
            _ => 0,
        }
    }
}

/// After any sequence of deposits and withdrawals, each lifetime total is
/// its starting value plus the exact sum of the amounts that went through:
/// the checked additions never wrap.
pub proof fn totals_are_exact_sums(v: VaultState, ms: Seq<Movement>)
    ensures
        vault_after(v, ms).total_deposited == v.total_deposited + deposited_sum(v, ms),
        vault_after(v, ms).total_withdrawn == v.total_withdrawn + withdrawn_sum(v, ms),
    decreases ms.len(),
{
    if ms.len() > 0 {
        totals_are_exact_sums(v, ms.drop_last());
    }
}

} // verus!
