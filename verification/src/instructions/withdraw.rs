//! Withdrawing a deposit with interest.
use vstd::prelude::*;
use crate::config::WITHDRAW_LOCK_SECONDS;
use crate::error::{TokenBankError, UserError};
use crate::runtime::{bank_sol_payout, spec_bank_sol_payout, Progress, Step, StepView};
use crate::state::{Address, Bank, User, Wallet};

verus! {

/// The accounts of a withdrawal.
#[derive(Debug, Clone)]
pub struct WithDraw {
    pub bank: Bank,
    pub bank_sol: Wallet,
    pub owner: Wallet,
    pub user: User,
}

/// Whether a deposit made at `start_time` may be withdrawn at `now`: the lock
/// period must have passed in full.
pub open spec fn lock_elapsed(now: i64, start_time: i64) -> bool {
    now - start_time >= WITHDRAW_LOCK_SECONDS
}

/// The interest on `amount` at `interest_rate`: the amount times the rate's
/// whole hundreds, saturating at the largest `u64`.
pub open spec fn spec_interest(amount: u64, interest_rate: u64) -> u64 {
    let factor = interest_rate / 100;
    if amount * factor > u64::MAX {
        u64::MAX
    } else {
        (amount * factor) as u64
    }
}

impl WithDraw {
    /// Whether the lock period of a deposit made at `start_time` has passed at `now`.
    pub fn withdraw_valid(&self, now: i64, start_time: i64) -> (valid: bool)
        requires
            i64::MIN <= now - start_time <= i64::MAX,
        ensures
            valid == lock_elapsed(now, start_time),
    {
        let time_diff = now - start_time;
        if time_diff < WITHDRAW_LOCK_SECONDS {
            return false;
        }
        true
    }

    /// The interest this bank pays on `amount`.
    pub fn caculate_interest(&self, amount: u64) -> (interest: u64)
        ensures
            interest == spec_interest(amount, self.bank.interest_rate),
    {
        let factor = self.bank.interest_rate / 100;
        match amount.checked_mul(factor) {
            Some(v) => v,
            None => u64::MAX,
        }
    }
}

/// What a withdrawal checks before any lamports move, in order: the lock
/// period, then the current deposit.
pub open spec fn withdraw_verdict(ctx: WithDraw, amount: u64, now: i64) -> Result<(), TokenBankError> {
    if !lock_elapsed(now, ctx.user.start_time) {
        Err(TokenBankError::User(UserError::NotEnoughDay))
    } else if amount > ctx.user.deposit_amount {
        Err(TokenBankError::User(UserError::InsufficientBalance))
    } else {
        Ok(())
    }
}

/// What a withdrawal of `amount` pays out: the amount and its interest.
pub open spec fn withdraw_payout(ctx: WithDraw, amount: u64) -> int {
    amount + spec_interest(amount, ctx.bank.interest_rate)
}

/// The bank after paying out a withdrawal of `amount`: its balance drops by
/// the amount, not by the interest paid on it.
pub open spec fn withdrawn_bank(bank: Bank, amount: u64) -> Bank {
    Bank {
        owner_address: bank.owner_address,
        name: bank.name,
        total_balance: (bank.total_balance - amount) as u64,
        interest_rate: bank.interest_rate,
    }
}

/// The user after withdrawing `amount` of the current deposit.
pub open spec fn withdrawn_user(user: User, amount: u64) -> User {
    User { deposit_amount: (user.deposit_amount - amount) as u64, ..user }
}

/// One step of a withdrawal: the accounts after it and what it asks for next.
pub open spec fn withdraw_step(ctx: WithDraw, program_id: Seq<u8>, amount: u64, now: i64, progress: Progress) -> (WithDraw, StepView) {
    match withdraw_verdict(ctx, amount, now) {
        Err(e) => (ctx, StepView::Done(Err(e))),
        Ok(_) => match progress {
            Progress::Begin => match spec_bank_sol_payout(
                ctx.bank_sol.key@,
                ctx.owner.key@,
                withdraw_payout(ctx, amount) as u64,
                program_id,
            ) {
                Ok(t) => (ctx, StepView::Transfer(t)),
                Err(e) => (ctx, StepView::Done(Err(e))),
            },
            Progress::TransferFailed => (ctx, StepView::Done(Err(TokenBankError::TransferFailed))),
            Progress::TransferSucceeded => (
                WithDraw {
                    bank: withdrawn_bank(ctx.bank, amount),
                    bank_sol: ctx.bank_sol,
                    owner: ctx.owner,
                    user: withdrawn_user(ctx.user, amount),
                },
                StepView::Done(Ok(())),
            ),
        },
    }
}

/// Whether this step of a withdrawal would overflow, where the program
/// aborts the transaction instead: the elapsed time does not fit an `i64`, the
/// payout does not fit a `u64`, or the bank's balance is smaller than the
/// amount it records. Exactly the inputs that `process_withdraw` does not accept.
pub fn withdraw_aborts(ctx: &WithDraw, amount: u64, now: i64, progress: Progress) -> (aborts: bool)
    ensures
        aborts == !({
            &&& i64::MIN <= now - ctx.user.start_time <= i64::MAX
            &&& withdraw_verdict(*ctx, amount, now) is Ok ==> withdraw_payout(*ctx, amount) <= u64::MAX
            &&& progress == Progress::TransferSucceeded && withdraw_verdict(*ctx, amount, now) is Ok
                ==> amount <= ctx.bank.total_balance
        }),
{
    if now.checked_sub(ctx.user.start_time).is_none() {
        return true;
    }
    if !ctx.withdraw_valid(now, ctx.user.start_time) || amount > ctx.user.deposit_amount {
        return false;
    }
    let interest = ctx.caculate_interest(amount);
    if amount.checked_add(interest).is_none() {
        return true;
    }
    progress == Progress::TransferSucceeded && amount > ctx.bank.total_balance
}

/// Withdraws `amount` of the user's current deposit at time `now`. Called with
/// `Begin`, it checks and asks for the payout of the amount with its interest
/// from the bank's lamport account, signed under `program_id`; called again
/// with the transfer's outcome, it records the withdrawal on success. A refused
/// withdrawal changes nothing.
pub fn process_withdraw(ctx: &mut WithDraw, program_id: &Address, amount: u64, now: i64, progress: Progress) -> (step: Step)
    requires
        i64::MIN <= now - old(ctx).user.start_time <= i64::MAX,
        withdraw_verdict(*old(ctx), amount, now) is Ok ==> withdraw_payout(*old(ctx), amount) <= u64::MAX,
        progress == Progress::TransferSucceeded && withdraw_verdict(*old(ctx), amount, now) is Ok
            ==> amount <= old(ctx).bank.total_balance,
    ensures
        (*final(ctx), step@) == withdraw_step(*old(ctx), program_id@, amount, now, progress),
{
    let deposit_amount = ctx.user.deposit_amount;
    let start_time = ctx.user.start_time;
    if !ctx.withdraw_valid(now, start_time) {
        return Step::Done(Err(TokenBankError::User(UserError::NotEnoughDay)));
    }
    if amount > deposit_amount {
        return Step::Done(Err(TokenBankError::User(UserError::InsufficientBalance)));
    }
    let new_interest = ctx.caculate_interest(amount);
    let new_amount = amount + new_interest;
    match progress {
        Progress::Begin => match bank_sol_payout(ctx.bank_sol.key, ctx.owner.key, new_amount, program_id) {
            Ok(t) => Step::Transfer(t),
            Err(e) => Step::Done(Err(e)),
        },
        Progress::TransferFailed => Step::Done(Err(TokenBankError::TransferFailed)),
        Progress::TransferSucceeded => {
            ctx.bank.total_balance = ctx.bank.total_balance - amount;
            ctx.user.deposit_amount = ctx.user.deposit_amount - amount;
            Step::Done(Ok(()))
        },
    }
}

} // verus!
