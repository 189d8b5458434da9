//! Depositing lamports into the bank.
use vstd::prelude::*;
use crate::config::USER;
use crate::error::{TokenBankError, UserError};
use crate::runtime::{Progress, Step, StepView, Transfer, TransferView};
use crate::state::{Bank, User, Wallet};

verus! {

/// The accounts of a deposit.
#[derive(Debug, Clone)]
pub struct Deposit {
    pub bank: Bank,
    pub bank_sol: Wallet,
    pub owner: Wallet,
    pub user: User,
}

impl Deposit {
    /// Only ordinary depositors may deposit.
    pub fn check_user_valid(&self) -> (valid: bool)
        ensures
            valid == (self.user.role == USER),
    {
        self.user.role == USER
    }
}

/// What a deposit checks before any lamports move, in order: the depositor's
/// role, that the clock could be read, and the owner's balance. `Ok` carries
/// the time the deposit records.
pub open spec fn deposit_verdict(ctx: Deposit, amount: u64, now: Option<i64>) -> Result<i64, TokenBankError> {
    if ctx.user.role != USER {
        Err(TokenBankError::User(UserError::Unauthorized))
    } else if now is None {
        Err(TokenBankError::ClockUnavailable)
    } else if ctx.owner.lamports < amount {
        Err(TokenBankError::User(UserError::InsufficientBalance))
    } else {
        Ok(now.unwrap())
    }
}

/// The sums a successful deposit adds to fit in their fields.
pub open spec fn deposit_fits(ctx: Deposit, amount: u64) -> bool {
    &&& ctx.bank.total_balance + amount <= u64::MAX
    &&& ctx.user.deposit_amount_total + amount <= u64::MAX
}

/// The bank after a deposit of `amount`.
pub open spec fn deposited_bank(bank: Bank, amount: u64) -> Bank {
    Bank {
        owner_address: bank.owner_address,
        name: bank.name,
        total_balance: (bank.total_balance + amount) as u64,
        interest_rate: bank.interest_rate,
    }
}

/// The user after a deposit of `amount` at time `now`: the amount is added to
/// the total, replaces the current deposit, and restarts the lock period.
pub open spec fn deposited_user(user: User, amount: u64, now: i64) -> User {
    User {
        role: USER,
        withdraw_total: user.withdraw_total,
        deposit_amount_total: (user.deposit_amount_total + amount) as u64,
        deposit_amount: amount,
        start_time: now,
        end_time: user.end_time,
    }
}

/// The transfer a deposit asks for: `amount` from the owner to the bank's lamport account.
pub open spec fn deposit_transfer(ctx: Deposit, amount: u64) -> TransferView {
    TransferView { from: ctx.owner.key@, to: ctx.bank_sol.key@, amount, signer: None }
}

/// One step of a deposit: the accounts after it and what it asks for next.
pub open spec fn deposit_step(ctx: Deposit, amount: u64, now: Option<i64>, progress: Progress) -> (Deposit, StepView) {
    match deposit_verdict(ctx, amount, now) {
        Err(e) => (ctx, StepView::Done(Err(e))),
        Ok(t) => match progress {
            Progress::Begin => (ctx, StepView::Transfer(deposit_transfer(ctx, amount))),
            Progress::TransferFailed => (ctx, StepView::Done(Err(TokenBankError::TransferFailed))),
            Progress::TransferSucceeded => (
                Deposit {
                    bank: deposited_bank(ctx.bank, amount),
                    bank_sol: ctx.bank_sol,
                    owner: ctx.owner,
                    user: deposited_user(ctx.user, amount, t),
                },
                StepView::Done(Ok(())),
            ),
        },
    }
}

/// Whether this step of a deposit would overflow the bank's balance or the
/// user's total, where the program aborts the transaction instead: exactly
/// the inputs that `process_deposit` does not accept.
pub fn deposit_aborts(ctx: &Deposit, amount: u64, now: Option<i64>, progress: Progress) -> (aborts: bool)
    ensures
        aborts == !(progress == Progress::TransferSucceeded && deposit_verdict(*ctx, amount, now) is Ok
            ==> deposit_fits(*ctx, amount)),
{
    if progress != Progress::TransferSucceeded || !ctx.check_user_valid() || now.is_none()
        || ctx.owner.lamports < amount {
        return false;
    }
    let bank_sum = ctx.bank.total_balance.checked_add(amount);
    let user_sum = ctx.user.deposit_amount_total.checked_add(amount);
    bank_sum.is_none() || user_sum.is_none()
}

/// Deposits `amount` lamports. `now` is the clock's time, `None` when the
/// clock could not be read. Called with `Begin`, it checks and asks for the
/// transfer from the owner to the bank; called again with the transfer's
/// outcome, it records the deposit on success. A refused deposit changes nothing.
pub fn process_deposit(ctx: &mut Deposit, amount: u64, now: Option<i64>, progress: Progress) -> (step: Step)
    requires
        progress == Progress::TransferSucceeded && deposit_verdict(*old(ctx), amount, now) is Ok
            ==> deposit_fits(*old(ctx), amount),
    ensures
        (*final(ctx), step@) == deposit_step(*old(ctx), amount, now, progress),
{
    if !ctx.check_user_valid() {
        return Step::Done(Err(TokenBankError::User(UserError::Unauthorized)));
    }
    let now = match now {
        Some(t) => t,
        None => {
            return Step::Done(Err(TokenBankError::ClockUnavailable));
        },
    };
    if ctx.owner.lamports < amount {
        return Step::Done(Err(TokenBankError::User(UserError::InsufficientBalance)));
    }
    match progress {
        Progress::Begin => Step::Transfer(
            Transfer { from: ctx.owner.key, to: ctx.bank_sol.key, amount, signer: None },
        ),
        Progress::TransferFailed => Step::Done(Err(TokenBankError::TransferFailed)),
        Progress::TransferSucceeded => {
            ctx.bank.total_balance = ctx.bank.total_balance + amount;
            ctx.user.deposit_amount_total = ctx.user.deposit_amount_total + amount;
            ctx.user.deposit_amount = amount;
            ctx.user.role = USER;
            ctx.user.start_time = now;
            Step::Done(Ok(()))
        },
    }
}

} // verus!
