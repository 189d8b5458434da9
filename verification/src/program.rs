//! The program's instructions as its entry point offers them: each runs its
//! handler and reports success whatever the handler decided; only an abort of
//! the whole transaction still shows as an error.
use vstd::prelude::*;
use crate::error::TokenBankError;
use crate::instructions::deposit::{deposit_step, deposit_verdict, deposit_fits, process_deposit, Deposit};
use crate::instructions::director::grant_permission::{grant_verdict, granted, process_grant_permission, GrantPermission};
use crate::instructions::director::update_bank::{process_update_bank, update_verdict, updated, UpdateBank};
use crate::instructions::director::withdraw_role_based::{
    process_withdraw_role_based, role_amount, role_verdict, withdraw_role_based_step, WithdrawRoleBased,
};
use crate::instructions::init_bank::{created_bank, process_init_bank, CreateBank};
use crate::instructions::user::{process_init_user, CreateUser};
use crate::instructions::withdraw::{process_withdraw, withdraw_payout, withdraw_step, withdraw_verdict, WithDraw};
use crate::runtime::{Progress, Step, StepView};
use crate::state::{Address, User};

verus! {

/// A step as the entry point reports it: a handler's error becomes success,
/// an abort stays.
pub open spec fn reported(step: StepView) -> StepView {
    match step {
        StepView::Done(Err(e)) => if e.is_abort() {
            step
        } else {
            StepView::Done(Ok(()))
        },
        _ => step,
    }
}

fn report(step: Step) -> (r: Step)
    ensures
        r@ == reported(step@),
{
    match step {
        Step::Done(Err(e)) => if e.aborts() {
            Step::Done(Err(e))
        } else {
            Step::Done(Ok(()))
        },
        _ => step,
    }
}

/// Creates a user account with every field zero.
pub fn init_user(ctx: &mut CreateUser) -> (r: Result<(), TokenBankError>)
    ensures
        r is Ok,
        final(ctx).user == User::spec_fresh(),
        final(ctx).owner == old(ctx).owner,
{
    let _ = process_init_user(ctx);
    Ok(())
}

/// Creates the bank with `name` and `interest`, owned by the signer.
pub fn init_bank(ctx: &mut CreateBank, name: String, interest: u64) -> (r: Result<(), TokenBankError>)
    ensures
        r is Ok,
        final(ctx).bank == created_bank(name, interest, old(ctx).owner),
        final(ctx).bank_sol == old(ctx).bank_sol,
        final(ctx).owner == old(ctx).owner,
{
    let _ = process_init_bank(ctx, name, interest);
    Ok(())
}

/// Runs one step of a deposit and reports it.
pub fn deposit(ctx: &mut Deposit, amount: u64, now: Option<i64>, progress: Progress) -> (step: Step)
    requires
        progress == Progress::TransferSucceeded && deposit_verdict(*old(ctx), amount, now) is Ok
            ==> deposit_fits(*old(ctx), amount),
    ensures
        *final(ctx) == deposit_step(*old(ctx), amount, now, progress).0,
        step@ == reported(deposit_step(*old(ctx), amount, now, progress).1),
{
    report(process_deposit(ctx, amount, now, progress))
}

/// Runs one step of a withdrawal and reports it.
pub fn withdraw(ctx: &mut WithDraw, program_id: &Address, amount: u64, now: i64, progress: Progress) -> (step: Step)
    requires
        i64::MIN <= now - old(ctx).user.start_time <= i64::MAX,
        withdraw_verdict(*old(ctx), amount, now) is Ok ==> withdraw_payout(*old(ctx), amount) <= u64::MAX,
        progress == Progress::TransferSucceeded && withdraw_verdict(*old(ctx), amount, now) is Ok
            ==> amount <= old(ctx).bank.total_balance,
    ensures
        *final(ctx) == withdraw_step(*old(ctx), program_id@, amount, now, progress).0,
        step@ == reported(withdraw_step(*old(ctx), program_id@, amount, now, progress).1),
{
    report(process_withdraw(ctx, program_id, amount, now, progress))
}

/// Runs one step of a role-based withdrawal and reports it.
pub fn withdraw_all(ctx: &mut WithdrawRoleBased, program_id: &Address, progress: Progress) -> (step: Step)
    requires
        progress == Progress::TransferSucceeded && role_verdict(*old(ctx)) is Ok
            ==> old(ctx).user.withdraw_total + role_amount(*old(ctx)) <= u64::MAX,
    ensures
        *final(ctx) == withdraw_role_based_step(*old(ctx), program_id@, progress).0,
        step@ == reported(withdraw_role_based_step(*old(ctx), program_id@, progress).1),
{
    report(process_withdraw_role_based(ctx, program_id, progress))
}

/// Updates the bank's name and rate where allowed; always reports success.
pub fn update_bank(ctx: &mut UpdateBank, name: String, interest_rate: u64) -> (r: Result<(), TokenBankError>)
    ensures
        r is Ok,
        *final(ctx) == (if update_verdict(*old(ctx), name@, interest_rate) is Ok {
            updated(*old(ctx), name, interest_rate)
        } else {
            *old(ctx)
        }),
{
    let _ = process_update_bank(ctx, name, interest_rate);
    Ok(())
}

/// Grants `permission` where allowed; always reports success.
pub fn grant_permission(ctx: &mut GrantPermission, permission: u8) -> (r: Result<(), TokenBankError>)
    ensures
        r is Ok,
        *final(ctx) == (if grant_verdict(*old(ctx), permission) is Ok {
            granted(*old(ctx), permission)
        } else {
            *old(ctx)
        }),
{
    let _ = process_grant_permission(ctx, permission);
    Ok(())
}

} // verus!
