//! Directors and sales members drawing from the bank.
use vstd::prelude::*;
use crate::config::SALE;
use crate::error::{TokenBankError, WithdrawAllError};
use crate::instructions::director::grant_permission::owner_or_director;
use crate::runtime::{bank_sol_payout, spec_bank_sol_payout, Progress, Step, StepView, Transfer, TransferView};
use crate::state::{Address, Bank, User, Wallet};

verus! {

/// The accounts of a role-based withdrawal.
#[derive(Debug, Clone)]
pub struct WithdrawRoleBased {
    pub owner: Wallet,
    pub user: User,
    pub bank: Bank,
    pub bank_sol: Wallet,
}

impl WithdrawRoleBased {
    /// The signer owns the bank, or the user account is a director's.
    pub fn check_owner(&self) -> (ok: bool)
        ensures
            ok == owner_or_director(self.bank, self.user, self.owner),
    {
        self.bank.owner_address.same_as(&self.owner.key) || self.user.role == crate::config::DIRECTOR
    }

    /// The user account is a sales member's.
    pub fn check_sale(&self) -> (ok: bool)
        ensures
            ok == (self.user.role == SALE),
    {
        self.user.role == SALE
    }

    /// Only an owner, a director or a sales member may draw from the bank.
    pub fn verify_role(&self) -> (r: Result<(), TokenBankError>)
        ensures
            r == role_verdict(*self),
    {
        if !self.check_owner() && !self.check_sale() {
            return Err(TokenBankError::WithdrawAll(WithdrawAllError::Unauthorized));
        }
        Ok(())
    }

    /// The transfer of `amount` from the bank's lamport account to the signer,
    /// signed with the account's seeds under `program_id`.
    pub fn transfer(&self, program_id: &Address, amount: u64) -> (t: Result<Transfer, TokenBankError>)
        ensures
            match t {
                Ok(t) => spec_bank_sol_payout(self.bank_sol.key@, self.owner.key@, amount, program_id@)
                    == Ok::<TransferView, TokenBankError>(t@),
                Err(e) => spec_bank_sol_payout(self.bank_sol.key@, self.owner.key@, amount, program_id@)
                    == Err::<TransferView, TokenBankError>(e),
            },
    {
        bank_sol_payout(self.bank_sol.key, self.owner.key, amount, program_id)
    }
}

/// Whether the accounts may draw from the bank at all.
pub open spec fn role_verdict(ctx: WithdrawRoleBased) -> Result<(), TokenBankError> {
    if !owner_or_director(ctx.bank, ctx.user, ctx.owner) && ctx.user.role != SALE {
        Err(TokenBankError::WithdrawAll(WithdrawAllError::Unauthorized))
    } else {
        Ok(())
    }
}

/// How much is drawn: a sales member takes a tenth of the balance, otherwise
/// an owner or director takes all of it.
pub open spec fn role_amount(ctx: WithdrawRoleBased) -> u64 {
    if ctx.user.role == SALE {
        ctx.bank.total_balance / 10
    } else if owner_or_director(ctx.bank, ctx.user, ctx.owner) {
        ctx.bank.total_balance
    } else {
        1
    }
}

/// The accounts after drawing `amount` from the bank.
pub open spec fn drawn(ctx: WithdrawRoleBased, amount: u64) -> WithdrawRoleBased {
    WithdrawRoleBased {
        bank: Bank { total_balance: (ctx.bank.total_balance - amount) as u64, ..ctx.bank },
        user: User { withdraw_total: (ctx.user.withdraw_total + amount) as u64, ..ctx.user },
        ..ctx
    }
}

/// One step of a role-based withdrawal: the accounts after it and what it asks for next.
pub open spec fn withdraw_role_based_step(ctx: WithdrawRoleBased, program_id: Seq<u8>, progress: Progress) -> (WithdrawRoleBased, StepView) {
    match role_verdict(ctx) {
        Err(e) => (ctx, StepView::Done(Err(e))),
        Ok(_) => match progress {
            Progress::Begin => match spec_bank_sol_payout(ctx.bank_sol.key@, ctx.owner.key@, role_amount(ctx), program_id) {
                Ok(t) => (ctx, StepView::Transfer(t)),
                Err(e) => (ctx, StepView::Done(Err(e))),
            },
            Progress::TransferFailed => (ctx, StepView::Done(Err(TokenBankError::TransferFailed))),
            Progress::TransferSucceeded => (drawn(ctx, role_amount(ctx)), StepView::Done(Ok(()))),
        },
    }
}

/// Whether this step of a role-based withdrawal would overflow the user's
/// withdrawn total, where the program aborts the transaction instead: exactly
/// the inputs that `process_withdraw_role_based` does not accept.
pub fn withdraw_role_based_aborts(ctx: &WithdrawRoleBased, progress: Progress) -> (aborts: bool)
    ensures
        aborts == !(progress == Progress::TransferSucceeded && role_verdict(*ctx) is Ok
            ==> ctx.user.withdraw_total + role_amount(*ctx) <= u64::MAX),
{
    if progress != Progress::TransferSucceeded || ctx.verify_role().is_err() {
        return false;
    }
    let amount = if ctx.check_sale() {
        ctx.bank.total_balance / 10
    } else {
        ctx.bank.total_balance
    };
    ctx.user.withdraw_total.checked_add(amount).is_none()
}

/// Draws from the bank: all of its balance for its owner or a director, a
/// tenth of it for a sales member. Called with `Begin`, it checks and asks for
/// the payout from the bank's lamport account, signed under `program_id`;
/// called again with the transfer's outcome, it records the withdrawal on
/// success. A refused withdrawal changes nothing.
pub fn process_withdraw_role_based(ctx: &mut WithdrawRoleBased, program_id: &Address, progress: Progress) -> (step: Step)
    requires
        progress == Progress::TransferSucceeded && role_verdict(*old(ctx)) is Ok
            ==> old(ctx).user.withdraw_total + role_amount(*old(ctx)) <= u64::MAX,
    ensures
        (*final(ctx), step@) == withdraw_role_based_step(*old(ctx), program_id@, progress),
{
    if let Err(e) = ctx.verify_role() {
        return Step::Done(Err(e));
    }
    let director = ctx.check_owner();
    let sale: bool = ctx.check_sale();
    let bank_total_balance = ctx.bank.total_balance;
    let mut amount: u64 = 1;
    if director {
        amount = bank_total_balance;
    }
    if sale {
        amount = bank_total_balance / 10;
    }
    match progress {
        Progress::Begin => match ctx.transfer(program_id, amount) {
            Ok(t) => Step::Transfer(t),
            Err(e) => Step::Done(Err(e)),
        },
        Progress::TransferFailed => Step::Done(Err(TokenBankError::TransferFailed)),
        Progress::TransferSucceeded => {
            ctx.bank.total_balance = ctx.bank.total_balance - amount;
            ctx.user.withdraw_total = ctx.user.withdraw_total + amount;
            Step::Done(Ok(()))
        },
    }
}

} // verus!
