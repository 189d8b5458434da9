//! Creating a user account.
use vstd::prelude::*;
use crate::error::TokenBankError;
use crate::state::{User, Wallet};

verus! {

/// The accounts of creating a user.
#[derive(Debug, Clone, Copy)]
pub struct CreateUser {
    pub user: User,
    pub owner: Wallet,
}

/// Sets every field of the new user to zero: an ordinary depositor with nothing deposited.
pub fn process_init_user(ctx: &mut CreateUser) -> (r: Result<(), TokenBankError>)
    ensures
        r is Ok,
        final(ctx).user == User::spec_fresh(),
        final(ctx).owner == old(ctx).owner,
{
    ctx.user.role = 0;
    ctx.user.withdraw_total = 0;
    ctx.user.deposit_amount_total = 0;
    ctx.user.deposit_amount = 0;
    ctx.user.start_time = 0;
    ctx.user.end_time = 0;
    Ok(())
}

} // verus!
