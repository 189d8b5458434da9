//! Creating the bank account.
use vstd::prelude::*;
use crate::error::TokenBankError;
use crate::state::{Bank, Wallet};

verus! {

/// The accounts of creating the bank.
#[derive(Debug, Clone)]
pub struct CreateBank {
    pub bank: Bank,
    pub bank_sol: Wallet,
    pub owner: Wallet,
}

/// The bank as creation leaves it: named, empty, with the given rate, owned by the signer.
pub open spec fn created_bank(name: String, interest_rate: u64, owner: Wallet) -> Bank {
    Bank { owner_address: owner.key, name, total_balance: 0, interest_rate }
}

/// Fills in the new bank: its name, a zero balance, its interest rate and its
/// owner, the signer. Neither the name nor the rate is checked here.
pub fn process_init_bank(ctx: &mut CreateBank, name: String, interest_rate: u64) -> (r: Result<(), TokenBankError>)
    ensures
        r is Ok,
        final(ctx).bank == created_bank(name, interest_rate, old(ctx).owner),
        final(ctx).bank_sol == old(ctx).bank_sol,
        final(ctx).owner == old(ctx).owner,
{
    ctx.bank.name = name;
    ctx.bank.total_balance = 0;
    ctx.bank.interest_rate = interest_rate;
    ctx.bank.owner_address = ctx.owner.key;
    Ok(())
}

} // verus!
