//! Renaming the bank and changing its interest rate.
use vstd::prelude::*;
use vstd::utf8::encode_utf8;
use crate::config::{MAX_INTEREST, MAX_NAME};
use crate::error::{BankError, TokenBankError, UserError};
use crate::instructions::director::grant_permission::owner_or_director;
use crate::state::{Bank, User, Wallet};

verus! {

/// The accounts of updating the bank.
#[derive(Debug, Clone)]
pub struct UpdateBank {
    pub bank: Bank,
    pub user: User,
    pub owner: Wallet,
}

/// Whether `name` fits the bank: at most `MAX_NAME` bytes in UTF-8.
pub open spec fn name_fits(name: Seq<char>) -> bool {
    encode_utf8(name).len() <= MAX_NAME
}

/// Whether `interest_rate` is allowed: at most `MAX_INTEREST`.
pub open spec fn rate_allowed(interest_rate: u64) -> bool {
    interest_rate <= MAX_INTEREST
}

impl UpdateBank {
    /// The signer owns the bank, or the user account is a director's.
    pub fn check_owner(&self) -> (ok: bool)
        ensures
            ok == owner_or_director(self.bank, self.user, self.owner),
    {
        self.owner.key.same_as(&self.bank.owner_address) || self.user.role == crate::config::DIRECTOR
    }

    /// Whether `name` is short enough for the bank.
    pub fn check_name_valid(&self, name: String) -> (valid: bool)
        ensures
            valid == name_fits(name@),
    {
        if name.as_str().as_bytes().len() > MAX_NAME as usize {
            return false;
        }
        true
    }

    /// Whether `interest_rate` is low enough.
    pub fn check_interest_rate_valid(&self, interest_rate: u64) -> (valid: bool)
        ensures
            valid == rate_allowed(interest_rate),
    {
        if interest_rate > MAX_INTEREST as u64 {
            return false;
        }
        true
    }
}

/// What updating the bank checks, in order: authority, name, rate.
pub open spec fn update_verdict(ctx: UpdateBank, name: Seq<char>, interest_rate: u64) -> Result<(), TokenBankError> {
    if !owner_or_director(ctx.bank, ctx.user, ctx.owner) {
        Err(TokenBankError::User(UserError::Unauthorized))
    } else if !name_fits(name) {
        Err(TokenBankError::Bank(BankError::NameTooLong))
    } else if !rate_allowed(interest_rate) {
        Err(TokenBankError::Bank(BankError::InterestRateTooHigh))
    } else {
        Ok(())
    }
}

/// The accounts after a successful update.
pub open spec fn updated(ctx: UpdateBank, name: String, interest_rate: u64) -> UpdateBank {
    UpdateBank { bank: Bank { name, interest_rate, ..ctx.bank }, ..ctx }
}

/// Renames the bank to `name` and sets its rate to `interest_rate`. A refused
/// update changes nothing.
pub fn process_update_bank(ctx: &mut UpdateBank, name: String, interest_rate: u64) -> (r: Result<(), TokenBankError>)
    ensures
        r == update_verdict(*old(ctx), name@, interest_rate),
        *final(ctx) == (if r is Ok { updated(*old(ctx), name, interest_rate) } else { *old(ctx) }),
{
    if !ctx.check_owner() {
        return Err(TokenBankError::User(UserError::Unauthorized));
    }
    if !ctx.check_name_valid(name.clone()) {
        return Err(TokenBankError::Bank(BankError::NameTooLong));
    }
    if !ctx.check_interest_rate_valid(interest_rate) {
        return Err(TokenBankError::Bank(BankError::InterestRateTooHigh));
    }
    ctx.bank.name = name;
    ctx.bank.interest_rate = interest_rate;
    Ok(())
}

} // verus!
