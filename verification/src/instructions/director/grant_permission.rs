//! Granting a role to a user.
use vstd::prelude::*;
use crate::config::{is_known_role, DIRECTOR, SALE, USER};
use crate::error::{TokenBankError, UserError};
use crate::state::{Bank, User, Wallet};

verus! {

/// The accounts of granting a permission.
#[derive(Debug, Clone)]
pub struct GrantPermission {
    pub bank: Bank,
    pub user: User,
    pub owner: Wallet,
}

/// Whether the signer is the bank's owner, or the user account is a director's.
pub open spec fn owner_or_director(bank: Bank, user: User, signer: Wallet) -> bool {
    bank.owner_address@ == signer.key@ || user.role == DIRECTOR
}

impl GrantPermission {
    /// The bank's owner signs, or the user account is a director's.
    pub fn check_owner(&self) -> (ok: bool)
        ensures
            ok == owner_or_director(self.bank, self.user, self.owner),
    {
        self.bank.owner_address.same_as(&self.owner.key) || self.user.role == DIRECTOR
    }

    /// Only the three known roles may be granted.
    pub fn check_permission_valid(&self, permission: u8) -> (valid: bool)
        ensures
            valid == is_known_role(permission),
    {
        if permission != DIRECTOR && permission != SALE && permission != USER {
            return false;
        }
        true
    }
}

/// What granting `permission` checks, in order.
pub open spec fn grant_verdict(ctx: GrantPermission, permission: u8) -> Result<(), TokenBankError> {
    if !owner_or_director(ctx.bank, ctx.user, ctx.owner) {
        Err(TokenBankError::User(UserError::Unauthorized))
    } else if !is_known_role(permission) {
        Err(TokenBankError::User(UserError::InvalidPermission))
    } else {
        Ok(())
    }
}

/// The accounts after granting `permission`, when it is allowed.
pub open spec fn granted(ctx: GrantPermission, permission: u8) -> GrantPermission {
    GrantPermission { user: User { role: permission, ..ctx.user }, ..ctx }
}

/// Gives the user the role `permission`. A refused grant changes nothing.
pub fn process_grant_permission(ctx: &mut GrantPermission, permission: u8) -> (r: Result<(), TokenBankError>)
    ensures
        r == grant_verdict(*old(ctx), permission),
        *final(ctx) == (if r is Ok { granted(*old(ctx), permission) } else { *old(ctx) }),
{
    if !ctx.check_owner() {
        return Err(TokenBankError::User(UserError::Unauthorized));
    }
    if !ctx.check_permission_valid(permission) {
        return Err(TokenBankError::User(UserError::InvalidPermission));
    }
    ctx.user.role = permission;
    Ok(())
}

} // verus!
