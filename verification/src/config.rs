//! The bank's fixed parameters.
use vstd::prelude::*;

verus! {

/// Role of an ordinary depositor.
pub const USER: u8 = 0;

/// Role of a director, who may manage the bank and withdraw all of it.
pub const DIRECTOR: u8 = 1;

/// Role of a sales member, who may withdraw a tenth of the bank.
pub const SALE: u8 = 2;

/// Longest bank name, in bytes of its UTF-8 encoding.
pub const MAX_NAME: u8 = 64;

/// Highest interest rate a bank may be updated to.
pub const MAX_INTEREST: u8 = 100;

/// How long a deposit stays locked before it can be withdrawn: thirty days, in seconds.
pub const WITHDRAW_LOCK_SECONDS: i64 = 30 * 24 * 60 * 60;

/// The seed of the program-derived account that holds the bank's lamports.
pub const BANK_SOL_SEED: [u8; 8] = [98, 97, 110, 107, 95, 115, 111, 108];

/// Whether `role` is one of the three roles the program knows.
pub open spec fn is_known_role(role: u8) -> bool {
    role == USER || role == DIRECTOR || role == SALE
}

} // verus!
