//! The accounts the program keeps.
use vstd::prelude::*;

verus! {

/// A 32-byte account address.
#[derive(Debug, Clone, Copy, PartialEq, Eq)]
pub struct Address {
    pub bytes: [u8; 32],
}

impl View for Address {
    type V = Seq<u8>;

    open spec fn view(&self) -> Seq<u8> {
        self.bytes@
    }
}

impl Address {
    /// Whether two addresses are the same, byte for byte.
    pub fn same_as(&self, other: &Address) -> (same: bool)
        ensures
            same == (self@ == other@),
    {
        let mut i: usize = 0;
        while i < 32
            invariant
                0 <= i <= 32,
                self@.len() == 32,
                other@.len() == 32,
                forall|j: int| 0 <= j < i ==> self@[j] == other@[j],
            decreases 32 - i,
        {
            if self.bytes[i] != other.bytes[i] {
                return false;
            }
            i = i + 1;
        }
        assert(self@ =~= other@);
        true
    }
}

/// A system account or signer: its address and the lamports it holds.
#[derive(Debug, Clone, Copy, PartialEq, Eq)]
pub struct Wallet {
    pub key: Address,
    pub lamports: u64,
}

/// The bank account.
#[derive(Debug, Clone)]
pub struct Bank {
    pub owner_address: Address,
    pub name: String,
    pub total_balance: u64,
    pub interest_rate: u64,
}

/// A user account.
#[derive(Debug, Clone, Copy, PartialEq, Eq, Structural)]
pub struct User {
    /// 0: user, 1: director, 2: sales.
    pub role: u8,
    pub withdraw_total: u64,
    pub deposit_amount_total: u64,
    pub deposit_amount: u64,
    pub start_time: i64,
    pub end_time: i64,
}

impl User {
    /// A user whose fields are all zero: an ordinary depositor with nothing deposited.
    pub open spec fn spec_fresh() -> User {
        User {
            role: 0,
            withdraw_total: 0,
            deposit_amount_total: 0,
            deposit_amount: 0,
            start_time: 0,
            end_time: 0,
        }
    }

    /// What every operation keeps of a user: a known role, and a current
    /// deposit no larger than everything deposited.
    pub open spec fn well_formed(self) -> bool {
        &&& crate::config::is_known_role(self.role)
        &&& self.deposit_amount <= self.deposit_amount_total
    }
}

} // verus!
