//! A deposit bank for lamports: users deposit into a shared bank, withdraw
//! with interest after a lock period, and directors or sales staff draw from
//! the bank's balance. Every instruction is a verified transition over plain
//! account data; the runtime (clock, lamport transfers) is driven from outside.
pub mod config;
pub mod error;
pub mod state;
pub mod runtime;
pub mod instructions;
pub mod program;
pub mod laws;


pub use config::{BANK_SOL_SEED, DIRECTOR, MAX_INTEREST, MAX_NAME, SALE, USER, WITHDRAW_LOCK_SECONDS};
pub use error::{BankError, TokenBankError, UserError, WithdrawAllError};
pub use instructions::deposit::{deposit_aborts, process_deposit, Deposit};
pub use instructions::director::grant_permission::{process_grant_permission, GrantPermission};
pub use instructions::director::update_bank::{process_update_bank, UpdateBank};
pub use instructions::director::withdraw_role_based::{
    process_withdraw_role_based, withdraw_role_based_aborts, WithdrawRoleBased,
};
pub use instructions::init_bank::{process_init_bank, CreateBank};
pub use instructions::user::{process_init_user, CreateUser};
pub use instructions::withdraw::{process_withdraw, withdraw_aborts, WithDraw};
pub use program::{deposit, grant_permission, init_bank, init_user, update_bank, withdraw, withdraw_all};
pub use runtime::{Progress, SignerSeeds, Step, Transfer};
pub use state::{Address, Bank, User, Wallet};
