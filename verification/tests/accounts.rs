use token_bank::{
    deposit, grant_permission, init_bank, init_user, process_deposit, process_grant_permission,
    process_init_bank, process_init_user, process_update_bank, process_withdraw,
    process_withdraw_role_based, update_bank, withdraw, withdraw_all, Address, Bank, BankError,
    CreateBank, CreateUser, Deposit, GrantPermission, Progress, Step, TokenBankError, Transfer,
    UpdateBank, User, UserError, Wallet, WithDraw, WithdrawAllError, WithdrawRoleBased,
    BANK_SOL_SEED, DIRECTOR, SALE, USER, WITHDRAW_LOCK_SECONDS,
};

const DAY: i64 = 24 * 60 * 60;

fn addr(b: u8) -> Address {
    Address { bytes: [b; 32] }
}

fn wallet(b: u8, lamports: u64) -> Wallet {
    Wallet { key: addr(b), lamports }
}

fn bank(owner: u8, total: u64, rate: u64) -> Bank {
    Bank { owner_address: addr(owner), name: String::from("bank"), total_balance: total, interest_rate: rate }
}

fn user(role: u8, deposit_amount: u64, deposit_total: u64, start_time: i64) -> User {
    User {
        role,
        withdraw_total: 0,
        deposit_amount_total: deposit_total,
        deposit_amount: deposit_amount,
        start_time,
        end_time: 0,
    }
}

fn program_id() -> Address {
    addr(7)
}

fn expected_bump() -> u8 {
    let id = anchor_lang::prelude::Pubkey::new_from_array(program_id().bytes);
    anchor_lang::prelude::Pubkey::find_program_address(&[b"bank_sol"], &id).1
}

fn expect_transfer(step: Step) -> Transfer {
    match step {
        Step::Transfer(t) => t,
        Step::Done(r) => panic!("expected a transfer, got {:?}", r),
    }
}

fn expect_done(step: Step) -> Result<(), TokenBankError> {
    match step {
        Step::Done(r) => r,
        Step::Transfer(t) => panic!("expected the end, got a transfer of {}", t.amount),
    }
}

#[test]
fn seed_is_bank_sol() {
    assert_eq!(&BANK_SOL_SEED, b"bank_sol");
}

#[test]
fn addresses_compare_byte_for_byte() {
    assert!(addr(3).same_as(&addr(3)));
    assert!(!addr(3).same_as(&addr(4)));
    let mut a = addr(3);
    a.bytes[31] = 9;
    assert!(!a.same_as(&addr(3)));
}

#[test]
fn init_user_zeroes_every_field() {
    let mut ctx = CreateUser { user: user(SALE, 5, 9, 77), owner: wallet(1, 10) };
    ctx.user.withdraw_total = 4;
    ctx.user.end_time = 3;
    assert_eq!(process_init_user(&mut ctx), Ok(()));
    assert_eq!(ctx.user, user(USER, 0, 0, 0));
    assert_eq!(init_user(&mut ctx), Ok(()));
}

#[test]
fn init_bank_records_owner_name_and_rate() {
    let mut ctx = CreateBank { bank: bank(0, 500, 3), bank_sol: wallet(2, 0), owner: wallet(1, 10) };
    assert_eq!(process_init_bank(&mut ctx, String::from("first"), 250), Ok(()));
    assert_eq!(ctx.bank.name, "first");
    assert_eq!(ctx.bank.total_balance, 0);
    assert_eq!(ctx.bank.interest_rate, 250);
    assert_eq!(ctx.bank.owner_address, addr(1));
    let long = "x".repeat(100);
    assert_eq!(init_bank(&mut ctx, long.clone(), 1000), Ok(()));
    assert_eq!(ctx.bank.name, long);
    assert_eq!(ctx.bank.interest_rate, 1000);
}

fn deposit_ctx(role: u8, owner_lamports: u64) -> Deposit {
    Deposit { bank: bank(9, 1_000, 0), bank_sol: wallet(2, 0), owner: wallet(1, owner_lamports), user: user(role, 40, 60, 5) }
}

#[test]
fn deposit_refuses_other_roles() {
    let mut ctx = deposit_ctx(DIRECTOR, 500);
    let r = expect_done(process_deposit(&mut ctx, 100, Some(10), Progress::Begin));
    assert_eq!(r, Err(TokenBankError::User(UserError::Unauthorized)));
    assert_eq!(ctx.user, user(DIRECTOR, 40, 60, 5));
    assert_eq!(ctx.bank.total_balance, 1_000);
}

#[test]
fn deposit_needs_the_clock() {
    let mut ctx = deposit_ctx(USER, 500);
    let r = expect_done(process_deposit(&mut ctx, 100, None, Progress::Begin));
    assert_eq!(r, Err(TokenBankError::ClockUnavailable));
}

#[test]
fn deposit_needs_the_lamports() {
    let mut ctx = deposit_ctx(USER, 99);
    let r = expect_done(process_deposit(&mut ctx, 100, Some(10), Progress::Begin));
    assert_eq!(r, Err(TokenBankError::User(UserError::InsufficientBalance)));
    let mut ctx = deposit_ctx(USER, 100);
    let t = expect_transfer(process_deposit(&mut ctx, 100, Some(10), Progress::Begin));
    assert_eq!(t.amount, 100);
}

#[test]
fn deposit_asks_for_a_transfer_to_the_bank() {
    let mut ctx = deposit_ctx(USER, 500);
    let t = expect_transfer(process_deposit(&mut ctx, 100, Some(10), Progress::Begin));
    assert_eq!(t.from, addr(1));
    assert_eq!(t.to, addr(2));
    assert_eq!(t.amount, 100);
    assert!(t.signer.is_none());
    assert_eq!(ctx.user, user(USER, 40, 60, 5));
    assert_eq!(ctx.bank.total_balance, 1_000);
}

#[test]
fn deposit_records_after_the_transfer() {
    let mut ctx = deposit_ctx(USER, 500);
    let r = expect_done(process_deposit(&mut ctx, 100, Some(10), Progress::TransferSucceeded));
    assert_eq!(r, Ok(()));
    assert_eq!(ctx.bank.total_balance, 1_100);
    assert_eq!(ctx.user, user(USER, 100, 160, 10));
}

#[test]
fn deposit_failed_transfer_changes_nothing() {
    let mut ctx = deposit_ctx(USER, 500);
    let r = expect_done(process_deposit(&mut ctx, 100, Some(10), Progress::TransferFailed));
    assert_eq!(r, Err(TokenBankError::TransferFailed));
    assert_eq!(ctx.user, user(USER, 40, 60, 5));
    assert_eq!(ctx.bank.total_balance, 1_000);
}

#[test]
fn deposit_entry_reports_success_on_refusal() {
    let mut ctx = deposit_ctx(SALE, 500);
    assert_eq!(expect_done(deposit(&mut ctx, 100, Some(10), Progress::Begin)), Ok(()));
    assert_eq!(ctx.user, user(SALE, 40, 60, 5));
    let mut ctx = deposit_ctx(USER, 500);
    assert_eq!(expect_transfer(deposit(&mut ctx, 100, Some(10), Progress::Begin)).amount, 100);
    assert_eq!(expect_done(deposit(&mut ctx, 100, Some(10), Progress::TransferSucceeded)), Ok(()));
    assert_eq!(ctx.bank.total_balance, 1_100);
}

fn withdraw_ctx(rate: u64, deposit_amount: u64, start_time: i64) -> WithDraw {
    WithDraw {
        bank: bank(9, 1_000, rate),
        bank_sol: wallet(2, 5_000),
        owner: wallet(1, 0),
        user: user(USER, deposit_amount, 300, start_time),
    }
}

#[test]
fn withdraw_waits_for_the_lock_period() {
    assert_eq!(WITHDRAW_LOCK_SECONDS, 30 * DAY);
    let mut ctx = withdraw_ctx(0, 200, 1_000);
    let now = 1_000 + 30 * DAY - 1;
    let r = expect_done(process_withdraw(&mut ctx, &program_id(), 50, now, Progress::Begin));
    assert_eq!(r, Err(TokenBankError::User(UserError::NotEnoughDay)));
    let now = 1_000 + 30 * DAY;
    let t = expect_transfer(process_withdraw(&mut ctx, &program_id(), 50, now, Progress::Begin));
    assert_eq!(t.amount, 50);
}

#[test]
fn withdraw_limited_by_the_deposit() {
    let mut ctx = withdraw_ctx(0, 200, 0);
    let r = expect_done(process_withdraw(&mut ctx, &program_id(), 201, 40 * DAY, Progress::Begin));
    assert_eq!(r, Err(TokenBankError::User(UserError::InsufficientBalance)));
    assert_eq!(ctx.user.deposit_amount, 200);
}

#[test]
fn withdraw_pays_interest_signed_by_the_bank_account() {
    let mut ctx = withdraw_ctx(250, 200, 0);
    let t = expect_transfer(process_withdraw(&mut ctx, &program_id(), 50, 40 * DAY, Progress::Begin));
    assert_eq!(t.from, addr(2));
    assert_eq!(t.to, addr(1));
    assert_eq!(t.amount, 150);
    let signer = t.signer.expect("the bank account signs");
    assert_eq!(signer.seed, b"bank_sol".to_vec());
    assert_eq!(signer.bump, expected_bump());
}

#[test]
fn withdraw_interest_below_a_hundred_is_nothing() {
    let ctx = withdraw_ctx(99, 200, 0);
    assert_eq!(ctx.caculate_interest(50), 0);
    let ctx = withdraw_ctx(100, 200, 0);
    assert_eq!(ctx.caculate_interest(50), 50);
    let ctx = withdraw_ctx(u64::MAX, 200, 0);
    assert_eq!(ctx.caculate_interest(u64::MAX), u64::MAX);
    assert_eq!(ctx.caculate_interest(0), 0);
}

#[test]
fn withdraw_valid_compares_elapsed_time() {
    let ctx = withdraw_ctx(0, 0, 0);
    assert!(!ctx.withdraw_valid(30 * DAY - 1, 0));
    assert!(ctx.withdraw_valid(30 * DAY, 0));
    assert!(!ctx.withdraw_valid(10, 20));
}

#[test]
fn withdraw_records_the_amount_not_the_interest() {
    let mut ctx = withdraw_ctx(250, 200, 0);
    let r = expect_done(process_withdraw(&mut ctx, &program_id(), 50, 40 * DAY, Progress::TransferSucceeded));
    assert_eq!(r, Ok(()));
    assert_eq!(ctx.bank.total_balance, 950);
    assert_eq!(ctx.user.deposit_amount, 150);
    assert_eq!(ctx.user.deposit_amount_total, 300);
}

#[test]
fn withdraw_failed_transfer_changes_nothing() {
    let mut ctx = withdraw_ctx(0, 200, 0);
    let r = expect_done(process_withdraw(&mut ctx, &program_id(), 50, 40 * DAY, Progress::TransferFailed));
    assert_eq!(r, Err(TokenBankError::TransferFailed));
    assert_eq!(ctx.bank.total_balance, 1_000);
    assert_eq!(ctx.user.deposit_amount, 200);
}

#[test]
fn withdraw_entry_reports_success_on_refusal() {
    let mut ctx = withdraw_ctx(0, 200, 0);
    assert_eq!(expect_done(withdraw(&mut ctx, &program_id(), 50, 1, Progress::Begin)), Ok(()));
    assert_eq!(ctx.user.deposit_amount, 200);
}

#[test]
fn deposit_then_withdraw_all_of_it() {
    let mut d = deposit_ctx(USER, 500);
    assert_eq!(expect_done(process_deposit(&mut d, 120, Some(100), Progress::TransferSucceeded)), Ok(()));
    let mut w = WithDraw { bank: d.bank.clone(), bank_sol: d.bank_sol, owner: d.owner, user: d.user };
    let early = expect_done(process_withdraw(&mut w, &program_id(), 120, 100 + 29 * DAY, Progress::Begin));
    assert_eq!(early, Err(TokenBankError::User(UserError::NotEnoughDay)));
    let t = expect_transfer(process_withdraw(&mut w, &program_id(), 120, 100 + 30 * DAY, Progress::Begin));
    assert_eq!(t.amount, 120);
    let r = expect_done(process_withdraw(&mut w, &program_id(), 120, 100 + 30 * DAY, Progress::TransferSucceeded));
    assert_eq!(r, Ok(()));
    assert_eq!(w.user.deposit_amount, 0);
    assert_eq!(w.bank.total_balance, 1_000);
}

fn role_ctx(owner: u8, signer: u8, role: u8, total: u64) -> WithdrawRoleBased {
    WithdrawRoleBased { owner: wallet(signer, 0), user: user(role, 0, 0, 0), bank: bank(owner, total, 0), bank_sol: wallet(2, total) }
}

#[test]
fn role_withdrawal_requires_a_role() {
    let mut ctx = role_ctx(9, 1, USER, 1_000);
    assert!(!ctx.check_owner());
    assert!(!ctx.check_sale());
    assert_eq!(ctx.verify_role(), Err(TokenBankError::WithdrawAll(WithdrawAllError::Unauthorized)));
    let r = expect_done(process_withdraw_role_based(&mut ctx, &program_id(), Progress::Begin));
    assert_eq!(r, Err(TokenBankError::WithdrawAll(WithdrawAllError::Unauthorized)));
    assert_eq!(expect_done(withdraw_all(&mut ctx, &program_id(), Progress::TransferSucceeded)), Ok(()));
    assert_eq!(ctx.bank.total_balance, 1_000);
}

#[test]
fn director_takes_everything() {
    let mut ctx = role_ctx(9, 1, DIRECTOR, 1_005);
    let t = expect_transfer(process_withdraw_role_based(&mut ctx, &program_id(), Progress::Begin));
    assert_eq!(t.amount, 1_005);
    assert_eq!(t.from, addr(2));
    assert_eq!(t.to, addr(1));
    assert_eq!(t.signer.expect("signed").bump, expected_bump());
    let r = expect_done(process_withdraw_role_based(&mut ctx, &program_id(), Progress::TransferSucceeded));
    assert_eq!(r, Ok(()));
    assert_eq!(ctx.bank.total_balance, 0);
    assert_eq!(ctx.user.withdraw_total, 1_005);
}

#[test]
fn bank_owner_takes_everything() {
    let mut ctx = role_ctx(1, 1, USER, 700);
    assert!(ctx.check_owner());
    let t = expect_transfer(process_withdraw_role_based(&mut ctx, &program_id(), Progress::Begin));
    assert_eq!(t.amount, 700);
}

#[test]
fn sales_take_a_tenth() {
    let mut ctx = role_ctx(9, 1, SALE, 1_005);
    let t = expect_transfer(process_withdraw_role_based(&mut ctx, &program_id(), Progress::Begin));
    assert_eq!(t.amount, 100);
    let r = expect_done(process_withdraw_role_based(&mut ctx, &program_id(), Progress::TransferSucceeded));
    assert_eq!(r, Ok(()));
    assert_eq!(ctx.bank.total_balance, 905);
    assert_eq!(ctx.user.withdraw_total, 100);
}

#[test]
fn a_bank_owner_in_sales_takes_a_tenth() {
    let mut ctx = role_ctx(1, 1, SALE, 50);
    let t = expect_transfer(process_withdraw_role_based(&mut ctx, &program_id(), Progress::Begin));
    assert_eq!(t.amount, 5);
}

#[test]
fn role_withdrawal_failed_transfer_changes_nothing() {
    let mut ctx = role_ctx(9, 1, DIRECTOR, 1_000);
    let r = expect_done(process_withdraw_role_based(&mut ctx, &program_id(), Progress::TransferFailed));
    assert_eq!(r, Err(TokenBankError::TransferFailed));
    assert_eq!(ctx.bank.total_balance, 1_000);
    assert_eq!(ctx.user.withdraw_total, 0);
}

#[test]
fn role_transfer_is_signed_by_the_bank_account() {
    let ctx = role_ctx(9, 1, DIRECTOR, 1_000);
    let t = ctx.transfer(&program_id(), 33).expect("an address exists");
    assert_eq!(t.amount, 33);
    let signer = t.signer.expect("signed");
    assert_eq!(signer.seed, b"bank_sol".to_vec());
    assert_eq!(signer.bump, expected_bump());
    let other = ctx.transfer(&addr(8), 33).expect("an address exists");
    let id = anchor_lang::prelude::Pubkey::new_from_array(addr(8).bytes);
    let bump = anchor_lang::prelude::Pubkey::find_program_address(&[b"bank_sol"], &id).1;
    assert_eq!(other.signer.expect("signed").bump, bump);
}

fn update_ctx(owner: u8, signer: u8, role: u8) -> UpdateBank {
    UpdateBank { bank: bank(owner, 10, 5), user: user(role, 0, 0, 0), owner: wallet(signer, 0) }
}

#[test]
fn update_requires_owner_or_director() {
    let mut ctx = update_ctx(9, 1, SALE);
    assert!(!ctx.check_owner());
    assert_eq!(
        process_update_bank(&mut ctx, String::from("new"), 10),
        Err(TokenBankError::User(UserError::Unauthorized))
    );
    assert_eq!(ctx.bank.name, "bank");
    let mut ctx = update_ctx(9, 1, DIRECTOR);
    assert_eq!(process_update_bank(&mut ctx, String::from("new"), 10), Ok(()));
    assert_eq!(ctx.bank.name, "new");
    assert_eq!(ctx.bank.interest_rate, 10);
}

#[test]
fn update_limits_the_name_in_bytes() {
    let ctx = update_ctx(1, 1, USER);
    assert!(ctx.check_name_valid("a".repeat(64)));
    assert!(!ctx.check_name_valid("a".repeat(65)));
    assert!(ctx.check_name_valid("é".repeat(32)));
    assert!(!ctx.check_name_valid("é".repeat(33)));
    let mut ctx = update_ctx(1, 1, USER);
    assert_eq!(
        process_update_bank(&mut ctx, "é".repeat(33), 10),
        Err(TokenBankError::Bank(BankError::NameTooLong))
    );
    assert_eq!(ctx.bank.interest_rate, 5);
}

#[test]
fn update_limits_the_rate() {
    let ctx = update_ctx(1, 1, USER);
    assert!(ctx.check_interest_rate_valid(100));
    assert!(!ctx.check_interest_rate_valid(101));
    let mut ctx = update_ctx(1, 1, USER);
    assert_eq!(
        process_update_bank(&mut ctx, String::from("ok"), 101),
        Err(TokenBankError::Bank(BankError::InterestRateTooHigh))
    );
    assert_eq!(ctx.bank.name, "bank");
    assert_eq!(update_bank(&mut ctx, String::from("ok"), 101), Ok(()));
    assert_eq!(ctx.bank.name, "bank");
    assert_eq!(update_bank(&mut ctx, String::from("ok"), 100), Ok(()));
    assert_eq!(ctx.bank.name, "ok");
    assert_eq!(ctx.bank.interest_rate, 100);
}

fn grant_ctx(owner: u8, signer: u8, role: u8) -> GrantPermission {
    GrantPermission { bank: bank(owner, 10, 5), user: user(role, 0, 0, 0), owner: wallet(signer, 0) }
}

#[test]
fn grant_requires_owner_or_director() {
    let mut ctx = grant_ctx(9, 1, USER);
    assert_eq!(process_grant_permission(&mut ctx, SALE), Err(TokenBankError::User(UserError::Unauthorized)));
    assert_eq!(ctx.user.role, USER);
    let mut ctx = grant_ctx(1, 1, USER);
    assert_eq!(process_grant_permission(&mut ctx, SALE), Ok(()));
    assert_eq!(ctx.user.role, SALE);
}

#[test]
fn grant_only_known_roles() {
    let ctx = grant_ctx(1, 1, USER);
    assert!(ctx.check_permission_valid(USER));
    assert!(ctx.check_permission_valid(DIRECTOR));
    assert!(ctx.check_permission_valid(SALE));
    assert!(!ctx.check_permission_valid(3));
    let mut ctx = grant_ctx(1, 1, USER);
    assert_eq!(process_grant_permission(&mut ctx, 3), Err(TokenBankError::User(UserError::InvalidPermission)));
    assert_eq!(grant_permission(&mut ctx, 3), Ok(()));
    assert_eq!(ctx.user.role, USER);
}

#[test]
fn granted_depositor_may_deposit() {
    let mut g = grant_ctx(1, 1, SALE);
    assert_eq!(process_grant_permission(&mut g, USER), Ok(()));
    let mut d = Deposit { bank: g.bank.clone(), bank_sol: wallet(2, 0), owner: wallet(1, 100), user: g.user };
    assert!(d.check_user_valid());
    assert_eq!(expect_transfer(process_deposit(&mut d, 10, Some(0), Progress::Begin)).amount, 10);
}
