//! Properties of the bank that span its instructions.
use vstd::prelude::*;
use crate::config::{SALE, USER, WITHDRAW_LOCK_SECONDS};
use crate::error::{TokenBankError, UserError};
use crate::instructions::deposit::{deposit_fits, deposit_step, deposit_verdict, Deposit};
use crate::instructions::director::grant_permission::{grant_verdict, granted, GrantPermission};
use crate::instructions::director::update_bank::{name_fits, rate_allowed, update_verdict, updated, UpdateBank};
use crate::instructions::director::withdraw_role_based::{
    role_amount, role_verdict, withdraw_role_based_step, WithdrawRoleBased,
};
use crate::instructions::withdraw::{spec_interest, withdraw_payout, withdraw_step, withdraw_verdict, WithDraw};
use crate::runtime::{program_address, Progress, StepView, TransferView};
use crate::program::reported;
use crate::state::{Bank, User};
use crate::config::{BANK_SOL_SEED, DIRECTOR, MAX_INTEREST, MAX_NAME, is_known_role};
use crate::error::{BankError, WithdrawAllError};
use crate::instructions::director::grant_permission::owner_or_director;
use crate::instructions::init_bank::created_bank;
use crate::instructions::withdraw::lock_elapsed;
use crate::state::Wallet;
use vstd::utf8::encode_utf8;

verus! {

/// A deposit step changes the accounts only when it completes successfully:
/// a refused deposit, a failed transfer, or a request for the transfer leave
/// them as they were.
pub proof fn deposit_changes_only_on_success(ctx: Deposit, amount: u64, now: Option<i64>, progress: Progress)
    ensures
        deposit_step(ctx, amount, now, progress).1 != StepView::Done(Ok(()))
            ==> deposit_step(ctx, amount, now, progress).0 == ctx,
{
}

/// A withdrawal step changes the accounts only when it completes successfully.
pub proof fn withdraw_changes_only_on_success(ctx: WithDraw, program_id: Seq<u8>, amount: u64, now: i64, progress: Progress)
    ensures
        withdraw_step(ctx, program_id, amount, now, progress).1 != StepView::Done(Ok(()))
            ==> withdraw_step(ctx, program_id, amount, now, progress).0 == ctx,
{
}

/// A role-based withdrawal step changes the accounts only when it completes successfully.
pub proof fn withdraw_role_based_changes_only_on_success(ctx: WithdrawRoleBased, program_id: Seq<u8>, progress: Progress)
    ensures
        withdraw_role_based_step(ctx, program_id, progress).1 != StepView::Done(Ok(()))
            ==> withdraw_role_based_step(ctx, program_id, progress).0 == ctx,
{
}

/// A freshly created user is well formed.
pub proof fn fresh_user_is_well_formed()
    ensures
        User::spec_fresh().well_formed(),
{
}

/// Every step of a deposit keeps the user well formed.
pub proof fn deposit_keeps_user_well_formed(ctx: Deposit, amount: u64, now: Option<i64>, progress: Progress)
    requires
        ctx.user.well_formed(),
        progress == Progress::TransferSucceeded && deposit_verdict(ctx, amount, now) is Ok
            ==> deposit_fits(ctx, amount),
    ensures
        deposit_step(ctx, amount, now, progress).0.user.well_formed(),
{
}

/// Every step of a withdrawal keeps the user well formed.
pub proof fn withdraw_keeps_user_well_formed(ctx: WithDraw, program_id: Seq<u8>, amount: u64, now: i64, progress: Progress)
    requires
        ctx.user.well_formed(),
    ensures
        withdraw_step(ctx, program_id, amount, now, progress).0.user.well_formed(),
{
}

/// Every step of a role-based withdrawal keeps the user well formed.
pub proof fn withdraw_role_based_keeps_user_well_formed(ctx: WithdrawRoleBased, program_id: Seq<u8>, progress: Progress)
    requires
        ctx.user.well_formed(),
    ensures
        withdraw_role_based_step(ctx, program_id, progress).0.user.well_formed(),
{
}

/// Granting a permission keeps the user well formed.
pub proof fn grant_keeps_user_well_formed(ctx: GrantPermission, permission: u8)
    requires
        ctx.user.well_formed(),
    ensures
        grant_verdict(ctx, permission) is Ok ==> granted(ctx, permission).user.well_formed(),
{
}

/// A successful deposit moves `amount` from the owner to the bank's lamport
/// account, and the bank's balance and the user's total grow by exactly that
/// amount; the user's current deposit becomes the amount, locked from `now`.
pub proof fn deposit_accounting(ctx: Deposit, amount: u64, now: i64)
    requires
        deposit_verdict(ctx, amount, Some(now)) is Ok,
        deposit_fits(ctx, amount),
    ensures
        deposit_step(ctx, amount, Some(now), Progress::Begin).1 matches StepView::Transfer(t)
            && t.amount == amount && t.from == ctx.owner.key@ && t.to == ctx.bank_sol.key@
            && t.signer is None,
        ({
            let after = deposit_step(ctx, amount, Some(now), Progress::TransferSucceeded).0;
            &&& after.bank.total_balance == ctx.bank.total_balance + amount
            &&& after.user.deposit_amount_total == ctx.user.deposit_amount_total + amount
            &&& after.user.deposit_amount == amount
            &&& after.user.start_time == now
        }),
{
}

/// A successful withdrawal lowers the bank's balance and the user's deposit
/// by `amount`, while the payout it asks for is the amount with its interest,
/// never less than the amount; below a rate of 100 there is no interest.
pub proof fn withdraw_accounting(ctx: WithDraw, program_id: Seq<u8>, amount: u64, now: i64)
    requires
        withdraw_verdict(ctx, amount, now) is Ok,
        withdraw_payout(ctx, amount) <= u64::MAX,
        amount <= ctx.bank.total_balance,
    ensures
        ({
            let after = withdraw_step(ctx, program_id, amount, now, Progress::TransferSucceeded).0;
            &&& after.bank.total_balance == ctx.bank.total_balance - amount
            &&& after.user.deposit_amount == ctx.user.deposit_amount - amount
        }),
        withdraw_step(ctx, program_id, amount, now, Progress::Begin).1 matches StepView::Transfer(t)
            ==> t.amount == amount + spec_interest(amount, ctx.bank.interest_rate) && t.amount >= amount
                && t.from == ctx.bank_sol.key@ && t.to == ctx.owner.key@,
        ctx.bank.interest_rate < 100 ==> spec_interest(amount, ctx.bank.interest_rate) == 0,
{
    if ctx.bank.interest_rate < 100 {
        let factor = ctx.bank.interest_rate / 100;
        assert(factor == 0);
        assert(amount * factor == 0) by (nonlinear_arith)
            requires
                factor == 0,
        ;
    }
}

/// After a deposit made at `t`, a withdrawal before the lock period has passed
/// is refused with `NotEnoughDay` and changes nothing.
pub proof fn withdraw_locked_after_deposit(
    d: Deposit,
    amount: u64,
    t: i64,
    w: WithDraw,
    program_id: Seq<u8>,
    w_amount: u64,
    now: i64,
    progress: Progress,
)
    requires
        deposit_verdict(d, amount, Some(t)) is Ok,
        w.user == deposit_step(d, amount, Some(t), Progress::TransferSucceeded).0.user,
        now - t < WITHDRAW_LOCK_SECONDS,
    ensures
        withdraw_step(w, program_id, w_amount, now, progress)
            == (w, StepView::Done(Err(TokenBankError::User(UserError::NotEnoughDay)))),
{
}

/// After a deposit of `amount` made at `t`, withdrawing that amount once the
/// lock period has passed is allowed, asks for the amount with its interest,
/// and leaves nothing deposited.
pub proof fn deposit_then_withdraw(d: Deposit, amount: u64, t: i64, w: WithDraw, program_id: Seq<u8>, now: i64)
    requires
        deposit_verdict(d, amount, Some(t)) is Ok,
        deposit_fits(d, amount),
        w.user == deposit_step(d, amount, Some(t), Progress::TransferSucceeded).0.user,
        now - t >= WITHDRAW_LOCK_SECONDS,
        withdraw_payout(w, amount) <= u64::MAX,
    ensures
        withdraw_verdict(w, amount, now) is Ok,
        withdraw_step(w, program_id, amount, now, Progress::Begin).1 matches StepView::Transfer(tr)
            ==> tr.amount == withdraw_payout(w, amount),
        withdraw_step(w, program_id, amount, now, Progress::TransferSucceeded).0.user.deposit_amount == 0,
{
}

/// A role-based withdrawal never takes more than the bank holds: an owner or
/// director who is not in sales empties the bank, a sales member takes a tenth,
/// and the transfer asked for is exactly what the bank's balance loses.
pub proof fn role_withdrawal_amounts(ctx: WithdrawRoleBased, program_id: Seq<u8>)
    requires
        role_verdict(ctx) is Ok,
    ensures
        role_amount(ctx) <= ctx.bank.total_balance,
        ({
            let after = withdraw_role_based_step(ctx, program_id, Progress::TransferSucceeded).0;
            &&& after.bank.total_balance == ctx.bank.total_balance - role_amount(ctx)
            &&& ctx.user.role != SALE ==> after.bank.total_balance == 0
            &&& ctx.user.role == SALE ==> after.bank.total_balance
                == ctx.bank.total_balance - ctx.bank.total_balance / 10
        }),
        withdraw_role_based_step(ctx, program_id, Progress::Begin).1 matches StepView::Transfer(t)
            ==> t.amount == role_amount(ctx) && t.from == ctx.bank_sol.key@ && t.to == ctx.owner.key@,
{
}

/// A user who has been granted the ordinary depositor's role may deposit: the
/// deposit is not refused for the user's role.
pub proof fn granted_user_may_deposit(g: GrantPermission, d: Deposit, amount: u64, now: Option<i64>)
    requires
        grant_verdict(g, USER) is Ok,
        d.user == granted(g, USER).user,
    ensures
        deposit_verdict(d, amount, now) != Err::<i64, TokenBankError>(TokenBankError::User(UserError::Unauthorized)),
{
}

/// A successful update leaves the bank with the given name and rate, both
/// within their limits.
pub proof fn update_leaves_valid_bank(ctx: UpdateBank, name: String, interest_rate: u64)
    requires
        update_verdict(ctx, name@, interest_rate) is Ok,
    ensures
        updated(ctx, name, interest_rate).bank.name == name,
        updated(ctx, name, interest_rate).bank.interest_rate == interest_rate,
        name_fits(updated(ctx, name, interest_rate).bank.name@),
        rate_allowed(updated(ctx, name, interest_rate).bank.interest_rate),
{
}


/// The bytes "bank_sol", the seed of the bank's lamport account.
pub open spec fn bank_sol_bytes() -> Seq<u8> {
    seq![98u8, 97u8, 110u8, 107u8, 95u8, 115u8, 111u8, 108u8]
}

/// The program's parameters: the three roles are 0 (user), 1 (director) and
/// 2 (sales); names hold at most 64 bytes; rates go up to 100; deposits are
/// locked for thirty days; the lamport account's seed is "bank_sol".
pub proof fn parameters()
    ensures
        USER == 0 && DIRECTOR == 1 && SALE == 2,
        MAX_NAME == 64 && MAX_INTEREST == 100,
        WITHDRAW_LOCK_SECONDS == 30 * 24 * 60 * 60,
        BANK_SOL_SEED@ == bank_sol_bytes(),
        forall|r: u8| is_known_role(r) <==> r <= 2,
{
    assert(BANK_SOL_SEED@ =~= bank_sol_bytes());
}

/// Authority over the bank: the signer's address is the bank's owner address,
/// or the user account's role is director.
pub proof fn authority_is_owner_or_director(bank: Bank, user: User, signer: Wallet)
    ensures
        owner_or_director(bank, user, signer) <==> (bank.owner_address@ == signer.key@ || user.role == 1),
{
}

/// A deposit is refused, changing nothing, exactly for a non-depositor role,
/// an unreadable clock, or an owner holding fewer lamports than the amount —
/// whatever the bank and its lamport account hold.
pub proof fn deposit_refusals(ctx: Deposit, amount: u64, now: Option<i64>, progress: Progress)
    ensures
        ctx.user.role != 0 ==> deposit_step(ctx, amount, now, progress)
            == (ctx, StepView::Done(Err(TokenBankError::User(UserError::Unauthorized)))),
        ctx.user.role == 0 && now is None ==> deposit_step(ctx, amount, now, progress)
            == (ctx, StepView::Done(Err(TokenBankError::ClockUnavailable))),
        ctx.user.role == 0 && now is Some && (ctx.owner.lamports as int) < (amount as int)
            ==> deposit_step(ctx, amount, now, progress)
            == (ctx, StepView::Done(Err(TokenBankError::User(UserError::InsufficientBalance)))),
        (ctx.user.role == 0 && now is Some && ctx.owner.lamports >= amount)
            <==> deposit_verdict(ctx, amount, now) is Ok,
{
}

/// An allowed deposit first asks for exactly `amount` lamports from the owner
/// to the bank's lamport account, unsigned; a failed transfer changes nothing;
/// after the transfer the bank's balance and the user's total grow by the
/// amount, the current deposit becomes the amount, the user is a depositor
/// locked from `now`, and nothing else changes.
pub proof fn deposit_proceeds(ctx: Deposit, amount: u64, t: i64)
    requires
        ctx.user.role == 0,
        ctx.owner.lamports >= amount,
    ensures
        deposit_step(ctx, amount, Some(t), Progress::Begin) == (ctx, StepView::Transfer(
            TransferView { from: ctx.owner.key@, to: ctx.bank_sol.key@, amount, signer: None },
        )),
        deposit_step(ctx, amount, Some(t), Progress::TransferFailed)
            == (ctx, StepView::Done(Err(TokenBankError::TransferFailed))),
        ctx.bank.total_balance + amount <= u64::MAX && ctx.user.deposit_amount_total + amount <= u64::MAX
            ==> ({
            let (after, step) = deposit_step(ctx, amount, Some(t), Progress::TransferSucceeded);
            &&& step == StepView::Done(Ok(()))
            &&& after.bank.total_balance == ctx.bank.total_balance + amount
            &&& after.bank.owner_address == ctx.bank.owner_address
            &&& after.bank.name == ctx.bank.name
            &&& after.bank.interest_rate == ctx.bank.interest_rate
            &&& after.user == User {
                role: 0,
                withdraw_total: ctx.user.withdraw_total,
                deposit_amount_total: (ctx.user.deposit_amount_total + amount) as u64,
                deposit_amount: amount,
                start_time: t,
                end_time: ctx.user.end_time,
            }
            &&& after.user.deposit_amount_total == ctx.user.deposit_amount_total + amount
            &&& after.owner == ctx.owner
            &&& after.bank_sol == ctx.bank_sol
        }),
{
}

/// The lock period: a deposit made at `start_time` may be withdrawn at `now`
/// exactly when at least thirty days of seconds lie between them.
pub proof fn lock_is_thirty_days(now: i64, start_time: i64)
    ensures
        lock_elapsed(now, start_time) <==> now - start_time >= 2_592_000,
{
}

/// The interest on `amount` is the full product of the amount and the rate's
/// whole hundreds, or the largest `u64` when that product does not fit; at a
/// rate of 100 it is the amount itself.
pub proof fn interest_is_saturated_product(amount: u64, interest_rate: u64)
    ensures
        amount * (interest_rate / 100) <= u64::MAX ==> spec_interest(amount, interest_rate) as int
            == amount * (interest_rate / 100),
        amount * (interest_rate / 100) > u64::MAX ==> spec_interest(amount, interest_rate) == u64::MAX,
        interest_rate / 100 == 1 ==> spec_interest(amount, interest_rate) == amount,
        interest_rate < 100 ==> spec_interest(amount, interest_rate) == 0,
{
    let factor = interest_rate / 100;
    if factor == 1 {
        assert(amount * factor == amount);
    }
    if factor == 0 {
        assert(amount * factor == 0);
    }
}

/// A withdrawal is refused, changing nothing, before the lock period has
/// passed, and then when the amount exceeds the current deposit.
pub proof fn withdraw_refusals(ctx: WithDraw, program_id: Seq<u8>, amount: u64, now: i64, progress: Progress)
    ensures
        now - ctx.user.start_time < 2_592_000 ==> withdraw_step(ctx, program_id, amount, now, progress)
            == (ctx, StepView::Done(Err(TokenBankError::User(UserError::NotEnoughDay)))),
        now - ctx.user.start_time >= 2_592_000 && amount > ctx.user.deposit_amount
            ==> withdraw_step(ctx, program_id, amount, now, progress)
            == (ctx, StepView::Done(Err(TokenBankError::User(UserError::InsufficientBalance)))),
        (now - ctx.user.start_time >= 2_592_000 && amount <= ctx.user.deposit_amount)
            <==> withdraw_verdict(ctx, amount, now) is Ok,
{
}

/// An allowed withdrawal first asks for the amount plus its interest (the
/// saturated product of the amount and the rate's whole hundreds) from the
/// bank's lamport account to the owner, signed with the seed "bank_sol" and
/// the bump found for it; a failed transfer changes nothing; after the
/// transfer the bank's balance and the current deposit drop by the amount
/// alone, and nothing else changes.
pub proof fn withdraw_proceeds(ctx: WithDraw, program_id: Seq<u8>, amount: u64, now: i64)
    requires
        now - ctx.user.start_time >= 2_592_000,
        amount <= ctx.user.deposit_amount,
    ensures
        ({
            let product = amount * (ctx.bank.interest_rate / 100);
            let interest: int = if product > u64::MAX { u64::MAX as int } else { product };
            amount + interest <= u64::MAX ==> match program_address(bank_sol_bytes(), program_id) {
                Some((_, bump)) => withdraw_step(ctx, program_id, amount, now, Progress::Begin)
                    == (ctx, StepView::Transfer(TransferView {
                        from: ctx.bank_sol.key@,
                        to: ctx.owner.key@,
                        amount: (amount + interest) as u64,
                        signer: Some((bank_sol_bytes(), bump)),
                    })),
                None => withdraw_step(ctx, program_id, amount, now, Progress::Begin)
                    == (ctx, StepView::Done(Err(TokenBankError::NoBankSolAddress))),
            }
        }),
        ctx.bank.interest_rate / 100 == 1 && amount <= u64::MAX / 2 ==> (
            withdraw_step(ctx, program_id, amount, now, Progress::Begin).1 matches StepView::Transfer(tr)
                ==> tr.amount == 2 * amount),
        withdraw_step(ctx, program_id, amount, now, Progress::TransferFailed)
            == (ctx, StepView::Done(Err(TokenBankError::TransferFailed))),
        amount <= ctx.bank.total_balance ==> ({
            let (after, step) = withdraw_step(ctx, program_id, amount, now, Progress::TransferSucceeded);
            &&& step == StepView::Done(Ok(()))
            &&& after.bank.total_balance == ctx.bank.total_balance - amount
            &&& after.bank.owner_address == ctx.bank.owner_address
            &&& after.bank.name == ctx.bank.name
            &&& after.bank.interest_rate == ctx.bank.interest_rate
            &&& after.user == User { deposit_amount: (ctx.user.deposit_amount - amount) as u64, ..ctx.user }
            &&& after.user.deposit_amount == ctx.user.deposit_amount - amount
            &&& after.owner == ctx.owner
            &&& after.bank_sol == ctx.bank_sol
        }),
{
    assert(BANK_SOL_SEED@ =~= bank_sol_bytes());
    let factor = ctx.bank.interest_rate / 100;
    if factor == 1 {
        assert(amount * factor == amount);
    }
}

/// A role-based withdrawal is refused, changing nothing, unless the signer
/// owns the bank or the user account is a director's or a sales member's.
pub proof fn withdraw_role_based_refusal(ctx: WithdrawRoleBased, program_id: Seq<u8>, progress: Progress)
    ensures
        (ctx.bank.owner_address@ != ctx.owner.key@ && ctx.user.role != 1 && ctx.user.role != 2)
            ==> withdraw_role_based_step(ctx, program_id, progress)
            == (ctx, StepView::Done(Err(TokenBankError::WithdrawAll(WithdrawAllError::Unauthorized)))),
        (ctx.bank.owner_address@ == ctx.owner.key@ || ctx.user.role == 1 || ctx.user.role == 2)
            <==> role_verdict(ctx) is Ok,
{
}

/// An allowed role-based withdrawal draws a tenth of the bank's balance
/// (rounded down) for a sales member and all of it otherwise; it asks for
/// exactly that transfer from the bank's lamport account to the signer; a
/// failed transfer changes nothing; after the transfer the bank's balance
/// drops by what was drawn, the user's withdrawn total grows by the same
/// amount, and nothing else changes.
pub proof fn withdraw_role_based_proceeds(ctx: WithdrawRoleBased, program_id: Seq<u8>)
    requires
        ctx.bank.owner_address@ == ctx.owner.key@ || ctx.user.role == 1 || ctx.user.role == 2,
    ensures
        ({
            let drawn: int = if ctx.user.role == 2 {
                (ctx.bank.total_balance / 10) as int
            } else {
                ctx.bank.total_balance as int
            };
            &&& match program_address(bank_sol_bytes(), program_id) {
                Some((_, bump)) => withdraw_role_based_step(ctx, program_id, Progress::Begin)
                    == (ctx, StepView::Transfer(TransferView {
                        from: ctx.bank_sol.key@,
                        to: ctx.owner.key@,
                        amount: drawn as u64,
                        signer: Some((bank_sol_bytes(), bump)),
                    })),
                None => withdraw_role_based_step(ctx, program_id, Progress::Begin)
                    == (ctx, StepView::Done(Err(TokenBankError::NoBankSolAddress))),
            }
            &&& withdraw_role_based_step(ctx, program_id, Progress::TransferFailed)
                == (ctx, StepView::Done(Err(TokenBankError::TransferFailed)))
            &&& ctx.user.withdraw_total + drawn <= u64::MAX ==> ({
                let (after, step) = withdraw_role_based_step(ctx, program_id, Progress::TransferSucceeded);
                &&& step == StepView::Done(Ok(()))
                &&& after.bank.total_balance == ctx.bank.total_balance - drawn
                &&& after.user.withdraw_total == ctx.user.withdraw_total + drawn
                &&& after.user.withdraw_total - ctx.user.withdraw_total
                    == ctx.bank.total_balance - after.bank.total_balance
                &&& after.user == User { withdraw_total: (ctx.user.withdraw_total + drawn) as u64, ..ctx.user }
                &&& after.bank.owner_address == ctx.bank.owner_address
                &&& after.bank.name == ctx.bank.name
                &&& after.bank.interest_rate == ctx.bank.interest_rate
                &&& after.owner == ctx.owner
                &&& after.bank_sol == ctx.bank_sol
            })
        }),
{
    assert(BANK_SOL_SEED@ =~= bank_sol_bytes());
}

/// Updating the bank, by its owner or with a director's user account, fails
/// for a name of more than 64 bytes in UTF-8, then for a rate above 100 (the
/// whole `u64` compared), and otherwise sets exactly the name and the rate;
/// anyone else is refused. A refused update changes nothing.
pub proof fn update_bank_behaviour(ctx: UpdateBank, name: String, interest_rate: u64)
    ensures
        !(ctx.bank.owner_address@ == ctx.owner.key@ || ctx.user.role == 1)
            ==> update_verdict(ctx, name@, interest_rate) == Err::<(), TokenBankError>(
            TokenBankError::User(UserError::Unauthorized)),
        (ctx.bank.owner_address@ == ctx.owner.key@ || ctx.user.role == 1) && encode_utf8(name@).len() > 64
            ==> update_verdict(ctx, name@, interest_rate) == Err::<(), TokenBankError>(
            TokenBankError::Bank(BankError::NameTooLong)),
        (ctx.bank.owner_address@ == ctx.owner.key@ || ctx.user.role == 1) && encode_utf8(name@).len() <= 64
            && interest_rate > 100 ==> update_verdict(ctx, name@, interest_rate) == Err::<(), TokenBankError>(
            TokenBankError::Bank(BankError::InterestRateTooHigh)),
        (ctx.bank.owner_address@ == ctx.owner.key@ || ctx.user.role == 1) && encode_utf8(name@).len() <= 64
            && interest_rate <= 100 ==> update_verdict(ctx, name@, interest_rate) is Ok,
        rate_allowed(interest_rate) <==> interest_rate <= 100,
        name_fits(name@) <==> encode_utf8(name@).len() <= 64,
        ({
            let after = updated(ctx, name, interest_rate);
            &&& after.bank.name == name
            &&& after.bank.interest_rate == interest_rate
            &&& after.bank.owner_address == ctx.bank.owner_address
            &&& after.bank.total_balance == ctx.bank.total_balance
            &&& after.user == ctx.user
            &&& after.owner == ctx.owner
        }),
{
}

/// Granting a role: authorized when the signer owns the bank or the user
/// account's role is director, and then any of the three known roles is
/// granted, setting the user's role to it and nothing else; any other role is
/// refused, as is anyone without authority.
pub proof fn grant_permission_behaviour(ctx: GrantPermission, permission: u8)
    ensures
        !(ctx.bank.owner_address@ == ctx.owner.key@ || ctx.user.role == 1)
            ==> grant_verdict(ctx, permission) == Err::<(), TokenBankError>(
            TokenBankError::User(UserError::Unauthorized)),
        (ctx.bank.owner_address@ == ctx.owner.key@ || ctx.user.role == 1) && permission > 2
            ==> grant_verdict(ctx, permission) == Err::<(), TokenBankError>(
            TokenBankError::User(UserError::InvalidPermission)),
        (ctx.bank.owner_address@ == ctx.owner.key@ || ctx.user.role == 1) && permission <= 2
            ==> grant_verdict(ctx, permission) is Ok,
        ctx.user.role == 1 && permission <= 2 ==> grant_verdict(ctx, permission) is Ok,
        granted(ctx, permission) == (GrantPermission { user: User { role: permission, ..ctx.user }, ..ctx }),
        granted(ctx, permission).user.role == permission,
        granted(ctx, permission).bank == ctx.bank && granted(ctx, permission).owner == ctx.owner,
{
}

/// A new user has every field zero; a new bank has the signer as owner, the
/// given name and rate, and a zero balance.
pub proof fn creation_behaviour(name: String, interest_rate: u64, owner: Wallet)
    ensures
        User::spec_fresh() == (User {
            role: 0,
            withdraw_total: 0,
            deposit_amount_total: 0,
            deposit_amount: 0,
            start_time: 0,
            end_time: 0,
        }),
        created_bank(name, interest_rate, owner).owner_address == owner.key,
        created_bank(name, interest_rate, owner).name == name,
        created_bank(name, interest_rate, owner).interest_rate == interest_rate,
        created_bank(name, interest_rate, owner).total_balance == 0,
{
}

/// The entry point turns a handler's error into success, except the abort
/// when no program address exists; it passes transfer requests and success
/// through unchanged.
pub proof fn entry_reporting(e: TokenBankError, t: TransferView)
    ensures
        e != TokenBankError::NoBankSolAddress ==> reported(StepView::Done(Err(e))) == StepView::Done(Ok(())),
        reported(StepView::Done(Err(TokenBankError::NoBankSolAddress)))
            == StepView::Done(Err(TokenBankError::NoBankSolAddress)),
        reported(StepView::Done(Ok(()))) == StepView::Done(Ok(())),
        reported(StepView::Transfer(t)) == StepView::Transfer(t),
{
}

/// The overflow conditions under which the program aborts instead of
/// completing: a deposit whose sums do not fit a `u64`, a withdrawal whose
/// payout (amount plus interest) does not fit, a role-based withdrawal whose
/// withdrawn total does not fit; and a well-formed user is one with a known
/// role whose current deposit is at most the total deposited.
pub proof fn overflow_conditions(d: Deposit, w: WithDraw, r: WithdrawRoleBased, amount: u64, user: User)
    ensures
        deposit_fits(d, amount) <==> (d.bank.total_balance + amount <= u64::MAX
            && d.user.deposit_amount_total + amount <= u64::MAX),
        withdraw_payout(w, amount) == amount + spec_interest(amount, w.bank.interest_rate),
        r.user.role == 2 ==> role_amount(r) == r.bank.total_balance / 10,
        r.user.role != 2 && (r.bank.owner_address@ == r.owner.key@ || r.user.role == 1)
            ==> role_amount(r) == r.bank.total_balance,
        user.well_formed() <==> (user.role <= 2 && user.deposit_amount <= user.deposit_amount_total),
        TokenBankError::NoBankSolAddress.is_abort(),
{
}

} // verus!
