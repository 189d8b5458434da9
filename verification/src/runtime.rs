//! What the program asks of the runtime, and the one outside computation it makes.
use vstd::prelude::*;
use crate::config::BANK_SOL_SEED;
use crate::error::TokenBankError;
use crate::state::Address;

verus! {

/// The program address and bump seed that `Pubkey::try_find_program_address`
/// finds for one seed under a program id, or `None` when no bump works.
pub uninterp spec fn program_address(seed: Seq<u8>, program_id: Seq<u8>) -> Option<(Seq<u8>, u8)>;

/// The plain view of what the address search hands back.
pub open spec fn found_view(found: Option<(Address, u8)>) -> Option<(Seq<u8>, u8)> {
    match found {
        Some((key, bump)) => Some((key@, bump)),
        None => None,
    }
}

/// Calls `Pubkey::try_find_program_address` of anchor_lang (from solana_program)
/// with the single seed `seed`. The search is a deterministic function of the
/// seed and the program id, which `program_address` names; nothing more of it
/// is claimed here.
#[verifier::external_body]
fn try_find_program_address(seed: &[u8], program_id: &Address) -> (found: Option<(Address, u8)>)
    ensures
        found_view(found) == program_address(seed@, program_id@),
{
    let id = anchor_lang::prelude::Pubkey::new_from_array(program_id.bytes);
    match anchor_lang::prelude::Pubkey::try_find_program_address(&[seed], &id) {
        Some((key, bump)) => Some((Address { bytes: key.to_bytes() }, bump)),
        None => None,
    }
}

/// The bump seed of the bank's lamport account under `program_id`, if one exists.
pub open spec fn bank_sol_bump(program_id: Seq<u8>) -> Option<u8> {
    match program_address(BANK_SOL_SEED@, program_id) {
        Some((_, bump)) => Some(bump),
        None => None,
    }
}

/// The seeds with which the program signs for its lamport account.
#[derive(Debug, Clone)]
pub struct SignerSeeds {
    pub seed: Vec<u8>,
    pub bump: u8,
}

/// A movement of lamports the program asks the system program to make.
#[derive(Debug, Clone)]
pub struct Transfer {
    pub from: Address,
    pub to: Address,
    pub amount: u64,
    /// Present when the program signs for `from` as its own derived account.
    pub signer: Option<SignerSeeds>,
}

/// The plain content of a transfer request.
pub struct TransferView {
    pub from: Seq<u8>,
    pub to: Seq<u8>,
    pub amount: u64,
    pub signer: Option<(Seq<u8>, u8)>,
}

impl View for Transfer {
    type V = TransferView;

    open spec fn view(&self) -> TransferView {
        TransferView {
            from: self.from@,
            to: self.to@,
            amount: self.amount,
            signer: match self.signer {
                Some(s) => Some((s.seed@, s.bump)),
                None => None,
            },
        }
    }
}

/// Where an instruction that moves lamports stands when it is called.
#[derive(Debug, Clone, Copy, PartialEq, Eq, Structural)]
pub enum Progress {
    /// Nothing has been moved yet.
    Begin,
    /// The transfer the instruction asked for was made.
    TransferSucceeded,
    /// The transfer the instruction asked for was refused.
    TransferFailed,
}

/// What an instruction that moves lamports asks for next.
#[derive(Debug)]
pub enum Step {
    /// Make this transfer, then call the instruction again with its outcome.
    Transfer(Transfer),
    /// The instruction has finished.
    Done(Result<(), TokenBankError>),
}

/// The plain content of a step.
pub enum StepView {
    Transfer(TransferView),
    Done(Result<(), TokenBankError>),
}

impl View for Step {
    type V = StepView;

    open spec fn view(&self) -> StepView {
        match self {
            Step::Transfer(t) => StepView::Transfer(t@),
            Step::Done(r) => StepView::Done(*r),
        }
    }
}

/// The transfer out of the bank's lamport account to `to`, signed with the
/// bank account's seeds under `program_id`; `None` when no bump exists.
pub open spec fn spec_bank_sol_payout(from: Seq<u8>, to: Seq<u8>, amount: u64, program_id: Seq<u8>) -> Result<TransferView, TokenBankError> {
    match bank_sol_bump(program_id) {
        Some(bump) => Ok(TransferView { from, to, amount, signer: Some((BANK_SOL_SEED@, bump)) }),
        None => Err(TokenBankError::NoBankSolAddress),
    }
}

/// Builds the transfer of `amount` lamports out of the bank's lamport account
/// `from` to `to`, with the signer seeds of that account under `program_id`.
pub fn bank_sol_payout(from: Address, to: Address, amount: u64, program_id: &Address) -> (t: Result<Transfer, TokenBankError>)
    ensures
        match t {
            Ok(t) => spec_bank_sol_payout(from@, to@, amount, program_id@) == Ok::<TransferView, TokenBankError>(t@),
            Err(e) => spec_bank_sol_payout(from@, to@, amount, program_id@) == Err::<TransferView, TokenBankError>(e),
        },
{
    let seed = BANK_SOL_SEED.as_slice();
    match try_find_program_address(seed, program_id) {
        Some((_, bump)) => {
            let seed_vec = vstd::slice::slice_to_vec(seed);
            Ok(Transfer { from, to, amount, signer: Some(SignerSeeds { seed: seed_vec, bump }) })
        },
        None => Err(TokenBankError::NoBankSolAddress),
    }
}

} // verus!
