//! The per-transaction evaluation state that guards share: the accounts
//! handed to the mint, a cursor over them, and the positions each guard
//! recorded for its later phases.
use vstd::prelude::*;

use crate::address::Address;
use crate::errors::CandyGuardError;
use crate::token::AccountInfo;

verus! {

/// The fixed accounts of a mint transaction that the guards read.
#[derive(Clone, Copy, Debug)]
pub struct MintAccounts {
    /// The program that owns the escrow records.
    pub program_id: Address,
    pub candy_guard: Address,
    pub candy_machine: Address,
    pub payer: Address,
    /// Balance of the payer, in lamports.
    pub payer_lamports: u64,
    pub nft_mint: Address,
}

/// Positions in the trailing accounts that a guard recorded during
/// validation, keyed by guard type.
#[derive(Clone, Copy, Debug, PartialEq, Eq, Structural)]
pub struct GuardIndices {
    pub freeze_sol_payment: Option<usize>,
    pub nft_payment: Option<usize>,
    pub token_burn: Option<usize>,
}

/// The state that the guards of one transaction share.
#[derive(Clone, Copy, Debug, PartialEq, Eq, Structural)]
pub struct EvaluationContext {
    /// Position of the next trailing account that no guard has consumed.
    pub account_cursor: usize,
    pub indices: GuardIndices,
}

impl EvaluationContext {
    /// A context at the start of a transaction.
    pub fn new() -> (r: EvaluationContext)
        ensures
            r.account_cursor == 0,
            r.indices == (GuardIndices { freeze_sol_payment: None, nft_payment: None, token_burn: None }),
    {
        EvaluationContext {
            account_cursor: 0,
            indices: GuardIndices { freeze_sol_payment: None, nft_payment: None, token_burn: None },
        }
    }
}

impl EvaluationContext {
    /// The context with the cursor moved past `n` more accounts.
    pub open spec fn advanced(self, n: int) -> EvaluationContext {
        EvaluationContext { account_cursor: (self.account_cursor + n) as usize, ..self }
    }
}

/// The trailing account at `index`.
pub fn try_get_account_info(accounts: &Vec<AccountInfo>, index: usize) -> (r: Result<
    &AccountInfo,
    CandyGuardError,
>)
    ensures
        index < accounts.len() ==> (r matches Ok(a) && *a == accounts@[index as int]),
        index >= accounts.len() ==> r == Err::<&AccountInfo, CandyGuardError>(
            CandyGuardError::MissingRemainingAccount,
        ),
{
    if index < accounts.len() {
        Ok(&accounts[index])
    } else {
        Err(CandyGuardError::MissingRemainingAccount)
    }
}

} // verus!
