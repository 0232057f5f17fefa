//! The guards that gate a mint on token holdings and take a token or an NFT
//! as payment.
use vstd::prelude::*;

use crate::address::Address;
use crate::context::{try_get_account_info, EvaluationContext, GuardIndices, MintAccounts};
use crate::errors::CandyGuardError;
use crate::token::{
    assert_is_ata, associated_address, ata_error, find_associated_address, token_account_of,
    AccountInfo,
};

verus! {

/// Guard that restricts the mint to holders of an amount of a token.
#[derive(Clone, Copy, Debug)]
pub struct TokenGate {
    pub amount: u64,
    pub mint: Address,
}

/// Guard that requires an amount of a token and burns it.
#[derive(Clone, Copy, Debug)]
pub struct TokenBurn {
    pub amount: u64,
    pub mint: Address,
}

/// Guard that takes an NFT of a collection as payment.
#[derive(Clone, Copy, Debug)]
pub struct NftPayment {
    pub required_collection: Address,
    pub destination: Address,
}

/// The accounts of a token burn.
#[derive(Clone, Copy, Debug)]
pub struct BurnAction {
    pub source: Address,
    pub mint: Address,
    pub amount: u64,
}

/// The accounts of an NFT payment: the NFT moves from `source` to
/// `destination_account`, the destination's associated token account, which
/// is created first.
#[derive(Clone, Copy, Debug)]
pub struct NftTransferAction {
    pub source: Address,
    pub mint: Address,
    pub destination: Address,
    pub destination_account: Address,
    /// Number of tokens moved: a single NFT.
    pub amount: u64,
}

/// The mint that a token-metadata account records, if its data decodes as
/// a metadata account.
pub uninterp spec fn metadata_mint_of(data: Seq<u8>) -> Option<Seq<u8>>;

/// Relies on `mpl_token_metadata::accounts::Metadata::from_bytes`: a borsh
/// decoding whose result depends on the data alone; the mint follows the
/// one-byte key and the 32-byte update authority.
#[verifier::external_body]
fn read_metadata_mint(data: &Vec<u8>) -> (r: Option<Address>)
    ensures
        match r {
            Some(m) => metadata_mint_of(data@) == Some(m@) && m@ == data@.subrange(33, 65),
            None => metadata_mint_of(data@) is None,
        },
{
    mpl_token_metadata::accounts::Metadata::from_bytes(data.as_slice())
        .ok()
        .map(|m| Address { bytes: m.mint.to_bytes() })
}

/// The amount that a token account held by the payer carries, when the
/// account passes the associated-account check.
pub open spec fn held_amount(account: AccountInfo) -> int {
    token_account_of(account.data@).2
}

impl TokenGate {
    /// Size of the serialized configuration: amount and mint.
    pub fn size() -> (r: usize)
        ensures
            r == 40,
    {
        8 + 32
    }

    pub open spec fn validate_error(self, mint: MintAccounts, accounts: Seq<AccountInfo>, cursor: usize) -> Option<
        CandyGuardError,
    > {
        let i = cursor as int;
        if i >= accounts.len() {
            Some(CandyGuardError::MissingRemainingAccount)
        } else if ata_error(accounts[i], mint.payer@, self.mint@) is Some {
            ata_error(accounts[i], mint.payer@, self.mint@)
        } else if held_amount(accounts[i]) < self.amount {
            Some(CandyGuardError::NotEnoughTokens)
        } else {
            None
        }
    }

    /// Checks that the account at the cursor is the payer's token account
    /// for the required mint and holds at least the amount. Consumes it.
    pub fn validate(
        &self,
        mint: &MintAccounts,
        accounts: &Vec<AccountInfo>,
        evaluation_context: &mut EvaluationContext,
    ) -> (r: Result<(), CandyGuardError>)
        ensures
            match self.validate_error(*mint, accounts@, old(evaluation_context).account_cursor) {
                Some(e) => r == Err::<(), CandyGuardError>(e),
                None => r is Ok,
            },
            old(evaluation_context).account_cursor < accounts.len() ==> *final(evaluation_context)
                == old(evaluation_context).advanced(1),
            old(evaluation_context).account_cursor >= accounts.len() ==> *final(evaluation_context)
                == *old(evaluation_context),
    {
        let index = evaluation_context.account_cursor;
        let account = try_get_account_info(accounts, index)?;
        evaluation_context.account_cursor = index + 1;
        let token = assert_is_ata(account, &mint.payer, &self.mint)?;
        if token.amount < self.amount {
            return Err(CandyGuardError::NotEnoughTokens);
        }
        Ok(())
    }
}

impl TokenBurn {
    /// Size of the serialized configuration: amount and mint.
    pub fn size() -> (r: usize)
        ensures
            r == 40,
    {
        8 + 32
    }

    pub open spec fn validate_error(self, mint: MintAccounts, accounts: Seq<AccountInfo>, cursor: usize) -> Option<
        CandyGuardError,
    > {
        let i = cursor as int;
        if i >= accounts.len() {
            Some(CandyGuardError::MissingRemainingAccount)
        } else if ata_error(accounts[i], mint.payer@, self.mint@) is Some {
            ata_error(accounts[i], mint.payer@, self.mint@)
        } else if held_amount(accounts[i]) < self.amount {
            Some(CandyGuardError::NotEnoughTokens)
        } else if i + 1 >= accounts.len() {
            Some(CandyGuardError::MissingRemainingAccount)
        } else if accounts[i + 1].key@ != self.mint@ {
            Some(CandyGuardError::PublicKeyMismatch)
        } else {
            None
        }
    }

    /// The evaluation context after validation: the cursor passes each
    /// account that was read, and the position is recorded on success.
    pub open spec fn validate_context(self, mint: MintAccounts, accounts: Seq<AccountInfo>, ctx: EvaluationContext) -> EvaluationContext {
        let i = ctx.account_cursor as int;
        if i >= accounts.len() {
            ctx
        } else if ata_error(accounts[i], mint.payer@, self.mint@) is Some || held_amount(accounts[i])
            < self.amount || i + 1 >= accounts.len() {
            ctx.advanced(1)
        } else if accounts[i + 1].key@ != self.mint@ {
            ctx.advanced(2)
        } else {
            EvaluationContext {
                account_cursor: (i + 2) as usize,
                indices: GuardIndices { token_burn: Some(ctx.account_cursor), ..ctx.indices },
            }
        }
    }

    /// Checks that the account at the cursor is the payer's token account
    /// for the mint, holds at least the amount, and that the next account is
    /// the mint. Consumes both and records the position.
    pub fn validate(
        &self,
        mint: &MintAccounts,
        accounts: &Vec<AccountInfo>,
        evaluation_context: &mut EvaluationContext,
    ) -> (r: Result<(), CandyGuardError>)
        ensures
            match self.validate_error(*mint, accounts@, old(evaluation_context).account_cursor) {
                Some(e) => r == Err::<(), CandyGuardError>(e),
                None => r is Ok,
            },
            *final(evaluation_context) == self.validate_context(*mint, accounts@, *old(evaluation_context)),
    {
        let index = evaluation_context.account_cursor;
        let account = try_get_account_info(accounts, index)?;
        evaluation_context.account_cursor = index + 1;
        let token = assert_is_ata(account, &mint.payer, &self.mint)?;
        if token.amount >= self.amount {
            let mint_account = try_get_account_info(accounts, index + 1)?;
            evaluation_context.account_cursor = index + 2;
            if !mint_account.key.same_as(&self.mint) {
                return Err(CandyGuardError::PublicKeyMismatch);
            }
        } else {
            return Err(CandyGuardError::NotEnoughTokens);
        }
        evaluation_context.indices.token_burn = Some(index);
        Ok(())
    }

    /// Burns the amount from the token account recorded by validation.
    pub fn pre_actions(&self, accounts: &Vec<AccountInfo>, evaluation_context: &EvaluationContext) -> (r: Result<
        BurnAction,
        CandyGuardError,
    >)
        requires
            evaluation_context.indices.token_burn is Some,
        ensures
            ({
                let i = evaluation_context.indices.token_burn->Some_0;
                if i + 1 < accounts.len() {
                    r matches Ok(b) && b.source == accounts@[i as int].key && b.mint == accounts@[i + 1].key
                        && b.amount == self.amount
                } else {
                    r == Err::<BurnAction, CandyGuardError>(CandyGuardError::MissingRemainingAccount)
                }
            }),
    {
        let index = match evaluation_context.indices.token_burn {
            Some(i) => i,
            None => 0,
        };
        let account = try_get_account_info(accounts, index)?;
        let mint_account = try_get_account_info(accounts, index + 1)?;
        Ok(BurnAction { source: account.key, mint: mint_account.key, amount: self.amount })
    }
}

impl NftPayment {
    /// Size of the serialized configuration: collection and destination.
    pub fn size() -> (r: usize)
        ensures
            r == 64,
    {
        32 + 32
    }

    /// The error, if any, of validation; `collection_check` is the outcome of
    /// the collection-membership check of the NFT.
    pub open spec fn validate_error(
        self,
        accounts: Seq<AccountInfo>,
        cursor: usize,
        collection_check: Result<(), CandyGuardError>,
    ) -> Option<CandyGuardError> {
        let i = cursor as int;
        if i + 2 >= accounts.len() {
            Some(CandyGuardError::MissingRemainingAccount)
        } else if collection_check is Err {
            Some(collection_check->Err_0)
        } else if metadata_mint_of(accounts[i + 1].data@) is None {
            Some(CandyGuardError::InvalidAccountData)
        } else if metadata_mint_of(accounts[i + 1].data@) != Some(accounts[i + 2].key@) {
            Some(CandyGuardError::PublicKeyMismatch)
        } else if i + 5 >= accounts.len() {
            Some(CandyGuardError::MissingRemainingAccount)
        } else if accounts[i + 3].key@ != self.destination@ {
            Some(CandyGuardError::PublicKeyMismatch)
        } else {
            match associated_address(accounts[i + 3].key@, accounts[i + 2].key@) {
                None => Some(CandyGuardError::NoViableProgramAddress),
                Some(a) => if a != accounts[i + 4].key@ {
                    Some(CandyGuardError::PublicKeyMismatch)
                } else {
                    None
                },
            }
        }
    }

    /// The evaluation context after validation: the cursor passes each
    /// group of three accounts that was read, and the position is recorded
    /// on success.
    pub open spec fn validate_context(
        self,
        accounts: Seq<AccountInfo>,
        ctx: EvaluationContext,
        collection_check: Result<(), CandyGuardError>,
    ) -> EvaluationContext {
        let i = ctx.account_cursor as int;
        if i + 2 >= accounts.len() {
            ctx
        } else if collection_check is Err || metadata_mint_of(accounts[i + 1].data@) != Some(
            accounts[i + 2].key@,
        ) || i + 5 >= accounts.len() {
            ctx.advanced(3)
        } else if self.validate_error(accounts, ctx.account_cursor, collection_check) is Some {
            ctx.advanced(6)
        } else {
            EvaluationContext {
                account_cursor: (i + 6) as usize,
                indices: GuardIndices { nft_payment: Some(ctx.account_cursor), ..ctx.indices },
            }
        }
    }

    /// Checks the six accounts at the cursor: the NFT's token account,
    /// metadata and mint, the destination, the destination's associated
    /// token account for the NFT, and the associated token program. Consumes
    /// them and records the position.
    pub fn validate(
        &self,
        accounts: &Vec<AccountInfo>,
        evaluation_context: &mut EvaluationContext,
        collection_check: Result<(), CandyGuardError>,
    ) -> (r: Result<(), CandyGuardError>)
        ensures
            match self.validate_error(
                accounts@,
                old(evaluation_context).account_cursor,
                collection_check,
            ) {
                Some(e) => r == Err::<(), CandyGuardError>(e),
                None => r is Ok,
            },
            *final(evaluation_context) == self.validate_context(
                accounts@,
                *old(evaluation_context),
                collection_check,
            ),
    {
        let index = evaluation_context.account_cursor;
        if index >= accounts.len() || accounts.len() - index <= 2 {
            return Err(CandyGuardError::MissingRemainingAccount);
        }
        let nft_metadata = try_get_account_info(accounts, index + 1)?;
        let nft_mint = try_get_account_info(accounts, index + 2)?;
        evaluation_context.account_cursor = index + 3;
        collection_check?;
        match read_metadata_mint(&nft_metadata.data) {
            None => {
                return Err(CandyGuardError::InvalidAccountData);
            },
            Some(m) => {
                if !m.same_as(&nft_mint.key) {
                    return Err(CandyGuardError::PublicKeyMismatch);
                }
            },
        }
        if accounts.len() - index <= 5 {
            return Err(CandyGuardError::MissingRemainingAccount);
        }
        let destination = try_get_account_info(accounts, index + 3)?;
        let destination_account = try_get_account_info(accounts, index + 4)?;
        evaluation_context.account_cursor = index + 6;
        if !destination.key.same_as(&self.destination) {
            return Err(CandyGuardError::PublicKeyMismatch);
        }
        match find_associated_address(&destination.key, &nft_mint.key) {
            Some(a) => {
                if !a.same_as(&destination_account.key) {
                    return Err(CandyGuardError::PublicKeyMismatch);
                }
            },
            None => {
                return Err(CandyGuardError::NoViableProgramAddress);
            },
        }
        evaluation_context.indices.nft_payment = Some(index);
        Ok(())
    }

    /// Moves the NFT recorded by validation to the destination's associated
    /// token account.
    pub fn pre_actions(&self, accounts: &Vec<AccountInfo>, evaluation_context: &EvaluationContext) -> (r: Result<
        NftTransferAction,
        CandyGuardError,
    >)
        requires
            evaluation_context.indices.nft_payment is Some,
        ensures
            ({
                let i = evaluation_context.indices.nft_payment->Some_0;
                if i + 4 < accounts.len() {
                    r matches Ok(t) && t.amount == 1 && t.source == accounts@[i as int].key && t.mint == accounts@[i + 2].key
                        && t.destination == self.destination && t.destination_account == accounts@[i
                        + 4].key
                } else {
                    r == Err::<NftTransferAction, CandyGuardError>(
                        CandyGuardError::MissingRemainingAccount,
                    )
                }
            }),
    {
        let index = match evaluation_context.indices.nft_payment {
            Some(i) => i,
            None => 0,
        };
        if index >= accounts.len() || accounts.len() - index <= 4 {
            return Err(CandyGuardError::MissingRemainingAccount);
        }
        let source = try_get_account_info(accounts, index)?;
        let nft_mint = try_get_account_info(accounts, index + 2)?;
        let destination_account = try_get_account_info(accounts, index + 4)?;
        Ok(
            NftTransferAction {
                source: source.key,
                mint: nft_mint.key,
                destination: self.destination,
                destination_account: destination_account.key,
                amount: 1,
            },
        )
    }
}

} // verus!
