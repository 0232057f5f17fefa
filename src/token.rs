//! Token accounts: their layout, the well-known program identities, and the
//! associated-account check.
use vstd::prelude::*;

use crate::address::{found_program_address, seeds_view, try_find_program_address, Address};
use crate::errors::CandyGuardError;

verus! {

/// The fields of a token account that the guards read.
#[derive(Clone, Copy, Debug)]
pub struct TokenAccount {
    pub mint: Address,
    pub owner: Address,
    pub amount: u64,
    pub is_frozen: bool,
}

/// Size of a packed token account.
pub const TOKEN_ACCOUNT_LEN: usize = 165;

/// The little-endian value of the eight bytes of `d` from `o` on.
pub open spec fn le_u64_at(d: Seq<u8>, o: int) -> int {
    d[o] as int + d[o + 1] as int * 0x100 + d[o + 2] as int * 0x1_0000 + d[o + 3] as int * 0x100_0000
        + d[o + 4] as int * 0x1_0000_0000 + d[o + 5] as int * 0x100_0000_0000
        + d[o + 6] as int * 0x1_0000_0000_0000 + d[o + 7] as int * 0x100_0000_0000_0000
}

/// Whether the four bytes from `o` on are a valid optional-value tag
/// (`0` for absent, `1` for present, little-endian).
pub open spec fn option_tag_ok(d: Seq<u8>, o: int) -> bool {
    (d[o] == 0u8 || d[o] == 1u8) && d[o + 1] == 0u8 && d[o + 2] == 0u8 && d[o + 3] == 0u8
}

/// Whether `d` is a packed, initialized token account: the right length,
/// valid optional tags for delegate, native amount and close authority, and
/// a state byte of initialized (1) or frozen (2).
pub open spec fn is_token_account(d: Seq<u8>) -> bool {
    &&& d.len() == 165
    &&& option_tag_ok(d, 72)
    &&& option_tag_ok(d, 109)
    &&& option_tag_ok(d, 129)
    &&& (d[108] == 1u8 || d[108] == 2u8)
}

/// The fields that a packed token account holds.
pub open spec fn token_account_of(d: Seq<u8>) -> (Seq<u8>, Seq<u8>, int, bool) {
    (d.subrange(0, 32), d.subrange(32, 64), le_u64_at(d, 64), d[108] == 2u8)
}

/// Relies on `spl_token::state::Account::unpack`: it accepts exactly the
/// packed initialized accounts and reads mint, owner, amount and the frozen
/// state from their fixed offsets.
#[verifier::external_body]
fn unpack_token_account(data: &Vec<u8>) -> (r: Option<TokenAccount>)
    ensures
        r is Some <==> is_token_account(data@),
        r matches Some(t) ==> token_account_of(data@) == (t.mint@, t.owner@, t.amount as int, t.is_frozen),
{
    <spl_token::state::Account as solana_program::program_pack::Pack>::unpack(data.as_slice()).ok().map(|a| TokenAccount {
        mint: Address { bytes: a.mint.to_bytes() },
        owner: Address { bytes: a.owner.to_bytes() },
        amount: a.amount,
        is_frozen: a.is_frozen(),
    })
}

/// Reads a packed token account.
pub fn read_token_account(data: &Vec<u8>) -> (r: Result<TokenAccount, CandyGuardError>)
    ensures
        is_token_account(data@) <==> r is Ok,
        r matches Ok(t) ==> token_account_of(data@) == (t.mint@, t.owner@, t.amount as int, t.is_frozen),
        r matches Err(e) ==> e == CandyGuardError::InvalidAccountData,
{
    match unpack_token_account(data) {
        Some(t) => Ok(t),
        None => Err(CandyGuardError::InvalidAccountData),
    }
}

/// The identity of the token program.
pub open spec fn token_program_id_spec() -> Seq<u8> {
    seq![6u8, 221u8, 246u8, 225u8, 215u8, 101u8, 161u8, 147u8, 217u8, 203u8, 225u8, 70u8, 206u8,
        235u8, 121u8, 172u8, 28u8, 180u8, 133u8, 237u8, 95u8, 91u8, 55u8, 145u8, 58u8, 140u8, 245u8,
        133u8, 126u8, 255u8, 0u8, 169u8]
}

/// The identity of the associated token account program.
pub open spec fn associated_token_program_id_spec() -> Seq<u8> {
    seq![140u8, 151u8, 37u8, 143u8, 78u8, 36u8, 137u8, 241u8, 187u8, 61u8, 16u8, 41u8, 20u8, 142u8,
        13u8, 131u8, 11u8, 90u8, 19u8, 153u8, 218u8, 255u8, 16u8, 132u8, 4u8, 142u8, 123u8, 216u8,
        219u8, 233u8, 248u8, 89u8]
}

pub fn token_program_id() -> (r: Address)
    ensures
        r@ == token_program_id_spec(),
{
    let r = Address {
        bytes: [6u8, 221u8, 246u8, 225u8, 215u8, 101u8, 161u8, 147u8, 217u8, 203u8, 225u8, 70u8,
            206u8, 235u8, 121u8, 172u8, 28u8, 180u8, 133u8, 237u8, 95u8, 91u8, 55u8, 145u8, 58u8,
            140u8, 245u8, 133u8, 126u8, 255u8, 0u8, 169u8],
    };
    assert(r@ =~= token_program_id_spec());
    r
}

pub fn associated_token_program_id() -> (r: Address)
    ensures
        r@ == associated_token_program_id_spec(),
{
    let r = Address {
        bytes: [140u8, 151u8, 37u8, 143u8, 78u8, 36u8, 137u8, 241u8, 187u8, 61u8, 16u8, 41u8, 20u8,
            142u8, 13u8, 131u8, 11u8, 90u8, 19u8, 153u8, 218u8, 255u8, 16u8, 132u8, 4u8, 142u8,
            123u8, 216u8, 219u8, 233u8, 248u8, 89u8],
    };
    assert(r@ =~= associated_token_program_id_spec());
    r
}

/// The associated token account of `wallet` for `mint`, if one exists.
pub open spec fn associated_address(wallet: Seq<u8>, mint: Seq<u8>) -> Option<Seq<u8>> {
    match found_program_address(
        seq![wallet, token_program_id_spec(), mint],
        associated_token_program_id_spec(),
    ) {
        Some((a, _)) => Some(a),
        None => None,
    }
}

/// Computes the associated token account of `wallet` for `mint`.
pub fn find_associated_address(wallet: &Address, mint: &Address) -> (r: Option<Address>)
    ensures
        match r {
            Some(a) => associated_address(wallet@, mint@) == Some(a@),
            None => associated_address(wallet@, mint@) is None,
        },
{
    let token_program = token_program_id();
    let mut seeds: Vec<Vec<u8>> = Vec::new();
    seeds.push(wallet.to_vec());
    seeds.push(token_program.to_vec());
    seeds.push(mint.to_vec());
    assert(seeds_view(seeds@) =~= seq![wallet@, token_program_id_spec(), mint@]);
    let program = associated_token_program_id();
    match try_find_program_address(&seeds, &program) {
        Some((a, _)) => Some(a),
        None => None,
    }
}

/// An account as handed to a guard: identity, owning program, signature and
/// data.
#[derive(Clone, Debug)]
pub struct AccountInfo {
    pub key: Address,
    pub owner: Address,
    pub is_signer: bool,
    pub data: Vec<u8>,
}

/// The error, if any, of checking that `account` is the associated token
/// account of `wallet` for `mint`.
pub open spec fn ata_error(account: AccountInfo, wallet: Seq<u8>, mint: Seq<u8>) -> Option<CandyGuardError> {
    if account.owner@ != token_program_id_spec() {
        Some(CandyGuardError::IncorrectOwner)
    } else if !is_token_account(account.data@) {
        Some(CandyGuardError::InvalidAccountData)
    } else if token_account_of(account.data@).1 != wallet || token_account_of(account.data@).0 != mint {
        Some(CandyGuardError::PublicKeyMismatch)
    } else {
        match associated_address(wallet, mint) {
            Some(a) => if a == account.key@ {
                None
            } else {
                Some(CandyGuardError::PublicKeyMismatch)
            },
            None => Some(CandyGuardError::NoViableProgramAddress),
        }
    }
}

/// Checks that `account` is the associated token account of `wallet` for
/// `mint`, and returns its contents.
pub fn assert_is_ata(account: &AccountInfo, wallet: &Address, mint: &Address) -> (r: Result<
    TokenAccount,
    CandyGuardError,
>)
    ensures
        match ata_error(*account, wallet@, mint@) {
            Some(e) => r == Err::<TokenAccount, CandyGuardError>(e),
            None => r matches Ok(t) && token_account_of(account.data@) == (
                t.mint@,
                t.owner@,
                t.amount as int,
                t.is_frozen,
            ),
        },
{
    let token_program = token_program_id();
    if !account.owner.same_as(&token_program) {
        return Err(CandyGuardError::IncorrectOwner);
    }
    let token = read_token_account(&account.data)?;
    if !token.owner.same_as(wallet) || !token.mint.same_as(mint) {
        return Err(CandyGuardError::PublicKeyMismatch);
    }
    match find_associated_address(wallet, mint) {
        Some(a) => {
            if a.same_as(&account.key) {
                Ok(token)
            } else {
                Err(CandyGuardError::PublicKeyMismatch)
            }
        },
        None => Err(CandyGuardError::NoViableProgramAddress),
    }
}

} // verus!
