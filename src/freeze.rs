//! The freeze payment guard: its configuration, the out-of-band escrow
//! instructions (initialize, thaw, unlock funds) and the lock that follows a
//! mint.
use vstd::prelude::*;

use crate::address::Address;
use crate::context::{try_get_account_info, EvaluationContext, GuardIndices, MintAccounts};
use crate::errors::CandyGuardError;
use crate::escrow::{
    assert_escrow_address, escrow_address, signed_by, CandyMachineSupply, FreezeEscrow, Signer,
    MAX_FREEZE_TIME,
};
use crate::token::{
    assert_is_ata, ata_error, is_token_account, le_u64_at, read_token_account, token_account_of,
    AccountInfo,
};

verus! {

/// Guard that charges an amount in lamports for the mint and locks the
/// minted asset for a period.
#[derive(Clone, Copy, Debug)]
pub struct FreezeSolPayment {
    pub lamports: u64,
    pub destination: Address,
}

/// The escrow instructions, selected by the leading byte of the payload.
#[derive(Clone, Copy, Debug, PartialEq, Eq, Structural)]
pub enum FreezeInstruction {
    Initialize,
    Thaw,
    UnlockFunds,
}

/// The identities an escrow instruction runs against.
#[derive(Clone, Copy, Debug)]
pub struct RouteAccounts {
    /// The program that owns the escrow records.
    pub program_id: Address,
    pub candy_guard: Address,
    pub candy_machine: Address,
    pub payer: Address,
}

/// What an escrow instruction knows of the configuration that routes it.
#[derive(Clone, Copy, Debug)]
pub struct RouteContext {
    /// The authority of the candy guard, when its account exists.
    pub candy_guard_authority: Option<Address>,
    /// The supply of the candy machine, when its account exists.
    pub candy_machine: Option<CandyMachineSupply>,
    /// The freeze payment guard of the guard set, when it is enabled.
    pub freeze_guard: Option<FreezeSolPayment>,
}

/// The side effects of a successful thaw.
#[derive(Clone, Copy, Debug, PartialEq, Eq, Structural)]
pub struct ThawAction {
    /// Lift the custody restriction on the token account.
    pub thaw: bool,
    /// Revoke the escrow's delegation over the token account.
    pub revoke: bool,
    /// Bump seed of the escrow address, to sign as the escrow.
    pub bump: u8,
}

impl FreezeSolPayment {
    /// Size of the serialized configuration: lamports and destination.
    pub fn size() -> (r: usize)
        ensures
            r == 40,
    {
        8 + 32
    }
}

/// The opcode that a payload selects, if any.
pub open spec fn instruction_of(data: Seq<u8>) -> Option<FreezeInstruction> {
    if data.len() == 0 {
        None
    } else if data[0] == 0u8 {
        Some(FreezeInstruction::Initialize)
    } else if data[0] == 1u8 {
        Some(FreezeInstruction::Thaw)
    } else if data[0] == 2u8 {
        Some(FreezeInstruction::UnlockFunds)
    } else {
        None
    }
}

impl FreezeInstruction {
    /// Decodes the leading opcode byte of an escrow instruction payload.
    pub fn from_data(data: &Vec<u8>) -> (r: Result<FreezeInstruction, CandyGuardError>)
        ensures
            match instruction_of(data@) {
                Some(i) => r == Ok::<FreezeInstruction, CandyGuardError>(i),
                None => r == Err::<FreezeInstruction, CandyGuardError>(
                    CandyGuardError::MissingFreezeInstruction,
                ),
            },
    {
        if data.len() == 0 {
            return Err(CandyGuardError::MissingFreezeInstruction);
        }
        let op = data[0];
        if op == 0 {
            Ok(FreezeInstruction::Initialize)
        } else if op == 1 {
            Ok(FreezeInstruction::Thaw)
        } else if op == 2 {
            Ok(FreezeInstruction::UnlockFunds)
        } else {
            Err(CandyGuardError::MissingFreezeInstruction)
        }
    }
}

/// The signed little-endian value of the eight bytes of `d` from `o` on.
pub open spec fn le_i64_at(d: Seq<u8>, o: int) -> int {
    if le_u64_at(d, o) < 0x8000_0000_0000_0000 {
        le_u64_at(d, o)
    } else {
        le_u64_at(d, o) - 0x1_0000_0000_0000_0000
    }
}

/// The lock period that an initialize payload carries after its opcode.
pub open spec fn period_of(data: Seq<u8>) -> Option<int> {
    if data.len() < 9 {
        None
    } else {
        Some(le_i64_at(data, 1))
    }
}

/// Reads the lock period, a little-endian `i64` in bytes 1 to 8 of the
/// payload.
pub fn read_freeze_period(data: &Vec<u8>) -> (r: Result<i64, CandyGuardError>)
    ensures
        match period_of(data@) {
            Some(p) => r matches Ok(v) && v as int == p,
            None => r == Err::<i64, CandyGuardError>(CandyGuardError::MissingFreezePeriod),
        },
{
    if data.len() < 9 {
        return Err(CandyGuardError::MissingFreezePeriod);
    }
    let u: u64 = data[1] as u64 + data[2] as u64 * 0x100 + data[3] as u64 * 0x1_0000 + data[4] as u64
        * 0x100_0000 + data[5] as u64 * 0x1_0000_0000 + data[6] as u64 * 0x100_0000_0000
        + data[7] as u64 * 0x1_0000_0000_0000 + data[8] as u64 * 0x100_0000_0000_0000;
    if u < 0x8000_0000_0000_0000 {
        Ok(u as i64)
    } else {
        let high: u64 = u - 0x8000_0000_0000_0000;
        Ok(high as i64 + i64::MIN)
    }
}

/// The destination that an initialize instruction takes from the route.
pub open spec fn route_destination(route: RouteContext) -> Result<Address, CandyGuardError> {
    if route.candy_guard_authority is None || route.candy_machine is None {
        Err(CandyGuardError::Uninitialized)
    } else {
        match route.freeze_guard {
            Some(g) => Ok(g.destination),
            None => Err(CandyGuardError::FreezeGuardNotEnabled),
        }
    }
}

/// The destination of the freeze guard that an initialize instruction
/// configures; the route must hold the candy guard, the candy machine and an
/// enabled freeze guard.
pub fn initialize_destination(route: &RouteContext) -> (r: Result<Address, CandyGuardError>)
    ensures
        r == route_destination(*route),
{
    if route.candy_guard_authority.is_none() || route.candy_machine.is_none() {
        return Err(CandyGuardError::Uninitialized);
    }
    match route.freeze_guard {
        Some(g) => Ok(g.destination),
        None => Err(CandyGuardError::FreezeGuardNotEnabled),
    }
}

/// The handler that an escrow instruction goes to; an initialize carries the
/// destination of the enabled freeze guard.
#[derive(Clone, Copy, Debug)]
pub enum FreezeStep {
    Initialize(Address),
    Thaw,
    UnlockFunds,
}

/// Where an escrow instruction with payload `data` goes under `route`.
pub open spec fn step_of(route: RouteContext, data: Seq<u8>) -> Result<FreezeStep, CandyGuardError> {
    match instruction_of(data) {
        None => Err(CandyGuardError::MissingFreezeInstruction),
        Some(FreezeInstruction::Initialize) => match route_destination(route) {
            Ok(d) => Ok(FreezeStep::Initialize(d)),
            Err(e) => Err(e),
        },
        Some(FreezeInstruction::Thaw) => Ok(FreezeStep::Thaw),
        Some(FreezeInstruction::UnlockFunds) => Ok(FreezeStep::UnlockFunds),
    }
}

impl FreezeSolPayment {
    /// Dispatches an escrow instruction on its leading opcode byte. An
    /// initialize needs the candy guard, the candy machine and an enabled
    /// freeze guard, whose destination it configures.
    pub fn instruction(route: &RouteContext, data: &Vec<u8>) -> (r: Result<FreezeStep, CandyGuardError>)
        ensures
            r == step_of(*route, data@),
    {
        match FreezeInstruction::from_data(data)? {
            FreezeInstruction::Initialize => {
                let destination = initialize_destination(route)?;
                Ok(FreezeStep::Initialize(destination))
            },
            FreezeInstruction::Thaw => Ok(FreezeStep::Thaw),
            FreezeInstruction::UnlockFunds => Ok(FreezeStep::UnlockFunds),
        }
    }
}

/// The identity of the system program: 32 zero bytes.
pub open spec fn system_program_id_spec() -> Seq<u8> {
    Seq::new(32, |i: int| 0u8)
}

pub fn system_program_id() -> (r: Address)
    ensures
        r@ == system_program_id_spec(),
{
    let r = Address { bytes: [0u8; 32] };
    assert(r@ =~= system_program_id_spec());
    r
}

/// The error, if any, of an initialize instruction.
pub open spec fn initialize_error(
    accounts: RouteAccounts,
    guard_authority: Option<Address>,
    destination: Address,
    escrow_key: Address,
    exists: bool,
    authority: Signer,
    system_program: Address,
    data: Seq<u8>,
) -> Option<CandyGuardError> {
    match escrow_address(accounts.program_id@, destination@, accounts.candy_guard@, accounts.candy_machine@) {
        None => Some(CandyGuardError::NoViableProgramAddress),
        Some((a, _)) => if a != escrow_key@ {
            Some(CandyGuardError::PublicKeyMismatch)
        } else {
            match guard_authority {
                None => Some(CandyGuardError::Uninitialized),
                Some(g) => if !signed_by(authority, g) {
                    Some(CandyGuardError::MissingRequiredSignature)
                } else if exists {
                    Some(CandyGuardError::FreezeEscrowAlreadyExists)
                } else if system_program@ != system_program_id_spec() {
                    Some(CandyGuardError::PublicKeyMismatch)
                } else {
                    match period_of(data) {
                        None => Some(CandyGuardError::MissingFreezePeriod),
                        Some(p) => if p > MAX_FREEZE_TIME {
                            Some(CandyGuardError::ExceededMaximumFreezePeriod)
                        } else {
                            None
                        },
                    }
                },
            }
        },
    }
}

/// Initializes the escrow record at `escrow_key`, the escrow address of
/// `(destination, candy guard, candy machine)`. `escrow` is what that address
/// holds. The signer must be the candy guard's authority, the address must
/// hold no record, `system_program` must be the system program, and the
/// payload must carry a lock period of at most the
/// maximum. Returns the bump of the escrow address.
pub fn initialize_freeze(
    escrow: &mut Option<FreezeEscrow>,
    accounts: &RouteAccounts,
    guard_authority: &Option<Address>,
    destination: &Address,
    escrow_key: &Address,
    authority: &Signer,
    system_program: &Address,
    data: &Vec<u8>,
) -> (r: Result<u8, CandyGuardError>)
    ensures
        match initialize_error(
            *accounts,
            *guard_authority,
            *destination,
            *escrow_key,
            old(escrow).is_some(),
            *authority,
            *system_program,
            data@,
        ) {
            Some(e) => r == Err::<u8, CandyGuardError>(e) && *final(escrow) == *old(escrow),
            None => r matches Ok(b) && escrow_address(
                accounts.program_id@,
                destination@,
                accounts.candy_guard@,
                accounts.candy_machine@,
            ) == Some((escrow_key@, b)) && *final(escrow) == Some(
                FreezeEscrow::initialized(
                    accounts.candy_guard,
                    accounts.candy_machine,
                    None,
                    period_of(data@)->Some_0 as i64,
                    *destination,
                    authority.key,
                ),
            ),
        },
{
    let bump = assert_escrow_address(
        escrow_key,
        &accounts.program_id,
        destination,
        &accounts.candy_guard,
        &accounts.candy_machine,
    )?;
    match guard_authority {
        None => {
            return Err(CandyGuardError::Uninitialized);
        },
        Some(g) => {
            if !(authority.key.same_as(g) && authority.is_signer) {
                return Err(CandyGuardError::MissingRequiredSignature);
            }
        },
    }
    if escrow.is_some() {
        return Err(CandyGuardError::FreezeEscrowAlreadyExists);
    }
    if !system_program.same_as(&system_program_id()) {
        return Err(CandyGuardError::PublicKeyMismatch);
    }
    let freeze_period = read_freeze_period(data)?;
    if freeze_period > MAX_FREEZE_TIME {
        return Err(CandyGuardError::ExceededMaximumFreezePeriod);
    }
    let mut record = FreezeEscrow {
        candy_guard: accounts.candy_guard,
        candy_machine: accounts.candy_machine,
        frozen_count: 0,
        first_mint_time: None,
        freeze_period: 0,
        destination: *destination,
        authority: authority.key,
    };
    record.init(
        accounts.candy_guard,
        accounts.candy_machine,
        None,
        freeze_period,
        *destination,
        authority.key,
    );
    *escrow = Some(record);
    Ok(bump)
}

/// The error, if any, of a thaw instruction.
pub open spec fn thaw_error(
    escrow: Option<FreezeEscrow>,
    accounts: RouteAccounts,
    candy_machine: Option<CandyMachineSupply>,
    escrow_key: Address,
    nft_mint: Address,
    nft_owner: Address,
    token_data: Seq<u8>,
    now: i64,
) -> Option<CandyGuardError> {
    match escrow {
        None => Some(CandyGuardError::FreezeNotInitialized),
        Some(e) => if candy_machine matches Some(cm) && !e.thaw_allowed(cm, now) {
            Some(CandyGuardError::ThawNotEnabled)
        } else if !is_token_account(token_data) {
            Some(CandyGuardError::InvalidAccountData)
        } else if token_account_of(token_data).0 != nft_mint@ || token_account_of(token_data).1
            != nft_owner@ {
            Some(CandyGuardError::PublicKeyMismatch)
        } else {
            match escrow_address(
                accounts.program_id@,
                e.destination@,
                accounts.candy_guard@,
                accounts.candy_machine@,
            ) {
                None => Some(CandyGuardError::NoViableProgramAddress),
                Some((a, _)) => if a != escrow_key@ {
                    Some(CandyGuardError::PublicKeyMismatch)
                } else {
                    None
                },
            }
        },
    }
}

/// Thaws one asset. Allowed once the campaign has sold out, or once the lock
/// period has run out since the first lock; without a candy machine it is
/// always allowed. A frozen token account is thawed and counted as released;
/// one that is not frozen is left as it is. The delegation is revoked when
/// the payer owns the asset.
pub fn thaw_nft(
    escrow: &mut Option<FreezeEscrow>,
    accounts: &RouteAccounts,
    candy_machine: &Option<CandyMachineSupply>,
    escrow_key: &Address,
    nft_mint: &Address,
    nft_owner: &Address,
    token_data: &Vec<u8>,
    current_timestamp: i64,
) -> (r: Result<ThawAction, CandyGuardError>)
    ensures
        match thaw_error(
            *old(escrow),
            *accounts,
            *candy_machine,
            *escrow_key,
            *nft_mint,
            *nft_owner,
            token_data@,
            current_timestamp,
        ) {
            Some(e) => r == Err::<ThawAction, CandyGuardError>(e) && *final(escrow) == *old(escrow),
            None => r matches Ok(act) && act.thaw == token_account_of(token_data@).3 && act.revoke
                == (accounts.payer@ == nft_owner@) && escrow_address(
                accounts.program_id@,
                old(escrow)->Some_0.destination@,
                accounts.candy_guard@,
                accounts.candy_machine@,
            ) == Some((escrow_key@, act.bump)) && *final(escrow) == Some(
                if act.thaw {
                    old(escrow)->Some_0.released()
                } else {
                    old(escrow)->Some_0
                },
            ),
        },
{
    let mut record = match escrow {
        Some(e) => *e,
        None => {
            return Err(CandyGuardError::FreezeNotInitialized);
        },
    };
    if let Some(cm) = candy_machine {
        if !record.is_thaw_allowed(cm, current_timestamp) {
            return Err(CandyGuardError::ThawNotEnabled);
        }
    }
    let token = read_token_account(token_data)?;
    if !nft_mint.same_as(&token.mint) || !nft_owner.same_as(&token.owner) {
        return Err(CandyGuardError::PublicKeyMismatch);
    }
    let bump = assert_escrow_address(
        escrow_key,
        &accounts.program_id,
        &record.destination,
        &accounts.candy_guard,
        &accounts.candy_machine,
    )?;
    if token.is_frozen {
        record.record_release();
    }
    let revoke = accounts.payer.same_as(nft_owner);
    *escrow = Some(record);
    Ok(ThawAction { thaw: token.is_frozen, revoke, bump })
}

/// The error, if any, of an unlock instruction.
pub open spec fn unlock_error(
    escrow: Option<FreezeEscrow>,
    accounts: RouteAccounts,
    guard_authority: Option<Address>,
    escrow_key: Address,
    authority: Signer,
    destination: Address,
) -> Option<CandyGuardError> {
    match escrow {
        None => Some(CandyGuardError::FreezeNotInitialized),
        Some(e) => match escrow_address(
            accounts.program_id@,
            e.destination@,
            accounts.candy_guard@,
            accounts.candy_machine@,
        ) {
            None => Some(CandyGuardError::NoViableProgramAddress),
            Some((a, _)) => if a != escrow_key@ {
                Some(CandyGuardError::PublicKeyMismatch)
            } else if e.frozen_count > 0 {
                Some(CandyGuardError::UnlockNotEnabled)
            } else if !signed_by(
                authority,
                match guard_authority {
                    Some(g) => g,
                    None => e.authority,
                },
            ) {
                Some(CandyGuardError::MissingRequiredSignature)
            } else if destination@ != e.destination@ {
                Some(CandyGuardError::PublicKeyMismatch)
            } else {
                None
            },
        },
    }
}

/// Unlocks the funds: once no asset is locked, the record is closed and its
/// balance goes to `destination`. While any asset is locked it fails with
/// `UnlockNotEnabled`, whoever signs. The signer must be the candy guard's
/// authority, or the escrow's own authority when the candy guard is gone.
pub fn unlock_funds(
    escrow: &mut Option<FreezeEscrow>,
    accounts: &RouteAccounts,
    guard_authority: &Option<Address>,
    escrow_key: &Address,
    authority: &Signer,
    destination: &Address,
) -> (r: Result<(), CandyGuardError>)
    ensures
        match unlock_error(*old(escrow), *accounts, *guard_authority, *escrow_key, *authority, *destination) {
            Some(e) => r == Err::<(), CandyGuardError>(e) && *final(escrow) == *old(escrow),
            None => r is Ok && *final(escrow) == None::<FreezeEscrow>,
        },
{
    let record = match escrow {
        Some(e) => *e,
        None => {
            return Err(CandyGuardError::FreezeNotInitialized);
        },
    };
    assert_escrow_address(
        escrow_key,
        &accounts.program_id,
        &record.destination,
        &accounts.candy_guard,
        &accounts.candy_machine,
    )?;
    if record.frozen_count > 0 {
        return Err(CandyGuardError::UnlockNotEnabled);
    }
    let authority_check = match guard_authority {
        Some(g) => *g,
        None => record.authority,
    };
    if !(authority.key.same_as(&authority_check) && authority.is_signer) {
        return Err(CandyGuardError::MissingRequiredSignature);
    }
    if !destination.same_as(&record.destination) {
        return Err(CandyGuardError::PublicKeyMismatch);
    }
    *escrow = None;
    Ok(())
}

/// The accounts that lock a freshly minted asset.
#[derive(Clone, Copy, Debug)]
pub struct FreezeAction {
    /// The escrow, which becomes the asset's delegate and freezes it.
    pub escrow: Address,
    /// The token account of the minted asset.
    pub nft_account: Address,
    /// Bump seed of the escrow address, to sign as the escrow.
    pub bump: u8,
    /// Number of units the escrow is approved as delegate for.
    pub amount: u64,
}

/// A transfer of lamports.
#[derive(Clone, Copy, Debug)]
pub struct Transfer {
    pub from: Address,
    pub to: Address,
    pub lamports: u64,
}

/// The error, if any, of locking the asset whose escrow sits at
/// `account_index` of the trailing accounts and whose token account follows
/// it.
pub open spec fn freeze_error(
    escrow: Option<FreezeEscrow>,
    mint: MintAccounts,
    accounts: Seq<AccountInfo>,
    account_index: usize,
    destination: Address,
) -> Option<CandyGuardError> {
    if account_index >= accounts.len() {
        Some(CandyGuardError::MissingRemainingAccount)
    } else if escrow is None {
        Some(CandyGuardError::FreezeNotInitialized)
    } else if escrow->Some_0.frozen_count == u64::MAX {
        Some(CandyGuardError::NumericalOverflowError)
    } else if escrow_address(mint.program_id@, destination@, mint.candy_guard@, mint.candy_machine@) is None {
        Some(CandyGuardError::NoViableProgramAddress)
    } else if account_index + 1 >= accounts.len() {
        Some(CandyGuardError::MissingRemainingAccount)
    } else {
        None
    }
}

/// Locks a freshly minted asset: the escrow counts one more locked asset and
/// records the time of the first lock. Returns the accounts for the delegate
/// approval and the freeze.
pub fn freeze_nft(
    escrow: &mut Option<FreezeEscrow>,
    mint: &MintAccounts,
    accounts: &Vec<AccountInfo>,
    account_index: usize,
    destination: &Address,
    current_timestamp: i64,
) -> (r: Result<FreezeAction, CandyGuardError>)
    ensures
        match freeze_error(*old(escrow), *mint, accounts@, account_index, *destination) {
            Some(e) => r == Err::<FreezeAction, CandyGuardError>(e) && *final(escrow) == *old(escrow),
            None => r matches Ok(act) && act.amount == 1 && act.escrow == accounts@[account_index as int].key
                && act.nft_account == accounts@[account_index + 1].key && escrow_address(
                mint.program_id@,
                destination@,
                mint.candy_guard@,
                mint.candy_machine@,
            )->Some_0.1 == act.bump && *final(escrow) == Some(
                old(escrow)->Some_0.locked(current_timestamp),
            ),
        },
{
    let escrow_account = try_get_account_info(accounts, account_index)?;
    let mut record = match escrow {
        Some(e) => *e,
        None => {
            return Err(CandyGuardError::FreezeNotInitialized);
        },
    };
    if record.frozen_count == u64::MAX {
        return Err(CandyGuardError::NumericalOverflowError);
    }
    let bump = match crate::escrow::find_escrow_address(
        &mint.program_id,
        destination,
        &mint.candy_guard,
        &mint.candy_machine,
    ) {
        Some((_, b)) => b,
        None => {
            return Err(CandyGuardError::NoViableProgramAddress);
        },
    };
    let nft_account = try_get_account_info(accounts, account_index + 1)?;
    record.record_lock(current_timestamp);
    *escrow = Some(record);
    Ok(FreezeAction { escrow: escrow_account.key, nft_account: nft_account.key, bump, amount: 1 })
}

impl FreezeSolPayment {
    /// The error, if any, of validating this guard for a mint.
    pub open spec fn validate_error(
        self,
        mint: MintAccounts,
        accounts: Seq<AccountInfo>,
        cursor: usize,
    ) -> Option<CandyGuardError> {
        let i = cursor as int;
        if i >= accounts.len() {
            Some(CandyGuardError::MissingRemainingAccount)
        } else {
            match escrow_address(mint.program_id@, self.destination@, mint.candy_guard@, mint.candy_machine@) {
                None => Some(CandyGuardError::NoViableProgramAddress),
                Some((a, _)) => if a != accounts[i].key@ {
                    Some(CandyGuardError::PublicKeyMismatch)
                } else if accounts[i].data@.len() == 0 {
                    Some(CandyGuardError::FreezeNotInitialized)
                } else if i + 1 >= accounts.len() {
                    Some(CandyGuardError::MissingRemainingAccount)
                } else if ata_error(accounts[i + 1], mint.payer@, mint.nft_mint@) is Some {
                    ata_error(accounts[i + 1], mint.payer@, mint.nft_mint@)
                } else if mint.payer_lamports < self.lamports {
                    Some(CandyGuardError::NotEnoughSOL)
                } else {
                    None
                },
            }
        }
    }

    /// The evaluation context after validation: the cursor passes each
    /// account that was read, and the escrow's position is recorded once the
    /// token account has passed its check.
    pub open spec fn validate_context(
        self,
        mint: MintAccounts,
        accounts: Seq<AccountInfo>,
        ctx: EvaluationContext,
    ) -> EvaluationContext {
        let i = ctx.account_cursor as int;
        if i >= accounts.len() {
            ctx
        } else if escrow_address(mint.program_id@, self.destination@, mint.candy_guard@, mint.candy_machine@)
            matches Some((a, _)) && a == accounts[i].key@ && accounts[i].data@.len() != 0 && i + 1
            < accounts.len() {
            if ata_error(accounts[i + 1], mint.payer@, mint.nft_mint@) is Some {
                ctx.advanced(2)
            } else {
                EvaluationContext {
                    account_cursor: (i + 2) as usize,
                    indices: GuardIndices { freeze_sol_payment: Some(ctx.account_cursor), ..ctx.indices },
                }
            }
        } else {
            ctx.advanced(1)
        }
    }

    /// Checks, without side effects, that the escrow at the cursor is this
    /// guard's initialized escrow, that the next account is the payer's token
    /// account for the minted asset, and that the payer can pay. Consumes
    /// both accounts and records the escrow's position.
    pub fn validate(
        &self,
        mint: &MintAccounts,
        accounts: &Vec<AccountInfo>,
        evaluation_context: &mut EvaluationContext,
    ) -> (r: Result<(), CandyGuardError>)
        ensures
            match self.validate_error(*mint, accounts@, old(evaluation_context).account_cursor) {
                Some(e) => r == Err::<(), CandyGuardError>(e),
                None => r is Ok,
            },
            *final(evaluation_context) == self.validate_context(*mint, accounts@, *old(evaluation_context)),
    {
        let index = evaluation_context.account_cursor;
        let escrow_account = try_get_account_info(accounts, index)?;
        evaluation_context.account_cursor = index + 1;
        assert_escrow_address(
            &escrow_account.key,
            &mint.program_id,
            &self.destination,
            &mint.candy_guard,
            &mint.candy_machine,
        )?;
        if escrow_account.data.len() == 0 {
            return Err(CandyGuardError::FreezeNotInitialized);
        }
        let nft_account = try_get_account_info(accounts, index + 1)?;
        evaluation_context.account_cursor = index + 2;
        assert_is_ata(nft_account, &mint.payer, &mint.nft_mint)?;
        evaluation_context.indices.freeze_sol_payment = Some(index);
        if mint.payer_lamports < self.lamports {
            return Err(CandyGuardError::NotEnoughSOL);
        }
        Ok(())
    }

    /// Moves the payment from the payer to the escrow recorded by
    /// validation.
    pub fn pre_actions(
        &self,
        mint: &MintAccounts,
        accounts: &Vec<AccountInfo>,
        evaluation_context: &EvaluationContext,
    ) -> (r: Result<Transfer, CandyGuardError>)
        requires
            evaluation_context.indices.freeze_sol_payment is Some,
        ensures
            ({
                let i = evaluation_context.indices.freeze_sol_payment->Some_0;
                if i < accounts.len() {
                    r matches Ok(t) && t.from == mint.payer && t.to == accounts@[i as int].key
                        && t.lamports == self.lamports
                } else {
                    r == Err::<Transfer, CandyGuardError>(CandyGuardError::MissingRemainingAccount)
                }
            }),
    {
        let index = match evaluation_context.indices.freeze_sol_payment {
            Some(i) => i,
            None => 0,
        };
        let escrow_account = try_get_account_info(accounts, index)?;
        Ok(Transfer { from: mint.payer, to: escrow_account.key, lamports: self.lamports })
    }

    /// Locks the freshly minted asset under the escrow recorded by
    /// validation.
    pub fn post_actions(
        &self,
        escrow: &mut Option<FreezeEscrow>,
        mint: &MintAccounts,
        accounts: &Vec<AccountInfo>,
        evaluation_context: &EvaluationContext,
        current_timestamp: i64,
    ) -> (r: Result<FreezeAction, CandyGuardError>)
        requires
            evaluation_context.indices.freeze_sol_payment is Some,
        ensures
            ({
                let i = evaluation_context.indices.freeze_sol_payment->Some_0;
                match freeze_error(*old(escrow), *mint, accounts@, i, self.destination) {
                    Some(e) => r == Err::<FreezeAction, CandyGuardError>(e) && *final(escrow) == *old(
                        escrow,
                    ),
                    None => r matches Ok(act) && act.amount == 1 && act.escrow == accounts@[i as int].key
                        && act.nft_account == accounts@[i + 1].key && escrow_address(
                        mint.program_id@,
                        self.destination@,
                        mint.candy_guard@,
                        mint.candy_machine@,
                    )->Some_0.1 == act.bump && *final(escrow) == Some(
                        old(escrow)->Some_0.locked(current_timestamp),
                    ),
                }
            }),
    {
        let index = match evaluation_context.indices.freeze_sol_payment {
            Some(i) => i,
            None => 0,
        };
        freeze_nft(escrow, mint, accounts, index, &self.destination, current_timestamp)
    }
}

} // verus!
