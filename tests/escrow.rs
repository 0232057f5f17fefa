use candy_guard::address::Address;
use candy_guard::errors::CandyGuardError;
use candy_guard::escrow::{
    assert_escrow_address, find_escrow_address, CandyMachineSupply, FreezeEscrow, Signer,
    MAX_FREEZE_TIME,
};
use candy_guard::freeze::{
    initialize_destination, initialize_freeze, read_freeze_period, system_program_id, thaw_nft, unlock_funds,
    FreezeInstruction, FreezeSolPayment, FreezeStep, RouteAccounts, RouteContext,
};
use candy_guard::token::{read_token_account, token_program_id, associated_token_program_id};
use solana_program::program_pack::Pack;
use solana_program::pubkey::Pubkey;

fn key(b: u8) -> Address {
    Address::new([b; 32])
}

fn accounts() -> RouteAccounts {
    RouteAccounts { program_id: key(7), candy_guard: key(1), candy_machine: key(2), payer: key(3) }
}

fn owner_key() -> Address {
    key(3)
}

fn escrow_key(destination: &Address) -> Address {
    let a = accounts();
    find_escrow_address(&a.program_id, destination, &a.candy_guard, &a.candy_machine).unwrap().0
}

fn signer(k: Address) -> Signer {
    Signer { key: k, is_signer: true }
}

fn init_data(period: i64) -> Vec<u8> {
    let mut d = vec![0u8];
    d.extend_from_slice(&period.to_le_bytes());
    d
}

fn token_data(mint: &Address, owner: &Address, frozen: bool) -> Vec<u8> {
    let account = spl_token::state::Account {
        mint: Pubkey::new_from_array(mint.bytes),
        owner: Pubkey::new_from_array(owner.bytes),
        amount: 1,
        state: if frozen {
            spl_token::state::AccountState::Frozen
        } else {
            spl_token::state::AccountState::Initialized
        },
        ..Default::default()
    };
    let mut data = vec![0u8; spl_token::state::Account::LEN];
    spl_token::state::Account::pack(account, &mut data).unwrap();
    data
}

fn initialized(period: i64) -> (Option<FreezeEscrow>, Address) {
    let destination = key(9);
    let ek = escrow_key(&destination);
    let mut slot = None;
    let r = initialize_freeze(&mut slot, &accounts(), &Some(key(4)), &destination, &ek, &signer(key(4)), &system_program_id(), &init_data(period));
    assert!(r.is_ok());
    (slot, ek)
}

fn lock(slot: &mut Option<FreezeEscrow>, now: i64) {
    let mut e = slot.unwrap();
    e.record_lock(now);
    *slot = Some(e);
}

#[test]
fn escrow_address_matches_ledger_derivation() {
    let destination = key(9);
    let a = accounts();
    let (addr, bump) = find_escrow_address(&a.program_id, &destination, &a.candy_guard, &a.candy_machine).unwrap();
    let (expected, expected_bump) = Pubkey::find_program_address(
        &[b"freeze_escrow", &destination.bytes, &a.candy_guard.bytes, &a.candy_machine.bytes],
        &Pubkey::new_from_array(a.program_id.bytes),
    );
    assert_eq!(addr.bytes, expected.to_bytes());
    assert_eq!(bump, expected_bump);
    assert_eq!(assert_escrow_address(&addr, &a.program_id, &destination, &a.candy_guard, &a.candy_machine), Ok(bump));
    assert_eq!(
        assert_escrow_address(&key(5), &a.program_id, &destination, &a.candy_guard, &a.candy_machine),
        Err(CandyGuardError::PublicKeyMismatch)
    );
}

#[test]
fn program_ids_match_token_crates() {
    assert_eq!(token_program_id().bytes, spl_token::ID.to_bytes());
    assert_eq!(associated_token_program_id().bytes, spl_associated_token_account::ID.to_bytes());
}

#[test]
fn token_account_is_read_from_its_layout() {
    let data = token_data(&key(5), &key(6), true);
    let t = read_token_account(&data).unwrap();
    assert_eq!(t.mint, key(5));
    assert_eq!(t.owner, key(6));
    assert_eq!(t.amount, 1);
    assert!(t.is_frozen);
    assert_eq!(read_token_account(&vec![0u8; 10]).err(), Some(CandyGuardError::InvalidAccountData));
    assert_eq!(read_token_account(&vec![0u8; 165]).err(), Some(CandyGuardError::InvalidAccountData));
}

#[test]
fn instruction_opcodes() {
    assert_eq!(FreezeInstruction::from_data(&vec![0u8]), Ok(FreezeInstruction::Initialize));
    assert_eq!(FreezeInstruction::from_data(&vec![1u8, 5]), Ok(FreezeInstruction::Thaw));
    assert_eq!(FreezeInstruction::from_data(&vec![2u8]), Ok(FreezeInstruction::UnlockFunds));
    assert_eq!(FreezeInstruction::from_data(&vec![3u8]), Err(CandyGuardError::MissingFreezeInstruction));
    assert_eq!(FreezeInstruction::from_data(&vec![]), Err(CandyGuardError::MissingFreezeInstruction));
}

#[test]
fn freeze_period_is_little_endian() {
    assert_eq!(read_freeze_period(&init_data(86400)), Ok(86400));
    assert_eq!(read_freeze_period(&init_data(-2)), Ok(-2));
    assert_eq!(read_freeze_period(&init_data(i64::MIN)), Ok(i64::MIN));
    assert_eq!(read_freeze_period(&vec![0u8, 1, 2]), Err(CandyGuardError::MissingFreezePeriod));
}

#[test]
fn initialize_destination_needs_route() {
    let guard = FreezeSolPayment { lamports: 5, destination: key(9) };
    let full = RouteContext {
        candy_guard_authority: Some(key(4)),
        candy_machine: Some(CandyMachineSupply { items_redeemed: 0, items_available: 10 }),
        freeze_guard: Some(guard),
    };
    assert_eq!(initialize_destination(&full), Ok(key(9)));
    let no_guard = RouteContext { freeze_guard: None, ..full };
    assert_eq!(initialize_destination(&no_guard), Err(CandyGuardError::FreezeGuardNotEnabled));
    let no_machine = RouteContext { candy_machine: None, ..full };
    assert_eq!(initialize_destination(&no_machine), Err(CandyGuardError::Uninitialized));
}

#[test]
fn initialize_starts_empty_and_is_not_repeatable() {
    let (mut slot, ek) = initialized(86400);
    let e = slot.unwrap();
    assert_eq!(e.frozen_count, 0);
    assert_eq!(e.first_mint_time, None);
    assert_eq!(e.freeze_period, 86400);
    assert_eq!(e.destination, key(9));
    assert_eq!(e.authority, key(4));
    let r = initialize_freeze(&mut slot, &accounts(), &Some(key(4)), &key(9), &ek, &signer(key(4)), &system_program_id(), &init_data(10));
    assert_eq!(r, Err(CandyGuardError::FreezeEscrowAlreadyExists));
    assert_eq!(slot.unwrap().freeze_period, 86400);
}

#[test]
fn initialize_errors() {
    let destination = key(9);
    let ek = escrow_key(&destination);
    let a = accounts();
    let mut slot = None;
    assert_eq!(
        initialize_freeze(&mut slot, &a, &Some(key(4)), &destination, &ek, &signer(key(4)), &system_program_id(), &init_data(MAX_FREEZE_TIME + 1)),
        Err(CandyGuardError::ExceededMaximumFreezePeriod)
    );
    assert_eq!(
        initialize_freeze(&mut slot, &a, &Some(key(4)), &destination, &ek, &signer(key(4)), &system_program_id(), &vec![0u8, 1]),
        Err(CandyGuardError::MissingFreezePeriod)
    );
    assert_eq!(
        initialize_freeze(&mut slot, &a, &Some(key(4)), &destination, &ek, &Signer { key: key(4), is_signer: false }, &system_program_id(), &init_data(1)),
        Err(CandyGuardError::MissingRequiredSignature)
    );
    assert_eq!(
        initialize_freeze(&mut slot, &a, &None, &destination, &ek, &signer(key(4)), &system_program_id(), &init_data(1)),
        Err(CandyGuardError::Uninitialized)
    );
    assert_eq!(
        initialize_freeze(&mut slot, &a, &Some(key(4)), &destination, &key(8), &signer(key(4)), &system_program_id(), &init_data(1)),
        Err(CandyGuardError::PublicKeyMismatch)
    );
    assert!(slot.is_none());
    assert!(initialize_freeze(&mut slot, &a, &Some(key(4)), &destination, &ek, &signer(key(4)), &system_program_id(), &init_data(MAX_FREEZE_TIME)).is_ok());
}

#[test]
fn lock_counts_and_keeps_first_time() {
    let (mut slot, _) = initialized(100);
    lock(&mut slot, 1000);
    lock(&mut slot, 1500);
    lock(&mut slot, 2500);
    let e = slot.unwrap();
    assert_eq!(e.frozen_count, 3);
    assert_eq!(e.first_mint_time, Some(1000));
}

#[test]
fn releases_saturate_at_zero() {
    let (mut slot, _) = initialized(100);
    lock(&mut slot, 1000);
    lock(&mut slot, 1000);
    let mut e = slot.unwrap();
    e.record_release();
    assert_eq!(e.frozen_count, 1);
    e.record_release();
    e.record_release();
    assert_eq!(e.frozen_count, 0);
    assert_eq!(e.first_mint_time, Some(1000));
}

#[test]
fn thaw_allowed_rules() {
    let (mut slot, _) = initialized(100);
    let open = CandyMachineSupply { items_redeemed: 1, items_available: 5 };
    let sold_out = CandyMachineSupply { items_redeemed: 5, items_available: 5 };
    assert!(!slot.unwrap().is_thaw_allowed(&open, 5000));
    assert!(slot.unwrap().is_thaw_allowed(&sold_out, 0));
    lock(&mut slot, 1000);
    let e = slot.unwrap();
    assert!(!e.is_thaw_allowed(&open, 1099));
    assert!(e.is_thaw_allowed(&open, 1100));
    assert!(e.is_thaw_allowed(&sold_out, 1000));
}

#[test]
fn thaw_and_unlock_scenario() {
    let (mut slot, ek) = initialized(86400);
    lock(&mut slot, 1000);
    assert_eq!(slot.unwrap().first_mint_time, Some(1000));
    assert_eq!(slot.unwrap().frozen_count, 1);
    let a = accounts();
    let cm = Some(CandyMachineSupply { items_redeemed: 1, items_available: 10 });
    let nft_mint = key(5);
    let data = token_data(&nft_mint, &owner_key(), true);
    let early = thaw_nft(&mut slot, &a, &cm, &ek, &nft_mint, &owner_key(), &data, 2000);
    assert_eq!(early, Err(CandyGuardError::ThawNotEnabled));
    assert_eq!(slot.unwrap().frozen_count, 1);
    let unlock_early = unlock_funds(&mut slot, &a, &Some(key(4)), &ek, &signer(key(4)), &key(9));
    assert_eq!(unlock_early, Err(CandyGuardError::UnlockNotEnabled));
    let act = thaw_nft(&mut slot, &a, &cm, &ek, &nft_mint, &owner_key(), &data, 87401).unwrap();
    assert!(act.thaw);
    assert!(act.revoke);
    assert_eq!(slot.unwrap().frozen_count, 0);
    let r = unlock_funds(&mut slot, &a, &Some(key(4)), &ek, &signer(key(4)), &key(9));
    assert_eq!(r, Ok(()));
    assert!(slot.is_none());
}

#[test]
fn thaw_of_unfrozen_account_changes_nothing() {
    let (mut slot, ek) = initialized(0);
    lock(&mut slot, 10);
    let a = accounts();
    let data = token_data(&key(5), &key(6), false);
    let act = thaw_nft(&mut slot, &a, &None, &ek, &key(5), &key(6), &data, 10).unwrap();
    assert!(!act.thaw);
    assert!(!act.revoke);
    assert_eq!(slot.unwrap().frozen_count, 1);
}

#[test]
fn thaw_errors() {
    let (mut slot, ek) = initialized(0);
    lock(&mut slot, 10);
    let a = accounts();
    let data = token_data(&key(5), &key(6), true);
    assert_eq!(
        thaw_nft(&mut slot, &a, &None, &ek, &key(8), &key(6), &data, 10),
        Err(CandyGuardError::PublicKeyMismatch)
    );
    assert_eq!(
        thaw_nft(&mut slot, &a, &None, &key(8), &key(5), &key(6), &data, 10),
        Err(CandyGuardError::PublicKeyMismatch)
    );
    assert_eq!(
        thaw_nft(&mut slot, &a, &None, &ek, &key(5), &key(6), &vec![1u8; 4], 10),
        Err(CandyGuardError::InvalidAccountData)
    );
    let mut empty = None;
    assert_eq!(
        thaw_nft(&mut empty, &a, &None, &ek, &key(5), &key(6), &data, 10),
        Err(CandyGuardError::FreezeNotInitialized)
    );
    assert_eq!(slot.unwrap().frozen_count, 1);
}

#[test]
fn unlock_errors_and_fallback_authority() {
    let (mut slot, ek) = initialized(0);
    let a = accounts();
    assert_eq!(
        unlock_funds(&mut slot, &a, &Some(key(4)), &ek, &signer(key(6)), &key(9)),
        Err(CandyGuardError::MissingRequiredSignature)
    );
    assert_eq!(
        unlock_funds(&mut slot, &a, &Some(key(4)), &ek, &signer(key(4)), &key(6)),
        Err(CandyGuardError::PublicKeyMismatch)
    );
    assert_eq!(
        unlock_funds(&mut slot, &a, &Some(key(4)), &key(8), &signer(key(4)), &key(9)),
        Err(CandyGuardError::PublicKeyMismatch)
    );
    assert!(slot.is_some());
    assert_eq!(unlock_funds(&mut slot, &a, &None, &ek, &signer(key(4)), &key(9)), Ok(()));
    assert!(slot.is_none());
    assert_eq!(
        unlock_funds(&mut slot, &a, &None, &ek, &signer(key(4)), &key(9)),
        Err(CandyGuardError::FreezeNotInitialized)
    );
}

#[test]
fn instruction_dispatch() {
    let guard = FreezeSolPayment { lamports: 5, destination: key(9) };
    let route = RouteContext {
        candy_guard_authority: Some(key(4)),
        candy_machine: Some(CandyMachineSupply { items_redeemed: 0, items_available: 10 }),
        freeze_guard: Some(guard),
    };
    assert!(matches!(FreezeSolPayment::instruction(&route, &init_data(5)), Ok(FreezeStep::Initialize(d)) if d == key(9)));
    assert!(matches!(FreezeSolPayment::instruction(&route, &vec![1u8]), Ok(FreezeStep::Thaw)));
    assert!(matches!(FreezeSolPayment::instruction(&route, &vec![2u8]), Ok(FreezeStep::UnlockFunds)));
    assert!(matches!(FreezeSolPayment::instruction(&route, &vec![9u8]), Err(CandyGuardError::MissingFreezeInstruction)));
    let no_guard = RouteContext { candy_guard_authority: None, ..route };
    assert!(matches!(FreezeSolPayment::instruction(&no_guard, &vec![0u8]), Err(CandyGuardError::Uninitialized)));
    assert!(matches!(FreezeSolPayment::instruction(&no_guard, &vec![1u8]), Ok(FreezeStep::Thaw)));
}

#[test]
fn initialize_needs_system_program() {
    let destination = key(9);
    let ek = escrow_key(&destination);
    let mut slot = None;
    assert_eq!(
        initialize_freeze(&mut slot, &accounts(), &Some(key(4)), &destination, &ek, &signer(key(4)), &key(1), &init_data(1)),
        Err(CandyGuardError::PublicKeyMismatch)
    );
    assert!(slot.is_none());
    assert_eq!(system_program_id().bytes, solana_program::system_program::ID.to_bytes());
}

#[test]
fn unlock_with_locked_asset_fails_whoever_signs() {
    let (mut slot, ek) = initialized(0);
    lock(&mut slot, 10);
    let a = accounts();
    assert_eq!(
        unlock_funds(&mut slot, &a, &Some(key(4)), &ek, &signer(key(6)), &key(9)),
        Err(CandyGuardError::UnlockNotEnabled)
    );
    assert_eq!(
        unlock_funds(&mut slot, &a, &Some(key(4)), &ek, &Signer { key: key(4), is_signer: false }, &key(9)),
        Err(CandyGuardError::UnlockNotEnabled)
    );
    assert_eq!(slot.unwrap().frozen_count, 1);
}
