//! Properties of the escrow lifecycle, stated over the specifications that
//! the escrow operations satisfy.
use vstd::prelude::*;

use crate::address::Address;
use crate::errors::CandyGuardError;
use crate::escrow::{escrow_address, signed_by, CandyMachineSupply, FreezeEscrow, Signer, MAX_FREEZE_TIME};
use crate::freeze::{initialize_error, period_of, system_program_id_spec, thaw_error, unlock_error, RouteAccounts};
use crate::token::{is_token_account, token_account_of};

verus! {

/// The record after a lock at each of `times`, in order.
pub open spec fn after_locks(e: FreezeEscrow, times: Seq<i64>) -> FreezeEscrow
    decreases times.len(),
{
    if times.len() == 0 {
        e
    } else {
        after_locks(e, times.drop_last()).locked(times.last())
    }
}

/// The record after `m` releases.
pub open spec fn after_releases(e: FreezeEscrow, m: nat) -> FreezeEscrow
    decreases m,
{
    if m == 0 {
        e
    } else {
        after_releases(e, (m - 1) as nat).released()
    }
}

/// A successful initialize leaves a record with no locked asset, no first
/// lock time and a lock period within the maximum; a second initialize of
/// the same triple by the authority then fails because the record exists.
pub proof fn initialize_then_reinitialize(
    accounts: RouteAccounts,
    guard_authority: Option<Address>,
    destination: Address,
    escrow_key: Address,
    authority: Signer,
    system_program: Address,
    data: Seq<u8>,
    second_authority: Signer,
    second_system_program: Address,
    second_data: Seq<u8>,
)
    requires
        initialize_error(accounts, guard_authority, destination, escrow_key, false, authority, system_program, data)
            is None,
        signed_by(second_authority, guard_authority->Some_0),
    ensures
        ({
            let r = FreezeEscrow::initialized(
                accounts.candy_guard,
                accounts.candy_machine,
                None,
                period_of(data)->Some_0 as i64,
                destination,
                authority.key,
            );
            r.frozen_count == 0 && r.first_mint_time is None && r.freeze_period <= MAX_FREEZE_TIME
        }),
        initialize_error(
            accounts,
            guard_authority,
            destination,
            escrow_key,
            true,
            second_authority,
            second_system_program,
            second_data,
        ) == Some(CandyGuardError::FreezeEscrowAlreadyExists),
{
}

/// A lock period over the maximum is rejected by every initialize that
/// passes the address, signature, existence and system program checks.
pub proof fn initialize_rejects_long_period(
    accounts: RouteAccounts,
    guard_authority: Option<Address>,
    destination: Address,
    escrow_key: Address,
    authority: Signer,
    system_program: Address,
    data: Seq<u8>,
)
    requires
        escrow_address(accounts.program_id@, destination@, accounts.candy_guard@, accounts.candy_machine@)
            matches Some((a, _)) && a == escrow_key@,
        guard_authority is Some,
        signed_by(authority, guard_authority->Some_0),
        system_program@ == system_program_id_spec(),
        period_of(data) matches Some(p) && p > MAX_FREEZE_TIME,
    ensures
        initialize_error(accounts, guard_authority, destination, escrow_key, false, authority, system_program, data)
            == Some(CandyGuardError::ExceededMaximumFreezePeriod),
{
}

/// After `n` locks the count has grown by `n`.
pub proof fn locks_add_up(e: FreezeEscrow, times: Seq<i64>)
    requires
        e.frozen_count + times.len() <= u64::MAX,
    ensures
        after_locks(e, times).frozen_count == e.frozen_count + times.len(),
    decreases times.len(),
{
    if times.len() > 0 {
        locks_add_up(e, times.drop_last());
    }
}

/// After `m` releases the count has dropped by `m`, and stops at zero.
pub proof fn releases_saturate(e: FreezeEscrow, m: nat)
    ensures
        after_releases(e, m).frozen_count == if e.frozen_count >= m {
            e.frozen_count - m
        } else {
            0
        },
    decreases m,
{
    if m > 0 {
        releases_saturate(e, (m - 1) as nat);
    }
}

/// From an empty record, `n` locks followed by `m` releases leave `n - m`
/// locked assets when `m <= n`, and none when `m > n`.
pub proof fn locks_then_releases(e: FreezeEscrow, times: Seq<i64>, m: nat)
    requires
        e.frozen_count == 0,
        times.len() <= u64::MAX,
    ensures
        after_releases(after_locks(e, times), m).frozen_count == if m <= times.len() {
            times.len() - m
        } else {
            0
        },
{
    locks_add_up(e, times);
    releases_saturate(after_locks(e, times), m);
}

/// The first lock records its time, later locks and releases keep it.
pub proof fn first_lock_time_is_kept(e: FreezeEscrow, times: Seq<i64>, m: nat)
    requires
        e.first_mint_time is None,
        times.len() > 0,
    ensures
        after_locks(e, times).first_mint_time == Some(times[0]),
        after_releases(after_locks(e, times), m).first_mint_time == Some(times[0]),
    decreases times.len(),
{
    let prev = times.drop_last();
    if times.len() > 1 {
        first_lock_time_is_kept(e, prev, 0);
        assert(prev[0] == times[0]);
    } else {
        assert(prev.len() == 0);
        assert(after_locks(e, prev) == e);
    }
    assert(after_locks(e, times) == after_locks(e, prev).locked(times.last()));
    releases_keep_time(after_locks(e, times), m);
}

/// Releases leave the first lock time as it is.
pub proof fn releases_keep_time(e: FreezeEscrow, m: nat)
    ensures
        after_releases(e, m).first_mint_time == e.first_mint_time,
    decreases m,
{
    if m > 0 {
        releases_keep_time(e, (m - 1) as nat);
    }
}

/// Before the campaign sells out and before the lock period has run out
/// since the first lock, a thaw fails with `ThawNotEnabled`.
pub proof fn thaw_too_early(
    e: FreezeEscrow,
    accounts: RouteAccounts,
    cm: CandyMachineSupply,
    escrow_key: Address,
    nft_mint: Address,
    nft_owner: Address,
    token_data: Seq<u8>,
    now: i64,
)
    requires
        !cm.sold_out(),
        e.first_mint_time matches Some(t) ==> (now as int) < t as int + e.freeze_period as int,
    ensures
        thaw_error(Some(e), accounts, Some(cm), escrow_key, nft_mint, nft_owner, token_data, now)
            == Some(CandyGuardError::ThawNotEnabled),
{
}

/// Once the campaign has sold out, or at and after the end of the lock
/// period, a thaw of a matching token account at the escrow address
/// succeeds.
pub proof fn thaw_when_allowed(
    e: FreezeEscrow,
    accounts: RouteAccounts,
    cm: CandyMachineSupply,
    escrow_key: Address,
    nft_mint: Address,
    nft_owner: Address,
    token_data: Seq<u8>,
    now: i64,
)
    requires
        cm.sold_out() || (e.first_mint_time matches Some(t) && now as int >= t as int
            + e.freeze_period as int),
        is_token_account(token_data),
        token_account_of(token_data).0 == nft_mint@,
        token_account_of(token_data).1 == nft_owner@,
        escrow_address(accounts.program_id@, e.destination@, accounts.candy_guard@, accounts.candy_machine@)
            matches Some((a, _)) && a == escrow_key@,
    ensures
        thaw_error(Some(e), accounts, Some(cm), escrow_key, nft_mint, nft_owner, token_data, now)
            is None,
{
}

/// With an asset still locked, an unlock at the escrow address fails with
/// `UnlockNotEnabled`, whoever signs; with none locked, the right signer and
/// the recorded destination, it succeeds.
pub proof fn unlock_needs_no_locked_asset(
    e: FreezeEscrow,
    accounts: RouteAccounts,
    guard_authority: Option<Address>,
    escrow_key: Address,
    authority: Signer,
    destination: Address,
)
    requires
        escrow_address(accounts.program_id@, e.destination@, accounts.candy_guard@, accounts.candy_machine@)
            matches Some((a, _)) && a == escrow_key@,
    ensures
        e.frozen_count > 0 ==> unlock_error(Some(e), accounts, guard_authority, escrow_key, authority, destination)
            == Some(CandyGuardError::UnlockNotEnabled),
        e.frozen_count == 0 && destination@ == e.destination@ && signed_by(
            authority,
            match guard_authority {
                Some(g) => g,
                None => e.authority,
            },
        ) ==> unlock_error(Some(e), accounts, guard_authority, escrow_key, authority, destination)
            is None,
{
}

} // verus!
