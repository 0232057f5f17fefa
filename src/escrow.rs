//! The freeze escrow record and its lifecycle: initialize, lock, thaw and
//! unlock.
use vstd::prelude::*;

use crate::address::{found_program_address, seeds_view, try_find_program_address, Address};
use crate::errors::CandyGuardError;

verus! {

/// Maximum lock period in seconds (30 days).
pub const MAX_FREEZE_TIME: i64 = 60 * 60 * 24 * 30;

/// Serialized size of an escrow record, discriminator included.
pub const FREEZE_ESCROW_SIZE: usize = 8 + 32 + 32 + 8 + 1 + 8 + 8 + 32 + 32;

/// The supply figures of a candy machine that decide whether a campaign has
/// sold out.
#[derive(Clone, Copy, Debug, PartialEq, Eq, Structural)]
pub struct CandyMachineSupply {
    pub items_redeemed: u64,
    pub items_available: u64,
}

impl CandyMachineSupply {
    pub open spec fn sold_out(self) -> bool {
        self.items_redeemed >= self.items_available
    }
}

/// A signer candidate: an account identity and whether it signed.
#[derive(Clone, Copy, Debug)]
pub struct Signer {
    pub key: Address,
    pub is_signer: bool,
}

/// The record that holds the locked payment and counts the locked assets.
#[derive(Clone, Copy, Debug)]
pub struct FreezeEscrow {
    /// Candy guard address associated with this escrow.
    pub candy_guard: Address,
    /// Candy machine address associated with this escrow.
    pub candy_machine: Address,
    /// Number of assets currently locked.
    pub frozen_count: u64,
    /// Time of the first lock, if any lock has happened.
    pub first_mint_time: Option<i64>,
    /// Lock period in seconds, counted from the first lock.
    pub freeze_period: i64,
    /// Recipient of the funds once unlocked.
    pub destination: Address,
    /// The authority that initialized the escrow; it may unlock the funds
    /// once the candy guard account is gone.
    pub authority: Address,
}

/// The seed prefix of every escrow address: the bytes of `freeze_escrow`.
pub open spec fn prefix_seed() -> Seq<u8> {
    seq![102u8, 114u8, 101u8, 101u8, 122u8, 101u8, 95u8, 101u8, 115u8, 99u8, 114u8, 111u8, 119u8]
}

/// The seeds of the escrow address for a configuration triple.
pub open spec fn escrow_seeds(destination: Seq<u8>, candy_guard: Seq<u8>, candy_machine: Seq<u8>) -> Seq<Seq<u8>> {
    seq![prefix_seed(), destination, candy_guard, candy_machine]
}

/// The escrow address and bump of a configuration triple under a program.
pub open spec fn escrow_address(
    program_id: Seq<u8>,
    destination: Seq<u8>,
    candy_guard: Seq<u8>,
    candy_machine: Seq<u8>,
) -> Option<(Seq<u8>, u8)> {
    found_program_address(escrow_seeds(destination, candy_guard, candy_machine), program_id)
}

/// Whether `key` is the escrow address of the triple.
pub open spec fn is_escrow_address(
    key: Seq<u8>,
    program_id: Seq<u8>,
    destination: Seq<u8>,
    candy_guard: Seq<u8>,
    candy_machine: Seq<u8>,
) -> bool {
    match escrow_address(program_id, destination, candy_guard, candy_machine) {
        Some((a, _)) => a == key,
        None => false,
    }
}

/// Whether `signer` is `expected` and signed.
pub open spec fn signed_by(signer: Signer, expected: Address) -> bool {
    signer.is_signer && signer.key@ == expected@
}

pub fn prefix_seed_bytes() -> (r: Vec<u8>)
    ensures
        r@ == prefix_seed(),
{
    let r = vec![102u8, 114u8, 101u8, 101u8, 122u8, 101u8, 95u8, 101u8, 115u8, 99u8, 114u8, 111u8, 119u8];
    assert(r@ =~= prefix_seed());
    r
}

/// Computes the escrow address and bump of a configuration triple.
pub fn find_escrow_address(
    program_id: &Address,
    destination: &Address,
    candy_guard: &Address,
    candy_machine: &Address,
) -> (r: Option<(Address, u8)>)
    ensures
        match r {
            Some((a, b)) => escrow_address(program_id@, destination@, candy_guard@, candy_machine@)
                == Some((a@, b)),
            None => escrow_address(program_id@, destination@, candy_guard@, candy_machine@) is None,
        },
{
    let mut seeds: Vec<Vec<u8>> = Vec::new();
    seeds.push(prefix_seed_bytes());
    seeds.push(destination.to_vec());
    seeds.push(candy_guard.to_vec());
    seeds.push(candy_machine.to_vec());
    assert(seeds_view(seeds@) =~= escrow_seeds(destination@, candy_guard@, candy_machine@));
    try_find_program_address(&seeds, program_id)
}

/// Checks that `key` is the escrow address of the triple, and returns the
/// bump of that address.
pub fn assert_escrow_address(
    key: &Address,
    program_id: &Address,
    destination: &Address,
    candy_guard: &Address,
    candy_machine: &Address,
) -> (r: Result<u8, CandyGuardError>)
    ensures
        match escrow_address(program_id@, destination@, candy_guard@, candy_machine@) {
            Some((a, b)) => if a == key@ {
                r == Ok::<u8, CandyGuardError>(b)
            } else {
                r == Err::<u8, CandyGuardError>(CandyGuardError::PublicKeyMismatch)
            },
            None => r == Err::<u8, CandyGuardError>(CandyGuardError::NoViableProgramAddress),
        },
{
    match find_escrow_address(program_id, destination, candy_guard, candy_machine) {
        Some((a, b)) => {
            if a.same_as(key) {
                Ok(b)
            } else {
                Err(CandyGuardError::PublicKeyMismatch)
            }
        },
        None => Err(CandyGuardError::NoViableProgramAddress),
    }
}

impl FreezeEscrow {
    /// A record as initialization leaves it.
    pub open spec fn initialized(
        candy_guard: Address,
        candy_machine: Address,
        first_mint_time: Option<i64>,
        freeze_period: i64,
        destination: Address,
        authority: Address,
    ) -> FreezeEscrow {
        FreezeEscrow {
            candy_guard,
            candy_machine,
            frozen_count: 0,
            first_mint_time,
            freeze_period,
            destination,
            authority,
        }
    }

    /// Whether assets may be thawed at `now`: the campaign sold out, or the
    /// lock period has run out since the first lock.
    pub open spec fn thaw_allowed(self, candy_machine: CandyMachineSupply, now: i64) -> bool {
        candy_machine.sold_out() || match self.first_mint_time {
            Some(t) => now as int >= t as int + self.freeze_period as int,
            None => false,
        }
    }

    /// The record after one more asset is locked at `now`.
    pub open spec fn locked(self, now: i64) -> FreezeEscrow {
        FreezeEscrow {
            frozen_count: (self.frozen_count + 1) as u64,
            first_mint_time: match self.first_mint_time {
                Some(t) => Some(t),
                None => Some(now),
            },
            ..self
        }
    }

    /// The record after one locked asset is released.
    pub open spec fn released(self) -> FreezeEscrow {
        FreezeEscrow {
            frozen_count: if self.frozen_count == 0 { 0 } else { (self.frozen_count - 1) as u64 },
            ..self
        }
    }

    /// Sets every field of the record; the lock count starts at zero.
    pub fn init(
        &mut self,
        candy_guard: Address,
        candy_machine: Address,
        first_mint_time: Option<i64>,
        freeze_period: i64,
        destination: Address,
        authority: Address,
    )
        ensures
            *final(self) == FreezeEscrow::initialized(
                candy_guard,
                candy_machine,
                first_mint_time,
                freeze_period,
                destination,
                authority,
            ),
    {
        self.candy_guard = candy_guard;
        self.candy_machine = candy_machine;
        self.frozen_count = 0;
        self.first_mint_time = first_mint_time;
        self.freeze_period = freeze_period;
        self.destination = destination;
        self.authority = authority;
    }

    /// Whether assets may be thawed at `current_timestamp`.
    pub fn is_thaw_allowed(&self, candy_machine: &CandyMachineSupply, current_timestamp: i64) -> (r: bool)
        ensures
            r == self.thaw_allowed(*candy_machine, current_timestamp),
    {
        if candy_machine.items_redeemed >= candy_machine.items_available {
            return true;
        } else if let Some(first_mint_time) = self.first_mint_time {
            if current_timestamp as i128 >= first_mint_time as i128 + self.freeze_period as i128 {
                return true;
            }
        }
        false
    }

    /// Counts one more locked asset; the first lock records `now`.
    pub fn record_lock(&mut self, now: i64)
        requires
            old(self).frozen_count < u64::MAX,
        ensures
            *final(self) == old(self).locked(now),
    {
        self.frozen_count = self.frozen_count + 1;
        if self.first_mint_time.is_none() {
            self.first_mint_time = Some(now);
        }
    }

    /// Counts one locked asset as released, never going below zero.
    pub fn record_release(&mut self)
        ensures
            *final(self) == old(self).released(),
    {
        self.frozen_count = self.frozen_count.saturating_sub(1);
    }
}

} // verus!
