//! Errors raised by the guards and by the freeze escrow.
use vstd::prelude::*;

verus! {

/// The error kinds that a guard or an escrow operation can report.
#[derive(Clone, Copy, Debug, PartialEq, Eq, Structural)]
pub enum CandyGuardError {
    /// The leading opcode byte of an escrow instruction is absent or unknown.
    MissingFreezeInstruction,
    /// The candy guard or the candy machine of the route is absent.
    Uninitialized,
    /// The guard set holds no freeze payment guard.
    FreezeGuardNotEnabled,
    /// The expected authority did not sign.
    MissingRequiredSignature,
    /// The escrow address already holds a record.
    FreezeEscrowAlreadyExists,
    /// The lock period could not be read from the payload.
    MissingFreezePeriod,
    /// The lock period is over the maximum.
    ExceededMaximumFreezePeriod,
    /// The escrow address holds no record.
    FreezeNotInitialized,
    /// The payer cannot cover the payment.
    NotEnoughSOL,
    /// Neither the lock period has run out nor the campaign sold out.
    ThawNotEnabled,
    /// Some asset is still locked.
    UnlockNotEnabled,
    /// Two identities that must agree differ.
    PublicKeyMismatch,
    /// The token holding is under the required amount.
    NotEnoughTokens,
    /// A required trailing account is absent.
    MissingRemainingAccount,
    /// An account is not owned by the expected program.
    IncorrectOwner,
    /// An account's data is not a valid initialized token account.
    InvalidAccountData,
    /// The count of locked assets is at its largest value.
    NumericalOverflowError,
    /// No program-derived address exists for the seeds.
    NoViableProgramAddress,
}

} // verus!
