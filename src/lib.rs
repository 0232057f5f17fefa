//! Guards that gate a mint operation, and the freeze escrow that holds a
//! payment and keeps minted assets under custody for a bounded period.

pub mod address;
pub mod context;
pub mod errors;
pub mod escrow;
pub mod token;
pub mod freeze;
pub mod guards;
pub mod laws;
