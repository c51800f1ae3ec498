//! The staking vault: a reward pool with a fixed annual rate and lock, the
//! positions staked in it, and the rules of deposit, withdrawal and claim.

pub mod events;
pub mod instructions;
pub mod laws;
pub mod ledger;
pub mod rewards;
pub mod state;
pub mod timegate;
