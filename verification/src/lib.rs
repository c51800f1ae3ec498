//! Staking, transfer-tax, collectible-evolution and vesting rules of the PANGI
//! programs, as pure functions from account state and a timestamp to the next
//! state, the custody transfers to perform and the records to log.

pub mod arith;
pub mod distribution;
pub mod keys;
pub mod nft;
pub mod token;
pub mod vault;
