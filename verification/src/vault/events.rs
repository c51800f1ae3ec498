//! The records that the vault operations hand to the audit log.

use crate::keys::Pubkey;
use vstd::prelude::*;

verus! {

/// A vault was created.
#[derive(Clone, Copy, Debug, PartialEq, Eq)]
pub struct VaultCreatedEvent {
    pub nft_mint: Pubkey,
    pub vault: Pubkey,
    pub authority: Pubkey,
    pub reward_rate: u16,
    pub lock_duration: i64,
    pub timestamp: i64,
}

/// Principal entered a vault.
#[derive(Clone, Copy, Debug, PartialEq, Eq)]
pub struct TokensDepositedEvent {
    pub vault: Pubkey,
    pub authority: Pubkey,
    pub amount: u64,
    /// The vault's total after the deposit.
    pub total_staked: u64,
    /// When the position matures.
    pub unlock_at: i64,
    pub timestamp: i64,
}

/// Principal left a vault.
#[derive(Clone, Copy, Debug, PartialEq, Eq)]
pub struct TokensWithdrawnEvent {
    pub vault: Pubkey,
    pub authority: Pubkey,
    pub amount: u64,
    /// Reward attributed to the position at this withdrawal: the whole accrued
    /// reward on time, the proportional reward less the penalty before.
    pub pending_rewards: u64,
    /// Penalty that stays in the pool; zero on time.
    pub penalty_to_pool: u64,
    pub remaining_stake: u64,
    /// Whether the withdrawal came before maturity.
    pub is_early_unlock: bool,
    pub timestamp: i64,
}

/// A reward was paid.
#[derive(Clone, Copy, Debug, PartialEq, Eq)]
pub struct RewardsClaimedEvent {
    pub vault: Pubkey,
    pub authority: Pubkey,
    pub amount: u64,
    /// Rewards paid to the holder so far, this one included.
    pub total_claimed: u64,
    pub timestamp: i64,
}

/// A vault was closed to deposits and claims.
#[derive(Clone, Copy, Debug, PartialEq, Eq)]
pub struct VaultDeactivatedEvent {
    pub vault: Pubkey,
    pub authority: Pubkey,
    pub timestamp: i64,
}

/// Principal left a vault before maturity.
#[derive(Clone, Copy, Debug, PartialEq, Eq)]
pub struct EarlyUnlockEvent {
    pub vault: Pubkey,
    pub authority: Pubkey,
    pub amount: u64,
    /// The penalty that the holder gave up.
    pub forfeited_rewards: u64,
    /// When the position would have matured.
    pub unlock_at: i64,
    /// When it was withdrawn.
    pub unlocked_at: i64,
    /// Whole days between the two.
    pub days_early: i64,
}

} // verus!
