//! The durable state of a reward pool and of the positions staked in it.

use crate::arith::ArithError;
use crate::keys::Pubkey;
use vstd::prelude::*;

verus! {

/// Smallest deposit accepted, in base units.
pub const MIN_STAKE_AMOUNT: u64 = 1_000_000;

/// Largest deposit accepted, in base units.
pub const MAX_STAKE_AMOUNT: u64 = 1_000_000_000_000_000;

/// Shortest lock a vault may be created with, in seconds.
pub const MIN_LOCK_DURATION: i64 = 60;

/// Longest lock a vault may be created with: 365 days, in seconds.
pub const MAX_LOCK_DURATION: i64 = 31_536_000;

/// The reward rate is given in parts of this denominator.
pub const REWARD_RATE_DENOMINATOR: u64 = 10000;

/// Seconds in the year over which the annual rate accrues.
pub const SECONDS_PER_YEAR: u64 = 31_536_000;

/// Seconds that must pass between two claims on one position.
pub const CLAIM_COOLDOWN: i64 = 3600;

/// Seconds that must pass between two deposits into one position.
pub const DEPOSIT_COOLDOWN: i64 = 60;

/// Share of the earned reward that an early exit forfeits, in basis points.
pub const EARLY_UNLOCK_PENALTY_BPS: u16 = 1500;

/// Seconds in a day.
pub const SECONDS_PER_DAY: i64 = 86400;

/// Why a vault operation was refused.
#[derive(Clone, Copy, Debug, PartialEq, Eq, Structural)]
pub enum ErrorCode {
    VaultAuthorityMismatch,
    Unauthorized,
    Overflow,
    Underflow,
    AmountTooSmall,
    AmountTooLarge,
    InsufficientBalance,
    InsufficientStake,
    StillLocked,
    RewardRateTooHigh,
    LockDurationTooShort,
    LockDurationTooLong,
    VaultInactive,
    VaultAlreadyInactive,
    NoRewardsToClaim,
    InsufficientVaultBalance,
    InvalidVaultAccount,
    DepositCooldownActive,
    ClaimCooldownActive,
    DivisionByZero,
}

impl ErrorCode {
    /// The vault error that stands for a refused arithmetic step.
    pub open spec fn of_arith(e: ArithError) -> ErrorCode {
        match e {
            ArithError::Overflow => ErrorCode::Overflow,
            ArithError::Underflow => ErrorCode::Underflow,
            ArithError::DivisionByZero => ErrorCode::DivisionByZero,
        }
    }

    /// The vault error that stands for a refused arithmetic step.
    pub fn from_arith(e: ArithError) -> (code: ErrorCode)
        ensures
            code == ErrorCode::of_arith(e),
    {
        match e {
            ArithError::Overflow => ErrorCode::Overflow,
            ArithError::Underflow => ErrorCode::Underflow,
            ArithError::DivisionByZero => ErrorCode::DivisionByZero,
        }
    }
}

/// A reward pool: who runs it, what it pays and how much is staked in it.
#[derive(Clone, Copy, Debug, PartialEq, Eq)]
pub struct Vault {
    /// The creator token that this vault was made for.
    pub nft_mint: Pubkey,
    /// Who may administer the vault.
    pub authority: Pubkey,
    /// The asset that is staked.
    pub token_mint: Pubkey,
    /// The custody account that holds principal and rewards.
    pub vault_token_account: Pubkey,
    /// Sum of the amounts of all positions in this vault.
    pub total_staked: u64,
    /// Simple annual rate, in basis points.
    pub reward_rate: u16,
    /// Seconds between a first deposit and its maturity.
    pub lock_duration: i64,
    pub created_at: i64,
    pub last_reward_update: i64,
    /// Sum of the penalties that early exits left in the pool.
    pub total_penalties_collected: u64,
    /// Deposits and claims are refused once this is false.
    pub is_active: bool,
    /// Seed byte of the vault's derived address.
    pub bump: u8,
}

impl Vault {
    /// The parameters are within the bounds that creation enforces.
    pub open spec fn well_formed(&self) -> bool {
        &&& self.reward_rate <= REWARD_RATE_DENOMINATOR
        &&& MIN_LOCK_DURATION <= self.lock_duration <= MAX_LOCK_DURATION
    }
}

/// One holder's position in one vault.
#[derive(Clone, Copy, Debug, PartialEq, Eq)]
pub struct StakeRecord {
    /// The vault that the position is in.
    pub vault: Pubkey,
    /// The holder.
    pub authority: Pubkey,
    /// Principal currently staked.
    pub amount: u64,
    /// When the position was established.
    pub staked_at: i64,
    /// When the position matures.
    pub unlock_at: i64,
    /// When reward accrual was last reset.
    pub last_claim: i64,
    /// Rewards paid to the holder so far.
    pub total_claimed: u64,
}

/// Where a position stands at a given time.
#[derive(Clone, Copy, Debug, PartialEq, Eq, Structural)]
pub enum StakePhase {
    /// Nothing is staked.
    Empty,
    /// Principal is staked and has not matured.
    Locked,
    /// Principal is staked and has matured.
    Unlockable,
}

impl StakeRecord {
    /// A record that has never been used: all fields zero.
    pub open spec fn blank() -> StakeRecord {
        StakeRecord {
            vault: Pubkey::zero(),
            authority: Pubkey::zero(),
            amount: 0,
            staked_at: 0,
            unlock_at: 0,
            last_claim: 0,
            total_claimed: 0,
        }
    }

    /// A record that has never been used.
    pub fn new() -> (record: StakeRecord)
        ensures
            record == StakeRecord::blank(),
    {
        StakeRecord {
            vault: Pubkey::zeroed(),
            authority: Pubkey::zeroed(),
            amount: 0,
            staked_at: 0,
            unlock_at: 0,
            last_claim: 0,
            total_claimed: 0,
        }
    }

    /// The position does not mature before it starts.
    pub open spec fn well_formed(&self) -> bool {
        self.staked_at <= self.unlock_at
    }

    /// Where the position stands at `now`.
    pub open spec fn phase_at(&self, now: i64) -> StakePhase {
        if self.amount == 0 {
            StakePhase::Empty
        } else if now < self.unlock_at {
            StakePhase::Locked
        } else {
            StakePhase::Unlockable
        }
    }

    /// Where the position stands at `now`.
    pub fn phase(&self, now: i64) -> (phase: StakePhase)
        ensures
            phase == self.phase_at(now),
    {
        if self.amount == 0 {
            StakePhase::Empty
        } else if now < self.unlock_at {
            StakePhase::Locked
        } else {
            StakePhase::Unlockable
        }
    }
}

} // verus!
