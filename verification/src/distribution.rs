//! The special distribution: a fixed supply that vests linearly, over a set
//! period, to the holders of registered collectibles.

use crate::arith::fits_i64;
use crate::keys::{Pubkey, TokenAccount, Transfer};
use vstd::prelude::*;

verus! {

/// The most collectibles that can be registered.
pub const MAX_SPECIAL_NFTS: u8 = 25;

/// Shortest distribution period: one day, in seconds.
pub const MIN_DISTRIBUTION_PERIOD: i64 = 86400;

/// Longest distribution period: 365 days, in seconds.
pub const MAX_DISTRIBUTION_PERIOD: i64 = 31_536_000;

/// The supply that is distributed, in base units.
pub const TOTAL_DISTRIBUTION_SUPPLY: u64 = 63_000_000_000_000_000;

/// Why a distribution operation was refused.
#[derive(Clone, Copy, Debug, PartialEq, Eq, Structural)]
pub enum ErrorCode {
    Unauthorized,
    InvalidTotalSupply,
    InvalidStartTime,
    InvalidEndTime,
    DistributionPeriodTooShort,
    DistributionPeriodTooLong,
    MaxNFTsReached,
    InvalidAllocation,
    AllocationExceedsSupply,
    DistributionInactive,
    DistributionAlreadyInactive,
    AllocationInactive,
    AllocationAlreadyInactive,
    DistributionNotStarted,
    NoRewardsToClaim,
    InsufficientDistributionBalance,
    InsufficientRemainingSupply,
    InvalidAmount,
    Overflow,
    Underflow,
    InvalidTokenMint,
    InvalidDistributionAccount,
}

/// The distribution: its supply, its period and how much has gone out.
#[derive(Clone, Copy, Debug, PartialEq, Eq)]
pub struct DistributionConfig {
    pub authority: Pubkey,
    pub token_mint: Pubkey,
    pub distribution_token_account: Pubkey,
    pub total_supply: u64,
    pub distributed_amount: u64,
    pub distribution_start: i64,
    pub distribution_end: i64,
    pub nft_count: u8,
    pub is_active: bool,
    /// Seed byte of the configuration's derived address.
    pub bump: u8,
}

/// The share of one registered collectible.
#[derive(Clone, Copy, Debug, PartialEq, Eq)]
pub struct NFTAllocation {
    pub distribution_config: Pubkey,
    pub nft_mint: Pubkey,
    pub owner: Pubkey,
    pub total_allocation: u64,
    pub claimed_amount: u64,
    pub last_claim: i64,
    pub is_active: bool,
}

/// The distribution was set up.
#[derive(Clone, Copy, Debug, PartialEq, Eq)]
pub struct DistributionInitializedEvent {
    pub authority: Pubkey,
    pub total_supply: u64,
    pub distribution_start: i64,
    pub distribution_end: i64,
    pub timestamp: i64,
}

/// A collectible was registered.
#[derive(Clone, Copy, Debug, PartialEq, Eq)]
pub struct SpecialNFTRegisteredEvent {
    pub nft_mint: Pubkey,
    pub owner: Pubkey,
    pub allocation: u64,
    pub nft_count: u8,
    pub timestamp: i64,
}

/// A vested share was paid.
#[derive(Clone, Copy, Debug, PartialEq, Eq)]
pub struct RewardsClaimedEvent {
    pub nft_mint: Pubkey,
    pub claimant: Pubkey,
    pub amount: u64,
    pub total_claimed: u64,
    pub timestamp: i64,
}

/// Supply was moved to a vault.
#[derive(Clone, Copy, Debug, PartialEq, Eq)]
pub struct DistributedToVaultEvent {
    pub vault: Pubkey,
    pub amount: u64,
    pub total_distributed: u64,
    pub timestamp: i64,
}

/// The distribution was closed.
#[derive(Clone, Copy, Debug, PartialEq, Eq)]
pub struct DistributionDeactivatedEvent {
    pub authority: Pubkey,
    pub timestamp: i64,
}

/// A share was closed.
#[derive(Clone, Copy, Debug, PartialEq, Eq)]
pub struct AllocationDeactivatedEvent {
    pub nft_mint: Pubkey,
    pub timestamp: i64,
}

/// The accounts of `initialize_distribution`.
#[derive(Clone, Copy, Debug, PartialEq, Eq)]
pub struct InitializeDistribution {
    /// Address of the configuration.
    pub config_key: Pubkey,
    /// The configuration, to be written.
    pub distribution_config: DistributionConfig,
    pub token_mint: Pubkey,
    pub distribution_token_account: TokenAccount,
    /// The caller.
    pub authority: Pubkey,
    /// Seed byte found for the configuration's address.
    pub bump: u8,
}

/// The accounts of `register_special_nft`.
#[derive(Clone, Copy, Debug, PartialEq, Eq)]
pub struct RegisterSpecialNFT {
    /// Address of the configuration.
    pub config_key: Pubkey,
    pub distribution_config: DistributionConfig,
    /// The share, to be written.
    pub nft_allocation: NFTAllocation,
    pub nft_mint: Pubkey,
    pub nft_owner: Pubkey,
    /// The caller.
    pub authority: Pubkey,
}

/// The accounts of `claim_rewards`.
#[derive(Clone, Copy, Debug, PartialEq, Eq)]
pub struct ClaimRewards {
    /// Address of the configuration.
    pub config_key: Pubkey,
    pub distribution_config: DistributionConfig,
    pub nft_allocation: NFTAllocation,
    pub distribution_token_account: TokenAccount,
    pub claimant_token_account: TokenAccount,
    /// The caller.
    pub claimant: Pubkey,
}

/// The accounts of `distribute_to_vault`.
#[derive(Clone, Copy, Debug, PartialEq, Eq)]
pub struct DistributeToVault {
    /// Address of the configuration.
    pub config_key: Pubkey,
    pub distribution_config: DistributionConfig,
    pub distribution_token_account: TokenAccount,
    pub vault_token_account: TokenAccount,
    /// The caller.
    pub authority: Pubkey,
}

/// The accounts of `deactivate_distribution`.
#[derive(Clone, Copy, Debug, PartialEq, Eq)]
pub struct DeactivateDistribution {
    pub distribution_config: DistributionConfig,
    /// The caller.
    pub authority: Pubkey,
}

/// The accounts of `deactivate_allocation`.
#[derive(Clone, Copy, Debug, PartialEq, Eq)]
pub struct DeactivateAllocation {
    pub distribution_config: DistributionConfig,
    pub nft_allocation: NFTAllocation,
    /// The caller.
    pub authority: Pubkey,
}

/// What a claim asks of its caller.
#[derive(Clone, Copy, Debug, PartialEq, Eq)]
pub struct ClaimReceipt {
    /// The vested share to move to the claimant.
    pub transfer: Transfer,
    pub event: RewardsClaimedEvent,
}

/// What a distribution to a vault asks of its caller.
#[derive(Clone, Copy, Debug, PartialEq, Eq)]
pub struct VaultFundingReceipt {
    /// The supply to move to the vault.
    pub transfer: Transfer,
    pub event: DistributedToVaultEvent,
}

/// What has vested of `total_allocation` at `current_time`: nothing before
/// the start, all from the end on, and in between the share of the period
/// that has passed, rounded down.
pub open spec fn vested_amount(
    total_allocation: int,
    distribution_start: int,
    distribution_end: int,
    current_time: int,
) -> int {
    if current_time < distribution_start {
        0
    } else if current_time >= distribution_end {
        total_allocation
    } else {
        total_allocation * (current_time - distribution_start) / (distribution_end
            - distribution_start)
    }
}

/// What `calculate_claimable_amount` returns: what has vested less what was
/// claimed.
pub open spec fn claimable_amount(
    total_allocation: u64,
    claimed_amount: u64,
    distribution_start: i64,
    distribution_end: i64,
    current_time: i64,
) -> Result<u64, ErrorCode> {
    let vested = vested_amount(
        total_allocation as int,
        distribution_start as int,
        distribution_end as int,
        current_time as int,
    );
    if current_time < distribution_start {
        Ok(0u64)
    } else if current_time < distribution_end && !fits_i64(distribution_end - distribution_start) {
        Err(ErrorCode::Overflow)
    } else if vested < claimed_amount {
        Err(ErrorCode::Underflow)
    } else {
        Ok((vested - claimed_amount) as u64)
    }
}

/// What has vested is never more than the allocation.
pub proof fn lemma_vested_within_allocation(
    total_allocation: int,
    distribution_start: int,
    distribution_end: int,
    current_time: int,
)
    requires
        0 <= total_allocation,
    ensures
        0 <= vested_amount(total_allocation, distribution_start, distribution_end, current_time)
            <= total_allocation,
{
    if distribution_start <= current_time < distribution_end {
        let elapsed = current_time - distribution_start;
        let period = distribution_end - distribution_start;
        vstd::arithmetic::mul::lemma_mul_inequality(elapsed, period, total_allocation);
        vstd::arithmetic::mul::lemma_mul_is_commutative(elapsed, total_allocation);
        vstd::arithmetic::mul::lemma_mul_is_commutative(period, total_allocation);
        vstd::arithmetic::mul::lemma_mul_nonnegative(total_allocation, elapsed);
        vstd::arithmetic::div_mod::lemma_div_is_ordered(
            total_allocation * elapsed,
            total_allocation * period,
            period,
        );
        vstd::arithmetic::div_mod::lemma_div_multiples_vanish(total_allocation, period);
        vstd::arithmetic::div_mod::lemma_div_pos_is_pos(total_allocation * elapsed, period);
    }
}

/// What can be claimed of `total_allocation` at `current_time`, given what
/// was claimed before.
///
/// `Overflow` where the length of the period is not representable, and
/// `Underflow` where more was claimed than has vested.
pub fn calculate_claimable_amount(
    total_allocation: u64,
    claimed_amount: u64,
    distribution_start: i64,
    distribution_end: i64,
    current_time: i64,
) -> (r: Result<u64, ErrorCode>)
    ensures
        r == claimable_amount(
            total_allocation,
            claimed_amount,
            distribution_start,
            distribution_end,
            current_time,
        ),
{
    if current_time < distribution_start {
        return Ok(0);
    }
    let vested: u64 = if current_time >= distribution_end {
        total_allocation
    } else {
        let elapsed = match current_time.checked_sub(distribution_start) {
            Some(seconds) => seconds,
            None => {
                return Err(ErrorCode::Overflow);
            },
        };
        let total_duration = match distribution_end.checked_sub(distribution_start) {
            Some(seconds) => seconds,
            None => {
                return Err(ErrorCode::Overflow);
            },
        };
        proof {
            vstd::arithmetic::mul::lemma_mul_upper_bound(
                total_allocation as int,
                u64::MAX as int,
                elapsed as int,
                i64::MAX as int,
            );
            lemma_vested_within_allocation(
                total_allocation as int,
                distribution_start as int,
                distribution_end as int,
                current_time as int,
            );
        }
        let share = (total_allocation as u128) * (elapsed as u128) / (total_duration as u128);
        if share > u64::MAX as u128 {
            return Err(ErrorCode::Overflow);
        }
        share as u64
    };
    match vested.checked_sub(claimed_amount) {
        Some(claimable) => Ok(claimable),
        None => Err(ErrorCode::Underflow),
    }
}

/// The first reason to refuse the setting up of a distribution at `now`, if
/// there is one.
pub open spec fn initialize_distribution_rejection(
    ctx: InitializeDistribution,
    total_supply: u64,
    distribution_start: i64,
    distribution_end: i64,
    now: i64,
) -> Option<ErrorCode> {
    let duration = distribution_end - distribution_start;
    if ctx.distribution_token_account.mint != ctx.token_mint {
        Some(ErrorCode::InvalidTokenMint)
    } else if total_supply != TOTAL_DISTRIBUTION_SUPPLY {
        Some(ErrorCode::InvalidTotalSupply)
    } else if distribution_start < now {
        Some(ErrorCode::InvalidStartTime)
    } else if distribution_end <= distribution_start {
        Some(ErrorCode::InvalidEndTime)
    } else if !fits_i64(duration) {
        Some(ErrorCode::Overflow)
    } else if duration < MIN_DISTRIBUTION_PERIOD {
        Some(ErrorCode::DistributionPeriodTooShort)
    } else if duration > MAX_DISTRIBUTION_PERIOD {
        Some(ErrorCode::DistributionPeriodTooLong)
    } else if ctx.distribution_token_account.amount < total_supply {
        Some(ErrorCode::InsufficientDistributionBalance)
    } else {
        None
    }
}

/// Sets up the distribution of `total_supply` between the two times.
///
/// The checks, in order: the token account holds the distributed asset
/// (`InvalidTokenMint`); the supply is `TOTAL_DISTRIBUTION_SUPPLY`
/// (`InvalidTotalSupply`); the start is not in the past
/// (`InvalidStartTime`); the end is after the start (`InvalidEndTime`); the
/// period is representable (`Overflow`) and between one day and 365 days
/// (`DistributionPeriodTooShort`, `DistributionPeriodTooLong`); the token
/// account holds the supply (`InsufficientDistributionBalance`).
pub fn initialize_distribution(
    ctx: &mut InitializeDistribution,
    total_supply: u64,
    distribution_start: i64,
    distribution_end: i64,
    now: i64,
) -> (r: Result<DistributionInitializedEvent, ErrorCode>)
    ensures
        match r {
            Ok(event) => {
                &&& initialize_distribution_rejection(
                    *old(ctx),
                    total_supply,
                    distribution_start,
                    distribution_end,
                    now,
                ) is None
                &&& *final(ctx) == (InitializeDistribution {
                    distribution_config: DistributionConfig {
                        authority: old(ctx).authority,
                        token_mint: old(ctx).token_mint,
                        distribution_token_account: old(ctx).distribution_token_account.key,
                        total_supply,
                        distributed_amount: 0,
                        distribution_start,
                        distribution_end,
                        nft_count: 0,
                        is_active: true,
                        bump: old(ctx).bump,
                    },
                    ..*old(ctx)
                })
                &&& event == (DistributionInitializedEvent {
                    authority: old(ctx).authority,
                    total_supply,
                    distribution_start,
                    distribution_end,
                    timestamp: now,
                })
            },
            Err(e) => {
                &&& initialize_distribution_rejection(
                    *old(ctx),
                    total_supply,
                    distribution_start,
                    distribution_end,
                    now,
                ) == Some(e)
                &&& *final(ctx) == *old(ctx)
            },
        },
{
    if !ctx.distribution_token_account.mint.equals(&ctx.token_mint) {
        return Err(ErrorCode::InvalidTokenMint);
    }
    if total_supply != TOTAL_DISTRIBUTION_SUPPLY {
        return Err(ErrorCode::InvalidTotalSupply);
    }
    if distribution_start < now {
        return Err(ErrorCode::InvalidStartTime);
    }
    if distribution_end <= distribution_start {
        return Err(ErrorCode::InvalidEndTime);
    }
    let duration = match distribution_end.checked_sub(distribution_start) {
        Some(seconds) => seconds,
        None => {
            return Err(ErrorCode::Overflow);
        },
    };
    if duration < MIN_DISTRIBUTION_PERIOD {
        return Err(ErrorCode::DistributionPeriodTooShort);
    }
    if duration > MAX_DISTRIBUTION_PERIOD {
        return Err(ErrorCode::DistributionPeriodTooLong);
    }
    if ctx.distribution_token_account.amount < total_supply {
        return Err(ErrorCode::InsufficientDistributionBalance);
    }
    ctx.distribution_config = DistributionConfig {
        authority: ctx.authority,
        token_mint: ctx.token_mint,
        distribution_token_account: ctx.distribution_token_account.key,
        total_supply,
        distributed_amount: 0,
        distribution_start,
        distribution_end,
        nft_count: 0,
        is_active: true,
        bump: ctx.bump,
    };
    Ok(
        DistributionInitializedEvent {
            authority: ctx.authority,
            total_supply,
            distribution_start,
            distribution_end,
            timestamp: now,
        },
    )
}

/// The first reason to refuse the registration of a collectible with a share
/// of `allocation`, if there is one.
pub open spec fn register_special_nft_rejection(ctx: RegisterSpecialNFT, allocation: u64) -> Option<
    ErrorCode,
> {
    let config = ctx.distribution_config;
    if ctx.authority != config.authority {
        Some(ErrorCode::Unauthorized)
    } else if config.nft_count >= MAX_SPECIAL_NFTS {
        Some(ErrorCode::MaxNFTsReached)
    } else if allocation == 0 {
        Some(ErrorCode::InvalidAllocation)
    } else if config.distributed_amount + allocation > u64::MAX {
        Some(ErrorCode::Overflow)
    } else if config.distributed_amount + allocation > config.total_supply {
        Some(ErrorCode::AllocationExceedsSupply)
    } else {
        None
    }
}

/// Registers a collectible with a share of `allocation` for its owner, and
/// counts it.
///
/// The checks, in order: the caller is the distribution's authority
/// (`Unauthorized`); fewer than 25 collectibles are registered
/// (`MaxNFTsReached`); the share is positive (`InvalidAllocation`); what has
/// gone out plus the share is representable (`Overflow`) and within the
/// supply (`AllocationExceedsSupply`).
pub fn register_special_nft(ctx: &mut RegisterSpecialNFT, allocation: u64, now: i64) -> (r: Result<
    SpecialNFTRegisteredEvent,
    ErrorCode,
>)
    ensures
        match r {
            Ok(event) => {
                &&& register_special_nft_rejection(*old(ctx), allocation) is None
                &&& *final(ctx) == (RegisterSpecialNFT {
                    distribution_config: DistributionConfig {
                        nft_count: (old(ctx).distribution_config.nft_count + 1) as u8,
                        ..old(ctx).distribution_config
                    },
                    nft_allocation: NFTAllocation {
                        distribution_config: old(ctx).config_key,
                        nft_mint: old(ctx).nft_mint,
                        owner: old(ctx).nft_owner,
                        total_allocation: allocation,
                        claimed_amount: 0,
                        last_claim: 0,
                        is_active: true,
                    },
                    ..*old(ctx)
                })
                &&& event == (SpecialNFTRegisteredEvent {
                    nft_mint: old(ctx).nft_mint,
                    owner: old(ctx).nft_owner,
                    allocation,
                    nft_count: (old(ctx).distribution_config.nft_count + 1) as u8,
                    timestamp: now,
                })
            },
            Err(e) => {
                &&& register_special_nft_rejection(*old(ctx), allocation) == Some(e)
                &&& *final(ctx) == *old(ctx)
            },
        },
{
    if !ctx.authority.equals(&ctx.distribution_config.authority) {
        return Err(ErrorCode::Unauthorized);
    }
    if ctx.distribution_config.nft_count >= MAX_SPECIAL_NFTS {
        return Err(ErrorCode::MaxNFTsReached);
    }
    if allocation == 0 {
        return Err(ErrorCode::InvalidAllocation);
    }
    let new_distributed = match ctx.distribution_config.distributed_amount.checked_add(allocation) {
        Some(total) => total,
        None => {
            return Err(ErrorCode::Overflow);
        },
    };
    if new_distributed > ctx.distribution_config.total_supply {
        return Err(ErrorCode::AllocationExceedsSupply);
    }
    let nft_count = match ctx.distribution_config.nft_count.checked_add(1) {
        Some(count) => count,
        None => {
            return Err(ErrorCode::Overflow);
        },
    };
    ctx.nft_allocation = NFTAllocation {
        distribution_config: ctx.config_key,
        nft_mint: ctx.nft_mint,
        owner: ctx.nft_owner,
        total_allocation: allocation,
        claimed_amount: 0,
        last_claim: 0,
        is_active: true,
    };
    ctx.distribution_config.nft_count = nft_count;
    Ok(
        SpecialNFTRegisteredEvent {
            nft_mint: ctx.nft_mint,
            owner: ctx.nft_owner,
            allocation,
            nft_count,
            timestamp: now,
        },
    )
}

/// What a claim at `now` can take of the share in `ctx`.
pub open spec fn claimable_now(ctx: ClaimRewards, now: i64) -> Result<u64, ErrorCode> {
    claimable_amount(
        ctx.nft_allocation.total_allocation,
        ctx.nft_allocation.claimed_amount,
        ctx.distribution_config.distribution_start,
        ctx.distribution_config.distribution_end,
        now,
    )
}

/// The first reason to refuse a claim at `now`, if there is one.
pub open spec fn claim_rejection(ctx: ClaimRewards, now: i64) -> Option<ErrorCode> {
    let config = ctx.distribution_config;
    let allocation = ctx.nft_allocation;
    let claimable = claimable_now(ctx, now);
    if ctx.distribution_token_account.key != config.distribution_token_account {
        Some(ErrorCode::InvalidDistributionAccount)
    } else if ctx.claimant_token_account.owner != ctx.claimant {
        Some(ErrorCode::Unauthorized)
    } else if !config.is_active {
        Some(ErrorCode::DistributionInactive)
    } else if !allocation.is_active {
        Some(ErrorCode::AllocationInactive)
    } else if ctx.claimant != allocation.owner {
        Some(ErrorCode::Unauthorized)
    } else if now < config.distribution_start {
        Some(ErrorCode::DistributionNotStarted)
    } else if claimable is Err {
        Some(claimable->Err_0)
    } else if claimable->Ok_0 == 0 {
        Some(ErrorCode::NoRewardsToClaim)
    } else if ctx.distribution_token_account.amount < claimable->Ok_0 {
        Some(ErrorCode::InsufficientDistributionBalance)
    } else if allocation.claimed_amount + claimable->Ok_0 > u64::MAX {
        Some(ErrorCode::Overflow)
    } else if config.distributed_amount + claimable->Ok_0 > u64::MAX {
        Some(ErrorCode::Overflow)
    } else {
        None
    }
}

/// The accounts after a claim at `now`: what was claimable is added to what
/// the share has claimed and to what the distribution has given out.
pub open spec fn claim_applied(ctx: ClaimRewards, now: i64) -> ClaimRewards {
    let claimable = claimable_now(ctx, now)->Ok_0;
    ClaimRewards {
        distribution_config: DistributionConfig {
            distributed_amount: (ctx.distribution_config.distributed_amount + claimable) as u64,
            ..ctx.distribution_config
        },
        nft_allocation: NFTAllocation {
            claimed_amount: (ctx.nft_allocation.claimed_amount + claimable) as u64,
            last_claim: now,
            ..ctx.nft_allocation
        },
        ..ctx
    }
}

/// The transfer and the record of a claim at `now`.
pub open spec fn claim_receipt(ctx: ClaimRewards, now: i64) -> ClaimReceipt {
    let claimable = claimable_now(ctx, now)->Ok_0;
    ClaimReceipt {
        transfer: Transfer {
            from: ctx.distribution_token_account.key,
            to: ctx.claimant_token_account.key,
            authority: ctx.config_key,
            amount: claimable,
        },
        event: RewardsClaimedEvent {
            nft_mint: ctx.nft_allocation.nft_mint,
            claimant: ctx.claimant,
            amount: claimable,
            total_claimed: (ctx.nft_allocation.claimed_amount + claimable) as u64,
            timestamp: now,
        },
    }
}

/// Pays the owner of a registered collectible what has vested of its share
/// and was not claimed before.
///
/// The checks, in order: the token account is the distribution's
/// (`InvalidDistributionAccount`); the receiving account is the claimant's
/// (`Unauthorized`); the distribution is active (`DistributionInactive`);
/// the share is active (`AllocationInactive`); the claimant owns the share
/// (`Unauthorized`); the distribution has started
/// (`DistributionNotStarted`); the claimable amount can be computed (its own
/// error) and is not zero (`NoRewardsToClaim`); the token account holds it
/// (`InsufficientDistributionBalance`); the new totals are representable
/// (`Overflow`).
pub fn claim_rewards(ctx: &mut ClaimRewards, now: i64) -> (r: Result<ClaimReceipt, ErrorCode>)
    ensures
        match r {
            Ok(receipt) => {
                &&& claim_rejection(*old(ctx), now) is None
                &&& *final(ctx) == claim_applied(*old(ctx), now)
                &&& receipt == claim_receipt(*old(ctx), now)
            },
            Err(e) => {
                &&& claim_rejection(*old(ctx), now) == Some(e)
                &&& *final(ctx) == *old(ctx)
            },
        },
{
    if !ctx.distribution_token_account.key.equals(
        &ctx.distribution_config.distribution_token_account,
    ) {
        return Err(ErrorCode::InvalidDistributionAccount);
    }
    if !ctx.claimant_token_account.owner.equals(&ctx.claimant) {
        return Err(ErrorCode::Unauthorized);
    }
    if !ctx.distribution_config.is_active {
        return Err(ErrorCode::DistributionInactive);
    }
    if !ctx.nft_allocation.is_active {
        return Err(ErrorCode::AllocationInactive);
    }
    if !ctx.claimant.equals(&ctx.nft_allocation.owner) {
        return Err(ErrorCode::Unauthorized);
    }
    if now < ctx.distribution_config.distribution_start {
        return Err(ErrorCode::DistributionNotStarted);
    }
    let claimable = match calculate_claimable_amount(
        ctx.nft_allocation.total_allocation,
        ctx.nft_allocation.claimed_amount,
        ctx.distribution_config.distribution_start,
        ctx.distribution_config.distribution_end,
        now,
    ) {
        Ok(claimable) => claimable,
        Err(e) => {
            return Err(e);
        },
    };
    if claimable == 0 {
        return Err(ErrorCode::NoRewardsToClaim);
    }
    if ctx.distribution_token_account.amount < claimable {
        return Err(ErrorCode::InsufficientDistributionBalance);
    }
    let claimed_amount = match ctx.nft_allocation.claimed_amount.checked_add(claimable) {
        Some(total) => total,
        None => {
            return Err(ErrorCode::Overflow);
        },
    };
    let distributed_amount = match ctx.distribution_config.distributed_amount.checked_add(
        claimable,
    ) {
        Some(total) => total,
        None => {
            return Err(ErrorCode::Overflow);
        },
    };
    ctx.nft_allocation.claimed_amount = claimed_amount;
    ctx.nft_allocation.last_claim = now;
    ctx.distribution_config.distributed_amount = distributed_amount;
    Ok(
        ClaimReceipt {
            transfer: Transfer {
                from: ctx.distribution_token_account.key,
                to: ctx.claimant_token_account.key,
                authority: ctx.config_key,
                amount: claimable,
            },
            event: RewardsClaimedEvent {
                nft_mint: ctx.nft_allocation.nft_mint,
                claimant: ctx.claimant,
                amount: claimable,
                total_claimed: claimed_amount,
                timestamp: now,
            },
        },
    )
}

/// The first reason to refuse a distribution of `amount` to a vault, if
/// there is one.
pub open spec fn distribute_to_vault_rejection(ctx: DistributeToVault, amount: u64) -> Option<
    ErrorCode,
> {
    let config = ctx.distribution_config;
    if ctx.distribution_token_account.key != config.distribution_token_account {
        Some(ErrorCode::InvalidDistributionAccount)
    } else if ctx.authority != config.authority {
        Some(ErrorCode::Unauthorized)
    } else if !config.is_active {
        Some(ErrorCode::DistributionInactive)
    } else if amount == 0 {
        Some(ErrorCode::InvalidAmount)
    } else if config.total_supply < config.distributed_amount {
        Some(ErrorCode::Underflow)
    } else if amount > config.total_supply - config.distributed_amount {
        Some(ErrorCode::InsufficientRemainingSupply)
    } else if ctx.distribution_token_account.amount < amount {
        Some(ErrorCode::InsufficientDistributionBalance)
    } else {
        None
    }
}

/// Moves `amount` of the supply that has not gone out to a vault.
///
/// The checks, in order: the token account is the distribution's
/// (`InvalidDistributionAccount`); the caller is the distribution's
/// authority (`Unauthorized`); the distribution is active
/// (`DistributionInactive`); the amount is positive (`InvalidAmount`) and no
/// more than the supply that is left (`InsufficientRemainingSupply`;
/// `Underflow` where more has gone out than the supply); the token account
/// holds it (`InsufficientDistributionBalance`).
pub fn distribute_to_vault(ctx: &mut DistributeToVault, amount: u64, now: i64) -> (r: Result<
    VaultFundingReceipt,
    ErrorCode,
>)
    ensures
        match r {
            Ok(receipt) => {
                &&& distribute_to_vault_rejection(*old(ctx), amount) is None
                &&& *final(ctx) == (DistributeToVault {
                    distribution_config: DistributionConfig {
                        distributed_amount: (old(ctx).distribution_config.distributed_amount
                            + amount) as u64,
                        ..old(ctx).distribution_config
                    },
                    ..*old(ctx)
                })
                &&& final(ctx).distribution_config.distributed_amount
                    <= old(ctx).distribution_config.total_supply
                &&& receipt == (VaultFundingReceipt {
                    transfer: Transfer {
                        from: old(ctx).distribution_token_account.key,
                        to: old(ctx).vault_token_account.key,
                        authority: old(ctx).config_key,
                        amount,
                    },
                    event: DistributedToVaultEvent {
                        vault: old(ctx).vault_token_account.key,
                        amount,
                        total_distributed: (old(ctx).distribution_config.distributed_amount
                            + amount) as u64,
                        timestamp: now,
                    },
                })
            },
            Err(e) => {
                &&& distribute_to_vault_rejection(*old(ctx), amount) == Some(e)
                &&& *final(ctx) == *old(ctx)
            },
        },
{
    if !ctx.distribution_token_account.key.equals(
        &ctx.distribution_config.distribution_token_account,
    ) {
        return Err(ErrorCode::InvalidDistributionAccount);
    }
    if !ctx.authority.equals(&ctx.distribution_config.authority) {
        return Err(ErrorCode::Unauthorized);
    }
    if !ctx.distribution_config.is_active {
        return Err(ErrorCode::DistributionInactive);
    }
    if amount == 0 {
        return Err(ErrorCode::InvalidAmount);
    }
    let remaining = match ctx.distribution_config.total_supply.checked_sub(
        ctx.distribution_config.distributed_amount,
    ) {
        Some(remaining) => remaining,
        None => {
            return Err(ErrorCode::Underflow);
        },
    };
    if amount > remaining {
        return Err(ErrorCode::InsufficientRemainingSupply);
    }
    if ctx.distribution_token_account.amount < amount {
        return Err(ErrorCode::InsufficientDistributionBalance);
    }
    let total_distributed = match ctx.distribution_config.distributed_amount.checked_add(amount) {
        Some(total) => total,
        None => {
            return Err(ErrorCode::Overflow);
        },
    };
    ctx.distribution_config.distributed_amount = total_distributed;
    Ok(
        VaultFundingReceipt {
            transfer: Transfer {
                from: ctx.distribution_token_account.key,
                to: ctx.vault_token_account.key,
                authority: ctx.config_key,
                amount,
            },
            event: DistributedToVaultEvent {
                vault: ctx.vault_token_account.key,
                amount,
                total_distributed,
                timestamp: now,
            },
        },
    )
}

/// Closes the distribution.
///
/// Refused with `Unauthorized` where the caller is not its authority, and
/// with `DistributionAlreadyInactive` where it is closed already.
pub fn deactivate_distribution(ctx: &mut DeactivateDistribution, now: i64) -> (r: Result<
    DistributionDeactivatedEvent,
    ErrorCode,
>)
    ensures
        match r {
            Ok(event) => {
                &&& old(ctx).authority == old(ctx).distribution_config.authority
                &&& old(ctx).distribution_config.is_active
                &&& *final(ctx) == (DeactivateDistribution {
                    distribution_config: DistributionConfig {
                        is_active: false,
                        ..old(ctx).distribution_config
                    },
                    ..*old(ctx)
                })
                &&& event == (DistributionDeactivatedEvent {
                    authority: old(ctx).authority,
                    timestamp: now,
                })
            },
            Err(e) => {
                &&& *final(ctx) == *old(ctx)
                &&& if old(ctx).authority != old(ctx).distribution_config.authority {
                    e == ErrorCode::Unauthorized
                } else {
                    !old(ctx).distribution_config.is_active && e
                        == ErrorCode::DistributionAlreadyInactive
                }
            },
        },
{
    if !ctx.authority.equals(&ctx.distribution_config.authority) {
        return Err(ErrorCode::Unauthorized);
    }
    if !ctx.distribution_config.is_active {
        return Err(ErrorCode::DistributionAlreadyInactive);
    }
    ctx.distribution_config.is_active = false;
    Ok(DistributionDeactivatedEvent { authority: ctx.authority, timestamp: now })
}

/// Closes the share of one collectible.
///
/// Refused with `Unauthorized` where the caller is not the distribution's
/// authority, and with `AllocationAlreadyInactive` where the share is closed
/// already.
pub fn deactivate_allocation(ctx: &mut DeactivateAllocation, now: i64) -> (r: Result<
    AllocationDeactivatedEvent,
    ErrorCode,
>)
    ensures
        match r {
            Ok(event) => {
                &&& old(ctx).authority == old(ctx).distribution_config.authority
                &&& old(ctx).nft_allocation.is_active
                &&& *final(ctx) == (DeactivateAllocation {
                    nft_allocation: NFTAllocation { is_active: false, ..old(ctx).nft_allocation },
                    ..*old(ctx)
                })
                &&& event == (AllocationDeactivatedEvent {
                    nft_mint: old(ctx).nft_allocation.nft_mint,
                    timestamp: now,
                })
            },
            Err(e) => {
                &&& *final(ctx) == *old(ctx)
                &&& if old(ctx).authority != old(ctx).distribution_config.authority {
                    e == ErrorCode::Unauthorized
                } else {
                    !old(ctx).nft_allocation.is_active && e == ErrorCode::AllocationAlreadyInactive
                }
            },
        },
{
    if !ctx.authority.equals(&ctx.distribution_config.authority) {
        return Err(ErrorCode::Unauthorized);
    }
    if !ctx.nft_allocation.is_active {
        return Err(ErrorCode::AllocationAlreadyInactive);
    }
    ctx.nft_allocation.is_active = false;
    Ok(AllocationDeactivatedEvent { nft_mint: ctx.nft_allocation.nft_mint, timestamp: now })
}

} // verus!
