//! The five vault operations. Each takes the accounts it works on and the
//! current time, checks its preconditions in a fixed order, and either
//! changes nothing and names the first check that failed, or commits every
//! change at once and returns the transfer to perform and the records to log.

use crate::arith::{fits_i64, safe_add, safe_add_i64, safe_div_i64, safe_sub, safe_sub_i64};
use crate::keys::{Mint, Pubkey, TokenAccount, Transfer};
use crate::vault::events::{
    EarlyUnlockEvent, RewardsClaimedEvent, TokensDepositedEvent, TokensWithdrawnEvent,
    VaultCreatedEvent, VaultDeactivatedEvent,
};
use crate::vault::rewards::{
    calculate_early_unlock_rewards, calculate_pending_rewards, early_unlock_rewards,
    pending_rewards,
};
use crate::vault::state::{
    ErrorCode, StakeRecord, Vault, CLAIM_COOLDOWN, DEPOSIT_COOLDOWN, MAX_LOCK_DURATION,
    MAX_STAKE_AMOUNT, MIN_LOCK_DURATION, MIN_STAKE_AMOUNT, SECONDS_PER_DAY,
};
use crate::vault::timegate::{cooldown_elapsed, has_matured};
use vstd::prelude::*;

verus! {

/// The accounts of `create_vault`.
#[derive(Clone, Copy, Debug, PartialEq, Eq)]
pub struct CreateVault {
    /// Address of the vault record.
    pub vault_key: Pubkey,
    /// The vault record, to be written.
    pub vault: Vault,
    pub nft_mint: Mint,
    pub token_mint: Mint,
    pub vault_token_account: TokenAccount,
    pub authority: Pubkey,
    /// Seed byte found for the vault's address.
    pub bump: u8,
}

/// The accounts of `deposit_tokens`.
#[derive(Clone, Copy, Debug, PartialEq, Eq)]
pub struct DepositTokens {
    /// Address of the vault record.
    pub vault_key: Pubkey,
    pub vault: Vault,
    pub stake_record: StakeRecord,
    pub user_token_account: TokenAccount,
    pub vault_token_account: TokenAccount,
    /// The caller.
    pub authority: Pubkey,
}

/// The accounts of `withdraw_tokens`.
#[derive(Clone, Copy, Debug, PartialEq, Eq)]
pub struct WithdrawTokens {
    /// Address of the vault record.
    pub vault_key: Pubkey,
    pub vault: Vault,
    pub stake_record: StakeRecord,
    pub user_token_account: TokenAccount,
    pub vault_token_account: TokenAccount,
    /// The caller.
    pub authority: Pubkey,
}

/// The accounts of `claim_rewards`.
#[derive(Clone, Copy, Debug, PartialEq, Eq)]
pub struct ClaimRewards {
    /// Address of the vault record.
    pub vault_key: Pubkey,
    pub vault: Vault,
    pub stake_record: StakeRecord,
    pub user_token_account: TokenAccount,
    pub vault_token_account: TokenAccount,
    /// The caller.
    pub authority: Pubkey,
}

/// The accounts of `deactivate_vault`.
#[derive(Clone, Copy, Debug, PartialEq, Eq)]
pub struct DeactivateVault {
    /// Address of the vault record.
    pub vault_key: Pubkey,
    pub vault: Vault,
    /// The caller.
    pub authority: Pubkey,
}

/// What a deposit asks of its caller.
#[derive(Clone, Copy, Debug, PartialEq, Eq)]
pub struct DepositReceipt {
    /// Principal to move from the holder into custody.
    pub transfer: Transfer,
    pub event: TokensDepositedEvent,
}

/// What a withdrawal asks of its caller.
#[derive(Clone, Copy, Debug, PartialEq, Eq)]
pub struct WithdrawReceipt {
    /// Principal to move from custody to the holder.
    pub transfer: Transfer,
    /// Logged first, when the withdrawal came before maturity.
    pub early_unlock: Option<EarlyUnlockEvent>,
    pub event: TokensWithdrawnEvent,
}

/// What a claim asks of its caller.
#[derive(Clone, Copy, Debug, PartialEq, Eq)]
pub struct ClaimReceipt {
    /// Reward to move from custody to the holder.
    pub transfer: Transfer,
    pub event: RewardsClaimedEvent,
}

/// The first reason to refuse the creation of a vault, if there is one.
pub open spec fn create_vault_rejection(reward_rate: u16, lock_duration: i64) -> Option<
    ErrorCode,
> {
    if reward_rate > 10000 {
        Some(ErrorCode::RewardRateTooHigh)
    } else if lock_duration < MIN_LOCK_DURATION {
        Some(ErrorCode::LockDurationTooShort)
    } else if lock_duration > MAX_LOCK_DURATION {
        Some(ErrorCode::LockDurationTooLong)
    } else {
        None
    }
}

/// The vault that a creation writes: active, with zero totals and both
/// timestamps at the time of creation.
pub open spec fn created_vault(
    ctx: CreateVault,
    reward_rate: u16,
    lock_duration: i64,
    now: i64,
) -> Vault {
    Vault {
        nft_mint: ctx.nft_mint.key,
        authority: ctx.authority,
        token_mint: ctx.token_mint.key,
        vault_token_account: ctx.vault_token_account.key,
        total_staked: 0,
        reward_rate,
        lock_duration,
        created_at: now,
        last_reward_update: now,
        total_penalties_collected: 0,
        is_active: true,
        bump: ctx.bump,
    }
}

/// Creates a vault with the given annual rate, in basis points, and lock, in
/// seconds.
///
/// Refused with `RewardRateTooHigh` above 10000 bps, `LockDurationTooShort`
/// under 60 s and `LockDurationTooLong` over 365 days, in that order.
pub fn create_vault(ctx: &mut CreateVault, reward_rate: u16, lock_duration: i64, now: i64) -> (r:
    Result<VaultCreatedEvent, ErrorCode>)
    ensures
        match r {
            Ok(event) => {
                &&& create_vault_rejection(reward_rate, lock_duration) is None
                &&& *final(ctx) == (CreateVault {
                    vault: created_vault(*old(ctx), reward_rate, lock_duration, now),
                    ..*old(ctx)
                })
                &&& final(ctx).vault.well_formed()
                &&& event == (VaultCreatedEvent {
                    nft_mint: old(ctx).nft_mint.key,
                    vault: old(ctx).vault_key,
                    authority: old(ctx).authority,
                    reward_rate,
                    lock_duration,
                    timestamp: now,
                })
            },
            Err(e) => {
                &&& create_vault_rejection(reward_rate, lock_duration) == Some(e)
                &&& *final(ctx) == *old(ctx)
            },
        },
{
    if reward_rate > 10000 {
        return Err(ErrorCode::RewardRateTooHigh);
    }
    if lock_duration < MIN_LOCK_DURATION {
        return Err(ErrorCode::LockDurationTooShort);
    }
    if lock_duration > MAX_LOCK_DURATION {
        return Err(ErrorCode::LockDurationTooLong);
    }
    ctx.vault = Vault {
        nft_mint: ctx.nft_mint.key,
        authority: ctx.authority,
        token_mint: ctx.token_mint.key,
        vault_token_account: ctx.vault_token_account.key,
        total_staked: 0,
        reward_rate,
        lock_duration,
        created_at: now,
        last_reward_update: now,
        total_penalties_collected: 0,
        is_active: true,
        bump: ctx.bump,
    };
    Ok(
        VaultCreatedEvent {
            nft_mint: ctx.vault.nft_mint,
            vault: ctx.vault_key,
            authority: ctx.vault.authority,
            reward_rate,
            lock_duration,
            timestamp: now,
        },
    )
}

/// The first reason to refuse a deactivation, if there is one.
pub open spec fn deactivate_vault_rejection(ctx: DeactivateVault) -> Option<ErrorCode> {
    if ctx.authority != ctx.vault.authority {
        Some(ErrorCode::Unauthorized)
    } else if !ctx.vault.is_active {
        Some(ErrorCode::VaultAlreadyInactive)
    } else {
        None
    }
}

/// Closes the vault to deposits and claims. Positions stay withdrawable.
///
/// Refused with `Unauthorized` when the caller is not the vault's authority,
/// and with `VaultAlreadyInactive` when the vault is closed already.
pub fn deactivate_vault(ctx: &mut DeactivateVault, now: i64) -> (r: Result<
    VaultDeactivatedEvent,
    ErrorCode,
>)
    ensures
        match r {
            Ok(event) => {
                &&& deactivate_vault_rejection(*old(ctx)) is None
                &&& *final(ctx) == (DeactivateVault {
                    vault: Vault { is_active: false, ..old(ctx).vault },
                    ..*old(ctx)
                })
                &&& event == (VaultDeactivatedEvent {
                    vault: old(ctx).vault_key,
                    authority: old(ctx).authority,
                    timestamp: now,
                })
            },
            Err(e) => {
                &&& deactivate_vault_rejection(*old(ctx)) == Some(e)
                &&& *final(ctx) == *old(ctx)
            },
        },
{
    if !ctx.authority.equals(&ctx.vault.authority) {
        return Err(ErrorCode::Unauthorized);
    }
    if !ctx.vault.is_active {
        return Err(ErrorCode::VaultAlreadyInactive);
    }
    ctx.vault.is_active = false;
    Ok(VaultDeactivatedEvent { vault: ctx.vault_key, authority: ctx.authority, timestamp: now })
}

/// The first reason to refuse a deposit of `amount` at `now`, if there is one.
pub open spec fn deposit_rejection(ctx: DepositTokens, amount: u64, now: i64) -> Option<
    ErrorCode,
> {
    let vault = ctx.vault;
    let stake = ctx.stake_record;
    if ctx.user_token_account.owner != ctx.authority {
        Some(ErrorCode::Unauthorized)
    } else if ctx.vault_token_account.key != vault.vault_token_account {
        Some(ErrorCode::InvalidVaultAccount)
    } else if !vault.is_active {
        Some(ErrorCode::VaultInactive)
    } else if ctx.authority != vault.authority {
        Some(ErrorCode::VaultAuthorityMismatch)
    } else if stake.amount > 0 && !fits_i64(now - stake.staked_at) {
        Some(ErrorCode::Underflow)
    } else if stake.amount > 0 && now - stake.staked_at < DEPOSIT_COOLDOWN {
        Some(ErrorCode::DepositCooldownActive)
    } else if amount < MIN_STAKE_AMOUNT {
        Some(ErrorCode::AmountTooSmall)
    } else if amount > MAX_STAKE_AMOUNT {
        Some(ErrorCode::AmountTooLarge)
    } else if ctx.user_token_account.amount < amount {
        Some(ErrorCode::InsufficientBalance)
    } else if vault.total_staked + amount > u64::MAX {
        Some(ErrorCode::Overflow)
    } else if stake.amount == 0 && !fits_i64(now + vault.lock_duration) {
        Some(ErrorCode::Overflow)
    } else if stake.amount + amount > u64::MAX {
        Some(ErrorCode::Overflow)
    } else {
        None
    }
}

/// The position after a deposit of `amount` at `now`. A deposit into an empty
/// position establishes it: holder, start, maturity and the start of accrual
/// are written. A deposit into a staked position only adds principal: its
/// maturity stays where it was. Rewards paid so far are kept either way.
pub open spec fn deposited_stake(ctx: DepositTokens, amount: u64, now: i64) -> StakeRecord {
    let stake = ctx.stake_record;
    if stake.amount == 0 {
        StakeRecord {
            vault: ctx.vault_key,
            authority: ctx.authority,
            amount,
            staked_at: now,
            unlock_at: (now + ctx.vault.lock_duration) as i64,
            last_claim: now,
            total_claimed: stake.total_claimed,
        }
    } else {
        StakeRecord { amount: (stake.amount + amount) as u64, ..stake }
    }
}

/// The accounts after a deposit of `amount` at `now`.
pub open spec fn deposit_applied(ctx: DepositTokens, amount: u64, now: i64) -> DepositTokens {
    DepositTokens {
        vault: Vault {
            total_staked: (ctx.vault.total_staked + amount) as u64,
            last_reward_update: now,
            ..ctx.vault
        },
        stake_record: deposited_stake(ctx, amount, now),
        ..ctx
    }
}

/// The transfer and the record of a deposit of `amount` at `now`.
pub open spec fn deposit_receipt(ctx: DepositTokens, amount: u64, now: i64) -> DepositReceipt {
    DepositReceipt {
        transfer: Transfer {
            from: ctx.user_token_account.key,
            to: ctx.vault_token_account.key,
            authority: ctx.authority,
            amount,
        },
        event: TokensDepositedEvent {
            vault: ctx.vault_key,
            authority: ctx.authority,
            amount,
            total_staked: (ctx.vault.total_staked + amount) as u64,
            unlock_at: deposited_stake(ctx, amount, now).unlock_at,
            timestamp: now,
        },
    }
}

/// Stakes `amount` for the caller.
///
/// The checks, in order: the funding account is the caller's
/// (`Unauthorized`); the custody account is the vault's
/// (`InvalidVaultAccount`); the vault is active (`VaultInactive`); the caller
/// is the vault's authority (`VaultAuthorityMismatch`); on a staked position,
/// 60 s have passed since it was established (`DepositCooldownActive`;
/// `Underflow` when that time is not representable); the amount is within
/// `[MIN_STAKE_AMOUNT, MAX_STAKE_AMOUNT]` (`AmountTooSmall`,
/// `AmountTooLarge`); the funding account holds it (`InsufficientBalance`);
/// the new totals and the new maturity are representable (`Overflow`).
pub fn deposit_tokens(ctx: &mut DepositTokens, amount: u64, now: i64) -> (r: Result<
    DepositReceipt,
    ErrorCode,
>)
    ensures
        match r {
            Ok(receipt) => {
                &&& deposit_rejection(*old(ctx), amount, now) is None
                &&& *final(ctx) == deposit_applied(*old(ctx), amount, now)
                &&& receipt == deposit_receipt(*old(ctx), amount, now)
            },
            Err(e) => {
                &&& deposit_rejection(*old(ctx), amount, now) == Some(e)
                &&& *final(ctx) == *old(ctx)
            },
        },
{
    if !ctx.user_token_account.owner.equals(&ctx.authority) {
        return Err(ErrorCode::Unauthorized);
    }
    if !ctx.vault_token_account.key.equals(&ctx.vault.vault_token_account) {
        return Err(ErrorCode::InvalidVaultAccount);
    }
    if !ctx.vault.is_active {
        return Err(ErrorCode::VaultInactive);
    }
    if !ctx.authority.equals(&ctx.vault.authority) {
        return Err(ErrorCode::VaultAuthorityMismatch);
    }
    if ctx.stake_record.amount > 0 {
        match cooldown_elapsed(ctx.stake_record.staked_at, now, DEPOSIT_COOLDOWN) {
            Some(true) => {},
            Some(false) => {
                return Err(ErrorCode::DepositCooldownActive);
            },
            None => {
                return Err(ErrorCode::Underflow);
            },
        }
    }
    if amount < MIN_STAKE_AMOUNT {
        return Err(ErrorCode::AmountTooSmall);
    }
    if amount > MAX_STAKE_AMOUNT {
        return Err(ErrorCode::AmountTooLarge);
    }
    if ctx.user_token_account.amount < amount {
        return Err(ErrorCode::InsufficientBalance);
    }
    let new_total = match safe_add(ctx.vault.total_staked, amount) {
        Ok(total) => total,
        Err(e) => {
            return Err(ErrorCode::from_arith(e));
        },
    };
    let stake = if ctx.stake_record.amount == 0 {
        let unlock_at = match safe_add_i64(now, ctx.vault.lock_duration) {
            Ok(time) => time,
            Err(e) => {
                return Err(ErrorCode::from_arith(e));
            },
        };
        StakeRecord {
            vault: ctx.vault_key,
            authority: ctx.authority,
            amount,
            staked_at: now,
            unlock_at,
            last_claim: now,
            total_claimed: ctx.stake_record.total_claimed,
        }
    } else {
        let staked = match safe_add(ctx.stake_record.amount, amount) {
            Ok(staked) => staked,
            Err(e) => {
                return Err(ErrorCode::from_arith(e));
            },
        };
        StakeRecord {
            vault: ctx.stake_record.vault,
            authority: ctx.stake_record.authority,
            amount: staked,
            staked_at: ctx.stake_record.staked_at,
            unlock_at: ctx.stake_record.unlock_at,
            last_claim: ctx.stake_record.last_claim,
            total_claimed: ctx.stake_record.total_claimed,
        }
    };
    ctx.vault.total_staked = new_total;
    ctx.vault.last_reward_update = now;
    ctx.stake_record = stake;
    Ok(
        DepositReceipt {
            transfer: Transfer {
                from: ctx.user_token_account.key,
                to: ctx.vault_token_account.key,
                authority: ctx.authority,
                amount,
            },
            event: TokensDepositedEvent {
                vault: ctx.vault_key,
                authority: ctx.authority,
                amount,
                total_staked: new_total,
                unlock_at: stake.unlock_at,
                timestamp: now,
            },
        },
    )
}

/// The reward figures of a withdrawal at `now`: `(pending_rewards,
/// penalty_to_pool)`. From maturity on, the whole reward accrued since the
/// last claim and no penalty; before, the early-exit split.
pub open spec fn withdrawal_rewards(ctx: WithdrawTokens, now: i64) -> Result<
    (u64, u64),
    ErrorCode,
> {
    let stake = ctx.stake_record;
    if now < stake.unlock_at {
        early_unlock_rewards(
            stake.amount,
            ctx.vault.reward_rate,
            stake.staked_at,
            stake.unlock_at,
            now,
        )
    } else {
        match pending_rewards(stake.amount, ctx.vault.reward_rate, stake.last_claim, now) {
            Ok(full_rewards) => Ok((full_rewards, 0u64)),
            Err(e) => Err(e),
        }
    }
}

/// The first reason to refuse a withdrawal of `amount` at `now`, if there is
/// one.
pub open spec fn withdraw_rejection(ctx: WithdrawTokens, amount: u64, now: i64) -> Option<
    ErrorCode,
> {
    let vault = ctx.vault;
    let stake = ctx.stake_record;
    let rewards = withdrawal_rewards(ctx, now);
    if ctx.user_token_account.owner != ctx.authority {
        Some(ErrorCode::Unauthorized)
    } else if ctx.vault_token_account.key != vault.vault_token_account {
        Some(ErrorCode::InvalidVaultAccount)
    } else if ctx.authority != stake.authority {
        Some(ErrorCode::Unauthorized)
    } else if amount == 0 {
        Some(ErrorCode::AmountTooSmall)
    } else if amount > stake.amount {
        Some(ErrorCode::InsufficientStake)
    } else if rewards is Err {
        Some(rewards->Err_0)
    } else if now < stake.unlock_at && !fits_i64(stake.unlock_at - now) {
        Some(ErrorCode::Underflow)
    } else if vault.total_penalties_collected + rewards->Ok_0.1 > u64::MAX {
        Some(ErrorCode::Overflow)
    } else if vault.total_staked < amount {
        Some(ErrorCode::Underflow)
    } else {
        None
    }
}

/// The accounts after a withdrawal of `amount` at `now`: the position and
/// the vault's total are lowered by `amount`, and the penalty is added to the
/// penalties collected.
pub open spec fn withdraw_applied(ctx: WithdrawTokens, amount: u64, now: i64) -> WithdrawTokens {
    let penalty = withdrawal_rewards(ctx, now)->Ok_0.1;
    WithdrawTokens {
        vault: Vault {
            total_staked: (ctx.vault.total_staked - amount) as u64,
            total_penalties_collected: (ctx.vault.total_penalties_collected + penalty) as u64,
            ..ctx.vault
        },
        stake_record: StakeRecord {
            amount: (ctx.stake_record.amount - amount) as u64,
            ..ctx.stake_record
        },
        ..ctx
    }
}

/// The transfer and the records of a withdrawal of `amount` at `now`. Only
/// the principal moves; the reward figures are reported, not paid.
pub open spec fn withdraw_receipt(ctx: WithdrawTokens, amount: u64, now: i64) -> WithdrawReceipt {
    let stake = ctx.stake_record;
    let (pending_rewards, penalty_to_pool) = withdrawal_rewards(ctx, now)->Ok_0;
    let is_early_unlock = now < stake.unlock_at;
    WithdrawReceipt {
        transfer: Transfer {
            from: ctx.vault_token_account.key,
            to: ctx.user_token_account.key,
            authority: ctx.vault_key,
            amount,
        },
        early_unlock: if is_early_unlock {
            Some(
                EarlyUnlockEvent {
                    vault: ctx.vault_key,
                    authority: ctx.authority,
                    amount,
                    forfeited_rewards: penalty_to_pool,
                    unlock_at: stake.unlock_at,
                    unlocked_at: now,
                    days_early: ((stake.unlock_at - now) / 86400) as i64,
                },
            )
        } else {
            None
        },
        event: TokensWithdrawnEvent {
            vault: ctx.vault_key,
            authority: ctx.authority,
            amount,
            pending_rewards,
            penalty_to_pool,
            remaining_stake: (stake.amount - amount) as u64,
            is_early_unlock,
            timestamp: now,
        },
    }
}

/// Returns `amount` of the caller's principal.
///
/// From `unlock_at` on, the withdrawal is on time: the reward accrued since
/// the last claim is reported and no penalty is taken. Before `unlock_at` it
/// is early: the proportional reward is split into payout and penalty, and
/// the penalty is added to the penalties that the vault has collected. A
/// closed vault still lets its holders withdraw.
///
/// The checks, in order: the receiving account is the caller's
/// (`Unauthorized`); the custody account is the vault's
/// (`InvalidVaultAccount`); the caller holds the position (`Unauthorized`);
/// the amount is positive (`AmountTooSmall`) and no more than is staked
/// (`InsufficientStake`); the reward figures can be computed (their own
/// error); the new totals are representable (`Overflow`, `Underflow`).
pub fn withdraw_tokens(ctx: &mut WithdrawTokens, amount: u64, now: i64) -> (r: Result<
    WithdrawReceipt,
    ErrorCode,
>)
    ensures
        match r {
            Ok(receipt) => {
                &&& withdraw_rejection(*old(ctx), amount, now) is None
                &&& *final(ctx) == withdraw_applied(*old(ctx), amount, now)
                &&& receipt == withdraw_receipt(*old(ctx), amount, now)
            },
            Err(e) => {
                &&& withdraw_rejection(*old(ctx), amount, now) == Some(e)
                &&& *final(ctx) == *old(ctx)
            },
        },
{
    if !ctx.user_token_account.owner.equals(&ctx.authority) {
        return Err(ErrorCode::Unauthorized);
    }
    if !ctx.vault_token_account.key.equals(&ctx.vault.vault_token_account) {
        return Err(ErrorCode::InvalidVaultAccount);
    }
    if !ctx.authority.equals(&ctx.stake_record.authority) {
        return Err(ErrorCode::Unauthorized);
    }
    if amount == 0 {
        return Err(ErrorCode::AmountTooSmall);
    }
    if amount > ctx.stake_record.amount {
        return Err(ErrorCode::InsufficientStake);
    }
    let stake = ctx.stake_record;
    let is_early_unlock = !has_matured(stake.unlock_at, now);
    let pending_rewards: u64;
    let penalty_to_pool: u64;
    let early_unlock: Option<EarlyUnlockEvent>;
    if is_early_unlock {
        let (user_payout, penalty) = match calculate_early_unlock_rewards(
            stake.amount,
            ctx.vault.reward_rate,
            stake.staked_at,
            stake.unlock_at,
            now,
        ) {
            Ok(split) => split,
            Err(e) => {
                return Err(e);
            },
        };
        let seconds_early = match safe_sub_i64(stake.unlock_at, now) {
            Ok(seconds) => seconds,
            Err(e) => {
                return Err(ErrorCode::from_arith(e));
            },
        };
        let days_early = match safe_div_i64(seconds_early, SECONDS_PER_DAY) {
            Ok(days) => days,
            Err(e) => {
                return Err(ErrorCode::from_arith(e));
            },
        };
        pending_rewards = user_payout;
        penalty_to_pool = penalty;
        early_unlock = Some(
            EarlyUnlockEvent {
                vault: ctx.vault_key,
                authority: ctx.authority,
                amount,
                forfeited_rewards: penalty,
                unlock_at: stake.unlock_at,
                unlocked_at: now,
                days_early,
            },
        );
    } else {
        let full_rewards = match calculate_pending_rewards(
            stake.amount,
            ctx.vault.reward_rate,
            stake.last_claim,
            now,
        ) {
            Ok(rewards) => rewards,
            Err(e) => {
                return Err(e);
            },
        };
        pending_rewards = full_rewards;
        penalty_to_pool = 0;
        early_unlock = None;
    }
    let penalties_collected = match safe_add(ctx.vault.total_penalties_collected, penalty_to_pool) {
        Ok(collected) => collected,
        Err(e) => {
            return Err(ErrorCode::from_arith(e));
        },
    };
    let remaining_stake = match safe_sub(stake.amount, amount) {
        Ok(remaining) => remaining,
        Err(e) => {
            return Err(ErrorCode::from_arith(e));
        },
    };
    let total_staked = match safe_sub(ctx.vault.total_staked, amount) {
        Ok(total) => total,
        Err(e) => {
            return Err(ErrorCode::from_arith(e));
        },
    };
    ctx.vault.total_penalties_collected = penalties_collected;
    ctx.vault.total_staked = total_staked;
    ctx.stake_record.amount = remaining_stake;
    Ok(
        WithdrawReceipt {
            transfer: Transfer {
                from: ctx.vault_token_account.key,
                to: ctx.user_token_account.key,
                authority: ctx.vault_key,
                amount,
            },
            early_unlock,
            event: TokensWithdrawnEvent {
                vault: ctx.vault_key,
                authority: ctx.authority,
                amount,
                pending_rewards,
                penalty_to_pool,
                remaining_stake,
                is_early_unlock,
                timestamp: now,
            },
        },
    )
}

/// The first reason to refuse a claim at `now`, if there is one.
pub open spec fn claim_rejection(ctx: ClaimRewards, now: i64) -> Option<ErrorCode> {
    let vault = ctx.vault;
    let stake = ctx.stake_record;
    let rewards = pending_rewards(stake.amount, vault.reward_rate, stake.last_claim, now);
    if ctx.user_token_account.owner != ctx.authority {
        Some(ErrorCode::Unauthorized)
    } else if ctx.vault_token_account.key != vault.vault_token_account {
        Some(ErrorCode::InvalidVaultAccount)
    } else if ctx.authority != stake.authority {
        Some(ErrorCode::Unauthorized)
    } else if !vault.is_active {
        Some(ErrorCode::VaultInactive)
    } else if now < stake.unlock_at {
        Some(ErrorCode::StillLocked)
    } else if !fits_i64(now - stake.last_claim) {
        Some(ErrorCode::Overflow)
    } else if now - stake.last_claim < CLAIM_COOLDOWN {
        Some(ErrorCode::ClaimCooldownActive)
    } else if rewards is Err {
        Some(rewards->Err_0)
    } else if rewards->Ok_0 == 0 {
        Some(ErrorCode::NoRewardsToClaim)
    } else if ctx.vault_token_account.amount < rewards->Ok_0 {
        Some(ErrorCode::InsufficientVaultBalance)
    } else if stake.total_claimed + rewards->Ok_0 > u64::MAX {
        Some(ErrorCode::Overflow)
    } else {
        None
    }
}

/// The reward that a claim at `now` pays: what accrued on the position since
/// its last claim.
pub open spec fn claimable_reward(ctx: ClaimRewards, now: i64) -> u64 {
    pending_rewards(
        ctx.stake_record.amount,
        ctx.vault.reward_rate,
        ctx.stake_record.last_claim,
        now,
    )->Ok_0
}

/// The accounts after a claim at `now`: accrual restarts at `now` and the
/// reward is added to the rewards paid so far.
pub open spec fn claim_applied(ctx: ClaimRewards, now: i64) -> ClaimRewards {
    ClaimRewards {
        stake_record: StakeRecord {
            last_claim: now,
            total_claimed: (ctx.stake_record.total_claimed + claimable_reward(ctx, now)) as u64,
            ..ctx.stake_record
        },
        ..ctx
    }
}

/// The transfer and the record of a claim at `now`.
pub open spec fn claim_receipt(ctx: ClaimRewards, now: i64) -> ClaimReceipt {
    ClaimReceipt {
        transfer: Transfer {
            from: ctx.vault_token_account.key,
            to: ctx.user_token_account.key,
            authority: ctx.vault_key,
            amount: claimable_reward(ctx, now),
        },
        event: RewardsClaimedEvent {
            vault: ctx.vault_key,
            authority: ctx.authority,
            amount: claimable_reward(ctx, now),
            total_claimed: (ctx.stake_record.total_claimed + claimable_reward(ctx, now)) as u64,
            timestamp: now,
        },
    }
}

/// Pays the caller the reward accrued since the last claim.
///
/// The checks, in order: the receiving account is the caller's
/// (`Unauthorized`); the custody account is the vault's
/// (`InvalidVaultAccount`); the caller holds the position (`Unauthorized`);
/// the vault is active (`VaultInactive`); the position has matured
/// (`StillLocked`); an hour has passed since the last claim
/// (`ClaimCooldownActive`; `Overflow` when that time is not representable);
/// the reward fits in 64 bits (`Overflow`) and is not zero
/// (`NoRewardsToClaim`); custody holds it (`InsufficientVaultBalance`); the
/// rewards paid so far stay representable (`Overflow`).
pub fn claim_rewards(ctx: &mut ClaimRewards, now: i64) -> (r: Result<ClaimReceipt, ErrorCode>)
    ensures
        match r {
            Ok(receipt) => {
                &&& claim_rejection(*old(ctx), now) is None
                &&& *final(ctx) == claim_applied(*old(ctx), now)
                &&& receipt == claim_receipt(*old(ctx), now)
            },
            Err(e) => {
                &&& claim_rejection(*old(ctx), now) == Some(e)
                &&& *final(ctx) == *old(ctx)
            },
        },
{
    if !ctx.user_token_account.owner.equals(&ctx.authority) {
        return Err(ErrorCode::Unauthorized);
    }
    if !ctx.vault_token_account.key.equals(&ctx.vault.vault_token_account) {
        return Err(ErrorCode::InvalidVaultAccount);
    }
    if !ctx.authority.equals(&ctx.stake_record.authority) {
        return Err(ErrorCode::Unauthorized);
    }
    if !ctx.vault.is_active {
        return Err(ErrorCode::VaultInactive);
    }
    if !has_matured(ctx.stake_record.unlock_at, now) {
        return Err(ErrorCode::StillLocked);
    }
    match cooldown_elapsed(ctx.stake_record.last_claim, now, CLAIM_COOLDOWN) {
        Some(true) => {},
        Some(false) => {
            return Err(ErrorCode::ClaimCooldownActive);
        },
        None => {
            return Err(ErrorCode::Overflow);
        },
    }
    let pending = match calculate_pending_rewards(
        ctx.stake_record.amount,
        ctx.vault.reward_rate,
        ctx.stake_record.last_claim,
        now,
    ) {
        Ok(rewards) => rewards,
        Err(e) => {
            return Err(e);
        },
    };
    if pending == 0 {
        return Err(ErrorCode::NoRewardsToClaim);
    }
    if ctx.vault_token_account.amount < pending {
        return Err(ErrorCode::InsufficientVaultBalance);
    }
    let total_claimed = match ctx.stake_record.total_claimed.checked_add(pending) {
        Some(total) => total,
        None => {
            return Err(ErrorCode::Overflow);
        },
    };
    ctx.stake_record.last_claim = now;
    ctx.stake_record.total_claimed = total_claimed;
    Ok(
        ClaimReceipt {
            transfer: Transfer {
                from: ctx.vault_token_account.key,
                to: ctx.user_token_account.key,
                authority: ctx.vault_key,
                amount: pending,
            },
            event: RewardsClaimedEvent {
                vault: ctx.vault_key,
                authority: ctx.authority,
                amount: pending,
                total_claimed,
                timestamp: now,
            },
        },
    )
}

} // verus!
