//! What holds of the vault operations on every input.

use crate::keys::TokenAccount;
use crate::vault::instructions::{
    claim_applied, claim_receipt, claim_rejection, deactivate_vault_rejection, deposit_applied,
    deposit_rejection, withdraw_applied, withdraw_receipt, withdraw_rejection, ClaimRewards,
    DeactivateVault, DepositTokens, WithdrawTokens,
};
use crate::vault::rewards::{accrued_reward, pending_rewards};
use crate::vault::state::{ErrorCode, StakePhase, Vault, CLAIM_COOLDOWN};
use vstd::prelude::*;

verus! {

/// A deposit never lowers the rewards paid so far, and where accrual had
/// started no later than `now`, it does not move that start back, nor past
/// `now`.
pub proof fn law_deposit_keeps_claims_monotonic(ctx: DepositTokens, amount: u64, now: i64)
    requires
        deposit_rejection(ctx, amount, now) is None,
        ctx.stake_record.last_claim <= now,
    ensures
        ({
            let before = ctx.stake_record;
            let after = deposit_applied(ctx, amount, now).stake_record;
            &&& before.total_claimed <= after.total_claimed
            &&& before.last_claim <= after.last_claim <= now
        }),
{
}

/// A withdrawal changes neither the rewards paid so far nor the start of
/// accrual.
pub proof fn law_withdraw_keeps_claims_monotonic(ctx: WithdrawTokens, amount: u64, now: i64)
    requires
        withdraw_rejection(ctx, amount, now) is None,
        ctx.stake_record.last_claim <= now,
    ensures
        ({
            let before = ctx.stake_record;
            let after = withdraw_applied(ctx, amount, now).stake_record;
            &&& before.total_claimed == after.total_claimed
            &&& before.last_claim == after.last_claim <= now
        }),
{
}

/// A claim raises the rewards paid so far by what it pays, and moves the
/// start of accrual forward to `now`.
pub proof fn law_claim_keeps_claims_monotonic(ctx: ClaimRewards, now: i64)
    requires
        claim_rejection(ctx, now) is None,
    ensures
        ({
            let before = ctx.stake_record;
            let after = claim_applied(ctx, now).stake_record;
            &&& after.total_claimed == before.total_claimed + claim_receipt(ctx, now).transfer.amount
            &&& before.total_claimed < after.total_claimed
            &&& before.last_claim < after.last_claim == now
        }),
{
}

/// A withdrawal at or after `unlock_at`, the very second of maturity
/// included, is on time: no early-exit record, no penalty, the penalties
/// collected unchanged, and the reported reward the whole reward accrued
/// since the last claim.
pub proof fn law_withdrawal_from_maturity_is_on_time(ctx: WithdrawTokens, amount: u64, now: i64)
    requires
        withdraw_rejection(ctx, amount, now) is None,
        now >= ctx.stake_record.unlock_at,
    ensures
        ({
            let receipt = withdraw_receipt(ctx, amount, now);
            &&& !receipt.event.is_early_unlock
            &&& receipt.early_unlock is None
            &&& receipt.event.penalty_to_pool == 0
            &&& receipt.event.pending_rewards == accrued_reward(
                ctx.stake_record.amount as int,
                ctx.vault.reward_rate as int,
                ctx.stake_record.last_claim as int,
                now as int,
            )
            &&& withdraw_applied(ctx, amount, now).vault.total_penalties_collected
                == ctx.vault.total_penalties_collected
        }),
{
}

/// A withdrawal before `unlock_at` is early: it is recorded as such, and
/// payout and penalty add up to the reward earned in proportion to the time
/// staked.
pub proof fn law_withdrawal_before_maturity_is_early(ctx: WithdrawTokens, amount: u64, now: i64)
    requires
        withdraw_rejection(ctx, amount, now) is None,
        now < ctx.stake_record.unlock_at,
    ensures
        ({
            let stake = ctx.stake_record;
            let receipt = withdraw_receipt(ctx, amount, now);
            let potential = accrued_reward(
                stake.amount as int,
                ctx.vault.reward_rate as int,
                stake.staked_at as int,
                stake.unlock_at as int,
            );
            &&& receipt.event.is_early_unlock
            &&& receipt.early_unlock is Some
            &&& receipt.early_unlock->Some_0.forfeited_rewards == receipt.event.penalty_to_pool
            &&& receipt.event.pending_rewards + receipt.event.penalty_to_pool == potential * (now
                - stake.staked_at) / (stake.unlock_at - stake.staked_at)
            &&& withdraw_applied(ctx, amount, now).vault.total_penalties_collected
                == ctx.vault.total_penalties_collected + receipt.event.penalty_to_pool
        }),
{
}

/// The accounts of a second claim: those that the first claim at `first`
/// left, with custody holding `custody_after`.
pub open spec fn after_claim(ctx: ClaimRewards, first: i64, custody_after: u64) -> ClaimRewards {
    ClaimRewards {
        vault_token_account: TokenAccount { amount: custody_after, ..ctx.vault_token_account },
        ..claim_applied(ctx, first)
    }
}

/// After a claim at `first`, a claim less than an hour later is refused with
/// `ClaimCooldownActive`, whatever custody holds.
pub proof fn law_claim_within_cooldown_is_refused(
    ctx: ClaimRewards,
    first: i64,
    second: i64,
    custody_after: u64,
)
    requires
        claim_rejection(ctx, first) is None,
        first <= second < first + CLAIM_COOLDOWN,
    ensures
        claim_rejection(after_claim(ctx, first, custody_after), second) == Some(
            ErrorCode::ClaimCooldownActive,
        ),
{
}

/// After a claim at `first`, a claim exactly an hour later is accepted
/// wherever a reward has accrued in that hour, custody holds it and the
/// rewards paid so far stay representable.
pub proof fn law_claim_at_cooldown_is_accepted(ctx: ClaimRewards, first: i64, custody_after: u64)
    requires
        claim_rejection(ctx, first) is None,
        first + CLAIM_COOLDOWN <= i64::MAX,
        ({
            let reward = accrued_reward(
                ctx.stake_record.amount as int,
                ctx.vault.reward_rate as int,
                first as int,
                first + CLAIM_COOLDOWN,
            );
            &&& 0 < reward <= custody_after
            &&& claim_applied(ctx, first).stake_record.total_claimed + reward <= u64::MAX
        }),
    ensures
        claim_rejection(
            after_claim(ctx, first, custody_after),
            (first + CLAIM_COOLDOWN) as i64,
        ) is None,
{
}

/// A closed vault cannot be closed again: the attempt is refused, with
/// `VaultAlreadyInactive` where the caller is the authority, and never
/// passes as done.
pub proof fn law_deactivation_is_not_repeated(ctx: DeactivateVault)
    ensures
        !ctx.vault.is_active ==> deactivate_vault_rejection(ctx) is Some,
        !ctx.vault.is_active && ctx.authority == ctx.vault.authority
            ==> deactivate_vault_rejection(ctx) == Some(ErrorCode::VaultAlreadyInactive),
        deactivate_vault_rejection(ctx) is None ==> deactivate_vault_rejection(
            DeactivateVault { vault: Vault { is_active: false, ..ctx.vault }, ..ctx },
        ) == Some(ErrorCode::VaultAlreadyInactive),
{
}

/// A claim never pays zero: where no reward has accrued the claim is
/// refused, with `NoRewardsToClaim` once every earlier check has passed, and
/// an accepted claim pays a positive amount.
pub proof fn law_zero_reward_is_never_paid(ctx: ClaimRewards, now: i64)
    ensures
        pending_rewards(
            ctx.stake_record.amount,
            ctx.vault.reward_rate,
            ctx.stake_record.last_claim,
            now,
        ) == Ok::<u64, ErrorCode>(0) ==> claim_rejection(ctx, now) is Some,
        ({
            &&& ctx.user_token_account.owner == ctx.authority
            &&& ctx.vault_token_account.key == ctx.vault.vault_token_account
            &&& ctx.authority == ctx.stake_record.authority
            &&& ctx.vault.is_active
            &&& now >= ctx.stake_record.unlock_at
            &&& CLAIM_COOLDOWN <= now - ctx.stake_record.last_claim <= i64::MAX
            &&& accrued_reward(
                ctx.stake_record.amount as int,
                ctx.vault.reward_rate as int,
                ctx.stake_record.last_claim as int,
                now as int,
            ) == 0
        }) ==> claim_rejection(ctx, now) == Some(ErrorCode::NoRewardsToClaim),
        claim_rejection(ctx, now) is None ==> claim_receipt(ctx, now).transfer.amount > 0
            && claim_receipt(ctx, now).event.amount > 0,
{
}

/// Rewards are claimed only on a matured position: an accepted claim finds
/// principal staked and `unlock_at` reached.
pub proof fn law_claim_needs_maturity(ctx: ClaimRewards, now: i64)
    requires
        claim_rejection(ctx, now) is None,
    ensures
        ctx.stake_record.phase_at(now) == StakePhase::Unlockable,
{
    crate::vault::rewards::lemma_accrued_reward_bounds(
        ctx.stake_record.amount as int,
        ctx.vault.reward_rate as int,
        ctx.stake_record.last_claim as int,
        now as int,
    );
}

/// A closed vault takes no deposit and pays no claim, and lets its holders
/// withdraw as before.
pub proof fn law_closed_vault_only_releases(
    deposit: DepositTokens,
    withdrawal: WithdrawTokens,
    claim: ClaimRewards,
    amount: u64,
    now: i64,
)
    ensures
        !deposit.vault.is_active ==> deposit_rejection(deposit, amount, now) is Some,
        !claim.vault.is_active ==> claim_rejection(claim, now) is Some,
        withdraw_rejection(withdrawal, amount, now) == withdraw_rejection(
            WithdrawTokens {
                vault: Vault { is_active: !withdrawal.vault.is_active, ..withdrawal.vault },
                ..withdrawal
            },
            amount,
            now,
        ),
{
}

/// In a vault whose lock is within bounds, a deposit leaves a position that
/// is staked and does not mature before it starts. A deposit into an empty
/// position leaves it locked, to mature one lock after `now`.
pub proof fn law_deposit_stakes_the_position(ctx: DepositTokens, amount: u64, now: i64)
    requires
        deposit_rejection(ctx, amount, now) is None,
        ctx.vault.well_formed(),
        ctx.stake_record.well_formed(),
    ensures
        ({
            let after = deposit_applied(ctx, amount, now);
            &&& after.vault.well_formed()
            &&& after.stake_record.well_formed()
            &&& after.stake_record.phase_at(now) != StakePhase::Empty
            &&& after.stake_record.amount == ctx.stake_record.amount + amount
            &&& after.vault.total_staked == ctx.vault.total_staked + amount
            &&& ctx.stake_record.phase_at(now) == StakePhase::Empty ==> {
                &&& after.stake_record.phase_at(now) == StakePhase::Locked
                &&& after.stake_record.unlock_at == now + ctx.vault.lock_duration
            }
            &&& ctx.stake_record.phase_at(now) != StakePhase::Empty
                ==> after.stake_record.unlock_at == ctx.stake_record.unlock_at
        }),
{
}

/// A withdrawal leaves the times of the position as they were and lowers
/// position and total by the amount withdrawn; a withdrawal of all that is
/// staked leaves the position empty.
pub proof fn law_withdrawal_releases_principal(ctx: WithdrawTokens, amount: u64, now: i64)
    requires
        withdraw_rejection(ctx, amount, now) is None,
    ensures
        ({
            let after = withdraw_applied(ctx, amount, now);
            &&& after.stake_record.staked_at == ctx.stake_record.staked_at
            &&& after.stake_record.unlock_at == ctx.stake_record.unlock_at
            &&& after.stake_record.amount == ctx.stake_record.amount - amount
            &&& after.vault.total_staked == ctx.vault.total_staked - amount
            &&& withdraw_receipt(ctx, amount, now).transfer.amount == amount
            &&& amount == ctx.stake_record.amount ==> after.stake_record.phase_at(now)
                == StakePhase::Empty
        }),
{
}

/// A claim moves no principal: the position's amount, start and maturity and
/// the vault stay as they were, and no more is paid than custody holds.
pub proof fn law_claim_moves_no_principal(ctx: ClaimRewards, now: i64)
    requires
        claim_rejection(ctx, now) is None,
    ensures
        ({
            let after = claim_applied(ctx, now);
            &&& after.vault == ctx.vault
            &&& after.stake_record.amount == ctx.stake_record.amount
            &&& after.stake_record.staked_at == ctx.stake_record.staked_at
            &&& after.stake_record.unlock_at == ctx.stake_record.unlock_at
            &&& after.stake_record.phase_at(now) == StakePhase::Unlockable
            &&& claim_receipt(ctx, now).transfer.amount <= ctx.vault_token_account.amount
        }),
{
    law_claim_needs_maturity(ctx, now);
}

} // verus!
