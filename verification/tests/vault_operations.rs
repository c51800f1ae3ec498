use pangi::keys::{Mint, Pubkey, TokenAccount, Transfer};
use pangi::vault::events::{
    EarlyUnlockEvent, RewardsClaimedEvent, TokensDepositedEvent, TokensWithdrawnEvent,
    VaultCreatedEvent, VaultDeactivatedEvent,
};
use pangi::vault::instructions::{
    claim_rewards, create_vault, deactivate_vault, deposit_tokens, withdraw_tokens, ClaimRewards,
    CreateVault, DeactivateVault, DepositTokens, WithdrawTokens,
};
use pangi::vault::state::{ErrorCode, StakePhase, StakeRecord, Vault};

const YEAR: i64 = 31_536_000;
const DAY: i64 = 86_400;
const T0: i64 = 1_700_000_000;

fn key(n: u8) -> Pubkey {
    Pubkey::new([n; 32])
}

fn vault_key() -> Pubkey {
    key(1)
}

fn holder() -> Pubkey {
    key(2)
}

fn custody_at(amount: u64) -> TokenAccount {
    TokenAccount { key: key(3), owner: vault_key(), mint: key(4), amount }
}

fn wallet_of(owner: Pubkey, amount: u64) -> TokenAccount {
    TokenAccount { key: key(5), owner, mint: key(4), amount }
}

fn vault_of(reward_rate: u16, lock_duration: i64) -> Vault {
    Vault {
        nft_mint: key(6),
        authority: holder(),
        token_mint: key(4),
        vault_token_account: key(3),
        total_staked: 0,
        reward_rate,
        lock_duration,
        created_at: T0,
        last_reward_update: T0,
        total_penalties_collected: 0,
        is_active: true,
        bump: 254,
    }
}

fn staked(amount: u64, staked_at: i64, lock_duration: i64) -> StakeRecord {
    StakeRecord {
        vault: vault_key(),
        authority: holder(),
        amount,
        staked_at,
        unlock_at: staked_at + lock_duration,
        last_claim: staked_at,
        total_claimed: 0,
    }
}

fn creation() -> CreateVault {
    CreateVault {
        vault_key: vault_key(),
        vault: vault_of(0, 0),
        nft_mint: Mint { key: key(6), supply: 1, decimals: 0 },
        token_mint: Mint { key: key(4), supply: 1_000_000_000_000_000_000, decimals: 9 },
        vault_token_account: custody_at(0),
        authority: holder(),
        bump: 254,
    }
}

fn deposit_into(vault: Vault, stake_record: StakeRecord, balance: u64) -> DepositTokens {
    DepositTokens {
        vault_key: vault_key(),
        vault,
        stake_record,
        user_token_account: wallet_of(holder(), balance),
        vault_token_account: custody_at(vault.total_staked),
        authority: holder(),
    }
}

fn withdrawal_from(vault: Vault, stake_record: StakeRecord) -> WithdrawTokens {
    WithdrawTokens {
        vault_key: vault_key(),
        vault,
        stake_record,
        user_token_account: wallet_of(holder(), 0),
        vault_token_account: custody_at(vault.total_staked),
        authority: holder(),
    }
}

fn claim_on(vault: Vault, stake_record: StakeRecord, custody: u64) -> ClaimRewards {
    ClaimRewards {
        vault_key: vault_key(),
        vault,
        stake_record,
        user_token_account: wallet_of(holder(), 0),
        vault_token_account: custody_at(custody),
        authority: holder(),
    }
}

#[test]
fn create_vault_writes_an_active_vault_with_zero_totals() {
    let mut ctx = creation();
    let event = create_vault(&mut ctx, 1000, 100 * DAY, T0);
    assert_eq!(
        event,
        Ok(VaultCreatedEvent {
            nft_mint: key(6),
            vault: vault_key(),
            authority: holder(),
            reward_rate: 1000,
            lock_duration: 100 * DAY,
            timestamp: T0,
        })
    );
    assert_eq!(ctx.vault, vault_of(1000, 100 * DAY));
    assert_eq!(ctx.vault.total_staked, 0);
    assert_eq!(ctx.vault.total_penalties_collected, 0);
    assert!(ctx.vault.is_active);
}

#[test]
fn create_vault_accepts_the_bounds() {
    assert!(create_vault(&mut creation(), 10000, 60, T0).is_ok());
    assert!(create_vault(&mut creation(), 0, YEAR, T0).is_ok());
}

#[test]
fn create_vault_refuses_what_is_out_of_bounds() {
    let before = creation();
    let mut ctx = creation();
    assert_eq!(create_vault(&mut ctx, 10001, 100, T0), Err(ErrorCode::RewardRateTooHigh));
    assert_eq!(create_vault(&mut ctx, 1000, 59, T0), Err(ErrorCode::LockDurationTooShort));
    assert_eq!(create_vault(&mut ctx, 1000, -1, T0), Err(ErrorCode::LockDurationTooShort));
    assert_eq!(create_vault(&mut ctx, 1000, YEAR + 1, T0), Err(ErrorCode::LockDurationTooLong));
    // the rate is checked first
    assert_eq!(create_vault(&mut ctx, 10001, 59, T0), Err(ErrorCode::RewardRateTooHigh));
    assert_eq!(ctx, before);
}

#[test]
fn first_deposit_establishes_the_position() {
    let mut ctx = deposit_into(vault_of(1000, 100 * DAY), StakeRecord::new(), 5_000_000_000);
    let receipt = deposit_tokens(&mut ctx, 1_000_000_000, T0 + 10).unwrap();

    assert_eq!(
        ctx.stake_record,
        StakeRecord {
            vault: vault_key(),
            authority: holder(),
            amount: 1_000_000_000,
            staked_at: T0 + 10,
            unlock_at: T0 + 10 + 100 * DAY,
            last_claim: T0 + 10,
            total_claimed: 0,
        }
    );
    assert_eq!(ctx.vault.total_staked, 1_000_000_000);
    assert_eq!(ctx.vault.last_reward_update, T0 + 10);
    assert_eq!(
        receipt.transfer,
        Transfer { from: key(5), to: key(3), authority: holder(), amount: 1_000_000_000 }
    );
    assert_eq!(
        receipt.event,
        TokensDepositedEvent {
            vault: vault_key(),
            authority: holder(),
            amount: 1_000_000_000,
            total_staked: 1_000_000_000,
            unlock_at: T0 + 10 + 100 * DAY,
            timestamp: T0 + 10,
        }
    );
}

#[test]
fn later_deposit_adds_principal_and_keeps_the_maturity() {
    let mut vault = vault_of(1000, 100 * DAY);
    vault.total_staked = 1_000_000_000;
    let mut ctx = deposit_into(vault, staked(1_000_000_000, T0, 100 * DAY), 5_000_000_000);
    let receipt = deposit_tokens(&mut ctx, 2_000_000, T0 + 60).unwrap();

    assert_eq!(ctx.stake_record.amount, 1_002_000_000);
    assert_eq!(ctx.stake_record.staked_at, T0);
    assert_eq!(ctx.stake_record.unlock_at, T0 + 100 * DAY);
    assert_eq!(ctx.stake_record.last_claim, T0);
    assert_eq!(ctx.vault.total_staked, 1_002_000_000);
    assert_eq!(receipt.event.unlock_at, T0 + 100 * DAY);
    assert_eq!(receipt.event.total_staked, 1_002_000_000);
}

#[test]
fn deposit_within_the_cooldown_is_refused() {
    let mut vault = vault_of(1000, 100 * DAY);
    vault.total_staked = 1_000_000_000;
    let before = deposit_into(vault, staked(1_000_000_000, T0, 100 * DAY), 5_000_000_000);
    let mut ctx = before;
    assert_eq!(deposit_tokens(&mut ctx, 2_000_000, T0 + 59), Err(ErrorCode::DepositCooldownActive));
    assert_eq!(deposit_tokens(&mut ctx, 2_000_000, T0), Err(ErrorCode::DepositCooldownActive));
    assert_eq!(deposit_tokens(&mut ctx, 2_000_000, T0 - 5), Err(ErrorCode::DepositCooldownActive));
    assert_eq!(ctx, before);
    assert!(deposit_tokens(&mut ctx, 2_000_000, T0 + 60).is_ok());
}

#[test]
fn deposit_into_an_emptied_position_keeps_the_rewards_paid() {
    let mut emptied = staked(0, T0, 100 * DAY);
    emptied.total_claimed = 777;
    let mut ctx = deposit_into(vault_of(1000, 100 * DAY), emptied, 5_000_000_000);
    // an empty position has no cooldown
    deposit_tokens(&mut ctx, 1_000_000, T0 + 1).unwrap();
    assert_eq!(ctx.stake_record.total_claimed, 777);
    assert_eq!(ctx.stake_record.staked_at, T0 + 1);
    assert_eq!(ctx.stake_record.unlock_at, T0 + 1 + 100 * DAY);
    assert_eq!(ctx.stake_record.last_claim, T0 + 1);
    assert_eq!(ctx.stake_record.amount, 1_000_000);
}

#[test]
fn deposit_amount_bounds() {
    let fresh = deposit_into(vault_of(1000, 100 * DAY), StakeRecord::new(), u64::MAX);
    let mut ctx = fresh;
    assert_eq!(deposit_tokens(&mut ctx, 999_999, T0), Err(ErrorCode::AmountTooSmall));
    assert_eq!(deposit_tokens(&mut ctx, 0, T0), Err(ErrorCode::AmountTooSmall));
    assert_eq!(
        deposit_tokens(&mut ctx, 1_000_000_000_000_001, T0),
        Err(ErrorCode::AmountTooLarge)
    );
    assert_eq!(ctx, fresh);
    assert!(deposit_tokens(&mut ctx, 1_000_000, T0).is_ok());
    let mut ctx = fresh;
    assert!(deposit_tokens(&mut ctx, 1_000_000_000_000_000, T0).is_ok());
}

#[test]
fn deposit_authorization_and_state_errors() {
    let good = deposit_into(vault_of(1000, 100 * DAY), StakeRecord::new(), 5_000_000);

    let mut ctx = good;
    ctx.user_token_account.owner = key(9);
    assert_eq!(deposit_tokens(&mut ctx, 1_000_000, T0), Err(ErrorCode::Unauthorized));

    let mut ctx = good;
    ctx.vault_token_account.key = key(9);
    assert_eq!(deposit_tokens(&mut ctx, 1_000_000, T0), Err(ErrorCode::InvalidVaultAccount));

    let mut ctx = good;
    ctx.vault.is_active = false;
    assert_eq!(deposit_tokens(&mut ctx, 1_000_000, T0), Err(ErrorCode::VaultInactive));

    let mut ctx = good;
    ctx.authority = key(9);
    ctx.user_token_account.owner = key(9);
    assert_eq!(deposit_tokens(&mut ctx, 1_000_000, T0), Err(ErrorCode::VaultAuthorityMismatch));

    let mut ctx = good;
    assert_eq!(deposit_tokens(&mut ctx, 5_000_001, T0), Err(ErrorCode::InsufficientBalance));
    assert_eq!(ctx, good);
    assert!(deposit_tokens(&mut ctx, 5_000_000, T0).is_ok());
}

#[test]
fn deposit_arithmetic_errors() {
    let mut vault = vault_of(1000, 100 * DAY);
    vault.total_staked = u64::MAX - 999_999;
    let mut ctx = deposit_into(vault, StakeRecord::new(), u64::MAX);
    assert_eq!(deposit_tokens(&mut ctx, 1_000_000, T0), Err(ErrorCode::Overflow));

    let mut ctx = deposit_into(vault_of(1000, 100 * DAY), StakeRecord::new(), u64::MAX);
    assert_eq!(deposit_tokens(&mut ctx, 1_000_000, i64::MAX - 10), Err(ErrorCode::Overflow));

    let mut ctx =
        deposit_into(vault_of(1000, 100 * DAY), staked(1_000_000, -2, 100 * DAY), u64::MAX);
    assert_eq!(deposit_tokens(&mut ctx, 1_000_000, i64::MAX), Err(ErrorCode::Underflow));

    let mut vault = vault_of(1000, 100 * DAY);
    vault.total_staked = 5;
    let mut ctx = deposit_into(vault, staked(u64::MAX - 5, T0, 100 * DAY), u64::MAX);
    assert_eq!(deposit_tokens(&mut ctx, 1_000_000, T0 + 60), Err(ErrorCode::Overflow));
}

#[test]
fn withdrawal_exactly_at_maturity_is_on_time() {
    let mut vault = vault_of(1000, YEAR);
    vault.total_staked = 1_000_000_000;
    let mut ctx = withdrawal_from(vault, staked(1_000_000_000, T0, YEAR));
    let receipt = withdraw_tokens(&mut ctx, 400_000_000, T0 + YEAR).unwrap();

    assert_eq!(receipt.early_unlock, None);
    assert_eq!(
        receipt.event,
        TokensWithdrawnEvent {
            vault: vault_key(),
            authority: holder(),
            amount: 400_000_000,
            pending_rewards: 100_000_000,
            penalty_to_pool: 0,
            remaining_stake: 600_000_000,
            is_early_unlock: false,
            timestamp: T0 + YEAR,
        }
    );
    assert_eq!(
        receipt.transfer,
        Transfer { from: key(3), to: key(5), authority: vault_key(), amount: 400_000_000 }
    );
    assert_eq!(ctx.vault.total_penalties_collected, 0);
    assert_eq!(ctx.vault.total_staked, 600_000_000);
    assert_eq!(ctx.stake_record.amount, 600_000_000);
    assert_eq!(ctx.stake_record.last_claim, T0);
    assert_eq!(ctx.stake_record.total_claimed, 0);
}

#[test]
fn withdrawal_one_second_before_maturity_is_early() {
    let mut vault = vault_of(1000, YEAR);
    vault.total_staked = 1_000_000_000;
    let mut ctx = withdrawal_from(vault, staked(1_000_000_000, T0, YEAR));
    let receipt = withdraw_tokens(&mut ctx, 1_000_000_000, T0 + YEAR - 1).unwrap();

    assert!(receipt.event.is_early_unlock);
    assert_eq!(receipt.event.pending_rewards, 84_999_997);
    assert_eq!(receipt.event.penalty_to_pool, 14_999_999);
    assert_eq!(
        receipt.early_unlock,
        Some(EarlyUnlockEvent {
            vault: vault_key(),
            authority: holder(),
            amount: 1_000_000_000,
            forfeited_rewards: 14_999_999,
            unlock_at: T0 + YEAR,
            unlocked_at: T0 + YEAR - 1,
            days_early: 0,
        })
    );
    assert_eq!(ctx.vault.total_penalties_collected, 14_999_999);
    assert_eq!(ctx.stake_record.amount, 0);
    assert_eq!(ctx.vault.total_staked, 0);
}

#[test]
fn early_withdrawal_at_day_fifty_of_a_hundred() {
    let mut vault = vault_of(1000, 100 * DAY);
    vault.total_staked = 3_000_000_000;
    vault.total_penalties_collected = 6;
    let mut ctx = withdrawal_from(vault, staked(1_000_000_000, T0, 100 * DAY));
    let receipt = withdraw_tokens(&mut ctx, 250_000_000, T0 + 50 * DAY).unwrap();

    assert_eq!(receipt.event.pending_rewards, 11_643_836);
    assert_eq!(receipt.event.penalty_to_pool, 2_054_794);
    assert_eq!(receipt.event.pending_rewards + receipt.event.penalty_to_pool, 13_698_630);
    assert_eq!(receipt.early_unlock.unwrap().days_early, 50);
    assert_eq!(receipt.early_unlock.unwrap().forfeited_rewards, 2_054_794);
    // only the principal moves
    assert_eq!(receipt.transfer.amount, 250_000_000);
    assert_eq!(ctx.vault.total_penalties_collected, 2_054_800);
    assert_eq!(ctx.vault.total_staked, 2_750_000_000);
    assert_eq!(ctx.stake_record.amount, 750_000_000);
    assert_eq!(ctx.stake_record.unlock_at, T0 + 100 * DAY);
}

#[test]
fn closed_vault_still_releases_principal() {
    let mut vault = vault_of(1000, YEAR);
    vault.total_staked = 1_000_000_000;
    vault.is_active = false;
    let mut ctx = withdrawal_from(vault, staked(1_000_000_000, T0, YEAR));
    assert!(withdraw_tokens(&mut ctx, 1_000_000_000, T0 + 5).is_ok());
    assert_eq!(ctx.stake_record.amount, 0);
}

#[test]
fn withdrawal_errors() {
    let mut vault = vault_of(1000, YEAR);
    vault.total_staked = 1_000_000_000;
    let good = withdrawal_from(vault, staked(1_000_000_000, T0, YEAR));

    let mut ctx = good;
    ctx.user_token_account.owner = key(9);
    assert_eq!(withdraw_tokens(&mut ctx, 1, T0 + YEAR), Err(ErrorCode::Unauthorized));

    let mut ctx = good;
    ctx.vault_token_account.key = key(9);
    assert_eq!(withdraw_tokens(&mut ctx, 1, T0 + YEAR), Err(ErrorCode::InvalidVaultAccount));

    let mut ctx = good;
    ctx.stake_record.authority = key(9);
    assert_eq!(withdraw_tokens(&mut ctx, 1, T0 + YEAR), Err(ErrorCode::Unauthorized));

    let mut ctx = good;
    assert_eq!(withdraw_tokens(&mut ctx, 0, T0 + YEAR), Err(ErrorCode::AmountTooSmall));
    assert_eq!(
        withdraw_tokens(&mut ctx, 1_000_000_001, T0 + YEAR),
        Err(ErrorCode::InsufficientStake)
    );
    assert_eq!(ctx, good);

    let mut ctx = good;
    ctx.vault.total_staked = 999_999_999;
    assert_eq!(withdraw_tokens(&mut ctx, 1_000_000_000, T0 + YEAR), Err(ErrorCode::Underflow));

    let mut ctx = good;
    ctx.vault.total_penalties_collected = u64::MAX;
    assert_eq!(withdraw_tokens(&mut ctx, 1, T0 + YEAR / 2), Err(ErrorCode::Overflow));
    assert_eq!(ctx.vault.total_penalties_collected, u64::MAX);

    let mut ctx = good;
    ctx.stake_record.unlock_at = ctx.stake_record.staked_at;
    ctx.stake_record.staked_at = T0 + 10;
    ctx.stake_record.unlock_at = T0 + 10;
    assert_eq!(withdraw_tokens(&mut ctx, 1, T0), Err(ErrorCode::DivisionByZero));
}

#[test]
fn claim_pays_the_accrued_reward_and_restarts_accrual() {
    let mut vault = vault_of(1000, YEAR);
    vault.total_staked = 1_000_000_000;
    let mut ctx = claim_on(vault, staked(1_000_000_000, T0, YEAR), 1_100_000_000);
    let receipt = claim_rewards(&mut ctx, T0 + YEAR).unwrap();

    assert_eq!(
        receipt.transfer,
        Transfer { from: key(3), to: key(5), authority: vault_key(), amount: 100_000_000 }
    );
    assert_eq!(
        receipt.event,
        RewardsClaimedEvent {
            vault: vault_key(),
            authority: holder(),
            amount: 100_000_000,
            total_claimed: 100_000_000,
            timestamp: T0 + YEAR,
        }
    );
    assert_eq!(ctx.stake_record.last_claim, T0 + YEAR);
    assert_eq!(ctx.stake_record.total_claimed, 100_000_000);
    assert_eq!(ctx.stake_record.amount, 1_000_000_000);
    assert_eq!(ctx.vault, vault);
}

#[test]
fn second_claim_inside_the_cooldown_fails_and_at_the_cooldown_succeeds() {
    let mut vault = vault_of(10000, 60);
    vault.total_staked = 1_000_000_000_000;
    let mut ctx = claim_on(vault, staked(1_000_000_000_000, T0, 60), u64::MAX);
    let first = T0 + DAY;
    claim_rewards(&mut ctx, first).unwrap();
    let after_first = ctx;

    assert_eq!(claim_rewards(&mut ctx, first), Err(ErrorCode::ClaimCooldownActive));
    assert_eq!(claim_rewards(&mut ctx, first + 1), Err(ErrorCode::ClaimCooldownActive));
    assert_eq!(claim_rewards(&mut ctx, first + 3599), Err(ErrorCode::ClaimCooldownActive));
    assert_eq!(ctx, after_first);

    let receipt = claim_rewards(&mut ctx, first + 3600).unwrap();
    // 1e12 * 10000 * 3600 / (10000 * 31_536_000)
    assert_eq!(receipt.transfer.amount, 114_155_251);
    assert_eq!(ctx.stake_record.last_claim, first + 3600);
    assert_eq!(ctx.stake_record.total_claimed, after_first.stake_record.total_claimed + 114_155_251);
}

#[test]
fn claim_of_a_reward_that_rounds_to_zero_is_refused() {
    let mut vault = vault_of(1, 60);
    vault.total_staked = 1_000_000;
    let before = claim_on(vault, staked(1_000_000, T0, 60), u64::MAX);
    let mut ctx = before;
    // 1_000_000 * 1 * 3600 / 315_360_000_000 rounds down to nothing
    assert_eq!(claim_rewards(&mut ctx, T0 + 3600), Err(ErrorCode::NoRewardsToClaim));
    assert_eq!(ctx, before);

    // an emptied position accrues nothing
    let mut ctx = claim_on(vault_of(1000, 60), staked(0, T0, 60), u64::MAX);
    assert_eq!(claim_rewards(&mut ctx, T0 + YEAR), Err(ErrorCode::NoRewardsToClaim));

    // a rate of zero accrues nothing
    let mut ctx = claim_on(vault_of(0, 60), staked(1_000_000_000, T0, 60), u64::MAX);
    assert_eq!(claim_rewards(&mut ctx, T0 + YEAR), Err(ErrorCode::NoRewardsToClaim));
}

#[test]
fn claim_without_elapsed_time_is_refused() {
    let mut stake_record = staked(1_000_000_000, T0, 60);
    stake_record.last_claim = T0 + 100;
    let before = claim_on(vault_of(1000, 60), stake_record, u64::MAX);
    let mut ctx = before;
    let result = claim_rewards(&mut ctx, T0 + 100);
    assert!(result.is_err());
    assert_eq!(result, Err(ErrorCode::ClaimCooldownActive));
    assert_eq!(ctx, before);
}

#[test]
fn claim_errors() {
    let mut vault = vault_of(1000, YEAR);
    vault.total_staked = 1_000_000_000;
    let good = claim_on(vault, staked(1_000_000_000, T0, YEAR), 100_000_000);

    let mut ctx = good;
    ctx.user_token_account.owner = key(9);
    assert_eq!(claim_rewards(&mut ctx, T0 + YEAR), Err(ErrorCode::Unauthorized));

    let mut ctx = good;
    ctx.vault_token_account.key = key(9);
    assert_eq!(claim_rewards(&mut ctx, T0 + YEAR), Err(ErrorCode::InvalidVaultAccount));

    let mut ctx = good;
    ctx.stake_record.authority = key(9);
    assert_eq!(claim_rewards(&mut ctx, T0 + YEAR), Err(ErrorCode::Unauthorized));

    let mut ctx = good;
    ctx.vault.is_active = false;
    assert_eq!(claim_rewards(&mut ctx, T0 + YEAR), Err(ErrorCode::VaultInactive));

    let mut ctx = good;
    assert_eq!(claim_rewards(&mut ctx, T0 + YEAR - 1), Err(ErrorCode::StillLocked));

    let mut ctx = good;
    ctx.vault_token_account.amount = 99_999_999;
    assert_eq!(claim_rewards(&mut ctx, T0 + YEAR), Err(ErrorCode::InsufficientVaultBalance));

    let mut ctx = good;
    ctx.stake_record.total_claimed = u64::MAX - 99_999_999;
    assert_eq!(claim_rewards(&mut ctx, T0 + YEAR), Err(ErrorCode::Overflow));

    let mut ctx = good;
    ctx.stake_record.last_claim = -2;
    assert_eq!(claim_rewards(&mut ctx, i64::MAX), Err(ErrorCode::Overflow));

    let mut ctx = good;
    ctx.stake_record.amount = u64::MAX;
    ctx.vault.reward_rate = 10000;
    ctx.vault_token_account.amount = u64::MAX;
    assert_eq!(claim_rewards(&mut ctx, T0 + 2 * YEAR), Err(ErrorCode::Overflow));

    let mut ctx = good;
    assert!(claim_rewards(&mut ctx, T0 + YEAR).is_ok());
}

#[test]
fn deactivation_is_refused_the_second_time() {
    let mut ctx = DeactivateVault { vault_key: vault_key(), vault: vault_of(1000, 60), authority: holder() };
    assert_eq!(
        deactivate_vault(&mut ctx, T0 + 7),
        Ok(VaultDeactivatedEvent { vault: vault_key(), authority: holder(), timestamp: T0 + 7 })
    );
    assert!(!ctx.vault.is_active);
    let closed = ctx;
    assert_eq!(deactivate_vault(&mut ctx, T0 + 8), Err(ErrorCode::VaultAlreadyInactive));
    assert_eq!(ctx, closed);
}

#[test]
fn deactivation_is_for_the_authority_only() {
    let before = DeactivateVault { vault_key: vault_key(), vault: vault_of(1000, 60), authority: key(9) };
    let mut ctx = before;
    assert_eq!(deactivate_vault(&mut ctx, T0), Err(ErrorCode::Unauthorized));
    assert_eq!(ctx, before);
    assert!(ctx.vault.is_active);
}

#[test]
fn position_phases() {
    assert_eq!(StakeRecord::new().phase(T0), StakePhase::Empty);
    let position = staked(1_000_000, T0, 60);
    assert_eq!(position.phase(T0), StakePhase::Locked);
    assert_eq!(position.phase(T0 + 59), StakePhase::Locked);
    assert_eq!(position.phase(T0 + 60), StakePhase::Unlockable);
    assert_eq!(staked(0, T0, 60).phase(T0 + 60), StakePhase::Empty);
}

#[test]
fn keys_compare_by_their_bytes() {
    let mut bytes = [7u8; 32];
    let a = Pubkey::new(bytes);
    assert!(a.equals(&Pubkey::new([7u8; 32])));
    bytes[31] = 8;
    assert!(!a.equals(&Pubkey::new(bytes)));
    bytes[31] = 7;
    bytes[0] = 0;
    assert!(!a.equals(&Pubkey::new(bytes)));
    assert_eq!(a.to_bytes(), [7u8; 32]);
    assert_eq!(Pubkey::zeroed().to_bytes(), [0u8; 32]);
    assert_eq!(StakeRecord::new().authority, Pubkey::zeroed());
}
