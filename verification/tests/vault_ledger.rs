use pangi::keys::{Mint, Pubkey, TokenAccount};
use pangi::vault::instructions::CreateVault;
use pangi::vault::ledger::{LedgerError, StakeLedger};
use pangi::vault::state::{ErrorCode, StakeRecord, Vault};

const YEAR: i64 = 31_536_000;
const DAY: i64 = 86_400;
const T0: i64 = 1_700_000_000;

fn id(n: u8) -> Pubkey {
    Pubkey::new([n; 32])
}

fn owner() -> Pubkey {
    id(2)
}

fn purse(who: Pubkey, amount: u64) -> TokenAccount {
    TokenAccount { key: id(5), owner: who, mint: id(4), amount }
}

fn blank_vault() -> Vault {
    Vault {
        nft_mint: Pubkey::zeroed(),
        authority: Pubkey::zeroed(),
        token_mint: Pubkey::zeroed(),
        vault_token_account: Pubkey::zeroed(),
        total_staked: 0,
        reward_rate: 0,
        lock_duration: 0,
        created_at: 0,
        last_reward_update: 0,
        total_penalties_collected: 0,
        is_active: false,
        bump: 0,
    }
}

fn books(reserve: u64, reward_rate: u16, lock_duration: i64) -> StakeLedger {
    let ctx = CreateVault {
        vault_key: id(1),
        vault: blank_vault(),
        nft_mint: Mint { key: id(6), supply: 1, decimals: 0 },
        token_mint: Mint { key: id(4), supply: 0, decimals: 9 },
        vault_token_account: TokenAccount { key: id(3), owner: id(1), mint: id(4), amount: reserve },
        authority: owner(),
        bump: 255,
    };
    let (ledger, event) = StakeLedger::open(&ctx, reward_rate, lock_duration, T0).unwrap();
    assert_eq!(event.vault, id(1));
    assert_eq!(event.timestamp, T0);
    ledger
}

fn assert_conserved(ledger: &StakeLedger) {
    assert_eq!(ledger.staked_total(), Some(ledger.vault().total_staked));
}

#[test]
fn opening_refuses_a_bad_configuration() {
    let ctx = CreateVault {
        vault_key: id(1),
        vault: blank_vault(),
        nft_mint: Mint { key: id(6), supply: 1, decimals: 0 },
        token_mint: Mint { key: id(4), supply: 0, decimals: 9 },
        vault_token_account: TokenAccount { key: id(3), owner: id(1), mint: id(4), amount: 0 },
        authority: owner(),
        bump: 255,
    };
    assert_eq!(StakeLedger::open(&ctx, 10001, 60, T0).err(), Some(ErrorCode::RewardRateTooHigh));
    assert_eq!(StakeLedger::open(&ctx, 1, 59, T0).err(), Some(ErrorCode::LockDurationTooShort));
    assert_eq!(StakeLedger::open(&ctx, 1, YEAR + 1, T0).err(), Some(ErrorCode::LockDurationTooLong));
}

#[test]
fn new_books_are_empty_and_hold_the_reserve() {
    let ledger = books(500_000_000, 1000, 100 * DAY);
    assert_eq!(ledger.vault().total_staked, 0);
    assert_eq!(ledger.custody().amount, 500_000_000);
    assert!((ledger.positions() == 0));
    assert!(ledger.vault().is_active);
    assert_eq!(ledger.record_of(&owner()), None);
    assert_eq!(ledger.vault_key(), id(1));
    assert_conserved(&ledger);
}

#[test]
fn total_staked_follows_the_positions_through_a_sequence() {
    let mut ledger = books(500_000_000, 1000, 100 * DAY);
    let wallet = purse(owner(), 10_000_000_000);

    ledger.deposit(&wallet, &owner(), 1_000_000_000, T0 + 5).unwrap();
    assert_conserved(&ledger);
    assert_eq!(ledger.vault().total_staked, 1_000_000_000);
    assert_eq!(ledger.custody().amount, 1_500_000_000);
    assert_eq!(ledger.positions(), 1);

    ledger.deposit(&wallet, &owner(), 500_000_000, T0 + 65).unwrap();
    assert_conserved(&ledger);
    assert_eq!(ledger.vault().total_staked, 1_500_000_000);
    assert_eq!(ledger.custody().amount, 2_000_000_000);
    assert_eq!(ledger.positions(), 1);
    assert_eq!(ledger.record_of(&owner()).unwrap().amount, 1_500_000_000);
    assert_eq!(ledger.record_of(&owner()).unwrap().unlock_at, T0 + 5 + 100 * DAY);

    let early = ledger.withdraw(&wallet, &owner(), 300_000_000, T0 + 5 + 50 * DAY).unwrap();
    assert!(early.event.is_early_unlock);
    assert_conserved(&ledger);
    assert_eq!(ledger.vault().total_staked, 1_200_000_000);
    assert_eq!(ledger.custody().amount, 1_700_000_000);
    assert_eq!(ledger.vault().total_penalties_collected, early.event.penalty_to_pool);

    let paid = ledger.claim(&wallet, &owner(), T0 + 5 + 100 * DAY).unwrap();
    // 1_200_000_000 * 1000 * 8_640_000 / 315_360_000_000
    assert_eq!(paid.transfer.amount, 32_876_712);
    assert_conserved(&ledger);
    assert_eq!(ledger.vault().total_staked, 1_200_000_000);
    assert_eq!(ledger.custody().amount, 1_700_000_000 - 32_876_712);

    let rest = ledger.withdraw(&wallet, &owner(), 1_200_000_000, T0 + 5 + 100 * DAY).unwrap();
    assert!(!rest.event.is_early_unlock);
    assert_eq!(rest.event.penalty_to_pool, 0);
    assert_conserved(&ledger);
    assert_eq!(ledger.vault().total_staked, 0);
    assert_eq!(ledger.custody().amount, 500_000_000 - 32_876_712);

    // the emptied position stays on the books, with its history
    assert_eq!(ledger.positions(), 1);
    let kept = ledger.record_of(&owner()).unwrap();
    assert_eq!(kept.amount, 0);
    assert_eq!(kept.total_claimed, 32_876_712);

    ledger.deposit(&wallet, &owner(), 2_000_000, T0 + 200 * DAY).unwrap();
    assert_conserved(&ledger);
    assert_eq!(ledger.positions(), 1);
    let again = ledger.record_of(&owner()).unwrap();
    assert_eq!(
        again,
        StakeRecord {
            vault: id(1),
            authority: owner(),
            amount: 2_000_000,
            staked_at: T0 + 200 * DAY,
            unlock_at: T0 + 300 * DAY,
            last_claim: T0 + 200 * DAY,
            total_claimed: 32_876_712,
        }
    );
}

#[test]
fn custody_pays_out_no_more_than_it_took_in() {
    let reserve = 40_000_000u64;
    let mut ledger = books(reserve, 1000, 60);
    let wallet = purse(owner(), 10_000_000_000);
    let mut inflow = 0u64;
    let mut outflow = 0u64;

    inflow += ledger.deposit(&wallet, &owner(), 1_000_000_000, T0).unwrap().transfer.amount;
    outflow += ledger.claim(&wallet, &owner(), T0 + DAY).unwrap().transfer.amount;
    outflow += ledger.withdraw(&wallet, &owner(), 400_000_000, T0 + DAY).unwrap().transfer.amount;
    inflow += ledger.deposit(&wallet, &owner(), 7_000_000, T0 + 2 * DAY).unwrap().transfer.amount;
    outflow += ledger.claim(&wallet, &owner(), T0 + 30 * DAY).unwrap().transfer.amount;
    outflow += ledger.withdraw(&wallet, &owner(), 607_000_000, T0 + 31 * DAY).unwrap().transfer.amount;

    assert!(outflow <= inflow + reserve);
    assert_eq!(ledger.custody().amount, reserve + inflow - outflow);
    assert_conserved(&ledger);
}

#[test]
fn a_claim_that_custody_cannot_cover_is_refused() {
    let mut ledger = books(0, 10000, 60);
    let wallet = purse(owner(), 10_000_000_000);
    ledger.deposit(&wallet, &owner(), 1_000_000_000, T0).unwrap();
    // two years at 100%: the reward is twice what custody holds
    assert_eq!(
        ledger.claim(&wallet, &owner(), T0 + 2 * YEAR),
        Err(LedgerError::Rejected(ErrorCode::InsufficientVaultBalance))
    );
    assert_eq!(ledger.custody().amount, 1_000_000_000);
    assert_eq!(ledger.record_of(&owner()).unwrap().total_claimed, 0);
}

#[test]
fn a_withdrawal_that_custody_cannot_cover_is_refused() {
    let mut ledger = books(0, 10000, 60);
    let wallet = purse(owner(), 10_000_000_000);
    ledger.deposit(&wallet, &owner(), 1_000_000_000, T0).unwrap();
    // one year at 100% with no reserve: the reward is paid out of the principal
    let paid = ledger.claim(&wallet, &owner(), T0 + YEAR).unwrap();
    assert_eq!(paid.transfer.amount, 1_000_000_000);
    assert_eq!(ledger.custody().amount, 0);

    let vault_before = ledger.vault();
    let record_before = ledger.record_of(&owner());
    assert_eq!(
        ledger.withdraw(&wallet, &owner(), 1_000_000_000, T0 + YEAR),
        Err(LedgerError::CustodyRefused)
    );
    assert_eq!(ledger.vault(), vault_before);
    assert_eq!(ledger.record_of(&owner()), record_before);
    assert_eq!(ledger.custody().amount, 0);
    assert_conserved(&ledger);

    // once the reserve is funded the holder gets the principal back
    assert_eq!(ledger.fund(1_000_000_000), Ok(()));
    assert!(ledger.withdraw(&wallet, &owner(), 1_000_000_000, T0 + YEAR).is_ok());
    assert_eq!(ledger.custody().amount, 0);
    assert_eq!(ledger.vault().total_staked, 0);
}

#[test]
fn funding_cannot_overflow_custody() {
    let mut ledger = books(u64::MAX - 10, 1000, 60);
    assert_eq!(ledger.fund(11), Err(LedgerError::CustodyRefused));
    assert_eq!(ledger.custody().amount, u64::MAX - 10);
    assert_eq!(ledger.fund(10), Ok(()));
    assert_eq!(ledger.custody().amount, u64::MAX);

    let wallet = purse(owner(), 10_000_000_000);
    assert_eq!(
        ledger.deposit(&wallet, &owner(), 1_000_000, T0),
        Err(LedgerError::CustodyRefused)
    );
    assert_eq!(ledger.vault().total_staked, 0);
    assert!((ledger.positions() == 0));
}

#[test]
fn holders_without_a_position_cannot_withdraw_or_claim() {
    let mut ledger = books(0, 1000, 60);
    let stranger = id(9);
    let wallet = purse(stranger, 10_000_000_000);
    assert_eq!(ledger.withdraw(&wallet, &stranger, 1, T0), Err(LedgerError::NoPosition));
    assert_eq!(ledger.claim(&wallet, &stranger, T0), Err(LedgerError::NoPosition));
    assert!((ledger.positions() == 0));
}

#[test]
fn only_the_authority_of_the_vault_deposits() {
    let mut ledger = books(0, 1000, 60);
    let stranger = id(9);
    let wallet = purse(stranger, 10_000_000_000);
    assert_eq!(
        ledger.deposit(&wallet, &stranger, 1_000_000, T0),
        Err(LedgerError::Rejected(ErrorCode::VaultAuthorityMismatch))
    );
    assert!((ledger.positions() == 0));
    assert_eq!(ledger.custody().amount, 0);
    assert_conserved(&ledger);
}

#[test]
fn refused_operations_leave_the_books_alone() {
    let mut ledger = books(5, 1000, 100 * DAY);
    let wallet = purse(owner(), 10_000_000_000);
    ledger.deposit(&wallet, &owner(), 1_000_000_000, T0).unwrap();
    let vault = ledger.vault();
    let custody = ledger.custody();
    let record = ledger.record_of(&owner());

    assert_eq!(
        ledger.deposit(&wallet, &owner(), 1_000_000, T0 + 59),
        Err(LedgerError::Rejected(ErrorCode::DepositCooldownActive))
    );
    assert_eq!(
        ledger.withdraw(&wallet, &owner(), 1_000_000_001, T0 + 59),
        Err(LedgerError::Rejected(ErrorCode::InsufficientStake))
    );
    assert_eq!(
        ledger.claim(&wallet, &owner(), T0 + 59),
        Err(LedgerError::Rejected(ErrorCode::StillLocked))
    );
    assert_eq!(ledger.deactivate(&id(9), T0 + 59), Err(ErrorCode::Unauthorized));

    assert_eq!(ledger.vault(), vault);
    assert_eq!(ledger.custody(), custody);
    assert_eq!(ledger.record_of(&owner()), record);
    assert_conserved(&ledger);
}

#[test]
fn closed_books_release_principal_and_nothing_else() {
    let mut ledger = books(500_000_000, 1000, 60);
    let wallet = purse(owner(), 10_000_000_000);
    ledger.deposit(&wallet, &owner(), 1_000_000_000, T0).unwrap();

    let event = ledger.deactivate(&owner(), T0 + 10).unwrap();
    assert_eq!(event.timestamp, T0 + 10);
    assert!(!ledger.vault().is_active);
    assert_eq!(ledger.deactivate(&owner(), T0 + 11), Err(ErrorCode::VaultAlreadyInactive));

    assert_eq!(
        ledger.deposit(&wallet, &owner(), 1_000_000, T0 + DAY),
        Err(LedgerError::Rejected(ErrorCode::VaultInactive))
    );
    assert_eq!(
        ledger.claim(&wallet, &owner(), T0 + DAY),
        Err(LedgerError::Rejected(ErrorCode::VaultInactive))
    );
    assert!(ledger.withdraw(&wallet, &owner(), 1_000_000_000, T0 + DAY).is_ok());
    assert_eq!(ledger.vault().total_staked, 0);
    assert_eq!(ledger.custody().amount, 500_000_000);
    assert_conserved(&ledger);
}

#[test]
fn rewards_paid_and_start_of_accrual_only_move_forward() {
    let mut ledger = books(1_000_000_000, 2500, 60);
    let wallet = purse(owner(), 10_000_000_000);
    let mut paid_so_far = 0u64;
    let mut accrual_from = 0i64;
    let mut now = T0;

    let mut observe = |ledger: &StakeLedger, now: i64| {
        let record = ledger.record_of(&owner()).unwrap();
        assert!(record.total_claimed >= paid_so_far);
        assert!(record.last_claim >= accrual_from);
        assert!(record.last_claim <= now);
        paid_so_far = record.total_claimed;
        accrual_from = record.last_claim;
    };

    ledger.deposit(&wallet, &owner(), 2_000_000_000, now).unwrap();
    observe(&ledger, now);
    now += DAY;
    let first = ledger.claim(&wallet, &owner(), now).unwrap();
    // 2e9 * 2500 * 86_400 / 315_360_000_000
    assert_eq!(first.transfer.amount, 1_369_863);
    observe(&ledger, now);
    now += 10;
    assert!(ledger.claim(&wallet, &owner(), now).is_err());
    observe(&ledger, now);
    now += DAY;
    ledger.withdraw(&wallet, &owner(), 2_000_000_000, now).unwrap();
    observe(&ledger, now);
    now += DAY;
    ledger.deposit(&wallet, &owner(), 3_000_000, now).unwrap();
    observe(&ledger, now);
    now += DAY;
    ledger.deposit(&wallet, &owner(), 3_000_000, now).unwrap();
    observe(&ledger, now);
    now += 30 * DAY;
    let second = ledger.claim(&wallet, &owner(), now).unwrap();
    observe(&ledger, now);

    let record = ledger.record_of(&owner()).unwrap();
    assert_eq!(record.total_claimed, first.transfer.amount + second.transfer.amount);
    assert_eq!(record.last_claim, now);
}
