use pangi::keys::{Pubkey, TokenAccount, Transfer};
use pangi::token::{
    calculate_price_impact, calculate_tax, determine_transfer_type, initialize_tax_config,
    tax_rate_for, transfer_with_tax, update_tax_config, ErrorCode, InitializeTaxConfig, TaxConfig,
    TaxConfigInitializedEvent, TaxConfigUpdatedEvent, TransferType, TransferWithTax,
    TransferWithTaxEvent, UpdateTaxConfig, MAX_TAX_PER_TRANSFER,
};

fn pk(n: u8) -> Pubkey {
    Pubkey::new([n; 32])
}

fn config() -> TaxConfig {
    TaxConfig {
        authority: pk(1),
        p2p_tax_rate: 200,
        exchange_tax_rate: 300,
        whale_tax_rate: 800,
        whale_transfer_threshold: 100_000_000_000,
        max_tax_per_transfer: MAX_TAX_PER_TRANSFER,
        conservation_fund: pk(7),
        last_updated: 10,
    }
}

fn accounts(balance: u64, tax_config: TaxConfig) -> TransferWithTax {
    TransferWithTax {
        from: TokenAccount { key: pk(2), owner: pk(3), mint: pk(9), amount: balance },
        to: TokenAccount { key: pk(4), owner: pk(5), mint: pk(9), amount: 0 },
        conservation_fund: TokenAccount { key: pk(7), owner: pk(8), mint: pk(9), amount: 0 },
        authority: pk(3),
        tax_config,
    }
}

#[test]
fn small_transfer_is_taxed_exactly() {
    assert_eq!(calculate_tax(1000, 200), Ok(20));
    assert_eq!(calculate_tax(49, 200), Ok(0));
    assert_eq!(calculate_tax(50, 200), Ok(1));
}

#[test]
fn tax_beyond_64_bits_is_overflow() {
    assert_eq!(calculate_tax(u64::MAX, 10000), Ok(u64::MAX));
    assert_eq!(calculate_tax(u64::MAX, 10001), Err(ErrorCode::Overflow));
    assert_eq!(calculate_tax(u64::MAX, u16::MAX), Err(ErrorCode::Overflow));
    assert_eq!(calculate_tax(u64::MAX, 200), Ok(368_934_881_474_191_032));
}

#[test]
fn transfer_kind_goes_by_the_threshold() {
    assert_eq!(determine_transfer_type(&pk(1), &pk(2), 99, 100), Ok(TransferType::PeerToPeer));
    assert_eq!(determine_transfer_type(&pk(1), &pk(2), 100, 100), Ok(TransferType::LargeWhale));
    assert_eq!(determine_transfer_type(&pk(1), &pk(2), 0, 0), Ok(TransferType::LargeWhale));
}

#[test]
fn each_kind_has_its_rate() {
    let config = config();
    assert_eq!(tax_rate_for(&config, TransferType::PeerToPeer), 200);
    assert_eq!(tax_rate_for(&config, TransferType::ExchangeDeposit), 300);
    assert_eq!(tax_rate_for(&config, TransferType::ConservationReward), 0);
    assert_eq!(tax_rate_for(&config, TransferType::LargeWhale), 800);
}

#[test]
fn transfer_between_holders_is_split() {
    let ctx = accounts(5_000_000_000, config());
    let receipt = transfer_with_tax(&ctx, 1_000_000_000, 20_000_000, 77).unwrap();
    assert_eq!(
        receipt.net,
        Transfer { from: pk(2), to: pk(4), authority: pk(3), amount: 980_000_000 }
    );
    assert_eq!(
        receipt.tax,
        Some(Transfer { from: pk(2), to: pk(7), authority: pk(3), amount: 20_000_000 })
    );
    assert_eq!(
        receipt.event,
        TransferWithTaxEvent {
            from: pk(3),
            to: pk(4),
            amount: 980_000_000,
            tax_amount: 20_000_000,
            tax_rate: 200,
            transfer_type: TransferType::PeerToPeer,
            conservation_fund: pk(7),
            timestamp: 77,
        }
    );
}

#[test]
fn large_transfer_pays_the_whale_rate() {
    let ctx = accounts(u64::MAX, config());
    let receipt = transfer_with_tax(&ctx, 100_000_000_000, 8_000_000_000, 0).unwrap();
    assert_eq!(receipt.event.transfer_type, TransferType::LargeWhale);
    assert_eq!(receipt.event.tax_rate, 800);
    assert_eq!(receipt.event.tax_amount, 8_000_000_000);
    assert_eq!(receipt.net.amount, 92_000_000_000);
}

#[test]
fn transfer_without_tax_has_no_tax_movement() {
    let mut free = config();
    free.p2p_tax_rate = 0;
    let receipt = transfer_with_tax(&accounts(10, free), 10, 0, 0).unwrap();
    assert_eq!(receipt.tax, None);
    assert_eq!(receipt.net.amount, 10);
    assert_eq!(receipt.event.tax_amount, 0);

    // a tax that rounds to nothing
    let receipt = transfer_with_tax(&accounts(49, config()), 49, 0, 0).unwrap();
    assert_eq!(receipt.tax, None);
    assert_eq!(receipt.net.amount, 49);
}

#[test]
fn transfer_errors() {
    let ctx = accounts(5_000_000_000, config());
    assert_eq!(transfer_with_tax(&ctx, 0, u64::MAX, 0), Err(ErrorCode::AmountTooSmall));
    assert_eq!(
        transfer_with_tax(&accounts(u64::MAX, config()), 1_000_000_000_000_001, u64::MAX, 0),
        Err(ErrorCode::AmountTooLarge)
    );
    assert_eq!(transfer_with_tax(&ctx, 5_000_000_001, u64::MAX, 0), Err(ErrorCode::InsufficientBalance));
    assert_eq!(
        transfer_with_tax(&ctx, 1_000_000_000, 19_999_999, 0),
        Err(ErrorCode::SlippageExceeded)
    );
    assert!(transfer_with_tax(&ctx, 1_000_000_000, 20_000_000, 0).is_ok());

    let mut capped = config();
    capped.max_tax_per_transfer = 19_999_999;
    assert_eq!(
        transfer_with_tax(&accounts(5_000_000_000, capped), 1_000_000_000, u64::MAX, 0),
        Err(ErrorCode::TaxTooHigh)
    );

    let mut whole = config();
    whole.p2p_tax_rate = 10000;
    assert_eq!(
        transfer_with_tax(&accounts(5_000_000_000, whole), 1_000, u64::MAX, 0),
        Err(ErrorCode::InsufficientAmountAfterTax)
    );

    let mut more = config();
    more.p2p_tax_rate = 20000;
    assert_eq!(
        transfer_with_tax(&accounts(5_000_000_000, more), 1_000, u64::MAX, 0),
        Err(ErrorCode::Underflow)
    );
}

#[test]
fn first_configuration_is_written() {
    let mut ctx = InitializeTaxConfig { tax_config: config(), authority: pk(11), conservation_fund: pk(12) };
    let event = initialize_tax_config(&mut ctx, 100, 1000, 0, 1, 555);
    assert_eq!(
        event,
        Ok(TaxConfigInitializedEvent {
            authority: pk(11),
            p2p_tax_rate: 100,
            exchange_tax_rate: 1000,
            whale_tax_rate: 0,
            whale_threshold: 1,
            conservation_fund: pk(12),
            timestamp: 555,
        })
    );
    assert_eq!(
        ctx.tax_config,
        TaxConfig {
            authority: pk(11),
            p2p_tax_rate: 100,
            exchange_tax_rate: 1000,
            whale_tax_rate: 0,
            whale_transfer_threshold: 1,
            max_tax_per_transfer: 100_000_000_000_000,
            conservation_fund: pk(12),
            last_updated: 555,
        }
    );
}

#[test]
fn first_configuration_errors() {
    let before = InitializeTaxConfig { tax_config: config(), authority: pk(11), conservation_fund: pk(12) };
    let mut ctx = before;
    assert_eq!(initialize_tax_config(&mut ctx, 1001, 0, 0, 1, 0), Err(ErrorCode::TaxRateTooHigh));
    assert_eq!(initialize_tax_config(&mut ctx, 0, 1001, 0, 1, 0), Err(ErrorCode::TaxRateTooHigh));
    assert_eq!(initialize_tax_config(&mut ctx, 0, 0, 1001, 1, 0), Err(ErrorCode::TaxRateTooHigh));
    assert_eq!(initialize_tax_config(&mut ctx, 0, 0, 0, 0, 0), Err(ErrorCode::InvalidWhaleThreshold));
    assert_eq!(initialize_tax_config(&mut ctx, 1001, 0, 0, 0, 0), Err(ErrorCode::TaxRateTooHigh));
    assert_eq!(ctx, before);
}

#[test]
fn configuration_change_replaces_what_is_given() {
    let mut ctx = UpdateTaxConfig { tax_config: config(), authority: pk(1) };
    let event = update_tax_config(&mut ctx, None, Some(5), None, Some(42), 99);
    assert_eq!(
        event,
        Ok(TaxConfigUpdatedEvent {
            authority: pk(1),
            p2p_tax_rate: 200,
            exchange_tax_rate: 5,
            whale_tax_rate: 800,
            whale_threshold: 42,
            timestamp: 99,
        })
    );
    let mut expected = config();
    expected.exchange_tax_rate = 5;
    expected.whale_transfer_threshold = 42;
    expected.last_updated = 99;
    assert_eq!(ctx.tax_config, expected);

    update_tax_config(&mut ctx, Some(1000), None, Some(0), None, 100).unwrap();
    assert_eq!(ctx.tax_config.p2p_tax_rate, 1000);
    assert_eq!(ctx.tax_config.whale_tax_rate, 0);
    assert_eq!(ctx.tax_config.last_updated, 100);

    // nothing given: only the time of the update moves
    update_tax_config(&mut ctx, None, None, None, None, 101).unwrap();
    assert_eq!(ctx.tax_config.last_updated, 101);
    assert_eq!(ctx.tax_config.p2p_tax_rate, 1000);
}

#[test]
fn configuration_change_errors() {
    let before = UpdateTaxConfig { tax_config: config(), authority: pk(1) };
    let mut ctx = before;
    assert_eq!(update_tax_config(&mut ctx, Some(1001), None, None, None, 0), Err(ErrorCode::TaxRateTooHigh));
    assert_eq!(update_tax_config(&mut ctx, Some(1), Some(1001), None, None, 0), Err(ErrorCode::TaxRateTooHigh));
    assert_eq!(update_tax_config(&mut ctx, Some(1), Some(1), Some(1001), None, 0), Err(ErrorCode::TaxRateTooHigh));
    assert_eq!(
        update_tax_config(&mut ctx, Some(1), Some(1), Some(1), Some(0), 0),
        Err(ErrorCode::InvalidWhaleThreshold)
    );
    assert_eq!(ctx, before);

    let mut other = UpdateTaxConfig { tax_config: config(), authority: pk(2) };
    assert_eq!(update_tax_config(&mut other, Some(1), None, None, None, 0), Err(ErrorCode::Unauthorized));
    assert_eq!(other.tax_config, config());
}

#[test]
fn price_impact_is_measured_either_way() {
    assert_eq!(calculate_price_impact(0, 5), 0);
    assert_eq!(calculate_price_impact(1_000, 1_100), 1_000);
    assert_eq!(calculate_price_impact(1_000, 900), 1_000);
    assert_eq!(calculate_price_impact(3, 2), 3_333);
    // the quotient 10000 * (u64::MAX - 1) does not fit: its low 64 bits are returned
    assert_eq!(
        calculate_price_impact(1, u64::MAX),
        (((u64::MAX - 1) as u128 * 10000) % (1u128 << 64)) as u64
    );
}
