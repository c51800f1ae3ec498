//! The taxed transfer: a share of every transfer, set by the kind of
//! transfer, goes to the conservation fund, within limits that the
//! configuration and the sender set.

use crate::keys::{Pubkey, TokenAccount, Transfer};
use vstd::prelude::*;

verus! {

/// Highest tax rate that a configuration may hold, in basis points: 10%.
pub const MAX_TAX_RATE: u16 = 1000;

/// Smallest transfer accepted, in base units.
pub const MIN_TRANSFER_AMOUNT: u64 = 1;

/// Largest transfer accepted, in base units.
pub const MAX_TRANSFER_AMOUNT: u64 = 1_000_000_000_000_000;

/// The tax on one transfer never exceeds a tenth of the largest transfer.
pub const MAX_TAX_PER_TRANSFER: u64 = 100_000_000_000_000;

/// Why a token operation was refused.
#[derive(Clone, Copy, Debug, PartialEq, Eq, Structural)]
pub enum ErrorCode {
    TaxRateTooHigh,
    InsufficientAmountAfterTax,
    InvalidTransferType,
    Overflow,
    Underflow,
    AmountTooSmall,
    AmountTooLarge,
    TaxTooHigh,
    TaxExceedsAmount,
    InsufficientBalance,
    InvalidWhaleThreshold,
    Unauthorized,
    SlippageExceeded,
    DivisionByZero,
}

/// The tax rates and limits in force.
#[derive(Clone, Copy, Debug, PartialEq, Eq)]
pub struct TaxConfig {
    /// Who may change the configuration.
    pub authority: Pubkey,
    /// Rate on transfers between holders, in basis points.
    pub p2p_tax_rate: u16,
    /// Rate on deposits to an exchange, in basis points.
    pub exchange_tax_rate: u16,
    /// Rate on large transfers, in basis points.
    pub whale_tax_rate: u16,
    /// A transfer of at least this amount is a large one.
    pub whale_transfer_threshold: u64,
    /// The most that one transfer may be taxed.
    pub max_tax_per_transfer: u64,
    /// The account that receives the tax.
    pub conservation_fund: Pubkey,
    pub last_updated: i64,
}

impl TaxConfig {
    /// The rates and the threshold are within the bounds that the
    /// administrative operations enforce.
    pub open spec fn well_formed(&self) -> bool {
        &&& self.p2p_tax_rate <= MAX_TAX_RATE
        &&& self.exchange_tax_rate <= MAX_TAX_RATE
        &&& self.whale_tax_rate <= MAX_TAX_RATE
        &&& self.whale_transfer_threshold > 0
    }
}

/// The kind of a transfer, which sets its tax rate.
#[derive(Clone, Copy, Debug, PartialEq, Eq, Structural)]
pub enum TransferType {
    PeerToPeer,
    ExchangeDeposit,
    ConservationReward,
    LargeWhale,
}

/// A taxed transfer was made.
#[derive(Clone, Copy, Debug, PartialEq, Eq)]
pub struct TransferWithTaxEvent {
    pub from: Pubkey,
    pub to: Pubkey,
    /// What the recipient got.
    pub amount: u64,
    pub tax_amount: u64,
    pub tax_rate: u16,
    pub transfer_type: TransferType,
    pub conservation_fund: Pubkey,
    pub timestamp: i64,
}

/// The tax configuration was written for the first time.
#[derive(Clone, Copy, Debug, PartialEq, Eq)]
pub struct TaxConfigInitializedEvent {
    pub authority: Pubkey,
    pub p2p_tax_rate: u16,
    pub exchange_tax_rate: u16,
    pub whale_tax_rate: u16,
    pub whale_threshold: u64,
    pub conservation_fund: Pubkey,
    pub timestamp: i64,
}

/// The tax configuration was changed.
#[derive(Clone, Copy, Debug, PartialEq, Eq)]
pub struct TaxConfigUpdatedEvent {
    pub authority: Pubkey,
    pub p2p_tax_rate: u16,
    pub exchange_tax_rate: u16,
    pub whale_tax_rate: u16,
    pub whale_threshold: u64,
    pub timestamp: i64,
}

/// The accounts of `transfer_with_tax`.
#[derive(Clone, Copy, Debug, PartialEq, Eq)]
pub struct TransferWithTax {
    pub from: TokenAccount,
    pub to: TokenAccount,
    pub conservation_fund: TokenAccount,
    /// The caller.
    pub authority: Pubkey,
    pub tax_config: TaxConfig,
}

/// The accounts of `initialize_tax_config`.
#[derive(Clone, Copy, Debug, PartialEq, Eq)]
pub struct InitializeTaxConfig {
    /// The configuration, to be written.
    pub tax_config: TaxConfig,
    /// The caller.
    pub authority: Pubkey,
    pub conservation_fund: Pubkey,
}

/// The accounts of `update_tax_config`.
#[derive(Clone, Copy, Debug, PartialEq, Eq)]
pub struct UpdateTaxConfig {
    pub tax_config: TaxConfig,
    /// The caller.
    pub authority: Pubkey,
}

/// What a taxed transfer asks of its caller.
#[derive(Clone, Copy, Debug, PartialEq, Eq)]
pub struct TaxedTransferReceipt {
    /// The amount less the tax, to move to the recipient.
    pub net: Transfer,
    /// The tax, to move to the conservation fund; none where no tax is due.
    pub tax: Option<Transfer>,
    pub event: TransferWithTaxEvent,
}

/// The kind of a transfer of `amount`: large from the threshold on, between
/// holders below it.
pub open spec fn transfer_type_of(amount: u64, whale_threshold: u64) -> TransferType {
    if amount >= whale_threshold {
        TransferType::LargeWhale
    } else {
        TransferType::PeerToPeer
    }
}

/// The kind of a transfer of `amount` between the two owners.
pub fn determine_transfer_type(
    from_owner: &Pubkey,
    to_owner: &Pubkey,
    amount: u64,
    whale_threshold: u64,
) -> (r: Result<TransferType, ErrorCode>)
    ensures
        r == Ok::<TransferType, ErrorCode>(transfer_type_of(amount, whale_threshold)),
{
    if amount >= whale_threshold {
        return Ok(TransferType::LargeWhale);
    }
    Ok(TransferType::PeerToPeer)
}

/// The rate that `config` sets for a kind of transfer, in basis points.
pub open spec fn rate_for(config: TaxConfig, transfer_type: TransferType) -> u16 {
    match transfer_type {
        TransferType::PeerToPeer => config.p2p_tax_rate,
        TransferType::ExchangeDeposit => config.exchange_tax_rate,
        TransferType::ConservationReward => 0,
        TransferType::LargeWhale => config.whale_tax_rate,
    }
}

/// The rate that `config` sets for a kind of transfer, in basis points.
pub fn tax_rate_for(config: &TaxConfig, transfer_type: TransferType) -> (rate: u16)
    ensures
        rate == rate_for(*config, transfer_type),
{
    match transfer_type {
        TransferType::PeerToPeer => config.p2p_tax_rate,
        TransferType::ExchangeDeposit => config.exchange_tax_rate,
        TransferType::ConservationReward => 0,
        TransferType::LargeWhale => config.whale_tax_rate,
    }
}

/// The tax on `amount` at `tax_rate` basis points, rounded down.
pub open spec fn tax_due(amount: int, tax_rate: int) -> int {
    amount * tax_rate / 10000
}

/// The tax on `amount` at `tax_rate` basis points, formed in 128 bits;
/// `Overflow` when it does not fit in 64.
pub fn calculate_tax(amount: u64, tax_rate: u16) -> (r: Result<u64, ErrorCode>)
    ensures
        tax_due(amount as int, tax_rate as int) <= u64::MAX ==> r == Ok::<u64, ErrorCode>(
            tax_due(amount as int, tax_rate as int) as u64,
        ),
        tax_due(amount as int, tax_rate as int) > u64::MAX ==> r == Err::<u64, ErrorCode>(
            ErrorCode::Overflow,
        ),
        tax_rate <= 10000 ==> r is Ok && r->Ok_0 <= amount,
{
    if tax_rate == 0 {
        assert(amount * tax_rate == 0) by (nonlinear_arith)
            requires
                tax_rate == 0,
        ;
        return Ok(0);
    }
    proof {
        vstd::arithmetic::mul::lemma_mul_upper_bound(
            amount as int,
            u64::MAX as int,
            tax_rate as int,
            u16::MAX as int,
        );
        if tax_rate <= 10000 {
            vstd::arithmetic::mul::lemma_mul_upper_bound(
                amount as int,
                amount as int,
                tax_rate as int,
                10000,
            );
            vstd::arithmetic::div_mod::lemma_div_is_ordered(
                amount * tax_rate,
                amount * 10000,
                10000,
            );
        }
    }
    let tax = match (amount as u128).checked_mul(tax_rate as u128) {
        Some(scaled) => scaled / 10000,
        None => {
            return Err(ErrorCode::Overflow);
        },
    };
    if tax > u64::MAX as u128 {
        return Err(ErrorCode::Overflow);
    }
    Ok(tax as u64)
}

/// Accepts a tax of `actual_tax` where the sender allowed `max_tax`.
pub fn validate_tax_slippage(actual_tax: u64, max_tax: u64) -> (r: Result<(), ErrorCode>)
    ensures
        actual_tax <= max_tax ==> r == Ok::<(), ErrorCode>(()),
        actual_tax > max_tax ==> r == Err::<(), ErrorCode>(ErrorCode::SlippageExceeded),
{
    if actual_tax > max_tax {
        return Err(ErrorCode::SlippageExceeded);
    }
    Ok(())
}

/// Accepts an output of `actual_output` where at least `min_output` was
/// asked for.
pub fn validate_min_output(actual_output: u64, min_output: u64) -> (r: Result<(), ErrorCode>)
    ensures
        actual_output >= min_output ==> r == Ok::<(), ErrorCode>(()),
        actual_output < min_output ==> r == Err::<(), ErrorCode>(ErrorCode::SlippageExceeded),
{
    if actual_output < min_output {
        return Err(ErrorCode::SlippageExceeded);
    }
    Ok(())
}

/// Accepts a price impact of `actual_impact` where `max_impact` was allowed.
pub fn validate_price_impact(actual_impact: u64, max_impact: u64) -> (r: Result<(), ErrorCode>)
    ensures
        actual_impact <= max_impact ==> r == Ok::<(), ErrorCode>(()),
        actual_impact > max_impact ==> r == Err::<(), ErrorCode>(ErrorCode::SlippageExceeded),
{
    if actual_impact > max_impact {
        return Err(ErrorCode::SlippageExceeded);
    }
    Ok(())
}

/// The distance between `expected` and `actual`, in basis points of
/// `expected`, rounded down; zero where nothing was expected.
pub open spec fn price_impact(expected: u64, actual: u64) -> int {
    if expected == 0 {
        0
    } else if expected > actual {
        (expected - actual) * 10000 / (expected as int)
    } else {
        (actual - expected) * 10000 / (expected as int)
    }
}

/// The distance between `expected` and `actual`, in basis points of
/// `expected`. The quotient is formed in 128 bits and its low 64 bits are
/// returned.
pub fn calculate_price_impact(expected: u64, actual: u64) -> (impact: u64)
    ensures
        impact == price_impact(expected, actual) % 0x1_0000_0000_0000_0000,
        price_impact(expected, actual) <= u64::MAX ==> impact == price_impact(expected, actual),
{
    if expected == 0 {
        return 0;
    }
    let diff = if expected > actual {
        expected - actual
    } else {
        actual - expected
    };
    let scaled: u128 = (diff as u128 * 10000) / (expected as u128);
    let impact = #[verifier::truncate]
    (scaled as u64);
    assert(impact == scaled % 0x1_0000_0000_0000_0000) by (bit_vector)
        requires
            impact == scaled as u64,
    ;
    impact
}

/// The first reason to refuse a transfer of `amount` with at most
/// `max_tax_amount` of tax, if there is one.
pub open spec fn transfer_rejection(
    ctx: TransferWithTax,
    amount: u64,
    max_tax_amount: u64,
) -> Option<ErrorCode> {
    let config = ctx.tax_config;
    let rate = rate_for(config, transfer_type_of(amount, config.whale_transfer_threshold));
    let tax = tax_due(amount as int, rate as int);
    if amount < MIN_TRANSFER_AMOUNT {
        Some(ErrorCode::AmountTooSmall)
    } else if amount > MAX_TRANSFER_AMOUNT {
        Some(ErrorCode::AmountTooLarge)
    } else if ctx.from.amount < amount {
        Some(ErrorCode::InsufficientBalance)
    } else if tax > amount {
        Some(ErrorCode::Underflow)
    } else if tax > config.max_tax_per_transfer {
        Some(ErrorCode::TaxTooHigh)
    } else if tax == amount {
        Some(ErrorCode::InsufficientAmountAfterTax)
    } else if tax > max_tax_amount {
        Some(ErrorCode::SlippageExceeded)
    } else {
        None
    }
}

/// The two transfers and the record of a transfer of `amount` at `now`.
pub open spec fn transfer_receipt(ctx: TransferWithTax, amount: u64, now: i64) -> TaxedTransferReceipt {
    let config = ctx.tax_config;
    let transfer_type = transfer_type_of(amount, config.whale_transfer_threshold);
    let rate = rate_for(config, transfer_type);
    let tax = tax_due(amount as int, rate as int) as u64;
    TaxedTransferReceipt {
        net: Transfer {
            from: ctx.from.key,
            to: ctx.to.key,
            authority: ctx.authority,
            amount: (amount - tax) as u64,
        },
        tax: if tax > 0 {
            Some(
                Transfer {
                    from: ctx.from.key,
                    to: ctx.conservation_fund.key,
                    authority: ctx.authority,
                    amount: tax,
                },
            )
        } else {
            None
        },
        event: TransferWithTaxEvent {
            from: ctx.authority,
            to: ctx.to.key,
            amount: (amount - tax) as u64,
            tax_amount: tax,
            tax_rate: rate,
            transfer_type,
            conservation_fund: ctx.conservation_fund.key,
            timestamp: now,
        },
    }
}

/// Splits a transfer of `amount` into what the recipient gets and the tax
/// for the conservation fund.
///
/// The checks, in order: the amount is within `[MIN_TRANSFER_AMOUNT,
/// MAX_TRANSFER_AMOUNT]` (`AmountTooSmall`, `AmountTooLarge`); the sender
/// holds it (`InsufficientBalance`); the tax is no more than the amount
/// (`Underflow`) and no more than the configured maximum (`TaxTooHigh`);
/// something is left for the recipient (`InsufficientAmountAfterTax`); the
/// tax is no more than the sender allowed (`SlippageExceeded`).
///
/// `Overflow` and `TaxExceedsAmount` never come back: within the bounds of
/// the amount the tax fits in 64 bits, and a tax as large as the amount is
/// refused before for leaving nothing to the recipient.
pub fn transfer_with_tax(ctx: &TransferWithTax, amount: u64, max_tax_amount: u64, now: i64) -> (r:
    Result<TaxedTransferReceipt, ErrorCode>)
    ensures
        match r {
            Ok(receipt) => {
                &&& transfer_rejection(*ctx, amount, max_tax_amount) is None
                &&& receipt == transfer_receipt(*ctx, amount, now)
                &&& receipt.net.amount + receipt.event.tax_amount == amount
                &&& receipt.net.amount > 0
            },
            Err(e) => transfer_rejection(*ctx, amount, max_tax_amount) == Some(e),
        },
{
    let config = &ctx.tax_config;
    if amount < MIN_TRANSFER_AMOUNT {
        return Err(ErrorCode::AmountTooSmall);
    }
    if amount > MAX_TRANSFER_AMOUNT {
        return Err(ErrorCode::AmountTooLarge);
    }
    if ctx.from.amount < amount {
        return Err(ErrorCode::InsufficientBalance);
    }
    let transfer_type = match determine_transfer_type(
        &ctx.from.owner,
        &ctx.to.owner,
        amount,
        config.whale_transfer_threshold,
    ) {
        Ok(transfer_type) => transfer_type,
        Err(e) => {
            return Err(e);
        },
    };
    let tax_rate = tax_rate_for(config, transfer_type);
    proof {
        vstd::arithmetic::mul::lemma_mul_upper_bound(
            amount as int,
            MAX_TRANSFER_AMOUNT as int,
            tax_rate as int,
            u16::MAX as int,
        );
        vstd::arithmetic::div_mod::lemma_div_is_ordered(
            amount * tax_rate,
            MAX_TRANSFER_AMOUNT * u16::MAX,
            10000,
        );
    }
    let tax_amount = match calculate_tax(amount, tax_rate) {
        Ok(tax) => tax,
        Err(e) => {
            return Err(e);
        },
    };
    let net_amount = match amount.checked_sub(tax_amount) {
        Some(net) => net,
        None => {
            return Err(ErrorCode::Underflow);
        },
    };
    if tax_amount > config.max_tax_per_transfer {
        return Err(ErrorCode::TaxTooHigh);
    }
    if net_amount == 0 {
        return Err(ErrorCode::InsufficientAmountAfterTax);
    }
    if tax_amount >= amount {
        return Err(ErrorCode::TaxExceedsAmount);
    }
    match validate_tax_slippage(tax_amount, max_tax_amount) {
        Ok(()) => {},
        Err(e) => {
            return Err(e);
        },
    }
    let tax = if tax_amount > 0 {
        Some(
            Transfer {
                from: ctx.from.key,
                to: ctx.conservation_fund.key,
                authority: ctx.authority,
                amount: tax_amount,
            },
        )
    } else {
        None
    };
    Ok(
        TaxedTransferReceipt {
            net: Transfer {
                from: ctx.from.key,
                to: ctx.to.key,
                authority: ctx.authority,
                amount: net_amount,
            },
            tax,
            event: TransferWithTaxEvent {
                from: ctx.authority,
                to: ctx.to.key,
                amount: net_amount,
                tax_amount,
                tax_rate,
                transfer_type,
                conservation_fund: ctx.conservation_fund.key,
                timestamp: now,
            },
        },
    )
}

/// The first reason to refuse a first configuration, if there is one.
pub open spec fn initialize_tax_config_rejection(
    p2p_tax_rate: u16,
    exchange_tax_rate: u16,
    whale_tax_rate: u16,
    whale_threshold: u64,
) -> Option<ErrorCode> {
    if p2p_tax_rate > MAX_TAX_RATE || exchange_tax_rate > MAX_TAX_RATE || whale_tax_rate
        > MAX_TAX_RATE {
        Some(ErrorCode::TaxRateTooHigh)
    } else if whale_threshold == 0 {
        Some(ErrorCode::InvalidWhaleThreshold)
    } else {
        None
    }
}

/// Writes the tax configuration for the first time, with the caller as its
/// authority and a tenth of the largest transfer as the most that one
/// transfer may be taxed.
///
/// Refused with `TaxRateTooHigh` where a rate is above 10%, and with
/// `InvalidWhaleThreshold` where the threshold is zero.
pub fn initialize_tax_config(
    ctx: &mut InitializeTaxConfig,
    p2p_tax_rate: u16,
    exchange_tax_rate: u16,
    whale_tax_rate: u16,
    whale_threshold: u64,
    now: i64,
) -> (r: Result<TaxConfigInitializedEvent, ErrorCode>)
    ensures
        match r {
            Ok(event) => {
                &&& initialize_tax_config_rejection(
                    p2p_tax_rate,
                    exchange_tax_rate,
                    whale_tax_rate,
                    whale_threshold,
                ) is None
                &&& *final(ctx) == (InitializeTaxConfig {
                    tax_config: TaxConfig {
                        authority: old(ctx).authority,
                        p2p_tax_rate,
                        exchange_tax_rate,
                        whale_tax_rate,
                        whale_transfer_threshold: whale_threshold,
                        max_tax_per_transfer: MAX_TAX_PER_TRANSFER,
                        conservation_fund: old(ctx).conservation_fund,
                        last_updated: now,
                    },
                    ..*old(ctx)
                })
                &&& final(ctx).tax_config.well_formed()
                &&& event == (TaxConfigInitializedEvent {
                    authority: old(ctx).authority,
                    p2p_tax_rate,
                    exchange_tax_rate,
                    whale_tax_rate,
                    whale_threshold,
                    conservation_fund: old(ctx).conservation_fund,
                    timestamp: now,
                })
            },
            Err(e) => {
                &&& initialize_tax_config_rejection(
                    p2p_tax_rate,
                    exchange_tax_rate,
                    whale_tax_rate,
                    whale_threshold,
                ) == Some(e)
                &&& *final(ctx) == *old(ctx)
            },
        },
{
    if p2p_tax_rate > MAX_TAX_RATE {
        return Err(ErrorCode::TaxRateTooHigh);
    }
    if exchange_tax_rate > MAX_TAX_RATE {
        return Err(ErrorCode::TaxRateTooHigh);
    }
    if whale_tax_rate > MAX_TAX_RATE {
        return Err(ErrorCode::TaxRateTooHigh);
    }
    if whale_threshold == 0 {
        return Err(ErrorCode::InvalidWhaleThreshold);
    }
    ctx.tax_config = TaxConfig {
        authority: ctx.authority,
        p2p_tax_rate,
        exchange_tax_rate,
        whale_tax_rate,
        whale_transfer_threshold: whale_threshold,
        max_tax_per_transfer: MAX_TRANSFER_AMOUNT / 10,
        conservation_fund: ctx.conservation_fund,
        last_updated: now,
    };
    Ok(
        TaxConfigInitializedEvent {
            authority: ctx.authority,
            p2p_tax_rate,
            exchange_tax_rate,
            whale_tax_rate,
            whale_threshold,
            conservation_fund: ctx.conservation_fund,
            timestamp: now,
        },
    )
}

/// The first reason to refuse a change of the configuration, if there is
/// one.
pub open spec fn update_tax_config_rejection(
    ctx: UpdateTaxConfig,
    p2p_tax_rate: Option<u16>,
    exchange_tax_rate: Option<u16>,
    whale_tax_rate: Option<u16>,
    whale_threshold: Option<u64>,
) -> Option<ErrorCode> {
    if ctx.authority != ctx.tax_config.authority {
        Some(ErrorCode::Unauthorized)
    } else if p2p_tax_rate matches Some(rate) && rate > MAX_TAX_RATE {
        Some(ErrorCode::TaxRateTooHigh)
    } else if exchange_tax_rate matches Some(rate) && rate > MAX_TAX_RATE {
        Some(ErrorCode::TaxRateTooHigh)
    } else if whale_tax_rate matches Some(rate) && rate > MAX_TAX_RATE {
        Some(ErrorCode::TaxRateTooHigh)
    } else if whale_threshold == Some(0u64) {
        Some(ErrorCode::InvalidWhaleThreshold)
    } else {
        None
    }
}

/// The configuration after a change: each value that was given replaces the
/// one in force, and the others stay.
pub open spec fn updated_tax_config(
    config: TaxConfig,
    p2p_tax_rate: Option<u16>,
    exchange_tax_rate: Option<u16>,
    whale_tax_rate: Option<u16>,
    whale_threshold: Option<u64>,
    now: i64,
) -> TaxConfig {
    TaxConfig {
        p2p_tax_rate: match p2p_tax_rate {
            Some(rate) => rate,
            None => config.p2p_tax_rate,
        },
        exchange_tax_rate: match exchange_tax_rate {
            Some(rate) => rate,
            None => config.exchange_tax_rate,
        },
        whale_tax_rate: match whale_tax_rate {
            Some(rate) => rate,
            None => config.whale_tax_rate,
        },
        whale_transfer_threshold: match whale_threshold {
            Some(threshold) => threshold,
            None => config.whale_transfer_threshold,
        },
        last_updated: now,
        ..config
    }
}

/// Changes the rates and the threshold that are given, and leaves the others.
///
/// Refused with `Unauthorized` where the caller is not the configuration's
/// authority, `TaxRateTooHigh` where a given rate is above 10%, and
/// `InvalidWhaleThreshold` where the given threshold is zero.
pub fn update_tax_config(
    ctx: &mut UpdateTaxConfig,
    p2p_tax_rate: Option<u16>,
    exchange_tax_rate: Option<u16>,
    whale_tax_rate: Option<u16>,
    whale_threshold: Option<u64>,
    now: i64,
) -> (r: Result<TaxConfigUpdatedEvent, ErrorCode>)
    ensures
        match r {
            Ok(event) => {
                &&& update_tax_config_rejection(
                    *old(ctx),
                    p2p_tax_rate,
                    exchange_tax_rate,
                    whale_tax_rate,
                    whale_threshold,
                ) is None
                &&& *final(ctx) == (UpdateTaxConfig {
                    tax_config: updated_tax_config(
                        old(ctx).tax_config,
                        p2p_tax_rate,
                        exchange_tax_rate,
                        whale_tax_rate,
                        whale_threshold,
                        now,
                    ),
                    ..*old(ctx)
                })
                &&& old(ctx).tax_config.well_formed() ==> final(ctx).tax_config.well_formed()
                &&& event == (TaxConfigUpdatedEvent {
                    authority: old(ctx).authority,
                    p2p_tax_rate: final(ctx).tax_config.p2p_tax_rate,
                    exchange_tax_rate: final(ctx).tax_config.exchange_tax_rate,
                    whale_tax_rate: final(ctx).tax_config.whale_tax_rate,
                    whale_threshold: final(ctx).tax_config.whale_transfer_threshold,
                    timestamp: now,
                })
            },
            Err(e) => {
                &&& update_tax_config_rejection(
                    *old(ctx),
                    p2p_tax_rate,
                    exchange_tax_rate,
                    whale_tax_rate,
                    whale_threshold,
                ) == Some(e)
                &&& *final(ctx) == *old(ctx)
            },
        },
{
    if !ctx.authority.equals(&ctx.tax_config.authority) {
        return Err(ErrorCode::Unauthorized);
    }
    let mut config = ctx.tax_config;
    if let Some(rate) = p2p_tax_rate {
        if rate > MAX_TAX_RATE {
            return Err(ErrorCode::TaxRateTooHigh);
        }
        config.p2p_tax_rate = rate;
    }
    if let Some(rate) = exchange_tax_rate {
        if rate > MAX_TAX_RATE {
            return Err(ErrorCode::TaxRateTooHigh);
        }
        config.exchange_tax_rate = rate;
    }
    if let Some(rate) = whale_tax_rate {
        if rate > MAX_TAX_RATE {
            return Err(ErrorCode::TaxRateTooHigh);
        }
        config.whale_tax_rate = rate;
    }
    if let Some(threshold) = whale_threshold {
        if threshold == 0 {
            return Err(ErrorCode::InvalidWhaleThreshold);
        }
        config.whale_transfer_threshold = threshold;
    }
    config.last_updated = now;
    ctx.tax_config = config;
    Ok(
        TaxConfigUpdatedEvent {
            authority: ctx.authority,
            p2p_tax_rate: config.p2p_tax_rate,
            exchange_tax_rate: config.exchange_tax_rate,
            whale_tax_rate: config.whale_tax_rate,
            whale_threshold: config.whale_transfer_threshold,
            timestamp: now,
        },
    )
}

} // verus!
