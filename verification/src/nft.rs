//! The collectible: minting under a supply cap, evolution through life
//! stages with a cooldown, and locking while staked.

use crate::arith::fits_i64;
use crate::keys::{Mint, Pubkey};
use vstd::prelude::*;

verus! {

/// Shortest evolution cooldown, in seconds.
pub const MIN_EVOLUTION_COOLDOWN: i64 = 60;

/// Longest evolution cooldown: 30 days, in seconds.
pub const MAX_EVOLUTION_COOLDOWN: i64 = 2_592_000;

/// A collectible evolves at most this many times.
pub const MAX_EVOLUTION_COUNT: u32 = 100;

/// Highest generation number.
pub const MAX_GENERATION: u16 = 1000;

/// The most collectibles that can ever be minted.
pub const MAX_TOTAL_NFTS: u64 = 10000;

/// Why a collectible operation was refused.
#[derive(Clone, Copy, Debug, PartialEq, Eq, Structural)]
pub enum ErrorCode {
    InvalidEvolutionStage,
    EvolutionCooldownActive,
    MaxEvolutionReached,
    CooldownTooShort,
    CooldownTooLong,
    InvalidNFTMint,
    Unauthorized,
    Overflow,
    MaxEvolutionCountReached,
    HatchlingLocked,
    NotLocked,
    AlreadyLocked,
    MaxSupplyReached,
    MintPaused,
    Underflow,
    DivisionByZero,
    InvalidSeries,
    InvalidMatchingId,
    MainCollectionNoEvolution,
}

/// The life stage of a collectible.
#[derive(Clone, Copy, Debug, PartialEq, Eq, Structural)]
pub enum LifeStage {
    Hatchling,
    Adult,
    Egg,
    Juvenile,
    Legendary,
}

/// How rare a collectible is.
#[derive(Clone, Copy, Debug, PartialEq, Eq, Structural)]
pub enum Rarity {
    Common,
    Uncommon,
    Rare,
    Epic,
    Legendary,
}

/// The traits of a collectible.
#[derive(Clone, Copy, Debug, PartialEq, Eq, Structural)]
pub struct TraitSet {
    pub strength: u16,
    pub agility: u16,
    pub intelligence: u16,
    pub special_ability: u16,
}

impl TraitSet {
    /// The traits of a collectible that has none yet: all zero.
    pub open spec fn none() -> TraitSet {
        TraitSet { strength: 0, agility: 0, intelligence: 0, special_ability: 0 }
    }
}

impl Default for TraitSet {
    fn default() -> (traits: TraitSet)
        ensures
            traits == TraitSet::none(),
    {
        TraitSet { strength: 0, agility: 0, intelligence: 0, special_ability: 0 }
    }
}

/// The mint counter of the collection.
#[derive(Clone, Copy, Debug, PartialEq, Eq)]
pub struct GlobalConfig {
    pub authority: Pubkey,
    pub total_minted: u64,
    pub max_supply: u64,
    pub mint_paused: bool,
}

/// One collectible.
#[derive(Clone, Copy, Debug, PartialEq, Eq)]
pub struct Hatchling {
    pub nft_mint: Pubkey,
    pub authority: Pubkey,
    pub stage: LifeStage,
    pub rarity: Rarity,
    pub evolution_count: u32,
    pub last_evolution_timestamp: i64,
    pub evolution_cooldown: i64,
    pub traits: TraitSet,
    pub generation: u16,
    /// A locked collectible does not evolve.
    pub is_locked: bool,
    /// 1 for the main collection, 2 for special editions.
    pub series: u8,
    /// In the main collection, the number of the collectible it is paired
    /// with.
    pub matching_nft_id: u16,
    pub is_special_edition: bool,
}

/// The mint counter was set up.
#[derive(Clone, Copy, Debug, PartialEq, Eq)]
pub struct GlobalConfigInitializedEvent {
    pub authority: Pubkey,
    pub max_supply: u64,
    pub timestamp: i64,
}

/// A collectible was set up.
#[derive(Clone, Copy, Debug, PartialEq, Eq)]
pub struct HatchlingInitializedEvent {
    pub nft_mint: Pubkey,
    pub authority: Pubkey,
    pub evolution_cooldown: i64,
    pub timestamp: i64,
}

/// A collectible evolved.
#[derive(Clone, Copy, Debug, PartialEq, Eq)]
pub struct EvolutionEvent {
    pub nft_mint: Pubkey,
    pub old_stage: LifeStage,
    pub new_stage: LifeStage,
    pub evolved_by: Pubkey,
    pub timestamp: i64,
    pub traits: TraitSet,
    pub evolution_count: u32,
}

/// A collectible was locked.
#[derive(Clone, Copy, Debug, PartialEq, Eq)]
pub struct HatchlingLockedEvent {
    pub nft_mint: Pubkey,
    pub locked_by: Pubkey,
    pub timestamp: i64,
}

/// A collectible was unlocked.
#[derive(Clone, Copy, Debug, PartialEq, Eq)]
pub struct HatchlingUnlockedEvent {
    pub nft_mint: Pubkey,
    pub unlocked_by: Pubkey,
    pub timestamp: i64,
}

/// The accounts of `initialize_global_config`.
#[derive(Clone, Copy, Debug, PartialEq, Eq)]
pub struct InitializeGlobalConfig {
    /// The counter, to be written.
    pub global_config: GlobalConfig,
    /// The caller.
    pub authority: Pubkey,
}

/// The accounts of `initialize_hatchling`.
#[derive(Clone, Copy, Debug, PartialEq, Eq)]
pub struct InitializeHatchling {
    pub global_config: GlobalConfig,
    /// The collectible, to be written.
    pub hatchling: Hatchling,
    pub nft_mint: Mint,
    /// The caller.
    pub authority: Pubkey,
}

/// The accounts of `evolve_hatchling`.
#[derive(Clone, Copy, Debug, PartialEq, Eq)]
pub struct EvolveHatchling {
    pub hatchling: Hatchling,
    /// The caller.
    pub authority: Pubkey,
}

/// The accounts of `lock_hatchling`.
#[derive(Clone, Copy, Debug, PartialEq, Eq)]
pub struct LockHatchling {
    pub hatchling: Hatchling,
    /// The caller.
    pub authority: Pubkey,
}

/// The accounts of `unlock_hatchling`.
#[derive(Clone, Copy, Debug, PartialEq, Eq)]
pub struct UnlockHatchling {
    pub hatchling: Hatchling,
    /// The caller.
    pub authority: Pubkey,
}

/// The number from which a rarity is drawn: the first byte of the key plus
/// the timestamp read as an unsigned 64-bit number.
pub open spec fn rarity_seed(first_byte: u8, timestamp: i64) -> int {
    if timestamp >= 0 {
        first_byte + timestamp
    } else {
        first_byte + timestamp + 0x1_0000_0000_0000_0000
    }
}

/// The rarity drawn for a number from 0 to 99: half are common, a quarter
/// uncommon, 15 in a hundred rare, 8 epic and 2 legendary.
pub open spec fn rarity_of_draw(draw: int) -> Rarity {
    if draw <= 49 {
        Rarity::Common
    } else if draw <= 74 {
        Rarity::Uncommon
    } else if draw <= 89 {
        Rarity::Rare
    } else if draw <= 97 {
        Rarity::Epic
    } else if draw <= 99 {
        Rarity::Legendary
    } else {
        Rarity::Common
    }
}

/// What `calculate_rarity` returns.
pub open spec fn drawn_rarity(authority: Pubkey, timestamp: i64) -> Result<Rarity, ErrorCode> {
    let seed = rarity_seed(authority.bytes[0], timestamp);
    if seed > u64::MAX {
        Err(ErrorCode::Overflow)
    } else {
        Ok(rarity_of_draw(seed % 100))
    }
}

/// Draws a rarity from the caller's key and the time. The same key and time
/// always draw the same rarity. `Overflow` where the seed does not fit in 64
/// bits.
pub fn calculate_rarity(authority: &Pubkey, timestamp: i64) -> (r: Result<Rarity, ErrorCode>)
    ensures
        r == drawn_rarity(*authority, timestamp),
{
    let first_byte = authority.bytes[0] as u64;
    let time: u64 = if timestamp >= 0 {
        timestamp as u64
    } else {
        u64::MAX - ((-(timestamp + 1)) as u64)
    };
    let seed = match first_byte.checked_add(time) {
        Some(seed) => seed,
        None => {
            return Err(ErrorCode::Overflow);
        },
    };
    let random = seed % 100;
    let rarity = if random <= 49 {
        Rarity::Common
    } else if random <= 74 {
        Rarity::Uncommon
    } else if random <= 89 {
        Rarity::Rare
    } else if random <= 97 {
        Rarity::Epic
    } else {
        Rarity::Legendary
    };
    Ok(rarity)
}

/// The stat that every trait starts with at a given rarity.
pub open spec fn base_stat(rarity: Rarity) -> u16 {
    match rarity {
        Rarity::Common => 10,
        Rarity::Uncommon => 15,
        Rarity::Rare => 20,
        Rarity::Epic => 30,
        Rarity::Legendary => 50,
    }
}

/// The traits that a collectible of the given rarity starts with.
pub fn generate_initial_traits(rarity: Rarity) -> (r: Result<TraitSet, ErrorCode>)
    ensures
        r == Ok::<TraitSet, ErrorCode>(
            TraitSet {
                strength: base_stat(rarity),
                agility: base_stat(rarity),
                intelligence: base_stat(rarity),
                special_ability: 0,
            },
        ),
{
    let base: u16 = match rarity {
        Rarity::Common => 10,
        Rarity::Uncommon => 15,
        Rarity::Rare => 20,
        Rarity::Epic => 30,
        Rarity::Legendary => 50,
    };
    Ok(TraitSet { strength: base, agility: base, intelligence: base, special_ability: 0 })
}

/// How much faster a rarity grows than the common one.
pub open spec fn growth_multiplier(rarity: Rarity) -> u16 {
    match rarity {
        Rarity::Common => 1,
        Rarity::Uncommon => 2,
        Rarity::Rare => 3,
        Rarity::Epic => 4,
        Rarity::Legendary => 5,
    }
}

/// `stat + boost`, capped at the largest stat.
pub open spec fn capped(stat: u16, boost: int) -> u16 {
    if stat + boost > u16::MAX {
        u16::MAX
    } else {
        (stat + boost) as u16
    }
}

/// The traits after an evolution of the given level: strength, agility and
/// intelligence grow by five times level times multiplier, the special
/// ability by the level, each capped at the largest stat.
pub open spec fn evolved_traits(current: TraitSet, rarity: Rarity, evolution_level: u8) -> TraitSet {
    let boost = evolution_level * growth_multiplier(rarity) * 5;
    TraitSet {
        strength: capped(current.strength, boost),
        agility: capped(current.agility, boost),
        intelligence: capped(current.intelligence, boost),
        special_ability: capped(current.special_ability, evolution_level as int),
    }
}

/// The traits after an evolution of the given level.
pub fn evolve_traits(current: &TraitSet, rarity: Rarity, evolution_level: u8) -> (r: Result<
    TraitSet,
    ErrorCode,
>)
    ensures
        r == Ok::<TraitSet, ErrorCode>(evolved_traits(*current, rarity, evolution_level)),
{
    let multiplier: u16 = match rarity {
        Rarity::Common => 1,
        Rarity::Uncommon => 2,
        Rarity::Rare => 3,
        Rarity::Epic => 4,
        Rarity::Legendary => 5,
    };
    assert(evolution_level * multiplier * 5 <= 255 * 5 * 5) by (nonlinear_arith)
        requires
            evolution_level <= 255,
            multiplier <= 5,
    ;
    assert(evolution_level * multiplier <= 255 * 5) by (nonlinear_arith)
        requires
            evolution_level <= 255,
            multiplier <= 5,
    ;
    let boost = (evolution_level as u16) * multiplier * 5;
    Ok(
        TraitSet {
            strength: current.strength.saturating_add(boost),
            agility: current.agility.saturating_add(boost),
            intelligence: current.intelligence.saturating_add(boost),
            special_ability: current.special_ability.saturating_add(evolution_level as u16),
        },
    )
}

/// The next rarity up; the highest stays.
pub open spec fn next_rarity(current: Rarity) -> Rarity {
    match current {
        Rarity::Common => Rarity::Uncommon,
        Rarity::Uncommon => Rarity::Rare,
        Rarity::Rare => Rarity::Epic,
        Rarity::Epic => Rarity::Legendary,
        Rarity::Legendary => Rarity::Legendary,
    }
}

/// The next rarity up; the highest stays.
pub fn upgrade_rarity(current: Rarity) -> (r: Result<Rarity, ErrorCode>)
    ensures
        r == Ok::<Rarity, ErrorCode>(next_rarity(current)),
{
    let upgraded = match current {
        Rarity::Common => Rarity::Uncommon,
        Rarity::Uncommon => Rarity::Rare,
        Rarity::Rare => Rarity::Epic,
        Rarity::Epic => Rarity::Legendary,
        Rarity::Legendary => Rarity::Legendary,
    };
    Ok(upgraded)
}

/// Sets up the mint counter: nothing minted, the cap at `MAX_TOTAL_NFTS`,
/// minting open, the caller as authority.
pub fn initialize_global_config(ctx: &mut InitializeGlobalConfig, now: i64) -> (r: Result<
    GlobalConfigInitializedEvent,
    ErrorCode,
>)
    ensures
        r == Ok::<GlobalConfigInitializedEvent, ErrorCode>(
            GlobalConfigInitializedEvent {
                authority: old(ctx).authority,
                max_supply: MAX_TOTAL_NFTS,
                timestamp: now,
            },
        ),
        *final(ctx) == (InitializeGlobalConfig {
            global_config: GlobalConfig {
                authority: old(ctx).authority,
                total_minted: 0,
                max_supply: MAX_TOTAL_NFTS,
                mint_paused: false,
            },
            ..*old(ctx)
        }),
{
    ctx.global_config = GlobalConfig {
        authority: ctx.authority,
        total_minted: 0,
        max_supply: MAX_TOTAL_NFTS,
        mint_paused: false,
    };
    Ok(
        GlobalConfigInitializedEvent {
            authority: ctx.authority,
            max_supply: MAX_TOTAL_NFTS,
            timestamp: now,
        },
    )
}

/// The number of the collectible that is minted when `total_minted` have
/// been minted before it, as the pairing rule reads it: in 16 bits.
pub open spec fn minted_id(total_minted: u64) -> int {
    (total_minted + 1) % 0x1_0000
}

/// Whether `matching_nft_id` may pair with the collectible numbered
/// `nft_id`: numbers up to 1500 pair with 1501 to 3000, the others with 1 to
/// 1500.
pub open spec fn matching_id_pairs(nft_id: int, matching_nft_id: u16) -> bool {
    if nft_id <= 1500 {
        1500 < matching_nft_id <= 3000
    } else {
        1 <= matching_nft_id <= 1500
    }
}

/// The first reason to refuse the setting up of a collectible, if there is
/// one.
pub open spec fn initialize_hatchling_rejection(
    ctx: InitializeHatchling,
    evolution_cooldown: i64,
    series: u8,
    matching_nft_id: u16,
    is_special_edition: bool,
) -> Option<ErrorCode> {
    let config = ctx.global_config;
    if config.mint_paused {
        Some(ErrorCode::MintPaused)
    } else if config.total_minted >= config.max_supply {
        Some(ErrorCode::MaxSupplyReached)
    } else if evolution_cooldown < MIN_EVOLUTION_COOLDOWN {
        Some(ErrorCode::CooldownTooShort)
    } else if evolution_cooldown > MAX_EVOLUTION_COOLDOWN {
        Some(ErrorCode::CooldownTooLong)
    } else if ctx.nft_mint.supply != 1 || ctx.nft_mint.decimals != 0 {
        Some(ErrorCode::InvalidNFTMint)
    } else if series != 1 && series != 2 {
        Some(ErrorCode::InvalidSeries)
    } else if series == 1 && !is_special_edition && !matching_id_pairs(
        minted_id(config.total_minted),
        matching_nft_id,
    ) {
        Some(ErrorCode::InvalidMatchingId)
    } else {
        None
    }
}

/// The collectible that is set up at `now`: a common hatchling of the first
/// generation, without traits, unlocked, that has not evolved.
pub open spec fn initialized_hatchling(
    ctx: InitializeHatchling,
    evolution_cooldown: i64,
    series: u8,
    matching_nft_id: u16,
    is_special_edition: bool,
    now: i64,
) -> Hatchling {
    Hatchling {
        nft_mint: ctx.nft_mint.key,
        authority: ctx.authority,
        stage: LifeStage::Hatchling,
        rarity: Rarity::Common,
        evolution_count: 0,
        last_evolution_timestamp: now,
        evolution_cooldown,
        traits: TraitSet::none(),
        generation: 1,
        is_locked: false,
        series,
        matching_nft_id,
        is_special_edition,
    }
}

/// Sets up a collectible for a mint and counts it.
///
/// The checks, in order: minting is open (`MintPaused`); the cap is not
/// reached (`MaxSupplyReached`); the cooldown is within
/// `[MIN_EVOLUTION_COOLDOWN, MAX_EVOLUTION_COOLDOWN]` (`CooldownTooShort`,
/// `CooldownTooLong`); the mint has a supply of one and no decimals
/// (`InvalidNFTMint`); the series is 1 or 2 (`InvalidSeries`); in the main
/// collection, the matching number pairs with the collectible's own
/// (`InvalidMatchingId`).
pub fn initialize_hatchling(
    ctx: &mut InitializeHatchling,
    evolution_cooldown: i64,
    series: u8,
    matching_nft_id: u16,
    is_special_edition: bool,
    now: i64,
) -> (r: Result<HatchlingInitializedEvent, ErrorCode>)
    ensures
        match r {
            Ok(event) => {
                &&& initialize_hatchling_rejection(
                    *old(ctx),
                    evolution_cooldown,
                    series,
                    matching_nft_id,
                    is_special_edition,
                ) is None
                &&& *final(ctx) == (InitializeHatchling {
                    global_config: GlobalConfig {
                        total_minted: (old(ctx).global_config.total_minted + 1) as u64,
                        ..old(ctx).global_config
                    },
                    hatchling: initialized_hatchling(
                        *old(ctx),
                        evolution_cooldown,
                        series,
                        matching_nft_id,
                        is_special_edition,
                        now,
                    ),
                    ..*old(ctx)
                })
                &&& final(ctx).global_config.total_minted <= final(ctx).global_config.max_supply
                &&& event == (HatchlingInitializedEvent {
                    nft_mint: old(ctx).nft_mint.key,
                    authority: old(ctx).authority,
                    evolution_cooldown,
                    timestamp: now,
                })
            },
            Err(e) => {
                &&& initialize_hatchling_rejection(
                    *old(ctx),
                    evolution_cooldown,
                    series,
                    matching_nft_id,
                    is_special_edition,
                ) == Some(e)
                &&& *final(ctx) == *old(ctx)
            },
        },
{
    if ctx.global_config.mint_paused {
        return Err(ErrorCode::MintPaused);
    }
    if ctx.global_config.total_minted >= ctx.global_config.max_supply {
        return Err(ErrorCode::MaxSupplyReached);
    }
    let total_minted = match ctx.global_config.total_minted.checked_add(1) {
        Some(total) => total,
        None => {
            return Err(ErrorCode::Overflow);
        },
    };
    if evolution_cooldown < MIN_EVOLUTION_COOLDOWN {
        return Err(ErrorCode::CooldownTooShort);
    }
    if evolution_cooldown > MAX_EVOLUTION_COOLDOWN {
        return Err(ErrorCode::CooldownTooLong);
    }
    if ctx.nft_mint.supply != 1 {
        return Err(ErrorCode::InvalidNFTMint);
    }
    if ctx.nft_mint.decimals != 0 {
        return Err(ErrorCode::InvalidNFTMint);
    }
    if !(series == 1 || series == 2) {
        return Err(ErrorCode::InvalidSeries);
    }
    if series == 1 && !is_special_edition {
        let nft_id = #[verifier::truncate]
        (total_minted as u16);
        assert(nft_id == total_minted % 0x1_0000) by (bit_vector)
            requires
                nft_id == total_minted as u16,
        ;
        if nft_id <= 1500 {
            if !(matching_nft_id > 1500 && matching_nft_id <= 3000) {
                return Err(ErrorCode::InvalidMatchingId);
            }
        } else {
            if !(matching_nft_id >= 1 && matching_nft_id <= 1500) {
                return Err(ErrorCode::InvalidMatchingId);
            }
        }
    }
    ctx.global_config.total_minted = total_minted;
    ctx.hatchling = Hatchling {
        nft_mint: ctx.nft_mint.key,
        authority: ctx.authority,
        stage: LifeStage::Hatchling,
        rarity: Rarity::Common,
        evolution_count: 0,
        last_evolution_timestamp: now,
        evolution_cooldown,
        traits: TraitSet::default(),
        generation: 1,
        is_locked: false,
        series,
        matching_nft_id,
        is_special_edition,
    };
    Ok(
        HatchlingInitializedEvent {
            nft_mint: ctx.hatchling.nft_mint,
            authority: ctx.hatchling.authority,
            evolution_cooldown,
            timestamp: now,
        },
    )
}

/// The first reason to refuse an evolution at `now`, if there is one.
pub open spec fn evolve_rejection(ctx: EvolveHatchling, now: i64) -> Option<ErrorCode> {
    let hatchling = ctx.hatchling;
    if ctx.authority != hatchling.authority {
        Some(ErrorCode::Unauthorized)
    } else if hatchling.is_locked {
        Some(ErrorCode::HatchlingLocked)
    } else if hatchling.stage == LifeStage::Legendary {
        Some(ErrorCode::MaxEvolutionReached)
    } else if hatchling.evolution_count >= MAX_EVOLUTION_COUNT {
        Some(ErrorCode::MaxEvolutionCountReached)
    } else if !fits_i64(now - hatchling.last_evolution_timestamp) {
        Some(ErrorCode::Overflow)
    } else if now - hatchling.last_evolution_timestamp < hatchling.evolution_cooldown {
        Some(ErrorCode::EvolutionCooldownActive)
    } else if !hatchling.is_special_edition {
        Some(ErrorCode::MainCollectionNoEvolution)
    } else if hatchling.stage == LifeStage::Egg && drawn_rarity(ctx.authority, now) is Err {
        Some(ErrorCode::Overflow)
    } else {
        None
    }
}

/// The stage that follows `stage`.
pub open spec fn next_stage(stage: LifeStage) -> LifeStage {
    match stage {
        LifeStage::Egg => LifeStage::Hatchling,
        LifeStage::Hatchling => LifeStage::Juvenile,
        LifeStage::Juvenile => LifeStage::Adult,
        LifeStage::Adult => LifeStage::Legendary,
        LifeStage::Legendary => LifeStage::Legendary,
    }
}

/// The collectible after an evolution by `authority` at `now`. An egg
/// hatches with a drawn rarity and the traits that go with it; a hatchling
/// and a juvenile grow their traits at levels 1 and 2; an adult rises one
/// rarity and grows at level 3.
pub open spec fn evolved_hatchling(ctx: EvolveHatchling, now: i64) -> Hatchling {
    let hatchling = ctx.hatchling;
    let rarity = match hatchling.stage {
        LifeStage::Egg => drawn_rarity(ctx.authority, now)->Ok_0,
        LifeStage::Adult => next_rarity(hatchling.rarity),
        _ => hatchling.rarity,
    };
    let traits = match hatchling.stage {
        LifeStage::Egg => TraitSet {
            strength: base_stat(rarity),
            agility: base_stat(rarity),
            intelligence: base_stat(rarity),
            special_ability: 0,
        },
        LifeStage::Hatchling => evolved_traits(hatchling.traits, rarity, 1),
        LifeStage::Juvenile => evolved_traits(hatchling.traits, rarity, 2),
        LifeStage::Adult => evolved_traits(hatchling.traits, rarity, 3),
        LifeStage::Legendary => hatchling.traits,
    };
    Hatchling {
        stage: next_stage(hatchling.stage),
        rarity,
        traits,
        last_evolution_timestamp: now,
        evolution_count: (hatchling.evolution_count + 1) as u32,
        ..hatchling
    }
}

/// Moves a special-edition collectible to its next life stage.
///
/// The checks, in order: the caller owns the collectible (`Unauthorized`);
/// it is not locked (`HatchlingLocked`); it is not legendary yet
/// (`MaxEvolutionReached`); it has evolved fewer than 100 times
/// (`MaxEvolutionCountReached`); its cooldown has passed
/// (`EvolutionCooldownActive`; `Overflow` when that time is not
/// representable); it is a special edition (`MainCollectionNoEvolution`);
/// for an egg, a rarity can be drawn (`Overflow`).
pub fn evolve_hatchling(ctx: &mut EvolveHatchling, now: i64) -> (r: Result<
    EvolutionEvent,
    ErrorCode,
>)
    ensures
        match r {
            Ok(event) => {
                &&& evolve_rejection(*old(ctx), now) is None
                &&& *final(ctx) == (EvolveHatchling {
                    hatchling: evolved_hatchling(*old(ctx), now),
                    ..*old(ctx)
                })
                &&& event == (EvolutionEvent {
                    nft_mint: old(ctx).hatchling.nft_mint,
                    old_stage: old(ctx).hatchling.stage,
                    new_stage: final(ctx).hatchling.stage,
                    evolved_by: old(ctx).authority,
                    timestamp: now,
                    traits: final(ctx).hatchling.traits,
                    evolution_count: final(ctx).hatchling.evolution_count,
                })
            },
            Err(e) => {
                &&& evolve_rejection(*old(ctx), now) == Some(e)
                &&& *final(ctx) == *old(ctx)
            },
        },
{
    if !ctx.authority.equals(&ctx.hatchling.authority) {
        return Err(ErrorCode::Unauthorized);
    }
    if ctx.hatchling.is_locked {
        return Err(ErrorCode::HatchlingLocked);
    }
    let old_stage = ctx.hatchling.stage;
    if matches!(old_stage, LifeStage::Legendary) {
        return Err(ErrorCode::MaxEvolutionReached);
    }
    if ctx.hatchling.evolution_count >= MAX_EVOLUTION_COUNT {
        return Err(ErrorCode::MaxEvolutionCountReached);
    }
    let time_since_last = match now.checked_sub(ctx.hatchling.last_evolution_timestamp) {
        Some(seconds) => seconds,
        None => {
            return Err(ErrorCode::Overflow);
        },
    };
    if time_since_last < ctx.hatchling.evolution_cooldown {
        return Err(ErrorCode::EvolutionCooldownActive);
    }
    if !ctx.hatchling.is_special_edition {
        return Err(ErrorCode::MainCollectionNoEvolution);
    }
    let stage: LifeStage;
    let rarity: Rarity;
    let traits: TraitSet;
    match old_stage {
        LifeStage::Egg => {
            stage = LifeStage::Hatchling;
            rarity = match calculate_rarity(&ctx.authority, now) {
                Ok(rarity) => rarity,
                Err(e) => {
                    return Err(e);
                },
            };
            traits = match generate_initial_traits(rarity) {
                Ok(traits) => traits,
                Err(e) => {
                    return Err(e);
                },
            };
        },
        LifeStage::Hatchling => {
            stage = LifeStage::Juvenile;
            rarity = ctx.hatchling.rarity;
            traits = match evolve_traits(&ctx.hatchling.traits, rarity, 1) {
                Ok(traits) => traits,
                Err(e) => {
                    return Err(e);
                },
            };
        },
        LifeStage::Juvenile => {
            stage = LifeStage::Adult;
            rarity = ctx.hatchling.rarity;
            traits = match evolve_traits(&ctx.hatchling.traits, rarity, 2) {
                Ok(traits) => traits,
                Err(e) => {
                    return Err(e);
                },
            };
        },
        LifeStage::Adult => {
            stage = LifeStage::Legendary;
            rarity = match upgrade_rarity(ctx.hatchling.rarity) {
                Ok(rarity) => rarity,
                Err(e) => {
                    return Err(e);
                },
            };
            traits = match evolve_traits(&ctx.hatchling.traits, rarity, 3) {
                Ok(traits) => traits,
                Err(e) => {
                    return Err(e);
                },
            };
        },
        LifeStage::Legendary => {
            return Err(ErrorCode::MaxEvolutionReached);
        },
    }
    let evolution_count = match ctx.hatchling.evolution_count.checked_add(1) {
        Some(count) => count,
        None => {
            return Err(ErrorCode::Overflow);
        },
    };
    ctx.hatchling.stage = stage;
    ctx.hatchling.rarity = rarity;
    ctx.hatchling.traits = traits;
    ctx.hatchling.last_evolution_timestamp = now;
    ctx.hatchling.evolution_count = evolution_count;
    Ok(
        EvolutionEvent {
            nft_mint: ctx.hatchling.nft_mint,
            old_stage,
            new_stage: stage,
            evolved_by: ctx.authority,
            timestamp: now,
            traits,
            evolution_count,
        },
    )
}

/// Locks a collectible, so that it does not evolve while it is staked.
///
/// Refused with `Unauthorized` where the caller does not own it, and with
/// `AlreadyLocked` where it is locked already.
pub fn lock_hatchling(ctx: &mut LockHatchling, now: i64) -> (r: Result<
    HatchlingLockedEvent,
    ErrorCode,
>)
    ensures
        match r {
            Ok(event) => {
                &&& old(ctx).authority == old(ctx).hatchling.authority
                &&& !old(ctx).hatchling.is_locked
                &&& *final(ctx) == (LockHatchling {
                    hatchling: Hatchling { is_locked: true, ..old(ctx).hatchling },
                    ..*old(ctx)
                })
                &&& event == (HatchlingLockedEvent {
                    nft_mint: old(ctx).hatchling.nft_mint,
                    locked_by: old(ctx).authority,
                    timestamp: now,
                })
            },
            Err(e) => {
                &&& *final(ctx) == *old(ctx)
                &&& if old(ctx).authority != old(ctx).hatchling.authority {
                    e == ErrorCode::Unauthorized
                } else {
                    old(ctx).hatchling.is_locked && e == ErrorCode::AlreadyLocked
                }
            },
        },
{
    if !ctx.authority.equals(&ctx.hatchling.authority) {
        return Err(ErrorCode::Unauthorized);
    }
    if ctx.hatchling.is_locked {
        return Err(ErrorCode::AlreadyLocked);
    }
    ctx.hatchling.is_locked = true;
    Ok(
        HatchlingLockedEvent {
            nft_mint: ctx.hatchling.nft_mint,
            locked_by: ctx.authority,
            timestamp: now,
        },
    )
}

/// Unlocks a collectible.
///
/// Refused with `Unauthorized` where the caller does not own it, and with
/// `NotLocked` where it is not locked.
pub fn unlock_hatchling(ctx: &mut UnlockHatchling, now: i64) -> (r: Result<
    HatchlingUnlockedEvent,
    ErrorCode,
>)
    ensures
        match r {
            Ok(event) => {
                &&& old(ctx).authority == old(ctx).hatchling.authority
                &&& old(ctx).hatchling.is_locked
                &&& *final(ctx) == (UnlockHatchling {
                    hatchling: Hatchling { is_locked: false, ..old(ctx).hatchling },
                    ..*old(ctx)
                })
                &&& event == (HatchlingUnlockedEvent {
                    nft_mint: old(ctx).hatchling.nft_mint,
                    unlocked_by: old(ctx).authority,
                    timestamp: now,
                })
            },
            Err(e) => {
                &&& *final(ctx) == *old(ctx)
                &&& if old(ctx).authority != old(ctx).hatchling.authority {
                    e == ErrorCode::Unauthorized
                } else {
                    !old(ctx).hatchling.is_locked && e == ErrorCode::NotLocked
                }
            },
        },
{
    if !ctx.authority.equals(&ctx.hatchling.authority) {
        return Err(ErrorCode::Unauthorized);
    }
    if !ctx.hatchling.is_locked {
        return Err(ErrorCode::NotLocked);
    }
    ctx.hatchling.is_locked = false;
    Ok(
        HatchlingUnlockedEvent {
            nft_mint: ctx.hatchling.nft_mint,
            unlocked_by: ctx.authority,
            timestamp: now,
        },
    )
}

} // verus!
