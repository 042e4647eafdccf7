use vstd::prelude::*;

use crate::range::Range;
use crate::rate::MiningResourceRateInfo;

verus! {

/// Seconds in a Julian year.
pub const SECONDS_PER_YEAR: u32 = 31557600;

/// Seconds between two blocks.
pub const SECONDS_PER_BLOCK: u32 = 12;

/// Blocks produced in a year.
pub const BLOCKS_PER_YEAR: u32 = SECONDS_PER_YEAR / SECONDS_PER_BLOCK;

/// Tokens minted in a round: `land_units * ratio`, or zero where that
/// product does not fit in a `u64`.
pub open spec fn issuance_of(ratio: u64, land_units: u64) -> u64 {
    let p = land_units as int * ratio as int;
    if p <= u64::MAX {
        p as u64
    } else {
        0
    }
}

/// The share of `issuance` for a reward of `pct` percent:
/// `floor(issuance * pct / 100)`, or all of `issuance` where the product
/// does not fit in a `u64`.
pub open spec fn allocation_of(issuance: u64, pct: u32) -> u64 {
    let p = issuance as int * pct as int;
    if p <= u64::MAX {
        (p / 100) as u64
    } else {
        issuance
    }
}

/// The issuance range of a round under `config` with `land_units` land
/// units in circulation.
pub open spec fn range_of(config: MiningResourceRateInfo, land_units: u64) -> Range<u64> {
    let issuance = issuance_of(config.ratio, land_units);
    Range {
        min: issuance,
        ideal: issuance,
        max: issuance,
        land_allocation: allocation_of(issuance, config.land_reward),
        metaverse_allocation: allocation_of(issuance, config.metaverse_reward),
    }
}

/// Rounds in a year for rounds of `blocks_per_round` blocks, rounded down.
pub fn rounds_per_year(blocks_per_round: u32) -> (r: u32)
    requires
        blocks_per_round > 0,
    ensures
        r == BLOCKS_PER_YEAR / blocks_per_round,
        r * blocks_per_round <= BLOCKS_PER_YEAR,
        BLOCKS_PER_YEAR - r * blocks_per_round < blocks_per_round,
{
    let r = BLOCKS_PER_YEAR / blocks_per_round;
    proof {
        vstd::arithmetic::div_mod::lemma_fundamental_div_mod(
            BLOCKS_PER_YEAR as int,
            blocks_per_round as int,
        );
        assert(r as int * blocks_per_round as int == blocks_per_round as int * r as int)
            by (nonlinear_arith);
    }
    r
}

/// The share of `issuance` for a reward of `pct` percent.
fn allocation(issuance: u64, pct: u32) -> (r: u64)
    ensures
        r == allocation_of(issuance, pct),
{
    match issuance.checked_mul(pct as u64) {
        Some(p) => p / 100,
        None => issuance,
    }
}

/// The issuance range of a round under `config`, with `total_land_units`
/// land units in circulation. Overflow never fails: an issuance that does
/// not fit is zero, and an allocation whose product does not fit is the
/// whole issuance.
pub fn round_issuance_range(
    config: MiningResourceRateInfo,
    total_land_units: u64,
) -> (r: Range<u64>)
    ensures
        r == range_of(config, total_land_units),
        r.valid(),
        total_land_units as int * config.ratio as int <= u64::MAX ==> r.min == r.ideal == r.max
            == total_land_units as int * config.ratio as int,
        total_land_units as int * config.ratio as int > u64::MAX ==> r.min == r.ideal == r.max
            == 0,
        r.ideal as int * config.land_reward as int <= u64::MAX ==> r.land_allocation == (
        r.ideal as int * config.land_reward as int) / 100,
        r.ideal as int * config.land_reward as int > u64::MAX ==> r.land_allocation == r.ideal,
        r.ideal as int * config.metaverse_reward as int <= u64::MAX ==> r.metaverse_allocation == (
        r.ideal as int * config.metaverse_reward as int) / 100,
        r.ideal as int * config.metaverse_reward as int > u64::MAX ==> r.metaverse_allocation
            == r.ideal,
{
    let issuance_per_round = match total_land_units.checked_mul(config.ratio) {
        Some(p) => p,
        None => 0,
    };
    let land_allocation = allocation(issuance_per_round, config.land_reward);
    let metaverse_allocation = allocation(issuance_per_round, config.metaverse_reward);
    Range {
        min: issuance_per_round,
        ideal: issuance_per_round,
        max: issuance_per_round,
        land_allocation,
        metaverse_allocation,
    }
}

/// Where `ratio * land_units` fits in a `u64`, a round mints exactly that
/// product, and `min`, `ideal` and `max` all equal it.
pub proof fn lemma_issuance_is_product(config: MiningResourceRateInfo, land_units: u64)
    requires
        config.ratio as int * land_units as int <= u64::MAX,
    ensures
        range_of(config, land_units).min == config.ratio as int * land_units as int,
        range_of(config, land_units).ideal == config.ratio as int * land_units as int,
        range_of(config, land_units).max == config.ratio as int * land_units as int,
{
    assert(config.ratio as int * land_units as int == land_units as int * config.ratio as int)
        by (nonlinear_arith);
}

/// Every computed range is valid: `max >= ideal >= min`.
pub proof fn lemma_range_is_valid(config: MiningResourceRateInfo, land_units: u64)
    ensures
        range_of(config, land_units).valid(),
{
}

/// Where the products do not overflow, each allocation is the issuance
/// times its percentage, divided by 100 and rounded down.
pub proof fn lemma_allocation_is_floor(config: MiningResourceRateInfo, land_units: u64)
    ensures
        ({
            let r = range_of(config, land_units);
            &&& r.ideal as int * config.land_reward as int <= u64::MAX ==> r.land_allocation == (
            r.ideal as int * config.land_reward as int) / 100
            &&& r.ideal as int * config.metaverse_reward as int <= u64::MAX
                ==> r.metaverse_allocation == (r.ideal as int * config.metaverse_reward as int)
                / 100
        }),
{
}

/// Where the issuance times a reward percentage overflows, that allocation
/// is the whole issuance.
pub proof fn lemma_allocation_overflow(config: MiningResourceRateInfo, land_units: u64)
    ensures
        ({
            let r = range_of(config, land_units);
            &&& r.ideal as int * config.land_reward as int > u64::MAX ==> r.land_allocation
                == r.ideal
            &&& r.ideal as int * config.metaverse_reward as int > u64::MAX
                ==> r.metaverse_allocation == r.ideal
        }),
{
}

/// Where `ratio * land_units` overflows, nothing is minted: the issuance
/// and both allocations are zero.
pub proof fn lemma_issuance_overflow(config: MiningResourceRateInfo, land_units: u64)
    requires
        config.ratio as int * land_units as int > u64::MAX,
    ensures
        range_of(config, land_units) == (Range::<u64> {
            min: 0,
            ideal: 0,
            max: 0,
            land_allocation: 0,
            metaverse_allocation: 0,
        }),
{
    assert(config.ratio as int * land_units as int == land_units as int * config.ratio as int)
        by (nonlinear_arith);
}

/// The computation depends on its inputs alone: two rounds computed from
/// the same configuration and land units give the same range.
pub proof fn lemma_range_is_determined(
    config1: MiningResourceRateInfo,
    land_units1: u64,
    config2: MiningResourceRateInfo,
    land_units2: u64,
)
    requires
        config1 == config2,
        land_units1 == land_units2,
    ensures
        range_of(config1, land_units1) == range_of(config2, land_units2),
{
}

/// With a ratio of zero, every field of the range is zero, whatever the
/// land units.
pub proof fn lemma_zero_ratio(config: MiningResourceRateInfo, land_units: u64)
    requires
        config.ratio == 0,
    ensures
        range_of(config, land_units) == (Range::<u64> {
            min: 0,
            ideal: 0,
            max: 0,
            land_allocation: 0,
            metaverse_allocation: 0,
        }),
{
    assert(land_units as int * 0 == 0);
    assert(0 * config.land_reward as int == 0);
    assert(0 * config.metaverse_reward as int == 0);
}

/// With both reward percentages at zero, both allocations are zero,
/// whatever the issuance.
pub proof fn lemma_zero_rewards(config: MiningResourceRateInfo, land_units: u64)
    requires
        config.land_reward == 0,
        config.metaverse_reward == 0,
    ensures
        range_of(config, land_units).land_allocation == 0,
        range_of(config, land_units).metaverse_allocation == 0,
{
    let issuance = issuance_of(config.ratio, land_units);
    assert(issuance as int * 0 == 0);
}

} // verus!
