use mining::issuance::{round_issuance_range, rounds_per_year, BLOCKS_PER_YEAR};
use mining::range::Range;
use mining::rate::MiningResourceRateInfo;

#[test]
fn simple_round_issuance() {
    // 10 units per land unit for 2_000 land units => 20_000 minted per round
    let mock_config: MiningResourceRateInfo = MiningResourceRateInfo {
        ratio: 10,
        land_reward: 20,
        metaverse_reward: 80,
    };

    let round_issuance = round_issuance_range(mock_config, 2_000);

    assert_eq!(round_issuance.min, 20_000);
    assert_eq!(round_issuance.ideal, 20_000);
    assert_eq!(round_issuance.max, 20_000);
    assert_eq!(round_issuance.land_allocation, 4_000);
    assert_eq!(round_issuance.metaverse_allocation, 16_000);
}

#[test]
fn issuance_is_product_without_overflow() {
    let config = MiningResourceRateInfo::new(7, 0, 0);
    let r = round_issuance_range(config, 123_456);
    assert_eq!(r.min, 864_192);
    assert_eq!(r.ideal, 864_192);
    assert_eq!(r.max, 864_192);
}

#[test]
fn computed_range_is_valid() {
    let config = MiningResourceRateInfo::new(3, 50, 50);
    let r = round_issuance_range(config, 1_000);
    assert!(r.is_valid());
}

#[test]
fn allocations_round_down() {
    let config = MiningResourceRateInfo::new(1, 33, 67);
    let r = round_issuance_range(config, 10);
    assert_eq!(r.ideal, 10);
    assert_eq!(r.land_allocation, 3);
    assert_eq!(r.metaverse_allocation, 6);
}

#[test]
fn allocation_overflow_gives_whole_issuance() {
    let config = MiningResourceRateInfo::new(u64::MAX, 20, 1);
    let r = round_issuance_range(config, 1);
    assert_eq!(r.ideal, u64::MAX);
    assert_eq!(r.land_allocation, u64::MAX);
    assert_eq!(r.metaverse_allocation, u64::MAX / 100);
}

#[test]
fn issuance_overflow_gives_zero() {
    let config = MiningResourceRateInfo::new(u64::MAX, 20, 80);
    let r = round_issuance_range(config, 2);
    assert_eq!(r, Range::from(0u64));
}

#[test]
fn computing_twice_gives_same_range() {
    let config = MiningResourceRateInfo::new(11, 25, 75);
    let a = round_issuance_range(config.clone(), 999);
    let b = round_issuance_range(config, 999);
    assert_eq!(a, b);
}

#[test]
fn zero_ratio_gives_all_zero() {
    let config = MiningResourceRateInfo::new(0, 20, 80);
    for units in [0u64, 1, 2_000, u64::MAX] {
        let r = round_issuance_range(config.clone(), units);
        assert_eq!(r, Range::from(0u64));
    }
}

#[test]
fn zero_rewards_give_zero_allocations() {
    let config = MiningResourceRateInfo::new(10, 0, 0);
    let r = round_issuance_range(config, 2_000);
    assert_eq!(r.ideal, 20_000);
    assert_eq!(r.land_allocation, 0);
    assert_eq!(r.metaverse_allocation, 0);
}

#[test]
fn rewards_need_not_sum_to_hundred() {
    let config = MiningResourceRateInfo::new(1, 90, 90);
    let r = round_issuance_range(config, 100);
    assert_eq!(r.land_allocation, 90);
    assert_eq!(r.metaverse_allocation, 90);
}

#[test]
fn rounds_per_year_floors() {
    assert_eq!(BLOCKS_PER_YEAR, 2_629_800);
    assert_eq!(rounds_per_year(100), 26_298);
    assert_eq!(rounds_per_year(7), 375_685);
    assert_eq!(rounds_per_year(1), 2_629_800);
}
