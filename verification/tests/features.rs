use tick_agent::analyzer::{analyze, level_totals, ratio_or_zero, tick_totals, MarketFeatures, MarketStorage};
use tick_agent::feed::{OrderBookData, OrderBookUnit, Side, TickData};
use tick_agent::ratio::Ratio;

fn value(r: Ratio) -> f64 {
    r.num as f64 / r.den as f64
}

fn tick(price: u32, volume: u32, timestamp: u64) -> TickData {
    TickData { price, volume, side: Side::Ask, timestamp }
}

fn level(ask_price: u32, ask_size: u32, bid_price: u32, bid_size: u32) -> OrderBookUnit {
    OrderBookUnit { ask_price, ask_size, bid_price, bid_size }
}

fn storage_with(ticks: &[TickData], levels: Vec<OrderBookUnit>) -> MarketStorage {
    let mut storage = MarketStorage::new(200);
    storage.push_orderbook(OrderBookData { timestamp: 0, order_units: levels });
    for t in ticks {
        storage.push_tick(*t);
    }
    storage
}

fn features(ticks: &[TickData], levels: Vec<OrderBookUnit>) -> MarketFeatures {
    analyze(&storage_with(ticks, levels)).expect("enough history")
}

#[test]
fn no_features_from_an_empty_history() {
    assert_eq!(analyze(&MarketStorage::new(10)), None);
}

#[test]
fn no_features_from_one_tick() {
    let storage = storage_with(&[tick(100, 1, 1)], vec![level(2, 1, 1, 1)]);
    assert_eq!(analyze(&storage), None);
}

#[test]
fn no_features_without_a_snapshot() {
    let mut storage = MarketStorage::new(10);
    storage.push_tick(tick(100, 1, 1));
    storage.push_tick(tick(101, 1, 2));
    storage.push_tick(tick(102, 1, 3));
    assert_eq!(analyze(&storage), None);
}

#[test]
fn features_from_two_ticks_and_a_snapshot() {
    let storage = storage_with(&[tick(100, 1, 1), tick(101, 1, 2)], vec![]);
    assert!(analyze(&storage).is_some());
}

#[test]
fn price_statistics_of_three_ticks() {
    let f = features(&[tick(100, 1, 0), tick(102, 1, 1), tick(98, 1, 2)], vec![level(2, 1, 1, 1)]);
    assert_eq!(f.avg_price, Ratio { num: 300, den: 3 });
    assert_eq!(value(f.avg_price), 100.0);
    assert_eq!(f.price_delta, Ratio { num: -2, den: 1 });
    assert_eq!(value(f.price_delta), -2.0);
    let exact = (8.0f64 / 3.0).sqrt();
    assert!((value(f.volatility) - exact).abs() < 1e-12);
    assert!((value(f.volatility) - 1.633).abs() < 1e-3);
    assert!(value(f.volatility) <= exact);
}

#[test]
fn volatility_is_the_refined_root_of_the_dispersion() {
    let f = features(&[tick(100, 1, 0), tick(102, 1, 1), tick(98, 1, 2)], vec![]);
    // dispersion: 3 * 30008 - 300^2 = 24, refined by 4^60 to 24 * 2^120.
    let scale: u128 = 1 << 60;
    assert_eq!(f.volatility.den, 3 * scale);
    let root = f.volatility.num as u128;
    assert!(root * root <= 24 * scale * scale);
    assert!((root + 1) * (root + 1) > 24 * scale * scale);
}

#[test]
fn volatility_of_equal_prices_is_zero() {
    let f = features(&[tick(7, 1, 0), tick(7, 1, 1), tick(7, 1, 2), tick(7, 1, 3)], vec![]);
    assert_eq!(f.volatility, Ratio { num: 0, den: 4 });
}

#[test]
fn volatility_of_two_ticks() {
    let f = features(&[tick(10, 1, 0), tick(20, 1, 1)], vec![]);
    assert!((value(f.volatility) - 5.0).abs() < 1e-12);
}

#[test]
fn volatility_of_the_largest_prices() {
    let f = features(&[tick(u32::MAX, 1, 0), tick(0, 1, 1)], vec![]);
    let half = u32::MAX as f64 / 2.0;
    assert!((value(f.volatility) - half).abs() / half < 1e-12);
}

#[test]
fn volume_statistics() {
    let f = features(&[tick(1, 5, 0), tick(1, 7, 1), tick(1, 11, 2)], vec![]);
    assert_eq!(f.volume_sum, Ratio { num: 23, den: 1 });
    assert_eq!(f.last_tick_size, Ratio { num: 11, den: 1 });
}

#[test]
fn tick_speed_is_the_mean_step() {
    let f = features(&[tick(1, 1, 1000), tick(1, 1, 1010), tick(1, 1, 1040)], vec![]);
    assert_eq!(f.tick_speed, Ratio { num: 40, den: 2 });
    assert_eq!(value(f.tick_speed), 20.0);
}

#[test]
fn tick_speed_of_timestamps_that_run_backwards() {
    let f = features(&[tick(1, 1, 50), tick(1, 1, 20)], vec![]);
    assert_eq!(f.tick_speed, Ratio { num: -30, den: 1 });
}

#[test]
fn tick_speed_across_the_whole_range() {
    let f = features(&[tick(1, 1, 0), tick(1, 1, u64::MAX)], vec![]);
    assert_eq!(f.tick_speed, Ratio { num: u64::MAX as i128, den: 1 });
}

#[test]
fn book_statistics_of_two_levels() {
    let f = features(
        &[tick(1, 1, 0), tick(1, 1, 1)],
        vec![level(105, 5, 99, 10), level(106, 5, 98, 0)],
    );
    assert_eq!(f.imbalance, Ratio { num: 0, den: 20 });
    assert_eq!(value(f.imbalance), 0.0);
    assert_eq!(f.ask_depth_ratio, Ratio { num: 10, den: 10 });
    assert_eq!(value(f.ask_depth_ratio), 1.0);
    assert_eq!(value(f.bid_depth_ratio), 1.0);
    assert_eq!(f.ask1_price, Ratio { num: 105, den: 1 });
    assert_eq!(f.bid1_price, Ratio { num: 99, den: 1 });
    assert_eq!(f.spread, Ratio { num: 6, den: 1 });
}

#[test]
fn imbalance_leans_to_the_heavier_side() {
    let f = features(&[tick(1, 1, 0), tick(1, 1, 1)], vec![level(2, 1, 1, 3)]);
    assert_eq!(f.imbalance, Ratio { num: 2, den: 4 });
    let g = features(&[tick(1, 1, 0), tick(1, 1, 1)], vec![level(2, 3, 1, 1)]);
    assert_eq!(g.imbalance, Ratio { num: -2, den: 4 });
}

#[test]
fn a_crossed_book_has_a_negative_spread() {
    let f = features(&[tick(1, 1, 0), tick(1, 1, 1)], vec![level(90, 1, 95, 1)]);
    assert_eq!(f.spread, Ratio { num: -5, den: 1 });
}

#[test]
fn a_book_without_levels_gives_zeros() {
    let f = features(&[tick(1, 1, 0), tick(1, 1, 1)], vec![]);
    let zero = Ratio { num: 0, den: 1 };
    assert_eq!(f.ask1_price, zero);
    assert_eq!(f.bid1_price, zero);
    assert_eq!(f.spread, zero);
    assert_eq!(f.imbalance, zero);
    assert_eq!(f.ask_depth_ratio, zero);
    assert_eq!(f.bid_depth_ratio, zero);
}

#[test]
fn a_side_without_size_has_depth_ratio_zero() {
    let f = features(&[tick(1, 1, 0), tick(1, 1, 1)], vec![level(2, 0, 1, 4), level(3, 0, 1, 4)]);
    assert_eq!(f.ask_depth_ratio, Ratio { num: 0, den: 1 });
    assert_eq!(f.bid_depth_ratio, Ratio { num: 8, den: 8 });
    assert_eq!(f.imbalance, Ratio { num: 8, den: 8 });
}

#[test]
fn depth_ratio_counts_the_first_five_levels() {
    let levels: Vec<OrderBookUnit> = (1..=8u32).map(|i| level(100 + i, i, 100 - i, 10)).collect();
    let f = features(&[tick(1, 1, 0), tick(1, 1, 1)], levels);
    assert_eq!(f.ask_depth_ratio, Ratio { num: 15, den: 36 });
    assert_eq!(f.bid_depth_ratio, Ratio { num: 50, den: 80 });
}

#[test]
fn depth_ratio_of_exactly_five_levels_is_one() {
    let levels: Vec<OrderBookUnit> = (1..=5u32).map(|i| level(100 + i, i, 100 - i, 2)).collect();
    let f = features(&[tick(1, 1, 0), tick(1, 1, 1)], levels);
    assert_eq!(f.ask_depth_ratio, Ratio { num: 15, den: 15 });
    assert_eq!(f.bid_depth_ratio, Ratio { num: 10, den: 10 });
}

#[test]
fn features_use_the_newest_snapshot() {
    let mut storage = MarketStorage::new(10);
    storage.push_orderbook(OrderBookData { timestamp: 1, order_units: vec![level(50, 1, 40, 1)] });
    storage.push_orderbook(OrderBookData { timestamp: 2, order_units: vec![level(60, 1, 55, 1)] });
    storage.push_tick(tick(1, 1, 0));
    storage.push_tick(tick(1, 1, 1));
    let f = analyze(&storage).expect("enough history");
    assert_eq!(f.ask1_price, Ratio { num: 60, den: 1 });
    assert_eq!(f.bid1_price, Ratio { num: 55, den: 1 });
}

#[test]
fn features_use_only_the_retained_ticks() {
    let mut storage = MarketStorage::new(2);
    storage.push_orderbook(OrderBookData { timestamp: 1, order_units: vec![] });
    storage.push_tick(tick(1000, 9, 0));
    storage.push_tick(tick(10, 1, 100));
    storage.push_tick(tick(30, 2, 130));
    let f = analyze(&storage).expect("enough history");
    assert_eq!(f.avg_price, Ratio { num: 40, den: 2 });
    assert_eq!(f.price_delta, Ratio { num: 20, den: 1 });
    assert_eq!(f.volume_sum, Ratio { num: 3, den: 1 });
    assert_eq!(f.tick_speed, Ratio { num: 30, den: 1 });
}

#[test]
fn every_feature_is_a_number() {
    let f = features(&[tick(5, 1, 0), tick(6, 1, 1)], vec![]);
    let all = [
        f.avg_price, f.price_delta, f.volume_sum, f.volatility, f.imbalance, f.spread,
        f.ask1_price, f.bid1_price, f.ask_depth_ratio, f.bid_depth_ratio, f.tick_speed,
        f.last_tick_size,
    ];
    assert!(all.iter().all(|r| r.den > 0));
}

#[test]
fn tick_totals_are_the_three_sums() {
    let storage = storage_with(&[tick(3, 10, 0), tick(4, 20, 1)], vec![]);
    assert_eq!(tick_totals(&storage.ticks), (7, 25, 30));
}

#[test]
fn level_totals_are_the_four_sums() {
    let levels: Vec<OrderBookUnit> = (1..=6u32).map(|i| level(1, i, 1, 1)).collect();
    assert_eq!(level_totals(&levels), (21, 6, 15, 5));
}

#[test]
fn ratio_or_zero_guards_the_divisor() {
    assert_eq!(ratio_or_zero(3, 4), Ratio { num: 3, den: 4 });
    assert_eq!(ratio_or_zero(3, 0), Ratio { num: 0, den: 1 });
}
