use tick_agent::analyzer::MarketFeatures;
use tick_agent::env::{Env, ACTION_BUY, ACTION_HOLD, ACTION_SELL};
use tick_agent::feed::{Side, TickData};
use tick_agent::ratio::Ratio;

fn value(r: Ratio) -> f64 {
    r.num as f64 / r.den as f64
}

fn tick(price: u32, volume: u32) -> TickData {
    TickData { price, volume, side: Side::Bid, timestamp: 0 }
}

fn whole(n: i128) -> Ratio {
    Ratio { num: n, den: 1 }
}

fn numbered_features() -> MarketFeatures {
    MarketFeatures {
        avg_price: whole(10),
        price_delta: whole(11),
        volume_sum: whole(12),
        volatility: whole(13),
        imbalance: whole(14),
        spread: whole(15),
        ask1_price: whole(16),
        bid1_price: whole(17),
        ask_depth_ratio: whole(18),
        bid_depth_ratio: whole(19),
        tick_speed: whole(20),
        last_tick_size: whole(21),
    }
}

#[test]
fn a_new_environment_is_flat_and_zero() {
    let env = Env::new();
    assert!(!env.is_holding);
    assert_eq!(env.entry_price, 0);
    assert_eq!(env.features, [whole(0); 12]);
    assert_eq!(env.observe(), [whole(0); 12]);
}

#[test]
fn update_lists_the_features_in_order() {
    let mut env = Env::new();
    env.update(numbered_features());
    let expected: Vec<Ratio> = (10..22).map(whole).collect();
    assert_eq!(env.features.to_vec(), expected);
    assert_eq!(env.observe().to_vec(), expected);
    assert!(!env.is_holding);
}

#[test]
fn buy_then_sell_then_sell() {
    let mut env = Env::new();
    let (_, reward) = env.step(ACTION_BUY, tick(100, 1));
    assert!(env.is_holding);
    assert_eq!(env.entry_price, 100);
    assert_eq!(reward, whole(0));
    assert_eq!(value(reward), 0.0);

    let (_, reward) = env.step(ACTION_SELL, tick(110, 1));
    assert!(!env.is_holding);
    assert_eq!(env.entry_price, 0);
    assert_eq!(reward, Ratio { num: 10, den: 100 });
    assert!((value(reward) - 0.10).abs() < 1e-15);

    let (_, reward) = env.step(ACTION_SELL, tick(110, 1));
    assert!(!env.is_holding);
    assert_eq!(reward, Ratio { num: -1, den: 100 });
    assert!((value(reward) + 0.01).abs() < 1e-15);
}

#[test]
fn buying_twice_is_penalised_and_keeps_the_entry() {
    let mut env = Env::new();
    env.step(ACTION_BUY, tick(100, 1));
    let (_, reward) = env.step(ACTION_BUY, tick(120, 1));
    assert_eq!(reward, Ratio { num: -1, den: 100 });
    assert!(env.is_holding);
    assert_eq!(env.entry_price, 100);
}

#[test]
fn selling_at_a_loss_earns_a_negative_return() {
    let mut env = Env::new();
    env.step(ACTION_BUY, tick(200, 1));
    let (_, reward) = env.step(ACTION_SELL, tick(150, 1));
    assert_eq!(reward, Ratio { num: -50, den: 200 });
    assert_eq!(value(reward), -0.25);
}

#[test]
fn holding_changes_nothing_and_earns_nothing() {
    let mut env = Env::new();
    let (_, reward) = env.step(ACTION_HOLD, tick(100, 1));
    assert_eq!(reward, whole(0));
    assert!(!env.is_holding);
    env.step(ACTION_BUY, tick(100, 1));
    let (_, reward) = env.step(ACTION_HOLD, tick(300, 1));
    assert_eq!(reward, whole(0));
    assert!(env.is_holding);
    assert_eq!(env.entry_price, 100);
}

#[test]
fn an_unknown_action_holds() {
    let mut env = Env::new();
    env.step(ACTION_BUY, tick(100, 1));
    for action in [3usize, 4, 99, usize::MAX] {
        let (_, reward) = env.step(action, tick(500, 1));
        assert_eq!(reward, whole(0));
        assert!(env.is_holding);
        assert_eq!(env.entry_price, 100);
    }
}

#[test]
fn a_step_refreshes_three_features_from_the_tick() {
    let mut env = Env::new();
    env.update(numbered_features());
    let (next, _) = env.step(ACTION_HOLD, tick(777, 33));
    let mut expected: Vec<Ratio> = (10..22).map(whole).collect();
    expected[0] = whole(777);
    expected[2] = whole(33);
    expected[11] = whole(33);
    assert_eq!(next.to_vec(), expected);
    assert_eq!(env.features.to_vec(), expected);
}

#[test]
fn selling_what_was_bought_at_zero_has_no_return() {
    let mut env = Env::new();
    env.step(ACTION_BUY, tick(0, 1));
    let (_, reward) = env.step(ACTION_SELL, tick(5, 1));
    assert_eq!(reward, Ratio { num: 5, den: 0 });
    assert!(!env.is_holding);
}

#[test]
fn the_return_spans_the_whole_price_range() {
    let mut env = Env::new();
    env.step(ACTION_BUY, tick(u32::MAX, 1));
    let (_, reward) = env.step(ACTION_SELL, tick(0, 1));
    assert_eq!(reward, Ratio { num: -(u32::MAX as i128), den: u32::MAX as u128 });
    assert_eq!(value(reward), -1.0);
}
