//! The position state machine: flat or long, moved by buy, sell and hold.
//!
//! | position | action | next position    | reward                    |
//! |----------|--------|------------------|---------------------------|
//! | flat     | buy    | long at the tick | 0                         |
//! | long     | buy    | unchanged        | -1/100                    |
//! | long     | sell   | flat             | (price - entry) / entry   |
//! | flat     | sell   | unchanged        | -1/100                    |
//! | any      | hold   | unchanged        | 0                         |
//!
//! Any action other than buy and sell holds.

use crate::analyzer::MarketFeatures;
use crate::feed::TickData;
use crate::ratio::Ratio;
use vstd::prelude::*;

verus! {

/// The action that opens a position.
pub const ACTION_BUY: usize = 0;

/// The action that closes the position.
pub const ACTION_SELL: usize = 1;

/// The action that does nothing.
pub const ACTION_HOLD: usize = 2;

/// The trading environment: the last features seen and the position held.
pub struct Env {
    pub features: [Ratio; 12],
    pub is_holding: bool,
    /// The price at which the position was opened; zero while flat.
    pub entry_price: u32,
}

/// The features of `f` in the order in which a state lists them.
pub open spec fn features_array(f: MarketFeatures) -> [Ratio; 12] {
    [
        f.avg_price,
        f.price_delta,
        f.volume_sum,
        f.volatility,
        f.imbalance,
        f.spread,
        f.ask1_price,
        f.bid1_price,
        f.ask_depth_ratio,
        f.bid_depth_ratio,
        f.tick_speed,
        f.last_tick_size,
    ]
}

/// The reward for an action that the position does not allow.
pub open spec fn penalty() -> Ratio {
    Ratio { num: -1i128, den: 100 }
}

/// Whether a position is held after `action`.
pub open spec fn next_holding(holding: bool, action: usize) -> bool {
    if action == ACTION_BUY {
        true
    } else if action == ACTION_SELL {
        false
    } else {
        holding
    }
}

/// The entry price after `action` at `price`.
pub open spec fn next_entry(holding: bool, entry: u32, action: usize, price: u32) -> u32 {
    if action == ACTION_BUY && !holding {
        price
    } else if action == ACTION_SELL && holding {
        0
    } else {
        entry
    }
}

/// The reward for `action` at `price`. Selling a position that was opened
/// at price zero has no return: the ratio is then undefined.
pub open spec fn reward_of(holding: bool, entry: u32, action: usize, price: u32) -> Ratio {
    if action == ACTION_BUY {
        if holding {
            penalty()
        } else {
            Ratio::whole(0)
        }
    } else if action == ACTION_SELL {
        if holding {
            Ratio { num: (price - entry) as i128, den: entry as u128 }
        } else {
            penalty()
        }
    } else {
        Ratio::whole(0)
    }
}

/// The features after `tick` has refreshed them: the average price becomes
/// the tick's price, the volume sum and the last tick size its volume. The
/// other nine stay as they were.
pub open spec fn refreshed(features: [Ratio; 12], tick: TickData) -> [Ratio; 12] {
    [
        Ratio::whole(tick.price as int),
        features[1],
        Ratio::whole(tick.volume as int),
        features[3],
        features[4],
        features[5],
        features[6],
        features[7],
        features[8],
        features[9],
        features[10],
        Ratio::whole(tick.volume as int),
    ]
}

/// Buying from flat and then selling earns the relative move of the price
/// and leaves the position flat again, whatever was held before.
pub proof fn lemma_buy_then_sell(bought_at: u32, sold_at: u32)
    ensures
        next_holding(false, ACTION_BUY),
        reward_of(false, 0, ACTION_BUY, bought_at) == Ratio::whole(0),
        !next_holding(true, ACTION_SELL),
        reward_of(true, next_entry(false, 0, ACTION_BUY, bought_at), ACTION_SELL, sold_at) == (Ratio {
            num: (sold_at - bought_at) as i128,
            den: bought_at as u128,
        }),
        next_entry(true, bought_at, ACTION_SELL, sold_at) == 0,
{
}

impl Env {
    /// A flat environment whose features are all zero.
    pub fn new() -> (env: Self)
        ensures
            !env.is_holding,
            env.entry_price == 0,
            forall|i: int| 0 <= i < 12 ==> env.features[i] == Ratio::whole(0),
    {
        Self { features: [Ratio::zero(); 12], is_holding: false, entry_price: 0 }
    }

    /// Takes over the features of a fresh extraction. The position stays.
    pub fn update(&mut self, f: MarketFeatures)
        ensures
            final(self).features == features_array(f),
            final(self).is_holding == old(self).is_holding,
            final(self).entry_price == old(self).entry_price,
    {
        self.features = [
            f.avg_price,
            f.price_delta,
            f.volume_sum,
            f.volatility,
            f.imbalance,
            f.spread,
            f.ask1_price,
            f.bid1_price,
            f.ask_depth_ratio,
            f.bid_depth_ratio,
            f.tick_speed,
            f.last_tick_size,
        ];
    }

    /// The current state: the features as they stand.
    pub fn observe(&self) -> (state: [Ratio; 12])
        ensures
            state == self.features,
    {
        self.features
    }

    /// Applies `action` at the price of `tick`: moves the position, refreshes
    /// the features from the tick and returns the state that follows with the
    /// reward.
    pub fn step(&mut self, action: usize, tick: TickData) -> (outcome: ([Ratio; 12], Ratio))
        ensures
            final(self).is_holding == next_holding(old(self).is_holding, action),
            final(self).entry_price == next_entry(
                old(self).is_holding,
                old(self).entry_price,
                action,
                tick.price,
            ),
            final(self).features == refreshed(old(self).features, tick),
            outcome.0 == final(self).features,
            outcome.1 == reward_of(old(self).is_holding, old(self).entry_price, action, tick.price),
    {
        let current_price = tick.price;
        let mut reward = Ratio::zero();
        if action == ACTION_BUY {
            if !self.is_holding {
                self.is_holding = true;
                self.entry_price = current_price;
            } else {
                reward = Ratio::new(-1, 100);
            }
        } else if action == ACTION_SELL {
            if self.is_holding {
                let profit = current_price as i128 - self.entry_price as i128;
                reward = Ratio::new(profit, self.entry_price as u128);
                self.is_holding = false;
                self.entry_price = 0;
            } else {
                reward = Ratio::new(-1, 100);
            }
        }
        self.features[0] = Ratio::from_int(tick.price as i128);
        self.features[2] = Ratio::from_int(tick.volume as i128);
        self.features[11] = Ratio::from_int(tick.volume as i128);
        let next_state = self.observe();
        (next_state, reward)
    }
}

} // verus!
