//! The bounded market history and the features derived from it.
//!
//! Every feature is an exact quotient of integers over the retained window.
//! The one that is irrational, the volatility, is the square root rounded
//! down at the finest scale that 126 bits allow.

use crate::feed::{OrderBookData, OrderBookUnit, TickData};
use crate::fifo::{push_bounded, push_evicting};
use crate::ratio::Ratio;
use crate::stats::{
    delta_sum, dispersion, lemma_delta_sum_telescopes, lemma_dispersion_is_squared_deviations,
    lemma_refined_root_brackets, lemma_sum_bounds, lemma_sum_take, refined_root, scaled_isqrt, sum,
    sum_squares,
};
use std::collections::VecDeque;
use vstd::prelude::*;

verus! {

/// How many of the best levels of a side count as its top of book.
pub const DEPTH_LEVELS: usize = 5;

/// The most ticks a window may hold for its features to be computed: with
/// more, the sums of squares no longer fit in 128 bits.
pub const MAX_WINDOW: usize = 0xffff_ffff;

/// The recent history of one instrument: the last `capacity` ticks and the
/// last `capacity` order-book snapshots, each oldest first.
pub struct MarketStorage {
    pub ticks: VecDeque<TickData>,
    pub orderbooks: VecDeque<OrderBookData>,
    pub capacity: usize,
}

impl MarketStorage {
    /// An empty history that retains `capacity` events of each kind.
    pub fn new(capacity: usize) -> (storage: Self)
        ensures
            storage.ticks@ == Seq::<TickData>::empty(),
            storage.orderbooks@ == Seq::<OrderBookData>::empty(),
            storage.capacity == capacity,
    {
        Self {
            ticks: VecDeque::new(),
            orderbooks: VecDeque::new(),
            capacity,
        }
    }

    /// Records a tick. When the tick history is full its oldest tick is
    /// evicted first. The snapshots are untouched.
    pub fn push_tick(&mut self, tick: TickData)
        ensures
            final(self).ticks@ == push_bounded(old(self).ticks@, old(self).capacity as nat, tick),
            final(self).ticks@.len() <= old(self).capacity,
            final(self).orderbooks == old(self).orderbooks,
            final(self).capacity == old(self).capacity,
    {
        push_evicting(&mut self.ticks, self.capacity, tick);
    }

    /// Records a snapshot. When the snapshot history is full its oldest
    /// snapshot is evicted first. The ticks are untouched.
    pub fn push_orderbook(&mut self, ob: OrderBookData)
        ensures
            final(self).orderbooks@ == push_bounded(
                old(self).orderbooks@,
                old(self).capacity as nat,
                ob,
            ),
            final(self).orderbooks@.len() <= old(self).capacity,
            final(self).ticks == old(self).ticks,
            final(self).capacity == old(self).capacity,
    {
        push_evicting(&mut self.orderbooks, self.capacity, ob);
    }
}

/// The twelve features of a window.
#[derive(Debug, Clone, Copy, PartialEq, Eq, Structural)]
pub struct MarketFeatures {
    pub avg_price: Ratio,
    pub price_delta: Ratio,
    pub volume_sum: Ratio,
    pub volatility: Ratio,
    pub imbalance: Ratio,
    pub spread: Ratio,
    pub ask1_price: Ratio,
    pub bid1_price: Ratio,
    pub ask_depth_ratio: Ratio,
    pub bid_depth_ratio: Ratio,
    pub tick_speed: Ratio,
    pub last_tick_size: Ratio,
}

/// The prices of `ticks`, in order.
pub open spec fn prices(ticks: Seq<TickData>) -> Seq<int> {
    Seq::new(ticks.len(), |i: int| ticks[i].price as int)
}

/// The volumes of `ticks`, in order.
pub open spec fn volumes(ticks: Seq<TickData>) -> Seq<int> {
    Seq::new(ticks.len(), |i: int| ticks[i].volume as int)
}

/// The timestamps of `ticks`, in order.
pub open spec fn timestamps(ticks: Seq<TickData>) -> Seq<int> {
    Seq::new(ticks.len(), |i: int| ticks[i].timestamp as int)
}

/// The ask sizes of `units`, best level first.
pub open spec fn ask_sizes(units: Seq<OrderBookUnit>) -> Seq<int> {
    Seq::new(units.len(), |i: int| units[i].ask_size as int)
}

/// The bid sizes of `units`, best level first.
pub open spec fn bid_sizes(units: Seq<OrderBookUnit>) -> Seq<int> {
    Seq::new(units.len(), |i: int| units[i].bid_size as int)
}

/// The first `DEPTH_LEVELS` items of `sizes`, or all of them if there are
/// fewer.
pub open spec fn top_levels(sizes: Seq<int>) -> Seq<int> {
    if sizes.len() <= DEPTH_LEVELS {
        sizes
    } else {
        sizes.take(DEPTH_LEVELS as int)
    }
}

/// The quotient `num / den` where `den` is positive, and zero where it is
/// not.
pub open spec fn guarded_ratio(num: int, den: int) -> Ratio {
    if den > 0 {
        Ratio { num: num as i128, den: den as u128 }
    } else {
        Ratio::whole(0)
    }
}

/// The mean of the prices.
pub open spec fn avg_price_of(ticks: Seq<TickData>) -> Ratio {
    Ratio { num: sum(prices(ticks)) as i128, den: ticks.len() as u128 }
}

/// The newest price less the oldest.
pub open spec fn price_delta_of(ticks: Seq<TickData>) -> Ratio {
    Ratio::whole(ticks.last().price - ticks.first().price)
}

/// The sum of the volumes.
pub open spec fn volume_sum_of(ticks: Seq<TickData>) -> Ratio {
    Ratio::whole(sum(volumes(ticks)))
}

/// The population standard deviation of the prices. With `n` prices it is
/// `sqrt(dispersion) / n`; the root is taken as a refined integer root.
pub open spec fn volatility_of(ticks: Seq<TickData>) -> Ratio {
    let (root, scale) = refined_root(dispersion(prices(ticks)));
    Ratio { num: root as i128, den: (ticks.len() * scale) as u128 }
}

/// The mean of the steps between the timestamps of neighbouring ticks, in
/// milliseconds.
pub open spec fn tick_speed_of(ticks: Seq<TickData>) -> Ratio {
    Ratio { num: delta_sum(timestamps(ticks)) as i128, den: (ticks.len() - 1) as u128 }
}

/// The volume of the newest tick.
pub open spec fn last_tick_size_of(ticks: Seq<TickData>) -> Ratio {
    Ratio::whole(ticks.last().volume as int)
}

/// The best ask price, or zero for a book without levels.
pub open spec fn ask1_price_of(units: Seq<OrderBookUnit>) -> Ratio {
    if units.len() > 0 {
        Ratio::whole(units[0].ask_price as int)
    } else {
        Ratio::whole(0)
    }
}

/// The best bid price, or zero for a book without levels.
pub open spec fn bid1_price_of(units: Seq<OrderBookUnit>) -> Ratio {
    if units.len() > 0 {
        Ratio::whole(units[0].bid_price as int)
    } else {
        Ratio::whole(0)
    }
}

/// The best ask less the best bid. It is negative for a crossed book.
pub open spec fn spread_of(units: Seq<OrderBookUnit>) -> Ratio {
    Ratio::whole(ask1_price_of(units).num - bid1_price_of(units).num)
}

/// The bid size less the ask size, over their sum; zero for an empty book.
pub open spec fn imbalance_of(units: Seq<OrderBookUnit>) -> Ratio {
    let asks = sum(ask_sizes(units));
    let bids = sum(bid_sizes(units));
    guarded_ratio(bids - asks, bids + asks)
}

/// The share of the ask side that rests on its top levels; zero for an
/// empty side.
pub open spec fn ask_depth_ratio_of(units: Seq<OrderBookUnit>) -> Ratio {
    guarded_ratio(sum(top_levels(ask_sizes(units))), sum(ask_sizes(units)))
}

/// The share of the bid side that rests on its top levels; zero for an
/// empty side.
pub open spec fn bid_depth_ratio_of(units: Seq<OrderBookUnit>) -> Ratio {
    guarded_ratio(sum(top_levels(bid_sizes(units))), sum(bid_sizes(units)))
}

/// The features of a window of at least two ticks, seen against the levels
/// of one snapshot.
pub open spec fn window_features(ticks: Seq<TickData>, units: Seq<OrderBookUnit>) -> MarketFeatures {
    MarketFeatures {
        avg_price: avg_price_of(ticks),
        price_delta: price_delta_of(ticks),
        volume_sum: volume_sum_of(ticks),
        volatility: volatility_of(ticks),
        imbalance: imbalance_of(units),
        spread: spread_of(units),
        ask1_price: ask1_price_of(units),
        bid1_price: bid1_price_of(units),
        ask_depth_ratio: ask_depth_ratio_of(units),
        bid_depth_ratio: bid_depth_ratio_of(units),
        tick_speed: tick_speed_of(ticks),
        last_tick_size: last_tick_size_of(ticks),
    }
}

/// What a history yields: nothing with fewer than two ticks or without a
/// snapshot, else the features of all its ticks against its newest snapshot.
pub open spec fn features_of(ticks: Seq<TickData>, books: Seq<OrderBookData>) -> Option<
    MarketFeatures,
> {
    if ticks.len() < 2 || books.len() == 0 {
        None
    } else {
        Some(window_features(ticks, books.last().order_units@))
    }
}

/// Whether every feature of `f` stands for a number.
pub open spec fn all_defined(f: MarketFeatures) -> bool {
    &&& f.avg_price.defined()
    &&& f.price_delta.defined()
    &&& f.volume_sum.defined()
    &&& f.volatility.defined()
    &&& f.imbalance.defined()
    &&& f.spread.defined()
    &&& f.ask1_price.defined()
    &&& f.bid1_price.defined()
    &&& f.ask_depth_ratio.defined()
    &&& f.bid_depth_ratio.defined()
    &&& f.tick_speed.defined()
    &&& f.last_tick_size.defined()
}

/// The prices of a window of at most `MAX_WINDOW` ticks have a dispersion
/// that fits in 128 bits.
pub proof fn lemma_dispersion_fits(ticks: Seq<TickData>)
    requires
        ticks.len() <= MAX_WINDOW,
    ensures
        0 <= dispersion(prices(ticks)) <= u128::MAX,
{
    let p = prices(ticks);
    let n = ticks.len() as int;
    lemma_sum_bounds(p, 0xffff_ffff);
    lemma_dispersion_is_squared_deviations(p);
    let q = sum_squares(p);
    let t = sum(p);
    assert(n * q <= 0xffff_ffff * (0xffff_ffff * 0xffff_fffe_0000_0001)) by (nonlinear_arith)
        requires
            0 <= n <= 0xffff_ffff,
            0 <= q <= n * (0xffff_ffff * 0xffff_ffff),
    ;
}

/// The volatility brackets the population standard deviation of the
/// prices: with `n` prices of dispersion `x`, the variance is `x / n^2`, and
/// `(num / den)^2 <= x / n^2 < ((num + 1) / den)^2`.
pub proof fn lemma_volatility_brackets(ticks: Seq<TickData>)
    requires
        2 <= ticks.len() <= MAX_WINDOW,
    ensures
        ({
            let v = volatility_of(ticks);
            let n = ticks.len() as int;
            let x = dispersion(prices(ticks));
            &&& v.den > 0
            &&& v.num >= 0
            &&& (v.num * v.num) * (n * n) <= x * (v.den * v.den)
            &&& x * (v.den * v.den) < ((v.num + 1) * (v.num + 1)) * (n * n)
        }),
{
    let n = ticks.len() as int;
    let x = dispersion(prices(ticks));
    lemma_dispersion_fits(ticks);
    lemma_refined_root_brackets(x);
    let root = refined_root(x).0;
    let scale = refined_root(x).1;
    let den = n * scale;
    assert(1 <= den <= 0xffff_ffff * 0x1_0000_0000_0000_0000) by (nonlinear_arith)
        requires
            den == n * scale,
            2 <= n <= 0xffff_ffff,
            1 <= scale < 0x1_0000_0000_0000_0000,
    ;
    let v = volatility_of(ticks);
    let s2 = scale * scale;
    let n2 = n * n;
    assert(den * den == s2 * n2) by (nonlinear_arith)
        requires
            den == n * scale,
            s2 == scale * scale,
            n2 == n * n,
    ;
    let lo = root * root;
    let hi = (root + 1) * (root + 1);
    let mid = x * s2;
    assert(n2 >= 1) by (nonlinear_arith)
        requires
            n2 == n * n,
            n >= 2,
    ;
    assert(lo * n2 <= mid * n2 && mid * n2 < hi * n2) by (nonlinear_arith)
        requires
            lo <= mid < hi,
            n2 >= 1,
    ;
    assert(mid * n2 == x * (s2 * n2)) by (nonlinear_arith)
        requires
            mid == x * s2,
    ;
}

/// The sums over a window of ticks: of the prices, of their squares and of
/// the volumes.
pub fn tick_totals(ticks: &VecDeque<TickData>) -> (totals: (u128, u128, u128))
    requires
        ticks@.len() <= MAX_WINDOW,
    ensures
        totals.0 == sum(prices(ticks@)),
        totals.1 == sum_squares(prices(ticks@)),
        totals.2 == sum(volumes(ticks@)),
        totals.0 <= ticks@.len() * 0xffff_ffff,
        totals.1 <= ticks@.len() * 0xffff_fffe_0000_0001,
        totals.2 <= ticks@.len() * 0xffff_ffff,
{
    let n = ticks.len();
    let mut price_sum: u128 = 0;
    let mut square_sum: u128 = 0;
    let mut volume_sum: u128 = 0;
    let mut i: usize = 0;
    while i < n
        invariant
            i <= n,
            n == ticks@.len(),
            n <= MAX_WINDOW,
            price_sum == sum(prices(ticks@).take(i as int)),
            square_sum == sum_squares(prices(ticks@).take(i as int)),
            volume_sum == sum(volumes(ticks@).take(i as int)),
            price_sum <= i * 0xffff_ffff,
            square_sum <= i * 0xffff_fffe_0000_0001,
            volume_sum <= i * 0xffff_ffff,
        decreases n - i,
    {
        let tick = ticks[i];
        let price = tick.price as u128;
        proof {
            lemma_sum_take(prices(ticks@), i as int);
            lemma_sum_take(volumes(ticks@), i as int);
            assert(price * price <= 0xffff_fffe_0000_0001) by (nonlinear_arith)
                requires
                    0 <= price <= 0xffff_ffff,
            ;
        }
        price_sum = price_sum + price;
        square_sum = square_sum + price * price;
        volume_sum = volume_sum + tick.volume as u128;
        i = i + 1;
    }
    proof {
        assert(prices(ticks@).take(n as int) =~= prices(ticks@));
        assert(volumes(ticks@).take(n as int) =~= volumes(ticks@));
    }
    (price_sum, square_sum, volume_sum)
}

/// The sizes resting on each side of a book: in all, and on the top levels.
/// The result is `(asks, bids, top asks, top bids)`.
pub fn level_totals(units: &Vec<OrderBookUnit>) -> (totals: (u128, u128, u128, u128))
    ensures
        totals.0 == sum(ask_sizes(units@)),
        totals.1 == sum(bid_sizes(units@)),
        totals.2 == sum(top_levels(ask_sizes(units@))),
        totals.3 == sum(top_levels(bid_sizes(units@))),
        totals.2 <= totals.0 <= units@.len() * 0xffff_ffff,
        totals.3 <= totals.1 <= units@.len() * 0xffff_ffff,
{
    let n = units.len();
    let mut asks: u128 = 0;
    let mut bids: u128 = 0;
    let mut top_asks: u128 = 0;
    let mut top_bids: u128 = 0;
    let mut i: usize = 0;
    while i < n
        invariant
            i <= n,
            n == units@.len(),
            asks == sum(ask_sizes(units@).take(i as int)),
            bids == sum(bid_sizes(units@).take(i as int)),
            top_asks == sum(top_levels(ask_sizes(units@).take(i as int))),
            top_bids == sum(top_levels(bid_sizes(units@).take(i as int))),
            top_asks <= asks <= i * 0xffff_ffff,
            top_bids <= bids <= i * 0xffff_ffff,
        decreases n - i,
    {
        let unit = units[i];
        proof {
            let a = ask_sizes(units@);
            let b = bid_sizes(units@);
            lemma_sum_take(a, i as int);
            lemma_sum_take(b, i as int);
            if i >= DEPTH_LEVELS {
                assert(top_levels(a.take(i + 1)) =~= top_levels(a.take(i as int)));
                assert(top_levels(b.take(i + 1)) =~= top_levels(b.take(i as int)));
            }
        }
        asks = asks + unit.ask_size as u128;
        bids = bids + unit.bid_size as u128;
        if i < DEPTH_LEVELS {
            top_asks = top_asks + unit.ask_size as u128;
            top_bids = top_bids + unit.bid_size as u128;
        }
        i = i + 1;
    }
    proof {
        assert(ask_sizes(units@).take(n as int) =~= ask_sizes(units@));
        assert(bid_sizes(units@).take(n as int) =~= bid_sizes(units@));
    }
    (asks, bids, top_asks, top_bids)
}

/// The quotient of two sums where the divisor is positive, zero where it is
/// not.
pub fn ratio_or_zero(num: i128, den: u128) -> (r: Ratio)
    ensures
        r == guarded_ratio(num as int, den as int),
        r.defined(),
{
    if den > 0 {
        Ratio::new(num, den)
    } else {
        Ratio::zero()
    }
}

/// The features of the history in `storage`.
///
/// Nothing is returned while the history holds fewer than two ticks or no
/// snapshot. Otherwise the features are those of all retained ticks against
/// the newest snapshot, each of them a number.
pub fn analyze(storage: &MarketStorage) -> (features: Option<MarketFeatures>)
    requires
        storage.orderbooks@.len() == 0 || storage.ticks@.len() <= MAX_WINDOW,
    ensures
        features == features_of(storage.ticks@, storage.orderbooks@),
        features is None <==> storage.ticks@.len() < 2 || storage.orderbooks@.len() == 0,
        features is Some ==> all_defined(features->0),
{
    let n = storage.ticks.len();
    if n < 2 || storage.orderbooks.len() == 0 {
        return None;
    }
    let ticks = &storage.ticks;
    let orderbook = &storage.orderbooks[storage.orderbooks.len() - 1];
    let units = &orderbook.order_units;
    let first = ticks[0];
    let last = ticks[n - 1];

    let (price_sum, square_sum, volume_sum) = tick_totals(ticks);
    let avg_price = Ratio::new(price_sum as i128, n as u128);
    let price_delta = Ratio::from_int(last.price as i128 - first.price as i128);
    let volume_sum = Ratio::from_int(volume_sum as i128);

    proof {
        lemma_dispersion_is_squared_deviations(prices(ticks@));
        assert(n * square_sum <= 0xffff_ffff * (0xffff_ffff * 0xffff_fffe_0000_0001))
            by (nonlinear_arith)
            requires
                0 <= n <= 0xffff_ffff,
                0 <= square_sum <= n * 0xffff_fffe_0000_0001,
        ;
    }
    let price_dispersion = (n as u128) * square_sum - price_sum * price_sum;
    let (root, scale) = scaled_isqrt(price_dispersion);
    assert(1 <= n * scale <= 0xffff_ffff * 0x8000_0000_0000_0000) by (nonlinear_arith)
        requires
            2 <= n <= 0xffff_ffff,
            1 <= scale < 0x8000_0000_0000_0000,
    ;
    let volatility = Ratio::new(root as i128, (n as u128) * scale);

    let ask1_price = if units.len() > 0 {
        Ratio::from_int(units[0].ask_price as i128)
    } else {
        Ratio::zero()
    };
    let bid1_price = if units.len() > 0 {
        Ratio::from_int(units[0].bid_price as i128)
    } else {
        Ratio::zero()
    };
    let spread = Ratio::from_int(ask1_price.num - bid1_price.num);

    let (asks, bids, top_asks, top_bids) = level_totals(units);
    let imbalance = ratio_or_zero(bids as i128 - asks as i128, bids + asks);
    let ask_depth_ratio = ratio_or_zero(top_asks as i128, asks);
    let bid_depth_ratio = ratio_or_zero(top_bids as i128, bids);

    proof {
        lemma_delta_sum_telescopes(timestamps(ticks@));
    }
    let tick_speed = Ratio::new(last.timestamp as i128 - first.timestamp as i128, (n - 1) as u128);
    let last_tick_size = Ratio::from_int(last.volume as i128);

    Some(
        MarketFeatures {
            avg_price,
            price_delta,
            volume_sum,
            volatility,
            imbalance,
            spread,
            ask1_price,
            bid1_price,
            ask_depth_ratio,
            bid_depth_ratio,
            tick_speed,
            last_tick_size,
        },
    )
}

} // verus!
