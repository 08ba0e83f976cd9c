//! The decisions of the ingestion loop.
//!
//! The loop itself waits on two channels and asks a value estimator, which
//! is not this crate's business. What it decides between those waits is
//! here: what an arriving snapshot or tick does to the history, when a state
//! is to be evaluated, and what a chosen action adds to the batch.
//!
//! A tick is recorded whether or not a snapshot has arrived yet; it yields a
//! state only once one has.

use crate::agent::{is_greedy, Agent, ACTION_COUNT};
use crate::analyzer::{analyze, features_of, MarketStorage, MAX_WINDOW};
use crate::env::{features_array, next_entry, next_holding, refreshed, reward_of, Env};
use crate::feed::{OrderBookData, TickData};
use crate::fifo::push_bounded;
use crate::ratio::Ratio;
use crate::replay_log::ReplaySample;
use vstd::prelude::*;

verus! {

/// How many events of each kind the loop retains unless told otherwise.
pub const DEFAULT_CAPACITY: usize = 200;

/// How many samples make a batch unless told otherwise.
pub const DEFAULT_BATCH: usize = 100;

/// What the loop carries from one event to the next.
pub struct TradingLoop {
    pub storage: MarketStorage,
    /// Whether any snapshot has arrived yet.
    pub has_order: bool,
    /// The samples gathered since the last batch was handed out.
    pub replay_batch: Vec<ReplaySample>,
    /// How many samples make a batch.
    pub batch_target: usize,
}

/// The state that a tick yields: the features of the history, once a
/// snapshot has arrived and the history suffices; else nothing.
pub open spec fn observed(has_order: bool, ticks: Seq<TickData>, books: Seq<OrderBookData>) -> Option<
    [Ratio; 12],
> {
    if has_order && features_of(ticks, books) is Some {
        Some(features_array(features_of(ticks, books)->0))
    } else {
        None
    }
}

/// The sample that `action` at `tick` adds, taken in `state` by an
/// environment that holds `features`, `holding` and `entry`.
pub open spec fn sample_for(
    features: [Ratio; 12],
    holding: bool,
    entry: u32,
    state: [Ratio; 12],
    action: usize,
    tick: TickData,
) -> ReplaySample {
    ReplaySample {
        state,
        action,
        reward: reward_of(holding, entry, action, tick.price),
        next_state: refreshed(features, tick),
    }
}

impl TradingLoop {
    /// Whether the history is small enough for its features to be computed.
    pub open spec fn wf(&self) -> bool {
        self.storage.capacity <= MAX_WINDOW
    }

    /// A loop that has seen nothing: it retains `capacity` events of each
    /// kind and gathers batches of `batch_target` samples.
    pub fn new(capacity: usize, batch_target: usize) -> (state: Self)
        requires
            capacity <= MAX_WINDOW,
        ensures
            state.wf(),
            state.storage.capacity == capacity,
            state.storage.ticks@.len() == 0,
            state.storage.orderbooks@.len() == 0,
            !state.has_order,
            state.replay_batch@.len() == 0,
            state.batch_target == batch_target,
    {
        Self {
            storage: MarketStorage::new(capacity),
            has_order: false,
            replay_batch: Vec::new(),
            batch_target,
        }
    }

    /// A snapshot has arrived: it is recorded, and from now on ticks may
    /// yield states.
    pub fn on_orderbook(&mut self, order: OrderBookData)
        requires
            old(self).wf(),
        ensures
            final(self).wf(),
            final(self).has_order,
            final(self).storage.orderbooks@ == push_bounded(
                old(self).storage.orderbooks@,
                old(self).storage.capacity as nat,
                order,
            ),
            final(self).storage.ticks == old(self).storage.ticks,
            final(self).storage.capacity == old(self).storage.capacity,
            final(self).replay_batch == old(self).replay_batch,
            final(self).batch_target == old(self).batch_target,
    {
        self.has_order = true;
        self.storage.push_orderbook(order);
    }

    /// A tick has arrived: it is recorded. If a snapshot has arrived before
    /// and the history suffices, the environment takes over the features of
    /// the history, and they are returned as the state to evaluate.
    /// Otherwise nothing is returned and the environment is untouched.
    pub fn on_tick(&mut self, env: &mut Env, tick: TickData) -> (state: Option<[Ratio; 12]>)
        requires
            old(self).wf(),
        ensures
            final(self).wf(),
            final(self).storage.ticks@ == push_bounded(
                old(self).storage.ticks@,
                old(self).storage.capacity as nat,
                tick,
            ),
            final(self).storage.orderbooks == old(self).storage.orderbooks,
            final(self).storage.capacity == old(self).storage.capacity,
            final(self).has_order == old(self).has_order,
            final(self).replay_batch == old(self).replay_batch,
            final(self).batch_target == old(self).batch_target,
            state == observed(
                old(self).has_order,
                final(self).storage.ticks@,
                old(self).storage.orderbooks@,
            ),
            final(env).features == if state is Some {
                state->0
            } else {
                old(env).features
            },
            final(env).is_holding == old(env).is_holding,
            final(env).entry_price == old(env).entry_price,
    {
        self.storage.push_tick(tick);
        if self.has_order {
            match analyze(&self.storage) {
                Some(features) => {
                    env.update(features);
                    return Some(env.observe());
                },
                None => {},
            }
        }
        None
    }

    /// The action `action` was chosen for `state` at `tick`: the environment
    /// takes the step, and the sample of it joins the batch.
    pub fn record(&mut self, env: &mut Env, state: [Ratio; 12], action: usize, tick: TickData)
        ensures
            final(self).replay_batch@ == old(self).replay_batch@.push(
                sample_for(
                    old(env).features,
                    old(env).is_holding,
                    old(env).entry_price,
                    state,
                    action,
                    tick,
                ),
            ),
            final(self).storage == old(self).storage,
            final(self).has_order == old(self).has_order,
            final(self).batch_target == old(self).batch_target,
            final(env).is_holding == next_holding(old(env).is_holding, action),
            final(env).entry_price == next_entry(
                old(env).is_holding,
                old(env).entry_price,
                action,
                tick.price,
            ),
            final(env).features == refreshed(old(env).features, tick),
    {
        let (next_state, reward) = env.step(action, tick);
        self.replay_batch.push(ReplaySample { state, action, reward, next_state });
    }

    /// The values `q_values` have been estimated for `state` at `tick`: the
    /// agent picks an action, which is recorded as `record` does. The action
    /// is returned. It is one of the three or the greedy choice.
    pub fn on_values(
        &mut self,
        agent: &mut Agent,
        env: &mut Env,
        state: [Ratio; 12],
        tick: TickData,
        q_values: &[Option<i64>],
    ) -> (action: usize)
        ensures
            action < ACTION_COUNT || is_greedy(q_values@, action as int),
            old(agent).epsilon == 0 ==> is_greedy(q_values@, action as int),
            final(agent).epsilon == old(agent).epsilon,
            final(self).replay_batch@ == old(self).replay_batch@.push(
                sample_for(
                    old(env).features,
                    old(env).is_holding,
                    old(env).entry_price,
                    state,
                    action,
                    tick,
                ),
            ),
            final(self).storage == old(self).storage,
            final(self).has_order == old(self).has_order,
            final(self).batch_target == old(self).batch_target,
            final(env).is_holding == next_holding(old(env).is_holding, action),
            final(env).entry_price == next_entry(
                old(env).is_holding,
                old(env).entry_price,
                action,
                tick.price,
            ),
            final(env).features == refreshed(old(env).features, tick),
    {
        let action = agent.select_action(q_values);
        self.record(env, state, action, tick);
        action
    }

    /// Whether the batch has reached its target.
    pub fn is_complete(&self) -> (complete: bool)
        ensures
            complete <==> self.replay_batch@.len() >= self.batch_target,
    {
        self.replay_batch.len() >= self.batch_target
    }

    /// Hands out the gathered samples, oldest first, and starts an empty
    /// batch.
    pub fn take_batch(&mut self) -> (batch: Vec<ReplaySample>)
        ensures
            batch@ == old(self).replay_batch@,
            final(self).replay_batch@.len() == 0,
            final(self).storage == old(self).storage,
            final(self).has_order == old(self).has_order,
            final(self).batch_target == old(self).batch_target,
    {
        let mut batch: Vec<ReplaySample> = Vec::new();
        std::mem::swap(&mut batch, &mut self.replay_batch);
        batch
    }
}

} // verus!
