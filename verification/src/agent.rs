//! The epsilon-greedy policy.
//!
//! With probability epsilon the agent explores: it picks one of the three
//! actions at random. Otherwise it exploits: it picks the action whose
//! estimated value is greatest. Epsilon is a whole number of millionths.

use crate::env::ACTION_HOLD;
use crate::random::{draw_below, thread_generator};
use rand::rngs::ThreadRng;
use vstd::prelude::*;

verus! {

/// The epsilon that stands for probability one.
pub const EPSILON_ONE: u32 = 1_000_000;

/// How many actions there are to explore.
pub const ACTION_COUNT: u32 = 3;

/// An agent with its exploration rate and its source of randomness.
pub struct Agent {
    /// The probability of exploring, in millionths.
    pub epsilon: u32,
    /// The generator that the draws come from.
    pub rng: ThreadRng,
}

/// Whether no action of `values` has a value.
pub open spec fn none_valued(values: Seq<Option<i64>>) -> bool {
    forall|i: int| 0 <= i < values.len() ==> values[i] is None
}

/// Whether `action` is the greedy choice among `values`: the first action
/// whose value no other exceeds, or to hold where no action has a value.
pub open spec fn is_greedy(values: Seq<Option<i64>>, action: int) -> bool {
    if none_valued(values) {
        action == ACTION_HOLD
    } else {
        &&& 0 <= action < values.len()
        &&& values[action] is Some
        &&& forall|j: int|
            0 <= j < values.len() && values[j] is Some ==> (#[trigger] values[j])->0
                <= values[action]->0
        &&& forall|j: int|
            0 <= j < action && values[j] is Some ==> (#[trigger] values[j])->0 < values[action]->0
    }
}

/// Epsilon after one decay: the product with the rate, rounded down to a
/// millionth, but no less than the floor.
pub open spec fn decayed(epsilon: int, rate: int, floor: int) -> int {
    let product = epsilon * rate / (EPSILON_ONE as int);
    if product >= floor {
        product
    } else {
        floor
    }
}

/// Epsilon after `times` decays.
pub open spec fn decayed_times(epsilon: int, rate: int, floor: int, times: nat) -> int
    decreases times,
{
    if times == 0 {
        epsilon
    } else {
        decayed(decayed_times(epsilon, rate, floor, (times - 1) as nat), rate, floor)
    }
}

/// There is one greedy choice.
pub proof fn lemma_greedy_unique(values: Seq<Option<i64>>, a: int, b: int)
    requires
        is_greedy(values, a),
        is_greedy(values, b),
    ensures
        a == b,
{
}

/// With a rate of at most one and an epsilon at or above the floor, a decay
/// never raises epsilon and never takes it below the floor; with a rate
/// below one it lowers any epsilon that is above the floor.
pub proof fn lemma_decay_bounds(epsilon: int, rate: int, floor: int)
    requires
        0 <= rate <= EPSILON_ONE,
        0 <= floor <= epsilon,
    ensures
        floor <= decayed(epsilon, rate, floor) <= epsilon,
        rate < EPSILON_ONE && floor < epsilon ==> decayed(epsilon, rate, floor) < epsilon,
{
    let product = epsilon * rate;
    assert(0 <= product <= epsilon * 1_000_000) by (nonlinear_arith)
        requires
            product == epsilon * rate,
            0 <= rate <= 1_000_000,
            0 <= epsilon,
    ;
    if rate < EPSILON_ONE && floor < epsilon {
        assert(product <= epsilon * 1_000_000 - epsilon) by (nonlinear_arith)
            requires
                product == epsilon * rate,
                0 <= rate <= 999_999,
                0 <= epsilon,
        ;
    }
}

/// Under repeated decay with a rate of at most one, from an epsilon at or
/// above the floor, epsilon never rises and never falls below the floor.
pub proof fn lemma_decay_never_rises(epsilon: int, rate: int, floor: int, times: nat)
    requires
        0 <= rate <= EPSILON_ONE,
        0 <= floor <= epsilon,
    ensures
        floor <= decayed_times(epsilon, rate, floor, times + 1) <= decayed_times(
            epsilon,
            rate,
            floor,
            times,
        ) <= epsilon,
    decreases times,
{
    if times > 0 {
        lemma_decay_never_rises(epsilon, rate, floor, (times - 1) as nat);
    }
    lemma_decay_bounds(decayed_times(epsilon, rate, floor, times), rate, floor);
}

/// Under repeated decay with a rate below one, epsilon comes down to the
/// floor exactly, after no more decays than it was above the floor, and
/// stays there.
pub proof fn lemma_decay_reaches_floor(epsilon: int, rate: int, floor: int, times: nat)
    requires
        0 <= rate < EPSILON_ONE,
        0 <= floor <= epsilon,
    ensures
        floor <= decayed_times(epsilon, rate, floor, times),
        decayed_times(epsilon, rate, floor, times) == floor || decayed_times(
            epsilon,
            rate,
            floor,
            times,
        ) <= epsilon - times,
        times >= epsilon - floor ==> decayed_times(epsilon, rate, floor, times) == floor,
    decreases times,
{
    if times > 0 {
        lemma_decay_reaches_floor(epsilon, rate, floor, (times - 1) as nat);
        lemma_decay_bounds(decayed_times(epsilon, rate, floor, (times - 1) as nat), rate, floor);
    }
}

/// Whether an agent of exploration rate `epsilon` explores on the draw
/// `roll`, a number below one million: it does when the draw falls below
/// epsilon, which happens with probability epsilon.
pub fn explores(epsilon: u32, roll: u32) -> (exploring: bool)
    ensures
        exploring <==> roll < epsilon,
{
    roll < epsilon
}

/// The greedy choice among `values`: the first action of greatest value.
/// Actions without a value are passed over; where none has a value the
/// choice is to hold.
pub fn greedy_action(values: &[Option<i64>]) -> (action: usize)
    ensures
        is_greedy(values@, action as int),
{
    let mut found = false;
    let mut best_at: usize = ACTION_HOLD;
    let mut best_value: i64 = 0;
    let mut i: usize = 0;
    while i < values.len()
        invariant
            i <= values@.len(),
            !found ==> best_at == ACTION_HOLD && forall|j: int|
                0 <= j < i ==> (#[trigger] values@[j]) is None,
            found ==> {
                &&& best_at < i
                &&& values@[best_at as int] == Some(best_value)
                &&& forall|j: int|
                    0 <= j < i && values@[j] is Some ==> (#[trigger] values@[j])->0 <= best_value
                &&& forall|j: int|
                    0 <= j < best_at && values@[j] is Some ==> (#[trigger] values@[j])->0
                        < best_value
            },
        decreases values@.len() - i,
    {
        match values[i] {
            Some(v) => {
                if !found || v > best_value {
                    found = true;
                    best_at = i;
                    best_value = v;
                }
            },
            None => {},
        }
        i = i + 1;
    }
    best_at
}

impl Agent {
    /// An agent that explores with probability `epsilon` millionths.
    pub fn new(epsilon: u32) -> (agent: Self)
        ensures
            agent.epsilon == epsilon,
    {
        Self { epsilon, rng: thread_generator() }
    }

    /// Picks an action for the estimated `q_array`, one value per action.
    ///
    /// The agent draws a number below one million. If it is below epsilon,
    /// the agent explores and the action is one of the three, drawn at
    /// random; otherwise it is the greedy choice. So an agent whose epsilon
    /// is zero always takes the greedy choice, and one whose epsilon is one
    /// always explores.
    pub fn select_action(&mut self, q_array: &[Option<i64>]) -> (action: usize)
        ensures
            final(self).epsilon == old(self).epsilon,
            action < ACTION_COUNT || is_greedy(q_array@, action as int),
            old(self).epsilon == 0 ==> is_greedy(q_array@, action as int),
            old(self).epsilon >= EPSILON_ONE ==> action < ACTION_COUNT,
    {
        let roll = draw_below(&mut self.rng, EPSILON_ONE);
        if explores(self.epsilon, roll) {
            draw_below(&mut self.rng, ACTION_COUNT) as usize
        } else {
            greedy_action(q_array)
        }
    }

    /// Lowers epsilon by the factor `decay_rate` millionths, rounding down,
    /// but not below `min_epsilon`.
    pub fn decay_epsilon(&mut self, decay_rate: u32, min_epsilon: u32)
        requires
            old(self).epsilon * decay_rate / (EPSILON_ONE as int) <= u32::MAX,
        ensures
            final(self).epsilon == decayed(
                old(self).epsilon as int,
                decay_rate as int,
                min_epsilon as int,
            ),
    {
        let product = (self.epsilon as u64) * (decay_rate as u64) / (EPSILON_ONE as u64);
        let lowered = product as u32;
        self.epsilon = if lowered >= min_epsilon {
            lowered
        } else {
            min_epsilon
        };
    }
}

} // verus!
