//! Exact quotients of machine integers.
//!
//! Every derived quantity of this crate is a quotient of two integers. It is
//! kept as the pair itself, so that no rounding happens before the value
//! leaves the crate.

use vstd::prelude::*;

verus! {

/// The quotient `num / den`, kept as the pair of its terms.
///
/// Two ratios are equal when their terms are equal: `1/2` and `2/4` are
/// different values of this type. A ratio whose `den` is zero stands for no
/// number.
#[derive(Debug, Clone, Copy, PartialEq, Eq, Structural)]
pub struct Ratio {
    pub num: i128,
    pub den: u128,
}

impl Ratio {
    /// Whether the ratio stands for a number.
    pub open spec fn defined(self) -> bool {
        self.den > 0
    }

    /// The ratio that stands for the whole number `n`.
    pub open spec fn whole(n: int) -> Ratio {
        Ratio { num: n as i128, den: 1 }
    }

    /// The ratio `num / den`.
    pub fn new(num: i128, den: u128) -> (r: Ratio)
        ensures
            r == (Ratio { num, den }),
    {
        Ratio { num, den }
    }

    /// The whole number `n` as a ratio.
    pub fn from_int(n: i128) -> (r: Ratio)
        ensures
            r == Ratio::whole(n as int),
            r.defined(),
    {
        Ratio { num: n, den: 1 }
    }

    /// Zero as a ratio.
    pub fn zero() -> (r: Ratio)
        ensures
            r == Ratio::whole(0),
    {
        Ratio { num: 0, den: 1 }
    }
}

} // verus!
