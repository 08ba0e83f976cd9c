//! Sums over sequences of integers, and the integer square root.
//!
//! The statistics of a window are stated over these sums, so that each is an
//! exact integer and no rounding enters before the last step.

use vstd::prelude::*;

verus! {

/// The sum of the items of `s`.
pub open spec fn sum(s: Seq<int>) -> int
    decreases s.len(),
{
    if s.len() == 0 {
        0
    } else {
        sum(s.drop_last()) + s.last()
    }
}

/// The sum of the squares of the items of `s`.
pub open spec fn sum_squares(s: Seq<int>) -> int
    decreases s.len(),
{
    if s.len() == 0 {
        0
    } else {
        sum_squares(s.drop_last()) + s.last() * s.last()
    }
}

/// The sum of the steps from each item of `s` to the next.
pub open spec fn delta_sum(s: Seq<int>) -> int
    decreases s.len(),
{
    if s.len() < 2 {
        0
    } else {
        delta_sum(s.drop_last()) + (s[s.len() - 1] - s[s.len() - 2])
    }
}

/// The sum over `s` of the squared distance of `scale` times an item from
/// `target`.
pub open spec fn squared_deviations(s: Seq<int>, scale: int, target: int) -> int
    decreases s.len(),
{
    if s.len() == 0 {
        0
    } else {
        squared_deviations(s.drop_last(), scale, target) + (scale * s.last() - target) * (scale
            * s.last() - target)
    }
}

/// The population variance of `s`, times the square of its length:
/// `n * sum of squares - (sum)^2`.
pub open spec fn dispersion(s: Seq<int>) -> int {
    s.len() * sum_squares(s) - sum(s) * sum(s)
}

/// Whether `r` is the integer square root of `n`: the largest whole number
/// whose square does not exceed `n`.
pub open spec fn is_root_floor(r: int, n: int) -> bool {
    0 <= r && r * r <= n && n < (r + 1) * (r + 1)
}

/// The integer square root of `n`.
pub open spec fn root_floor(n: int) -> int {
    choose|r: int| is_root_floor(r, n)
}

/// Below this radicand a root can still be refined: four times the radicand
/// stays within 126 bits.
pub const REFINE_BELOW: u128 = 0x1000_0000_0000_0000_0000_0000_0000_0000;

/// The quotient `sqrt(radicand) / scale`, rewritten with the radicand as
/// large as 126 bits allow: while the radicand is positive and below
/// `REFINE_BELOW`, it is multiplied by four and the scale by two, which
/// keeps the quotient.
pub open spec fn refine(radicand: int, scale: int) -> (int, int)
    decreases
            (if 0 < radicand < REFINE_BELOW {
                REFINE_BELOW - radicand
            } else {
                0
            }),
{
    if 0 < radicand < REFINE_BELOW {
        refine(4 * radicand, 2 * scale)
    } else {
        (radicand, scale)
    }
}

/// The square root of `x` as a pair `(root, scale)`: `root / scale` is the
/// square root rounded down to a multiple of `1 / scale`, where `scale` is
/// the power of two that `refine` reaches from 1.
pub open spec fn refined_root(x: int) -> (int, int) {
    let (radicand, scale) = refine(x, 1);
    (root_floor(radicand), scale)
}

/// Summing one item more of `s` adds that item.
pub proof fn lemma_sum_take(s: Seq<int>, i: int)
    requires
        0 <= i < s.len(),
    ensures
        sum(s.take(i + 1)) == sum(s.take(i)) + s[i],
        sum_squares(s.take(i + 1)) == sum_squares(s.take(i)) + s[i] * s[i],
{
    assert(s.take(i + 1).drop_last() =~= s.take(i));
}

/// A sum of items between 0 and `hi` lies between 0 and `hi` times their
/// number; the sum of their squares below `hi * hi` times their number.
pub proof fn lemma_sum_bounds(s: Seq<int>, hi: int)
    requires
        forall|i: int| 0 <= i < s.len() ==> 0 <= #[trigger] s[i] <= hi,
    ensures
        0 <= sum(s) <= s.len() * hi,
        0 <= sum_squares(s) <= s.len() * (hi * hi),
    decreases s.len(),
{
    if s.len() > 0 {
        let front = s.drop_last();
        let x = s.last();
        let n = front.len() as int;
        lemma_sum_bounds(front, hi);
        assert(0 <= x * x <= hi * hi) by (nonlinear_arith)
            requires
                0 <= x <= hi,
        ;
        assert((n + 1) * hi == n * hi + hi) by (nonlinear_arith);
        assert((n + 1) * (hi * hi) == n * (hi * hi) + hi * hi) by (nonlinear_arith);
    }
}

/// The steps between neighbours add up to the distance from the first item
/// to the last.
pub proof fn lemma_delta_sum_telescopes(s: Seq<int>)
    requires
        s.len() >= 1,
    ensures
        delta_sum(s) == s.last() - s.first(),
    decreases s.len(),
{
    if s.len() >= 2 {
        lemma_delta_sum_telescopes(s.drop_last());
    }
}

/// The squared deviations, expanded.
proof fn lemma_squared_deviations_expand(s: Seq<int>, scale: int, target: int)
    ensures
        squared_deviations(s, scale, target) == (scale * scale) * sum_squares(s) - 2 * ((scale
            * target) * sum(s)) + s.len() * (target * target),
        squared_deviations(s, scale, target) >= 0,
    decreases s.len(),
{
    if s.len() > 0 {
        let front = s.drop_last();
        let x = s.last();
        let n = front.len() as int;
        lemma_squared_deviations_expand(front, scale, target);
        let q = sum_squares(front);
        let t = sum(front);
        let u = scale * scale;
        let v = scale * target;
        let w = target * target;
        let e = scale * x - target;
        assert(e * e == u * (x * x) - 2 * (v * x) + w) by (nonlinear_arith)
            requires
                e == scale * x - target,
                u == scale * scale,
                v == scale * target,
                w == target * target,
        ;
        assert(e * e >= 0) by (nonlinear_arith);
        assert(u * (q + x * x) == u * q + u * (x * x)) by (nonlinear_arith);
        assert(v * (t + x) == v * t + v * x) by (nonlinear_arith);
        assert((n + 1) * w == n * w + w) by (nonlinear_arith);
    }
}

/// The dispersion of `s`, times the length of `s`, is the sum of the squared
/// distances of each item, times the length, from the sum: the variance is a
/// mean of squares. So the dispersion is never negative.
pub proof fn lemma_dispersion_is_squared_deviations(s: Seq<int>)
    ensures
        s.len() * dispersion(s) == squared_deviations(s, s.len() as int, sum(s)),
        dispersion(s) >= 0,
{
    let n = s.len() as int;
    let t = sum(s);
    let q = sum_squares(s);
    lemma_squared_deviations_expand(s, n, t);
    let d = squared_deviations(s, n, t);
    let x = dispersion(s);
    assert(n * (n * q - t * t) == (n * n) * q - 2 * ((n * t) * t) + n * (t * t))
        by (nonlinear_arith);
    if n > 0 {
        assert(x >= 0) by (nonlinear_arith)
            requires
                n * x >= 0,
                n > 0,
        ;
    }
}

/// No number has two integer square roots.
pub proof fn lemma_root_floor_unique(r: int, t: int, n: int)
    requires
        is_root_floor(r, n),
        is_root_floor(t, n),
    ensures
        r == t,
{
    if r < t {
        assert((r + 1) * (r + 1) <= t * t) by (nonlinear_arith)
            requires
                0 <= r,
                r + 1 <= t,
        ;
    } else if t < r {
        assert((t + 1) * (t + 1) <= r * r) by (nonlinear_arith)
            requires
                0 <= t,
                t + 1 <= r,
        ;
    }
}

/// A number that passes for the integer square root is the integer square
/// root.
pub proof fn lemma_root_floor_is(r: int, n: int)
    requires
        is_root_floor(r, n),
    ensures
        root_floor(n) == r,
{
    let t = root_floor(n);
    lemma_root_floor_unique(r, t, n);
}

/// The integer square root of `n`, found by bisection.
pub fn isqrt(n: u128) -> (r: u128)
    ensures
        r == root_floor(n as int),
        is_root_floor(r as int, n as int),
        r < 0x1_0000_0000_0000_0000,
{
    let mut lo: u128 = 0;
    let mut hi: u128 = 0x1_0000_0000_0000_0000;
    while hi - lo > 1
        invariant
            lo < hi <= 0x1_0000_0000_0000_0000,
            lo * lo <= n,
            n < hi * hi,
        decreases hi - lo,
    {
        let mid: u128 = lo + (hi - lo) / 2;
        assert(mid * mid <= 0xffff_ffff_ffff_ffff * 0xffff_ffff_ffff_ffff) by (nonlinear_arith)
            requires
                0 <= mid <= 0xffff_ffff_ffff_ffff,
        ;
        if mid * mid <= n {
            lo = mid;
        } else {
            hi = mid;
        }
    }
    proof {
        lemma_root_floor_is(lo as int, n as int);
    }
    lo
}

/// Refining keeps the quotient: the radicand grows by the square of what the
/// scale grows by, and the scale stays positive.
pub proof fn lemma_refine_keeps_quotient(radicand: int, scale: int)
    requires
        0 <= radicand,
        0 < scale,
    ensures
        refine(radicand, scale).0 * (scale * scale) == radicand * (refine(radicand, scale).1
            * refine(radicand, scale).1),
        refine(radicand, scale).1 >= scale,
        refine(radicand, scale).0 >= radicand,
    decreases
            (if 0 < radicand < REFINE_BELOW {
                REFINE_BELOW - radicand
            } else {
                0
            }),
{
    if 0 < radicand < REFINE_BELOW {
        lemma_refine_keeps_quotient(4 * radicand, 2 * scale);
        let y = refine(radicand, scale).0;
        let d = refine(radicand, scale).1;
        assert(y * (scale * scale) == radicand * (d * d)) by (nonlinear_arith)
            requires
                y * ((2 * scale) * (2 * scale)) == (4 * radicand) * (d * d),
        ;
    }
}

/// Refining keeps the scale within the root of the radicand: a scale whose
/// square does not exceed the radicand stays so, and a radicand of zero is
/// not refined at all.
pub proof fn lemma_refine_scale_bound(radicand: int, scale: int)
    requires
        0 <= radicand,
        1 <= scale,
        radicand == 0 || scale * scale <= radicand,
    ensures
        radicand == 0 ==> refine(radicand, scale) == (0int, scale),
        radicand != 0 ==> refine(radicand, scale).1 * refine(radicand, scale).1 <= refine(
            radicand,
            scale,
        ).0,
    decreases
            (if 0 < radicand < REFINE_BELOW {
                REFINE_BELOW - radicand
            } else {
                0
            }),
{
    if 0 < radicand < REFINE_BELOW {
        assert((2 * scale) * (2 * scale) <= 4 * radicand) by (nonlinear_arith)
            requires
                scale * scale <= radicand,
        ;
        lemma_refine_scale_bound(4 * radicand, 2 * scale);
    }
}

/// The refined root of `x` brackets the square root of `x`: with
/// `(root, scale)`, `root / scale <= sqrt(x) < (root + 1) / scale`.
pub proof fn lemma_refined_root_brackets(x: int)
    requires
        0 <= x <= u128::MAX,
    ensures
        1 <= refined_root(x).1 < 0x1_0000_0000_0000_0000,
        0 <= refined_root(x).0 < 0x1_0000_0000_0000_0000,
        refined_root(x).0 * refined_root(x).0 <= x * (refined_root(x).1 * refined_root(x).1),
        x * (refined_root(x).1 * refined_root(x).1) < (refined_root(x).0 + 1) * (refined_root(
            x,
        ).0 + 1),
{
    lemma_refine_keeps_quotient(x, 1);
    let y = refine(x, 1).0;
    let d = refine(x, 1).1;
    lemma_refine_stays_small(x, 1);
    let witness = isqrt_exists(y);
    lemma_root_floor_is(witness, y);
    lemma_refine_scale_bound(x, 1);
    assert(witness < 0x1_0000_0000_0000_0000) by (nonlinear_arith)
        requires
            0 <= witness,
            witness * witness <= y,
            y <= u128::MAX,
    ;
    assert(d < 0x1_0000_0000_0000_0000) by (nonlinear_arith)
        requires
            1 <= d,
            d * d <= y || d == 1,
            y <= u128::MAX,
    ;
}

/// Refining never carries a radicand of 128 bits beyond 128 bits.
proof fn lemma_refine_stays_small(radicand: int, scale: int)
    requires
        0 <= radicand <= u128::MAX,
    ensures
        0 <= refine(radicand, scale).0 <= u128::MAX,
    decreases
            (if 0 < radicand < REFINE_BELOW {
                REFINE_BELOW - radicand
            } else {
                0
            }),
{
    if 0 < radicand < REFINE_BELOW {
        lemma_refine_stays_small(4 * radicand, 2 * scale);
    }
}

/// Every number from 0 up has an integer square root.
proof fn isqrt_exists(n: int) -> (r: int)
    requires
        0 <= n,
    ensures
        is_root_floor(r, n),
    decreases n,
{
    if n == 0 {
        0
    } else {
        let t = isqrt_exists(n - 1);
        let r = t + 1;
        if r * r <= n {
            assert(n < (r + 1) * (r + 1)) by (nonlinear_arith)
                requires
                    n - 1 < r * r,
                    1 <= r,
            ;
            r
        } else {
            t
        }
    }
}

/// The square root of `x` as a refined pair `(root, scale)`.
pub fn scaled_isqrt(x: u128) -> (r: (u128, u128))
    ensures
        (r.0 as int, r.1 as int) == refined_root(x as int),
        r.0 < 0x1_0000_0000_0000_0000,
        1 <= r.1 < 0x8000_0000_0000_0000,
{
    let mut radicand: u128 = x;
    let mut scale: u128 = 1;
    while 0 < radicand && radicand < REFINE_BELOW
        invariant
            1 <= scale < 0x8000_0000_0000_0000,
            scale * scale <= radicand || radicand == 0,
            radicand == 0 ==> scale == 1,
            refine(radicand as int, scale as int) == refine(x as int, 1),
        decreases
                (if 0 < radicand < REFINE_BELOW {
                    REFINE_BELOW - radicand
                } else {
                    0
                }),
    {
        assert(scale < 0x4000_0000_0000_0000) by (nonlinear_arith)
            requires
                scale * scale <= radicand,
                radicand < 0x1000_0000_0000_0000_0000_0000_0000_0000,
                0 <= scale,
        ;
        assert((2 * scale) * (2 * scale) <= 4 * radicand) by (nonlinear_arith)
            requires
                scale * scale <= radicand,
        ;
        radicand = 4 * radicand;
        scale = 2 * scale;
    }
    let root = isqrt(radicand);
    (root, scale)
}

} // verus!
