//! Fractional scale factors as the compositor announces them.

use vstd::prelude::*;

verus! {

/// A fractional scale: the numerator of a fraction whose denominator is
/// [`ScaleFactor::DENOMINATOR`].
#[derive(Clone, Copy, Debug, PartialEq, Eq, Structural)]
pub struct ScaleFactor(pub u32);

/// `dim * numerator / 120`, rounded to the nearest integer, a tie going up.
pub open spec fn scaled(dim: int, numerator: int) -> int {
    (dim * numerator + 60) / 120
}

/// The logical length that a physical length stands for under a scale:
/// `physical * 120 / numerator`, rounded to the nearest integer, a tie going up.
pub open spec fn unscaled(physical: int, numerator: int) -> int {
    (240 * physical + numerator) / (2 * numerator)
}

impl ScaleFactor {
    /// The denominator of every fractional scale.
    pub const DENOMINATOR: u32 = 120;

    /// The scale `numerator / 120`.
    pub fn new(numerator: u32) -> (factor: Self)
        ensures
            factor.0 == numerator,
    {
        ScaleFactor(numerator)
    }

    /// The numerator over [`ScaleFactor::DENOMINATOR`].
    pub fn numerator(&self) -> (n: u32)
        ensures
            n == self.0,
    {
        self.0
    }

    /// Scales a logical length to physical pixels, rounding to the nearest
    /// pixel and a half pixel away from zero.
    pub fn scale(&self, dim: u32) -> (physical: u64)
        ensures
            physical == scaled(dim as int, self.0 as int),
    {
        let wide: u64 = dim as u64;
        let factor: u64 = self.0 as u64;
        assert(wide * factor <= 0xFFFF_FFFF * 0xFFFF_FFFF) by (nonlinear_arith)
            requires
                wide <= 0xFFFF_FFFF,
                factor <= 0xFFFF_FFFF,
        ;
        (wide * factor + 60) / 120
    }
}

/// The scaled length is the integer nearest to the exact product: it differs
/// from `dim * numerator / 120` by at most one half, and by exactly one half
/// only upwards.
pub proof fn lemma_scaled_is_nearest(dim: int, numerator: int)
    ensures
        120 * scaled(dim, numerator) - 60 <= dim * numerator < 120 * scaled(dim, numerator) + 60,
{
    let p = dim * numerator + 60;
    assert(p == 120 * (p / 120) + p % 120 && 0 <= p % 120 < 120) by {
        vstd::arithmetic::div_mod::lemma_fundamental_div_mod(p, 120);
    }
}

/// Scaling a logical length and scaling the result back gives the length
/// again, within one unit, for every scale of at least a third; for a scale
/// of at least one it gives the length exactly.
pub proof fn lemma_scale_round_trip(logical: u32, factor: ScaleFactor)
    requires
        factor.0 >= 40,
    ensures
        logical - 1 <= unscaled(scaled(logical as int, factor.0 as int), factor.0 as int) <= logical
            + 1,
        factor.0 >= 120 ==> unscaled(scaled(logical as int, factor.0 as int), factor.0 as int)
            == logical,
{
    let l = logical as int;
    let n = factor.0 as int;
    let p = scaled(l, n);
    let q = unscaled(p, n);
    lemma_scaled_is_nearest(l, n);
    let t = 240 * p + n;
    assert(t == (2 * n) * (t / (2 * n)) + t % (2 * n) && 0 <= t % (2 * n) < 2 * n) by {
        vstd::arithmetic::div_mod::lemma_fundamental_div_mod(t, 2 * n);
        vstd::arithmetic::div_mod::lemma_mod_bound(t, 2 * n);
    }
    let ln = l * n;
    let nq = n * q;
    assert(nq == n * q);
    assert((2 * n) * q == 2 * nq) by (nonlinear_arith)
        requires
            nq == n * q,
    ;
    // From here on the facts are linear in `ln`, `nq` and `n`:
    //   120 p - 60 <= ln < 120 p + 60   and   2 nq <= 240 p + n < 2 nq + 2 n.
    assert(2 * nq <= 2 * ln + 120 + n);
    assert(2 * ln < 2 * nq + n + 120);
    // At the two bounds themselves the first inequality is strict: equality
    // would make `120 p` an odd multiple of 20 or put `p` between `l` and `l + 1`.
    assert(n == 40 ==> ln == 40 * l && nq == 40 * q) by (nonlinear_arith)
        requires
            nq == n * q,
            ln == l * n,
    ;
    assert(n == 120 ==> ln == 120 * l && nq == 120 * q) by (nonlinear_arith)
        requires
            nq == n * q,
            ln == l * n,
    ;
    assert(n == 40 ==> 2 * nq < 2 * ln + 120 + n) by {
        if n == 40 && 2 * nq == 2 * ln + 120 + n {
            assert(6 * p == 2 * l + 3);
            assert((6 * p) % 2 == 0);
            assert((2 * l + 3) % 2 == 1);
        }
    }
    assert(q <= l + 1) by (nonlinear_arith)
        requires
            nq == n * q,
            ln == l * n,
            2 * nq <= 2 * ln + 120 + n,
            n >= 40,
            n == 40 ==> 2 * nq < 2 * ln + 120 + n,
    ;
    assert(q >= l - 1) by (nonlinear_arith)
        requires
            nq == n * q,
            ln == l * n,
            2 * ln < 2 * nq + n + 120,
            n >= 40,
    ;
    if n >= 120 {
        assert(q <= l) by (nonlinear_arith)
            requires
                nq == n * q,
                ln == l * n,
                2 * nq <= 2 * ln + 120 + n,
                n >= 120,
                n == 120 ==> 2 * nq < 2 * ln + 120 + n,
        ;
        assert(q >= l) by (nonlinear_arith)
            requires
                nq == n * q,
                ln == l * n,
                2 * ln < 2 * nq + n + 120,
                n >= 120,
        ;
    }
}

} // verus!
