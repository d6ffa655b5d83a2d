//! The mathematical model that every contract in this crate is stated over:
//! the representable range of an integer type, modular (two's-complement)
//! reduction into that range, clamping to its edges, and the truncating
//! division and remainder of the machine.

use vstd::prelude::*;

use vstd::arithmetic::div_mod::{
    lemma_fundamental_div_mod, lemma_mod_add_multiples_vanish, lemma_mod_division_less_than_divisor,
    lemma_mod_multiples_vanish, lemma_small_mod,
};

use crate::integral::Integral;

verus! {

/// Absolute value, kept in `int` so that signs stay easy to reason about.
pub open spec fn iabs(v: int) -> int {
    if v < 0 {
        -v
    } else {
        v
    }
}

/// Whether `v` is representable in the type `T`.
pub open spec fn in_range<T: Integral>(v: int) -> bool {
    T::min_int() <= v <= T::max_int()
}

/// The number of distinct values of the range `[lo, hi]`.
pub open spec fn range_size(lo: int, hi: int) -> int {
    hi - lo + 1
}

/// The unique value of `[lo, hi]` congruent to `v` modulo `range_size(lo, hi)`.
///
/// This is two's-complement truncation of `v` into the range, written so that
/// it works for a signed range (`lo < 0`) and an unsigned one (`lo == 0`)
/// alike.
pub open spec fn wrap_range(v: int, lo: int, hi: int) -> int {
    let m = range_size(lo, hi);
    let r = v % m;
    if r > hi {
        r - m
    } else {
        r
    }
}

/// Two's-complement reduction of `v` into the range of `T`.
pub open spec fn wrap<T: Integral>(v: int) -> int {
    wrap_range(v, T::min_int(), T::max_int())
}

/// `v` clamped to the range of `T`.
pub open spec fn clamp<T: Integral>(v: int) -> int {
    if v > T::max_int() {
        T::max_int()
    } else if v < T::min_int() {
        T::min_int()
    } else {
        v
    }
}

/// The machine's division: the quotient is rounded toward zero.
pub open spec fn div_trunc(a: int, b: int) -> int {
    if (a < 0) == (b < 0) {
        iabs(a) / iabs(b)
    } else {
        -(iabs(a) / iabs(b))
    }
}

/// The machine's remainder: it takes the sign of the dividend.
pub open spec fn rem_trunc(a: int, b: int) -> int {
    if a < 0 {
        -(iabs(a) % iabs(b))
    } else {
        a % iabs(b)
    }
}

/// `wrap_range(v, lo, hi)` equals any `w` of the range that is congruent to
/// `v` modulo the size of the range.
pub proof fn lemma_wrap_range_eq(v: int, w: int, lo: int, hi: int)
    requires
        lo <= 0 <= hi,
        lo < hi,
        lo <= w <= hi,
        (v - w) % range_size(lo, hi) == 0,
    ensures
        wrap_range(v, lo, hi) == w,
{
    let m = range_size(lo, hi);
    lemma_fundamental_div_mod(v - w, m);
    let k = (v - w) / m;
    assert(v == m * k + w);
    lemma_mod_multiples_vanish(k, w, m);
    assert(v % m == w % m);
    if w >= 0 {
        lemma_small_mod(w as nat, m as nat);
        assert(w % m == w);
    } else {
        lemma_mod_add_multiples_vanish(w, m);
        assert((w + m) % m == w % m);
        lemma_small_mod((w + m) as nat, m as nat);
        assert(w % m == w + m);
    }
}

/// The reduction lands in the range, and does not change a value already in
/// the range, nor one that missed it by no more than the size of the range.
pub proof fn lemma_wrap_range_near(v: int, lo: int, hi: int)
    requires
        lo <= 0 <= hi,
        lo < hi,
    ensures
        lo <= wrap_range(v, lo, hi) <= hi,
        lo <= v <= hi ==> wrap_range(v, lo, hi) == v,
        hi < v <= hi + range_size(lo, hi) ==> wrap_range(v, lo, hi) == v - range_size(lo, hi),
        lo - range_size(lo, hi) <= v < lo ==> wrap_range(v, lo, hi) == v + range_size(lo, hi),
{
    let m = range_size(lo, hi);
    lemma_mod_division_less_than_divisor(v, m);
    assert(0 <= v % m < m);
    lemma_small_mod(0, m as nat);
    vstd::arithmetic::div_mod::lemma_mod_self_0(m);
    assert((-m) % m == 0) by {
        lemma_mod_add_multiples_vanish(-m, m);
    }
    if lo <= v <= hi {
        lemma_wrap_range_eq(v, v, lo, hi);
    }
    if hi < v <= hi + m {
        lemma_wrap_range_eq(v, v - m, lo, hi);
    }
    if lo - m <= v < lo {
        lemma_wrap_range_eq(v, v + m, lo, hi);
    }
}

/// The remainder is non-negative and below the magnitude of the divisor,
/// whatever the signs, and division and remainder recompose the dividend.
pub proof fn lemma_mod_bound_any(x: int, d: int)
    requires
        d != 0,
    ensures
        0 <= x % d < iabs(d),
        x == d * (x / d) + x % d,
{
    lemma_fundamental_div_mod(x, d);
    if d > 0 {
        lemma_mod_division_less_than_divisor(x, d);
    } else {
        assert(0 <= x % d < -d) by (nonlinear_arith)
            requires
                d < 0,
        ;
    }
}

/// The piecewise forms of truncating division and remainder on each sign
/// combination, together with the bounds of their magnitudes.
pub proof fn lemma_div_rem_trunc_forms(a: int, b: int)
    requires
        b != 0,
    ensures
        a == 0 ==> div_trunc(a, b) == 0 && rem_trunc(a, b) == 0,
        a > 0 && b > 0 ==> div_trunc(a, b) == a / b && rem_trunc(a, b) == a % b,
        a < 0 && b < 0 ==> div_trunc(a, b) == (a * -1) / (b * -1) && rem_trunc(a, b) == ((a * -1) % (
        b * -1)) * -1,
        a < 0 && b > 0 ==> div_trunc(a, b) == ((a * -1) / b) * -1 && rem_trunc(a, b) == ((a * -1)
            % b) * -1,
        a > 0 && b < 0 ==> div_trunc(a, b) == (a / (b * -1)) * -1 && rem_trunc(a, b) == a % (b * -1),
        0 <= iabs(a) / iabs(b) <= iabs(a),
        0 <= iabs(a) % iabs(b) < iabs(b),
        iabs(div_trunc(a, b)) == iabs(a) / iabs(b),
        iabs(rem_trunc(a, b)) == iabs(a) % iabs(b),
{
    let aa = iabs(a);
    let ab = iabs(b);
    vstd::arithmetic::div_mod::lemma_div_pos_is_pos(aa, ab);
    vstd::arithmetic::div_mod::lemma_div_nonincreasing(aa, ab);
    lemma_mod_division_less_than_divisor(aa, ab);
    if a == 0 {
        vstd::arithmetic::div_mod::lemma_div_of0(ab);
        lemma_small_mod(0, ab as nat);
    }
}

/// The reduction lands in the range and differs from its argument by a
/// multiple of the size of the range.
pub proof fn lemma_wrap_range_residue(v: int, lo: int, hi: int)
    requires
        lo <= 0 <= hi,
        lo < hi,
    ensures
        lo <= wrap_range(v, lo, hi) <= hi,
        (v - wrap_range(v, lo, hi)) % range_size(lo, hi) == 0,
{
    let m = range_size(lo, hi);
    let r = v % m;
    lemma_mod_division_less_than_divisor(v, m);
    lemma_fundamental_div_mod(v, m);
    assert(v - r == m * (v / m));
    vstd::arithmetic::div_mod::lemma_mod_multiples_basic(v / m, m);
    if r > hi {
        assert(v - (r - m) == m * (v / m) + m);
        assert(m * (v / m) + m == m * (v / m + 1)) by (nonlinear_arith);
        vstd::arithmetic::div_mod::lemma_mod_multiples_basic(v / m + 1, m);
    }
}

/// Values congruent modulo the size of the range reduce to the same value.
pub proof fn lemma_wrap_range_congruent(u: int, v: int, lo: int, hi: int)
    requires
        lo <= 0 <= hi,
        lo < hi,
        (u - v) % range_size(lo, hi) == 0,
    ensures
        wrap_range(u, lo, hi) == wrap_range(v, lo, hi),
{
    let m = range_size(lo, hi);
    lemma_wrap_range_residue(v, lo, hi);
    let w = wrap_range(v, lo, hi);
    vstd::arithmetic::div_mod::lemma_add_mod_noop(u - v, v - w, m);
    lemma_small_mod(0, m as nat);
    assert((u - w) % m == 0);
    lemma_wrap_range_eq(u, w, lo, hi);
}

/// A factor may be reduced before a product is: the reduced product is the
/// same.
pub proof fn lemma_wrap_mul_congruent(x: int, y: int, lo: int, hi: int)
    requires
        lo <= 0 <= hi,
        lo < hi,
    ensures
        wrap_range(wrap_range(x, lo, hi) * y, lo, hi) == wrap_range(x * y, lo, hi),
{
    let m = range_size(lo, hi);
    lemma_wrap_range_residue(x, lo, hi);
    let w = wrap_range(x, lo, hi);
    lemma_fundamental_div_mod(x - w, m);
    let k = (x - w) / m;
    assert(x - w == m * k);
    assert(w * y - x * y == m * (-k * y)) by (nonlinear_arith)
        requires
            x - w == m * k,
    ;
    vstd::arithmetic::div_mod::lemma_mod_multiples_basic(-k * y, m);
    assert((w * y - x * y) % m == 0);
    lemma_wrap_range_congruent(w * y, x * y, lo, hi);
}

/// Truncating division escapes the representable range only for the most
/// negative value divided by minus one, and lands just past the top.
pub proof fn lemma_div_trunc_edge(a: int, b: int, lo: int, hi: int)
    requires
        b != 0,
        127 <= hi,
        lo == 0 || lo == -hi - 1,
        lo <= a <= hi,
        lo <= b <= hi,
    ensures
        !(lo <= div_trunc(a, b) <= hi) <==> (lo < 0 && a == lo && b == -1),
        lo < 0 && a == lo && b == -1 ==> div_trunc(a, b) == hi + 1,
{
    lemma_div_rem_trunc_forms(a, b);
    let q = div_trunc(a, b);
    let aa = iabs(a);
    let ab = iabs(b);
    vstd::arithmetic::div_mod::lemma_div_basics(aa);
    if lo < 0 && a == lo && b == -1 {
        assert(q == hi + 1);
    }
    if !(lo <= q <= hi) {
        if lo == 0 {
            assert(false);
        } else {
            assert(iabs(q) <= aa <= hi + 1);
            if q < lo {
                assert(false);
            }
            assert(q == hi + 1);
            assert(aa / ab == hi + 1);
            if ab >= 2 {
                vstd::arithmetic::div_mod::lemma_div_is_ordered_by_denominator(aa, 2, ab);
                vstd::arithmetic::div_mod::lemma_div_is_ordered(aa, hi + 1, 2);
                vstd::arithmetic::div_mod::lemma_div_decreases(hi + 1, 2);
                assert(false);
            }
            assert(ab == 1);
            assert(aa == hi + 1);
            assert(a == lo);
            assert(b == -1);
        }
    }
}

/// Euclidean division escapes the representable range only for the most
/// negative value divided by minus one, and lands just past the top.
pub proof fn lemma_div_euclid_edge(a: int, b: int, lo: int, hi: int)
    requires
        b != 0,
        127 <= hi,
        lo == 0 || lo == -hi - 1,
        lo <= a <= hi,
        lo <= b <= hi,
    ensures
        !(lo <= a / b <= hi) <==> (lo < 0 && a == lo && b == -1),
        lo < 0 && a == lo && b == -1 ==> a / b == hi + 1,
{
    lemma_mod_bound_any(a, b);
    let q = a / b;
    let r = a % b;
    assert(a == b * q + r);
    if lo < 0 && a == lo && b == -1 {
        assert(b * q == -q) by (nonlinear_arith)
            requires
                b == -1,
        ;
        assert(q == hi + 1);
    }
    if b >= 1 {
        if q > hi {
            assert(b * q >= q) by (nonlinear_arith)
                requires
                    b >= 1,
                    q >= 0,
            ;
            assert(false);
        }
        if q < lo {
            assert(b * q + b == b * (q + 1)) by (nonlinear_arith);
            assert(b * (q + 1) <= q + 1) by (nonlinear_arith)
                requires
                    b >= 1,
                    q + 1 <= 0,
            ;
            assert(a <= q);
            assert(false);
        }
    } else {
        if q > hi {
            assert(b * q + (-b) == b * (q - 1)) by (nonlinear_arith);
            assert(b * (q - 1) <= -(q - 1)) by (nonlinear_arith)
                requires
                    b <= -1,
                    q - 1 >= 0,
            ;
            assert(a <= -q);
            if lo == 0 {
                assert(false);
            } else {
                assert(q == hi + 1);
                assert(a == lo);
                assert(b * (q - 1) == -(q - 1));
                assert(b == -1) by (nonlinear_arith)
                    requires
                        b * (q - 1) == -(q - 1),
                        q - 1 > 0,
                ;
            }
        }
        if q < lo {
            assert(b * q >= -q) by (nonlinear_arith)
                requires
                    b <= -1,
                    q <= -1,
            ;
            assert(false);
        }
    }
}

/// Reduction into the range of `T`, for values at most one range size away.
pub proof fn lemma_wrap_near<T: Integral>(v: int)
    ensures
        in_range::<T>(wrap::<T>(v)),
        in_range::<T>(v) ==> wrap::<T>(v) == v,
        T::max_int() < v <= T::max_int() + range_size(T::min_int(), T::max_int()) ==> wrap::<T>(v)
            == v - range_size(T::min_int(), T::max_int()),
        T::min_int() - range_size(T::min_int(), T::max_int()) <= v < T::min_int() ==> wrap::<T>(v)
            == v + range_size(T::min_int(), T::max_int()),
{
    T::range_properties();
    lemma_wrap_range_near(v, T::min_int(), T::max_int());
}

} // verus!
