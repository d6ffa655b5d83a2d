//! Exponentiation under each overflow policy, together with the lemmas that
//! relate a power that escapes the representable range to its final value.

use vstd::prelude::*;

use vstd::arithmetic::power::{
    lemma0_pow, lemma1_pow, lemma_pow0, lemma_pow1, lemma_pow_adds, lemma_pow_increases,
    lemma_pow_positive, lemma_pow_strictly_increases, pow,
};

use crate::arith::{
    clamp, iabs, in_range, lemma_wrap_mul_congruent, lemma_wrap_near, lemma_wrap_range_near, wrap,
};
use crate::integral::Integral;

verus! {

/// Exponentiation that detects overflow: present exactly when the
/// mathematical power is representable.
pub fn pow_checked<T: Integral>(base: T, exp: u32) -> (r: Option<T>)
    ensures
        r is Some <==> in_range::<T>(pow(base.as_int(), exp as nat)),
        r matches Some(v) ==> v.as_int() == pow(base.as_int(), exp as nat),
{
    let mut acc = T::one();
    let mut i: u32 = 0;
    proof {
        lemma_pow0(base.as_int());
    }
    while i < exp
        invariant
            i <= exp,
            acc.as_int() == pow(base.as_int(), i as nat),
        decreases exp - i,
    {
        match acc.checked_mul(base) {
            Some(a) => {
                proof {
                    lemma_pow1(base.as_int());
                    lemma_pow_adds(base.as_int(), i as nat, 1);
                }
                acc = a;
            },
            None => {
                proof {
                    T::range_properties();
                    base.in_bounds();
                    lemma_pow1(base.as_int());
                    lemma_pow_adds(base.as_int(), i as nat, 1);
                    lemma_pow_escape(
                        base.as_int(),
                        (i + 1) as nat,
                        exp as nat,
                        T::min_int(),
                        T::max_int(),
                    );
                }
                return None;
            },
        }
        i = i + 1;
    }
    proof {
        acc.in_bounds();
    }
    Some(acc)
}

/// Exponentiation that wraps: the mathematical power, reduced into the
/// representable range.
pub fn pow_wrapping<T: Integral>(base: T, exp: u32) -> (r: T)
    ensures
        r.as_int() == wrap::<T>(pow(base.as_int(), exp as nat)),
{
    let mut acc = T::one();
    let mut i: u32 = 0;
    proof {
        T::range_properties();
        lemma_pow0(base.as_int());
        lemma_wrap_range_near(1, T::min_int(), T::max_int());
    }
    while i < exp
        invariant
            i <= exp,
            acc.as_int() == wrap::<T>(pow(base.as_int(), i as nat)),
        decreases exp - i,
    {
        proof {
            T::range_properties();
            lemma_pow1(base.as_int());
            lemma_pow_adds(base.as_int(), i as nat, 1);
            lemma_wrap_mul_congruent(
                pow(base.as_int(), i as nat),
                base.as_int(),
                T::min_int(),
                T::max_int(),
            );
        }
        acc = acc.wrapping_mul(base);
        i = i + 1;
    }
    acc
}

/// Exponentiation that saturates: the mathematical power, clamped to the
/// edge of the representable range in the direction of overflow.
pub fn pow_saturating<T: Integral>(base: T, exp: u32) -> (r: T)
    ensures
        r.as_int() == clamp::<T>(pow(base.as_int(), exp as nat)),
{
    match pow_checked(base, exp) {
        Some(v) => {
            proof {
                v.in_bounds();
            }
            v
        },
        None => {
            proof {
                T::range_properties();
                base.in_bounds();
            }
            if base.is_neg() && exp % 2 == 1 {
                proof {
                    lemma_pow_sign(base.as_int(), exp as nat);
                    lemma_pow_positive(-base.as_int(), exp as nat);
                }
                T::min_value()
            } else {
                proof {
                    let b = base.as_int();
                    let e = exp as nat;
                    if b == 0 {
                        lemma_pow0(b);
                        if e > 0 {
                            lemma0_pow(e);
                        }
                        assert(false);
                    } else if b > 0 {
                        lemma_pow_positive(b, e);
                    } else {
                        lemma_pow_sign(b, e);
                        lemma_pow_positive(-b, e);
                    }
                }
                T::max_value()
            }
        },
    }
}

/// Exponentiation that wraps and reports: the reduced power, together with
/// whether the mathematical power escaped the representable range.
pub fn pow_overflowing<T: Integral>(base: T, exp: u32) -> (r: (T, bool))
    ensures
        r.0.as_int() == wrap::<T>(pow(base.as_int(), exp as nat)),
        r.1 == !in_range::<T>(pow(base.as_int(), exp as nat)),
{
    match pow_checked(base, exp) {
        Some(v) => {
            proof {
                lemma_wrap_near::<T>(pow(base.as_int(), exp as nat));
            }
            (v, false)
        },
        None => (pow_wrapping(base, exp), true),
    }
}

/// A negative base contributes only its sign: the power of the base is the
/// power of its magnitude, negated for an odd exponent.
proof fn lemma_pow_sign(b: int, e: nat)
    requires
        b < 0,
    ensures
        e % 2 == 0 ==> pow(b, e) == pow(-b, e),
        e % 2 == 1 ==> pow(b, e) == -pow(-b, e),
    decreases e,
{
    lemma_pow0(b);
    lemma_pow0(-b);
    if e > 0 {
        let d = (e - 1) as nat;
        lemma_pow_sign(b, d);
        lemma_pow1(b);
        lemma_pow_adds(b, d, 1);
        lemma_pow1(-b);
        lemma_pow_adds(-b, d, 1);
        if e % 2 == 0 {
            assert(-pow(-b, d) * b == pow(-b, d) * -b) by (nonlinear_arith);
        } else {
            assert(pow(-b, d) * b == -(pow(-b, d) * -b)) by (nonlinear_arith);
        }
    }
}

/// Absolute values distribute over powers.
proof fn lemma_pow_iabs(b: int, e: nat)
    ensures
        iabs(pow(b, e)) == pow(iabs(b), e),
    decreases e,
{
    lemma_pow0(b);
    lemma_pow0(iabs(b));
    if e > 0 {
        lemma_pow_iabs(b, (e - 1) as nat);
        lemma_pow1(b);
        lemma_pow_adds(b, (e - 1) as nat, 1);
        lemma_pow1(iabs(b));
        lemma_pow_adds(iabs(b), (e - 1) as nat, 1);
        assert(iabs(pow(b, (e - 1) as nat) * b) == iabs(pow(b, (e - 1) as nat)) * iabs(b))
            by (nonlinear_arith);
    }
}

/// Once some power of the base has escaped the representable range, every
/// later power has escaped it too.
///
/// The delicate case is a signed range: an escaped power `hi + 1` could in
/// principle be followed by the representable power `-hi - 1`, but that would
/// force a later power of the base to be exactly -1, which is impossible for
/// a base of magnitude at least two.
proof fn lemma_pow_escape(b: int, j: nat, e: nat, lo: int, hi: int)
    requires
        j <= e,
        127 <= hi,
        lo == 0 || lo == -hi - 1,
        lo <= b <= hi,
        !(lo <= pow(b, j) <= hi),
    ensures
        !(lo <= pow(b, e) <= hi),
{
    let a = iabs(b);
    lemma_pow_iabs(b, j);
    lemma_pow_iabs(b, e);
    if a <= 1 {
        // A base of magnitude at most one never escapes the range.
        lemma_pow0(a);
        lemma1_pow(j);
        if a == 0 && j > 0 {
            lemma0_pow(j);
        }
        assert(pow(a, j) <= 1);
        assert(false);
    }
    lemma_pow_increases(a as nat, j, e);
    if lo <= pow(b, e) <= hi {
        if lo == 0 {
            // An unsigned base equals its magnitude, so the powers grow
            // monotonically past the range and never return.
            assert(b == a);
            assert(false);
        } else {
            assert(iabs(pow(b, e)) <= hi + 1);
            assert(iabs(pow(b, j)) == hi + 1);
            assert(pow(b, j) == hi + 1);
            assert(pow(b, e) == -hi - 1 && iabs(pow(b, e)) == hi + 1);
            let d = (e - j) as nat;
            lemma_pow_adds(b, j, d);
            assert(pow(b, j) * pow(b, d) == pow(b, e));
            assert(pow(b, d) == -1) by (nonlinear_arith)
                requires
                    pow(b, j) * pow(b, d) == pow(b, e),
                    pow(b, j) == hi + 1,
                    pow(b, e) == -hi - 1,
                    hi >= 0,
            ;
            lemma_pow_iabs(b, d);
            if d == 0 {
                lemma_pow0(b);
                assert(false);
            } else {
                lemma_pow0(a);
                lemma_pow_strictly_increases(a as nat, 0, d);
                assert(pow(a, d) > 1);
                assert(false);
            }
        }
    }
}

} // verus!
