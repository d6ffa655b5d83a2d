//! Wrapping arithmetic that additionally records, in a sticky flag, whether
//! any overflow has occurred.

use vstd::prelude::*;

use vstd::arithmetic::power::pow;

use crate::arith::{
    div_trunc, iabs, in_range, lemma_div_euclid_edge, lemma_div_rem_trunc_forms,
    lemma_div_trunc_edge, lemma_mod_bound_any, lemma_wrap_near, rem_trunc, wrap,
};
use crate::integral::{Integral, SignedIntegral};
use crate::pow::pow_overflowing;

verus! {

/** Marks an integer for overflow-recording arithmetic.

The contained value behaves exactly as under [`Wrapping`] arithmetic, but a
marker flag accompanies it. Each operation ORs together the flags of its
operands (a bare-integer operand contributes no flag) and whether the
operation itself overflowed; the flag therefore stays set, once set, until
the value is rebuilt from scratch.

Division by zero remains fatal and is excluded by precondition, as is a
shift amount too large for `u32`.

[`Wrapping`]: crate::wrapping::Wrapping
**/
#[derive(Clone, Copy, Debug, Default, Eq, Hash, PartialEq, PartialOrd, Ord)]
pub struct Overflowing<T: Integral> {
    /// The contained integer.
    pub value: T,
    /// Whether an overflow has occurred. Once an overflow is detected, this
    /// flag remains set until the value is rebuilt.
    pub has_overflowed: bool,
}

impl<T: Integral> View for Overflowing<T> {
    type V = (int, bool);

    open spec fn view(&self) -> (int, bool) {
        (self.value.as_int(), self.has_overflowed)
    }
}

/// The wrapped sum and the flag it produces: the overflow of the operation
/// itself, ORed with the flags of both operands.
pub open spec fn spec_add<T: Integral>(a: (int, bool), b: (int, bool)) -> (int, bool) {
    (wrap::<T>(a.0 + b.0), a.1 || b.1 || !in_range::<T>(a.0 + b.0))
}

/// The wrapped difference and its accumulated flag.
pub open spec fn spec_sub<T: Integral>(a: (int, bool), b: (int, bool)) -> (int, bool) {
    (wrap::<T>(a.0 - b.0), a.1 || b.1 || !in_range::<T>(a.0 - b.0))
}

/// The wrapped product and its accumulated flag.
pub open spec fn spec_mul<T: Integral>(a: (int, bool), b: (int, bool)) -> (int, bool) {
    (wrap::<T>(a.0 * b.0), a.1 || b.1 || !in_range::<T>(a.0 * b.0))
}

/// The wrapped truncating quotient and its accumulated flag.
pub open spec fn spec_div<T: Integral>(a: (int, bool), b: (int, bool)) -> (int, bool) {
    (wrap::<T>(div_trunc(a.0, b.0)), a.1 || b.1 || !in_range::<T>(div_trunc(a.0, b.0)))
}

/// The truncating remainder and its accumulated flag: the remainder itself
/// is always representable, and the operation overflows only for the most
/// negative value with divisor minus one, where the remainder is zero.
pub open spec fn spec_rem<T: Integral>(a: (int, bool), b: (int, bool)) -> (int, bool) {
    (rem_trunc(a.0, b.0), a.1 || b.1 || (a.0 == T::min_int() && b.0 == -1))
}

/// The wrapped Euclidean quotient and its accumulated flag.
pub open spec fn spec_div_euclid<T: Integral>(a: (int, bool), b: (int, bool)) -> (int, bool) {
    (wrap::<T>(a.0 / b.0), a.1 || b.1 || !in_range::<T>(a.0 / b.0))
}

/// The Euclidean remainder and its accumulated flag.
pub open spec fn spec_rem_euclid<T: Integral>(a: (int, bool), b: (int, bool)) -> (int, bool) {
    (a.0 % b.0, a.1 || b.1 || (a.0 == T::min_int() && b.0 == -1))
}

/// The wrapped negation and its accumulated flag.
pub open spec fn spec_neg<T: Integral>(a: (int, bool)) -> (int, bool) {
    (wrap::<T>(-a.0), a.1 || !in_range::<T>(-a.0))
}

/// The wrapped absolute value and its accumulated flag.
pub open spec fn spec_abs<T: Integral>(a: (int, bool)) -> (int, bool) {
    (wrap::<T>(iabs(a.0)), a.1 || !in_range::<T>(iabs(a.0)))
}

impl<T: Integral> Overflowing<T> {
    /// Wraps a bare integer; the flag starts out clear.
    pub fn new(num: T) -> (r: Self)
        ensures
            r@ == (num.as_int(), false),
    {
        Overflowing { value: num, has_overflowed: false }
    }

    /// Wraps a bare integer together with an initial flag.
    pub fn with_flag(num: T, has_overflowed: bool) -> (r: Self)
        ensures
            r@ == (num.as_int(), has_overflowed),
    {
        Overflowing { value: num, has_overflowed }
    }

    /// Overflow-recording addition of two overflowing integers.
    pub fn add(self, rhs: Self) -> (r: Self)
        ensures
            r@ == spec_add::<T>(self@, rhs@),
    {
        let value = self.value.wrapping_add(rhs.value);
        let ovf = self.value.checked_add(rhs.value).is_none();
        Overflowing { value, has_overflowed: self.has_overflowed || rhs.has_overflowed || ovf }
    }

    /// Overflow-recording addition of an overflowing integer and a bare
    /// integer, which contributes no flag.
    pub fn add_num(self, rhs: T) -> (r: Self)
        ensures
            r@ == spec_add::<T>(self@, (rhs.as_int(), false)),
    {
        let value = self.value.wrapping_add(rhs);
        let ovf = self.value.checked_add(rhs).is_none();
        Overflowing { value, has_overflowed: self.has_overflowed || ovf }
    }

    /// Overflow-recording subtraction of two overflowing integers.
    pub fn sub(self, rhs: Self) -> (r: Self)
        ensures
            r@ == spec_sub::<T>(self@, rhs@),
    {
        let value = self.value.wrapping_sub(rhs.value);
        let ovf = self.value.checked_sub(rhs.value).is_none();
        Overflowing { value, has_overflowed: self.has_overflowed || rhs.has_overflowed || ovf }
    }

    /// Overflow-recording subtraction of a bare integer, which contributes
    /// no flag.
    pub fn sub_num(self, rhs: T) -> (r: Self)
        ensures
            r@ == spec_sub::<T>(self@, (rhs.as_int(), false)),
    {
        let value = self.value.wrapping_sub(rhs);
        let ovf = self.value.checked_sub(rhs).is_none();
        Overflowing { value, has_overflowed: self.has_overflowed || ovf }
    }

    /// Overflow-recording multiplication of two overflowing integers.
    pub fn mul(self, rhs: Self) -> (r: Self)
        ensures
            r@ == spec_mul::<T>(self@, rhs@),
    {
        let value = self.value.wrapping_mul(rhs.value);
        let ovf = self.value.checked_mul(rhs.value).is_none();
        Overflowing { value, has_overflowed: self.has_overflowed || rhs.has_overflowed || ovf }
    }

    /// Overflow-recording multiplication by a bare integer, which
    /// contributes no flag.
    pub fn mul_num(self, rhs: T) -> (r: Self)
        ensures
            r@ == spec_mul::<T>(self@, (rhs.as_int(), false)),
    {
        let value = self.value.wrapping_mul(rhs);
        let ovf = self.value.checked_mul(rhs).is_none();
        Overflowing { value, has_overflowed: self.has_overflowed || ovf }
    }

    /// Overflow-recording division. The quotient escapes the range only
    /// for the most negative value divided by minus one, which wraps back
    /// to itself and sets the flag.
    pub fn div(self, rhs: Self) -> (r: Self)
        requires
            rhs@.0 != 0,
        ensures
            r@ == spec_div::<T>(self@, rhs@),
    {
        proof {
            T::range_properties();
            self.value.in_bounds();
            rhs.value.in_bounds();
            lemma_div_trunc_edge(self@.0, rhs@.0, T::min_int(), T::max_int());
            lemma_wrap_near::<T>(div_trunc(self@.0, rhs@.0));
        }
        match self.value.checked_div(rhs.value) {
            Some(v) => Overflowing {
                value: v,
                has_overflowed: self.has_overflowed || rhs.has_overflowed,
            },
            None => Overflowing { value: T::min_value(), has_overflowed: true },
        }
    }

    /// Overflow-recording division by a bare integer.
    pub fn div_num(self, rhs: T) -> (r: Self)
        requires
            rhs.as_int() != 0,
        ensures
            r@ == spec_div::<T>(self@, (rhs.as_int(), false)),
    {
        self.div(Overflowing { value: rhs, has_overflowed: false })
    }

    /// Overflow-recording remainder. The remainder itself is always
    /// representable; the most negative value with divisor minus one gives
    /// zero and sets the flag.
    pub fn rem(self, rhs: Self) -> (r: Self)
        requires
            rhs@.0 != 0,
        ensures
            r@ == spec_rem::<T>(self@, rhs@),
    {
        proof {
            lemma_div_rem_trunc_forms(self@.0, rhs@.0);
        }
        match self.value.checked_rem(rhs.value) {
            Some(v) => Overflowing {
                value: v,
                has_overflowed: self.has_overflowed || rhs.has_overflowed,
            },
            None => Overflowing { value: T::zero(), has_overflowed: true },
        }
    }

    /// Overflow-recording remainder by a bare integer.
    pub fn rem_num(self, rhs: T) -> (r: Self)
        requires
            rhs.as_int() != 0,
        ensures
            r@ == spec_rem::<T>(self@, (rhs.as_int(), false)),
    {
        self.rem(Overflowing { value: rhs, has_overflowed: false })
    }

    /// Overflow-recording Euclidean division, with the same single
    /// overflowing pair as the truncating form.
    pub fn div_euclid(self, rhs: Self) -> (r: Self)
        requires
            rhs@.0 != 0,
        ensures
            r@ == spec_div_euclid::<T>(self@, rhs@),
    {
        proof {
            T::range_properties();
            self.value.in_bounds();
            rhs.value.in_bounds();
            lemma_div_euclid_edge(self@.0, rhs@.0, T::min_int(), T::max_int());
            lemma_wrap_near::<T>(self@.0 / rhs@.0);
        }
        match self.value.checked_div_euclid(rhs.value) {
            Some(v) => Overflowing {
                value: v,
                has_overflowed: self.has_overflowed || rhs.has_overflowed,
            },
            None => Overflowing { value: T::min_value(), has_overflowed: true },
        }
    }

    /// Overflow-recording Euclidean remainder: always representable, zero
    /// with a set flag for the one overflowing pair.
    pub fn rem_euclid(self, rhs: Self) -> (r: Self)
        requires
            rhs@.0 != 0,
        ensures
            r@ == spec_rem_euclid::<T>(self@, rhs@),
    {
        proof {
            lemma_mod_bound_any(self@.0, rhs@.0);
        }
        match self.value.checked_rem_euclid(rhs.value) {
            Some(v) => Overflowing {
                value: v,
                has_overflowed: self.has_overflowed || rhs.has_overflowed,
            },
            None => Overflowing { value: T::zero(), has_overflowed: true },
        }
    }

    /// Overflow-recording exponentiation: the wrapped power, with the flag
    /// set when the mathematical power is not representable.
    pub fn pow(self, exp: u32) -> (r: Self)
        ensures
            r@.0 == wrap::<T>(pow(self@.0, exp as nat)),
            r@.1 == (self@.1 || !in_range::<T>(pow(self@.0, exp as nat))),
    {
        let (value, ovf) = pow_overflowing(self.value, exp);
        Overflowing { value, has_overflowed: self.has_overflowed || ovf }
    }

    /// Left shift by the value of another overflowing integer, which must
    /// fit in `u32`. The amount is reduced modulo the bit width; an amount
    /// at least the bit width sets the flag.
    pub fn shl<U: Integral>(self, rhs: Overflowing<U>) -> (r: Self)
        requires
            0 <= rhs@.0 <= u32::MAX,
        ensures
            r.value == self.value.shl_spec(rhs@.0 as u32),
            r.has_overflowed == (self.has_overflowed || rhs.has_overflowed || rhs@.0
                >= T::bits()),
    {
        proof {
            T::range_properties();
        }
        let k = rhs.value.as_shift().unwrap();
        let ovf = k >= T::bit_count();
        Overflowing {
            value: self.value.wrapping_shl(k),
            has_overflowed: self.has_overflowed || rhs.has_overflowed || ovf,
        }
    }

    /// Left shift by a bare integer amount, which contributes no flag of
    /// its own.
    pub fn shl_num<U: Integral>(self, rhs: U) -> (r: Self)
        requires
            0 <= rhs.as_int() <= u32::MAX,
        ensures
            r.value == self.value.shl_spec(rhs.as_int() as u32),
            r.has_overflowed == (self.has_overflowed || rhs.as_int() >= T::bits()),
    {
        self.shl(Overflowing { value: rhs, has_overflowed: false })
    }

    /// Right shift by the value of another overflowing integer, under the
    /// same conditions as the left shift.
    pub fn shr<U: Integral>(self, rhs: Overflowing<U>) -> (r: Self)
        requires
            0 <= rhs@.0 <= u32::MAX,
        ensures
            r.value == self.value.shr_spec(rhs@.0 as u32),
            r.has_overflowed == (self.has_overflowed || rhs.has_overflowed || rhs@.0
                >= T::bits()),
    {
        proof {
            T::range_properties();
        }
        let k = rhs.value.as_shift().unwrap();
        let ovf = k >= T::bit_count();
        Overflowing {
            value: self.value.wrapping_shr(k),
            has_overflowed: self.has_overflowed || rhs.has_overflowed || ovf,
        }
    }

    /// Right shift by a bare integer amount, which contributes no flag of
    /// its own.
    pub fn shr_num<U: Integral>(self, rhs: U) -> (r: Self)
        requires
            0 <= rhs.as_int() <= u32::MAX,
        ensures
            r.value == self.value.shr_spec(rhs.as_int() as u32),
            r.has_overflowed == (self.has_overflowed || rhs.as_int() >= T::bits()),
    {
        self.shr(Overflowing { value: rhs, has_overflowed: false })
    }

    /// In-place overflow-recording addition.
    pub fn add_assign(&mut self, rhs: Self)
        ensures
            final (self)@ == spec_add::<T>(old(self)@, rhs@),
    {
        *self = (*self).add(rhs);
    }

    /// In-place overflow-recording subtraction.
    pub fn sub_assign(&mut self, rhs: Self)
        ensures
            final (self)@ == spec_sub::<T>(old(self)@, rhs@),
    {
        *self = (*self).sub(rhs);
    }

    /// In-place overflow-recording multiplication.
    pub fn mul_assign(&mut self, rhs: Self)
        ensures
            final (self)@ == spec_mul::<T>(old(self)@, rhs@),
    {
        *self = (*self).mul(rhs);
    }

    /// In-place overflow-recording division.
    pub fn div_assign(&mut self, rhs: Self)
        requires
            rhs@.0 != 0,
        ensures
            final (self)@ == spec_div::<T>(old(self)@, rhs@),
    {
        *self = (*self).div(rhs);
    }

    /// In-place overflow-recording remainder.
    pub fn rem_assign(&mut self, rhs: Self)
        requires
            rhs@.0 != 0,
        ensures
            final (self)@ == spec_rem::<T>(old(self)@, rhs@),
    {
        *self = (*self).rem(rhs);
    }

    /// Equality of the contained value against a bare integer; the flag
    /// takes no part in the comparison.
    pub fn eq_num(&self, other: &T) -> (r: bool)
        ensures
            r == (self@.0 == other.as_int()),
    {
        self.value.eq_value(*other)
    }

    /// Ordering of the contained value against a bare integer; the flag
    /// takes no part in the comparison.
    pub fn cmp_num(&self, other: &T) -> (r: core::cmp::Ordering)
        ensures
            r == (if self@.0 < other.as_int() {
                core::cmp::Ordering::Less
            } else if self@.0 == other.as_int() {
                core::cmp::Ordering::Equal
            } else {
                core::cmp::Ordering::Greater
            }),
    {
        self.value.cmp_value(*other)
    }

    /// Borrows the contained integer.
    pub fn as_ref(&self) -> (r: &T)
        ensures
            r.as_int() == self@.0,
    {
        &self.value
    }

    /// Mutably borrows the contained integer: writes through the borrow
    /// become the new contained value; the flag is untouched.
    pub fn as_mut(&mut self) -> (r: &mut T)
        ensures
            *r == old(self).value,
            final (self).value == *final (r),
            final (self).has_overflowed == old(self).has_overflowed,
    {
        &mut self.value
    }
}

impl<T: SignedIntegral> Overflowing<T> {
    /// Overflow-recording negation. Only the most negative value
    /// overflows, wrapping back to itself.
    pub fn neg(self) -> (r: Self)
        ensures
            r@ == spec_neg::<T>(self@),
    {
        let value = T::zero().wrapping_sub(self.value);
        let ovf = T::zero().checked_sub(self.value).is_none();
        Overflowing { value, has_overflowed: self.has_overflowed || ovf }
    }

    /// Overflow-recording absolute value. Only the most negative value
    /// overflows, wrapping back to itself.
    pub fn abs(self) -> (r: Self)
        ensures
            r@ == spec_abs::<T>(self@),
    {
        if self.value.is_neg() {
            let value = T::zero().wrapping_sub(self.value);
            let ovf = T::zero().checked_sub(self.value).is_none();
            Overflowing { value, has_overflowed: self.has_overflowed || ovf }
        } else {
            proof {
                self.value.in_bounds();
                lemma_wrap_near::<T>(self@.0);
            }
            Overflowing { value: self.value, has_overflowed: self.has_overflowed }
        }
    }
}

} // verus!
