//! Arithmetic that reduces every result modulo the size of the type.

use vstd::prelude::*;

use vstd::arithmetic::power::pow;

use crate::arith::{
    div_trunc, iabs, lemma_div_euclid_edge, lemma_div_rem_trunc_forms, lemma_div_trunc_edge,
    lemma_mod_bound_any, lemma_wrap_near, rem_trunc, wrap,
};
use crate::integral::{Integral, SignedIntegral};
use crate::pow::pow_wrapping;

verus! {

/** Marks an integer for wrapping-overflow arithmetic.

Every operation reduces its mathematical result into the representable range
by discarding the bits that do not fit (two's-complement truncation). There
is no failure path except division by zero, which remains fatal and is
excluded by precondition, and a shift amount too large for `u32`, which is
excluded the same way.
**/
#[derive(Clone, Copy, Debug, Default, Eq, Hash, PartialEq, PartialOrd, Ord)]
pub struct Wrapping<T: Integral> {
    /// The contained integer.
    pub value: T,
}

impl<T: Integral> View for Wrapping<T> {
    type V = int;

    open spec fn view(&self) -> int {
        self.value.as_int()
    }
}

impl<T: Integral> Wrapping<T> {
    /// Wraps a bare integer.
    pub fn new(num: T) -> (r: Self)
        ensures
            r@ == num.as_int(),
    {
        Wrapping { value: num }
    }

    /// Modular addition of two wrapping integers.
    pub fn add(self, rhs: Self) -> (r: Self)
        ensures
            r@ == wrap::<T>(self@ + rhs@),
    {
        Wrapping { value: self.value.wrapping_add(rhs.value) }
    }

    /// Modular addition of a wrapping integer and a bare integer.
    pub fn add_num(self, rhs: T) -> (r: Self)
        ensures
            r@ == wrap::<T>(self@ + rhs.as_int()),
    {
        Wrapping { value: self.value.wrapping_add(rhs) }
    }

    /// Modular subtraction of two wrapping integers.
    pub fn sub(self, rhs: Self) -> (r: Self)
        ensures
            r@ == wrap::<T>(self@ - rhs@),
    {
        Wrapping { value: self.value.wrapping_sub(rhs.value) }
    }

    /// Modular subtraction of a bare integer from a wrapping integer.
    pub fn sub_num(self, rhs: T) -> (r: Self)
        ensures
            r@ == wrap::<T>(self@ - rhs.as_int()),
    {
        Wrapping { value: self.value.wrapping_sub(rhs) }
    }

    /// Modular multiplication of two wrapping integers.
    pub fn mul(self, rhs: Self) -> (r: Self)
        ensures
            r@ == wrap::<T>(self@ * rhs@),
    {
        Wrapping { value: self.value.wrapping_mul(rhs.value) }
    }

    /// Modular multiplication of a wrapping integer and a bare integer.
    pub fn mul_num(self, rhs: T) -> (r: Self)
        ensures
            r@ == wrap::<T>(self@ * rhs.as_int()),
    {
        Wrapping { value: self.value.wrapping_mul(rhs) }
    }

    /// Wrapping division. The quotient escapes the range only for the most
    /// negative value divided by minus one, which wraps back to itself.
    pub fn div(self, rhs: Self) -> (r: Self)
        requires
            rhs@ != 0,
        ensures
            r@ == wrap::<T>(div_trunc(self@, rhs@)),
    {
        proof {
            T::range_properties();
            self.value.in_bounds();
            rhs.value.in_bounds();
            lemma_div_trunc_edge(self@, rhs@, T::min_int(), T::max_int());
            lemma_wrap_near::<T>(div_trunc(self@, rhs@));
        }
        match self.value.checked_div(rhs.value) {
            Some(v) => Wrapping { value: v },
            None => Wrapping { value: T::min_value() },
        }
    }

    /// Wrapping division by a bare integer.
    pub fn div_num(self, rhs: T) -> (r: Self)
        requires
            rhs.as_int() != 0,
        ensures
            r@ == wrap::<T>(div_trunc(self@, rhs.as_int())),
    {
        self.div(Wrapping { value: rhs })
    }

    /// Wrapping remainder. The result is always representable; for the most
    /// negative value and divisor minus one it is zero.
    pub fn rem(self, rhs: Self) -> (r: Self)
        requires
            rhs@ != 0,
        ensures
            r@ == rem_trunc(self@, rhs@),
    {
        proof {
            lemma_div_rem_trunc_forms(self@, rhs@);
        }
        match self.value.checked_rem(rhs.value) {
            Some(v) => Wrapping { value: v },
            None => Wrapping { value: T::zero() },
        }
    }

    /// Wrapping remainder by a bare integer.
    pub fn rem_num(self, rhs: T) -> (r: Self)
        requires
            rhs.as_int() != 0,
        ensures
            r@ == rem_trunc(self@, rhs.as_int()),
    {
        self.rem(Wrapping { value: rhs })
    }

    /// Wrapping Euclidean division: the quotient is rounded so that the
    /// remainder is non-negative. It escapes the range only for the most
    /// negative value divided by minus one, which wraps back to itself.
    pub fn div_euclid(self, rhs: Self) -> (r: Self)
        requires
            rhs@ != 0,
        ensures
            r@ == wrap::<T>(self@ / rhs@),
    {
        proof {
            T::range_properties();
            self.value.in_bounds();
            rhs.value.in_bounds();
            lemma_div_euclid_edge(self@, rhs@, T::min_int(), T::max_int());
            lemma_wrap_near::<T>(self@ / rhs@);
        }
        match self.value.checked_div_euclid(rhs.value) {
            Some(v) => Wrapping { value: v },
            None => Wrapping { value: T::min_value() },
        }
    }

    /// Wrapping Euclidean remainder: always non-negative, and always
    /// representable.
    pub fn rem_euclid(self, rhs: Self) -> (r: Self)
        requires
            rhs@ != 0,
        ensures
            r@ == self@ % rhs@,
    {
        proof {
            lemma_mod_bound_any(self@, rhs@);
        }
        match self.value.checked_rem_euclid(rhs.value) {
            Some(v) => Wrapping { value: v },
            None => Wrapping { value: T::zero() },
        }
    }

    /// Wrapping exponentiation: the mathematical power, reduced into the
    /// representable range.
    pub fn pow(self, exp: u32) -> (r: Self)
        ensures
            r@ == wrap::<T>(pow(self@, exp as nat)),
    {
        Wrapping { value: pow_wrapping(self.value, exp) }
    }

    /// Left shift by the value of another wrapping integer, which must fit
    /// in `u32`; the amount is then reduced modulo the bit width.
    pub fn shl<U: Integral>(self, rhs: Wrapping<U>) -> (r: Self)
        requires
            0 <= rhs@ <= u32::MAX,
        ensures
            r.value == self.value.shl_spec(rhs@ as u32),
    {
        let k = rhs.value.as_shift().unwrap();
        Wrapping { value: self.value.wrapping_shl(k) }
    }

    /// Left shift by a bare integer amount, which must fit in `u32`.
    pub fn shl_num<U: Integral>(self, rhs: U) -> (r: Self)
        requires
            0 <= rhs.as_int() <= u32::MAX,
        ensures
            r.value == self.value.shl_spec(rhs.as_int() as u32),
    {
        let k = rhs.as_shift().unwrap();
        Wrapping { value: self.value.wrapping_shl(k) }
    }

    /// Right shift by the value of another wrapping integer, which must fit
    /// in `u32`; the amount is then reduced modulo the bit width.
    pub fn shr<U: Integral>(self, rhs: Wrapping<U>) -> (r: Self)
        requires
            0 <= rhs@ <= u32::MAX,
        ensures
            r.value == self.value.shr_spec(rhs@ as u32),
    {
        let k = rhs.value.as_shift().unwrap();
        Wrapping { value: self.value.wrapping_shr(k) }
    }

    /// Right shift by a bare integer amount, which must fit in `u32`.
    pub fn shr_num<U: Integral>(self, rhs: U) -> (r: Self)
        requires
            0 <= rhs.as_int() <= u32::MAX,
        ensures
            r.value == self.value.shr_spec(rhs.as_int() as u32),
    {
        let k = rhs.as_shift().unwrap();
        Wrapping { value: self.value.wrapping_shr(k) }
    }

    /// In-place modular addition.
    pub fn add_assign(&mut self, rhs: Self)
        ensures
            final(self)@ == wrap::<T>(old(self)@ + rhs@),
    {
        *self = (*self).add(rhs);
    }

    /// In-place modular subtraction.
    pub fn sub_assign(&mut self, rhs: Self)
        ensures
            final(self)@ == wrap::<T>(old(self)@ - rhs@),
    {
        *self = (*self).sub(rhs);
    }

    /// In-place modular multiplication.
    pub fn mul_assign(&mut self, rhs: Self)
        ensures
            final(self)@ == wrap::<T>(old(self)@ * rhs@),
    {
        *self = (*self).mul(rhs);
    }

    /// In-place wrapping division.
    pub fn div_assign(&mut self, rhs: Self)
        requires
            rhs@ != 0,
        ensures
            final(self)@ == wrap::<T>(div_trunc(old(self)@, rhs@)),
    {
        *self = (*self).div(rhs);
    }

    /// In-place wrapping remainder.
    pub fn rem_assign(&mut self, rhs: Self)
        requires
            rhs@ != 0,
        ensures
            final(self)@ == rem_trunc(old(self)@, rhs@),
    {
        *self = (*self).rem(rhs);
    }

    /// Equality against a bare integer, without unwrapping first.
    pub fn eq_num(&self, other: &T) -> (r: bool)
        ensures
            r == (self@ == other.as_int()),
    {
        self.value.eq_value(*other)
    }

    /// Ordering against a bare integer, without unwrapping first.
    pub fn cmp_num(&self, other: &T) -> (r: core::cmp::Ordering)
        ensures
            r == (if self@ < other.as_int() {
                core::cmp::Ordering::Less
            } else if self@ == other.as_int() {
                core::cmp::Ordering::Equal
            } else {
                core::cmp::Ordering::Greater
            }),
    {
        self.value.cmp_value(*other)
    }

    /// Borrows the contained integer.
    pub fn as_ref(&self) -> (r: &T)
        ensures
            r.as_int() == self@,
    {
        &self.value
    }

    /// Mutably borrows the contained integer: writes through the borrow
    /// become the new contained value.
    pub fn as_mut(&mut self) -> (r: &mut T)
        ensures
            *r == old(self).value,
            final (self).value == *final (r),
    {
        &mut self.value
    }
}

impl<T: SignedIntegral> Wrapping<T> {
    /// Wrapping negation. Only the most negative value wraps, back to
    /// itself.
    pub fn neg(self) -> (r: Self)
        ensures
            r@ == wrap::<T>(-self@),
    {
        Wrapping { value: T::zero().wrapping_sub(self.value) }
    }

    /// Wrapping absolute value. Only the most negative value wraps, back to
    /// itself.
    pub fn abs(self) -> (r: Self)
        ensures
            r@ == wrap::<T>(iabs(self@)),
    {
        if self.value.is_neg() {
            Wrapping { value: T::zero().wrapping_sub(self.value) }
        } else {
            proof {
                self.value.in_bounds();
                lemma_wrap_near::<T>(self@);
            }
            Wrapping { value: self.value }
        }
    }
}

} // verus!
