//! Arithmetic that clamps every result to the edge of the representable
//! range in the direction of overflow.

use vstd::prelude::*;

use vstd::arithmetic::power::pow;

use crate::arith::clamp;
use crate::integral::Integral;
use crate::pow::pow_saturating;

verus! {

/** Marks an integer for saturating-overflow arithmetic.

When an operation would exceed the representable range in either direction,
the result is clamped to the edge of the range in the direction of overflow.
Once pinned at an edge, further arithmetic in the same direction keeps the
value there; arithmetic in the other direction starts again from the edge
value, so intermediate magnitudes beyond the edge are lost.

This policy intentionally offers only addition, subtraction, multiplication
and exponentiation: division and shifts have no saturation semantic.
**/
#[derive(Clone, Copy, Debug, Default, Eq, Hash, PartialEq, PartialOrd, Ord)]
pub struct Saturating<T: Integral> {
    /// The contained integer.
    pub value: T,
}

impl<T: Integral> View for Saturating<T> {
    type V = int;

    open spec fn view(&self) -> int {
        self.value.as_int()
    }
}

impl<T: Integral> Saturating<T> {
    /// Wraps a bare integer.
    pub fn new(num: T) -> (r: Self)
        ensures
            r@ == num.as_int(),
    {
        Saturating { value: num }
    }

    /// Saturating addition of two saturating integers.
    pub fn add(self, rhs: Self) -> (r: Self)
        ensures
            r@ == clamp::<T>(self@ + rhs@),
    {
        match self.value.checked_add(rhs.value) {
            Some(v) => Saturating { value: v },
            None => {
                proof {
                    self.value.in_bounds();
                    rhs.value.in_bounds();
                }
                if rhs.value.is_neg() {
                    Saturating { value: T::min_value() }
                } else {
                    Saturating { value: T::max_value() }
                }
            },
        }
    }

    /// Saturating subtraction of two saturating integers.
    pub fn sub(self, rhs: Self) -> (r: Self)
        ensures
            r@ == clamp::<T>(self@ - rhs@),
    {
        match self.value.checked_sub(rhs.value) {
            Some(v) => Saturating { value: v },
            None => {
                proof {
                    self.value.in_bounds();
                    rhs.value.in_bounds();
                }
                if rhs.value.is_neg() {
                    Saturating { value: T::max_value() }
                } else {
                    Saturating { value: T::min_value() }
                }
            },
        }
    }

    /// Saturating addition of a saturating integer and a bare integer.
    pub fn add_num(self, rhs: T) -> (r: Self)
        ensures
            r@ == clamp::<T>(self@ + rhs.as_int()),
    {
        self.add(Saturating { value: rhs })
    }

    /// Saturating subtraction of a bare integer from a saturating integer.
    pub fn sub_num(self, rhs: T) -> (r: Self)
        ensures
            r@ == clamp::<T>(self@ - rhs.as_int()),
    {
        self.sub(Saturating { value: rhs })
    }

    /// Saturating multiplication of two saturating integers.
    pub fn mul(self, rhs: Self) -> (r: Self)
        ensures
            r@ == clamp::<T>(self@ * rhs@),
    {
        match self.value.checked_mul(rhs.value) {
            Some(v) => Saturating { value: v },
            None => {
                proof {
                    T::range_properties();
                    self.value.in_bounds();
                    rhs.value.in_bounds();
                    if (self@ < 0) != (rhs@ < 0) {
                        assert(self@ * rhs@ <= 0) by (nonlinear_arith)
                            requires
                                (self@ < 0) != (rhs@ < 0),
                        ;
                    } else {
                        assert(self@ * rhs@ >= 0) by (nonlinear_arith)
                            requires
                                (self@ < 0) == (rhs@ < 0),
                        ;
                    }
                }
                if self.value.is_neg() != rhs.value.is_neg() {
                    Saturating { value: T::min_value() }
                } else {
                    Saturating { value: T::max_value() }
                }
            },
        }
    }

    /// Saturating multiplication of a saturating integer and a bare
    /// integer.
    pub fn mul_num(self, rhs: T) -> (r: Self)
        ensures
            r@ == clamp::<T>(self@ * rhs.as_int()),
    {
        self.mul(Saturating { value: rhs })
    }

    /// Saturating exponentiation: the mathematical power, clamped to the
    /// edge of the range in the direction of overflow.
    pub fn saturating_pow(self, exp: u32) -> (r: Self)
        ensures
            r@ == clamp::<T>(pow(self@, exp as nat)),
    {
        Saturating { value: pow_saturating(self.value, exp) }
    }

    /// In-place saturating addition.
    pub fn add_assign(&mut self, rhs: Self)
        ensures
            final (self)@ == clamp::<T>(old(self)@ + rhs@),
    {
        *self = (*self).add(rhs);
    }

    /// In-place saturating subtraction.
    pub fn sub_assign(&mut self, rhs: Self)
        ensures
            final (self)@ == clamp::<T>(old(self)@ - rhs@),
    {
        *self = (*self).sub(rhs);
    }

    /// In-place saturating multiplication.
    pub fn mul_assign(&mut self, rhs: Self)
        ensures
            final (self)@ == clamp::<T>(old(self)@ * rhs@),
    {
        *self = (*self).mul(rhs);
    }

    /// Equality against a bare integer, without unwrapping first.
    pub fn eq_num(&self, other: &T) -> (r: bool)
        ensures
            r == (self@ == other.as_int()),
    {
        self.value.eq_value(*other)
    }

    /// Ordering against a bare integer, without unwrapping first.
    pub fn cmp_num(&self, other: &T) -> (r: core::cmp::Ordering)
        ensures
            r == (if self@ < other.as_int() {
                core::cmp::Ordering::Less
            } else if self@ == other.as_int() {
                core::cmp::Ordering::Equal
            } else {
                core::cmp::Ordering::Greater
            }),
    {
        self.value.cmp_value(*other)
    }

    /// Borrows the contained integer.
    pub fn as_ref(&self) -> (r: &T)
        ensures
            r.as_int() == self@,
    {
        &self.value
    }

    /// Mutably borrows the contained integer: writes through the borrow
    /// become the new contained value.
    pub fn as_mut(&mut self) -> (r: &mut T)
        ensures
            *r == old(self).value,
            final (self).value == *final (r),
    {
        &mut self.value
    }
}

} // verus!
