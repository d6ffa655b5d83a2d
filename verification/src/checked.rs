//! Arithmetic that detects overflow and converts the value into an absent
//! state, which absorbs all further arithmetic until explicitly reset.

use vstd::prelude::*;

use vstd::arithmetic::power::pow;

use crate::arith::{div_trunc, iabs, in_range, rem_trunc};
use crate::integral::{Integral, SignedIntegral};
use crate::pow::pow_checked;

verus! {

/** Marks an integer for checked-overflow arithmetic.

The value is present while no arithmetic has overflowed. Once an operation
overflows, the value becomes absent, and every further arithmetic operation
on it yields an absent value, until the value is reset through one of the
explicit replacement operations.

Division and remainder by zero are treated as overflow: they yield an absent
value rather than failing, in both the truncating and the Euclidean form.

This type offers an interface like that of an optional value in addition to
its arithmetic.
**/
#[derive(Clone, Copy, Debug, Default, Eq, Hash, PartialEq, PartialOrd, Ord)]
pub struct Checked<T: Integral> {
    /// The contained integer.
    ///
    /// This is `Some` while the value has not yet overflowed an arithmetic
    /// operation. Once an overflow occurs, this is `None` until explicitly
    /// reset to a fresh value.
    pub value: Option<T>,
}

impl<T: Integral> View for Checked<T> {
    type V = Option<int>;

    open spec fn view(&self) -> Option<int> {
        match self.value {
            Some(v) => Some(v.as_int()),
            None => None,
        }
    }
}

/// The sum of two maybe-absent values: absent when either operand is absent
/// or the mathematical sum is not representable.
pub open spec fn spec_add<T: Integral>(a: Option<int>, b: Option<int>) -> Option<int> {
    match (a, b) {
        (Some(x), Some(y)) => if in_range::<T>(x + y) {
            Some(x + y)
        } else {
            None
        },
        _ => None,
    }
}

/// The difference of two maybe-absent values, absent on overflow.
pub open spec fn spec_sub<T: Integral>(a: Option<int>, b: Option<int>) -> Option<int> {
    match (a, b) {
        (Some(x), Some(y)) => if in_range::<T>(x - y) {
            Some(x - y)
        } else {
            None
        },
        _ => None,
    }
}

/// The product of two maybe-absent values, absent on overflow.
pub open spec fn spec_mul<T: Integral>(a: Option<int>, b: Option<int>) -> Option<int> {
    match (a, b) {
        (Some(x), Some(y)) => if in_range::<T>(x * y) {
            Some(x * y)
        } else {
            None
        },
        _ => None,
    }
}

/// The truncating quotient of two maybe-absent values: absent for an absent
/// operand, a zero divisor, or overflow.
pub open spec fn spec_div<T: Integral>(a: Option<int>, b: Option<int>) -> Option<int> {
    match (a, b) {
        (Some(x), Some(y)) => if y != 0 && in_range::<T>(div_trunc(x, y)) {
            Some(div_trunc(x, y))
        } else {
            None
        },
        _ => None,
    }
}

/// The truncating remainder of two maybe-absent values: absent for an
/// absent operand, a zero divisor, or the one overflowing pair.
pub open spec fn spec_rem<T: Integral>(a: Option<int>, b: Option<int>) -> Option<int> {
    match (a, b) {
        (Some(x), Some(y)) => if y != 0 && !(x == T::min_int() && y == -1) {
            Some(rem_trunc(x, y))
        } else {
            None
        },
        _ => None,
    }
}

/// The Euclidean quotient of two maybe-absent values: absent for an absent
/// operand, a zero divisor, or overflow.
pub open spec fn spec_div_euclid<T: Integral>(a: Option<int>, b: Option<int>) -> Option<int> {
    match (a, b) {
        (Some(x), Some(y)) => if y != 0 && in_range::<T>(x / y) {
            Some(x / y)
        } else {
            None
        },
        _ => None,
    }
}

/// The Euclidean remainder of two maybe-absent values: absent for an absent
/// operand, a zero divisor, or the one overflowing pair.
pub open spec fn spec_rem_euclid<T: Integral>(a: Option<int>, b: Option<int>) -> Option<int> {
    match (a, b) {
        (Some(x), Some(y)) => if y != 0 && !(x == T::min_int() && y == -1) {
            Some(x % y)
        } else {
            None
        },
        _ => None,
    }
}

/// The negation of a maybe-absent value, absent on overflow.
pub open spec fn spec_neg<T: Integral>(a: Option<int>) -> Option<int> {
    match a {
        Some(x) => if in_range::<T>(-x) {
            Some(-x)
        } else {
            None
        },
        None => None,
    }
}

/// The absolute value of a maybe-absent value, absent on overflow.
pub open spec fn spec_abs<T: Integral>(a: Option<int>) -> Option<int> {
    match a {
        Some(x) => if in_range::<T>(iabs(x)) {
            Some(iabs(x))
        } else {
            None
        },
        None => None,
    }
}

/// The power of a maybe-absent value, absent on overflow.
pub open spec fn spec_pow<T: Integral>(a: Option<int>, e: nat) -> Option<int> {
    match a {
        Some(x) => if in_range::<T>(pow(x, e)) {
            Some(pow(x, e))
        } else {
            None
        },
        None => None,
    }
}

impl<T: Integral> Checked<T> {
    /// Wraps a bare integer; the value starts out present.
    pub fn new(num: T) -> (r: Self)
        ensures
            r@ == Some(num.as_int()),
    {
        Checked { value: Some(num) }
    }

    /// The absent value.
    pub fn absent() -> (r: Self)
        ensures
            r@ is None,
    {
        Checked { value: None }
    }

    /// Wraps a maybe-absent integer.
    pub fn from_opt(value: Option<T>) -> (r: Self)
        ensures
            value matches Some(v) ==> r@ == Some(v.as_int()),
            value is None ==> r@ is None,
    {
        Checked { value }
    }

    /// Checked addition of two checked integers.
    pub fn add(self, rhs: Self) -> (r: Self)
        ensures
            r@ == spec_add::<T>(self@, rhs@),
    {
        match (self.value, rhs.value) {
            (Some(a), Some(b)) => Checked { value: a.checked_add(b) },
            _ => Checked { value: None },
        }
    }

    /// Checked addition of a checked integer and a bare integer.
    pub fn add_num(self, rhs: T) -> (r: Self)
        ensures
            r@ == spec_add::<T>(self@, Some(rhs.as_int())),
    {
        match self.value {
            Some(a) => Checked { value: a.checked_add(rhs) },
            None => Checked { value: None },
        }
    }

    /// Checked subtraction of two checked integers.
    pub fn sub(self, rhs: Self) -> (r: Self)
        ensures
            r@ == spec_sub::<T>(self@, rhs@),
    {
        match (self.value, rhs.value) {
            (Some(a), Some(b)) => Checked { value: a.checked_sub(b) },
            _ => Checked { value: None },
        }
    }

    /// Checked subtraction of a bare integer from a checked integer.
    pub fn sub_num(self, rhs: T) -> (r: Self)
        ensures
            r@ == spec_sub::<T>(self@, Some(rhs.as_int())),
    {
        match self.value {
            Some(a) => Checked { value: a.checked_sub(rhs) },
            None => Checked { value: None },
        }
    }

    /// Checked multiplication of two checked integers.
    pub fn mul(self, rhs: Self) -> (r: Self)
        ensures
            r@ == spec_mul::<T>(self@, rhs@),
    {
        match (self.value, rhs.value) {
            (Some(a), Some(b)) => Checked { value: a.checked_mul(b) },
            _ => Checked { value: None },
        }
    }

    /// Checked multiplication of a checked integer and a bare integer.
    pub fn mul_num(self, rhs: T) -> (r: Self)
        ensures
            r@ == spec_mul::<T>(self@, Some(rhs.as_int())),
    {
        match self.value {
            Some(a) => Checked { value: a.checked_mul(rhs) },
            None => Checked { value: None },
        }
    }

    /// Checked division. A zero divisor yields an absent value, not a
    /// failure.
    pub fn div(self, rhs: Self) -> (r: Self)
        ensures
            r@ == spec_div::<T>(self@, rhs@),
    {
        match (self.value, rhs.value) {
            (Some(a), Some(b)) => Checked { value: a.checked_div(b) },
            _ => Checked { value: None },
        }
    }

    /// Checked division by a bare integer.
    pub fn div_num(self, rhs: T) -> (r: Self)
        ensures
            r@ == spec_div::<T>(self@, Some(rhs.as_int())),
    {
        match self.value {
            Some(a) => Checked { value: a.checked_div(rhs) },
            None => Checked { value: None },
        }
    }

    /// Checked remainder. A zero divisor yields an absent value, not a
    /// failure.
    pub fn rem(self, rhs: Self) -> (r: Self)
        ensures
            r@ == spec_rem::<T>(self@, rhs@),
    {
        match (self.value, rhs.value) {
            (Some(a), Some(b)) => Checked { value: a.checked_rem(b) },
            _ => Checked { value: None },
        }
    }

    /// Checked remainder by a bare integer.
    pub fn rem_num(self, rhs: T) -> (r: Self)
        ensures
            r@ == spec_rem::<T>(self@, Some(rhs.as_int())),
    {
        match self.value {
            Some(a) => Checked { value: a.checked_rem(rhs) },
            None => Checked { value: None },
        }
    }

    /// Checked Euclidean division. A zero divisor yields an absent value,
    /// exactly as the truncating form does.
    pub fn div_euclid(self, rhs: Self) -> (r: Self)
        ensures
            r@ == spec_div_euclid::<T>(self@, rhs@),
    {
        match (self.value, rhs.value) {
            (Some(a), Some(b)) => Checked { value: a.checked_div_euclid(b) },
            _ => Checked { value: None },
        }
    }

    /// Checked Euclidean remainder. A zero divisor yields an absent value,
    /// exactly as the truncating form does.
    pub fn rem_euclid(self, rhs: Self) -> (r: Self)
        ensures
            r@ == spec_rem_euclid::<T>(self@, rhs@),
    {
        match (self.value, rhs.value) {
            (Some(a), Some(b)) => Checked { value: a.checked_rem_euclid(b) },
            _ => Checked { value: None },
        }
    }

    /// Checked exponentiation: absent when the mathematical power is not
    /// representable.
    pub fn pow(self, exp: u32) -> (r: Self)
        ensures
            r@ == spec_pow::<T>(self@, exp as nat),
    {
        match self.value {
            Some(v) => Checked { value: pow_checked(v, exp) },
            None => Checked { value: None },
        }
    }

    /// Checked left shift by the value of another checked integer. An
    /// absent amount, an amount that does not fit in `u32`, and an amount at
    /// least the bit width all yield an absent value.
    pub fn shl<U: Integral>(self, rhs: Checked<U>) -> (r: Checked<T>)
        ensures
            (match (self.value, rhs.value) {
                (Some(a), Some(kv)) => {
                    if 0 <= kv.as_int() < T::bits() {
                        r.value == Some(a.shl_spec(kv.as_int() as u32))
                    } else {
                        r.value is None
                    }
                },
                _ => r.value is None,
            }),
    {
        proof {
            T::range_properties();
        }
        match (self.value, rhs.value) {
            (Some(a), Some(kv)) => match kv.as_shift() {
                Some(k) => if k < T::bit_count() {
                    Checked { value: Some(a.wrapping_shl(k)) }
                } else {
                    Checked { value: None }
                },
                None => Checked { value: None },
            },
            _ => Checked { value: None },
        }
    }

    /// Checked left shift by a bare integer amount.
    pub fn shl_num<U: Integral>(self, rhs: U) -> (r: Checked<T>)
        ensures
            (match self.value {
                Some(a) => {
                    if 0 <= rhs.as_int() < T::bits() {
                        r.value == Some(a.shl_spec(rhs.as_int() as u32))
                    } else {
                        r.value is None
                    }
                },
                None => r.value is None,
            }),
    {
        self.shl(Checked { value: Some(rhs) })
    }

    /// Checked right shift by the value of another checked integer, under
    /// the same conditions as the left shift.
    pub fn shr<U: Integral>(self, rhs: Checked<U>) -> (r: Checked<T>)
        ensures
            (match (self.value, rhs.value) {
                (Some(a), Some(kv)) => {
                    if 0 <= kv.as_int() < T::bits() {
                        r.value == Some(a.shr_spec(kv.as_int() as u32))
                    } else {
                        r.value is None
                    }
                },
                _ => r.value is None,
            }),
    {
        proof {
            T::range_properties();
        }
        match (self.value, rhs.value) {
            (Some(a), Some(kv)) => match kv.as_shift() {
                Some(k) => if k < T::bit_count() {
                    Checked { value: Some(a.wrapping_shr(k)) }
                } else {
                    Checked { value: None }
                },
                None => Checked { value: None },
            },
            _ => Checked { value: None },
        }
    }

    /// Checked right shift by a bare integer amount.
    pub fn shr_num<U: Integral>(self, rhs: U) -> (r: Checked<T>)
        ensures
            (match self.value {
                Some(a) => {
                    if 0 <= rhs.as_int() < T::bits() {
                        r.value == Some(a.shr_spec(rhs.as_int() as u32))
                    } else {
                        r.value is None
                    }
                },
                None => r.value is None,
            }),
    {
        self.shr(Checked { value: Some(rhs) })
    }

    /// In-place checked addition.
    pub fn add_assign(&mut self, rhs: Self)
        ensures
            final (self)@ == spec_add::<T>(old(self)@, rhs@),
    {
        *self = (*self).add(rhs);
    }

    /// In-place checked subtraction.
    pub fn sub_assign(&mut self, rhs: Self)
        ensures
            final (self)@ == spec_sub::<T>(old(self)@, rhs@),
    {
        *self = (*self).sub(rhs);
    }

    /// In-place checked multiplication.
    pub fn mul_assign(&mut self, rhs: Self)
        ensures
            final (self)@ == spec_mul::<T>(old(self)@, rhs@),
    {
        *self = (*self).mul(rhs);
    }

    /// In-place checked division.
    pub fn div_assign(&mut self, rhs: Self)
        ensures
            final (self)@ == spec_div::<T>(old(self)@, rhs@),
    {
        *self = (*self).div(rhs);
    }

    /// In-place checked remainder.
    pub fn rem_assign(&mut self, rhs: Self)
        ensures
            final (self)@ == spec_rem::<T>(old(self)@, rhs@),
    {
        *self = (*self).rem(rhs);
    }

    /// Tests if the integer is still valid, and has not yet overflowed.
    pub fn is_some(&self) -> (r: bool)
        ensures
            r == (self@ is Some),
    {
        self.value.is_some()
    }

    /// Tests if the integer has overflowed.
    pub fn is_none(&self) -> (r: bool)
        ensures
            r == (self@ is None),
    {
        self.value.is_none()
    }

    /// Borrows the integer value, if present.
    pub fn as_ref(&self) -> (r: Option<&T>)
        ensures
            r is Some <==> self@ is Some,
            r matches Some(v) ==> v.as_int() == self@->0,
    {
        self.value.as_ref()
    }

    /// Unwraps the bare integer value; the caller must know it is present.
    ///
    /// The message names the failure for callers outside verified code.
    pub fn expect(self, msg: &str) -> (r: T)
        requires
            self@ is Some,
        ensures
            r.as_int() == self@->0,
    {
        let _ = msg;
        self.value.unwrap()
    }

    /// Unwraps the bare integer value; the caller must know it is present.
    pub fn unwrap(self) -> (r: T)
        requires
            self@ is Some,
        ensures
            r.as_int() == self@->0,
    {
        self.value.unwrap()
    }

    /// Unwraps the bare integer value, substituting a default if absent.
    pub fn unwrap_or(self, default: T) -> (r: T)
        ensures
            self@ is Some ==> r.as_int() == self@->0,
            self@ is None ==> r == default,
    {
        self.value.unwrap_or(default)
    }

    /// Unwraps the bare integer value, or computes a default if absent.
    pub fn unwrap_or_else<F: FnOnce() -> T>(self, func: F) -> (r: T)
        requires
            self@ is None ==> call_requires(func, ()),
        ensures
            self@ is Some ==> r.as_int() == self@->0,
            self@ is None ==> call_ensures(func, (), r),
    {
        match self.value {
            Some(v) => v,
            None => func(),
        }
    }

    /// Transforms the integer value to a new integer, if present.
    pub fn map<U: Integral, F: FnOnce(T) -> U>(self, func: F) -> (r: Checked<U>)
        requires
            self.value matches Some(v) ==> call_requires(func, (v,)),
        ensures
            self@ is None ==> r@ is None,
            self.value matches Some(v) ==> r.value is Some && call_ensures(
                func,
                (v,),
                r.value->0,
            ),
    {
        match self.value {
            Some(v) => Checked { value: Some(func(v)) },
            None => Checked { value: None },
        }
    }

    /// Applies a function to the contained integer, substituting a default
    /// if absent. The result is always in a valid state.
    pub fn map_or<U: Integral, F: FnOnce(T) -> U>(self, default: U, func: F) -> (r: Checked<U>)
        requires
            self.value matches Some(v) ==> call_requires(func, (v,)),
        ensures
            self@ is None ==> r@ == Some(default.as_int()),
            self.value matches Some(v) ==> r.value is Some && call_ensures(
                func,
                (v,),
                r.value->0,
            ),
    {
        match self.value {
            Some(v) => Checked { value: Some(func(v)) },
            None => Checked { value: Some(default) },
        }
    }

    /// Applies a function to the contained integer, computing a default if
    /// absent. The result is always in a valid state.
    pub fn map_or_else<U: Integral, D: FnOnce() -> U, F: FnOnce(T) -> U>(
        self,
        default: D,
        func: F,
    ) -> (r: Checked<U>)
        requires
            self@ is None ==> call_requires(default, ()),
            self.value matches Some(v) ==> call_requires(func, (v,)),
        ensures
            self@ is None ==> r.value is Some && call_ensures(default, (), r.value->0),
            self.value matches Some(v) ==> r.value is Some && call_ensures(
                func,
                (v,),
                r.value->0,
            ),
    {
        match self.value {
            Some(v) => Checked { value: Some(func(v)) },
            None => Checked { value: Some(default()) },
        }
    }

    /// Transforms into a result: the integer if present, the given error if
    /// not.
    pub fn ok_or<E>(self, err: E) -> (r: Result<T, E>)
        ensures
            self.value matches Some(v) ==> r == Ok::<T, E>(v),
            self@ is None ==> r == Err::<T, E>(err),
    {
        match self.value {
            Some(v) => Ok(v),
            None => Err(err),
        }
    }

    /// Transforms into a result: the integer if present, a computed error
    /// if not.
    pub fn ok_or_else<E, F: FnOnce() -> E>(self, func: F) -> (r: Result<T, E>)
        requires
            self@ is None ==> call_requires(func, ()),
        ensures
            self.value matches Some(v) ==> r == Ok::<T, E>(v),
            self@ is None ==> (r matches Err(e) && call_ensures(func, (), e)),
    {
        match self.value {
            Some(v) => Ok(v),
            None => Err(func()),
        }
    }

    /// Replaces `self` with `other` only if the integer is present.
    pub fn and<U: Integral>(self, other: Checked<U>) -> (r: Checked<U>)
        ensures
            self@ is Some ==> r == other,
            self@ is None ==> r@ is None,
    {
        match self.value {
            Some(_) => other,
            None => Checked { value: None },
        }
    }

    /// Passes the integer into a new fallible computation, if present. The
    /// maybe-absent result of the function is the new checked integer.
    pub fn and_then<U: Integral, F: FnOnce(T) -> Option<U>>(self, func: F) -> (r: Checked<U>)
        requires
            self.value matches Some(v) ==> call_requires(func, (v,)),
        ensures
            self@ is None ==> r@ is None,
            self.value matches Some(v) ==> call_ensures(func, (v,), r.value),
    {
        match self.value {
            Some(v) => Checked { value: func(v) },
            None => Checked { value: None },
        }
    }

    /// Tests the integer, if present: it is kept when the test accepts it
    /// and dropped when the test rejects it.
    pub fn filter<F: FnOnce(&T) -> bool>(self, func: F) -> (r: Self)
        requires
            self.value matches Some(v) ==> call_requires(func, (&v,)),
        ensures
            self@ is None ==> r@ is None,
            self.value matches Some(v) ==> ((r == self && call_ensures(func, (&v,), true)) || (
            r@ is None && call_ensures(func, (&v,), false))),
    {
        match self.value {
            Some(v) => if func(&v) {
                self
            } else {
                Checked { value: None }
            },
            None => Checked { value: None },
        }
    }

    /// If the integer is missing, replaces it with another checked integer.
    pub fn or(self, other: Self) -> (r: Self)
        ensures
            self@ is Some ==> r == self,
            self@ is None ==> r == other,
    {
        match self.value {
            Some(_) => self,
            None => other,
        }
    }

    /// If the integer is missing, replaces it with a newly-computed
    /// maybe-absent integer.
    pub fn or_else<F: FnOnce() -> Option<T>>(self, func: F) -> (r: Self)
        requires
            self@ is None ==> call_requires(func, ()),
        ensures
            self@ is Some ==> r == self,
            self@ is None ==> call_ensures(func, (), r.value),
    {
        match self.value {
            Some(_) => self,
            None => Checked { value: func() },
        }
    }

    /// If the integer is missing, sets it to be a new integer.
    pub fn or_insert(self, other: T) -> (r: Self)
        ensures
            self@ is Some ==> r == self,
            self@ is None ==> r.value == Some(other),
    {
        match self.value {
            Some(_) => self,
            None => Checked { value: Some(other) },
        }
    }

    /// If the integer is missing, sets it to be a newly-computed integer.
    pub fn or_insert_with<F: FnOnce() -> T>(self, func: F) -> (r: Self)
        requires
            self@ is None ==> call_requires(func, ()),
        ensures
            self@ is Some ==> r == self,
            self@ is None ==> r.value is Some && call_ensures(func, (), r.value->0),
    {
        match self.value {
            Some(_) => self,
            None => Checked { value: Some(func()) },
        }
    }

    /// A valid checked integer if exactly one of the two is valid.
    pub fn xor(self, other: Self) -> (r: Self)
        ensures
            self@ is Some && other@ is None ==> r == self,
            self@ is None && other@ is Some ==> r == other,
            (self@ is Some <==> other@ is Some) ==> r@ is None,
    {
        match (self.value, other.value) {
            (Some(_), None) => self,
            (None, Some(_)) => other,
            _ => Checked { value: None },
        }
    }

    /// Gets a write reference to the integer, first setting it to a new
    /// value if absent.
    pub fn get_or_insert(&mut self, val: T) -> (r: &mut T)
        ensures
            *r == (if old(self)@ is Some {
                old(self).value->0
            } else {
                val
            }),
            final (self).value == Some(*final (r)),
    {
        if self.value.is_none() {
            self.value = Some(val);
        }
        match &mut self.value {
            Some(v) => v,
            None => vstd::pervasive::unreached(),
        }
    }

    /// Gets a write reference to the integer, first setting it to a
    /// newly-computed value if absent.
    pub fn get_or_insert_with<F: FnOnce() -> T>(&mut self, func: F) -> (r: &mut T)
        requires
            old(self)@ is None ==> call_requires(func, ()),
        ensures
            old(self)@ is Some ==> *r == old(self).value->0,
            old(self)@ is None ==> call_ensures(func, (), *r),
            final (self).value == Some(*final (r)),
    {
        if self.value.is_none() {
            let val = func();
            self.value = Some(val);
        }
        match &mut self.value {
            Some(v) => v,
            None => vstd::pervasive::unreached(),
        }
    }

    /// Takes the checked value, leaving an absent one behind.
    pub fn take(&mut self) -> (r: Self)
        ensures
            final (self)@ is None,
            r == *old(self),
    {
        let prev = *self;
        self.value = None;
        prev
    }

    /// Takes the maybe-absent integer, leaving an absent value behind.
    pub fn take_value(&mut self) -> (r: Option<T>)
        ensures
            final (self)@ is None,
            r == old(self).value,
    {
        let prev = self.value;
        self.value = None;
        prev
    }

    /// Replaces the integer with a new value, returning the previous
    /// maybe-missing value as a checked integer.
    pub fn replace(&mut self, other: T) -> (r: Self)
        ensures
            final (self).value == Some(other),
            r == *old(self),
    {
        let prev = *self;
        self.value = Some(other);
        prev
    }

    /// Replaces the integer with a new value, returning the previous
    /// maybe-missing value.
    pub fn replace_value(&mut self, other: T) -> (r: Option<T>)
        ensures
            final (self).value == Some(other),
            r == old(self).value,
    {
        let prev = self.value;
        self.value = Some(other);
        prev
    }

    /// Equality against a maybe-absent bare integer, without unwrapping
    /// first. Two absent values are equal.
    pub fn eq_opt(&self, other: &Option<T>) -> (r: bool)
        ensures
            r == (match (self.value, *other) {
                (Some(a), Some(b)) => a.as_int() == b.as_int(),
                (None, None) => true,
                _ => false,
            }),
    {
        match (self.value, *other) {
            (Some(a), Some(b)) => a.eq_value(b),
            (None, None) => true,
            _ => false,
        }
    }

    /// Ordering against a maybe-absent bare integer, without unwrapping
    /// first. An absent value orders below every present one.
    pub fn cmp_opt(&self, other: &Option<T>) -> (r: core::cmp::Ordering)
        ensures
            r == (match (self.value, *other) {
                (None, None) => core::cmp::Ordering::Equal,
                (None, Some(_)) => core::cmp::Ordering::Less,
                (Some(_), None) => core::cmp::Ordering::Greater,
                (Some(a), Some(b)) => if a.as_int() < b.as_int() {
                    core::cmp::Ordering::Less
                } else if a.as_int() == b.as_int() {
                    core::cmp::Ordering::Equal
                } else {
                    core::cmp::Ordering::Greater
                },
            }),
    {
        match (self.value, *other) {
            (None, None) => core::cmp::Ordering::Equal,
            (None, Some(_)) => core::cmp::Ordering::Less,
            (Some(_), None) => core::cmp::Ordering::Greater,
            (Some(a), Some(b)) => a.cmp_value(b),
        }
    }
}

impl<T: SignedIntegral> Checked<T> {
    /// Checked negation: absent for an absent operand and for the most
    /// negative value.
    pub fn neg(self) -> (r: Self)
        ensures
            r@ == spec_neg::<T>(self@),
    {
        match self.value {
            Some(v) => Checked { value: T::zero().checked_sub(v) },
            None => Checked { value: None },
        }
    }

    /// Checked absolute value: absent for an absent operand and for the
    /// most negative value.
    pub fn abs(self) -> (r: Self)
        ensures
            r@ == spec_abs::<T>(self@),
    {
        match self.value {
            Some(v) => if v.is_neg() {
                Checked { value: T::zero().checked_sub(v) }
            } else {
                proof {
                    v.in_bounds();
                }
                Checked { value: Some(v) }
            },
            None => Checked { value: None },
        }
    }
}

} // verus!
