//! The capability interface over the fixed-width machine integers.
//!
//! Each wrapper type in this crate is generic over a type implementing
//! [`Integral`], which exposes the primitive overflow-aware operations of the
//! machine together with their exact contracts. Every machine integer type,
//! signed and unsigned, of every width, implements it; the implementations
//! are verified against the standard library's arithmetic.

use vstd::prelude::*;

use vstd::arithmetic::power2::pow2;

use crate::arith::{div_trunc, range_size, rem_trunc, wrap_range};

verus! {

/// A fixed-width machine integer, signed or unsigned.
///
/// The specification surface is the value as a mathematical integer
/// (`as_int`), the bounds of the representable range, and the bit width; the
/// executable surface is the comparisons and the overflow-aware primitive
/// arithmetic, each with an exact contract over `as_int`.
pub trait Integral: Sized + Copy {
    /// The value as a mathematical integer.
    spec fn as_int(self) -> int;

    /// The smallest representable value.
    spec fn min_int() -> int;

    /// The largest representable value.
    spec fn max_int() -> int;

    /// Whether the type is signed.
    spec fn is_signed() -> bool;

    /// The width of the type in bits.
    spec fn bits() -> nat;

    /// The value shifted left by `k` bits, for `k` below the bit width;
    /// the shift amount is reduced modulo the bit width first.
    spec fn shl_spec(self, k: u32) -> Self;

    /// The value shifted right by `k` bits, for `k` below the bit width;
    /// the shift amount is reduced modulo the bit width first.
    spec fn shr_spec(self, k: u32) -> Self;

    /// The shape of the representable range: it spans `2^bits` values, the
    /// unsigned range starts at zero, and the signed range is balanced around
    /// zero with one extra negative value.
    proof fn range_properties()
        ensures
            127 <= Self::max_int(),
            Self::is_signed() ==> Self::min_int() == -Self::max_int() - 1,
            !Self::is_signed() ==> Self::min_int() == 0,
            8 <= Self::bits() <= 128,
            pow2(Self::bits()) == range_size(Self::min_int(), Self::max_int()),
    ;

    /// Every value lies in the representable range.
    proof fn in_bounds(self)
        ensures
            Self::min_int() <= self.as_int() <= Self::max_int(),
    ;

    /// For an unsigned type, a right shift by an amount below the bit width
    /// divides the value by the corresponding power of two.
    proof fn shr_unsigned_is_div(self, k: u32)
        requires
            !Self::is_signed(),
            k < Self::bits(),
        ensures
            self.shr_spec(k).as_int() == self.as_int() / pow2(k as nat) as int,
    ;

    /// The smallest representable value.
    fn min_value() -> (r: Self)
        ensures
            r.as_int() == Self::min_int(),
    ;

    /// The largest representable value.
    fn max_value() -> (r: Self)
        ensures
            r.as_int() == Self::max_int(),
    ;

    /// The value zero.
    fn zero() -> (r: Self)
        ensures
            r.as_int() == 0,
    ;

    /// The value one.
    fn one() -> (r: Self)
        ensures
            r.as_int() == 1,
    ;

    /// The width of the type in bits.
    fn bit_count() -> (r: u32)
        ensures
            r as nat == Self::bits(),
    ;

    /// Equality of the contained values.
    fn eq_value(self, other: Self) -> (r: bool)
        ensures
            r == (self.as_int() == other.as_int()),
    ;

    /// Strict order of the contained values.
    fn lt_value(self, other: Self) -> (r: bool)
        ensures
            r == (self.as_int() < other.as_int()),
    ;

    /// Three-way comparison of the contained values.
    fn cmp_value(self, other: Self) -> (r: core::cmp::Ordering)
        ensures
            r == (if self.as_int() < other.as_int() {
                core::cmp::Ordering::Less
            } else if self.as_int() == other.as_int() {
                core::cmp::Ordering::Equal
            } else {
                core::cmp::Ordering::Greater
            }),
    ;

    /// Whether the value is negative.
    fn is_neg(self) -> (r: bool)
        ensures
            r == (self.as_int() < 0),
    ;

    /// The value as a shift amount: present exactly when it fits in `u32`.
    fn as_shift(self) -> (r: Option<u32>)
        ensures
            r is Some <==> 0 <= self.as_int() <= u32::MAX,
            r matches Some(k) ==> k as int == self.as_int(),
    ;

    /// Addition that detects overflow.
    fn checked_add(self, rhs: Self) -> (r: Option<Self>)
        ensures
            r is Some <==> Self::min_int() <= self.as_int() + rhs.as_int() <= Self::max_int(),
            r matches Some(v) ==> v.as_int() == self.as_int() + rhs.as_int(),
    ;

    /// Subtraction that detects overflow.
    fn checked_sub(self, rhs: Self) -> (r: Option<Self>)
        ensures
            r is Some <==> Self::min_int() <= self.as_int() - rhs.as_int() <= Self::max_int(),
            r matches Some(v) ==> v.as_int() == self.as_int() - rhs.as_int(),
    ;

    /// Multiplication that detects overflow.
    fn checked_mul(self, rhs: Self) -> (r: Option<Self>)
        ensures
            r is Some <==> Self::min_int() <= self.as_int() * rhs.as_int() <= Self::max_int(),
            r matches Some(v) ==> v.as_int() == self.as_int() * rhs.as_int(),
    ;

    /// Truncating division that detects a zero divisor and overflow.
    fn checked_div(self, rhs: Self) -> (r: Option<Self>)
        ensures
            r is Some <==> rhs.as_int() != 0 && Self::min_int() <= div_trunc(
                self.as_int(),
                rhs.as_int(),
            ) <= Self::max_int(),
            r matches Some(v) ==> v.as_int() == div_trunc(self.as_int(), rhs.as_int()),
    ;

    /// Truncating remainder that detects a zero divisor and overflow.
    fn checked_rem(self, rhs: Self) -> (r: Option<Self>)
        ensures
            r is Some <==> rhs.as_int() != 0 && !(self.as_int() == Self::min_int()
                && rhs.as_int() == -1),
            r matches Some(v) ==> v.as_int() == rem_trunc(self.as_int(), rhs.as_int()),
    ;

    /// Euclidean division that detects a zero divisor and overflow.
    fn checked_div_euclid(self, rhs: Self) -> (r: Option<Self>)
        ensures
            r is Some <==> rhs.as_int() != 0 && Self::min_int() <= self.as_int() / rhs.as_int()
                <= Self::max_int(),
            r matches Some(v) ==> v.as_int() == self.as_int() / rhs.as_int(),
    ;

    /// Euclidean remainder that detects a zero divisor and overflow.
    fn checked_rem_euclid(self, rhs: Self) -> (r: Option<Self>)
        ensures
            r is Some <==> rhs.as_int() != 0 && !(self.as_int() == Self::min_int()
                && rhs.as_int() == -1),
            r matches Some(v) ==> v.as_int() == self.as_int() % rhs.as_int(),
    ;

    /// Modular addition.
    fn wrapping_add(self, rhs: Self) -> (r: Self)
        ensures
            r.as_int() == wrap_range(self.as_int() + rhs.as_int(), Self::min_int(), Self::max_int()),
    ;

    /// Modular subtraction.
    fn wrapping_sub(self, rhs: Self) -> (r: Self)
        ensures
            r.as_int() == wrap_range(self.as_int() - rhs.as_int(), Self::min_int(), Self::max_int()),
    ;

    /// Modular multiplication.
    fn wrapping_mul(self, rhs: Self) -> (r: Self)
        ensures
            r.as_int() == wrap_range(self.as_int() * rhs.as_int(), Self::min_int(), Self::max_int()),
    ;

    /// Left shift by `k % bits` bits.
    fn wrapping_shl(self, k: u32) -> (r: Self)
        ensures
            r == self.shl_spec(k),
    ;

    /// Right shift by `k % bits` bits.
    fn wrapping_shr(self, k: u32) -> (r: Self)
        ensures
            r == self.shr_spec(k),
    ;
}

/// A signed machine integer. The unary operations that only make sense with
/// a sign (negation, absolute value) are offered by the wrappers for these
/// types alone.
pub trait SignedIntegral: Integral {
    /// The type is signed.
    proof fn signed_properties()
        ensures
            Self::is_signed(),
    ;
}

} // verus!
