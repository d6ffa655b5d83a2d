//! The laws that tie the four overflow policies together, stated over the
//! same spec functions that the operations' contracts use, and proved for
//! every [`Integral`] type at once.

use vstd::prelude::*;

use vstd::arithmetic::power2::pow2;

use crate::arith::{clamp, in_range, lemma_wrap_near, lemma_wrap_range_eq, wrap};
use crate::checked;
use crate::integral::Integral;
use crate::overflowing;

verus! {

/// Law: wrapping addition is arithmetic modulo `2^bits`. The wrapped sum is
/// the unique representable value congruent to the true sum modulo the size
/// of the type.
pub proof fn lemma_wrapping_sum_is_modular<T: Integral>(a: int, b: int, w: int)
    requires
        in_range::<T>(w),
        (a + b - w) % (pow2(T::bits()) as int) == 0,
    ensures
        wrap::<T>(a + b) == w,
{
    T::range_properties();
    lemma_wrap_range_eq(a + b, w, T::min_int(), T::max_int());
}

/// Law: when the true sum of two representable values is itself
/// representable, all four policies agree on it. Checked holds it as a
/// present value, wrapping and saturating return it unchanged, and
/// overflowing returns it with a clear flag.
pub proof fn lemma_exact_sum_agreement<T: Integral>(a: int, b: int)
    requires
        in_range::<T>(a + b),
    ensures
        checked::spec_add::<T>(Some(a), Some(b)) == Some(a + b),
        wrap::<T>(a + b) == a + b,
        clamp::<T>(a + b) == a + b,
        overflowing::spec_add::<T>((a, false), (b, false)) == (a + b, false),
{
    lemma_wrap_near::<T>(a + b);
}

/// Law: when the true sum of two representable values overflows, the
/// policies diverge in their documented ways. Checked becomes absent,
/// saturating clamps to the edge in the direction of the overflow, and
/// overflowing sets its flag and keeps the two's-complement-wrapped sum.
pub proof fn lemma_overflowing_sum_divergence<T: Integral>(a: int, b: int)
    requires
        in_range::<T>(a),
        in_range::<T>(b),
        !in_range::<T>(a + b),
    ensures
        checked::spec_add::<T>(Some(a), Some(b)) is None,
        a + b > T::max_int() ==> clamp::<T>(a + b) == T::max_int(),
        a + b < T::min_int() ==> clamp::<T>(a + b) == T::min_int(),
        overflowing::spec_add::<T>((a, false), (b, false)).0 == wrap::<T>(a + b),
        overflowing::spec_add::<T>((a, false), (b, false)).1,
{
}

/// Law: the absent state of a checked integer absorbs every arithmetic
/// operation, with any operand on either side, until the value is
/// explicitly reset.
pub proof fn lemma_absent_absorbs<T: Integral>(other: Option<int>, e: nat)
    ensures
        checked::spec_add::<T>(None, other) is None,
        checked::spec_add::<T>(other, None) is None,
        checked::spec_sub::<T>(None, other) is None,
        checked::spec_sub::<T>(other, None) is None,
        checked::spec_mul::<T>(None, other) is None,
        checked::spec_mul::<T>(other, None) is None,
        checked::spec_div::<T>(None, other) is None,
        checked::spec_div::<T>(other, None) is None,
        checked::spec_rem::<T>(None, other) is None,
        checked::spec_rem::<T>(other, None) is None,
        checked::spec_div_euclid::<T>(None, other) is None,
        checked::spec_div_euclid::<T>(other, None) is None,
        checked::spec_rem_euclid::<T>(None, other) is None,
        checked::spec_rem_euclid::<T>(other, None) is None,
        checked::spec_neg::<T>(None) is None,
        checked::spec_abs::<T>(None) is None,
        checked::spec_pow::<T>(None, e) is None,
{
}

/// Law: the overflow flag is sticky. Once an operand carries a set flag,
/// every operation's result carries a set flag too, whatever the other
/// operand holds and whether or not the operation itself overflows.
pub proof fn lemma_flag_sticky<T: Integral>(a: (int, bool), b: (int, bool))
    requires
        a.1,
    ensures
        overflowing::spec_add::<T>(a, b).1,
        overflowing::spec_add::<T>(b, a).1,
        overflowing::spec_sub::<T>(a, b).1,
        overflowing::spec_sub::<T>(b, a).1,
        overflowing::spec_mul::<T>(a, b).1,
        overflowing::spec_mul::<T>(b, a).1,
        overflowing::spec_div::<T>(a, b).1,
        overflowing::spec_div::<T>(b, a).1,
        overflowing::spec_rem::<T>(a, b).1,
        overflowing::spec_rem::<T>(b, a).1,
        overflowing::spec_div_euclid::<T>(a, b).1,
        overflowing::spec_div_euclid::<T>(b, a).1,
        overflowing::spec_rem_euclid::<T>(a, b).1,
        overflowing::spec_rem_euclid::<T>(b, a).1,
        overflowing::spec_neg::<T>(a).1,
        overflowing::spec_abs::<T>(a).1,
{
}

/// Law: saturating arithmetic is pinned at the edges. One step past the
/// largest value stays at the largest value, and one step below the
/// smallest stays at the smallest, for every width and signedness.
pub proof fn lemma_saturation_pinned<T: Integral>()
    ensures
        clamp::<T>(T::max_int() + 1) == T::max_int(),
        clamp::<T>(T::min_int() - 1) == T::min_int(),
{
    T::range_properties();
}

/// Law: a zero divisor degrades a checked integer to the absent state, in
/// the truncating and the Euclidean form alike, rather than failing. The
/// wrapping and overflowing policies instead exclude a zero divisor by
/// precondition, which makes it a fatal misuse.
pub proof fn lemma_checked_zero_divisor_absent<T: Integral>(a: Option<int>)
    ensures
        checked::spec_div::<T>(a, Some(0)) is None,
        checked::spec_rem::<T>(a, Some(0)) is None,
        checked::spec_div_euclid::<T>(a, Some(0)) is None,
        checked::spec_rem_euclid::<T>(a, Some(0)) is None,
{
}

} // verus!
