/*! Wrappers over the fixed-width integers with a fixed overflow behavior.

The machine integers offer `checked`, `wrapping`, and `saturating` overflow
arithmetic as named methods. This crate packages each behavior as a wrapper
type, so that a number carries its overflow policy in its type:

- [`Checked`]: arithmetic that detects overflow and converts the value into
  an absent state, which absorbs all further arithmetic until reset.
- [`Wrapping`]: arithmetic that reduces every result modulo the size of the
  type, discarding high bits.
- [`Saturating`]: arithmetic that clamps every result to the edge of the
  representable range in the direction of overflow.
- [`Overflowing`]: wrapping arithmetic that additionally records, in a sticky
  flag, whether any overflow has occurred.

Every operation is verified: its contract states the produced value (and
flag, where there is one) as a mathematical function of the operands.

The [`Ensure`] extension trait attaches constructors for the wrappers to the
integers themselves.
!*/

use vstd::prelude::*;

pub mod arith;
pub mod checked;
pub mod integral;
pub mod laws;
pub mod overflowing;
pub mod pow;
pub mod prim_signed;
pub mod prim_unsigned;
pub mod saturating;
pub mod wrapping;

use crate::checked::Checked;
use crate::integral::Integral;
use crate::overflowing::Overflowing;
use crate::saturating::Saturating;
use crate::wrapping::Wrapping;

verus! {

/** Extension methods that attach an overflow policy to a bare integer.

This trait is implemented for every [`Integral`] type. Each method wraps the
integer in the named policy type, in that policy's initial state.
**/
pub trait Ensure: Integral {
    /// Selects checked-overflow arithmetic.
    fn checked(self) -> (r: Checked<Self>)
        ensures
            r@ == Some(self.as_int()),
    ;

    /// Selects wrapping-overflow arithmetic.
    fn wrapping(self) -> (r: Wrapping<Self>)
        ensures
            r@ == self.as_int(),
    ;

    /// Selects saturating-overflow arithmetic.
    fn saturating(self) -> (r: Saturating<Self>)
        ensures
            r@ == self.as_int(),
    ;

    /// Selects overflow-recording arithmetic, with a clear flag.
    fn overflowing(self) -> (r: Overflowing<Self>)
        ensures
            r@ == (self.as_int(), false),
    ;
}

impl<T: Integral> Ensure for T {
    fn checked(self) -> (r: Checked<Self>) {
        Checked::new(self)
    }

    fn wrapping(self) -> (r: Wrapping<Self>) {
        Wrapping::new(self)
    }

    fn saturating(self) -> (r: Saturating<Self>) {
        Saturating::new(self)
    }

    fn overflowing(self) -> (r: Overflowing<Self>) {
        Overflowing::new(self)
    }
}

} // verus!
