//! [`Integral`] implementations for the signed machine integers, verified
//! against the standard library's arithmetic specifications.

use vstd::prelude::*;

use vstd::arithmetic::power2::{lemma2_to64, lemma_pow2_adds};

use crate::arith::{
    lemma_div_rem_trunc_forms, lemma_mod_bound_any, lemma_wrap_range_near,
};
use crate::integral::{Integral, SignedIntegral};

verus! {

impl Integral for i8 {
    open spec fn as_int(self) -> int {
        self as int
    }

    open spec fn min_int() -> int {
        i8::MIN as int
    }

    open spec fn max_int() -> int {
        i8::MAX as int
    }

    open spec fn is_signed() -> bool {
        true
    }

    open spec fn bits() -> nat {
        8
    }

    open spec fn shl_spec(self, k: u32) -> i8 {
        vstd::wrapping::i8_specs::wrapping_shl(self, k)
    }

    open spec fn shr_spec(self, k: u32) -> i8 {
        vstd::wrapping::i8_specs::wrapping_shr(self, k)
    }

    proof fn range_properties() {
        lemma2_to64();
    }

    proof fn in_bounds(self) {
    }

    proof fn shr_unsigned_is_div(self, k: u32) {
    }

    fn min_value() -> Self {
        i8::MIN
    }

    fn max_value() -> Self {
        i8::MAX
    }

    fn zero() -> Self {
        0i8
    }

    fn one() -> Self {
        1i8
    }

    fn bit_count() -> u32 {
        8u32
    }

    fn eq_value(self, other: Self) -> bool {
        self == other
    }

    fn lt_value(self, other: Self) -> bool {
        self < other
    }

    fn cmp_value(self, other: Self) -> core::cmp::Ordering {
        if self < other {
            core::cmp::Ordering::Less
        } else if self == other {
            core::cmp::Ordering::Equal
        } else {
            core::cmp::Ordering::Greater
        }
    }

    fn is_neg(self) -> bool {
        self < 0
    }

    fn as_shift(self) -> Option<u32> {
        if self < 0 {
            None
        } else {
            Some(self as u32)
        }
    }

    fn checked_add(self, rhs: Self) -> Option<Self> {
        i8::checked_add(self, rhs)
    }

    fn checked_sub(self, rhs: Self) -> Option<Self> {
        i8::checked_sub(self, rhs)
    }

    fn checked_mul(self, rhs: Self) -> Option<Self> {
        i8::checked_mul(self, rhs)
    }

    fn checked_div(self, rhs: Self) -> Option<Self> {
        proof {
            if rhs != 0 {
                lemma_div_rem_trunc_forms(self as int, rhs as int);
            }
        }
        i8::checked_div(self, rhs)
    }

    fn checked_rem(self, rhs: Self) -> Option<Self> {
        proof {
            if rhs != 0 {
                lemma_div_rem_trunc_forms(self as int, rhs as int);
            }
        }
        i8::checked_rem(self, rhs)
    }

    fn checked_div_euclid(self, rhs: Self) -> Option<Self> {
        i8::checked_div_euclid(self, rhs)
    }

    fn checked_rem_euclid(self, rhs: Self) -> Option<Self> {
        proof {
            if rhs != 0 {
                lemma_mod_bound_any(self as int, rhs as int);
            }
        }
        i8::checked_rem_euclid(self, rhs)
    }

    fn wrapping_add(self, rhs: Self) -> Self {
        proof {
            lemma_wrap_range_near(self as int + rhs as int, i8::MIN as int, i8::MAX as int);
        }
        i8::wrapping_add(self, rhs)
    }

    fn wrapping_sub(self, rhs: Self) -> Self {
        proof {
            lemma_wrap_range_near(self as int - rhs as int, i8::MIN as int, i8::MAX as int);
        }
        i8::wrapping_sub(self, rhs)
    }

    fn wrapping_mul(self, rhs: Self) -> Self {
        proof {
            vstd::arithmetic::div_mod::lemma_mod_division_less_than_divisor(
                self as int * rhs as int,
                0x100int,
            );
        }
        i8::wrapping_mul(self, rhs)
    }

    fn wrapping_shl(self, k: u32) -> Self {
        i8::wrapping_shl(self, k)
    }

    fn wrapping_shr(self, k: u32) -> Self {
        i8::wrapping_shr(self, k)
    }
}

impl Integral for i16 {
    open spec fn as_int(self) -> int {
        self as int
    }

    open spec fn min_int() -> int {
        i16::MIN as int
    }

    open spec fn max_int() -> int {
        i16::MAX as int
    }

    open spec fn is_signed() -> bool {
        true
    }

    open spec fn bits() -> nat {
        16
    }

    open spec fn shl_spec(self, k: u32) -> i16 {
        vstd::wrapping::i16_specs::wrapping_shl(self, k)
    }

    open spec fn shr_spec(self, k: u32) -> i16 {
        vstd::wrapping::i16_specs::wrapping_shr(self, k)
    }

    proof fn range_properties() {
        lemma2_to64();
    }

    proof fn in_bounds(self) {
    }

    proof fn shr_unsigned_is_div(self, k: u32) {
    }

    fn min_value() -> Self {
        i16::MIN
    }

    fn max_value() -> Self {
        i16::MAX
    }

    fn zero() -> Self {
        0i16
    }

    fn one() -> Self {
        1i16
    }

    fn bit_count() -> u32 {
        16u32
    }

    fn eq_value(self, other: Self) -> bool {
        self == other
    }

    fn lt_value(self, other: Self) -> bool {
        self < other
    }

    fn cmp_value(self, other: Self) -> core::cmp::Ordering {
        if self < other {
            core::cmp::Ordering::Less
        } else if self == other {
            core::cmp::Ordering::Equal
        } else {
            core::cmp::Ordering::Greater
        }
    }

    fn is_neg(self) -> bool {
        self < 0
    }

    fn as_shift(self) -> Option<u32> {
        if self < 0 {
            None
        } else {
            Some(self as u32)
        }
    }

    fn checked_add(self, rhs: Self) -> Option<Self> {
        i16::checked_add(self, rhs)
    }

    fn checked_sub(self, rhs: Self) -> Option<Self> {
        i16::checked_sub(self, rhs)
    }

    fn checked_mul(self, rhs: Self) -> Option<Self> {
        i16::checked_mul(self, rhs)
    }

    fn checked_div(self, rhs: Self) -> Option<Self> {
        proof {
            if rhs != 0 {
                lemma_div_rem_trunc_forms(self as int, rhs as int);
            }
        }
        i16::checked_div(self, rhs)
    }

    fn checked_rem(self, rhs: Self) -> Option<Self> {
        proof {
            if rhs != 0 {
                lemma_div_rem_trunc_forms(self as int, rhs as int);
            }
        }
        i16::checked_rem(self, rhs)
    }

    fn checked_div_euclid(self, rhs: Self) -> Option<Self> {
        i16::checked_div_euclid(self, rhs)
    }

    fn checked_rem_euclid(self, rhs: Self) -> Option<Self> {
        proof {
            if rhs != 0 {
                lemma_mod_bound_any(self as int, rhs as int);
            }
        }
        i16::checked_rem_euclid(self, rhs)
    }

    fn wrapping_add(self, rhs: Self) -> Self {
        proof {
            lemma_wrap_range_near(self as int + rhs as int, i16::MIN as int, i16::MAX as int);
        }
        i16::wrapping_add(self, rhs)
    }

    fn wrapping_sub(self, rhs: Self) -> Self {
        proof {
            lemma_wrap_range_near(self as int - rhs as int, i16::MIN as int, i16::MAX as int);
        }
        i16::wrapping_sub(self, rhs)
    }

    fn wrapping_mul(self, rhs: Self) -> Self {
        proof {
            vstd::arithmetic::div_mod::lemma_mod_division_less_than_divisor(
                self as int * rhs as int,
                0x1_0000int,
            );
        }
        i16::wrapping_mul(self, rhs)
    }

    fn wrapping_shl(self, k: u32) -> Self {
        i16::wrapping_shl(self, k)
    }

    fn wrapping_shr(self, k: u32) -> Self {
        i16::wrapping_shr(self, k)
    }
}

impl Integral for i32 {
    open spec fn as_int(self) -> int {
        self as int
    }

    open spec fn min_int() -> int {
        i32::MIN as int
    }

    open spec fn max_int() -> int {
        i32::MAX as int
    }

    open spec fn is_signed() -> bool {
        true
    }

    open spec fn bits() -> nat {
        32
    }

    open spec fn shl_spec(self, k: u32) -> i32 {
        vstd::wrapping::i32_specs::wrapping_shl(self, k)
    }

    open spec fn shr_spec(self, k: u32) -> i32 {
        vstd::wrapping::i32_specs::wrapping_shr(self, k)
    }

    proof fn range_properties() {
        lemma2_to64();
    }

    proof fn in_bounds(self) {
    }

    proof fn shr_unsigned_is_div(self, k: u32) {
    }

    fn min_value() -> Self {
        i32::MIN
    }

    fn max_value() -> Self {
        i32::MAX
    }

    fn zero() -> Self {
        0i32
    }

    fn one() -> Self {
        1i32
    }

    fn bit_count() -> u32 {
        32u32
    }

    fn eq_value(self, other: Self) -> bool {
        self == other
    }

    fn lt_value(self, other: Self) -> bool {
        self < other
    }

    fn cmp_value(self, other: Self) -> core::cmp::Ordering {
        if self < other {
            core::cmp::Ordering::Less
        } else if self == other {
            core::cmp::Ordering::Equal
        } else {
            core::cmp::Ordering::Greater
        }
    }

    fn is_neg(self) -> bool {
        self < 0
    }

    fn as_shift(self) -> Option<u32> {
        if self < 0 {
            None
        } else {
            Some(self as u32)
        }
    }

    fn checked_add(self, rhs: Self) -> Option<Self> {
        i32::checked_add(self, rhs)
    }

    fn checked_sub(self, rhs: Self) -> Option<Self> {
        i32::checked_sub(self, rhs)
    }

    fn checked_mul(self, rhs: Self) -> Option<Self> {
        i32::checked_mul(self, rhs)
    }

    fn checked_div(self, rhs: Self) -> Option<Self> {
        proof {
            if rhs != 0 {
                lemma_div_rem_trunc_forms(self as int, rhs as int);
            }
        }
        i32::checked_div(self, rhs)
    }

    fn checked_rem(self, rhs: Self) -> Option<Self> {
        proof {
            if rhs != 0 {
                lemma_div_rem_trunc_forms(self as int, rhs as int);
            }
        }
        i32::checked_rem(self, rhs)
    }

    fn checked_div_euclid(self, rhs: Self) -> Option<Self> {
        i32::checked_div_euclid(self, rhs)
    }

    fn checked_rem_euclid(self, rhs: Self) -> Option<Self> {
        proof {
            if rhs != 0 {
                lemma_mod_bound_any(self as int, rhs as int);
            }
        }
        i32::checked_rem_euclid(self, rhs)
    }

    fn wrapping_add(self, rhs: Self) -> Self {
        proof {
            lemma_wrap_range_near(self as int + rhs as int, i32::MIN as int, i32::MAX as int);
        }
        i32::wrapping_add(self, rhs)
    }

    fn wrapping_sub(self, rhs: Self) -> Self {
        proof {
            lemma_wrap_range_near(self as int - rhs as int, i32::MIN as int, i32::MAX as int);
        }
        i32::wrapping_sub(self, rhs)
    }

    fn wrapping_mul(self, rhs: Self) -> Self {
        proof {
            vstd::arithmetic::div_mod::lemma_mod_division_less_than_divisor(
                self as int * rhs as int,
                0x1_0000_0000int,
            );
        }
        i32::wrapping_mul(self, rhs)
    }

    fn wrapping_shl(self, k: u32) -> Self {
        i32::wrapping_shl(self, k)
    }

    fn wrapping_shr(self, k: u32) -> Self {
        i32::wrapping_shr(self, k)
    }
}

impl Integral for i64 {
    open spec fn as_int(self) -> int {
        self as int
    }

    open spec fn min_int() -> int {
        i64::MIN as int
    }

    open spec fn max_int() -> int {
        i64::MAX as int
    }

    open spec fn is_signed() -> bool {
        true
    }

    open spec fn bits() -> nat {
        64
    }

    open spec fn shl_spec(self, k: u32) -> i64 {
        vstd::wrapping::i64_specs::wrapping_shl(self, k)
    }

    open spec fn shr_spec(self, k: u32) -> i64 {
        vstd::wrapping::i64_specs::wrapping_shr(self, k)
    }

    proof fn range_properties() {
        lemma2_to64();
    }

    proof fn in_bounds(self) {
    }

    proof fn shr_unsigned_is_div(self, k: u32) {
    }

    fn min_value() -> Self {
        i64::MIN
    }

    fn max_value() -> Self {
        i64::MAX
    }

    fn zero() -> Self {
        0i64
    }

    fn one() -> Self {
        1i64
    }

    fn bit_count() -> u32 {
        64u32
    }

    fn eq_value(self, other: Self) -> bool {
        self == other
    }

    fn lt_value(self, other: Self) -> bool {
        self < other
    }

    fn cmp_value(self, other: Self) -> core::cmp::Ordering {
        if self < other {
            core::cmp::Ordering::Less
        } else if self == other {
            core::cmp::Ordering::Equal
        } else {
            core::cmp::Ordering::Greater
        }
    }

    fn is_neg(self) -> bool {
        self < 0
    }

    fn as_shift(self) -> Option<u32> {
        if self < 0 || self > u32::MAX as i64 {
            None
        } else {
            Some(self as u32)
        }
    }

    fn checked_add(self, rhs: Self) -> Option<Self> {
        i64::checked_add(self, rhs)
    }

    fn checked_sub(self, rhs: Self) -> Option<Self> {
        i64::checked_sub(self, rhs)
    }

    fn checked_mul(self, rhs: Self) -> Option<Self> {
        i64::checked_mul(self, rhs)
    }

    fn checked_div(self, rhs: Self) -> Option<Self> {
        proof {
            if rhs != 0 {
                lemma_div_rem_trunc_forms(self as int, rhs as int);
            }
        }
        i64::checked_div(self, rhs)
    }

    fn checked_rem(self, rhs: Self) -> Option<Self> {
        proof {
            if rhs != 0 {
                lemma_div_rem_trunc_forms(self as int, rhs as int);
            }
        }
        i64::checked_rem(self, rhs)
    }

    fn checked_div_euclid(self, rhs: Self) -> Option<Self> {
        i64::checked_div_euclid(self, rhs)
    }

    fn checked_rem_euclid(self, rhs: Self) -> Option<Self> {
        proof {
            if rhs != 0 {
                lemma_mod_bound_any(self as int, rhs as int);
            }
        }
        i64::checked_rem_euclid(self, rhs)
    }

    fn wrapping_add(self, rhs: Self) -> Self {
        proof {
            lemma_wrap_range_near(self as int + rhs as int, i64::MIN as int, i64::MAX as int);
        }
        i64::wrapping_add(self, rhs)
    }

    fn wrapping_sub(self, rhs: Self) -> Self {
        proof {
            lemma_wrap_range_near(self as int - rhs as int, i64::MIN as int, i64::MAX as int);
        }
        i64::wrapping_sub(self, rhs)
    }

    fn wrapping_mul(self, rhs: Self) -> Self {
        proof {
            vstd::arithmetic::div_mod::lemma_mod_division_less_than_divisor(
                self as int * rhs as int,
                0x1_0000_0000_0000_0000int,
            );
        }
        i64::wrapping_mul(self, rhs)
    }

    fn wrapping_shl(self, k: u32) -> Self {
        i64::wrapping_shl(self, k)
    }

    fn wrapping_shr(self, k: u32) -> Self {
        i64::wrapping_shr(self, k)
    }
}

impl Integral for i128 {
    open spec fn as_int(self) -> int {
        self as int
    }

    open spec fn min_int() -> int {
        i128::MIN as int
    }

    open spec fn max_int() -> int {
        i128::MAX as int
    }

    open spec fn is_signed() -> bool {
        true
    }

    open spec fn bits() -> nat {
        128
    }

    open spec fn shl_spec(self, k: u32) -> i128 {
        vstd::wrapping::i128_specs::wrapping_shl(self, k)
    }

    open spec fn shr_spec(self, k: u32) -> i128 {
        vstd::wrapping::i128_specs::wrapping_shr(self, k)
    }

    proof fn range_properties() {
        lemma2_to64();
        lemma_pow2_adds(64, 64);
    }

    proof fn in_bounds(self) {
    }

    proof fn shr_unsigned_is_div(self, k: u32) {
    }

    fn min_value() -> Self {
        i128::MIN
    }

    fn max_value() -> Self {
        i128::MAX
    }

    fn zero() -> Self {
        0i128
    }

    fn one() -> Self {
        1i128
    }

    fn bit_count() -> u32 {
        128u32
    }

    fn eq_value(self, other: Self) -> bool {
        self == other
    }

    fn lt_value(self, other: Self) -> bool {
        self < other
    }

    fn cmp_value(self, other: Self) -> core::cmp::Ordering {
        if self < other {
            core::cmp::Ordering::Less
        } else if self == other {
            core::cmp::Ordering::Equal
        } else {
            core::cmp::Ordering::Greater
        }
    }

    fn is_neg(self) -> bool {
        self < 0
    }

    fn as_shift(self) -> Option<u32> {
        if self < 0 || self > u32::MAX as i128 {
            None
        } else {
            Some(self as u32)
        }
    }

    fn checked_add(self, rhs: Self) -> Option<Self> {
        i128::checked_add(self, rhs)
    }

    fn checked_sub(self, rhs: Self) -> Option<Self> {
        i128::checked_sub(self, rhs)
    }

    fn checked_mul(self, rhs: Self) -> Option<Self> {
        i128::checked_mul(self, rhs)
    }

    fn checked_div(self, rhs: Self) -> Option<Self> {
        proof {
            if rhs != 0 {
                lemma_div_rem_trunc_forms(self as int, rhs as int);
            }
        }
        i128::checked_div(self, rhs)
    }

    fn checked_rem(self, rhs: Self) -> Option<Self> {
        proof {
            if rhs != 0 {
                lemma_div_rem_trunc_forms(self as int, rhs as int);
            }
        }
        i128::checked_rem(self, rhs)
    }

    fn checked_div_euclid(self, rhs: Self) -> Option<Self> {
        i128::checked_div_euclid(self, rhs)
    }

    fn checked_rem_euclid(self, rhs: Self) -> Option<Self> {
        proof {
            if rhs != 0 {
                lemma_mod_bound_any(self as int, rhs as int);
            }
        }
        i128::checked_rem_euclid(self, rhs)
    }

    fn wrapping_add(self, rhs: Self) -> Self {
        proof {
            lemma_wrap_range_near(self as int + rhs as int, i128::MIN as int, i128::MAX as int);
        }
        i128::wrapping_add(self, rhs)
    }

    fn wrapping_sub(self, rhs: Self) -> Self {
        proof {
            lemma_wrap_range_near(self as int - rhs as int, i128::MIN as int, i128::MAX as int);
        }
        i128::wrapping_sub(self, rhs)
    }

    fn wrapping_mul(self, rhs: Self) -> Self {
        proof {
            vstd::arithmetic::div_mod::lemma_mod_division_less_than_divisor(
                self as int * rhs as int,
                0x1_0000_0000_0000_0000_0000_0000_0000_0000int,
            );
        }
        i128::wrapping_mul(self, rhs)
    }

    fn wrapping_shl(self, k: u32) -> Self {
        i128::wrapping_shl(self, k)
    }

    fn wrapping_shr(self, k: u32) -> Self {
        i128::wrapping_shr(self, k)
    }
}

impl Integral for isize {
    open spec fn as_int(self) -> int {
        self as int
    }

    open spec fn min_int() -> int {
        isize::MIN as int
    }

    open spec fn max_int() -> int {
        isize::MAX as int
    }

    open spec fn is_signed() -> bool {
        true
    }

    open spec fn bits() -> nat {
        usize::BITS as nat
    }

    open spec fn shl_spec(self, k: u32) -> isize {
        vstd::wrapping::isize_specs::wrapping_shl(self, k)
    }

    open spec fn shr_spec(self, k: u32) -> isize {
        vstd::wrapping::isize_specs::wrapping_shr(self, k)
    }

    proof fn range_properties() {
        lemma2_to64();
        assert(usize::BITS == 32 || usize::BITS == 64);
    }

    proof fn in_bounds(self) {
    }

    proof fn shr_unsigned_is_div(self, k: u32) {
    }

    fn min_value() -> Self {
        isize::MIN
    }

    fn max_value() -> Self {
        isize::MAX
    }

    fn zero() -> Self {
        0isize
    }

    fn one() -> Self {
        1isize
    }

    fn bit_count() -> u32 {
        usize::BITS
    }

    fn eq_value(self, other: Self) -> bool {
        self == other
    }

    fn lt_value(self, other: Self) -> bool {
        self < other
    }

    fn cmp_value(self, other: Self) -> core::cmp::Ordering {
        if self < other {
            core::cmp::Ordering::Less
        } else if self == other {
            core::cmp::Ordering::Equal
        } else {
            core::cmp::Ordering::Greater
        }
    }

    fn is_neg(self) -> bool {
        self < 0
    }

    fn as_shift(self) -> Option<u32> {
        if self < 0 {
            None
        } else if self as u64 > u32::MAX as u64 {
            None
        } else {
            Some(self as u32)
        }
    }

    fn checked_add(self, rhs: Self) -> Option<Self> {
        isize::checked_add(self, rhs)
    }

    fn checked_sub(self, rhs: Self) -> Option<Self> {
        isize::checked_sub(self, rhs)
    }

    fn checked_mul(self, rhs: Self) -> Option<Self> {
        isize::checked_mul(self, rhs)
    }

    fn checked_div(self, rhs: Self) -> Option<Self> {
        proof {
            if rhs != 0 {
                lemma_div_rem_trunc_forms(self as int, rhs as int);
            }
        }
        isize::checked_div(self, rhs)
    }

    fn checked_rem(self, rhs: Self) -> Option<Self> {
        proof {
            if rhs != 0 {
                lemma_div_rem_trunc_forms(self as int, rhs as int);
            }
        }
        isize::checked_rem(self, rhs)
    }

    fn checked_div_euclid(self, rhs: Self) -> Option<Self> {
        isize::checked_div_euclid(self, rhs)
    }

    fn checked_rem_euclid(self, rhs: Self) -> Option<Self> {
        proof {
            if rhs != 0 {
                lemma_mod_bound_any(self as int, rhs as int);
            }
        }
        isize::checked_rem_euclid(self, rhs)
    }

    fn wrapping_add(self, rhs: Self) -> Self {
        proof {
            lemma_wrap_range_near(self as int + rhs as int, isize::MIN as int, isize::MAX as int);
        }
        isize::wrapping_add(self, rhs)
    }

    fn wrapping_sub(self, rhs: Self) -> Self {
        proof {
            lemma_wrap_range_near(self as int - rhs as int, isize::MIN as int, isize::MAX as int);
        }
        isize::wrapping_sub(self, rhs)
    }

    fn wrapping_mul(self, rhs: Self) -> Self {
        proof {
            vstd::arithmetic::div_mod::lemma_mod_division_less_than_divisor(
                self as int * rhs as int,
                usize::MAX as int + 1,
            );
        }
        isize::wrapping_mul(self, rhs)
    }

    fn wrapping_shl(self, k: u32) -> Self {
        isize::wrapping_shl(self, k)
    }

    fn wrapping_shr(self, k: u32) -> Self {
        isize::wrapping_shr(self, k)
    }
}

impl SignedIntegral for i8 {
    proof fn signed_properties() {
    }
}

impl SignedIntegral for i16 {
    proof fn signed_properties() {
    }
}

impl SignedIntegral for i32 {
    proof fn signed_properties() {
    }
}

impl SignedIntegral for i64 {
    proof fn signed_properties() {
    }
}

impl SignedIntegral for i128 {
    proof fn signed_properties() {
    }
}

impl SignedIntegral for isize {
    proof fn signed_properties() {
    }
}

} // verus!
