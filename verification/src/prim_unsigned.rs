//! [`Integral`] implementations for the unsigned machine integers, verified
//! against the standard library's arithmetic specifications.

use vstd::prelude::*;

use vstd::arithmetic::power2::{lemma2_to64, lemma_pow2_adds};

use crate::arith::{lemma_div_rem_trunc_forms, lemma_wrap_range_near};
use crate::integral::Integral;

verus! {

impl Integral for u8 {
    open spec fn as_int(self) -> int {
        self as int
    }

    open spec fn min_int() -> int {
        u8::MIN as int
    }

    open spec fn max_int() -> int {
        u8::MAX as int
    }

    open spec fn is_signed() -> bool {
        false
    }

    open spec fn bits() -> nat {
        8
    }

    open spec fn shl_spec(self, k: u32) -> u8 {
        vstd::wrapping::u8_specs::wrapping_shl(self, k)
    }

    open spec fn shr_spec(self, k: u32) -> u8 {
        vstd::wrapping::u8_specs::wrapping_shr(self, k)
    }

    proof fn range_properties() {
        lemma2_to64();
    }

    proof fn in_bounds(self) {
    }

    proof fn shr_unsigned_is_div(self, k: u32) {
        vstd::bits::lemma_u8_shr_is_div(self, k as u8);
        assert(self >> (k % 8) == self >> (k as u8)) by (bit_vector)
            requires
                k < 8,
        ;
    }

    fn min_value() -> Self {
        u8::MIN
    }

    fn max_value() -> Self {
        u8::MAX
    }

    fn zero() -> Self {
        0u8
    }

    fn one() -> Self {
        1u8
    }

    fn bit_count() -> u32 {
        8u32
    }

    fn eq_value(self, other: Self) -> bool {
        self == other
    }

    fn lt_value(self, other: Self) -> bool {
        self < other
    }

    fn cmp_value(self, other: Self) -> core::cmp::Ordering {
        if self < other {
            core::cmp::Ordering::Less
        } else if self == other {
            core::cmp::Ordering::Equal
        } else {
            core::cmp::Ordering::Greater
        }
    }

    fn is_neg(self) -> bool {
        false
    }

    fn as_shift(self) -> Option<u32> {
        Some(self as u32)
    }

    fn checked_add(self, rhs: Self) -> Option<Self> {
        u8::checked_add(self, rhs)
    }

    fn checked_sub(self, rhs: Self) -> Option<Self> {
        u8::checked_sub(self, rhs)
    }

    fn checked_mul(self, rhs: Self) -> Option<Self> {
        u8::checked_mul(self, rhs)
    }

    fn checked_div(self, rhs: Self) -> Option<Self> {
        proof {
            if rhs != 0 {
                lemma_div_rem_trunc_forms(self as int, rhs as int);
            }
        }
        u8::checked_div(self, rhs)
    }

    fn checked_rem(self, rhs: Self) -> Option<Self> {
        proof {
            if rhs != 0 {
                lemma_div_rem_trunc_forms(self as int, rhs as int);
            }
        }
        u8::checked_rem(self, rhs)
    }

    fn checked_div_euclid(self, rhs: Self) -> Option<Self> {
        proof {
            if rhs != 0 {
                lemma_div_rem_trunc_forms(self as int, rhs as int);
            }
        }
        u8::checked_div_euclid(self, rhs)
    }

    fn checked_rem_euclid(self, rhs: Self) -> Option<Self> {
        proof {
            if rhs != 0 {
                lemma_div_rem_trunc_forms(self as int, rhs as int);
            }
        }
        u8::checked_rem_euclid(self, rhs)
    }

    fn wrapping_add(self, rhs: Self) -> Self {
        proof {
            lemma_wrap_range_near(self as int + rhs as int, u8::MIN as int, u8::MAX as int);
        }
        u8::wrapping_add(self, rhs)
    }

    fn wrapping_sub(self, rhs: Self) -> Self {
        proof {
            lemma_wrap_range_near(self as int - rhs as int, u8::MIN as int, u8::MAX as int);
        }
        u8::wrapping_sub(self, rhs)
    }

    fn wrapping_mul(self, rhs: Self) -> Self {
        proof {
            vstd::arithmetic::div_mod::lemma_mod_division_less_than_divisor(
                self as int * rhs as int,
                0x100int,
            );
            vstd::arithmetic::mul::lemma_mul_nonnegative(self as int, rhs as int);
        }
        u8::wrapping_mul(self, rhs)
    }

    fn wrapping_shl(self, k: u32) -> Self {
        u8::wrapping_shl(self, k)
    }

    fn wrapping_shr(self, k: u32) -> Self {
        u8::wrapping_shr(self, k)
    }
}

impl Integral for u16 {
    open spec fn as_int(self) -> int {
        self as int
    }

    open spec fn min_int() -> int {
        u16::MIN as int
    }

    open spec fn max_int() -> int {
        u16::MAX as int
    }

    open spec fn is_signed() -> bool {
        false
    }

    open spec fn bits() -> nat {
        16
    }

    open spec fn shl_spec(self, k: u32) -> u16 {
        vstd::wrapping::u16_specs::wrapping_shl(self, k)
    }

    open spec fn shr_spec(self, k: u32) -> u16 {
        vstd::wrapping::u16_specs::wrapping_shr(self, k)
    }

    proof fn range_properties() {
        lemma2_to64();
    }

    proof fn in_bounds(self) {
    }

    proof fn shr_unsigned_is_div(self, k: u32) {
        vstd::bits::lemma_u16_shr_is_div(self, k as u16);
        assert(self >> (k % 16) == self >> (k as u16)) by (bit_vector)
            requires
                k < 16,
        ;
    }

    fn min_value() -> Self {
        u16::MIN
    }

    fn max_value() -> Self {
        u16::MAX
    }

    fn zero() -> Self {
        0u16
    }

    fn one() -> Self {
        1u16
    }

    fn bit_count() -> u32 {
        16u32
    }

    fn eq_value(self, other: Self) -> bool {
        self == other
    }

    fn lt_value(self, other: Self) -> bool {
        self < other
    }

    fn cmp_value(self, other: Self) -> core::cmp::Ordering {
        if self < other {
            core::cmp::Ordering::Less
        } else if self == other {
            core::cmp::Ordering::Equal
        } else {
            core::cmp::Ordering::Greater
        }
    }

    fn is_neg(self) -> bool {
        false
    }

    fn as_shift(self) -> Option<u32> {
        Some(self as u32)
    }

    fn checked_add(self, rhs: Self) -> Option<Self> {
        u16::checked_add(self, rhs)
    }

    fn checked_sub(self, rhs: Self) -> Option<Self> {
        u16::checked_sub(self, rhs)
    }

    fn checked_mul(self, rhs: Self) -> Option<Self> {
        u16::checked_mul(self, rhs)
    }

    fn checked_div(self, rhs: Self) -> Option<Self> {
        proof {
            if rhs != 0 {
                lemma_div_rem_trunc_forms(self as int, rhs as int);
            }
        }
        u16::checked_div(self, rhs)
    }

    fn checked_rem(self, rhs: Self) -> Option<Self> {
        proof {
            if rhs != 0 {
                lemma_div_rem_trunc_forms(self as int, rhs as int);
            }
        }
        u16::checked_rem(self, rhs)
    }

    fn checked_div_euclid(self, rhs: Self) -> Option<Self> {
        proof {
            if rhs != 0 {
                lemma_div_rem_trunc_forms(self as int, rhs as int);
            }
        }
        u16::checked_div_euclid(self, rhs)
    }

    fn checked_rem_euclid(self, rhs: Self) -> Option<Self> {
        proof {
            if rhs != 0 {
                lemma_div_rem_trunc_forms(self as int, rhs as int);
            }
        }
        u16::checked_rem_euclid(self, rhs)
    }

    fn wrapping_add(self, rhs: Self) -> Self {
        proof {
            lemma_wrap_range_near(self as int + rhs as int, u16::MIN as int, u16::MAX as int);
        }
        u16::wrapping_add(self, rhs)
    }

    fn wrapping_sub(self, rhs: Self) -> Self {
        proof {
            lemma_wrap_range_near(self as int - rhs as int, u16::MIN as int, u16::MAX as int);
        }
        u16::wrapping_sub(self, rhs)
    }

    fn wrapping_mul(self, rhs: Self) -> Self {
        proof {
            vstd::arithmetic::div_mod::lemma_mod_division_less_than_divisor(
                self as int * rhs as int,
                0x1_0000int,
            );
            vstd::arithmetic::mul::lemma_mul_nonnegative(self as int, rhs as int);
        }
        u16::wrapping_mul(self, rhs)
    }

    fn wrapping_shl(self, k: u32) -> Self {
        u16::wrapping_shl(self, k)
    }

    fn wrapping_shr(self, k: u32) -> Self {
        u16::wrapping_shr(self, k)
    }
}

impl Integral for u32 {
    open spec fn as_int(self) -> int {
        self as int
    }

    open spec fn min_int() -> int {
        u32::MIN as int
    }

    open spec fn max_int() -> int {
        u32::MAX as int
    }

    open spec fn is_signed() -> bool {
        false
    }

    open spec fn bits() -> nat {
        32
    }

    open spec fn shl_spec(self, k: u32) -> u32 {
        vstd::wrapping::u32_specs::wrapping_shl(self, k)
    }

    open spec fn shr_spec(self, k: u32) -> u32 {
        vstd::wrapping::u32_specs::wrapping_shr(self, k)
    }

    proof fn range_properties() {
        lemma2_to64();
    }

    proof fn in_bounds(self) {
    }

    proof fn shr_unsigned_is_div(self, k: u32) {
        vstd::bits::lemma_u32_shr_is_div(self, k as u32);
        assert(self >> (k % 32) == self >> (k as u32)) by (bit_vector)
            requires
                k < 32,
        ;
    }

    fn min_value() -> Self {
        u32::MIN
    }

    fn max_value() -> Self {
        u32::MAX
    }

    fn zero() -> Self {
        0u32
    }

    fn one() -> Self {
        1u32
    }

    fn bit_count() -> u32 {
        32u32
    }

    fn eq_value(self, other: Self) -> bool {
        self == other
    }

    fn lt_value(self, other: Self) -> bool {
        self < other
    }

    fn cmp_value(self, other: Self) -> core::cmp::Ordering {
        if self < other {
            core::cmp::Ordering::Less
        } else if self == other {
            core::cmp::Ordering::Equal
        } else {
            core::cmp::Ordering::Greater
        }
    }

    fn is_neg(self) -> bool {
        false
    }

    fn as_shift(self) -> Option<u32> {
        Some(self as u32)
    }

    fn checked_add(self, rhs: Self) -> Option<Self> {
        u32::checked_add(self, rhs)
    }

    fn checked_sub(self, rhs: Self) -> Option<Self> {
        u32::checked_sub(self, rhs)
    }

    fn checked_mul(self, rhs: Self) -> Option<Self> {
        u32::checked_mul(self, rhs)
    }

    fn checked_div(self, rhs: Self) -> Option<Self> {
        proof {
            if rhs != 0 {
                lemma_div_rem_trunc_forms(self as int, rhs as int);
            }
        }
        u32::checked_div(self, rhs)
    }

    fn checked_rem(self, rhs: Self) -> Option<Self> {
        proof {
            if rhs != 0 {
                lemma_div_rem_trunc_forms(self as int, rhs as int);
            }
        }
        u32::checked_rem(self, rhs)
    }

    fn checked_div_euclid(self, rhs: Self) -> Option<Self> {
        proof {
            if rhs != 0 {
                lemma_div_rem_trunc_forms(self as int, rhs as int);
            }
        }
        u32::checked_div_euclid(self, rhs)
    }

    fn checked_rem_euclid(self, rhs: Self) -> Option<Self> {
        proof {
            if rhs != 0 {
                lemma_div_rem_trunc_forms(self as int, rhs as int);
            }
        }
        u32::checked_rem_euclid(self, rhs)
    }

    fn wrapping_add(self, rhs: Self) -> Self {
        proof {
            lemma_wrap_range_near(self as int + rhs as int, u32::MIN as int, u32::MAX as int);
        }
        u32::wrapping_add(self, rhs)
    }

    fn wrapping_sub(self, rhs: Self) -> Self {
        proof {
            lemma_wrap_range_near(self as int - rhs as int, u32::MIN as int, u32::MAX as int);
        }
        u32::wrapping_sub(self, rhs)
    }

    fn wrapping_mul(self, rhs: Self) -> Self {
        proof {
            vstd::arithmetic::div_mod::lemma_mod_division_less_than_divisor(
                self as int * rhs as int,
                0x1_0000_0000int,
            );
            vstd::arithmetic::mul::lemma_mul_nonnegative(self as int, rhs as int);
        }
        u32::wrapping_mul(self, rhs)
    }

    fn wrapping_shl(self, k: u32) -> Self {
        u32::wrapping_shl(self, k)
    }

    fn wrapping_shr(self, k: u32) -> Self {
        u32::wrapping_shr(self, k)
    }
}

impl Integral for u64 {
    open spec fn as_int(self) -> int {
        self as int
    }

    open spec fn min_int() -> int {
        u64::MIN as int
    }

    open spec fn max_int() -> int {
        u64::MAX as int
    }

    open spec fn is_signed() -> bool {
        false
    }

    open spec fn bits() -> nat {
        64
    }

    open spec fn shl_spec(self, k: u32) -> u64 {
        vstd::wrapping::u64_specs::wrapping_shl(self, k)
    }

    open spec fn shr_spec(self, k: u32) -> u64 {
        vstd::wrapping::u64_specs::wrapping_shr(self, k)
    }

    proof fn range_properties() {
        lemma2_to64();
    }

    proof fn in_bounds(self) {
    }

    proof fn shr_unsigned_is_div(self, k: u32) {
        vstd::bits::lemma_u64_shr_is_div(self, k as u64);
        assert(self >> (k % 64) == self >> (k as u64)) by (bit_vector)
            requires
                k < 64,
        ;
    }

    fn min_value() -> Self {
        u64::MIN
    }

    fn max_value() -> Self {
        u64::MAX
    }

    fn zero() -> Self {
        0u64
    }

    fn one() -> Self {
        1u64
    }

    fn bit_count() -> u32 {
        64u32
    }

    fn eq_value(self, other: Self) -> bool {
        self == other
    }

    fn lt_value(self, other: Self) -> bool {
        self < other
    }

    fn cmp_value(self, other: Self) -> core::cmp::Ordering {
        if self < other {
            core::cmp::Ordering::Less
        } else if self == other {
            core::cmp::Ordering::Equal
        } else {
            core::cmp::Ordering::Greater
        }
    }

    fn is_neg(self) -> bool {
        false
    }

    fn as_shift(self) -> Option<u32> {
        if self > u32::MAX as u64 {
            None
        } else {
            Some(self as u32)
        }
    }

    fn checked_add(self, rhs: Self) -> Option<Self> {
        u64::checked_add(self, rhs)
    }

    fn checked_sub(self, rhs: Self) -> Option<Self> {
        u64::checked_sub(self, rhs)
    }

    fn checked_mul(self, rhs: Self) -> Option<Self> {
        u64::checked_mul(self, rhs)
    }

    fn checked_div(self, rhs: Self) -> Option<Self> {
        proof {
            if rhs != 0 {
                lemma_div_rem_trunc_forms(self as int, rhs as int);
            }
        }
        u64::checked_div(self, rhs)
    }

    fn checked_rem(self, rhs: Self) -> Option<Self> {
        proof {
            if rhs != 0 {
                lemma_div_rem_trunc_forms(self as int, rhs as int);
            }
        }
        u64::checked_rem(self, rhs)
    }

    fn checked_div_euclid(self, rhs: Self) -> Option<Self> {
        proof {
            if rhs != 0 {
                lemma_div_rem_trunc_forms(self as int, rhs as int);
            }
        }
        u64::checked_div_euclid(self, rhs)
    }

    fn checked_rem_euclid(self, rhs: Self) -> Option<Self> {
        proof {
            if rhs != 0 {
                lemma_div_rem_trunc_forms(self as int, rhs as int);
            }
        }
        u64::checked_rem_euclid(self, rhs)
    }

    fn wrapping_add(self, rhs: Self) -> Self {
        proof {
            lemma_wrap_range_near(self as int + rhs as int, u64::MIN as int, u64::MAX as int);
        }
        u64::wrapping_add(self, rhs)
    }

    fn wrapping_sub(self, rhs: Self) -> Self {
        proof {
            lemma_wrap_range_near(self as int - rhs as int, u64::MIN as int, u64::MAX as int);
        }
        u64::wrapping_sub(self, rhs)
    }

    fn wrapping_mul(self, rhs: Self) -> Self {
        proof {
            vstd::arithmetic::div_mod::lemma_mod_division_less_than_divisor(
                self as int * rhs as int,
                0x1_0000_0000_0000_0000int,
            );
            vstd::arithmetic::mul::lemma_mul_nonnegative(self as int, rhs as int);
        }
        u64::wrapping_mul(self, rhs)
    }

    fn wrapping_shl(self, k: u32) -> Self {
        u64::wrapping_shl(self, k)
    }

    fn wrapping_shr(self, k: u32) -> Self {
        u64::wrapping_shr(self, k)
    }
}

impl Integral for u128 {
    open spec fn as_int(self) -> int {
        self as int
    }

    open spec fn min_int() -> int {
        u128::MIN as int
    }

    open spec fn max_int() -> int {
        u128::MAX as int
    }

    open spec fn is_signed() -> bool {
        false
    }

    open spec fn bits() -> nat {
        128
    }

    open spec fn shl_spec(self, k: u32) -> u128 {
        vstd::wrapping::u128_specs::wrapping_shl(self, k)
    }

    open spec fn shr_spec(self, k: u32) -> u128 {
        vstd::wrapping::u128_specs::wrapping_shr(self, k)
    }

    proof fn range_properties() {
        lemma2_to64();
        lemma_pow2_adds(64, 64);
    }

    proof fn in_bounds(self) {
    }

    proof fn shr_unsigned_is_div(self, k: u32) {
        vstd::bits::lemma_u128_shr_is_div(self, k as u128);
        assert(self >> (k % 128) == self >> (k as u128)) by (bit_vector)
            requires
                k < 128,
        ;
    }

    fn min_value() -> Self {
        u128::MIN
    }

    fn max_value() -> Self {
        u128::MAX
    }

    fn zero() -> Self {
        0u128
    }

    fn one() -> Self {
        1u128
    }

    fn bit_count() -> u32 {
        128u32
    }

    fn eq_value(self, other: Self) -> bool {
        self == other
    }

    fn lt_value(self, other: Self) -> bool {
        self < other
    }

    fn cmp_value(self, other: Self) -> core::cmp::Ordering {
        if self < other {
            core::cmp::Ordering::Less
        } else if self == other {
            core::cmp::Ordering::Equal
        } else {
            core::cmp::Ordering::Greater
        }
    }

    fn is_neg(self) -> bool {
        false
    }

    fn as_shift(self) -> Option<u32> {
        if self > u32::MAX as u128 {
            None
        } else {
            Some(self as u32)
        }
    }

    fn checked_add(self, rhs: Self) -> Option<Self> {
        u128::checked_add(self, rhs)
    }

    fn checked_sub(self, rhs: Self) -> Option<Self> {
        u128::checked_sub(self, rhs)
    }

    fn checked_mul(self, rhs: Self) -> Option<Self> {
        u128::checked_mul(self, rhs)
    }

    fn checked_div(self, rhs: Self) -> Option<Self> {
        proof {
            if rhs != 0 {
                lemma_div_rem_trunc_forms(self as int, rhs as int);
            }
        }
        u128::checked_div(self, rhs)
    }

    fn checked_rem(self, rhs: Self) -> Option<Self> {
        proof {
            if rhs != 0 {
                lemma_div_rem_trunc_forms(self as int, rhs as int);
            }
        }
        u128::checked_rem(self, rhs)
    }

    fn checked_div_euclid(self, rhs: Self) -> Option<Self> {
        proof {
            if rhs != 0 {
                lemma_div_rem_trunc_forms(self as int, rhs as int);
            }
        }
        u128::checked_div_euclid(self, rhs)
    }

    fn checked_rem_euclid(self, rhs: Self) -> Option<Self> {
        proof {
            if rhs != 0 {
                lemma_div_rem_trunc_forms(self as int, rhs as int);
            }
        }
        u128::checked_rem_euclid(self, rhs)
    }

    fn wrapping_add(self, rhs: Self) -> Self {
        proof {
            lemma_wrap_range_near(self as int + rhs as int, u128::MIN as int, u128::MAX as int);
        }
        u128::wrapping_add(self, rhs)
    }

    fn wrapping_sub(self, rhs: Self) -> Self {
        proof {
            lemma_wrap_range_near(self as int - rhs as int, u128::MIN as int, u128::MAX as int);
        }
        u128::wrapping_sub(self, rhs)
    }

    fn wrapping_mul(self, rhs: Self) -> Self {
        proof {
            vstd::arithmetic::div_mod::lemma_mod_division_less_than_divisor(
                self as int * rhs as int,
                0x1_0000_0000_0000_0000_0000_0000_0000_0000int,
            );
            vstd::arithmetic::mul::lemma_mul_nonnegative(self as int, rhs as int);
        }
        u128::wrapping_mul(self, rhs)
    }

    fn wrapping_shl(self, k: u32) -> Self {
        u128::wrapping_shl(self, k)
    }

    fn wrapping_shr(self, k: u32) -> Self {
        u128::wrapping_shr(self, k)
    }
}

impl Integral for usize {
    open spec fn as_int(self) -> int {
        self as int
    }

    open spec fn min_int() -> int {
        usize::MIN as int
    }

    open spec fn max_int() -> int {
        usize::MAX as int
    }

    open spec fn is_signed() -> bool {
        false
    }

    open spec fn bits() -> nat {
        usize::BITS as nat
    }

    open spec fn shl_spec(self, k: u32) -> usize {
        vstd::wrapping::usize_specs::wrapping_shl(self, k)
    }

    open spec fn shr_spec(self, k: u32) -> usize {
        vstd::wrapping::usize_specs::wrapping_shr(self, k)
    }

    proof fn range_properties() {
        lemma2_to64();
        assert(usize::BITS == 32 || usize::BITS == 64);
    }

    proof fn in_bounds(self) {
    }

    proof fn shr_unsigned_is_div(self, k: u32) {
        vstd::bits::lemma_usize_shr_is_div(self, k as usize);
        assert(self >> (k % usize::BITS) == self >> (k as usize)) by (bit_vector)
            requires
                k < usize::BITS,
        ;
    }

    fn min_value() -> Self {
        usize::MIN
    }

    fn max_value() -> Self {
        usize::MAX
    }

    fn zero() -> Self {
        0usize
    }

    fn one() -> Self {
        1usize
    }

    fn bit_count() -> u32 {
        usize::BITS
    }

    fn eq_value(self, other: Self) -> bool {
        self == other
    }

    fn lt_value(self, other: Self) -> bool {
        self < other
    }

    fn cmp_value(self, other: Self) -> core::cmp::Ordering {
        if self < other {
            core::cmp::Ordering::Less
        } else if self == other {
            core::cmp::Ordering::Equal
        } else {
            core::cmp::Ordering::Greater
        }
    }

    fn is_neg(self) -> bool {
        false
    }

    fn as_shift(self) -> Option<u32> {
        if self as u64 > u32::MAX as u64 {
            None
        } else {
            Some(self as u32)
        }
    }

    fn checked_add(self, rhs: Self) -> Option<Self> {
        usize::checked_add(self, rhs)
    }

    fn checked_sub(self, rhs: Self) -> Option<Self> {
        usize::checked_sub(self, rhs)
    }

    fn checked_mul(self, rhs: Self) -> Option<Self> {
        usize::checked_mul(self, rhs)
    }

    fn checked_div(self, rhs: Self) -> Option<Self> {
        proof {
            if rhs != 0 {
                lemma_div_rem_trunc_forms(self as int, rhs as int);
            }
        }
        usize::checked_div(self, rhs)
    }

    fn checked_rem(self, rhs: Self) -> Option<Self> {
        proof {
            if rhs != 0 {
                lemma_div_rem_trunc_forms(self as int, rhs as int);
            }
        }
        usize::checked_rem(self, rhs)
    }

    fn checked_div_euclid(self, rhs: Self) -> Option<Self> {
        proof {
            if rhs != 0 {
                lemma_div_rem_trunc_forms(self as int, rhs as int);
            }
        }
        usize::checked_div_euclid(self, rhs)
    }

    fn checked_rem_euclid(self, rhs: Self) -> Option<Self> {
        proof {
            if rhs != 0 {
                lemma_div_rem_trunc_forms(self as int, rhs as int);
            }
        }
        usize::checked_rem_euclid(self, rhs)
    }

    fn wrapping_add(self, rhs: Self) -> Self {
        proof {
            lemma_wrap_range_near(self as int + rhs as int, usize::MIN as int, usize::MAX as int);
        }
        usize::wrapping_add(self, rhs)
    }

    fn wrapping_sub(self, rhs: Self) -> Self {
        proof {
            lemma_wrap_range_near(self as int - rhs as int, usize::MIN as int, usize::MAX as int);
        }
        usize::wrapping_sub(self, rhs)
    }

    fn wrapping_mul(self, rhs: Self) -> Self {
        proof {
            vstd::arithmetic::div_mod::lemma_mod_division_less_than_divisor(
                self as int * rhs as int,
                usize::MAX as int + 1,
            );
            vstd::arithmetic::mul::lemma_mul_nonnegative(self as int, rhs as int);
        }
        usize::wrapping_mul(self, rhs)
    }

    fn wrapping_shl(self, k: u32) -> Self {
        usize::wrapping_shl(self, k)
    }

    fn wrapping_shr(self, k: u32) -> Self {
        usize::wrapping_shr(self, k)
    }
}

} // verus!
