use surety::wrapping::Wrapping;
use surety::Ensure;

#[test]
fn wrap_add_past_top_and_back() {
    let num = 120i8.wrapping();
    let wrapped = num.add_num(10i8);
    assert_eq!(wrapped.value, -126i8);
    let reverse = wrapped.sub_num(20i8);
    assert_eq!(reverse.value, 110i8);
}

#[test]
fn wrap_add_is_modular() {
    let a = Wrapping::new(200u8);
    let b = Wrapping::new(100u8);
    assert_eq!(a.add(b).value, 44u8);
    let c = Wrapping::new(i8::MAX);
    assert_eq!(c.add_num(1i8).value, i8::MIN);
}

#[test]
fn wrap_sub_past_bottom() {
    let a = Wrapping::new(5u8);
    assert_eq!(a.sub_num(10u8).value, 251u8);
    let b = Wrapping::new(i8::MIN);
    assert_eq!(b.sub_num(1i8).value, i8::MAX);
}

#[test]
fn wrap_mul_discards_high_bits() {
    assert_eq!(Wrapping::new(200u8).mul_num(2u8).value, 144u8);
    assert_eq!(Wrapping::new(64i8).mul_num(4i8).value, 0i8);
    assert_eq!(Wrapping::new(3u8).mul(Wrapping::new(7u8)).value, 21u8);
}

#[test]
fn wrap_div_wraps_only_min_by_minus_one() {
    let m = Wrapping::new(i8::MIN);
    assert_eq!(m.div_num(-1i8).value, i8::MIN);
    assert_eq!(m.rem_num(-1i8).value, 0i8);
    assert_eq!(Wrapping::new(7i8).div_num(2i8).value, 3i8);
    assert_eq!(Wrapping::new(-7i8).div_num(2i8).value, -3i8);
    assert_eq!(Wrapping::new(-7i8).rem_num(2i8).value, -1i8);
    assert_eq!(Wrapping::new(250u8).div_num(7u8).value, 35u8);
}

#[test]
fn wrap_euclidean_forms() {
    assert_eq!(Wrapping::new(-7i16).div_euclid(Wrapping::new(2i16)).value, -4i16);
    assert_eq!(Wrapping::new(-7i16).rem_euclid(Wrapping::new(2i16)).value, 1i16);
    let m = Wrapping::new(i8::MIN);
    assert_eq!(m.div_euclid(Wrapping::new(-1i8)).value, i8::MIN);
    assert_eq!(m.rem_euclid(Wrapping::new(-1i8)).value, 0i8);
}

#[test]
fn wrap_neg_and_abs() {
    assert_eq!(Wrapping::new(5i8).neg().value, -5i8);
    assert_eq!(Wrapping::new(i8::MIN).neg().value, i8::MIN);
    assert_eq!(Wrapping::new(-5i8).abs().value, 5i8);
    assert_eq!(Wrapping::new(i8::MIN).abs().value, i8::MIN);
}

#[test]
fn wrap_pow_reduces_each_step() {
    assert_eq!(Wrapping::new(3u8).pow(5).value, 243u8);
    assert_eq!(Wrapping::new(2u8).pow(9).value, 0u8);
    assert_eq!(Wrapping::new(-2i8).pow(7).value, -128i8);
    assert_eq!(Wrapping::new(5i32).pow(0).value, 1i32);
}

#[test]
fn wrap_shifts_mask_the_amount() {
    assert_eq!(Wrapping::new(1u8).shl_num(3u8).value, 8u8);
    assert_eq!(Wrapping::new(0x80u8).shr_num(7u8).value, 1u8);
    assert_eq!(Wrapping::new(1u8).shl_num(8u32).value, 1u8);
    assert_eq!(Wrapping::new(1u8).shl(Wrapping::new(9u16)).value, 2u8);
}

#[test]
fn wrap_assign_forms() {
    let mut a = Wrapping::new(250u8);
    a.add_assign(Wrapping::new(10u8));
    assert_eq!(a.value, 4u8);
    a.sub_assign(Wrapping::new(5u8));
    assert_eq!(a.value, 255u8);
    a.mul_assign(Wrapping::new(2u8));
    assert_eq!(a.value, 254u8);
    a.div_assign(Wrapping::new(3u8));
    assert_eq!(a.value, 84u8);
    a.rem_assign(Wrapping::new(10u8));
    assert_eq!(a.value, 4u8);
}

#[test]
fn wrap_compares_against_bare_integers() {
    let a = Wrapping::new(42u8);
    assert!(a.eq_num(&42u8));
    assert!(!a.eq_num(&41u8));
    assert_eq!(a.cmp_num(&50u8), std::cmp::Ordering::Less);
    assert_eq!(a.cmp_num(&42u8), std::cmp::Ordering::Equal);
    assert_eq!(a.cmp_num(&7u8), std::cmp::Ordering::Greater);
    assert_eq!(*a.as_ref(), 42u8);
    let mut m = a;
    *m.as_mut() = 7u8;
    assert_eq!(m.value, 7u8);
}

#[test]
fn wrap_every_width() {
    assert_eq!(Wrapping::new(u16::MAX).add_num(1u16).value, 0u16);
    assert_eq!(Wrapping::new(u32::MAX).add_num(2u32).value, 1u32);
    assert_eq!(Wrapping::new(u64::MAX).add_num(1u64).value, 0u64);
    assert_eq!(Wrapping::new(u128::MAX).add_num(1u128).value, 0u128);
    assert_eq!(Wrapping::new(usize::MAX).add_num(1usize).value, 0usize);
    assert_eq!(Wrapping::new(i16::MAX).add_num(1i16).value, i16::MIN);
    assert_eq!(Wrapping::new(i32::MAX).add_num(1i32).value, i32::MIN);
    assert_eq!(Wrapping::new(i64::MAX).add_num(1i64).value, i64::MIN);
    assert_eq!(Wrapping::new(i128::MAX).add_num(1i128).value, i128::MIN);
    assert_eq!(Wrapping::new(isize::MAX).add_num(1isize).value, isize::MIN);
}
