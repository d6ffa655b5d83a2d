use surety::overflowing::Overflowing;
use surety::Ensure;

#[test]
fn over_records_and_keeps_wrapping() {
    let num = 120i8.overflowing();
    let o2 = num.add_num(10i8);
    assert_eq!(o2.value, -126i8);
    assert!(o2.has_overflowed);
    let o3 = o2.sub_num(20i8);
    assert_eq!(o3.value, 110i8);
    assert!(o3.has_overflowed);
}

#[test]
fn over_exact_arithmetic_leaves_flag_clear() {
    let a = Overflowing::new(3i8);
    let b = Overflowing::new(4i8);
    let sum = a.add(b);
    assert_eq!(sum.value, 7i8);
    assert!(!sum.has_overflowed);
    let diff = a.sub_num(10i8);
    assert_eq!(diff.value, -7i8);
    assert!(!diff.has_overflowed);
    let prod = a.mul(b);
    assert_eq!(prod.value, 12i8);
    assert!(!prod.has_overflowed);
}

#[test]
fn over_flag_is_sticky_under_every_operand() {
    let flagged = Overflowing::with_flag(10u8, true);
    assert!(flagged.add_num(1u8).has_overflowed);
    assert!(flagged.sub_num(1u8).has_overflowed);
    assert!(flagged.mul_num(2u8).has_overflowed);
    assert!(flagged.div_num(2u8).has_overflowed);
    assert!(flagged.rem_num(3u8).has_overflowed);
    assert!(Overflowing::new(1u8).add(flagged).has_overflowed);
    assert!(Overflowing::new(1u8).mul(flagged).has_overflowed);
}

#[test]
fn over_division_overflow_pair() {
    let m = Overflowing::new(i8::MIN);
    let minus_one = Overflowing::new(-1i8);
    let d = m.div(minus_one);
    assert_eq!(d.value, i8::MIN);
    assert!(d.has_overflowed);
    let r = m.rem(minus_one);
    assert_eq!(r.value, 0i8);
    assert!(r.has_overflowed);
    let de = m.div_euclid(minus_one);
    assert_eq!(de.value, i8::MIN);
    assert!(de.has_overflowed);
    let re = m.rem_euclid(minus_one);
    assert_eq!(re.value, 0i8);
    assert!(re.has_overflowed);
}

#[test]
fn over_ordinary_division_is_exact() {
    let d = Overflowing::new(7i8).div_num(2i8);
    assert_eq!(d.value, 3i8);
    assert!(!d.has_overflowed);
    let r = Overflowing::new(-7i8).rem_num(2i8);
    assert_eq!(r.value, -1i8);
    assert!(!r.has_overflowed);
    let de = Overflowing::new(-7i8).div_euclid(Overflowing::new(2i8));
    assert_eq!(de.value, -4i8);
    assert!(!de.has_overflowed);
    let re = Overflowing::new(-7i8).rem_euclid(Overflowing::new(2i8));
    assert_eq!(re.value, 1i8);
    assert!(!re.has_overflowed);
}

#[test]
fn over_neg_and_abs() {
    let n = Overflowing::new(5i8).neg();
    assert_eq!(n.value, -5i8);
    assert!(!n.has_overflowed);
    let m = Overflowing::new(i8::MIN).neg();
    assert_eq!(m.value, i8::MIN);
    assert!(m.has_overflowed);
    let a = Overflowing::new(-5i8).abs();
    assert_eq!(a.value, 5i8);
    assert!(!a.has_overflowed);
    let ma = Overflowing::new(i8::MIN).abs();
    assert_eq!(ma.value, i8::MIN);
    assert!(ma.has_overflowed);
}

#[test]
fn over_pow_records_escape() {
    let p = Overflowing::new(2u8).pow(3);
    assert_eq!(p.value, 8u8);
    assert!(!p.has_overflowed);
    let q = Overflowing::new(2u8).pow(9);
    assert_eq!(q.value, 0u8);
    assert!(q.has_overflowed);
    let s = Overflowing::new(-2i8).pow(7);
    assert_eq!(s.value, -128i8);
    assert!(!s.has_overflowed);
}

#[test]
fn over_shifts_record_large_amounts() {
    let a = Overflowing::new(1u8).shl_num(3u8);
    assert_eq!(a.value, 8u8);
    assert!(!a.has_overflowed);
    let b = Overflowing::new(1u8).shl_num(9u16);
    assert_eq!(b.value, 2u8);
    assert!(b.has_overflowed);
    let c = Overflowing::new(0x80u8).shr(Overflowing::new(7u32));
    assert_eq!(c.value, 1u8);
    assert!(!c.has_overflowed);
    let d = Overflowing::new(0x80u8).shr(Overflowing::with_flag(1u32, true));
    assert_eq!(d.value, 0x40u8);
    assert!(d.has_overflowed);
}

#[test]
fn over_assign_forms() {
    let mut a = Overflowing::new(250u8);
    a.add_assign(Overflowing::new(10u8));
    assert_eq!(a.value, 4u8);
    assert!(a.has_overflowed);
    a.sub_assign(Overflowing::new(4u8));
    assert_eq!(a.value, 0u8);
    assert!(a.has_overflowed);
    let mut b = Overflowing::new(6u8);
    b.mul_assign(Overflowing::new(7u8));
    assert_eq!(b.value, 42u8);
    assert!(!b.has_overflowed);
    b.div_assign(Overflowing::new(4u8));
    assert_eq!(b.value, 10u8);
    b.rem_assign(Overflowing::new(4u8));
    assert_eq!(b.value, 2u8);
    assert!(!b.has_overflowed);
}

#[test]
fn over_compares_by_value_alone() {
    let a = Overflowing::with_flag(9u8, true);
    assert!(a.eq_num(&9u8));
    assert!(!a.eq_num(&8u8));
    assert_eq!(a.cmp_num(&10u8), std::cmp::Ordering::Less);
    assert_eq!(a.cmp_num(&9u8), std::cmp::Ordering::Equal);
    assert_eq!(a.cmp_num(&0u8), std::cmp::Ordering::Greater);
    assert_eq!(*a.as_ref(), 9u8);
    let mut m = a;
    *m.as_mut() = 3u8;
    assert_eq!(m.value, 3u8);
    assert!(m.has_overflowed);
}

#[test]
fn over_every_width_wraps_with_flag() {
    let a = Overflowing::new(u16::MAX).add_num(1u16);
    assert_eq!(a.value, 0u16);
    assert!(a.has_overflowed);
    let b = Overflowing::new(i32::MAX).add_num(1i32);
    assert_eq!(b.value, i32::MIN);
    assert!(b.has_overflowed);
    let c = Overflowing::new(u64::MAX).mul_num(2u64);
    assert_eq!(c.value, u64::MAX - 1);
    assert!(c.has_overflowed);
    let d = Overflowing::new(i128::MIN).sub_num(1i128);
    assert_eq!(d.value, i128::MAX);
    assert!(d.has_overflowed);
    let e = Overflowing::new(usize::MAX).add_num(1usize);
    assert_eq!(e.value, 0usize);
    assert!(e.has_overflowed);
}
