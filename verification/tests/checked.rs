use surety::checked::Checked;
use surety::Ensure;

#[test]
fn checked_overflow_erases_until_reset() {
    let num = 120i8.checked();
    let valid = num.sub_num(10i8);
    assert_eq!(valid.value, Some(110i8));
    let invalid = valid.add_num(20i8);
    assert!(invalid.is_none());
    let still = invalid.sub_num(2i8);
    assert!(still.is_none());
    let reset = still.or_insert(0i8);
    assert_eq!(reset.value, Some(0i8));
}

#[test]
fn checked_add_and_sub_detect_overflow() {
    assert_eq!(Checked::new(200u8).add(Checked::new(100u8)).value, None);
    assert_eq!(Checked::new(200u8).add_num(55u8).value, Some(255u8));
    assert_eq!(Checked::new(5u8).sub_num(6u8).value, None);
    assert_eq!(Checked::new(i8::MIN).sub_num(1i8).value, None);
}

#[test]
fn checked_mul_detects_overflow() {
    assert_eq!(Checked::new(16u8).mul_num(15u8).value, Some(240u8));
    assert_eq!(Checked::new(16u8).mul_num(16u8).value, None);
    assert_eq!(Checked::new(-11i8).mul_num(11i8).value, Some(-121i8));
    assert_eq!(Checked::new(-12i8).mul_num(12i8).value, None);
}

#[test]
fn checked_zero_divisor_degrades_to_absent() {
    assert_eq!(Checked::new(7u8).div_num(0u8).value, None);
    assert_eq!(Checked::new(7u8).rem_num(0u8).value, None);
    assert_eq!(Checked::new(7i8).div_euclid(Checked::new(0i8)).value, None);
    assert_eq!(Checked::new(7i8).rem_euclid(Checked::new(0i8)).value, None);
    assert_eq!(Checked::new(-7i8).div_num(0i8).value, None);
    assert_eq!(Checked::new(-7i8).rem_num(0i8).value, None);
    assert_eq!(Checked::new(7u64).div_euclid(Checked::new(0u64)).value, None);
    assert_eq!(Checked::new(7u64).rem_euclid(Checked::new(0u64)).value, None);
}

#[test]
fn checked_division_overflow_pair() {
    assert_eq!(Checked::new(i8::MIN).div_num(-1i8).value, None);
    assert_eq!(Checked::new(i8::MIN).rem_num(-1i8).value, None);
    assert_eq!(Checked::new(i8::MIN).div_euclid(Checked::new(-1i8)).value, None);
    assert_eq!(Checked::new(i8::MIN).rem_euclid(Checked::new(-1i8)).value, None);
    assert_eq!(Checked::new(-7i8).div_num(2i8).value, Some(-3i8));
    assert_eq!(Checked::new(-7i8).rem_num(2i8).value, Some(-1i8));
    assert_eq!(Checked::new(-7i8).div_euclid(Checked::new(2i8)).value, Some(-4i8));
    assert_eq!(Checked::new(-7i8).rem_euclid(Checked::new(2i8)).value, Some(1i8));
}

#[test]
fn checked_neg_and_abs() {
    assert_eq!(Checked::new(5i8).neg().value, Some(-5i8));
    assert_eq!(Checked::new(i8::MIN).neg().value, None);
    assert_eq!(Checked::new(-5i8).abs().value, Some(5i8));
    assert_eq!(Checked::new(i8::MIN).abs().value, None);
    assert_eq!(Checked::new(5i8).abs().value, Some(5i8));
}

#[test]
fn checked_pow_detects_overflow() {
    assert_eq!(Checked::new(2u8).pow(7).value, Some(128u8));
    assert_eq!(Checked::new(2u8).pow(8).value, None);
    assert_eq!(Checked::new(3i8).pow(4).value, Some(81i8));
    assert_eq!(Checked::new(-2i8).pow(7).value, Some(-128i8));
    assert_eq!(Checked::new(-2i8).pow(8).value, None);
    assert_eq!(Checked::new(0i32).pow(0).value, Some(1i32));
}

#[test]
fn checked_shifts_degrade_to_absent() {
    assert_eq!(Checked::new(1u8).shl_num(7u8).value, Some(128u8));
    assert_eq!(Checked::new(1u8).shl_num(8u8).value, None);
    assert_eq!(Checked::new(1u8).shl_num(-1i8).value, None);
    assert_eq!(Checked::new(128u8).shr_num(7u32).value, Some(1u8));
    assert_eq!(Checked::new(128u8).shr_num(1u64 << 40).value, None);
    assert_eq!(Checked::new(1u8).shl(Checked::new(3u16)).value, Some(8u8));
    let absent_amount: Checked<u16> = Checked::new(1u16).add_num(u16::MAX);
    assert_eq!(Checked::new(1u8).shl(absent_amount).value, None);
}

#[test]
fn checked_assign_forms() {
    let mut a = Checked::new(100u8);
    a.add_assign(Checked::new(100u8));
    assert_eq!(a.value, Some(200u8));
    a.add_assign(Checked::new(100u8));
    assert_eq!(a.value, None);
    a.sub_assign(Checked::new(1u8));
    assert_eq!(a.value, None);
    let mut b = Checked::new(10i8);
    b.mul_assign(Checked::new(3i8));
    b.div_assign(Checked::new(4i8));
    b.rem_assign(Checked::new(4i8));
    assert_eq!(b.value, Some(3i8));
}

#[test]
fn checked_option_queries() {
    let p = Checked::new(9u8);
    let a: Checked<u8> = Checked::absent();
    assert!(p.is_some());
    assert!(!p.is_none());
    assert!(a.is_none());
    assert_eq!(p.as_ref(), Some(&9u8));
    assert_eq!(a.as_ref(), None);
    assert_eq!(p.unwrap(), 9u8);
    assert_eq!(p.expect("present"), 9u8);
    assert_eq!(p.unwrap_or(3u8), 9u8);
    assert_eq!(a.unwrap_or(3u8), 3u8);
    assert_eq!(a.unwrap_or_else(|| 4u8), 4u8);
    assert_eq!(Checked::from_opt(Some(5u8)).value, Some(5u8));
    assert_eq!(Checked::<u8>::from_opt(None).value, None);
}

#[test]
fn checked_map_family() {
    let p = Checked::new(9u8);
    let a: Checked<u8> = Checked::absent();
    assert_eq!(p.map(|v: u8| v as u16 + 1).value, Some(10u16));
    assert_eq!(a.map(|v: u8| v as u16 + 1).value, None);
    assert_eq!(p.map_or(0u16, |v: u8| v as u16).value, Some(9u16));
    assert_eq!(a.map_or(0u16, |v: u8| v as u16).value, Some(0u16));
    assert_eq!(p.map_or_else(|| 1u16, |v: u8| v as u16).value, Some(9u16));
    assert_eq!(a.map_or_else(|| 1u16, |v: u8| v as u16).value, Some(1u16));
}

#[test]
fn checked_result_family() {
    let p = Checked::new(9u8);
    let a: Checked<u8> = Checked::absent();
    assert_eq!(p.ok_or("gone"), Ok(9u8));
    assert_eq!(a.ok_or("gone"), Err("gone"));
    assert_eq!(p.ok_or_else(|| 7i32), Ok(9u8));
    assert_eq!(a.ok_or_else(|| 7i32), Err(7i32));
}

#[test]
fn checked_combinators() {
    let p = Checked::new(9u8);
    let q = Checked::new(4u8);
    let a: Checked<u8> = Checked::absent();
    assert_eq!(p.and(q).value, Some(4u8));
    assert_eq!(a.and(q).value, None);
    assert_eq!(p.and_then(|v: u8| v.checked_add(1)).value, Some(10u8));
    assert_eq!(p.and_then(|v: u8| v.checked_mul(100)).value, None);
    assert_eq!(a.and_then(|v: u8| v.checked_add(1)).value, None);
    assert_eq!(p.filter(|v: &u8| *v > 5).value, Some(9u8));
    assert_eq!(p.filter(|v: &u8| *v > 50).value, None);
    assert_eq!(a.filter(|_v: &u8| true).value, None);
    assert_eq!(p.or(q).value, Some(9u8));
    assert_eq!(a.or(q).value, Some(4u8));
    assert_eq!(a.or_else(|| Some(2u8)).value, Some(2u8));
    assert_eq!(p.or_else(|| None).value, Some(9u8));
    assert_eq!(a.or_insert(1u8).value, Some(1u8));
    assert_eq!(p.or_insert(1u8).value, Some(9u8));
    assert_eq!(a.or_insert_with(|| 6u8).value, Some(6u8));
    assert_eq!(p.xor(a).value, Some(9u8));
    assert_eq!(a.xor(q).value, Some(4u8));
    assert_eq!(p.xor(q).value, None);
    assert_eq!(a.xor(a).value, None);
}

#[test]
fn checked_in_place_resets() {
    let mut a: Checked<u8> = Checked::absent();
    assert_eq!(*a.get_or_insert(5u8), 5u8);
    assert_eq!(a.value, Some(5u8));
    assert_eq!(*a.get_or_insert(9u8), 5u8);
    *a.get_or_insert(9u8) = 6u8;
    assert_eq!(a.value, Some(6u8));
    let mut b: Checked<u8> = Checked::absent();
    assert_eq!(*b.get_or_insert_with(|| 8u8), 8u8);
    assert_eq!(b.value, Some(8u8));
    let taken = b.take();
    assert_eq!(taken.value, Some(8u8));
    assert_eq!(b.value, None);
    let mut c = Checked::new(3u8);
    assert_eq!(c.take_value(), Some(3u8));
    assert_eq!(c.value, None);
    let old = c.replace(7u8);
    assert_eq!(old.value, None);
    assert_eq!(c.value, Some(7u8));
    assert_eq!(c.replace_value(2u8), Some(7u8));
    assert_eq!(c.value, Some(2u8));
}

#[test]
fn checked_compares_against_optional_integers() {
    let p = Checked::new(9u8);
    let a: Checked<u8> = Checked::absent();
    assert!(p.eq_opt(&Some(9u8)));
    assert!(!p.eq_opt(&Some(8u8)));
    assert!(!p.eq_opt(&None));
    assert!(a.eq_opt(&None));
    assert!(!a.eq_opt(&Some(9u8)));
    assert_eq!(p.cmp_opt(&Some(10u8)), std::cmp::Ordering::Less);
    assert_eq!(p.cmp_opt(&Some(9u8)), std::cmp::Ordering::Equal);
    assert_eq!(p.cmp_opt(&None), std::cmp::Ordering::Greater);
    assert_eq!(a.cmp_opt(&None), std::cmp::Ordering::Equal);
    assert_eq!(a.cmp_opt(&Some(0u8)), std::cmp::Ordering::Less);
}
