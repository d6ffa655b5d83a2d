use surety::saturating::Saturating;
use surety::Ensure;

#[test]
fn sat_clamps_at_top_and_bottom() {
    let sat = 110i8.saturating();
    let max = sat.add_num(20i8);
    assert_eq!(max.value, i8::MAX);
    let low = (i8::MIN + 10).saturating();
    let min = low.sub_num(20i8);
    assert_eq!(min.value, i8::MIN);
}

#[test]
fn sat_pinned_at_the_edges() {
    assert_eq!(Saturating::new(i8::MAX).add_num(1i8).value, i8::MAX);
    assert_eq!(Saturating::new(i8::MIN).sub_num(1i8).value, i8::MIN);
    assert_eq!(Saturating::new(u8::MAX).add_num(1u8).value, u8::MAX);
    assert_eq!(Saturating::new(u8::MIN).sub_num(1u8).value, u8::MIN);
    assert_eq!(Saturating::new(i16::MAX).add_num(1i16).value, i16::MAX);
    assert_eq!(Saturating::new(i16::MIN).sub_num(1i16).value, i16::MIN);
    assert_eq!(Saturating::new(u16::MAX).add_num(1u16).value, u16::MAX);
    assert_eq!(Saturating::new(i32::MAX).add_num(1i32).value, i32::MAX);
    assert_eq!(Saturating::new(i32::MIN).sub_num(1i32).value, i32::MIN);
    assert_eq!(Saturating::new(u32::MAX).add_num(1u32).value, u32::MAX);
    assert_eq!(Saturating::new(i64::MAX).add_num(1i64).value, i64::MAX);
    assert_eq!(Saturating::new(i64::MIN).sub_num(1i64).value, i64::MIN);
    assert_eq!(Saturating::new(u64::MAX).add_num(1u64).value, u64::MAX);
    assert_eq!(Saturating::new(i128::MAX).add_num(1i128).value, i128::MAX);
    assert_eq!(Saturating::new(i128::MIN).sub_num(1i128).value, i128::MIN);
    assert_eq!(Saturating::new(u128::MAX).add_num(1u128).value, u128::MAX);
    assert_eq!(Saturating::new(isize::MAX).add_num(1isize).value, isize::MAX);
    assert_eq!(Saturating::new(isize::MIN).sub_num(1isize).value, isize::MIN);
    assert_eq!(Saturating::new(usize::MAX).add_num(1usize).value, usize::MAX);
    assert_eq!(Saturating::new(usize::MIN).sub_num(1usize).value, usize::MIN);
}

#[test]
fn sat_exact_arithmetic_is_untouched() {
    assert_eq!(Saturating::new(100i8).add(Saturating::new(27i8)).value, 127i8);
    assert_eq!(Saturating::new(40u8).sub_num(15u8).value, 25u8);
    assert_eq!(Saturating::new(5i32).mul_num(7i32).value, 35i32);
}

#[test]
fn sat_mul_clamps_toward_the_product_sign() {
    assert_eq!(Saturating::new(12i8).mul_num(12i8).value, i8::MAX);
    assert_eq!(Saturating::new(-12i8).mul_num(12i8).value, i8::MIN);
    assert_eq!(Saturating::new(-12i8).mul_num(-12i8).value, i8::MAX);
    assert_eq!(Saturating::new(16u8).mul_num(16u8).value, u8::MAX);
}

#[test]
fn sat_pow_clamps_toward_the_power_sign() {
    assert_eq!(Saturating::new(3i8).saturating_pow(5).value, i8::MAX);
    assert_eq!(Saturating::new(-3i8).saturating_pow(5).value, i8::MIN);
    assert_eq!(Saturating::new(-3i8).saturating_pow(4).value, 81i8);
    assert_eq!(Saturating::new(2u8).saturating_pow(3).value, 8u8);
    assert_eq!(Saturating::new(2u8).saturating_pow(9).value, u8::MAX);
    assert_eq!(Saturating::new(9i32).saturating_pow(0).value, 1i32);
}

#[test]
fn sat_assign_forms() {
    let mut a = Saturating::new(120i8);
    a.add_assign(Saturating::new(10i8));
    assert_eq!(a.value, i8::MAX);
    a.sub_assign(Saturating::new(1i8));
    assert_eq!(a.value, 126i8);
    a.mul_assign(Saturating::new(-2i8));
    assert_eq!(a.value, -128i8);
}

#[test]
fn sat_compares_against_bare_integers() {
    let a = Saturating::new(9u16);
    assert!(a.eq_num(&9u16));
    assert!(!a.eq_num(&10u16));
    assert_eq!(a.cmp_num(&10u16), std::cmp::Ordering::Less);
    assert_eq!(a.cmp_num(&9u16), std::cmp::Ordering::Equal);
    assert_eq!(a.cmp_num(&1u16), std::cmp::Ordering::Greater);
    assert_eq!(*a.as_ref(), 9u16);
    let mut m = a;
    *m.as_mut() = 3u16;
    assert_eq!(m.value, 3u16);
}

#[test]
fn sat_edge_information_is_lost() {
    // Arithmetic resumes from the edge value, not from the true sum.
    let pinned = Saturating::new(100i8).add_num(100i8);
    assert_eq!(pinned.value, i8::MAX);
    let back = pinned.sub_num(10i8);
    assert_eq!(back.value, 117i8);
}
