use surety::Ensure;

#[test]
fn ensure_attaches_each_policy() {
    let c = 5i8.checked();
    assert_eq!(c.value, Some(5i8));
    let w = 5i8.wrapping();
    assert_eq!(w.value, 5i8);
    let s = 5i8.saturating();
    assert_eq!(s.value, 5i8);
    let o = 5i8.overflowing();
    assert_eq!(o.value, 5i8);
    assert!(!o.has_overflowed);
}

#[test]
fn ensure_works_on_every_width() {
    assert_eq!(7u8.checked().value, Some(7u8));
    assert_eq!(7u16.wrapping().value, 7u16);
    assert_eq!(7u32.saturating().value, 7u32);
    assert_eq!(7u64.overflowing().value, 7u64);
    assert_eq!(7u128.checked().value, Some(7u128));
    assert_eq!(7usize.wrapping().value, 7usize);
    assert_eq!((-7i16).saturating().value, -7i16);
    assert_eq!((-7i32).checked().value, Some(-7i32));
    assert_eq!((-7i64).wrapping().value, -7i64);
    assert_eq!((-7i128).overflowing().value, -7i128);
    assert_eq!((-7isize).checked().value, Some(-7isize));
}

#[test]
fn policies_agree_while_no_overflow_occurs() {
    let a = 100i8;
    let b = 27i8;
    let c = a.checked().add_num(b);
    let w = a.wrapping().add_num(b);
    let s = a.saturating().add_num(b);
    let o = a.overflowing().add_num(b);
    assert_eq!(c.value, Some(127i8));
    assert_eq!(w.value, 127i8);
    assert_eq!(s.value, 127i8);
    assert_eq!(o.value, 127i8);
    assert!(!o.has_overflowed);
}

#[test]
fn policies_diverge_on_overflow() {
    let a = 100i8;
    let b = 28i8;
    let c = a.checked().add_num(b);
    let w = a.wrapping().add_num(b);
    let s = a.saturating().add_num(b);
    let o = a.overflowing().add_num(b);
    assert_eq!(c.value, None);
    assert_eq!(w.value, -128i8);
    assert_eq!(s.value, 127i8);
    assert_eq!(o.value, -128i8);
    assert!(o.has_overflowed);

    let u = 200u8;
    let v = 100u8;
    assert_eq!(u.checked().add_num(v).value, None);
    assert_eq!(u.wrapping().add_num(v).value, 44u8);
    assert_eq!(u.saturating().add_num(v).value, 255u8);
    let uo = u.overflowing().add_num(v);
    assert_eq!(uo.value, 44u8);
    assert!(uo.has_overflowed);

    let n = i8::MIN;
    assert_eq!(n.checked().sub_num(1i8).value, None);
    assert_eq!(n.wrapping().sub_num(1i8).value, i8::MAX);
    assert_eq!(n.saturating().sub_num(1i8).value, i8::MIN);
    let no = n.overflowing().sub_num(1i8);
    assert_eq!(no.value, i8::MAX);
    assert!(no.has_overflowed);
}
