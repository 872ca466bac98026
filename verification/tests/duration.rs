use promql_ast::duration::{SignedDuration, UnsignedDuration};
use promql_ast::error::Error;
use promql_ast::source::Offset;

const MAX: UnsignedDuration = UnsignedDuration { secs: 9_223_372_036_854_775, nanos: 807_000_000 };

#[test]
fn five_minutes_fit() {
    let d = SignedDuration::from_unsigned(UnsignedDuration { secs: 300, nanos: 0 }).unwrap();
    assert_eq!(d.num_seconds(), 300);
    assert_eq!(d.subsec_nanos(), 0);
    assert!(!d.is_negative());
}

#[test]
fn zero_is_representable() {
    let d = SignedDuration::from_unsigned(UnsignedDuration { secs: 0, nanos: 0 }).unwrap();
    assert_eq!(d, SignedDuration::zero());
    assert_eq!(d.neg(), SignedDuration::zero());
    assert!(!d.is_negative());
    assert_eq!(d.magnitude(), UnsignedDuration { secs: 0, nanos: 0 });
}

#[test]
fn largest_magnitude_fits() {
    let d = SignedDuration::from_unsigned(MAX).unwrap();
    assert_eq!(d.num_seconds(), 9_223_372_036_854_775);
    assert_eq!(d.subsec_nanos(), 807_000_000);
}

#[test]
fn one_nanosecond_past_the_largest_magnitude_overflows() {
    let over = UnsignedDuration { secs: 9_223_372_036_854_775, nanos: 807_000_001 };
    assert_eq!(SignedDuration::from_unsigned(over), Err(Error::Overflow));
}

#[test]
fn one_second_past_the_largest_magnitude_overflows() {
    let over = UnsignedDuration { secs: 9_223_372_036_854_776, nanos: 0 };
    assert_eq!(SignedDuration::from_unsigned(over), Err(Error::Overflow));
}

#[test]
fn the_largest_unsigned_magnitude_overflows() {
    let over = UnsignedDuration { secs: u64::MAX, nanos: u32::MAX };
    assert_eq!(SignedDuration::from_unsigned(over), Err(Error::Overflow));
    assert_eq!(SignedDuration::from_offset(Offset::Neg(over)), Err(Error::Overflow));
}

#[test]
fn nanoseconds_of_a_second_or_more_carry_into_the_seconds() {
    let d = SignedDuration::from_unsigned(UnsignedDuration { secs: 1, nanos: 2_500_000_000 })
        .unwrap();
    assert_eq!(d.num_seconds(), 3);
    assert_eq!(d.subsec_nanos(), 500_000_000);
}

#[test]
fn a_carry_can_push_a_magnitude_over_the_range() {
    let over = UnsignedDuration { secs: 9_223_372_036_854_775, nanos: 1_000_000_000 };
    assert_eq!(SignedDuration::from_unsigned(over), Err(Error::Overflow));
}

#[test]
fn negating_the_largest_duration_is_exact() {
    let max = SignedDuration::from_unsigned(MAX).unwrap();
    let min = max.neg();
    assert_eq!(min.num_seconds(), -9_223_372_036_854_775);
    assert_eq!(min.subsec_nanos(), -807_000_000);
    assert!(min.is_negative());
    assert_eq!(min.neg(), max);
    assert_eq!(min.magnitude(), MAX);
}

#[test]
fn negative_offset_is_the_negation_of_the_positive_one() {
    let m = UnsignedDuration { secs: 300, nanos: 5 };
    let pos = SignedDuration::from_offset(Offset::Pos(m)).unwrap();
    let neg = SignedDuration::from_offset(Offset::Neg(m)).unwrap();
    assert_eq!(neg, pos.neg());
    assert_eq!(pos.num_seconds(), 300);
    assert_eq!(pos.subsec_nanos(), 5);
    assert_eq!(neg.num_seconds(), -300);
    assert_eq!(neg.subsec_nanos(), -5);
}

#[test]
fn negative_offset_at_the_boundary_keeps_its_sign() {
    let neg = SignedDuration::from_offset(Offset::Neg(MAX)).unwrap();
    let pos = SignedDuration::from_offset(Offset::Pos(MAX)).unwrap();
    assert_eq!(neg, pos.neg());
    assert!(neg.is_negative());
}

#[test]
fn a_sub_second_backward_duration_is_negative() {
    let d = SignedDuration::from_offset(Offset::Neg(UnsignedDuration { secs: 0, nanos: 7 }))
        .unwrap();
    assert!(d.is_negative());
    assert_eq!(d.num_seconds(), 0);
    assert_eq!(d.subsec_nanos(), -7);
    assert_eq!(d.magnitude(), UnsignedDuration { secs: 0, nanos: 7 });
}

#[test]
fn optional_durations_stay_optional() {
    assert_eq!(SignedDuration::from_opt_unsigned(None), Ok(None));
    assert_eq!(SignedDuration::from_opt_offset(None), Ok(None));
    let step = SignedDuration::from_opt_unsigned(Some(UnsignedDuration { secs: 60, nanos: 0 }))
        .unwrap()
        .unwrap();
    assert_eq!(step.num_seconds(), 60);
    let over = UnsignedDuration { secs: u64::MAX, nanos: 0 };
    assert_eq!(SignedDuration::from_opt_unsigned(Some(over)), Err(Error::Overflow));
    assert_eq!(SignedDuration::from_opt_offset(Some(Offset::Pos(over))), Err(Error::Overflow));
}
