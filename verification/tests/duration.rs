use bhuiz::duration::Duration;

#[test]
fn duration_new_carries_nanoseconds() {
    let d = Duration::new(1, 2_500_000_000);
    assert_eq!(d.as_secs(), 3);
    assert_eq!(d.subsec_nanos(), 500_000_000);
    assert_eq!(d.subsec_millis(), 500);
}

#[test]
fn duration_from_millis_splits_seconds() {
    let d = Duration::from_millis(2_345);
    assert_eq!(d.as_secs(), 2);
    assert_eq!(d.subsec_nanos(), 345_000_000);
    assert_eq!(d.subsec_millis(), 345);
}

#[test]
fn duration_from_secs_and_zero() {
    assert_eq!(Duration::from_secs(7).as_secs(), 7);
    assert_eq!(Duration::from_secs(7).subsec_nanos(), 0);
    assert_eq!(Duration::zero().as_secs(), 0);
    assert_eq!(Duration::zero().subsec_nanos(), 0);
}

#[test]
fn duration_comparison() {
    let a = Duration::new(1, 10);
    let b = Duration::new(1, 9);
    assert!(a.is_longer_than(&b));
    assert!(!b.is_longer_than(&a));
    assert!(!a.is_longer_than(&a));
    assert!(Duration::from_secs(2).is_longer_than(&Duration::new(1, 999_999_999)));
}

#[test]
fn duration_checked_sub_borrows() {
    let a = Duration::new(3, 100);
    let b = Duration::new(1, 200);
    let d = a.checked_sub(&b).unwrap();
    assert_eq!(d.as_secs(), 1);
    assert_eq!(d.subsec_nanos(), 999_999_900);
    assert_eq!(b.checked_sub(&a), None);
    assert_eq!(a.checked_sub(&a), Some(Duration::zero()));
}
