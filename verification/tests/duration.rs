use snake_core::Duration;

#[test]
fn duration_new_counts_nanos() {
    assert_eq!(Duration::new(2, 321).as_nanos(), 2_000_000_321);
    assert_eq!(Duration::from_secs(1), Duration::from_millis(1000));
    assert_eq!(Duration::from_nanos(5).as_nanos(), 5);
}

#[test]
fn duration_arithmetic() {
    let a = Duration::from_millis(1500);
    let b = Duration::from_millis(700);
    assert_eq!(a.add(b), Duration::from_millis(2200));
    assert_eq!(a.sub(b), Duration::from_millis(800));
    assert_eq!(a.checked_sub(b), Some(Duration::from_millis(800)));
    assert_eq!(b.checked_sub(a), None);
    assert!(Duration::from_nanos(0).is_zero());
    assert!(!a.is_zero());
}
