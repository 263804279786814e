use blocking_client::timeout::{Span, Timeout, DEFAULT_TIMEOUT_SECS, NANOS_PER_MILLI, NANOS_PER_SEC};

#[test]
fn span_from_secs_counts_nanoseconds() {
    assert_eq!(Span::from_secs(30).as_nanos(), 30_000_000_000u128);
    assert_eq!(Span::from_secs(0).as_nanos(), 0u128);
    assert_eq!(Span::from_secs(u64::MAX).as_nanos(), 18_446_744_073_709_551_615u128 * 1_000_000_000u128);
}

#[test]
fn span_from_millis_counts_nanoseconds() {
    assert_eq!(Span::from_millis(100).as_nanos(), 100_000_000u128);
    assert_eq!(Span::from_millis(1).as_nanos(), NANOS_PER_MILLI);
    assert_eq!(Span::from_millis(1000).as_nanos(), NANOS_PER_SEC);
}

#[test]
fn span_from_nanos_is_exact() {
    assert_eq!(Span::from_nanos(17).as_nanos(), 17u128);
    assert_eq!(Span::from_nanos(u128::MAX).nanos, u128::MAX);
}

#[test]
fn span_remaining_after_stops_at_zero() {
    let limit = Span::from_millis(100);
    assert_eq!(limit.remaining_after(Span::from_millis(40)), Span::from_millis(60));
    assert_eq!(limit.remaining_after(Span::from_millis(100)), Span::from_nanos(0));
    assert_eq!(limit.remaining_after(Span::from_secs(5)), Span::from_nanos(0));
    assert_eq!(limit.remaining_after(Span::from_nanos(0)), limit);
}

#[test]
fn default_timeout_is_thirty_seconds() {
    assert_eq!(DEFAULT_TIMEOUT_SECS, 30u64);
    assert_eq!(Timeout::default(), Timeout(Some(Span { nanos: 30_000_000_000 })));
}

#[test]
fn unbounded_timeout_has_no_limit() {
    assert_eq!(Timeout::unbounded(), Timeout(None));
    assert!(!Timeout::unbounded().expired(Span::from_secs(u64::MAX)));
}

#[test]
fn bounded_timeout_expires_at_its_limit() {
    let timeout = Timeout::bounded(Span::from_millis(100));
    assert_eq!(timeout, Timeout(Some(Span::from_millis(100))));
    assert!(!timeout.expired(Span::from_nanos(99_999_999)));
    assert!(timeout.expired(Span::from_nanos(100_000_000)));
    assert!(timeout.expired(Span::from_secs(5)));
}

#[test]
fn zero_timeout_is_expired_at_once() {
    assert!(Timeout::bounded(Span::from_nanos(0)).expired(Span::from_nanos(0)));
}
