use pomodoro::span::{NANOS_PER_MILLI, NANOS_PER_MINUTE, NANOS_PER_SEC};
use pomodoro::{Clock, Span, Timestamp};

#[test]
fn spans_are_built_from_each_unit() {
    assert_eq!(Span::zero().as_nanos(), 0);
    assert!(Span::zero().is_zero());
    assert!(!Span::from_nanos(1).is_zero());
    assert_eq!(Span::from_nanos(17).as_nanos(), 17);
    assert_eq!(Span::from_millis(3).as_nanos(), 3_000_000);
    assert_eq!(Span::from_secs(2).as_nanos(), 2_000_000_000);
    assert_eq!(Span::from_minutes(50).as_nanos(), 3_000_000_000_000);
    assert_eq!(
        Span::from_secs(u64::MAX).as_nanos(),
        u64::MAX as u128 * 1_000_000_000
    );
    assert_eq!(NANOS_PER_MILLI, 1_000_000);
    assert_eq!(NANOS_PER_SEC, 1_000_000_000);
    assert_eq!(NANOS_PER_MINUTE, 60_000_000_000);
}

#[test]
fn a_span_splits_into_seconds_and_the_rest() {
    let span = Span::from_nanos(61_250_000_007);
    assert_eq!(span.as_secs(), 61);
    assert_eq!(span.subsec_nanos(), 250_000_007);
    assert_eq!(Span::from_nanos(999_999_999).as_secs(), 0);
    assert_eq!(Span::from_nanos(999_999_999).subsec_nanos(), 999_999_999);
}

#[test]
fn checked_arithmetic_says_when_it_cannot_be_done() {
    let a = Span::from_secs(5);
    let b = Span::from_secs(3);
    assert_eq!(a.checked_add(b), Some(Span::from_secs(8)));
    assert_eq!(a.checked_sub(b), Some(Span::from_secs(2)));
    assert_eq!(a.checked_sub(a), Some(Span::zero()));
    assert_eq!(b.checked_sub(a), None);
    assert_eq!(Span::from_nanos(u128::MAX).checked_add(Span::from_nanos(1)), None);
    assert_eq!(
        Span::from_nanos(u128::MAX - 1).checked_add(Span::from_nanos(1)),
        Some(Span::from_nanos(u128::MAX))
    );
}

#[test]
fn saturating_arithmetic_stops_at_the_ends() {
    let a = Span::from_secs(5);
    let b = Span::from_secs(3);
    assert_eq!(a.saturating_sub(b), Span::from_secs(2));
    assert_eq!(b.saturating_sub(a), Span::zero());
    assert_eq!(a.saturating_add(b), Span::from_secs(8));
    assert_eq!(
        Span::from_nanos(u128::MAX - 2).saturating_add(a),
        Span::from_nanos(u128::MAX)
    );
}

#[test]
fn the_time_between_two_instants_is_never_negative() {
    let early = Timestamp::from_nanos(100);
    let late = Timestamp::from_nanos(350);
    assert_eq!(late.since(early), Span::from_nanos(250));
    assert_eq!(early.since(late), Span::zero());
    assert_eq!(early.since(early), Span::zero());
    assert_eq!(Timestamp::origin().as_nanos(), 0);
    assert_eq!(late.as_nanos(), 350);
}

#[test]
fn an_instant_moves_on_by_a_span() {
    let t = Timestamp::from_nanos(100);
    assert_eq!(t.after(Span::from_nanos(23)), Timestamp::from_nanos(123));
    assert_eq!(
        Timestamp::from_nanos(u128::MAX - 1).after(Span::from_nanos(23)),
        Timestamp::from_nanos(u128::MAX)
    );
}

#[test]
fn a_clock_does_not_run_backwards() {
    let clock = Clock::start();
    let first = clock.now();
    let second = clock.now();
    assert!(second.as_nanos() >= first.as_nanos());
    assert_eq!(second.since(first).as_nanos(), second.as_nanos() - first.as_nanos());
}
