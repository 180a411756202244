use bloxide::clock::{ticks_from_nanos, ticks_since};
use std::time::Instant;

#[test]
fn ticks_are_sixtieths_of_a_second_rounded_down() {
    assert_eq!(ticks_from_nanos(0), 0);
    assert_eq!(ticks_from_nanos(16_666_666), 0);
    assert_eq!(ticks_from_nanos(16_666_667), 1);
    assert_eq!(ticks_from_nanos(33_333_333), 1);
    assert_eq!(ticks_from_nanos(33_333_334), 2);
    assert_eq!(ticks_from_nanos(999_999_999), 59);
    assert_eq!(ticks_from_nanos(1_000_000_000), 60);
    assert_eq!(ticks_from_nanos(1_500_000_000), 90);
    assert_eq!(ticks_from_nanos(3_600_000_000_000), 216_000);
}

#[test]
fn ticks_stop_at_the_largest_count() {
    assert_eq!(ticks_from_nanos(u128::MAX), usize::MAX);
    let limit = usize::MAX as u128 * 1_000_000_000 / 60 + 1_000_000_000;
    assert_eq!(ticks_from_nanos(limit), usize::MAX);
}

#[test]
fn clock_does_not_run_backwards() {
    let start = Instant::now();
    let first = ticks_since(&start);
    let second = ticks_since(&start);
    assert!(first <= second);
    assert!(second < 60 * 60);
}
