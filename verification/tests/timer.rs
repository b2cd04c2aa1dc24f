use jayrc::timer::align_delay;

#[test]
fn delay_reaches_the_next_period_boundary() {
    // 12:00:02 as seconds into the day, five-second period: fire in 3 s
    let noon_plus_two = 12 * 3600 + 2;
    assert_eq!(align_delay(noon_plus_two, 5), 3);
    assert_eq!(align_delay(7, 5), 3);
    assert_eq!(align_delay(4, 5), 1);
    assert_eq!(align_delay(6, 5), 4);
}

#[test]
fn a_reading_on_a_boundary_waits_zero() {
    assert_eq!(align_delay(0, 5), 0);
    assert_eq!(align_delay(12 * 3600, 5), 0);
    assert_eq!(align_delay(35, 5), 0);
    assert_eq!(align_delay(9, 1), 0);
}

#[test]
fn delay_works_in_nanoseconds_too() {
    let period = 5_000_000_000u64;
    let now = 43_202_000_000_123u64;
    let delay = align_delay(now, period);
    assert_eq!((now + delay) % period, 0);
    assert_eq!(delay, 2_999_999_877);
}
