use x86_smpboot::delay::TICKS_PER_MICROSECOND;
use x86_smpboot::delay::TSC_FREQUENCY_HZ;
use x86_smpboot::delay::delay_deadline;
use x86_smpboot::delay::delay_elapsed;

#[test]
fn ticks_per_microsecond_value() {
    assert_eq!(TSC_FREQUENCY_HZ, 3_000_000_000);
    assert_eq!(TICKS_PER_MICROSECOND, 3_000);
}

#[test]
fn deadline_exact_values() {
    assert_eq!(delay_deadline(0, 200), 600_000);
    assert_eq!(delay_deadline(0, 10_000), 30_000_000);
    assert_eq!(delay_deadline(1_234, 0), 1_234);
    assert_eq!(delay_deadline(1_000, 200), 601_000);
}

#[test]
fn deadline_monotone_in_duration() {
    let start: u64 = 42;
    let mut last: u64 = delay_deadline(start, 0);
    for us in [1u64, 2, 100, 200, 9_999, 10_000] {
        let next: u64 = delay_deadline(start, us);
        assert!(next >= last);
        last = next;
    }
}

#[test]
fn equal_durations_equal_budgets() {
    // The tick budget of a delay depends on the duration alone, not on when
    // it starts: repeated delays of one duration never shrink.
    for start in [0u64, 1, 600_000, u64::MAX - 600_000] {
        assert_eq!(delay_deadline(start, 200) - start, 600_000);
    }
}

#[test]
fn elapsed_decision() {
    assert!(!delay_elapsed(599_999, 600_000));
    assert!(delay_elapsed(600_000, 600_000));
    assert!(delay_elapsed(600_001, 600_000));
    assert!(delay_elapsed(0, 0));
}
