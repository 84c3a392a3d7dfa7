use torresmo::util::{abs_diff, now_microseconds, timestamp_micros};

#[test]
fn test_abs_diff_symmetry() {
    assert_eq!(abs_diff(5, 3), 2);
    assert_eq!(abs_diff(3, 5), 2);
    assert_eq!(abs_diff(7, 7), 0);
    assert_eq!(abs_diff(0, u32::MAX), u32::MAX);
    assert_eq!(abs_diff(u32::MAX, 0), u32::MAX);
}

#[test]
fn test_now_microseconds_moves_forward() {
    // Timestamps are circular; nearby samples differ by a small delta.
    let a = now_microseconds();
    let b = now_microseconds();
    assert!(abs_diff(a, b) < 60_000_000 || abs_diff(a, b) > u32::MAX - 60_000_000);
}

#[test]
fn test_timestamp_micros_exact() {
    assert_eq!(timestamp_micros(0, 999_999), 999_999);
    assert_eq!(timestamp_micros(1, 0), 1_000_000);
    assert_eq!(timestamp_micros(2, 250_000), 2_250_000);
    // 4295 s scale past 2^32 microseconds: 4_295_000_000 - 4_294_967_296.
    assert_eq!(timestamp_micros(4295, 0), 32_704);
    assert_eq!(timestamp_micros(u64::MAX, 500), 4_293_967_796);
}
