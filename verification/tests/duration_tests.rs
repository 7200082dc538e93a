use skopio::duration::{decimal_string, format_duration, round_through_f64};

#[test]
fn format_seconds_only() {
    assert_eq!(format_duration(0), "00s");
    assert_eq!(format_duration(5), "05s");
    assert_eq!(format_duration(59), "59s");
}

#[test]
fn formats_minutes_and_seconds() {
    assert_eq!(format_duration(60), "01m 00s");
    assert_eq!(format_duration(61), "01m 01s");
    assert_eq!(format_duration(3599), "59m 59s");
}

#[test]
fn formats_hours_minutes_seconds() {
    assert_eq!(format_duration(3600), "1h 00m 00s");
    assert_eq!(format_duration(3661), "1h 01m 01s");
    assert_eq!(format_duration(86399), "23h 59m 59s");
}

#[test]
fn formats_large_hours() {
    let secs = 100 * 3600 + 5;
    assert_eq!(format_duration(secs), "100h 00m 05s");
}

#[test]
fn formats_largest_duration() {
    assert_eq!(format_duration(u64::MAX), "5124095576030431h 00m 15s");
}

#[test]
fn decimal_of_numbers() {
    assert_eq!(decimal_string(0), "0");
    assert_eq!(decimal_string(10), "10");
    assert_eq!(decimal_string(1234567890), "1234567890");
}

#[test]
fn counts_go_through_a_float() {
    let samples = [
        0u64,
        1,
        (1 << 53) - 1,
        1 << 53,
        (1 << 53) + 1,
        (1 << 53) + 3,
        (1 << 60) + 12345,
        (1 << 63) - 1,
        1 << 63,
        (1 << 63) + 1025,
        u64::MAX - 1024,
        u64::MAX,
    ];
    for n in samples {
        assert_eq!(round_through_f64(n), (n as f64).floor() as u64, "n = {}", n);
    }
    let mut x: u64 = 0x9E37_79B9_7F4A_7C15;
    for _ in 0..10_000 {
        x ^= x << 13;
        x ^= x >> 7;
        x ^= x << 17;
        assert_eq!(round_through_f64(x), (x as f64).floor() as u64, "n = {}", x);
        let small = x >> 11;
        assert_eq!(round_through_f64(small), small);
    }
}

#[test]
fn large_counts_are_rounded_like_a_float() {
    assert_eq!(format_duration((1 << 53) + 1), "2501999792983h 36m 32s");
    assert_eq!(format_duration((1 << 53) + 3), "2501999792983h 36m 36s");
}
