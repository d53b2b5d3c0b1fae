use std::time::Duration;
use vortix::utils::format_duration_secs;
use vortix::{format_bytes_speed, format_duration, truncate};

#[test]
fn test_format_bytes_speed_bytes() {
    assert_eq!(format_bytes_speed(0), "0 B/s");
    assert_eq!(format_bytes_speed(500), "500 B/s");
    assert_eq!(format_bytes_speed(999), "999 B/s");
}

#[test]
fn test_format_bytes_speed_kilobytes() {
    assert_eq!(format_bytes_speed(1_000), "1.0 KB/s");
    assert_eq!(format_bytes_speed(1_500), "1.5 KB/s");
    assert_eq!(format_bytes_speed(999_999), "1000.0 KB/s");
}

#[test]
fn test_format_bytes_speed_megabytes() {
    assert_eq!(format_bytes_speed(1_000_000), "1.0 MB/s");
    assert_eq!(format_bytes_speed(1_500_000), "1.5 MB/s");
    assert_eq!(format_bytes_speed(100_000_000), "100.0 MB/s");
}

#[test]
fn format_bytes_speed_rounds_like_the_double_quotient() {
    assert_eq!(format_bytes_speed(1_050), "1.1 KB/s");
    assert_eq!(format_bytes_speed(1_150), "1.1 KB/s");
    assert_eq!(format_bytes_speed(1_250), "1.2 KB/s");
    assert_eq!(format_bytes_speed(1_850), "1.9 KB/s");
    assert_eq!(format_bytes_speed(1_950), "1.9 KB/s");
    assert_eq!(format_bytes_speed(1_050_000), "1.1 MB/s");
    assert_eq!(format_bytes_speed(u64::MAX), "18446744073709.6 MB/s");
}

#[test]
fn format_bytes_speed_matches_float_formatting() {
    for bytes in 1_000..1_000_000u64 {
        assert_eq!(format_bytes_speed(bytes), format!("{:.1} KB/s", bytes as f64 / 1_000.0), "{bytes}");
    }
    let mut bytes: u64 = 1_000_000;
    while bytes < u64::MAX / 3 {
        for b in [bytes, bytes + 50_000, bytes + 49_999, bytes + 50_001, bytes * 3 + 1] {
            assert_eq!(format_bytes_speed(b), format!("{:.1} MB/s", b as f64 / 1_000_000.0), "{b}");
        }
        bytes = bytes / 2 * 3 + 7;
    }
    for b in [u64::MAX, u64::MAX - 1, 1 << 63, (1 << 53) + 1, (1 << 53) - 1, 9_007_199_254_790_000] {
        assert_eq!(format_bytes_speed(b), format!("{:.1} MB/s", b as f64 / 1_000_000.0), "{b}");
    }
}

#[test]
fn test_format_duration_seconds() {
    assert_eq!(format_duration(Duration::from_secs(0)), "00:00:00");
    assert_eq!(format_duration(Duration::from_secs(30)), "00:00:30");
    assert_eq!(format_duration(Duration::from_secs(59)), "00:00:59");
}

#[test]
fn test_format_duration_minutes() {
    assert_eq!(format_duration(Duration::from_secs(60)), "00:01:00");
    assert_eq!(format_duration(Duration::from_secs(90)), "00:01:30");
    assert_eq!(format_duration(Duration::from_secs(3599)), "00:59:59");
}

#[test]
fn test_format_duration_hours() {
    assert_eq!(format_duration(Duration::from_secs(3600)), "01:00:00");
    assert_eq!(format_duration(Duration::from_secs(7200)), "02:00:00");
    assert_eq!(format_duration(Duration::from_secs(86399)), "23:59:59");
}

#[test]
fn test_format_duration_days() {
    assert_eq!(format_duration(Duration::from_secs(86400)), "1d 00h");
    assert_eq!(format_duration(Duration::from_secs(90000)), "1d 01h");
    assert_eq!(format_duration(Duration::from_secs(172800)), "2d 00h");
}

#[test]
fn format_duration_ignores_fractions_of_a_second() {
    assert_eq!(format_duration(Duration::from_millis(61_999)), "00:01:01");
    assert_eq!(format_duration_secs(1_000 * 86400 + 7200), "1000d 02h");
}

#[test]
fn test_truncate_short_string() {
    assert_eq!(truncate("hello", 10), "hello");
    assert_eq!(truncate("test", 4), "test");
}

#[test]
fn test_truncate_exact_length() {
    assert_eq!(truncate("hello", 5), "hello");
}

#[test]
fn test_truncate_long_string() {
    assert_eq!(truncate("hello world", 8), "hello...");
    assert_eq!(truncate("this is a long string", 10), "this is...");
}

#[test]
fn test_truncate_with_unicode() {
    // Unicode characters should be counted correctly
    assert_eq!(truncate("héllo", 5), "héllo");
    assert_eq!(truncate("héllo world", 8), "héllo...");
}

#[test]
fn truncate_below_ellipsis_width() {
    assert_eq!(truncate("hello", 2), "...");
    assert_eq!(truncate("", 0), "");
}
