use tailscale_drive::text::{dirname_from_path, filename_from_path, format_size,
    format_timestamp, format_timestamp_at, str_eq, str_le, u64_to_hex, u64_to_string};

#[test]
fn sizes_format_with_two_fraction_digits() {
    assert_eq!(format_size(0), "0 B");
    assert_eq!(format_size(512), "512 B");
    assert_eq!(format_size(1023), "1023 B");
    assert_eq!(format_size(1024), "1.00 KB");
    assert_eq!(format_size(1536), "1.50 KB");
    assert_eq!(format_size(3 * 1024 * 1024), "3.00 MB");
    assert_eq!(format_size(5 * 1024 * 1024 * 1024 + 512 * 1024 * 1024), "5.50 GB");
}

#[test]
fn size_fractions_truncate() {
    // 1.999… KB shows as 1.99 KB, not 2.00 KB.
    assert_eq!(format_size(2047), "1.99 KB");
}

#[test]
fn timestamps_format_relative_to_now() {
    let now = 1_000_000;
    assert_eq!(format_timestamp_at(0, now), "Unknown");
    assert_eq!(format_timestamp_at(now - 30, now), "Just now");
    assert_eq!(format_timestamp_at(now - 120, now), "2 min ago");
    assert_eq!(format_timestamp_at(now - 7200, now), "2 hr ago");
    assert_eq!(format_timestamp_at(now - 200_000, now), "2 days ago");
}

#[test]
fn future_timestamps_read_as_just_now() {
    let now = 1_000_000;
    assert_eq!(format_timestamp_at(now + 500, now), "Just now");
}

#[test]
fn format_timestamp_uses_the_clock() {
    assert_eq!(format_timestamp(0), "Unknown");
    assert!(format_timestamp(1).ends_with(" days ago"));
}

#[test]
fn decimal_rendering_is_exact() {
    assert_eq!(u64_to_string(0), "0");
    assert_eq!(u64_to_string(7), "7");
    assert_eq!(u64_to_string(10), "10");
    assert_eq!(u64_to_string(90210), "90210");
    assert_eq!(u64_to_string(u64::MAX), "18446744073709551615");
}

#[test]
fn hex_rendering_is_exact() {
    assert_eq!(u64_to_hex(0), "0");
    assert_eq!(u64_to_hex(255), "ff");
    assert_eq!(u64_to_hex(0xdead_beef), "deadbeef");
}

#[test]
fn path_basename_and_dirname() {
    assert_eq!(filename_from_path("/a/b/c.txt"), "c.txt");
    assert_eq!(filename_from_path("c.txt"), "c.txt");
    assert_eq!(filename_from_path("/a/b/"), "");
    assert_eq!(dirname_from_path("/a/b/c.txt"), "/a/b");
    assert_eq!(dirname_from_path("c.txt"), "");
}

#[test]
fn string_order_follows_code_points() {
    assert!(str_le("abc", "abd"));
    assert!(str_le("abc", "abc"));
    assert!(!str_le("abd", "abc"));
    assert!(str_le("ab", "abc"));
    assert!(str_le("Zoo", "apple"));
}

#[test]
fn string_equality_is_by_contents() {
    assert!(str_eq("same", "same"));
    assert!(!str_eq("same", "Same"));
    assert!(!str_eq("", "x"));
}
