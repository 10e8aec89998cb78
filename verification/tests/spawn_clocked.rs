use proxy_fs::spawn::clocked::{format_id, format_timestamp, generate_id, get_timestamp};

#[test]
fn test_get_timestamp_format() {
    let ts = get_timestamp();
    // Should be "seconds.millis"
    assert!(ts.contains('.'));
    let parts: Vec<&str> = ts.split('.').collect();
    assert_eq!(parts.len(), 2);
    assert!(parts[0].parse::<u64>().is_ok());
    assert!(parts[1].parse::<u32>().is_ok());
}

#[test]
fn test_generate_id_is_nonempty() {
    let id = generate_id(4242);
    assert!(!id.is_empty());
}

#[test]
fn test_generate_id_uniqueness() {
    let id1 = generate_id(4242);
    let id2 = generate_id(4242);
    assert!(id1.contains('-'));
    assert!(id2.contains('-'));
}

#[test]
fn format_timestamp_writes_unpadded_millis() {
    assert_eq!(format_timestamp(1700000000, 123), "1700000000.123");
    assert_eq!(format_timestamp(1700000000, 5), "1700000000.5");
    assert_eq!(format_timestamp(0, 0), "0.0");
    assert_eq!(format_timestamp(u64::MAX, 999), "18446744073709551615.999");
}

#[test]
fn format_id_joins_with_hyphens() {
    assert_eq!(format_id(17, 1700000000, 999_999_999), "17-1700000000-999999999");
    assert_eq!(format_id(0, 0, 0), "0-0-0");
}

#[test]
fn generate_id_starts_with_pid() {
    let id = generate_id(31337);
    let parts: Vec<&str> = id.split('-').collect();
    assert_eq!(parts.len(), 3);
    assert_eq!(parts[0], "31337");
    assert!(parts[1].parse::<u64>().is_ok());
    assert!(parts[2].parse::<u32>().unwrap() < 1_000_000_000);
}
