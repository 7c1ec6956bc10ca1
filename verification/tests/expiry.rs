use smolbin::expiry::{
    expiry_timestamp, is_expired, is_read_once, parse_decimal, parse_expiry, sweep, sweep_at, Expiry,
    ExpiryError,
};

#[test]
fn never_and_read_once() {
    assert_eq!(parse_expiry("-1"), Ok(Expiry::Never));
    assert_eq!(parse_expiry("0"), Ok(Expiry::ReadOnce));
}

#[test]
fn each_unit() {
    assert_eq!(parse_expiry("5s"), Ok(Expiry::After(5)));
    assert_eq!(parse_expiry("2m"), Ok(Expiry::After(120)));
    assert_eq!(parse_expiry("2h"), Ok(Expiry::After(7200)));
    assert_eq!(parse_expiry("7d"), Ok(Expiry::After(604800)));
    assert_eq!(parse_expiry("1w"), Ok(Expiry::After(604800)));
    assert_eq!(parse_expiry("1M"), Ok(Expiry::After(2592000)));
    assert_eq!(parse_expiry("1y"), Ok(Expiry::After(31536000)));
}

#[test]
fn durations_add_up() {
    assert_eq!(parse_expiry("1w 3d"), Ok(Expiry::After(604800 + 3 * 86400)));
    assert_eq!(parse_expiry("1h 30m 15s"), Ok(Expiry::After(3600 + 1800 + 15)));
    // The sum of the parts read one by one.
    let a = match parse_expiry("2d") {
        Ok(Expiry::After(d)) => d,
        _ => panic!("2d"),
    };
    let b = match parse_expiry("12h") {
        Ok(Expiry::After(d)) => d,
        _ => panic!("12h"),
    };
    assert_eq!(parse_expiry("2d 12h"), Ok(Expiry::After(a + b)));
}

#[test]
fn signs_and_zero_durations() {
    assert_eq!(parse_expiry("+3m"), Ok(Expiry::After(180)));
    assert_eq!(parse_expiry("-3m"), Ok(Expiry::After(-180)));
    assert_eq!(parse_expiry("0s"), Ok(Expiry::After(0)));
    assert_eq!(parse_expiry("007h"), Ok(Expiry::After(7 * 3600)));
}

#[test]
fn invalid_expiry() {
    assert_eq!(parse_expiry("5x"), Err(ExpiryError::Invalid));
    assert_eq!(parse_expiry("h"), Err(ExpiryError::Invalid));
    assert_eq!(parse_expiry("-h"), Err(ExpiryError::Invalid));
    assert_eq!(parse_expiry("1.5h"), Err(ExpiryError::Invalid));
    assert_eq!(parse_expiry("1"), Err(ExpiryError::Invalid));
    assert_eq!(parse_expiry("-2"), Err(ExpiryError::Invalid));
    assert_eq!(parse_expiry("1h x"), Err(ExpiryError::Invalid));
    assert_eq!(parse_expiry("１h"), Err(ExpiryError::Invalid));
}

#[test]
fn empty_parts() {
    assert_eq!(parse_expiry(""), Err(ExpiryError::EmptyPart));
    assert_eq!(parse_expiry("1h  2m"), Err(ExpiryError::EmptyPart));
    assert_eq!(parse_expiry(" 1h"), Err(ExpiryError::EmptyPart));
    assert_eq!(parse_expiry("1h "), Err(ExpiryError::EmptyPart));
    // The first failing part decides.
    assert_eq!(parse_expiry("1x  2m"), Err(ExpiryError::Invalid));
    assert_eq!(parse_expiry(" 1x"), Err(ExpiryError::EmptyPart));
}

#[test]
fn overflow() {
    assert_eq!(parse_expiry("9223372036854775807s"), Ok(Expiry::After(i64::MAX)));
    assert_eq!(parse_expiry("9223372036854775808s"), Err(ExpiryError::Invalid));
    assert_eq!(parse_expiry("-9223372036854775808s"), Ok(Expiry::After(i64::MIN)));
    assert_eq!(parse_expiry("9223372036854775807m"), Err(ExpiryError::Overflow));
    assert_eq!(
        parse_expiry("9223372036854775807s 1s"),
        Err(ExpiryError::Overflow)
    );
    assert_eq!(parse_expiry("9223372036854775807s -1s"), Ok(Expiry::After(i64::MAX - 1)));
}

#[test]
fn decimal_numbers() {
    let v: Vec<char> = "-42x".chars().collect();
    assert_eq!(parse_decimal(&v, 3), Some(-42));
    assert_eq!(parse_decimal(&v, 1), None);
    assert_eq!(parse_decimal(&v, 0), None);
    let w: Vec<char> = "+".chars().collect();
    assert_eq!(parse_decimal(&w, 1), None);
    let big: Vec<char> = "99999999999999999999999".chars().collect();
    assert_eq!(parse_decimal(&big, big.len()), None);
}

#[test]
fn timestamps() {
    assert_eq!(expiry_timestamp(Expiry::Never, 1_700_000_000), Some(-1));
    assert_eq!(expiry_timestamp(Expiry::ReadOnce, 1_700_000_000), Some(0));
    assert_eq!(expiry_timestamp(Expiry::After(60), 1_700_000_000), Some(1_700_000_060));
    assert_eq!(expiry_timestamp(Expiry::After(-60), 1_000), Some(940));
    // Beyond what the store keeps in 32 bits.
    assert_eq!(expiry_timestamp(Expiry::After(1i64 << 32), 5), None);
    assert_eq!(expiry_timestamp(Expiry::After(100 * 31_536_000), 1_700_000_000), None);
    assert_eq!(expiry_timestamp(Expiry::After(20 * 31_536_000), 1_700_000_000), None);
    // Moments at or before 1970 are kept as they are.
    assert_eq!(expiry_timestamp(Expiry::After(-1_000), 1_000), Some(0));
    assert_eq!(
        expiry_timestamp(Expiry::After(-100 * 31_536_000), 1_700_000_000),
        Some(-1_453_600_000)
    );
    assert_eq!(expiry_timestamp(Expiry::After(i32::MIN as i64 - 5), 5), Some(i32::MIN));
    assert_eq!(expiry_timestamp(Expiry::After(i32::MIN as i64 - 6), 5), None);
    assert_eq!(expiry_timestamp(Expiry::After(i32::MAX as i64 - 5), 5), Some(i32::MAX));
    assert_eq!(expiry_timestamp(Expiry::After(i32::MAX as i64 - 4), 5), None);
    // Beyond what a chrono duration holds.
    assert_eq!(expiry_timestamp(Expiry::After(i64::MAX), 0), None);
    assert_eq!(expiry_timestamp(Expiry::After(9_223_372_036_854_776), 0), None);
    // Beyond the calendar.
    assert_eq!(expiry_timestamp(Expiry::After(9_000_000_000_000_000), 0), None);
}

#[test]
fn sweep_rule() {
    assert!(!is_expired(-1, 2_000_000_000));
    assert!(!is_expired(0, 2_000_000_000));
    assert!(is_expired(1_000, 1_001));
    assert!(!is_expired(1_000, 1_000));
    assert!(!is_expired(1_000, 999));
}

#[test]
fn read_once_rule() {
    assert!(is_read_once(0));
    assert!(!is_read_once(-1));
    assert!(!is_read_once(1_700_000_000));
}

#[test]
fn sweep_picks_expired_rows() {
    let rows = vec![
        ("aaaaaaaa".to_string(), -1i64),
        ("bbbbbbbb".to_string(), 0),
        ("cccccccc".to_string(), 1_000),
        ("dddddddd".to_string(), 5_000),
        ("eeeeeeee".to_string(), 999),
    ];
    assert_eq!(sweep_at(&rows, 1_001), vec!["cccccccc".to_string(), "eeeeeeee".to_string()]);
    assert_eq!(sweep_at(&rows, 1_000), vec!["eeeeeeee".to_string()]);
    assert!(sweep_at(&rows, 0).is_empty());
    // Long past: every stamped paste goes, never and read-once stay.
    assert_eq!(
        sweep(&rows),
        vec!["cccccccc".to_string(), "dddddddd".to_string(), "eeeeeeee".to_string()]
    );
}
