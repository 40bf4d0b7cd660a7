use chrono::TimeZone;
use dtren::error::ErrorKind;
use dtren::stamp::{checked_stamp, is_timestamp, since_epoch, timestamp, NANOS_PER_SEC, STAMP_LEN};

#[test]
fn timestamp_shape() {
    assert!(is_timestamp("20240229_235959"));
    assert!(is_timestamp("00000000_000000"));
    assert!(!is_timestamp(""));
    assert!(!is_timestamp("20240229-235959"));
    assert!(!is_timestamp("20240229_23595"));
    assert!(!is_timestamp("20240229_2359590"));
    assert!(!is_timestamp("2024022a_235959"));
    assert!(!is_timestamp("20240229_23595x"));
    assert!(!is_timestamp("x0240229_235959"));
    assert!(!is_timestamp("２0240229_235959"));
    assert!(!is_timestamp("+10000101_00000"));
    assert_eq!(STAMP_LEN, 15);
}

#[test]
fn checked_stamp_keeps_or_refuses() {
    assert_eq!(checked_stamp(Some("19991231_000000".to_string())), Ok("19991231_000000".to_string()));
    assert_eq!(checked_stamp(Some("1999-12-31".to_string())), Err(ErrorKind::Clock));
    assert_eq!(checked_stamp(None), Err(ErrorKind::Clock));
}

#[test]
fn timestamp_of_a_known_instant() {
    // 2023-11-14T22:13:20Z: in every time zone a day of November 2023.
    let stamp = timestamp(Some((1_700_000_000, 0))).unwrap();
    assert!(is_timestamp(&stamp));
    assert_eq!(stamp.len(), 15);
    assert!(stamp.starts_with("202311"), "{}", stamp);
    assert!(&stamp[6..8] == "14" || &stamp[6..8] == "15", "{}", stamp);
    // The seconds are the same in every zone whose offset is in whole minutes.
    assert_eq!(timestamp(Some((1_700_000_000, 999_999_999))), Ok(stamp));
}

#[test]
fn timestamp_is_local_rendering() {
    let secs: i64 = 1_234_567_890;
    let expected = chrono::Local.timestamp_opt(secs, 0).unwrap().format("%Y%m%d_%H%M%S").to_string();
    assert_eq!(timestamp(Some((secs, 0))), Ok(expected));
}

#[test]
fn timestamp_out_of_range() {
    assert_eq!(timestamp(Some((i64::MAX, 0))), Err(ErrorKind::Clock));
    assert_eq!(timestamp(Some((i64::MIN, 0))), Err(ErrorKind::Clock));
    assert_eq!(timestamp(Some((0, 2_000_000_000))), Err(ErrorKind::Clock));
}

#[test]
fn timestamp_beyond_four_digit_years() {
    // Mid-year 10000 and mid-year -1: neither has a four-digit year.
    assert_eq!(timestamp(Some((253_402_300_800 + 180 * 86_400, 0))), Err(ErrorKind::Clock));
    assert_eq!(timestamp(Some((-62_167_219_200 - 180 * 86_400, 0))), Err(ErrorKind::Clock));
    // Mid-year 9999 still has one.
    let late = timestamp(Some((253_402_300_800 - 180 * 86_400, 0))).unwrap();
    assert!(late.starts_with("9999"), "{}", late);
}

#[test]
fn timestamp_without_a_time() {
    assert_eq!(timestamp(None), Err(ErrorKind::Clock));
}

#[test]
fn since_epoch_after_the_epoch() {
    assert_eq!(since_epoch(false, 0, 0), Some((0, 0)));
    assert_eq!(since_epoch(false, 1_700_000_000, 5), Some((1_700_000_000, 5)));
    assert_eq!(since_epoch(false, i64::MAX as u64, 999_999_999), Some((i64::MAX, 999_999_999)));
    assert_eq!(since_epoch(false, i64::MAX as u64 + 1, 0), None);
    assert_eq!(since_epoch(false, u64::MAX, 0), None);
}

#[test]
fn since_epoch_before_the_epoch() {
    assert_eq!(since_epoch(true, 0, 0), Some((0, 0)));
    assert_eq!(since_epoch(true, 1, 0), Some((-1, 0)));
    assert_eq!(since_epoch(true, 0, 1), Some((-1, 999_999_999)));
    assert_eq!(since_epoch(true, 1, 250_000_000), Some((-2, 750_000_000)));
    assert_eq!(since_epoch(true, i64::MAX as u64, 1), Some((i64::MIN, 999_999_999)));
    assert_eq!(since_epoch(true, i64::MAX as u64 + 1, 0), Some((i64::MIN, 0)));
    assert_eq!(since_epoch(true, i64::MAX as u64 + 1, 1), None);
    assert_eq!(since_epoch(true, i64::MAX as u64 + 2, 0), None);
}

#[test]
fn since_epoch_refuses_whole_seconds_of_nanos() {
    assert_eq!(NANOS_PER_SEC, 1_000_000_000);
    assert_eq!(since_epoch(false, 1, 1_000_000_000), None);
    assert_eq!(since_epoch(true, 1, u32::MAX), None);
}

#[test]
fn since_epoch_adds_up() {
    for (before, secs, nanos) in [(false, 12u64, 34u32), (true, 12, 34), (true, 7, 0), (true, 0, 999_999_999)] {
        let (whole, beyond) = since_epoch(before, secs, nanos).unwrap();
        let total = whole as i128 * 1_000_000_000 + beyond as i128;
        let given = secs as i128 * 1_000_000_000 + nanos as i128;
        assert_eq!(total, if before { -given } else { given });
        assert!(beyond < 1_000_000_000);
    }
}
