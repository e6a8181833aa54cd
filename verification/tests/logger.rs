use tempest::logger::{error, info, timestamp, warn, ymd_from_doy};

#[test]
fn epoch_timestamp() {
    assert_eq!(timestamp(0), "1970-01-01 00:00:00");
    assert_eq!(timestamp(86400 * 365), "1971-01-01 00:00:00");
    assert_eq!(timestamp(1_700_000_000), "2023-11-14 22:13:20");
    assert_eq!(timestamp(59), "1970-01-01 00:00:59");
}

#[test]
fn months_from_day_of_year() {
    assert_eq!(ymd_from_doy(0), (1, 1));
    assert_eq!(ymd_from_doy(31), (2, 1));
    assert_eq!(ymd_from_doy(59), (3, 1));
    assert_eq!(ymd_from_doy(364), (12, 31));
    assert_eq!(ymd_from_doy(400), (12, 31));
}

#[test]
fn log_lines() {
    assert_eq!(info(0, "hi"), "[1970-01-01 00:00:00] [INFO] hi");
    assert_eq!(warn(0, "w"), "[1970-01-01 00:00:00] [WARN] w");
    assert_eq!(error(3600, "e"), "[1970-01-01 01:00:00] [ERROR] e");
}

#[test]
fn timestamp_large() {
    let t = timestamp(u64::MAX);
    assert!(t.len() >= 19);
}
