use portal_daemon::digits::{format_u64, parse_u64_decimal, trim_ascii};
use portal_daemon::pause::{compute_expiry, PauseStore};

#[test]
fn parse_plain_number() {
    assert_eq!(parse_u64_decimal(b"123"), Some(123));
    assert_eq!(parse_u64_decimal(b"007"), Some(7));
    assert_eq!(parse_u64_decimal(b"0"), Some(0));
}

#[test]
fn parse_strips_whitespace() {
    assert_eq!(parse_u64_decimal(b" 42\r\n"), Some(42));
    assert_eq!(parse_u64_decimal(b"\t1700000000\n"), Some(1700000000));
}

#[test]
fn parse_rejects_garbage() {
    assert_eq!(parse_u64_decimal(b""), None);
    assert_eq!(parse_u64_decimal(b"   \n"), None);
    assert_eq!(parse_u64_decimal(b"12a3"), None);
    assert_eq!(parse_u64_decimal(b"-5"), None);
    assert_eq!(parse_u64_decimal(b"12 34"), None);
}

#[test]
fn parse_bounds_of_u64() {
    assert_eq!(parse_u64_decimal(b"18446744073709551615"), Some(u64::MAX));
    assert_eq!(parse_u64_decimal(b"18446744073709551616"), None);
    assert_eq!(parse_u64_decimal(b"99999999999999999999999"), None);
}

#[test]
fn format_writes_decimal() {
    assert_eq!(format_u64(0), b"0".to_vec());
    assert_eq!(format_u64(7), b"7".to_vec());
    assert_eq!(format_u64(1234567890), b"1234567890".to_vec());
    assert_eq!(format_u64(u64::MAX), b"18446744073709551615".to_vec());
}

#[test]
fn format_then_parse_round_trips() {
    for n in [0u64, 1, 9, 10, 99, 100, 98765, u64::MAX] {
        assert_eq!(parse_u64_decimal(&format_u64(n)), Some(n));
    }
}

#[test]
fn trim_strips_both_ends() {
    assert_eq!(trim_ascii(b"  hi\t\n"), b"hi".to_vec());
    assert_eq!(trim_ascii(b"plain"), b"plain".to_vec());
    assert_eq!(trim_ascii(b" \r\n\t "), Vec::<u8>::new());
    assert_eq!(trim_ascii(b""), Vec::<u8>::new());
}

#[test]
fn read_absent_marker() {
    let mut store = PauseStore::absent();
    assert_eq!(store.read(1000), None);
    assert!(store.marker.is_none());
}

#[test]
fn read_active_marker_keeps_it() {
    let mut store = PauseStore { marker: Some(b"2000".to_vec()) };
    assert_eq!(store.read(1999), Some(2000));
    assert_eq!(store.marker, Some(b"2000".to_vec()));
}

#[test]
fn read_due_marker_deletes_it() {
    let mut store = PauseStore { marker: Some(b"2000".to_vec()) };
    assert_eq!(store.read(2000), None);
    assert!(store.marker.is_none());
}

#[test]
fn read_unparsable_marker_deletes_it() {
    let mut store = PauseStore { marker: Some(b"soon-ish".to_vec()) };
    assert_eq!(store.read(0), None);
    assert!(store.marker.is_none());
}

#[test]
fn expired_read_is_idempotent() {
    // Once expiry has healed the marker away, every further read finds
    // nothing and has nothing left to delete.
    let mut store = PauseStore { marker: Some(b"500".to_vec()) };
    assert_eq!(store.read(600), None);
    assert!(store.marker.is_none());
    for later in [600u64, 601, 10_000] {
        assert_eq!(store.read(later), None);
        assert!(store.marker.is_none());
    }
}

#[test]
fn set_writes_decimal_marker() {
    let mut store = PauseStore::absent();
    store.set(5000);
    assert_eq!(store.marker, Some(b"5000".to_vec()));
    assert_eq!(store.read(4000), Some(5000));
    let mut store = PauseStore::absent();
    store.set(5000);
    assert_eq!(store.read(5000), None);
}

#[test]
fn set_replaces_rather_than_stacks() {
    // Last write wins: a second pause replaces the expiry, whatever was
    // active before.
    let mut store = PauseStore::absent();
    store.set(1000);
    store.set(2000);
    assert_eq!(store.read(1500), Some(2000));

    let mut store = PauseStore { marker: Some(b"9999".to_vec()) };
    store.set(500);
    assert_eq!(store.read(400), Some(500));
    let mut store = PauseStore { marker: Some(b"9999".to_vec()) };
    store.set(500);
    assert_eq!(store.read(600), None);
}

#[test]
fn clear_removes_and_is_noop_when_absent() {
    let mut store = PauseStore::absent();
    store.set(777);
    store.clear();
    assert!(store.marker.is_none());
    assert_eq!(store.read(0), None);
    let mut store = PauseStore::absent();
    store.clear();
    assert!(store.marker.is_none());
}

#[test]
fn expiry_arithmetic() {
    assert_eq!(compute_expiry(100, 2), Some(220));
    assert_eq!(compute_expiry(0, 0), Some(0));
    assert_eq!(compute_expiry(u64::MAX, 1), None);
    assert_eq!(compute_expiry(0, u64::MAX), None);
}
