use time::{Duration, OffsetDateTime};
use vn_connectors::clock::{calendar_reaches, vietnam_clock, FIRST_SECOND, LAST_SECOND};
use vn_connectors::codec::query_string;
use vn_connectors::params::{compare_text, ParamMap, Place};
use vn_connectors::signing::{sign_message_sha256, sign_message_sha512};
use vn_connectors::text::{decimal_text, same_text, zero_padded_text};
use vn_connectors::vnpay::transformers::format_vnpay_datetime;

fn map_of(pairs: &[(&str, &str)]) -> ParamMap {
    ParamMap::from_pairs(pairs.iter().map(|(k, v)| (k.to_string(), v.to_string())).collect())
}

fn pairs_of(map: &ParamMap) -> Vec<(String, String)> {
    (0..map.len()).map(|i| (map.key(i).clone(), map.value(i).clone())).collect()
}

fn same_pairs(map: &ParamMap, expected: &[(&str, &str)]) {
    let expected: Vec<(String, String)> =
        expected.iter().map(|(k, v)| (k.to_string(), v.to_string())).collect();
    assert_eq!(pairs_of(map), expected);
}

// ---- numbers and text ----

#[test]
fn numbers_in_decimal() {
    for n in [0, 1, 9, 10, 99, 100, 1234567890, -1, -10, i64::MAX, i64::MIN] {
        assert_eq!(decimal_text(n), n.to_string());
    }
}

#[test]
fn numbers_filled_up_with_zeros() {
    for n in [0, 7, 42, 999, 1000, 12345, -5, -9999, i64::MIN] {
        assert_eq!(zero_padded_text(n, 4), format!("{:04}", n));
        assert_eq!(zero_padded_text(n, 2), format!("{:02}", n));
        assert_eq!(zero_padded_text(n, 0), format!("{:0}", n));
    }
}

#[test]
fn texts_are_compared_by_content() {
    assert!(same_text(&"00".to_string(), "00"));
    assert!(!same_text(&"00".to_string(), "000"));
    assert!(!same_text(&"".to_string(), "0"));
}

#[test]
fn texts_are_ordered_as_strings_are() {
    let texts = ["", "a", "ab", "b", "B", "_", "vnp_SecureHash", "vnp_SecureHashType", "é", "日", "😀"];
    for a in texts {
        for b in texts {
            let place = compare_text(a, b);
            assert_eq!(matches!(place, Place::Before), a < b);
            assert_eq!(matches!(place, Place::Same), a == b);
            assert_eq!(matches!(place, Place::After), a > b);
        }
    }
}

// ---- parameter maps ----

#[test]
fn a_map_is_sorted_and_the_last_value_stays() {
    let map = map_of(&[("b", "1"), ("a", "2"), ("c", "3"), ("b", "4")]);
    same_pairs(&map, &[("a", "2"), ("b", "4"), ("c", "3")]);
    assert_eq!(map.get("b").map(|v| v.as_str()), Some("4"));
    assert!(map.get("d").is_none());
}

#[test]
fn the_order_of_insertion_does_not_matter() {
    let a = map_of(&[("x", "1"), ("y", "2"), ("z", "3")]);
    let b = map_of(&[("z", "3"), ("x", "1"), ("y", "2")]);
    assert_eq!(pairs_of(&a), pairs_of(&b));
}

#[test]
fn an_inserted_key_can_be_taken_out_again() {
    let mut map = map_of(&[("a", "1"), ("c", "3")]);
    map.insert("b".to_string(), "2".to_string());
    same_pairs(&map, &[("a", "1"), ("b", "2"), ("c", "3")]);
    same_pairs(&map.without_keys("b", "other"), &[("a", "1"), ("c", "3")]);
    same_pairs(&map.without_keys("c", "a"), &[("b", "2")]);
}

#[test]
fn an_empty_map_is_an_empty_query() {
    assert_eq!(ParamMap::new().len(), 0);
    assert_eq!(query_string(&ParamMap::new()), "");
}

#[test]
fn a_query_string_encodes_values_and_not_keys() {
    let map = map_of(&[("b", "Cà phê & trà=~_-."), ("a", "x y"), ("c d", "")]);
    assert_eq!(
        query_string(&map),
        "a=x%20y&b=C%C3%A0%20ph%C3%AA%20%26%20tr%C3%A0%3D~_-.&c d="
    );
}

#[test]
fn different_parameters_are_different_query_strings() {
    let a = query_string(&map_of(&[("a", "1&b=2")]));
    let b = query_string(&map_of(&[("a", "1"), ("b", "2")]));
    assert_eq!(a, "a=1%26b%3D2");
    assert_eq!(b, "a=1&b=2");
}

// ---- signatures ----

#[test]
fn signatures_of_a_known_message() {
    let message = "The quick brown fox jumps over the lazy dog";
    assert_eq!(
        sign_message_sha256("key", message).unwrap(),
        "f7bc83f430538424b13298e6aa6fb143ef4d59a14946175997479dbc2d1a3cd8"
    );
    assert_eq!(
        sign_message_sha512("key", message).unwrap(),
        "b42af09057bac1e2d41708e48a902e09b5ff7f12ab428a4fe86653c73dd248fb82f948a549f7b791a5b41915ee4d1ec3935357e4e2317250d0372afa2ebeeb3a"
    );
}

#[test]
fn signatures_have_fixed_lengths() {
    assert_eq!(sign_message_sha256("", "").unwrap().len(), 64);
    assert_eq!(sign_message_sha512("", "").unwrap().len(), 128);
}

// ---- dates ----

#[test]
fn dates_are_vietnamese() {
    assert_eq!(format_vnpay_datetime(0), "19700101070000");
    assert_eq!(format_vnpay_datetime(1700000000), "20231115051320");
    assert_eq!(format_vnpay_datetime(951757199), "20000228235959");
    assert_eq!(format_vnpay_datetime(951757200), "20000229000000");
    assert_eq!(format_vnpay_datetime(-25201), "19691231235959");
}

#[test]
fn dates_at_the_ends_of_the_calendar() {
    assert!(calendar_reaches(FIRST_SECOND));
    assert!(!calendar_reaches(FIRST_SECOND - 1));
    assert!(calendar_reaches(LAST_SECOND - 25200));
    assert!(!calendar_reaches(LAST_SECOND - 25199));
    assert_eq!(format_vnpay_datetime(FIRST_SECOND), "-99990101070000");
    assert_eq!(format_vnpay_datetime(LAST_SECOND - 25200), "99991231235959");
    assert!(OffsetDateTime::from_unix_timestamp(FIRST_SECOND).is_ok());
    assert!(OffsetDateTime::from_unix_timestamp(FIRST_SECOND - 1).is_err());
    assert!(OffsetDateTime::from_unix_timestamp(LAST_SECOND).is_ok());
    assert!(OffsetDateTime::from_unix_timestamp(LAST_SECOND + 1).is_err());
}

#[test]
fn the_clock_is_seven_hours_ahead_of_utc() {
    for seconds in [-62135596800, -1, 0, 68169599, 1078012800, 1709251199, 4107542399] {
        let ahead = OffsetDateTime::from_unix_timestamp(seconds).unwrap() + Duration::hours(7);
        let t = vietnam_clock(seconds);
        assert_eq!(t.year, ahead.year());
        assert_eq!(t.month, u8::from(ahead.month()));
        assert_eq!(t.day, ahead.day());
        assert_eq!((t.hour, t.minute, t.second), ahead.to_hms());
    }
}

#[test]
fn different_times_are_written_differently() {
    let mut seen: Vec<String> = Vec::new();
    for seconds in [0, 1, 60, 3600, 86400, 31 * 86400, 365 * 86400] {
        let text = format_vnpay_datetime(seconds);
        assert_eq!(text.len(), 14);
        assert!(!seen.contains(&text));
        seen.push(text);
    }
}

#[test]
fn dates_are_written_in_the_order_of_time() {
    let mut last = String::new();
    for seconds in [
        -62167244400, -1, 0, 59, 60, 3599, 3600, 86400, 951757199, 951757200, 1700000000,
        LAST_SECOND - 25200,
    ] {
        let text = format_vnpay_datetime(seconds);
        assert!(last < text);
        last = text;
    }
    assert_eq!(format_vnpay_datetime(-62167244400), "00000101000000");
}
