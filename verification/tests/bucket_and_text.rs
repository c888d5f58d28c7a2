use feature_flag::bucket::{deterministic_bucket, digest_bucket};
use feature_flag::decimal::{i64_text, parse_i64, u64_text};
use feature_flag::json::JsonValue;
use feature_flag::keyed::KeyedMap;
use feature_flag::page::start_after;
use feature_flag::stamp::{format_timestamp, new_receipt_id, now, optional_timestamp};
use feature_flag::text::{bytes_equal, text_contains, text_equal, text_replaced};

#[test]
fn deterministic_bucketing_has_fixed_vectors() {
    assert_eq!(deterministic_bucket("org", "prod", "checkout", "user-1"), 9_205);
    assert_eq!(deterministic_bucket("org", "prod", "checkout", "user-2"), 4_341);
    assert_eq!(deterministic_bucket("other", "staging", "search", "actor"), 1_413);
}

#[test]
fn bucket_takes_the_first_eight_bytes_of_a_digest() {
    let mut digest = vec![0u8; 32];
    digest[7] = 1;
    assert_eq!(digest_bucket(&digest), 1);
    digest[6] = 0x27;
    digest[7] = 0x10;
    assert_eq!(digest_bucket(&digest), 0);
    digest[8] = 255;
    assert_eq!(digest_bucket(&digest), 0);
    assert_eq!(digest_bucket(&[255; 8]), u64::MAX % 10_000);
}

#[test]
fn keys_are_kept_apart_in_a_bucket() {
    assert_ne!(
        deterministic_bucket("a", "bc", "d", "e"),
        deterministic_bucket("ab", "c", "d", "e")
    );
}

#[test]
fn decimal_numbers_read_back_as_they_are_written() {
    for number in [0, 1, 9, 10, 907, -1, -10, i64::MAX, i64::MIN] {
        assert_eq!(i64_text(number), number.to_string());
        assert_eq!(parse_i64(&i64_text(number)), Some(number));
    }
    assert_eq!(u64_text(u64::MAX), u64::MAX.to_string());
}

#[test]
fn integers_are_read_as_the_standard_library_reads_them() {
    for text in [
        "", "+", "-", "0", "+7", "-7", "007", "1_000", " 1", "1 ", "9223372036854775807",
        "9223372036854775808", "-9223372036854775808", "-9223372036854775809", "12a", "٣", "1.0",
        "99999999999999999999999999",
    ] {
        assert_eq!(parse_i64(text), text.parse::<i64>().ok(), "{text:?}");
    }
}

#[test]
fn json_is_rendered_as_rules_compare_it() {
    assert_eq!(JsonValue::parse("\"staff\"").unwrap().rendered(), "staff");
    assert_eq!(JsonValue::parse("\"a\\nb\"").unwrap().rendered(), "a\nb");
    assert_eq!(JsonValue::parse(" 12 ").unwrap().rendered(), "12");
    assert_eq!(JsonValue::parse("true").unwrap().rendered(), "true");
    assert_eq!(JsonValue::parse("null").unwrap().rendered(), "null");
    assert_eq!(JsonValue::parse("[ 1, \"x\" ]").unwrap().rendered(), "[1,\"x\"]");
    assert!(JsonValue::parse("{").is_err());
}

#[test]
fn texts_are_compared_searched_and_replaced() {
    assert!(text_equal("é", "é"));
    assert!(!text_equal("a", "b"));
    assert!(!text_equal("a", "ab"));
    assert!(bytes_equal(&[1, 2], &[1, 2]));
    assert!(!bytes_equal(&[1, 2], &[1, 3]));
    for (text, needle) in [("", ""), ("abc", ""), ("abc", "bc"), ("abc", "cd"), ("aab", "ab"), ("", "a")] {
        assert_eq!(text_contains(text, needle), text.contains(needle));
    }
    for (text, from, to) in [
        ("aXbX", "X", "yy"),
        ("aaa", "aa", "b"),
        ("none", "X", "y"),
        ("", "X", "y"),
        ("\"$ref\":\"flag-value.schema.json\"", "flag-value.schema.json", "#/$defs/FlagValue"),
    ] {
        assert_eq!(text_replaced(text, from, to), text.replace(from, to));
    }
}

#[test]
fn keyed_map_holds_the_last_value_of_a_key() {
    let mut map: KeyedMap<u32> = KeyedMap::new();
    assert!(map.get("a").is_none());
    map.insert("a".to_owned(), 1);
    map.insert("b".to_owned(), 2);
    map.insert("a".to_owned(), 3);
    assert_eq!(map.get("a"), Some(&3));
    assert_eq!(map.get("b"), Some(&2));
    assert!(map.contains_key("a"));
    assert!(!map.contains_key("c"));
}

#[test]
fn instants_are_written_in_rfc_3339() {
    assert_eq!(format_timestamp(0).unwrap(), "1970-01-01T00:00:00Z");
    assert_eq!(format_timestamp(1_500_000_000).unwrap(), "1970-01-01T00:00:01.5Z");
    assert_eq!(
        format_timestamp(1_700_000_000_000_000_000).unwrap(),
        "2023-11-14T22:13:20Z"
    );
    assert_eq!(format_timestamp(i128::MAX).unwrap(), "1970-01-01T00:00:00Z");
    assert!(optional_timestamp(None).unwrap().is_none());
    assert_eq!(
        optional_timestamp(Some(0)).unwrap().as_deref(),
        Some("1970-01-01T00:00:00Z")
    );
}

#[test]
fn an_instant_before_the_common_era_has_no_text() {
    let nanos = -70_000_000_000i128 * 1_000_000_000;
    assert!(matches!(
        format_timestamp(nanos),
        Err(feature_flag::domain::StorageError::Time(_))
    ));
    assert!(optional_timestamp(Some(nanos)).is_err());
}

#[test]
fn the_present_has_a_text_and_identifiers_are_fresh() {
    let text = now().unwrap();
    assert!(text.ends_with('Z') && text.starts_with("20"));
    let (a, b) = (new_receipt_id(), new_receipt_id());
    assert_ne!(a, b);
    assert_eq!(a.len(), 36);
    assert_eq!(&a[14..15], "4");
    assert_eq!(a.matches('-').count(), 4);
}

#[test]
fn a_page_starts_after_the_given_row() {
    assert_eq!(start_after(None), 0);
    assert_eq!(start_after(Some(7)), 7);
}
