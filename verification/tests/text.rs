use cueflow::collections::TextMap;
use cueflow::executor::run_id_at;
use cueflow::text::{
    contains, eq_ignore_ascii_case, format_i64, format_u64, is_blank, join, replace_char, split,
    starts_with, strip_prefix, trim,
};
use cueflow::time::Duration;
use cueflow::value::{Json, JsonNumber, json_text, parse_json, pretty_json_text};

#[test]
fn text_is_taken_apart_and_put_together() {
    assert_eq!(split("a,,b", ','), vec!["a", "", "b"]);
    assert_eq!(
        join(&vec!["a".to_string(), "b".to_string()], "; "),
        "a; b"
    );
    assert_eq!(trim(" \u{2003}x y\n"), "x y");
    assert!(is_blank("\u{3000} \t"));
    assert!(!is_blank("."));
    assert!(contains("Microsoft Edge", "soft E"));
    assert!(!contains("Edge", "edge"));
    assert!(starts_with("--output", "--"));
    assert_eq!(strip_prefix("abc", "ab"), "c");
    assert_eq!(strip_prefix("abc", "bc"), "abc");
    assert_eq!(replace_char("a b c", ' ', "%20"), "a%20b%20c");
    assert!(eq_ignore_ascii_case("TextEdit", "TEXTedit"));
    assert!(!eq_ignore_ascii_case("\u{00C4}", "\u{00E4}"));
}

#[test]
fn numbers_are_written_in_decimal() {
    assert_eq!(format_u64(0), "0");
    assert_eq!(format_u64(u64::MAX), "18446744073709551615");
    assert_eq!(format_i64(i64::MIN), "-9223372036854775808");
    assert_eq!(run_id_at(1_700_000_000_000_000_001), "run-1700000000000000001");
}

#[test]
fn maps_are_kept_in_the_order_of_their_keys() {
    let mut map = TextMap::from_entries(vec![
        ("b".to_string(), 1),
        ("a".to_string(), 2),
        ("b".to_string(), 3),
    ]);
    assert_eq!(map.len(), 2);
    assert_eq!(map.key_at(0), "a");
    assert_eq!(map.get("b"), Some(&3));
    map.insert("\u{1F600}".to_string(), 4);
    map.insert("\u{FFFD}".to_string(), 5);
    assert_eq!(map.key_at(2), "\u{FFFD}");
    assert_eq!(map.key_at(3), "\u{1F600}");
    assert!(!map.contains_key("c"));
}

#[test]
fn lengths_of_time_do_not_go_below_zero() {
    let short = Duration::from_millis(5);
    let long = Duration::from_secs(1);
    assert_eq!(short.saturating_sub(long), Duration::zero());
    assert_eq!(long.saturating_sub(short).as_millis(), 995);
    assert_eq!(long.shorter(short), short);
    assert!(Duration::zero().is_zero());
}

#[test]
fn values_are_written_with_sorted_keys() {
    let value = parse_json("{\"b\": [1, -2, 1.5], \"a\": {\"z\": null, \"y\": \"x\"}}")
        .expect("it is JSON");
    assert_eq!(
        json_text(&value),
        "{\"a\":{\"y\":\"x\",\"z\":null},\"b\":[1,-2,1.5]}"
    );
    let twice = Json::Object(vec![
        ("k".to_string(), Json::Bool(false)),
        ("k".to_string(), Json::Bool(true)),
    ]);
    assert_eq!(json_text(&twice), "{\"k\":true}");
    assert_eq!(pretty_json_text(&twice), "{\n  \"k\": true\n}");
    let odd = Json::Number(JsonNumber::NegInt(7));
    assert_eq!(json_text(&odd), "7");
}
