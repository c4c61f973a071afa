use firms_api::ids::{parse_uuid, uuid_to_string};
use firms_api::text::{
    chars_of, concat_str, contains_any, contains_text, format_i32, format_i64, format_u64,
    format_usize, join_texts, numbered_text, parse_i32, parse_i64, replace_text, string_from,
    take_text, text_equals,
};

#[test]
fn uuid_renders_hyphenated_lower_hex() {
    let v: u128 = 0x67e5504410b1426f9247bb680e5fe0c8;
    assert_eq!(uuid_to_string(v), "67e55044-10b1-426f-9247-bb680e5fe0c8");
    assert_eq!(uuid_to_string(0), "00000000-0000-0000-0000-000000000000");
    assert_eq!(uuid_to_string(u128::MAX), "ffffffff-ffff-ffff-ffff-ffffffffffff");
}

#[test]
fn uuid_parses_back() {
    let v: u128 = 0x550e8400e29b41d4a716446655440000;
    assert_eq!(parse_uuid("550e8400-e29b-41d4-a716-446655440000"), Some(v));
    assert_eq!(parse_uuid("550e8400e29b41d4a716446655440000"), Some(v));
    assert_eq!(parse_uuid("not an id"), None);
    assert_eq!(parse_uuid(&uuid_to_string(v)), Some(v));
}

#[test]
fn chars_round_trip() {
    let s = "Привет, мир ↗";
    let v = chars_of(s);
    assert_eq!(v.len(), s.chars().count());
    assert_eq!(string_from(&v), s);
    assert_eq!(concat_str("ab", "цд"), "abцд");
}

#[test]
fn contains_matches_std() {
    let cases = [("Что-то пошло не так", "пошло"), ("abc", ""), ("", ""), ("", "a"), ("abc", "abcd"), ("ababc", "abc")];
    for (s, p) in cases.iter() {
        assert_eq!(contains_text(s, p), s.contains(p), "{:?} {:?}", s, p);
    }
    assert!(contains_any("Филиал временно не работает", &vec!["x", "временно"]));
    assert!(!contains_any("open", &vec!["x", "y"]));
    assert!(!contains_any("open", &vec![]));
    assert!(text_equals("admin", "admin"));
    assert!(!text_equals("admin", "Admin"));
    assert!(!text_equals("admin", "admi"));
}

#[test]
fn replace_matches_std() {
    let cases = [
        ("a\nb\n", "\n", ", "),
        ("aaa", "aa", "b"),
        ("tel:+7 900", "tel:", ""),
        ("XYZ is XYZ", "XYZ", "Шиномонтаж"),
        ("", "#", ""),
        ("##", "#", ""),
        ("abc", "abcd", "x"),
    ];
    for (s, p, r) in cases.iter() {
        assert_eq!(replace_text(s, p, r), s.replace(p, r), "{:?} {:?} {:?}", s, p, r);
    }
}

#[test]
fn join_and_take() {
    let parts = vec!["a".to_string(), "bb".to_string(), "c".to_string()];
    assert_eq!(join_texts(&parts, "; "), "a; bb; c");
    assert_eq!(join_texts(&vec![], "; "), "");
    assert_eq!(join_texts(&vec!["x".to_string()], "; "), "x");
    assert_eq!(take_text("привет", 3), "при");
    assert_eq!(take_text("abc", 10), "abc");
    assert_eq!(take_text("abc", 0), "");
}

#[test]
fn formats_numbers_like_display() {
    for n in [0i64, 7, 10, 99, 100, -1, -10, 1234567890, i64::MAX, i64::MIN] {
        assert_eq!(format_i64(n), n.to_string());
    }
    for n in [0u64, 9, 10, u64::MAX] {
        assert_eq!(format_u64(n), n.to_string());
    }
    for n in [0i32, -5, i32::MIN, i32::MAX] {
        assert_eq!(format_i32(n), n.to_string());
    }
    assert_eq!(format_usize(42), "42");
    assert_eq!(numbered_text("div[", 12, "]"), "div[12]");
}

#[test]
fn parses_numbers_like_from_str() {
    let cases = [
        "0", "12", "+12", "-12", "", "-", "+", "12a", " 12", "007",
        "9223372036854775807", "9223372036854775808", "-9223372036854775808",
        "-9223372036854775809", "99999999999999999999999", "2147483647", "2147483648",
        "-2147483648", "-2147483649", "١٢",
    ];
    for s in cases.iter() {
        assert_eq!(parse_i64(s), s.parse::<i64>().ok(), "{:?}", s);
        assert_eq!(parse_i32(s), s.parse::<i32>().ok(), "{:?}", s);
    }
}

#[test]
fn reading_back_a_rendered_number_gives_it_back() {
    for n in [0i64, 1, -1, 42, -42, i64::MAX, i64::MIN, 1_000_000_007] {
        assert_eq!(parse_i64(&format_i64(n)), Some(n));
    }
}
