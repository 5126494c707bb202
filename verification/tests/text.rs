use ocular::text::{concat_str, parse_u64, str_contains, str_ends_with, str_starts_with, str_take, trim, u64_to_decimal};

#[test]
fn decimal_round_trip() {
    for n in [0u64, 1, 9, 10, 12345, u64::MAX] {
        let s = u64_to_decimal(n);
        assert_eq!(s, n.to_string());
        assert_eq!(parse_u64(&s).unwrap(), n);
    }
}

#[test]
fn trim_matches_str_trim() {
    for s in ["", "  ", " a b ", "\tx\n", "\u{3000}y\u{85}", "z"] {
        assert_eq!(trim(s), s.trim());
    }
}

#[test]
fn substring_helpers_match_str() {
    for (s, p) in [("https", "http"), ("tcp", "http"), ("", ""), ("abc", ""), ("ab", "abc"), ("xhttpx", "http")] {
        assert_eq!(str_contains(s, p), s.contains(p), "{:?} {:?}", s, p);
        assert_eq!(str_starts_with(s, p), s.starts_with(p));
        assert_eq!(str_ends_with(s, p), s.ends_with(p));
    }
    assert_eq!(str_take("hello", 3), "hel");
    assert_eq!(concat_str("a", "b"), "ab");
}
