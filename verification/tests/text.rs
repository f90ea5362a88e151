use ip_cameras::text::{
    contains_text, find, first_int_in_range, has_prefix, line_bounds, parse_first_int, same_text,
    strip_prefix, tail_from, to_chars, to_decimal, write_query,
};

#[test]
fn first_int_reads_the_digits_after_the_equals_sign() {
    assert_eq!(parse_first_int("root.Image.I0.Stream.FPS=0025abc"), Some(25));
    assert_eq!(parse_first_int("a=b=17;9"), Some(17));
    assert_eq!(parse_first_int("key= 7"), Some(7));
    assert_eq!(parse_first_int("=0"), Some(0));
}

#[test]
fn first_int_is_none_without_digits_after_the_equals_sign() {
    assert_eq!(parse_first_int("root.Image.I0.Stream.FPS="), None);
    assert_eq!(parse_first_int("FPS=abc"), None);
    assert_eq!(parse_first_int("12 and no sign"), None);
    assert_eq!(parse_first_int(""), None);
}

#[test]
fn first_int_ignores_digits_before_the_equals_sign() {
    assert_eq!(parse_first_int("I0.FPS=30"), Some(30));
    assert_eq!(parse_first_int("99=x"), None);
}

#[test]
fn first_int_range_check_tells_what_fits_in_32_bits() {
    assert!(first_int_in_range("n=4294967295"));
    assert!(!first_int_in_range("n=4294967296"));
    assert!(first_int_in_range("n=00000000000000000001"));
    assert!(first_int_in_range("no number"));
    assert_eq!(parse_first_int("n=4294967295"), Some(u32::MAX));
}

#[test]
fn find_gives_the_first_occurrence() {
    let hay = to_chars("abcabc");
    assert_eq!(find(&hay, &to_chars("bc")), Some(1));
    assert_eq!(find(&hay, &to_chars("")), Some(0));
    assert_eq!(find(&hay, &to_chars("cb")), None);
    assert_eq!(find(&hay, &to_chars("abcabcd")), None);
}

#[test]
fn contains_and_prefix_agree_with_the_standard_library() {
    for (hay, needle) in [("OK", "OK"), ("Error\nOK\n", "OK"), ("ok", "OK"), ("", ""), ("", "x"), ("été", "té")] {
        assert_eq!(contains_text(hay, needle), hay.contains(needle));
        assert_eq!(has_prefix(hay, needle), hay.starts_with(needle));
        assert_eq!(same_text(hay, needle), hay == needle);
    }
}

#[test]
fn strip_prefix_removes_the_prefix_once() {
    assert_eq!(strip_prefix("http://10.0.0.1", "http://"), "10.0.0.1");
    assert_eq!(strip_prefix("10.0.0.1", "http://"), "10.0.0.1");
    assert_eq!(strip_prefix("http://http://x", "http://"), "http://x");
    assert_eq!(strip_prefix("x/http://y", "http://"), "x/http://y");
}

#[test]
fn tail_from_cuts_before_the_first_occurrence() {
    assert_eq!(tail_from("a.FPS=1 b.FPS=2", "FPS"), Some("FPS=1 b.FPS=2".to_string()));
    assert_eq!(tail_from("nothing", "FPS"), None);
}

#[test]
fn decimal_writes_numbers_without_leading_zeros() {
    assert_eq!(to_decimal(0), "0");
    assert_eq!(to_decimal(7), "7");
    assert_eq!(to_decimal(25), "25");
    assert_eq!(to_decimal(1000), "1000");
    assert_eq!(to_decimal(u64::MAX), u64::MAX.to_string());
}

#[test]
fn query_joins_names_and_values() {
    assert_eq!(write_query(&vec![]), "");
    assert_eq!(write_query(&vec![("a", "1")]), "a=1");
    assert_eq!(write_query(&vec![("a", "1"), ("b", ""), ("c", "x y")]), "a=1&b=&c=x y");
}

#[test]
fn lines_are_cut_as_the_standard_library_cuts_them() {
    for text in ["", "a", "a\n", "a\nb", "a\r\nb\r\n", "\n", "\n\n", "a\r", "a\r\n", "\r\n", "a\n\r\nb", "x=1\ny=2\n\nz"] {
        let chars = to_chars(text);
        let cut: Vec<String> = line_bounds(&chars)
            .iter()
            .map(|b| chars[b.start..b.end].iter().collect())
            .collect();
        let expected: Vec<String> = text.lines().map(|l| l.to_string()).collect();
        assert_eq!(cut, expected);
    }
}
