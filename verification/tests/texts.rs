use http_server::decimal::{to_decimal, Counter};
use http_server::text::{
    char_is_whitespace, chars_of, find_in, matches_at, range_starts_with, trim_range,
};

fn chars(text: &str) -> Vec<char> {
    text.chars().collect()
}

#[test]
fn chars_are_taken_in_order() {
    assert_eq!(chars_of(""), Vec::<char>::new());
    assert_eq!(chars_of("a\u{e9}\u{1f600}\r\n"), vec!['a', '\u{e9}', '\u{1f600}', '\r', '\n']);
}

#[test]
fn white_space_is_what_the_standard_library_calls_white_space() {
    for code in 0..=0x10ffffu32 {
        if let Some(c) = char::from_u32(code) {
            assert_eq!(char_is_whitespace(c), c.is_whitespace(), "U+{:04X}", code);
        }
    }
}

#[test]
fn a_pattern_matches_where_it_stands() {
    let text = chars("abcabc");
    assert!(matches_at(&text, 0, &chars("abc")));
    assert!(matches_at(&text, 3, &chars("abc")));
    assert!(!matches_at(&text, 1, &chars("abc")));
    assert!(!matches_at(&text, 4, &chars("abc")));
    assert!(matches_at(&text, 6, &chars("")));
    assert!(!matches_at(&text, 7, &chars("")));
    assert!(!matches_at(&text, usize::MAX, &chars("a")));
}

#[test]
fn a_range_begins_with_a_pattern_only_where_the_pattern_fits() {
    let text = chars("xxCookie:yy");
    assert!(range_starts_with(&text, 2, 11, &chars("Cookie:")));
    assert!(range_starts_with(&text, 2, 9, &chars("Cookie:")));
    assert!(!range_starts_with(&text, 2, 8, &chars("Cookie:")));
    assert!(!range_starts_with(&text, 0, 11, &chars("Cookie:")));
    assert!(range_starts_with(&text, 5, 5, &chars("")));
}

#[test]
fn the_first_occurrence_in_the_range_is_found() {
    let text = chars("a;b;;c");
    let semicolon = chars(";");
    assert_eq!(find_in(&text, 0, 6, &semicolon), Some(1));
    assert_eq!(find_in(&text, 2, 6, &semicolon), Some(3));
    assert_eq!(find_in(&text, 4, 6, &semicolon), Some(4));
    assert_eq!(find_in(&text, 5, 6, &semicolon), None);
    assert_eq!(find_in(&text, 0, 1, &semicolon), None);
    assert_eq!(find_in(&text, 3, 3, &semicolon), None);
    assert_eq!(find_in(&text, 3, 3, &chars("")), Some(3));
    let blank = chars("\r\n\r\n");
    let request = chars("a\r\n\r\r\n\r\nb\r\n\r\n");
    assert_eq!(find_in(&request, 0, request.len(), &blank), Some(4));
    assert_eq!(find_in(&request, 0, 7, &blank), None);
    assert_eq!(find_in(&request, 5, request.len(), &blank), Some(9));
}

#[test]
fn trimming_takes_white_space_from_both_ends_only() {
    let text = chars(" \t a b \u{a0}\r\n");
    let (from, to) = trim_range(&text, 0, text.len());
    assert_eq!((from, to), (3, 6));
    assert_eq!(trim_range(&text, 4, 5), (5, 5));
    assert_eq!(trim_range(&text, 0, 3), (3, 3));
    assert_eq!(trim_range(&text, 3, 6), (3, 6));
    assert_eq!(trim_range(&chars(""), 0, 0), (0, 0));
}

#[test]
fn numerals_are_those_of_the_standard_library() {
    let mut samples = vec![0usize, 1, 9, 10, 11, 19, 20, 99, 100, 101, 999, 1000, 1024, 65535];
    samples.push(usize::MAX);
    samples.push(usize::MAX - 1);
    samples.push(usize::MAX / 10);
    for n in samples {
        assert_eq!(to_decimal(n), n.to_string());
    }
    for n in 0..3000usize {
        assert_eq!(to_decimal(n), n.to_string());
    }
}

#[test]
fn a_counter_counts_through_the_carries() {
    let mut counter = Counter::new();
    for n in 0..12000usize {
        assert_eq!(counter.numeral(), n.to_string());
        counter.increment();
    }
    assert_eq!(counter.numeral(), "12000");
}
