use music_bot::arguments::{first_argument, split_arguments};
use music_bot::duration::{read_length, write_length};
use music_bot::text::{
    decimal_text, parse_u32, parse_unsigned, parse_usize, same_text, starts_with_text, web_link,
};

#[test]
fn decimal_text_writes_numbers() {
    assert_eq!(decimal_text(0), "0");
    assert_eq!(decimal_text(7), "7");
    assert_eq!(decimal_text(42), "42");
    assert_eq!(decimal_text(1000), "1000");
    assert_eq!(decimal_text(u64::MAX), u64::MAX.to_string());
}

#[test]
fn parse_usize_reads_like_std() {
    assert_eq!(parse_usize("42"), Some(42));
    assert_eq!(parse_usize("+7"), Some(7));
    assert_eq!(parse_usize("007"), Some(7));
    assert_eq!(parse_usize(""), None);
    assert_eq!(parse_usize("+"), None);
    assert_eq!(parse_usize("-1"), None);
    assert_eq!(parse_usize("4a"), None);
    assert_eq!(parse_usize(" 4"), None);
    assert_eq!(parse_usize("4 "), None);
    let too_big = format!("{}0", usize::MAX);
    assert_eq!(parse_usize(&too_big), None);
    assert_eq!(parse_usize(&usize::MAX.to_string()), Some(usize::MAX));
    for text in ["12", "+3", "", "x", "99999999999999999999999", "-0", "3.5"] {
        assert_eq!(parse_usize(text), text.parse::<usize>().ok());
    }
}

#[test]
fn parse_u32_bounds() {
    assert_eq!(parse_u32("4294967295"), Some(u32::MAX));
    assert_eq!(parse_u32("4294967296"), None);
    assert_eq!(parse_u32("10"), Some(10));
    assert_eq!(parse_unsigned("300", 255), None);
    assert_eq!(parse_unsigned("255", 255), Some(255));
}

#[test]
fn reading_back_a_written_number_gives_the_number() {
    for n in [0u64, 1, 9, 10, 11, 99, 100, 12345, u32::MAX as u64, usize::MAX as u64] {
        assert_eq!(parse_usize(&decimal_text(n)), Some(n as usize));
    }
}

#[test]
fn text_comparisons() {
    assert!(same_text("abc", "abc"));
    assert!(!same_text("abc", "abd"));
    assert!(!same_text("abc", "ab"));
    assert!(same_text("", ""));
    assert!(starts_with_text("https://x", "http"));
    assert!(!starts_with_text("htt", "http"));
    assert!(starts_with_text("anything", ""));
    assert!(web_link("http://example.com"));
    assert!(web_link("https://www.youtube.com/watch?v=abc"));
    assert!(!web_link("ftp://example.com"));
    assert!(!web_link("lofi beats"));
    assert!(!web_link("HTTP://x"));
}

#[test]
fn arguments_split_like_serenity() {
    assert_eq!(first_argument("hello world", ' '), Some("hello".to_string()));
    assert_eq!(first_argument("https://a.b/c", ' '), Some("https://a.b/c".to_string()));
    assert_eq!(first_argument("", ' '), None);
    assert_eq!(first_argument("   ", ' '), None);
    assert_eq!(first_argument("  a  b", ' '), Some("a".to_string()));
    assert_eq!(split_arguments("rock,3", ','), vec!["rock".to_string(), "3".to_string()]);
    assert_eq!(split_arguments("rock, 3", ','), vec!["rock".to_string(), " 3".to_string()]);
    assert_eq!(
        split_arguments("\"a b\" c", ' '),
        vec!["\"a b\"".to_string(), "c".to_string()]
    );
}

#[test]
fn lengths_from_iso_durations() {
    assert_eq!(read_length("PT4M13S"), Some((4, 13)));
    assert_eq!(read_length("PT1H2M3S"), Some((62, 3)));
    assert_eq!(read_length("PT45S"), Some((0, 45)));
    assert_eq!(read_length("P1DT2H"), Some((120, 0)));
    assert_eq!(read_length("P1W"), Some((0, 0)));
    assert_eq!(read_length("not a duration"), None);
    assert_eq!(read_length("PT4294967295H"), None);
}

#[test]
fn lengths_written_with_two_digit_seconds() {
    assert_eq!(write_length(4, 5), "4:05");
    assert_eq!(write_length(12, 34), "12:34");
    assert_eq!(write_length(0, 0), "0:00");
    assert_eq!(write_length(3, 100), "3:100");
    assert_eq!(write_length(61, 9), format!("{}:{:0>2}", 61, 9));
}
