use inference_router::clock::{now_secs, seconds_or_zero};
use inference_router::text::{
    bytes_of, chars_of, decimal, parse_u64, path_only, same, starts_with, string_of, trim,
    trim_end_slashes,
};

#[test]
fn decimal_matches_display() {
    for n in [0u64, 1, 9, 10, 11, 99, 100, 504, 65535, 4294967295, u64::MAX] {
        assert_eq!(decimal(n), n.to_string());
    }
}

#[test]
fn parse_u64_matches_std() {
    for s in [
        "", "+", "-", "0", "00", "+0", "-0", "7", "+7", "++7", "30", " 30", "30 ", "3x", "x3",
        "18446744073709551615", "18446744073709551616", "99999999999999999999",
        "000000000000000000000000000042", "١", "1_000",
    ] {
        assert_eq!(parse_u64(s), s.parse::<u64>().ok(), "{s:?}");
    }
}

#[test]
fn trim_knows_every_white_space_character() {
    for c in '\0'..=char::MAX {
        assert_eq!(trim(&c.to_string()).is_empty(), c.is_whitespace(), "{c:?}");
    }
}

#[test]
fn trim_cuts_both_ends_only() {
    assert_eq!(trim("  a b \n"), "a b");
    assert_eq!(trim("\ttoken\r\n"), "token");
    assert_eq!(trim("token"), "token");
    assert_eq!(trim(" \n "), "");
    assert_eq!(trim(""), "");
}

#[test]
fn trailing_slashes_are_cut() {
    assert_eq!(trim_end_slashes("https://mq/v1///"), "https://mq/v1");
    assert_eq!(trim_end_slashes("https://mq/v1"), "https://mq/v1");
    assert_eq!(trim_end_slashes("///"), "");
    assert_eq!(trim_end_slashes(""), "");
}

#[test]
fn query_is_cut_at_the_first_question_mark() {
    assert_eq!(path_only("/v1/inference?a=1?b=2"), "/v1/inference");
    assert_eq!(path_only("/healthz"), "/healthz");
    assert_eq!(path_only("?x"), "");
    assert_eq!(path_only(""), "");
}

#[test]
fn prefixes_and_equality() {
    assert!(starts_with("presence:a:w", "presence:a:"));
    assert!(starts_with("x", ""));
    assert!(!starts_with("presence", "presence:"));
    assert!(!starts_with("presencE", "presence"));
    assert!(same("é", "é"));
    assert!(!same("a", "ab"));
    assert!(!same("ab", "a"));
    assert!(same("", ""));
}

#[test]
fn characters_and_bytes() {
    assert_eq!(chars_of("aé☃"), vec!['a', 'é', '☃']);
    assert_eq!(string_of(&['a', 'é', '☃'], 1, 3), "é☃");
    assert_eq!(bytes_of("é"), vec![0xc3, 0xa9]);
}

#[test]
fn clock_reads_seconds() {
    let std_now = std::time::SystemTime::now()
        .duration_since(std::time::UNIX_EPOCH)
        .unwrap()
        .as_secs();
    let now = now_secs();
    assert!(now >= std_now && now - std_now <= 2);
    assert_eq!(seconds_or_zero(Some(17)), 17);
    assert_eq!(seconds_or_zero(None), 0);
}
