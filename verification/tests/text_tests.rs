use help_bot::text::{
    capitalize_first, channel_mention_text, concat3, i64_to_decimal, parse_u64, replace_all, u64_to_decimal,
    user_mention_text,
};
use help_bot::token::decode_token;

#[test]
fn decimal_renders_like_to_string() {
    assert_eq!(u64_to_decimal(0), "0");
    assert_eq!(u64_to_decimal(7), "7");
    assert_eq!(u64_to_decimal(10), "10");
    assert_eq!(u64_to_decimal(1234567890), "1234567890");
    assert_eq!(u64_to_decimal(u64::MAX), u64::MAX.to_string());
}

#[test]
fn signed_decimal_renders_like_to_string() {
    assert_eq!(i64_to_decimal(0), "0");
    assert_eq!(i64_to_decimal(-42), "-42");
    assert_eq!(i64_to_decimal(905318437158682624), "905318437158682624");
    assert_eq!(i64_to_decimal(i64::MIN), i64::MIN.to_string());
    assert_eq!(i64_to_decimal(i64::MAX), i64::MAX.to_string());
}

#[test]
fn parse_accepts_what_std_accepts() {
    for s in ["0", "123", "+5", "007", "18446744073709551615", "", "+", "-1", "12a", " 1", "18446744073709551616", "99999999999999999999"] {
        assert_eq!(parse_u64(s), s.parse::<u64>().ok(), "input {:?}", s);
    }
    assert_eq!(parse_u64("+5"), Some(5));
    assert_eq!(parse_u64("18446744073709551616"), None);
}

#[test]
fn parse_reads_back_every_rendering() {
    for n in [0u64, 1, 9, 10, 99, 100, 905318437158682624, u64::MAX] {
        assert_eq!(parse_u64(&u64_to_decimal(n)), Some(n));
    }
}

#[test]
fn capitalize_first_uppercases_first_character_only() {
    assert_eq!(capitalize_first("guidelines"), "Guidelines");
    assert_eq!(capitalize_first("help log answered"), "Help log answered");
    assert_eq!(capitalize_first(""), "");
    assert_eq!(capitalize_first("çok güzel"), "Çok güzel");
    assert_eq!(capitalize_first("ßx"), "SSx");
    assert_eq!(capitalize_first("1abc"), "1abc");
}

#[test]
fn replace_all_matches_str_replace() {
    let cases = [
        ("Yardımlaşma: Rust", "Yardımlaşma: ", ""),
        ("Rust", "Yardımlaşma: ", ""),
        ("aaa", "aa", "b"),
        ("abab", "ab", "xyz"),
        ("", "x", "y"),
        ("x", "x", ""),
    ];
    for (s, p, r) in cases {
        assert_eq!(replace_all(s, p, r), s.replace(p, r));
    }
    assert_eq!(replace_all("Yardımlaşma: Rust", "Yardımlaşma: ", ""), "Rust");
}

#[test]
fn mentions_and_concatenation() {
    assert_eq!(channel_mention_text(42), "<#42>");
    assert_eq!(user_mention_text(7), "<@7>");
    assert_eq!(concat3("a", "bc", "d"), "abcd");
}

#[test]
fn token_is_decoded_as_utf8() {
    assert_eq!(decode_token(b"abc.def".to_vec()), Some("abc.def".to_string()));
    assert_eq!(decode_token("şifre".as_bytes().to_vec()), Some("şifre".to_string()));
    assert_eq!(decode_token(vec![0xff, 0xfe]), None);
}
