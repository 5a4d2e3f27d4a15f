use base64::Engine;
use altushka_bot::ids::uuid_to_string;
use altushka_bot::json::{json_string, json_td_type};
use altushka_bot::text::{
    chars_of, i64_to_decimal, parse_i32, parse_i64, parse_u16, str_contains, str_eq, string_from_chars,
    trim, u64_to_decimal,
};
use altushka_bot::file::{encode_base64, ImageRetry, RetryStep};
use altushka_bot::error::BotError;
use altushka_bot::vault_deprecated::strip_quotes;
use altushka_bot::cli::{is_chat_export, menu_choice, MenuChoice};

#[test]
fn decimal_texts() {
    assert_eq!(u64_to_decimal(0), "0");
    assert_eq!(u64_to_decimal(1234060895), "1234060895");
    assert_eq!(u64_to_decimal(u64::MAX), u64::MAX.to_string());
    assert_eq!(i64_to_decimal(-42), "-42");
    assert_eq!(i64_to_decimal(i64::MIN), i64::MIN.to_string());
    assert_eq!(i64_to_decimal(i64::MAX), i64::MAX.to_string());
}

#[test]
fn integer_parsing_as_std() {
    for s in ["42", "+7", "-0", "007", "-2147483648", "2147483647", "2147483648", "-2147483649", "", "-", "+", "1a", " 1", "--1", "99999999999999999999"] {
        assert_eq!(parse_i32(s), s.parse::<i32>().ok(), "i32 {s:?}");
        assert_eq!(parse_i64(s), s.parse::<i64>().ok(), "i64 {s:?}");
        assert_eq!(parse_u16(s), s.parse::<u16>().ok(), "u16 {s:?}");
    }
    assert_eq!(parse_u16("65535"), Some(65535));
    assert_eq!(parse_u16("65536"), None);
    assert_eq!(parse_u16("-1"), None);
    assert_eq!(parse_i64("-9223372036854775808"), Some(i64::MIN));
}

#[test]
fn trimming_as_std() {
    for s in ["  42\n", "\t x y \r\n", "", "   ", "\u{3000}a\u{3000}", "abc"] {
        assert_eq!(trim(s), s.trim());
    }
}

#[test]
fn char_helpers() {
    assert_eq!(chars_of("ab✨"), vec!['a', 'b', '✨']);
    assert_eq!(string_from_chars(&['x', '🍷']), "x🍷");
    assert!(str_eq("привет", "привет"));
    assert!(!str_eq("a", "ab"));
    assert!(str_contains("Есть взаимная симпатия! Начинай", "взаимная"));
    assert!(str_contains("abc", ""));
    assert!(!str_contains("ab", "abc"));
}

#[test]
fn json_string_escapes() {
    assert_eq!(json_string("plain"), "\"plain\"");
    assert_eq!(json_string("a\"b\\c\n\t\u{1}\u{8}\u{c}\r/"), "\"a\\\"b\\\\c\\n\\t\\u0001\\b\\f\\r/\"");
    assert_eq!(json_string("💌 / 📹"), "\"💌 / 📹\"");
}

#[test]
fn json_type_member() {
    assert_eq!(json_td_type("{\"@type\":\"chats\",\"chat_ids\":[]}"), Some(Some("chats".to_string())));
    assert_eq!(json_td_type("{\"chat_ids\":[]}"), Some(None));
    assert_eq!(json_td_type("{\"@type\":5}"), Some(None));
    assert_eq!(json_td_type("not json"), None);
}

#[test]
fn uuid_text_matches_uuid_crate() {
    for v in [0u128, 1, u128::MAX, 0x0123456789abcdef0123456789abcdefu128] {
        assert_eq!(uuid_to_string(v), uuid::Uuid::from_u128(v).to_string());
    }
    let fresh = altushka_bot::ids::new_uuid_v4();
    assert_eq!(uuid::Uuid::from_u128(fresh).get_version_num(), 4);
}

#[test]
fn base64_of_bytes() {
    assert_eq!(encode_base64(b""), "");
    assert_eq!(encode_base64(b"f"), "Zg==");
    assert_eq!(encode_base64(b"fo"), "Zm8=");
    assert_eq!(encode_base64(b"foo"), "Zm9v");
    assert_eq!(encode_base64(b"foobar"), "Zm9vYmFy");
    assert_eq!(encode_base64(&[0xfb, 0xff]), "+/8=");
}

#[test]
fn image_retries_give_up_at_third() {
    let mut retry = ImageRetry::new();
    assert!(matches!(retry.on_failure("profile_images/1.png"), RetryStep::Wait));
    assert!(matches!(retry.on_failure("profile_images/1.png"), RetryStep::Wait));
    match retry.on_failure("profile_images/1.png") {
        RetryStep::GiveUp(BotError::ImageTimedOut { path }) => assert_eq!(path, "profile_images/1.png"),
        other => panic!("unexpected {other:?}"),
    }
}

#[test]
fn quotes_removed() {
    assert_eq!(strip_quotes("\"bar\""), "bar");
    assert_eq!(strip_quotes("12\"3\""), "123");
    assert_eq!(strip_quotes(""), "");
}

#[test]
fn menu_choices() {
    assert_eq!(menu_choice("1\n"), MenuChoice::TransformChats);
    assert_eq!(menu_choice(" 2 "), MenuChoice::Prompt);
    assert_eq!(menu_choice("3"), MenuChoice::Invalid);
    assert_eq!(menu_choice(""), MenuChoice::Invalid);
    assert!(is_chat_export("./tg_private_chats/result.json"));
    assert!(!is_chat_export("notes.jsonl"));
    assert!(!is_chat_export("json"));
}

#[test]
fn base64_decodes_back() {
    let bytes: Vec<u8> = (0..=255u8).chain([0u8, 7, 250]).collect();
    for n in [0usize, 1, 2, 3, 4, 5, 100, bytes.len()] {
        let part = &bytes[..n];
        let text = encode_base64(part);
        assert_eq!(base64::prelude::BASE64_STANDARD.decode(&text).unwrap(), part);
    }
}

#[test]
fn white_space_as_std() {
    for c in (0u32..=0x10FFFF).filter_map(char::from_u32) {
        let s = c.to_string();
        assert_eq!(trim(&s).is_empty(), c.is_whitespace(), "{:x}", c as u32);
    }
}
