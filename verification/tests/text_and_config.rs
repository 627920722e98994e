use yuehai_bookmark::app::config::{bind_address, parse_days, token_expire_days};
use yuehai_bookmark::common::text::{hex_encode, is_white_space_char, trim};
use yuehai_bookmark::modules::auth::dto::login::LoginRequest;

#[test]
fn trim_removes_unicode_white_space_at_both_ends() {
    assert_eq!(trim("  hello world \n\t"), "hello world");
    assert_eq!(trim("\u{3000}\u{a0}x\u{2028}"), "x");
    assert_eq!(trim(" \t\r\n "), "");
    assert_eq!(trim(""), "");
    assert_eq!(trim("a b"), "a b");
}

#[test]
fn trim_agrees_with_std_trim() {
    let samples = [
        "", " ", "abc", "  abc", "abc  ", "\u{85}a\u{85}", "\u{200b}a", "\u{1680}z\u{205f}",
        "\u{180e}k", " 中 文 ",
    ];
    for s in samples {
        assert_eq!(trim(s), s.trim(), "sample {:?}", s);
    }
}

#[test]
fn trim_twice_is_trim_once() {
    for s in ["  x  ", "\u{3000}y", "z\n", ""] {
        let once = trim(s);
        assert_eq!(trim(&once), once);
    }
}

fn normalized(email: &str) -> String {
    LoginRequest { email: email.to_string(), password: "p".to_string() }.validate().unwrap().email
}

#[test]
fn email_normalization_lowercases_unicode_letters() {
    assert_eq!(normalized("Foo@Example.COM"), "foo@example.com");
    assert_eq!(normalized("ÄÖÜ"), "äöü");
    assert_eq!(normalized(" ΣΑΣ "), "σας");
}

#[test]
fn hex_encode_uses_two_lowercase_digits_per_byte() {
    assert_eq!(hex_encode(&[0x00, 0x0f, 0xa5, 0xff]), "000fa5ff");
    assert_eq!(hex_encode(&[]), "");
    let bytes: Vec<u8> = (0..=255).collect();
    let expected: String = bytes.iter().map(|b| format!("{b:02x}")).collect();
    assert_eq!(hex_encode(&bytes), expected);
}

#[test]
fn parse_days_accepts_digits_only() {
    assert_eq!(parse_days("30"), Some(30));
    assert_eq!(parse_days("007"), Some(7));
    assert_eq!(parse_days("0"), Some(0));
    assert_eq!(parse_days("9223372036854775807"), Some(i64::MAX));
}

#[test]
fn parse_days_refuses_any_non_digit() {
    for s in ["", "-5", "+5", "-", "+", "1a", "30d", " 1", "1 ", "9223372036854775808", "1_000", "١٢", "1.5"] {
        assert_eq!(parse_days(s), None, "sample {:?}", s);
    }
}

#[test]
fn parse_days_agrees_with_u64_parse_on_plain_digits() {
    for s in ["0", "12", "99999999999999999999", "922337203685477580", "9223372036854775806"] {
        let expected = s.parse::<u64>().ok().and_then(|v| i64::try_from(v).ok());
        assert_eq!(parse_days(s), expected, "sample {:?}", s);
    }
}

#[test]
fn bind_address_uses_defaults() {
    assert_eq!(bind_address(None, None), "127.0.0.1:3000");
    assert_eq!(bind_address(Some("0.0.0.0".to_string()), None), "0.0.0.0:3000");
    assert_eq!(bind_address(None, Some("8080".to_string())), "127.0.0.1:8080");
    assert_eq!(bind_address(Some("::1".to_string()), Some("1".to_string())), "::1:1");
}

#[test]
fn token_expire_days_defaults_to_thirty() {
    assert_eq!(token_expire_days(None), Some(30));
    assert_eq!(token_expire_days(Some("7".to_string())), Some(7));
    assert_eq!(token_expire_days(Some("seven".to_string())), None);
    assert_eq!(token_expire_days(Some("-5".to_string())), None);
    assert_eq!(token_expire_days(Some("+5".to_string())), None);
}

#[test]
fn white_space_agrees_with_std_on_every_char() {
    for c in (0u32..=0x10ffff).filter_map(char::from_u32) {
        assert_eq!(is_white_space_char(c), c.is_whitespace(), "char {:?}", c);
    }
}
