use job_hub::codec::{
    id_string, parse_u32_dec, push_dec_i32, push_dec_u32, push_form_encoded,
    push_json_escaped_bytes, push_json_string, push_str_bytes, str_eq,
};

fn dec_u32(n: u32) -> String {
    let mut out: Vec<u8> = Vec::new();
    push_dec_u32(&mut out, n);
    String::from_utf8(out).unwrap()
}

fn dec_i32(n: i32) -> String {
    let mut out: Vec<u8> = Vec::new();
    push_dec_i32(&mut out, n);
    String::from_utf8(out).unwrap()
}

#[test]
fn decimal_of_zero_and_max() {
    assert_eq!(dec_u32(0), "0");
    assert_eq!(dec_u32(7), "7");
    assert_eq!(dec_u32(10), "10");
    assert_eq!(dec_u32(4294967295), "4294967295");
}

#[test]
fn decimal_of_signed_values() {
    assert_eq!(dec_i32(0), "0");
    assert_eq!(dec_i32(-1), "-1");
    assert_eq!(dec_i32(i32::MIN), "-2147483648");
    assert_eq!(dec_i32(i32::MAX), "2147483647");
}

#[test]
fn parse_accepts_canonical_decimals_only() {
    assert_eq!(parse_u32_dec(b"0"), Some(0));
    assert_eq!(parse_u32_dec(b"42"), Some(42));
    assert_eq!(parse_u32_dec(b"4294967295"), Some(4294967295));
    assert_eq!(parse_u32_dec(b""), None);
    assert_eq!(parse_u32_dec(b"007"), None);
    assert_eq!(parse_u32_dec(b"+1"), None);
    assert_eq!(parse_u32_dec(b"-1"), None);
    assert_eq!(parse_u32_dec(b"1a"), None);
    assert_eq!(parse_u32_dec(b"4294967296"), None);
    assert_eq!(parse_u32_dec(b"99999999999999999999"), None);
}

#[test]
fn render_then_parse_round_trips() {
    for n in [0u32, 1, 9, 10, 99, 100, 12345, u32::MAX] {
        let rendered = dec_u32(n);
        assert_eq!(parse_u32_dec(rendered.as_bytes()), Some(n));
    }
}

#[test]
fn id_string_matches_decimal() {
    assert_eq!(id_string(0), "0");
    assert_eq!(id_string(123), "123");
}

#[test]
fn json_escaping_matches_the_wire_format() {
    let mut out: Vec<u8> = Vec::new();
    push_json_escaped_bytes(&mut out, "a\"b\\c\nd\te\ru{\x01}".as_bytes());
    assert_eq!(
        String::from_utf8(out).unwrap(),
        "a\\\"b\\\\c\\nd\\te\\ru{\\u0001}"
    );
}

#[test]
fn json_string_keeps_utf8_and_quotes() {
    let mut out: Vec<u8> = Vec::new();
    push_json_string(&mut out, "héllo\u{8}\u{c}");
    assert_eq!(String::from_utf8(out).unwrap(), "\"héllo\\b\\f\"");
}

#[test]
fn form_encoding_escapes_like_a_query_pair() {
    let mut out: Vec<u8> = Vec::new();
    push_form_encoded(&mut out, b"AZaz09*-._ ~/%&=");
    assert_eq!(
        String::from_utf8(out).unwrap(),
        "AZaz09*-._+%7E%2F%25%26%3D"
    );
}

#[test]
fn string_helpers_behave() {
    assert!(str_eq("abc", "abc"));
    assert!(!str_eq("abc", "abd"));
    let mut out: Vec<u8> = Vec::new();
    push_str_bytes(&mut out, "xy");
    assert_eq!(out, b"xy".to_vec());
}
