use rigos::digest::sha256_hex_of;
use rigos::json::json_quote;
use rigos::protocol::{wrap_result, McpRequest};
use rigos::text::{decimal, eq_ignore_ascii_case, lower_hex, parse_u64, split_whitespace, starts_with};

#[test]
fn hex_renders_two_lowercase_digits_per_byte() {
    assert_eq!(lower_hex(&[0x00, 0x0f, 0xa0, 0xff]), "000fa0ff");
    assert_eq!(lower_hex(&[]), "");
}

#[test]
fn decimal_renders_without_leading_zeros() {
    assert_eq!(decimal(0), "0");
    assert_eq!(decimal(500), "500");
    assert_eq!(decimal(u64::MAX), "18446744073709551615");
}

#[test]
fn parse_u64_follows_std() {
    for text in ["0", "1500", "+7", "007", "18446744073709551615", "", "+", "-1", " 1", "1 ", "18446744073709551616", "1e3", "١٢"] {
        assert_eq!(parse_u64(text), text.parse::<u64>().ok(), "input {:?}", text);
    }
}

#[test]
fn ascii_case_folding_and_prefixes() {
    assert!(eq_ignore_ascii_case("TrUe", "true"));
    assert!(!eq_ignore_ascii_case("truee", "true"));
    assert!(!eq_ignore_ascii_case("trúe", "true"));
    assert!(starts_with("postgres://db", "postgres"));
    assert!(!starts_with("sqlite://rigos.db", "postgres"));
    assert!(!starts_with("post", "postgres"));
}

#[test]
fn whitespace_split_matches_std() {
    for text in ["", "  ", "a", " a  b\tc\n", "x\u{3000}y\u{a0}z", "héllo wörld "] {
        let ours = split_whitespace(text);
        let std: Vec<String> = text.split_whitespace().map(String::from).collect();
        assert_eq!(ours, std, "input {:?}", text);
    }
}

#[test]
fn json_quote_matches_serde_json() {
    for text in ["", "plain", "quote\" back\\slash", "\u{8}\t\n\u{c}\r", "\u{1}\u{1f}\u{7f}", "ünï©ødé /"] {
        assert_eq!(json_quote(text), serde_json::to_string(text).unwrap(), "input {:?}", text);
    }
}

#[test]
fn request_json_and_result_wrapper() {
    let req = McpRequest { tool_name: "a\"b".to_string(), payload: r#"{"k":1}"#.to_string() };
    assert_eq!(req.to_json(), r#"{"payload":{"k":1},"tool_name":"a\"b"}"#);
    assert_eq!(wrap_result("Tool executed safely"), r#"{"result":"Tool executed safely"}"#);
}

#[test]
fn sha256_hex_of_known_input() {
    assert_eq!(
        sha256_hex_of(b"abc"),
        "ba7816bf8f01cfea414140de5dae2223b00361a396177a9cb410ff61f20015ad"
    );
}
