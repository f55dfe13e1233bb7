use actix_web_starter::json::escape_json;
use actix_web_starter::json::render_i64;
use actix_web_starter::json::render_u64;

#[test]
fn plain_text_is_unchanged() {
    assert_eq!(escape_json("All systems operational"), "All systems operational");
    assert_eq!(escape_json(""), "");
}

#[test]
fn quotes_and_backslashes_are_escaped() {
    assert_eq!(escape_json("say \"hi\""), "say \\\"hi\\\"");
    assert_eq!(escape_json("a\\b"), "a\\\\b");
}

#[test]
fn named_control_characters_use_short_escapes() {
    assert_eq!(escape_json("a\nb"), "a\\nb");
    assert_eq!(escape_json("a\tb"), "a\\tb");
    assert_eq!(escape_json("a\rb"), "a\\rb");
    assert_eq!(escape_json("a\u{8}b"), "a\\bb");
    assert_eq!(escape_json("a\u{c}b"), "a\\fb");
}

#[test]
fn other_control_characters_use_hex_escapes() {
    assert_eq!(escape_json("\u{0}"), "\\u0000");
    assert_eq!(escape_json("\u{1}"), "\\u0001");
    assert_eq!(escape_json("\u{b}"), "\\u000b");
    assert_eq!(escape_json("\u{1f}"), "\\u001f");
}

#[test]
fn non_ascii_passes_through() {
    assert_eq!(escape_json("caf\u{e9} \u{1f600}"), "caf\u{e9} \u{1f600}");
    assert_eq!(escape_json("\u{7f}"), "\u{7f}");
}

#[test]
fn escaping_matches_reference_serializer() {
    let cases = [
        "plain",
        "mixed \"x\\y\"\n\t\r\u{8}\u{c}\u{0}\u{1f}\u{7f} caf\u{e9}",
        "\u{10ffff} ends",
    ];
    for s in cases {
        let quoted = serde_json::to_string(&serde_json::Value::String(s.to_string())).unwrap();
        let expected = &quoted[1..quoted.len() - 1];
        assert_eq!(escape_json(s), expected);
    }
}

#[test]
fn unsigned_rendering_is_decimal() {
    assert_eq!(render_u64(0), "0");
    assert_eq!(render_u64(7), "7");
    assert_eq!(render_u64(10), "10");
    assert_eq!(render_u64(123456), "123456");
    assert_eq!(render_u64(u64::MAX), "18446744073709551615");
}

#[test]
fn signed_rendering_handles_negatives() {
    assert_eq!(render_i64(0), "0");
    assert_eq!(render_i64(42), "42");
    assert_eq!(render_i64(-1), "-1");
    assert_eq!(render_i64(-105), "-105");
    assert_eq!(render_i64(i64::MAX), "9223372036854775807");
    assert_eq!(render_i64(i64::MIN), "-9223372036854775808");
}
