use stickyvar::codec::{decode_value, encode_value};
use stickyvar::output::{assignment_line, escape_value, list_line};

#[test]
fn round_trip_of_assorted_values() {
    let values = [
        "",
        "plain",
        "hello world",
        "a=b=c",
        "line1\nline2\r\n",
        "100% sure",
        "%zz and %4",
        "grüße, 東京, 🎉",
        "quotes \" and 'single' and \\ backslash",
    ];
    for v in values {
        let encoded = encode_value(v);
        assert!(!encoded.contains('='));
        assert!(!encoded.contains('\n'));
        assert!(!encoded.contains(' '));
        assert_eq!(decode_value(&encoded), Some(v.to_string()));
    }
}

#[test]
fn encodes_space_as_percent_twenty() {
    assert_eq!(encode_value("hello world"), "hello%20world");
    assert_eq!(encode_value("a=b"), "a%3Db");
    assert_eq!(encode_value("Az09-_.~"), "Az09-_.~");
}

#[test]
fn decodes_value() {
    assert_eq!(decode_value("hello%20world"), Some("hello world".to_string()));
    assert_eq!(decode_value("no-escapes"), Some("no-escapes".to_string()));
}

#[test]
fn decode_rejects_invalid_utf8() {
    assert_eq!(decode_value("%FF%FE"), None);
}

#[test]
fn get_all_line_joins_name_and_encoded_value() {
    assert_eq!(assignment_line("GREETING", "hello%20world"), "GREETING=hello%20world");
    assert_eq!(assignment_line("E", ""), "E=");
}

#[test]
fn escapes_special_characters() {
    assert_eq!(escape_value("line1\nline2"), "line1\\nline2");
    assert_eq!(escape_value("a\\b\"c\rd"), "a\\\\b\\\"c\\rd");
    assert_eq!(escape_value(""), "");
    assert_eq!(escape_value("ünïcode"), "ünïcode");
}

#[test]
fn list_line_quotes_escaped_value() {
    assert_eq!(list_line("MSG", "line1\nline2"), "MSG=\"line1\\nline2\"");
    assert_eq!(list_line("EMPTY", ""), "EMPTY=\"\"");
}

#[test]
fn decode_handles_case_and_malformed_escapes() {
    assert_eq!(decode_value("%4a%4A"), Some("JJ".to_string()));
    assert_eq!(decode_value("100%"), Some("100%".to_string()));
    assert_eq!(decode_value("%zz%4"), Some("%zz%4".to_string()));
    assert_eq!(decode_value("%e2%82%ac"), Some("€".to_string()));
}

#[test]
fn encodes_multibyte_characters_by_utf8_bytes() {
    assert_eq!(encode_value("€"), "%E2%82%AC");
    assert_eq!(encode_value("a\nb"), "a%0Ab");
    assert_eq!(encode_value(""), "");
}
