use kontroll::codec::{parse_hex_color, Color};

#[test]
fn parses_uppercase_digits() {
    assert_eq!(
        parse_hex_color("FF00FF"),
        Some(Color { red: 255, green: 0, blue: 255 })
    );
}

#[test]
fn parses_lowercase_digits() {
    assert_eq!(
        parse_hex_color("00ff7f"),
        Some(Color { red: 0, green: 255, blue: 127 })
    );
}

#[test]
fn parses_mixed_case_digits() {
    assert_eq!(
        parse_hex_color("AbCdEf"),
        Some(Color { red: 0xab, green: 0xcd, blue: 0xef })
    );
}

#[test]
fn parses_black_and_white() {
    assert_eq!(
        parse_hex_color("000000"),
        Some(Color { red: 0, green: 0, blue: 0 })
    );
    assert_eq!(
        parse_hex_color("ffffff"),
        Some(Color { red: 255, green: 255, blue: 255 })
    );
}

#[test]
fn rejects_non_hex_characters() {
    assert_eq!(parse_hex_color("zz00ff"), None);
    assert_eq!(parse_hex_color("ff00f!"), None);
    assert_eq!(parse_hex_color("gg0000"), None);
}

#[test]
fn rejects_wrong_lengths() {
    assert_eq!(parse_hex_color(""), None);
    assert_eq!(parse_hex_color("fffff"), None);
    assert_eq!(parse_hex_color("fffffff"), None);
}

#[test]
fn rejects_leading_marker() {
    assert_eq!(parse_hex_color("#ff00ff"), None);
}

#[test]
fn rejects_non_ascii_input() {
    assert_eq!(parse_hex_color("ff00fé"), None);
}
