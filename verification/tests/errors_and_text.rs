use class_parser::text::{append_decimal, same_text};
use class_parser::DeserializationError;

#[test]
fn errors_have_their_texts() {
    assert_eq!(DeserializationError::CannotRead.to_string(), "Data stream error");
    assert_eq!(
        DeserializationError::Parsing("Its not JVM class file.".to_string()).to_string(),
        "Unable to parse data: `Its not JVM class file.`"
    );
    assert_eq!(
        DeserializationError::Parsing(String::new()).to_string(),
        "Unable to parse data: ``"
    );
    assert_eq!(DeserializationError::Link.to_string(), "Link element index error.");
    let not_utf8 = String::from_utf8(vec![0xff]).unwrap_err();
    assert_eq!(DeserializationError::Encoding(not_utf8).to_string(), "UTF-8 string parsing.");
}

#[test]
fn texts_are_compared_by_their_characters() {
    assert!(same_text("Code", "Code"));
    assert!(same_text("", ""));
    assert!(!same_text("Code", "code"));
    assert!(!same_text("Code", "Code "));
    assert!(!same_text("", "x"));
    assert!(same_text("\u{20ac}uro", "\u{20ac}uro"));
    assert!(!same_text("\u{20ac}", "\u{20ad}"));
}

#[test]
fn numbers_are_written_in_decimal() {
    for (n, expected) in [(0u8, "0"), (7, "7"), (9, "9"), (10, "10"), (42, "42"), (99, "99"),
        (100, "100"), (101, "101"), (110, "110"), (200, "200"), (255, "255")]
    {
        let mut text = String::from("n=");
        append_decimal(&mut text, n);
        assert_eq!(text, format!("n={}", expected));
    }
    for n in 0..=255u8 {
        let mut text = String::new();
        append_decimal(&mut text, n);
        assert_eq!(text, format!("{}", n));
    }
}
