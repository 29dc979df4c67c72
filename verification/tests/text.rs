use logappender::text::{bool_to_text, decimal_text};

#[test]
fn decimal_text_renders_numbers() {
    assert_eq!(decimal_text(0), "0");
    assert_eq!(decimal_text(7), "7");
    assert_eq!(decimal_text(10), "10");
    assert_eq!(decimal_text(3000), "3000");
    assert_eq!(decimal_text(u64::MAX), u64::MAX.to_string());
}

#[test]
fn bool_to_text_renders_flags() {
    assert_eq!(bool_to_text(true), "true");
    assert_eq!(bool_to_text(false), "false");
}
