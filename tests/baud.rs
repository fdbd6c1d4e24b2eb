use multimeter::{parse_baud, valid_baud};

#[test]
fn decimal_rates_are_valid() {
    assert_eq!(valid_baud("4800"), Ok(()));
    assert_eq!(parse_baud("9600"), Ok(9600));
    assert_eq!(parse_baud("+115200"), Ok(115200));
    assert_eq!(parse_baud("4294967295"), Ok(u32::MAX));
}

#[test]
fn other_text_is_rejected_with_message() {
    assert_eq!(valid_baud("fast"), Err("Invalid baud rate 'fast' specified".to_string()));
    assert_eq!(parse_baud(""), Err("Invalid baud rate '' specified".to_string()));
    assert_eq!(parse_baud("-1"), Err("Invalid baud rate '-1' specified".to_string()));
    assert_eq!(parse_baud(" 9600"), Err("Invalid baud rate ' 9600' specified".to_string()));
    assert_eq!(parse_baud("+"), Err("Invalid baud rate '+' specified".to_string()));
    assert_eq!(
        parse_baud("4294967296"),
        Err("Invalid baud rate '4294967296' specified".to_string())
    );
}
