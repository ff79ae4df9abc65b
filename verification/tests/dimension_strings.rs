use mdpu::dims::parse_dimensions;

#[test]
fn single_number_is_itself() {
    assert_eq!(parse_dimensions("16"), Some(16));
    assert_eq!(parse_dimensions("1"), Some(1));
    assert_eq!(parse_dimensions("0"), Some(0));
}

#[test]
fn product_of_parts() {
    assert_eq!(parse_dimensions("4x4"), Some(16));
    assert_eq!(parse_dimensions("2x3x4"), Some(24));
    assert_eq!(parse_dimensions("10x10"), Some(100));
    assert_eq!(parse_dimensions("0x5"), Some(0));
}

#[test]
fn malformed_strings_rejected() {
    assert_eq!(parse_dimensions(""), None);
    assert_eq!(parse_dimensions("4x"), None);
    assert_eq!(parse_dimensions("x4"), None);
    assert_eq!(parse_dimensions("4xx4"), None);
    assert_eq!(parse_dimensions("4y4"), None);
    assert_eq!(parse_dimensions("-4"), None);
    assert_eq!(parse_dimensions("4.5"), None);
}

#[test]
fn overflowing_values_rejected() {
    assert_eq!(parse_dimensions("99999999999999999999999999"), None);
    assert_eq!(parse_dimensions("4294967296x4294967296x4294967296"), None);
}
