use eth_data_extractor::gas::Percentage;
use eth_data_extractor::hex::HexError;
use eth_data_extractor::utils::{
    abbreviate, calculate_gas_utilization, format_address, format_hash, format_number,
    hex_to_decimal,
};

fn as_percent(p: Percentage) -> f64 {
    ((p.numerator / 100) as f64 / p.denominator as f64) * 100.0
}

#[test]
fn test_format_hash() {
    let hash = "0x1234567890abcdef1234567890abcdef12345678";
    assert_eq!(format_hash(hash), "0x12345678...5678");
}

#[test]
fn test_format_address() {
    let addr = "0x742d35Cc622C1E0532F7fd0e7c0e6f7D8F2B2B6f";
    assert_eq!(format_address(addr), "0x742d...2B6f");
}

#[test]
fn test_hex_to_decimal() {
    assert_eq!(hex_to_decimal("0x10"), Ok(16));
    assert_eq!(hex_to_decimal("FF"), Ok(255));
}

#[test]
fn test_format_number() {
    assert_eq!(format_number(1234567), "1,234,567");
    assert_eq!(format_number(123), "123");
}

#[test]
fn test_calculate_gas_utilization() {
    assert_eq!(as_percent(calculate_gas_utilization(15_000_000, 30_000_000)), 50.0);
    assert_eq!(as_percent(calculate_gas_utilization(0, 30_000_000)), 0.0);
    assert_eq!(as_percent(calculate_gas_utilization(100, 0)), 0.0);
}

#[test]
fn hex_to_decimal_rejects_what_is_no_number() {
    assert_eq!(hex_to_decimal(""), Err(HexError::Empty));
    assert_eq!(hex_to_decimal("0x"), Err(HexError::Empty));
    assert_eq!(hex_to_decimal("0xzz"), Err(HexError::InvalidDigit));
    assert_eq!(hex_to_decimal("+"), Err(HexError::InvalidDigit));
    assert_eq!(hex_to_decimal("0x0x10"), Err(HexError::InvalidDigit));
    assert_eq!(hex_to_decimal("0x10000000000000000"), Err(HexError::Overflow));
    assert_eq!(hex_to_decimal("0xffffffffffffffff"), Ok(u64::MAX));
    assert_eq!(hex_to_decimal("+ff"), Ok(255));
    assert_eq!(hex_to_decimal("0x00000000000000000001"), Ok(1));
}

#[test]
fn short_texts_are_left_alone() {
    assert_eq!(format_hash("0x1234"), "0x1234");
    assert_eq!(format_address("0x1234"), "0x1234");
    assert_eq!(format_hash("0123456789abcd"), "0123456789...abcd");
    assert_eq!(format_address("0123456789"), "012345...6789");
}

#[test]
fn numbers_are_grouped_in_threes() {
    assert_eq!(format_number(0), "0");
    assert_eq!(format_number(1000), "1,000");
    assert_eq!(format_number(999_999), "999,999");
    assert_eq!(format_number(u64::MAX), "18,446,744,073,709,551,615");
}

#[test]
fn a_text_is_cut_between_characters_only() {
    assert_eq!(abbreviate("0123456789abcdef", 10, 4), Some("0123456789...cdef".to_string()));
    assert_eq!(abbreviate("short", 10, 4), Some("short".to_string()));
    assert_eq!(abbreviate("\u{e9}\u{e9}\u{e9}\u{e9}\u{e9}\u{e9}\u{e9}", 10, 4),
        Some("\u{e9}\u{e9}\u{e9}\u{e9}\u{e9}...\u{e9}\u{e9}".to_string()));
    assert_eq!(abbreviate("012345678\u{e9}abcdef", 10, 4), None);
    assert_eq!(abbreviate("0123456789abcdef\u{e9}gh", 10, 3), None);
    assert_eq!(abbreviate("\u{e9}\u{e9}\u{e9}", 10, 4), Some("\u{e9}\u{e9}\u{e9}".to_string()));
}
