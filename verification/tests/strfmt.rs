use marty_core::strfmt::{format_bin, format_bool, format_dec, format_hex};

#[test]
fn decimal() {
    assert_eq!(format_dec(0), "0");
    assert_eq!(format_dec(7), "7");
    assert_eq!(format_dec(10), "10");
    assert_eq!(format_dec(1234567890), "1234567890");
    assert_eq!(format_dec(u64::MAX), u64::MAX.to_string());
}

#[test]
fn hexadecimal_padded() {
    assert_eq!(format_hex(0, 4), "0000");
    assert_eq!(format_hex(0xB8, 4), "00B8");
    assert_eq!(format_hex(0xBEEF, 4), "BEEF");
    assert_eq!(format_hex(0x12345, 4), "12345");
    assert_eq!(format_hex(0xabcdef, 0), format!("{:X}", 0xabcdefu64));
}

#[test]
fn binary_padded() {
    assert_eq!(format_bin(0, 2), "00");
    assert_eq!(format_bin(1, 2), "01");
    assert_eq!(format_bin(3, 2), "11");
    assert_eq!(format_bin(5, 2), "101");
}

#[test]
fn matches_std_formatting() {
    for n in [0u64, 1, 9, 15, 16, 255, 256, 4095, 65535, 1 << 40] {
        assert_eq!(format_dec(n), format!("{}", n));
        assert_eq!(format_hex(n, 4), format!("{:04X}", n));
        assert_eq!(format_bin(n, 2), format!("{:02b}", n));
    }
}

#[test]
fn booleans() {
    assert_eq!(format_bool(true), "true");
    assert_eq!(format_bool(false), "false");
}

#[test]
fn printed_digits_read_back() {
    for n in [0u64, 5, 10, 99, 1000, 65535, 123456789] {
        assert_eq!(format_dec(n).parse::<u64>().unwrap(), n);
        assert_eq!(u64::from_str_radix(&format_hex(n, 4), 16).unwrap(), n);
        assert_eq!(u64::from_str_radix(&format_bin(n, 2), 2).unwrap(), n);
    }
}
