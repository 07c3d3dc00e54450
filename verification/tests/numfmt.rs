use hello_hv::numfmt::{render_value, Radix};

#[test]
fn hex_matches_alternate_lower_hex() {
    for v in [0u64, 1, 0x42, 0xf0, 0x1234_5678, 0xdead_beef, 0xDEAD_BEEF_0000_001C, u64::MAX] {
        assert_eq!(render_value(v, Radix::Hex), format!("{:#x}", v));
    }
}

#[test]
fn decimal_matches_display() {
    for v in [0u64, 9, 10, 42, 50, 2181038087, u64::MAX] {
        assert_eq!(render_value(v, Radix::Decimal), v.to_string());
    }
}

#[test]
fn exact_texts() {
    assert_eq!(render_value(0, Radix::Hex), "0x0");
    assert_eq!(render_value(0xdead_beef, Radix::Hex), "0xdeadbeef");
    assert_eq!(render_value(16, Radix::Decimal), "16");
    assert_eq!(render_value(u64::MAX, Radix::Decimal), "18446744073709551615");
}

#[test]
fn rendered_values_read_back() {
    for v in [0u64, 7, 255, 0x8000, 0xDEAD_BEEF_0000_0005, u64::MAX] {
        let hex = render_value(v, Radix::Hex);
        assert_eq!(u64::from_str_radix(&hex[2..], 16).unwrap(), v);
        let dec = render_value(v, Radix::Decimal);
        assert_eq!(dec.parse::<u64>().unwrap(), v);
    }
}
