use igmp_view::text::{checksum_string, dec_string, ipv4_string};

#[test]
fn checksum_zero_is_fully_padded() {
    assert_eq!(checksum_string(0), "0x0000");
}

#[test]
fn checksum_max_is_lowercase() {
    assert_eq!(checksum_string(0xffff), "0xffff");
}

#[test]
fn checksum_mid_value() {
    assert_eq!(checksum_string(0x1234), "0x1234");
}

#[test]
fn checksum_pads_short_values() {
    assert_eq!(checksum_string(0x0abc), "0x0abc");
    assert_eq!(checksum_string(0x7), "0x0007");
}

#[test]
fn checksum_same_value_same_text() {
    for n in [0u16, 1, 0x00ff, 0x1234, 0xfffe, 0xffff] {
        assert_eq!(checksum_string(n), checksum_string(n));
        assert_eq!(checksum_string(n).len(), 6);
        assert!(checksum_string(n).starts_with("0x"));
    }
}

#[test]
fn decimal_zero() {
    assert_eq!(dec_string(0), "0");
}

#[test]
fn decimal_twenty() {
    assert_eq!(dec_string(20), "20");
}

#[test]
fn decimal_max() {
    assert_eq!(dec_string(65535), "65535");
}

#[test]
fn ipv4_multicast_group() {
    assert_eq!(ipv4_string(0xe0000001), "224.0.0.1");
}

#[test]
fn ipv4_zero() {
    assert_eq!(ipv4_string(0), "0.0.0.0");
}

#[test]
fn ipv4_broadcast() {
    assert_eq!(ipv4_string(0xffffffff), "255.255.255.255");
}
