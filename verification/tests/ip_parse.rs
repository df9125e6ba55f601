//! The IP address text parser: accepted and rejected forms in both address
//! families.

use certify::IpAddress;

#[test]
fn parses_dotted_decimal_v4() {
    assert_eq!(
        IpAddress::parse("127.0.0.1"),
        Some(IpAddress::V4(127, 0, 0, 1))
    );
    assert_eq!(IpAddress::parse("0.0.0.0"), Some(IpAddress::V4(0, 0, 0, 0)));
    assert_eq!(
        IpAddress::parse("255.255.255.255"),
        Some(IpAddress::V4(255, 255, 255, 255))
    );
    assert_eq!(
        IpAddress::parse("192.168.10.250"),
        Some(IpAddress::V4(192, 168, 10, 250))
    );
}

#[test]
fn rejects_malformed_v4() {
    assert_eq!(IpAddress::parse_v4(""), None);
    assert_eq!(IpAddress::parse_v4("1.2.3"), None);
    assert_eq!(IpAddress::parse_v4("1.2.3.4.5"), None);
    assert_eq!(IpAddress::parse_v4("256.0.0.1"), None);
    assert_eq!(IpAddress::parse_v4("01.2.3.4"), None);
    assert_eq!(IpAddress::parse_v4("1..2.3"), None);
    assert_eq!(IpAddress::parse_v4("1.2.3.4 "), None);
    assert_eq!(IpAddress::parse_v4("a.b.c.d"), None);
    assert_eq!(IpAddress::parse_v4("1234.0.0.1"), None);
}

#[test]
fn parses_v6_forms() {
    assert_eq!(
        IpAddress::parse("::1"),
        Some(IpAddress::V6(0, 0, 0, 0, 0, 0, 0, 1))
    );
    assert_eq!(
        IpAddress::parse("::"),
        Some(IpAddress::V6(0, 0, 0, 0, 0, 0, 0, 0))
    );
    assert_eq!(
        IpAddress::parse("1:2:3:4:5:6:7:8"),
        Some(IpAddress::V6(1, 2, 3, 4, 5, 6, 7, 8))
    );
    assert_eq!(
        IpAddress::parse("fe80::1"),
        Some(IpAddress::V6(0xfe80, 0, 0, 0, 0, 0, 0, 1))
    );
    assert_eq!(
        IpAddress::parse("2001:db8::8:800:200C:417A"),
        Some(IpAddress::V6(0x2001, 0x0db8, 0, 0, 0x8, 0x800, 0x200c, 0x417a))
    );
    assert_eq!(
        IpAddress::parse("1::"),
        Some(IpAddress::V6(1, 0, 0, 0, 0, 0, 0, 0))
    );
    assert_eq!(
        IpAddress::parse("FFFF::"),
        Some(IpAddress::V6(0xffff, 0, 0, 0, 0, 0, 0, 0))
    );
}

#[test]
fn parses_v6_with_embedded_v4() {
    assert_eq!(
        IpAddress::parse("::ffff:192.168.1.1"),
        Some(IpAddress::V6(0, 0, 0, 0, 0, 0xffff, 0xc0a8, 0x0101))
    );
    assert_eq!(
        IpAddress::parse("1:2:3:4:5:6:1.2.3.4"),
        Some(IpAddress::V6(1, 2, 3, 4, 5, 6, 0x0102, 0x0304))
    );
}

#[test]
fn rejects_malformed_v6() {
    assert_eq!(IpAddress::parse_v6("1:2:3:4:5:6:7:8:9"), None);
    assert_eq!(IpAddress::parse_v6("1:2:3:4:5:6:7"), None);
    assert_eq!(IpAddress::parse_v6(":::"), None);
    assert_eq!(IpAddress::parse_v6("1::2::3"), None);
    assert_eq!(IpAddress::parse_v6("12345::"), None);
    assert_eq!(IpAddress::parse_v6("g::1"), None);
    assert_eq!(IpAddress::parse_v6("1:2:3:4:5:6:7::8"), None);
    assert_eq!(IpAddress::parse_v6("::1.2.3.4.5"), None);
    assert_eq!(IpAddress::parse_v6(":1:2:3:4:5:6:7"), None);
    assert_eq!(IpAddress::parse_v6("1:2:"), None);
    assert_eq!(IpAddress::parse_v6("1.2.3.4"), None);
    assert_eq!(IpAddress::parse_v6(""), None);
}

#[test]
fn v4_strings_parse_as_v4_not_v6() {
    assert_eq!(
        IpAddress::parse("10.0.0.1"),
        Some(IpAddress::V4(10, 0, 0, 1))
    );
    assert_eq!(IpAddress::parse("not an address"), None);
}
