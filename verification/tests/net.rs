use unifly_api::net::{parse_ip, parse_ipv4, parse_ipv6, IpAddress, Ipv4};

fn groups(s: &str) -> Option<[u16; 8]> {
    parse_ipv6(s).map(|ip| ip.groups)
}

#[test]
fn ipv6_full_and_compressed_forms() {
    assert_eq!(groups("2001:db8:0:0:0:0:2:1"), Some([0x2001, 0xdb8, 0, 0, 0, 0, 2, 1]));
    assert_eq!(groups("2001:db8::2:1"), Some([0x2001, 0xdb8, 0, 0, 0, 0, 2, 1]));
    assert_eq!(groups("::"), Some([0; 8]));
    assert_eq!(groups("::1"), Some([0, 0, 0, 0, 0, 0, 0, 1]));
    assert_eq!(groups("fe80::"), Some([0xfe80, 0, 0, 0, 0, 0, 0, 0]));
    assert_eq!(groups("1:2:3:4:5:6:7::"), Some([1, 2, 3, 4, 5, 6, 7, 0]));
    assert_eq!(groups("ABCD::EF"), Some([0xabcd, 0, 0, 0, 0, 0, 0, 0xef]));
}

#[test]
fn ipv6_embedded_ipv4() {
    assert_eq!(groups("::ffff:192.168.1.1"), Some([0, 0, 0, 0, 0, 0xffff, 0xc0a8, 0x0101]));
    assert_eq!(groups("1:2:3:4:5:6:1.2.3.4"), Some([1, 2, 3, 4, 5, 6, 0x0102, 0x0304]));
    assert_eq!(groups("1.2.3.4::"), None);
    assert_eq!(groups("::1.2.3.4:5"), None);
}

#[test]
fn ipv6_rejects_malformed_text() {
    for bad in ["", ":", ":::", "1::2::3", "12345::", "1:2:3:4:5:6:7:8:9", "1:2:3:4:5:6:7", "1:2:3:4:5:6:7:8::", "g::1", "[::1]", " ::1"] {
        assert_eq!(groups(bad), None, "{bad}");
    }
}

#[test]
fn ipv6_more_samples() {
    assert_eq!(groups("fe80::1:2"), Some([0xfe80, 0, 0, 0, 0, 0, 1, 2]));
    assert_eq!(groups("1::"), Some([1, 0, 0, 0, 0, 0, 0, 0]));
    assert_eq!(groups("a:b:c:d:e:f:1.2.3.4"), Some([0xa, 0xb, 0xc, 0xd, 0xe, 0xf, 0x0102, 0x0304]));
    for text in ["::1::", "1.2.3.4", "01.2.3.4::", "::256.1.1.1", "::01.2.3.4", "1:2:3:4:5:6:7:1.2.3.4"] {
        assert!(groups(text).is_none(), "{text}");
    }
}

#[test]
fn ip_prefers_ipv4_reading() {
    assert_eq!(parse_ip("10.0.0.1"), Some(IpAddress::V4(Ipv4 { a: 10, b: 0, c: 0, d: 1 })));
    assert!(matches!(parse_ip("::1"), Some(IpAddress::V6(_))));
    assert_eq!(parse_ip("10.0.0"), None);
    assert_eq!(parse_ipv4("010.0.0.1"), None);
}
