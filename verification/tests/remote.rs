use router_hello::remote::{PeerIp, RemoteAddr};

fn v6(octets: [u8; 16], text: &str) -> PeerIp {
    PeerIp::V6 { octets, text: text.to_string() }
}

fn mapped(a: u8, b: u8, c: u8, d: u8) -> [u8; 16] {
    [0, 0, 0, 0, 0, 0, 0, 0, 0, 0, 255, 255, a, b, c, d]
}

#[test]
fn v4_peer_is_written_in_dotted_decimal() {
    let addr = RemoteAddr::from(PeerIp::V4 { octets: [127, 0, 0, 1] });
    assert_eq!(addr, RemoteAddr::V4("127.0.0.1".to_string()));
}

#[test]
fn v4_octets_have_no_leading_zeros() {
    let addr = RemoteAddr::from(PeerIp::V4 { octets: [10, 100, 9, 99] });
    assert_eq!(addr, RemoteAddr::V4("10.100.9.99".to_string()));
}

#[test]
fn v4_smallest_and_largest_octets() {
    assert_eq!(
        RemoteAddr::from(PeerIp::V4 { octets: [0, 0, 0, 0] }),
        RemoteAddr::V4("0.0.0.0".to_string())
    );
    assert_eq!(
        RemoteAddr::from(PeerIp::V4 { octets: [255, 255, 255, 255] }),
        RemoteAddr::V4("255.255.255.255".to_string())
    );
    assert_eq!(
        RemoteAddr::from(PeerIp::V4 { octets: [200, 101, 110, 250] }),
        RemoteAddr::V4("200.101.110.250".to_string())
    );
}

#[test]
fn every_octet_value_is_written_as_std_writes_it() {
    let mut n: u16 = 0;
    while n < 256 {
        let o = n as u8;
        let addr = RemoteAddr::from(PeerIp::V4 { octets: [o, 1, o, 2] });
        assert_eq!(addr, RemoteAddr::V4(format!("{}.1.{}.2", o, o)));
        n += 1;
    }
}

#[test]
fn mapped_v6_classifies_as_the_v4_inside() {
    let from_v6 = RemoteAddr::from(v6(mapped(192, 0, 2, 5), "::ffff:192.0.2.5"));
    let from_v4 = RemoteAddr::from(PeerIp::V4 { octets: [192, 0, 2, 5] });
    assert_eq!(from_v6, from_v4);
    assert_eq!(from_v6, RemoteAddr::V4("192.0.2.5".to_string()));
}

#[test]
fn plain_v6_keeps_its_text() {
    let octets = [0x20, 0x01, 0x0d, 0xb8, 0, 0, 0, 0, 0, 0, 0, 0, 0, 0, 0, 1];
    let addr = RemoteAddr::from(v6(octets, "2001:db8::1"));
    assert_eq!(addr, RemoteAddr::V6("2001:db8::1".to_string()));
}

#[test]
fn v6_loopback_is_not_mapped() {
    let mut octets = [0u8; 16];
    octets[15] = 1;
    assert_eq!(RemoteAddr::from(v6(octets, "::1")), RemoteAddr::V6("::1".to_string()));
}

#[test]
fn v4_compatible_v6_is_not_mapped() {
    let octets = [0, 0, 0, 0, 0, 0, 0, 0, 0, 0, 0, 0, 192, 0, 2, 5];
    assert_eq!(
        RemoteAddr::from(v6(octets, "::c000:205")),
        RemoteAddr::V6("::c000:205".to_string())
    );
}

#[test]
fn nearly_mapped_v6_is_not_mapped() {
    let mut octets = mapped(192, 0, 2, 5);
    octets[10] = 254;
    assert_eq!(
        RemoteAddr::from(v6(octets, "::feff:c000:205")),
        RemoteAddr::V6("::feff:c000:205".to_string())
    );
    let mut octets = mapped(192, 0, 2, 5);
    octets[11] = 0;
    assert!(matches!(RemoteAddr::from(v6(octets, "x")), RemoteAddr::V6(_)));
    let mut octets = mapped(192, 0, 2, 5);
    octets[0] = 1;
    assert!(matches!(RemoteAddr::from(v6(octets, "x")), RemoteAddr::V6(_)));
    let mut octets = mapped(192, 0, 2, 5);
    octets[9] = 1;
    assert!(matches!(RemoteAddr::from(v6(octets, "x")), RemoteAddr::V6(_)));
}

#[test]
fn remote_addr_is_shown_with_its_family() {
    assert_eq!(RemoteAddr::V4("192.0.2.5".to_string()).to_string(), "IPv4(192.0.2.5)");
    assert_eq!(RemoteAddr::V6("2001:db8::1".to_string()).to_string(), "IPv6(2001:db8::1)");
    assert_eq!(RemoteAddr::V6(String::new()).to_string(), "IPv6()");
}
