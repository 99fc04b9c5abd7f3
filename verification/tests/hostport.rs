use socks5rs::codec::Destination;
use socks5rs::hostport::host_port_bytes;

#[test]
fn ipv4_text() {
    let d = Destination::Ipv4 { addr: vec![127, 0, 0, 1], port: 80 };
    assert_eq!(host_port_bytes(&d), b"127.0.0.1:80".to_vec());
}

#[test]
fn ipv4_text_extremes() {
    let d = Destination::Ipv4 { addr: vec![255, 255, 255, 255], port: 65535 };
    assert_eq!(host_port_bytes(&d), b"255.255.255.255:65535".to_vec());
    let z = Destination::Ipv4 { addr: vec![0, 0, 0, 0], port: 0 };
    assert_eq!(host_port_bytes(&z), b"0.0.0.0:0".to_vec());
}

#[test]
fn ipv6_text() {
    let mut addr = vec![0u8; 16];
    addr[15] = 1;
    let d = Destination::Ipv6 { addr, port: 443 };
    assert_eq!(
        host_port_bytes(&d),
        b"[0000:0000:0000:0000:0000:0000:0000:0001]:443".to_vec()
    );
}

#[test]
fn ipv6_text_mixed_digits() {
    let addr = vec![
        0x20, 0x01, 0x0d, 0xb8, 0x00, 0x00, 0x00, 0x00, 0x00, 0x00, 0xff, 0x00, 0x00, 0x42,
        0x83, 0x29,
    ];
    let d = Destination::Ipv6 { addr, port: 8080 };
    assert_eq!(
        host_port_bytes(&d),
        b"[2001:0db8:0000:0000:0000:ff00:0042:8329]:8080".to_vec()
    );
}

#[test]
fn domain_text_with_port_digits() {
    let d = Destination::Domain { name: b"localhost".to_vec(), port: 1 };
    assert_eq!(host_port_bytes(&d), b"localhost:1".to_vec());
    let e = Destination::Domain { name: b"a".to_vec(), port: 100 };
    assert_eq!(host_port_bytes(&e), b"a:100".to_vec());
    let f = Destination::Domain { name: b"x.y".to_vec(), port: 1000 };
    assert_eq!(host_port_bytes(&f), b"x.y:1000".to_vec());
}
