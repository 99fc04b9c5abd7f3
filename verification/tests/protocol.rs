use socks5rs::codec::Destination;
use socks5rs::codec::RequestError;
use socks5rs::handshake::parse_greeting;
use socks5rs::handshake::HandshakeError;
use socks5rs::hostport::host_port_bytes;
use socks5rs::reply::encode_reply;
use socks5rs::request::addr_fixed_len;
use socks5rs::request::domain_tail_len;
use socks5rs::request::parse_request;
use socks5rs::request::parse_request_header;

#[test]
fn scenario_greeting_accepted() {
    let reply = parse_greeting(&vec![5, 1, 0]).unwrap();
    assert_eq!(reply, vec![5, 0]);
}

#[test]
fn greeting_rejects_wrong_version() {
    assert_eq!(
        parse_greeting(&vec![4, 1, 0]),
        Err(HandshakeError::UnsupportedVersion)
    );
}

#[test]
fn greeting_rejects_wrong_shape() {
    assert_eq!(parse_greeting(&vec![5]), Err(HandshakeError::ShortRead));
    assert_eq!(parse_greeting(&vec![]), Err(HandshakeError::ShortRead));
    assert_eq!(parse_greeting(&vec![5, 2, 0]), Err(HandshakeError::ShortRead));
}

#[test]
fn greeting_ignores_offered_methods() {
    // No compatible method offered; the no-authentication method is
    // selected regardless.
    let reply = parse_greeting(&vec![5, 2, 1, 2]).unwrap();
    assert_eq!(reply, vec![5, 0]);
}

#[test]
fn scenario_connect_request_decodes() {
    let bytes = vec![0x05, 0x01, 0x00, 0x01, 0x7f, 0x00, 0x00, 0x01, 0x00, 0x50];
    let (d, n) = parse_request(&bytes).unwrap();
    assert_eq!(n, 10);
    assert_eq!(
        d,
        Destination::Ipv4 { addr: vec![127, 0, 0, 1], port: 80 }
    );
}

#[test]
fn success_reply_bytes() {
    assert_eq!(
        encode_reply(true),
        vec![0x05, 0x00, 0x00, 0x01, 0x00, 0x00, 0x00, 0x00, 0x00, 0x00]
    );
}

#[test]
fn failure_reply_bytes() {
    assert_eq!(
        encode_reply(false),
        vec![0x05, 0x01, 0x00, 0x01, 0x00, 0x00, 0x00, 0x00, 0x00, 0x00]
    );
}

#[test]
fn request_rejects_wrong_version() {
    let bytes = vec![0x04, 0x01, 0x00, 0x01, 127, 0, 0, 1, 0, 80];
    assert_eq!(parse_request(&bytes), Err(RequestError::UnsupportedVersion));
}

#[test]
fn request_rejects_wrong_command() {
    // BIND is not supported; the address bytes are never reached.
    let bytes = vec![0x05, 0x02, 0x00, 0x01, 127, 0, 0, 1, 0, 80];
    assert_eq!(parse_request(&bytes), Err(RequestError::UnsupportedCommand));
}

#[test]
fn scenario_unknown_atyp_rejected() {
    let bytes = vec![0x05, 0x01, 0x00, 0x05, 1, 2, 3, 4, 0, 80];
    assert_eq!(
        parse_request(&bytes),
        Err(RequestError::UnsupportedAddressType)
    );
}

#[test]
fn request_too_short() {
    assert_eq!(parse_request(&vec![5, 1, 0]), Err(RequestError::ShortRead));
    assert_eq!(
        parse_request(&vec![5, 1, 0, 1, 127]),
        Err(RequestError::ShortRead)
    );
}

#[test]
fn header_judged_before_address() {
    let header = vec![0x05, 0x01, 0x00, 0x03];
    assert_eq!(parse_request_header(&header), Ok(3));
    assert_eq!(
        parse_request_header(&vec![0x05, 0x03, 0x00, 0x01]),
        Err(RequestError::UnsupportedCommand)
    );
    assert_eq!(addr_fixed_len(1), Some(6));
    assert_eq!(addr_fixed_len(4), Some(18));
    assert_eq!(addr_fixed_len(3), None);
    assert_eq!(domain_tail_len(11), 13);
}

#[test]
fn decode_twice_identical() {
    // Two independently built, identical messages decode to the same value.
    let mut first = vec![0x05, 0x01, 0x00, 0x03, 11];
    first.extend_from_slice(b"example.com");
    first.push(0x01);
    first.push(0xbb);
    let mut second = vec![0x05, 0x01, 0x00, 0x03, 11];
    second.extend_from_slice(b"example.com");
    second.push(0x01);
    second.push(0xbb);
    let a = parse_request(&first).unwrap();
    let b = parse_request(&second).unwrap();
    assert_eq!(a, b);
}

#[test]
fn scenario_domain_text() {
    let mut bytes = vec![0x05, 0x01, 0x00, 0x03, 11];
    bytes.extend_from_slice(b"example.com");
    bytes.push(0x01);
    bytes.push(0xbb);
    let (d, n) = parse_request(&bytes).unwrap();
    assert_eq!(n, bytes.len());
    assert_eq!(host_port_bytes(&d), b"example.com:443".to_vec());
}
