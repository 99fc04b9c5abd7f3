use socks5rs::codec::Destination;
use socks5rs::session::session_step;
use socks5rs::session::SessionAction;
use socks5rs::session::SessionEvent;
use socks5rs::session::SessionState;

#[test]
fn full_session_happy_path() {
    // Greeting `05 01 00` is answered with `05 00`.
    let (s, a) = session_step(
        SessionState::AwaitingHandshake,
        SessionEvent::GreetingRead(vec![0x05, 0x01, 0x00]),
    );
    assert_eq!(s, SessionState::AwaitingRequest);
    assert_eq!(a, SessionAction::ReplyThenReadRequest(vec![0x05, 0x00]));

    // CONNECT to 127.0.0.1:80 leads to a dial of that destination.
    let request = vec![0x05, 0x01, 0x00, 0x01, 0x7f, 0x00, 0x00, 0x01, 0x00, 0x50];
    let (s, a) = session_step(s, SessionEvent::RequestRead(request));
    assert_eq!(s, SessionState::Connecting);
    assert_eq!(
        a,
        SessionAction::Dial(Destination::Ipv4 { addr: vec![127, 0, 0, 1], port: 80 })
    );

    // The dial succeeds: the success reply is sent and the relay starts.
    let (s, a) = session_step(s, SessionEvent::DialSucceeded);
    assert_eq!(s, SessionState::Relaying);
    assert_eq!(
        a,
        SessionAction::ReplyThenRelay(vec![
            0x05, 0x00, 0x00, 0x01, 0x00, 0x00, 0x00, 0x00, 0x00, 0x00
        ])
    );

    // Both copy loops end: the session is closed.
    let (s, a) = session_step(s, SessionEvent::RelayFinished);
    assert_eq!(s, SessionState::Closed);
    assert_eq!(a, SessionAction::Finished);
}

#[test]
fn bad_version_greeting_closes_without_reply() {
    let (s, a) = session_step(
        SessionState::AwaitingHandshake,
        SessionEvent::GreetingRead(vec![0x04, 0x01, 0x00]),
    );
    assert_eq!(s, SessionState::Closed);
    assert_eq!(a, SessionAction::CloseNow);
}

#[test]
fn bad_command_closes_without_dial() {
    let request = vec![0x05, 0x02, 0x00, 0x01, 0x7f, 0x00, 0x00, 0x01, 0x00, 0x50];
    let (s, a) = session_step(SessionState::AwaitingRequest, SessionEvent::RequestRead(request));
    assert_eq!(s, SessionState::Closed);
    assert!(!matches!(a, SessionAction::Dial(_)));
    assert_eq!(
        a,
        SessionAction::ReplyThenClose(vec![
            0x05, 0x01, 0x00, 0x01, 0x00, 0x00, 0x00, 0x00, 0x00, 0x00
        ])
    );
}

#[test]
fn scenario_unknown_atyp_closes() {
    let request = vec![0x05, 0x01, 0x00, 0x05, 0x01, 0x02, 0x03, 0x04, 0x00, 0x50];
    let (s, a) = session_step(SessionState::AwaitingRequest, SessionEvent::RequestRead(request));
    assert_eq!(s, SessionState::Closed);
    assert!(!matches!(a, SessionAction::Dial(_)));
}

#[test]
fn dial_failure_replies_failure() {
    let (s, a) = session_step(SessionState::Connecting, SessionEvent::DialFailed);
    assert_eq!(s, SessionState::Closed);
    assert_eq!(
        a,
        SessionAction::ReplyThenClose(vec![
            0x05, 0x01, 0x00, 0x01, 0x00, 0x00, 0x00, 0x00, 0x00, 0x00
        ])
    );
}

#[test]
fn transport_failure_closes_at_once() {
    let (s, a) = session_step(SessionState::AwaitingRequest, SessionEvent::TransportFailed);
    assert_eq!(s, SessionState::Closed);
    assert_eq!(a, SessionAction::CloseNow);
}

#[test]
fn closed_stays_closed() {
    let (s, a) = session_step(SessionState::Closed, SessionEvent::RelayFinished);
    assert_eq!(s, SessionState::Closed);
    assert_eq!(a, SessionAction::CloseNow);
}

#[test]
fn sessions_are_isolated() {
    // Two simultaneous sessions to different destinations, stepped in an
    // interleaved order: each one's dial carries its own destination and
    // neither outcome depends on the other session.
    let req_one = vec![0x05, 0x01, 0x00, 0x01, 0x7f, 0x00, 0x00, 0x01, 0x00, 0x50];
    let mut req_two = vec![0x05, 0x01, 0x00, 0x03, 11];
    req_two.extend_from_slice(b"example.com");
    req_two.push(0x01);
    req_two.push(0xbb);

    let (s1, _) = session_step(
        SessionState::AwaitingHandshake,
        SessionEvent::GreetingRead(vec![0x05, 0x01, 0x00]),
    );
    let (s2, _) = session_step(
        SessionState::AwaitingHandshake,
        SessionEvent::GreetingRead(vec![0x05, 0x01, 0x00]),
    );
    let (s1, a1) = session_step(s1, SessionEvent::RequestRead(req_one.clone()));
    let (s2, a2) = session_step(s2, SessionEvent::RequestRead(req_two.clone()));
    assert_eq!(s1, SessionState::Connecting);
    assert_eq!(s2, SessionState::Connecting);
    assert_eq!(
        a1,
        SessionAction::Dial(Destination::Ipv4 { addr: vec![127, 0, 0, 1], port: 80 })
    );
    assert_eq!(
        a2,
        SessionAction::Dial(Destination::Domain { name: b"example.com".to_vec(), port: 443 })
    );

    // The same steps in the opposite interleaving give the same outcomes.
    let (t2, b2) = session_step(SessionState::AwaitingRequest, SessionEvent::RequestRead(req_two));
    let (t1, b1) = session_step(SessionState::AwaitingRequest, SessionEvent::RequestRead(req_one));
    assert_eq!((t1, b1), (s1, a1));
    assert_eq!((t2, b2), (s2, a2));
}
