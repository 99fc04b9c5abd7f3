//! A verified core for a SOCKS version-5 forward proxy.
//!
//! The crate holds the per-connection protocol logic: decoding and encoding
//! of the three SOCKS5 address forms, the method-negotiation greeting, the
//! request message, the server reply, the decisions of the byte-relay loops,
//! and the session state machine that sequences them.  All of it works on
//! plain bytes and values; the sockets, threads and the accept loop live in
//! the surrounding program, which feeds bytes in and carries actions out.

pub mod codec;
pub mod handshake;
pub mod hostport;
pub mod relay;
pub mod reply;
pub mod request;
pub mod session;
