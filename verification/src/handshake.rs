//! The SOCKS5 method-negotiation greeting.
//!
//! The client opens with a version byte, a method count, and that many
//! method identifier bytes.  Only the no-authentication method is ever
//! selected, so the method list's contents are not examined: a greeting of
//! the right version and shape is answered with the two bytes `[5, 0]`.

use vstd::prelude::*;

verus! {

/// Why a greeting was rejected.
#[derive(Clone, Copy, Debug, PartialEq, Eq, Structural)]
pub enum HandshakeError {
    /// The version byte was not 5.
    UnsupportedVersion,
    /// The message was shorter or longer than its method count announces.
    ShortRead,
}

/// The two reply bytes that select the no-authentication method.
pub open spec fn greet_reply() -> Seq<u8> {
    seq![5u8, 0u8]
}

/// What judging a greeting yields.  A greeting is accepted exactly when it
/// has at least the two fixed bytes, its version byte is 5, and it holds
/// exactly as many method bytes as its count announces.
pub open spec fn spec_parse_greeting(b: Seq<u8>) -> Result<(), HandshakeError> {
    if b.len() < 2 {
        Err(HandshakeError::ShortRead)
    } else if b[0] != 5 {
        Err(HandshakeError::UnsupportedVersion)
    } else if b.len() != 2 + b[1] {
        Err(HandshakeError::ShortRead)
    } else {
        Ok(())
    }
}

/// Judges the greeting message and, when it is acceptable, returns the
/// method-selection reply to send: version 5, method 0.
pub fn parse_greeting(msg: &Vec<u8>) -> (r: Result<Vec<u8>, HandshakeError>)
    ensures
        match r {
            Ok(reply) => spec_parse_greeting(msg@) == Ok::<_, HandshakeError>(()) && reply@
                == greet_reply(),
            Err(e) => spec_parse_greeting(msg@) == Err::<(), _>(e),
        },
{
    if msg.len() < 2 {
        return Err(HandshakeError::ShortRead);
    }
    if msg[0] != 5 {
        return Err(HandshakeError::UnsupportedVersion);
    }
    let announced: usize = msg[1] as usize;
    if msg.len() != 2 + announced {
        return Err(HandshakeError::ShortRead);
    }
    let mut reply: Vec<u8> = Vec::new();
    reply.push(5);
    reply.push(0);
    proof {
        assert(reply@ =~= greet_reply());
    }
    Ok(reply)
}

/// Law: a greeting whose version byte is not 5 is never accepted, whatever
/// else it holds, so no reply is owed and none claiming success is sent.
pub proof fn lemma_bad_version_never_accepted(b: Seq<u8>)
    ensures
        b.len() >= 2 && b[0] != 5 ==> spec_parse_greeting(b) == Err::<(), _>(
            HandshakeError::UnsupportedVersion,
        ),
        b.len() < 2 ==> spec_parse_greeting(b) == Err::<(), _>(HandshakeError::ShortRead),
{
}

} // verus!
