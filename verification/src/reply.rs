//! Encoding of the SOCKS5 server reply.
//!
//! The reply is always ten bytes: version, reply code, a reserved zero byte,
//! the IPv4 address tag, and a zero-filled bound address and port.  The only
//! varying byte is the reply code: `0x00` for success, `0x01` (general
//! server failure) when the upstream dial failed.

use vstd::prelude::*;

verus! {

/// The ten reply bytes for a successful or a failed request.
pub open spec fn reply_bytes(success: bool) -> Seq<u8> {
    seq![
        5u8,
        if success {
            0u8
        } else {
            1u8
        },
        0u8,
        1u8,
        0u8,
        0u8,
        0u8,
        0u8,
        0u8,
        0u8,
    ]
}

/// Builds the SOCKS5 reply message sent after the dial attempt.
pub fn encode_reply(success: bool) -> (r: Vec<u8>)
    ensures
        r@ == reply_bytes(success),
{
    let rep: u8 = if success {
        0
    } else {
        1
    };
    let mut out: Vec<u8> = Vec::new();
    out.push(5);
    out.push(rep);
    out.push(0);
    out.push(1);
    out.push(0);
    out.push(0);
    out.push(0);
    out.push(0);
    out.push(0);
    out.push(0);
    proof {
        assert(out@ =~= reply_bytes(success));
    }
    out
}

} // verus!
