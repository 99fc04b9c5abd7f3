//! Rendering of a destination as connectable `host:port` text.
//!
//! The dialer takes a destination as text: dotted decimal for IPv4, the
//! name itself for a domain, and the eight colon-separated hexadecimal
//! groups in square brackets for IPv6, each followed by a colon and the
//! decimal port.  IPv6 groups are written in full, four digits each, which
//! every resolver accepts.  The bytes produced are ASCII throughout —
//! except for a domain name, which is carried as it arrived.

use crate::codec::DestModel;
use crate::codec::Destination;
use crate::codec::append_bytes;
use crate::codec::port_value;
use crate::codec::wf_dest;
use vstd::prelude::*;

verus! {

/// The ASCII digit for one decimal place value.
pub open spec fn dec_digit(n: int) -> u8 {
    (0x30 + n) as u8
}

/// The decimal digits of a number, no leading zeros.
pub open spec fn dec_u16(n: u16) -> Seq<u8> {
    let v = n as int;
    if v < 10 {
        seq![dec_digit(v)]
    } else if v < 100 {
        seq![dec_digit(v / 10), dec_digit(v % 10)]
    } else if v < 1000 {
        seq![dec_digit(v / 100), dec_digit(v / 10 % 10), dec_digit(v % 10)]
    } else if v < 10000 {
        seq![dec_digit(v / 1000), dec_digit(v / 100 % 10), dec_digit(v / 10 % 10), dec_digit(v % 10)]
    } else {
        seq![
            dec_digit(v / 10000),
            dec_digit(v / 1000 % 10),
            dec_digit(v / 100 % 10),
            dec_digit(v / 10 % 10),
            dec_digit(v % 10),
        ]
    }
}

/// The ASCII digit for one hexadecimal place value, lower case.
pub open spec fn hex_digit(n: u8) -> u8 {
    if n < 10 {
        (0x30 + n) as u8
    } else {
        (0x57 + n) as u8
    }
}

/// The four hexadecimal digits of a 16-bit group, zero-padded.
pub open spec fn hex_u16(n: u16) -> Seq<u8> {
    seq![
        hex_digit(((n >> 12) & 0xf) as u8),
        hex_digit(((n >> 8) & 0xf) as u8),
        hex_digit(((n >> 4) & 0xf) as u8),
        hex_digit((n & 0xf) as u8),
    ]
}

/// The eight hexadecimal groups of an IPv6 address, colon-separated.  Each
/// group joins two address bytes, high byte first.
pub open spec fn ipv6_group_text(addr: Seq<u8>) -> Seq<u8> {
    hex_u16(port_value(addr[0], addr[1])) + seq![0x3au8] + hex_u16(port_value(addr[2], addr[3]))
        + seq![0x3au8] + hex_u16(port_value(addr[4], addr[5])) + seq![0x3au8] + hex_u16(
        port_value(addr[6], addr[7]),
    ) + seq![0x3au8] + hex_u16(port_value(addr[8], addr[9])) + seq![0x3au8] + hex_u16(
        port_value(addr[10], addr[11]),
    ) + seq![0x3au8] + hex_u16(port_value(addr[12], addr[13])) + seq![0x3au8] + hex_u16(
        port_value(addr[14], addr[15]),
    )
}

/// The `host:port` text of a destination.
pub open spec fn host_port_text(d: DestModel) -> Seq<u8> {
    match d {
        DestModel::Ipv4 { addr, port } => dec_u16(addr[0] as u16) + seq![0x2eu8] + dec_u16(
            addr[1] as u16,
        ) + seq![0x2eu8] + dec_u16(addr[2] as u16) + seq![0x2eu8] + dec_u16(addr[3] as u16) + seq![
            0x3au8,
        ] + dec_u16(port),
        DestModel::Domain { name, port } => name + seq![0x3au8] + dec_u16(port),
        DestModel::Ipv6 { addr, port } => seq![0x5bu8] + ipv6_group_text(addr) + seq![
            0x5du8,
            0x3au8,
        ] + dec_u16(port),
    }
}

/// Appends the decimal digits of `n`.
fn push_dec_u16(out: &mut Vec<u8>, n: u16)
    ensures
        final(out)@ == old(out)@ + dec_u16(n),
{
    if n < 10 {
        out.push(0x30 + (n as u8));
    } else if n < 100 {
        out.push(0x30 + (n / 10) as u8);
        out.push(0x30 + (n % 10) as u8);
    } else if n < 1000 {
        out.push(0x30 + (n / 100) as u8);
        out.push(0x30 + (n / 10 % 10) as u8);
        out.push(0x30 + (n % 10) as u8);
    } else if n < 10000 {
        out.push(0x30 + (n / 1000) as u8);
        out.push(0x30 + (n / 100 % 10) as u8);
        out.push(0x30 + (n / 10 % 10) as u8);
        out.push(0x30 + (n % 10) as u8);
    } else {
        out.push(0x30 + (n / 10000) as u8);
        out.push(0x30 + (n / 1000 % 10) as u8);
        out.push(0x30 + (n / 100 % 10) as u8);
        out.push(0x30 + (n / 10 % 10) as u8);
        out.push(0x30 + (n % 10) as u8);
    }
    proof {
        assert(out@ =~= old(out)@ + dec_u16(n));
    }
}

/// Appends the four hexadecimal digits of one 16-bit group.
fn push_hex_u16(out: &mut Vec<u8>, n: u16)
    ensures
        final(out)@ == old(out)@ + hex_u16(n),
{
    proof {
        assert((n >> 12) & 0xf < 16 && (n >> 8) & 0xf < 16 && (n >> 4) & 0xf < 16 && n & 0xf
            < 16) by (bit_vector);
    }
    push_hex_digit(out, ((n >> 12) & 0xf) as u8);
    push_hex_digit(out, ((n >> 8) & 0xf) as u8);
    push_hex_digit(out, ((n >> 4) & 0xf) as u8);
    push_hex_digit(out, (n & 0xf) as u8);
    proof {
        assert(out@ =~= old(out)@ + hex_u16(n));
    }
}

/// Appends one hexadecimal digit.
fn push_hex_digit(out: &mut Vec<u8>, n: u8)
    requires
        n < 16,
    ensures
        final(out)@ == old(out)@ + seq![hex_digit(n)],
{
    if n < 10 {
        out.push(0x30 + n);
    } else {
        out.push(0x57 + n);
    }
    proof {
        assert(out@ =~= old(out)@ + seq![hex_digit(n)]);
    }
}

/// Renders a destination as the `host:port` text the dialer takes.
pub fn host_port_bytes(d: &Destination) -> (r: Vec<u8>)
    requires
        wf_dest(d@),
    ensures
        r@ == host_port_text(d@),
{
    let mut out: Vec<u8> = Vec::new();
    match d {
        Destination::Ipv4 { addr, port } => {
            push_dec_u16(&mut out, addr[0] as u16);
            out.push(0x2e);
            push_dec_u16(&mut out, addr[1] as u16);
            out.push(0x2e);
            push_dec_u16(&mut out, addr[2] as u16);
            out.push(0x2e);
            push_dec_u16(&mut out, addr[3] as u16);
            out.push(0x3a);
            push_dec_u16(&mut out, *port);
            proof {
                assert(out@ =~= host_port_text(d@));
            }
        },
        Destination::Domain { name, port } => {
            append_bytes(&mut out, name);
            out.push(0x3a);
            push_dec_u16(&mut out, *port);
            proof {
                assert(out@ =~= host_port_text(d@));
            }
        },
        Destination::Ipv6 { addr, port } => {
            out.push(0x5b);
            push_hex_u16(&mut out, ((addr[0] as u16) << 8) | (addr[1] as u16));
            out.push(0x3a);
            push_hex_u16(&mut out, ((addr[2] as u16) << 8) | (addr[3] as u16));
            out.push(0x3a);
            push_hex_u16(&mut out, ((addr[4] as u16) << 8) | (addr[5] as u16));
            out.push(0x3a);
            push_hex_u16(&mut out, ((addr[6] as u16) << 8) | (addr[7] as u16));
            out.push(0x3a);
            push_hex_u16(&mut out, ((addr[8] as u16) << 8) | (addr[9] as u16));
            out.push(0x3a);
            push_hex_u16(&mut out, ((addr[10] as u16) << 8) | (addr[11] as u16));
            out.push(0x3a);
            push_hex_u16(&mut out, ((addr[12] as u16) << 8) | (addr[13] as u16));
            out.push(0x3a);
            push_hex_u16(&mut out, ((addr[14] as u16) << 8) | (addr[15] as u16));
            out.push(0x5d);
            out.push(0x3a);
            push_dec_u16(&mut out, *port);
            proof {
                assert(out@ =~= host_port_text(d@));
            }
        },
    }
    out
}

} // verus!
