//! Decoding and encoding of the SOCKS5 destination address forms.
//!
//! A request carries its destination in one of three wire forms, selected by
//! the address-type byte: an IPv4 address (4 bytes), a domain name (one
//! length byte followed by that many name bytes), or an IPv6 address
//! (16 bytes), each followed by a two-byte big-endian port.  This module
//! decodes those bytes into a [`Destination`], encodes a [`Destination`]
//! back into bytes, and proves the two directions lossless.

use vstd::prelude::*;

verus! {

/// Why a request or an address payload was rejected.
#[derive(Clone, Copy, Debug, PartialEq, Eq, Structural)]
pub enum RequestError {
    /// The version byte was not 5.
    UnsupportedVersion,
    /// The command byte was not CONNECT.
    UnsupportedCommand,
    /// The address-type byte named no known address form.
    UnsupportedAddressType,
    /// The domain-name length byte was zero.
    InvalidDomainLength,
    /// The domain-name bytes were not valid UTF-8.
    InvalidEncoding,
    /// The message ended before the address form it announced was complete.
    ShortRead,
}

/// Mathematical model of a decoded destination: the same three variants as
/// [`Destination`], with the address bytes as sequences.
pub enum DestModel {
    Ipv4 { addr: Seq<u8>, port: u16 },
    Domain { name: Seq<u8>, port: u16 },
    Ipv6 { addr: Seq<u8>, port: u16 },
}

/// A decoded destination address: where the client asks the proxy to
/// connect.  Immutable once decoded.
#[derive(Clone, Debug, PartialEq, Eq)]
pub enum Destination {
    /// An IPv4 address, four octets, and a port.
    Ipv4 { addr: Vec<u8>, port: u16 },
    /// A domain name of 1 to 255 bytes and a port.
    Domain { name: Vec<u8>, port: u16 },
    /// An IPv6 address, sixteen octets, and a port.
    Ipv6 { addr: Vec<u8>, port: u16 },
}

impl View for Destination {
    type V = DestModel;

    open spec fn view(&self) -> DestModel {
        match self {
            Destination::Ipv4 { addr, port } => DestModel::Ipv4 { addr: addr@, port: *port },
            Destination::Domain { name, port } => DestModel::Domain { name: name@, port: *port },
            Destination::Ipv6 { addr, port } => DestModel::Ipv6 { addr: addr@, port: *port },
        }
    }
}

/// Well-formedness of a destination: the address bytes have the length
/// their wire form demands.
pub open spec fn wf_dest(d: DestModel) -> bool {
    match d {
        DestModel::Ipv4 { addr, .. } => addr.len() == 4,
        DestModel::Domain { name, .. } => 1 <= name.len() <= 255,
        DestModel::Ipv6 { addr, .. } => addr.len() == 16,
    }
}

/// The port value carried by two wire bytes, high byte first.
pub open spec fn port_value(hi: u8, lo: u8) -> u16 {
    ((hi as u16) << 8) | (lo as u16)
}

/// The high wire byte of a port.
pub open spec fn port_hi(p: u16) -> u8 {
    (p >> 8) as u8
}

/// The low wire byte of a port.
pub open spec fn port_lo(p: u16) -> u8 {
    (p & 0xff) as u8
}

/// Two wire bytes decode to a port whose wire bytes they are: the bytes
/// are recovered from the value.
pub proof fn lemma_port_bytes_round_trip(hi: u8, lo: u8)
    ensures
        port_hi(port_value(hi, lo)) == hi,
        port_lo(port_value(hi, lo)) == lo,
{
    let h = hi as u16;
    let l = lo as u16;
    assert(h < 256 && l < 256 ==> (((h << 8) | l) >> 8) as u8 == h as u8 && (((h << 8) | l)
        & 0xff) as u8 == l as u8) by (bit_vector);
}

/// A port value's wire bytes decode back to the value.
pub proof fn lemma_port_value_round_trip(p: u16)
    ensures
        port_value(port_hi(p), port_lo(p)) == p,
{
    assert(((((p >> 8) as u8) as u16) << 8) | (((p & 0xff) as u8) as u16) == p) by (bit_vector);
}

/// Whether a byte sequence is valid UTF-8, as `std::str::from_utf8` judges
/// it.  The predicate is given no definition here: the one fact the crate
/// states about it is the contract of [`utf8_ok`].
pub uninterp spec fn is_utf8(bytes: Seq<u8>) -> bool;

/// Relies on `std::str::from_utf8`: it returns `Ok` exactly when its input
/// is valid UTF-8, which is a property of the bytes alone.
#[verifier::external_body]
fn utf8_ok(bytes: &Vec<u8>) -> (r: bool)
    ensures
        r == is_utf8(bytes@),
{
    std::str::from_utf8(bytes.as_slice()).is_ok()
}

/// Copies `src[start..end]` into a fresh vector.
pub fn copy_range(src: &Vec<u8>, start: usize, end: usize) -> (r: Vec<u8>)
    requires
        start <= end <= src.len(),
    ensures
        r@ == src@.subrange(start as int, end as int),
{
    let mut out: Vec<u8> = Vec::new();
    let mut i: usize = start;
    proof {
        assert(out@ =~= src@.subrange(start as int, start as int));
    }
    while i < end
        invariant
            start <= i <= end <= src.len(),
            out@ == src@.subrange(start as int, i as int),
        decreases end - i,
    {
        out.push(src[i]);
        i = i + 1;
        proof {
            assert(out@ =~= src@.subrange(start as int, i as int));
        }
    }
    out
}

/// What decoding an address payload yields: the destination and the number
/// of payload bytes consumed, or the error.  `atyp` is the address-type
/// byte; `p` is the message from the byte after it onward.
pub open spec fn spec_decode_addr(atyp: u8, p: Seq<u8>) -> Result<(DestModel, int), RequestError> {
    if atyp == 1 {
        if p.len() < 6 {
            Err(RequestError::ShortRead)
        } else {
            Ok((DestModel::Ipv4 { addr: p.take(4), port: port_value(p[4], p[5]) }, 6))
        }
    } else if atyp == 3 {
        if p.len() < 1 {
            Err(RequestError::ShortRead)
        } else if p[0] == 0 {
            Err(RequestError::InvalidDomainLength)
        } else if p.len() < p[0] + 3 {
            Err(RequestError::ShortRead)
        } else if !is_utf8(p.subrange(1, 1 + p[0])) {
            Err(RequestError::InvalidEncoding)
        } else {
            Ok(
                (
                    DestModel::Domain {
                        name: p.subrange(1, 1 + p[0]),
                        port: port_value(p[1 + p[0]], p[2 + p[0]]),
                    },
                    3 + p[0],
                ),
            )
        }
    } else if atyp == 4 {
        if p.len() < 18 {
            Err(RequestError::ShortRead)
        } else {
            Ok((DestModel::Ipv6 { addr: p.take(16), port: port_value(p[16], p[17]) }, 18))
        }
    } else {
        Err(RequestError::UnsupportedAddressType)
    }
}

/// Decodes one address payload.  Returns the destination and how many
/// payload bytes it occupied, or the error [`spec_decode_addr`] names for
/// these bytes.
pub fn decode_destination(atyp: u8, payload: &Vec<u8>) -> (r: Result<
    (Destination, usize),
    RequestError,
>)
    ensures
        match r {
            Ok((d, n)) => spec_decode_addr(atyp, payload@) == Ok::<_, RequestError>(
                (d@, n as int),
            ) && wf_dest(d@),
            Err(e) => spec_decode_addr(atyp, payload@) == Err::<(DestModel, int), _>(e),
        },
{
    if atyp == 1 {
        if payload.len() < 6 {
            return Err(RequestError::ShortRead);
        }
        let addr = copy_range(payload, 0, 4);
        let port: u16 = ((payload[4] as u16) << 8) | (payload[5] as u16);
        Ok((Destination::Ipv4 { addr, port }, 6))
    } else if atyp == 3 {
        if payload.len() < 1 {
            return Err(RequestError::ShortRead);
        }
        let l: usize = payload[0] as usize;
        if l == 0 {
            return Err(RequestError::InvalidDomainLength);
        }
        if payload.len() < l + 3 {
            return Err(RequestError::ShortRead);
        }
        let name = copy_range(payload, 1, 1 + l);
        if !utf8_ok(&name) {
            return Err(RequestError::InvalidEncoding);
        }
        let port: u16 = ((payload[1 + l] as u16) << 8) | (payload[2 + l] as u16);
        Ok((Destination::Domain { name, port }, 3 + l))
    } else if atyp == 4 {
        if payload.len() < 18 {
            return Err(RequestError::ShortRead);
        }
        let addr = copy_range(payload, 0, 16);
        let port: u16 = ((payload[16] as u16) << 8) | (payload[17] as u16);
        Ok((Destination::Ipv6 { addr, port }, 18))
    } else {
        Err(RequestError::UnsupportedAddressType)
    }
}

/// The wire bytes of a destination: the address-type byte, the address
/// (length-prefixed for a domain name), then the two port bytes.
pub open spec fn encoded_dest(d: DestModel) -> Seq<u8> {
    match d {
        DestModel::Ipv4 { addr, port } => seq![1u8] + addr + seq![port_hi(port), port_lo(port)],
        DestModel::Domain { name, port } => seq![3u8, name.len() as u8] + name + seq![
            port_hi(port),
            port_lo(port),
        ],
        DestModel::Ipv6 { addr, port } => seq![4u8] + addr + seq![port_hi(port), port_lo(port)],
    }
}

/// Appends all of `src` to `dst`.
pub fn append_bytes(dst: &mut Vec<u8>, src: &Vec<u8>)
    ensures
        final(dst)@ == old(dst)@ + src@,
{
    let mut i: usize = 0;
    proof {
        assert(dst@ =~= old(dst)@ + src@.take(0));
    }
    while i < src.len()
        invariant
            i <= src.len(),
            dst@ == old(dst)@ + src@.take(i as int),
        decreases src.len() - i,
    {
        dst.push(src[i]);
        i = i + 1;
        proof {
            assert(dst@ =~= old(dst)@ + src@.take(i as int));
        }
    }
    proof {
        assert(old(dst)@ + src@.take(src@.len() as int) =~= old(dst)@ + src@);
    }
}

/// Encodes a destination back into its wire bytes.
pub fn encode_destination(d: &Destination) -> (r: Vec<u8>)
    requires
        wf_dest(d@),
    ensures
        r@ == encoded_dest(d@),
{
    let mut out: Vec<u8> = Vec::new();
    match d {
        Destination::Ipv4 { addr, port } => {
            out.push(1);
            append_bytes(&mut out, addr);
            out.push((*port >> 8) as u8);
            out.push((*port & 0xff) as u8);
            proof {
                assert(out@ =~= encoded_dest(d@));
            }
        },
        Destination::Domain { name, port } => {
            out.push(3);
            out.push(name.len() as u8);
            append_bytes(&mut out, name);
            out.push((*port >> 8) as u8);
            out.push((*port & 0xff) as u8);
            proof {
                assert(out@ =~= encoded_dest(d@));
            }
        },
        Destination::Ipv6 { addr, port } => {
            out.push(4);
            append_bytes(&mut out, addr);
            out.push((*port >> 8) as u8);
            out.push((*port & 0xff) as u8);
            proof {
                assert(out@ =~= encoded_dest(d@));
            }
        },
    }
    out
}

/// Law: decoding is lossless.  Whenever an address payload decodes, the
/// decoded destination is well formed and re-encoding it reproduces the
/// address-type byte and exactly the payload bytes that were consumed.
pub proof fn lemma_decode_reencode(atyp: u8, p: Seq<u8>)
    ensures
        spec_decode_addr(atyp, p) matches Ok((d, n)) ==> wf_dest(d) && encoded_dest(d) == seq![
            atyp,
        ] + p.take(n),
{
    match spec_decode_addr(atyp, p) {
        Ok((d, n)) => {
            if atyp == 1 {
                lemma_port_bytes_round_trip(p[4], p[5]);
                assert(encoded_dest(d) =~= seq![atyp] + p.take(n));
            } else if atyp == 3 {
                let l = p[0] as int;
                lemma_port_bytes_round_trip(p[1 + l], p[2 + l]);
                assert(encoded_dest(d) =~= seq![atyp] + p.take(n));
            } else {
                lemma_port_bytes_round_trip(p[16], p[17]);
                assert(encoded_dest(d) =~= seq![atyp] + p.take(n));
            }
        },
        Err(_) => {},
    }
}

/// Whether decoding would accept the domain-name bytes of a destination.
/// Trivially true of the numeric address forms.
pub open spec fn utf8_accepts(d: DestModel) -> bool {
    match d {
        DestModel::Domain { name, .. } => is_utf8(name),
        _ => true,
    }
}

/// Law: encoding is lossless.  A well-formed destination whose name bytes
/// decoding would accept comes back unchanged when its wire bytes are
/// decoded, consuming all of them.
pub proof fn lemma_reencode_decode(d: DestModel)
    ensures
        wf_dest(d) && utf8_accepts(d) ==> spec_decode_addr(
            encoded_dest(d)[0],
            encoded_dest(d).skip(1),
        ) == Ok::<_, RequestError>((d, encoded_dest(d).len() - 1)),
{
    if wf_dest(d) && utf8_accepts(d) {
        let p = encoded_dest(d).skip(1);
        match d {
            DestModel::Ipv4 { addr, port } => {
                lemma_port_value_round_trip(port);
                assert(p.take(4) =~= addr);
                assert(p[4] == port_hi(port) && p[5] == port_lo(port));
            },
            DestModel::Domain { name, port } => {
                lemma_port_value_round_trip(port);
                let l = p[0] as int;
                assert(l == name.len());
                assert(p.subrange(1, 1 + l) =~= name);
                assert(p[1 + l] == port_hi(port) && p[2 + l] == port_lo(port));
            },
            DestModel::Ipv6 { addr, port } => {
                lemma_port_value_round_trip(port);
                assert(p.take(16) =~= addr);
                assert(p[16] == port_hi(port) && p[17] == port_lo(port));
            },
        }
    }
}

} // verus!
