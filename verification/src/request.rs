//! Parsing of the SOCKS5 request message.
//!
//! The request is four header bytes — version, command, a reserved byte,
//! and the address type — followed by the destination address and port in
//! the form the address type selects.  Only version 5 and the CONNECT
//! command are accepted; the version and command are judged before any
//! address byte is looked at, so a bad command never reaches the address.

use crate::codec::copy_range;
use crate::codec::decode_destination;
use crate::codec::spec_decode_addr;
use crate::codec::wf_dest;
use crate::codec::DestModel;
use crate::codec::Destination;
use crate::codec::RequestError;
use vstd::prelude::*;

verus! {

/// What judging the four header bytes yields: the address-type byte, or
/// the error.  `b` is the whole request message; only `b[0]`, `b[1]` and
/// `b[3]` are read.
pub open spec fn spec_check_header(b: Seq<u8>) -> Result<u8, RequestError> {
    if b[0] != 5 {
        Err(RequestError::UnsupportedVersion)
    } else if b[1] != 1 {
        Err(RequestError::UnsupportedCommand)
    } else if b[3] != 1 && b[3] != 3 && b[3] != 4 {
        Err(RequestError::UnsupportedAddressType)
    } else {
        Ok(b[3])
    }
}

/// What parsing a whole request message yields: the destination and the
/// number of message bytes consumed, or the error.
pub open spec fn spec_parse_request(b: Seq<u8>) -> Result<(DestModel, int), RequestError> {
    if b.len() < 4 {
        Err(RequestError::ShortRead)
    } else {
        match spec_check_header(b) {
            Err(e) => Err(e),
            Ok(atyp) => match spec_decode_addr(atyp, b.skip(4)) {
                Ok((d, n)) => Ok((d, 4 + n)),
                Err(e) => Err(e),
            },
        }
    }
}

/// Judges the four request header bytes: the version must be 5, the
/// command CONNECT, and the address type one of the three known forms.
/// Returns the address-type byte.
pub fn parse_request_header(header: &Vec<u8>) -> (r: Result<u8, RequestError>)
    requires
        header@.len() >= 4,
    ensures
        r == spec_check_header(header@),
{
    if header[0] != 5 {
        Err(RequestError::UnsupportedVersion)
    } else if header[1] != 1 {
        Err(RequestError::UnsupportedCommand)
    } else if header[3] != 1 && header[3] != 3 && header[3] != 4 {
        Err(RequestError::UnsupportedAddressType)
    } else {
        Ok(header[3])
    }
}

/// How many address bytes follow the header for a fixed-size address form,
/// port included; `None` for the domain form, whose size its first byte
/// gives.
pub fn addr_fixed_len(atyp: u8) -> (r: Option<usize>)
    ensures
        atyp == 1 ==> r == Some(6usize),
        atyp == 4 ==> r == Some(18usize),
        atyp != 1 && atyp != 4 ==> r is None,
{
    if atyp == 1 {
        Some(6)
    } else if atyp == 4 {
        Some(18)
    } else {
        None
    }
}

/// How many bytes follow the domain-name length byte: the name and the
/// two port bytes.
pub fn domain_tail_len(len_byte: u8) -> (r: usize)
    ensures
        r == len_byte + 2,
{
    (len_byte as usize) + 2
}

/// Parses a whole request message: the four header bytes and the address
/// payload after them.  Returns the destination and how many message bytes
/// it occupied, or the error [`spec_parse_request`] names for these bytes.
pub fn parse_request(bytes: &Vec<u8>) -> (r: Result<(Destination, usize), RequestError>)
    ensures
        match r {
            Ok((d, n)) => spec_parse_request(bytes@) == Ok::<_, RequestError>((d@, n as int))
                && wf_dest(d@),
            Err(e) => spec_parse_request(bytes@) == Err::<(DestModel, int), _>(e),
        },
{
    if bytes.len() < 4 {
        return Err(RequestError::ShortRead);
    }
    let atyp = match parse_request_header(bytes) {
        Ok(atyp) => atyp,
        Err(e) => {
            return Err(e);
        },
    };
    let payload = copy_range(bytes, 4, bytes.len());
    match decode_destination(atyp, &payload) {
        Ok((d, n)) => Ok((d, 4 + n)),
        Err(e) => Err(e),
    }
}

/// Law: parsing is a pure function of the message bytes.  Two request
/// messages that hold the same bytes — two reads of identical streams —
/// decode to the same destination or the same error.
pub proof fn lemma_parse_deterministic(b1: Seq<u8>, b2: Seq<u8>)
    ensures
        b1 == b2 ==> spec_parse_request(b1) == spec_parse_request(b2),
{
}

/// Law: whatever a request message decodes to is well formed: its address
/// bytes have the length its wire form demands.
pub proof fn lemma_parsed_dest_wf(b: Seq<u8>)
    ensures
        spec_parse_request(b) matches Ok((d, _n)) ==> wf_dest(d),
{
    if b.len() >= 4 {
        crate::codec::lemma_decode_reencode(b[3], b.skip(4));
    }
}

/// Law: a command other than CONNECT is rejected as such, before the
/// address bytes are consulted: whatever they hold, the result is the
/// command error and no destination.
pub proof fn lemma_bad_command_rejected(b: Seq<u8>)
    ensures
        b.len() >= 4 && b[0] == 5 && b[1] != 1 ==> spec_parse_request(b) == Err::<
            (DestModel, int),
            _,
        >(RequestError::UnsupportedCommand),
{
}

/// Law: an address type outside the three known forms is rejected as such,
/// whatever follows it.
pub proof fn lemma_unknown_atyp_rejected(b: Seq<u8>)
    ensures
        b.len() >= 4 && b[0] == 5 && b[1] == 1 && b[3] != 1 && b[3] != 3 && b[3] != 4
            ==> spec_parse_request(b) == Err::<(DestModel, int), _>(
            RequestError::UnsupportedAddressType,
        ),
{
}

} // verus!
