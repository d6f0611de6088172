use vstd::prelude::*;
use vstd::slice::{slice_subrange, slice_to_vec};
use vstd::utf8::{encode_utf8, valid_utf8};

use crate::error::ProtocolError;
use crate::framing::append_bytes;
use crate::varint::{decode_varint, varint_decoding, varint_encoding, write_varint};

verus! {

/// The identifier shared by the handshake, request and response packets.
pub const STATUS_PACKET_ID: u32 = 0;

/// The `next_state` value of a handshake that asks for the status phase.
pub const NEXT_STATE_STATUS: u32 = 1;

/// A port as two bytes, most significant first.
pub open spec fn port_bytes(port: u16) -> Seq<u8> {
    seq![(port / 256) as u8, (port % 256) as u8]
}

/// A string field: its UTF-8 length as a VarInt, then the bytes.
pub open spec fn string_field(bytes: Seq<u8>) -> Seq<u8> {
    varint_encoding(bytes.len()) + bytes
}

/// The body of a handshake packet.
pub open spec fn handshake_bytes(protocol_version: u32, address: Seq<u8>, port: u16, next_state: u32) -> Seq<u8> {
    varint_encoding(STATUS_PACKET_ID as nat) + varint_encoding(protocol_version as nat)
        + string_field(address) + port_bytes(port) + varint_encoding(next_state as nat)
}

/// The body of a request packet: the identifier and nothing else.
pub open spec fn request_bytes() -> Seq<u8> {
    varint_encoding(STATUS_PACKET_ID as nat)
}

/// Reading a response body: the identifier must be the status one; the
/// string field that follows is returned as bytes, and anything after it is
/// ignored.
pub open spec fn response_reading(s: Seq<u8>) -> Result<Seq<u8>, ProtocolError> {
    match varint_decoding(s) {
        Err(e) => Err(e),
        Ok((id, n)) => if id != STATUS_PACKET_ID {
            Err(ProtocolError::UnexpectedPacketId)
        } else {
            let t = s.skip(n as int);
            match varint_decoding(t) {
                Err(e) => Err(e),
                Ok((len, m)) => if t.len() < m + len {
                    Err(ProtocolError::UnexpectedEof)
                } else {
                    Ok(t.subrange(m as int, m + len))
                },
            }
        },
    }
}

/// Relies on `String::from_utf8`: it succeeds exactly on valid UTF-8, and the
/// string it returns holds those very bytes.
#[verifier::external_body]
fn string_from_utf8(bytes: Vec<u8>) -> (r: Option<String>)
    ensures
        r is Some <==> valid_utf8(bytes@),
        r matches Some(s) ==> encode_utf8(s@) == bytes@,
{
    String::from_utf8(bytes).ok()
}

/// Serializes a handshake packet body: identifier, protocol version, server
/// address, port and next state, in that order.
pub fn handshake_body(protocol_version: u32, address: &str, port: u16, next_state: u32) -> (r: Vec<u8>)
    requires
        encode_utf8(address@).len() <= u32::MAX,
    ensures
        r@ == handshake_bytes(protocol_version, encode_utf8(address@), port, next_state),
{
    let bytes = address.as_bytes();
    let mut out: Vec<u8> = Vec::new();
    write_varint(&mut out, STATUS_PACKET_ID);
    write_varint(&mut out, protocol_version);
    write_varint(&mut out, bytes.len() as u32);
    append_bytes(&mut out, bytes);
    out.push((port / 256) as u8);
    out.push((port % 256) as u8);
    write_varint(&mut out, next_state);
    let ghost pv = varint_encoding(protocol_version as nat);
    let ghost id = varint_encoding(STATUS_PACKET_ID as nat);
    assert(out@ == id + pv + string_field(bytes@) + port_bytes(port) + varint_encoding(next_state as nat));
    out
}

/// Serializes a request packet body.
pub fn request_body() -> (r: Vec<u8>)
    ensures
        r@ == request_bytes(),
{
    let mut out: Vec<u8> = Vec::new();
    write_varint(&mut out, STATUS_PACKET_ID);
    out
}

/// Reads the string field of a response body, checking the identifier first.
/// Returns the field's bytes.
pub fn response_field(body: &[u8]) -> (r: Result<Vec<u8>, ProtocolError>)
    ensures
        match r {
            Ok(b) => response_reading(body@) == Ok::<Seq<u8>, ProtocolError>(b@),
            Err(e) => response_reading(body@) == Err::<Seq<u8>, ProtocolError>(e),
        },
{
    let (id, n) = match decode_varint(body) {
        Ok(p) => p,
        Err(e) => return Err(e),
    };
    if id != STATUS_PACKET_ID {
        return Err(ProtocolError::UnexpectedPacketId);
    }
    let rest = slice_subrange(body, n, body.len());
    let (len, m) = match decode_varint(rest) {
        Ok(p) => p,
        Err(e) => return Err(e),
    };
    let len = len as usize;
    if rest.len() - m < len {
        return Err(ProtocolError::UnexpectedEof);
    }
    Ok(slice_to_vec(slice_subrange(rest, m, m + len)))
}

/// Deserializes a response packet body into its JSON text. Fails on a wrong
/// identifier, a truncated field or bytes that are not UTF-8.
pub fn parse_response(body: &[u8]) -> (r: Result<String, ProtocolError>)
    ensures
        match response_reading(body@) {
            Err(e) => r == Err::<String, ProtocolError>(e),
            Ok(bytes) => if valid_utf8(bytes) {
                r matches Ok(s) && encode_utf8(s@) == bytes
            } else {
                r == Err::<String, ProtocolError>(ProtocolError::InvalidUtf8)
            },
        },
{
    let bytes = response_field(body)?;
    match string_from_utf8(bytes) {
        Some(s) => Ok(s),
        None => Err(ProtocolError::InvalidUtf8),
    }
}

} // verus!
