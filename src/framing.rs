use vstd::prelude::*;
use vstd::slice::{slice_subrange, slice_to_vec};

use crate::error::ProtocolError;
use crate::varint::{
    decode_varint, lemma_varint_prefix_incomplete, lemma_varint_round_trip, varint_decoding,
    varint_encoding, write_varint,
};

verus! {

/// The longest packet body this client accepts. The protocol itself sets no
/// bound; this one is far above any status response and keeps a corrupt or
/// hostile length prefix from reserving unbounded memory.
pub const MAX_PACKET_LEN: usize = 2097151;

/// A packet on the wire: the body's length as a VarInt, then the body.
pub open spec fn packet_frame(body: Seq<u8>) -> Seq<u8> {
    varint_encoding(body.len()) + body
}

/// Reading one packet from the start of `s`: its body and the number of
/// bytes the whole packet took, or why there is none.
pub open spec fn packet_reading(s: Seq<u8>) -> Result<(Seq<u8>, usize), ProtocolError> {
    match varint_decoding(s) {
        Err(e) => Err(e),
        Ok((len, n)) => if len > MAX_PACKET_LEN {
            Err(ProtocolError::PacketTooLarge)
        } else if s.len() < n + len {
            Err(ProtocolError::UnexpectedEof)
        } else {
            Ok((s.subrange(n as int, n + len), (n + len) as usize))
        },
    }
}

/// Appends `src` to `out`.
pub fn append_bytes(out: &mut Vec<u8>, src: &[u8])
    ensures
        final(out)@ == old(out)@ + src@,
{
    let mut i: usize = 0;
    while i < src.len()
        invariant
            i <= src.len(),
            out@ == old(out)@ + src@.take(i as int),
        decreases src.len() - i,
    {
        out.push(src[i]);
        i = i + 1;
        assert(src@.take(i as int) == src@.take(i - 1) + seq![src@[i - 1]]);
    }
    assert(src@.take(i as int) == src@);
}

/// Frames `body` as one packet: its length as a VarInt, then the body verbatim.
pub fn write_packet(body: &[u8]) -> (r: Vec<u8>)
    requires
        body@.len() <= u32::MAX,
    ensures
        r@ == packet_frame(body@),
{
    let mut out: Vec<u8> = Vec::new();
    write_varint(&mut out, body.len() as u32);
    append_bytes(&mut out, body);
    out
}

/// Reads one packet from the start of `buf`: the length prefix, then exactly
/// that many body bytes. Returns the body and the number of bytes consumed.
pub fn read_packet(buf: &[u8]) -> (r: Result<(Vec<u8>, usize), ProtocolError>)
    ensures
        match r {
            Ok((body, used)) => packet_reading(buf@) == Ok::<(Seq<u8>, usize), ProtocolError>(
                (body@, used),
            ),
            Err(e) => packet_reading(buf@) == Err::<(Seq<u8>, usize), ProtocolError>(e),
        },
{
    let (len, n) = match decode_varint(buf) {
        Ok(p) => p,
        Err(e) => return Err(e),
    };
    let len = len as usize;
    if len > MAX_PACKET_LEN {
        return Err(ProtocolError::PacketTooLarge);
    }
    if buf.len() - n < len {
        return Err(ProtocolError::UnexpectedEof);
    }
    let body = slice_to_vec(slice_subrange(buf, n, n + len));
    Ok((body, n + len))
}

/// Reading back a framed body, whatever follows it, gives the body and the
/// length of the frame.
pub proof fn lemma_packet_round_trip(body: Seq<u8>, rest: Seq<u8>)
    requires
        body.len() <= MAX_PACKET_LEN,
    ensures
        packet_reading(packet_frame(body) + rest) == Ok::<(Seq<u8>, usize), ProtocolError>(
            (body, packet_frame(body).len() as usize),
        ),
{
    let len = body.len() as u32;
    lemma_varint_round_trip(len, body + rest);
    let e = varint_encoding(len as nat);
    assert(packet_frame(body) + rest == e + (body + rest));
    assert((e + (body + rest)).subrange(e.len() as int, e.len() + body.len() as int) == body);
}

/// A stream that closes before a whole packet has arrived never yields one:
/// every proper prefix of a frame reads as an early end of data.
pub proof fn lemma_truncated_packet(body: Seq<u8>, n: nat)
    requires
        body.len() <= MAX_PACKET_LEN,
        n < packet_frame(body).len(),
    ensures
        packet_reading(packet_frame(body).take(n as int)) == Err::<(Seq<u8>, usize), ProtocolError>(
            ProtocolError::UnexpectedEof,
        ),
{
    let len = body.len() as u32;
    let e = varint_encoding(len as nat);
    let f = packet_frame(body);
    if n < e.len() {
        lemma_varint_prefix_incomplete(len, n);
        assert(f.take(n as int) == e.take(n as int));
    } else {
        lemma_varint_round_trip(len, f.take(n as int).skip(e.len() as int));
        assert(f.take(n as int) == e + f.take(n as int).skip(e.len() as int));
    }
}

/// A length prefix above the cap is refused before any body is read, however
/// little data follows it.
pub proof fn lemma_oversized_packet(len: u32, rest: Seq<u8>)
    requires
        len > MAX_PACKET_LEN,
    ensures
        packet_reading(varint_encoding(len as nat) + rest) == Err::<(Seq<u8>, usize), ProtocolError>(
            ProtocolError::PacketTooLarge,
        ),
{
    lemma_varint_round_trip(len, rest);
}

} // verus!
