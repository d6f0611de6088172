use vstd::prelude::*;

use crate::error::ProtocolError;

verus! {

/// The most bytes a VarInt may occupy.
pub const MAX_VARINT_LEN: usize = 5;

/// The canonical encoding of `v`: seven payload bits per byte, least
/// significant group first, the high bit set on every byte but the last.
pub open spec fn varint_encoding(v: nat) -> Seq<u8>
    decreases v,
{
    if v < 128 {
        seq![v as u8]
    } else {
        seq![(v % 128 + 128) as u8] + varint_encoding(v / 128)
    }
}

/// The number that a run of VarInt bytes carries, ignoring the continuation bits.
pub open spec fn varint_value(s: Seq<u8>) -> nat
    decreases s.len(),
{
    if s.len() == 0 {
        0
    } else {
        (s[0] % 128) as nat + 128 * varint_value(s.drop_first())
    }
}

/// The index of the first byte at or after `i` whose continuation bit is
/// clear, looking at the first five bytes of `s` only.
pub open spec fn varint_end(s: Seq<u8>, i: nat) -> Option<nat>
    decreases MAX_VARINT_LEN - i,
{
    if i >= MAX_VARINT_LEN || i >= s.len() {
        None
    } else if s[i as int] < 128 {
        Some(i)
    } else {
        varint_end(s, i + 1)
    }
}

/// Decoding a VarInt at the start of `s`: its value (modulo 2^32) and the
/// number of bytes it took, or why there is none.
pub open spec fn varint_decoding(s: Seq<u8>) -> Result<(u32, usize), ProtocolError> {
    match varint_end(s, 0) {
        Some(k) => Ok(((varint_value(s.take(k + 1 as int)) % 0x1_0000_0000) as u32, (k + 1) as usize)),
        None => if s.len() >= MAX_VARINT_LEN {
            Err(ProtocolError::MalformedVarInt)
        } else {
            Err(ProtocolError::UnexpectedEof)
        },
    }
}

/// Appends the encoding of `v` to `out`.
pub fn write_varint(out: &mut Vec<u8>, v: u32)
    ensures
        final(out)@ == old(out)@ + varint_encoding(v as nat),
{
    let mut rest: u32 = v;
    while rest >= 128
        invariant
            out@ + varint_encoding(rest as nat) == old(out)@ + varint_encoding(v as nat),
        decreases rest,
    {
        let ghost before = out@;
        let ghost r = rest as nat;
        out.push((rest % 128 + 128) as u8);
        rest = rest / 128;
        assert(varint_encoding(r) == seq![(r % 128 + 128) as u8] + varint_encoding(r / 128));
        assert(out@ + varint_encoding(rest as nat) == before + varint_encoding(r));
    }
    out.push(rest as u8);
}

} // verus!

verus! {

/// `128` raised to the power `n`.
pub open spec fn pow128(n: nat) -> nat
    decreases n,
{
    if n == 0 {
        1
    } else {
        128 * pow128((n - 1) as nat)
    }
}

proof fn lemma_pow128_small(n: nat)
    requires
        n <= 4,
    ensures
        pow128(n) <= 0x1000_0000,
{
    reveal_with_fuel(pow128, 5);
    assert(n == 0 || n == 1 || n == 2 || n == 3 || n == 4);
}

/// Decodes the VarInt at the start of `buf`, reading no further than its
/// terminating byte.
pub fn decode_varint(buf: &[u8]) -> (r: Result<(u32, usize), ProtocolError>)
    ensures
        r == varint_decoding(buf@),
        r matches Ok((_, n)) ==> 1 <= n <= MAX_VARINT_LEN && n <= buf@.len(),
{
    let mut i: usize = 0;
    while i < MAX_VARINT_LEN && i < buf.len()
        invariant
            i <= MAX_VARINT_LEN,
            i <= buf.len(),
            varint_end(buf@, 0) == varint_end(buf@, i as nat),
        decreases MAX_VARINT_LEN - i,
    {
        if buf[i] < 128 {
            let mut acc: u64 = 0;
            let mut j: usize = i + 1;
            while j > 0
                invariant
                    i < MAX_VARINT_LEN,
                    i < buf.len(),
                    j <= i + 1,
                    acc == varint_value(buf@.subrange(j as int, i + 1)),
                    acc < pow128((i + 1 - j) as nat),
                decreases j,
            {
                let ghost n = (i + 1 - j) as nat;
                proof {
                    lemma_pow128_small(n);
                    assert(pow128(n + 1) == 128 * pow128(n));
                    assert(acc * 128 + 128 <= pow128(n + 1)) by (nonlinear_arith)
                        requires
                            acc < pow128(n),
                            pow128(n + 1) == 128 * pow128(n),
                    ;
                }
                j = j - 1;
                let ghost tail = buf@.subrange(j + 1, i + 1);
                acc = acc * 128 + (buf[j] % 128) as u64;
                assert(buf@.subrange(j as int, i + 1).drop_first() == tail);
            }
            assert(buf@.subrange(0, i + 1) == buf@.take(i + 1));
            return Ok(((acc % 0x1_0000_0000) as u32, i + 1));
        }
        i = i + 1;
    }
    if buf.len() >= MAX_VARINT_LEN {
        Err(ProtocolError::MalformedVarInt)
    } else {
        Err(ProtocolError::UnexpectedEof)
    }
}

} // verus!

verus! {

/// The canonical encoding is never empty, ends with the only byte whose
/// continuation bit is clear, carries `v`, and fits `k` bytes when `v` is
/// below `128^k`.
pub proof fn lemma_encoding_shape(v: nat, k: nat)
    ensures
        varint_encoding(v).len() >= 1,
        varint_encoding(v).last() < 128,
        forall|i: int| 0 <= i < varint_encoding(v).len() - 1 ==> varint_encoding(v)[i] >= 128,
        varint_value(varint_encoding(v)) == v,
        k >= 1 && v < pow128(k) ==> varint_encoding(v).len() <= k,
    decreases v,
{
    let e = varint_encoding(v);
    if v >= 128 {
        let k1 = if k >= 1 { (k - 1) as nat } else { 0 };
        lemma_encoding_shape(v / 128, k1);
        let t = varint_encoding(v / 128);
        assert(e == seq![(v % 128 + 128) as u8] + t);
        assert(e.drop_first() == t);
        assert(e[0] % 128 == v % 128);
        assert(varint_value(e) == e[0] % 128 + 128 * varint_value(t));
        assert(v == v % 128 + 128 * (v / 128));
        assert forall|i: int| 0 <= i < e.len() - 1 implies e[i] >= 128 by {
            if i > 0 {
                assert(e[i] == t[i - 1]);
            }
        }
        if k >= 1 && v < pow128(k) {
            assert(k1 >= 1 && v / 128 < pow128(k1)) by {
                if k == 1 {
                    assert(pow128(1) == 128 * pow128(0));
                }
                assert(pow128(k) == 128 * pow128(k1));
            }
        }
    } else {
        assert(e.drop_first() == Seq::<u8>::empty());
        assert(varint_value(e) == e[0] % 128 + 128 * varint_value(e.drop_first()));
    }
}

proof fn lemma_end_found(s: Seq<u8>, i: nat, k: nat)
    requires
        i <= k < MAX_VARINT_LEN,
        k < s.len(),
        s[k as int] < 128,
        forall|j: int| i <= j < k ==> s[j] >= 128,
    ensures
        varint_end(s, i) == Some(k),
    decreases k - i,
{
    if i < k {
        lemma_end_found(s, i + 1, k);
    }
}

proof fn lemma_end_none(s: Seq<u8>, i: nat)
    requires
        forall|j: int| i <= j < s.len() ==> s[j] >= 128,
    ensures
        varint_end(s, i) == None::<nat>,
    decreases MAX_VARINT_LEN - i,
{
    if i < MAX_VARINT_LEN && i < s.len() {
        lemma_end_none(s, i + 1);
    }
}

/// Decoding the encoding of any `u32`, whatever follows it, gives back the
/// value and the length of its encoding.
pub proof fn lemma_varint_round_trip(v: u32, rest: Seq<u8>)
    ensures
        varint_encoding(v as nat).len() <= MAX_VARINT_LEN,
        varint_decoding(varint_encoding(v as nat) + rest) == Ok::<(u32, usize), ProtocolError>(
            (v, varint_encoding(v as nat).len() as usize),
        ),
{
    let e = varint_encoding(v as nat);
    reveal_with_fuel(pow128, 6);
    lemma_encoding_shape(v as nat, 5);
    let s = e + rest;
    let k = (e.len() - 1) as nat;
    lemma_end_found(s, 0, k);
    assert(s.take(k + 1 as int) == e);
}

/// Every proper prefix of an encoding ends too early to be decoded.
pub proof fn lemma_varint_prefix_incomplete(v: u32, n: nat)
    requires
        n < varint_encoding(v as nat).len(),
    ensures
        varint_decoding(varint_encoding(v as nat).take(n as int)) == Err::<(u32, usize), ProtocolError>(
            ProtocolError::UnexpectedEof,
        ),
{
    let e = varint_encoding(v as nat);
    reveal_with_fuel(pow128, 6);
    lemma_encoding_shape(v as nat, 5);
    lemma_end_none(e.take(n as int), 0);
}

} // verus!

verus! {

/// Five leading bytes that all carry the continuation bit make the VarInt
/// malformed, whatever follows them.
pub proof fn lemma_overlong_varint(s: Seq<u8>)
    requires
        s.len() >= MAX_VARINT_LEN,
        forall|i: int| 0 <= i < MAX_VARINT_LEN ==> s[i] >= 128,
    ensures
        varint_decoding(s) == Err::<(u32, usize), ProtocolError>(ProtocolError::MalformedVarInt),
{
    lemma_end_none(s.take(MAX_VARINT_LEN as int), 0);
    assert(varint_end(s, 0) == varint_end(s.take(MAX_VARINT_LEN as int), 0)) by {
        reveal_with_fuel(varint_end, 6);
    }
}

} // verus!
