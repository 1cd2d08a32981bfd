//! Little-endian byte-level primitives for the wire formats.
//!
//! Every record that crosses a process or kernel boundary in this crate is
//! laid out as a fixed sequence of little-endian 32-bit words plus raw byte
//! buffers.  This module gives the four-byte encoding of a word, executable
//! writers and readers proved against it, and the inversion lemmas the
//! round-trip proofs rest on.

use vstd::prelude::*;

verus! {

/// The four little-endian bytes of a 32-bit word.
pub open spec fn le4(v: u32) -> Seq<u8> {
    seq![
        (v & 0xff) as u8,
        ((v >> 8) & 0xff) as u8,
        ((v >> 16) & 0xff) as u8,
        ((v >> 24) & 0xff) as u8,
    ]
}

/// The four little-endian bytes of a signed 32-bit word (two's complement).
pub open spec fn le4i(v: i32) -> Seq<u8> {
    le4(v as u32)
}

/// A run of `n` zero bytes.
pub open spec fn zeros(n: int) -> Seq<u8> {
    Seq::new(n as nat, |i: int| 0u8)
}

/// Append the little-endian encoding of `v` to `out`.
pub fn push_u32_le(out: &mut Vec<u8>, v: u32)
    ensures
        final(out)@ == old(out)@ + le4(v),
{
    assert(v & 0xff < 0x100) by (bit_vector);
    assert((v >> 8) & 0xff < 0x100) by (bit_vector);
    assert((v >> 16) & 0xff < 0x100) by (bit_vector);
    assert((v >> 24) & 0xff < 0x100) by (bit_vector);
    out.push((v & 0xff) as u8);
    out.push(((v >> 8) & 0xff) as u8);
    out.push(((v >> 16) & 0xff) as u8);
    out.push(((v >> 24) & 0xff) as u8);
    assert(out@ =~= old(out)@ + le4(v));
}

/// Append the little-endian encoding of a signed word to `out`.
pub fn push_i32_le(out: &mut Vec<u8>, v: i32)
    ensures
        final(out)@ == old(out)@ + le4i(v),
{
    push_u32_le(out, v as u32);
}

/// Append `n` zero bytes to `out`.
pub fn push_zeros(out: &mut Vec<u8>, n: usize)
    ensures
        final(out)@ == old(out)@ + zeros(n as int),
{
    let mut i: usize = 0;
    while i < n
        invariant
            i <= n,
            out@ == old(out)@ + zeros(i as int),
        decreases n - i,
    {
        out.push(0u8);
        assert(out@ =~= old(out)@ + zeros(i + 1));
        i = i + 1;
    }
}

/// Read the 32-bit word whose little-endian bytes sit at `off`.
pub fn read_u32_le(b: &Vec<u8>, off: usize) -> (r: u32)
    requires
        off + 4 <= b@.len(),
    ensures
        le4(r) == b@.subrange(off as int, off as int + 4),
{
    let n = b.len();
    let b0 = b[off] as u32;
    let b1 = b[off + 1] as u32;
    let b2 = b[off + 2] as u32;
    let b3 = b[off + 3] as u32;
    let r = b0 | (b1 << 8) | (b2 << 16) | (b3 << 24);
    assert((b0 | (b1 << 8) | (b2 << 16) | (b3 << 24)) & 0xff == b0
        && ((b0 | (b1 << 8) | (b2 << 16) | (b3 << 24)) >> 8) & 0xff == b1
        && ((b0 | (b1 << 8) | (b2 << 16) | (b3 << 24)) >> 16) & 0xff == b2
        && ((b0 | (b1 << 8) | (b2 << 16) | (b3 << 24)) >> 24) & 0xff == b3) by (bit_vector)
        requires
            b0 < 0x100,
            b1 < 0x100,
            b2 < 0x100,
            b3 < 0x100,
    ;
    assert(le4(r) =~= b@.subrange(off as int, off as int + 4));
    r
}

/// Read the signed 32-bit word whose little-endian bytes sit at `off`.
pub fn read_i32_le(b: &Vec<u8>, off: usize) -> (r: i32)
    requires
        off + 4 <= b@.len(),
    ensures
        le4i(r) == b@.subrange(off as int, off as int + 4),
{
    let u = read_u32_le(b, off);
    let r: i32 = #[verifier::truncate] (u as i32);
    assert((u as i32) as u32 == u) by (bit_vector);
    r
}

/// Two words with the same little-endian bytes are the same word.
pub proof fn lemma_le4_injective(a: u32, b: u32)
    requires
        le4(a) == le4(b),
    ensures
        a == b,
{
    assert(le4(a)[0] == le4(b)[0]);
    assert(le4(a)[1] == le4(b)[1]);
    assert(le4(a)[2] == le4(b)[2]);
    assert(le4(a)[3] == le4(b)[3]);
    assert(a == b) by (bit_vector)
        requires
            (a & 0xff) as u8 == (b & 0xff) as u8,
            ((a >> 8) & 0xff) as u8 == ((b >> 8) & 0xff) as u8,
            ((a >> 16) & 0xff) as u8 == ((b >> 16) & 0xff) as u8,
            ((a >> 24) & 0xff) as u8 == ((b >> 24) & 0xff) as u8,
    ;
}

/// Two signed words with the same little-endian bytes are the same word.
pub proof fn lemma_le4i_injective(a: i32, b: i32)
    requires
        le4i(a) == le4i(b),
    ensures
        a == b,
{
    lemma_le4_injective(a as u32, b as u32);
    assert(a as u32 == b as u32 ==> a == b) by (bit_vector);
}

} // verus!
