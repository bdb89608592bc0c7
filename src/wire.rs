//! Fixed-width little-endian integers and bounded reads.
//!
//! A reader is a byte slice and a position in it. Every read of `n` bytes either
//! finds `n` bytes left after the position or fails with
//! [`PduError::NotEnoughBytes`]; nothing reads past the end of the slice.
use vstd::prelude::*;

use crate::error::PduError;

verus! {

/// The two bytes of `v`, least significant first.
pub open spec fn u16_le(v: u16) -> Seq<u8> {
    seq![(v & 0xff) as u8, (v >> 8u16) as u8]
}

/// The four bytes of `v`, least significant first.
pub open spec fn u32_le(v: u32) -> Seq<u8> {
    seq![(v & 0xff) as u8, ((v >> 8u32) & 0xff) as u8, ((v >> 16u32) & 0xff) as u8, (v >> 24u32) as u8]
}

/// The eight bytes of `v`, least significant first.
pub open spec fn u64_le(v: u64) -> Seq<u8> {
    u32_le((v & 0xffff_ffff) as u32) + u32_le((v >> 32u64) as u32)
}

/// `b` is a prefix of `s`.
pub open spec fn is_prefix(b: Seq<u8>, s: Seq<u8>) -> bool {
    b.len() <= s.len() && s.subrange(0, b.len() as int) == b
}

/// The bytes of `buf` from `pos` to its end.
pub open spec fn rest(buf: Seq<u8>, pos: int) -> Seq<u8> {
    buf.subrange(pos, buf.len() as int)
}

/// A prefix of a prefix, and what follows it.
pub proof fn lemma_prefix_concat(a: Seq<u8>, b: Seq<u8>, s: Seq<u8>)
    requires
        is_prefix(a + b, s),
    ensures
        is_prefix(a, s),
        is_prefix(b, s.subrange(a.len() as int, s.len() as int)),
{
    let ab = a + b;
    let whole = s.subrange(0, ab.len() as int);
    assert(whole == ab);
    assert(s.subrange(0, a.len() as int) =~= whole.subrange(0, a.len() as int));
    assert(ab.subrange(0, a.len() as int) =~= a);
    assert(s.subrange(a.len() as int, s.len() as int).subrange(0, b.len() as int) =~= whole.subrange(
        a.len() as int,
        ab.len() as int,
    ));
    assert(ab.subrange(a.len() as int, ab.len() as int) =~= b);
}

/// What follows `pos + k` is what follows the first `k` bytes after `pos`.
pub proof fn lemma_rest_advance(buf: Seq<u8>, pos: int, k: int)
    requires
        0 <= pos,
        0 <= k,
        pos + k <= buf.len(),
    ensures
        rest(buf, pos + k) == rest(buf, pos).subrange(k, rest(buf, pos).len() as int),
        buf.subrange(pos, pos + k) == rest(buf, pos).subrange(0, k),
{
    assert(rest(buf, pos + k) =~= rest(buf, pos).subrange(k, rest(buf, pos).len() as int));
    assert(buf.subrange(pos, pos + k) =~= rest(buf, pos).subrange(0, k));
}

pub proof fn lemma_u16_le_injective(a: u16, b: u16)
    requires
        u16_le(a) == u16_le(b),
    ensures
        a == b,
{
    assert(u16_le(a)[0] == u16_le(b)[0] && u16_le(a)[1] == u16_le(b)[1]);
    lemma_u16_bytes_determine(a, b);
}

proof fn lemma_u16_bytes_determine(a: u16, b: u16)
    by (bit_vector)
    requires
        (a & 0xff) as u8 == (b & 0xff) as u8,
        (a >> 8u16) as u8 == (b >> 8u16) as u8,
    ensures
        a == b,
{
}

pub proof fn lemma_u32_le_injective(a: u32, b: u32)
    requires
        u32_le(a) == u32_le(b),
    ensures
        a == b,
{
    assert(u32_le(a)[0] == u32_le(b)[0] && u32_le(a)[1] == u32_le(b)[1]);
    assert(u32_le(a)[2] == u32_le(b)[2] && u32_le(a)[3] == u32_le(b)[3]);
    lemma_u32_bytes_determine(a, b);
}

proof fn lemma_u32_bytes_determine(a: u32, b: u32)
    by (bit_vector)
    requires
        (a & 0xff) as u8 == (b & 0xff) as u8,
        ((a >> 8u32) & 0xff) as u8 == ((b >> 8u32) & 0xff) as u8,
        ((a >> 16u32) & 0xff) as u8 == ((b >> 16u32) & 0xff) as u8,
        (a >> 24u32) as u8 == (b >> 24u32) as u8,
    ensures
        a == b,
{
}

pub proof fn lemma_u64_le_injective(a: u64, b: u64)
    requires
        u64_le(a) == u64_le(b),
    ensures
        a == b,
{
    let la = u32_le((a & 0xffff_ffff) as u32);
    let ha = u32_le((a >> 32u64) as u32);
    let lb = u32_le((b & 0xffff_ffff) as u32);
    let hb = u32_le((b >> 32u64) as u32);
    assert(la == u64_le(a).subrange(0, 4));
    assert(lb == u64_le(b).subrange(0, 4));
    assert(ha == u64_le(a).subrange(4, 8));
    assert(hb == u64_le(b).subrange(4, 8));
    lemma_u32_le_injective((a & 0xffff_ffff) as u32, (b & 0xffff_ffff) as u32);
    lemma_u32_le_injective((a >> 32u64) as u32, (b >> 32u64) as u32);
    lemma_u64_halves_determine(a, b);
}

proof fn lemma_u64_halves_determine(a: u64, b: u64)
    by (bit_vector)
    requires
        (a & 0xffff_ffff) as u32 == (b & 0xffff_ffff) as u32,
        (a >> 32u64) as u32 == (b >> 32u64) as u32,
    ensures
        a == b,
{
}

proof fn lemma_u16_from_bytes(b0: u8, b1: u8)
    by (bit_vector)
    ensures
        (((b0 as u16) | ((b1 as u16) << 8u16)) & 0xff) as u8 == b0,
        (((b0 as u16) | ((b1 as u16) << 8u16)) >> 8u16) as u8 == b1,
{
}

proof fn lemma_u32_from_bytes(b0: u8, b1: u8, b2: u8, b3: u8)
    by (bit_vector)
    ensures
        ({
            let v = (b0 as u32) | ((b1 as u32) << 8u32) | ((b2 as u32) << 16u32) | ((b3 as u32)
                << 24u32);
            &&& (v & 0xff) as u8 == b0
            &&& ((v >> 8u32) & 0xff) as u8 == b1
            &&& ((v >> 16u32) & 0xff) as u8 == b2
            &&& (v >> 24u32) as u8 == b3
        }),
{
}

proof fn lemma_u64_from_halves(lo: u32, hi: u32)
    by (bit_vector)
    ensures
        (((lo as u64) | ((hi as u64) << 32u64)) & 0xffff_ffff) as u32 == lo,
        (((lo as u64) | ((hi as u64) << 32u64)) >> 32u64) as u32 == hi,
{
}

/// Appends the little-endian bytes of `v`.
pub fn put_u16(out: &mut Vec<u8>, v: u16)
    ensures
        final(out)@ == old(out)@ + u16_le(v),
{
    out.push((v & 0xff) as u8);
    out.push((v >> 8u16) as u8);
    assert(final(out)@ =~= old(out)@ + u16_le(v));
}

/// Appends the little-endian bytes of `v`.
pub fn put_u32(out: &mut Vec<u8>, v: u32)
    ensures
        final(out)@ == old(out)@ + u32_le(v),
{
    out.push((v & 0xff) as u8);
    out.push(((v >> 8u32) & 0xff) as u8);
    out.push(((v >> 16u32) & 0xff) as u8);
    out.push((v >> 24u32) as u8);
    assert(final(out)@ =~= old(out)@ + u32_le(v));
}

/// Appends the little-endian bytes of `v`.
pub fn put_u64(out: &mut Vec<u8>, v: u64)
    ensures
        final(out)@ == old(out)@ + u64_le(v),
{
    put_u32(out, (v & 0xffff_ffff) as u32);
    put_u32(out, (v >> 32u64) as u32);
    assert(final(out)@ =~= old(out)@ + u64_le(v));
}

/// Appends `bytes` as they are.
pub fn put_bytes(out: &mut Vec<u8>, bytes: &[u8])
    ensures
        final(out)@ == old(out)@ + bytes@,
{
    let mut i: usize = 0;
    while i < bytes.len()
        invariant
            i <= bytes.len(),
            out@ == old(out)@ + bytes@.subrange(0, i as int),
        decreases bytes.len() - i,
    {
        out.push(bytes[i]);
        i = i + 1;
        assert(out@ =~= old(out)@ + bytes@.subrange(0, i as int));
    }
    assert(bytes@.subrange(0, i as int) =~= bytes@);
}

/// Fails unless `n` bytes are left after `pos`.
pub fn ensure_left(buf: &[u8], pos: usize, n: usize) -> (r: Result<(), PduError>)
    requires
        pos <= buf.len(),
    ensures
        r is Ok <==> pos + n <= buf.len(),
        r matches Err(e) ==> e is NotEnoughBytes,
{
    let left = buf.len() - pos;
    if left < n {
        Err(PduError::NotEnoughBytes { received: left, expected: n })
    } else {
        Ok(())
    }
}

/// Reads one byte at `pos`.
pub fn read_u8(buf: &[u8], pos: usize) -> (r: Result<u8, PduError>)
    requires
        pos <= buf.len(),
    ensures
        r is Ok <==> pos + 1 <= buf.len(),
        r matches Ok(v) ==> v == buf@[pos as int],
        r matches Err(e) ==> e is NotEnoughBytes,
{
    ensure_left(buf, pos, 1)?;
    Ok(buf[pos])
}

/// Reads a little-endian `u16` at `pos`.
pub fn read_u16(buf: &[u8], pos: usize) -> (r: Result<u16, PduError>)
    requires
        pos <= buf.len(),
    ensures
        r is Ok <==> pos + 2 <= buf.len(),
        r matches Ok(v) ==> buf@.subrange(pos as int, pos + 2) == u16_le(v),
        r matches Err(e) ==> e is NotEnoughBytes,
{
    ensure_left(buf, pos, 2)?;
    let b0 = buf[pos];
    let b1 = buf[pos + 1];
    let v = (b0 as u16) | ((b1 as u16) << 8u16);
    proof {
        lemma_u16_from_bytes(b0, b1);
    }
    assert(buf@.subrange(pos as int, pos + 2) =~= u16_le(v));
    Ok(v)
}

/// Reads a little-endian `u32` at `pos`.
pub fn read_u32(buf: &[u8], pos: usize) -> (r: Result<u32, PduError>)
    requires
        pos <= buf.len(),
    ensures
        r is Ok <==> pos + 4 <= buf.len(),
        r matches Ok(v) ==> buf@.subrange(pos as int, pos + 4) == u32_le(v),
        r matches Err(e) ==> e is NotEnoughBytes,
{
    ensure_left(buf, pos, 4)?;
    let b0 = buf[pos];
    let b1 = buf[pos + 1];
    let b2 = buf[pos + 2];
    let b3 = buf[pos + 3];
    let v = (b0 as u32) | ((b1 as u32) << 8u32) | ((b2 as u32) << 16u32) | ((b3 as u32) << 24u32);
    proof {
        lemma_u32_from_bytes(b0, b1, b2, b3);
    }
    assert(buf@.subrange(pos as int, pos + 4) =~= u32_le(v));
    Ok(v)
}

/// Reads a little-endian `u64` at `pos`.
pub fn read_u64(buf: &[u8], pos: usize) -> (r: Result<u64, PduError>)
    requires
        pos <= buf.len(),
    ensures
        r is Ok <==> pos + 8 <= buf.len(),
        r matches Ok(v) ==> buf@.subrange(pos as int, pos + 8) == u64_le(v),
        r matches Err(e) ==> e is NotEnoughBytes,
{
    ensure_left(buf, pos, 8)?;
    let lo = read_u32(buf, pos)?;
    let hi = read_u32(buf, pos + 4)?;
    let v = (lo as u64) | ((hi as u64) << 32u64);
    proof {
        lemma_u64_from_halves(lo, hi);
    }
    assert(buf@.subrange(pos as int, pos + 8) =~= u64_le(v));
    Ok(v)
}

/// Copies the `n` bytes at `pos`.
pub fn read_bytes(buf: &[u8], pos: usize, n: usize) -> (r: Result<Vec<u8>, PduError>)
    requires
        pos <= buf.len(),
    ensures
        r is Ok <==> pos + n <= buf.len(),
        r matches Ok(v) ==> v@ == buf@.subrange(pos as int, pos + n),
        r matches Err(e) ==> e is NotEnoughBytes,
{
    ensure_left(buf, pos, n)?;
    let mut v: Vec<u8> = Vec::with_capacity(n);
    let mut i: usize = 0;
    while i < n
        invariant
            i <= n,
            pos + n <= buf.len(),
            v@ == buf@.subrange(pos as int, pos + i),
        decreases n - i,
    {
        v.push(buf[pos + i]);
        i = i + 1;
        assert(v@ =~= buf@.subrange(pos as int, pos + i));
    }
    Ok(v)
}

} // verus!
