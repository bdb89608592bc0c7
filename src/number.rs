//! Variable-length unsigned integers.
//!
//! A value in `[0, 0x3FFFFFFF]` takes one to four bytes. The top two bits of the
//! first byte hold the byte count less one; the remaining bits hold the value, most
//! significant first. Encoding always picks the shortest form, and decoding rejects
//! any other: every value has exactly one encoding, so a decoder and an encoder agree
//! byte for byte.
use vstd::prelude::*;

use crate::error::PduError;
use crate::wire::{is_prefix, read_u8, ensure_left, rest};

verus! {

/// Largest value a variable-length integer can hold.
pub const VAR_U32_MAX: u32 = 0x3FFF_FFFF;

/// The canonical encoding of `v`.
pub open spec fn varu32_bytes(v: u32) -> Seq<u8> {
    if v <= 0x3F {
        seq![v as u8]
    } else if v <= 0x3FFF {
        seq![(0x40u32 | (v >> 8u32)) as u8, (v & 0xff) as u8]
    } else if v <= 0x3F_FFFF {
        seq![(0x80u32 | (v >> 16u32)) as u8, ((v >> 8u32) & 0xff) as u8, (v & 0xff) as u8]
    } else {
        seq![
            (0xC0u32 | (v >> 24u32)) as u8,
            ((v >> 16u32) & 0xff) as u8,
            ((v >> 8u32) & 0xff) as u8,
            (v & 0xff) as u8,
        ]
    }
}

/// Number of bytes the canonical encoding of `v` takes.
pub open spec fn varu32_len(v: u32) -> nat {
    if v <= 0x3F {
        1
    } else if v <= 0x3FFF {
        2
    } else if v <= 0x3F_FFFF {
        3
    } else {
        4
    }
}

/// Byte count announced by a first byte.
pub open spec fn announced_len(first: u8) -> nat {
    ((first >> 6u8) + 1) as nat
}

/// The value that the bytes `b` (of the announced count) spell.
pub open spec fn varu32_value(b: Seq<u8>) -> u32 {
    let h = (b[0] & 0x3f) as u32;
    if b.len() == 1 {
        h
    } else if b.len() == 2 {
        (h << 8u32) | (b[1] as u32)
    } else if b.len() == 3 {
        (h << 16u32) | ((b[1] as u32) << 8u32) | (b[2] as u32)
    } else {
        (h << 24u32) | ((b[1] as u32) << 16u32) | ((b[2] as u32) << 8u32) | (b[3] as u32)
    }
}

proof fn lemma_bytes_1(v: u32)
    by (bit_vector)
    requires
        v <= 0x3F,
    ensures
        ((v as u8) >> 6u8) == 0,
        ((v as u8) & 0x3f) as u32 == v,
{
}

proof fn lemma_bytes_2(v: u32)
    by (bit_vector)
    requires
        0x40 <= v <= 0x3FFF,
    ensures
        (((0x40u32 | (v >> 8u32)) as u8) >> 6u8) == 1,
        ((((0x40u32 | (v >> 8u32)) as u8) & 0x3f) as u32) << 8u32 | (((v & 0xff) as u8) as u32)
            == v,
{
}

proof fn lemma_bytes_3(v: u32)
    by (bit_vector)
    requires
        0x4000 <= v <= 0x3F_FFFF,
    ensures
        (((0x80u32 | (v >> 16u32)) as u8) >> 6u8) == 2,
        ((((0x80u32 | (v >> 16u32)) as u8) & 0x3f) as u32) << 16u32 | ((((v >> 8u32) & 0xff) as u8)
            as u32) << 8u32 | (((v & 0xff) as u8) as u32) == v,
{
}

proof fn lemma_bytes_4(v: u32)
    by (bit_vector)
    requires
        0x40_0000 <= v <= 0x3FFF_FFFF,
    ensures
        (((0xC0u32 | (v >> 24u32)) as u8) >> 6u8) == 3,
        ((((0xC0u32 | (v >> 24u32)) as u8) & 0x3f) as u32) << 24u32 | ((((v >> 16u32) & 0xff) as u8)
            as u32) << 16u32 | ((((v >> 8u32) & 0xff) as u8) as u32) << 8u32 | (((v & 0xff) as u8)
            as u32) == v,
{
}

/// The canonical encoding announces its own length and spells its value.
pub proof fn lemma_varu32_bytes(v: u32)
    requires
        v <= VAR_U32_MAX,
    ensures
        varu32_bytes(v).len() == varu32_len(v),
        announced_len(varu32_bytes(v)[0]) == varu32_len(v),
        varu32_value(varu32_bytes(v)) == v,
{
    if v <= 0x3F {
        lemma_bytes_1(v);
    } else if v <= 0x3FFF {
        lemma_bytes_2(v);
    } else if v <= 0x3F_FFFF {
        lemma_bytes_3(v);
    } else {
        lemma_bytes_4(v);
    }
}

proof fn lemma_spell_2(h: u8, b1: u8)
    by (bit_vector)
    requires
        h >> 6u8 == 1,
        0x40 <= (((h & 0x3f) as u32) << 8u32 | (b1 as u32)),
    ensures
        ({
            let v = ((h & 0x3f) as u32) << 8u32 | (b1 as u32);
            &&& v <= 0x3FFF
            &&& (0x40u32 | (v >> 8u32)) as u8 == h
            &&& (v & 0xff) as u8 == b1
        }),
{
}

proof fn lemma_spell_3(h: u8, b1: u8, b2: u8)
    by (bit_vector)
    requires
        h >> 6u8 == 2,
        0x4000 <= (((h & 0x3f) as u32) << 16u32 | (b1 as u32) << 8u32 | (b2 as u32)),
    ensures
        ({
            let v = ((h & 0x3f) as u32) << 16u32 | (b1 as u32) << 8u32 | (b2 as u32);
            &&& v <= 0x3F_FFFF
            &&& (0x80u32 | (v >> 16u32)) as u8 == h
            &&& ((v >> 8u32) & 0xff) as u8 == b1
            &&& (v & 0xff) as u8 == b2
        }),
{
}

proof fn lemma_spell_4(h: u8, b1: u8, b2: u8, b3: u8)
    by (bit_vector)
    requires
        h >> 6u8 == 3,
        0x40_0000 <= (((h & 0x3f) as u32) << 24u32 | (b1 as u32) << 16u32 | (b2 as u32) << 8u32
            | (b3 as u32)),
    ensures
        ({
            let v = ((h & 0x3f) as u32) << 24u32 | (b1 as u32) << 16u32 | (b2 as u32) << 8u32 | (
            b3 as u32);
            &&& v <= 0x3FFF_FFFF
            &&& (0xC0u32 | (v >> 24u32)) as u8 == h
            &&& ((v >> 16u32) & 0xff) as u8 == b1
            &&& ((v >> 8u32) & 0xff) as u8 == b2
            &&& (v & 0xff) as u8 == b3
        }),
{
}

proof fn lemma_first_byte_bounds(h: u8)
    by (bit_vector)
    ensures
        (h >> 6u8) <= 3,
        (h >> 6u8) == 0 ==> h <= 0x3F && (h & 0x3f) == h,
{
}

/// No two values share a prefix-compatible encoding.
pub proof fn lemma_varu32_prefix_unique(a: u32, b: u32, s: Seq<u8>)
    requires
        a <= VAR_U32_MAX,
        b <= VAR_U32_MAX,
        is_prefix(varu32_bytes(a), s),
        is_prefix(varu32_bytes(b), s),
    ensures
        a == b,
{
    lemma_varu32_bytes(a);
    lemma_varu32_bytes(b);
    assert(varu32_bytes(a)[0] == s[0]);
    assert(varu32_bytes(b)[0] == s[0]);
    assert(varu32_bytes(a) == varu32_bytes(b));
}

/// A variable-length integer.
///
/// Holds a value in `[0, VarU32::MAX]`.
#[derive(Debug, Clone, Copy, PartialEq, Eq)]
pub struct VarU32 {
    value: u32,
}

impl View for VarU32 {
    type V = u32;

    closed spec fn view(&self) -> u32 {
        self.value
    }
}

impl VarU32 {
    pub const MIN: u32 = 0;

    pub const MAX: u32 = 0x3FFF_FFFF;

    #[verifier::type_invariant]
    spec fn inv(self) -> bool {
        self.value <= VAR_U32_MAX
    }

    /// Wraps `value`; fails for a value above [`VarU32::MAX`].
    pub fn new(value: u32) -> (r: Result<VarU32, PduError>)
        ensures
            r is Ok <==> value <= VAR_U32_MAX,
            r matches Ok(n) ==> n@ == value,
            r matches Err(e) ==> e is InvalidField,
    {
        if value > Self::MAX {
            return Err(PduError::invalid_field("value", "too large number"));
        }
        Ok(VarU32 { value })
    }

    /// The wrapped value.
    pub fn value(&self) -> (r: u32)
        ensures
            r == self@,
            r <= VAR_U32_MAX,
    {
        proof {
            use_type_invariant(self);
        }
        self.value
    }

    /// Number of bytes [`VarU32::encode`] writes.
    pub fn size(&self) -> (r: usize)
        ensures
            r == varu32_len(self@),
            r == varu32_bytes(self@).len(),
    {
        proof {
            use_type_invariant(self);
            lemma_varu32_bytes(self.value);
        }
        varu32_size(self.value)
    }

    /// Appends the canonical encoding.
    pub fn encode(&self, out: &mut Vec<u8>)
        ensures
            final(out)@ == old(out)@ + varu32_bytes(self@),
    {
        proof {
            use_type_invariant(self);
        }
        put_varu32(out, self.value);
    }

    /// Decodes the integer at `pos`, giving it and the position after it.
    ///
    /// Fails with `NotEnoughBytes` when the input ends early and with `InvalidField`
    /// when the bytes are not the shortest encoding of their value.
    pub fn decode(buf: &[u8], pos: usize) -> (r: Result<(VarU32, usize), PduError>)
        requires
            pos <= buf.len(),
        ensures
            r matches Ok((n, end)) ==> end == pos + varu32_len(n@) && end <= buf.len()
                && buf@.subrange(pos as int, end as int) == varu32_bytes(n@),
            r is Err <==> (forall|v: u32|
                v <= VAR_U32_MAX ==> !is_prefix(#[trigger] varu32_bytes(v), rest(buf@, pos as int))),
    {
        let (v, end) = read_varu32(buf, pos)?;
        Ok((VarU32 { value: v }, end))
    }
}

/// Number of bytes the canonical encoding of `v` takes.
pub fn varu32_size(v: u32) -> (r: usize)
    ensures
        r == varu32_len(v),
{
    if v <= 0x3F {
        1
    } else if v <= 0x3FFF {
        2
    } else if v <= 0x3F_FFFF {
        3
    } else {
        4
    }
}

/// Appends the canonical encoding of `v`.
pub fn put_varu32(out: &mut Vec<u8>, v: u32)
    requires
        v <= VAR_U32_MAX,
    ensures
        final(out)@ == old(out)@ + varu32_bytes(v),
{
    if v <= 0x3F {
        out.push(v as u8);
    } else if v <= 0x3FFF {
        out.push((0x40u32 | (v >> 8u32)) as u8);
        out.push((v & 0xff) as u8);
    } else if v <= 0x3F_FFFF {
        out.push((0x80u32 | (v >> 16u32)) as u8);
        out.push(((v >> 8u32) & 0xff) as u8);
        out.push((v & 0xff) as u8);
    } else {
        out.push((0xC0u32 | (v >> 24u32)) as u8);
        out.push(((v >> 16u32) & 0xff) as u8);
        out.push(((v >> 8u32) & 0xff) as u8);
        out.push((v & 0xff) as u8);
    }
    assert(final(out)@ =~= old(out)@ + varu32_bytes(v));
}

/// Reads a canonical variable-length integer at `pos`: its value and the position
/// after it.
pub fn read_varu32(buf: &[u8], pos: usize) -> (r: Result<(u32, usize), PduError>)
    requires
        pos <= buf.len(),
    ensures
        r matches Ok((v, end)) ==> v <= VAR_U32_MAX && end == pos + varu32_len(v) && end
            <= buf.len() && buf@.subrange(pos as int, end as int) == varu32_bytes(v),
        r is Err <==> (forall|v: u32|
            v <= VAR_U32_MAX ==> !is_prefix(#[trigger] varu32_bytes(v), rest(buf@, pos as int))),
        r matches Err(e) ==> e is NotEnoughBytes || e is InvalidField,
{
    let ghost s = rest(buf@, pos as int);
    let h = match read_u8(buf, pos) {
        Ok(h) => h,
        Err(e) => {
            assert forall|v: u32| v <= VAR_U32_MAX implies !is_prefix(
                #[trigger] varu32_bytes(v),
                s,
            ) by {
                lemma_varu32_bytes(v);
            }
            return Err(e);
        },
    };
    proof {
        lemma_first_byte_bounds(h);
    }
    let c: usize = (h >> 6u8) as usize;
    let ghost n = c + 1;
    // Any encoding that fits here starts with `h`, so it has `n` bytes and spells
    // the value of the first `n` bytes.
    assert forall|v: u32| v <= VAR_U32_MAX && is_prefix(#[trigger] varu32_bytes(v), s) implies
        varu32_len(v) == n && pos + n <= buf.len() && varu32_value(
            buf@.subrange(pos as int, pos + n),
        ) == v by {
        lemma_varu32_bytes(v);
        assert(varu32_bytes(v)[0] == h);
        assert(buf@.subrange(pos as int, pos + n) =~= varu32_bytes(v));
    }
    if c == 0 {
        let v = (h & 0x3f) as u32;
        proof {
            lemma_varu32_bytes(v);
        }
        assert(buf@.subrange(pos as int, pos + 1) =~= varu32_bytes(v));
        assert(s.subrange(0, 1) =~= varu32_bytes(v));
        assert(is_prefix(varu32_bytes(v), s));
        return Ok((v, pos + 1));
    }
    if let Err(e) = ensure_left(buf, pos + 1, c) {
        return Err(e);
    }
    let hv = (h & 0x3f) as u32;
    let v: u32;
    let b1 = buf[pos + 1];
    if c == 1 {
        v = (hv << 8u32) | (b1 as u32);
        assert(varu32_value(buf@.subrange(pos as int, pos + 2)) == v);
        if v < 0x40 {
            return Err(PduError::invalid_field("value", "non-minimal encoding"));
        }
        proof {
            lemma_spell_2(h, b1);
        }
    } else if c == 2 {
        let b2 = buf[pos + 2];
        v = (hv << 16u32) | ((b1 as u32) << 8u32) | (b2 as u32);
        assert(varu32_value(buf@.subrange(pos as int, pos + 3)) == v);
        if v < 0x4000 {
            return Err(PduError::invalid_field("value", "non-minimal encoding"));
        }
        proof {
            lemma_spell_3(h, b1, b2);
        }
    } else {
        let b2 = buf[pos + 2];
        let b3 = buf[pos + 3];
        v = (hv << 24u32) | ((b1 as u32) << 16u32) | ((b2 as u32) << 8u32) | (b3 as u32);
        assert(varu32_value(buf@.subrange(pos as int, pos + 4)) == v);
        if v < 0x40_0000 {
            return Err(PduError::invalid_field("value", "non-minimal encoding"));
        }
        proof {
            lemma_spell_4(h, b1, b2, b3);
        }
    }
    assert(buf@.subrange(pos as int, pos + c + 1) =~= varu32_bytes(v));
    assert(s.subrange(0, n) =~= varu32_bytes(v));
    assert(is_prefix(varu32_bytes(v), s));
    Ok((v, pos + c + 1))
}

} // verus!
