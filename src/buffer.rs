//! Length-prefixed byte buffers.
use vstd::prelude::*;

use crate::error::PduError;
use crate::number::{
    lemma_varu32_bytes, lemma_varu32_prefix_unique, put_varu32, read_varu32, varu32_bytes,
    varu32_size, VAR_U32_MAX,
};
use crate::wire::{is_prefix, lemma_prefix_concat, lemma_rest_advance, put_bytes, read_bytes, rest};

verus! {

/// `b` is short enough for a length prefix.
pub open spec fn varbuf_fits(b: Seq<u8>) -> bool {
    b.len() <= VAR_U32_MAX
}

/// Wire form of `b`: its length, then its bytes.
pub open spec fn varbuf_bytes(b: Seq<u8>) -> Seq<u8> {
    varu32_bytes(b.len() as u32) + b
}

/// Any two buffers whose wire forms are prefixes of the same bytes are equal.
pub proof fn lemma_varbuf_prefix_unique(a: Seq<u8>, b: Seq<u8>, s: Seq<u8>)
    requires
        varbuf_fits(a),
        varbuf_fits(b),
        is_prefix(varbuf_bytes(a), s),
        is_prefix(varbuf_bytes(b), s),
    ensures
        a == b,
{
    let la = a.len() as u32;
    let lb = b.len() as u32;
    lemma_prefix_concat(varu32_bytes(la), a, s);
    lemma_prefix_concat(varu32_bytes(lb), b, s);
    lemma_varu32_prefix_unique(la, lb, s);
    lemma_varu32_bytes(la);
    let k = varu32_bytes(la).len() as int;
    let t = s.subrange(k, s.len() as int);
    assert(a =~= t.subrange(0, la as int));
    assert(b =~= t.subrange(0, la as int));
}

/// A byte buffer whose length fits a length prefix.
#[derive(Debug)]
pub struct NowVarBuf {
    value: Vec<u8>,
}

impl View for NowVarBuf {
    type V = Seq<u8>;

    closed spec fn view(&self) -> Seq<u8> {
        self.value@
    }
}

impl NowVarBuf {
    #[verifier::type_invariant]
    spec fn inv(self) -> bool {
        varbuf_fits(self.value@)
    }

    /// Wraps `value`; fails with `InvalidField` when it is longer than
    /// `VarU32::MAX` bytes.
    pub fn new(value: Vec<u8>) -> (r: Result<NowVarBuf, PduError>)
        ensures
            r is Ok <==> varbuf_fits(value@),
            r matches Ok(b) ==> b@ == value@,
            r matches Err(e) ==> e is InvalidField,
    {
        if value.len() > VAR_U32_MAX as usize {
            return Err(PduError::invalid_field("data", "too large buffer"));
        }
        Ok(NowVarBuf { value })
    }

    /// The bytes.
    pub fn value(&self) -> (r: &[u8])
        ensures
            r@ == self@,
            varbuf_fits(self@),
    {
        proof {
            use_type_invariant(self);
        }
        self.value.as_slice()
    }

    /// The empty buffer.
    pub fn empty() -> (r: NowVarBuf)
        ensures
            r@ == Seq::<u8>::empty(),
    {
        NowVarBuf { value: Vec::new() }
    }

    /// A buffer of the same bytes.
    pub fn duplicate(&self) -> (r: NowVarBuf)
        ensures
            r@ == self@,
            varbuf_fits(self@),
    {
        proof {
            use_type_invariant(self);
        }
        NowVarBuf { value: self.value.clone() }
    }

    /// A copy of the bytes.
    pub fn to_vec(&self) -> (r: Vec<u8>)
        ensures
            r@ == self@,
    {
        self.value.clone()
    }

    /// Number of bytes [`NowVarBuf::encode`] writes.
    pub fn size(&self) -> (r: usize)
        ensures
            r == varbuf_bytes(self@).len(),
            varbuf_fits(self@),
    {
        proof {
            use_type_invariant(self);
            lemma_varu32_bytes(self.value@.len() as u32);
        }
        varu32_size(self.value.len() as u32) + self.value.len()
    }

    /// Appends the wire form.
    pub fn encode(&self, out: &mut Vec<u8>)
        ensures
            final(out)@ == old(out)@ + varbuf_bytes(self@),
            varbuf_fits(self@),
    {
        proof {
            use_type_invariant(self);
        }
        put_varu32(out, self.value.len() as u32);
        put_bytes(out, self.value.as_slice());
        assert(final(out)@ =~= old(out)@ + varbuf_bytes(self@));
    }

    /// Decodes the buffer at `pos`, giving it and the position after it.
    ///
    /// Fails with `NotEnoughBytes` on a short input and with `InvalidField` on a
    /// non-minimal length prefix.
    pub fn decode(buf: &[u8], pos: usize) -> (r: Result<(NowVarBuf, usize), PduError>)
        requires
            pos <= buf.len(),
        ensures
            r matches Ok((v, end)) ==> end == pos + varbuf_bytes(v@).len() && end <= buf.len()
                && buf@.subrange(pos as int, end as int) == varbuf_bytes(v@) && varbuf_fits(v@),
            r is Err <==> (forall|t: Seq<u8>|
                varbuf_fits(t) ==> !is_prefix(#[trigger] varbuf_bytes(t), rest(buf@, pos as int))),
            r matches Err(e) ==> e is NotEnoughBytes || e is InvalidField,
    {
        let ghost s = rest(buf@, pos as int);
        let (n, p1) = match read_varu32(buf, pos) {
            Ok(x) => x,
            Err(e) => {
                assert forall|t: Seq<u8>| varbuf_fits(t) implies !is_prefix(
                    #[trigger] varbuf_bytes(t),
                    s,
                ) by {
                    if is_prefix(varbuf_bytes(t), s) {
                        lemma_prefix_concat(varu32_bytes(t.len() as u32), t, s);
                    }
                }
                return Err(e);
            },
        };
        let ghost k = p1 - pos;
        proof {
            lemma_rest_advance(buf@, pos as int, k);
        }
        assert forall|t: Seq<u8>| varbuf_fits(t) && is_prefix(#[trigger] varbuf_bytes(t), s) implies
            t.len() == n && p1 + n <= buf.len() by {
            let l = t.len() as u32;
            lemma_prefix_concat(varu32_bytes(l), t, s);
            lemma_varu32_prefix_unique(l, n, s);
            lemma_varu32_bytes(l);
        }
        let bytes = read_bytes(buf, p1, n as usize)?;
        let end = p1 + n as usize;
        proof {
            lemma_varu32_bytes(n);
            assert(buf@.subrange(pos as int, end as int) =~= varbuf_bytes(bytes@));
            assert(s.subrange(0, (end - pos) as int) =~= varbuf_bytes(bytes@));
        }
        Ok((NowVarBuf { value: bytes }, end))
    }
}

} // verus!
