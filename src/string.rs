//! Length-prefixed UTF-8 strings.
use vstd::prelude::*;
use vstd::utf8::*;
use vstd::string::*;

use crate::error::PduError;
use crate::number::{
    lemma_varu32_bytes, lemma_varu32_prefix_unique, put_varu32, read_varu32, varu32_bytes,
    VAR_U32_MAX,
};
use crate::wire::{
    is_prefix, lemma_prefix_concat, lemma_rest_advance, put_bytes, read_bytes, read_u8, rest,
};

verus! {

broadcast use encode_utf8_valid_utf8, encode_utf8_decode_utf8, decode_utf8_encode_utf8;

/// The UTF-8 bytes of `s`.
pub open spec fn utf8_of(s: Seq<char>) -> Seq<u8> {
    encode_utf8(s)
}

/// `s` is short enough for a length prefix: its UTF-8 byte length is at most
/// `VarU32::MAX`.
pub open spec fn varstr_fits(s: Seq<char>) -> bool {
    utf8_of(s).len() <= VAR_U32_MAX
}

/// Length prefix and UTF-8 bytes of `s`, without the terminator.
pub open spec fn varstr_head(s: Seq<char>) -> Seq<u8> {
    varu32_bytes(utf8_of(s).len() as u32) + utf8_of(s)
}

/// Wire form of `s`: the byte length, the UTF-8 bytes and a zero terminator.
pub open spec fn varstr_bytes(s: Seq<char>) -> Seq<u8> {
    varstr_head(s).push(0u8)
}

/// `s` begins with the wire form of `t`, up to a terminator byte of any value.
pub open spec fn varstr_starts(t: Seq<char>, s: Seq<u8>) -> bool {
    is_prefix(varstr_head(t), s) && varstr_head(t).len() < s.len()
}

/// A character takes at most four UTF-8 bytes.
pub proof fn lemma_utf8_len_bound(s: Seq<char>)
    ensures
        utf8_of(s).len() <= 4 * s.len(),
    decreases s.len(),
{
    if s.len() > 0 {
        lemma_utf8_len_bound(s.drop_first());
        assert(utf8_of(s) == encode_scalar(s[0] as u32) + utf8_of(s.drop_first()));
    }
}

/// A string of at most a thousand characters fits a length prefix.
pub proof fn lemma_short_fits(s: Seq<char>)
    requires
        s.len() <= 1000,
    ensures
        varstr_fits(s),
{
    lemma_utf8_len_bound(s);
}

/// Relies on `String::from_utf8`: it accepts exactly the well-formed UTF-8 byte
/// sequences, and the string it returns holds the characters those bytes encode.
#[verifier::external_body]
fn string_from_utf8(bytes: Vec<u8>) -> (r: Option<String>)
    ensures
        r is Some <==> valid_utf8(bytes@),
        r matches Some(s) ==> s@ == decode_utf8(bytes@),
{
    String::from_utf8(bytes).ok()
}

/// Byte length of the UTF-8 form of `s`.
pub fn utf8_len(s: &String) -> (r: usize)
    ensures
        r == utf8_of(s@).len(),
{
    s.as_str().as_bytes().len()
}

/// A string whose UTF-8 form fits a length prefix.
#[derive(Debug)]
pub struct NowVarStr {
    value: String,
}

impl View for NowVarStr {
    type V = Seq<char>;

    closed spec fn view(&self) -> Seq<char> {
        self.value@
    }
}

/// Any two strings whose wire forms start the same bytes are equal.
pub proof fn lemma_varstr_starts_unique(a: Seq<char>, b: Seq<char>, s: Seq<u8>)
    requires
        varstr_fits(a),
        varstr_fits(b),
        varstr_starts(a, s),
        varstr_starts(b, s),
    ensures
        a == b,
{
    let la = utf8_of(a).len() as u32;
    let lb = utf8_of(b).len() as u32;
    lemma_prefix_concat(varu32_bytes(la), utf8_of(a), s);
    lemma_prefix_concat(varu32_bytes(lb), utf8_of(b), s);
    lemma_varu32_prefix_unique(la, lb, s);
    lemma_varu32_bytes(la);
    let k = varu32_bytes(la).len() as int;
    let t = s.subrange(k, s.len() as int);
    assert(utf8_of(a) =~= t.subrange(0, la as int));
    assert(utf8_of(b) =~= t.subrange(0, la as int));
    assert(decode_utf8(utf8_of(a)) == a);
    assert(decode_utf8(utf8_of(b)) == b);
}

/// The wire form of `t` starts any bytes it is a prefix of.
pub proof fn lemma_varstr_bytes_starts(t: Seq<char>, s: Seq<u8>)
    requires
        is_prefix(varstr_bytes(t), s),
    ensures
        varstr_starts(t, s),
{
    let h = varstr_head(t).len() as int;
    let whole = s.subrange(0, h + 1);
    assert(whole == varstr_bytes(t));
    assert(s.subrange(0, h) =~= whole.subrange(0, h));
    assert(varstr_bytes(t).subrange(0, h) =~= varstr_head(t));
}

impl NowVarStr {
    #[verifier::type_invariant]
    spec fn inv(self) -> bool {
        varstr_fits(self.value@)
    }

    /// Wraps `value`; fails with `InvalidField` when its UTF-8 byte length exceeds
    /// `VarU32::MAX`.
    pub fn new(value: String) -> (r: Result<NowVarStr, PduError>)
        ensures
            r is Ok <==> varstr_fits(value@),
            r matches Ok(s) ==> s@ == value@,
            r matches Err(e) ==> e is InvalidField,
    {
        if utf8_len(&value) > VAR_U32_MAX as usize {
            return Err(PduError::invalid_field("string value", "too large string"));
        }
        Ok(NowVarStr { value })
    }

    /// The empty string.
    pub fn empty() -> (r: NowVarStr)
        ensures
            r@ == Seq::<char>::empty(),
    {
        proof {
            assert(utf8_of(Seq::<char>::empty()) =~= Seq::<u8>::empty());
        }
        NowVarStr { value: String::new() }
    }

    /// The characters.
    pub fn value(&self) -> (r: &str)
        ensures
            r@ == self@,
            varstr_fits(self@),
    {
        proof {
            use_type_invariant(self);
        }
        self.value.as_str()
    }

    /// True for the empty string.
    pub fn is_empty(&self) -> (r: bool)
        ensures
            r == (self@.len() == 0),
    {
        proof {
            assert(self.value@.len() == 0 <==> utf8_of(self.value@).len() == 0) by {
                if self.value@.len() != 0 {
                    assert(decode_utf8(utf8_of(self.value@)) == self.value@);
                }
            }
        }
        utf8_len(&self.value) == 0
    }

    /// A string of the same characters.
    pub fn duplicate(&self) -> (r: NowVarStr)
        ensures
            r@ == self@,
            varstr_fits(self@),
    {
        proof {
            use_type_invariant(self);
        }
        NowVarStr { value: self.value.clone() }
    }

    /// True when both strings hold the same characters.
    pub fn same_as(&self, other: &NowVarStr) -> (r: bool)
        ensures
            r == (self@ == other@),
    {
        self.value == other.value
    }

    /// The owned characters.
    pub fn to_string_value(&self) -> (r: String)
        ensures
            r@ == self@,
    {
        self.value.clone()
    }

    /// Number of bytes [`NowVarStr::encode`] writes.
    pub fn size(&self) -> (r: usize)
        ensures
            r == varstr_bytes(self@).len(),
            varstr_fits(self@),
    {
        proof {
            use_type_invariant(self);
        }
        let n = utf8_len(&self.value);
        proof {
            lemma_varu32_bytes(n as u32);
        }
        crate::number::varu32_size(n as u32) + n + 1
    }

    /// Appends the wire form.
    pub fn encode(&self, out: &mut Vec<u8>)
        ensures
            final(out)@ == old(out)@ + varstr_bytes(self@),
            varstr_fits(self@),
    {
        proof {
            use_type_invariant(self);
        }
        let n = utf8_len(&self.value);
        put_varu32(out, n as u32);
        put_bytes(out, self.value.as_str().as_bytes());
        out.push(0u8);
        assert(final(out)@ =~= old(out)@ + varstr_bytes(self@));
    }

    /// Decodes the string at `pos`, giving it and the position after its terminator.
    ///
    /// The terminator byte is consumed whatever its value. Fails with
    /// `NotEnoughBytes` on a short input and with `InvalidField` on invalid UTF-8
    /// or a non-minimal length prefix.
    pub fn decode(buf: &[u8], pos: usize) -> (r: Result<(NowVarStr, usize), PduError>)
        requires
            pos <= buf.len(),
        ensures
            r matches Ok((v, end)) ==> end == pos + varstr_bytes(v@).len() && end <= buf.len()
                && buf@.subrange(pos as int, end - 1) == varstr_head(v@) && varstr_fits(v@)
                && varstr_starts(v@, rest(buf@, pos as int)),
            r is Err <==> (forall|t: Seq<char>|
                varstr_fits(t) ==> !#[trigger] varstr_starts(t, rest(buf@, pos as int))),
            r matches Err(e) ==> e is NotEnoughBytes || e is InvalidField,
    {
        let ghost s = rest(buf@, pos as int);
        let (n, p1) = match read_varu32(buf, pos) {
            Ok(x) => x,
            Err(e) => {
                assert forall|t: Seq<char>| varstr_fits(t) implies !#[trigger] varstr_starts(t, s) by {
                    if varstr_starts(t, s) {
                        lemma_prefix_concat(varu32_bytes(utf8_of(t).len() as u32), utf8_of(t), s);
                    }
                }
                return Err(e);
            },
        };
        let ghost k = p1 - pos;
        proof {
            lemma_rest_advance(buf@, pos as int, k);
        }
        // Any string whose wire form starts here has `n` UTF-8 bytes, right after the prefix.
        assert forall|t: Seq<char>| varstr_fits(t) && #[trigger] varstr_starts(t, s) implies
            utf8_of(t).len() == n && p1 + n + 1 <= buf.len() && buf@.subrange(
            p1 as int,
            p1 + n,
        ) == utf8_of(t) by {
            let l = utf8_of(t).len() as u32;
            lemma_prefix_concat(varu32_bytes(l), utf8_of(t), s);
            lemma_varu32_prefix_unique(l, n, s);
            lemma_varu32_bytes(l);
            assert(buf@.subrange(p1 as int, p1 + n) =~= s.subrange(k, k + n));
            assert(s.subrange(k, s.len() as int).subrange(0, n as int) =~= s.subrange(k, k + n));
        }
        let bytes = read_bytes(buf, p1, n as usize)?;
        let p2 = p1 + n as usize;
        let _terminator = read_u8(buf, p2)?;
        let value = match string_from_utf8(bytes) {
            Some(v) => v,
            None => {
                return Err(PduError::invalid_field("string value", "invalid utf-8"));
            },
        };
        proof {
            assert(utf8_of(value@) == bytes@);
            lemma_varu32_bytes(n);
            assert(buf@.subrange(pos as int, p2 as int) =~= varstr_head(value@));
            assert(s.subrange(0, (p2 - pos) as int) =~= varstr_head(value@));
            assert(varstr_starts(value@, s));
        }
        Ok((NowVarStr { value }, p2 + 1))
    }
}

} // verus!
