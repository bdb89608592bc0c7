//! Round-trip laws of the codec, stated over the spec functions that the
//! encoders' and decoders' contracts use.
use vstd::prelude::*;

use crate::buffer::{lemma_varbuf_prefix_unique, varbuf_bytes, varbuf_fits};
use crate::field::{
    fields_bytes, fields_shape, fields_start, lemma_fields_round_trip, FieldKind, FieldView,
};
use crate::header::{body_extends, frame_bytes, framed};
use crate::message::NowMessage;
use crate::number::{
    lemma_varu32_bytes, lemma_varu32_prefix_unique, varu32_bytes, varu32_len, varu32_value,
    VAR_U32_MAX,
};
use crate::string::{
    lemma_varstr_bytes_starts, lemma_varstr_starts_unique, varstr_bytes, varstr_fits, varstr_starts,
};
use crate::wire::is_prefix;

verus! {

/// `b` is a prefix of `b` followed by anything.
proof fn lemma_prefix_of_concat(b: Seq<u8>, tail: Seq<u8>)
    ensures
        is_prefix(b, b + tail),
{
    assert((b + tail).subrange(0, b.len() as int) =~= b);
}

/// A variable-length integer's encoding has the announced length, spells its
/// value, and no other value's encoding starts the same bytes: decoding it,
/// whatever follows, gives the value back (see `VarU32::decode`).
pub proof fn lemma_varu32_round_trip(v: u32, tail: Seq<u8>)
    requires
        v <= VAR_U32_MAX,
    ensures
        varu32_bytes(v).len() == varu32_len(v),
        varu32_value(varu32_bytes(v)) == v,
        is_prefix(varu32_bytes(v), varu32_bytes(v) + tail),
        forall|w: u32|
            w <= VAR_U32_MAX && is_prefix(#[trigger] varu32_bytes(w), varu32_bytes(v) + tail) ==> w == v,
{
    lemma_varu32_bytes(v);
    lemma_prefix_of_concat(varu32_bytes(v), tail);
    assert forall|w: u32| w <= VAR_U32_MAX
        && is_prefix(#[trigger] varu32_bytes(w), varu32_bytes(v) + tail) implies w
        == v by {
        lemma_varu32_prefix_unique(w, v, varu32_bytes(v) + tail);
    }
}

/// A string's wire form, whatever follows, starts with that string and with no
/// other: decoding it gives the string back (see `NowVarStr::decode`).
pub proof fn lemma_varstr_round_trip(s: Seq<char>, tail: Seq<u8>)
    requires
        varstr_fits(s),
    ensures
        varstr_starts(s, varstr_bytes(s) + tail),
        forall|t: Seq<char>| varstr_fits(t) && #[trigger] varstr_starts(t, varstr_bytes(s) + tail) ==> t == s,
{
    lemma_prefix_of_concat(varstr_bytes(s), tail);
    lemma_varstr_bytes_starts(s, varstr_bytes(s) + tail);
    assert forall|t: Seq<char>| varstr_fits(t)
        && #[trigger] varstr_starts(t, varstr_bytes(s) + tail) implies t
        == s by {
        lemma_varstr_starts_unique(t, s, varstr_bytes(s) + tail);
    }
}

/// A buffer's wire form, whatever follows, starts with that buffer and with no
/// other: decoding it gives the buffer back (see `NowVarBuf::decode`).
pub proof fn lemma_varbuf_round_trip(b: Seq<u8>, tail: Seq<u8>)
    requires
        varbuf_fits(b),
    ensures
        is_prefix(varbuf_bytes(b), varbuf_bytes(b) + tail),
        forall|c: Seq<u8>| varbuf_fits(c)
            && is_prefix(#[trigger] varbuf_bytes(c), varbuf_bytes(b) + tail) ==> c == b,
{
    lemma_prefix_of_concat(varbuf_bytes(b), tail);
    assert forall|c: Seq<u8>| varbuf_fits(c) && is_prefix(#[trigger] varbuf_bytes(c), varbuf_bytes(b) + tail)
        implies c == b by {
        lemma_varbuf_prefix_unique(c, b, varbuf_bytes(b) + tail);
    }
}

/// A body that holds a field list followed by any bytes starts with that list and
/// with no other list of the same layout: a body decoder reads the fields it knows
/// and ignores what a later protocol version appended.
pub proof fn lemma_body_round_trip(kinds: Seq<FieldKind>, fs: Seq<FieldView>, extra: Seq<u8>)
    requires
        fields_shape(kinds, fs),
    ensures
        fields_start(fs, fields_bytes(fs) + extra),
        forall|gs: Seq<FieldView>|
            fields_shape(kinds, gs) && fields_start(gs, fields_bytes(fs) + extra) ==> gs == fs,
{
    lemma_fields_round_trip(kinds, fs, extra);
}

/// Every well-formed message, framed with its body fields followed by any bytes
/// and followed itself by any bytes, is an input on which `NowMessage::decode`
/// returns that message; with nothing added to the body, the frame is exactly what
/// `NowMessage::encode` writes, and `encode` ensures the message is well formed.
pub proof fn lemma_message_round_trip(m: NowMessage, extra: Seq<u8>, tail: Seq<u8>)
    requires
        m.wire_ok(),
        fields_bytes(m@.fields).len() + extra.len() <= u32::MAX,
    ensures
        body_extends(m@, fields_bytes(m@.fields) + extra),
        is_prefix(framed(m@, fields_bytes(m@.fields) + extra), framed(m@, fields_bytes(m@.fields) + extra) + tail),
        extra.len() == 0 ==> framed(m@, fields_bytes(m@.fields) + extra) == frame_bytes(m@),
{
    let body = fields_bytes(m@.fields) + extra;
    lemma_prefix_of_concat(fields_bytes(m@.fields), extra);
    lemma_prefix_of_concat(framed(m@, body), tail);
    if extra.len() == 0 {
        assert(body =~= fields_bytes(m@.fields));
    }
}

} // verus!
