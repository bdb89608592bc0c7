//! The fixed message header and frame boundaries.
use vstd::prelude::*;
use vstd::slice::slice_subrange;

use crate::error::PduError;
use crate::field::{
    decode_fields, encode_fields, fields_bytes, fields_shape, fields_size, fields_start,
    lemma_fields_prefix_starts, views, Field, FieldKind, FieldView,
};
use crate::wire::{
    ensure_left, is_prefix, lemma_prefix_concat, lemma_u16_le_injective, rest,
    lemma_u32_le_injective, put_u16, put_u32, read_u16, read_u32, read_u8, u16_le, u32_le,
};

verus! {

/// Message family tag.
#[derive(Debug, Clone, Copy, PartialEq, Eq)]
pub struct NowMessageClass(pub u8);

pub const CLASS_CHANNEL: u8 = 0x10;

pub const CLASS_SYSTEM: u8 = 0x11;

pub const CLASS_SESSION: u8 = 0x12;

pub const CLASS_EXEC: u8 = 0x13;

pub const CLASS_RDM: u8 = 0x14;

impl NowMessageClass {
    pub const CHANNEL: u8 = CLASS_CHANNEL;

    pub const SYSTEM: u8 = CLASS_SYSTEM;

    pub const SESSION: u8 = CLASS_SESSION;

    pub const EXEC: u8 = CLASS_EXEC;

    pub const RDM: u8 = CLASS_RDM;
}

/// The 8-byte header in front of every message body.
#[derive(Debug, Clone, Copy, PartialEq, Eq)]
pub struct NowHeader {
    /// Body length in bytes, header excluded.
    pub size: u32,
    pub class: u8,
    pub kind: u8,
    /// Kind-specific flags.
    pub flags: u16,
}

/// Wire form of a header: size (u32 LE), class, kind, flags (u16 LE).
pub open spec fn header_bytes(h: NowHeader) -> Seq<u8> {
    u32_le(h.size) + seq![h.class, h.kind] + u16_le(h.flags)
}

/// What a message is on the wire: its class, its kind, its header flags and its
/// body fields.
pub struct WireView {
    pub class: u8,
    pub kind: u8,
    pub flags: u16,
    pub fields: Seq<FieldView>,
}

/// A frame of message `w` whose body is `body`: a header announcing the body's
/// length, then the body.
pub open spec fn framed(w: WireView, body: Seq<u8>) -> Seq<u8> {
    header_bytes(framed_header(w, body.len())) + body
}

/// The header of a frame of `w` with a body of `n` bytes.
pub open spec fn framed_header(w: WireView, n: nat) -> NowHeader {
    NowHeader { size: n as u32, class: w.class, kind: w.kind, flags: w.flags }
}

/// The whole frame of a message: header, then body fields.
pub open spec fn frame_bytes(w: WireView) -> Seq<u8> {
    framed(w, fields_bytes(w.fields))
}

/// `body` holds the fields of `w` followed by any bytes, and fits a header.
pub open spec fn body_extends(w: WireView, body: Seq<u8>) -> bool {
    is_prefix(fields_bytes(w.fields), body) && body.len() <= u32::MAX
}

/// The body of `w` fits the header's size field.
pub open spec fn frame_fits(w: WireView) -> bool {
    fields_bytes(w.fields).len() <= u32::MAX
}

/// Two headers with the same wire form are equal.
pub proof fn lemma_header_bytes_injective(a: NowHeader, b: NowHeader)
    requires
        header_bytes(a) == header_bytes(b),
    ensures
        a == b,
{
    assert(u32_le(a.size) =~= header_bytes(a).subrange(0, 4));
    assert(u32_le(b.size) =~= header_bytes(b).subrange(0, 4));
    assert(u16_le(a.flags) =~= header_bytes(a).subrange(6, 8));
    assert(u16_le(b.flags) =~= header_bytes(b).subrange(6, 8));
    assert(header_bytes(a)[4] == a.class && header_bytes(b)[4] == b.class);
    assert(header_bytes(a)[5] == a.kind && header_bytes(b)[5] == b.kind);
    lemma_u32_le_injective(a.size, b.size);
    lemma_u16_le_injective(a.flags, b.flags);
}

impl NowHeader {
    pub const FIXED_PART_SIZE: usize = 8;

    /// Appends the wire form.
    pub fn encode(&self, out: &mut Vec<u8>)
        ensures
            final(out)@ == old(out)@ + header_bytes(*self),
    {
        put_u32(out, self.size);
        out.push(self.class);
        out.push(self.kind);
        put_u16(out, self.flags);
        assert(final(out)@ =~= old(out)@ + header_bytes(*self));
    }

    /// Decodes the header at the start of `buf`; fails with `NotEnoughBytes` when
    /// `buf` is shorter than a header.
    pub fn decode(buf: &[u8]) -> (r: Result<NowHeader, PduError>)
        ensures
            r is Ok <==> buf.len() >= 8,
            r matches Ok(h) ==> buf@.subrange(0, 8) == header_bytes(h),
            r matches Err(e) ==> e is NotEnoughBytes,
    {
        ensure_left(buf, 0, 8)?;
        let size = read_u32(buf, 0)?;
        let class = read_u8(buf, 4)?;
        let kind = read_u8(buf, 5)?;
        let flags = read_u16(buf, 6)?;
        let h = NowHeader { size, class, kind, flags };
        assert(buf@.subrange(0, 8) =~= buf@.subrange(0, 4) + seq![class, kind] + buf@.subrange(6, 8));
        Ok(h)
    }
}

/// Writes a whole frame: a header whose size is the body length, then the fields.
///
/// Fails with `InvalidField` before writing anything when the body length does not
/// fit the header's `u32` size field.
pub fn encode_frame(class: u8, kind: u8, flags: u16, fields: &Vec<Field>) -> (r: Result<Vec<u8>, PduError>)
    ensures
        r is Ok <==> fields_bytes(views(fields@)).len() <= u32::MAX,
        r matches Ok(b) ==> b@ == frame_bytes(
            WireView { class, kind, flags, fields: views(fields@) },
        ),
        r matches Err(e) ==> e is InvalidField,
{
    let size = fields_size(fields)?;
    if size > u32::MAX as usize {
        return Err(PduError::invalid_field("size", "message size overflow"));
    }
    let mut out: Vec<u8> = Vec::new();
    let h = NowHeader { size: size as u32, class, kind, flags };
    h.encode(&mut out);
    encode_fields(fields, &mut out);
    Ok(out)
}

/// Number of bytes of a frame with body fields `fields`; `InvalidField` when the
/// body does not fit the header's `u32` size field.
pub fn frame_size(fields: &Vec<Field>) -> (r: Result<usize, PduError>)
    ensures
        r is Ok <==> fields_bytes(views(fields@)).len() <= u32::MAX && 8 + fields_bytes(
            views(fields@),
        ).len() <= usize::MAX,
        r matches Ok(n) ==> n == 8 + fields_bytes(views(fields@)).len(),
        r matches Err(e) ==> e is InvalidField,
{
    let size = fields_size(fields)?;
    if size > u32::MAX as usize {
        return Err(PduError::invalid_field("size", "message size overflow"));
    }
    match size.checked_add(8) {
        Some(n) => Ok(n),
        None => Err(PduError::invalid_field("size", "message size overflow")),
    }
}


/// A frame is its 8-byte header and its body.
pub proof fn lemma_frame_len(w: WireView)
    ensures
        frame_bytes(w).len() == 8 + fields_bytes(w.fields).len(),
{
}

/// Splits a frame: its header and exactly its `size` body bytes.
///
/// The body is isolated from what follows, so a body decoder never reads past it
/// and trailing fields that it does not know are left unread.
pub fn split_frame(buf: &[u8]) -> (r: Result<(NowHeader, &[u8]), PduError>)
    ensures
        r matches Ok((h, body)) ==> 8 + h.size <= buf.len() && buf@.subrange(0, 8) == header_bytes(h)
            && body@ == buf@.subrange(8, 8 + h.size),
        forall|h: NowHeader|
            is_prefix(#[trigger] header_bytes(h), buf@) && 8 + h.size <= buf.len() ==> (r matches Ok(
                (g, body),
            ) && g == h),
        r matches Err(e) ==> e is NotEnoughBytes,
{
    let h = NowHeader::decode(buf)?;
    proof {
        assert forall|g: NowHeader| is_prefix(#[trigger] header_bytes(g), buf@) implies g == h by {
            lemma_header_bytes_injective(g, h);
        }
    }
    ensure_left(buf, 8, h.size as usize)?;
    let body = slice_subrange(buf, 8, 8 + h.size as usize);
    Ok((h, body))
}

/// Checks that the frame at the start of `buf` has class `class` and kind `kind`,
/// and isolates its body: the header flags, and exactly the `size` body bytes.
///
/// Fails with `InvalidField` when the header names another message type, and with
/// `NotEnoughBytes` when the header or the body is cut short.
pub fn split_typed(buf: &[u8], class: u8, kind: u8) -> (r: Result<(u16, &[u8]), PduError>)
    ensures
        buf.len() >= 8 && (buf@[4] != class || buf@[5] != kind) ==> (r matches Err(e) && e is InvalidField),
        forall|w: WireView, body: Seq<u8>|
            w.class == class && w.kind == kind && body.len() <= u32::MAX && is_prefix(
                #[trigger] framed(w, body),
                buf@,
            ) ==> (r matches Ok((flags, b)) && flags == w.flags && b@ == body),
{
    if buf.len() >= 8 && (buf[4] != class || buf[5] != kind) {
        proof {
            assert forall|w: WireView, body: Seq<u8>|
                w.class == class && w.kind == kind && body.len() <= u32::MAX && is_prefix(
                    #[trigger] framed(w, body),
                    buf@,
                ) implies false by {
                lemma_frame_tag(w, body, buf@);
            }
        }
        return Err(PduError::invalid_field("type", "invalid message type"));
    }
    let (h, body_slice) = match split_frame(buf) {
        Ok(x) => x,
        Err(e) => {
            proof {
                assert forall|w: WireView, body: Seq<u8>|
                    w.class == class && w.kind == kind && body.len() <= u32::MAX && is_prefix(
                        #[trigger] framed(w, body),
                        buf@,
                    ) implies false by {
                    lemma_framed_prefix(w, body, buf@);
                }
            }
            return Err(e);
        },
    };
    proof {
        assert(h.class == buf@.subrange(0, 8)[4] && h.kind == buf@.subrange(0, 8)[5]);
        assert forall|w: WireView, body: Seq<u8>|
            w.class == class && w.kind == kind && body.len() <= u32::MAX && is_prefix(
                #[trigger] framed(w, body),
                buf@,
            ) implies h.flags == w.flags && body_slice@ == body by {
            lemma_framed_prefix(w, body, buf@);
            lemma_header_bytes_injective(h, framed_header(w, body.len()));
            assert(body_slice@ =~= body);
        }
    }
    Ok((h.flags, body_slice))
}

/// Decodes the fields of layout `layout` at the start of a body.
///
/// When the body begins with the fields of some list of that layout, whatever
/// follows them, that list is the result.
pub fn decode_body_fields(body: &[u8], layout: &Vec<FieldKind>) -> (r: Result<Vec<Field>, PduError>)
    ensures
        r matches Ok(fs) ==> fields_shape(layout@, views(fs@)) && fields_start(views(fs@), body@),
        forall|fs0: Seq<FieldView>|
            fields_shape(layout@, fs0) && is_prefix(#[trigger] fields_bytes(fs0), body@) ==> (r matches Ok(fs)
                && views(fs@) == fs0),
{
    let ghost bv = body@;
    proof {
        assert(rest(bv, 0) =~= bv);
        assert forall|fs0: Seq<FieldView>|
            fields_shape(layout@, fs0) && is_prefix(#[trigger] fields_bytes(fs0), bv) implies fields_start(
            fs0,
            rest(bv, 0),
        ) by {
            lemma_fields_prefix_starts(fs0, bv);
        }
    }
    let (fs, _end) = decode_fields(layout.as_slice(), body, 0)?;
    Ok(fs)
}

/// Bytes that begin with a frame begin with its header, and hold its body right
/// after the header.
pub proof fn lemma_framed_prefix(w: WireView, body: Seq<u8>, s: Seq<u8>)
    requires
        body.len() <= u32::MAX,
        is_prefix(framed(w, body), s),
    ensures
        is_prefix(header_bytes(framed_header(w, body.len())), s),
        8 + body.len() <= s.len(),
        s.subrange(8, 8 + body.len() as int) == body,
{
    let hb = header_bytes(framed_header(w, body.len()));
    assert(hb.len() == 8);
    lemma_prefix_concat(hb, body, s);
    assert(s.subrange(8, 8 + body.len() as int) =~= s.subrange(8, s.len() as int).subrange(0, body.len() as int));
}

/// Bytes that begin with a frame hold its class and kind at offsets 4 and 5.
pub proof fn lemma_frame_tag(w: WireView, body: Seq<u8>, s: Seq<u8>)
    requires
        is_prefix(framed(w, body), s),
    ensures
        s.len() >= 8,
        s[4] == w.class,
        s[5] == w.kind,
{
    assert(framed(w, body)[4] == w.class);
    assert(framed(w, body)[5] == w.kind);
    assert(s[4] == s.subrange(0, framed(w, body).len() as int)[4]);
    assert(s[5] == s.subrange(0, framed(w, body).len() as int)[5]);
}


} // verus!
