//! Message bodies as lists of fields.
//!
//! Every message body is a fixed list of fields, each a little-endian integer, a
//! length-prefixed string or a length-prefixed buffer. A body is encoded by
//! concatenating its fields and decoded against a layout, the list of field kinds
//! the message expects. Decoding a layout finds the one field list of that layout
//! whose encoding starts the input, whatever follows it.
use vstd::prelude::*;

use crate::buffer::{lemma_varbuf_prefix_unique, varbuf_bytes, varbuf_fits, NowVarBuf};
use crate::error::PduError;
use crate::guid::{guid_text_ok, NowGuid};
use crate::string::{
    lemma_varstr_bytes_starts, lemma_varstr_starts_unique, varstr_bytes, varstr_fits, varstr_starts,
    NowVarStr,
};
use crate::wire::{
    is_prefix, lemma_prefix_concat, lemma_rest_advance, lemma_u16_le_injective,
    lemma_u32_le_injective, lemma_u64_le_injective, put_u16, put_u32, put_u64, read_u16, read_u32,
    read_u64, rest, u16_le, u32_le, u64_le,
};

verus! {

/// The kind of a field in a layout.
#[derive(Debug, Clone, Copy, PartialEq, Eq)]
pub enum FieldKind {
    U16,
    U32,
    U64,
    Str,
    Buf,
    Guid,
}

/// The value of a field.
#[derive(Debug)]
pub enum Field {
    U16(u16),
    U32(u32),
    U64(u64),
    Str(NowVarStr),
    Buf(NowVarBuf),
    Guid(NowGuid),
}

/// The mathematical value of a field.
pub enum FieldView {
    U16(u16),
    U32(u32),
    U64(u64),
    Str(Seq<char>),
    Buf(Seq<u8>),
    Guid(Seq<char>),
}

impl View for Field {
    type V = FieldView;

    open spec fn view(&self) -> FieldView {
        match self {
            Field::U16(v) => FieldView::U16(*v),
            Field::U32(v) => FieldView::U32(*v),
            Field::U64(v) => FieldView::U64(*v),
            Field::Str(s) => FieldView::Str(s@),
            Field::Buf(b) => FieldView::Buf(b@),
            Field::Guid(g) => FieldView::Guid(g@),
        }
    }
}

/// The views of a list of fields.
pub open spec fn views(fs: Seq<Field>) -> Seq<FieldView> {
    fs.map_values(|f: Field| f@)
}

pub open spec fn field_kind(f: FieldView) -> FieldKind {
    match f {
        FieldView::U16(_) => FieldKind::U16,
        FieldView::U32(_) => FieldKind::U32,
        FieldView::U64(_) => FieldKind::U64,
        FieldView::Str(_) => FieldKind::Str,
        FieldView::Buf(_) => FieldKind::Buf,
        FieldView::Guid(_) => FieldKind::Guid,
    }
}

/// A string or buffer field is short enough for its length prefix.
pub open spec fn field_fits(f: FieldView) -> bool {
    match f {
        FieldView::Str(s) => varstr_fits(s),
        FieldView::Buf(b) => varbuf_fits(b),
        FieldView::Guid(t) => guid_text_ok(t),
        _ => true,
    }
}

/// Wire form of a field.
pub open spec fn field_bytes(f: FieldView) -> Seq<u8> {
    match f {
        FieldView::U16(v) => u16_le(v),
        FieldView::U32(v) => u32_le(v),
        FieldView::U64(v) => u64_le(v),
        FieldView::Str(s) => varstr_bytes(s),
        FieldView::Buf(b) => varbuf_bytes(b),
        FieldView::Guid(t) => varstr_bytes(t),
    }
}

/// `s` begins with the wire form of `f`; a string's terminator may hold any value.
pub open spec fn field_starts(f: FieldView, s: Seq<u8>) -> bool {
    match f {
        FieldView::Str(t) => varstr_starts(t, s),
        FieldView::Guid(t) => varstr_starts(t, s),
        _ => is_prefix(field_bytes(f), s),
    }
}

/// Wire form of a field list: the fields one after the other.
pub open spec fn fields_bytes(fs: Seq<FieldView>) -> Seq<u8>
    decreases fs.len(),
{
    if fs.len() == 0 {
        Seq::empty()
    } else {
        fields_bytes(fs.drop_last()) + field_bytes(fs.last())
    }
}

/// `s` begins with the wire forms of the fields of `fs`, one after the other.
pub open spec fn fields_start(fs: Seq<FieldView>, s: Seq<u8>) -> bool
    decreases fs.len(),
{
    if fs.len() == 0 {
        true
    } else {
        fields_start(fs.drop_last(), s) && fields_bytes(fs.drop_last()).len() <= s.len()
            && field_starts(fs.last(), s.subrange(fields_bytes(fs.drop_last()).len() as int, s.len() as int))
    }
}

/// `fs` follows the layout `kinds` and each of its fields fits its length prefix.
pub open spec fn fields_shape(kinds: Seq<FieldKind>, fs: Seq<FieldView>) -> bool {
    &&& fs.len() == kinds.len()
    &&& forall|i: int| 0 <= i < fs.len() ==> field_kind(#[trigger] fs[i]) == kinds[i]
    &&& forall|i: int| 0 <= i < fs.len() ==> field_fits(#[trigger] fs[i])
}

pub proof fn lemma_fields_bytes_push(fs: Seq<FieldView>, f: FieldView)
    ensures
        fields_bytes(fs.push(f)) == fields_bytes(fs) + field_bytes(f),
{
    assert(fs.push(f).drop_last() =~= fs);
}

pub proof fn lemma_fields_start_push(fs: Seq<FieldView>, f: FieldView, s: Seq<u8>)
    ensures
        fields_start(fs.push(f), s) == (fields_start(fs, s) && fields_bytes(fs).len() <= s.len()
            && field_starts(f, s.subrange(fields_bytes(fs).len() as int, s.len() as int))),
{
    assert(fs.push(f).drop_last() =~= fs);
}

/// A field's wire form starts the bytes that begin with it.
pub proof fn lemma_field_prefix_starts(f: FieldView, s: Seq<u8>)
    requires
        is_prefix(field_bytes(f), s),
    ensures
        field_starts(f, s),
{
    if let FieldView::Str(t) = f {
        lemma_varstr_bytes_starts(t, s);
    }
    if let FieldView::Guid(t) = f {
        lemma_varstr_bytes_starts(t, s);
    }
}

/// A field that starts some bytes fits in them.
pub proof fn lemma_field_starts_len(f: FieldView, s: Seq<u8>)
    requires
        field_starts(f, s),
    ensures
        field_bytes(f).len() <= s.len(),
{
}

/// Field lists that start some bytes fit in them.
pub proof fn lemma_fields_start_len(fs: Seq<FieldView>, s: Seq<u8>)
    requires
        fields_start(fs, s),
    ensures
        fields_bytes(fs).len() <= s.len(),
    decreases fs.len(),
{
    if fs.len() > 0 {
        lemma_fields_start_len(fs.drop_last(), s);
        let k = fields_bytes(fs.drop_last()).len() as int;
        lemma_field_starts_len(fs.last(), s.subrange(k, s.len() as int));
    }
}

/// The wire form of a field list starts the bytes that begin with it.
pub proof fn lemma_fields_prefix_starts(fs: Seq<FieldView>, s: Seq<u8>)
    requires
        is_prefix(fields_bytes(fs), s),
    ensures
        fields_start(fs, s),
    decreases fs.len(),
{
    if fs.len() > 0 {
        let a = fields_bytes(fs.drop_last());
        let b = field_bytes(fs.last());
        lemma_prefix_concat(a, b, s);
        lemma_fields_prefix_starts(fs.drop_last(), s);
        lemma_field_prefix_starts(fs.last(), s.subrange(a.len() as int, s.len() as int));
    }
}

/// The first fields of a list that starts some bytes start them too.
pub proof fn lemma_fields_start_take(fs: Seq<FieldView>, s: Seq<u8>, j: int)
    requires
        fields_start(fs, s),
        0 <= j <= fs.len(),
    ensures
        fields_start(fs.subrange(0, j), s),
    decreases fs.len(),
{
    if j == fs.len() {
        assert(fs.subrange(0, j) =~= fs);
    } else {
        lemma_fields_start_take(fs.drop_last(), s, j);
        assert(fs.drop_last().subrange(0, j) =~= fs.subrange(0, j));
    }
}

/// Two fields of one kind that start the same bytes are equal.
pub proof fn lemma_field_starts_unique(a: FieldView, b: FieldView, s: Seq<u8>)
    requires
        field_kind(a) == field_kind(b),
        field_fits(a),
        field_fits(b),
        field_starts(a, s),
        field_starts(b, s),
    ensures
        a == b,
{
    match a {
        FieldView::U16(x) => {
            let y = b->U16_0;
            assert(u16_le(x) == s.subrange(0, 2));
            assert(u16_le(y) == s.subrange(0, 2));
            lemma_u16_le_injective(x, y);
        },
        FieldView::U32(x) => {
            let y = b->U32_0;
            assert(u32_le(x) == s.subrange(0, 4));
            assert(u32_le(y) == s.subrange(0, 4));
            lemma_u32_le_injective(x, y);
        },
        FieldView::U64(x) => {
            let y = b->U64_0;
            assert(u64_le(x) == s.subrange(0, 8));
            assert(u64_le(y) == s.subrange(0, 8));
            lemma_u64_le_injective(x, y);
        },
        FieldView::Str(x) => {
            lemma_varstr_starts_unique(x, b->Str_0, s);
        },
        FieldView::Buf(x) => {
            lemma_varbuf_prefix_unique(x, b->Buf_0, s);
        },
        FieldView::Guid(x) => {
            lemma_varstr_starts_unique(x, b->Guid_0, s);
        },
    }
}

/// Two field lists of one layout that start the same bytes are equal.
pub proof fn lemma_fields_start_unique(kinds: Seq<FieldKind>, a: Seq<FieldView>, b: Seq<FieldView>, s: Seq<u8>)
    requires
        fields_shape(kinds, a),
        fields_shape(kinds, b),
        fields_start(a, s),
        fields_start(b, s),
    ensures
        a == b,
    decreases a.len(),
{
    if a.len() > 0 {
        let n = a.len() - 1;
        assert(fields_shape(kinds.drop_last(), a.drop_last()));
        assert(fields_shape(kinds.drop_last(), b.drop_last()));
        lemma_fields_start_unique(kinds.drop_last(), a.drop_last(), b.drop_last(), s);
        let k = fields_bytes(a.drop_last()).len() as int;
        assert(field_kind(a[n]) == kinds[n] && field_kind(b[n]) == kinds[n]);
        assert(field_fits(a[n]) && field_fits(b[n]));
        lemma_field_starts_unique(a.last(), b.last(), s.subrange(k, s.len() as int));
        assert(a =~= b.drop_last().push(b.last()));
        assert(b =~= b.drop_last().push(b.last()));
    } else {
        assert(a =~= b);
    }
}

impl Field {
    /// A field of the same value.
    pub fn duplicate(&self) -> (r: Field)
        ensures
            r@ == self@,
    {
        match self {
            Field::U16(v) => Field::U16(*v),
            Field::U32(v) => Field::U32(*v),
            Field::U64(v) => Field::U64(*v),
            Field::Str(s) => Field::Str(s.duplicate()),
            Field::Buf(b) => Field::Buf(b.duplicate()),
            Field::Guid(g) => Field::Guid(g.duplicate()),
        }
    }

    /// Number of bytes [`Field::encode`] writes.
    pub fn size(&self) -> (r: usize)
        ensures
            r == field_bytes(self@).len(),
            field_fits(self@),
    {
        match self {
            Field::U16(_) => 2,
            Field::U32(_) => 4,
            Field::U64(_) => 8,
            Field::Str(s) => s.size(),
            Field::Buf(b) => b.size(),
            Field::Guid(g) => g.text().size(),
        }
    }

    /// Appends the wire form.
    pub fn encode(&self, out: &mut Vec<u8>)
        ensures
            final(out)@ == old(out)@ + field_bytes(self@),
            field_fits(self@),
    {
        match self {
            Field::U16(v) => put_u16(out, *v),
            Field::U32(v) => put_u32(out, *v),
            Field::U64(v) => put_u64(out, *v),
            Field::Str(s) => s.encode(out),
            Field::Buf(b) => b.encode(out),
            Field::Guid(g) => g.text().encode(out),
        }
    }

    /// Decodes a field of kind `kind` at `pos`, giving it and the position after it.
    pub fn decode(kind: FieldKind, buf: &[u8], pos: usize) -> (r: Result<(Field, usize), PduError>)
        requires
            pos <= buf.len(),
        ensures
            r matches Ok((f, end)) ==> field_kind(f@) == kind && field_fits(f@) && end == pos
                + field_bytes(f@).len() && end <= buf.len() && field_starts(f@, rest(buf@, pos as int)),
            r is Err ==> forall|g: FieldView|
                field_kind(g) == kind
                    && field_fits(g) ==> !#[trigger] field_starts(g, rest(buf@, pos as int)),
    {
        let ghost s = rest(buf@, pos as int);
        match kind {
            FieldKind::U16 => {
                match read_u16(buf, pos) {
                    Ok(v) => {
                        proof {
                            lemma_rest_advance(buf@, pos as int, 2);
                        }
                        Ok((Field::U16(v), pos + 2))
                    },
                    Err(e) => Err(e),
                }
            },
            FieldKind::U32 => {
                match read_u32(buf, pos) {
                    Ok(v) => {
                        proof {
                            lemma_rest_advance(buf@, pos as int, 4);
                        }
                        Ok((Field::U32(v), pos + 4))
                    },
                    Err(e) => Err(e),
                }
            },
            FieldKind::U64 => {
                match read_u64(buf, pos) {
                    Ok(v) => {
                        proof {
                            lemma_rest_advance(buf@, pos as int, 8);
                        }
                        Ok((Field::U64(v), pos + 8))
                    },
                    Err(e) => Err(e),
                }
            },
            FieldKind::Str => {
                match NowVarStr::decode(buf, pos) {
                    Ok((v, end)) => Ok((Field::Str(v), end)),
                    Err(e) => Err(e),
                }
            },
            FieldKind::Guid => {
                match NowVarStr::decode(buf, pos) {
                    Ok((v, end)) => {
                        let ghost text = v@;
                        match NowGuid::from_text(v) {
                            Ok(g) => Ok((Field::Guid(g), end)),
                            Err(e) => {
                                proof {
                                    assert forall|g: FieldView|
                                        field_kind(g) == kind
                                            && field_fits(g) implies !#[trigger] field_starts(
                                        g,
                                        rest(buf@, pos as int),
                                    ) by {
                                        if field_starts(g, rest(buf@, pos as int)) {
                                            lemma_varstr_starts_unique(g->Guid_0, text, rest(buf@, pos as int));
                                        }
                                    }
                                }
                                Err(e)
                            },
                        }
                    },
                    Err(e) => Err(e),
                }
            },
            FieldKind::Buf => {
                match NowVarBuf::decode(buf, pos) {
                    Ok((v, end)) => {
                        proof {
                            lemma_rest_advance(buf@, pos as int, end - pos);
                        }
                        Ok((Field::Buf(v), end))
                    },
                    Err(e) => Err(e),
                }
            },
        }
    }
}

/// The `u16` at index `i` of a field list.
pub fn get_u16(fs: &Vec<Field>, i: usize) -> (r: u16)
    requires
        i < fs@.len(),
        field_kind(views(fs@)[i as int]) == FieldKind::U16,
    ensures
        views(fs@)[i as int] == FieldView::U16(r),
{
    assert(views(fs@)[i as int] == fs@[i as int]@);
    match &fs[i] {
        Field::U16(v) => *v,
        _ => 0,
    }
}

/// The `u32` at index `i` of a field list.
pub fn get_u32(fs: &Vec<Field>, i: usize) -> (r: u32)
    requires
        i < fs@.len(),
        field_kind(views(fs@)[i as int]) == FieldKind::U32,
    ensures
        views(fs@)[i as int] == FieldView::U32(r),
{
    assert(views(fs@)[i as int] == fs@[i as int]@);
    match &fs[i] {
        Field::U32(v) => *v,
        _ => 0,
    }
}

/// The `u64` at index `i` of a field list.
pub fn get_u64(fs: &Vec<Field>, i: usize) -> (r: u64)
    requires
        i < fs@.len(),
        field_kind(views(fs@)[i as int]) == FieldKind::U64,
    ensures
        views(fs@)[i as int] == FieldView::U64(r),
{
    assert(views(fs@)[i as int] == fs@[i as int]@);
    match &fs[i] {
        Field::U64(v) => *v,
        _ => 0,
    }
}

/// The string at index `i` of a field list.
pub fn get_str(fs: &Vec<Field>, i: usize) -> (r: NowVarStr)
    requires
        i < fs@.len(),
        field_kind(views(fs@)[i as int]) == FieldKind::Str,
    ensures
        views(fs@)[i as int] == FieldView::Str(r@),
{
    assert(views(fs@)[i as int] == fs@[i as int]@);
    match &fs[i] {
        Field::Str(v) => v.duplicate(),
        _ => NowVarStr::empty(),
    }
}

/// The buffer at index `i` of a field list.
pub fn get_buf(fs: &Vec<Field>, i: usize) -> (r: NowVarBuf)
    requires
        i < fs@.len(),
        field_kind(views(fs@)[i as int]) == FieldKind::Buf,
    ensures
        views(fs@)[i as int] == FieldView::Buf(r@),
{
    assert(views(fs@)[i as int] == fs@[i as int]@);
    match &fs[i] {
        Field::Buf(v) => v.duplicate(),
        _ => NowVarBuf::empty(),
    }
}

/// The GUID at index `i` of a field list.
pub fn get_guid(fs: &Vec<Field>, i: usize) -> (r: Result<NowGuid, PduError>)
    requires
        i < fs@.len(),
        field_kind(views(fs@)[i as int]) == FieldKind::Guid,
    ensures
        r matches Ok(g) ==> views(fs@)[i as int] == FieldView::Guid(g@),
        field_fits(views(fs@)[i as int]) ==> r is Ok,
{
    assert(views(fs@)[i as int] == fs@[i as int]@);
    match &fs[i] {
        Field::Guid(v) => Ok(v.duplicate()),
        _ => Err(PduError::invalid_field("NOW_GUID", "invalid UUID format")),
    }
}

/// Number of bytes [`encode_fields`] writes, or `InvalidField` when that sum
/// overflows `usize`.
pub fn fields_size(fields: &Vec<Field>) -> (r: Result<usize, PduError>)
    ensures
        r matches Ok(n) ==> n == fields_bytes(views(fields@)).len(),
        r is Err <==> fields_bytes(views(fields@)).len() > usize::MAX,
        r matches Err(e) ==> e is InvalidField,
{
    let mut total: usize = 0;
    let mut i: usize = 0;
    while i < fields.len()
        invariant
            i <= fields.len(),
            total == fields_bytes(views(fields@.subrange(0, i as int))).len(),
        decreases fields.len() - i,
    {
        let n = fields[i].size();
        proof {
            assert(views(fields@.subrange(0, i + 1)) =~= views(fields@.subrange(0, i as int)).push(
                fields@[i as int]@,
            ));
            lemma_fields_bytes_push(views(fields@.subrange(0, i as int)), fields@[i as int]@);
        }
        match total.checked_add(n) {
            Some(t) => total = t,
            None => {
                proof {
                    lemma_fields_bytes_grow(views(fields@), i as int + 1);
                    assert(views(fields@).subrange(0, i + 1) =~= views(fields@.subrange(0, i + 1)));
                }
                return Err(PduError::invalid_field("size", "message size overflow"));
            },
        }
        i = i + 1;
    }
    assert(fields@.subrange(0, i as int) =~= fields@);
    Ok(total)
}

/// A field list is at least as long on the wire as any of its first parts.
pub proof fn lemma_fields_bytes_grow(fs: Seq<FieldView>, j: int)
    requires
        0 <= j <= fs.len(),
    ensures
        fields_bytes(fs.subrange(0, j)).len() <= fields_bytes(fs).len(),
    decreases fs.len(),
{
    if j < fs.len() {
        lemma_fields_bytes_grow(fs.drop_last(), j);
        assert(fs.drop_last().subrange(0, j) =~= fs.subrange(0, j));
    } else {
        assert(fs.subrange(0, j) =~= fs);
    }
}

/// Appends the wire forms of the fields, one after the other.
pub fn encode_fields(fields: &Vec<Field>, out: &mut Vec<u8>)
    ensures
        final(out)@ == old(out)@ + fields_bytes(views(fields@)),
        forall|i: int| 0 <= i < fields@.len() ==> field_fits(#[trigger] fields@[i]@),
{
    let mut i: usize = 0;
    while i < fields.len()
        invariant
            i <= fields.len(),
            out@ == old(out)@ + fields_bytes(views(fields@.subrange(0, i as int))),
            forall|j: int| 0 <= j < i ==> field_fits(#[trigger] fields@[j]@),
        decreases fields.len() - i,
    {
        fields[i].encode(out);
        proof {
            assert(views(fields@.subrange(0, i + 1)) =~= views(fields@.subrange(0, i as int)).push(
                fields@[i as int]@,
            ));
            lemma_fields_bytes_push(views(fields@.subrange(0, i as int)), fields@[i as int]@);
        }
        i = i + 1;
        assert(out@ =~= old(out)@ + fields_bytes(views(fields@.subrange(0, i as int))));
    }
    assert(fields@.subrange(0, i as int) =~= fields@);
}

/// Decodes the fields of layout `kinds` at `pos`, giving them and the position
/// after the last one.
///
/// When some field list of that layout starts the input, that list is the result.
pub fn decode_fields(kinds: &[FieldKind], buf: &[u8], pos: usize) -> (r: Result<(Vec<Field>, usize), PduError>)
    requires
        pos <= buf.len(),
    ensures
        r matches Ok((fs, end)) ==> fields_shape(kinds@, views(fs@)) && end == pos + fields_bytes(
            views(fs@),
        ).len() && end <= buf.len() && fields_start(views(fs@), rest(buf@, pos as int)),
        forall|fs0: Seq<FieldView>|
            #![trigger fields_shape(kinds@, fs0)]
            fields_shape(kinds@, fs0) && fields_start(fs0, rest(buf@, pos as int)) ==> (r matches Ok(
                (fs, end),
            ) && views(fs@) == fs0),
{
    let ghost s = rest(buf@, pos as int);
    let mut out: Vec<Field> = Vec::new();
    let mut p: usize = pos;
    let mut i: usize = 0;
    while i < kinds.len()
        invariant
            pos <= p <= buf.len(),
            i <= kinds.len(),
            out@.len() == i,
            s == rest(buf@, pos as int),
            forall|j: int| 0 <= j < i ==> field_kind(#[trigger] out@[j]@) == kinds@[j]
                && field_fits(out@[j]@),
            p == pos + fields_bytes(views(out@)).len(),
            fields_start(views(out@), s),
            forall|fs0: Seq<FieldView>|
                #![trigger fields_shape(kinds@, fs0)]
                fields_shape(kinds@, fs0) && fields_start(fs0, s) ==> fs0.subrange(0, i as int)
                    == views(out@),
        decreases kinds.len() - i,
    {
        let ghost before = views(out@);
        proof {
            lemma_rest_advance(buf@, pos as int, p - pos);
        }
        match Field::decode(kinds[i], buf, p) {
            Ok((f, end)) => {
                out.push(f);
                proof {
                    assert(views(out@) =~= before.push(f@));
                    lemma_fields_bytes_push(before, f@);
                    lemma_fields_start_push(before, f@, s);
                    assert forall|fs0: Seq<FieldView>|
                        #![trigger fields_shape(kinds@, fs0)]
                        fields_shape(kinds@, fs0) && fields_start(fs0, s) implies fs0.subrange(
                        0,
                        i + 1,
                    ) == views(out@) by {
                        lemma_fields_start_take(fs0, s, i + 1);
                        let t = fs0.subrange(0, i + 1);
                        assert(t.drop_last() =~= fs0.subrange(0, i as int));
                        assert(fs0[i as int] == t.last());
                        assert(field_kind(fs0[i as int]) == kinds@[i as int]);
                        assert(field_fits(fs0[i as int]));
                        lemma_field_starts_unique(fs0[i as int], f@, rest(buf@, p as int));
                        assert(t =~= before.push(f@));
                    }
                }
                p = end;
            },
            Err(e) => {
                proof {
                    assert forall|fs0: Seq<FieldView>|
                        #![trigger fields_shape(kinds@, fs0)]
                        fields_shape(kinds@, fs0) implies !fields_start(fs0, s) by {
                        if fields_start(fs0, s) {
                            lemma_fields_start_take(fs0, s, i + 1);
                            let t = fs0.subrange(0, i + 1);
                            assert(t.drop_last() =~= fs0.subrange(0, i as int));
                            assert(field_kind(fs0[i as int]) == kinds@[i as int]);
                            assert(field_fits(fs0[i as int]));
                            assert(field_starts(fs0[i as int], rest(buf@, p as int)));
                        }
                    }
                }
                return Err(e);
            },
        }
        i = i + 1;
    }
    proof {
        assert forall|fs0: Seq<FieldView>|
            #![trigger fields_shape(kinds@, fs0)]
            fields_shape(kinds@, fs0) && fields_start(fs0, s) implies views(out@) == fs0 by {
            assert(fs0.subrange(0, i as int) =~= fs0);
        }
        assert(fields_shape(kinds@, views(out@)));
    }
    Ok((out, p))
}

/// Decoding a layout on the wire form of a field list of that layout, followed by
/// anything, gives that list back.
pub proof fn lemma_fields_round_trip(kinds: Seq<FieldKind>, fs: Seq<FieldView>, tail: Seq<u8>)
    requires
        fields_shape(kinds, fs),
    ensures
        fields_start(fs, fields_bytes(fs) + tail),
        forall|gs: Seq<FieldView>|
            fields_shape(kinds, gs) && fields_start(gs, fields_bytes(fs) + tail) ==> gs == fs,
{
    let s = fields_bytes(fs) + tail;
    assert(s.subrange(0, fields_bytes(fs).len() as int) =~= fields_bytes(fs));
    lemma_fields_prefix_starts(fs, s);
    assert forall|gs: Seq<FieldView>|
        fields_shape(kinds, gs) && fields_start(gs, s) implies gs == fs by {
        lemma_fields_start_unique(kinds, gs, fs, s);
    }
}

} // verus!
