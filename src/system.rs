//! System messages.
use vstd::prelude::*;

use crate::error::PduError;
use crate::field::{
    fields_bytes, fields_shape, fields_size, get_str, get_u32, views, Field, FieldKind, FieldView,
};
use crate::header::{
    body_extends, decode_body_fields, split_typed, encode_frame, frame_bytes, frame_fits,
    frame_size, framed, lemma_frame_len, WireView,
};
use crate::string::{varstr_fits, NowVarStr};
use crate::wire::is_prefix;

use crate::header::CLASS_SYSTEM;

verus! {

/// Kinds of the system message class.
pub struct NowSystemMessageKind;

impl NowSystemMessageKind {
    /// Shutdown.
    pub const SHUTDOWN: u8 = 0x03;

}

/// Header flags of a shutdown message.
pub struct NowSystemShutdownFlags;

impl NowSystemShutdownFlags {
    /// Close applications without asking.
    pub const FORCE: u16 = 0x0001;

    /// Restart after shutdown.
    pub const REBOOT: u16 = 0x0002;

}

/// Shuts the system down after a timeout, showing a message.
#[derive(Debug)]
pub struct NowSystemShutdownMsg {
    flags: u16,
    timeout: u32,
    message: NowVarStr,
}

impl View for NowSystemShutdownMsg {
    type V = WireView;

    closed spec fn view(&self) -> WireView {
        WireView {
            class: CLASS_SYSTEM,
            kind: NowSystemMessageKind::SHUTDOWN,
            flags: self.flags,
            fields: seq![FieldView::U32(self.timeout), FieldView::Str(self.message@)],
        }
    }
}

impl NowSystemShutdownMsg {
    /// The view names the class and kind of this message.
    pub proof fn lemma_tag(&self)
        ensures
            self@.class == CLASS_SYSTEM,
            self@.kind == NowSystemMessageKind::SHUTDOWN,
    {
    }

    /// Kinds of the body fields.
    pub open spec fn body_layout() -> Seq<FieldKind> {
        seq![FieldKind::U32, FieldKind::Str]
    }

    fn layout_vec() -> (r: Vec<FieldKind>)
        ensures
            r@ == Self::body_layout(),
    {
        let mut v: Vec<FieldKind> = Vec::new();
        v.push(FieldKind::U32);
        v.push(FieldKind::Str);
        assert(v@ =~= Self::body_layout());
        v
    }

    /// The body fields.
    pub fn to_fields(&self) -> (r: Vec<Field>)
        ensures
            views(r@) == self@.fields,
            fields_shape(Self::body_layout(), self@.fields),
    {
        let mut v: Vec<Field> = Vec::new();
        v.push(Field::U32(self.timeout));
        v.push(Field::Str(self.message.duplicate()));
        assert(views(v@) =~= self@.fields);
        assert(fields_shape(Self::body_layout(), self@.fields));
        v
    }

    /// The message of header flags `flags` and body fields `fs`.
    pub fn from_fields(flags: u16, fs: &Vec<Field>) -> (r: Result<Self, PduError>)
        requires
            fields_shape(Self::body_layout(), views(fs@)),
        ensures
            r is Ok,
            r matches Ok(m) ==> m@ == (WireView {
                class: CLASS_SYSTEM,
                kind: NowSystemMessageKind::SHUTDOWN,
                flags: flags,
                fields: views(fs@),
            }),
    {
        let n = fs.len();
        assert(n == 2);
        let timeout = get_u32(fs, 0);
        let message = get_str(fs, 1);
        let r = NowSystemShutdownMsg { flags, timeout, message };
        assert(r@.fields =~= views(fs@));
        Ok(r)
    }

    /// Number of body bytes; `InvalidField` when that count overflows `usize`.
    pub fn body_size(&self) -> (r: Result<usize, PduError>)
        ensures
            r matches Ok(n) ==> n == fields_bytes(self@.fields).len(),
            r is Err <==> fields_bytes(self@.fields).len() > usize::MAX,
            r matches Err(e) ==> e is InvalidField,
    {
        fields_size(&self.to_fields())
    }

    /// Number of bytes [`Self::encode`] writes; `InvalidField` when the body does
    /// not fit the header's size field.
    pub fn size(&self) -> (r: Result<usize, PduError>)
        ensures
            r is Ok <==> frame_fits(self@) && frame_bytes(self@).len() <= usize::MAX,
            r matches Ok(n) ==> n == frame_bytes(self@).len(),
    {
        let r = frame_size(&self.to_fields());
        proof {
            lemma_frame_len(self@);
        }
        r
    }

    /// The whole frame: header, then body.
    pub fn encode(&self) -> (r: Result<Vec<u8>, PduError>)
        ensures
            r is Ok <==> frame_fits(self@),
            r matches Ok(b) ==> b@ == frame_bytes(self@),
            fields_shape(Self::body_layout(), self@.fields),
    {
        encode_frame(CLASS_SYSTEM, NowSystemMessageKind::SHUTDOWN, self.flags, &self.to_fields())
    }

    /// Decodes a body of this message type sent with header flags `flags`. Body
    /// bytes after the known fields are ignored.
    pub fn decode_from_body(flags: u16, body: &[u8]) -> (r: Result<Self, PduError>)
        ensures
            forall|m0: Self|
                fields_shape(Self::body_layout(), m0@.fields) &&  m0@.flags == flags && is_prefix(
                    #[trigger] fields_bytes(m0@.fields),
                    body@,
                ) ==> (r matches Ok(m) && m@ == m0@),
    {
        let layout = Self::layout_vec();
        let fs = decode_body_fields(body, &layout)?;
        Self::from_fields(flags, &fs)
    }

    /// Decodes a frame of this message type: checks the header's class and kind,
    /// isolates the body the header announces, and decodes it.
    pub fn decode(buf: &[u8]) -> (r: Result<Self, PduError>)
        ensures
            buf.len() >= 8 && (buf@[4] != CLASS_SYSTEM || buf@[5] != NowSystemMessageKind::SHUTDOWN)
                ==> (r matches Err(e) && e is InvalidField),
            forall|m0: Self, body: Seq<u8>|
                fields_shape(Self::body_layout(), m0@.fields) &&  body_extends(m0@, body) && is_prefix(
                    #[trigger] framed(m0@, body),
                    buf@,
                ) ==> (r matches Ok(m) && m@ == m0@),
    {
        let (flags, body) = split_typed(buf, CLASS_SYSTEM, NowSystemMessageKind::SHUTDOWN)?;
        Self::decode_from_body(flags, body)
    }

    /// Shutdown after `timeout` seconds with `message`.
    ///
    /// Fails with `InvalidField` when a string, or the whole body, is too long.
    pub fn new(timeout: u32, message: String) -> (r: Result<Self, PduError>)
        ensures
            r is Ok <==> varstr_fits(message@) && fields_bytes(seq![
                FieldView::U32(timeout),
                FieldView::Str(message@),
            ]).len() <= usize::MAX,
            r matches Ok(m) ==> m@ == (WireView {
                class: CLASS_SYSTEM,
                kind: NowSystemMessageKind::SHUTDOWN,
                flags: 0,
                fields: seq![FieldView::U32(timeout), FieldView::Str(message@)],
            }),
            r matches Err(e) ==> e is InvalidField,
    {
        let message = NowVarStr::new(message)?;
        let m = NowSystemShutdownMsg { flags: 0, timeout, message };
        proof {
            assert(m@.fields =~= seq![FieldView::U32(timeout), FieldView::Str(message@)]);
        }
        m.body_size()?;
        Ok(m)
    }

    /// The same message, closing applications without asking.
    pub fn with_force_shutdown(self) -> (r: Self)
        ensures
            r@ == (WireView {
                class: CLASS_SYSTEM,
                kind: NowSystemMessageKind::SHUTDOWN,
                flags: (self@.flags | NowSystemShutdownFlags::FORCE),
                fields: self@.fields,
            }),
    {
        let mut m = self;
        m.flags = m.flags | NowSystemShutdownFlags::FORCE;
        proof {
            assert(m@.fields =~= self@.fields);
        }
        m
    }

    /// The same message, restarting afterwards.
    pub fn with_reboot(self) -> (r: Self)
        ensures
            r@ == (WireView {
                class: CLASS_SYSTEM,
                kind: NowSystemMessageKind::SHUTDOWN,
                flags: (self@.flags | NowSystemShutdownFlags::REBOOT),
                fields: self@.fields,
            }),
    {
        let mut m = self;
        m.flags = m.flags | NowSystemShutdownFlags::REBOOT;
        proof {
            assert(m@.fields =~= self@.fields);
        }
        m
    }

    /// True when applications are closed without asking.
    pub fn is_force_shutdown(&self) -> (r: bool)
        ensures
            r == (self@.flags & NowSystemShutdownFlags::FORCE != 0),
    {
        self.flags & NowSystemShutdownFlags::FORCE != 0
    }

    /// True when the system restarts afterwards.
    pub fn is_reboot(&self) -> (r: bool)
        ensures
            r == (self@.flags & NowSystemShutdownFlags::REBOOT != 0),
    {
        self.flags & NowSystemShutdownFlags::REBOOT != 0
    }

    /// Seconds before shutdown.
    pub fn timeout(&self) -> (r: u32)
        ensures
            self@.fields[0] == FieldView::U32(r),
    {
        self.timeout
    }

    /// The message shown.
    pub fn message(&self) -> (r: &str)
        ensures
            self@.fields[1] == FieldView::Str(r@),
    {
        self.message.value()
    }

}

} // verus!
