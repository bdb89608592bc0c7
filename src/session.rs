//! Session messages.
use vstd::prelude::*;

use crate::error::PduError;
use crate::field::{
    fields_bytes, fields_shape, fields_size, get_str, get_u32, get_u64, views, Field, FieldKind,
    FieldView,
};
use crate::header::{
    body_extends, decode_body_fields, split_typed, encode_frame, frame_bytes, frame_fits,
    frame_size, framed, lemma_frame_len, WireView,
};
use crate::status::{
    error_status, status_at, status_error, status_fields, NowStatus, NowStatusError, StatusView,
    STATUS_ERROR,
};
use crate::string::{varstr_fits, NowVarStr};
use crate::wire::is_prefix;

use crate::header::CLASS_SESSION;

verus! {

/// Kinds of the session message class.
pub struct NowSessionMessageKind;

impl NowSessionMessageKind {
    /// Lock.
    pub const LOCK: u8 = 0x01;

    /// Logoff.
    pub const LOGOFF: u8 = 0x02;

    /// Message box request.
    pub const MSGBOX_REQ: u8 = 0x03;

    /// Message box response.
    pub const MSGBOX_RSP: u8 = 0x04;

    /// Keyboard layout.
    pub const SET_KBD_LAYOUT: u8 = 0x05;

    /// Start window recording.
    pub const WINDOW_REC_START: u8 = 0x06;

    /// Stop window recording.
    pub const WINDOW_REC_STOP: u8 = 0x07;

    /// Window recording event.
    pub const WINDOW_REC_EVENT: u8 = 0x08;

}

/// Header flags of a message box request.
pub struct NowSessionMessageBoxFlags;

impl NowSessionMessageBoxFlags {
    /// A title is set.
    pub const TITLE: u16 = 0x0001;

    /// A style is set.
    pub const STYLE: u16 = 0x0002;

    /// A timeout is set.
    pub const TIMEOUT: u16 = 0x0004;

    /// A response is expected.
    pub const RESPONSE: u16 = 0x0008;

}

/// Header flags of a keyboard layout message.
pub struct NowSessionSetKbdLayoutFlags;

impl NowSessionSetKbdLayoutFlags {
    /// Switch to the next layout.
    pub const NEXT_LAYOUT: u16 = 0x0001;

    /// Switch to the previous layout.
    pub const PREV_LAYOUT: u16 = 0x0002;

}

/// Header flags of a window recording start.
pub struct WindowRecStartFlags;

impl WindowRecStartFlags {
    /// Report title changes too.
    pub const TRACK_TITLE_CHANGE: u16 = 0x0001;

}

/// Style of a message box.
#[derive(Debug, Clone, Copy, PartialEq, Eq)]
pub struct NowMessageBoxStyle(u32);

impl View for NowMessageBoxStyle {
    type V = u32;

    closed spec fn view(&self) -> u32 {
        self.0
    }
}

impl NowMessageBoxStyle {
    /// OK.
    pub const OK: u32 = 0x00000000;

    /// OK and Cancel.
    pub const OK_CANCEL: u32 = 0x00000001;

    /// Abort, Retry and Ignore.
    pub const ABORT_RETRY_IGNORE: u32 = 0x00000002;

    /// Yes, No and Cancel.
    pub const YES_NO_CANCEL: u32 = 0x00000003;

    /// Yes and No.
    pub const YES_NO: u32 = 0x00000004;

    /// Retry and Cancel.
    pub const RETRY_CANCEL: u32 = 0x00000005;

    /// Cancel, Try Again and Continue.
    pub const CANCEL_TRY_CONTINUE: u32 = 0x00000006;

    /// Adds a Help button.
    pub const HELP: u32 = 0x00004000;

    /// Wraps a wire value.
    pub fn new(value: u32) -> (r: Self)
        ensures
            r@ == value,
    {
        NowMessageBoxStyle(value)
    }

    /// The wire value.
    pub fn value(&self) -> (r: u32)
        ensures
            r == self@,
    {
        self.0
    }
}

/// Button a user chose in a message box.
#[derive(Debug, Clone, Copy, PartialEq, Eq)]
pub struct NowMsgBoxResponse(u32);

impl View for NowMsgBoxResponse {
    type V = u32;

    closed spec fn view(&self) -> u32 {
        self.0
    }
}

impl NowMsgBoxResponse {
    /// OK.
    pub const OK: u32 = 1;

    /// Cancel.
    pub const CANCEL: u32 = 2;

    /// Abort.
    pub const ABORT: u32 = 3;

    /// Retry.
    pub const RETRY: u32 = 4;

    /// Ignore.
    pub const IGNORE: u32 = 5;

    /// Yes.
    pub const YES: u32 = 6;

    /// No.
    pub const NO: u32 = 7;

    /// Try Again.
    pub const TRY_AGAIN: u32 = 10;

    /// Continue.
    pub const CONTINUE: u32 = 11;

    /// The box timed out.
    pub const TIMEOUT: u32 = 32000;

    /// Wraps a wire value.
    pub fn new(value: u32) -> (r: Self)
        ensures
            r@ == value,
    {
        NowMsgBoxResponse(value)
    }

    /// The wire value.
    pub fn value(&self) -> (r: u32)
        ensures
            r == self@,
    {
        self.0
    }
}

/// Longest message box timeout, in seconds (one week).
pub const MAX_MSGBOX_TIMEOUT_SECS: u64 = 604800;

/// Keyboard layout a keyboard layout message selects.
#[derive(Debug)]
pub enum SetKbdLayoutOption {
    Next,
    Prev,
    Specific(String),
}

/// Locks the session; it has no body.
#[derive(Debug)]
pub struct NowSessionLockMsg {
}

impl View for NowSessionLockMsg {
    type V = WireView;

    closed spec fn view(&self) -> WireView {
        WireView {
            class: CLASS_SESSION,
            kind: NowSessionMessageKind::LOCK,
            flags: 0u16,
            fields: Seq::<FieldView>::empty(),
        }
    }
}

impl NowSessionLockMsg {
    /// The view names the class and kind of this message.
    pub proof fn lemma_tag(&self)
        ensures
            self@.class == CLASS_SESSION,
            self@.kind == NowSessionMessageKind::LOCK,
    {
    }

    /// Kinds of the body fields.
    pub open spec fn body_layout() -> Seq<FieldKind> {
        Seq::<FieldKind>::empty()
    }

    fn layout_vec() -> (r: Vec<FieldKind>)
        ensures
            r@ == Self::body_layout(),
    {
        let mut v: Vec<FieldKind> = Vec::new();
        assert(v@ =~= Self::body_layout());
        v
    }

    /// The body fields.
    pub fn to_fields(&self) -> (r: Vec<Field>)
        ensures
            views(r@) == self@.fields,
            fields_shape(Self::body_layout(), self@.fields),
    {
        let mut v: Vec<Field> = Vec::new();
        assert(views(v@) =~= self@.fields);
        assert(fields_shape(Self::body_layout(), self@.fields));
        v
    }

    /// The message of header flags `flags` and body fields `fs`.
    pub fn from_fields(flags: u16, fs: &Vec<Field>) -> (r: Result<Self, PduError>)
        requires
            fields_shape(Self::body_layout(), views(fs@)),
        ensures
            r is Ok,
            r matches Ok(m) ==> m@ == (WireView {
                class: CLASS_SESSION,
                kind: NowSessionMessageKind::LOCK,
                flags: 0u16,
                fields: views(fs@),
            }),
    {
        let n = fs.len();
        assert(n == 0);
        let r = NowSessionLockMsg {  };
        assert(r@.fields =~= views(fs@));
        Ok(r)
    }

    /// Number of body bytes; `InvalidField` when that count overflows `usize`.
    pub fn body_size(&self) -> (r: Result<usize, PduError>)
        ensures
            r matches Ok(n) ==> n == fields_bytes(self@.fields).len(),
            r is Err <==> fields_bytes(self@.fields).len() > usize::MAX,
            r matches Err(e) ==> e is InvalidField,
    {
        fields_size(&self.to_fields())
    }

    /// Number of bytes [`Self::encode`] writes; `InvalidField` when the body does
    /// not fit the header's size field.
    pub fn size(&self) -> (r: Result<usize, PduError>)
        ensures
            r is Ok <==> frame_fits(self@) && frame_bytes(self@).len() <= usize::MAX,
            r matches Ok(n) ==> n == frame_bytes(self@).len(),
    {
        let r = frame_size(&self.to_fields());
        proof {
            lemma_frame_len(self@);
        }
        r
    }

    /// The whole frame: header, then body.
    pub fn encode(&self) -> (r: Result<Vec<u8>, PduError>)
        ensures
            r is Ok <==> frame_fits(self@),
            r matches Ok(b) ==> b@ == frame_bytes(self@),
            fields_shape(Self::body_layout(), self@.fields),
    {
        encode_frame(CLASS_SESSION, NowSessionMessageKind::LOCK, 0, &self.to_fields())
    }

    /// Decodes a body of this message type sent with header flags `flags`. Body
    /// bytes after the known fields are ignored.
    pub fn decode_from_body(flags: u16, body: &[u8]) -> (r: Result<Self, PduError>)
        ensures
            forall|m0: Self|
                fields_shape(Self::body_layout(), m0@.fields) &&  m0@.flags == flags && is_prefix(
                    #[trigger] fields_bytes(m0@.fields),
                    body@,
                ) ==> (r matches Ok(m) && m@ == m0@),
    {
        let layout = Self::layout_vec();
        let fs = decode_body_fields(body, &layout)?;
        Self::from_fields(flags, &fs)
    }

    /// Decodes a frame of this message type: checks the header's class and kind,
    /// isolates the body the header announces, and decodes it.
    pub fn decode(buf: &[u8]) -> (r: Result<Self, PduError>)
        ensures
            buf.len() >= 8 && (buf@[4] != CLASS_SESSION || buf@[5] != NowSessionMessageKind::LOCK)
                ==> (r matches Err(e) && e is InvalidField),
            forall|m0: Self, body: Seq<u8>|
                fields_shape(Self::body_layout(), m0@.fields) &&  body_extends(m0@, body) && is_prefix(
                    #[trigger] framed(m0@, body),
                    buf@,
                ) ==> (r matches Ok(m) && m@ == m0@),
    {
        let (flags, body) = split_typed(buf, CLASS_SESSION, NowSessionMessageKind::LOCK)?;
        Self::decode_from_body(flags, body)
    }

    /// The message.
    pub fn new() -> (r: Self)
        ensures
            r@ == (WireView {
                class: CLASS_SESSION,
                kind: NowSessionMessageKind::LOCK,
                flags: 0u16,
                fields: Seq::<FieldView>::empty(),
            }),
    {
        let m = NowSessionLockMsg {  };
        proof {
            assert(m@.fields =~= Seq::<FieldView>::empty());
        }
        m
    }

}

impl Default for NowSessionLockMsg {
    fn default() -> (r: Self)
        ensures
            r@ == (WireView {
                class: CLASS_SESSION,
                kind: NowSessionMessageKind::LOCK,
                flags: 0u16,
                fields: Seq::<FieldView>::empty(),
            }),
    {
        Self::new()
    }
}

/// Logs the session off; it has no body.
#[derive(Debug)]
pub struct NowSessionLogoffMsg {
}

impl View for NowSessionLogoffMsg {
    type V = WireView;

    closed spec fn view(&self) -> WireView {
        WireView {
            class: CLASS_SESSION,
            kind: NowSessionMessageKind::LOGOFF,
            flags: 0u16,
            fields: Seq::<FieldView>::empty(),
        }
    }
}

impl NowSessionLogoffMsg {
    /// The view names the class and kind of this message.
    pub proof fn lemma_tag(&self)
        ensures
            self@.class == CLASS_SESSION,
            self@.kind == NowSessionMessageKind::LOGOFF,
    {
    }

    /// Kinds of the body fields.
    pub open spec fn body_layout() -> Seq<FieldKind> {
        Seq::<FieldKind>::empty()
    }

    fn layout_vec() -> (r: Vec<FieldKind>)
        ensures
            r@ == Self::body_layout(),
    {
        let mut v: Vec<FieldKind> = Vec::new();
        assert(v@ =~= Self::body_layout());
        v
    }

    /// The body fields.
    pub fn to_fields(&self) -> (r: Vec<Field>)
        ensures
            views(r@) == self@.fields,
            fields_shape(Self::body_layout(), self@.fields),
    {
        let mut v: Vec<Field> = Vec::new();
        assert(views(v@) =~= self@.fields);
        assert(fields_shape(Self::body_layout(), self@.fields));
        v
    }

    /// The message of header flags `flags` and body fields `fs`.
    pub fn from_fields(flags: u16, fs: &Vec<Field>) -> (r: Result<Self, PduError>)
        requires
            fields_shape(Self::body_layout(), views(fs@)),
        ensures
            r is Ok,
            r matches Ok(m) ==> m@ == (WireView {
                class: CLASS_SESSION,
                kind: NowSessionMessageKind::LOGOFF,
                flags: 0u16,
                fields: views(fs@),
            }),
    {
        let n = fs.len();
        assert(n == 0);
        let r = NowSessionLogoffMsg {  };
        assert(r@.fields =~= views(fs@));
        Ok(r)
    }

    /// Number of body bytes; `InvalidField` when that count overflows `usize`.
    pub fn body_size(&self) -> (r: Result<usize, PduError>)
        ensures
            r matches Ok(n) ==> n == fields_bytes(self@.fields).len(),
            r is Err <==> fields_bytes(self@.fields).len() > usize::MAX,
            r matches Err(e) ==> e is InvalidField,
    {
        fields_size(&self.to_fields())
    }

    /// Number of bytes [`Self::encode`] writes; `InvalidField` when the body does
    /// not fit the header's size field.
    pub fn size(&self) -> (r: Result<usize, PduError>)
        ensures
            r is Ok <==> frame_fits(self@) && frame_bytes(self@).len() <= usize::MAX,
            r matches Ok(n) ==> n == frame_bytes(self@).len(),
    {
        let r = frame_size(&self.to_fields());
        proof {
            lemma_frame_len(self@);
        }
        r
    }

    /// The whole frame: header, then body.
    pub fn encode(&self) -> (r: Result<Vec<u8>, PduError>)
        ensures
            r is Ok <==> frame_fits(self@),
            r matches Ok(b) ==> b@ == frame_bytes(self@),
            fields_shape(Self::body_layout(), self@.fields),
    {
        encode_frame(CLASS_SESSION, NowSessionMessageKind::LOGOFF, 0, &self.to_fields())
    }

    /// Decodes a body of this message type sent with header flags `flags`. Body
    /// bytes after the known fields are ignored.
    pub fn decode_from_body(flags: u16, body: &[u8]) -> (r: Result<Self, PduError>)
        ensures
            forall|m0: Self|
                fields_shape(Self::body_layout(), m0@.fields) &&  m0@.flags == flags && is_prefix(
                    #[trigger] fields_bytes(m0@.fields),
                    body@,
                ) ==> (r matches Ok(m) && m@ == m0@),
    {
        let layout = Self::layout_vec();
        let fs = decode_body_fields(body, &layout)?;
        Self::from_fields(flags, &fs)
    }

    /// Decodes a frame of this message type: checks the header's class and kind,
    /// isolates the body the header announces, and decodes it.
    pub fn decode(buf: &[u8]) -> (r: Result<Self, PduError>)
        ensures
            buf.len() >= 8 && (buf@[4] != CLASS_SESSION || buf@[5] != NowSessionMessageKind::LOGOFF)
                ==> (r matches Err(e) && e is InvalidField),
            forall|m0: Self, body: Seq<u8>|
                fields_shape(Self::body_layout(), m0@.fields) &&  body_extends(m0@, body) && is_prefix(
                    #[trigger] framed(m0@, body),
                    buf@,
                ) ==> (r matches Ok(m) && m@ == m0@),
    {
        let (flags, body) = split_typed(buf, CLASS_SESSION, NowSessionMessageKind::LOGOFF)?;
        Self::decode_from_body(flags, body)
    }

    /// The message.
    pub fn new() -> (r: Self)
        ensures
            r@ == (WireView {
                class: CLASS_SESSION,
                kind: NowSessionMessageKind::LOGOFF,
                flags: 0u16,
                fields: Seq::<FieldView>::empty(),
            }),
    {
        let m = NowSessionLogoffMsg {  };
        proof {
            assert(m@.fields =~= Seq::<FieldView>::empty());
        }
        m
    }

}

impl Default for NowSessionLogoffMsg {
    fn default() -> (r: Self)
        ensures
            r@ == (WireView {
                class: CLASS_SESSION,
                kind: NowSessionMessageKind::LOGOFF,
                flags: 0u16,
                fields: Seq::<FieldView>::empty(),
            }),
    {
        Self::new()
    }
}

/// Stops window recording; it has no body.
#[derive(Debug)]
pub struct NowSessionWindowRecStopMsg {
}

impl View for NowSessionWindowRecStopMsg {
    type V = WireView;

    closed spec fn view(&self) -> WireView {
        WireView {
            class: CLASS_SESSION,
            kind: NowSessionMessageKind::WINDOW_REC_STOP,
            flags: 0u16,
            fields: Seq::<FieldView>::empty(),
        }
    }
}

impl NowSessionWindowRecStopMsg {
    /// The view names the class and kind of this message.
    pub proof fn lemma_tag(&self)
        ensures
            self@.class == CLASS_SESSION,
            self@.kind == NowSessionMessageKind::WINDOW_REC_STOP,
    {
    }

    /// Kinds of the body fields.
    pub open spec fn body_layout() -> Seq<FieldKind> {
        Seq::<FieldKind>::empty()
    }

    fn layout_vec() -> (r: Vec<FieldKind>)
        ensures
            r@ == Self::body_layout(),
    {
        let mut v: Vec<FieldKind> = Vec::new();
        assert(v@ =~= Self::body_layout());
        v
    }

    /// The body fields.
    pub fn to_fields(&self) -> (r: Vec<Field>)
        ensures
            views(r@) == self@.fields,
            fields_shape(Self::body_layout(), self@.fields),
    {
        let mut v: Vec<Field> = Vec::new();
        assert(views(v@) =~= self@.fields);
        assert(fields_shape(Self::body_layout(), self@.fields));
        v
    }

    /// The message of header flags `flags` and body fields `fs`.
    pub fn from_fields(flags: u16, fs: &Vec<Field>) -> (r: Result<Self, PduError>)
        requires
            fields_shape(Self::body_layout(), views(fs@)),
        ensures
            r is Ok,
            r matches Ok(m) ==> m@ == (WireView {
                class: CLASS_SESSION,
                kind: NowSessionMessageKind::WINDOW_REC_STOP,
                flags: 0u16,
                fields: views(fs@),
            }),
    {
        let n = fs.len();
        assert(n == 0);
        let r = NowSessionWindowRecStopMsg {  };
        assert(r@.fields =~= views(fs@));
        Ok(r)
    }

    /// Number of body bytes; `InvalidField` when that count overflows `usize`.
    pub fn body_size(&self) -> (r: Result<usize, PduError>)
        ensures
            r matches Ok(n) ==> n == fields_bytes(self@.fields).len(),
            r is Err <==> fields_bytes(self@.fields).len() > usize::MAX,
            r matches Err(e) ==> e is InvalidField,
    {
        fields_size(&self.to_fields())
    }

    /// Number of bytes [`Self::encode`] writes; `InvalidField` when the body does
    /// not fit the header's size field.
    pub fn size(&self) -> (r: Result<usize, PduError>)
        ensures
            r is Ok <==> frame_fits(self@) && frame_bytes(self@).len() <= usize::MAX,
            r matches Ok(n) ==> n == frame_bytes(self@).len(),
    {
        let r = frame_size(&self.to_fields());
        proof {
            lemma_frame_len(self@);
        }
        r
    }

    /// The whole frame: header, then body.
    pub fn encode(&self) -> (r: Result<Vec<u8>, PduError>)
        ensures
            r is Ok <==> frame_fits(self@),
            r matches Ok(b) ==> b@ == frame_bytes(self@),
            fields_shape(Self::body_layout(), self@.fields),
    {
        encode_frame(CLASS_SESSION, NowSessionMessageKind::WINDOW_REC_STOP, 0, &self.to_fields())
    }

    /// Decodes a body of this message type sent with header flags `flags`. Body
    /// bytes after the known fields are ignored.
    pub fn decode_from_body(flags: u16, body: &[u8]) -> (r: Result<Self, PduError>)
        ensures
            forall|m0: Self|
                fields_shape(Self::body_layout(), m0@.fields) &&  m0@.flags == flags && is_prefix(
                    #[trigger] fields_bytes(m0@.fields),
                    body@,
                ) ==> (r matches Ok(m) && m@ == m0@),
    {
        let layout = Self::layout_vec();
        let fs = decode_body_fields(body, &layout)?;
        Self::from_fields(flags, &fs)
    }

    /// Decodes a frame of this message type: checks the header's class and kind,
    /// isolates the body the header announces, and decodes it.
    pub fn decode(buf: &[u8]) -> (r: Result<Self, PduError>)
        ensures
            buf.len() >= 8 && (buf@[4] != CLASS_SESSION || buf@[5] != NowSessionMessageKind::WINDOW_REC_STOP)
                ==> (r matches Err(e) && e is InvalidField),
            forall|m0: Self, body: Seq<u8>|
                fields_shape(Self::body_layout(), m0@.fields) &&  body_extends(m0@, body) && is_prefix(
                    #[trigger] framed(m0@, body),
                    buf@,
                ) ==> (r matches Ok(m) && m@ == m0@),
    {
        let (flags, body) = split_typed(buf, CLASS_SESSION, NowSessionMessageKind::WINDOW_REC_STOP)?;
        Self::decode_from_body(flags, body)
    }

    /// The message.
    pub fn new() -> (r: Self)
        ensures
            r@ == (WireView {
                class: CLASS_SESSION,
                kind: NowSessionMessageKind::WINDOW_REC_STOP,
                flags: 0u16,
                fields: Seq::<FieldView>::empty(),
            }),
    {
        let m = NowSessionWindowRecStopMsg {  };
        proof {
            assert(m@.fields =~= Seq::<FieldView>::empty());
        }
        m
    }

}

impl Default for NowSessionWindowRecStopMsg {
    fn default() -> (r: Self)
        ensures
            r@ == (WireView {
                class: CLASS_SESSION,
                kind: NowSessionMessageKind::WINDOW_REC_STOP,
                flags: 0u16,
                fields: Seq::<FieldView>::empty(),
            }),
    {
        Self::new()
    }
}

/// Shows a message box in the session.
#[derive(Debug)]
pub struct NowSessionMsgBoxReqMsg {
    flags: u16,
    request_id: u32,
    style: u32,
    timeout: u32,
    title: NowVarStr,
    message: NowVarStr,
}

impl View for NowSessionMsgBoxReqMsg {
    type V = WireView;

    closed spec fn view(&self) -> WireView {
        WireView {
            class: CLASS_SESSION,
            kind: NowSessionMessageKind::MSGBOX_REQ,
            flags: self.flags,
            fields: seq![
                FieldView::U32(self.request_id),
                FieldView::U32(self.style),
                FieldView::U32(self.timeout),
                FieldView::Str(self.title@),
                FieldView::Str(self.message@),
            ],
        }
    }
}

impl NowSessionMsgBoxReqMsg {
    /// The view names the class and kind of this message.
    pub proof fn lemma_tag(&self)
        ensures
            self@.class == CLASS_SESSION,
            self@.kind == NowSessionMessageKind::MSGBOX_REQ,
    {
    }

    /// Kinds of the body fields.
    pub open spec fn body_layout() -> Seq<FieldKind> {
        seq![FieldKind::U32, FieldKind::U32, FieldKind::U32, FieldKind::Str, FieldKind::Str]
    }

    fn layout_vec() -> (r: Vec<FieldKind>)
        ensures
            r@ == Self::body_layout(),
    {
        let mut v: Vec<FieldKind> = Vec::new();
        v.push(FieldKind::U32);
        v.push(FieldKind::U32);
        v.push(FieldKind::U32);
        v.push(FieldKind::Str);
        v.push(FieldKind::Str);
        assert(v@ =~= Self::body_layout());
        v
    }

    /// The body fields.
    pub fn to_fields(&self) -> (r: Vec<Field>)
        ensures
            views(r@) == self@.fields,
            fields_shape(Self::body_layout(), self@.fields),
    {
        let mut v: Vec<Field> = Vec::new();
        v.push(Field::U32(self.request_id));
        v.push(Field::U32(self.style));
        v.push(Field::U32(self.timeout));
        v.push(Field::Str(self.title.duplicate()));
        v.push(Field::Str(self.message.duplicate()));
        assert(views(v@) =~= self@.fields);
        assert(fields_shape(Self::body_layout(), self@.fields));
        v
    }

    /// The message of header flags `flags` and body fields `fs`.
    pub fn from_fields(flags: u16, fs: &Vec<Field>) -> (r: Result<Self, PduError>)
        requires
            fields_shape(Self::body_layout(), views(fs@)),
        ensures
            r is Ok,
            r matches Ok(m) ==> m@ == (WireView {
                class: CLASS_SESSION,
                kind: NowSessionMessageKind::MSGBOX_REQ,
                flags: flags,
                fields: views(fs@),
            }),
    {
        let n = fs.len();
        assert(n == 5);
        let request_id = get_u32(fs, 0);
        let style = get_u32(fs, 1);
        let timeout = get_u32(fs, 2);
        let title = get_str(fs, 3);
        let message = get_str(fs, 4);
        let r = NowSessionMsgBoxReqMsg { flags, request_id, style, timeout, title, message };
        assert(r@.fields =~= views(fs@));
        Ok(r)
    }

    /// Number of body bytes; `InvalidField` when that count overflows `usize`.
    pub fn body_size(&self) -> (r: Result<usize, PduError>)
        ensures
            r matches Ok(n) ==> n == fields_bytes(self@.fields).len(),
            r is Err <==> fields_bytes(self@.fields).len() > usize::MAX,
            r matches Err(e) ==> e is InvalidField,
    {
        fields_size(&self.to_fields())
    }

    /// Number of bytes [`Self::encode`] writes; `InvalidField` when the body does
    /// not fit the header's size field.
    pub fn size(&self) -> (r: Result<usize, PduError>)
        ensures
            r is Ok <==> frame_fits(self@) && frame_bytes(self@).len() <= usize::MAX,
            r matches Ok(n) ==> n == frame_bytes(self@).len(),
    {
        let r = frame_size(&self.to_fields());
        proof {
            lemma_frame_len(self@);
        }
        r
    }

    /// The whole frame: header, then body.
    pub fn encode(&self) -> (r: Result<Vec<u8>, PduError>)
        ensures
            r is Ok <==> frame_fits(self@),
            r matches Ok(b) ==> b@ == frame_bytes(self@),
            fields_shape(Self::body_layout(), self@.fields),
    {
        encode_frame(CLASS_SESSION, NowSessionMessageKind::MSGBOX_REQ, self.flags, &self.to_fields())
    }

    /// Decodes a body of this message type sent with header flags `flags`. Body
    /// bytes after the known fields are ignored.
    pub fn decode_from_body(flags: u16, body: &[u8]) -> (r: Result<Self, PduError>)
        ensures
            forall|m0: Self|
                fields_shape(Self::body_layout(), m0@.fields) &&  m0@.flags == flags && is_prefix(
                    #[trigger] fields_bytes(m0@.fields),
                    body@,
                ) ==> (r matches Ok(m) && m@ == m0@),
    {
        let layout = Self::layout_vec();
        let fs = decode_body_fields(body, &layout)?;
        Self::from_fields(flags, &fs)
    }

    /// Decodes a frame of this message type: checks the header's class and kind,
    /// isolates the body the header announces, and decodes it.
    pub fn decode(buf: &[u8]) -> (r: Result<Self, PduError>)
        ensures
            buf.len() >= 8 && (buf@[4] != CLASS_SESSION || buf@[5] != NowSessionMessageKind::MSGBOX_REQ)
                ==> (r matches Err(e) && e is InvalidField),
            forall|m0: Self, body: Seq<u8>|
                fields_shape(Self::body_layout(), m0@.fields) &&  body_extends(m0@, body) && is_prefix(
                    #[trigger] framed(m0@, body),
                    buf@,
                ) ==> (r matches Ok(m) && m@ == m0@),
    {
        let (flags, body) = split_typed(buf, CLASS_SESSION, NowSessionMessageKind::MSGBOX_REQ)?;
        Self::decode_from_body(flags, body)
    }

    /// Message box `request_id` showing `message`.
    ///
    /// Fails with `InvalidField` when a string, or the whole body, is too long.
    pub fn new(request_id: u32, message: String) -> (r: Result<Self, PduError>)
        ensures
            r is Ok <==> varstr_fits(message@) && fields_bytes(seq![
                FieldView::U32(request_id),
                FieldView::U32(0),
                FieldView::U32(0),
                FieldView::Str(Seq::<char>::empty()),
                FieldView::Str(message@),
            ]).len() <= usize::MAX,
            r matches Ok(m) ==> m@ == (WireView {
                class: CLASS_SESSION,
                kind: NowSessionMessageKind::MSGBOX_REQ,
                flags: 0,
                fields: seq![
                    FieldView::U32(request_id),
                    FieldView::U32(0),
                    FieldView::U32(0),
                    FieldView::Str(Seq::<char>::empty()),
                    FieldView::Str(message@),
                ],
            }),
            r matches Err(e) ==> e is InvalidField,
    {
        let message = NowVarStr::new(message)?;
        let m = NowSessionMsgBoxReqMsg { flags: 0, request_id, style: 0, timeout: 0, title: NowVarStr::empty(), message };
        proof {
            assert(m@.fields =~= seq![
                FieldView::U32(request_id),
                FieldView::U32(0),
                FieldView::U32(0),
                FieldView::Str(Seq::<char>::empty()),
                FieldView::Str(message@),
            ]);
        }
        m.body_size()?;
        Ok(m)
    }

    /// The same request with a title.
    ///
    /// Fails with `InvalidField` when the string, or the whole body, is too long.
    pub fn with_title(self, title: String) -> (r: Result<Self, PduError>)
        ensures
            r is Ok <==>
                varstr_fits(title@) && fields_bytes(self@.fields.update(3, FieldView::Str(title@))).len() <= usize::MAX,
            r matches Ok(m) ==> m@ == (WireView {
                class: CLASS_SESSION,
                kind: NowSessionMessageKind::MSGBOX_REQ,
                flags: (self@.flags | NowSessionMessageBoxFlags::TITLE),
                fields: self@.fields.update(3, FieldView::Str(title@)),
            }),
            r matches Err(e) ==> e is InvalidField,
    {
        let ghost old_view = self@;
        let s = NowVarStr::new(title)?;
        let mut m = self;
        m.title = s;
        m.flags = m.flags | NowSessionMessageBoxFlags::TITLE;
        proof {
            assert(m@.fields =~= old_view.fields.update(3, FieldView::Str(title@)));
        }
        m.body_size()?;
        Ok(m)
    }

    /// The same request, expecting a response.
    pub fn with_response(self) -> (r: Self)
        ensures
            r@ == (WireView {
                class: CLASS_SESSION,
                kind: NowSessionMessageKind::MSGBOX_REQ,
                flags: (self@.flags | NowSessionMessageBoxFlags::RESPONSE),
                fields: self@.fields,
            }),
    {
        let mut m = self;
        m.flags = m.flags | NowSessionMessageBoxFlags::RESPONSE;
        proof {
            assert(m@.fields =~= self@.fields);
        }
        m
    }

    /// The request id.
    pub fn request_id(&self) -> (r: u32)
        ensures
            self@.fields[0] == FieldView::U32(r),
    {
        self.request_id
    }

    /// The message.
    pub fn message(&self) -> (r: &str)
        ensures
            self@.fields[4] == FieldView::Str(r@),
    {
        self.message.value()
    }

    /// The title, when set.
    pub fn title(&self) -> (r: Option<&str>)
        ensures
            r is Some <==> self@.flags & NowSessionMessageBoxFlags::TITLE != 0,
            r matches Some(s) ==> self@.fields[3] == FieldView::Str(s@),
    {
        if self.flags & NowSessionMessageBoxFlags::TITLE != 0 {
            Some(self.title.value())
        } else {
            None
        }
    }

    /// True when a response is expected.
    pub fn is_response_expected(&self) -> (r: bool)
        ensures
            r == (self@.flags & NowSessionMessageBoxFlags::RESPONSE != 0),
    {
        self.flags & NowSessionMessageBoxFlags::RESPONSE != 0
    }

    /// The same request with style `style`.
    pub fn with_style(self, style: NowMessageBoxStyle) -> (r: Self)
        ensures
            r@ == (WireView {
                class: self@.class,
                kind: self@.kind,
                flags: self@.flags | NowSessionMessageBoxFlags::STYLE,
                fields: self@.fields.update(1, FieldView::U32(style@)),
            }),
    {
        let ghost old_view = self@;
        let mut m = self;
        m.style = style.value();
        m.flags = m.flags | NowSessionMessageBoxFlags::STYLE;
        proof {
            assert(m@.fields =~= old_view.fields.update(1, FieldView::U32(style@)));
        }
        m
    }

    /// The same request with a timeout of `seconds`; fails with `InvalidField`
    /// above one week.
    pub fn with_timeout(self, seconds: u64) -> (r: Result<Self, PduError>)
        ensures
            r is Ok <==> seconds <= MAX_MSGBOX_TIMEOUT_SECS,
            r matches Ok(m) ==> m@ == (WireView {
                class: self@.class,
                kind: self@.kind,
                flags: self@.flags | NowSessionMessageBoxFlags::TIMEOUT,
                fields: self@.fields.update(2, FieldView::U32(seconds as u32)),
            }),
            r matches Err(e) ==> e is InvalidField,
    {
        if seconds > MAX_MSGBOX_TIMEOUT_SECS {
            return Err(PduError::invalid_field("timeout", "too big message box timeout"));
        }
        let ghost old_view = self@;
        let mut m = self;
        m.timeout = seconds as u32;
        m.flags = m.flags | NowSessionMessageBoxFlags::TIMEOUT;
        proof {
            assert(m@.fields =~= old_view.fields.update(2, FieldView::U32(seconds as u32)));
        }
        Ok(m)
    }

    /// The style; `OK` when none is set.
    pub fn style(&self) -> (r: NowMessageBoxStyle)
        ensures
            self@.flags & NowSessionMessageBoxFlags::STYLE != 0 ==> self@.fields[1] == FieldView::U32(r@),
            self@.flags & NowSessionMessageBoxFlags::STYLE == 0 ==> r@ == NowMessageBoxStyle::OK,
    {
        if self.flags & NowSessionMessageBoxFlags::STYLE != 0 {
            NowMessageBoxStyle::new(self.style)
        } else {
            NowMessageBoxStyle::new(NowMessageBoxStyle::OK)
        }
    }

    /// The timeout in seconds, when one is set and it is not zero.
    pub fn timeout(&self) -> (r: Option<u64>)
        ensures
            r is Some <==>
                self@.flags & NowSessionMessageBoxFlags::TIMEOUT != 0 && self@.fields[2]->U32_0 > 0,
            r matches Some(t) ==> t == self@.fields[2]->U32_0,
    {
        if self.flags & NowSessionMessageBoxFlags::TIMEOUT != 0 && self.timeout > 0 {
            Some(self.timeout as u64)
        } else {
            None
        }
    }

}

/// Answers a message box request.
#[derive(Debug)]
pub struct NowSessionMsgBoxRspMsg {
    request_id: u32,
    response: u32,
    status: NowStatus,
}

impl View for NowSessionMsgBoxRspMsg {
    type V = WireView;

    closed spec fn view(&self) -> WireView {
        WireView {
            class: CLASS_SESSION,
            kind: NowSessionMessageKind::MSGBOX_RSP,
            flags: 0u16,
            fields: seq![
                FieldView::U32(self.request_id),
                FieldView::U32(self.response),
            ] + status_fields(self.status@),
        }
    }
}

impl NowSessionMsgBoxRspMsg {
    /// The view names the class and kind of this message.
    pub proof fn lemma_tag(&self)
        ensures
            self@.class == CLASS_SESSION,
            self@.kind == NowSessionMessageKind::MSGBOX_RSP,
    {
    }

    /// Kinds of the body fields.
    pub open spec fn body_layout() -> Seq<FieldKind> {
        seq![FieldKind::U32, FieldKind::U32, FieldKind::U16, FieldKind::U16, FieldKind::U32, FieldKind::Str]
    }

    fn layout_vec() -> (r: Vec<FieldKind>)
        ensures
            r@ == Self::body_layout(),
    {
        let mut v: Vec<FieldKind> = Vec::new();
        v.push(FieldKind::U32);
        v.push(FieldKind::U32);
        v.push(FieldKind::U16);
        v.push(FieldKind::U16);
        v.push(FieldKind::U32);
        v.push(FieldKind::Str);
        assert(v@ =~= Self::body_layout());
        v
    }

    /// The body fields.
    pub fn to_fields(&self) -> (r: Vec<Field>)
        ensures
            views(r@) == self@.fields,
            fields_shape(Self::body_layout(), self@.fields),
    {
        let mut v: Vec<Field> = Vec::new();
        v.push(Field::U32(self.request_id));
        v.push(Field::U32(self.response));
        self.status.push_fields(&mut v);
        assert(views(v@) =~= self@.fields);
        assert(fields_shape(Self::body_layout(), self@.fields));
        v
    }

    /// The message of header flags `flags` and body fields `fs`.
    pub fn from_fields(flags: u16, fs: &Vec<Field>) -> (r: Result<Self, PduError>)
        requires
            fields_shape(Self::body_layout(), views(fs@)),
        ensures
            r is Ok,
            r matches Ok(m) ==> m@ == (WireView {
                class: CLASS_SESSION,
                kind: NowSessionMessageKind::MSGBOX_RSP,
                flags: 0u16,
                fields: views(fs@),
            }),
    {
        let n = fs.len();
        assert(n == 6);
        let request_id = get_u32(fs, 0);
        let response = get_u32(fs, 1);
        let status = NowStatus::from_fields(fs, 2);
        let r = NowSessionMsgBoxRspMsg { request_id, response, status };
        assert(r@.fields =~= views(fs@));
        Ok(r)
    }

    /// Number of body bytes; `InvalidField` when that count overflows `usize`.
    pub fn body_size(&self) -> (r: Result<usize, PduError>)
        ensures
            r matches Ok(n) ==> n == fields_bytes(self@.fields).len(),
            r is Err <==> fields_bytes(self@.fields).len() > usize::MAX,
            r matches Err(e) ==> e is InvalidField,
    {
        fields_size(&self.to_fields())
    }

    /// Number of bytes [`Self::encode`] writes; `InvalidField` when the body does
    /// not fit the header's size field.
    pub fn size(&self) -> (r: Result<usize, PduError>)
        ensures
            r is Ok <==> frame_fits(self@) && frame_bytes(self@).len() <= usize::MAX,
            r matches Ok(n) ==> n == frame_bytes(self@).len(),
    {
        let r = frame_size(&self.to_fields());
        proof {
            lemma_frame_len(self@);
        }
        r
    }

    /// The whole frame: header, then body.
    pub fn encode(&self) -> (r: Result<Vec<u8>, PduError>)
        ensures
            r is Ok <==> frame_fits(self@),
            r matches Ok(b) ==> b@ == frame_bytes(self@),
            fields_shape(Self::body_layout(), self@.fields),
    {
        encode_frame(CLASS_SESSION, NowSessionMessageKind::MSGBOX_RSP, 0, &self.to_fields())
    }

    /// Decodes a body of this message type sent with header flags `flags`. Body
    /// bytes after the known fields are ignored.
    pub fn decode_from_body(flags: u16, body: &[u8]) -> (r: Result<Self, PduError>)
        ensures
            forall|m0: Self|
                fields_shape(Self::body_layout(), m0@.fields) &&  m0@.flags == flags && is_prefix(
                    #[trigger] fields_bytes(m0@.fields),
                    body@,
                ) ==> (r matches Ok(m) && m@ == m0@),
    {
        let layout = Self::layout_vec();
        let fs = decode_body_fields(body, &layout)?;
        Self::from_fields(flags, &fs)
    }

    /// Decodes a frame of this message type: checks the header's class and kind,
    /// isolates the body the header announces, and decodes it.
    pub fn decode(buf: &[u8]) -> (r: Result<Self, PduError>)
        ensures
            buf.len() >= 8 && (buf@[4] != CLASS_SESSION || buf@[5] != NowSessionMessageKind::MSGBOX_RSP)
                ==> (r matches Err(e) && e is InvalidField),
            forall|m0: Self, body: Seq<u8>|
                fields_shape(Self::body_layout(), m0@.fields) &&  body_extends(m0@, body) && is_prefix(
                    #[trigger] framed(m0@, body),
                    buf@,
                ) ==> (r matches Ok(m) && m@ == m0@),
    {
        let (flags, body) = split_typed(buf, CLASS_SESSION, NowSessionMessageKind::MSGBOX_RSP)?;
        Self::decode_from_body(flags, body)
    }

    /// The request id.
    pub fn request_id(&self) -> (r: u32)
        ensures
            self@.fields[0] == FieldView::U32(r),
    {
        self.request_id
    }

    /// Response `response` to request `request_id`.
    pub fn new_success(request_id: u32, response: NowMsgBoxResponse) -> (r: Self)
        ensures
            r@ == (WireView {
                class: CLASS_SESSION,
                kind: NowSessionMessageKind::MSGBOX_RSP,
                flags: 0u16,
                fields: seq![
                    FieldView::U32(request_id),
                    FieldView::U32(response@),
                ] + status_fields(StatusView { flags: 0, kind: 0, code: 0, message: Seq::<char>::empty() }),
            }),
    {
        let m = NowSessionMsgBoxRspMsg { request_id, response: response.value(), status: NowStatus::new_success() };
        proof {
            assert(m@.fields =~= seq![
                FieldView::U32(request_id),
                FieldView::U32(response@),
            ] + status_fields(StatusView { flags: 0, kind: 0, code: 0, message: Seq::<char>::empty() }));
        }
        m
    }

    /// An error response carrying `error`; fails with `InvalidField` when the body
    /// is too long.
    pub fn new_error(request_id: u32, error: NowStatusError) -> (r: Result<Self, PduError>)
        ensures
            r is Ok <==> fields_bytes(seq![
                FieldView::U32(request_id),
                FieldView::U32(0),
            ] + status_fields(error_status(error@))).len() <= usize::MAX,
            r matches Ok(m) ==> m@ == (WireView {
                class: CLASS_SESSION,
                kind: NowSessionMessageKind::MSGBOX_RSP,
                flags: 0u16,
                fields: seq![
                    FieldView::U32(request_id),
                    FieldView::U32(0),
                ] + status_fields(error_status(error@)),
            }),
            r matches Err(e) ==> e is InvalidField,
    {
        let ghost e = error@;
        let status = NowStatus::new_error(error);
        let m = NowSessionMsgBoxRspMsg { request_id, response: 0, status: status };
        proof {
            assert(m@.fields =~= seq![
                FieldView::U32(request_id),
                FieldView::U32(0),
            ] + status_fields(error_status(e)));
        }
        m.body_size()?;
        Ok(m)
    }

    /// The chosen button on success, else the reported error.
    pub fn to_result(&self) -> (r: Result<NowMsgBoxResponse, NowStatusError>)
        ensures
            r is Ok <==> status_at(self@.fields, 2).flags & STATUS_ERROR == 0,
            r matches Err(e) ==> e@ == status_error(status_at(self@.fields, 2)),
            r matches Ok(v) ==> self@.fields[1] == FieldView::U32(v@),
    {
        proof {
            assert(status_at(self@.fields, 2) == self.status@);
        }
        match self.status.to_result() {
            Ok(()) => Ok(NowMsgBoxResponse::new(self.response)),
            Err(e) => Err(e),
        }
    }

}

/// The flags the keyboard layout constructors use never set both directions.
proof fn lemma_layout_flag_bits()
    by (bit_vector)
    ensures
        !(1u16 & 1u16 != 0 && 1u16 & 2u16 != 0),
        !(2u16 & 1u16 != 0 && 2u16 & 2u16 != 0),
        !(0u16 & 1u16 != 0 && 0u16 & 2u16 != 0),
{
}

/// Switches the keyboard layout.
#[derive(Debug)]
pub struct NowSessionSetKbdLayoutMsg {
    flags: u16,
    layout: NowVarStr,
}

impl View for NowSessionSetKbdLayoutMsg {
    type V = WireView;

    closed spec fn view(&self) -> WireView {
        WireView {
            class: CLASS_SESSION,
            kind: NowSessionMessageKind::SET_KBD_LAYOUT,
            flags: self.flags,
            fields: seq![FieldView::Str(self.layout@)],
        }
    }
}

impl NowSessionSetKbdLayoutMsg {
    /// The view names the class and kind of this message.
    pub proof fn lemma_tag(&self)
        ensures
            self@.class == CLASS_SESSION,
            self@.kind == NowSessionMessageKind::SET_KBD_LAYOUT,
    {
    }

    #[verifier::type_invariant]
    spec fn inv(self) -> bool {
        Self::flags_valid(self.flags)
    }

    /// Header flags this message accepts.
    pub open spec fn flags_valid(flags: u16) -> bool {
        !(flags & NowSessionSetKbdLayoutFlags::NEXT_LAYOUT != 0 && flags & NowSessionSetKbdLayoutFlags::PREV_LAYOUT != 0)
    }

    /// Kinds of the body fields.
    pub open spec fn body_layout() -> Seq<FieldKind> {
        seq![FieldKind::Str]
    }

    fn layout_vec() -> (r: Vec<FieldKind>)
        ensures
            r@ == Self::body_layout(),
    {
        let mut v: Vec<FieldKind> = Vec::new();
        v.push(FieldKind::Str);
        assert(v@ =~= Self::body_layout());
        v
    }

    /// The body fields.
    pub fn to_fields(&self) -> (r: Vec<Field>)
        ensures
            views(r@) == self@.fields,
            fields_shape(Self::body_layout(), self@.fields),
            Self::flags_valid(self@.flags),
    {
        proof {
            use_type_invariant(self);
        }
        let mut v: Vec<Field> = Vec::new();
        v.push(Field::Str(self.layout.duplicate()));
        assert(views(v@) =~= self@.fields);
        assert(fields_shape(Self::body_layout(), self@.fields));
        v
    }

    /// The message of header flags `flags` and body fields `fs`.
    pub fn from_fields(flags: u16, fs: &Vec<Field>) -> (r: Result<Self, PduError>)
        requires
            fields_shape(Self::body_layout(), views(fs@)),
        ensures
            r is Ok <==>
                !(flags & NowSessionSetKbdLayoutFlags::NEXT_LAYOUT != 0 && flags & NowSessionSetKbdLayoutFlags::PREV_LAYOUT != 0),
            r matches Ok(m) ==> m@ == (WireView {
                class: CLASS_SESSION,
                kind: NowSessionMessageKind::SET_KBD_LAYOUT,
                flags: flags,
                fields: views(fs@),
            }),
            r matches Err(e) ==> e is InvalidField,
    {
        if !(!(flags & NowSessionSetKbdLayoutFlags::NEXT_LAYOUT != 0 && flags & NowSessionSetKbdLayoutFlags::PREV_LAYOUT != 0)) {
            return Err(PduError::invalid_field("flags", "both NEXT and PREV flags are set"));
        }
        let n = fs.len();
        assert(n == 1);
        let layout = get_str(fs, 0);
        let r = NowSessionSetKbdLayoutMsg { flags, layout };
        assert(r@.fields =~= views(fs@));
        Ok(r)
    }

    /// Number of body bytes; `InvalidField` when that count overflows `usize`.
    pub fn body_size(&self) -> (r: Result<usize, PduError>)
        ensures
            r matches Ok(n) ==> n == fields_bytes(self@.fields).len(),
            r is Err <==> fields_bytes(self@.fields).len() > usize::MAX,
            r matches Err(e) ==> e is InvalidField,
    {
        fields_size(&self.to_fields())
    }

    /// Number of bytes [`Self::encode`] writes; `InvalidField` when the body does
    /// not fit the header's size field.
    pub fn size(&self) -> (r: Result<usize, PduError>)
        ensures
            r is Ok <==> frame_fits(self@) && frame_bytes(self@).len() <= usize::MAX,
            r matches Ok(n) ==> n == frame_bytes(self@).len(),
    {
        let r = frame_size(&self.to_fields());
        proof {
            lemma_frame_len(self@);
        }
        r
    }

    /// The whole frame: header, then body.
    pub fn encode(&self) -> (r: Result<Vec<u8>, PduError>)
        ensures
            r is Ok <==> frame_fits(self@),
            r matches Ok(b) ==> b@ == frame_bytes(self@),
            fields_shape(Self::body_layout(), self@.fields),
            Self::flags_valid(self@.flags),
    {
        encode_frame(CLASS_SESSION, NowSessionMessageKind::SET_KBD_LAYOUT, self.flags, &self.to_fields())
    }

    /// Decodes a body of this message type sent with header flags `flags`. Body
    /// bytes after the known fields are ignored.
    pub fn decode_from_body(flags: u16, body: &[u8]) -> (r: Result<Self, PduError>)
        ensures
            forall|m0: Self|
                fields_shape(Self::body_layout(), m0@.fields)
                    && Self::flags_valid(m0@.flags)
                    && m0@.flags == flags
                    && is_prefix(
                    #[trigger] fields_bytes(m0@.fields),
                    body@,
                ) ==> (r matches Ok(m) && m@ == m0@),
    {
        let layout = Self::layout_vec();
        let fs = decode_body_fields(body, &layout)?;
        Self::from_fields(flags, &fs)
    }

    /// Decodes a frame of this message type: checks the header's class and kind,
    /// isolates the body the header announces, and decodes it.
    pub fn decode(buf: &[u8]) -> (r: Result<Self, PduError>)
        ensures
            buf.len() >= 8 && (buf@[4] != CLASS_SESSION || buf@[5] != NowSessionMessageKind::SET_KBD_LAYOUT)
                ==> (r matches Err(e) && e is InvalidField),
            forall|m0: Self, body: Seq<u8>|
                fields_shape(Self::body_layout(), m0@.fields)
                    && Self::flags_valid(m0@.flags)
                    && body_extends(m0@, body)
                    && is_prefix(
                    #[trigger] framed(m0@, body),
                    buf@,
                ) ==> (r matches Ok(m) && m@ == m0@),
    {
        let (flags, body) = split_typed(buf, CLASS_SESSION, NowSessionMessageKind::SET_KBD_LAYOUT)?;
        Self::decode_from_body(flags, body)
    }

    /// Switch to the next layout.
    pub fn new_next() -> (r: Self)
        ensures
            r@ == (WireView {
                class: CLASS_SESSION,
                kind: NowSessionMessageKind::SET_KBD_LAYOUT,
                flags: NowSessionSetKbdLayoutFlags::NEXT_LAYOUT,
                fields: seq![FieldView::Str(Seq::<char>::empty())],
            }),
    {
        proof {
            lemma_layout_flag_bits();
        }
        let m = NowSessionSetKbdLayoutMsg { flags: NowSessionSetKbdLayoutFlags::NEXT_LAYOUT, layout: NowVarStr::empty() };
        proof {
            assert(m@.fields =~= seq![FieldView::Str(Seq::<char>::empty())]);
        }
        m
    }

    /// Switch to the previous layout.
    pub fn new_prev() -> (r: Self)
        ensures
            r@ == (WireView {
                class: CLASS_SESSION,
                kind: NowSessionMessageKind::SET_KBD_LAYOUT,
                flags: NowSessionSetKbdLayoutFlags::PREV_LAYOUT,
                fields: seq![FieldView::Str(Seq::<char>::empty())],
            }),
    {
        proof {
            lemma_layout_flag_bits();
        }
        let m = NowSessionSetKbdLayoutMsg { flags: NowSessionSetKbdLayoutFlags::PREV_LAYOUT, layout: NowVarStr::empty() };
        proof {
            assert(m@.fields =~= seq![FieldView::Str(Seq::<char>::empty())]);
        }
        m
    }

    /// Switch to layout `layout`.
    ///
    /// Fails with `InvalidField` when a string, or the whole body, is too long.
    pub fn new_specific(layout: String) -> (r: Result<Self, PduError>)
        ensures
            r is Ok <==>
                varstr_fits(layout@) && fields_bytes(seq![FieldView::Str(layout@)]).len() <= usize::MAX,
            r matches Ok(m) ==> m@ == (WireView {
                class: CLASS_SESSION,
                kind: NowSessionMessageKind::SET_KBD_LAYOUT,
                flags: 0,
                fields: seq![FieldView::Str(layout@)],
            }),
            r matches Err(e) ==> e is InvalidField,
    {
        proof {
            lemma_layout_flag_bits();
        }
        let layout = NowVarStr::new(layout)?;
        let m = NowSessionSetKbdLayoutMsg { flags: 0, layout };
        proof {
            assert(m@.fields =~= seq![FieldView::Str(layout@)]);
        }
        m.body_size()?;
        Ok(m)
    }

    /// The layout to switch to.
    pub fn layout(&self) -> (r: SetKbdLayoutOption)
        ensures
            r is Next <==> self@.flags & NowSessionSetKbdLayoutFlags::NEXT_LAYOUT != 0,
            r is Prev <==>
                self@.flags & NowSessionSetKbdLayoutFlags::NEXT_LAYOUT == 0 && self@.flags & NowSessionSetKbdLayoutFlags::PREV_LAYOUT != 0,
            r matches SetKbdLayoutOption::Specific(s) ==> self@.fields[0] == FieldView::Str(s@),
    {
        if self.flags & NowSessionSetKbdLayoutFlags::NEXT_LAYOUT != 0 {
            return SetKbdLayoutOption::Next;
        }
        if self.flags & NowSessionSetKbdLayoutFlags::PREV_LAYOUT != 0 {
            return SetKbdLayoutOption::Prev;
        }
        SetKbdLayoutOption::Specific(self.layout.to_string_value())
    }

}

/// Starts window recording.
#[derive(Debug)]
pub struct NowSessionWindowRecStartMsg {
    flags: u16,
    poll_interval: u32,
}

impl View for NowSessionWindowRecStartMsg {
    type V = WireView;

    closed spec fn view(&self) -> WireView {
        WireView {
            class: CLASS_SESSION,
            kind: NowSessionMessageKind::WINDOW_REC_START,
            flags: self.flags,
            fields: seq![FieldView::U32(self.poll_interval)],
        }
    }
}

impl NowSessionWindowRecStartMsg {
    /// The view names the class and kind of this message.
    pub proof fn lemma_tag(&self)
        ensures
            self@.class == CLASS_SESSION,
            self@.kind == NowSessionMessageKind::WINDOW_REC_START,
    {
    }

    /// Kinds of the body fields.
    pub open spec fn body_layout() -> Seq<FieldKind> {
        seq![FieldKind::U32]
    }

    fn layout_vec() -> (r: Vec<FieldKind>)
        ensures
            r@ == Self::body_layout(),
    {
        let mut v: Vec<FieldKind> = Vec::new();
        v.push(FieldKind::U32);
        assert(v@ =~= Self::body_layout());
        v
    }

    /// The body fields.
    pub fn to_fields(&self) -> (r: Vec<Field>)
        ensures
            views(r@) == self@.fields,
            fields_shape(Self::body_layout(), self@.fields),
    {
        let mut v: Vec<Field> = Vec::new();
        v.push(Field::U32(self.poll_interval));
        assert(views(v@) =~= self@.fields);
        assert(fields_shape(Self::body_layout(), self@.fields));
        v
    }

    /// The message of header flags `flags` and body fields `fs`.
    pub fn from_fields(flags: u16, fs: &Vec<Field>) -> (r: Result<Self, PduError>)
        requires
            fields_shape(Self::body_layout(), views(fs@)),
        ensures
            r is Ok,
            r matches Ok(m) ==> m@ == (WireView {
                class: CLASS_SESSION,
                kind: NowSessionMessageKind::WINDOW_REC_START,
                flags: flags,
                fields: views(fs@),
            }),
    {
        let n = fs.len();
        assert(n == 1);
        let poll_interval = get_u32(fs, 0);
        let r = NowSessionWindowRecStartMsg { flags, poll_interval };
        assert(r@.fields =~= views(fs@));
        Ok(r)
    }

    /// Number of body bytes; `InvalidField` when that count overflows `usize`.
    pub fn body_size(&self) -> (r: Result<usize, PduError>)
        ensures
            r matches Ok(n) ==> n == fields_bytes(self@.fields).len(),
            r is Err <==> fields_bytes(self@.fields).len() > usize::MAX,
            r matches Err(e) ==> e is InvalidField,
    {
        fields_size(&self.to_fields())
    }

    /// Number of bytes [`Self::encode`] writes; `InvalidField` when the body does
    /// not fit the header's size field.
    pub fn size(&self) -> (r: Result<usize, PduError>)
        ensures
            r is Ok <==> frame_fits(self@) && frame_bytes(self@).len() <= usize::MAX,
            r matches Ok(n) ==> n == frame_bytes(self@).len(),
    {
        let r = frame_size(&self.to_fields());
        proof {
            lemma_frame_len(self@);
        }
        r
    }

    /// The whole frame: header, then body.
    pub fn encode(&self) -> (r: Result<Vec<u8>, PduError>)
        ensures
            r is Ok <==> frame_fits(self@),
            r matches Ok(b) ==> b@ == frame_bytes(self@),
            fields_shape(Self::body_layout(), self@.fields),
    {
        encode_frame(CLASS_SESSION, NowSessionMessageKind::WINDOW_REC_START, self.flags, &self.to_fields())
    }

    /// Decodes a body of this message type sent with header flags `flags`. Body
    /// bytes after the known fields are ignored.
    pub fn decode_from_body(flags: u16, body: &[u8]) -> (r: Result<Self, PduError>)
        ensures
            forall|m0: Self|
                fields_shape(Self::body_layout(), m0@.fields) &&  m0@.flags == flags && is_prefix(
                    #[trigger] fields_bytes(m0@.fields),
                    body@,
                ) ==> (r matches Ok(m) && m@ == m0@),
    {
        let layout = Self::layout_vec();
        let fs = decode_body_fields(body, &layout)?;
        Self::from_fields(flags, &fs)
    }

    /// Decodes a frame of this message type: checks the header's class and kind,
    /// isolates the body the header announces, and decodes it.
    pub fn decode(buf: &[u8]) -> (r: Result<Self, PduError>)
        ensures
            buf.len() >= 8 && (buf@[4] != CLASS_SESSION || buf@[5] != NowSessionMessageKind::WINDOW_REC_START)
                ==> (r matches Err(e) && e is InvalidField),
            forall|m0: Self, body: Seq<u8>|
                fields_shape(Self::body_layout(), m0@.fields) &&  body_extends(m0@, body) && is_prefix(
                    #[trigger] framed(m0@, body),
                    buf@,
                ) ==> (r matches Ok(m) && m@ == m0@),
    {
        let (flags, body) = split_typed(buf, CLASS_SESSION, NowSessionMessageKind::WINDOW_REC_START)?;
        Self::decode_from_body(flags, body)
    }

    /// Polling interval in milliseconds.
    pub fn poll_interval(&self) -> (r: u32)
        ensures
            self@.fields[0] == FieldView::U32(r),
    {
        self.poll_interval
    }

    /// True when title changes are reported too.
    pub fn is_track_title_change(&self) -> (r: bool)
        ensures
            r == (self@.flags & WindowRecStartFlags::TRACK_TITLE_CHANGE != 0),
    {
        self.flags & WindowRecStartFlags::TRACK_TITLE_CHANGE != 0
    }

    /// Recording that polls every `poll_interval` milliseconds, with header flags `flags`.
    pub fn new(poll_interval: u32, flags: u16) -> (r: Self)
        ensures
            r@ == (WireView {
                class: CLASS_SESSION,
                kind: NowSessionMessageKind::WINDOW_REC_START,
                flags,
                fields: seq![FieldView::U32(poll_interval)],
            }),
    {
        let m = NowSessionWindowRecStartMsg { flags, poll_interval };
        proof {
            assert(m@.fields =~= seq![FieldView::U32(poll_interval)]);
        }
        m
    }

}

/// Window that became active.
#[derive(Debug)]
pub struct ActiveWindowEventData {
    process_id: u32,
    title: NowVarStr,
    executable_path: NowVarStr,
}

impl View for ActiveWindowEventData {
    type V = (u32, Seq<char>, Seq<char>);

    closed spec fn view(&self) -> (u32, Seq<char>, Seq<char>) {
        (self.process_id, self.title@, self.executable_path@)
    }
}

impl ActiveWindowEventData {
    /// The process that owns the window.
    pub fn process_id(&self) -> (r: u32)
        ensures
            r == self@.0,
    {
        self.process_id
    }

    /// The window title.
    pub fn title(&self) -> (r: &str)
        ensures
            r@ == self@.1,
    {
        self.title.value()
    }

    /// The path of the process executable.
    pub fn executable_path(&self) -> (r: &str)
        ensures
            r@ == self@.2,
    {
        self.executable_path.value()
    }
}

/// New title of the active window.
#[derive(Debug)]
pub struct TitleChangedEventData {
    title: NowVarStr,
}

impl View for TitleChangedEventData {
    type V = Seq<char>;

    closed spec fn view(&self) -> Seq<char> {
        self.title@
    }
}

impl TitleChangedEventData {
    /// The new title.
    pub fn title(&self) -> (r: &str)
        ensures
            r@ == self@,
    {
        self.title.value()
    }
}

/// What a window recording event reports.
#[derive(Debug)]
pub enum WindowRecEventKind {
    ActiveWindow(ActiveWindowEventData),
    TitleChanged(TitleChangedEventData),
    NoActiveWindow,
}

/// Header flags of a window recording event.
pub struct WindowRecEventFlags;

impl WindowRecEventFlags {
    /// Another window became active.
    pub const ACTIVE_WINDOW: u16 = 0x0001;

    /// The active window's title changed.
    pub const TITLE_CHANGED: u16 = 0x0002;

    /// No window is active.
    pub const NO_ACTIVE_WINDOW: u16 = 0x0004;
}

/// Reports a change of the active window during window recording.
///
/// The body always holds a timestamp, a process id, a title and an executable
/// path; fields an event does not use are zero or empty.
#[derive(Debug)]
pub struct NowSessionWindowRecEventMsg {
    timestamp: u64,
    kind: WindowRecEventKind,
}

impl View for NowSessionWindowRecEventMsg {
    type V = WireView;

    closed spec fn view(&self) -> WireView {
        match &self.kind {
            WindowRecEventKind::ActiveWindow(d) => WireView {
                class: CLASS_SESSION,
                kind: NowSessionMessageKind::WINDOW_REC_EVENT,
                flags: WindowRecEventFlags::ACTIVE_WINDOW,
                fields: seq![
                    FieldView::U64(self.timestamp),
                    FieldView::U32(d@.0),
                    FieldView::Str(d@.1),
                    FieldView::Str(d@.2),
                ],
            },
            WindowRecEventKind::TitleChanged(d) => WireView {
                class: CLASS_SESSION,
                kind: NowSessionMessageKind::WINDOW_REC_EVENT,
                flags: WindowRecEventFlags::TITLE_CHANGED,
                fields: seq![
                    FieldView::U64(self.timestamp),
                    FieldView::U32(0),
                    FieldView::Str(d@),
                    FieldView::Str(Seq::<char>::empty()),
                ],
            },
            WindowRecEventKind::NoActiveWindow => WireView {
                class: CLASS_SESSION,
                kind: NowSessionMessageKind::WINDOW_REC_EVENT,
                flags: WindowRecEventFlags::NO_ACTIVE_WINDOW,
                fields: seq![
                    FieldView::U64(self.timestamp),
                    FieldView::U32(0),
                    FieldView::Str(Seq::<char>::empty()),
                    FieldView::Str(Seq::<char>::empty()),
                ],
            },
        }
    }
}

impl NowSessionWindowRecEventMsg {
    /// The view names the class and kind of this message.
    pub proof fn lemma_tag(&self)
        ensures
            self@.class == CLASS_SESSION,
            self@.kind == NowSessionMessageKind::WINDOW_REC_EVENT,
    {
    }

    /// Kinds of the body fields.
    pub open spec fn body_layout() -> Seq<FieldKind> {
        seq![FieldKind::U64, FieldKind::U32, FieldKind::Str, FieldKind::Str]
    }

    /// Window of process `process_id`, titled `title`, running `executable_path`,
    /// became active at `timestamp`; fails with `InvalidField` when a string is too
    /// long.
    pub fn active_window(timestamp: u64, process_id: u32, title: String, executable_path: String) -> (r: Result<Self, PduError>)
        ensures
            r is Ok <==> varstr_fits(title@) && varstr_fits(executable_path@),
            r matches Ok(m) ==> m@ == (WireView {
                class: CLASS_SESSION,
                kind: NowSessionMessageKind::WINDOW_REC_EVENT,
                flags: WindowRecEventFlags::ACTIVE_WINDOW,
                fields: seq![
                    FieldView::U64(timestamp),
                    FieldView::U32(process_id),
                    FieldView::Str(title@),
                    FieldView::Str(executable_path@),
                ],
            }),
            r matches Err(e) ==> e is InvalidField,
    {
        let title = NowVarStr::new(title)?;
        let executable_path = NowVarStr::new(executable_path)?;
        Ok(NowSessionWindowRecEventMsg {
            timestamp,
            kind: WindowRecEventKind::ActiveWindow(ActiveWindowEventData { process_id, title, executable_path }),
        })
    }

    /// The active window's title became `title` at `timestamp`; fails with
    /// `InvalidField` when the title is too long.
    pub fn title_changed(timestamp: u64, title: String) -> (r: Result<Self, PduError>)
        ensures
            r is Ok <==> varstr_fits(title@),
            r matches Ok(m) ==> m@ == (WireView {
                class: CLASS_SESSION,
                kind: NowSessionMessageKind::WINDOW_REC_EVENT,
                flags: WindowRecEventFlags::TITLE_CHANGED,
                fields: seq![
                    FieldView::U64(timestamp),
                    FieldView::U32(0),
                    FieldView::Str(title@),
                    FieldView::Str(Seq::<char>::empty()),
                ],
            }),
            r matches Err(e) ==> e is InvalidField,
    {
        let title = NowVarStr::new(title)?;
        Ok(NowSessionWindowRecEventMsg { timestamp, kind: WindowRecEventKind::TitleChanged(TitleChangedEventData { title }) })
    }

    /// No window is active at `timestamp`.
    pub fn no_active_window(timestamp: u64) -> (r: Self)
        ensures
            r@ == (WireView {
                class: CLASS_SESSION,
                kind: NowSessionMessageKind::WINDOW_REC_EVENT,
                flags: WindowRecEventFlags::NO_ACTIVE_WINDOW,
                fields: seq![
                    FieldView::U64(timestamp),
                    FieldView::U32(0),
                    FieldView::Str(Seq::<char>::empty()),
                    FieldView::Str(Seq::<char>::empty()),
                ],
            }),
    {
        NowSessionWindowRecEventMsg { timestamp, kind: WindowRecEventKind::NoActiveWindow }
    }

    /// The time of the event.
    pub fn timestamp(&self) -> (r: u64)
        ensures
            self@.fields[0] == FieldView::U64(r),
    {
        self.timestamp
    }

    /// What the event reports.
    pub fn kind(&self) -> (r: &WindowRecEventKind)
        ensures
            r is ActiveWindow <==> self@.flags == WindowRecEventFlags::ACTIVE_WINDOW,
            r is TitleChanged <==> self@.flags == WindowRecEventFlags::TITLE_CHANGED,
            r is NoActiveWindow <==> self@.flags == WindowRecEventFlags::NO_ACTIVE_WINDOW,
            r matches WindowRecEventKind::ActiveWindow(d) ==> self@.fields[1] == FieldView::U32(d@.0)
                && self@.fields[2] == FieldView::Str(d@.1) && self@.fields[3] == FieldView::Str(d@.2),
            r matches WindowRecEventKind::TitleChanged(d) ==> self@.fields[2] == FieldView::Str(d@),
    {
        &self.kind
    }

    /// The body fields.
    pub fn to_fields(&self) -> (r: Vec<Field>)
        ensures
            views(r@) == self@.fields,
            fields_shape(Self::body_layout(), self@.fields),
    {
        let mut v: Vec<Field> = Vec::new();
        v.push(Field::U64(self.timestamp));
        match &self.kind {
            WindowRecEventKind::ActiveWindow(d) => {
                v.push(Field::U32(d.process_id));
                v.push(Field::Str(d.title.duplicate()));
                v.push(Field::Str(d.executable_path.duplicate()));
            },
            WindowRecEventKind::TitleChanged(d) => {
                v.push(Field::U32(0));
                v.push(Field::Str(d.title.duplicate()));
                v.push(Field::Str(NowVarStr::empty()));
            },
            WindowRecEventKind::NoActiveWindow => {
                v.push(Field::U32(0));
                v.push(Field::Str(NowVarStr::empty()));
                v.push(Field::Str(NowVarStr::empty()));
            },
        }
        assert(views(v@) =~= self@.fields);
        assert(fields_shape(Self::body_layout(), self@.fields));
        v
    }

    fn flags(&self) -> (r: u16)
        ensures
            r == self@.flags,
    {
        match &self.kind {
            WindowRecEventKind::ActiveWindow(_) => WindowRecEventFlags::ACTIVE_WINDOW,
            WindowRecEventKind::TitleChanged(_) => WindowRecEventFlags::TITLE_CHANGED,
            WindowRecEventKind::NoActiveWindow => WindowRecEventFlags::NO_ACTIVE_WINDOW,
        }
    }

    /// Number of body bytes.
    pub fn body_size(&self) -> (r: Result<usize, PduError>)
        ensures
            r matches Ok(n) ==> n == fields_bytes(self@.fields).len(),
            r is Err <==> fields_bytes(self@.fields).len() > usize::MAX,
            r matches Err(e) ==> e is InvalidField,
    {
        fields_size(&self.to_fields())
    }

    /// Number of bytes [`Self::encode`] writes.
    pub fn size(&self) -> (r: Result<usize, PduError>)
        ensures
            r is Ok <==> frame_fits(self@) && frame_bytes(self@).len() <= usize::MAX,
            r matches Ok(n) ==> n == frame_bytes(self@).len(),
    {
        let r = frame_size(&self.to_fields());
        proof {
            lemma_frame_len(self@);
        }
        r
    }

    /// The whole frame: header, then body.
    pub fn encode(&self) -> (r: Result<Vec<u8>, PduError>)
        ensures
            r is Ok <==> frame_fits(self@),
            r matches Ok(b) ==> b@ == frame_bytes(self@),
            fields_shape(Self::body_layout(), self@.fields),
    {
        encode_frame(CLASS_SESSION, NowSessionMessageKind::WINDOW_REC_EVENT, self.flags(), &self.to_fields())
    }

    /// Decodes a body of this message type sent with header flags `flags`:
    /// `ACTIVE_WINDOW` wins over `TITLE_CHANGED`, which wins over
    /// `NO_ACTIVE_WINDOW`; with none of them set the body is refused with
    /// `InvalidField`. Body bytes after the known fields are ignored.
    pub fn decode_from_body(flags: u16, body: &[u8]) -> (r: Result<Self, PduError>)
        ensures
            forall|m0: Self|
                fields_shape(Self::body_layout(), m0@.fields) && m0@.flags == flags && is_prefix(
                    #[trigger] fields_bytes(m0@.fields),
                    body@,
                ) ==> (r matches Ok(m) && m@ == m0@),
    {
        let mut layout: Vec<FieldKind> = Vec::new();
        layout.push(FieldKind::U64);
        layout.push(FieldKind::U32);
        layout.push(FieldKind::Str);
        layout.push(FieldKind::Str);
        assert(layout@ =~= Self::body_layout());
        let fs = decode_body_fields(body, &layout)?;
        let n = fs.len();
        assert(n == 4);
        proof {
            assert(1u16 & 1u16 != 0) by (bit_vector);
            assert(2u16 & 1u16 == 0) by (bit_vector);
            assert(2u16 & 2u16 != 0) by (bit_vector);
            assert(4u16 & 1u16 == 0) by (bit_vector);
            assert(4u16 & 2u16 == 0) by (bit_vector);
            assert(4u16 & 4u16 != 0) by (bit_vector);
        }
        let timestamp = get_u64(&fs, 0);
        let kind = if flags & WindowRecEventFlags::ACTIVE_WINDOW != 0 {
            let process_id = get_u32(&fs, 1);
            let title = get_str(&fs, 2);
            let executable_path = get_str(&fs, 3);
            WindowRecEventKind::ActiveWindow(ActiveWindowEventData { process_id, title, executable_path })
        } else if flags & WindowRecEventFlags::TITLE_CHANGED != 0 {
            let title = get_str(&fs, 2);
            WindowRecEventKind::TitleChanged(TitleChangedEventData { title })
        } else if flags & WindowRecEventFlags::NO_ACTIVE_WINDOW != 0 {
            WindowRecEventKind::NoActiveWindow
        } else {
            return Err(PduError::invalid_field("flags", "unsupported window recording event flags"));
        };
        let m = NowSessionWindowRecEventMsg { timestamp, kind };
        proof {
            assert forall|m0: Self|
                fields_shape(Self::body_layout(), m0@.fields) && m0@.flags == flags && is_prefix(
                    #[trigger] fields_bytes(m0@.fields),
                    body@,
                ) implies m@ == m0@ by {
                assert(m@.fields =~= m0@.fields);
            }
        }
        Ok(m)
    }

    /// Decodes a frame of this message type: checks the header's class and kind,
    /// isolates the body the header announces, and decodes it.
    pub fn decode(buf: &[u8]) -> (r: Result<Self, PduError>)
        ensures
            buf.len() >= 8 && (buf@[4] != CLASS_SESSION || buf@[5] != NowSessionMessageKind::WINDOW_REC_EVENT)
                ==> (r matches Err(e) && e is InvalidField),
            forall|m0: Self, body: Seq<u8>|
                fields_shape(Self::body_layout(), m0@.fields) && body_extends(m0@, body) && is_prefix(
                    #[trigger] framed(m0@, body),
                    buf@,
                ) ==> (r matches Ok(m) && m@ == m0@),
    {
        let (flags, body) = split_typed(buf, CLASS_SESSION, NowSessionMessageKind::WINDOW_REC_EVENT)?;
        Self::decode_from_body(flags, body)
    }
}

} // verus!
