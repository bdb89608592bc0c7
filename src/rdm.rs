//! Remote Desktop Manager messages.
use vstd::prelude::*;

use crate::error::PduError;
use crate::field::{
    fields_bytes, fields_shape, fields_size, get_guid, get_str, get_u32, get_u64, views, Field,
    FieldKind, FieldView,
};
use crate::guid::{uuid_parse, uuid_text, NowGuid};
use crate::header::{
    body_extends, decode_body_fields, split_typed, encode_frame, frame_bytes, frame_fits,
    frame_size, framed, lemma_frame_len, WireView,
};
use crate::string::{varstr_fits, NowVarStr};
use crate::wire::is_prefix;

use crate::header::CLASS_RDM;

verus! {

/// Kinds of the RDM message class.
pub struct NowRdmMsgKind;

impl NowRdmMsgKind {
    /// Capabilities.
    pub const CAPABILITIES: u8 = 0x01;

    /// Start the application.
    pub const APP_START: u8 = 0x02;

    /// Act on the application window.
    pub const APP_ACTION: u8 = 0x03;

    /// Application state.
    pub const APP_NOTIFY: u8 = 0x04;

    /// Start a session.
    pub const SESSION_START: u8 = 0x05;

    /// Act on a session.
    pub const SESSION_ACTION: u8 = 0x06;

    /// Session state.
    pub const SESSION_NOTIFY: u8 = 0x07;

}

/// Launch flags of an application start.
pub struct NowRdmLaunchFlags;

impl NowRdmLaunchFlags {
    /// Jump mode.
    pub const JUMP_MODE: u32 = 0x00000001;

    /// Start maximized.
    pub const MAXIMIZED: u32 = 0x00000002;

    /// Start in full screen.
    pub const FULLSCREEN: u32 = 0x00000004;

}

/// Synchronisation flags of the capabilities.
pub struct NowRdmSyncFlags;

impl NowRdmSyncFlags {
    /// The application is available.
    pub const APP_AVAILABLE: u32 = 0x00000001;

}

/// Action on the application window.
#[derive(Debug, Clone, Copy, PartialEq, Eq)]
pub struct NowRdmAppAction(u32);

impl View for NowRdmAppAction {
    type V = u32;

    closed spec fn view(&self) -> u32 {
        self.0
    }
}

impl NowRdmAppAction {
    /// Close.
    pub const CLOSE: u32 = 0x00000001;

    /// Minimize.
    pub const MINIMIZE: u32 = 0x00000002;

    /// Maximize.
    pub const MAXIMIZE: u32 = 0x00000003;

    /// Restore.
    pub const RESTORE: u32 = 0x00000004;

    /// Full screen.
    pub const FULLSCREEN: u32 = 0x00000005;

    /// Wraps a wire value.
    pub fn new(value: u32) -> (r: Self)
        ensures
            r@ == value,
    {
        NowRdmAppAction(value)
    }

    /// The wire value.
    pub fn value(&self) -> (r: u32)
        ensures
            r == self@,
    {
        self.0
    }
}

/// State of the application.
#[derive(Debug, Clone, Copy, PartialEq, Eq)]
pub struct NowRdmAppState(u32);

impl View for NowRdmAppState {
    type V = u32;

    closed spec fn view(&self) -> u32 {
        self.0
    }
}

impl NowRdmAppState {
    /// Ready.
    pub const READY: u32 = 0x00000001;

    /// Failed.
    pub const FAILED: u32 = 0x00000002;

    /// Closed.
    pub const CLOSED: u32 = 0x00000003;

    /// Minimized.
    pub const MINIMIZED: u32 = 0x00000004;

    /// Maximized.
    pub const MAXIMIZED: u32 = 0x00000005;

    /// Restored.
    pub const RESTORED: u32 = 0x00000006;

    /// Full screen.
    pub const FULLSCREEN: u32 = 0x00000007;

    /// Wraps a wire value.
    pub fn new(value: u32) -> (r: Self)
        ensures
            r@ == value,
    {
        NowRdmAppState(value)
    }

    /// The wire value.
    pub fn value(&self) -> (r: u32)
        ensures
            r == self@,
    {
        self.0
    }
}

/// Reason of an application state.
#[derive(Debug, Clone, Copy, PartialEq, Eq)]
pub struct NowRdmReason(u32);

impl View for NowRdmReason {
    type V = u32;

    closed spec fn view(&self) -> u32 {
        self.0
    }
}

impl NowRdmReason {
    /// Not specified.
    pub const NOT_SPECIFIED: u32 = 0x00000000;

    /// The user asked for it.
    pub const USER_INITIATED: u32 = 0x00000001;

    /// The application is not installed.
    pub const NOT_INSTALLED: u32 = 0x00000002;

    /// The application failed to start.
    pub const STARTUP_FAILURE: u32 = 0x00000003;

    /// The launch timed out.
    pub const LAUNCH_TIMEOUT: u32 = 0x00000004;

    /// Wraps a wire value.
    pub fn new(value: u32) -> (r: Self)
        ensures
            r@ == value,
    {
        NowRdmReason(value)
    }

    /// The wire value.
    pub fn value(&self) -> (r: u32)
        ensures
            r == self@,
    {
        self.0
    }
}

/// Action on an RDM session.
#[derive(Debug, Clone, Copy, PartialEq, Eq)]
pub struct NowRdmSessionAction(u32);

impl View for NowRdmSessionAction {
    type V = u32;

    closed spec fn view(&self) -> u32 {
        self.0
    }
}

impl NowRdmSessionAction {
    /// Close.
    pub const CLOSE: u32 = 0x00000001;

    /// Focus.
    pub const FOCUS: u32 = 0x00000002;

    /// Wraps a wire value.
    pub fn new(value: u32) -> (r: Self)
        ensures
            r@ == value,
    {
        NowRdmSessionAction(value)
    }

    /// The wire value.
    pub fn value(&self) -> (r: u32)
        ensures
            r == self@,
    {
        self.0
    }
}

/// State change of an RDM session.
#[derive(Debug, Clone, Copy, PartialEq, Eq)]
pub struct NowRdmSessionNotifyKind(u32);

impl View for NowRdmSessionNotifyKind {
    type V = u32;

    closed spec fn view(&self) -> u32 {
        self.0
    }
}

impl NowRdmSessionNotifyKind {
    /// Closed.
    pub const CLOSE: u32 = 0x00000001;

    /// Focused.
    pub const FOCUS: u32 = 0x00000002;

    /// Wraps a wire value.
    pub fn new(value: u32) -> (r: Self)
        ensures
            r@ == value,
    {
        NowRdmSessionNotifyKind(value)
    }

    /// The wire value.
    pub fn value(&self) -> (r: u32)
        ensures
            r == self@,
    {
        self.0
    }
}

/// Exchanges RDM capabilities.
#[derive(Debug)]
pub struct NowRdmCapabilitiesMsg {
    timestamp: u64,
    sync_flags: u32,
    rdm_version: NowVarStr,
    version_extra: NowVarStr,
}

impl View for NowRdmCapabilitiesMsg {
    type V = WireView;

    closed spec fn view(&self) -> WireView {
        WireView {
            class: CLASS_RDM,
            kind: NowRdmMsgKind::CAPABILITIES,
            flags: 0u16,
            fields: seq![
                FieldView::U64(self.timestamp),
                FieldView::U32(self.sync_flags),
                FieldView::Str(self.rdm_version@),
                FieldView::Str(self.version_extra@),
            ],
        }
    }
}

impl NowRdmCapabilitiesMsg {
    /// The view names the class and kind of this message.
    pub proof fn lemma_tag(&self)
        ensures
            self@.class == CLASS_RDM,
            self@.kind == NowRdmMsgKind::CAPABILITIES,
    {
    }

    /// Kinds of the body fields.
    pub open spec fn body_layout() -> Seq<FieldKind> {
        seq![FieldKind::U64, FieldKind::U32, FieldKind::Str, FieldKind::Str]
    }

    fn layout_vec() -> (r: Vec<FieldKind>)
        ensures
            r@ == Self::body_layout(),
    {
        let mut v: Vec<FieldKind> = Vec::new();
        v.push(FieldKind::U64);
        v.push(FieldKind::U32);
        v.push(FieldKind::Str);
        v.push(FieldKind::Str);
        assert(v@ =~= Self::body_layout());
        v
    }

    /// The body fields.
    pub fn to_fields(&self) -> (r: Vec<Field>)
        ensures
            views(r@) == self@.fields,
            fields_shape(Self::body_layout(), self@.fields),
    {
        let mut v: Vec<Field> = Vec::new();
        v.push(Field::U64(self.timestamp));
        v.push(Field::U32(self.sync_flags));
        v.push(Field::Str(self.rdm_version.duplicate()));
        v.push(Field::Str(self.version_extra.duplicate()));
        assert(views(v@) =~= self@.fields);
        assert(fields_shape(Self::body_layout(), self@.fields));
        v
    }

    /// The message of header flags `flags` and body fields `fs`.
    pub fn from_fields(flags: u16, fs: &Vec<Field>) -> (r: Result<Self, PduError>)
        requires
            fields_shape(Self::body_layout(), views(fs@)),
        ensures
            r is Ok,
            r matches Ok(m) ==> m@ == (WireView {
                class: CLASS_RDM,
                kind: NowRdmMsgKind::CAPABILITIES,
                flags: 0u16,
                fields: views(fs@),
            }),
    {
        let n = fs.len();
        assert(n == 4);
        let timestamp = get_u64(fs, 0);
        let sync_flags = get_u32(fs, 1);
        let rdm_version = get_str(fs, 2);
        let version_extra = get_str(fs, 3);
        let r = NowRdmCapabilitiesMsg { timestamp, sync_flags, rdm_version, version_extra };
        assert(r@.fields =~= views(fs@));
        Ok(r)
    }

    /// Number of body bytes; `InvalidField` when that count overflows `usize`.
    pub fn body_size(&self) -> (r: Result<usize, PduError>)
        ensures
            r matches Ok(n) ==> n == fields_bytes(self@.fields).len(),
            r is Err <==> fields_bytes(self@.fields).len() > usize::MAX,
            r matches Err(e) ==> e is InvalidField,
    {
        fields_size(&self.to_fields())
    }

    /// Number of bytes [`Self::encode`] writes; `InvalidField` when the body does
    /// not fit the header's size field.
    pub fn size(&self) -> (r: Result<usize, PduError>)
        ensures
            r is Ok <==> frame_fits(self@) && frame_bytes(self@).len() <= usize::MAX,
            r matches Ok(n) ==> n == frame_bytes(self@).len(),
    {
        let r = frame_size(&self.to_fields());
        proof {
            lemma_frame_len(self@);
        }
        r
    }

    /// The whole frame: header, then body.
    pub fn encode(&self) -> (r: Result<Vec<u8>, PduError>)
        ensures
            r is Ok <==> frame_fits(self@),
            r matches Ok(b) ==> b@ == frame_bytes(self@),
            fields_shape(Self::body_layout(), self@.fields),
    {
        encode_frame(CLASS_RDM, NowRdmMsgKind::CAPABILITIES, 0, &self.to_fields())
    }

    /// Decodes a body of this message type sent with header flags `flags`. Body
    /// bytes after the known fields are ignored.
    pub fn decode_from_body(flags: u16, body: &[u8]) -> (r: Result<Self, PduError>)
        ensures
            forall|m0: Self|
                fields_shape(Self::body_layout(), m0@.fields) &&  m0@.flags == flags && is_prefix(
                    #[trigger] fields_bytes(m0@.fields),
                    body@,
                ) ==> (r matches Ok(m) && m@ == m0@),
    {
        let layout = Self::layout_vec();
        let fs = decode_body_fields(body, &layout)?;
        Self::from_fields(flags, &fs)
    }

    /// Decodes a frame of this message type: checks the header's class and kind,
    /// isolates the body the header announces, and decodes it.
    pub fn decode(buf: &[u8]) -> (r: Result<Self, PduError>)
        ensures
            buf.len() >= 8 && (buf@[4] != CLASS_RDM || buf@[5] != NowRdmMsgKind::CAPABILITIES)
                ==> (r matches Err(e) && e is InvalidField),
            forall|m0: Self, body: Seq<u8>|
                fields_shape(Self::body_layout(), m0@.fields) &&  body_extends(m0@, body) && is_prefix(
                    #[trigger] framed(m0@, body),
                    buf@,
                ) ==> (r matches Ok(m) && m@ == m0@),
    {
        let (flags, body) = split_typed(buf, CLASS_RDM, NowRdmMsgKind::CAPABILITIES)?;
        Self::decode_from_body(flags, body)
    }

    /// Capabilities at `timestamp` of RDM version `rdm_version`.
    ///
    /// Fails with `InvalidField` when a string, or the whole body, is too long.
    pub fn new(timestamp: u64, rdm_version: String) -> (r: Result<Self, PduError>)
        ensures
            r is Ok <==> varstr_fits(rdm_version@) && fields_bytes(seq![
                FieldView::U64(timestamp),
                FieldView::U32(0),
                FieldView::Str(rdm_version@),
                FieldView::Str(Seq::<char>::empty()),
            ]).len() <= usize::MAX,
            r matches Ok(m) ==> m@ == (WireView {
                class: CLASS_RDM,
                kind: NowRdmMsgKind::CAPABILITIES,
                flags: 0u16,
                fields: seq![
                    FieldView::U64(timestamp),
                    FieldView::U32(0),
                    FieldView::Str(rdm_version@),
                    FieldView::Str(Seq::<char>::empty()),
                ],
            }),
            r matches Err(e) ==> e is InvalidField,
    {
        let rdm_version = NowVarStr::new(rdm_version)?;
        let m = NowRdmCapabilitiesMsg { timestamp, sync_flags: 0, rdm_version, version_extra: NowVarStr::empty() };
        proof {
            assert(m@.fields =~= seq![
                FieldView::U64(timestamp),
                FieldView::U32(0),
                FieldView::Str(rdm_version@),
                FieldView::Str(Seq::<char>::empty()),
            ]);
        }
        m.body_size()?;
        Ok(m)
    }

    /// The same message with extra version text.
    ///
    /// Fails with `InvalidField` when the string, or the whole body, is too long.
    pub fn with_version_extra(self, version_extra: String) -> (r: Result<Self, PduError>)
        ensures
            r is Ok <==>
                varstr_fits(version_extra@) && fields_bytes(self@.fields.update(3, FieldView::Str(version_extra@))).len() <= usize::MAX,
            r matches Ok(m) ==> m@ == (WireView {
                class: CLASS_RDM,
                kind: NowRdmMsgKind::CAPABILITIES,
                flags: self@.flags,
                fields: self@.fields.update(3, FieldView::Str(version_extra@)),
            }),
            r matches Err(e) ==> e is InvalidField,
    {
        let ghost old_view = self@;
        let s = NowVarStr::new(version_extra)?;
        let mut m = self;
        m.version_extra = s;
        proof {
            assert(m@.fields =~= old_view.fields.update(3, FieldView::Str(version_extra@)));
        }
        m.body_size()?;
        Ok(m)
    }

    /// The same message, with the application available.
    pub fn with_app_available(self) -> (r: Self)
        ensures
            r@ == (WireView {
                class: self@.class,
                kind: self@.kind,
                flags: self@.flags,
                fields: self@.fields.update(1, FieldView::U32(self@.fields[1]->U32_0 | NowRdmSyncFlags::APP_AVAILABLE)),
            }),
    {
        let ghost old_view = self@;
        let mut m = self;
        m.sync_flags = m.sync_flags | NowRdmSyncFlags::APP_AVAILABLE;
        proof {
            assert(m@.fields =~= old_view.fields.update(1, FieldView::U32(old_view.fields[1]->U32_0 | NowRdmSyncFlags::APP_AVAILABLE)));
        }
        m
    }

    /// True when the application is available.
    pub fn is_app_available(&self) -> (r: bool)
        ensures
            r == (self@.fields[1]->U32_0 & NowRdmSyncFlags::APP_AVAILABLE != 0),
    {
        self.sync_flags & NowRdmSyncFlags::APP_AVAILABLE != 0
    }

    /// The timestamp.
    pub fn timestamp(&self) -> (r: u64)
        ensures
            self@.fields[0] == FieldView::U64(r),
    {
        self.timestamp
    }

    /// The RDM version.
    pub fn rdm_version(&self) -> (r: &str)
        ensures
            self@.fields[2] == FieldView::Str(r@),
    {
        self.rdm_version.value()
    }

    /// The extra version text.
    pub fn version_extra(&self) -> (r: &str)
        ensures
            self@.fields[3] == FieldView::Str(r@),
    {
        self.version_extra.value()
    }

}

/// Starts the RDM application.
#[derive(Debug)]
pub struct NowRdmAppStartMsg {
    launch_flags: u32,
    timeout: u32,
}

impl View for NowRdmAppStartMsg {
    type V = WireView;

    closed spec fn view(&self) -> WireView {
        WireView {
            class: CLASS_RDM,
            kind: NowRdmMsgKind::APP_START,
            flags: 0u16,
            fields: seq![FieldView::U32(self.launch_flags), FieldView::U32(self.timeout)],
        }
    }
}

impl NowRdmAppStartMsg {
    /// The view names the class and kind of this message.
    pub proof fn lemma_tag(&self)
        ensures
            self@.class == CLASS_RDM,
            self@.kind == NowRdmMsgKind::APP_START,
    {
    }

    /// Kinds of the body fields.
    pub open spec fn body_layout() -> Seq<FieldKind> {
        seq![FieldKind::U32, FieldKind::U32]
    }

    fn layout_vec() -> (r: Vec<FieldKind>)
        ensures
            r@ == Self::body_layout(),
    {
        let mut v: Vec<FieldKind> = Vec::new();
        v.push(FieldKind::U32);
        v.push(FieldKind::U32);
        assert(v@ =~= Self::body_layout());
        v
    }

    /// The body fields.
    pub fn to_fields(&self) -> (r: Vec<Field>)
        ensures
            views(r@) == self@.fields,
            fields_shape(Self::body_layout(), self@.fields),
    {
        let mut v: Vec<Field> = Vec::new();
        v.push(Field::U32(self.launch_flags));
        v.push(Field::U32(self.timeout));
        assert(views(v@) =~= self@.fields);
        assert(fields_shape(Self::body_layout(), self@.fields));
        v
    }

    /// The message of header flags `flags` and body fields `fs`.
    pub fn from_fields(flags: u16, fs: &Vec<Field>) -> (r: Result<Self, PduError>)
        requires
            fields_shape(Self::body_layout(), views(fs@)),
        ensures
            r is Ok,
            r matches Ok(m) ==> m@ == (WireView {
                class: CLASS_RDM,
                kind: NowRdmMsgKind::APP_START,
                flags: 0u16,
                fields: views(fs@),
            }),
    {
        let n = fs.len();
        assert(n == 2);
        let launch_flags = get_u32(fs, 0);
        let timeout = get_u32(fs, 1);
        let r = NowRdmAppStartMsg { launch_flags, timeout };
        assert(r@.fields =~= views(fs@));
        Ok(r)
    }

    /// Number of body bytes; `InvalidField` when that count overflows `usize`.
    pub fn body_size(&self) -> (r: Result<usize, PduError>)
        ensures
            r matches Ok(n) ==> n == fields_bytes(self@.fields).len(),
            r is Err <==> fields_bytes(self@.fields).len() > usize::MAX,
            r matches Err(e) ==> e is InvalidField,
    {
        fields_size(&self.to_fields())
    }

    /// Number of bytes [`Self::encode`] writes; `InvalidField` when the body does
    /// not fit the header's size field.
    pub fn size(&self) -> (r: Result<usize, PduError>)
        ensures
            r is Ok <==> frame_fits(self@) && frame_bytes(self@).len() <= usize::MAX,
            r matches Ok(n) ==> n == frame_bytes(self@).len(),
    {
        let r = frame_size(&self.to_fields());
        proof {
            lemma_frame_len(self@);
        }
        r
    }

    /// The whole frame: header, then body.
    pub fn encode(&self) -> (r: Result<Vec<u8>, PduError>)
        ensures
            r is Ok <==> frame_fits(self@),
            r matches Ok(b) ==> b@ == frame_bytes(self@),
            fields_shape(Self::body_layout(), self@.fields),
    {
        encode_frame(CLASS_RDM, NowRdmMsgKind::APP_START, 0, &self.to_fields())
    }

    /// Decodes a body of this message type sent with header flags `flags`. Body
    /// bytes after the known fields are ignored.
    pub fn decode_from_body(flags: u16, body: &[u8]) -> (r: Result<Self, PduError>)
        ensures
            forall|m0: Self|
                fields_shape(Self::body_layout(), m0@.fields) &&  m0@.flags == flags && is_prefix(
                    #[trigger] fields_bytes(m0@.fields),
                    body@,
                ) ==> (r matches Ok(m) && m@ == m0@),
    {
        let layout = Self::layout_vec();
        let fs = decode_body_fields(body, &layout)?;
        Self::from_fields(flags, &fs)
    }

    /// Decodes a frame of this message type: checks the header's class and kind,
    /// isolates the body the header announces, and decodes it.
    pub fn decode(buf: &[u8]) -> (r: Result<Self, PduError>)
        ensures
            buf.len() >= 8 && (buf@[4] != CLASS_RDM || buf@[5] != NowRdmMsgKind::APP_START)
                ==> (r matches Err(e) && e is InvalidField),
            forall|m0: Self, body: Seq<u8>|
                fields_shape(Self::body_layout(), m0@.fields) &&  body_extends(m0@, body) && is_prefix(
                    #[trigger] framed(m0@, body),
                    buf@,
                ) ==> (r matches Ok(m) && m@ == m0@),
    {
        let (flags, body) = split_typed(buf, CLASS_RDM, NowRdmMsgKind::APP_START)?;
        Self::decode_from_body(flags, body)
    }

    /// The same message with a launch timeout of `timeout` seconds.
    pub fn with_timeout(self, timeout: u32) -> (r: Self)
        ensures
            r@ == (WireView {
                class: CLASS_RDM,
                kind: NowRdmMsgKind::APP_START,
                flags: self@.flags,
                fields: self@.fields.update(1, FieldView::U32(timeout)),
            }),
    {
        let mut m = self;
        m.timeout = timeout;
        proof {
            assert(m@.fields =~= self@.fields.update(1, FieldView::U32(timeout)));
        }
        m
    }

    /// The same message in jump mode.
    pub fn with_jump_mode(self) -> (r: Self)
        ensures
            r@ == (WireView {
                class: self@.class,
                kind: self@.kind,
                flags: self@.flags,
                fields: self@.fields.update(0, FieldView::U32(self@.fields[0]->U32_0 | NowRdmLaunchFlags::JUMP_MODE)),
            }),
    {
        let ghost old_view = self@;
        let mut m = self;
        m.launch_flags = m.launch_flags | NowRdmLaunchFlags::JUMP_MODE;
        proof {
            assert(m@.fields =~= old_view.fields.update(0, FieldView::U32(old_view.fields[0]->U32_0 | NowRdmLaunchFlags::JUMP_MODE)));
        }
        m
    }

    /// The same message, starting maximized.
    pub fn with_maximized(self) -> (r: Self)
        ensures
            r@ == (WireView {
                class: self@.class,
                kind: self@.kind,
                flags: self@.flags,
                fields: self@.fields.update(0, FieldView::U32(self@.fields[0]->U32_0 | NowRdmLaunchFlags::MAXIMIZED)),
            }),
    {
        let ghost old_view = self@;
        let mut m = self;
        m.launch_flags = m.launch_flags | NowRdmLaunchFlags::MAXIMIZED;
        proof {
            assert(m@.fields =~= old_view.fields.update(0, FieldView::U32(old_view.fields[0]->U32_0 | NowRdmLaunchFlags::MAXIMIZED)));
        }
        m
    }

    /// The same message, starting in full screen.
    pub fn with_fullscreen(self) -> (r: Self)
        ensures
            r@ == (WireView {
                class: self@.class,
                kind: self@.kind,
                flags: self@.flags,
                fields: self@.fields.update(0, FieldView::U32(self@.fields[0]->U32_0 | NowRdmLaunchFlags::FULLSCREEN)),
            }),
    {
        let ghost old_view = self@;
        let mut m = self;
        m.launch_flags = m.launch_flags | NowRdmLaunchFlags::FULLSCREEN;
        proof {
            assert(m@.fields =~= old_view.fields.update(0, FieldView::U32(old_view.fields[0]->U32_0 | NowRdmLaunchFlags::FULLSCREEN)));
        }
        m
    }

    /// True in jump mode.
    pub fn is_jump_mode(&self) -> (r: bool)
        ensures
            r == (self@.fields[0]->U32_0 & NowRdmLaunchFlags::JUMP_MODE != 0),
    {
        self.launch_flags & NowRdmLaunchFlags::JUMP_MODE != 0
    }

    /// True when starting maximized.
    pub fn is_maximized(&self) -> (r: bool)
        ensures
            r == (self@.fields[0]->U32_0 & NowRdmLaunchFlags::MAXIMIZED != 0),
    {
        self.launch_flags & NowRdmLaunchFlags::MAXIMIZED != 0
    }

    /// True when starting in full screen.
    pub fn is_fullscreen(&self) -> (r: bool)
        ensures
            r == (self@.fields[0]->U32_0 & NowRdmLaunchFlags::FULLSCREEN != 0),
    {
        self.launch_flags & NowRdmLaunchFlags::FULLSCREEN != 0
    }

    /// The launch timeout in seconds.
    pub fn timeout(&self) -> (r: u32)
        ensures
            self@.fields[1] == FieldView::U32(r),
    {
        self.timeout
    }

    /// No launch flags and the default timeout of 45 seconds.
    pub fn new() -> (r: Self)
        ensures
            r@ == (WireView {
                class: CLASS_RDM,
                kind: NowRdmMsgKind::APP_START,
                flags: 0u16,
                fields: seq![FieldView::U32(0), FieldView::U32(45)],
            }),
    {
        let m = NowRdmAppStartMsg { launch_flags: 0, timeout: 45 };
        proof {
            assert(m@.fields =~= seq![FieldView::U32(0), FieldView::U32(45)]);
        }
        m
    }

}

impl Default for NowRdmAppStartMsg {
    fn default() -> (r: Self)
        ensures
            r@ == (WireView {
                class: CLASS_RDM,
                kind: NowRdmMsgKind::APP_START,
                flags: 0u16,
                fields: seq![FieldView::U32(0), FieldView::U32(45)],
            }),
    {
        Self::new()
    }
}

/// Acts on the RDM application window.
#[derive(Debug)]
pub struct NowRdmAppActionMsg {
    app_action: u32,
    action_data: NowVarStr,
}

impl View for NowRdmAppActionMsg {
    type V = WireView;

    closed spec fn view(&self) -> WireView {
        WireView {
            class: CLASS_RDM,
            kind: NowRdmMsgKind::APP_ACTION,
            flags: 0u16,
            fields: seq![FieldView::U32(self.app_action), FieldView::Str(self.action_data@)],
        }
    }
}

impl NowRdmAppActionMsg {
    /// The view names the class and kind of this message.
    pub proof fn lemma_tag(&self)
        ensures
            self@.class == CLASS_RDM,
            self@.kind == NowRdmMsgKind::APP_ACTION,
    {
    }

    /// Kinds of the body fields.
    pub open spec fn body_layout() -> Seq<FieldKind> {
        seq![FieldKind::U32, FieldKind::Str]
    }

    fn layout_vec() -> (r: Vec<FieldKind>)
        ensures
            r@ == Self::body_layout(),
    {
        let mut v: Vec<FieldKind> = Vec::new();
        v.push(FieldKind::U32);
        v.push(FieldKind::Str);
        assert(v@ =~= Self::body_layout());
        v
    }

    /// The body fields.
    pub fn to_fields(&self) -> (r: Vec<Field>)
        ensures
            views(r@) == self@.fields,
            fields_shape(Self::body_layout(), self@.fields),
    {
        let mut v: Vec<Field> = Vec::new();
        v.push(Field::U32(self.app_action));
        v.push(Field::Str(self.action_data.duplicate()));
        assert(views(v@) =~= self@.fields);
        assert(fields_shape(Self::body_layout(), self@.fields));
        v
    }

    /// The message of header flags `flags` and body fields `fs`.
    pub fn from_fields(flags: u16, fs: &Vec<Field>) -> (r: Result<Self, PduError>)
        requires
            fields_shape(Self::body_layout(), views(fs@)),
        ensures
            r is Ok,
            r matches Ok(m) ==> m@ == (WireView {
                class: CLASS_RDM,
                kind: NowRdmMsgKind::APP_ACTION,
                flags: 0u16,
                fields: views(fs@),
            }),
    {
        let n = fs.len();
        assert(n == 2);
        let app_action = get_u32(fs, 0);
        let action_data = get_str(fs, 1);
        let r = NowRdmAppActionMsg { app_action, action_data };
        assert(r@.fields =~= views(fs@));
        Ok(r)
    }

    /// Number of body bytes; `InvalidField` when that count overflows `usize`.
    pub fn body_size(&self) -> (r: Result<usize, PduError>)
        ensures
            r matches Ok(n) ==> n == fields_bytes(self@.fields).len(),
            r is Err <==> fields_bytes(self@.fields).len() > usize::MAX,
            r matches Err(e) ==> e is InvalidField,
    {
        fields_size(&self.to_fields())
    }

    /// Number of bytes [`Self::encode`] writes; `InvalidField` when the body does
    /// not fit the header's size field.
    pub fn size(&self) -> (r: Result<usize, PduError>)
        ensures
            r is Ok <==> frame_fits(self@) && frame_bytes(self@).len() <= usize::MAX,
            r matches Ok(n) ==> n == frame_bytes(self@).len(),
    {
        let r = frame_size(&self.to_fields());
        proof {
            lemma_frame_len(self@);
        }
        r
    }

    /// The whole frame: header, then body.
    pub fn encode(&self) -> (r: Result<Vec<u8>, PduError>)
        ensures
            r is Ok <==> frame_fits(self@),
            r matches Ok(b) ==> b@ == frame_bytes(self@),
            fields_shape(Self::body_layout(), self@.fields),
    {
        encode_frame(CLASS_RDM, NowRdmMsgKind::APP_ACTION, 0, &self.to_fields())
    }

    /// Decodes a body of this message type sent with header flags `flags`. Body
    /// bytes after the known fields are ignored.
    pub fn decode_from_body(flags: u16, body: &[u8]) -> (r: Result<Self, PduError>)
        ensures
            forall|m0: Self|
                fields_shape(Self::body_layout(), m0@.fields) &&  m0@.flags == flags && is_prefix(
                    #[trigger] fields_bytes(m0@.fields),
                    body@,
                ) ==> (r matches Ok(m) && m@ == m0@),
    {
        let layout = Self::layout_vec();
        let fs = decode_body_fields(body, &layout)?;
        Self::from_fields(flags, &fs)
    }

    /// Decodes a frame of this message type: checks the header's class and kind,
    /// isolates the body the header announces, and decodes it.
    pub fn decode(buf: &[u8]) -> (r: Result<Self, PduError>)
        ensures
            buf.len() >= 8 && (buf@[4] != CLASS_RDM || buf@[5] != NowRdmMsgKind::APP_ACTION)
                ==> (r matches Err(e) && e is InvalidField),
            forall|m0: Self, body: Seq<u8>|
                fields_shape(Self::body_layout(), m0@.fields) &&  body_extends(m0@, body) && is_prefix(
                    #[trigger] framed(m0@, body),
                    buf@,
                ) ==> (r matches Ok(m) && m@ == m0@),
    {
        let (flags, body) = split_typed(buf, CLASS_RDM, NowRdmMsgKind::APP_ACTION)?;
        Self::decode_from_body(flags, body)
    }

    /// The same message with action data.
    ///
    /// Fails with `InvalidField` when the string, or the whole body, is too long.
    pub fn with_action_data(self, action_data: String) -> (r: Result<Self, PduError>)
        ensures
            r is Ok <==>
                varstr_fits(action_data@) && fields_bytes(self@.fields.update(1, FieldView::Str(action_data@))).len() <= usize::MAX,
            r matches Ok(m) ==> m@ == (WireView {
                class: CLASS_RDM,
                kind: NowRdmMsgKind::APP_ACTION,
                flags: self@.flags,
                fields: self@.fields.update(1, FieldView::Str(action_data@)),
            }),
            r matches Err(e) ==> e is InvalidField,
    {
        let ghost old_view = self@;
        let s = NowVarStr::new(action_data)?;
        let mut m = self;
        m.action_data = s;
        proof {
            assert(m@.fields =~= old_view.fields.update(1, FieldView::Str(action_data@)));
        }
        m.body_size()?;
        Ok(m)
    }

    /// The action data.
    pub fn action_data(&self) -> (r: &str)
        ensures
            self@.fields[1] == FieldView::Str(r@),
    {
        self.action_data.value()
    }

    /// Action `app_action` without data.
    pub fn new(app_action: NowRdmAppAction) -> (r: Self)
        ensures
            r@ == (WireView {
                class: CLASS_RDM,
                kind: NowRdmMsgKind::APP_ACTION,
                flags: 0u16,
                fields: seq![FieldView::U32(app_action@), FieldView::Str(Seq::<char>::empty())],
            }),
    {
        let m = NowRdmAppActionMsg { app_action: app_action.value(), action_data: NowVarStr::empty() };
        proof {
            assert(m@.fields =~= seq![FieldView::U32(app_action@), FieldView::Str(Seq::<char>::empty())]);
        }
        m
    }

    /// The `CLOSE` action.
    pub fn new_close() -> (r: Self)
        ensures
            r@ == (WireView {
                class: CLASS_RDM,
                kind: NowRdmMsgKind::APP_ACTION,
                flags: 0u16,
                fields: seq![FieldView::U32(NowRdmAppAction::CLOSE), FieldView::Str(Seq::<char>::empty())],
            }),
    {
        Self::new(NowRdmAppAction::new(NowRdmAppAction::CLOSE))
    }

    /// The `MINIMIZE` action.
    pub fn new_minimize() -> (r: Self)
        ensures
            r@ == (WireView {
                class: CLASS_RDM,
                kind: NowRdmMsgKind::APP_ACTION,
                flags: 0u16,
                fields: seq![FieldView::U32(NowRdmAppAction::MINIMIZE), FieldView::Str(Seq::<char>::empty())],
            }),
    {
        Self::new(NowRdmAppAction::new(NowRdmAppAction::MINIMIZE))
    }

    /// The `MAXIMIZE` action.
    pub fn new_maximize() -> (r: Self)
        ensures
            r@ == (WireView {
                class: CLASS_RDM,
                kind: NowRdmMsgKind::APP_ACTION,
                flags: 0u16,
                fields: seq![FieldView::U32(NowRdmAppAction::MAXIMIZE), FieldView::Str(Seq::<char>::empty())],
            }),
    {
        Self::new(NowRdmAppAction::new(NowRdmAppAction::MAXIMIZE))
    }

    /// The `RESTORE` action.
    pub fn new_restore() -> (r: Self)
        ensures
            r@ == (WireView {
                class: CLASS_RDM,
                kind: NowRdmMsgKind::APP_ACTION,
                flags: 0u16,
                fields: seq![FieldView::U32(NowRdmAppAction::RESTORE), FieldView::Str(Seq::<char>::empty())],
            }),
    {
        Self::new(NowRdmAppAction::new(NowRdmAppAction::RESTORE))
    }

    /// The `FULLSCREEN` action.
    pub fn new_fullscreen() -> (r: Self)
        ensures
            r@ == (WireView {
                class: CLASS_RDM,
                kind: NowRdmMsgKind::APP_ACTION,
                flags: 0u16,
                fields: seq![
                    FieldView::U32(NowRdmAppAction::FULLSCREEN),
                    FieldView::Str(Seq::<char>::empty()),
                ],
            }),
    {
        Self::new(NowRdmAppAction::new(NowRdmAppAction::FULLSCREEN))
    }

    /// The action.
    pub fn app_action(&self) -> (r: NowRdmAppAction)
        ensures
            self@.fields[0] == FieldView::U32(r@),
    {
        NowRdmAppAction::new(self.app_action)
    }

}

/// Reports the state of the RDM application.
#[derive(Debug)]
pub struct NowRdmAppNotifyMsg {
    app_state: u32,
    reason_code: u32,
    notify_data: NowVarStr,
}

impl View for NowRdmAppNotifyMsg {
    type V = WireView;

    closed spec fn view(&self) -> WireView {
        WireView {
            class: CLASS_RDM,
            kind: NowRdmMsgKind::APP_NOTIFY,
            flags: 0u16,
            fields: seq![
                FieldView::U32(self.app_state),
                FieldView::U32(self.reason_code),
                FieldView::Str(self.notify_data@),
            ],
        }
    }
}

impl NowRdmAppNotifyMsg {
    /// The view names the class and kind of this message.
    pub proof fn lemma_tag(&self)
        ensures
            self@.class == CLASS_RDM,
            self@.kind == NowRdmMsgKind::APP_NOTIFY,
    {
    }

    /// Kinds of the body fields.
    pub open spec fn body_layout() -> Seq<FieldKind> {
        seq![FieldKind::U32, FieldKind::U32, FieldKind::Str]
    }

    fn layout_vec() -> (r: Vec<FieldKind>)
        ensures
            r@ == Self::body_layout(),
    {
        let mut v: Vec<FieldKind> = Vec::new();
        v.push(FieldKind::U32);
        v.push(FieldKind::U32);
        v.push(FieldKind::Str);
        assert(v@ =~= Self::body_layout());
        v
    }

    /// The body fields.
    pub fn to_fields(&self) -> (r: Vec<Field>)
        ensures
            views(r@) == self@.fields,
            fields_shape(Self::body_layout(), self@.fields),
    {
        let mut v: Vec<Field> = Vec::new();
        v.push(Field::U32(self.app_state));
        v.push(Field::U32(self.reason_code));
        v.push(Field::Str(self.notify_data.duplicate()));
        assert(views(v@) =~= self@.fields);
        assert(fields_shape(Self::body_layout(), self@.fields));
        v
    }

    /// The message of header flags `flags` and body fields `fs`.
    pub fn from_fields(flags: u16, fs: &Vec<Field>) -> (r: Result<Self, PduError>)
        requires
            fields_shape(Self::body_layout(), views(fs@)),
        ensures
            r is Ok,
            r matches Ok(m) ==> m@ == (WireView {
                class: CLASS_RDM,
                kind: NowRdmMsgKind::APP_NOTIFY,
                flags: 0u16,
                fields: views(fs@),
            }),
    {
        let n = fs.len();
        assert(n == 3);
        let app_state = get_u32(fs, 0);
        let reason_code = get_u32(fs, 1);
        let notify_data = get_str(fs, 2);
        let r = NowRdmAppNotifyMsg { app_state, reason_code, notify_data };
        assert(r@.fields =~= views(fs@));
        Ok(r)
    }

    /// Number of body bytes; `InvalidField` when that count overflows `usize`.
    pub fn body_size(&self) -> (r: Result<usize, PduError>)
        ensures
            r matches Ok(n) ==> n == fields_bytes(self@.fields).len(),
            r is Err <==> fields_bytes(self@.fields).len() > usize::MAX,
            r matches Err(e) ==> e is InvalidField,
    {
        fields_size(&self.to_fields())
    }

    /// Number of bytes [`Self::encode`] writes; `InvalidField` when the body does
    /// not fit the header's size field.
    pub fn size(&self) -> (r: Result<usize, PduError>)
        ensures
            r is Ok <==> frame_fits(self@) && frame_bytes(self@).len() <= usize::MAX,
            r matches Ok(n) ==> n == frame_bytes(self@).len(),
    {
        let r = frame_size(&self.to_fields());
        proof {
            lemma_frame_len(self@);
        }
        r
    }

    /// The whole frame: header, then body.
    pub fn encode(&self) -> (r: Result<Vec<u8>, PduError>)
        ensures
            r is Ok <==> frame_fits(self@),
            r matches Ok(b) ==> b@ == frame_bytes(self@),
            fields_shape(Self::body_layout(), self@.fields),
    {
        encode_frame(CLASS_RDM, NowRdmMsgKind::APP_NOTIFY, 0, &self.to_fields())
    }

    /// Decodes a body of this message type sent with header flags `flags`. Body
    /// bytes after the known fields are ignored.
    pub fn decode_from_body(flags: u16, body: &[u8]) -> (r: Result<Self, PduError>)
        ensures
            forall|m0: Self|
                fields_shape(Self::body_layout(), m0@.fields) &&  m0@.flags == flags && is_prefix(
                    #[trigger] fields_bytes(m0@.fields),
                    body@,
                ) ==> (r matches Ok(m) && m@ == m0@),
    {
        let layout = Self::layout_vec();
        let fs = decode_body_fields(body, &layout)?;
        Self::from_fields(flags, &fs)
    }

    /// Decodes a frame of this message type: checks the header's class and kind,
    /// isolates the body the header announces, and decodes it.
    pub fn decode(buf: &[u8]) -> (r: Result<Self, PduError>)
        ensures
            buf.len() >= 8 && (buf@[4] != CLASS_RDM || buf@[5] != NowRdmMsgKind::APP_NOTIFY)
                ==> (r matches Err(e) && e is InvalidField),
            forall|m0: Self, body: Seq<u8>|
                fields_shape(Self::body_layout(), m0@.fields) &&  body_extends(m0@, body) && is_prefix(
                    #[trigger] framed(m0@, body),
                    buf@,
                ) ==> (r matches Ok(m) && m@ == m0@),
    {
        let (flags, body) = split_typed(buf, CLASS_RDM, NowRdmMsgKind::APP_NOTIFY)?;
        Self::decode_from_body(flags, body)
    }

    /// The same message with notification data.
    ///
    /// Fails with `InvalidField` when the string, or the whole body, is too long.
    pub fn with_notify_data(self, notify_data: String) -> (r: Result<Self, PduError>)
        ensures
            r is Ok <==>
                varstr_fits(notify_data@) && fields_bytes(self@.fields.update(2, FieldView::Str(notify_data@))).len() <= usize::MAX,
            r matches Ok(m) ==> m@ == (WireView {
                class: CLASS_RDM,
                kind: NowRdmMsgKind::APP_NOTIFY,
                flags: self@.flags,
                fields: self@.fields.update(2, FieldView::Str(notify_data@)),
            }),
            r matches Err(e) ==> e is InvalidField,
    {
        let ghost old_view = self@;
        let s = NowVarStr::new(notify_data)?;
        let mut m = self;
        m.notify_data = s;
        proof {
            assert(m@.fields =~= old_view.fields.update(2, FieldView::Str(notify_data@)));
        }
        m.body_size()?;
        Ok(m)
    }

    /// The notification data.
    pub fn notify_data(&self) -> (r: &str)
        ensures
            self@.fields[2] == FieldView::Str(r@),
    {
        self.notify_data.value()
    }

    /// State `app_state` for reason `reason_code`, without data.
    pub fn new(app_state: NowRdmAppState, reason_code: NowRdmReason) -> (r: Self)
        ensures
            r@ == (WireView {
                class: CLASS_RDM,
                kind: NowRdmMsgKind::APP_NOTIFY,
                flags: 0u16,
                fields: seq![
                    FieldView::U32(app_state@),
                    FieldView::U32(reason_code@),
                    FieldView::Str(Seq::<char>::empty()),
                ],
            }),
    {
        let m = NowRdmAppNotifyMsg { app_state: app_state.value(), reason_code: reason_code.value(), notify_data: NowVarStr::empty() };
        proof {
            assert(m@.fields =~= seq![
                FieldView::U32(app_state@),
                FieldView::U32(reason_code@),
                FieldView::Str(Seq::<char>::empty()),
            ]);
        }
        m
    }

    /// The application state.
    pub fn app_state(&self) -> (r: NowRdmAppState)
        ensures
            self@.fields[0] == FieldView::U32(r@),
    {
        NowRdmAppState::new(self.app_state)
    }

    /// The reason of the state.
    pub fn reason_code(&self) -> (r: NowRdmReason)
        ensures
            self@.fields[1] == FieldView::U32(r@),
    {
        NowRdmReason::new(self.reason_code)
    }

}

/// Starts an RDM session of a connection.
#[derive(Debug)]
pub struct NowRdmSessionStartMsg {
    session_id: NowGuid,
    connection_id: NowGuid,
    connection_data: NowVarStr,
}

impl View for NowRdmSessionStartMsg {
    type V = WireView;

    closed spec fn view(&self) -> WireView {
        WireView {
            class: CLASS_RDM,
            kind: NowRdmMsgKind::SESSION_START,
            flags: 0u16,
            fields: seq![
                FieldView::Guid(self.session_id@),
                FieldView::Guid(self.connection_id@),
                FieldView::Str(self.connection_data@),
            ],
        }
    }
}

impl NowRdmSessionStartMsg {
    /// The view names the class and kind of this message.
    pub proof fn lemma_tag(&self)
        ensures
            self@.class == CLASS_RDM,
            self@.kind == NowRdmMsgKind::SESSION_START,
    {
    }

    /// Kinds of the body fields.
    pub open spec fn body_layout() -> Seq<FieldKind> {
        seq![FieldKind::Guid, FieldKind::Guid, FieldKind::Str]
    }

    fn layout_vec() -> (r: Vec<FieldKind>)
        ensures
            r@ == Self::body_layout(),
    {
        let mut v: Vec<FieldKind> = Vec::new();
        v.push(FieldKind::Guid);
        v.push(FieldKind::Guid);
        v.push(FieldKind::Str);
        assert(v@ =~= Self::body_layout());
        v
    }

    /// The body fields.
    pub fn to_fields(&self) -> (r: Vec<Field>)
        ensures
            views(r@) == self@.fields,
            fields_shape(Self::body_layout(), self@.fields),
    {
        let mut v: Vec<Field> = Vec::new();
        v.push(Field::Guid(self.session_id.duplicate()));
        v.push(Field::Guid(self.connection_id.duplicate()));
        v.push(Field::Str(self.connection_data.duplicate()));
        assert(views(v@) =~= self@.fields);
        assert(fields_shape(Self::body_layout(), self@.fields));
        v
    }

    /// The message of header flags `flags` and body fields `fs`.
    pub fn from_fields(flags: u16, fs: &Vec<Field>) -> (r: Result<Self, PduError>)
        requires
            fields_shape(Self::body_layout(), views(fs@)),
        ensures
            r is Ok,
            r matches Ok(m) ==> m@ == (WireView {
                class: CLASS_RDM,
                kind: NowRdmMsgKind::SESSION_START,
                flags: 0u16,
                fields: views(fs@),
            }),
    {
        let n = fs.len();
        assert(n == 3);
        let session_id = get_guid(fs, 0)?;
        let connection_id = get_guid(fs, 1)?;
        let connection_data = get_str(fs, 2);
        let r = NowRdmSessionStartMsg { session_id, connection_id, connection_data };
        assert(r@.fields =~= views(fs@));
        Ok(r)
    }

    /// Number of body bytes; `InvalidField` when that count overflows `usize`.
    pub fn body_size(&self) -> (r: Result<usize, PduError>)
        ensures
            r matches Ok(n) ==> n == fields_bytes(self@.fields).len(),
            r is Err <==> fields_bytes(self@.fields).len() > usize::MAX,
            r matches Err(e) ==> e is InvalidField,
    {
        fields_size(&self.to_fields())
    }

    /// Number of bytes [`Self::encode`] writes; `InvalidField` when the body does
    /// not fit the header's size field.
    pub fn size(&self) -> (r: Result<usize, PduError>)
        ensures
            r is Ok <==> frame_fits(self@) && frame_bytes(self@).len() <= usize::MAX,
            r matches Ok(n) ==> n == frame_bytes(self@).len(),
    {
        let r = frame_size(&self.to_fields());
        proof {
            lemma_frame_len(self@);
        }
        r
    }

    /// The whole frame: header, then body.
    pub fn encode(&self) -> (r: Result<Vec<u8>, PduError>)
        ensures
            r is Ok <==> frame_fits(self@),
            r matches Ok(b) ==> b@ == frame_bytes(self@),
            fields_shape(Self::body_layout(), self@.fields),
    {
        encode_frame(CLASS_RDM, NowRdmMsgKind::SESSION_START, 0, &self.to_fields())
    }

    /// Decodes a body of this message type sent with header flags `flags`. Body
    /// bytes after the known fields are ignored.
    pub fn decode_from_body(flags: u16, body: &[u8]) -> (r: Result<Self, PduError>)
        ensures
            forall|m0: Self|
                fields_shape(Self::body_layout(), m0@.fields) &&  m0@.flags == flags && is_prefix(
                    #[trigger] fields_bytes(m0@.fields),
                    body@,
                ) ==> (r matches Ok(m) && m@ == m0@),
    {
        let layout = Self::layout_vec();
        let fs = decode_body_fields(body, &layout)?;
        Self::from_fields(flags, &fs)
    }

    /// Decodes a frame of this message type: checks the header's class and kind,
    /// isolates the body the header announces, and decodes it.
    pub fn decode(buf: &[u8]) -> (r: Result<Self, PduError>)
        ensures
            buf.len() >= 8 && (buf@[4] != CLASS_RDM || buf@[5] != NowRdmMsgKind::SESSION_START)
                ==> (r matches Err(e) && e is InvalidField),
            forall|m0: Self, body: Seq<u8>|
                fields_shape(Self::body_layout(), m0@.fields) &&  body_extends(m0@, body) && is_prefix(
                    #[trigger] framed(m0@, body),
                    buf@,
                ) ==> (r matches Ok(m) && m@ == m0@),
    {
        let (flags, body) = split_typed(buf, CLASS_RDM, NowRdmMsgKind::SESSION_START)?;
        Self::decode_from_body(flags, body)
    }

    /// The connection data.
    pub fn connection_data(&self) -> (r: &str)
        ensures
            self@.fields[2] == FieldView::Str(r@),
    {
        self.connection_data.value()
    }

    /// Session `session_id` of connection `connection_id` with `connection_data`.
    ///
    /// Fails with `InvalidField` when the data, or the whole body, is too long, or
    /// when uuid does not read back the text it wrote for an id.
    pub fn new(session_id: [u8; 16], connection_id: [u8; 16], connection_data: String) -> (r: Result<Self, PduError>)
        ensures
            r matches Ok(m) ==> m@ == (WireView {
                class: CLASS_RDM,
                kind: NowRdmMsgKind::SESSION_START,
                flags: 0u16,
                fields: seq![
                    FieldView::Guid(uuid_text(session_id@)),
                    FieldView::Guid(uuid_text(connection_id@)),
                    FieldView::Str(connection_data@),
                ],
            }),
            r is Ok <==>
                uuid_parse(uuid_text(session_id@)) is Some && uuid_parse(uuid_text(connection_id@)) is Some
                && varstr_fits(connection_data@) && fields_bytes(seq![
                    FieldView::Guid(uuid_text(session_id@)),
                    FieldView::Guid(uuid_text(connection_id@)),
                    FieldView::Str(connection_data@),
                ]).len() <= usize::MAX,
    {
        let session_id = NowGuid::from_bytes(session_id)?;
        let connection_id = NowGuid::from_bytes(connection_id)?;
        let connection_data = NowVarStr::new(connection_data)?;
        let m = NowRdmSessionStartMsg { session_id, connection_id, connection_data };
        proof {
            assert(m@.fields =~= seq![
                FieldView::Guid(m.session_id@),
                FieldView::Guid(m.connection_id@),
                FieldView::Str(m.connection_data@),
            ]);
        }
        m.body_size()?;
        Ok(m)
    }

    /// The session id.
    pub fn session_id(&self) -> (r: [u8; 16])
        ensures
            self@.fields[0] is Guid,
            uuid_parse(self@.fields[0]->Guid_0) == Some(r@),
    {
        self.session_id.bytes()
    }

    /// The connection id.
    pub fn connection_id(&self) -> (r: [u8; 16])
        ensures
            self@.fields[1] is Guid,
            uuid_parse(self@.fields[1]->Guid_0) == Some(r@),
    {
        self.connection_id.bytes()
    }

}

/// Acts on an RDM session.
#[derive(Debug)]
pub struct NowRdmSessionActionMsg {
    session_action: u32,
    session_id: NowGuid,
}

impl View for NowRdmSessionActionMsg {
    type V = WireView;

    closed spec fn view(&self) -> WireView {
        WireView {
            class: CLASS_RDM,
            kind: NowRdmMsgKind::SESSION_ACTION,
            flags: 0u16,
            fields: seq![FieldView::U32(self.session_action), FieldView::Guid(self.session_id@)],
        }
    }
}

impl NowRdmSessionActionMsg {
    /// The view names the class and kind of this message.
    pub proof fn lemma_tag(&self)
        ensures
            self@.class == CLASS_RDM,
            self@.kind == NowRdmMsgKind::SESSION_ACTION,
    {
    }

    /// Kinds of the body fields.
    pub open spec fn body_layout() -> Seq<FieldKind> {
        seq![FieldKind::U32, FieldKind::Guid]
    }

    fn layout_vec() -> (r: Vec<FieldKind>)
        ensures
            r@ == Self::body_layout(),
    {
        let mut v: Vec<FieldKind> = Vec::new();
        v.push(FieldKind::U32);
        v.push(FieldKind::Guid);
        assert(v@ =~= Self::body_layout());
        v
    }

    /// The body fields.
    pub fn to_fields(&self) -> (r: Vec<Field>)
        ensures
            views(r@) == self@.fields,
            fields_shape(Self::body_layout(), self@.fields),
    {
        let mut v: Vec<Field> = Vec::new();
        v.push(Field::U32(self.session_action));
        v.push(Field::Guid(self.session_id.duplicate()));
        assert(views(v@) =~= self@.fields);
        assert(fields_shape(Self::body_layout(), self@.fields));
        v
    }

    /// The message of header flags `flags` and body fields `fs`.
    pub fn from_fields(flags: u16, fs: &Vec<Field>) -> (r: Result<Self, PduError>)
        requires
            fields_shape(Self::body_layout(), views(fs@)),
        ensures
            r is Ok,
            r matches Ok(m) ==> m@ == (WireView {
                class: CLASS_RDM,
                kind: NowRdmMsgKind::SESSION_ACTION,
                flags: 0u16,
                fields: views(fs@),
            }),
    {
        let n = fs.len();
        assert(n == 2);
        let session_action = get_u32(fs, 0);
        let session_id = get_guid(fs, 1)?;
        let r = NowRdmSessionActionMsg { session_action, session_id };
        assert(r@.fields =~= views(fs@));
        Ok(r)
    }

    /// Number of body bytes; `InvalidField` when that count overflows `usize`.
    pub fn body_size(&self) -> (r: Result<usize, PduError>)
        ensures
            r matches Ok(n) ==> n == fields_bytes(self@.fields).len(),
            r is Err <==> fields_bytes(self@.fields).len() > usize::MAX,
            r matches Err(e) ==> e is InvalidField,
    {
        fields_size(&self.to_fields())
    }

    /// Number of bytes [`Self::encode`] writes; `InvalidField` when the body does
    /// not fit the header's size field.
    pub fn size(&self) -> (r: Result<usize, PduError>)
        ensures
            r is Ok <==> frame_fits(self@) && frame_bytes(self@).len() <= usize::MAX,
            r matches Ok(n) ==> n == frame_bytes(self@).len(),
    {
        let r = frame_size(&self.to_fields());
        proof {
            lemma_frame_len(self@);
        }
        r
    }

    /// The whole frame: header, then body.
    pub fn encode(&self) -> (r: Result<Vec<u8>, PduError>)
        ensures
            r is Ok <==> frame_fits(self@),
            r matches Ok(b) ==> b@ == frame_bytes(self@),
            fields_shape(Self::body_layout(), self@.fields),
    {
        encode_frame(CLASS_RDM, NowRdmMsgKind::SESSION_ACTION, 0, &self.to_fields())
    }

    /// Decodes a body of this message type sent with header flags `flags`. Body
    /// bytes after the known fields are ignored.
    pub fn decode_from_body(flags: u16, body: &[u8]) -> (r: Result<Self, PduError>)
        ensures
            forall|m0: Self|
                fields_shape(Self::body_layout(), m0@.fields) &&  m0@.flags == flags && is_prefix(
                    #[trigger] fields_bytes(m0@.fields),
                    body@,
                ) ==> (r matches Ok(m) && m@ == m0@),
    {
        let layout = Self::layout_vec();
        let fs = decode_body_fields(body, &layout)?;
        Self::from_fields(flags, &fs)
    }

    /// Decodes a frame of this message type: checks the header's class and kind,
    /// isolates the body the header announces, and decodes it.
    pub fn decode(buf: &[u8]) -> (r: Result<Self, PduError>)
        ensures
            buf.len() >= 8 && (buf@[4] != CLASS_RDM || buf@[5] != NowRdmMsgKind::SESSION_ACTION)
                ==> (r matches Err(e) && e is InvalidField),
            forall|m0: Self, body: Seq<u8>|
                fields_shape(Self::body_layout(), m0@.fields) &&  body_extends(m0@, body) && is_prefix(
                    #[trigger] framed(m0@, body),
                    buf@,
                ) ==> (r matches Ok(m) && m@ == m0@),
    {
        let (flags, body) = split_typed(buf, CLASS_RDM, NowRdmMsgKind::SESSION_ACTION)?;
        Self::decode_from_body(flags, body)
    }

    /// `session_action` for session `session_id`; fails with `InvalidField` when uuid does
    /// not read back the text it wrote for the id.
    pub fn new(session_action: NowRdmSessionAction, session_id: [u8; 16]) -> (r: Result<Self, PduError>)
        ensures
            r is Ok <==> uuid_parse(uuid_text(session_id@)) is Some,
            r matches Ok(m) ==> m@ == (WireView {
                class: CLASS_RDM,
                kind: NowRdmMsgKind::SESSION_ACTION,
                flags: 0u16,
                fields: seq![FieldView::U32(session_action@), FieldView::Guid(uuid_text(session_id@))],
            }),
    {
        let session_id = NowGuid::from_bytes(session_id)?;
        let m = NowRdmSessionActionMsg { session_action: session_action.value(), session_id };
        proof {
            assert(m@.fields =~= seq![FieldView::U32(session_action@), FieldView::Guid(m.session_id@)]);
        }
        Ok(m)
    }

    /// The `CLOSE` kind for session `session_id`.
    pub fn new_close(session_id: [u8; 16]) -> (r: Result<Self, PduError>)
        ensures
            r is Ok <==> uuid_parse(uuid_text(session_id@)) is Some,
            r matches Ok(m) ==> m@ == (WireView {
                class: CLASS_RDM,
                kind: NowRdmMsgKind::SESSION_ACTION,
                flags: 0u16,
                fields: seq![
                    FieldView::U32(NowRdmSessionAction::CLOSE),
                    FieldView::Guid(uuid_text(session_id@)),
                ],
            }),
    {
        Self::new(NowRdmSessionAction::new(NowRdmSessionAction::CLOSE), session_id)
    }

    /// The `FOCUS` kind for session `session_id`.
    pub fn new_focus(session_id: [u8; 16]) -> (r: Result<Self, PduError>)
        ensures
            r is Ok <==> uuid_parse(uuid_text(session_id@)) is Some,
            r matches Ok(m) ==> m@ == (WireView {
                class: CLASS_RDM,
                kind: NowRdmMsgKind::SESSION_ACTION,
                flags: 0u16,
                fields: seq![
                    FieldView::U32(NowRdmSessionAction::FOCUS),
                    FieldView::Guid(uuid_text(session_id@)),
                ],
            }),
    {
        Self::new(NowRdmSessionAction::new(NowRdmSessionAction::FOCUS), session_id)
    }

    /// The session action.
    pub fn session_action(&self) -> (r: NowRdmSessionAction)
        ensures
            self@.fields[0] == FieldView::U32(r@),
    {
        NowRdmSessionAction::new(self.session_action)
    }

    /// The session id.
    pub fn session_id(&self) -> (r: [u8; 16])
        ensures
            self@.fields[1] is Guid,
            uuid_parse(self@.fields[1]->Guid_0) == Some(r@),
    {
        self.session_id.bytes()
    }

}

/// Reports a change of an RDM session.
#[derive(Debug)]
pub struct NowRdmSessionNotifyMsg {
    kind: u32,
    session_id: NowGuid,
    log_data: NowVarStr,
}

impl View for NowRdmSessionNotifyMsg {
    type V = WireView;

    closed spec fn view(&self) -> WireView {
        WireView {
            class: CLASS_RDM,
            kind: NowRdmMsgKind::SESSION_NOTIFY,
            flags: 0u16,
            fields: seq![
                FieldView::U32(self.kind),
                FieldView::Guid(self.session_id@),
                FieldView::Str(self.log_data@),
            ],
        }
    }
}

impl NowRdmSessionNotifyMsg {
    /// The view names the class and kind of this message.
    pub proof fn lemma_tag(&self)
        ensures
            self@.class == CLASS_RDM,
            self@.kind == NowRdmMsgKind::SESSION_NOTIFY,
    {
    }

    /// Kinds of the body fields.
    pub open spec fn body_layout() -> Seq<FieldKind> {
        seq![FieldKind::U32, FieldKind::Guid, FieldKind::Str]
    }

    fn layout_vec() -> (r: Vec<FieldKind>)
        ensures
            r@ == Self::body_layout(),
    {
        let mut v: Vec<FieldKind> = Vec::new();
        v.push(FieldKind::U32);
        v.push(FieldKind::Guid);
        v.push(FieldKind::Str);
        assert(v@ =~= Self::body_layout());
        v
    }

    /// The body fields.
    pub fn to_fields(&self) -> (r: Vec<Field>)
        ensures
            views(r@) == self@.fields,
            fields_shape(Self::body_layout(), self@.fields),
    {
        let mut v: Vec<Field> = Vec::new();
        v.push(Field::U32(self.kind));
        v.push(Field::Guid(self.session_id.duplicate()));
        v.push(Field::Str(self.log_data.duplicate()));
        assert(views(v@) =~= self@.fields);
        assert(fields_shape(Self::body_layout(), self@.fields));
        v
    }

    /// The message of header flags `flags` and body fields `fs`.
    pub fn from_fields(flags: u16, fs: &Vec<Field>) -> (r: Result<Self, PduError>)
        requires
            fields_shape(Self::body_layout(), views(fs@)),
        ensures
            r is Ok,
            r matches Ok(m) ==> m@ == (WireView {
                class: CLASS_RDM,
                kind: NowRdmMsgKind::SESSION_NOTIFY,
                flags: 0u16,
                fields: views(fs@),
            }),
    {
        let n = fs.len();
        assert(n == 3);
        let kind = get_u32(fs, 0);
        let session_id = get_guid(fs, 1)?;
        let log_data = get_str(fs, 2);
        let r = NowRdmSessionNotifyMsg { kind, session_id, log_data };
        assert(r@.fields =~= views(fs@));
        Ok(r)
    }

    /// Number of body bytes; `InvalidField` when that count overflows `usize`.
    pub fn body_size(&self) -> (r: Result<usize, PduError>)
        ensures
            r matches Ok(n) ==> n == fields_bytes(self@.fields).len(),
            r is Err <==> fields_bytes(self@.fields).len() > usize::MAX,
            r matches Err(e) ==> e is InvalidField,
    {
        fields_size(&self.to_fields())
    }

    /// Number of bytes [`Self::encode`] writes; `InvalidField` when the body does
    /// not fit the header's size field.
    pub fn size(&self) -> (r: Result<usize, PduError>)
        ensures
            r is Ok <==> frame_fits(self@) && frame_bytes(self@).len() <= usize::MAX,
            r matches Ok(n) ==> n == frame_bytes(self@).len(),
    {
        let r = frame_size(&self.to_fields());
        proof {
            lemma_frame_len(self@);
        }
        r
    }

    /// The whole frame: header, then body.
    pub fn encode(&self) -> (r: Result<Vec<u8>, PduError>)
        ensures
            r is Ok <==> frame_fits(self@),
            r matches Ok(b) ==> b@ == frame_bytes(self@),
            fields_shape(Self::body_layout(), self@.fields),
    {
        encode_frame(CLASS_RDM, NowRdmMsgKind::SESSION_NOTIFY, 0, &self.to_fields())
    }

    /// Decodes a body of this message type sent with header flags `flags`. Body
    /// bytes after the known fields are ignored.
    pub fn decode_from_body(flags: u16, body: &[u8]) -> (r: Result<Self, PduError>)
        ensures
            forall|m0: Self|
                fields_shape(Self::body_layout(), m0@.fields) &&  m0@.flags == flags && is_prefix(
                    #[trigger] fields_bytes(m0@.fields),
                    body@,
                ) ==> (r matches Ok(m) && m@ == m0@),
    {
        let layout = Self::layout_vec();
        let fs = decode_body_fields(body, &layout)?;
        Self::from_fields(flags, &fs)
    }

    /// Decodes a frame of this message type: checks the header's class and kind,
    /// isolates the body the header announces, and decodes it.
    pub fn decode(buf: &[u8]) -> (r: Result<Self, PduError>)
        ensures
            buf.len() >= 8 && (buf@[4] != CLASS_RDM || buf@[5] != NowRdmMsgKind::SESSION_NOTIFY)
                ==> (r matches Err(e) && e is InvalidField),
            forall|m0: Self, body: Seq<u8>|
                fields_shape(Self::body_layout(), m0@.fields) &&  body_extends(m0@, body) && is_prefix(
                    #[trigger] framed(m0@, body),
                    buf@,
                ) ==> (r matches Ok(m) && m@ == m0@),
    {
        let (flags, body) = split_typed(buf, CLASS_RDM, NowRdmMsgKind::SESSION_NOTIFY)?;
        Self::decode_from_body(flags, body)
    }

    /// The same message with log data.
    ///
    /// Fails with `InvalidField` when the string, or the whole body, is too long.
    pub fn with_log_data(self, log_data: String) -> (r: Result<Self, PduError>)
        ensures
            r is Ok <==>
                varstr_fits(log_data@) && fields_bytes(self@.fields.update(2, FieldView::Str(log_data@))).len() <= usize::MAX,
            r matches Ok(m) ==> m@ == (WireView {
                class: CLASS_RDM,
                kind: NowRdmMsgKind::SESSION_NOTIFY,
                flags: self@.flags,
                fields: self@.fields.update(2, FieldView::Str(log_data@)),
            }),
            r matches Err(e) ==> e is InvalidField,
    {
        let ghost old_view = self@;
        let s = NowVarStr::new(log_data)?;
        let mut m = self;
        m.log_data = s;
        proof {
            assert(m@.fields =~= old_view.fields.update(2, FieldView::Str(log_data@)));
        }
        m.body_size()?;
        Ok(m)
    }

    /// The log data.
    pub fn log_data(&self) -> (r: &str)
        ensures
            self@.fields[2] == FieldView::Str(r@),
    {
        self.log_data.value()
    }

    /// `kind` for session `session_id`; fails with `InvalidField` when uuid does
    /// not read back the text it wrote for the id.
    pub fn new(kind: NowRdmSessionNotifyKind, session_id: [u8; 16]) -> (r: Result<Self, PduError>)
        ensures
            r is Ok <==> uuid_parse(uuid_text(session_id@)) is Some,
            r matches Ok(m) ==> m@ == (WireView {
                class: CLASS_RDM,
                kind: NowRdmMsgKind::SESSION_NOTIFY,
                flags: 0u16,
                fields: seq![
                    FieldView::U32(kind@),
                    FieldView::Guid(uuid_text(session_id@)),
                    FieldView::Str(Seq::<char>::empty()),
                ],
            }),
    {
        let session_id = NowGuid::from_bytes(session_id)?;
        let m = NowRdmSessionNotifyMsg { kind: kind.value(), session_id, log_data: NowVarStr::empty() };
        proof {
            assert(m@.fields =~= seq![
                FieldView::U32(kind@),
                FieldView::Guid(m.session_id@),
                FieldView::Str(Seq::<char>::empty()),
            ]);
        }
        Ok(m)
    }

    /// The `CLOSE` kind for session `session_id`.
    pub fn new_close(session_id: [u8; 16]) -> (r: Result<Self, PduError>)
        ensures
            r is Ok <==> uuid_parse(uuid_text(session_id@)) is Some,
            r matches Ok(m) ==> m@ == (WireView {
                class: CLASS_RDM,
                kind: NowRdmMsgKind::SESSION_NOTIFY,
                flags: 0u16,
                fields: seq![
                    FieldView::U32(NowRdmSessionNotifyKind::CLOSE),
                    FieldView::Guid(uuid_text(session_id@)),
                    FieldView::Str(Seq::<char>::empty()),
                ],
            }),
    {
        Self::new(NowRdmSessionNotifyKind::new(NowRdmSessionNotifyKind::CLOSE), session_id)
    }

    /// The `FOCUS` kind for session `session_id`.
    pub fn new_focus(session_id: [u8; 16]) -> (r: Result<Self, PduError>)
        ensures
            r is Ok <==> uuid_parse(uuid_text(session_id@)) is Some,
            r matches Ok(m) ==> m@ == (WireView {
                class: CLASS_RDM,
                kind: NowRdmMsgKind::SESSION_NOTIFY,
                flags: 0u16,
                fields: seq![
                    FieldView::U32(NowRdmSessionNotifyKind::FOCUS),
                    FieldView::Guid(uuid_text(session_id@)),
                    FieldView::Str(Seq::<char>::empty()),
                ],
            }),
    {
        Self::new(NowRdmSessionNotifyKind::new(NowRdmSessionNotifyKind::FOCUS), session_id)
    }

    /// The kind.
    pub fn session_notify(&self) -> (r: NowRdmSessionNotifyKind)
        ensures
            self@.fields[0] == FieldView::U32(r@),
    {
        NowRdmSessionNotifyKind::new(self.kind)
    }

    /// The session id.
    pub fn session_id(&self) -> (r: [u8; 16])
        ensures
            self@.fields[1] is Guid,
            uuid_parse(self@.fields[1]->Guid_0) == Some(r@),
    {
        self.session_id.bytes()
    }

}

} // verus!
