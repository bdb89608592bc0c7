//! Channel messages: capability negotiation, heartbeat and close.
use vstd::prelude::*;

use crate::error::PduError;
use crate::field::{
    fields_bytes, fields_shape, fields_size, get_u16, get_u32, views, Field, FieldKind, FieldView,
};
use crate::header::{
    body_extends, decode_body_fields, split_typed, encode_frame, frame_bytes, frame_fits,
    frame_size, framed, lemma_frame_len, WireView,
};
use crate::status::{
    error_status, status_at, status_error, status_fields, NowStatus, NowStatusError, StatusView,
    STATUS_ERROR,
};
use crate::wire::is_prefix;

use crate::header::CLASS_CHANNEL;

verus! {

/// Kinds of the channel message class.
pub struct NowChannelMsgKind;

impl NowChannelMsgKind {
    /// Capability set.
    pub const CAPSET: u8 = 0x01;

    /// Heartbeat.
    pub const HEARTBEAT: u8 = 0x02;

    /// Channel close.
    pub const CLOSE: u8 = 0x03;

    /// Channel close, under its former name.
    pub const TERMINATE: u8 = 0x03;

}

/// Header flags of a capability set.
pub struct NowChannelCapsetFlags;

impl NowChannelCapsetFlags {
    /// A heartbeat interval is given.
    pub const SET_HEARTBEAT: u16 = 0x0001;

}

/// System features.
pub struct NowSystemCapsetFlags;

impl NowSystemCapsetFlags {
    /// System shutdown.
    pub const SHUTDOWN: u16 = 0x0001;

}

/// Session features.
pub struct NowSessionCapsetFlags;

impl NowSessionCapsetFlags {
    /// Session lock.
    pub const LOCK: u16 = 0x0001;

    /// Session logoff.
    pub const LOGOFF: u16 = 0x0002;

    /// Message boxes.
    pub const MSGBOX: u16 = 0x0004;

}

/// Exec features.
pub struct NowExecCapsetFlags;

impl NowExecCapsetFlags {
    /// Run.
    pub const STYLE_RUN: u16 = 0x0001;

    /// Process.
    pub const STYLE_PROCESS: u16 = 0x0002;

    /// Shell.
    pub const STYLE_SHELL: u16 = 0x0004;

    /// Batch.
    pub const STYLE_BATCH: u16 = 0x0008;

    /// Windows PowerShell.
    pub const STYLE_WINPS: u16 = 0x0010;

    /// PowerShell 7.
    pub const STYLE_PWSH: u16 = 0x0020;

}

/// A protocol version.
#[derive(Debug, Clone, Copy, PartialEq, Eq, Structural, PartialOrd, Ord, Hash)]
pub struct NowProtoVersion {
    pub major: u16,
    pub minor: u16,
}

/// `a` is not above `b`: major versions first, then minor versions.
pub open spec fn version_le(a: NowProtoVersion, b: NowProtoVersion) -> bool {
    a.major < b.major || (a.major == b.major && a.minor <= b.minor)
}

/// The lower of two versions.
pub open spec fn version_min(a: NowProtoVersion, b: NowProtoVersion) -> NowProtoVersion {
    if version_le(a, b) {
        a
    } else {
        b
    }
}

impl NowProtoVersion {
    /// Major version this library implements.
    pub const CURRENT_MAJOR: u16 = 1;

    /// Minor version this library implements.
    pub const CURRENT_MINOR: u16 = 0;

    /// The version this library implements.
    pub fn current() -> (r: NowProtoVersion)
        ensures
            r == (NowProtoVersion { major: 1, minor: 0 }),
    {
        NowProtoVersion { major: Self::CURRENT_MAJOR, minor: Self::CURRENT_MINOR }
    }
}

/// Shortest heartbeat interval a capability set may ask for, in seconds.
pub const MIN_HEARTBEAT_INTERVAL_SECS: u64 = 5;

/// Longest heartbeat interval a capability set may ask for, in seconds (24 hours).
pub const MAX_HEARTBEAT_INTERVAL_SECS: u64 = 86400;

/// A peer's capability set: protocol version, feature sets and heartbeat interval.
///
/// The header flag `SET_HEARTBEAT` is set exactly when a heartbeat interval is
/// given; the interval field is zero otherwise.
#[derive(Debug)]
pub struct NowChannelCapsetMsg {
    version: NowProtoVersion,
    system_capset: u16,
    session_capset: u16,
    exec_capset: u16,
    heartbeat_interval: Option<u32>,
}

/// Header flags of a capability set with heartbeat interval `hb`.
pub open spec fn capset_flags(hb: Option<u32>) -> u16 {
    if hb is Some {
        NowChannelCapsetFlags::SET_HEARTBEAT
    } else {
        0
    }
}

/// Wire value of the heartbeat interval `hb`.
pub open spec fn capset_interval(hb: Option<u32>) -> u32 {
    match hb {
        Some(v) => v,
        None => 0,
    }
}

/// The lower of two optional intervals; an absent one yields to the other.
pub open spec fn interval_min(a: Option<u32>, b: Option<u32>) -> Option<u32> {
    match (a, b) {
        (Some(x), Some(y)) => Some(if x <= y { x } else { y }),
        (Some(x), None) => Some(x),
        (None, Some(y)) => Some(y),
        (None, None) => None,
    }
}

/// The wire view of a capability set of the given contents.
pub open spec fn capset_view(v: NowProtoVersion, system: u16, session: u16, exec: u16, hb: Option<u32>) -> WireView {
    WireView {
        class: CLASS_CHANNEL,
        kind: NowChannelMsgKind::CAPSET,
        flags: capset_flags(hb),
        fields: seq![
            FieldView::U16(v.major),
            FieldView::U16(v.minor),
            FieldView::U16(system),
            FieldView::U16(session),
            FieldView::U16(exec),
            FieldView::U32(capset_interval(hb)),
        ],
    }
}

impl View for NowChannelCapsetMsg {
    type V = WireView;

    closed spec fn view(&self) -> WireView {
        capset_view(self.version, self.system_capset, self.session_capset, self.exec_capset, self.heartbeat_interval)
    }
}

impl Default for NowChannelCapsetMsg {
    fn default() -> (r: Self)
        ensures
            r@ == capset_view(NowProtoVersion { major: 1, minor: 0 }, 0, 0, 0, None),
    {
        Self::new()
    }
}

impl NowChannelCapsetMsg {
    /// The view names the class and kind of this message.
    pub proof fn lemma_tag(&self)
        ensures
            self@.class == CLASS_CHANNEL,
            self@.kind == NowChannelMsgKind::CAPSET,
    {
    }

    /// The current version, no features and no heartbeat interval.
    pub fn new() -> (r: Self)
        ensures
            r@ == capset_view(NowProtoVersion { major: 1, minor: 0 }, 0, 0, 0, None),
    {
        NowChannelCapsetMsg {
            version: NowProtoVersion::current(),
            system_capset: 0,
            session_capset: 0,
            exec_capset: 0,
            heartbeat_interval: None,
        }
    }

    /// The contents as a version, three feature sets and a heartbeat interval.
    pub closed spec fn contents(&self) -> (NowProtoVersion, u16, u16, u16, Option<u32>) {
        (self.version, self.system_capset, self.session_capset, self.exec_capset, self.heartbeat_interval)
    }

    /// The view is the wire form of the contents.
    pub proof fn lemma_view(&self)
        ensures
            self@ == capset_view(self.contents().0, self.contents().1, self.contents().2, self.contents().3, self.contents().4),
    {
    }

    /// The same set with system features `system_capset`.
    pub fn with_system_capset(self, system_capset: u16) -> (r: Self)
        ensures
            r.contents() == (self.contents().0, system_capset, self.contents().2, self.contents().3, self.contents().4),
    {
        NowChannelCapsetMsg { system_capset, ..self }
    }

    /// The same set with session features `session_capset`.
    pub fn with_session_capset(self, session_capset: u16) -> (r: Self)
        ensures
            r.contents() == (self.contents().0, self.contents().1, session_capset, self.contents().3, self.contents().4),
    {
        NowChannelCapsetMsg { session_capset, ..self }
    }

    /// The same set with exec features `exec_capset`.
    pub fn with_exec_capset(self, exec_capset: u16) -> (r: Self)
        ensures
            r.contents() == (self.contents().0, self.contents().1, self.contents().2, exec_capset, self.contents().4),
    {
        NowChannelCapsetMsg { exec_capset, ..self }
    }

    /// The same set with version `version`.
    pub fn with_version(self, version: NowProtoVersion) -> (r: Self)
        ensures
            r.contents() == (version, self.contents().1, self.contents().2, self.contents().3, self.contents().4),
    {
        NowChannelCapsetMsg { version, ..self }
    }

    /// The same set with a heartbeat interval of `seconds`; fails with
    /// `InvalidField` outside 5 seconds to 24 hours.
    pub fn with_heartbeat_interval(self, seconds: u64) -> (r: Result<Self, PduError>)
        ensures
            r is Ok <==> MIN_HEARTBEAT_INTERVAL_SECS <= seconds <= MAX_HEARTBEAT_INTERVAL_SECS,
            r matches Ok(m) ==> m.contents() == (self.contents().0, self.contents().1, self.contents().2, self.contents().3, Some(seconds as u32)),
            r matches Err(e) ==> e is InvalidField,
    {
        if seconds < MIN_HEARTBEAT_INTERVAL_SECS || seconds > MAX_HEARTBEAT_INTERVAL_SECS {
            return Err(PduError::invalid_field("heartbeat_timeout", "heartbeat interval out of range"));
        }
        Ok(NowChannelCapsetMsg { heartbeat_interval: Some(seconds as u32), ..self })
    }

    /// The system features.
    pub fn system_capset(&self) -> (r: u16)
        ensures
            r == self.contents().1,
    {
        self.system_capset
    }

    /// The session features.
    pub fn session_capset(&self) -> (r: u16)
        ensures
            r == self.contents().2,
    {
        self.session_capset
    }

    /// The exec features.
    pub fn exec_capset(&self) -> (r: u16)
        ensures
            r == self.contents().3,
    {
        self.exec_capset
    }

    /// The heartbeat interval in seconds, when one is given.
    pub fn heartbeat_interval(&self) -> (r: Option<u64>)
        ensures
            r == (match self.contents().4 {
                Some(v) => Some(v as u64),
                None => None::<u64>,
            }),
    {
        match self.heartbeat_interval {
            Some(v) => Some(v as u64),
            None => None,
        }
    }

    /// The protocol version.
    pub fn version(&self) -> (r: NowProtoVersion)
        ensures
            r == self.contents().0,
    {
        self.version
    }

    /// The capability set two peers share: the lower version, the features both
    /// support, and the shorter heartbeat interval (or the one given, if only one
    /// peer gives one).
    pub fn downgrade(&self, other: &Self) -> (r: Self)
        ensures
            r.contents() == (
                version_min(self.contents().0, other.contents().0),
                self.contents().1 & other.contents().1,
                self.contents().2 & other.contents().2,
                self.contents().3 & other.contents().3,
                interval_min(self.contents().4, other.contents().4),
            ),
    {
        let a = self.version;
        let b = other.version;
        let version = if a.major < b.major || (a.major == b.major && a.minor <= b.minor) {
            a
        } else {
            b
        };
        let heartbeat_interval = match (self.heartbeat_interval, other.heartbeat_interval) {
            (Some(x), Some(y)) => Some(if x <= y { x } else { y }),
            (Some(x), None) => Some(x),
            (None, Some(y)) => Some(y),
            (None, None) => None,
        };
        NowChannelCapsetMsg {
            version,
            system_capset: self.system_capset & other.system_capset,
            session_capset: self.session_capset & other.session_capset,
            exec_capset: self.exec_capset & other.exec_capset,
            heartbeat_interval,
        }
    }

    /// Kinds of the body fields.
    pub open spec fn body_layout() -> Seq<FieldKind> {
        seq![FieldKind::U16, FieldKind::U16, FieldKind::U16, FieldKind::U16, FieldKind::U16, FieldKind::U32]
    }

    /// The body fields.
    pub fn to_fields(&self) -> (r: Vec<Field>)
        ensures
            views(r@) == self@.fields,
            fields_shape(Self::body_layout(), self@.fields),
    {
        let mut v: Vec<Field> = Vec::new();
        v.push(Field::U16(self.version.major));
        v.push(Field::U16(self.version.minor));
        v.push(Field::U16(self.system_capset));
        v.push(Field::U16(self.session_capset));
        v.push(Field::U16(self.exec_capset));
        v.push(
            Field::U32(
                match self.heartbeat_interval {
                    Some(x) => x,
                    None => 0,
                },
            ),
        );
        assert(views(v@) =~= self@.fields);
        assert(fields_shape(Self::body_layout(), self@.fields));
        v
    }

    /// Number of body bytes.
    pub fn body_size(&self) -> (r: Result<usize, PduError>)
        ensures
            r matches Ok(n) ==> n == fields_bytes(self@.fields).len(),
            r is Err <==> fields_bytes(self@.fields).len() > usize::MAX,
            r matches Err(e) ==> e is InvalidField,
    {
        fields_size(&self.to_fields())
    }

    /// Number of bytes [`Self::encode`] writes.
    pub fn size(&self) -> (r: Result<usize, PduError>)
        ensures
            r is Ok <==> frame_fits(self@) && frame_bytes(self@).len() <= usize::MAX,
            r matches Ok(n) ==> n == frame_bytes(self@).len(),
    {
        let r = frame_size(&self.to_fields());
        proof {
            lemma_frame_len(self@);
        }
        r
    }

    /// The whole frame: header, then body.
    pub fn encode(&self) -> (r: Result<Vec<u8>, PduError>)
        ensures
            r is Ok <==> frame_fits(self@),
            r matches Ok(b) ==> b@ == frame_bytes(self@),
            fields_shape(Self::body_layout(), self@.fields),
    {
        let flags: u16 = if self.heartbeat_interval.is_some() {
            NowChannelCapsetFlags::SET_HEARTBEAT
        } else {
            0
        };
        encode_frame(CLASS_CHANNEL, NowChannelMsgKind::CAPSET, flags, &self.to_fields())
    }

    /// Decodes a body of this message type sent with header flags `flags`. The
    /// interval field is read in any case and kept only when `SET_HEARTBEAT` is
    /// set; body bytes after the known fields are ignored.
    pub fn decode_from_body(flags: u16, body: &[u8]) -> (r: Result<Self, PduError>)
        ensures
            forall|m0: Self|
                fields_shape(Self::body_layout(), m0@.fields) && m0@.flags == flags && is_prefix(
                    #[trigger] fields_bytes(m0@.fields),
                    body@,
                ) ==> (r matches Ok(m) && m@ == m0@),
    {
        let mut layout: Vec<FieldKind> = Vec::new();
        layout.push(FieldKind::U16);
        layout.push(FieldKind::U16);
        layout.push(FieldKind::U16);
        layout.push(FieldKind::U16);
        layout.push(FieldKind::U16);
        layout.push(FieldKind::U32);
        assert(layout@ =~= Self::body_layout());
        let fs = decode_body_fields(body, &layout)?;
        let n = fs.len();
        assert(n == 6);
        let major = get_u16(&fs, 0);
        let minor = get_u16(&fs, 1);
        let system_capset = get_u16(&fs, 2);
        let session_capset = get_u16(&fs, 3);
        let exec_capset = get_u16(&fs, 4);
        let interval = get_u32(&fs, 5);
        let heartbeat_interval = if flags & NowChannelCapsetFlags::SET_HEARTBEAT != 0 {
            Some(interval)
        } else {
            None
        };
        let m = NowChannelCapsetMsg {
            version: NowProtoVersion { major, minor },
            system_capset,
            session_capset,
            exec_capset,
            heartbeat_interval,
        };
        proof {
            assert(1u16 & 1u16 != 0) by (bit_vector);
            assert(0u16 & 1u16 == 0) by (bit_vector);
        }
        proof {
            assert forall|m0: Self|
                fields_shape(Self::body_layout(), m0@.fields) && m0@.flags == flags && is_prefix(
                    #[trigger] fields_bytes(m0@.fields),
                    body@,
                ) implies m@ == m0@ by {
                assert(m@.fields =~= m0@.fields);
            }
        }
        Ok(m)
    }

    /// Decodes a frame of this message type: checks the header's class and kind,
    /// isolates the body the header announces, and decodes it.
    pub fn decode(buf: &[u8]) -> (r: Result<Self, PduError>)
        ensures
            buf.len() >= 8 && (buf@[4] != CLASS_CHANNEL || buf@[5] != NowChannelMsgKind::CAPSET)
                ==> (r matches Err(e) && e is InvalidField),
            forall|m0: Self, body: Seq<u8>|
                fields_shape(Self::body_layout(), m0@.fields) && body_extends(m0@, body) && is_prefix(
                    #[trigger] framed(m0@, body),
                    buf@,
                ) ==> (r matches Ok(m) && m@ == m0@),
    {
        let (flags, body) = split_typed(buf, CLASS_CHANNEL, NowChannelMsgKind::CAPSET)?;
        Self::decode_from_body(flags, body)
    }
}

/// Keeps the channel alive; it has no body.
#[derive(Debug)]
pub struct NowChannelHeartbeatMsg {
}

impl View for NowChannelHeartbeatMsg {
    type V = WireView;

    closed spec fn view(&self) -> WireView {
        WireView {
            class: CLASS_CHANNEL,
            kind: NowChannelMsgKind::HEARTBEAT,
            flags: 0u16,
            fields: Seq::<FieldView>::empty(),
        }
    }
}

impl NowChannelHeartbeatMsg {
    /// The view names the class and kind of this message.
    pub proof fn lemma_tag(&self)
        ensures
            self@.class == CLASS_CHANNEL,
            self@.kind == NowChannelMsgKind::HEARTBEAT,
    {
    }

    /// Kinds of the body fields.
    pub open spec fn body_layout() -> Seq<FieldKind> {
        Seq::<FieldKind>::empty()
    }

    fn layout_vec() -> (r: Vec<FieldKind>)
        ensures
            r@ == Self::body_layout(),
    {
        let mut v: Vec<FieldKind> = Vec::new();
        assert(v@ =~= Self::body_layout());
        v
    }

    /// The body fields.
    pub fn to_fields(&self) -> (r: Vec<Field>)
        ensures
            views(r@) == self@.fields,
            fields_shape(Self::body_layout(), self@.fields),
    {
        let mut v: Vec<Field> = Vec::new();
        assert(views(v@) =~= self@.fields);
        assert(fields_shape(Self::body_layout(), self@.fields));
        v
    }

    /// The message of header flags `flags` and body fields `fs`.
    pub fn from_fields(flags: u16, fs: &Vec<Field>) -> (r: Result<Self, PduError>)
        requires
            fields_shape(Self::body_layout(), views(fs@)),
        ensures
            r is Ok,
            r matches Ok(m) ==> m@ == (WireView {
                class: CLASS_CHANNEL,
                kind: NowChannelMsgKind::HEARTBEAT,
                flags: 0u16,
                fields: views(fs@),
            }),
    {
        let n = fs.len();
        assert(n == 0);
        let r = NowChannelHeartbeatMsg {  };
        assert(r@.fields =~= views(fs@));
        Ok(r)
    }

    /// Number of body bytes; `InvalidField` when that count overflows `usize`.
    pub fn body_size(&self) -> (r: Result<usize, PduError>)
        ensures
            r matches Ok(n) ==> n == fields_bytes(self@.fields).len(),
            r is Err <==> fields_bytes(self@.fields).len() > usize::MAX,
            r matches Err(e) ==> e is InvalidField,
    {
        fields_size(&self.to_fields())
    }

    /// Number of bytes [`Self::encode`] writes; `InvalidField` when the body does
    /// not fit the header's size field.
    pub fn size(&self) -> (r: Result<usize, PduError>)
        ensures
            r is Ok <==> frame_fits(self@) && frame_bytes(self@).len() <= usize::MAX,
            r matches Ok(n) ==> n == frame_bytes(self@).len(),
    {
        let r = frame_size(&self.to_fields());
        proof {
            lemma_frame_len(self@);
        }
        r
    }

    /// The whole frame: header, then body.
    pub fn encode(&self) -> (r: Result<Vec<u8>, PduError>)
        ensures
            r is Ok <==> frame_fits(self@),
            r matches Ok(b) ==> b@ == frame_bytes(self@),
            fields_shape(Self::body_layout(), self@.fields),
    {
        encode_frame(CLASS_CHANNEL, NowChannelMsgKind::HEARTBEAT, 0, &self.to_fields())
    }

    /// Decodes a body of this message type sent with header flags `flags`. Body
    /// bytes after the known fields are ignored.
    pub fn decode_from_body(flags: u16, body: &[u8]) -> (r: Result<Self, PduError>)
        ensures
            forall|m0: Self|
                fields_shape(Self::body_layout(), m0@.fields) &&  m0@.flags == flags && is_prefix(
                    #[trigger] fields_bytes(m0@.fields),
                    body@,
                ) ==> (r matches Ok(m) && m@ == m0@),
    {
        let layout = Self::layout_vec();
        let fs = decode_body_fields(body, &layout)?;
        Self::from_fields(flags, &fs)
    }

    /// Decodes a frame of this message type: checks the header's class and kind,
    /// isolates the body the header announces, and decodes it.
    pub fn decode(buf: &[u8]) -> (r: Result<Self, PduError>)
        ensures
            buf.len() >= 8 && (buf@[4] != CLASS_CHANNEL || buf@[5] != NowChannelMsgKind::HEARTBEAT)
                ==> (r matches Err(e) && e is InvalidField),
            forall|m0: Self, body: Seq<u8>|
                fields_shape(Self::body_layout(), m0@.fields) &&  body_extends(m0@, body) && is_prefix(
                    #[trigger] framed(m0@, body),
                    buf@,
                ) ==> (r matches Ok(m) && m@ == m0@),
    {
        let (flags, body) = split_typed(buf, CLASS_CHANNEL, NowChannelMsgKind::HEARTBEAT)?;
        Self::decode_from_body(flags, body)
    }

    /// A heartbeat.
    pub fn new() -> (r: Self)
        ensures
            r@ == (WireView {
                class: CLASS_CHANNEL,
                kind: NowChannelMsgKind::HEARTBEAT,
                flags: 0u16,
                fields: Seq::<FieldView>::empty(),
            }),
    {
        let m = NowChannelHeartbeatMsg {  };
        proof {
            assert(m@.fields =~= Seq::<FieldView>::empty());
        }
        m
    }

}

/// Closes the channel, normally or with an error.
#[derive(Debug)]
pub struct NowChannelCloseMsg {
    status: NowStatus,
}

impl View for NowChannelCloseMsg {
    type V = WireView;

    closed spec fn view(&self) -> WireView {
        WireView {
            class: CLASS_CHANNEL,
            kind: NowChannelMsgKind::CLOSE,
            flags: 0u16,
            fields: status_fields(self.status@),
        }
    }
}

impl NowChannelCloseMsg {
    /// The view names the class and kind of this message.
    pub proof fn lemma_tag(&self)
        ensures
            self@.class == CLASS_CHANNEL,
            self@.kind == NowChannelMsgKind::CLOSE,
    {
    }

    /// Kinds of the body fields.
    pub open spec fn body_layout() -> Seq<FieldKind> {
        seq![FieldKind::U16, FieldKind::U16, FieldKind::U32, FieldKind::Str]
    }

    fn layout_vec() -> (r: Vec<FieldKind>)
        ensures
            r@ == Self::body_layout(),
    {
        let mut v: Vec<FieldKind> = Vec::new();
        v.push(FieldKind::U16);
        v.push(FieldKind::U16);
        v.push(FieldKind::U32);
        v.push(FieldKind::Str);
        assert(v@ =~= Self::body_layout());
        v
    }

    /// The body fields.
    pub fn to_fields(&self) -> (r: Vec<Field>)
        ensures
            views(r@) == self@.fields,
            fields_shape(Self::body_layout(), self@.fields),
    {
        let mut v: Vec<Field> = Vec::new();
        self.status.push_fields(&mut v);
        assert(views(v@) =~= self@.fields);
        assert(fields_shape(Self::body_layout(), self@.fields));
        v
    }

    /// The message of header flags `flags` and body fields `fs`.
    pub fn from_fields(flags: u16, fs: &Vec<Field>) -> (r: Result<Self, PduError>)
        requires
            fields_shape(Self::body_layout(), views(fs@)),
        ensures
            r is Ok,
            r matches Ok(m) ==> m@ == (WireView {
                class: CLASS_CHANNEL,
                kind: NowChannelMsgKind::CLOSE,
                flags: 0u16,
                fields: views(fs@),
            }),
    {
        let n = fs.len();
        assert(n == 4);
        let status = NowStatus::from_fields(fs, 0);
        let r = NowChannelCloseMsg { status };
        assert(r@.fields =~= views(fs@));
        Ok(r)
    }

    /// Number of body bytes; `InvalidField` when that count overflows `usize`.
    pub fn body_size(&self) -> (r: Result<usize, PduError>)
        ensures
            r matches Ok(n) ==> n == fields_bytes(self@.fields).len(),
            r is Err <==> fields_bytes(self@.fields).len() > usize::MAX,
            r matches Err(e) ==> e is InvalidField,
    {
        fields_size(&self.to_fields())
    }

    /// Number of bytes [`Self::encode`] writes; `InvalidField` when the body does
    /// not fit the header's size field.
    pub fn size(&self) -> (r: Result<usize, PduError>)
        ensures
            r is Ok <==> frame_fits(self@) && frame_bytes(self@).len() <= usize::MAX,
            r matches Ok(n) ==> n == frame_bytes(self@).len(),
    {
        let r = frame_size(&self.to_fields());
        proof {
            lemma_frame_len(self@);
        }
        r
    }

    /// The whole frame: header, then body.
    pub fn encode(&self) -> (r: Result<Vec<u8>, PduError>)
        ensures
            r is Ok <==> frame_fits(self@),
            r matches Ok(b) ==> b@ == frame_bytes(self@),
            fields_shape(Self::body_layout(), self@.fields),
    {
        encode_frame(CLASS_CHANNEL, NowChannelMsgKind::CLOSE, 0, &self.to_fields())
    }

    /// Decodes a body of this message type sent with header flags `flags`. Body
    /// bytes after the known fields are ignored.
    pub fn decode_from_body(flags: u16, body: &[u8]) -> (r: Result<Self, PduError>)
        ensures
            forall|m0: Self|
                fields_shape(Self::body_layout(), m0@.fields) &&  m0@.flags == flags && is_prefix(
                    #[trigger] fields_bytes(m0@.fields),
                    body@,
                ) ==> (r matches Ok(m) && m@ == m0@),
    {
        let layout = Self::layout_vec();
        let fs = decode_body_fields(body, &layout)?;
        Self::from_fields(flags, &fs)
    }

    /// Decodes a frame of this message type: checks the header's class and kind,
    /// isolates the body the header announces, and decodes it.
    pub fn decode(buf: &[u8]) -> (r: Result<Self, PduError>)
        ensures
            buf.len() >= 8 && (buf@[4] != CLASS_CHANNEL || buf@[5] != NowChannelMsgKind::CLOSE)
                ==> (r matches Err(e) && e is InvalidField),
            forall|m0: Self, body: Seq<u8>|
                fields_shape(Self::body_layout(), m0@.fields) &&  body_extends(m0@, body) && is_prefix(
                    #[trigger] framed(m0@, body),
                    buf@,
                ) ==> (r matches Ok(m) && m@ == m0@),
    {
        let (flags, body) = split_typed(buf, CLASS_CHANNEL, NowChannelMsgKind::CLOSE)?;
        Self::decode_from_body(flags, body)
    }

    /// A normal close.
    pub fn new() -> (r: Self)
        ensures
            r@ == (WireView {
                class: CLASS_CHANNEL,
                kind: NowChannelMsgKind::CLOSE,
                flags: 0u16,
                fields: status_fields(StatusView { flags: 0, kind: 0, code: 0, message: Seq::<char>::empty() }),
            }),
    {
        let m = NowChannelCloseMsg { status: NowStatus::new_success() };
        proof {
            assert(m@.fields =~= status_fields(StatusView { flags: 0, kind: 0, code: 0, message: Seq::<char>::empty() }));
        }
        m
    }

    /// An error response carrying `error`; fails with `InvalidField` when the body
    /// is too long.
    pub fn from_error(error: NowStatusError) -> (r: Result<Self, PduError>)
        ensures
            r is Ok <==> fields_bytes(status_fields(error_status(error@))).len() <= usize::MAX,
            r matches Ok(m) ==> m@ == (WireView {
                class: CLASS_CHANNEL,
                kind: NowChannelMsgKind::CLOSE,
                flags: 0u16,
                fields: status_fields(error_status(error@)),
            }),
            r matches Err(e) ==> e is InvalidField,
    {
        let ghost e = error@;
        let status = NowStatus::new_error(error);
        let m = NowChannelCloseMsg { status: status };
        proof {
            assert(m@.fields =~= status_fields(error_status(e)));
        }
        m.body_size()?;
        Ok(m)
    }

    /// `Ok` on success, else the reported error.
    pub fn to_result(&self) -> (r: Result<(), NowStatusError>)
        ensures
            r is Ok <==> status_at(self@.fields, 0).flags & STATUS_ERROR == 0,
            r matches Err(e) ==> e@ == status_error(status_at(self@.fields, 0)),
    {
        proof {
            assert(status_at(self@.fields, 0) == self.status@);
        }
        match self.status.to_result() {
            Ok(()) => Ok(()),
            Err(e) => Err(e),
        }
    }

}

impl Default for NowChannelHeartbeatMsg {
    fn default() -> (r: Self)
        ensures
            r@ == (WireView {
                class: CLASS_CHANNEL,
                kind: NowChannelMsgKind::HEARTBEAT,
                flags: 0u16,
                fields: Seq::<FieldView>::empty(),
            }),
    {
        Self::new()
    }
}

impl Default for NowChannelCloseMsg {
    fn default() -> (r: Self)
        ensures
            r@ == (WireView {
                class: CLASS_CHANNEL,
                kind: NowChannelMsgKind::CLOSE,
                flags: 0u16,
                fields: status_fields(StatusView { flags: 0, kind: 0, code: 0, message: Seq::<char>::empty() }),
            }),
    {
        Self::new()
    }
}

/// The close message under its former name.
pub type NowChannelTerminateMsg = NowChannelCloseMsg;

} // verus!
