//! Remote execution messages.
use vstd::prelude::*;

use crate::buffer::{varbuf_fits, NowVarBuf};
use crate::error::PduError;
use crate::field::{
    fields_bytes, fields_shape, fields_size, get_buf, get_str, get_u32, views, Field, FieldKind,
    FieldView,
};
use crate::header::{
    body_extends, decode_body_fields, split_typed, encode_frame, frame_bytes, frame_fits,
    frame_size, framed, lemma_frame_len, WireView,
};
use crate::status::{
    error_status, status_at, status_error, status_fields, NowStatus, NowStatusError, StatusView,
    STATUS_ERROR,
};
use crate::string::{varstr_fits, NowVarStr};
use crate::wire::is_prefix;

use crate::header::CLASS_EXEC;

verus! {

/// Kinds of the exec message class.
pub struct NowExecMsgKind;

impl NowExecMsgKind {
    /// Abort a session.
    pub const ABORT: u8 = 0x01;

    /// Cancel request.
    pub const CANCEL_REQ: u8 = 0x02;

    /// Cancel response.
    pub const CANCEL_RSP: u8 = 0x03;

    /// Session result.
    pub const RESULT: u8 = 0x04;

    /// Stream data.
    pub const DATA: u8 = 0x05;

    /// Session started.
    pub const STARTED: u8 = 0x06;

    /// Run a command.
    pub const RUN: u8 = 0x10;

    /// Start a process.
    pub const PROCESS: u8 = 0x11;

    /// Run a shell command.
    pub const SHELL: u8 = 0x12;

    /// Run a batch command.
    pub const BATCH: u8 = 0x13;

    /// Run a Windows PowerShell command.
    pub const WINPS: u8 = 0x14;

    /// Run a PowerShell 7 command.
    pub const PWSH: u8 = 0x15;

}

/// Header flags of a data message.
pub struct NowExecDataFlags;

impl NowExecDataFlags {
    /// Last chunk of the stream.
    pub const LAST: u16 = 0x0001;

    /// Standard input.
    pub const STDIN: u16 = 0x0002;

    /// Standard output.
    pub const STDOUT: u16 = 0x0004;

    /// Standard error.
    pub const STDERR: u16 = 0x0008;

}

/// Header flags of a process message.
pub struct NowExecProcessFlags;

impl NowExecProcessFlags {
    /// Parameters are set.
    pub const PARAMETERS_SET: u16 = 0x0001;

    /// Working directory is set.
    pub const DIRECTORY_SET: u16 = 0x0002;

    /// Standard streams are redirected.
    pub const IO_REDIRECTION: u16 = 0x1000;

}

/// Header flags of a shell message.
pub struct NowExecShellFlags;

impl NowExecShellFlags {
    /// Shell is set.
    pub const SHELL_SET: u16 = 0x0001;

    /// Working directory is set.
    pub const DIRECTORY_SET: u16 = 0x0002;

    /// Standard streams are redirected.
    pub const IO_REDIRECTION: u16 = 0x1000;

}

/// Header flags of a batch message.
pub struct NowExecBatchFlags;

impl NowExecBatchFlags {
    /// Working directory is set.
    pub const DIRECTORY_SET: u16 = 0x0001;

    /// Standard streams are redirected.
    pub const IO_REDIRECTION: u16 = 0x1000;

}

/// Header flags of the PowerShell messages.
pub struct NowExecWinPsFlags;

impl NowExecWinPsFlags {
    /// `-NoLogo`.
    pub const NO_LOGO: u16 = 0x0001;

    /// `-NoExit`.
    pub const NO_EXIT: u16 = 0x0002;

    /// Single-threaded apartment.
    pub const STA: u16 = 0x0004;

    /// Multi-threaded apartment.
    pub const MTA: u16 = 0x0008;

    /// `-NoProfile`.
    pub const NO_PROFILE: u16 = 0x0010;

    /// `-NonInteractive`.
    pub const NON_INTERACTIVE: u16 = 0x0020;

    /// Execution policy is set.
    pub const EXECUTION_POLICY: u16 = 0x0040;

    /// Configuration name is set.
    pub const CONFIGURATION_NAME: u16 = 0x0080;

    /// Working directory is set.
    pub const DIRECTORY_SET: u16 = 0x0100;

    /// Server mode.
    pub const SERVER_MODE: u16 = 0x0200;

    /// Standard streams are redirected.
    pub const IO_REDIRECTION: u16 = 0x1000;

}

/// Header flags of a run message.
pub struct NowExecRunFlags;

impl NowExecRunFlags {
    /// Working directory is set.
    pub const DIRECTORY_SET: u16 = 0x0001;

}

/// Standard stream of a data message.
#[derive(Debug, Clone, Copy, PartialEq, Eq, Structural)]
pub enum NowExecDataStreamKind {
    Stdin,
    Stdout,
    Stderr,
}

/// Header flag of a stream.
pub open spec fn stream_flag(k: NowExecDataStreamKind) -> u16 {
    match k {
        NowExecDataStreamKind::Stdin => NowExecDataFlags::STDIN,
        NowExecDataStreamKind::Stdout => NowExecDataFlags::STDOUT,
        NowExecDataStreamKind::Stderr => NowExecDataFlags::STDERR,
    }
}

/// The stream that header flags name: exactly one stream flag must be set.
pub open spec fn stream_of_flags(flags: u16) -> Option<NowExecDataStreamKind> {
    let s = flags & 0x000E;
    if s == NowExecDataFlags::STDIN {
        Some(NowExecDataStreamKind::Stdin)
    } else if s == NowExecDataFlags::STDOUT {
        Some(NowExecDataStreamKind::Stdout)
    } else if s == NowExecDataFlags::STDERR {
        Some(NowExecDataStreamKind::Stderr)
    } else {
        None
    }
}

impl NowExecDataStreamKind {
    /// The header flag of the stream.
    pub fn to_flags(&self) -> (r: u16)
        ensures
            r == stream_flag(*self),
    {
        match self {
            NowExecDataStreamKind::Stdin => NowExecDataFlags::STDIN,
            NowExecDataStreamKind::Stdout => NowExecDataFlags::STDOUT,
            NowExecDataStreamKind::Stderr => NowExecDataFlags::STDERR,
        }
    }

    /// The stream that `flags` names, if exactly one stream flag is set.
    pub fn from_flags(flags: u16) -> (r: Option<NowExecDataStreamKind>)
        ensures
            r == stream_of_flags(flags),
    {
        let s = flags & 0x000E;
        if s == NowExecDataFlags::STDIN {
            Some(NowExecDataStreamKind::Stdin)
        } else if s == NowExecDataFlags::STDOUT {
            Some(NowExecDataStreamKind::Stdout)
        } else if s == NowExecDataFlags::STDERR {
            Some(NowExecDataStreamKind::Stderr)
        } else {
            None
        }
    }
}

/// COM apartment model of a PowerShell session.
#[derive(Debug, Clone, Copy, PartialEq, Eq, Structural)]
pub enum ApartmentStateKind {
    Sta,
    Mta,
}

/// Header flag of an apartment model.
pub open spec fn apartment_flag(k: ApartmentStateKind) -> u16 {
    match k {
        ApartmentStateKind::Sta => NowExecWinPsFlags::STA,
        ApartmentStateKind::Mta => NowExecWinPsFlags::MTA,
    }
}

/// The apartment model that header flags name, when they name at most one.
pub open spec fn apartment_of_flags(flags: u16) -> Option<ApartmentStateKind> {
    if flags & 0x000C == NowExecWinPsFlags::STA {
        Some(ApartmentStateKind::Sta)
    } else if flags & 0x000C == NowExecWinPsFlags::MTA {
        Some(ApartmentStateKind::Mta)
    } else {
        None
    }
}

impl ApartmentStateKind {
    /// The header flag of the apartment model.
    pub fn to_flags(&self) -> (r: u16)
        ensures
            r == apartment_flag(*self),
    {
        match self {
            ApartmentStateKind::Sta => NowExecWinPsFlags::STA,
            ApartmentStateKind::Mta => NowExecWinPsFlags::MTA,
        }
    }

    /// The apartment model that `flags` name: none, one, or `InvalidField` when both
    /// apartment flags are set.
    pub fn from_flags(flags: u16) -> (r: Result<Option<ApartmentStateKind>, PduError>)
        ensures
            r is Err <==> flags & 0x000C == 0x000C,
            r matches Ok(k) ==> k == apartment_of_flags(flags),
    {
        let s = flags & 0x000C;
        if s == 0x000C {
            Err(PduError::invalid_field("flags", "multiple apartment state flags set"))
        } else if s == NowExecWinPsFlags::STA {
            Ok(Some(ApartmentStateKind::Sta))
        } else if s == NowExecWinPsFlags::MTA {
            Ok(Some(ApartmentStateKind::Mta))
        } else {
            Ok(None)
        }
    }
}

/// The apartment model under its COM name.
pub type ComApartmentStateKind = ApartmentStateKind;

/// Aborts an exec session with an exit code.
#[derive(Debug)]
pub struct NowExecAbortMsg {
    session_id: u32,
    exit_code: u32,
}

impl View for NowExecAbortMsg {
    type V = WireView;

    closed spec fn view(&self) -> WireView {
        WireView {
            class: CLASS_EXEC,
            kind: NowExecMsgKind::ABORT,
            flags: 0u16,
            fields: seq![FieldView::U32(self.session_id), FieldView::U32(self.exit_code)],
        }
    }
}

impl NowExecAbortMsg {
    /// The view names the class and kind of this message.
    pub proof fn lemma_tag(&self)
        ensures
            self@.class == CLASS_EXEC,
            self@.kind == NowExecMsgKind::ABORT,
    {
    }

    /// Kinds of the body fields.
    pub open spec fn body_layout() -> Seq<FieldKind> {
        seq![FieldKind::U32, FieldKind::U32]
    }

    fn layout_vec() -> (r: Vec<FieldKind>)
        ensures
            r@ == Self::body_layout(),
    {
        let mut v: Vec<FieldKind> = Vec::new();
        v.push(FieldKind::U32);
        v.push(FieldKind::U32);
        assert(v@ =~= Self::body_layout());
        v
    }

    /// The body fields.
    pub fn to_fields(&self) -> (r: Vec<Field>)
        ensures
            views(r@) == self@.fields,
            fields_shape(Self::body_layout(), self@.fields),
    {
        let mut v: Vec<Field> = Vec::new();
        v.push(Field::U32(self.session_id));
        v.push(Field::U32(self.exit_code));
        assert(views(v@) =~= self@.fields);
        assert(fields_shape(Self::body_layout(), self@.fields));
        v
    }

    /// The message of header flags `flags` and body fields `fs`.
    pub fn from_fields(flags: u16, fs: &Vec<Field>) -> (r: Result<Self, PduError>)
        requires
            fields_shape(Self::body_layout(), views(fs@)),
        ensures
            r is Ok,
            r matches Ok(m) ==> m@ == (WireView {
                class: CLASS_EXEC,
                kind: NowExecMsgKind::ABORT,
                flags: 0u16,
                fields: views(fs@),
            }),
    {
        let n = fs.len();
        assert(n == 2);
        let session_id = get_u32(fs, 0);
        let exit_code = get_u32(fs, 1);
        let r = NowExecAbortMsg { session_id, exit_code };
        assert(r@.fields =~= views(fs@));
        Ok(r)
    }

    /// Number of body bytes; `InvalidField` when that count overflows `usize`.
    pub fn body_size(&self) -> (r: Result<usize, PduError>)
        ensures
            r matches Ok(n) ==> n == fields_bytes(self@.fields).len(),
            r is Err <==> fields_bytes(self@.fields).len() > usize::MAX,
            r matches Err(e) ==> e is InvalidField,
    {
        fields_size(&self.to_fields())
    }

    /// Number of bytes [`Self::encode`] writes; `InvalidField` when the body does
    /// not fit the header's size field.
    pub fn size(&self) -> (r: Result<usize, PduError>)
        ensures
            r is Ok <==> frame_fits(self@) && frame_bytes(self@).len() <= usize::MAX,
            r matches Ok(n) ==> n == frame_bytes(self@).len(),
    {
        let r = frame_size(&self.to_fields());
        proof {
            lemma_frame_len(self@);
        }
        r
    }

    /// The whole frame: header, then body.
    pub fn encode(&self) -> (r: Result<Vec<u8>, PduError>)
        ensures
            r is Ok <==> frame_fits(self@),
            r matches Ok(b) ==> b@ == frame_bytes(self@),
            fields_shape(Self::body_layout(), self@.fields),
    {
        encode_frame(CLASS_EXEC, NowExecMsgKind::ABORT, 0, &self.to_fields())
    }

    /// Decodes a body of this message type sent with header flags `flags`. Body
    /// bytes after the known fields are ignored.
    pub fn decode_from_body(flags: u16, body: &[u8]) -> (r: Result<Self, PduError>)
        ensures
            forall|m0: Self|
                fields_shape(Self::body_layout(), m0@.fields) &&  m0@.flags == flags && is_prefix(
                    #[trigger] fields_bytes(m0@.fields),
                    body@,
                ) ==> (r matches Ok(m) && m@ == m0@),
    {
        let layout = Self::layout_vec();
        let fs = decode_body_fields(body, &layout)?;
        Self::from_fields(flags, &fs)
    }

    /// Decodes a frame of this message type: checks the header's class and kind,
    /// isolates the body the header announces, and decodes it.
    pub fn decode(buf: &[u8]) -> (r: Result<Self, PduError>)
        ensures
            buf.len() >= 8 && (buf@[4] != CLASS_EXEC || buf@[5] != NowExecMsgKind::ABORT)
                ==> (r matches Err(e) && e is InvalidField),
            forall|m0: Self, body: Seq<u8>|
                fields_shape(Self::body_layout(), m0@.fields) &&  body_extends(m0@, body) && is_prefix(
                    #[trigger] framed(m0@, body),
                    buf@,
                ) ==> (r matches Ok(m) && m@ == m0@),
    {
        let (flags, body) = split_typed(buf, CLASS_EXEC, NowExecMsgKind::ABORT)?;
        Self::decode_from_body(flags, body)
    }

    /// Abort of session `session_id` with `exit_code`.
    pub fn new(session_id: u32, exit_code: u32) -> (r: Self)
        ensures
            r@ == (WireView {
                class: CLASS_EXEC,
                kind: NowExecMsgKind::ABORT,
                flags: 0u16,
                fields: seq![FieldView::U32(session_id), FieldView::U32(exit_code)],
            }),
    {
        let m = NowExecAbortMsg { session_id, exit_code };
        proof {
            assert(m@.fields =~= seq![FieldView::U32(session_id), FieldView::U32(exit_code)]);
        }
        m
    }

    /// The `session_id` field.
    pub fn session_id(&self) -> (r: u32)
        ensures
            self@.fields[0] == FieldView::U32(r),
    {
        self.session_id
    }

    /// The `exit_code` field.
    pub fn exit_code(&self) -> (r: u32)
        ensures
            self@.fields[1] == FieldView::U32(r),
    {
        self.exit_code
    }

}

/// Asks to cancel an exec session.
#[derive(Debug)]
pub struct NowExecCancelReqMsg {
    session_id: u32,
}

impl View for NowExecCancelReqMsg {
    type V = WireView;

    closed spec fn view(&self) -> WireView {
        WireView {
            class: CLASS_EXEC,
            kind: NowExecMsgKind::CANCEL_REQ,
            flags: 0u16,
            fields: seq![FieldView::U32(self.session_id)],
        }
    }
}

impl NowExecCancelReqMsg {
    /// The view names the class and kind of this message.
    pub proof fn lemma_tag(&self)
        ensures
            self@.class == CLASS_EXEC,
            self@.kind == NowExecMsgKind::CANCEL_REQ,
    {
    }

    /// Kinds of the body fields.
    pub open spec fn body_layout() -> Seq<FieldKind> {
        seq![FieldKind::U32]
    }

    fn layout_vec() -> (r: Vec<FieldKind>)
        ensures
            r@ == Self::body_layout(),
    {
        let mut v: Vec<FieldKind> = Vec::new();
        v.push(FieldKind::U32);
        assert(v@ =~= Self::body_layout());
        v
    }

    /// The body fields.
    pub fn to_fields(&self) -> (r: Vec<Field>)
        ensures
            views(r@) == self@.fields,
            fields_shape(Self::body_layout(), self@.fields),
    {
        let mut v: Vec<Field> = Vec::new();
        v.push(Field::U32(self.session_id));
        assert(views(v@) =~= self@.fields);
        assert(fields_shape(Self::body_layout(), self@.fields));
        v
    }

    /// The message of header flags `flags` and body fields `fs`.
    pub fn from_fields(flags: u16, fs: &Vec<Field>) -> (r: Result<Self, PduError>)
        requires
            fields_shape(Self::body_layout(), views(fs@)),
        ensures
            r is Ok,
            r matches Ok(m) ==> m@ == (WireView {
                class: CLASS_EXEC,
                kind: NowExecMsgKind::CANCEL_REQ,
                flags: 0u16,
                fields: views(fs@),
            }),
    {
        let n = fs.len();
        assert(n == 1);
        let session_id = get_u32(fs, 0);
        let r = NowExecCancelReqMsg { session_id };
        assert(r@.fields =~= views(fs@));
        Ok(r)
    }

    /// Number of body bytes; `InvalidField` when that count overflows `usize`.
    pub fn body_size(&self) -> (r: Result<usize, PduError>)
        ensures
            r matches Ok(n) ==> n == fields_bytes(self@.fields).len(),
            r is Err <==> fields_bytes(self@.fields).len() > usize::MAX,
            r matches Err(e) ==> e is InvalidField,
    {
        fields_size(&self.to_fields())
    }

    /// Number of bytes [`Self::encode`] writes; `InvalidField` when the body does
    /// not fit the header's size field.
    pub fn size(&self) -> (r: Result<usize, PduError>)
        ensures
            r is Ok <==> frame_fits(self@) && frame_bytes(self@).len() <= usize::MAX,
            r matches Ok(n) ==> n == frame_bytes(self@).len(),
    {
        let r = frame_size(&self.to_fields());
        proof {
            lemma_frame_len(self@);
        }
        r
    }

    /// The whole frame: header, then body.
    pub fn encode(&self) -> (r: Result<Vec<u8>, PduError>)
        ensures
            r is Ok <==> frame_fits(self@),
            r matches Ok(b) ==> b@ == frame_bytes(self@),
            fields_shape(Self::body_layout(), self@.fields),
    {
        encode_frame(CLASS_EXEC, NowExecMsgKind::CANCEL_REQ, 0, &self.to_fields())
    }

    /// Decodes a body of this message type sent with header flags `flags`. Body
    /// bytes after the known fields are ignored.
    pub fn decode_from_body(flags: u16, body: &[u8]) -> (r: Result<Self, PduError>)
        ensures
            forall|m0: Self|
                fields_shape(Self::body_layout(), m0@.fields) &&  m0@.flags == flags && is_prefix(
                    #[trigger] fields_bytes(m0@.fields),
                    body@,
                ) ==> (r matches Ok(m) && m@ == m0@),
    {
        let layout = Self::layout_vec();
        let fs = decode_body_fields(body, &layout)?;
        Self::from_fields(flags, &fs)
    }

    /// Decodes a frame of this message type: checks the header's class and kind,
    /// isolates the body the header announces, and decodes it.
    pub fn decode(buf: &[u8]) -> (r: Result<Self, PduError>)
        ensures
            buf.len() >= 8 && (buf@[4] != CLASS_EXEC || buf@[5] != NowExecMsgKind::CANCEL_REQ)
                ==> (r matches Err(e) && e is InvalidField),
            forall|m0: Self, body: Seq<u8>|
                fields_shape(Self::body_layout(), m0@.fields) &&  body_extends(m0@, body) && is_prefix(
                    #[trigger] framed(m0@, body),
                    buf@,
                ) ==> (r matches Ok(m) && m@ == m0@),
    {
        let (flags, body) = split_typed(buf, CLASS_EXEC, NowExecMsgKind::CANCEL_REQ)?;
        Self::decode_from_body(flags, body)
    }

    /// Cancel request for session `session_id`.
    pub fn new(session_id: u32) -> (r: Self)
        ensures
            r@ == (WireView {
                class: CLASS_EXEC,
                kind: NowExecMsgKind::CANCEL_REQ,
                flags: 0u16,
                fields: seq![FieldView::U32(session_id)],
            }),
    {
        let m = NowExecCancelReqMsg { session_id };
        proof {
            assert(m@.fields =~= seq![FieldView::U32(session_id)]);
        }
        m
    }

    /// The `session_id` field.
    pub fn session_id(&self) -> (r: u32)
        ensures
            self@.fields[0] == FieldView::U32(r),
    {
        self.session_id
    }

}

/// Answers a cancel request.
#[derive(Debug)]
pub struct NowExecCancelRspMsg {
    session_id: u32,
    status: NowStatus,
}

impl View for NowExecCancelRspMsg {
    type V = WireView;

    closed spec fn view(&self) -> WireView {
        WireView {
            class: CLASS_EXEC,
            kind: NowExecMsgKind::CANCEL_RSP,
            flags: 0u16,
            fields: seq![FieldView::U32(self.session_id)] + status_fields(self.status@),
        }
    }
}

impl NowExecCancelRspMsg {
    /// The view names the class and kind of this message.
    pub proof fn lemma_tag(&self)
        ensures
            self@.class == CLASS_EXEC,
            self@.kind == NowExecMsgKind::CANCEL_RSP,
    {
    }

    /// Kinds of the body fields.
    pub open spec fn body_layout() -> Seq<FieldKind> {
        seq![FieldKind::U32, FieldKind::U16, FieldKind::U16, FieldKind::U32, FieldKind::Str]
    }

    fn layout_vec() -> (r: Vec<FieldKind>)
        ensures
            r@ == Self::body_layout(),
    {
        let mut v: Vec<FieldKind> = Vec::new();
        v.push(FieldKind::U32);
        v.push(FieldKind::U16);
        v.push(FieldKind::U16);
        v.push(FieldKind::U32);
        v.push(FieldKind::Str);
        assert(v@ =~= Self::body_layout());
        v
    }

    /// The body fields.
    pub fn to_fields(&self) -> (r: Vec<Field>)
        ensures
            views(r@) == self@.fields,
            fields_shape(Self::body_layout(), self@.fields),
    {
        let mut v: Vec<Field> = Vec::new();
        v.push(Field::U32(self.session_id));
        self.status.push_fields(&mut v);
        assert(views(v@) =~= self@.fields);
        assert(fields_shape(Self::body_layout(), self@.fields));
        v
    }

    /// The message of header flags `flags` and body fields `fs`.
    pub fn from_fields(flags: u16, fs: &Vec<Field>) -> (r: Result<Self, PduError>)
        requires
            fields_shape(Self::body_layout(), views(fs@)),
        ensures
            r is Ok,
            r matches Ok(m) ==> m@ == (WireView {
                class: CLASS_EXEC,
                kind: NowExecMsgKind::CANCEL_RSP,
                flags: 0u16,
                fields: views(fs@),
            }),
    {
        let n = fs.len();
        assert(n == 5);
        let session_id = get_u32(fs, 0);
        let status = NowStatus::from_fields(fs, 1);
        let r = NowExecCancelRspMsg { session_id, status };
        assert(r@.fields =~= views(fs@));
        Ok(r)
    }

    /// Number of body bytes; `InvalidField` when that count overflows `usize`.
    pub fn body_size(&self) -> (r: Result<usize, PduError>)
        ensures
            r matches Ok(n) ==> n == fields_bytes(self@.fields).len(),
            r is Err <==> fields_bytes(self@.fields).len() > usize::MAX,
            r matches Err(e) ==> e is InvalidField,
    {
        fields_size(&self.to_fields())
    }

    /// Number of bytes [`Self::encode`] writes; `InvalidField` when the body does
    /// not fit the header's size field.
    pub fn size(&self) -> (r: Result<usize, PduError>)
        ensures
            r is Ok <==> frame_fits(self@) && frame_bytes(self@).len() <= usize::MAX,
            r matches Ok(n) ==> n == frame_bytes(self@).len(),
    {
        let r = frame_size(&self.to_fields());
        proof {
            lemma_frame_len(self@);
        }
        r
    }

    /// The whole frame: header, then body.
    pub fn encode(&self) -> (r: Result<Vec<u8>, PduError>)
        ensures
            r is Ok <==> frame_fits(self@),
            r matches Ok(b) ==> b@ == frame_bytes(self@),
            fields_shape(Self::body_layout(), self@.fields),
    {
        encode_frame(CLASS_EXEC, NowExecMsgKind::CANCEL_RSP, 0, &self.to_fields())
    }

    /// Decodes a body of this message type sent with header flags `flags`. Body
    /// bytes after the known fields are ignored.
    pub fn decode_from_body(flags: u16, body: &[u8]) -> (r: Result<Self, PduError>)
        ensures
            forall|m0: Self|
                fields_shape(Self::body_layout(), m0@.fields) &&  m0@.flags == flags && is_prefix(
                    #[trigger] fields_bytes(m0@.fields),
                    body@,
                ) ==> (r matches Ok(m) && m@ == m0@),
    {
        let layout = Self::layout_vec();
        let fs = decode_body_fields(body, &layout)?;
        Self::from_fields(flags, &fs)
    }

    /// Decodes a frame of this message type: checks the header's class and kind,
    /// isolates the body the header announces, and decodes it.
    pub fn decode(buf: &[u8]) -> (r: Result<Self, PduError>)
        ensures
            buf.len() >= 8 && (buf@[4] != CLASS_EXEC || buf@[5] != NowExecMsgKind::CANCEL_RSP)
                ==> (r matches Err(e) && e is InvalidField),
            forall|m0: Self, body: Seq<u8>|
                fields_shape(Self::body_layout(), m0@.fields) &&  body_extends(m0@, body) && is_prefix(
                    #[trigger] framed(m0@, body),
                    buf@,
                ) ==> (r matches Ok(m) && m@ == m0@),
    {
        let (flags, body) = split_typed(buf, CLASS_EXEC, NowExecMsgKind::CANCEL_RSP)?;
        Self::decode_from_body(flags, body)
    }

    /// Successful cancel of session `session_id`.
    pub fn new_success(session_id: u32) -> (r: Self)
        ensures
            r@ == (WireView {
                class: CLASS_EXEC,
                kind: NowExecMsgKind::CANCEL_RSP,
                flags: 0u16,
                fields: seq![FieldView::U32(session_id)] + status_fields(StatusView { flags: 0, kind: 0, code: 0, message: Seq::<char>::empty() }),
            }),
    {
        let m = NowExecCancelRspMsg { session_id, status: NowStatus::new_success() };
        proof {
            assert(m@.fields =~= seq![FieldView::U32(session_id)] + status_fields(StatusView { flags: 0, kind: 0, code: 0, message: Seq::<char>::empty() }));
        }
        m
    }

    /// The `session_id` field.
    pub fn session_id(&self) -> (r: u32)
        ensures
            self@.fields[0] == FieldView::U32(r),
    {
        self.session_id
    }

    /// An error response carrying `error`; fails with `InvalidField` when the body
    /// is too long.
    pub fn new_error(session_id: u32, error: NowStatusError) -> (r: Result<Self, PduError>)
        ensures
            r is Ok <==>
                fields_bytes(seq![FieldView::U32(session_id)] + status_fields(error_status(error@))).len() <= usize::MAX,
            r matches Ok(m) ==> m@ == (WireView {
                class: CLASS_EXEC,
                kind: NowExecMsgKind::CANCEL_RSP,
                flags: 0u16,
                fields: seq![FieldView::U32(session_id)] + status_fields(error_status(error@)),
            }),
            r matches Err(e) ==> e is InvalidField,
    {
        let ghost e = error@;
        let status = NowStatus::new_error(error);
        let m = NowExecCancelRspMsg { session_id, status: status };
        proof {
            assert(m@.fields =~= seq![FieldView::U32(session_id)] + status_fields(error_status(e)));
        }
        m.body_size()?;
        Ok(m)
    }

    /// `Ok` on success, else the reported error.
    pub fn to_result(&self) -> (r: Result<(), NowStatusError>)
        ensures
            r is Ok <==> status_at(self@.fields, 1).flags & STATUS_ERROR == 0,
            r matches Err(e) ==> e@ == status_error(status_at(self@.fields, 1)),
    {
        proof {
            assert(status_at(self@.fields, 1) == self.status@);
        }
        match self.status.to_result() {
            Ok(()) => Ok(()),
            Err(e) => Err(e),
        }
    }

}

/// Reports how an exec session ended.
#[derive(Debug)]
pub struct NowExecResultMsg {
    session_id: u32,
    exit_code: u32,
    status: NowStatus,
}

impl View for NowExecResultMsg {
    type V = WireView;

    closed spec fn view(&self) -> WireView {
        WireView {
            class: CLASS_EXEC,
            kind: NowExecMsgKind::RESULT,
            flags: 0u16,
            fields: seq![
                FieldView::U32(self.session_id),
                FieldView::U32(self.exit_code),
            ] + status_fields(self.status@),
        }
    }
}

impl NowExecResultMsg {
    /// The view names the class and kind of this message.
    pub proof fn lemma_tag(&self)
        ensures
            self@.class == CLASS_EXEC,
            self@.kind == NowExecMsgKind::RESULT,
    {
    }

    /// Kinds of the body fields.
    pub open spec fn body_layout() -> Seq<FieldKind> {
        seq![FieldKind::U32, FieldKind::U32, FieldKind::U16, FieldKind::U16, FieldKind::U32, FieldKind::Str]
    }

    fn layout_vec() -> (r: Vec<FieldKind>)
        ensures
            r@ == Self::body_layout(),
    {
        let mut v: Vec<FieldKind> = Vec::new();
        v.push(FieldKind::U32);
        v.push(FieldKind::U32);
        v.push(FieldKind::U16);
        v.push(FieldKind::U16);
        v.push(FieldKind::U32);
        v.push(FieldKind::Str);
        assert(v@ =~= Self::body_layout());
        v
    }

    /// The body fields.
    pub fn to_fields(&self) -> (r: Vec<Field>)
        ensures
            views(r@) == self@.fields,
            fields_shape(Self::body_layout(), self@.fields),
    {
        let mut v: Vec<Field> = Vec::new();
        v.push(Field::U32(self.session_id));
        v.push(Field::U32(self.exit_code));
        self.status.push_fields(&mut v);
        assert(views(v@) =~= self@.fields);
        assert(fields_shape(Self::body_layout(), self@.fields));
        v
    }

    /// The message of header flags `flags` and body fields `fs`.
    pub fn from_fields(flags: u16, fs: &Vec<Field>) -> (r: Result<Self, PduError>)
        requires
            fields_shape(Self::body_layout(), views(fs@)),
        ensures
            r is Ok,
            r matches Ok(m) ==> m@ == (WireView {
                class: CLASS_EXEC,
                kind: NowExecMsgKind::RESULT,
                flags: 0u16,
                fields: views(fs@),
            }),
    {
        let n = fs.len();
        assert(n == 6);
        let session_id = get_u32(fs, 0);
        let exit_code = get_u32(fs, 1);
        let status = NowStatus::from_fields(fs, 2);
        let r = NowExecResultMsg { session_id, exit_code, status };
        assert(r@.fields =~= views(fs@));
        Ok(r)
    }

    /// Number of body bytes; `InvalidField` when that count overflows `usize`.
    pub fn body_size(&self) -> (r: Result<usize, PduError>)
        ensures
            r matches Ok(n) ==> n == fields_bytes(self@.fields).len(),
            r is Err <==> fields_bytes(self@.fields).len() > usize::MAX,
            r matches Err(e) ==> e is InvalidField,
    {
        fields_size(&self.to_fields())
    }

    /// Number of bytes [`Self::encode`] writes; `InvalidField` when the body does
    /// not fit the header's size field.
    pub fn size(&self) -> (r: Result<usize, PduError>)
        ensures
            r is Ok <==> frame_fits(self@) && frame_bytes(self@).len() <= usize::MAX,
            r matches Ok(n) ==> n == frame_bytes(self@).len(),
    {
        let r = frame_size(&self.to_fields());
        proof {
            lemma_frame_len(self@);
        }
        r
    }

    /// The whole frame: header, then body.
    pub fn encode(&self) -> (r: Result<Vec<u8>, PduError>)
        ensures
            r is Ok <==> frame_fits(self@),
            r matches Ok(b) ==> b@ == frame_bytes(self@),
            fields_shape(Self::body_layout(), self@.fields),
    {
        encode_frame(CLASS_EXEC, NowExecMsgKind::RESULT, 0, &self.to_fields())
    }

    /// Decodes a body of this message type sent with header flags `flags`. Body
    /// bytes after the known fields are ignored.
    pub fn decode_from_body(flags: u16, body: &[u8]) -> (r: Result<Self, PduError>)
        ensures
            forall|m0: Self|
                fields_shape(Self::body_layout(), m0@.fields) &&  m0@.flags == flags && is_prefix(
                    #[trigger] fields_bytes(m0@.fields),
                    body@,
                ) ==> (r matches Ok(m) && m@ == m0@),
    {
        let layout = Self::layout_vec();
        let fs = decode_body_fields(body, &layout)?;
        Self::from_fields(flags, &fs)
    }

    /// Decodes a frame of this message type: checks the header's class and kind,
    /// isolates the body the header announces, and decodes it.
    pub fn decode(buf: &[u8]) -> (r: Result<Self, PduError>)
        ensures
            buf.len() >= 8 && (buf@[4] != CLASS_EXEC || buf@[5] != NowExecMsgKind::RESULT)
                ==> (r matches Err(e) && e is InvalidField),
            forall|m0: Self, body: Seq<u8>|
                fields_shape(Self::body_layout(), m0@.fields) &&  body_extends(m0@, body) && is_prefix(
                    #[trigger] framed(m0@, body),
                    buf@,
                ) ==> (r matches Ok(m) && m@ == m0@),
    {
        let (flags, body) = split_typed(buf, CLASS_EXEC, NowExecMsgKind::RESULT)?;
        Self::decode_from_body(flags, body)
    }

    /// Session `session_id` ended with `exit_code`.
    pub fn new_success(session_id: u32, exit_code: u32) -> (r: Self)
        ensures
            r@ == (WireView {
                class: CLASS_EXEC,
                kind: NowExecMsgKind::RESULT,
                flags: 0u16,
                fields: seq![
                    FieldView::U32(session_id),
                    FieldView::U32(exit_code),
                ] + status_fields(StatusView { flags: 0, kind: 0, code: 0, message: Seq::<char>::empty() }),
            }),
    {
        let m = NowExecResultMsg { session_id, exit_code, status: NowStatus::new_success() };
        proof {
            assert(m@.fields =~= seq![
                FieldView::U32(session_id),
                FieldView::U32(exit_code),
            ] + status_fields(StatusView { flags: 0, kind: 0, code: 0, message: Seq::<char>::empty() }));
        }
        m
    }

    /// The `session_id` field.
    pub fn session_id(&self) -> (r: u32)
        ensures
            self@.fields[0] == FieldView::U32(r),
    {
        self.session_id
    }

    /// An error response carrying `error`; fails with `InvalidField` when the body
    /// is too long.
    pub fn new_error(session_id: u32, error: NowStatusError) -> (r: Result<Self, PduError>)
        ensures
            r is Ok <==> fields_bytes(seq![
                FieldView::U32(session_id),
                FieldView::U32(0),
            ] + status_fields(error_status(error@))).len() <= usize::MAX,
            r matches Ok(m) ==> m@ == (WireView {
                class: CLASS_EXEC,
                kind: NowExecMsgKind::RESULT,
                flags: 0u16,
                fields: seq![
                    FieldView::U32(session_id),
                    FieldView::U32(0),
                ] + status_fields(error_status(error@)),
            }),
            r matches Err(e) ==> e is InvalidField,
    {
        let ghost e = error@;
        let status = NowStatus::new_error(error);
        let m = NowExecResultMsg { session_id, exit_code: 0, status: status };
        proof {
            assert(m@.fields =~= seq![
                FieldView::U32(session_id),
                FieldView::U32(0),
            ] + status_fields(error_status(e)));
        }
        m.body_size()?;
        Ok(m)
    }

    /// The exit code on success, else the reported error.
    pub fn to_result(&self) -> (r: Result<u32, NowStatusError>)
        ensures
            r is Ok <==> status_at(self@.fields, 2).flags & STATUS_ERROR == 0,
            r matches Err(e) ==> e@ == status_error(status_at(self@.fields, 2)),
            r matches Ok(c) ==> self@.fields[1] == FieldView::U32(c),
    {
        proof {
            assert(status_at(self@.fields, 2) == self.status@);
        }
        match self.status.to_result() {
            Ok(()) => Ok(self.exit_code),
            Err(e) => Err(e),
        }
    }

}

/// Reports that an exec session started.
#[derive(Debug)]
pub struct NowExecStartedMsg {
    session_id: u32,
}

impl View for NowExecStartedMsg {
    type V = WireView;

    closed spec fn view(&self) -> WireView {
        WireView {
            class: CLASS_EXEC,
            kind: NowExecMsgKind::STARTED,
            flags: 0u16,
            fields: seq![FieldView::U32(self.session_id)],
        }
    }
}

impl NowExecStartedMsg {
    /// The view names the class and kind of this message.
    pub proof fn lemma_tag(&self)
        ensures
            self@.class == CLASS_EXEC,
            self@.kind == NowExecMsgKind::STARTED,
    {
    }

    /// Kinds of the body fields.
    pub open spec fn body_layout() -> Seq<FieldKind> {
        seq![FieldKind::U32]
    }

    fn layout_vec() -> (r: Vec<FieldKind>)
        ensures
            r@ == Self::body_layout(),
    {
        let mut v: Vec<FieldKind> = Vec::new();
        v.push(FieldKind::U32);
        assert(v@ =~= Self::body_layout());
        v
    }

    /// The body fields.
    pub fn to_fields(&self) -> (r: Vec<Field>)
        ensures
            views(r@) == self@.fields,
            fields_shape(Self::body_layout(), self@.fields),
    {
        let mut v: Vec<Field> = Vec::new();
        v.push(Field::U32(self.session_id));
        assert(views(v@) =~= self@.fields);
        assert(fields_shape(Self::body_layout(), self@.fields));
        v
    }

    /// The message of header flags `flags` and body fields `fs`.
    pub fn from_fields(flags: u16, fs: &Vec<Field>) -> (r: Result<Self, PduError>)
        requires
            fields_shape(Self::body_layout(), views(fs@)),
        ensures
            r is Ok,
            r matches Ok(m) ==> m@ == (WireView {
                class: CLASS_EXEC,
                kind: NowExecMsgKind::STARTED,
                flags: 0u16,
                fields: views(fs@),
            }),
    {
        let n = fs.len();
        assert(n == 1);
        let session_id = get_u32(fs, 0);
        let r = NowExecStartedMsg { session_id };
        assert(r@.fields =~= views(fs@));
        Ok(r)
    }

    /// Number of body bytes; `InvalidField` when that count overflows `usize`.
    pub fn body_size(&self) -> (r: Result<usize, PduError>)
        ensures
            r matches Ok(n) ==> n == fields_bytes(self@.fields).len(),
            r is Err <==> fields_bytes(self@.fields).len() > usize::MAX,
            r matches Err(e) ==> e is InvalidField,
    {
        fields_size(&self.to_fields())
    }

    /// Number of bytes [`Self::encode`] writes; `InvalidField` when the body does
    /// not fit the header's size field.
    pub fn size(&self) -> (r: Result<usize, PduError>)
        ensures
            r is Ok <==> frame_fits(self@) && frame_bytes(self@).len() <= usize::MAX,
            r matches Ok(n) ==> n == frame_bytes(self@).len(),
    {
        let r = frame_size(&self.to_fields());
        proof {
            lemma_frame_len(self@);
        }
        r
    }

    /// The whole frame: header, then body.
    pub fn encode(&self) -> (r: Result<Vec<u8>, PduError>)
        ensures
            r is Ok <==> frame_fits(self@),
            r matches Ok(b) ==> b@ == frame_bytes(self@),
            fields_shape(Self::body_layout(), self@.fields),
    {
        encode_frame(CLASS_EXEC, NowExecMsgKind::STARTED, 0, &self.to_fields())
    }

    /// Decodes a body of this message type sent with header flags `flags`. Body
    /// bytes after the known fields are ignored.
    pub fn decode_from_body(flags: u16, body: &[u8]) -> (r: Result<Self, PduError>)
        ensures
            forall|m0: Self|
                fields_shape(Self::body_layout(), m0@.fields) &&  m0@.flags == flags && is_prefix(
                    #[trigger] fields_bytes(m0@.fields),
                    body@,
                ) ==> (r matches Ok(m) && m@ == m0@),
    {
        let layout = Self::layout_vec();
        let fs = decode_body_fields(body, &layout)?;
        Self::from_fields(flags, &fs)
    }

    /// Decodes a frame of this message type: checks the header's class and kind,
    /// isolates the body the header announces, and decodes it.
    pub fn decode(buf: &[u8]) -> (r: Result<Self, PduError>)
        ensures
            buf.len() >= 8 && (buf@[4] != CLASS_EXEC || buf@[5] != NowExecMsgKind::STARTED)
                ==> (r matches Err(e) && e is InvalidField),
            forall|m0: Self, body: Seq<u8>|
                fields_shape(Self::body_layout(), m0@.fields) &&  body_extends(m0@, body) && is_prefix(
                    #[trigger] framed(m0@, body),
                    buf@,
                ) ==> (r matches Ok(m) && m@ == m0@),
    {
        let (flags, body) = split_typed(buf, CLASS_EXEC, NowExecMsgKind::STARTED)?;
        Self::decode_from_body(flags, body)
    }

    /// Start notice of session `session_id`.
    pub fn new(session_id: u32) -> (r: Self)
        ensures
            r@ == (WireView {
                class: CLASS_EXEC,
                kind: NowExecMsgKind::STARTED,
                flags: 0u16,
                fields: seq![FieldView::U32(session_id)],
            }),
    {
        let m = NowExecStartedMsg { session_id };
        proof {
            assert(m@.fields =~= seq![FieldView::U32(session_id)]);
        }
        m
    }

    /// The `session_id` field.
    pub fn session_id(&self) -> (r: u32)
        ensures
            self@.fields[0] == FieldView::U32(r),
    {
        self.session_id
    }

}

/// A chunk of a standard stream of an exec session.
#[derive(Debug)]
pub struct NowExecDataMsg {
    flags: u16,
    session_id: u32,
    data: NowVarBuf,
}

impl View for NowExecDataMsg {
    type V = WireView;

    closed spec fn view(&self) -> WireView {
        WireView {
            class: CLASS_EXEC,
            kind: NowExecMsgKind::DATA,
            flags: self.flags,
            fields: seq![FieldView::U32(self.session_id), FieldView::Buf(self.data@)],
        }
    }
}

impl NowExecDataMsg {
    /// The view names the class and kind of this message.
    pub proof fn lemma_tag(&self)
        ensures
            self@.class == CLASS_EXEC,
            self@.kind == NowExecMsgKind::DATA,
    {
    }

    /// Kinds of the body fields.
    pub open spec fn body_layout() -> Seq<FieldKind> {
        seq![FieldKind::U32, FieldKind::Buf]
    }

    fn layout_vec() -> (r: Vec<FieldKind>)
        ensures
            r@ == Self::body_layout(),
    {
        let mut v: Vec<FieldKind> = Vec::new();
        v.push(FieldKind::U32);
        v.push(FieldKind::Buf);
        assert(v@ =~= Self::body_layout());
        v
    }

    /// The body fields.
    pub fn to_fields(&self) -> (r: Vec<Field>)
        ensures
            views(r@) == self@.fields,
            fields_shape(Self::body_layout(), self@.fields),
    {
        let mut v: Vec<Field> = Vec::new();
        v.push(Field::U32(self.session_id));
        v.push(Field::Buf(self.data.duplicate()));
        assert(views(v@) =~= self@.fields);
        assert(fields_shape(Self::body_layout(), self@.fields));
        v
    }

    /// The message of header flags `flags` and body fields `fs`.
    pub fn from_fields(flags: u16, fs: &Vec<Field>) -> (r: Result<Self, PduError>)
        requires
            fields_shape(Self::body_layout(), views(fs@)),
        ensures
            r is Ok,
            r matches Ok(m) ==> m@ == (WireView {
                class: CLASS_EXEC,
                kind: NowExecMsgKind::DATA,
                flags: flags,
                fields: views(fs@),
            }),
    {
        let n = fs.len();
        assert(n == 2);
        let session_id = get_u32(fs, 0);
        let data = get_buf(fs, 1);
        let r = NowExecDataMsg { flags, session_id, data };
        assert(r@.fields =~= views(fs@));
        Ok(r)
    }

    /// Number of body bytes; `InvalidField` when that count overflows `usize`.
    pub fn body_size(&self) -> (r: Result<usize, PduError>)
        ensures
            r matches Ok(n) ==> n == fields_bytes(self@.fields).len(),
            r is Err <==> fields_bytes(self@.fields).len() > usize::MAX,
            r matches Err(e) ==> e is InvalidField,
    {
        fields_size(&self.to_fields())
    }

    /// Number of bytes [`Self::encode`] writes; `InvalidField` when the body does
    /// not fit the header's size field.
    pub fn size(&self) -> (r: Result<usize, PduError>)
        ensures
            r is Ok <==> frame_fits(self@) && frame_bytes(self@).len() <= usize::MAX,
            r matches Ok(n) ==> n == frame_bytes(self@).len(),
    {
        let r = frame_size(&self.to_fields());
        proof {
            lemma_frame_len(self@);
        }
        r
    }

    /// The whole frame: header, then body.
    pub fn encode(&self) -> (r: Result<Vec<u8>, PduError>)
        ensures
            r is Ok <==> frame_fits(self@),
            r matches Ok(b) ==> b@ == frame_bytes(self@),
            fields_shape(Self::body_layout(), self@.fields),
    {
        encode_frame(CLASS_EXEC, NowExecMsgKind::DATA, self.flags, &self.to_fields())
    }

    /// Decodes a body of this message type sent with header flags `flags`. Body
    /// bytes after the known fields are ignored.
    pub fn decode_from_body(flags: u16, body: &[u8]) -> (r: Result<Self, PduError>)
        ensures
            forall|m0: Self|
                fields_shape(Self::body_layout(), m0@.fields) &&  m0@.flags == flags && is_prefix(
                    #[trigger] fields_bytes(m0@.fields),
                    body@,
                ) ==> (r matches Ok(m) && m@ == m0@),
    {
        let layout = Self::layout_vec();
        let fs = decode_body_fields(body, &layout)?;
        Self::from_fields(flags, &fs)
    }

    /// Decodes a frame of this message type: checks the header's class and kind,
    /// isolates the body the header announces, and decodes it.
    pub fn decode(buf: &[u8]) -> (r: Result<Self, PduError>)
        ensures
            buf.len() >= 8 && (buf@[4] != CLASS_EXEC || buf@[5] != NowExecMsgKind::DATA)
                ==> (r matches Err(e) && e is InvalidField),
            forall|m0: Self, body: Seq<u8>|
                fields_shape(Self::body_layout(), m0@.fields) &&  body_extends(m0@, body) && is_prefix(
                    #[trigger] framed(m0@, body),
                    buf@,
                ) ==> (r matches Ok(m) && m@ == m0@),
    {
        let (flags, body) = split_typed(buf, CLASS_EXEC, NowExecMsgKind::DATA)?;
        Self::decode_from_body(flags, body)
    }

    /// The `session_id` field.
    pub fn session_id(&self) -> (r: u32)
        ensures
            self@.fields[0] == FieldView::U32(r),
    {
        self.session_id
    }

    /// The `data` field.
    pub fn data(&self) -> (r: &[u8])
        ensures
            self@.fields[1] == FieldView::Buf(r@),
    {
        self.data.value()
    }

    /// True for the last chunk.
    pub fn is_last(&self) -> (r: bool)
        ensures
            r == (self@.flags & NowExecDataFlags::LAST != 0),
    {
        self.flags & NowExecDataFlags::LAST != 0
    }

    /// A chunk of stream `stream` of session `session_id`; `last` marks the final
    /// chunk. Fails with `InvalidField` when the data is too long.
    pub fn new(session_id: u32, stream: NowExecDataStreamKind, last: bool, data: Vec<u8>) -> (r: Result<Self, PduError>)
        ensures
            r is Ok <==> varbuf_fits(data@) && fields_bytes(seq![
                FieldView::U32(session_id),
                FieldView::Buf(data@),
            ]).len() <= usize::MAX,
            r matches Ok(m) ==> m@ == (WireView {
                class: CLASS_EXEC,
                kind: NowExecMsgKind::DATA,
                flags: if last { (stream_flag(stream) | NowExecDataFlags::LAST) as u16 } else { stream_flag(stream) },
                fields: seq![FieldView::U32(session_id), FieldView::Buf(data@)],
            }),
            r matches Err(e) ==> e is InvalidField,
    {
        let ghost d = data@;
        let data = NowVarBuf::new(data)?;
        let flags = if last {
            stream.to_flags() | NowExecDataFlags::LAST
        } else {
            stream.to_flags()
        };
        let m = NowExecDataMsg { flags, session_id, data };
        proof {
            assert(m@.fields =~= seq![FieldView::U32(session_id), FieldView::Buf(d)]);
        }
        m.body_size()?;
        Ok(m)
    }

    /// The stream; `InvalidField` unless exactly one stream flag is set.
    pub fn stream_kind(&self) -> (r: Result<NowExecDataStreamKind, PduError>)
        ensures
            r is Err <==> stream_of_flags(self@.flags) is None,
            r matches Ok(k) ==> stream_of_flags(self@.flags) == Some(k),
    {
        match NowExecDataStreamKind::from_flags(self.flags) {
            Some(k) => Ok(k),
            None => Err(PduError::invalid_field("flags", "invalid stream kind")),
        }
    }

}

/// Starts a process from an executable file.
#[derive(Debug)]
pub struct NowExecProcessMsg {
    flags: u16,
    session_id: u32,
    filename: NowVarStr,
    parameters: NowVarStr,
    directory: NowVarStr,
}

impl View for NowExecProcessMsg {
    type V = WireView;

    closed spec fn view(&self) -> WireView {
        WireView {
            class: CLASS_EXEC,
            kind: NowExecMsgKind::PROCESS,
            flags: self.flags,
            fields: seq![
                FieldView::U32(self.session_id),
                FieldView::Str(self.filename@),
                FieldView::Str(self.parameters@),
                FieldView::Str(self.directory@),
            ],
        }
    }
}

impl NowExecProcessMsg {
    /// The view names the class and kind of this message.
    pub proof fn lemma_tag(&self)
        ensures
            self@.class == CLASS_EXEC,
            self@.kind == NowExecMsgKind::PROCESS,
    {
    }

    /// Kinds of the body fields.
    pub open spec fn body_layout() -> Seq<FieldKind> {
        seq![FieldKind::U32, FieldKind::Str, FieldKind::Str, FieldKind::Str]
    }

    fn layout_vec() -> (r: Vec<FieldKind>)
        ensures
            r@ == Self::body_layout(),
    {
        let mut v: Vec<FieldKind> = Vec::new();
        v.push(FieldKind::U32);
        v.push(FieldKind::Str);
        v.push(FieldKind::Str);
        v.push(FieldKind::Str);
        assert(v@ =~= Self::body_layout());
        v
    }

    /// The body fields.
    pub fn to_fields(&self) -> (r: Vec<Field>)
        ensures
            views(r@) == self@.fields,
            fields_shape(Self::body_layout(), self@.fields),
    {
        let mut v: Vec<Field> = Vec::new();
        v.push(Field::U32(self.session_id));
        v.push(Field::Str(self.filename.duplicate()));
        v.push(Field::Str(self.parameters.duplicate()));
        v.push(Field::Str(self.directory.duplicate()));
        assert(views(v@) =~= self@.fields);
        assert(fields_shape(Self::body_layout(), self@.fields));
        v
    }

    /// The message of header flags `flags` and body fields `fs`.
    pub fn from_fields(flags: u16, fs: &Vec<Field>) -> (r: Result<Self, PduError>)
        requires
            fields_shape(Self::body_layout(), views(fs@)),
        ensures
            r is Ok,
            r matches Ok(m) ==> m@ == (WireView {
                class: CLASS_EXEC,
                kind: NowExecMsgKind::PROCESS,
                flags: flags,
                fields: views(fs@),
            }),
    {
        let n = fs.len();
        assert(n == 4);
        let session_id = get_u32(fs, 0);
        let filename = get_str(fs, 1);
        let parameters = get_str(fs, 2);
        let directory = get_str(fs, 3);
        let r = NowExecProcessMsg { flags, session_id, filename, parameters, directory };
        assert(r@.fields =~= views(fs@));
        Ok(r)
    }

    /// Number of body bytes; `InvalidField` when that count overflows `usize`.
    pub fn body_size(&self) -> (r: Result<usize, PduError>)
        ensures
            r matches Ok(n) ==> n == fields_bytes(self@.fields).len(),
            r is Err <==> fields_bytes(self@.fields).len() > usize::MAX,
            r matches Err(e) ==> e is InvalidField,
    {
        fields_size(&self.to_fields())
    }

    /// Number of bytes [`Self::encode`] writes; `InvalidField` when the body does
    /// not fit the header's size field.
    pub fn size(&self) -> (r: Result<usize, PduError>)
        ensures
            r is Ok <==> frame_fits(self@) && frame_bytes(self@).len() <= usize::MAX,
            r matches Ok(n) ==> n == frame_bytes(self@).len(),
    {
        let r = frame_size(&self.to_fields());
        proof {
            lemma_frame_len(self@);
        }
        r
    }

    /// The whole frame: header, then body.
    pub fn encode(&self) -> (r: Result<Vec<u8>, PduError>)
        ensures
            r is Ok <==> frame_fits(self@),
            r matches Ok(b) ==> b@ == frame_bytes(self@),
            fields_shape(Self::body_layout(), self@.fields),
    {
        encode_frame(CLASS_EXEC, NowExecMsgKind::PROCESS, self.flags, &self.to_fields())
    }

    /// Decodes a body of this message type sent with header flags `flags`. Body
    /// bytes after the known fields are ignored.
    pub fn decode_from_body(flags: u16, body: &[u8]) -> (r: Result<Self, PduError>)
        ensures
            forall|m0: Self|
                fields_shape(Self::body_layout(), m0@.fields) &&  m0@.flags == flags && is_prefix(
                    #[trigger] fields_bytes(m0@.fields),
                    body@,
                ) ==> (r matches Ok(m) && m@ == m0@),
    {
        let layout = Self::layout_vec();
        let fs = decode_body_fields(body, &layout)?;
        Self::from_fields(flags, &fs)
    }

    /// Decodes a frame of this message type: checks the header's class and kind,
    /// isolates the body the header announces, and decodes it.
    pub fn decode(buf: &[u8]) -> (r: Result<Self, PduError>)
        ensures
            buf.len() >= 8 && (buf@[4] != CLASS_EXEC || buf@[5] != NowExecMsgKind::PROCESS)
                ==> (r matches Err(e) && e is InvalidField),
            forall|m0: Self, body: Seq<u8>|
                fields_shape(Self::body_layout(), m0@.fields) &&  body_extends(m0@, body) && is_prefix(
                    #[trigger] framed(m0@, body),
                    buf@,
                ) ==> (r matches Ok(m) && m@ == m0@),
    {
        let (flags, body) = split_typed(buf, CLASS_EXEC, NowExecMsgKind::PROCESS)?;
        Self::decode_from_body(flags, body)
    }

    /// Start of `filename` in session `session_id`.
    ///
    /// Fails with `InvalidField` when a string, or the whole body, is too long.
    pub fn new(session_id: u32, filename: String) -> (r: Result<Self, PduError>)
        ensures
            r is Ok <==> varstr_fits(filename@) && fields_bytes(seq![
                FieldView::U32(session_id),
                FieldView::Str(filename@),
                FieldView::Str(Seq::<char>::empty()),
                FieldView::Str(Seq::<char>::empty()),
            ]).len() <= usize::MAX,
            r matches Ok(m) ==> m@ == (WireView {
                class: CLASS_EXEC,
                kind: NowExecMsgKind::PROCESS,
                flags: 0,
                fields: seq![
                    FieldView::U32(session_id),
                    FieldView::Str(filename@),
                    FieldView::Str(Seq::<char>::empty()),
                    FieldView::Str(Seq::<char>::empty()),
                ],
            }),
            r matches Err(e) ==> e is InvalidField,
    {
        let filename = NowVarStr::new(filename)?;
        let m = NowExecProcessMsg { flags: 0, session_id, filename, parameters: NowVarStr::empty(), directory: NowVarStr::empty() };
        proof {
            assert(m@.fields =~= seq![
                FieldView::U32(session_id),
                FieldView::Str(filename@),
                FieldView::Str(Seq::<char>::empty()),
                FieldView::Str(Seq::<char>::empty()),
            ]);
        }
        m.body_size()?;
        Ok(m)
    }

    /// The same message with command line parameters.
    ///
    /// Fails with `InvalidField` when the string, or the whole body, is too long.
    pub fn with_parameters(self, parameters: String) -> (r: Result<Self, PduError>)
        ensures
            r is Ok <==>
                varstr_fits(parameters@) && fields_bytes(self@.fields.update(2, FieldView::Str(parameters@))).len() <= usize::MAX,
            r matches Ok(m) ==> m@ == (WireView {
                class: CLASS_EXEC,
                kind: NowExecMsgKind::PROCESS,
                flags: (self@.flags | NowExecProcessFlags::PARAMETERS_SET),
                fields: self@.fields.update(2, FieldView::Str(parameters@)),
            }),
            r matches Err(e) ==> e is InvalidField,
    {
        let ghost old_view = self@;
        let s = NowVarStr::new(parameters)?;
        let mut m = self;
        m.parameters = s;
        m.flags = m.flags | NowExecProcessFlags::PARAMETERS_SET;
        proof {
            assert(m@.fields =~= old_view.fields.update(2, FieldView::Str(parameters@)));
        }
        m.body_size()?;
        Ok(m)
    }

    /// The same message with a working directory.
    ///
    /// Fails with `InvalidField` when the string, or the whole body, is too long.
    pub fn with_directory(self, directory: String) -> (r: Result<Self, PduError>)
        ensures
            r is Ok <==>
                varstr_fits(directory@) && fields_bytes(self@.fields.update(3, FieldView::Str(directory@))).len() <= usize::MAX,
            r matches Ok(m) ==> m@ == (WireView {
                class: CLASS_EXEC,
                kind: NowExecMsgKind::PROCESS,
                flags: (self@.flags | NowExecProcessFlags::DIRECTORY_SET),
                fields: self@.fields.update(3, FieldView::Str(directory@)),
            }),
            r matches Err(e) ==> e is InvalidField,
    {
        let ghost old_view = self@;
        let s = NowVarStr::new(directory)?;
        let mut m = self;
        m.directory = s;
        m.flags = m.flags | NowExecProcessFlags::DIRECTORY_SET;
        proof {
            assert(m@.fields =~= old_view.fields.update(3, FieldView::Str(directory@)));
        }
        m.body_size()?;
        Ok(m)
    }

    /// The `session_id` field.
    pub fn session_id(&self) -> (r: u32)
        ensures
            self@.fields[0] == FieldView::U32(r),
    {
        self.session_id
    }

    /// The `filename` field.
    pub fn filename(&self) -> (r: &str)
        ensures
            self@.fields[1] == FieldView::Str(r@),
    {
        self.filename.value()
    }

    /// The parameters, when set.
    pub fn parameters(&self) -> (r: Option<&str>)
        ensures
            r is Some <==> self@.flags & NowExecProcessFlags::PARAMETERS_SET != 0,
            r matches Some(s) ==> self@.fields[2] == FieldView::Str(s@),
    {
        if self.flags & NowExecProcessFlags::PARAMETERS_SET != 0 {
            Some(self.parameters.value())
        } else {
            None
        }
    }

    /// The working directory, when set.
    pub fn directory(&self) -> (r: Option<&str>)
        ensures
            r is Some <==> self@.flags & NowExecProcessFlags::DIRECTORY_SET != 0,
            r matches Some(s) ==> self@.fields[3] == FieldView::Str(s@),
    {
        if self.flags & NowExecProcessFlags::DIRECTORY_SET != 0 {
            Some(self.directory.value())
        } else {
            None
        }
    }

    /// The same message with standard streams redirected.
    pub fn with_io_redirection(self) -> (r: Self)
        ensures
            r@ == (WireView {
                class: CLASS_EXEC,
                kind: NowExecMsgKind::PROCESS,
                flags: (self@.flags | NowExecProcessFlags::IO_REDIRECTION),
                fields: self@.fields,
            }),
    {
        let mut m = self;
        m.flags = m.flags | NowExecProcessFlags::IO_REDIRECTION;
        proof {
            assert(m@.fields =~= self@.fields);
        }
        m
    }

    /// True when standard streams are redirected.
    pub fn is_with_io_redirection(&self) -> (r: bool)
        ensures
            r == (self@.flags & NowExecProcessFlags::IO_REDIRECTION != 0),
    {
        self.flags & NowExecProcessFlags::IO_REDIRECTION != 0
    }

}

/// Runs a command in a shell.
#[derive(Debug)]
pub struct NowExecShellMsg {
    flags: u16,
    session_id: u32,
    command: NowVarStr,
    shell: NowVarStr,
    directory: NowVarStr,
}

impl View for NowExecShellMsg {
    type V = WireView;

    closed spec fn view(&self) -> WireView {
        WireView {
            class: CLASS_EXEC,
            kind: NowExecMsgKind::SHELL,
            flags: self.flags,
            fields: seq![
                FieldView::U32(self.session_id),
                FieldView::Str(self.command@),
                FieldView::Str(self.shell@),
                FieldView::Str(self.directory@),
            ],
        }
    }
}

impl NowExecShellMsg {
    /// The view names the class and kind of this message.
    pub proof fn lemma_tag(&self)
        ensures
            self@.class == CLASS_EXEC,
            self@.kind == NowExecMsgKind::SHELL,
    {
    }

    /// Kinds of the body fields.
    pub open spec fn body_layout() -> Seq<FieldKind> {
        seq![FieldKind::U32, FieldKind::Str, FieldKind::Str, FieldKind::Str]
    }

    fn layout_vec() -> (r: Vec<FieldKind>)
        ensures
            r@ == Self::body_layout(),
    {
        let mut v: Vec<FieldKind> = Vec::new();
        v.push(FieldKind::U32);
        v.push(FieldKind::Str);
        v.push(FieldKind::Str);
        v.push(FieldKind::Str);
        assert(v@ =~= Self::body_layout());
        v
    }

    /// The body fields.
    pub fn to_fields(&self) -> (r: Vec<Field>)
        ensures
            views(r@) == self@.fields,
            fields_shape(Self::body_layout(), self@.fields),
    {
        let mut v: Vec<Field> = Vec::new();
        v.push(Field::U32(self.session_id));
        v.push(Field::Str(self.command.duplicate()));
        v.push(Field::Str(self.shell.duplicate()));
        v.push(Field::Str(self.directory.duplicate()));
        assert(views(v@) =~= self@.fields);
        assert(fields_shape(Self::body_layout(), self@.fields));
        v
    }

    /// The message of header flags `flags` and body fields `fs`.
    pub fn from_fields(flags: u16, fs: &Vec<Field>) -> (r: Result<Self, PduError>)
        requires
            fields_shape(Self::body_layout(), views(fs@)),
        ensures
            r is Ok,
            r matches Ok(m) ==> m@ == (WireView {
                class: CLASS_EXEC,
                kind: NowExecMsgKind::SHELL,
                flags: flags,
                fields: views(fs@),
            }),
    {
        let n = fs.len();
        assert(n == 4);
        let session_id = get_u32(fs, 0);
        let command = get_str(fs, 1);
        let shell = get_str(fs, 2);
        let directory = get_str(fs, 3);
        let r = NowExecShellMsg { flags, session_id, command, shell, directory };
        assert(r@.fields =~= views(fs@));
        Ok(r)
    }

    /// Number of body bytes; `InvalidField` when that count overflows `usize`.
    pub fn body_size(&self) -> (r: Result<usize, PduError>)
        ensures
            r matches Ok(n) ==> n == fields_bytes(self@.fields).len(),
            r is Err <==> fields_bytes(self@.fields).len() > usize::MAX,
            r matches Err(e) ==> e is InvalidField,
    {
        fields_size(&self.to_fields())
    }

    /// Number of bytes [`Self::encode`] writes; `InvalidField` when the body does
    /// not fit the header's size field.
    pub fn size(&self) -> (r: Result<usize, PduError>)
        ensures
            r is Ok <==> frame_fits(self@) && frame_bytes(self@).len() <= usize::MAX,
            r matches Ok(n) ==> n == frame_bytes(self@).len(),
    {
        let r = frame_size(&self.to_fields());
        proof {
            lemma_frame_len(self@);
        }
        r
    }

    /// The whole frame: header, then body.
    pub fn encode(&self) -> (r: Result<Vec<u8>, PduError>)
        ensures
            r is Ok <==> frame_fits(self@),
            r matches Ok(b) ==> b@ == frame_bytes(self@),
            fields_shape(Self::body_layout(), self@.fields),
    {
        encode_frame(CLASS_EXEC, NowExecMsgKind::SHELL, self.flags, &self.to_fields())
    }

    /// Decodes a body of this message type sent with header flags `flags`. Body
    /// bytes after the known fields are ignored.
    pub fn decode_from_body(flags: u16, body: &[u8]) -> (r: Result<Self, PduError>)
        ensures
            forall|m0: Self|
                fields_shape(Self::body_layout(), m0@.fields) &&  m0@.flags == flags && is_prefix(
                    #[trigger] fields_bytes(m0@.fields),
                    body@,
                ) ==> (r matches Ok(m) && m@ == m0@),
    {
        let layout = Self::layout_vec();
        let fs = decode_body_fields(body, &layout)?;
        Self::from_fields(flags, &fs)
    }

    /// Decodes a frame of this message type: checks the header's class and kind,
    /// isolates the body the header announces, and decodes it.
    pub fn decode(buf: &[u8]) -> (r: Result<Self, PduError>)
        ensures
            buf.len() >= 8 && (buf@[4] != CLASS_EXEC || buf@[5] != NowExecMsgKind::SHELL)
                ==> (r matches Err(e) && e is InvalidField),
            forall|m0: Self, body: Seq<u8>|
                fields_shape(Self::body_layout(), m0@.fields) &&  body_extends(m0@, body) && is_prefix(
                    #[trigger] framed(m0@, body),
                    buf@,
                ) ==> (r matches Ok(m) && m@ == m0@),
    {
        let (flags, body) = split_typed(buf, CLASS_EXEC, NowExecMsgKind::SHELL)?;
        Self::decode_from_body(flags, body)
    }

    /// Shell command `command` in session `session_id`.
    ///
    /// Fails with `InvalidField` when a string, or the whole body, is too long.
    pub fn new(session_id: u32, command: String) -> (r: Result<Self, PduError>)
        ensures
            r is Ok <==> varstr_fits(command@) && fields_bytes(seq![
                FieldView::U32(session_id),
                FieldView::Str(command@),
                FieldView::Str(Seq::<char>::empty()),
                FieldView::Str(Seq::<char>::empty()),
            ]).len() <= usize::MAX,
            r matches Ok(m) ==> m@ == (WireView {
                class: CLASS_EXEC,
                kind: NowExecMsgKind::SHELL,
                flags: 0,
                fields: seq![
                    FieldView::U32(session_id),
                    FieldView::Str(command@),
                    FieldView::Str(Seq::<char>::empty()),
                    FieldView::Str(Seq::<char>::empty()),
                ],
            }),
            r matches Err(e) ==> e is InvalidField,
    {
        let command = NowVarStr::new(command)?;
        let m = NowExecShellMsg { flags: 0, session_id, command, shell: NowVarStr::empty(), directory: NowVarStr::empty() };
        proof {
            assert(m@.fields =~= seq![
                FieldView::U32(session_id),
                FieldView::Str(command@),
                FieldView::Str(Seq::<char>::empty()),
                FieldView::Str(Seq::<char>::empty()),
            ]);
        }
        m.body_size()?;
        Ok(m)
    }

    /// The same message with a shell.
    ///
    /// Fails with `InvalidField` when the string, or the whole body, is too long.
    pub fn with_shell(self, shell: String) -> (r: Result<Self, PduError>)
        ensures
            r is Ok <==>
                varstr_fits(shell@) && fields_bytes(self@.fields.update(2, FieldView::Str(shell@))).len() <= usize::MAX,
            r matches Ok(m) ==> m@ == (WireView {
                class: CLASS_EXEC,
                kind: NowExecMsgKind::SHELL,
                flags: (self@.flags | NowExecShellFlags::SHELL_SET),
                fields: self@.fields.update(2, FieldView::Str(shell@)),
            }),
            r matches Err(e) ==> e is InvalidField,
    {
        let ghost old_view = self@;
        let s = NowVarStr::new(shell)?;
        let mut m = self;
        m.shell = s;
        m.flags = m.flags | NowExecShellFlags::SHELL_SET;
        proof {
            assert(m@.fields =~= old_view.fields.update(2, FieldView::Str(shell@)));
        }
        m.body_size()?;
        Ok(m)
    }

    /// The same message with a working directory.
    ///
    /// Fails with `InvalidField` when the string, or the whole body, is too long.
    pub fn with_directory(self, directory: String) -> (r: Result<Self, PduError>)
        ensures
            r is Ok <==>
                varstr_fits(directory@) && fields_bytes(self@.fields.update(3, FieldView::Str(directory@))).len() <= usize::MAX,
            r matches Ok(m) ==> m@ == (WireView {
                class: CLASS_EXEC,
                kind: NowExecMsgKind::SHELL,
                flags: (self@.flags | NowExecShellFlags::DIRECTORY_SET),
                fields: self@.fields.update(3, FieldView::Str(directory@)),
            }),
            r matches Err(e) ==> e is InvalidField,
    {
        let ghost old_view = self@;
        let s = NowVarStr::new(directory)?;
        let mut m = self;
        m.directory = s;
        m.flags = m.flags | NowExecShellFlags::DIRECTORY_SET;
        proof {
            assert(m@.fields =~= old_view.fields.update(3, FieldView::Str(directory@)));
        }
        m.body_size()?;
        Ok(m)
    }

    /// The `session_id` field.
    pub fn session_id(&self) -> (r: u32)
        ensures
            self@.fields[0] == FieldView::U32(r),
    {
        self.session_id
    }

    /// The `command` field.
    pub fn command(&self) -> (r: &str)
        ensures
            self@.fields[1] == FieldView::Str(r@),
    {
        self.command.value()
    }

    /// The shell, when set.
    pub fn shell(&self) -> (r: Option<&str>)
        ensures
            r is Some <==> self@.flags & NowExecShellFlags::SHELL_SET != 0,
            r matches Some(s) ==> self@.fields[2] == FieldView::Str(s@),
    {
        if self.flags & NowExecShellFlags::SHELL_SET != 0 {
            Some(self.shell.value())
        } else {
            None
        }
    }

    /// The working directory, when set.
    pub fn directory(&self) -> (r: Option<&str>)
        ensures
            r is Some <==> self@.flags & NowExecShellFlags::DIRECTORY_SET != 0,
            r matches Some(s) ==> self@.fields[3] == FieldView::Str(s@),
    {
        if self.flags & NowExecShellFlags::DIRECTORY_SET != 0 {
            Some(self.directory.value())
        } else {
            None
        }
    }

    /// The same message with standard streams redirected.
    pub fn with_io_redirection(self) -> (r: Self)
        ensures
            r@ == (WireView {
                class: CLASS_EXEC,
                kind: NowExecMsgKind::SHELL,
                flags: (self@.flags | NowExecShellFlags::IO_REDIRECTION),
                fields: self@.fields,
            }),
    {
        let mut m = self;
        m.flags = m.flags | NowExecShellFlags::IO_REDIRECTION;
        proof {
            assert(m@.fields =~= self@.fields);
        }
        m
    }

    /// True when standard streams are redirected.
    pub fn is_with_io_redirection(&self) -> (r: bool)
        ensures
            r == (self@.flags & NowExecShellFlags::IO_REDIRECTION != 0),
    {
        self.flags & NowExecShellFlags::IO_REDIRECTION != 0
    }

}

/// Runs a batch command.
#[derive(Debug)]
pub struct NowExecBatchMsg {
    flags: u16,
    session_id: u32,
    command: NowVarStr,
    directory: NowVarStr,
}

impl View for NowExecBatchMsg {
    type V = WireView;

    closed spec fn view(&self) -> WireView {
        WireView {
            class: CLASS_EXEC,
            kind: NowExecMsgKind::BATCH,
            flags: self.flags,
            fields: seq![
                FieldView::U32(self.session_id),
                FieldView::Str(self.command@),
                FieldView::Str(self.directory@),
            ],
        }
    }
}

impl NowExecBatchMsg {
    /// The view names the class and kind of this message.
    pub proof fn lemma_tag(&self)
        ensures
            self@.class == CLASS_EXEC,
            self@.kind == NowExecMsgKind::BATCH,
    {
    }

    /// Kinds of the body fields.
    pub open spec fn body_layout() -> Seq<FieldKind> {
        seq![FieldKind::U32, FieldKind::Str, FieldKind::Str]
    }

    fn layout_vec() -> (r: Vec<FieldKind>)
        ensures
            r@ == Self::body_layout(),
    {
        let mut v: Vec<FieldKind> = Vec::new();
        v.push(FieldKind::U32);
        v.push(FieldKind::Str);
        v.push(FieldKind::Str);
        assert(v@ =~= Self::body_layout());
        v
    }

    /// The body fields.
    pub fn to_fields(&self) -> (r: Vec<Field>)
        ensures
            views(r@) == self@.fields,
            fields_shape(Self::body_layout(), self@.fields),
    {
        let mut v: Vec<Field> = Vec::new();
        v.push(Field::U32(self.session_id));
        v.push(Field::Str(self.command.duplicate()));
        v.push(Field::Str(self.directory.duplicate()));
        assert(views(v@) =~= self@.fields);
        assert(fields_shape(Self::body_layout(), self@.fields));
        v
    }

    /// The message of header flags `flags` and body fields `fs`.
    pub fn from_fields(flags: u16, fs: &Vec<Field>) -> (r: Result<Self, PduError>)
        requires
            fields_shape(Self::body_layout(), views(fs@)),
        ensures
            r is Ok,
            r matches Ok(m) ==> m@ == (WireView {
                class: CLASS_EXEC,
                kind: NowExecMsgKind::BATCH,
                flags: flags,
                fields: views(fs@),
            }),
    {
        let n = fs.len();
        assert(n == 3);
        let session_id = get_u32(fs, 0);
        let command = get_str(fs, 1);
        let directory = get_str(fs, 2);
        let r = NowExecBatchMsg { flags, session_id, command, directory };
        assert(r@.fields =~= views(fs@));
        Ok(r)
    }

    /// Number of body bytes; `InvalidField` when that count overflows `usize`.
    pub fn body_size(&self) -> (r: Result<usize, PduError>)
        ensures
            r matches Ok(n) ==> n == fields_bytes(self@.fields).len(),
            r is Err <==> fields_bytes(self@.fields).len() > usize::MAX,
            r matches Err(e) ==> e is InvalidField,
    {
        fields_size(&self.to_fields())
    }

    /// Number of bytes [`Self::encode`] writes; `InvalidField` when the body does
    /// not fit the header's size field.
    pub fn size(&self) -> (r: Result<usize, PduError>)
        ensures
            r is Ok <==> frame_fits(self@) && frame_bytes(self@).len() <= usize::MAX,
            r matches Ok(n) ==> n == frame_bytes(self@).len(),
    {
        let r = frame_size(&self.to_fields());
        proof {
            lemma_frame_len(self@);
        }
        r
    }

    /// The whole frame: header, then body.
    pub fn encode(&self) -> (r: Result<Vec<u8>, PduError>)
        ensures
            r is Ok <==> frame_fits(self@),
            r matches Ok(b) ==> b@ == frame_bytes(self@),
            fields_shape(Self::body_layout(), self@.fields),
    {
        encode_frame(CLASS_EXEC, NowExecMsgKind::BATCH, self.flags, &self.to_fields())
    }

    /// Decodes a body of this message type sent with header flags `flags`. Body
    /// bytes after the known fields are ignored.
    pub fn decode_from_body(flags: u16, body: &[u8]) -> (r: Result<Self, PduError>)
        ensures
            forall|m0: Self|
                fields_shape(Self::body_layout(), m0@.fields) &&  m0@.flags == flags && is_prefix(
                    #[trigger] fields_bytes(m0@.fields),
                    body@,
                ) ==> (r matches Ok(m) && m@ == m0@),
    {
        let layout = Self::layout_vec();
        let fs = decode_body_fields(body, &layout)?;
        Self::from_fields(flags, &fs)
    }

    /// Decodes a frame of this message type: checks the header's class and kind,
    /// isolates the body the header announces, and decodes it.
    pub fn decode(buf: &[u8]) -> (r: Result<Self, PduError>)
        ensures
            buf.len() >= 8 && (buf@[4] != CLASS_EXEC || buf@[5] != NowExecMsgKind::BATCH)
                ==> (r matches Err(e) && e is InvalidField),
            forall|m0: Self, body: Seq<u8>|
                fields_shape(Self::body_layout(), m0@.fields) &&  body_extends(m0@, body) && is_prefix(
                    #[trigger] framed(m0@, body),
                    buf@,
                ) ==> (r matches Ok(m) && m@ == m0@),
    {
        let (flags, body) = split_typed(buf, CLASS_EXEC, NowExecMsgKind::BATCH)?;
        Self::decode_from_body(flags, body)
    }

    /// Batch command `command` in session `session_id`.
    ///
    /// Fails with `InvalidField` when a string, or the whole body, is too long.
    pub fn new(session_id: u32, command: String) -> (r: Result<Self, PduError>)
        ensures
            r is Ok <==> varstr_fits(command@) && fields_bytes(seq![
                FieldView::U32(session_id),
                FieldView::Str(command@),
                FieldView::Str(Seq::<char>::empty()),
            ]).len() <= usize::MAX,
            r matches Ok(m) ==> m@ == (WireView {
                class: CLASS_EXEC,
                kind: NowExecMsgKind::BATCH,
                flags: 0,
                fields: seq![
                    FieldView::U32(session_id),
                    FieldView::Str(command@),
                    FieldView::Str(Seq::<char>::empty()),
                ],
            }),
            r matches Err(e) ==> e is InvalidField,
    {
        let command = NowVarStr::new(command)?;
        let m = NowExecBatchMsg { flags: 0, session_id, command, directory: NowVarStr::empty() };
        proof {
            assert(m@.fields =~= seq![
                FieldView::U32(session_id),
                FieldView::Str(command@),
                FieldView::Str(Seq::<char>::empty()),
            ]);
        }
        m.body_size()?;
        Ok(m)
    }

    /// The same message with a working directory.
    ///
    /// Fails with `InvalidField` when the string, or the whole body, is too long.
    pub fn with_directory(self, directory: String) -> (r: Result<Self, PduError>)
        ensures
            r is Ok <==>
                varstr_fits(directory@) && fields_bytes(self@.fields.update(2, FieldView::Str(directory@))).len() <= usize::MAX,
            r matches Ok(m) ==> m@ == (WireView {
                class: CLASS_EXEC,
                kind: NowExecMsgKind::BATCH,
                flags: (self@.flags | NowExecBatchFlags::DIRECTORY_SET),
                fields: self@.fields.update(2, FieldView::Str(directory@)),
            }),
            r matches Err(e) ==> e is InvalidField,
    {
        let ghost old_view = self@;
        let s = NowVarStr::new(directory)?;
        let mut m = self;
        m.directory = s;
        m.flags = m.flags | NowExecBatchFlags::DIRECTORY_SET;
        proof {
            assert(m@.fields =~= old_view.fields.update(2, FieldView::Str(directory@)));
        }
        m.body_size()?;
        Ok(m)
    }

    /// The `session_id` field.
    pub fn session_id(&self) -> (r: u32)
        ensures
            self@.fields[0] == FieldView::U32(r),
    {
        self.session_id
    }

    /// The `command` field.
    pub fn command(&self) -> (r: &str)
        ensures
            self@.fields[1] == FieldView::Str(r@),
    {
        self.command.value()
    }

    /// The working directory, when set.
    pub fn directory(&self) -> (r: Option<&str>)
        ensures
            r is Some <==> self@.flags & NowExecBatchFlags::DIRECTORY_SET != 0,
            r matches Some(s) ==> self@.fields[2] == FieldView::Str(s@),
    {
        if self.flags & NowExecBatchFlags::DIRECTORY_SET != 0 {
            Some(self.directory.value())
        } else {
            None
        }
    }

    /// The same message with standard streams redirected.
    pub fn with_io_redirection(self) -> (r: Self)
        ensures
            r@ == (WireView {
                class: CLASS_EXEC,
                kind: NowExecMsgKind::BATCH,
                flags: (self@.flags | NowExecBatchFlags::IO_REDIRECTION),
                fields: self@.fields,
            }),
    {
        let mut m = self;
        m.flags = m.flags | NowExecBatchFlags::IO_REDIRECTION;
        proof {
            assert(m@.fields =~= self@.fields);
        }
        m
    }

    /// True when standard streams are redirected.
    pub fn is_with_io_redirection(&self) -> (r: bool)
        ensures
            r == (self@.flags & NowExecBatchFlags::IO_REDIRECTION != 0),
    {
        self.flags & NowExecBatchFlags::IO_REDIRECTION != 0
    }

}

/// Runs a Windows PowerShell (powershell.exe) command.
#[derive(Debug)]
pub struct NowExecWinPsMsg {
    flags: u16,
    session_id: u32,
    command: NowVarStr,
    directory: NowVarStr,
    execution_policy: NowVarStr,
    configuration_name: NowVarStr,
}

impl View for NowExecWinPsMsg {
    type V = WireView;

    closed spec fn view(&self) -> WireView {
        WireView {
            class: CLASS_EXEC,
            kind: NowExecMsgKind::WINPS,
            flags: self.flags,
            fields: seq![
                FieldView::U32(self.session_id),
                FieldView::Str(self.command@),
                FieldView::Str(self.directory@),
                FieldView::Str(self.execution_policy@),
                FieldView::Str(self.configuration_name@),
            ],
        }
    }
}

impl NowExecWinPsMsg {
    /// The view names the class and kind of this message.
    pub proof fn lemma_tag(&self)
        ensures
            self@.class == CLASS_EXEC,
            self@.kind == NowExecMsgKind::WINPS,
    {
    }

    /// Kinds of the body fields.
    pub open spec fn body_layout() -> Seq<FieldKind> {
        seq![FieldKind::U32, FieldKind::Str, FieldKind::Str, FieldKind::Str, FieldKind::Str]
    }

    fn layout_vec() -> (r: Vec<FieldKind>)
        ensures
            r@ == Self::body_layout(),
    {
        let mut v: Vec<FieldKind> = Vec::new();
        v.push(FieldKind::U32);
        v.push(FieldKind::Str);
        v.push(FieldKind::Str);
        v.push(FieldKind::Str);
        v.push(FieldKind::Str);
        assert(v@ =~= Self::body_layout());
        v
    }

    /// The body fields.
    pub fn to_fields(&self) -> (r: Vec<Field>)
        ensures
            views(r@) == self@.fields,
            fields_shape(Self::body_layout(), self@.fields),
    {
        let mut v: Vec<Field> = Vec::new();
        v.push(Field::U32(self.session_id));
        v.push(Field::Str(self.command.duplicate()));
        v.push(Field::Str(self.directory.duplicate()));
        v.push(Field::Str(self.execution_policy.duplicate()));
        v.push(Field::Str(self.configuration_name.duplicate()));
        assert(views(v@) =~= self@.fields);
        assert(fields_shape(Self::body_layout(), self@.fields));
        v
    }

    /// The message of header flags `flags` and body fields `fs`.
    pub fn from_fields(flags: u16, fs: &Vec<Field>) -> (r: Result<Self, PduError>)
        requires
            fields_shape(Self::body_layout(), views(fs@)),
        ensures
            r is Ok,
            r matches Ok(m) ==> m@ == (WireView {
                class: CLASS_EXEC,
                kind: NowExecMsgKind::WINPS,
                flags: flags,
                fields: views(fs@),
            }),
    {
        let n = fs.len();
        assert(n == 5);
        let session_id = get_u32(fs, 0);
        let command = get_str(fs, 1);
        let directory = get_str(fs, 2);
        let execution_policy = get_str(fs, 3);
        let configuration_name = get_str(fs, 4);
        let r = NowExecWinPsMsg { flags, session_id, command, directory, execution_policy, configuration_name };
        assert(r@.fields =~= views(fs@));
        Ok(r)
    }

    /// Number of body bytes; `InvalidField` when that count overflows `usize`.
    pub fn body_size(&self) -> (r: Result<usize, PduError>)
        ensures
            r matches Ok(n) ==> n == fields_bytes(self@.fields).len(),
            r is Err <==> fields_bytes(self@.fields).len() > usize::MAX,
            r matches Err(e) ==> e is InvalidField,
    {
        fields_size(&self.to_fields())
    }

    /// Number of bytes [`Self::encode`] writes; `InvalidField` when the body does
    /// not fit the header's size field.
    pub fn size(&self) -> (r: Result<usize, PduError>)
        ensures
            r is Ok <==> frame_fits(self@) && frame_bytes(self@).len() <= usize::MAX,
            r matches Ok(n) ==> n == frame_bytes(self@).len(),
    {
        let r = frame_size(&self.to_fields());
        proof {
            lemma_frame_len(self@);
        }
        r
    }

    /// The whole frame: header, then body.
    pub fn encode(&self) -> (r: Result<Vec<u8>, PduError>)
        ensures
            r is Ok <==> frame_fits(self@),
            r matches Ok(b) ==> b@ == frame_bytes(self@),
            fields_shape(Self::body_layout(), self@.fields),
    {
        encode_frame(CLASS_EXEC, NowExecMsgKind::WINPS, self.flags, &self.to_fields())
    }

    /// Decodes a body of this message type sent with header flags `flags`. Body
    /// bytes after the known fields are ignored.
    pub fn decode_from_body(flags: u16, body: &[u8]) -> (r: Result<Self, PduError>)
        ensures
            forall|m0: Self|
                fields_shape(Self::body_layout(), m0@.fields) &&  m0@.flags == flags && is_prefix(
                    #[trigger] fields_bytes(m0@.fields),
                    body@,
                ) ==> (r matches Ok(m) && m@ == m0@),
    {
        let layout = Self::layout_vec();
        let fs = decode_body_fields(body, &layout)?;
        Self::from_fields(flags, &fs)
    }

    /// Decodes a frame of this message type: checks the header's class and kind,
    /// isolates the body the header announces, and decodes it.
    pub fn decode(buf: &[u8]) -> (r: Result<Self, PduError>)
        ensures
            buf.len() >= 8 && (buf@[4] != CLASS_EXEC || buf@[5] != NowExecMsgKind::WINPS)
                ==> (r matches Err(e) && e is InvalidField),
            forall|m0: Self, body: Seq<u8>|
                fields_shape(Self::body_layout(), m0@.fields) &&  body_extends(m0@, body) && is_prefix(
                    #[trigger] framed(m0@, body),
                    buf@,
                ) ==> (r matches Ok(m) && m@ == m0@),
    {
        let (flags, body) = split_typed(buf, CLASS_EXEC, NowExecMsgKind::WINPS)?;
        Self::decode_from_body(flags, body)
    }

    /// PowerShell command `command` in session `session_id`.
    ///
    /// Fails with `InvalidField` when a string, or the whole body, is too long.
    pub fn new(session_id: u32, command: String) -> (r: Result<Self, PduError>)
        ensures
            r is Ok <==> varstr_fits(command@) && fields_bytes(seq![
                FieldView::U32(session_id),
                FieldView::Str(command@),
                FieldView::Str(Seq::<char>::empty()),
                FieldView::Str(Seq::<char>::empty()),
                FieldView::Str(Seq::<char>::empty()),
            ]).len() <= usize::MAX,
            r matches Ok(m) ==> m@ == (WireView {
                class: CLASS_EXEC,
                kind: NowExecMsgKind::WINPS,
                flags: 0,
                fields: seq![
                    FieldView::U32(session_id),
                    FieldView::Str(command@),
                    FieldView::Str(Seq::<char>::empty()),
                    FieldView::Str(Seq::<char>::empty()),
                    FieldView::Str(Seq::<char>::empty()),
                ],
            }),
            r matches Err(e) ==> e is InvalidField,
    {
        let command = NowVarStr::new(command)?;
        let m = NowExecWinPsMsg { flags: 0, session_id, command, directory: NowVarStr::empty(), execution_policy: NowVarStr::empty(), configuration_name: NowVarStr::empty() };
        proof {
            assert(m@.fields =~= seq![
                FieldView::U32(session_id),
                FieldView::Str(command@),
                FieldView::Str(Seq::<char>::empty()),
                FieldView::Str(Seq::<char>::empty()),
                FieldView::Str(Seq::<char>::empty()),
            ]);
        }
        m.body_size()?;
        Ok(m)
    }

    /// The same message with a working directory.
    ///
    /// Fails with `InvalidField` when the string, or the whole body, is too long.
    pub fn with_directory(self, directory: String) -> (r: Result<Self, PduError>)
        ensures
            r is Ok <==>
                varstr_fits(directory@) && fields_bytes(self@.fields.update(2, FieldView::Str(directory@))).len() <= usize::MAX,
            r matches Ok(m) ==> m@ == (WireView {
                class: CLASS_EXEC,
                kind: NowExecMsgKind::WINPS,
                flags: (self@.flags | NowExecWinPsFlags::DIRECTORY_SET),
                fields: self@.fields.update(2, FieldView::Str(directory@)),
            }),
            r matches Err(e) ==> e is InvalidField,
    {
        let ghost old_view = self@;
        let s = NowVarStr::new(directory)?;
        let mut m = self;
        m.directory = s;
        m.flags = m.flags | NowExecWinPsFlags::DIRECTORY_SET;
        proof {
            assert(m@.fields =~= old_view.fields.update(2, FieldView::Str(directory@)));
        }
        m.body_size()?;
        Ok(m)
    }

    /// The same message with an execution policy.
    ///
    /// Fails with `InvalidField` when the string, or the whole body, is too long.
    pub fn with_execution_policy(self, execution_policy: String) -> (r: Result<Self, PduError>)
        ensures
            r is Ok <==>
                varstr_fits(execution_policy@) && fields_bytes(self@.fields.update(3, FieldView::Str(execution_policy@))).len() <= usize::MAX,
            r matches Ok(m) ==> m@ == (WireView {
                class: CLASS_EXEC,
                kind: NowExecMsgKind::WINPS,
                flags: (self@.flags | NowExecWinPsFlags::EXECUTION_POLICY),
                fields: self@.fields.update(3, FieldView::Str(execution_policy@)),
            }),
            r matches Err(e) ==> e is InvalidField,
    {
        let ghost old_view = self@;
        let s = NowVarStr::new(execution_policy)?;
        let mut m = self;
        m.execution_policy = s;
        m.flags = m.flags | NowExecWinPsFlags::EXECUTION_POLICY;
        proof {
            assert(m@.fields =~= old_view.fields.update(3, FieldView::Str(execution_policy@)));
        }
        m.body_size()?;
        Ok(m)
    }

    /// The same message with a configuration name.
    ///
    /// Fails with `InvalidField` when the string, or the whole body, is too long.
    pub fn with_configuration_name(self, configuration_name: String) -> (r: Result<Self, PduError>)
        ensures
            r is Ok <==>
                varstr_fits(configuration_name@) && fields_bytes(self@.fields.update(4, FieldView::Str(configuration_name@))).len() <= usize::MAX,
            r matches Ok(m) ==> m@ == (WireView {
                class: CLASS_EXEC,
                kind: NowExecMsgKind::WINPS,
                flags: (self@.flags | NowExecWinPsFlags::CONFIGURATION_NAME),
                fields: self@.fields.update(4, FieldView::Str(configuration_name@)),
            }),
            r matches Err(e) ==> e is InvalidField,
    {
        let ghost old_view = self@;
        let s = NowVarStr::new(configuration_name)?;
        let mut m = self;
        m.configuration_name = s;
        m.flags = m.flags | NowExecWinPsFlags::CONFIGURATION_NAME;
        proof {
            assert(m@.fields =~= old_view.fields.update(4, FieldView::Str(configuration_name@)));
        }
        m.body_size()?;
        Ok(m)
    }

    /// The same message with `-NoLogo`.
    pub fn set_no_logo(self) -> (r: Self)
        ensures
            r@ == (WireView {
                class: CLASS_EXEC,
                kind: NowExecMsgKind::WINPS,
                flags: (self@.flags | NowExecWinPsFlags::NO_LOGO),
                fields: self@.fields,
            }),
    {
        let mut m = self;
        m.flags = m.flags | NowExecWinPsFlags::NO_LOGO;
        proof {
            assert(m@.fields =~= self@.fields);
        }
        m
    }

    /// The same message with `-NoExit`.
    pub fn set_no_exit(self) -> (r: Self)
        ensures
            r@ == (WireView {
                class: CLASS_EXEC,
                kind: NowExecMsgKind::WINPS,
                flags: (self@.flags | NowExecWinPsFlags::NO_EXIT),
                fields: self@.fields,
            }),
    {
        let mut m = self;
        m.flags = m.flags | NowExecWinPsFlags::NO_EXIT;
        proof {
            assert(m@.fields =~= self@.fields);
        }
        m
    }

    /// The same message with `-NoProfile`.
    pub fn set_no_profile(self) -> (r: Self)
        ensures
            r@ == (WireView {
                class: CLASS_EXEC,
                kind: NowExecMsgKind::WINPS,
                flags: (self@.flags | NowExecWinPsFlags::NO_PROFILE),
                fields: self@.fields,
            }),
    {
        let mut m = self;
        m.flags = m.flags | NowExecWinPsFlags::NO_PROFILE;
        proof {
            assert(m@.fields =~= self@.fields);
        }
        m
    }

    /// The same message with `-NonInteractive`.
    pub fn set_non_interactive(self) -> (r: Self)
        ensures
            r@ == (WireView {
                class: CLASS_EXEC,
                kind: NowExecMsgKind::WINPS,
                flags: (self@.flags | NowExecWinPsFlags::NON_INTERACTIVE),
                fields: self@.fields,
            }),
    {
        let mut m = self;
        m.flags = m.flags | NowExecWinPsFlags::NON_INTERACTIVE;
        proof {
            assert(m@.fields =~= self@.fields);
        }
        m
    }

    /// The `session_id` field.
    pub fn session_id(&self) -> (r: u32)
        ensures
            self@.fields[0] == FieldView::U32(r),
    {
        self.session_id
    }

    /// The `command` field.
    pub fn command(&self) -> (r: &str)
        ensures
            self@.fields[1] == FieldView::Str(r@),
    {
        self.command.value()
    }

    /// The working directory, when set.
    pub fn directory(&self) -> (r: Option<&str>)
        ensures
            r is Some <==> self@.flags & NowExecWinPsFlags::DIRECTORY_SET != 0,
            r matches Some(s) ==> self@.fields[2] == FieldView::Str(s@),
    {
        if self.flags & NowExecWinPsFlags::DIRECTORY_SET != 0 {
            Some(self.directory.value())
        } else {
            None
        }
    }

    /// The execution policy, when set.
    pub fn execution_policy(&self) -> (r: Option<&str>)
        ensures
            r is Some <==> self@.flags & NowExecWinPsFlags::EXECUTION_POLICY != 0,
            r matches Some(s) ==> self@.fields[3] == FieldView::Str(s@),
    {
        if self.flags & NowExecWinPsFlags::EXECUTION_POLICY != 0 {
            Some(self.execution_policy.value())
        } else {
            None
        }
    }

    /// The configuration name, when set.
    pub fn configuration_name(&self) -> (r: Option<&str>)
        ensures
            r is Some <==> self@.flags & NowExecWinPsFlags::CONFIGURATION_NAME != 0,
            r matches Some(s) ==> self@.fields[4] == FieldView::Str(s@),
    {
        if self.flags & NowExecWinPsFlags::CONFIGURATION_NAME != 0 {
            Some(self.configuration_name.value())
        } else {
            None
        }
    }

    /// True with `-NoLogo`.
    pub fn is_no_logo(&self) -> (r: bool)
        ensures
            r == (self@.flags & NowExecWinPsFlags::NO_LOGO != 0),
    {
        self.flags & NowExecWinPsFlags::NO_LOGO != 0
    }

    /// True with `-NoExit`.
    pub fn is_no_exit(&self) -> (r: bool)
        ensures
            r == (self@.flags & NowExecWinPsFlags::NO_EXIT != 0),
    {
        self.flags & NowExecWinPsFlags::NO_EXIT != 0
    }

    /// True with `-NoProfile`.
    pub fn is_no_profile(&self) -> (r: bool)
        ensures
            r == (self@.flags & NowExecWinPsFlags::NO_PROFILE != 0),
    {
        self.flags & NowExecWinPsFlags::NO_PROFILE != 0
    }

    /// True with `-NonInteractive`.
    pub fn is_non_interactive(&self) -> (r: bool)
        ensures
            r == (self@.flags & NowExecWinPsFlags::NON_INTERACTIVE != 0),
    {
        self.flags & NowExecWinPsFlags::NON_INTERACTIVE != 0
    }

    /// True in server mode.
    pub fn is_server_mode(&self) -> (r: bool)
        ensures
            r == (self@.flags & NowExecWinPsFlags::SERVER_MODE != 0),
    {
        self.flags & NowExecWinPsFlags::SERVER_MODE != 0
    }

    /// The same message with standard streams redirected.
    pub fn with_io_redirection(self) -> (r: Self)
        ensures
            r@ == (WireView {
                class: CLASS_EXEC,
                kind: NowExecMsgKind::WINPS,
                flags: (self@.flags | NowExecWinPsFlags::IO_REDIRECTION),
                fields: self@.fields,
            }),
    {
        let mut m = self;
        m.flags = m.flags | NowExecWinPsFlags::IO_REDIRECTION;
        proof {
            assert(m@.fields =~= self@.fields);
        }
        m
    }

    /// True when standard streams are redirected.
    pub fn is_with_io_redirection(&self) -> (r: bool)
        ensures
            r == (self@.flags & NowExecWinPsFlags::IO_REDIRECTION != 0),
    {
        self.flags & NowExecWinPsFlags::IO_REDIRECTION != 0
    }

    /// The same message with apartment model `state`.
    pub fn with_apartment_state(self, state: ApartmentStateKind) -> (r: Self)
        ensures
            r@ == (WireView {
                class: self@.class,
                kind: self@.kind,
                flags: self@.flags | apartment_flag(state),
                fields: self@.fields,
            }),
    {
        let mut m = self;
        m.flags = m.flags | state.to_flags();
        proof {
            assert(m@.fields =~= self@.fields);
        }
        m
    }

    /// The apartment model; `InvalidField` when both apartment flags are set.
    pub fn apartment_state(&self) -> (r: Result<Option<ApartmentStateKind>, PduError>)
        ensures
            r is Err <==> self@.flags & 0x000C == 0x000C,
            r matches Ok(k) ==> k == apartment_of_flags(self@.flags),
    {
        ApartmentStateKind::from_flags(self.flags)
    }

    /// A server-mode session `session_id` without a command; fails with
    /// `InvalidField` when the body is too long.
    pub fn new_server_mode(session_id: u32) -> (r: Result<Self, PduError>)
        ensures
            r matches Ok(m) ==> m@ == (WireView {
                class: CLASS_EXEC,
                kind: NowExecMsgKind::WINPS,
                flags: NowExecWinPsFlags::SERVER_MODE,
                fields: seq![
                    FieldView::U32(session_id),
                    FieldView::Str(Seq::<char>::empty()),
                    FieldView::Str(Seq::<char>::empty()),
                    FieldView::Str(Seq::<char>::empty()),
                    FieldView::Str(Seq::<char>::empty()),
                ],
            }),
    {
        let m = NowExecWinPsMsg {
            flags: NowExecWinPsFlags::SERVER_MODE,
            session_id,
            command: NowVarStr::empty(),
            directory: NowVarStr::empty(),
            execution_policy: NowVarStr::empty(),
            configuration_name: NowVarStr::empty(),
        };
        proof {
            assert(m@.fields =~= seq![
                FieldView::U32(session_id),
                FieldView::Str(Seq::<char>::empty()),
                FieldView::Str(Seq::<char>::empty()),
                FieldView::Str(Seq::<char>::empty()),
                FieldView::Str(Seq::<char>::empty()),
            ]);
        }
        m.body_size()?;
        Ok(m)
    }

}

/// Runs a PowerShell 7 (pwsh) command.
#[derive(Debug)]
pub struct NowExecPwshMsg {
    flags: u16,
    session_id: u32,
    command: NowVarStr,
    directory: NowVarStr,
    execution_policy: NowVarStr,
    configuration_name: NowVarStr,
}

impl View for NowExecPwshMsg {
    type V = WireView;

    closed spec fn view(&self) -> WireView {
        WireView {
            class: CLASS_EXEC,
            kind: NowExecMsgKind::PWSH,
            flags: self.flags,
            fields: seq![
                FieldView::U32(self.session_id),
                FieldView::Str(self.command@),
                FieldView::Str(self.directory@),
                FieldView::Str(self.execution_policy@),
                FieldView::Str(self.configuration_name@),
            ],
        }
    }
}

impl NowExecPwshMsg {
    /// The view names the class and kind of this message.
    pub proof fn lemma_tag(&self)
        ensures
            self@.class == CLASS_EXEC,
            self@.kind == NowExecMsgKind::PWSH,
    {
    }

    /// Kinds of the body fields.
    pub open spec fn body_layout() -> Seq<FieldKind> {
        seq![FieldKind::U32, FieldKind::Str, FieldKind::Str, FieldKind::Str, FieldKind::Str]
    }

    fn layout_vec() -> (r: Vec<FieldKind>)
        ensures
            r@ == Self::body_layout(),
    {
        let mut v: Vec<FieldKind> = Vec::new();
        v.push(FieldKind::U32);
        v.push(FieldKind::Str);
        v.push(FieldKind::Str);
        v.push(FieldKind::Str);
        v.push(FieldKind::Str);
        assert(v@ =~= Self::body_layout());
        v
    }

    /// The body fields.
    pub fn to_fields(&self) -> (r: Vec<Field>)
        ensures
            views(r@) == self@.fields,
            fields_shape(Self::body_layout(), self@.fields),
    {
        let mut v: Vec<Field> = Vec::new();
        v.push(Field::U32(self.session_id));
        v.push(Field::Str(self.command.duplicate()));
        v.push(Field::Str(self.directory.duplicate()));
        v.push(Field::Str(self.execution_policy.duplicate()));
        v.push(Field::Str(self.configuration_name.duplicate()));
        assert(views(v@) =~= self@.fields);
        assert(fields_shape(Self::body_layout(), self@.fields));
        v
    }

    /// The message of header flags `flags` and body fields `fs`.
    pub fn from_fields(flags: u16, fs: &Vec<Field>) -> (r: Result<Self, PduError>)
        requires
            fields_shape(Self::body_layout(), views(fs@)),
        ensures
            r is Ok,
            r matches Ok(m) ==> m@ == (WireView {
                class: CLASS_EXEC,
                kind: NowExecMsgKind::PWSH,
                flags: flags,
                fields: views(fs@),
            }),
    {
        let n = fs.len();
        assert(n == 5);
        let session_id = get_u32(fs, 0);
        let command = get_str(fs, 1);
        let directory = get_str(fs, 2);
        let execution_policy = get_str(fs, 3);
        let configuration_name = get_str(fs, 4);
        let r = NowExecPwshMsg { flags, session_id, command, directory, execution_policy, configuration_name };
        assert(r@.fields =~= views(fs@));
        Ok(r)
    }

    /// Number of body bytes; `InvalidField` when that count overflows `usize`.
    pub fn body_size(&self) -> (r: Result<usize, PduError>)
        ensures
            r matches Ok(n) ==> n == fields_bytes(self@.fields).len(),
            r is Err <==> fields_bytes(self@.fields).len() > usize::MAX,
            r matches Err(e) ==> e is InvalidField,
    {
        fields_size(&self.to_fields())
    }

    /// Number of bytes [`Self::encode`] writes; `InvalidField` when the body does
    /// not fit the header's size field.
    pub fn size(&self) -> (r: Result<usize, PduError>)
        ensures
            r is Ok <==> frame_fits(self@) && frame_bytes(self@).len() <= usize::MAX,
            r matches Ok(n) ==> n == frame_bytes(self@).len(),
    {
        let r = frame_size(&self.to_fields());
        proof {
            lemma_frame_len(self@);
        }
        r
    }

    /// The whole frame: header, then body.
    pub fn encode(&self) -> (r: Result<Vec<u8>, PduError>)
        ensures
            r is Ok <==> frame_fits(self@),
            r matches Ok(b) ==> b@ == frame_bytes(self@),
            fields_shape(Self::body_layout(), self@.fields),
    {
        encode_frame(CLASS_EXEC, NowExecMsgKind::PWSH, self.flags, &self.to_fields())
    }

    /// Decodes a body of this message type sent with header flags `flags`. Body
    /// bytes after the known fields are ignored.
    pub fn decode_from_body(flags: u16, body: &[u8]) -> (r: Result<Self, PduError>)
        ensures
            forall|m0: Self|
                fields_shape(Self::body_layout(), m0@.fields) &&  m0@.flags == flags && is_prefix(
                    #[trigger] fields_bytes(m0@.fields),
                    body@,
                ) ==> (r matches Ok(m) && m@ == m0@),
    {
        let layout = Self::layout_vec();
        let fs = decode_body_fields(body, &layout)?;
        Self::from_fields(flags, &fs)
    }

    /// Decodes a frame of this message type: checks the header's class and kind,
    /// isolates the body the header announces, and decodes it.
    pub fn decode(buf: &[u8]) -> (r: Result<Self, PduError>)
        ensures
            buf.len() >= 8 && (buf@[4] != CLASS_EXEC || buf@[5] != NowExecMsgKind::PWSH)
                ==> (r matches Err(e) && e is InvalidField),
            forall|m0: Self, body: Seq<u8>|
                fields_shape(Self::body_layout(), m0@.fields) &&  body_extends(m0@, body) && is_prefix(
                    #[trigger] framed(m0@, body),
                    buf@,
                ) ==> (r matches Ok(m) && m@ == m0@),
    {
        let (flags, body) = split_typed(buf, CLASS_EXEC, NowExecMsgKind::PWSH)?;
        Self::decode_from_body(flags, body)
    }

    /// PowerShell command `command` in session `session_id`.
    ///
    /// Fails with `InvalidField` when a string, or the whole body, is too long.
    pub fn new(session_id: u32, command: String) -> (r: Result<Self, PduError>)
        ensures
            r is Ok <==> varstr_fits(command@) && fields_bytes(seq![
                FieldView::U32(session_id),
                FieldView::Str(command@),
                FieldView::Str(Seq::<char>::empty()),
                FieldView::Str(Seq::<char>::empty()),
                FieldView::Str(Seq::<char>::empty()),
            ]).len() <= usize::MAX,
            r matches Ok(m) ==> m@ == (WireView {
                class: CLASS_EXEC,
                kind: NowExecMsgKind::PWSH,
                flags: 0,
                fields: seq![
                    FieldView::U32(session_id),
                    FieldView::Str(command@),
                    FieldView::Str(Seq::<char>::empty()),
                    FieldView::Str(Seq::<char>::empty()),
                    FieldView::Str(Seq::<char>::empty()),
                ],
            }),
            r matches Err(e) ==> e is InvalidField,
    {
        let command = NowVarStr::new(command)?;
        let m = NowExecPwshMsg { flags: 0, session_id, command, directory: NowVarStr::empty(), execution_policy: NowVarStr::empty(), configuration_name: NowVarStr::empty() };
        proof {
            assert(m@.fields =~= seq![
                FieldView::U32(session_id),
                FieldView::Str(command@),
                FieldView::Str(Seq::<char>::empty()),
                FieldView::Str(Seq::<char>::empty()),
                FieldView::Str(Seq::<char>::empty()),
            ]);
        }
        m.body_size()?;
        Ok(m)
    }

    /// The same message with a working directory.
    ///
    /// Fails with `InvalidField` when the string, or the whole body, is too long.
    pub fn with_directory(self, directory: String) -> (r: Result<Self, PduError>)
        ensures
            r is Ok <==>
                varstr_fits(directory@) && fields_bytes(self@.fields.update(2, FieldView::Str(directory@))).len() <= usize::MAX,
            r matches Ok(m) ==> m@ == (WireView {
                class: CLASS_EXEC,
                kind: NowExecMsgKind::PWSH,
                flags: (self@.flags | NowExecWinPsFlags::DIRECTORY_SET),
                fields: self@.fields.update(2, FieldView::Str(directory@)),
            }),
            r matches Err(e) ==> e is InvalidField,
    {
        let ghost old_view = self@;
        let s = NowVarStr::new(directory)?;
        let mut m = self;
        m.directory = s;
        m.flags = m.flags | NowExecWinPsFlags::DIRECTORY_SET;
        proof {
            assert(m@.fields =~= old_view.fields.update(2, FieldView::Str(directory@)));
        }
        m.body_size()?;
        Ok(m)
    }

    /// The same message with an execution policy.
    ///
    /// Fails with `InvalidField` when the string, or the whole body, is too long.
    pub fn with_execution_policy(self, execution_policy: String) -> (r: Result<Self, PduError>)
        ensures
            r is Ok <==>
                varstr_fits(execution_policy@) && fields_bytes(self@.fields.update(3, FieldView::Str(execution_policy@))).len() <= usize::MAX,
            r matches Ok(m) ==> m@ == (WireView {
                class: CLASS_EXEC,
                kind: NowExecMsgKind::PWSH,
                flags: (self@.flags | NowExecWinPsFlags::EXECUTION_POLICY),
                fields: self@.fields.update(3, FieldView::Str(execution_policy@)),
            }),
            r matches Err(e) ==> e is InvalidField,
    {
        let ghost old_view = self@;
        let s = NowVarStr::new(execution_policy)?;
        let mut m = self;
        m.execution_policy = s;
        m.flags = m.flags | NowExecWinPsFlags::EXECUTION_POLICY;
        proof {
            assert(m@.fields =~= old_view.fields.update(3, FieldView::Str(execution_policy@)));
        }
        m.body_size()?;
        Ok(m)
    }

    /// The same message with a configuration name.
    ///
    /// Fails with `InvalidField` when the string, or the whole body, is too long.
    pub fn with_configuration_name(self, configuration_name: String) -> (r: Result<Self, PduError>)
        ensures
            r is Ok <==>
                varstr_fits(configuration_name@) && fields_bytes(self@.fields.update(4, FieldView::Str(configuration_name@))).len() <= usize::MAX,
            r matches Ok(m) ==> m@ == (WireView {
                class: CLASS_EXEC,
                kind: NowExecMsgKind::PWSH,
                flags: (self@.flags | NowExecWinPsFlags::CONFIGURATION_NAME),
                fields: self@.fields.update(4, FieldView::Str(configuration_name@)),
            }),
            r matches Err(e) ==> e is InvalidField,
    {
        let ghost old_view = self@;
        let s = NowVarStr::new(configuration_name)?;
        let mut m = self;
        m.configuration_name = s;
        m.flags = m.flags | NowExecWinPsFlags::CONFIGURATION_NAME;
        proof {
            assert(m@.fields =~= old_view.fields.update(4, FieldView::Str(configuration_name@)));
        }
        m.body_size()?;
        Ok(m)
    }

    /// The same message with `-NoLogo`.
    pub fn set_no_logo(self) -> (r: Self)
        ensures
            r@ == (WireView {
                class: CLASS_EXEC,
                kind: NowExecMsgKind::PWSH,
                flags: (self@.flags | NowExecWinPsFlags::NO_LOGO),
                fields: self@.fields,
            }),
    {
        let mut m = self;
        m.flags = m.flags | NowExecWinPsFlags::NO_LOGO;
        proof {
            assert(m@.fields =~= self@.fields);
        }
        m
    }

    /// The same message with `-NoExit`.
    pub fn set_no_exit(self) -> (r: Self)
        ensures
            r@ == (WireView {
                class: CLASS_EXEC,
                kind: NowExecMsgKind::PWSH,
                flags: (self@.flags | NowExecWinPsFlags::NO_EXIT),
                fields: self@.fields,
            }),
    {
        let mut m = self;
        m.flags = m.flags | NowExecWinPsFlags::NO_EXIT;
        proof {
            assert(m@.fields =~= self@.fields);
        }
        m
    }

    /// The same message with `-NoProfile`.
    pub fn set_no_profile(self) -> (r: Self)
        ensures
            r@ == (WireView {
                class: CLASS_EXEC,
                kind: NowExecMsgKind::PWSH,
                flags: (self@.flags | NowExecWinPsFlags::NO_PROFILE),
                fields: self@.fields,
            }),
    {
        let mut m = self;
        m.flags = m.flags | NowExecWinPsFlags::NO_PROFILE;
        proof {
            assert(m@.fields =~= self@.fields);
        }
        m
    }

    /// The same message with `-NonInteractive`.
    pub fn set_non_interactive(self) -> (r: Self)
        ensures
            r@ == (WireView {
                class: CLASS_EXEC,
                kind: NowExecMsgKind::PWSH,
                flags: (self@.flags | NowExecWinPsFlags::NON_INTERACTIVE),
                fields: self@.fields,
            }),
    {
        let mut m = self;
        m.flags = m.flags | NowExecWinPsFlags::NON_INTERACTIVE;
        proof {
            assert(m@.fields =~= self@.fields);
        }
        m
    }

    /// The `session_id` field.
    pub fn session_id(&self) -> (r: u32)
        ensures
            self@.fields[0] == FieldView::U32(r),
    {
        self.session_id
    }

    /// The `command` field.
    pub fn command(&self) -> (r: &str)
        ensures
            self@.fields[1] == FieldView::Str(r@),
    {
        self.command.value()
    }

    /// The working directory, when set.
    pub fn directory(&self) -> (r: Option<&str>)
        ensures
            r is Some <==> self@.flags & NowExecWinPsFlags::DIRECTORY_SET != 0,
            r matches Some(s) ==> self@.fields[2] == FieldView::Str(s@),
    {
        if self.flags & NowExecWinPsFlags::DIRECTORY_SET != 0 {
            Some(self.directory.value())
        } else {
            None
        }
    }

    /// The execution policy, when set.
    pub fn execution_policy(&self) -> (r: Option<&str>)
        ensures
            r is Some <==> self@.flags & NowExecWinPsFlags::EXECUTION_POLICY != 0,
            r matches Some(s) ==> self@.fields[3] == FieldView::Str(s@),
    {
        if self.flags & NowExecWinPsFlags::EXECUTION_POLICY != 0 {
            Some(self.execution_policy.value())
        } else {
            None
        }
    }

    /// The configuration name, when set.
    pub fn configuration_name(&self) -> (r: Option<&str>)
        ensures
            r is Some <==> self@.flags & NowExecWinPsFlags::CONFIGURATION_NAME != 0,
            r matches Some(s) ==> self@.fields[4] == FieldView::Str(s@),
    {
        if self.flags & NowExecWinPsFlags::CONFIGURATION_NAME != 0 {
            Some(self.configuration_name.value())
        } else {
            None
        }
    }

    /// True with `-NoLogo`.
    pub fn is_no_logo(&self) -> (r: bool)
        ensures
            r == (self@.flags & NowExecWinPsFlags::NO_LOGO != 0),
    {
        self.flags & NowExecWinPsFlags::NO_LOGO != 0
    }

    /// True with `-NoExit`.
    pub fn is_no_exit(&self) -> (r: bool)
        ensures
            r == (self@.flags & NowExecWinPsFlags::NO_EXIT != 0),
    {
        self.flags & NowExecWinPsFlags::NO_EXIT != 0
    }

    /// True with `-NoProfile`.
    pub fn is_no_profile(&self) -> (r: bool)
        ensures
            r == (self@.flags & NowExecWinPsFlags::NO_PROFILE != 0),
    {
        self.flags & NowExecWinPsFlags::NO_PROFILE != 0
    }

    /// True with `-NonInteractive`.
    pub fn is_non_interactive(&self) -> (r: bool)
        ensures
            r == (self@.flags & NowExecWinPsFlags::NON_INTERACTIVE != 0),
    {
        self.flags & NowExecWinPsFlags::NON_INTERACTIVE != 0
    }

    /// True in server mode.
    pub fn is_server_mode(&self) -> (r: bool)
        ensures
            r == (self@.flags & NowExecWinPsFlags::SERVER_MODE != 0),
    {
        self.flags & NowExecWinPsFlags::SERVER_MODE != 0
    }

    /// The same message with standard streams redirected.
    pub fn with_io_redirection(self) -> (r: Self)
        ensures
            r@ == (WireView {
                class: CLASS_EXEC,
                kind: NowExecMsgKind::PWSH,
                flags: (self@.flags | NowExecWinPsFlags::IO_REDIRECTION),
                fields: self@.fields,
            }),
    {
        let mut m = self;
        m.flags = m.flags | NowExecWinPsFlags::IO_REDIRECTION;
        proof {
            assert(m@.fields =~= self@.fields);
        }
        m
    }

    /// True when standard streams are redirected.
    pub fn is_with_io_redirection(&self) -> (r: bool)
        ensures
            r == (self@.flags & NowExecWinPsFlags::IO_REDIRECTION != 0),
    {
        self.flags & NowExecWinPsFlags::IO_REDIRECTION != 0
    }

    /// The same message with apartment model `state`.
    pub fn with_apartment_state(self, state: ApartmentStateKind) -> (r: Self)
        ensures
            r@ == (WireView {
                class: self@.class,
                kind: self@.kind,
                flags: self@.flags | apartment_flag(state),
                fields: self@.fields,
            }),
    {
        let mut m = self;
        m.flags = m.flags | state.to_flags();
        proof {
            assert(m@.fields =~= self@.fields);
        }
        m
    }

    /// The apartment model; `InvalidField` when both apartment flags are set.
    pub fn apartment_state(&self) -> (r: Result<Option<ApartmentStateKind>, PduError>)
        ensures
            r is Err <==> self@.flags & 0x000C == 0x000C,
            r matches Ok(k) ==> k == apartment_of_flags(self@.flags),
    {
        ApartmentStateKind::from_flags(self.flags)
    }

    /// A server-mode session `session_id` without a command; fails with
    /// `InvalidField` when the body is too long.
    pub fn new_server_mode(session_id: u32) -> (r: Result<Self, PduError>)
        ensures
            r matches Ok(m) ==> m@ == (WireView {
                class: CLASS_EXEC,
                kind: NowExecMsgKind::PWSH,
                flags: NowExecWinPsFlags::SERVER_MODE,
                fields: seq![
                    FieldView::U32(session_id),
                    FieldView::Str(Seq::<char>::empty()),
                    FieldView::Str(Seq::<char>::empty()),
                    FieldView::Str(Seq::<char>::empty()),
                    FieldView::Str(Seq::<char>::empty()),
                ],
            }),
    {
        let m = NowExecPwshMsg {
            flags: NowExecWinPsFlags::SERVER_MODE,
            session_id,
            command: NowVarStr::empty(),
            directory: NowVarStr::empty(),
            execution_policy: NowVarStr::empty(),
            configuration_name: NowVarStr::empty(),
        };
        proof {
            assert(m@.fields =~= seq![
                FieldView::U32(session_id),
                FieldView::Str(Seq::<char>::empty()),
                FieldView::Str(Seq::<char>::empty()),
                FieldView::Str(Seq::<char>::empty()),
                FieldView::Str(Seq::<char>::empty()),
            ]);
        }
        m.body_size()?;
        Ok(m)
    }

}

/// Runs a command with the default shell or launcher.
///
/// The header flag `DIRECTORY_SET` is derived from the directory: it is set exactly
/// when the directory is not empty. A body without the directory field, as older
/// peers send it, decodes with an empty directory.
#[derive(Debug)]
pub struct NowExecRunMsg {
    session_id: u32,
    command: NowVarStr,
    directory: NowVarStr,
}

impl View for NowExecRunMsg {
    type V = WireView;

    closed spec fn view(&self) -> WireView {
        WireView {
            class: CLASS_EXEC,
            kind: NowExecMsgKind::RUN,
            flags: run_flags(self.directory@),
            fields: seq![
                FieldView::U32(self.session_id),
                FieldView::Str(self.command@),
                FieldView::Str(self.directory@),
            ],
        }
    }
}

/// Header flags of a run message with working directory `directory`.
pub open spec fn run_flags(directory: Seq<char>) -> u16 {
    if directory.len() == 0 {
        0
    } else {
        NowExecRunFlags::DIRECTORY_SET
    }
}

impl NowExecRunMsg {
    /// The view names the class and kind of this message.
    pub proof fn lemma_tag(&self)
        ensures
            self@.class == CLASS_EXEC,
            self@.kind == NowExecMsgKind::RUN,
    {
    }

    /// Kinds of the body fields.
    pub open spec fn body_layout() -> Seq<FieldKind> {
        seq![FieldKind::U32, FieldKind::Str, FieldKind::Str]
    }

    /// Kinds of the body fields of the first protocol version, without the directory.
    pub open spec fn short_layout() -> Seq<FieldKind> {
        seq![FieldKind::U32, FieldKind::Str]
    }

    /// Command `command` in session `session_id`; fails with `InvalidField` when the
    /// command, or the whole body, is too long.
    pub fn new(session_id: u32, command: String) -> (r: Result<Self, PduError>)
        ensures
            r is Ok <==> varstr_fits(command@) && fields_bytes(
                seq![
                    FieldView::U32(session_id),
                    FieldView::Str(command@),
                    FieldView::Str(Seq::<char>::empty()),
                ],
            ).len() <= usize::MAX,
            r matches Ok(m) ==> m@ == (WireView {
                class: CLASS_EXEC,
                kind: NowExecMsgKind::RUN,
                flags: 0u16,
                fields: seq![
                    FieldView::U32(session_id),
                    FieldView::Str(command@),
                    FieldView::Str(Seq::<char>::empty()),
                ],
            }),
            r matches Err(e) ==> e is InvalidField,
    {
        let command = NowVarStr::new(command)?;
        let m = NowExecRunMsg { session_id, command, directory: NowVarStr::empty() };
        m.body_size()?;
        Ok(m)
    }

    /// The same message with working directory `directory`; fails with
    /// `InvalidField` when the directory, or the whole body, is too long.
    pub fn with_directory(self, directory: String) -> (r: Result<Self, PduError>)
        ensures
            r is Ok <==>
                varstr_fits(directory@) && fields_bytes(self@.fields.update(2, FieldView::Str(directory@))).len() <= usize::MAX,
            r matches Ok(m) ==> m@ == (WireView {
                class: CLASS_EXEC,
                kind: NowExecMsgKind::RUN,
                flags: run_flags(directory@),
                fields: self@.fields.update(2, FieldView::Str(directory@)),
            }),
            r matches Err(e) ==> e is InvalidField,
    {
        let ghost old_view = self@;
        let directory = NowVarStr::new(directory)?;
        let mut m = self;
        m.directory = directory;
        proof {
            assert(m@.fields =~= old_view.fields.update(2, FieldView::Str(directory@)));
        }
        m.body_size()?;
        Ok(m)
    }

    /// The session id.
    pub fn session_id(&self) -> (r: u32)
        ensures
            self@.fields[0] == FieldView::U32(r),
    {
        self.session_id
    }

    /// The command.
    pub fn command(&self) -> (r: &str)
        ensures
            self@.fields[1] == FieldView::Str(r@),
    {
        self.command.value()
    }

    /// The working directory; empty when not set.
    pub fn directory(&self) -> (r: &str)
        ensures
            self@.fields[2] == FieldView::Str(r@),
    {
        self.directory.value()
    }

    /// The body fields.
    pub fn to_fields(&self) -> (r: Vec<Field>)
        ensures
            views(r@) == self@.fields,
            fields_shape(Self::body_layout(), self@.fields),
    {
        let mut v: Vec<Field> = Vec::new();
        v.push(Field::U32(self.session_id));
        v.push(Field::Str(self.command.duplicate()));
        v.push(Field::Str(self.directory.duplicate()));
        assert(views(v@) =~= self@.fields);
        assert(fields_shape(Self::body_layout(), self@.fields));
        v
    }

    /// Number of body bytes; `InvalidField` when that count overflows `usize`.
    pub fn body_size(&self) -> (r: Result<usize, PduError>)
        ensures
            r matches Ok(n) ==> n == fields_bytes(self@.fields).len(),
            r is Err <==> fields_bytes(self@.fields).len() > usize::MAX,
            r matches Err(e) ==> e is InvalidField,
    {
        fields_size(&self.to_fields())
    }

    /// Number of bytes [`Self::encode`] writes.
    pub fn size(&self) -> (r: Result<usize, PduError>)
        ensures
            r is Ok <==> frame_fits(self@) && frame_bytes(self@).len() <= usize::MAX,
            r matches Ok(n) ==> n == frame_bytes(self@).len(),
    {
        let r = frame_size(&self.to_fields());
        proof {
            lemma_frame_len(self@);
        }
        r
    }

    /// The whole frame: header, then body.
    pub fn encode(&self) -> (r: Result<Vec<u8>, PduError>)
        ensures
            r is Ok <==> frame_fits(self@),
            r matches Ok(b) ==> b@ == frame_bytes(self@),
            fields_shape(Self::body_layout(), self@.fields),
    {
        let flags: u16 = if self.directory.is_empty() {
            0
        } else {
            NowExecRunFlags::DIRECTORY_SET
        };
        encode_frame(CLASS_EXEC, NowExecMsgKind::RUN, flags, &self.to_fields())
    }

    /// Decodes a body of this message type; the header flags are not used, as the
    /// directory decides them. A body that holds only the session id and the
    /// command, as the first protocol version sends it, decodes with an empty
    /// directory; body bytes after the known fields are ignored.
    pub fn decode_from_body(flags: u16, body: &[u8]) -> (r: Result<Self, PduError>)
        ensures
            forall|m0: Self|
                fields_shape(Self::body_layout(), m0@.fields) && m0@.flags == flags && is_prefix(
                    #[trigger] fields_bytes(m0@.fields),
                    body@,
                ) ==> (r matches Ok(m) && m@ == m0@),
    {
        let mut layout: Vec<FieldKind> = Vec::new();
        layout.push(FieldKind::U32);
        layout.push(FieldKind::Str);
        layout.push(FieldKind::Str);
        assert(layout@ =~= Self::body_layout());
        let full = decode_body_fields(body, &layout);
        match full {
            Ok(fs) => {
                let n = fs.len();
                assert(n == 3);
                let session_id = get_u32(&fs, 0);
                let command = get_str(&fs, 1);
                let directory = get_str(&fs, 2);
                let m = NowExecRunMsg { session_id, command, directory };
                assert(m@.fields =~= views(fs@));
                return Ok(m);
            },
            Err(_) => {},
        }
        let mut short: Vec<FieldKind> = Vec::new();
        short.push(FieldKind::U32);
        short.push(FieldKind::Str);
        assert(short@ =~= Self::short_layout());
        let fs = decode_body_fields(body, &short)?;
        let n = fs.len();
        assert(n == 2);
        let session_id = get_u32(&fs, 0);
        let command = get_str(&fs, 1);
        Ok(NowExecRunMsg { session_id, command, directory: NowVarStr::empty() })
    }

    /// Decodes a frame of this message type: checks the header's class and kind,
    /// isolates the body the header announces, and decodes it.
    pub fn decode(buf: &[u8]) -> (r: Result<Self, PduError>)
        ensures
            buf.len() >= 8 && (buf@[4] != CLASS_EXEC || buf@[5] != NowExecMsgKind::RUN)
                ==> (r matches Err(e) && e is InvalidField),
            forall|m0: Self, body: Seq<u8>|
                fields_shape(Self::body_layout(), m0@.fields) && body_extends(m0@, body) && is_prefix(
                    #[trigger] framed(m0@, body),
                    buf@,
                ) ==> (r matches Ok(m) && m@ == m0@),
    {
        let (flags, body) = split_typed(buf, CLASS_EXEC, NowExecMsgKind::RUN)?;
        Self::decode_from_body(flags, body)
    }
}

} // verus!
