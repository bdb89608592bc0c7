//! Operation status: success, or a typed failure with an optional message.
use vstd::prelude::*;

use crate::error::PduError;
use crate::field::{get_str, get_u16, get_u32, Field, FieldKind, FieldView, views, field_kind};
use crate::string::{varstr_fits, NowVarStr};

verus! {

/// Flag of every error status.
pub const STATUS_ERROR: u16 = 0x0001;

/// Flag of a status that carries a message.
pub const STATUS_ERROR_MESSAGE: u16 = 0x0002;

/// Error code of the protocol's own error domain.
#[derive(Debug, Clone, Copy, PartialEq, Eq, Structural)]
pub enum NowProtoError {
    /// A resource (for instance an exec session id) is already in use.
    InUse,
    /// The request is invalid.
    InvalidRequest,
    /// The operation was aborted by the server.
    Aborted,
    /// A resource was not found.
    NotFound,
    /// A resource cannot be accessed.
    AccessDenied,
    /// Internal error.
    Internal,
    /// The operation is not implemented on this platform.
    NotImplemented,
    /// The peers' protocol versions are incompatible.
    ProtocolVersion,
    /// A code this library does not know.
    Other(u32),
}

/// Wire code of a protocol error.
pub open spec fn proto_error_code(e: NowProtoError) -> u32 {
    match e {
        NowProtoError::InUse => 1,
        NowProtoError::InvalidRequest => 2,
        NowProtoError::Aborted => 3,
        NowProtoError::NotFound => 4,
        NowProtoError::AccessDenied => 5,
        NowProtoError::Internal => 6,
        NowProtoError::NotImplemented => 7,
        NowProtoError::ProtocolVersion => 8,
        NowProtoError::Other(c) => c,
    }
}

/// Protocol error of a wire code.
pub open spec fn proto_error_of(c: u32) -> NowProtoError {
    if c == 1 {
        NowProtoError::InUse
    } else if c == 2 {
        NowProtoError::InvalidRequest
    } else if c == 3 {
        NowProtoError::Aborted
    } else if c == 4 {
        NowProtoError::NotFound
    } else if c == 5 {
        NowProtoError::AccessDenied
    } else if c == 6 {
        NowProtoError::Internal
    } else if c == 7 {
        NowProtoError::NotImplemented
    } else if c == 8 {
        NowProtoError::ProtocolVersion
    } else {
        NowProtoError::Other(c)
    }
}

impl NowProtoError {
    /// The wire code.
    pub fn code(&self) -> (r: u32)
        ensures
            r == proto_error_code(*self),
    {
        match self {
            NowProtoError::InUse => 1,
            NowProtoError::InvalidRequest => 2,
            NowProtoError::Aborted => 3,
            NowProtoError::NotFound => 4,
            NowProtoError::AccessDenied => 5,
            NowProtoError::Internal => 6,
            NowProtoError::NotImplemented => 7,
            NowProtoError::ProtocolVersion => 8,
            NowProtoError::Other(c) => *c,
        }
    }

    /// The error of a wire code; unknown codes become `Other`.
    pub fn from_code(c: u32) -> (r: NowProtoError)
        ensures
            r == proto_error_of(c),
    {
        if c == 1 {
            NowProtoError::InUse
        } else if c == 2 {
            NowProtoError::InvalidRequest
        } else if c == 3 {
            NowProtoError::Aborted
        } else if c == 4 {
            NowProtoError::NotFound
        } else if c == 5 {
            NowProtoError::AccessDenied
        } else if c == 6 {
            NowProtoError::Internal
        } else if c == 7 {
            NowProtoError::NotImplemented
        } else if c == 8 {
            NowProtoError::ProtocolVersion
        } else {
            NowProtoError::Other(c)
        }
    }

    /// A short description.
    pub fn describe(&self) -> (r: &'static str) {
        match self {
            NowProtoError::InUse => "resource is already in use",
            NowProtoError::InvalidRequest => "invalid request",
            NowProtoError::Aborted => "operation has been aborted",
            NowProtoError::NotFound => "resource not found",
            NowProtoError::AccessDenied => "access denied",
            NowProtoError::Internal => "internal error",
            NowProtoError::NotImplemented => "operation is not implemented",
            NowProtoError::ProtocolVersion => "incompatible protocol versions",
            NowProtoError::Other(_) => "unknown error code",
        }
    }
}

/// Domain of a status error, with its code.
#[derive(Debug, Clone, Copy, PartialEq, Eq, Structural)]
pub enum NowStatusErrorKind {
    /// A code without defined meaning.
    Generic(u32),
    /// A protocol error code.
    Now(NowProtoError),
    /// A Windows error code.
    WinApi(u32),
    /// A Unix error code.
    Unix(u32),
    /// A domain this library does not know.
    Unknown { kind: u16, code: u32 },
}

/// Wire `kind` of an error kind.
pub open spec fn status_kind_of(k: NowStatusErrorKind) -> u16 {
    match k {
        NowStatusErrorKind::Generic(_) => 0,
        NowStatusErrorKind::Now(_) => 1,
        NowStatusErrorKind::WinApi(_) => 2,
        NowStatusErrorKind::Unix(_) => 3,
        NowStatusErrorKind::Unknown { kind, .. } => kind,
    }
}

/// Wire `code` of an error kind.
pub open spec fn status_code_of(k: NowStatusErrorKind) -> u32 {
    match k {
        NowStatusErrorKind::Generic(c) => c,
        NowStatusErrorKind::Now(e) => proto_error_code(e),
        NowStatusErrorKind::WinApi(c) => c,
        NowStatusErrorKind::Unix(c) => c,
        NowStatusErrorKind::Unknown { code, .. } => code,
    }
}

/// Error kind of wire `kind` and `code`.
pub open spec fn status_kind_from_parts(kind: u16, code: u32) -> NowStatusErrorKind {
    if kind == 0 {
        NowStatusErrorKind::Generic(code)
    } else if kind == 1 {
        NowStatusErrorKind::Now(proto_error_of(code))
    } else if kind == 2 {
        NowStatusErrorKind::WinApi(code)
    } else if kind == 3 {
        NowStatusErrorKind::Unix(code)
    } else {
        NowStatusErrorKind::Unknown { kind, code }
    }
}

/// An error kind as a decoder produces it: an unknown domain has a kind above the
/// known ones, and an unknown protocol code is none of the known codes.
pub open spec fn status_kind_canonical(k: NowStatusErrorKind) -> bool {
    match k {
        NowStatusErrorKind::Now(NowProtoError::Other(c)) => !(1 <= c <= 8),
        NowStatusErrorKind::Unknown { kind, .. } => kind > 3,
        _ => true,
    }
}


/// Every pair of wire kind and code maps to a canonical error kind that maps back to it.
pub proof fn lemma_status_parts_round_trip(kind: u16, code: u32)
    ensures
        status_kind_canonical(status_kind_from_parts(kind, code)),
        status_kind_of(status_kind_from_parts(kind, code)) == kind,
        status_code_of(status_kind_from_parts(kind, code)) == code,
{
}

impl NowStatusErrorKind {
    /// The wire `kind`.
    pub fn status_kind(&self) -> (r: u16)
        ensures
            r == status_kind_of(*self),
    {
        match self {
            NowStatusErrorKind::Generic(_) => 0,
            NowStatusErrorKind::Now(_) => 1,
            NowStatusErrorKind::WinApi(_) => 2,
            NowStatusErrorKind::Unix(_) => 3,
            NowStatusErrorKind::Unknown { kind, .. } => *kind,
        }
    }

    /// The wire `code`.
    pub fn status_code(&self) -> (r: u32)
        ensures
            r == status_code_of(*self),
    {
        match self {
            NowStatusErrorKind::Generic(c) => *c,
            NowStatusErrorKind::Now(e) => e.code(),
            NowStatusErrorKind::WinApi(c) => *c,
            NowStatusErrorKind::Unix(c) => *c,
            NowStatusErrorKind::Unknown { code, .. } => *code,
        }
    }

    /// The error kind of wire `kind` and `code`.
    pub fn from_parts(kind: u16, code: u32) -> (r: NowStatusErrorKind)
        ensures
            r == status_kind_from_parts(kind, code),
    {
        if kind == 0 {
            NowStatusErrorKind::Generic(code)
        } else if kind == 1 {
            NowStatusErrorKind::Now(NowProtoError::from_code(code))
        } else if kind == 2 {
            NowStatusErrorKind::WinApi(code)
        } else if kind == 3 {
            NowStatusErrorKind::Unix(code)
        } else {
            NowStatusErrorKind::Unknown { kind, code }
        }
    }
}

/// A remote failure: its kind and an optional message (empty when absent).
#[derive(Debug)]
pub struct NowStatusError {
    kind: NowStatusErrorKind,
    message: NowVarStr,
}

impl View for NowStatusError {
    type V = (NowStatusErrorKind, Seq<char>);

    closed spec fn view(&self) -> (NowStatusErrorKind, Seq<char>) {
        (self.kind, self.message@)
    }
}

impl PartialEq for NowStatusError {
    fn eq(&self, other: &NowStatusError) -> (r: bool) {
        self.kind == other.kind && self.message.same_as(&other.message)
    }
}

impl vstd::std_specs::cmp::PartialEqSpecImpl for NowStatusError {
    open spec fn obeys_eq_spec() -> bool {
        true
    }

    open spec fn eq_spec(&self, other: &NowStatusError) -> bool {
        self@ == other@
    }
}

impl NowStatusError {
    /// A generic error with code `code` and no message.
    pub fn new_generic(code: u32) -> (r: NowStatusError)
        ensures
            r@ == (NowStatusErrorKind::Generic(code), Seq::<char>::empty()),
    {
        NowStatusError { kind: NowStatusErrorKind::Generic(code), message: NowVarStr::empty() }
    }

    /// An error of kind `kind` without a message.
    pub fn from_kind(kind: NowStatusErrorKind) -> (r: NowStatusError)
        ensures
            r@ == (kind, Seq::<char>::empty()),
    {
        NowStatusError { kind, message: NowVarStr::empty() }
    }

    /// A protocol error without a message.
    pub fn from_proto_error(error: NowProtoError) -> (r: NowStatusError)
        ensures
            r@ == (NowStatusErrorKind::Now(error), Seq::<char>::empty()),
    {
        NowStatusError { kind: NowStatusErrorKind::Now(error), message: NowVarStr::empty() }
    }

    /// The error kind.
    pub fn kind(&self) -> (r: NowStatusErrorKind)
        ensures
            r == self@.0,
    {
        self.kind
    }

    /// The message; empty when there is none.
    pub fn message(&self) -> (r: &str)
        ensures
            r@ == self@.1,
    {
        self.message.value()
    }

    /// The same error with `message` attached; fails with `InvalidField` when the
    /// message is too long for a string field.
    pub fn with_message(self, message: String) -> (r: Result<NowStatusError, PduError>)
        ensures
            r is Ok <==> varstr_fits(message@),
            r matches Ok(e) ==> e@ == (self@.0, message@),
            r matches Err(e) ==> e is InvalidField,
    {
        let message = NowVarStr::new(message)?;
        Ok(NowStatusError { kind: self.kind, message })
    }

    /// A description of the error, with its message when there is one.
    pub fn describe(&self) -> (r: String) {
        let mut s = String::from_str("NOW status error");
        if !self.message.is_empty() {
            s.append(": ");
            s.append(self.message.value());
        }
        s
    }
}

/// What a status holds.
pub struct StatusView {
    pub flags: u16,
    pub kind: u16,
    pub code: u32,
    pub message: Seq<char>,
}

/// The wire fields of a status: flags, kind, code and message.
pub open spec fn status_fields(s: StatusView) -> Seq<FieldView> {
    seq![FieldView::U16(s.flags), FieldView::U16(s.kind), FieldView::U32(s.code), FieldView::Str(s.message)]
}

/// The status that a status field group starting at `at` holds.
pub open spec fn status_at(fs: Seq<FieldView>, at: int) -> StatusView {
    StatusView {
        flags: fs[at]->U16_0,
        kind: fs[at + 1]->U16_0,
        code: fs[at + 2]->U32_0,
        message: fs[at + 3]->Str_0,
    }
}

/// The error a status reports: the error kind of its wire kind and code, and its
/// message.
pub open spec fn status_error(s: StatusView) -> (NowStatusErrorKind, Seq<char>) {
    (status_kind_from_parts(s.kind, s.code), s.message)
}

/// The status of an error: its flags, its wire kind and code, and its message.
pub open spec fn error_status(e: (NowStatusErrorKind, Seq<char>)) -> StatusView {
    StatusView {
        flags: if e.1.len() == 0 { STATUS_ERROR } else { (STATUS_ERROR | STATUS_ERROR_MESSAGE) as u16 },
        kind: status_kind_of(e.0),
        code: status_code_of(e.0),
        message: e.1,
    }
}

/// An error turned into a status and back gives the same error: the status is an
/// error status, and its wire kind, code and message map back to the error's kind
/// and message (see `NowStatus::new_error` and `NowStatus::to_result`). A success
/// status has the error flag clear.
pub proof fn lemma_status_round_trip(e: (NowStatusErrorKind, Seq<char>))
    requires
        status_kind_canonical(e.0),
    ensures
        error_status(e).flags & STATUS_ERROR != 0,
        status_kind_from_parts(error_status(e).kind, error_status(e).code) == e.0,
        error_status(e).message == e.1,
        0u16 & STATUS_ERROR == 0,
{
    assert(1u16 & 1u16 != 0) by (bit_vector);
    assert(3u16 & 1u16 != 0) by (bit_vector);
    assert(0u16 & 1u16 == 0) by (bit_vector);
    assert((1u16 | 2u16) as u16 == 3u16) by (bit_vector);
}

/// The layout of a status.
pub open spec fn status_layout() -> Seq<FieldKind> {
    seq![FieldKind::U16, FieldKind::U16, FieldKind::U32, FieldKind::Str]
}

/// An operation status.
///
/// Success is a clear `STATUS_ERROR` flag; a canonical success has every other
/// field zero and an empty message. An error status carries the error's wire kind
/// and code, and sets `STATUS_ERROR_MESSAGE` when its message is not empty.
#[derive(Debug)]
pub struct NowStatus {
    flags: u16,
    kind: u16,
    code: u32,
    message: NowVarStr,
}

impl View for NowStatus {
    type V = StatusView;

    closed spec fn view(&self) -> StatusView {
        StatusView { flags: self.flags, kind: self.kind, code: self.code, message: self.message@ }
    }
}

impl NowStatus {
    /// Success.
    pub fn new_success() -> (r: NowStatus)
        ensures
            r@ == (StatusView { flags: 0, kind: 0, code: 0, message: Seq::empty() }),
    {
        NowStatus { flags: 0, kind: 0, code: 0, message: NowVarStr::empty() }
    }

    /// The status of `error`.
    pub fn new_error(error: NowStatusError) -> (r: NowStatus)
        ensures
            r@ == error_status(error@),
    {
        let flags = if error.message.is_empty() {
            STATUS_ERROR
        } else {
            STATUS_ERROR | STATUS_ERROR_MESSAGE
        };
        let kind = error.kind.status_kind();
        let code = error.kind.status_code();
        NowStatus { flags, kind, code, message: error.message }
    }

    /// `Ok` for a success, else the error with its kind and message.
    pub fn to_result(&self) -> (r: Result<(), NowStatusError>)
        ensures
            r is Ok <==> self@.flags & STATUS_ERROR == 0,
            r matches Err(e) ==> e@ == status_error(self@),
    {
        if self.flags & STATUS_ERROR == 0 {
            return Ok(());
        }
        Err(
            NowStatusError {
                kind: NowStatusErrorKind::from_parts(self.kind, self.code),
                message: self.message.duplicate(),
            },
        )
    }

    /// A status with the same contents.
    pub fn duplicate(&self) -> (r: NowStatus)
        ensures
            r@ == self@,
    {
        NowStatus { flags: self.flags, kind: self.kind, code: self.code, message: self.message.duplicate() }
    }

    /// Appends the wire fields to `fs`.
    pub fn push_fields(&self, fs: &mut Vec<Field>)
        ensures
            views(final(fs)@) == views(old(fs)@) + status_fields(self@),
            varstr_fits(self@.message),
    {
        fs.push(Field::U16(self.flags));
        fs.push(Field::U16(self.kind));
        fs.push(Field::U32(self.code));
        fs.push(Field::Str(self.message.duplicate()));
        assert(views(final(fs)@) =~= views(old(fs)@) + status_fields(self@));
    }

    /// The status whose fields stand at `at` in `fs`.
    pub fn from_fields(fs: &Vec<Field>, at: usize) -> (r: NowStatus)
        requires
            at + 4 <= fs@.len(),
            field_kind(views(fs@)[at as int]) == FieldKind::U16,
            field_kind(views(fs@)[at + 1]) == FieldKind::U16,
            field_kind(views(fs@)[at + 2]) == FieldKind::U32,
            field_kind(views(fs@)[at + 3]) == FieldKind::Str,
        ensures
            status_fields(r@) == views(fs@).subrange(at as int, at + 4),
    {
        let n = fs.len();
        assert(at + 4 <= n);
        let flags = get_u16(fs, at);
        let kind = get_u16(fs, at + 1);
        let code = get_u32(fs, at + 2);
        let message = get_str(fs, at + 3);
        let r = NowStatus { flags, kind, code, message };
        assert(status_fields(r@) =~= views(fs@).subrange(at as int, at + 4));
        r
    }
}

} // verus!
