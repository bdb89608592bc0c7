//! Every message of the protocol, and the two-level dispatch on class and kind.
use vstd::prelude::*;

use crate::error::PduError;
use crate::field::fields_shape;
use crate::header::{
    body_extends, frame_bytes, frame_fits, framed, framed_header, lemma_framed_prefix,
    lemma_header_bytes_injective, header_bytes, split_frame, NowHeader, WireView, CLASS_CHANNEL,
    CLASS_EXEC, CLASS_RDM, CLASS_SESSION, CLASS_SYSTEM,
};
use crate::field::fields_bytes;
use crate::wire::is_prefix;

use crate::channel::{
    NowChannelMsgKind, NowChannelCapsetMsg, NowChannelHeartbeatMsg, NowChannelCloseMsg,
};
use crate::system::{NowSystemMessageKind, NowSystemShutdownMsg};
use crate::session::{
    NowSessionMessageKind, NowSessionLockMsg, NowSessionLogoffMsg, NowSessionMsgBoxReqMsg,
    NowSessionMsgBoxRspMsg, NowSessionSetKbdLayoutMsg, NowSessionWindowRecStartMsg,
    NowSessionWindowRecStopMsg, NowSessionWindowRecEventMsg,
};
use crate::exec::{
    NowExecMsgKind, NowExecAbortMsg, NowExecCancelReqMsg, NowExecCancelRspMsg, NowExecResultMsg,
    NowExecDataMsg, NowExecStartedMsg, NowExecRunMsg, NowExecProcessMsg, NowExecShellMsg,
    NowExecBatchMsg, NowExecWinPsMsg, NowExecPwshMsg,
};
use crate::rdm::{
    NowRdmMsgKind, NowRdmCapabilitiesMsg, NowRdmAppStartMsg, NowRdmAppActionMsg, NowRdmAppNotifyMsg,
    NowRdmSessionStartMsg, NowRdmSessionActionMsg, NowRdmSessionNotifyMsg,
};

verus! {

/// A message of the channel class.
#[derive(Debug)]
pub enum NowChannelMessage {
    Capset(NowChannelCapsetMsg),
    Heartbeat(NowChannelHeartbeatMsg),
    Close(NowChannelCloseMsg),
}

impl View for NowChannelMessage {
    type V = WireView;

    open spec fn view(&self) -> WireView {
        match self {
            NowChannelMessage::Capset(m) => m@,
            NowChannelMessage::Heartbeat(m) => m@,
            NowChannelMessage::Close(m) => m@,
        }
    }
}

impl NowChannelMessage {
    /// The body fields follow the message's layout, and its header flags are ones
    /// its decoder accepts.
    pub open spec fn wire_ok(&self) -> bool {
        match self {
            NowChannelMessage::Capset(m) => fields_shape(NowChannelCapsetMsg::body_layout(), m@.fields),
            NowChannelMessage::Heartbeat(m) => fields_shape(NowChannelHeartbeatMsg::body_layout(), m@.fields),
            NowChannelMessage::Close(m) => fields_shape(NowChannelCloseMsg::body_layout(), m@.fields),
        }
    }

    /// Each variant has its own class and kind.
    pub open spec fn tag_matches(&self) -> bool {
        match self {
            NowChannelMessage::Capset(m) => m@.class == CLASS_CHANNEL && m@.kind == NowChannelMsgKind::CAPSET,
            NowChannelMessage::Heartbeat(m) => m@.class == CLASS_CHANNEL
                && m@.kind == NowChannelMsgKind::HEARTBEAT,
            NowChannelMessage::Close(m) => m@.class == CLASS_CHANNEL && m@.kind == NowChannelMsgKind::CLOSE,
        }
    }

    pub proof fn lemma_tag(&self)
        ensures
            self.tag_matches(),
    {
        match self {
            NowChannelMessage::Capset(m) => m.lemma_tag(),
            NowChannelMessage::Heartbeat(m) => m.lemma_tag(),
            NowChannelMessage::Close(m) => m.lemma_tag(),
        }
    }

    /// The whole frame: header, then body.
    pub fn encode(&self) -> (r: Result<Vec<u8>, PduError>)
        ensures
            r is Ok <==> frame_fits(self@),
            r matches Ok(b) ==> b@ == frame_bytes(self@),
            self.wire_ok(),
    {
        match self {
            NowChannelMessage::Capset(m) => m.encode(),
            NowChannelMessage::Heartbeat(m) => m.encode(),
            NowChannelMessage::Close(m) => m.encode(),
        }
    }

    /// Number of bytes [`Self::encode`] writes.
    pub fn size(&self) -> (r: Result<usize, PduError>)
        ensures
            r is Ok <==> frame_fits(self@) && frame_bytes(self@).len() <= usize::MAX,
            r matches Ok(n) ==> n == frame_bytes(self@).len(),
    {
        match self {
            NowChannelMessage::Capset(m) => m.size(),
            NowChannelMessage::Heartbeat(m) => m.size(),
            NowChannelMessage::Close(m) => m.size(),
        }
    }

    /// Decodes the body of a message of this class whose header is `header`: the
    /// kind selects the message; an unknown kind fails with `UnsupportedMessage`.
    pub fn decode_from_body(header: NowHeader, body: &[u8]) -> (r: Result<Self, PduError>)
        requires
            header.class == CLASS_CHANNEL,
        ensures
            forall|m0: Self|
                m0.wire_ok() && m0@.kind == header.kind && m0@.flags == header.flags && is_prefix(
                    #[trigger] fields_bytes(m0@.fields),
                    body@,
                ) ==> (r matches Ok(m) && m@ == m0@),
            !known_message(header.class, header.kind) ==> r == Err::<Self, PduError>(
                PduError::UnsupportedMessage { class: header.class, kind: header.kind },
            ),
            r matches Ok(m) ==> m@.class == header.class && m@.kind == header.kind,
    {
        proof {
            assert forall|m0: Self|
                m0.wire_ok() && m0@.kind == header.kind && m0@.flags == header.flags && is_prefix(
                    #[trigger] fields_bytes(m0@.fields),
                    body@,
                ) implies m0.tag_matches() by {
                m0.lemma_tag();
            }
        }

        if header.kind == NowChannelMsgKind::CAPSET {
            let m = NowChannelCapsetMsg::decode_from_body(header.flags, body)?;
            proof {
                m.lemma_tag();
            }
            return Ok(NowChannelMessage::Capset(m));
        }
        else if header.kind == NowChannelMsgKind::HEARTBEAT {
            let m = NowChannelHeartbeatMsg::decode_from_body(header.flags, body)?;
            proof {
                m.lemma_tag();
            }
            return Ok(NowChannelMessage::Heartbeat(m));
        }
        else if header.kind == NowChannelMsgKind::CLOSE {
            let m = NowChannelCloseMsg::decode_from_body(header.flags, body)?;
            proof {
                m.lemma_tag();
            }
            return Ok(NowChannelMessage::Close(m));
        }
        Err(PduError::UnsupportedMessage { class: header.class, kind: header.kind })
    }
}

/// A message of the system class.
#[derive(Debug)]
pub enum NowSystemMessage {
    Shutdown(NowSystemShutdownMsg),
}

impl View for NowSystemMessage {
    type V = WireView;

    open spec fn view(&self) -> WireView {
        match self {
            NowSystemMessage::Shutdown(m) => m@,
        }
    }
}

impl NowSystemMessage {
    /// The body fields follow the message's layout, and its header flags are ones
    /// its decoder accepts.
    pub open spec fn wire_ok(&self) -> bool {
        match self {
            NowSystemMessage::Shutdown(m) => fields_shape(NowSystemShutdownMsg::body_layout(), m@.fields),
        }
    }

    /// Each variant has its own class and kind.
    pub open spec fn tag_matches(&self) -> bool {
        match self {
            NowSystemMessage::Shutdown(m) => m@.class == CLASS_SYSTEM
                && m@.kind == NowSystemMessageKind::SHUTDOWN,
        }
    }

    pub proof fn lemma_tag(&self)
        ensures
            self.tag_matches(),
    {
        match self {
            NowSystemMessage::Shutdown(m) => m.lemma_tag(),
        }
    }

    /// The whole frame: header, then body.
    pub fn encode(&self) -> (r: Result<Vec<u8>, PduError>)
        ensures
            r is Ok <==> frame_fits(self@),
            r matches Ok(b) ==> b@ == frame_bytes(self@),
            self.wire_ok(),
    {
        match self {
            NowSystemMessage::Shutdown(m) => m.encode(),
        }
    }

    /// Number of bytes [`Self::encode`] writes.
    pub fn size(&self) -> (r: Result<usize, PduError>)
        ensures
            r is Ok <==> frame_fits(self@) && frame_bytes(self@).len() <= usize::MAX,
            r matches Ok(n) ==> n == frame_bytes(self@).len(),
    {
        match self {
            NowSystemMessage::Shutdown(m) => m.size(),
        }
    }

    /// Decodes the body of a message of this class whose header is `header`: the
    /// kind selects the message; an unknown kind fails with `UnsupportedMessage`.
    pub fn decode_from_body(header: NowHeader, body: &[u8]) -> (r: Result<Self, PduError>)
        requires
            header.class == CLASS_SYSTEM,
        ensures
            forall|m0: Self|
                m0.wire_ok() && m0@.kind == header.kind && m0@.flags == header.flags && is_prefix(
                    #[trigger] fields_bytes(m0@.fields),
                    body@,
                ) ==> (r matches Ok(m) && m@ == m0@),
            !known_message(header.class, header.kind) ==> r == Err::<Self, PduError>(
                PduError::UnsupportedMessage { class: header.class, kind: header.kind },
            ),
            r matches Ok(m) ==> m@.class == header.class && m@.kind == header.kind,
    {
        proof {
            assert forall|m0: Self|
                m0.wire_ok() && m0@.kind == header.kind && m0@.flags == header.flags && is_prefix(
                    #[trigger] fields_bytes(m0@.fields),
                    body@,
                ) implies m0.tag_matches() by {
                m0.lemma_tag();
            }
        }

        if header.kind == NowSystemMessageKind::SHUTDOWN {
            let m = NowSystemShutdownMsg::decode_from_body(header.flags, body)?;
            proof {
                m.lemma_tag();
            }
            return Ok(NowSystemMessage::Shutdown(m));
        }
        Err(PduError::UnsupportedMessage { class: header.class, kind: header.kind })
    }
}

/// A message of the session class.
#[derive(Debug)]
pub enum NowSessionMessage {
    Lock(NowSessionLockMsg),
    Logoff(NowSessionLogoffMsg),
    MsgBoxReq(NowSessionMsgBoxReqMsg),
    MsgBoxRsp(NowSessionMsgBoxRspMsg),
    SetKbdLayout(NowSessionSetKbdLayoutMsg),
    WindowRecStart(NowSessionWindowRecStartMsg),
    WindowRecStop(NowSessionWindowRecStopMsg),
    WindowRecEvent(NowSessionWindowRecEventMsg),
}

impl View for NowSessionMessage {
    type V = WireView;

    open spec fn view(&self) -> WireView {
        match self {
            NowSessionMessage::Lock(m) => m@,
            NowSessionMessage::Logoff(m) => m@,
            NowSessionMessage::MsgBoxReq(m) => m@,
            NowSessionMessage::MsgBoxRsp(m) => m@,
            NowSessionMessage::SetKbdLayout(m) => m@,
            NowSessionMessage::WindowRecStart(m) => m@,
            NowSessionMessage::WindowRecStop(m) => m@,
            NowSessionMessage::WindowRecEvent(m) => m@,
        }
    }
}

impl NowSessionMessage {
    /// The body fields follow the message's layout, and its header flags are ones
    /// its decoder accepts.
    pub open spec fn wire_ok(&self) -> bool {
        match self {
            NowSessionMessage::Lock(m) => fields_shape(NowSessionLockMsg::body_layout(), m@.fields),
            NowSessionMessage::Logoff(m) => fields_shape(NowSessionLogoffMsg::body_layout(), m@.fields),
            NowSessionMessage::MsgBoxReq(m) => fields_shape(NowSessionMsgBoxReqMsg::body_layout(), m@.fields),
            NowSessionMessage::MsgBoxRsp(m) => fields_shape(NowSessionMsgBoxRspMsg::body_layout(), m@.fields),
            NowSessionMessage::SetKbdLayout(m) => fields_shape(NowSessionSetKbdLayoutMsg::body_layout(), m@.fields)
                && NowSessionSetKbdLayoutMsg::flags_valid(m@.flags),
            NowSessionMessage::WindowRecStart(m) => fields_shape(NowSessionWindowRecStartMsg::body_layout(), m@.fields),
            NowSessionMessage::WindowRecStop(m) => fields_shape(NowSessionWindowRecStopMsg::body_layout(), m@.fields),
            NowSessionMessage::WindowRecEvent(m) => fields_shape(NowSessionWindowRecEventMsg::body_layout(), m@.fields),
        }
    }

    /// Each variant has its own class and kind.
    pub open spec fn tag_matches(&self) -> bool {
        match self {
            NowSessionMessage::Lock(m) => m@.class == CLASS_SESSION && m@.kind == NowSessionMessageKind::LOCK,
            NowSessionMessage::Logoff(m) => m@.class == CLASS_SESSION
                && m@.kind == NowSessionMessageKind::LOGOFF,
            NowSessionMessage::MsgBoxReq(m) => m@.class == CLASS_SESSION
                && m@.kind == NowSessionMessageKind::MSGBOX_REQ,
            NowSessionMessage::MsgBoxRsp(m) => m@.class == CLASS_SESSION
                && m@.kind == NowSessionMessageKind::MSGBOX_RSP,
            NowSessionMessage::SetKbdLayout(m) => m@.class == CLASS_SESSION
                && m@.kind == NowSessionMessageKind::SET_KBD_LAYOUT,
            NowSessionMessage::WindowRecStart(m) => m@.class == CLASS_SESSION
                && m@.kind == NowSessionMessageKind::WINDOW_REC_START,
            NowSessionMessage::WindowRecStop(m) => m@.class == CLASS_SESSION
                && m@.kind == NowSessionMessageKind::WINDOW_REC_STOP,
            NowSessionMessage::WindowRecEvent(m) => m@.class == CLASS_SESSION
                && m@.kind == NowSessionMessageKind::WINDOW_REC_EVENT,
        }
    }

    pub proof fn lemma_tag(&self)
        ensures
            self.tag_matches(),
    {
        match self {
            NowSessionMessage::Lock(m) => m.lemma_tag(),
            NowSessionMessage::Logoff(m) => m.lemma_tag(),
            NowSessionMessage::MsgBoxReq(m) => m.lemma_tag(),
            NowSessionMessage::MsgBoxRsp(m) => m.lemma_tag(),
            NowSessionMessage::SetKbdLayout(m) => m.lemma_tag(),
            NowSessionMessage::WindowRecStart(m) => m.lemma_tag(),
            NowSessionMessage::WindowRecStop(m) => m.lemma_tag(),
            NowSessionMessage::WindowRecEvent(m) => m.lemma_tag(),
        }
    }

    /// The whole frame: header, then body.
    pub fn encode(&self) -> (r: Result<Vec<u8>, PduError>)
        ensures
            r is Ok <==> frame_fits(self@),
            r matches Ok(b) ==> b@ == frame_bytes(self@),
            self.wire_ok(),
    {
        match self {
            NowSessionMessage::Lock(m) => m.encode(),
            NowSessionMessage::Logoff(m) => m.encode(),
            NowSessionMessage::MsgBoxReq(m) => m.encode(),
            NowSessionMessage::MsgBoxRsp(m) => m.encode(),
            NowSessionMessage::SetKbdLayout(m) => m.encode(),
            NowSessionMessage::WindowRecStart(m) => m.encode(),
            NowSessionMessage::WindowRecStop(m) => m.encode(),
            NowSessionMessage::WindowRecEvent(m) => m.encode(),
        }
    }

    /// Number of bytes [`Self::encode`] writes.
    pub fn size(&self) -> (r: Result<usize, PduError>)
        ensures
            r is Ok <==> frame_fits(self@) && frame_bytes(self@).len() <= usize::MAX,
            r matches Ok(n) ==> n == frame_bytes(self@).len(),
    {
        match self {
            NowSessionMessage::Lock(m) => m.size(),
            NowSessionMessage::Logoff(m) => m.size(),
            NowSessionMessage::MsgBoxReq(m) => m.size(),
            NowSessionMessage::MsgBoxRsp(m) => m.size(),
            NowSessionMessage::SetKbdLayout(m) => m.size(),
            NowSessionMessage::WindowRecStart(m) => m.size(),
            NowSessionMessage::WindowRecStop(m) => m.size(),
            NowSessionMessage::WindowRecEvent(m) => m.size(),
        }
    }

    /// Decodes the body of a message of this class whose header is `header`: the
    /// kind selects the message; an unknown kind fails with `UnsupportedMessage`.
    pub fn decode_from_body(header: NowHeader, body: &[u8]) -> (r: Result<Self, PduError>)
        requires
            header.class == CLASS_SESSION,
        ensures
            forall|m0: Self|
                m0.wire_ok() && m0@.kind == header.kind && m0@.flags == header.flags && is_prefix(
                    #[trigger] fields_bytes(m0@.fields),
                    body@,
                ) ==> (r matches Ok(m) && m@ == m0@),
            !known_message(header.class, header.kind) ==> r == Err::<Self, PduError>(
                PduError::UnsupportedMessage { class: header.class, kind: header.kind },
            ),
            r matches Ok(m) ==> m@.class == header.class && m@.kind == header.kind,
    {
        proof {
            assert forall|m0: Self|
                m0.wire_ok() && m0@.kind == header.kind && m0@.flags == header.flags && is_prefix(
                    #[trigger] fields_bytes(m0@.fields),
                    body@,
                ) implies m0.tag_matches() by {
                m0.lemma_tag();
            }
        }

        if header.kind == NowSessionMessageKind::LOCK {
            let m = NowSessionLockMsg::decode_from_body(header.flags, body)?;
            proof {
                m.lemma_tag();
            }
            return Ok(NowSessionMessage::Lock(m));
        }
        else if header.kind == NowSessionMessageKind::LOGOFF {
            let m = NowSessionLogoffMsg::decode_from_body(header.flags, body)?;
            proof {
                m.lemma_tag();
            }
            return Ok(NowSessionMessage::Logoff(m));
        }
        else if header.kind == NowSessionMessageKind::MSGBOX_REQ {
            let m = NowSessionMsgBoxReqMsg::decode_from_body(header.flags, body)?;
            proof {
                m.lemma_tag();
            }
            return Ok(NowSessionMessage::MsgBoxReq(m));
        }
        else if header.kind == NowSessionMessageKind::MSGBOX_RSP {
            let m = NowSessionMsgBoxRspMsg::decode_from_body(header.flags, body)?;
            proof {
                m.lemma_tag();
            }
            return Ok(NowSessionMessage::MsgBoxRsp(m));
        }
        else if header.kind == NowSessionMessageKind::SET_KBD_LAYOUT {
            let m = NowSessionSetKbdLayoutMsg::decode_from_body(header.flags, body)?;
            proof {
                m.lemma_tag();
            }
            return Ok(NowSessionMessage::SetKbdLayout(m));
        }
        else if header.kind == NowSessionMessageKind::WINDOW_REC_START {
            let m = NowSessionWindowRecStartMsg::decode_from_body(header.flags, body)?;
            proof {
                m.lemma_tag();
            }
            return Ok(NowSessionMessage::WindowRecStart(m));
        }
        else if header.kind == NowSessionMessageKind::WINDOW_REC_STOP {
            let m = NowSessionWindowRecStopMsg::decode_from_body(header.flags, body)?;
            proof {
                m.lemma_tag();
            }
            return Ok(NowSessionMessage::WindowRecStop(m));
        }
        else if header.kind == NowSessionMessageKind::WINDOW_REC_EVENT {
            let m = NowSessionWindowRecEventMsg::decode_from_body(header.flags, body)?;
            proof {
                m.lemma_tag();
            }
            return Ok(NowSessionMessage::WindowRecEvent(m));
        }
        Err(PduError::UnsupportedMessage { class: header.class, kind: header.kind })
    }
}

/// A message of the exec class.
#[derive(Debug)]
pub enum NowExecMessage {
    Abort(NowExecAbortMsg),
    CancelReq(NowExecCancelReqMsg),
    CancelRsp(NowExecCancelRspMsg),
    Result(NowExecResultMsg),
    Data(NowExecDataMsg),
    Started(NowExecStartedMsg),
    Run(NowExecRunMsg),
    Process(NowExecProcessMsg),
    Shell(NowExecShellMsg),
    Batch(NowExecBatchMsg),
    WinPs(NowExecWinPsMsg),
    Pwsh(NowExecPwshMsg),
}

impl View for NowExecMessage {
    type V = WireView;

    open spec fn view(&self) -> WireView {
        match self {
            NowExecMessage::Abort(m) => m@,
            NowExecMessage::CancelReq(m) => m@,
            NowExecMessage::CancelRsp(m) => m@,
            NowExecMessage::Result(m) => m@,
            NowExecMessage::Data(m) => m@,
            NowExecMessage::Started(m) => m@,
            NowExecMessage::Run(m) => m@,
            NowExecMessage::Process(m) => m@,
            NowExecMessage::Shell(m) => m@,
            NowExecMessage::Batch(m) => m@,
            NowExecMessage::WinPs(m) => m@,
            NowExecMessage::Pwsh(m) => m@,
        }
    }
}

impl NowExecMessage {
    /// The body fields follow the message's layout, and its header flags are ones
    /// its decoder accepts.
    pub open spec fn wire_ok(&self) -> bool {
        match self {
            NowExecMessage::Abort(m) => fields_shape(NowExecAbortMsg::body_layout(), m@.fields),
            NowExecMessage::CancelReq(m) => fields_shape(NowExecCancelReqMsg::body_layout(), m@.fields),
            NowExecMessage::CancelRsp(m) => fields_shape(NowExecCancelRspMsg::body_layout(), m@.fields),
            NowExecMessage::Result(m) => fields_shape(NowExecResultMsg::body_layout(), m@.fields),
            NowExecMessage::Data(m) => fields_shape(NowExecDataMsg::body_layout(), m@.fields),
            NowExecMessage::Started(m) => fields_shape(NowExecStartedMsg::body_layout(), m@.fields),
            NowExecMessage::Run(m) => fields_shape(NowExecRunMsg::body_layout(), m@.fields),
            NowExecMessage::Process(m) => fields_shape(NowExecProcessMsg::body_layout(), m@.fields),
            NowExecMessage::Shell(m) => fields_shape(NowExecShellMsg::body_layout(), m@.fields),
            NowExecMessage::Batch(m) => fields_shape(NowExecBatchMsg::body_layout(), m@.fields),
            NowExecMessage::WinPs(m) => fields_shape(NowExecWinPsMsg::body_layout(), m@.fields),
            NowExecMessage::Pwsh(m) => fields_shape(NowExecPwshMsg::body_layout(), m@.fields),
        }
    }

    /// Each variant has its own class and kind.
    pub open spec fn tag_matches(&self) -> bool {
        match self {
            NowExecMessage::Abort(m) => m@.class == CLASS_EXEC && m@.kind == NowExecMsgKind::ABORT,
            NowExecMessage::CancelReq(m) => m@.class == CLASS_EXEC && m@.kind == NowExecMsgKind::CANCEL_REQ,
            NowExecMessage::CancelRsp(m) => m@.class == CLASS_EXEC && m@.kind == NowExecMsgKind::CANCEL_RSP,
            NowExecMessage::Result(m) => m@.class == CLASS_EXEC && m@.kind == NowExecMsgKind::RESULT,
            NowExecMessage::Data(m) => m@.class == CLASS_EXEC && m@.kind == NowExecMsgKind::DATA,
            NowExecMessage::Started(m) => m@.class == CLASS_EXEC && m@.kind == NowExecMsgKind::STARTED,
            NowExecMessage::Run(m) => m@.class == CLASS_EXEC && m@.kind == NowExecMsgKind::RUN,
            NowExecMessage::Process(m) => m@.class == CLASS_EXEC && m@.kind == NowExecMsgKind::PROCESS,
            NowExecMessage::Shell(m) => m@.class == CLASS_EXEC && m@.kind == NowExecMsgKind::SHELL,
            NowExecMessage::Batch(m) => m@.class == CLASS_EXEC && m@.kind == NowExecMsgKind::BATCH,
            NowExecMessage::WinPs(m) => m@.class == CLASS_EXEC && m@.kind == NowExecMsgKind::WINPS,
            NowExecMessage::Pwsh(m) => m@.class == CLASS_EXEC && m@.kind == NowExecMsgKind::PWSH,
        }
    }

    pub proof fn lemma_tag(&self)
        ensures
            self.tag_matches(),
    {
        match self {
            NowExecMessage::Abort(m) => m.lemma_tag(),
            NowExecMessage::CancelReq(m) => m.lemma_tag(),
            NowExecMessage::CancelRsp(m) => m.lemma_tag(),
            NowExecMessage::Result(m) => m.lemma_tag(),
            NowExecMessage::Data(m) => m.lemma_tag(),
            NowExecMessage::Started(m) => m.lemma_tag(),
            NowExecMessage::Run(m) => m.lemma_tag(),
            NowExecMessage::Process(m) => m.lemma_tag(),
            NowExecMessage::Shell(m) => m.lemma_tag(),
            NowExecMessage::Batch(m) => m.lemma_tag(),
            NowExecMessage::WinPs(m) => m.lemma_tag(),
            NowExecMessage::Pwsh(m) => m.lemma_tag(),
        }
    }

    /// The whole frame: header, then body.
    pub fn encode(&self) -> (r: Result<Vec<u8>, PduError>)
        ensures
            r is Ok <==> frame_fits(self@),
            r matches Ok(b) ==> b@ == frame_bytes(self@),
            self.wire_ok(),
    {
        match self {
            NowExecMessage::Abort(m) => m.encode(),
            NowExecMessage::CancelReq(m) => m.encode(),
            NowExecMessage::CancelRsp(m) => m.encode(),
            NowExecMessage::Result(m) => m.encode(),
            NowExecMessage::Data(m) => m.encode(),
            NowExecMessage::Started(m) => m.encode(),
            NowExecMessage::Run(m) => m.encode(),
            NowExecMessage::Process(m) => m.encode(),
            NowExecMessage::Shell(m) => m.encode(),
            NowExecMessage::Batch(m) => m.encode(),
            NowExecMessage::WinPs(m) => m.encode(),
            NowExecMessage::Pwsh(m) => m.encode(),
        }
    }

    /// Number of bytes [`Self::encode`] writes.
    pub fn size(&self) -> (r: Result<usize, PduError>)
        ensures
            r is Ok <==> frame_fits(self@) && frame_bytes(self@).len() <= usize::MAX,
            r matches Ok(n) ==> n == frame_bytes(self@).len(),
    {
        match self {
            NowExecMessage::Abort(m) => m.size(),
            NowExecMessage::CancelReq(m) => m.size(),
            NowExecMessage::CancelRsp(m) => m.size(),
            NowExecMessage::Result(m) => m.size(),
            NowExecMessage::Data(m) => m.size(),
            NowExecMessage::Started(m) => m.size(),
            NowExecMessage::Run(m) => m.size(),
            NowExecMessage::Process(m) => m.size(),
            NowExecMessage::Shell(m) => m.size(),
            NowExecMessage::Batch(m) => m.size(),
            NowExecMessage::WinPs(m) => m.size(),
            NowExecMessage::Pwsh(m) => m.size(),
        }
    }

    /// Decodes the body of a message of this class whose header is `header`: the
    /// kind selects the message; an unknown kind fails with `UnsupportedMessage`.
    pub fn decode_from_body(header: NowHeader, body: &[u8]) -> (r: Result<Self, PduError>)
        requires
            header.class == CLASS_EXEC,
        ensures
            forall|m0: Self|
                m0.wire_ok() && m0@.kind == header.kind && m0@.flags == header.flags && is_prefix(
                    #[trigger] fields_bytes(m0@.fields),
                    body@,
                ) ==> (r matches Ok(m) && m@ == m0@),
            !known_message(header.class, header.kind) ==> r == Err::<Self, PduError>(
                PduError::UnsupportedMessage { class: header.class, kind: header.kind },
            ),
            r matches Ok(m) ==> m@.class == header.class && m@.kind == header.kind,
    {
        proof {
            assert forall|m0: Self|
                m0.wire_ok() && m0@.kind == header.kind && m0@.flags == header.flags && is_prefix(
                    #[trigger] fields_bytes(m0@.fields),
                    body@,
                ) implies m0.tag_matches() by {
                m0.lemma_tag();
            }
        }

        if header.kind == NowExecMsgKind::ABORT {
            let m = NowExecAbortMsg::decode_from_body(header.flags, body)?;
            proof {
                m.lemma_tag();
            }
            return Ok(NowExecMessage::Abort(m));
        }
        else if header.kind == NowExecMsgKind::CANCEL_REQ {
            let m = NowExecCancelReqMsg::decode_from_body(header.flags, body)?;
            proof {
                m.lemma_tag();
            }
            return Ok(NowExecMessage::CancelReq(m));
        }
        else if header.kind == NowExecMsgKind::CANCEL_RSP {
            let m = NowExecCancelRspMsg::decode_from_body(header.flags, body)?;
            proof {
                m.lemma_tag();
            }
            return Ok(NowExecMessage::CancelRsp(m));
        }
        else if header.kind == NowExecMsgKind::RESULT {
            let m = NowExecResultMsg::decode_from_body(header.flags, body)?;
            proof {
                m.lemma_tag();
            }
            return Ok(NowExecMessage::Result(m));
        }
        else if header.kind == NowExecMsgKind::DATA {
            let m = NowExecDataMsg::decode_from_body(header.flags, body)?;
            proof {
                m.lemma_tag();
            }
            return Ok(NowExecMessage::Data(m));
        }
        else if header.kind == NowExecMsgKind::STARTED {
            let m = NowExecStartedMsg::decode_from_body(header.flags, body)?;
            proof {
                m.lemma_tag();
            }
            return Ok(NowExecMessage::Started(m));
        }
        else if header.kind == NowExecMsgKind::RUN {
            let m = NowExecRunMsg::decode_from_body(header.flags, body)?;
            proof {
                m.lemma_tag();
            }
            return Ok(NowExecMessage::Run(m));
        }
        else if header.kind == NowExecMsgKind::PROCESS {
            let m = NowExecProcessMsg::decode_from_body(header.flags, body)?;
            proof {
                m.lemma_tag();
            }
            return Ok(NowExecMessage::Process(m));
        }
        else if header.kind == NowExecMsgKind::SHELL {
            let m = NowExecShellMsg::decode_from_body(header.flags, body)?;
            proof {
                m.lemma_tag();
            }
            return Ok(NowExecMessage::Shell(m));
        }
        else if header.kind == NowExecMsgKind::BATCH {
            let m = NowExecBatchMsg::decode_from_body(header.flags, body)?;
            proof {
                m.lemma_tag();
            }
            return Ok(NowExecMessage::Batch(m));
        }
        else if header.kind == NowExecMsgKind::WINPS {
            let m = NowExecWinPsMsg::decode_from_body(header.flags, body)?;
            proof {
                m.lemma_tag();
            }
            return Ok(NowExecMessage::WinPs(m));
        }
        else if header.kind == NowExecMsgKind::PWSH {
            let m = NowExecPwshMsg::decode_from_body(header.flags, body)?;
            proof {
                m.lemma_tag();
            }
            return Ok(NowExecMessage::Pwsh(m));
        }
        Err(PduError::UnsupportedMessage { class: header.class, kind: header.kind })
    }
}

/// A message of the rdm class.
#[derive(Debug)]
pub enum NowRdmMessage {
    Capabilities(NowRdmCapabilitiesMsg),
    AppStart(NowRdmAppStartMsg),
    AppAction(NowRdmAppActionMsg),
    AppNotify(NowRdmAppNotifyMsg),
    SessionStart(NowRdmSessionStartMsg),
    SessionAction(NowRdmSessionActionMsg),
    SessionNotify(NowRdmSessionNotifyMsg),
}

impl View for NowRdmMessage {
    type V = WireView;

    open spec fn view(&self) -> WireView {
        match self {
            NowRdmMessage::Capabilities(m) => m@,
            NowRdmMessage::AppStart(m) => m@,
            NowRdmMessage::AppAction(m) => m@,
            NowRdmMessage::AppNotify(m) => m@,
            NowRdmMessage::SessionStart(m) => m@,
            NowRdmMessage::SessionAction(m) => m@,
            NowRdmMessage::SessionNotify(m) => m@,
        }
    }
}

impl NowRdmMessage {
    /// The body fields follow the message's layout, and its header flags are ones
    /// its decoder accepts.
    pub open spec fn wire_ok(&self) -> bool {
        match self {
            NowRdmMessage::Capabilities(m) => fields_shape(NowRdmCapabilitiesMsg::body_layout(), m@.fields),
            NowRdmMessage::AppStart(m) => fields_shape(NowRdmAppStartMsg::body_layout(), m@.fields),
            NowRdmMessage::AppAction(m) => fields_shape(NowRdmAppActionMsg::body_layout(), m@.fields),
            NowRdmMessage::AppNotify(m) => fields_shape(NowRdmAppNotifyMsg::body_layout(), m@.fields),
            NowRdmMessage::SessionStart(m) => fields_shape(NowRdmSessionStartMsg::body_layout(), m@.fields),
            NowRdmMessage::SessionAction(m) => fields_shape(NowRdmSessionActionMsg::body_layout(), m@.fields),
            NowRdmMessage::SessionNotify(m) => fields_shape(NowRdmSessionNotifyMsg::body_layout(), m@.fields),
        }
    }

    /// Each variant has its own class and kind.
    pub open spec fn tag_matches(&self) -> bool {
        match self {
            NowRdmMessage::Capabilities(m) => m@.class == CLASS_RDM && m@.kind == NowRdmMsgKind::CAPABILITIES,
            NowRdmMessage::AppStart(m) => m@.class == CLASS_RDM && m@.kind == NowRdmMsgKind::APP_START,
            NowRdmMessage::AppAction(m) => m@.class == CLASS_RDM && m@.kind == NowRdmMsgKind::APP_ACTION,
            NowRdmMessage::AppNotify(m) => m@.class == CLASS_RDM && m@.kind == NowRdmMsgKind::APP_NOTIFY,
            NowRdmMessage::SessionStart(m) => m@.class == CLASS_RDM
                && m@.kind == NowRdmMsgKind::SESSION_START,
            NowRdmMessage::SessionAction(m) => m@.class == CLASS_RDM
                && m@.kind == NowRdmMsgKind::SESSION_ACTION,
            NowRdmMessage::SessionNotify(m) => m@.class == CLASS_RDM
                && m@.kind == NowRdmMsgKind::SESSION_NOTIFY,
        }
    }

    pub proof fn lemma_tag(&self)
        ensures
            self.tag_matches(),
    {
        match self {
            NowRdmMessage::Capabilities(m) => m.lemma_tag(),
            NowRdmMessage::AppStart(m) => m.lemma_tag(),
            NowRdmMessage::AppAction(m) => m.lemma_tag(),
            NowRdmMessage::AppNotify(m) => m.lemma_tag(),
            NowRdmMessage::SessionStart(m) => m.lemma_tag(),
            NowRdmMessage::SessionAction(m) => m.lemma_tag(),
            NowRdmMessage::SessionNotify(m) => m.lemma_tag(),
        }
    }

    /// The whole frame: header, then body.
    pub fn encode(&self) -> (r: Result<Vec<u8>, PduError>)
        ensures
            r is Ok <==> frame_fits(self@),
            r matches Ok(b) ==> b@ == frame_bytes(self@),
            self.wire_ok(),
    {
        match self {
            NowRdmMessage::Capabilities(m) => m.encode(),
            NowRdmMessage::AppStart(m) => m.encode(),
            NowRdmMessage::AppAction(m) => m.encode(),
            NowRdmMessage::AppNotify(m) => m.encode(),
            NowRdmMessage::SessionStart(m) => m.encode(),
            NowRdmMessage::SessionAction(m) => m.encode(),
            NowRdmMessage::SessionNotify(m) => m.encode(),
        }
    }

    /// Number of bytes [`Self::encode`] writes.
    pub fn size(&self) -> (r: Result<usize, PduError>)
        ensures
            r is Ok <==> frame_fits(self@) && frame_bytes(self@).len() <= usize::MAX,
            r matches Ok(n) ==> n == frame_bytes(self@).len(),
    {
        match self {
            NowRdmMessage::Capabilities(m) => m.size(),
            NowRdmMessage::AppStart(m) => m.size(),
            NowRdmMessage::AppAction(m) => m.size(),
            NowRdmMessage::AppNotify(m) => m.size(),
            NowRdmMessage::SessionStart(m) => m.size(),
            NowRdmMessage::SessionAction(m) => m.size(),
            NowRdmMessage::SessionNotify(m) => m.size(),
        }
    }

    /// Decodes the body of a message of this class whose header is `header`: the
    /// kind selects the message; an unknown kind fails with `UnsupportedMessage`.
    pub fn decode_from_body(header: NowHeader, body: &[u8]) -> (r: Result<Self, PduError>)
        requires
            header.class == CLASS_RDM,
        ensures
            forall|m0: Self|
                m0.wire_ok() && m0@.kind == header.kind && m0@.flags == header.flags && is_prefix(
                    #[trigger] fields_bytes(m0@.fields),
                    body@,
                ) ==> (r matches Ok(m) && m@ == m0@),
            !known_message(header.class, header.kind) ==> r == Err::<Self, PduError>(
                PduError::UnsupportedMessage { class: header.class, kind: header.kind },
            ),
            r matches Ok(m) ==> m@.class == header.class && m@.kind == header.kind,
    {
        proof {
            assert forall|m0: Self|
                m0.wire_ok() && m0@.kind == header.kind && m0@.flags == header.flags && is_prefix(
                    #[trigger] fields_bytes(m0@.fields),
                    body@,
                ) implies m0.tag_matches() by {
                m0.lemma_tag();
            }
        }

        if header.kind == NowRdmMsgKind::CAPABILITIES {
            let m = NowRdmCapabilitiesMsg::decode_from_body(header.flags, body)?;
            proof {
                m.lemma_tag();
            }
            return Ok(NowRdmMessage::Capabilities(m));
        }
        else if header.kind == NowRdmMsgKind::APP_START {
            let m = NowRdmAppStartMsg::decode_from_body(header.flags, body)?;
            proof {
                m.lemma_tag();
            }
            return Ok(NowRdmMessage::AppStart(m));
        }
        else if header.kind == NowRdmMsgKind::APP_ACTION {
            let m = NowRdmAppActionMsg::decode_from_body(header.flags, body)?;
            proof {
                m.lemma_tag();
            }
            return Ok(NowRdmMessage::AppAction(m));
        }
        else if header.kind == NowRdmMsgKind::APP_NOTIFY {
            let m = NowRdmAppNotifyMsg::decode_from_body(header.flags, body)?;
            proof {
                m.lemma_tag();
            }
            return Ok(NowRdmMessage::AppNotify(m));
        }
        else if header.kind == NowRdmMsgKind::SESSION_START {
            let m = NowRdmSessionStartMsg::decode_from_body(header.flags, body)?;
            proof {
                m.lemma_tag();
            }
            return Ok(NowRdmMessage::SessionStart(m));
        }
        else if header.kind == NowRdmMsgKind::SESSION_ACTION {
            let m = NowRdmSessionActionMsg::decode_from_body(header.flags, body)?;
            proof {
                m.lemma_tag();
            }
            return Ok(NowRdmMessage::SessionAction(m));
        }
        else if header.kind == NowRdmMsgKind::SESSION_NOTIFY {
            let m = NowRdmSessionNotifyMsg::decode_from_body(header.flags, body)?;
            proof {
                m.lemma_tag();
            }
            return Ok(NowRdmMessage::SessionNotify(m));
        }
        Err(PduError::UnsupportedMessage { class: header.class, kind: header.kind })
    }
}

/// Any message of the protocol.
#[derive(Debug)]
pub enum NowMessage {
    Channel(NowChannelMessage),
    System(NowSystemMessage),
    Session(NowSessionMessage),
    Exec(NowExecMessage),
    Rdm(NowRdmMessage),
}

impl View for NowMessage {
    type V = WireView;

    open spec fn view(&self) -> WireView {
        match self {
            NowMessage::Channel(m) => m@,
            NowMessage::System(m) => m@,
            NowMessage::Session(m) => m@,
            NowMessage::Exec(m) => m@,
            NowMessage::Rdm(m) => m@,
        }
    }
}

/// The (class, kind) pairs this library knows.
pub open spec fn known_message(class: u8, kind: u8) -> bool {
    ||| (class == CLASS_CHANNEL && (kind == NowChannelMsgKind::CAPSET || kind == NowChannelMsgKind::HEARTBEAT || kind == NowChannelMsgKind::CLOSE))
    ||| (class == CLASS_SYSTEM && (kind == NowSystemMessageKind::SHUTDOWN))
    ||| (class == CLASS_SESSION && (kind == NowSessionMessageKind::LOCK || kind == NowSessionMessageKind::LOGOFF || kind == NowSessionMessageKind::MSGBOX_REQ || kind == NowSessionMessageKind::MSGBOX_RSP || kind == NowSessionMessageKind::SET_KBD_LAYOUT || kind == NowSessionMessageKind::WINDOW_REC_START || kind == NowSessionMessageKind::WINDOW_REC_STOP || kind == NowSessionMessageKind::WINDOW_REC_EVENT))
    ||| (class == CLASS_EXEC && (kind == NowExecMsgKind::ABORT || kind == NowExecMsgKind::CANCEL_REQ || kind == NowExecMsgKind::CANCEL_RSP || kind == NowExecMsgKind::RESULT || kind == NowExecMsgKind::DATA || kind == NowExecMsgKind::STARTED || kind == NowExecMsgKind::RUN || kind == NowExecMsgKind::PROCESS || kind == NowExecMsgKind::SHELL || kind == NowExecMsgKind::BATCH || kind == NowExecMsgKind::WINPS || kind == NowExecMsgKind::PWSH))
    ||| (class == CLASS_RDM && (kind == NowRdmMsgKind::CAPABILITIES || kind == NowRdmMsgKind::APP_START || kind == NowRdmMsgKind::APP_ACTION || kind == NowRdmMsgKind::APP_NOTIFY || kind == NowRdmMsgKind::SESSION_START || kind == NowRdmMsgKind::SESSION_ACTION || kind == NowRdmMsgKind::SESSION_NOTIFY))
}

impl NowMessage {
    /// The body fields follow the message's layout, and its header flags are ones
    /// its decoder accepts.
    pub open spec fn wire_ok(&self) -> bool {
        match self {
            NowMessage::Channel(m) => m.wire_ok(),
            NowMessage::System(m) => m.wire_ok(),
            NowMessage::Session(m) => m.wire_ok(),
            NowMessage::Exec(m) => m.wire_ok(),
            NowMessage::Rdm(m) => m.wire_ok(),
        }
    }

    /// Each variant has its own class and kind.
    pub open spec fn tag_matches(&self) -> bool {
        match self {
            NowMessage::Channel(m) => m.tag_matches(),
            NowMessage::System(m) => m.tag_matches(),
            NowMessage::Session(m) => m.tag_matches(),
            NowMessage::Exec(m) => m.tag_matches(),
            NowMessage::Rdm(m) => m.tag_matches(),
        }
    }

    pub proof fn lemma_tag(&self)
        ensures
            self.tag_matches(),
    {
        match self {
            NowMessage::Channel(m) => m.lemma_tag(),
            NowMessage::System(m) => m.lemma_tag(),
            NowMessage::Session(m) => m.lemma_tag(),
            NowMessage::Exec(m) => m.lemma_tag(),
            NowMessage::Rdm(m) => m.lemma_tag(),
        }
    }

    /// The whole frame: header, then body. A message this library built or
    /// decoded is well formed, so decoding the frame gives it back (see
    /// [`Self::decode`]).
    pub fn encode(&self) -> (r: Result<Vec<u8>, PduError>)
        ensures
            r is Ok <==> frame_fits(self@),
            r matches Ok(b) ==> b@ == frame_bytes(self@),
            self.wire_ok(),
    {
        match self {
            NowMessage::Channel(m) => m.encode(),
            NowMessage::System(m) => m.encode(),
            NowMessage::Session(m) => m.encode(),
            NowMessage::Exec(m) => m.encode(),
            NowMessage::Rdm(m) => m.encode(),
        }
    }

    /// Number of bytes [`Self::encode`] writes.
    pub fn size(&self) -> (r: Result<usize, PduError>)
        ensures
            r is Ok <==> frame_fits(self@) && frame_bytes(self@).len() <= usize::MAX,
            r matches Ok(n) ==> n == frame_bytes(self@).len(),
    {
        match self {
            NowMessage::Channel(m) => m.size(),
            NowMessage::System(m) => m.size(),
            NowMessage::Session(m) => m.size(),
            NowMessage::Exec(m) => m.size(),
            NowMessage::Rdm(m) => m.size(),
        }
    }

    /// Decodes the body of a message whose header is `header`: the class selects
    /// the family and the kind the message; an unknown pair fails with
    /// `UnsupportedMessage` carrying both values. Body bytes after the fields the
    /// message knows are ignored.
    pub fn decode_from_body(header: NowHeader, body: &[u8]) -> (r: Result<NowMessage, PduError>)
        ensures
            forall|m0: NowMessage|
                m0.wire_ok()
                    && m0@.class == header.class
                    && m0@.kind == header.kind
                    && m0@.flags == header.flags
                    && is_prefix(#[trigger] fields_bytes(m0@.fields), body@) ==> (r matches Ok(m) && m@ == m0@),
            !known_message(header.class, header.kind) ==> r == Err::<NowMessage, PduError>(
                PduError::UnsupportedMessage { class: header.class, kind: header.kind },
            ),
            r matches Ok(m) ==> m@.class == header.class && m@.kind == header.kind,
    {
        proof {
            assert forall|m0: NowMessage|
                m0.wire_ok()
                    && m0@.class == header.class
                    && m0@.kind == header.kind
                    && m0@.flags == header.flags
                    && is_prefix(#[trigger] fields_bytes(m0@.fields), body@) implies m0.tag_matches() by {
                m0.lemma_tag();
            }
        }

        if header.class == CLASS_CHANNEL {
            let m = NowChannelMessage::decode_from_body(header, body)?;
            return Ok(NowMessage::Channel(m));
        }
        else if header.class == CLASS_SYSTEM {
            let m = NowSystemMessage::decode_from_body(header, body)?;
            return Ok(NowMessage::System(m));
        }
        else if header.class == CLASS_SESSION {
            let m = NowSessionMessage::decode_from_body(header, body)?;
            return Ok(NowMessage::Session(m));
        }
        else if header.class == CLASS_EXEC {
            let m = NowExecMessage::decode_from_body(header, body)?;
            return Ok(NowMessage::Exec(m));
        }
        else if header.class == CLASS_RDM {
            let m = NowRdmMessage::decode_from_body(header, body)?;
            return Ok(NowMessage::Rdm(m));
        }
        Err(PduError::UnsupportedMessage { class: header.class, kind: header.kind })
    }

    /// Decodes the frame at the start of `buf`.
    ///
    /// The header is read first; the body is then read from exactly the `size`
    /// bytes it announces, so a message never reads into the next one, and body
    /// bytes after the fields the message knows are ignored.
    pub fn decode(buf: &[u8]) -> (r: Result<NowMessage, PduError>)
        ensures
            forall|m0: NowMessage, body: Seq<u8>|
                m0.wire_ok()
                    && body_extends(m0@, body)
                    && is_prefix(#[trigger] framed(m0@, body), buf@) ==> (r matches Ok(
                    m,
                ) && m@ == m0@),
            buf.len() < 8 ==> r matches Err(PduError::NotEnoughBytes { .. }),
            buf.len() >= 8 && !known_message(buf@[4], buf@[5]) ==> r is Err,
            forall|h: NowHeader|
                is_prefix(#[trigger] header_bytes(h), buf@)
                    && 8 + h.size <= buf.len()
                    && !known_message(h.class, h.kind)
                    ==> r == Err::<NowMessage, PduError>(PduError::UnsupportedMessage { class: h.class, kind: h.kind }),
            r matches Ok(m) ==> m@.class == buf@[4] && m@.kind == buf@[5],
    {
        let (h, body) = match split_frame(buf) {
            Ok(x) => x,
            Err(e) => {
                proof {
                    assert forall|m0: NowMessage, b: Seq<u8>|
                        m0.wire_ok()
                            && body_extends(m0@, b)
                            && is_prefix(#[trigger] framed(m0@, b), buf@) implies false by {
                        lemma_framed_prefix(m0@, b, buf@);
                    }
                }
                return Err(e);
            },
        };
        proof {
            assert(buf@[4] == buf@.subrange(0, 8)[4]);
            assert(buf@[5] == buf@.subrange(0, 8)[5]);
            assert forall|m0: NowMessage, b: Seq<u8>|
                m0.wire_ok()
                    && body_extends(m0@, b)
                    && is_prefix(#[trigger] framed(m0@, b), buf@) implies m0@.class
                == h.class && m0@.kind == h.kind && m0@.flags == h.flags && body@ == b by {
                lemma_framed_prefix(m0@, b, buf@);
                lemma_header_bytes_injective(h, framed_header(m0@, b.len()));
                assert(body@ =~= b);
            }
        }
        Self::decode_from_body(h, body)
    }
}



impl From<NowChannelCapsetMsg> for NowMessage {
    fn from(m: NowChannelCapsetMsg) -> (r: NowMessage) {
        NowMessage::Channel(NowChannelMessage::Capset(m))
    }
}

impl vstd::std_specs::convert::FromSpecImpl<NowChannelCapsetMsg> for NowMessage {
    open spec fn obeys_from_spec() -> bool {
        true
    }

    open spec fn from_spec(m: NowChannelCapsetMsg) -> NowMessage {
        NowMessage::Channel(NowChannelMessage::Capset(m))
    }
}

impl From<NowChannelHeartbeatMsg> for NowMessage {
    fn from(m: NowChannelHeartbeatMsg) -> (r: NowMessage) {
        NowMessage::Channel(NowChannelMessage::Heartbeat(m))
    }
}

impl vstd::std_specs::convert::FromSpecImpl<NowChannelHeartbeatMsg> for NowMessage {
    open spec fn obeys_from_spec() -> bool {
        true
    }

    open spec fn from_spec(m: NowChannelHeartbeatMsg) -> NowMessage {
        NowMessage::Channel(NowChannelMessage::Heartbeat(m))
    }
}

impl From<NowChannelCloseMsg> for NowMessage {
    fn from(m: NowChannelCloseMsg) -> (r: NowMessage) {
        NowMessage::Channel(NowChannelMessage::Close(m))
    }
}

impl vstd::std_specs::convert::FromSpecImpl<NowChannelCloseMsg> for NowMessage {
    open spec fn obeys_from_spec() -> bool {
        true
    }

    open spec fn from_spec(m: NowChannelCloseMsg) -> NowMessage {
        NowMessage::Channel(NowChannelMessage::Close(m))
    }
}

impl From<NowSystemShutdownMsg> for NowMessage {
    fn from(m: NowSystemShutdownMsg) -> (r: NowMessage) {
        NowMessage::System(NowSystemMessage::Shutdown(m))
    }
}

impl vstd::std_specs::convert::FromSpecImpl<NowSystemShutdownMsg> for NowMessage {
    open spec fn obeys_from_spec() -> bool {
        true
    }

    open spec fn from_spec(m: NowSystemShutdownMsg) -> NowMessage {
        NowMessage::System(NowSystemMessage::Shutdown(m))
    }
}

impl From<NowSessionLockMsg> for NowMessage {
    fn from(m: NowSessionLockMsg) -> (r: NowMessage) {
        NowMessage::Session(NowSessionMessage::Lock(m))
    }
}

impl vstd::std_specs::convert::FromSpecImpl<NowSessionLockMsg> for NowMessage {
    open spec fn obeys_from_spec() -> bool {
        true
    }

    open spec fn from_spec(m: NowSessionLockMsg) -> NowMessage {
        NowMessage::Session(NowSessionMessage::Lock(m))
    }
}

impl From<NowSessionLogoffMsg> for NowMessage {
    fn from(m: NowSessionLogoffMsg) -> (r: NowMessage) {
        NowMessage::Session(NowSessionMessage::Logoff(m))
    }
}

impl vstd::std_specs::convert::FromSpecImpl<NowSessionLogoffMsg> for NowMessage {
    open spec fn obeys_from_spec() -> bool {
        true
    }

    open spec fn from_spec(m: NowSessionLogoffMsg) -> NowMessage {
        NowMessage::Session(NowSessionMessage::Logoff(m))
    }
}

impl From<NowSessionMsgBoxReqMsg> for NowMessage {
    fn from(m: NowSessionMsgBoxReqMsg) -> (r: NowMessage) {
        NowMessage::Session(NowSessionMessage::MsgBoxReq(m))
    }
}

impl vstd::std_specs::convert::FromSpecImpl<NowSessionMsgBoxReqMsg> for NowMessage {
    open spec fn obeys_from_spec() -> bool {
        true
    }

    open spec fn from_spec(m: NowSessionMsgBoxReqMsg) -> NowMessage {
        NowMessage::Session(NowSessionMessage::MsgBoxReq(m))
    }
}

impl From<NowSessionMsgBoxRspMsg> for NowMessage {
    fn from(m: NowSessionMsgBoxRspMsg) -> (r: NowMessage) {
        NowMessage::Session(NowSessionMessage::MsgBoxRsp(m))
    }
}

impl vstd::std_specs::convert::FromSpecImpl<NowSessionMsgBoxRspMsg> for NowMessage {
    open spec fn obeys_from_spec() -> bool {
        true
    }

    open spec fn from_spec(m: NowSessionMsgBoxRspMsg) -> NowMessage {
        NowMessage::Session(NowSessionMessage::MsgBoxRsp(m))
    }
}

impl From<NowSessionSetKbdLayoutMsg> for NowMessage {
    fn from(m: NowSessionSetKbdLayoutMsg) -> (r: NowMessage) {
        NowMessage::Session(NowSessionMessage::SetKbdLayout(m))
    }
}

impl vstd::std_specs::convert::FromSpecImpl<NowSessionSetKbdLayoutMsg> for NowMessage {
    open spec fn obeys_from_spec() -> bool {
        true
    }

    open spec fn from_spec(m: NowSessionSetKbdLayoutMsg) -> NowMessage {
        NowMessage::Session(NowSessionMessage::SetKbdLayout(m))
    }
}

impl From<NowSessionWindowRecStartMsg> for NowMessage {
    fn from(m: NowSessionWindowRecStartMsg) -> (r: NowMessage) {
        NowMessage::Session(NowSessionMessage::WindowRecStart(m))
    }
}

impl vstd::std_specs::convert::FromSpecImpl<NowSessionWindowRecStartMsg> for NowMessage {
    open spec fn obeys_from_spec() -> bool {
        true
    }

    open spec fn from_spec(m: NowSessionWindowRecStartMsg) -> NowMessage {
        NowMessage::Session(NowSessionMessage::WindowRecStart(m))
    }
}

impl From<NowSessionWindowRecStopMsg> for NowMessage {
    fn from(m: NowSessionWindowRecStopMsg) -> (r: NowMessage) {
        NowMessage::Session(NowSessionMessage::WindowRecStop(m))
    }
}

impl vstd::std_specs::convert::FromSpecImpl<NowSessionWindowRecStopMsg> for NowMessage {
    open spec fn obeys_from_spec() -> bool {
        true
    }

    open spec fn from_spec(m: NowSessionWindowRecStopMsg) -> NowMessage {
        NowMessage::Session(NowSessionMessage::WindowRecStop(m))
    }
}

impl From<NowSessionWindowRecEventMsg> for NowMessage {
    fn from(m: NowSessionWindowRecEventMsg) -> (r: NowMessage) {
        NowMessage::Session(NowSessionMessage::WindowRecEvent(m))
    }
}

impl vstd::std_specs::convert::FromSpecImpl<NowSessionWindowRecEventMsg> for NowMessage {
    open spec fn obeys_from_spec() -> bool {
        true
    }

    open spec fn from_spec(m: NowSessionWindowRecEventMsg) -> NowMessage {
        NowMessage::Session(NowSessionMessage::WindowRecEvent(m))
    }
}

impl From<NowExecAbortMsg> for NowMessage {
    fn from(m: NowExecAbortMsg) -> (r: NowMessage) {
        NowMessage::Exec(NowExecMessage::Abort(m))
    }
}

impl vstd::std_specs::convert::FromSpecImpl<NowExecAbortMsg> for NowMessage {
    open spec fn obeys_from_spec() -> bool {
        true
    }

    open spec fn from_spec(m: NowExecAbortMsg) -> NowMessage {
        NowMessage::Exec(NowExecMessage::Abort(m))
    }
}

impl From<NowExecCancelReqMsg> for NowMessage {
    fn from(m: NowExecCancelReqMsg) -> (r: NowMessage) {
        NowMessage::Exec(NowExecMessage::CancelReq(m))
    }
}

impl vstd::std_specs::convert::FromSpecImpl<NowExecCancelReqMsg> for NowMessage {
    open spec fn obeys_from_spec() -> bool {
        true
    }

    open spec fn from_spec(m: NowExecCancelReqMsg) -> NowMessage {
        NowMessage::Exec(NowExecMessage::CancelReq(m))
    }
}

impl From<NowExecCancelRspMsg> for NowMessage {
    fn from(m: NowExecCancelRspMsg) -> (r: NowMessage) {
        NowMessage::Exec(NowExecMessage::CancelRsp(m))
    }
}

impl vstd::std_specs::convert::FromSpecImpl<NowExecCancelRspMsg> for NowMessage {
    open spec fn obeys_from_spec() -> bool {
        true
    }

    open spec fn from_spec(m: NowExecCancelRspMsg) -> NowMessage {
        NowMessage::Exec(NowExecMessage::CancelRsp(m))
    }
}

impl From<NowExecResultMsg> for NowMessage {
    fn from(m: NowExecResultMsg) -> (r: NowMessage) {
        NowMessage::Exec(NowExecMessage::Result(m))
    }
}

impl vstd::std_specs::convert::FromSpecImpl<NowExecResultMsg> for NowMessage {
    open spec fn obeys_from_spec() -> bool {
        true
    }

    open spec fn from_spec(m: NowExecResultMsg) -> NowMessage {
        NowMessage::Exec(NowExecMessage::Result(m))
    }
}

impl From<NowExecDataMsg> for NowMessage {
    fn from(m: NowExecDataMsg) -> (r: NowMessage) {
        NowMessage::Exec(NowExecMessage::Data(m))
    }
}

impl vstd::std_specs::convert::FromSpecImpl<NowExecDataMsg> for NowMessage {
    open spec fn obeys_from_spec() -> bool {
        true
    }

    open spec fn from_spec(m: NowExecDataMsg) -> NowMessage {
        NowMessage::Exec(NowExecMessage::Data(m))
    }
}

impl From<NowExecStartedMsg> for NowMessage {
    fn from(m: NowExecStartedMsg) -> (r: NowMessage) {
        NowMessage::Exec(NowExecMessage::Started(m))
    }
}

impl vstd::std_specs::convert::FromSpecImpl<NowExecStartedMsg> for NowMessage {
    open spec fn obeys_from_spec() -> bool {
        true
    }

    open spec fn from_spec(m: NowExecStartedMsg) -> NowMessage {
        NowMessage::Exec(NowExecMessage::Started(m))
    }
}

impl From<NowExecRunMsg> for NowMessage {
    fn from(m: NowExecRunMsg) -> (r: NowMessage) {
        NowMessage::Exec(NowExecMessage::Run(m))
    }
}

impl vstd::std_specs::convert::FromSpecImpl<NowExecRunMsg> for NowMessage {
    open spec fn obeys_from_spec() -> bool {
        true
    }

    open spec fn from_spec(m: NowExecRunMsg) -> NowMessage {
        NowMessage::Exec(NowExecMessage::Run(m))
    }
}

impl From<NowExecProcessMsg> for NowMessage {
    fn from(m: NowExecProcessMsg) -> (r: NowMessage) {
        NowMessage::Exec(NowExecMessage::Process(m))
    }
}

impl vstd::std_specs::convert::FromSpecImpl<NowExecProcessMsg> for NowMessage {
    open spec fn obeys_from_spec() -> bool {
        true
    }

    open spec fn from_spec(m: NowExecProcessMsg) -> NowMessage {
        NowMessage::Exec(NowExecMessage::Process(m))
    }
}

impl From<NowExecShellMsg> for NowMessage {
    fn from(m: NowExecShellMsg) -> (r: NowMessage) {
        NowMessage::Exec(NowExecMessage::Shell(m))
    }
}

impl vstd::std_specs::convert::FromSpecImpl<NowExecShellMsg> for NowMessage {
    open spec fn obeys_from_spec() -> bool {
        true
    }

    open spec fn from_spec(m: NowExecShellMsg) -> NowMessage {
        NowMessage::Exec(NowExecMessage::Shell(m))
    }
}

impl From<NowExecBatchMsg> for NowMessage {
    fn from(m: NowExecBatchMsg) -> (r: NowMessage) {
        NowMessage::Exec(NowExecMessage::Batch(m))
    }
}

impl vstd::std_specs::convert::FromSpecImpl<NowExecBatchMsg> for NowMessage {
    open spec fn obeys_from_spec() -> bool {
        true
    }

    open spec fn from_spec(m: NowExecBatchMsg) -> NowMessage {
        NowMessage::Exec(NowExecMessage::Batch(m))
    }
}

impl From<NowExecWinPsMsg> for NowMessage {
    fn from(m: NowExecWinPsMsg) -> (r: NowMessage) {
        NowMessage::Exec(NowExecMessage::WinPs(m))
    }
}

impl vstd::std_specs::convert::FromSpecImpl<NowExecWinPsMsg> for NowMessage {
    open spec fn obeys_from_spec() -> bool {
        true
    }

    open spec fn from_spec(m: NowExecWinPsMsg) -> NowMessage {
        NowMessage::Exec(NowExecMessage::WinPs(m))
    }
}

impl From<NowExecPwshMsg> for NowMessage {
    fn from(m: NowExecPwshMsg) -> (r: NowMessage) {
        NowMessage::Exec(NowExecMessage::Pwsh(m))
    }
}

impl vstd::std_specs::convert::FromSpecImpl<NowExecPwshMsg> for NowMessage {
    open spec fn obeys_from_spec() -> bool {
        true
    }

    open spec fn from_spec(m: NowExecPwshMsg) -> NowMessage {
        NowMessage::Exec(NowExecMessage::Pwsh(m))
    }
}

impl From<NowRdmCapabilitiesMsg> for NowMessage {
    fn from(m: NowRdmCapabilitiesMsg) -> (r: NowMessage) {
        NowMessage::Rdm(NowRdmMessage::Capabilities(m))
    }
}

impl vstd::std_specs::convert::FromSpecImpl<NowRdmCapabilitiesMsg> for NowMessage {
    open spec fn obeys_from_spec() -> bool {
        true
    }

    open spec fn from_spec(m: NowRdmCapabilitiesMsg) -> NowMessage {
        NowMessage::Rdm(NowRdmMessage::Capabilities(m))
    }
}

impl From<NowRdmAppStartMsg> for NowMessage {
    fn from(m: NowRdmAppStartMsg) -> (r: NowMessage) {
        NowMessage::Rdm(NowRdmMessage::AppStart(m))
    }
}

impl vstd::std_specs::convert::FromSpecImpl<NowRdmAppStartMsg> for NowMessage {
    open spec fn obeys_from_spec() -> bool {
        true
    }

    open spec fn from_spec(m: NowRdmAppStartMsg) -> NowMessage {
        NowMessage::Rdm(NowRdmMessage::AppStart(m))
    }
}

impl From<NowRdmAppActionMsg> for NowMessage {
    fn from(m: NowRdmAppActionMsg) -> (r: NowMessage) {
        NowMessage::Rdm(NowRdmMessage::AppAction(m))
    }
}

impl vstd::std_specs::convert::FromSpecImpl<NowRdmAppActionMsg> for NowMessage {
    open spec fn obeys_from_spec() -> bool {
        true
    }

    open spec fn from_spec(m: NowRdmAppActionMsg) -> NowMessage {
        NowMessage::Rdm(NowRdmMessage::AppAction(m))
    }
}

impl From<NowRdmAppNotifyMsg> for NowMessage {
    fn from(m: NowRdmAppNotifyMsg) -> (r: NowMessage) {
        NowMessage::Rdm(NowRdmMessage::AppNotify(m))
    }
}

impl vstd::std_specs::convert::FromSpecImpl<NowRdmAppNotifyMsg> for NowMessage {
    open spec fn obeys_from_spec() -> bool {
        true
    }

    open spec fn from_spec(m: NowRdmAppNotifyMsg) -> NowMessage {
        NowMessage::Rdm(NowRdmMessage::AppNotify(m))
    }
}

impl From<NowRdmSessionStartMsg> for NowMessage {
    fn from(m: NowRdmSessionStartMsg) -> (r: NowMessage) {
        NowMessage::Rdm(NowRdmMessage::SessionStart(m))
    }
}

impl vstd::std_specs::convert::FromSpecImpl<NowRdmSessionStartMsg> for NowMessage {
    open spec fn obeys_from_spec() -> bool {
        true
    }

    open spec fn from_spec(m: NowRdmSessionStartMsg) -> NowMessage {
        NowMessage::Rdm(NowRdmMessage::SessionStart(m))
    }
}

impl From<NowRdmSessionActionMsg> for NowMessage {
    fn from(m: NowRdmSessionActionMsg) -> (r: NowMessage) {
        NowMessage::Rdm(NowRdmMessage::SessionAction(m))
    }
}

impl vstd::std_specs::convert::FromSpecImpl<NowRdmSessionActionMsg> for NowMessage {
    open spec fn obeys_from_spec() -> bool {
        true
    }

    open spec fn from_spec(m: NowRdmSessionActionMsg) -> NowMessage {
        NowMessage::Rdm(NowRdmMessage::SessionAction(m))
    }
}

impl From<NowRdmSessionNotifyMsg> for NowMessage {
    fn from(m: NowRdmSessionNotifyMsg) -> (r: NowMessage) {
        NowMessage::Rdm(NowRdmMessage::SessionNotify(m))
    }
}

impl vstd::std_specs::convert::FromSpecImpl<NowRdmSessionNotifyMsg> for NowMessage {
    open spec fn obeys_from_spec() -> bool {
        true
    }

    open spec fn from_spec(m: NowRdmSessionNotifyMsg) -> NowMessage {
        NowMessage::Rdm(NowRdmMessage::SessionNotify(m))
    }
}


} // verus!
