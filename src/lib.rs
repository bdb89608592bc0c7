//! NOW-PROTO message definitions and their wire codec.
//!
//! Every value is turned into bytes by an `encode` function whose result is stated
//! exactly over the spec functions of [`wire`], [`number`] and [`field`], and every
//! decoder is a total function on untrusted bytes: it returns a value or an error,
//! and never panics.
use vstd::prelude::*;

pub mod error;
pub mod wire;
pub mod number;
pub mod string;
pub mod buffer;
pub mod guid;
pub mod field;
pub mod header;
pub mod status;
pub mod exec;
pub mod channel;
pub mod system;
pub mod session;
pub mod rdm;
pub mod message;
pub mod round_trip;

pub use error::PduError;
pub use number::VarU32;
pub use string::NowVarStr;
pub use buffer::NowVarBuf;
pub use guid::NowGuid;
pub use status::{NowProtoError, NowStatus, NowStatusError, NowStatusErrorKind};
pub use header::{NowHeader, NowMessageClass};
pub use channel::{
    NowChannelCapsetFlags, NowChannelCapsetMsg, NowChannelCloseMsg, NowChannelHeartbeatMsg,
    NowChannelMsgKind, NowChannelTerminateMsg, NowExecCapsetFlags, NowProtoVersion,
    NowSessionCapsetFlags, NowSystemCapsetFlags,
};
pub use system::{NowSystemMessageKind, NowSystemShutdownFlags, NowSystemShutdownMsg};
pub use session::{
    ActiveWindowEventData, NowMessageBoxStyle, NowMsgBoxResponse, NowSessionLockMsg,
    NowSessionLogoffMsg, NowSessionMessageBoxFlags, NowSessionMessageKind, NowSessionMsgBoxReqMsg,
    NowSessionMsgBoxRspMsg, NowSessionSetKbdLayoutFlags, NowSessionSetKbdLayoutMsg,
    NowSessionWindowRecEventMsg, NowSessionWindowRecStartMsg, NowSessionWindowRecStopMsg,
    SetKbdLayoutOption, TitleChangedEventData, WindowRecEventFlags, WindowRecEventKind,
    WindowRecStartFlags,
};
pub use exec::{
    ApartmentStateKind, ComApartmentStateKind, NowExecAbortMsg, NowExecBatchFlags, NowExecBatchMsg,
    NowExecCancelReqMsg, NowExecCancelRspMsg, NowExecDataFlags, NowExecDataMsg,
    NowExecDataStreamKind, NowExecMsgKind, NowExecProcessFlags, NowExecProcessMsg, NowExecPwshMsg,
    NowExecResultMsg, NowExecRunFlags, NowExecRunMsg, NowExecShellFlags, NowExecShellMsg,
    NowExecStartedMsg, NowExecWinPsFlags, NowExecWinPsMsg,
};
pub use rdm::{
    NowRdmAppAction, NowRdmAppActionMsg, NowRdmAppNotifyMsg, NowRdmAppStartMsg, NowRdmAppState,
    NowRdmCapabilitiesMsg, NowRdmSessionActionMsg, NowRdmSessionNotifyMsg, NowRdmSessionStartMsg,
    NowRdmLaunchFlags, NowRdmMsgKind, NowRdmReason, NowRdmSessionAction, NowRdmSessionNotifyKind,
    NowRdmSyncFlags,
};
pub use message::{
    NowChannelMessage, NowExecMessage, NowMessage, NowRdmMessage, NowSessionMessage,
    NowSystemMessage,
};
