use now_proto_pdu::{NowMessage, NowMessageBoxStyle, NowMsgBoxResponse, NowProtoError, NowSessionLockMsg, NowSessionLogoffMsg, NowSessionMessage, NowSessionMsgBoxReqMsg, NowSessionMsgBoxRspMsg, NowSessionSetKbdLayoutMsg, NowSessionWindowRecEventMsg, NowSessionWindowRecStartMsg, NowSessionWindowRecStopMsg, NowStatusError, NowStatusErrorKind, SetKbdLayoutOption, WindowRecEventKind, WindowRecStartFlags};

fn roundtrip_session_msg(msg: NowMessage, expected: &[u8]) -> NowMessage {
    let buf = msg.encode().expect("failed to encode message");
    assert_eq!(buf.as_slice(), expected);
    assert_eq!(msg.size().expect("failed to size message"), buf.len());
    let decoded = NowMessage::decode(&buf).expect("failed to decode message");
    assert_eq!(decoded.encode().expect("failed to encode decoded message"), buf);
    decoded
}

#[test]
fn roundtrip_session_lock() {
    roundtrip_session_msg(NowSessionLockMsg::default().into(), &[0x00, 0x00, 0x00, 0x00, 0x12, 0x01, 0x00, 0x00]);
}

#[test]
fn roundtrip_session_logoff() {
    roundtrip_session_msg(NowSessionLogoffMsg::default().into(), &[0x00, 0x00, 0x00, 0x00, 0x12, 0x02, 0x00, 0x00]);
}

#[test]
fn roundtrip_session_msgbox_req() {
    let msg = NowSessionMsgBoxReqMsg::new(0x76543210, "hello".to_string())
        .unwrap()
        .with_response()
        .with_style(NowMessageBoxStyle::new(NowMessageBoxStyle::ABORT_RETRY_IGNORE))
        .with_title("world".to_string())
        .unwrap()
        .with_timeout(3)
        .unwrap();

    let decoded = roundtrip_session_msg(msg.into(), &[0x1A, 0x00, 0x00, 0x00, 0x12, 0x03, 0x0F, 0x00, 0x10, 0x32, 0x54, 0x76, 0x02, 0x00, 0x00, 0x00, 0x03, 0x00, 0x00, 0x00, 0x05, 0x77, 0x6F, 0x72, 0x6C, 0x64, 0x00, 0x05, 0x68, 0x65, 0x6C, 0x6C, 0x6F, 0x00]);

    let actual = match decoded {
        NowMessage::Session(NowSessionMessage::MsgBoxReq(msg)) => msg,
        _ => panic!("Expected NowSessionMsgBoxReqMsg"),
    };

    assert_eq!(actual.request_id(), 0x76543210);
    assert_eq!(actual.message(), "hello");
    assert!(actual.is_response_expected());
    assert_eq!(actual.style().value(), NowMessageBoxStyle::ABORT_RETRY_IGNORE);
    assert_eq!(actual.title().unwrap(), "world");
    assert_eq!(actual.timeout().unwrap(), 3);
}

#[test]
fn roundtrip_session_msgbox_req_simple() {
    let msg = NowSessionMsgBoxReqMsg::new(0x76543210, "hello".to_string()).unwrap();

    let decoded = roundtrip_session_msg(msg.into(), &[0x15, 0x00, 0x00, 0x00, 0x12, 0x03, 0x00, 0x00, 0x10, 0x32, 0x54, 0x76, 0x00, 0x00, 0x00, 0x00, 0x00, 0x00, 0x00, 0x00, 0x00, 0x00, 0x05, 0x68, 0x65, 0x6C, 0x6C, 0x6F, 0x00]);

    let actual = match decoded {
        NowMessage::Session(NowSessionMessage::MsgBoxReq(msg)) => msg,
        _ => panic!("Expected NowSessionMsgBoxReqMsg"),
    };

    assert_eq!(actual.request_id(), 0x76543210);
    assert_eq!(actual.message(), "hello");
    assert!(!actual.is_response_expected());
    assert_eq!(actual.style().value(), NowMessageBoxStyle::OK);
    assert!(actual.title().is_none());
    assert!(actual.timeout().is_none());
}

#[test]
fn roundtrip_session_msgbox_rsp() {
    let msg = NowSessionMsgBoxRspMsg::new_success(0x01234567, NowMsgBoxResponse::new(NowMsgBoxResponse::RETRY));

    let decoded = roundtrip_session_msg(msg.into(), &[0x12, 0x00, 0x00, 0x00, 0x12, 0x04, 0x00, 0x00, 0x67, 0x45, 0x23, 0x01, 0x04, 0x00, 0x00, 0x00, 0x00, 0x00, 0x00, 0x00, 0x00, 0x00, 0x00, 0x00, 0x00, 0x00]);

    let actual = match decoded {
        NowMessage::Session(NowSessionMessage::MsgBoxRsp(msg)) => msg,
        _ => panic!("Expected NowSessionMsgBoxRspMsg"),
    };

    assert_eq!(actual.request_id(), 0x01234567);
    assert_eq!(actual.to_result().unwrap().value(), NowMsgBoxResponse::RETRY);
}

#[test]
fn roundtrip_session_msgbox_rsp_error() {
    let msg = NowSessionMsgBoxRspMsg::new_error(
        0x01234567,
        NowStatusError::from_kind(NowStatusErrorKind::Now(NowProtoError::NotImplemented)),
    )
    .unwrap();

    let decoded = roundtrip_session_msg(msg.into(), &[0x12, 0x00, 0x00, 0x00, 0x12, 0x04, 0x00, 0x00, 0x67, 0x45, 0x23, 0x01, 0x00, 0x00, 0x00, 0x00, 0x01, 0x00, 0x01, 0x00, 0x07, 0x00, 0x00, 0x00, 0x00, 0x00]);

    let actual = match decoded {
        NowMessage::Session(NowSessionMessage::MsgBoxRsp(msg)) => msg,
        _ => panic!("Expected NowSessionMsgBoxRspMsg"),
    };

    assert_eq!(actual.request_id(), 0x01234567);
    assert_eq!(
        actual.to_result().unwrap_err(),
        NowStatusError::from_kind(NowStatusErrorKind::Now(NowProtoError::NotImplemented))
    );
}

#[test]
fn roundtrip_session_set_kbd_layout_specific() {
    let msg = NowSessionSetKbdLayoutMsg::new_specific("00000409".to_string()).unwrap();

    let decoded = roundtrip_session_msg(msg.into(), &[0x0A, 0x00, 0x00, 0x00, 0x12, 0x05, 0x00, 0x00, 0x08, 0x30, 0x30, 0x30, 0x30, 0x30, 0x34, 0x30, 0x39, 0x00]);

    let actual = match decoded {
        NowMessage::Session(NowSessionMessage::SetKbdLayout(msg)) => msg,
        _ => panic!("Expected NowSessionSetKbdLayoutMsg"),
    };

    assert!(matches!(actual.layout(), SetKbdLayoutOption::Specific(s) if s == "00000409"));
}

#[test]
fn roundtrip_session_set_kbd_layout_next() {
    let msg = NowSessionSetKbdLayoutMsg::new_next();

    let decoded = roundtrip_session_msg(msg.into(), &[0x02, 0x00, 0x00, 0x00, 0x12, 0x05, 0x01, 0x00, 0x00, 0x00]);

    let actual = match decoded {
        NowMessage::Session(NowSessionMessage::SetKbdLayout(msg)) => msg,
        _ => panic!("Expected NowSessionSetKbdLayoutMsg"),
    };

    assert!(matches!(actual.layout(), SetKbdLayoutOption::Next));
}

#[test]
fn roundtrip_session_set_kbd_layout_prev() {
    let msg = NowSessionSetKbdLayoutMsg::new_prev();

    let decoded = roundtrip_session_msg(msg.into(), &[0x02, 0x00, 0x00, 0x00, 0x12, 0x05, 0x02, 0x00, 0x00, 0x00]);

    let actual = match decoded {
        NowMessage::Session(NowSessionMessage::SetKbdLayout(msg)) => msg,
        _ => panic!("Expected NowSessionSetKbdLayoutMsg"),
    };

    assert!(matches!(actual.layout(), SetKbdLayoutOption::Prev));
}

#[test]
fn roundtrip_session_window_rec_start_simple() {
    let msg = NowSessionWindowRecStartMsg::new(1000, 0);

    let decoded = roundtrip_session_msg(msg.into(), &[0x04, 0x00, 0x00, 0x00, 0x12, 0x06, 0x00, 0x00, 0xE8, 0x03, 0x00, 0x00]);

    let actual = match decoded {
        NowMessage::Session(NowSessionMessage::WindowRecStart(msg)) => msg,
        _ => panic!("Expected NowSessionWindowRecStartMsg"),
    };

    assert_eq!(actual.poll_interval(), 1000);
    assert!(!actual.is_track_title_change());
}

#[test]
fn roundtrip_session_window_rec_start_with_flags() {
    let msg = NowSessionWindowRecStartMsg::new(2000, WindowRecStartFlags::TRACK_TITLE_CHANGE);

    let decoded = roundtrip_session_msg(msg.into(), &[0x04, 0x00, 0x00, 0x00, 0x12, 0x06, 0x01, 0x00, 0xD0, 0x07, 0x00, 0x00]);

    let actual = match decoded {
        NowMessage::Session(NowSessionMessage::WindowRecStart(msg)) => msg,
        _ => panic!("Expected NowSessionWindowRecStartMsg"),
    };

    assert_eq!(actual.poll_interval(), 2000);
    assert!(actual.is_track_title_change());
}

#[test]
fn roundtrip_session_window_rec_stop() {
    roundtrip_session_msg(NowSessionWindowRecStopMsg::default().into(), &[0x00, 0x00, 0x00, 0x00, 0x12, 0x07, 0x00, 0x00]);
}

#[test]
fn roundtrip_session_window_rec_event_active_window() {
    let msg = NowSessionWindowRecEventMsg::active_window(
        1732550400, // Unix timestamp: 2024-11-25 12:00:00 UTC
        1234,
        "Notepad".to_string(),
        "C:\\Windows\\System32\\notepad.exe".to_string(),
    )
    .unwrap();

    let decoded = roundtrip_session_msg(msg.into(), &[0x36, 0x00, 0x00, 0x00, 0x12, 0x08, 0x01, 0x00, 0x00, 0x9F, 0x44, 0x67, 0x00, 0x00, 0x00, 0x00, 0xD2, 0x04, 0x00, 0x00, 0x07, 0x4E, 0x6F, 0x74, 0x65, 0x70, 0x61, 0x64, 0x00, 0x1F, 0x43, 0x3A, 0x5C, 0x57, 0x69, 0x6E, 0x64, 0x6F, 0x77, 0x73, 0x5C, 0x53, 0x79, 0x73, 0x74, 0x65, 0x6D, 0x33, 0x32, 0x5C, 0x6E, 0x6F, 0x74, 0x65, 0x70, 0x61, 0x64, 0x2E, 0x65, 0x78, 0x65, 0x00]);

    let actual = match decoded {
        NowMessage::Session(NowSessionMessage::WindowRecEvent(msg)) => msg,
        _ => panic!("Expected NowSessionWindowRecEventMsg"),
    };

    assert_eq!(actual.timestamp(), 1732550400);

    if let WindowRecEventKind::ActiveWindow(data) = actual.kind() {
        assert_eq!(data.process_id(), 1234);
        assert_eq!(data.title(), "Notepad");
        assert_eq!(data.executable_path(), "C:\\Windows\\System32\\notepad.exe");
    } else {
        panic!("Expected ActiveWindow event kind");
    }
}

#[test]
fn roundtrip_session_window_rec_event_title_changed() {
    let msg = NowSessionWindowRecEventMsg::title_changed(
        1732550460, // Unix timestamp: 2024-11-25 12:01:00 UTC
        "Notepad - Document.txt".to_string(),
    )
    .unwrap();

    let decoded = roundtrip_session_msg(msg.into(), &[0x26, 0x00, 0x00, 0x00, 0x12, 0x08, 0x02, 0x00, 0x3C, 0x9F, 0x44, 0x67, 0x00, 0x00, 0x00, 0x00, 0x00, 0x00, 0x00, 0x00, 0x16, 0x4E, 0x6F, 0x74, 0x65, 0x70, 0x61, 0x64, 0x20, 0x2D, 0x20, 0x44, 0x6F, 0x63, 0x75, 0x6D, 0x65, 0x6E, 0x74, 0x2E, 0x74, 0x78, 0x74, 0x00, 0x00, 0x00]);

    let actual = match decoded {
        NowMessage::Session(NowSessionMessage::WindowRecEvent(msg)) => msg,
        _ => panic!("Expected NowSessionWindowRecEventMsg"),
    };

    assert_eq!(actual.timestamp(), 1732550460);

    if let WindowRecEventKind::TitleChanged(data) = actual.kind() {
        assert_eq!(data.title(), "Notepad - Document.txt");
    } else {
        panic!("Expected TitleChanged event kind");
    }
}

#[test]
fn roundtrip_session_window_rec_event_no_active_window() {
    let msg = NowSessionWindowRecEventMsg::no_active_window(1732550520); // Unix timestamp: 2024-11-25 12:02:00 UTC

    let decoded = roundtrip_session_msg(msg.into(), &[0x10, 0x00, 0x00, 0x00, 0x12, 0x08, 0x04, 0x00, 0x78, 0x9F, 0x44, 0x67, 0x00, 0x00, 0x00, 0x00, 0x00, 0x00, 0x00, 0x00, 0x00, 0x00, 0x00, 0x00]);

    let actual = match decoded {
        NowMessage::Session(NowSessionMessage::WindowRecEvent(msg)) => msg,
        _ => panic!("Expected NowSessionWindowRecEventMsg"),
    };

    assert_eq!(actual.timestamp(), 1732550520);
    assert!(matches!(actual.kind(), WindowRecEventKind::NoActiveWindow));
}

#[test]
fn roundtrip_session_window_rec_event_empty_strings() {
    let msg = NowSessionWindowRecEventMsg::active_window(1732550400, 5678, "".to_string(), "".to_string()).unwrap();

    let decoded = roundtrip_session_msg(msg.into(), &[0x10, 0x00, 0x00, 0x00, 0x12, 0x08, 0x01, 0x00, 0x00, 0x9F, 0x44, 0x67, 0x00, 0x00, 0x00, 0x00, 0x2E, 0x16, 0x00, 0x00, 0x00, 0x00, 0x00, 0x00]);

    let actual = match decoded {
        NowMessage::Session(NowSessionMessage::WindowRecEvent(msg)) => msg,
        _ => panic!("Expected NowSessionWindowRecEventMsg"),
    };

    assert_eq!(actual.timestamp(), 1732550400);

    if let WindowRecEventKind::ActiveWindow(data) = actual.kind() {
        assert_eq!(data.process_id(), 5678);
        assert_eq!(data.title(), "");
        assert_eq!(data.executable_path(), "");
    } else {
        panic!("Expected ActiveWindow event kind");
    }
}
