use uuid::Uuid;

use now_proto_pdu::{NowMessage, NowRdmSessionAction, NowRdmSessionActionMsg, NowRdmSessionNotifyKind, NowRdmSessionNotifyMsg, NowRdmSessionStartMsg, NowRdmAppAction, NowRdmAppActionMsg, NowRdmAppNotifyMsg, NowRdmAppStartMsg, NowRdmAppState, NowRdmCapabilitiesMsg, NowRdmReason};

fn roundtrip_rdm_msg(msg: NowMessage, expected: &[u8]) -> NowMessage {
    let buf = msg.encode().expect("failed to encode message");
    assert_eq!(buf.as_slice(), expected);
    assert_eq!(msg.size().expect("failed to size message"), buf.len());
    let decoded = NowMessage::decode(&buf).expect("failed to decode message");
    assert_eq!(decoded.encode().expect("failed to encode decoded message"), buf);
    decoded
}

#[test]
fn rdm_capabilities_msg_roundtrip() {
    let msg = NowRdmCapabilitiesMsg::new(
        1672531200, // Unix timestamp for January 1, 2023 00:00:00 UTC
        "2025.1.2.3".to_string(),
    )
    .expect("failed to create capabilities message")
    .with_version_extra("ABC".to_string())
    .expect("failed to set version extra")
    .with_app_available();

    let decoded = roundtrip_rdm_msg(NowMessage::Rdm(now_proto_pdu::NowRdmMessage::Capabilities(msg)).into(), &[0x1D, 0x00, 0x00, 0x00, 0x14, 0x01, 0x00, 0x00, 0x00, 0xCD, 0xB0, 0x63, 0x00, 0x00, 0x00, 0x00, 0x01, 0x00, 0x00, 0x00, 0x0A, 0x32, 0x30, 0x32, 0x35, 0x2E, 0x31, 0x2E, 0x32, 0x2E, 0x33, 0x00, 0x03, 0x41, 0x42, 0x43, 0x00]);

    let actual = match decoded {
        NowMessage::Rdm(now_proto_pdu::NowRdmMessage::Capabilities(msg)) => msg,
        _ => panic!("Expected RDM Capabilities message"),
    };

    assert_eq!(actual.timestamp(), 1672531200);
    assert!(actual.is_app_available());
    assert_eq!(actual.rdm_version(), "2025.1.2.3");
    assert_eq!(actual.version_extra(), "ABC");
}

#[test]
fn rdm_app_start_msg_roundtrip() {
    let msg = NowRdmAppStartMsg::default()
        .with_timeout(45) // timeout in seconds
        .with_jump_mode()
        .with_maximized();

    let decoded = roundtrip_rdm_msg(NowMessage::Rdm(now_proto_pdu::NowRdmMessage::AppStart(msg)).into(), &[0x08, 0x00, 0x00, 0x00, 0x14, 0x02, 0x00, 0x00, 0x03, 0x00, 0x00, 0x00, 0x2D, 0x00, 0x00, 0x00]);

    let actual = match decoded {
        NowMessage::Rdm(now_proto_pdu::NowRdmMessage::AppStart(msg)) => msg,
        _ => panic!("Expected RDM AppStart message"),
    };

    assert!(actual.is_jump_mode());
    assert!(actual.is_maximized());
    assert!(!actual.is_fullscreen());
    assert_eq!(actual.timeout(), 45);
}

#[test]
fn rdm_app_action_msg_roundtrip() {
    let msg = NowRdmAppActionMsg::new(NowRdmAppAction::new(NowRdmAppAction::CLOSE))
        .with_action_data("ABC".to_string()) // action data
        .expect("failed to create app action message");

    let decoded = roundtrip_rdm_msg(NowMessage::Rdm(now_proto_pdu::NowRdmMessage::AppAction(msg)).into(), &[0x09, 0x00, 0x00, 0x00, 0x14, 0x03, 0x00, 0x00, 0x01, 0x00, 0x00, 0x00, 0x03, 0x41, 0x42, 0x43, 0x00]);

    let actual = match decoded {
        NowMessage::Rdm(now_proto_pdu::NowRdmMessage::AppAction(msg)) => msg,
        _ => panic!("Expected RDM AppAction message"),
    };

    assert_eq!(actual.app_action().value(), NowRdmAppAction::CLOSE);
    assert_eq!(actual.action_data(), "ABC");
}

#[test]
fn rdm_app_notify_msg_roundtrip() {
    let msg = NowRdmAppNotifyMsg::new(
        NowRdmAppState::new(NowRdmAppState::READY), // app_state
        NowRdmReason::new(NowRdmReason::NOT_SPECIFIED), // reason_code
    )
    .with_notify_data("OK".to_string()) // notify_data
    .expect("failed to create app notify message");

    let decoded = roundtrip_rdm_msg(NowMessage::Rdm(now_proto_pdu::NowRdmMessage::AppNotify(msg)).into(), &[0x0C, 0x00, 0x00, 0x00, 0x14, 0x04, 0x00, 0x00, 0x01, 0x00, 0x00, 0x00, 0x00, 0x00, 0x00, 0x00, 0x02, 0x4F, 0x4B, 0x00]);

    let actual = match decoded {
        NowMessage::Rdm(now_proto_pdu::NowRdmMessage::AppNotify(msg)) => msg,
        _ => panic!("Expected RDM AppNotify message"),
    };

    assert_eq!(actual.app_state().value(), NowRdmAppState::READY);
    assert_eq!(actual.reason_code().value(), NowRdmReason::NOT_SPECIFIED);
    assert_eq!(actual.notify_data(), "OK");
}

#[test]
fn rdm_session_start_msg_roundtrip() {
    let session_id = Uuid::from_bytes([
        0x01, 0x02, 0x03, 0x04, 0x05, 0x06, 0x07, 0x08, 0x09, 0x0A, 0x0B, 0x0C, 0x0D, 0x0E, 0x0F, 0x10,
    ]);
    let connection_id = Uuid::from_bytes([
        0xA1, 0xB2, 0xC3, 0xD4, 0xE5, 0xF6, 0x07, 0x18, 0x29, 0x3A, 0x4B, 0x5C, 0x6D, 0x7E, 0x8F, 0x90,
    ]);

    let msg = NowRdmSessionStartMsg::new(session_id.into_bytes(), connection_id.into_bytes(), "<a>b</a>".to_string())
        .expect("failed to create session start message");

    let decoded = roundtrip_rdm_msg(NowMessage::Rdm(now_proto_pdu::NowRdmMessage::SessionStart(msg)).into(), &[0x56, 0x00, 0x00, 0x00, 0x14, 0x05, 0x00, 0x00, 0x24, 0x30, 0x31, 0x30, 0x32, 0x30, 0x33, 0x30, 0x34, 0x2D, 0x30, 0x35, 0x30, 0x36, 0x2D, 0x30, 0x37, 0x30, 0x38, 0x2D, 0x30, 0x39, 0x30, 0x61, 0x2D, 0x30, 0x62, 0x30, 0x63, 0x30, 0x64, 0x30, 0x65, 0x30, 0x66, 0x31, 0x30, 0x00, 0x24, 0x61, 0x31, 0x62, 0x32, 0x63, 0x33, 0x64, 0x34, 0x2D, 0x65, 0x35, 0x66, 0x36, 0x2D, 0x30, 0x37, 0x31, 0x38, 0x2D, 0x32, 0x39, 0x33, 0x61, 0x2D, 0x34, 0x62, 0x35, 0x63, 0x36, 0x64, 0x37, 0x65, 0x38, 0x66, 0x39, 0x30, 0x00, 0x08, 0x3C, 0x61, 0x3E, 0x62, 0x3C, 0x2F, 0x61, 0x3E, 0x00]);

    let actual = match decoded {
        NowMessage::Rdm(now_proto_pdu::NowRdmMessage::SessionStart(msg)) => msg,
        _ => panic!("Expected RDM SessionStart message"),
    };

    assert_eq!(Uuid::from_bytes(actual.session_id()), session_id);
    assert_eq!(Uuid::from_bytes(actual.connection_id()), connection_id);
    assert_eq!(actual.connection_data(), "<a>b</a>");
}

#[test]
fn rdm_session_action_msg_roundtrip() {
    let session_id = Uuid::from_bytes([
        0xA1, 0xB2, 0xC3, 0xD4, 0xE5, 0xF6, 0x07, 0x18, 0x29, 0x3A, 0x4B, 0x5C, 0x6D, 0x7E, 0x8F, 0x90,
    ]);

    let msg = NowRdmSessionActionMsg::new(NowRdmSessionAction::new(NowRdmSessionAction::FOCUS), session_id.into_bytes()).unwrap();

    let decoded = roundtrip_rdm_msg(NowMessage::Rdm(now_proto_pdu::NowRdmMessage::SessionAction(msg)).into(), &[0x2A, 0x00, 0x00, 0x00, 0x14, 0x06, 0x00, 0x00, 0x02, 0x00, 0x00, 0x00, 0x24, 0x61, 0x31, 0x62, 0x32, 0x63, 0x33, 0x64, 0x34, 0x2D, 0x65, 0x35, 0x66, 0x36, 0x2D, 0x30, 0x37, 0x31, 0x38, 0x2D, 0x32, 0x39, 0x33, 0x61, 0x2D, 0x34, 0x62, 0x35, 0x63, 0x36, 0x64, 0x37, 0x65, 0x38, 0x66, 0x39, 0x30, 0x00]);

    let actual = match decoded {
        NowMessage::Rdm(now_proto_pdu::NowRdmMessage::SessionAction(msg)) => msg,
        _ => panic!("Expected RDM SessionAction message"),
    };

    assert_eq!(actual.session_action().value(), NowRdmSessionAction::FOCUS);
    assert_eq!(Uuid::from_bytes(actual.session_id()), session_id);
}

#[test]
fn rdm_session_notify_msg_roundtrip() {
    let session_id = Uuid::from_bytes([
        0xA1, 0xB2, 0xC3, 0xD4, 0xE5, 0xF6, 0x07, 0x18, 0x29, 0x3A, 0x4B, 0x5C, 0x6D, 0x7E, 0x8F, 0x90,
    ]);

    let msg = NowRdmSessionNotifyMsg::new_close(session_id.into_bytes())
        .unwrap()
        .with_log_data("Session closed gracefully".to_string())
        .expect("failed to create session notify message");

    let decoded = roundtrip_rdm_msg(NowMessage::Rdm(now_proto_pdu::NowRdmMessage::SessionNotify(msg)).into(), &[0x45, 0x00, 0x00, 0x00, 0x14, 0x07, 0x00, 0x00, 0x01, 0x00, 0x00, 0x00, 0x24, 0x61, 0x31, 0x62, 0x32, 0x63, 0x33, 0x64, 0x34, 0x2D, 0x65, 0x35, 0x66, 0x36, 0x2D, 0x30, 0x37, 0x31, 0x38, 0x2D, 0x32, 0x39, 0x33, 0x61, 0x2D, 0x34, 0x62, 0x35, 0x63, 0x36, 0x64, 0x37, 0x65, 0x38, 0x66, 0x39, 0x30, 0x00, 0x19, 0x53, 0x65, 0x73, 0x73, 0x69, 0x6F, 0x6E, 0x20, 0x63, 0x6C, 0x6F, 0x73, 0x65, 0x64, 0x20, 0x67, 0x72, 0x61, 0x63, 0x65, 0x66, 0x75, 0x6C, 0x6C, 0x79, 0x00]);

    let actual = match decoded {
        NowMessage::Rdm(now_proto_pdu::NowRdmMessage::SessionNotify(msg)) => msg,
        _ => panic!("Expected RDM SessionNotify message"),
    };

    assert_eq!(actual.session_notify().value(), NowRdmSessionNotifyKind::CLOSE);
    assert_eq!(Uuid::from_bytes(actual.session_id()), session_id);
    assert_eq!(actual.log_data(), "Session closed gracefully");
}

#[test]
fn test_session_notify_constructors() {
    let session_id = Uuid::from_bytes([
        0x01, 0x02, 0x03, 0x04, 0x05, 0x06, 0x07, 0x08, 0x09, 0x0A, 0x0B, 0x0C, 0x0D, 0x0E, 0x0F, 0x10,
    ]);

    // Test close constructor
    let close_msg = NowRdmSessionNotifyMsg::new_close(session_id.into_bytes()).unwrap();
    assert_eq!(close_msg.session_notify().value(), NowRdmSessionNotifyKind::CLOSE);
    assert_eq!(Uuid::from_bytes(close_msg.session_id()), session_id);
    assert_eq!(close_msg.log_data(), "");

    // Test focus constructor
    let focus_msg = NowRdmSessionNotifyMsg::new_focus(session_id.into_bytes()).unwrap();
    assert_eq!(focus_msg.session_notify().value(), NowRdmSessionNotifyKind::FOCUS);
    assert_eq!(Uuid::from_bytes(focus_msg.session_id()), session_id);
    assert_eq!(focus_msg.log_data(), "");

    // Test generic constructor
    let generic_msg = NowRdmSessionNotifyMsg::new(NowRdmSessionNotifyKind::new(NowRdmSessionNotifyKind::FOCUS), session_id.into_bytes()).unwrap();
    assert_eq!(generic_msg.session_notify().value(), NowRdmSessionNotifyKind::FOCUS);
    assert_eq!(Uuid::from_bytes(generic_msg.session_id()), session_id);
    assert_eq!(generic_msg.log_data(), "");
}
