use now_proto_pdu::{NowChannelCapsetMsg, NowChannelCloseMsg, NowChannelHeartbeatMsg, NowChannelMessage, NowExecCapsetFlags, NowMessage, NowProtoVersion, NowSessionCapsetFlags, NowStatusError, NowStatusErrorKind, NowSystemCapsetFlags};

fn roundtrip_channel_msg(msg: NowMessage, expected: &[u8]) -> NowMessage {
    let buf = msg.encode().expect("failed to encode message");
    assert_eq!(buf.as_slice(), expected);
    assert_eq!(msg.size().expect("failed to size message"), buf.len());
    let decoded = NowMessage::decode(&buf).expect("failed to decode message");
    assert_eq!(decoded.encode().expect("failed to encode decoded message"), buf);
    decoded
}

#[test]
fn roundtrip_channel_capset() {
    let msg = NowChannelCapsetMsg::default()
        .with_exec_capset(NowExecCapsetFlags::STYLE_RUN | NowExecCapsetFlags::STYLE_SHELL)
        .with_system_capset(NowSystemCapsetFlags::SHUTDOWN)
        .with_session_capset(NowSessionCapsetFlags::MSGBOX)
        .with_heartbeat_interval(300)
        .unwrap();

    let decoded = roundtrip_channel_msg(msg.into(), &[0x0E, 0x00, 0x00, 0x00, 0x10, 0x01, 0x01, 0x00, 0x01, 0x00, 0x00, 0x00, 0x01, 0x00, 0x04, 0x00, 0x05, 0x00, 0x2C, 0x01, 0x00, 0x00]);

    let actual = match decoded {
        NowMessage::Channel(NowChannelMessage::Capset(msg)) => msg,
        _ => panic!("Expected NowChannelCapsetMsg"),
    };

    assert_eq!(actual.version().major, NowProtoVersion::CURRENT_MAJOR);
    assert_eq!(actual.version().minor, NowProtoVersion::CURRENT_MINOR);
    assert_eq!(actual.system_capset(), NowSystemCapsetFlags::SHUTDOWN);
    assert_eq!(actual.session_capset(), NowSessionCapsetFlags::MSGBOX);
    assert_eq!(
        actual.exec_capset(),
        NowExecCapsetFlags::STYLE_RUN | NowExecCapsetFlags::STYLE_SHELL
    );
    assert_eq!(actual.heartbeat_interval(), Some(300));
}

#[test]
fn roundtrip_channel_capset_simple() {
    let msg = NowChannelCapsetMsg::default();

    let decoded = roundtrip_channel_msg(msg.into(), &[0x0E, 0x00, 0x00, 0x00, 0x10, 0x01, 0x00, 0x00, 0x01, 0x00, 0x00, 0x00, 0x00, 0x00, 0x00, 0x00, 0x00, 0x00, 0x00, 0x00, 0x00, 0x00]);

    let actual = match decoded {
        NowMessage::Channel(NowChannelMessage::Capset(msg)) => msg,
        _ => panic!("Expected NowChannelCapsetMsg"),
    };

    assert!(actual.system_capset() == 0);
    assert!(actual.session_capset() == 0);
    assert!(actual.exec_capset() == 0);
    assert!(actual.heartbeat_interval().is_none());
}

#[test]
fn roundtrip_channel_capset_too_small_heartbeat_interval() {
    // Sanity check should fail
    NowChannelCapsetMsg::default()
        .with_heartbeat_interval(3)
        .unwrap_err();
}

#[test]
fn roundtrip_channel_capset_too_big_heartbeat_interval() {
    // Sanity check should fail
    NowChannelCapsetMsg::default()
        .with_heartbeat_interval(60 * 60 * 24 * 2)
        .unwrap_err();
}

#[test]
fn roundtrip_channel_heartbeat() {
    roundtrip_channel_msg(NowChannelHeartbeatMsg::default().into(), &[0x00, 0x00, 0x00, 0x00, 0x10, 0x02, 0x00, 0x00]);
}

#[test]
fn roundtrip_channel_close_normal() {
    let msg = NowChannelCloseMsg::default();

    let decoded = roundtrip_channel_msg(msg.into(), &[0x0A, 0x00, 0x00, 0x00, 0x10, 0x03, 0x00, 0x00, 0x00, 0x00, 0x00, 0x00, 0x00, 0x00, 0x00, 0x00, 0x00, 0x00]);

    let actual = match decoded {
        NowMessage::Channel(NowChannelMessage::Close(msg)) => msg,
        _ => panic!("Expected NowChannelCloseMsg"),
    };

    assert!(actual.to_result().is_ok());
}

#[test]
fn roundtrip_channel_close_error() {
    let msg = NowChannelCloseMsg::from_error(NowStatusError::from_kind(NowStatusErrorKind::Generic(0))).unwrap();

    let decoded = roundtrip_channel_msg(msg.into(), &[0x0A, 0x00, 0x00, 0x00, 0x10, 0x03, 0x00, 0x00, 0x01, 0x00, 0x00, 0x00, 0x00, 0x00, 0x00, 0x00, 0x00, 0x00]);

    let actual = match decoded {
        NowMessage::Channel(NowChannelMessage::Close(msg)) => msg,
        _ => panic!("Expected NowChannelCloseMsg"),
    };

    assert_eq!(
        actual.to_result(),
        Err(NowStatusError::from_kind(NowStatusErrorKind::Generic(0)))
    );
}
