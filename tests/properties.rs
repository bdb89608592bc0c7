use now_proto_pdu::{
    NowChannelCapsetMsg, NowChannelMessage, NowExecAbortMsg, NowExecCapsetFlags, NowExecCancelRspMsg, NowExecMessage,
    NowMessage, NowProtoError, NowProtoVersion, NowSessionCapsetFlags, NowStatus, NowStatusError, NowStatusErrorKind,
    NowSystemCapsetFlags, PduError,
};

#[test]
fn status_success_to_result_is_ok() {
    assert!(NowStatus::new_success().to_result().is_ok());
}

#[test]
fn status_error_round_trips_kind_code_and_message() {
    let error = NowStatusError::new_generic(0xDEADBEEF).with_message("ABC".to_string()).unwrap();
    let status = NowStatus::new_error(error);
    let back = status.to_result().unwrap_err();
    assert_eq!(back.kind(), NowStatusErrorKind::Generic(0xDEADBEEF));
    assert_eq!(back.message(), "ABC");
    assert_eq!(back, NowStatusError::new_generic(0xDEADBEEF).with_message("ABC".to_string()).unwrap());
}

#[test]
fn status_error_kind_parts() {
    let k = NowStatusErrorKind::Now(NowProtoError::AccessDenied);
    assert_eq!(k.status_kind(), 1);
    assert_eq!(k.status_code(), 5);
    assert_eq!(NowStatusErrorKind::from_parts(1, 5), k);
    assert_eq!(NowStatusErrorKind::from_parts(1, 99), NowStatusErrorKind::Now(NowProtoError::Other(99)));
    assert_eq!(NowStatusErrorKind::from_parts(2, 7), NowStatusErrorKind::WinApi(7));
    assert_eq!(NowStatusErrorKind::from_parts(3, 7), NowStatusErrorKind::Unix(7));
    assert_eq!(NowStatusErrorKind::from_parts(9, 7), NowStatusErrorKind::Unknown { kind: 9, code: 7 });
}

#[test]
fn downgrade_takes_lower_version_common_features_and_given_interval() {
    // Feature bits X, Y, Z are bits 0, 1, 2: mine has {X, Y}, theirs {Y, Z}.
    let mine = NowChannelCapsetMsg::default()
        .with_version(NowProtoVersion { major: 1, minor: 2 })
        .with_system_capset(0b011);
    let theirs = NowChannelCapsetMsg::default()
        .with_version(NowProtoVersion { major: 1, minor: 0 })
        .with_system_capset(0b110)
        .with_heartbeat_interval(30)
        .unwrap();
    let merged = mine.downgrade(&theirs);
    assert_eq!(merged.version(), NowProtoVersion { major: 1, minor: 0 });
    assert_eq!(merged.system_capset(), 0b010);
    assert_eq!(merged.heartbeat_interval(), Some(30));
    let both = theirs.downgrade(&theirs.downgrade(&mine));
    assert_eq!(both.heartbeat_interval(), Some(30));
}

#[test]
fn capset_feature_sets_round_trip() {
    let msg = NowChannelCapsetMsg::default()
        .with_system_capset(NowSystemCapsetFlags::SHUTDOWN)
        .with_session_capset(NowSessionCapsetFlags::LOCK | NowSessionCapsetFlags::MSGBOX)
        .with_exec_capset(NowExecCapsetFlags::STYLE_PWSH);
    let bytes = msg.encode().unwrap();
    match NowMessage::decode(&bytes).unwrap() {
        NowMessage::Channel(NowChannelMessage::Capset(m)) => {
            assert_eq!(m.system_capset(), 0x0001);
            assert_eq!(m.session_capset(), 0x0005);
            assert_eq!(m.exec_capset(), 0x0020);
            assert_eq!(m.heartbeat_interval(), None);
        },
        _ => panic!("Expected NowChannelCapsetMsg"),
    }
}

#[test]
fn downgrade_picks_shorter_interval_and_keeps_none() {
    let a = NowChannelCapsetMsg::default().with_heartbeat_interval(60).unwrap();
    let b = NowChannelCapsetMsg::default().with_heartbeat_interval(10).unwrap();
    assert_eq!(a.downgrade(&b).heartbeat_interval(), Some(10));
    let none = NowChannelCapsetMsg::default();
    assert_eq!(none.downgrade(&none).heartbeat_interval(), None);
    let major = NowChannelCapsetMsg::default().with_version(NowProtoVersion { major: 2, minor: 0 });
    let minor = NowChannelCapsetMsg::default().with_version(NowProtoVersion { major: 1, minor: 9 });
    assert_eq!(major.downgrade(&minor).version(), NowProtoVersion { major: 1, minor: 9 });
}

#[test]
fn heartbeat_interval_bounds() {
    assert!(NowChannelCapsetMsg::default().with_heartbeat_interval(3).unwrap_err().is_invalid_field());
    assert!(NowChannelCapsetMsg::default().with_heartbeat_interval(172801).is_err());
    assert!(NowChannelCapsetMsg::default().with_heartbeat_interval(5).is_ok());
    assert!(NowChannelCapsetMsg::default().with_heartbeat_interval(86400).is_ok());
    assert!(NowChannelCapsetMsg::default().with_heartbeat_interval(86401).is_err());
    let msg = NowChannelCapsetMsg::default().with_heartbeat_interval(300).unwrap();
    let bytes = msg.encode().unwrap();
    let decoded = NowMessage::decode(&bytes).unwrap();
    assert_eq!(decoded.encode().unwrap(), bytes);
    match decoded {
        NowMessage::Channel(NowChannelMessage::Capset(m)) => assert_eq!(m.heartbeat_interval(), Some(300)),
        _ => panic!("Expected NowChannelCapsetMsg"),
    }
}

#[test]
fn decoder_ignores_trailing_body_fields() {
    // An abort body with four more bytes than the fields this decoder knows.
    let bytes = [
        0x0C, 0x00, 0x00, 0x00, 0x13, 0x01, 0x00, 0x00, 0x78, 0x56, 0x34, 0x12, 0x01, 0x00, 0x00, 0x00, 0xAA, 0xBB, 0xCC,
        0xDD,
    ];
    let decoded = NowMessage::decode(&bytes).unwrap();
    match decoded {
        NowMessage::Exec(NowExecMessage::Abort(m)) => {
            assert_eq!(m.session_id(), 0x12345678);
            assert_eq!(m.exit_code(), 1);
        },
        _ => panic!("Expected NowExecAbortMsg"),
    }
}

#[test]
fn decoder_stops_at_the_announced_body() {
    // The header announces a 4-byte body; the second field lies after it.
    let bytes = [0x04, 0x00, 0x00, 0x00, 0x13, 0x01, 0x00, 0x00, 0x78, 0x56, 0x34, 0x12, 0x01, 0x00, 0x00, 0x00];
    assert!(NowMessage::decode(&bytes).unwrap_err().is_not_enough_bytes());
}

#[test]
fn decoder_never_panics_on_arbitrary_input() {
    let mut seed: u32 = 0x1234_5678;
    for len in 0..64usize {
        for _ in 0..64 {
            let mut buf = Vec::with_capacity(len);
            for _ in 0..len {
                seed = seed.wrapping_mul(1_103_515_245).wrapping_add(12345);
                buf.push((seed >> 16) as u8);
            }
            if len >= 6 {
                buf[4] = 0x10 + (buf[4] % 5);
                buf[5] %= 0x16;
            }
            let _ = NowMessage::decode(&buf);
        }
    }
}

#[test]
fn unknown_class_is_unsupported_message() {
    let bytes = [0x00, 0x00, 0x00, 0x00, 0x42, 0x07, 0x00, 0x00];
    assert_eq!(NowMessage::decode(&bytes).unwrap_err(), PduError::UnsupportedMessage { class: 0x42, kind: 0x07 });
}

#[test]
fn unknown_kind_is_unsupported_message() {
    let bytes = [0x00, 0x00, 0x00, 0x00, 0x13, 0x7F, 0x00, 0x00];
    assert_eq!(NowMessage::decode(&bytes).unwrap_err(), PduError::UnsupportedMessage { class: 0x13, kind: 0x7F });
}

#[test]
fn short_header_is_not_enough_bytes() {
    assert!(NowMessage::decode(&[0x00, 0x00, 0x00]).unwrap_err().is_not_enough_bytes());
}

#[test]
fn typed_decoder_rejects_other_message_type() {
    let bytes = NowExecAbortMsg::new(1, 2).encode().unwrap();
    let err = NowExecCancelRspMsg::decode(&bytes).unwrap_err();
    assert_eq!(err, PduError::InvalidField { field: "type", reason: "invalid message type" });
}

#[test]
fn size_matches_encoded_length() {
    let msg = NowExecAbortMsg::new(7, 9);
    assert_eq!(msg.size().unwrap(), msg.encode().unwrap().len());
    assert_eq!(msg.body_size().unwrap(), 8);
}

#[test]
fn session_action_with_invalid_guid_text_is_invalid_field() {
    // Kind FOCUS, then a 3-character text that is no GUID.
    let bytes = [0x09, 0x00, 0x00, 0x00, 0x14, 0x06, 0x00, 0x00, 0x02, 0x00, 0x00, 0x00, 0x03, b'x', b'y', b'z', 0x00];
    assert!(NowMessage::decode(&bytes).unwrap_err().is_invalid_field());
}
