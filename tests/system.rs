use now_proto_pdu::{NowMessage, NowSystemMessage, NowSystemShutdownMsg};

fn roundtrip_system_msg(msg: NowMessage, expected: &[u8]) -> NowMessage {
    let buf = msg.encode().expect("failed to encode message");
    assert_eq!(buf.as_slice(), expected);
    assert_eq!(msg.size().expect("failed to size message"), buf.len());
    let decoded = NowMessage::decode(&buf).expect("failed to decode message");
    assert_eq!(decoded.encode().expect("failed to encode decoded message"), buf);
    decoded
}

#[test]
fn roundtrip_system_shutdown() {
    let msg = NowSystemShutdownMsg::new(123, "hello".to_string())
        .unwrap()
        .with_force_shutdown();

    let decoded = roundtrip_system_msg(msg.into(), &[0x0B, 0x00, 0x00, 0x00, 0x11, 0x03, 0x01, 0x00, 0x7B, 0x00, 0x00, 0x00, 0x05, 0x68, 0x65, 0x6C, 0x6C, 0x6F, 0x00]);

    let actual = match decoded {
        NowMessage::System(NowSystemMessage::Shutdown(msg)) => msg,
        _ => panic!("Expected NowSystemShutdownMsg"),
    };

    assert_eq!(actual.timeout(), 123);
}
