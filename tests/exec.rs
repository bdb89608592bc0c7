use now_proto_pdu::{ComApartmentStateKind, NowExecAbortMsg, NowExecBatchMsg, NowExecCancelReqMsg, NowExecCancelRspMsg, NowExecDataMsg, NowExecDataStreamKind, NowExecMessage, NowExecProcessMsg, NowExecPwshMsg, NowExecResultMsg, NowExecRunMsg, NowExecShellMsg, NowExecStartedMsg, NowExecWinPsMsg, NowMessage, NowStatusError};

fn roundtrip_exec_msg(msg: NowMessage, expected: &[u8]) -> NowMessage {
    let buf = msg.encode().expect("failed to encode message");
    assert_eq!(buf.as_slice(), expected);
    assert_eq!(msg.size().expect("failed to size message"), buf.len());
    let decoded = NowMessage::decode(&buf).expect("failed to decode message");
    assert_eq!(decoded.encode().expect("failed to encode decoded message"), buf);
    decoded
}

#[test]
fn roundtrip_exec_abort() {
    let msg = NowExecAbortMsg::new(0x12345678, 1);

    let decoded = roundtrip_exec_msg(msg.into(), &[0x08, 0x00, 0x00, 0x00, 0x13, 0x01, 0x00, 0x00, 0x78, 0x56, 0x34, 0x12, 0x01, 0x00, 0x00, 0x00]);

    let actual = match decoded {
        NowMessage::Exec(NowExecMessage::Abort(msg)) => msg,
        _ => panic!("Expected NowExecAbortMsg"),
    };

    assert_eq!(actual.session_id(), 0x12345678);
    assert_eq!(actual.exit_code(), 1);
}

#[test]
fn roundtrip_exec_cancel_req() {
    let msg = NowExecCancelReqMsg::new(0x12345678);

    let decoded = roundtrip_exec_msg(msg.into(), &[0x04, 0x00, 0x00, 0x00, 0x13, 0x02, 0x00, 0x00, 0x78, 0x56, 0x34, 0x12]);

    let actual = match decoded {
        NowMessage::Exec(NowExecMessage::CancelReq(msg)) => msg,
        _ => panic!("Expected NowExecCancelReqMsg"),
    };

    assert_eq!(actual.session_id(), 0x12345678);
}

#[test]
fn roundtrip_exec_cancel_rsp() {
    let msg = NowExecCancelRspMsg::new_success(0x12345678);

    let decoded = roundtrip_exec_msg(msg.into(), &[0x0E, 0x00, 0x00, 0x00, 0x13, 0x03, 0x00, 0x00, 0x78, 0x56, 0x34, 0x12, 0x00, 0x00, 0x00, 0x00, 0x00, 0x00, 0x00, 0x00, 0x00, 0x00]);

    let actual = match decoded {
        NowMessage::Exec(NowExecMessage::CancelRsp(msg)) => msg,
        _ => panic!("Expected NowExecCancelRspMsg"),
    };

    assert_eq!(actual.session_id(), 0x12345678);
    assert!(actual.to_result().is_ok());
}

#[test]
fn roundtrip_exec_cancel_rsp_error() {
    let msg = NowExecCancelRspMsg::new_error(0x12345678, NowStatusError::new_generic(0xDEADBEEF)).unwrap();

    let decoded = roundtrip_exec_msg(msg.into(), &[0x0E, 0x00, 0x00, 0x00, 0x13, 0x03, 0x00, 0x00, 0x78, 0x56, 0x34, 0x12, 0x01, 0x00, 0x00, 0x00, 0xEF, 0xBE, 0xAD, 0xDE, 0x00, 0x00]);

    let actual = match decoded {
        NowMessage::Exec(NowExecMessage::CancelRsp(msg)) => msg,
        _ => panic!("Expected NowExecCancelRspMsg"),
    };

    assert_eq!(actual.session_id(), 0x12345678);
    assert_eq!(actual.to_result().unwrap_err(), NowStatusError::new_generic(0xDEADBEEF));
}

#[test]
fn roundtrip_exec_result_success() {
    let msg = NowExecResultMsg::new_success(0x12345678, 42);

    let decoded = roundtrip_exec_msg(msg.into(), &[0x12, 0x00, 0x00, 0x00, 0x13, 0x04, 0x00, 0x00, 0x78, 0x56, 0x34, 0x12, 0x2A, 0x00, 0x00, 0x00, 0x00, 0x00, 0x00, 0x00, 0x00, 0x00, 0x00, 0x00, 0x00, 0x00]);

    let actual = match decoded {
        NowMessage::Exec(NowExecMessage::Result(msg)) => msg,
        _ => panic!("Expected NowExecResultMsg"),
    };

    assert_eq!(actual.session_id(), 0x12345678);
    assert_eq!(actual.to_result().unwrap(), 42);
}

#[test]
fn roundtrip_exec_result_error() {
    let msg = NowExecResultMsg::new_error(
        0x12345678,
        NowStatusError::new_generic(0xDEADBEEF).with_message("ABC".to_string()).unwrap(),
    )
    .unwrap();

    let decoded = roundtrip_exec_msg(msg.into(), &[0x15, 0x00, 0x00, 0x00, 0x13, 0x04, 0x00, 0x00, 0x78, 0x56, 0x34, 0x12, 0x00, 0x00, 0x00, 0x00, 0x03, 0x00, 0x00, 0x00, 0xEF, 0xBE, 0xAD, 0xDE, 0x03, 0x41, 0x42, 0x43, 0x00]);

    let actual = match decoded {
        NowMessage::Exec(NowExecMessage::Result(msg)) => msg,
        _ => panic!("Expected NowExecResultMsg"),
    };

    assert_eq!(actual.session_id(), 0x12345678);
    assert_eq!(
        actual.to_result().unwrap_err(),
        NowStatusError::new_generic(0xDEADBEEF).with_message("ABC".to_string()).unwrap()
    );
}

#[test]
fn roundtrip_exec_data() {
    let msg = NowExecDataMsg::new(0x12345678, NowExecDataStreamKind::Stdout, true, vec![0x01, 0x02, 0x03]).unwrap();

    let decoded = roundtrip_exec_msg(msg.into(), &[0x08, 0x00, 0x00, 0x00, 0x13, 0x05, 0x05, 0x00, 0x78, 0x56, 0x34, 0x12, 0x03, 0x01, 0x02, 0x03]);

    let actual = match decoded {
        NowMessage::Exec(NowExecMessage::Data(msg)) => msg,
        _ => panic!("Expected NowExecDataMsg"),
    };

    assert_eq!(actual.session_id(), 0x12345678);
    assert_eq!(actual.stream_kind().unwrap(), NowExecDataStreamKind::Stdout);
    assert!(actual.is_last());
}

#[test]
fn roundtrip_exec_data_empty() {
    let msg = NowExecDataMsg::new(0x12345678, NowExecDataStreamKind::Stdin, false, vec![]).unwrap();

    let decoded = roundtrip_exec_msg(msg.into(), &[0x05, 0x00, 0x00, 0x00, 0x13, 0x05, 0x02, 0x00, 0x78, 0x56, 0x34, 0x12, 0x00]);

    let actual = match decoded {
        NowMessage::Exec(NowExecMessage::Data(msg)) => msg,
        _ => panic!("Expected NowExecDataMsg"),
    };

    assert_eq!(actual.session_id(), 0x12345678);
    assert_eq!(actual.stream_kind().unwrap(), NowExecDataStreamKind::Stdin);
    assert!(!actual.is_last());
    assert_eq!(actual.data(), &[] as &[u8]);
}

#[test]
fn roundtrip_exec_started() {
    let msg = NowExecStartedMsg::new(0x12345678);

    let decoded = roundtrip_exec_msg(msg.into(), &[0x04, 0x00, 0x00, 0x00, 0x13, 0x06, 0x00, 0x00, 0x78, 0x56, 0x34, 0x12]);

    let actual = match decoded {
        NowMessage::Exec(NowExecMessage::Started(msg)) => msg,
        _ => panic!("Expected NowExecStartedMsg"),
    };

    assert_eq!(actual.session_id(), 0x12345678);
}

#[test]
fn roundtrip_exec_run() {
    let msg = NowExecRunMsg::new(0x1234567, "hello".to_string())
        .unwrap()
        .with_directory("hi".to_string())
        .unwrap();

    let decoded = roundtrip_exec_msg(msg.into(), &[0x0F, 0x00, 0x00, 0x00, 0x13, 0x10, 0x01, 0x00, 0x67, 0x45, 0x23, 0x01, 0x05, 0x68, 0x65, 0x6C, 0x6C, 0x6F, 0x00, 0x02, 0x68, 0x69, 0x00]);

    let actual = match decoded {
        NowMessage::Exec(NowExecMessage::Run(msg)) => msg,
        _ => panic!("Expected NowExecRunMsg"),
    };

    assert_eq!(actual.session_id(), 0x1234567);
    assert_eq!(actual.command(), "hello");
}

#[test]
fn roundtrip_exec_process() {
    let msg = NowExecProcessMsg::new(0x12345678, "a".to_string())
        .unwrap()
        .with_parameters("b".to_string())
        .unwrap()
        .with_directory("c".to_string())
        .unwrap();

    let decoded = roundtrip_exec_msg(msg.into(), &[0x0D, 0x00, 0x00, 0x00, 0x13, 0x11, 0x03, 0x00, 0x78, 0x56, 0x34, 0x12, 0x01, 0x61, 0x00, 0x01, 0x62, 0x00, 0x01, 0x63, 0x00]);

    let actual = match decoded {
        NowMessage::Exec(NowExecMessage::Process(msg)) => msg,
        _ => panic!("Expected NowExecProcessMsg"),
    };

    assert_eq!(actual.session_id(), 0x12345678);
    assert_eq!(actual.filename(), "a");
    assert_eq!(actual.parameters().unwrap(), "b");
    assert_eq!(actual.directory().unwrap(), "c");
}

#[test]
fn roundtrip_exec_process_simple() {
    let msg = NowExecProcessMsg::new(0x12345678, "a".to_string()).unwrap();

    let decoded = roundtrip_exec_msg(msg.into(), &[0x0B, 0x00, 0x00, 0x00, 0x13, 0x11, 0x00, 0x00, 0x78, 0x56, 0x34, 0x12, 0x01, 0x61, 0x00, 0x00, 0x00, 0x00, 0x00]);

    let actual = match decoded {
        NowMessage::Exec(NowExecMessage::Process(msg)) => msg,
        _ => panic!("Expected NowExecProcessMsg"),
    };

    assert_eq!(actual.session_id(), 0x12345678);
    assert_eq!(actual.filename(), "a");
    assert!(actual.parameters().is_none());
    assert!(actual.directory().is_none());
}

#[test]
fn roundtrip_exec_shell() {
    let msg = NowExecShellMsg::new(0x12345678, "a".to_string())
        .unwrap()
        .with_shell("b".to_string())
        .unwrap()
        .with_directory("c".to_string())
        .unwrap();

    let decoded = roundtrip_exec_msg(msg.into(), &[0x0D, 0x00, 0x00, 0x00, 0x13, 0x12, 0x03, 0x00, 0x78, 0x56, 0x34, 0x12, 0x01, 0x61, 0x00, 0x01, 0x62, 0x00, 0x01, 0x63, 0x00]);

    let actual = match decoded {
        NowMessage::Exec(NowExecMessage::Shell(msg)) => msg,
        _ => panic!("Expected NowExecShellMsg"),
    };

    assert_eq!(actual.session_id(), 0x12345678);
    assert_eq!(actual.command(), "a");
    assert_eq!(actual.shell().unwrap(), "b");
    assert_eq!(actual.directory().unwrap(), "c");
}

#[test]
fn roundtrip_exec_shell_simple() {
    let msg = NowExecShellMsg::new(0x12345678, "a".to_string()).unwrap();

    let decoded = roundtrip_exec_msg(msg.into(), &[0x0B, 0x00, 0x00, 0x00, 0x13, 0x12, 0x00, 0x00, 0x78, 0x56, 0x34, 0x12, 0x01, 0x61, 0x00, 0x00, 0x00, 0x00, 0x00]);

    let actual = match decoded {
        NowMessage::Exec(NowExecMessage::Shell(msg)) => msg,
        _ => panic!("Expected NowExecShellMsg"),
    };

    assert_eq!(actual.session_id(), 0x12345678);
    assert_eq!(actual.command(), "a");
    assert!(actual.shell().is_none());
    assert!(actual.directory().is_none());
}

#[test]
fn roundtrip_exec_batch() {
    let msg = NowExecBatchMsg::new(0x12345678, "a".to_string())
        .unwrap()
        .with_directory("b".to_string())
        .unwrap();

    let decoded = roundtrip_exec_msg(msg.into(), &[0x0A, 0x00, 0x00, 0x00, 0x13, 0x13, 0x01, 0x00, 0x78, 0x56, 0x34, 0x12, 0x01, 0x61, 0x00, 0x01, 0x62, 0x00]);

    let actual = match decoded {
        NowMessage::Exec(NowExecMessage::Batch(msg)) => msg,
        _ => panic!("Expected NowExecBatchMsg"),
    };

    assert_eq!(actual.session_id(), 0x12345678);
    assert_eq!(actual.command(), "a");
    assert_eq!(actual.directory().unwrap(), "b");
}

#[test]
fn roundtrip_exec_batch_simple() {
    let msg = NowExecBatchMsg::new(0x12345678, "a".to_string()).unwrap();

    let decoded = roundtrip_exec_msg(msg.into(), &[0x09, 0x00, 0x00, 0x00, 0x13, 0x13, 0x00, 0x00, 0x78, 0x56, 0x34, 0x12, 0x01, 0x61, 0x00, 0x00, 0x00]);

    let actual = match decoded {
        NowMessage::Exec(NowExecMessage::Batch(msg)) => msg,
        _ => panic!("Expected NowExecBatchMsg"),
    };

    assert_eq!(actual.session_id(), 0x12345678);
    assert_eq!(actual.command(), "a");
    assert!(actual.directory().is_none());
}

#[test]
fn roundtrip_exec_ps() {
    let msg = NowExecWinPsMsg::new(0x12345678, "a".to_string())
        .unwrap()
        .with_apartment_state(ComApartmentStateKind::Mta)
        .set_no_profile()
        .set_no_logo()
        .with_directory("d".to_string())
        .unwrap()
        .with_execution_policy("b".to_string())
        .unwrap()
        .with_configuration_name("c".to_string())
        .unwrap();

    let decoded = roundtrip_exec_msg(msg.into(), &[0x10, 0x00, 0x00, 0x00, 0x13, 0x14, 0xD9, 0x01, 0x78, 0x56, 0x34, 0x12, 0x01, 0x61, 0x00, 0x01, 0x64, 0x00, 0x01, 0x62, 0x00, 0x01, 0x63, 0x00]);

    let actual = match decoded {
        NowMessage::Exec(NowExecMessage::WinPs(msg)) => msg,
        _ => panic!("Expected NowExecPwshMsg::WinPs"),
    };

    assert!(actual.is_no_profile());
    assert!(actual.is_no_logo());
    assert_eq!(actual.apartment_state().unwrap(), Some(ComApartmentStateKind::Mta));
    assert_eq!(actual.session_id(), 0x12345678);
    assert_eq!(actual.command(), "a");
    assert_eq!(actual.directory().unwrap(), "d");
    assert_eq!(actual.execution_policy().unwrap(), "b");
    assert_eq!(actual.configuration_name().unwrap(), "c");
}

#[test]
fn roundtrip_exec_ps_simple() {
    let msg = NowExecWinPsMsg::new(0x12345678, "a".to_string()).unwrap();

    let decoded = roundtrip_exec_msg(msg.into(), &[0x0D, 0x00, 0x00, 0x00, 0x13, 0x14, 0x00, 0x00, 0x78, 0x56, 0x34, 0x12, 0x01, 0x61, 0x00, 0x00, 0x00, 0x00, 0x00, 0x00, 0x00]);

    let actual = match decoded {
        NowMessage::Exec(NowExecMessage::WinPs(msg)) => msg,
        _ => panic!("Expected NowExecPwshMsg::WinPs"),
    };

    assert!(!actual.is_no_profile());
    assert!(!actual.is_no_logo());
    assert!(actual.apartment_state().unwrap().is_none());
    assert_eq!(actual.session_id(), 0x12345678);
    assert_eq!(actual.command(), "a");
    assert!(actual.directory().is_none());
    assert!(actual.execution_policy().is_none());
    assert!(actual.configuration_name().is_none());
}

#[test]
fn roundtrip_exec_pwsh() {
    let msg = NowExecPwshMsg::new(0x12345678, "a".to_string())
        .unwrap()
        .with_apartment_state(ComApartmentStateKind::Mta)
        .set_no_profile()
        .set_no_logo()
        .with_directory("d".to_string())
        .unwrap()
        .with_execution_policy("b".to_string())
        .unwrap()
        .with_configuration_name("c".to_string())
        .unwrap();

    let decoded = roundtrip_exec_msg(msg.into(), &[0x10, 0x00, 0x00, 0x00, 0x13, 0x15, 0xD9, 0x01, 0x78, 0x56, 0x34, 0x12, 0x01, 0x61, 0x00, 0x01, 0x64, 0x00, 0x01, 0x62, 0x00, 0x01, 0x63, 0x00]);

    let actual = match decoded {
        NowMessage::Exec(NowExecMessage::Pwsh(msg)) => msg,
        _ => panic!("Expected NowExecPwshMsg::Pwsh"),
    };

    assert!(actual.is_no_profile());
    assert!(actual.is_no_logo());
    assert_eq!(actual.apartment_state().unwrap(), Some(ComApartmentStateKind::Mta));
    assert_eq!(actual.session_id(), 0x12345678);
    assert_eq!(actual.command(), "a");
    assert_eq!(actual.directory().unwrap(), "d");
    assert_eq!(actual.execution_policy().unwrap(), "b");
    assert_eq!(actual.configuration_name().unwrap(), "c");
}

#[test]
fn roundtrip_exec_pwsh_simple() {
    let msg = NowExecPwshMsg::new(0x12345678, "a".to_string()).unwrap();

    let decoded = roundtrip_exec_msg(msg.into(), &[0x0D, 0x00, 0x00, 0x00, 0x13, 0x15, 0x00, 0x00, 0x78, 0x56, 0x34, 0x12, 0x01, 0x61, 0x00, 0x00, 0x00, 0x00, 0x00, 0x00, 0x00]);

    let actual = match decoded {
        NowMessage::Exec(NowExecMessage::Pwsh(msg)) => msg,
        _ => panic!("Expected NowExecPwshMsg::Pwsh"),
    };

    assert!(!actual.is_no_profile());
    assert!(!actual.is_no_logo());
    assert!(actual.apartment_state().unwrap().is_none());
    assert_eq!(actual.session_id(), 0x12345678);
    assert_eq!(actual.command(), "a");
    assert!(actual.directory().is_none());
    assert!(actual.execution_policy().is_none());
    assert!(actual.configuration_name().is_none());
}

#[test]
fn exec_run_v1_0() {
    let msg = NowExecRunMsg::new(0x1234567, "hello".to_string()).unwrap();
    const ENCODED: &[u8] = &[
        0x0B, 0x00, 0x00, 0x00, 0x13, 0x10, 0x00, 0x00, 0x67, 0x45, 0x23, 0x01, 0x05, 0x68, 0x65, 0x6C, 0x6C, 0x6F,
        0x00,
    ];
    let decoded = NowMessage::decode(ENCODED).expect("failed to decode message");
    let actual = match decoded {
        NowMessage::Exec(NowExecMessage::Run(msg)) => msg,
        _ => panic!("Expected NowExecRunMsg"),
    };
    assert_eq!(actual.session_id(), msg.session_id());
    assert_eq!(actual.command(), msg.command());
    assert_eq!(actual.directory(), msg.directory());
}
