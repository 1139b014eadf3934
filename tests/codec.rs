use robot_demos::{
    decode_down, decode_message, decode_up, decode_websocket_message, encode_down, encode_up,
    validated_decode, ApiDown, ApiError, ApiUp, ChannelMessage, CommandKind, EnableKcp, KcpConfig,
    KcpServerStatus, ReportFrequency, Status, StatusKind,
};

fn hello(major: u32, minor: u32, session_id: u64) -> ApiUp {
    ApiUp {
        protocol_major_version: major,
        protocol_minor_version: minor,
        session_id,
        report_frequency: ReportFrequency::Rf50Hz.code(),
        robot_type: 3,
        log: None,
        time_stamp: None,
        kcp_server_status: None,
        status: None,
    }
}

fn config() -> KcpConfig {
    KcpConfig {
        window_size_snd_wnd: 64,
        window_size_rcv_wnd: 64,
        interval_ms: 10,
        no_delay: true,
        nc: true,
        resend: 2,
    }
}

#[test]
fn major_mismatch_is_rejected() {
    for major in [0u32, 2, 7, u32::MAX] {
        let mut up = hello(major, 5, 11);
        up.status = Some(Status { kind: StatusKind::Base, payload: vec![1, 2, 3] });
        let bytes = encode_up(&up);
        let d = validated_decode(&bytes, 1, 0);
        assert_eq!(
            d.envelope,
            Err(ApiError::IncompatibleMajorVersion { found: major, expected: 1 })
        );
    }
}

#[test]
fn major_mismatch_still_hands_out_log() {
    let mut up = hello(2, 0, 1);
    up.log = Some("motor overheated".to_string());
    let bytes = encode_up(&up);
    let d = decode_message(&bytes, true);
    assert!(matches!(d.envelope, Err(ApiError::IncompatibleMajorVersion { found: 2, expected: 1 })));
    assert_eq!(d.log, Some("motor overheated".to_string()));
    let quiet = decode_message(&bytes, false);
    assert_eq!(quiet.log, None);
}

#[test]
fn minor_gate() {
    let bytes = encode_up(&hello(1, 0, 9));
    let low = validated_decode(&bytes, 1, 1);
    assert_eq!(low.envelope, Err(ApiError::IncompatibleMinorVersion { found: 0, floor: 1 }));
    let ok = validated_decode(&bytes, 1, 0);
    assert_eq!(ok.envelope, Ok(hello(1, 0, 9)));
}

#[test]
fn down_round_trip_every_variant() {
    let all = vec![
        ApiDown::EnableKcp(EnableKcp { client_peer_port: 40123, kcp_config: Some(config()) }),
        ApiDown::EnableKcp(EnableKcp { client_peer_port: 0, kcp_config: None }),
        ApiDown::EnableKcp(EnableKcp {
            client_peer_port: u32::MAX,
            kcp_config: Some(KcpConfig {
                window_size_snd_wnd: 0,
                window_size_rcv_wnd: u32::MAX,
                interval_ms: 1,
                no_delay: false,
                nc: false,
                resend: 0,
            }),
        }),
        ApiDown::SetReportFrequency(ReportFrequency::Rf1Hz.code()),
        ApiDown::SetReportFrequency(ReportFrequency::Rf1000Hz.code()),
        ApiDown::SetReportFrequency(-3),
        ApiDown::SetReportFrequency(i32::MIN),
        ApiDown::Command(CommandKind::Base, vec![8, 1]),
        ApiDown::Command(CommandKind::Arm, vec![]),
        ApiDown::Command(CommandKind::LinearLift, vec![7; 300]),
        ApiDown::Command(CommandKind::RotateLift, vec![0xff, 0x80, 0x00]),
        ApiDown::Command(CommandKind::SecondaryDevice, vec![1; 20000]),
        ApiDown::PlaceholderMessage(true),
        ApiDown::PlaceholderMessage(false),
    ];
    for d in all {
        let bytes = encode_down(&d);
        assert_eq!(decode_down(&bytes), Ok(Some(d)));
    }
}

#[test]
fn down_wire_bytes_exact() {
    assert_eq!(encode_down(&ApiDown::PlaceholderMessage(true)), vec![64, 1]);
    assert_eq!(encode_down(&ApiDown::SetReportFrequency(ReportFrequency::Rf250Hz.code())), vec![16, 4]);
    assert_eq!(
        encode_down(&ApiDown::SetReportFrequency(-1)),
        vec![16, 0xff, 0xff, 0xff, 0xff, 0xff, 0xff, 0xff, 0xff, 0xff, 0x01]
    );
    let long = encode_down(&ApiDown::Command(CommandKind::Base, vec![5; 200]));
    assert_eq!(&long[..3], &[26, 0xc8, 0x01]);
    assert_eq!(long.len(), 203);
    let kcp = encode_down(&ApiDown::EnableKcp(EnableKcp { client_peer_port: 300, kcp_config: Some(config()) }));
    assert_eq!(
        kcp,
        vec![10, 17, 8, 0xac, 0x02, 18, 12, 8, 64, 16, 64, 24, 10, 32, 1, 40, 1, 48, 2]
    );
    let defaults = encode_down(&ApiDown::EnableKcp(EnableKcp {
        client_peer_port: 0,
        kcp_config: Some(KcpConfig {
            window_size_snd_wnd: 0,
            window_size_rcv_wnd: 0,
            interval_ms: 0,
            no_delay: false,
            nc: false,
            resend: 0,
        }),
    }));
    assert_eq!(defaults, vec![10, 2, 18, 0]);
}

#[test]
fn down_decode_errors() {
    assert_eq!(decode_down(&[64, 1, 0]), Err(ApiError::Decode));
    assert_eq!(decode_down(&[26, 5, 1]), Err(ApiError::Decode));
    assert_eq!(decode_down(&[0x80]), Err(ApiError::Decode));
    assert_eq!(decode_down(&[66, 0]), Err(ApiError::Decode));
    assert_eq!(decode_down(&[10, 0, 0x0b]), Err(ApiError::Decode));
    assert_eq!(decode_down(&[0x80, 0x80, 0x80, 0x80, 0x10, 1]), Err(ApiError::Decode));
}

#[test]
fn down_decode_protobuf_rules() {
    assert_eq!(decode_down(&[]), Ok(None));
    assert_eq!(decode_down(&[72, 1]), Ok(None));
    assert_eq!(decode_down(&[64, 2]), Ok(Some(ApiDown::PlaceholderMessage(true))));
    assert_eq!(decode_down(&[64, 0]), Ok(Some(ApiDown::PlaceholderMessage(false))));
    assert_eq!(decode_down(&[16, 7]), Ok(Some(ApiDown::SetReportFrequency(7))));
    assert_eq!(decode_down(&[64, 0x81, 0x00]), Ok(Some(ApiDown::PlaceholderMessage(true))));
    // Unknown fields of every wire type are skipped; the last variant wins.
    assert_eq!(
        decode_down(&[64, 1, 0x49, 1, 2, 3, 4, 5, 6, 7, 8, 0x4d, 1, 2, 3, 4, 0x4a, 1, 9, 16, 5]),
        Ok(Some(ApiDown::SetReportFrequency(5)))
    );
    // The same command kind twice merges; another kind replaces it.
    assert_eq!(
        decode_down(&[26, 2, 8, 1, 26, 1, 7]),
        Ok(Some(ApiDown::Command(CommandKind::Base, vec![8, 1, 7])))
    );
    assert_eq!(
        decode_down(&[26, 2, 8, 1, 34, 1, 7]),
        Ok(Some(ApiDown::Command(CommandKind::Arm, vec![7])))
    );
    // Settings in any order, missing ones at zero, a later occurrence merged in.
    assert_eq!(
        decode_down(&[10, 13, 18, 4, 24, 10, 8, 64, 8, 0x90, 0x03, 18, 2, 48, 2]),
        Ok(Some(ApiDown::EnableKcp(EnableKcp {
            client_peer_port: 400,
            kcp_config: Some(KcpConfig {
                window_size_snd_wnd: 64,
                window_size_rcv_wnd: 0,
                interval_ms: 10,
                no_delay: false,
                nc: false,
                resend: 2,
            }),
        })))
    );
    // A 32-bit field keeps the low 32 bits.
    assert_eq!(
        decode_down(&[10, 6, 8, 0x81, 0x80, 0x80, 0x80, 0x10]),
        Ok(Some(ApiDown::EnableKcp(EnableKcp { client_peer_port: 1, kcp_config: None })))
    );
}

#[test]
fn up_round_trip_full() {
    let up = ApiUp {
        protocol_major_version: 1,
        protocol_minor_version: 4,
        session_id: u64::MAX,
        report_frequency: ReportFrequency::Rf1Hz.code(),
        robot_type: -17,
        log: Some("déjà vu ✓".to_string()),
        time_stamp: Some(vec![8, 0xd2, 0x09]),
        kcp_server_status: Some(KcpServerStatus { server_port: 9000 }),
        status: Some(Status { kind: StatusKind::Arm, payload: vec![9; 40] }),
    };
    let bytes = encode_up(&up);
    assert_eq!(decode_up(&bytes), Ok(up));
}

#[test]
fn up_decode_errors() {
    let mut bytes = encode_up(&hello(1, 0, 1));
    bytes.push(0);
    assert_eq!(decode_up(&bytes), Err(ApiError::Decode));
    let mut bad_log = encode_up(&hello(1, 0, 1));
    bad_log.extend_from_slice(&[50, 2, 0xc3, 0x28]);
    assert_eq!(decode_up(&bad_log), Err(ApiError::Decode));
    let d = validated_decode(&[1, 2, 3], 1, 0);
    assert_eq!(d.envelope, Err(ApiError::Decode));
    assert_eq!(d.log, None);
}

#[test]
fn websocket_messages() {
    let bytes = encode_up(&hello(1, 2, 5));
    let d = decode_websocket_message(ChannelMessage::Binary(bytes));
    assert_eq!(d.envelope, Ok(hello(1, 2, 5)));
    let other = decode_websocket_message(ChannelMessage::NonBinary);
    assert_eq!(other.envelope, Err(ApiError::UnexpectedMessageType));
}

#[test]
fn empty_envelope_is_major_zero() {
    assert_eq!(decode_up(&[]), Ok(hello_defaults()));
    let d = decode_message(&[], true);
    assert_eq!(d.envelope, Err(ApiError::IncompatibleMajorVersion { found: 0, expected: 1 }));
    assert_eq!(d.log, None);
}

fn hello_defaults() -> ApiUp {
    ApiUp {
        protocol_major_version: 0,
        protocol_minor_version: 0,
        session_id: 0,
        report_frequency: 0,
        robot_type: 0,
        log: None,
        time_stamp: None,
        kcp_server_status: None,
        status: None,
    }
}

#[test]
fn hello_with_minor_left_out() {
    let d = validated_decode(&[8, 1, 24, 7], 1, 0);
    let mut expected = hello_defaults();
    expected.protocol_major_version = 1;
    expected.session_id = 7;
    assert_eq!(d.envelope, Ok(expected));
}

#[test]
fn up_protobuf_rules() {
    // Out of order, repeated (last wins), with an unknown repeated message.
    let bytes = [24, 7, 0x6a, 3, 8, 1, 16, 8, 2, 16, 1, 8, 1, 66, 2, 8, 5, 66, 3, 8, 0xa8, 0x46];
    let up = decode_up(&bytes).unwrap();
    assert_eq!(up.protocol_major_version, 1);
    assert_eq!(up.protocol_minor_version, 1);
    assert_eq!(up.session_id, 7);
    assert_eq!(up.kcp_server_status, Some(KcpServerStatus { server_port: 9000 }));
    // The port message is a nested message; a bare integer there is refused.
    assert_eq!(decode_up(&[64, 5]), Err(ApiError::Decode));
    // Status payloads of one kind merge; another kind replaces them.
    let st = decode_up(&[74, 1, 1, 74, 1, 2]).unwrap().status;
    assert_eq!(st, Some(Status { kind: StatusKind::Base, payload: vec![1, 2] }));
    let st = decode_up(&[74, 1, 1, 82, 1, 2]).unwrap().status;
    assert_eq!(st, Some(Status { kind: StatusKind::Arm, payload: vec![2] }));
    // A later log replaces an earlier one.
    let up = decode_up(&[50, 1, b'a', 50, 1, b'b']).unwrap();
    assert_eq!(up.log, Some("b".to_string()));
}
