use robot_demos::{
    encode_up, host_family, ApiDown, ApiError, ApiUp, EnableKcp, IpFamily, KcpConfig,
    KcpServerStatus, ReportFrequency, Session, SessionAction, SessionConfig, SessionFailure,
    SessionState, WriteOnce,
};

fn config() -> SessionConfig {
    SessionConfig {
        expected_major: 1,
        minor_floor: 0,
        kcp_config: KcpConfig {
            window_size_snd_wnd: 64,
            window_size_rcv_wnd: 64,
            interval_ms: 10,
            no_delay: true,
            nc: true,
            resend: 2,
        },
        handshake_timeout_ms: 2000,
    }
}

fn up(major: u32, minor: u32, session_id: u64, port: Option<u32>) -> Vec<u8> {
    encode_up(&ApiUp {
        protocol_major_version: major,
        protocol_minor_version: minor,
        session_id,
        report_frequency: ReportFrequency::Rf50Hz.code(),
        robot_type: 1,
        log: None,
        time_stamp: None,
        kcp_server_status: port.map(|p| KcpServerStatus { server_port: p }),
        status: None,
    })
}

#[test]
fn handshake_reaches_dual_channel() {
    let mut s = Session::new(config());
    s.on_connected();
    assert_eq!(s.state, SessionState::AwaitingHello);
    let (d, a) = s.on_reliable_message(&up(1, 0, 7, None));
    assert!(d.envelope.is_ok());
    assert_eq!(a, SessionAction::Nothing);
    assert_eq!(s.state, SessionState::ReliableOnly { session_id: 7, major: 1, minor: 0 });
    let a = s.request_upgrade(50123);
    assert_eq!(
        a,
        SessionAction::SendReliable(ApiDown::EnableKcp(EnableKcp {
            client_peer_port: 50123,
            kcp_config: Some(config().kcp_config),
        }))
    );
    let (_, a) = s.on_reliable_message(&up(1, 0, 7, None));
    assert_eq!(a, SessionAction::Nothing);
    let (_, a) = s.on_reliable_message(&up(1, 0, 7, Some(9000)));
    assert_eq!(
        a,
        SessionAction::OpenLowLatency {
            session_id: 7,
            server_port: 9000,
            first: ApiDown::PlaceholderMessage(true),
        }
    );
    assert_eq!(
        s.state,
        SessionState::DualChannel { session_id: 7, major: 1, minor: 0, server_port: 9000 }
    );
    assert_eq!(s.session_id(), Some(7));
}

#[test]
fn hello_with_wrong_major_fails() {
    let mut s = Session::new(config());
    s.on_connected();
    s.on_reliable_message(&up(3, 0, 7, None));
    assert_eq!(
        s.state,
        SessionState::Failed(SessionFailure::Rejected(ApiError::IncompatibleMajorVersion {
            found: 3,
            expected: 1,
        }))
    );
}

#[test]
fn garbage_does_not_end_session() {
    let mut s = Session::new(config());
    s.on_connected();
    let (d, _) = s.on_reliable_message(&[0xff, 0xff]);
    assert_eq!(d.envelope, Err(ApiError::Decode));
    assert_eq!(s.state, SessionState::AwaitingHello);
}

#[test]
fn timeouts_and_failures() {
    let mut s = Session::new(config());
    s.on_connect_failed();
    assert_eq!(s.state, SessionState::Failed(SessionFailure::Connect));

    let mut s = Session::new(config());
    s.on_connected();
    s.on_timeout();
    assert_eq!(s.state, SessionState::Failed(SessionFailure::TimedOut));

    let mut s = Session::new(config());
    s.on_connected();
    s.on_reliable_message(&up(1, 0, 4, None));
    s.on_timeout();
    assert_eq!(s.state, SessionState::ReliableOnly { session_id: 4, major: 1, minor: 0 });
    assert_eq!(s.request_upgrade(1000), SessionAction::SendReliable(ApiDown::EnableKcp(EnableKcp {
        client_peer_port: 1000,
        kcp_config: Some(config().kcp_config),
    })));
    s.on_activation_failed();
    assert_eq!(s.state, SessionState::ReliableOnly { session_id: 4, major: 1, minor: 0 });
    s.on_transport_error();
    assert_eq!(s.state, SessionState::Failed(SessionFailure::Transport));
    assert_eq!(s.request_upgrade(1000), SessionAction::Nothing);
}

#[test]
fn upgrade_only_from_reliable_only() {
    let mut s = Session::new(config());
    assert_eq!(s.request_upgrade(1), SessionAction::Nothing);
    assert_eq!(s.state, SessionState::Connecting);
}

#[test]
fn host_families() {
    assert_eq!(host_family("127.0.0.1"), IpFamily::V4);
    assert_eq!(host_family("robot.local"), IpFamily::V4);
    assert_eq!(host_family("fe80::500d:96ff:fee1:d60b%3"), IpFamily::V6);
    assert_eq!(host_family("[::1]"), IpFamily::V6);
}

#[test]
fn write_once_first_wins() {
    let mut c: WriteOnce<u64> = WriteOnce::new();
    assert!(!c.is_set());
    assert_eq!(c.get(), None);
    assert!(c.set(7));
    assert!(!c.set(8));
    assert_eq!(c.get(), Some(&7));
}

#[test]
fn clock_id_matches_the_macro() {
    for fd in [0i32, 1, 3, 17, 1023, 0x0fff_ffff, 0x1000_0000, i32::MAX, -1, i32::MIN] {
        assert_eq!(robot_demos::fd_to_clockid(fd), ((!fd) << 3) | 3, "fd {}", fd);
    }
}

#[test]
fn timespec_in_millis() {
    assert_eq!(robot_demos::timespec_millis(0, 0), 0);
    assert_eq!(robot_demos::timespec_millis(12, 345_678_901), 12_345);
    assert_eq!(robot_demos::timespec_millis(-2, 999_999_999), -1_001);
    assert_eq!(robot_demos::timespec_millis(i64::MAX, 999_999_999), i64::MAX as i128 * 1000 + 999);
}
