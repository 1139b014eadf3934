//! The session handshake: from a fresh reliable connection to a session
//! whose commands travel on the low-latency channel. The driver performs
//! the I/O and reports each event; the session answers with what to do.

use vstd::prelude::*;
use crate::codec::{validated, validated_decode, Decoded};
use crate::down::{ApiDown, DownModel, EnableKcp, KcpConfig};
use crate::envelope::ApiError;
use crate::up::UpModel;
use vstd::string::StringSliceAdditionalSpecFns;

verus! {

/// Why a session ended.
#[derive(Clone, Copy, Debug, PartialEq, Eq, Structural)]
pub enum SessionFailure {
    /// The reliable channel could not be reached.
    Connect,
    /// A channel failed while the handshake waited on it.
    Transport,
    /// A handshake step waited longer than the configured timeout.
    TimedOut,
    /// The robot's envelopes failed the version check.
    Rejected(ApiError),
}

#[derive(Clone, Copy, Debug, PartialEq, Eq, Structural)]
pub enum SessionState {
    Connecting,
    AwaitingHello,
    ReliableOnly { session_id: u64, major: u32, minor: u32 },
    UpgradingToKcp { session_id: u64, major: u32, minor: u32, local_port: u16 },
    DualChannel { session_id: u64, major: u32, minor: u32, server_port: u32 },
    Failed(SessionFailure),
}

/// What a session is set up with.
#[derive(Clone, Copy, Debug, PartialEq, Eq, Structural)]
pub struct SessionConfig {
    pub expected_major: u32,
    pub minor_floor: u32,
    pub kcp_config: KcpConfig,
    /// How long the driver may wait for the hello or for the robot's
    /// low-latency port before it reports a timeout.
    pub handshake_timeout_ms: u64,
}

/// What the driver must do after an event.
#[derive(Clone, Debug, PartialEq, Eq)]
pub enum SessionAction {
    Nothing,
    /// Send this envelope on the reliable channel.
    SendReliable(ApiDown),
    /// Open the low-latency channel to the robot's `server_port`, keyed by
    /// `session_id`, and send `first` on it at once: the channel is not live
    /// until it carries traffic.
    OpenLowLatency { session_id: u64, server_port: u32, first: ApiDown },
}

pub enum ActionModel {
    Nothing,
    SendReliable(DownModel),
    OpenLowLatency { session_id: u64, server_port: u32, first: DownModel },
}

impl View for SessionAction {
    type V = ActionModel;

    open spec fn view(&self) -> ActionModel {
        match self {
            SessionAction::Nothing => ActionModel::Nothing,
            SessionAction::SendReliable(d) => ActionModel::SendReliable(d@),
            SessionAction::OpenLowLatency { session_id, server_port, first } => ActionModel::OpenLowLatency {
                session_id: *session_id,
                server_port: *server_port,
                first: first@,
            },
        }
    }
}

/// The state after an envelope arrives on the reliable channel, given the
/// outcome of its validated decode. Bytes that are no envelope change
/// nothing; an envelope that fails the version check ends the session.
pub open spec fn after_envelope(s: SessionState, v: Result<UpModel, ApiError>) -> SessionState {
    match v {
        Err(ApiError::Decode) => s,
        Err(e) => match s {
            SessionState::Connecting => s,
            SessionState::Failed(_) => s,
            _ => SessionState::Failed(SessionFailure::Rejected(e)),
        },
        Ok(u) => match s {
            SessionState::AwaitingHello => SessionState::ReliableOnly {
                session_id: u.session_id,
                major: u.major,
                minor: u.minor,
            },
            SessionState::UpgradingToKcp { session_id, major, minor, local_port } => match u.kcp_server_status {
                Some(k) => SessionState::DualChannel {
                    session_id,
                    major,
                    minor,
                    server_port: k.server_port,
                },
                None => s,
            },
            _ => s,
        },
    }
}

/// What the driver does after that envelope: open the low-latency channel
/// once the robot has named its port.
pub open spec fn envelope_action(s: SessionState, v: Result<UpModel, ApiError>) -> ActionModel {
    match (s, v) {
        (SessionState::UpgradingToKcp { session_id, .. }, Ok(u)) => match u.kcp_server_status {
            Some(k) => ActionModel::OpenLowLatency {
                session_id,
                server_port: k.server_port,
                first: DownModel::PlaceholderMessage(true),
            },
            None => ActionModel::Nothing,
        },
        _ => ActionModel::Nothing,
    }
}

/// The request that asks the robot for a low-latency channel towards
/// `local_port`.
pub open spec fn enable_request(c: SessionConfig, local_port: u16) -> DownModel {
    DownModel::EnableKcp(EnableKcp { client_peer_port: local_port as u32, kcp_config: Some(c.kcp_config) })
}

/// One control session, from connect to failure or to dual-channel.
pub struct Session {
    pub config: SessionConfig,
    pub state: SessionState,
}

impl Session {
    pub fn new(config: SessionConfig) -> (r: Session)
        ensures
            r.config == config,
            r.state == SessionState::Connecting,
    {
        Session { config, state: SessionState::Connecting }
    }

    /// The session id the robot assigned, once the hello has arrived.
    pub open spec fn spec_session_id(&self) -> Option<u64> {
        match self.state {
            SessionState::ReliableOnly { session_id, .. } => Some(session_id),
            SessionState::UpgradingToKcp { session_id, .. } => Some(session_id),
            SessionState::DualChannel { session_id, .. } => Some(session_id),
            _ => None,
        }
    }

    pub fn session_id(&self) -> (r: Option<u64>)
        ensures
            r == self.spec_session_id(),
    {
        match self.state {
            SessionState::ReliableOnly { session_id, .. } => Some(session_id),
            SessionState::UpgradingToKcp { session_id, .. } => Some(session_id),
            SessionState::DualChannel { session_id, .. } => Some(session_id),
            _ => None,
        }
    }

    /// The reliable channel is up: wait for the robot's hello.
    pub fn on_connected(&mut self)
        ensures
            final(self).config == old(self).config,
            final(self).state == if old(self).state == SessionState::Connecting {
                SessionState::AwaitingHello
            } else {
                old(self).state
            },
    {
        if self.state == SessionState::Connecting {
            self.state = SessionState::AwaitingHello;
        }
    }

    /// The reliable channel could not be reached.
    pub fn on_connect_failed(&mut self)
        ensures
            final(self).config == old(self).config,
            final(self).state == if old(self).state == SessionState::Connecting {
                SessionState::Failed(SessionFailure::Connect)
            } else {
                old(self).state
            },
    {
        if self.state == SessionState::Connecting {
            self.state = SessionState::Failed(SessionFailure::Connect);
        }
    }

    /// A message arrived on the reliable channel. It is decoded and version-checked in
    /// any state, and handed back with its log, so that late envelopes still
    /// reach the caller.
    pub fn on_reliable_message(&mut self, bytes: &[u8]) -> (r: (Decoded, SessionAction))
        ensures
            final(self).config == old(self).config,
            ({
                let v = validated(bytes@, old(self).config.expected_major, old(self).config.minor_floor);
                &&& final(self).state == after_envelope(old(self).state, v)
                &&& r.1@ == envelope_action(old(self).state, v)
                &&& match r.0.envelope {
                    Ok(u) => v == Ok::<UpModel, ApiError>(u@),
                    Err(e) => v == Err::<UpModel, ApiError>(e),
                }
            }),
            crate::codec::string_view(r.0.log) == crate::codec::carried_log(bytes@),
    {
        let d = validated_decode(bytes, self.config.expected_major, self.config.minor_floor);
        let mut action = SessionAction::Nothing;
        match &d.envelope {
            Err(ApiError::Decode) => {},
            Err(e) => match self.state {
                SessionState::Connecting => {},
                SessionState::Failed(_) => {},
                _ => {
                    self.state = SessionState::Failed(SessionFailure::Rejected(*e));
                },
            },
            Ok(u) => match self.state {
                SessionState::AwaitingHello => {
                    self.state = SessionState::ReliableOnly {
                        session_id: u.session_id,
                        major: u.protocol_major_version,
                        minor: u.protocol_minor_version,
                    };
                },
                SessionState::UpgradingToKcp { session_id, major, minor, local_port } => {
                    match u.kcp_server_status {
                        Some(k) => {
                            self.state = SessionState::DualChannel {
                                session_id,
                                major,
                                minor,
                                server_port: k.server_port,
                            };
                            action = SessionAction::OpenLowLatency {
                                session_id,
                                server_port: k.server_port,
                                first: ApiDown::PlaceholderMessage(true),
                            };
                        },
                        None => {},
                    }
                },
                _ => {},
            },
        }
        (d, action)
    }

    /// The caller asks for the low-latency channel, having bound a local
    /// datagram socket on `local_port`: the request goes out on the
    /// reliable channel. Outside `ReliableOnly` nothing happens.
    pub fn request_upgrade(&mut self, local_port: u16) -> (r: SessionAction)
        ensures
            final(self).config == old(self).config,
            match old(self).state {
                SessionState::ReliableOnly { session_id, major, minor } => final(self).state
                    == SessionState::UpgradingToKcp { session_id, major, minor, local_port }
                    && r@ == ActionModel::SendReliable(enable_request(old(self).config, local_port)),
                _ => final(self).state == old(self).state && r@ == ActionModel::Nothing,
            },
    {
        match self.state {
            SessionState::ReliableOnly { session_id, major, minor } => {
                self.state = SessionState::UpgradingToKcp { session_id, major, minor, local_port };
                SessionAction::SendReliable(
                    ApiDown::EnableKcp(
                        EnableKcp {
                            client_peer_port: local_port as u32,
                            kcp_config: Some(self.config.kcp_config),
                        },
                    ),
                )
            },
            _ => SessionAction::Nothing,
        }
    }

    /// The low-latency channel could not be opened: the session goes on
    /// over the reliable channel alone.
    pub fn on_activation_failed(&mut self)
        ensures
            final(self).config == old(self).config,
            final(self).state == match old(self).state {
                SessionState::DualChannel { session_id, major, minor, .. } => SessionState::ReliableOnly {
                    session_id,
                    major,
                    minor,
                },
                SessionState::UpgradingToKcp { session_id, major, minor, .. } => SessionState::ReliableOnly {
                    session_id,
                    major,
                    minor,
                },
                s => s,
            },
    {
        match self.state {
            SessionState::DualChannel { session_id, major, minor, .. } => {
                self.state = SessionState::ReliableOnly { session_id, major, minor };
            },
            SessionState::UpgradingToKcp { session_id, major, minor, .. } => {
                self.state = SessionState::ReliableOnly { session_id, major, minor };
            },
            _ => {},
        }
    }

    /// A handshake wait ran past the timeout.
    pub fn on_timeout(&mut self)
        ensures
            final(self).config == old(self).config,
            final(self).state == match old(self).state {
                SessionState::Connecting => SessionState::Failed(SessionFailure::TimedOut),
                SessionState::AwaitingHello => SessionState::Failed(SessionFailure::TimedOut),
                SessionState::UpgradingToKcp { .. } => SessionState::Failed(SessionFailure::TimedOut),
                s => s,
            },
    {
        match self.state {
            SessionState::Connecting => {
                self.state = SessionState::Failed(SessionFailure::TimedOut);
            },
            SessionState::AwaitingHello => {
                self.state = SessionState::Failed(SessionFailure::TimedOut);
            },
            SessionState::UpgradingToKcp { .. } => {
                self.state = SessionState::Failed(SessionFailure::TimedOut);
            },
            _ => {},
        }
    }

    /// A channel failed: the session ends, unless it already has.
    pub fn on_transport_error(&mut self)
        ensures
            final(self).config == old(self).config,
            final(self).state == match old(self).state {
                SessionState::Failed(f) => SessionState::Failed(f),
                _ => SessionState::Failed(SessionFailure::Transport),
            },
    {
        match self.state {
            SessionState::Failed(_) => {},
            _ => {
                self.state = SessionState::Failed(SessionFailure::Transport);
            },
        }
    }
}

/// The hello fixes the session id, and once the upgrade is requested the
/// robot's port announcement takes the session to dual-channel under that
/// same id, opening the low-latency channel at the announced port with a
/// placeholder as its first traffic.
pub proof fn lemma_handshake_path(c: SessionConfig, hello: UpModel, local_port: u16, status: UpModel)
    requires
        hello.major == c.expected_major,
        hello.minor >= c.minor_floor,
        status.kcp_server_status is Some,
    ensures
        ({
            let s1 = after_envelope(SessionState::AwaitingHello, Ok(hello));
            let s2 = SessionState::UpgradingToKcp {
                session_id: hello.session_id,
                major: hello.major,
                minor: hello.minor,
                local_port,
            };
            let port = status.kcp_server_status.unwrap().server_port;
            &&& s1 == SessionState::ReliableOnly {
                session_id: hello.session_id,
                major: hello.major,
                minor: hello.minor,
            }
            &&& after_envelope(s2, Ok(status)) == SessionState::DualChannel {
                session_id: hello.session_id,
                major: hello.major,
                minor: hello.minor,
                server_port: port,
            }
            &&& envelope_action(s2, Ok(status)) == ActionModel::OpenLowLatency {
                session_id: hello.session_id,
                server_port: port,
                first: DownModel::PlaceholderMessage(true),
            }
        }),
{
}

/// The address family of a host.
#[derive(Clone, Copy, Debug, PartialEq, Eq, Structural)]
pub enum IpFamily {
    V4,
    V6,
}

/// The family of `host` as written: only IPv6 literals hold a colon. The
/// local datagram socket is bound to the unspecified address of that family.
pub fn host_family(host: &str) -> (r: IpFamily)
    ensures
        (r == IpFamily::V6) == host.spec_bytes().contains(58u8),
{
    let b = host.as_bytes();
    let mut i: usize = 0;
    while i < b.len()
        invariant
            i <= b@.len(),
            b@ == host.spec_bytes(),
            forall|j: int| 0 <= j < i ==> b@[j] != 58u8,
        decreases b@.len() - i,
    {
        if b[i] == 58u8 {
            return IpFamily::V6;
        }
        i = i + 1;
    }
    IpFamily::V4
}

} // verus!
