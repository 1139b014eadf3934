//! Control-session bridge between an operator console and a remote robot:
//! the envelope codec, the low-latency frame parser, the session handshake,
//! and the control loop with its deadman watchdog.

mod varint;
mod wire;
pub mod envelope;
pub mod down;
pub mod up;
pub mod codec;
pub mod frame;
pub mod session;
pub mod control;
pub mod cell;
pub mod clock;

pub use cell::WriteOnce;
pub use clock::{fd_to_clockid, timespec_millis};
pub use codec::{
    decode_message, decode_websocket_message, validated_decode, ChannelMessage, Decoded,
    ACCEPTABLE_PROTOCOL_MAJOR_VERSION,
};
pub use control::{ControlAction, ControlEvent, ControlLoop, LoopPhase, StopReason};
pub use down::{decode_down, encode_down, ApiDown, CommandKind, EnableKcp, KcpConfig};
pub use envelope::{ApiError, ReportFrequency};
pub use frame::{encode_frame, FrameError, FrameParser, Opcode};
pub use session::{
    host_family, IpFamily, Session, SessionAction, SessionConfig, SessionFailure, SessionState,
};
pub use up::{decode_up, encode_up, ApiUp, KcpServerStatus, Status, StatusKind};
