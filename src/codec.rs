//! Validated decoding: an up envelope is trusted only when its protocol
//! versions pass the version check.

use vstd::prelude::*;
use crate::envelope::ApiError;
use crate::up::{decode_up, parse_up, ApiUp, UpModel};

verus! {

/// The major protocol version this library speaks.
pub const ACCEPTABLE_PROTOCOL_MAJOR_VERSION: u32 = 1;

/// The version check: the major version must equal `expected_major`, and the
/// minor version must be at least `minor_floor`.
pub open spec fn version_check(u: UpModel, expected_major: u32, minor_floor: u32) -> Result<UpModel, ApiError> {
    if u.major != expected_major {
        Err(ApiError::IncompatibleMajorVersion { found: u.major, expected: expected_major })
    } else if u.minor < minor_floor {
        Err(ApiError::IncompatibleMinorVersion { found: u.minor, floor: minor_floor })
    } else {
        Ok(u)
    }
}

/// What a validated decode of `b` gives.
pub open spec fn validated(b: Seq<u8>, expected_major: u32, minor_floor: u32) -> Result<UpModel, ApiError> {
    match parse_up(b) {
        Some(u) => version_check(u, expected_major, minor_floor),
        None => Err(ApiError::Decode),
    }
}

/// The log that `b` carries, whatever the versions say.
pub open spec fn carried_log(b: Seq<u8>) -> Option<Seq<char>> {
    match parse_up(b) {
        Some(u) => u.log,
        None => None,
    }
}

pub open spec fn string_view(s: Option<String>) -> Option<Seq<char>> {
    match s {
        Some(t) => Some(t@),
        None => None,
    }
}

/// An up envelope after the version check, with the robot's diagnostic log, which is
/// handed out whatever the version check decided.
#[derive(Debug, PartialEq, Eq)]
pub struct Decoded {
    pub envelope: Result<ApiUp, ApiError>,
    pub log: Option<String>,
}

/// Decodes `bytes` and checks its versions against `expected_major` and
/// `minor_floor`.
pub fn validated_decode(bytes: &[u8], expected_major: u32, minor_floor: u32) -> (r: Decoded)
    ensures
        match r.envelope {
            Ok(u) => validated(bytes@, expected_major, minor_floor) == Ok::<UpModel, ApiError>(u@),
            Err(e) => validated(bytes@, expected_major, minor_floor) == Err::<UpModel, ApiError>(e),
        },
        string_view(r.log) == carried_log(bytes@),
{
    match decode_up(bytes) {
        Err(e) => Decoded { envelope: Err(e), log: None },
        Ok(u) => {
            let log = u.log.clone();
            let envelope = if u.protocol_major_version != expected_major {
                Err(
                    ApiError::IncompatibleMajorVersion {
                        found: u.protocol_major_version,
                        expected: expected_major,
                    },
                )
            } else if u.protocol_minor_version < minor_floor {
                Err(
                    ApiError::IncompatibleMinorVersion {
                        found: u.protocol_minor_version,
                        floor: minor_floor,
                    },
                )
            } else {
                Ok(u)
            };
            Decoded { envelope, log }
        },
    }
}

/// Decodes `bytes` against this library's major version, with no minor
/// floor. The log is handed out only when `log` is set.
pub fn decode_message(bytes: &[u8], log: bool) -> (r: Decoded)
    ensures
        match r.envelope {
            Ok(u) => validated(bytes@, ACCEPTABLE_PROTOCOL_MAJOR_VERSION, 0) == Ok::<
                UpModel,
                ApiError,
            >(u@),
            Err(e) => validated(bytes@, ACCEPTABLE_PROTOCOL_MAJOR_VERSION, 0) == Err::<
                UpModel,
                ApiError,
            >(e),
        },
        string_view(r.log) == if log {
            carried_log(bytes@)
        } else {
            None
        },
{
    let d = validated_decode(bytes, ACCEPTABLE_PROTOCOL_MAJOR_VERSION, 0);
    if log {
        d
    } else {
        Decoded { envelope: d.envelope, log: None }
    }
}

/// A message as the reliable channel delivers it.
#[derive(Clone, Debug, PartialEq, Eq)]
pub enum ChannelMessage {
    Binary(Vec<u8>),
    /// Text, ping, pong, close: nothing an envelope travels in.
    NonBinary,
}

/// Decodes a reliable-channel message: only a binary one holds an
/// envelope. The log is always handed out.
pub fn decode_websocket_message(msg: ChannelMessage) -> (r: Decoded)
    ensures
        match msg {
            ChannelMessage::Binary(b) => {
                &&& match r.envelope {
                    Ok(u) => validated(b@, ACCEPTABLE_PROTOCOL_MAJOR_VERSION, 0) == Ok::<
                        UpModel,
                        ApiError,
                    >(u@),
                    Err(e) => validated(b@, ACCEPTABLE_PROTOCOL_MAJOR_VERSION, 0) == Err::<
                        UpModel,
                        ApiError,
                    >(e),
                }
                &&& string_view(r.log) == carried_log(b@)
            },
            ChannelMessage::NonBinary => r.envelope == Err::<ApiUp, ApiError>(
                ApiError::UnexpectedMessageType,
            ) && r.log is None,
        },
{
    match msg {
        ChannelMessage::Binary(b) => decode_message(b.as_slice(), true),
        ChannelMessage::NonBinary => Decoded { envelope: Err(ApiError::UnexpectedMessageType), log: None },
    }
}

/// An envelope whose major version differs from the expected one is
/// rejected as such, and no status of it is handed out.
pub proof fn lemma_major_mismatch_rejected(b: Seq<u8>, expected_major: u32, minor_floor: u32)
    requires
        parse_up(b) is Some,
        parse_up(b).unwrap().major != expected_major,
    ensures
        validated(b, expected_major, minor_floor) == Err::<UpModel, ApiError>(
            ApiError::IncompatibleMajorVersion {
                found: parse_up(b).unwrap().major,
                expected: expected_major,
            },
        ),
{
}

/// With the major version right, an envelope passes exactly when its minor
/// version reaches the floor.
pub proof fn lemma_minor_version_check(b: Seq<u8>, expected_major: u32, minor_floor: u32)
    requires
        parse_up(b) is Some,
        parse_up(b).unwrap().major == expected_major,
    ensures
        parse_up(b).unwrap().minor < minor_floor ==> validated(b, expected_major, minor_floor)
            == Err::<UpModel, ApiError>(
            ApiError::IncompatibleMinorVersion { found: parse_up(b).unwrap().minor, floor: minor_floor },
        ),
        parse_up(b).unwrap().minor >= minor_floor ==> validated(b, expected_major, minor_floor)
            == Ok::<UpModel, ApiError>(parse_up(b).unwrap()),
{
}

} // verus!
