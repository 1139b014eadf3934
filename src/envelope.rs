//! Items shared by both envelope directions.

use vstd::prelude::*;

verus! {

/// How often the robot pushes telemetry on a channel.
#[derive(Clone, Copy, Debug, PartialEq, Eq, Structural)]
pub enum ReportFrequency {
    Rf1Hz,
    Rf10Hz,
    Rf50Hz,
    Rf100Hz,
    Rf250Hz,
    Rf500Hz,
    Rf1000Hz,
}

/// The wire code of a report frequency.
pub open spec fn frequency_code(f: ReportFrequency) -> i32 {
    match f {
        ReportFrequency::Rf1Hz => 0,
        ReportFrequency::Rf10Hz => 1,
        ReportFrequency::Rf50Hz => 2,
        ReportFrequency::Rf100Hz => 3,
        ReportFrequency::Rf250Hz => 4,
        ReportFrequency::Rf500Hz => 5,
        ReportFrequency::Rf1000Hz => 6,
    }
}

/// The report frequency with wire code `c`, if any.
pub open spec fn frequency_of_code(c: i32) -> Option<ReportFrequency> {
    if c == 0 {
        Some(ReportFrequency::Rf1Hz)
    } else if c == 1 {
        Some(ReportFrequency::Rf10Hz)
    } else if c == 2 {
        Some(ReportFrequency::Rf50Hz)
    } else if c == 3 {
        Some(ReportFrequency::Rf100Hz)
    } else if c == 4 {
        Some(ReportFrequency::Rf250Hz)
    } else if c == 5 {
        Some(ReportFrequency::Rf500Hz)
    } else if c == 6 {
        Some(ReportFrequency::Rf1000Hz)
    } else {
        None
    }
}

impl ReportFrequency {
    pub fn code(&self) -> (r: i32)
        ensures
            r == frequency_code(*self),
    {
        match self {
            ReportFrequency::Rf1Hz => 0,
            ReportFrequency::Rf10Hz => 1,
            ReportFrequency::Rf50Hz => 2,
            ReportFrequency::Rf100Hz => 3,
            ReportFrequency::Rf250Hz => 4,
            ReportFrequency::Rf500Hz => 5,
            ReportFrequency::Rf1000Hz => 6,
        }
    }

    pub fn from_code(c: i32) -> (r: Option<ReportFrequency>)
        ensures
            r == frequency_of_code(c),
    {
        if c == 0 {
            Some(ReportFrequency::Rf1Hz)
        } else if c == 1 {
            Some(ReportFrequency::Rf10Hz)
        } else if c == 2 {
            Some(ReportFrequency::Rf50Hz)
        } else if c == 3 {
            Some(ReportFrequency::Rf100Hz)
        } else if c == 4 {
            Some(ReportFrequency::Rf250Hz)
        } else if c == 5 {
            Some(ReportFrequency::Rf500Hz)
        } else if c == 6 {
            Some(ReportFrequency::Rf1000Hz)
        } else {
            None
        }
    }
}

pub proof fn lemma_frequency_code(f: ReportFrequency)
    ensures
        frequency_of_code(frequency_code(f)) == Some(f),
{
}

/// Why an envelope was not accepted.
#[derive(Clone, Copy, Debug, PartialEq, Eq, Structural)]
pub enum ApiError {
    /// The bytes are not an envelope.
    Decode,
    /// The robot speaks another major protocol version: none of its status
    /// fields can be trusted.
    IncompatibleMajorVersion { found: u32, expected: u32 },
    /// The robot's minor protocol version is below the caller's floor.
    IncompatibleMinorVersion { found: u32, floor: u32 },
    /// A reliable-channel message that is not binary.
    UnexpectedMessageType,
}

} // verus!
