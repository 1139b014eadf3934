//! Arithmetic for reading a PTP hardware clock: the dynamic clock id of an
//! open device, and a `timespec` in milliseconds.

use vstd::prelude::*;
use crate::wire::{i32_of, i32_value};

verus! {

/// The dynamic clock id of the device open as `fd`: the complement of `fd`
/// shifted left by three, with the low bits set to 3 (FD_TO_CLOCKID in
/// <linux/ptp_clock.h>). On 32 bits that is `-8 * fd - 5`, wrapped.
pub fn fd_to_clockid(fd: i32) -> (r: i32)
    ensures
        r == i32_of((-8 * fd - 5 + 0x8_0000_0000) as nat),
{
    let f: i64 = fd as i64;
    assert(-0x8000_0000 <= f < 0x8000_0000);
    let v: i64 = 0x8_0000_0000 - 5 - 8 * f;
    i32_value(v as u64)
}

/// A `timespec` in whole milliseconds; `nanos` is below one second, as
/// clock_gettime reports it.
pub fn timespec_millis(secs: i64, nanos: i64) -> (r: i128)
    requires
        0 <= nanos < 1_000_000_000,
    ensures
        r == secs * 1000 + nanos / 1_000_000,
{
    (secs as i128) * 1000 + ((nanos as u64) / 1_000_000) as i128
}

} // verus!
