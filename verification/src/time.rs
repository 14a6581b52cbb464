//! The bus's own time values, and the integer steps of every conversion.

use vstd::prelude::*;

use crate::error::ConversionError;

verus! {

/// Nanoseconds in one second.
pub const NANOS_PER_SEC: u32 = 1_000_000_000;

/// A point in time as the bus carries it: seconds and nanoseconds since the Unix
/// epoch, both signed and 32 bits wide.
///
/// The fields are carried literally: `nsecs` is not normalised into
/// `[0, NANOS_PER_SEC)`.
#[derive(Debug, Clone, Copy, PartialEq, Eq, Structural)]
pub struct Time {
    pub secs: i32,
    pub nsecs: i32,
}

/// A span of time as the bus carries it, with the same literal fields as [`Time`].
#[derive(Debug, Clone, Copy, PartialEq, Eq, Structural)]
pub struct Duration {
    pub sec: i32,
    pub nsec: i32,
}

impl Time {
    /// The nanoseconds since the epoch that the two fields add up to.
    pub open spec fn nanos(self) -> int {
        self.secs * NANOS_PER_SEC + self.nsecs
    }
}

impl Duration {
    /// The nanoseconds that the two fields add up to.
    pub open spec fn nanos(self) -> int {
        self.sec * NANOS_PER_SEC + self.nsec
    }
}

impl Default for Time {
    fn default() -> (r: Time)
        ensures
            r == (Time { secs: 0, nsecs: 0 }),
    {
        Time { secs: 0, nsecs: 0 }
    }
}

impl Default for Duration {
    fn default() -> (r: Duration)
        ensures
            r == (Duration { sec: 0, nsec: 0 }),
    {
        Duration { sec: 0, nsec: 0 }
    }
}

/// Narrows an unsigned count of whole seconds to the bus's 32 signed bits.
pub fn narrow_secs(secs: u64) -> (r: Result<i32, ConversionError>)
    ensures
        secs <= i32::MAX ==> r == Ok::<i32, ConversionError>(secs as i32),
        secs > i32::MAX ==> r == Err::<i32, ConversionError>(ConversionError::SecondsOverflow),
{
    match i32::try_from(secs) {
        Ok(v) => Ok(v),
        Err(_) => Err(ConversionError::SecondsOverflow),
    }
}

/// Narrows a signed count of whole seconds to the bus's 32 signed bits.
pub fn narrow_signed_secs(secs: i64) -> (r: Result<i32, ConversionError>)
    ensures
        i32::MIN <= secs <= i32::MAX ==> r == Ok::<i32, ConversionError>(secs as i32),
        !(i32::MIN <= secs <= i32::MAX) ==> r == Err::<i32, ConversionError>(
            ConversionError::SecondsOverflow,
        ),
{
    match i32::try_from(secs) {
        Ok(v) => Ok(v),
        Err(_) => Err(ConversionError::SecondsOverflow),
    }
}

/// Narrows an unsigned count of nanoseconds to the bus's 32 signed bits.
pub fn narrow_nanos(nanos: u32) -> (r: Result<i32, ConversionError>)
    ensures
        nanos <= i32::MAX ==> r == Ok::<i32, ConversionError>(nanos as i32),
        nanos > i32::MAX ==> r == Err::<i32, ConversionError>(
            ConversionError::NanosecondsOverflow,
        ),
{
    if nanos <= 0x7fff_ffff {
        Ok(nanos as i32)
    } else {
        Err(ConversionError::NanosecondsOverflow)
    }
}

/// Widens a seconds field to an unsigned count, refusing a negative one.
pub fn widen_secs(secs: i32) -> (r: Result<u64, ConversionError>)
    ensures
        secs >= 0 ==> r == Ok::<u64, ConversionError>(secs as u64),
        secs < 0 ==> r == Err::<u64, ConversionError>(ConversionError::NegativeSeconds),
{
    match u64::try_from(secs) {
        Ok(v) => Ok(v),
        Err(_) => Err(ConversionError::NegativeSeconds),
    }
}

/// Widens a nanoseconds field to an unsigned count, refusing a negative one.
pub fn widen_nanos(nanos: i32) -> (r: Result<u32, ConversionError>)
    ensures
        nanos >= 0 ==> r == Ok::<u32, ConversionError>(nanos as u32),
        nanos < 0 ==> r == Err::<u32, ConversionError>(ConversionError::NegativeNanoseconds),
{
    match u32::try_from(nanos) {
        Ok(v) => Ok(v),
        Err(_) => Err(ConversionError::NegativeNanoseconds),
    }
}

/// Takes the answer of a host constructor that may have no value to give: the
/// value, or `HostRange` where there is none.
pub fn in_host_range<T>(value: Option<T>) -> (r: Result<T, ConversionError>)
    ensures
        r == match value {
            Some(v) => Ok::<T, ConversionError>(v),
            None => Err::<T, ConversionError>(ConversionError::HostRange),
        },
{
    match value {
        Some(v) => Ok(v),
        None => Err(ConversionError::HostRange),
    }
}

} // verus!
