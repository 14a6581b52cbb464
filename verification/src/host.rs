//! Conversions between bus time values and the host's `std::time` types.
//!
//! `std::time::SystemTime` and `std::time::Duration` are opaque here. What the
//! proofs know of them is the contract of each `std` function that the conversions
//! call; those contracts are stated below and are believed, not proved.

use vstd::prelude::*;

use crate::error::ConversionError;
use crate::time::{
    in_host_range, narrow_nanos, narrow_secs, widen_nanos, widen_secs, Duration, Time,
    NANOS_PER_SEC,
};
use std::time::SystemTime;
use std::time::SystemTimeError;
use vstd::std_specs::convert::TryFromSpecImpl;

verus! {

/// `std::time::SystemTime`, carried through as an opaque value.
#[verifier::external_type_specification]
#[verifier::external_body]
pub struct ExSystemTime(SystemTime);

/// `std::time::SystemTimeError`, carried through as an opaque value.
#[verifier::external_type_specification]
#[verifier::external_body]
pub struct ExSystemTimeError(SystemTimeError);

/// The length of a `std::time::Duration` in nanoseconds, as
/// `std::time::Duration::as_nanos` reports it.
pub uninterp spec fn duration_nanos(d: std::time::Duration) -> nat;

/// The position of a `std::time::SystemTime` on the time line: the nanoseconds
/// from `std::time::UNIX_EPOCH` to it, negative before the epoch, as
/// `SystemTime::duration_since` measures them.
pub uninterp spec fn unix_nanos(t: SystemTime) -> int;

/// `Duration::new`: the duration of `secs` seconds and `nanos` nanoseconds, a
/// billion or more of which carry over into the seconds. The call panics when that
/// carry overflows the seconds, which `requires` rules out.
pub assume_specification[ std::time::Duration::new ](secs: u64, nanos: u32) -> (d:
    std::time::Duration)
    requires
        secs + nanos / NANOS_PER_SEC <= u64::MAX,
    ensures
        duration_nanos(d) == secs * NANOS_PER_SEC + nanos,
;

/// `Duration::as_secs`: the whole seconds that the duration contains.
pub assume_specification[ std::time::Duration::as_secs ](d: &std::time::Duration) -> (secs: u64)
    ensures
        secs == duration_nanos(*d) / (NANOS_PER_SEC as nat),
;

/// `Duration::subsec_nanos`: the part of the duration beyond its whole seconds, in
/// nanoseconds; always less than a billion.
pub assume_specification[ std::time::Duration::subsec_nanos ](d: &std::time::Duration) -> (nanos:
    u32)
    ensures
        nanos == duration_nanos(*d) % (NANOS_PER_SEC as nat),
;

/// `SystemTime::duration_since`: the time elapsed from `earlier` to `t`, and an
/// error exactly when `earlier` is the later of the two.
pub assume_specification[ SystemTime::duration_since ](t: &SystemTime, earlier: SystemTime) -> (r:
    Result<std::time::Duration, SystemTimeError>)
    ensures
        match r {
            Ok(d) => unix_nanos(earlier) <= unix_nanos(*t) && duration_nanos(d) == unix_nanos(*t)
                - unix_nanos(earlier),
            Err(_) => unix_nanos(*t) < unix_nanos(earlier),
        },
;

/// `SystemTime::checked_add`: a host time, or `None` where the host has none for
/// the sum. Where the answer stands is not stated: a host clock may count in
/// steps coarser than a nanosecond. The caller measures it with `duration_since`.
pub assume_specification[ SystemTime::checked_add ](t: &SystemTime, d: std::time::Duration) -> (r:
    Option<SystemTime>)
;

/// `std::time::UNIX_EPOCH`, the origin that [`unix_nanos`] counts from.
#[verifier::external_body]
fn unix_epoch() -> (t: SystemTime)
    ensures
        unix_nanos(t) == 0,
{
    std::time::UNIX_EPOCH
}

/// The bus time at `n` nanoseconds after the Unix epoch: whole seconds and the
/// remainder, each in 32 signed bits.
pub open spec fn time_at(n: int) -> Result<Time, ConversionError> {
    if n < 0 {
        Err(ConversionError::BeforeEpoch)
    } else if n / (NANOS_PER_SEC as int) > i32::MAX {
        Err(ConversionError::SecondsOverflow)
    } else {
        Ok(
            Time {
                secs: (n / (NANOS_PER_SEC as int)) as i32,
                nsecs: (n % (NANOS_PER_SEC as int)) as i32,
            },
        )
    }
}

/// The bus duration of `n` nanoseconds: whole seconds and the remainder, each in
/// 32 signed bits.
pub open spec fn duration_of(n: nat) -> Result<Duration, ConversionError> {
    if n / (NANOS_PER_SEC as nat) > i32::MAX {
        Err(ConversionError::SecondsOverflow)
    } else {
        Ok(
            Duration {
                sec: (n / (NANOS_PER_SEC as nat)) as i32,
                nsec: (n % (NANOS_PER_SEC as nat)) as i32,
            },
        )
    }
}

/// The conversion as a spec function, for callers that reach it through `TryInto`.
impl TryFromSpecImpl<SystemTime> for Time {
    open spec fn obeys_try_from_spec() -> bool {
        true
    }

    open spec fn try_from_spec(val: SystemTime) -> Result<Time, ConversionError> {
        time_at(unix_nanos(val))
    }
}

/// From a host time to a bus time: the time since the Unix epoch, split into whole
/// seconds and nanoseconds.
impl TryFrom<SystemTime> for Time {
    type Error = ConversionError;

    fn try_from(val: SystemTime) -> (r: Result<Time, ConversionError>)
        ensures
            r == time_at(unix_nanos(val)),
    {
        let delta = match val.duration_since(unix_epoch()) {
            Ok(delta) => delta,
            Err(_) => {
                return Err(ConversionError::BeforeEpoch);
            },
        };
        let secs = narrow_secs(delta.as_secs())?;
        let nsecs = narrow_nanos(delta.subsec_nanos())?;
        Ok(Time { secs, nsecs })
    }
}

/// What converting the bus time `v` to a host time may return: a negative field is
/// refused, seconds first; otherwise the result is a host time standing at the
/// nanoseconds of `v`, or `HostRange` where the host has no time exactly there.
pub open spec fn host_time_of(v: Time, r: Result<SystemTime, ConversionError>) -> bool {
    if v.secs < 0 {
        r == Err::<SystemTime, ConversionError>(ConversionError::NegativeSeconds)
    } else if v.nsecs < 0 {
        r == Err::<SystemTime, ConversionError>(ConversionError::NegativeNanoseconds)
    } else {
        match r {
            Ok(t) => unix_nanos(t) == v.nanos(),
            Err(e) => e == ConversionError::HostRange,
        }
    }
}

/// Takes the host's answer to "the epoch plus `secs` seconds and `nanos`
/// nanoseconds" only where it stands exactly there, as measured from the epoch.
/// Nanoseconds of a billion or more count as whole seconds.
pub fn confirm_host_time(sum: Option<SystemTime>, secs: u64, nanos: u32) -> (r: Result<
    SystemTime,
    ConversionError,
>)
    ensures
        r == match sum {
            Some(t) => if unix_nanos(t) == secs * NANOS_PER_SEC + nanos {
                Ok::<SystemTime, ConversionError>(t)
            } else {
                Err::<SystemTime, ConversionError>(ConversionError::HostRange)
            },
            None => Err::<SystemTime, ConversionError>(ConversionError::HostRange),
        },
{
    let t = in_host_range(sum)?;
    let measured = match t.duration_since(unix_epoch()) {
        Ok(measured) => measured,
        Err(_) => {
            return Err(ConversionError::HostRange);
        },
    };
    let carry: u64 = (nanos / NANOS_PER_SEC) as u64;
    let whole = measured.as_secs();
    if whole >= carry && whole - carry == secs && measured.subsec_nanos() == nanos % NANOS_PER_SEC {
        Ok(t)
    } else {
        Err(ConversionError::HostRange)
    }
}

/// The result is an opaque host value, so no spec function gives it: what the
/// conversion returns is stated on `try_from` itself.
impl TryFromSpecImpl<Time> for SystemTime {
    open spec fn obeys_try_from_spec() -> bool {
        false
    }

    open spec fn try_from_spec(val: Time) -> Result<SystemTime, ConversionError> {
        arbitrary()
    }
}

/// From a bus time to a host time: the Unix epoch plus the seconds and the
/// nanoseconds of the bus time, measured again from the epoch before it is handed
/// out. A negative field is refused.
impl TryFrom<Time> for SystemTime {
    type Error = ConversionError;

    fn try_from(val: Time) -> (r: Result<SystemTime, ConversionError>)
        ensures
            host_time_of(val, r),
    {
        let secs = widen_secs(val.secs)?;
        let nsecs = widen_nanos(val.nsecs)?;
        let duration = std::time::Duration::new(secs, nsecs);
        confirm_host_time(unix_epoch().checked_add(duration), secs, nsecs)
    }
}

/// The conversion as a spec function, for callers that reach it through `TryInto`.
impl TryFromSpecImpl<std::time::Duration> for Duration {
    open spec fn obeys_try_from_spec() -> bool {
        true
    }

    open spec fn try_from_spec(val: std::time::Duration) -> Result<Duration, ConversionError> {
        duration_of(duration_nanos(val))
    }
}

/// From a host duration to a bus duration: whole seconds and nanoseconds, each
/// narrowed to 32 signed bits.
impl TryFrom<std::time::Duration> for Duration {
    type Error = ConversionError;

    fn try_from(val: std::time::Duration) -> (r: Result<Duration, ConversionError>)
        ensures
            r == duration_of(duration_nanos(val)),
    {
        let sec = narrow_secs(val.as_secs())?;
        let nsec = narrow_nanos(val.subsec_nanos())?;
        Ok(Duration { sec, nsec })
    }
}

/// What converting the bus duration `v` to a host duration returns: a negative
/// field is refused, seconds first; otherwise the result is a host duration as long
/// as the nanoseconds of `v`.
pub open spec fn host_duration_of(
    v: Duration,
    r: Result<std::time::Duration, ConversionError>,
) -> bool {
    if v.sec < 0 {
        r == Err::<std::time::Duration, ConversionError>(ConversionError::NegativeSeconds)
    } else if v.nsec < 0 {
        r == Err::<std::time::Duration, ConversionError>(ConversionError::NegativeNanoseconds)
    } else {
        r matches Ok(d) && duration_nanos(d) == v.nanos()
    }
}

/// The result is an opaque host value, so no spec function gives it: what the
/// conversion returns is stated on `try_from` itself.
impl TryFromSpecImpl<Duration> for std::time::Duration {
    open spec fn obeys_try_from_spec() -> bool {
        false
    }

    open spec fn try_from_spec(val: Duration) -> Result<std::time::Duration, ConversionError> {
        arbitrary()
    }
}

/// From a bus duration to a host duration. A negative field is refused.
impl TryFrom<Duration> for std::time::Duration {
    type Error = ConversionError;

    fn try_from(val: Duration) -> (r: Result<std::time::Duration, ConversionError>)
        ensures
            host_duration_of(val, r),
    {
        let sec = widen_secs(val.sec)?;
        let nsec = widen_nanos(val.nsec)?;
        Ok(std::time::Duration::new(sec, nsec))
    }
}

/// Round trip from the bus: a bus time whose fields are not negative and whose
/// nanoseconds are fewer than a billion comes back unchanged from every host time
/// that it converts to.
pub proof fn lemma_time_survives_host(v: Time, t: SystemTime)
    requires
        v.secs >= 0,
        0 <= v.nsecs < NANOS_PER_SEC,
        host_time_of(v, Ok(t)),
    ensures
        time_at(unix_nanos(t)) == Ok::<Time, ConversionError>(v),
{
}

/// What comes back where the round trip changes the value: the seconds gain the
/// whole seconds that the nanoseconds held, and the nanoseconds keep the rest. The
/// way back is refused where the seconds then pass 32 signed bits.
pub proof fn lemma_surplus_nanos_carry(v: Time, t: SystemTime)
    requires
        v.secs >= 0,
        v.nsecs >= 0,
        host_time_of(v, Ok(t)),
    ensures
        time_at(unix_nanos(t)) == if v.secs + (v.nsecs as int) / (NANOS_PER_SEC as int)
            > i32::MAX {
            Err::<Time, ConversionError>(ConversionError::SecondsOverflow)
        } else {
            Ok::<Time, ConversionError>(
                Time {
                    secs: (v.secs + (v.nsecs as int) / (NANOS_PER_SEC as int)) as i32,
                    nsecs: ((v.nsecs as int) % (NANOS_PER_SEC as int)) as i32,
                },
            )
        },
{
}

/// Round trip from the host: a host time that converts to the bus time `v` comes
/// back to the same place. Converting `v` is not refused for a negative field, and
/// gives a host time that stands where the first one stood, unless the host's
/// answer is refused with `HostRange`.
pub proof fn lemma_host_time_survives_bus(
    t: SystemTime,
    v: Time,
    back: Result<SystemTime, ConversionError>,
)
    requires
        time_at(unix_nanos(t)) == Ok::<Time, ConversionError>(v),
        host_time_of(v, back),
    ensures
        v.secs >= 0,
        0 <= v.nsecs < NANOS_PER_SEC,
        match back {
            Ok(b) => unix_nanos(b) == unix_nanos(t),
            Err(e) => e == ConversionError::HostRange,
        },
{
}

/// Round trip from the bus: a bus duration whose fields are not negative and whose
/// nanoseconds are fewer than a billion comes back unchanged from the host
/// duration that it converts to.
pub proof fn lemma_duration_survives_host(v: Duration, d: std::time::Duration)
    requires
        v.sec >= 0,
        0 <= v.nsec < NANOS_PER_SEC,
        host_duration_of(v, Ok(d)),
    ensures
        duration_of(duration_nanos(d)) == Ok::<Duration, ConversionError>(v),
{
}

/// Round trip from the host: a host duration that converts to the bus duration
/// `v` comes back with the same length, and converting `v` always succeeds.
pub proof fn lemma_host_duration_survives_bus(
    d: std::time::Duration,
    v: Duration,
    back: Result<std::time::Duration, ConversionError>,
)
    requires
        duration_of(duration_nanos(d)) == Ok::<Duration, ConversionError>(v),
        host_duration_of(v, back),
    ensures
        v.sec >= 0,
        0 <= v.nsec < NANOS_PER_SEC,
        back matches Ok(b) && duration_nanos(b) == duration_nanos(d),
{
}

} // verus!
