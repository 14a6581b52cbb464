//! Conversions between bus time values and the calendar types of `chrono`.
//!
//! A calendar time can lie before the Unix epoch and a calendar duration can be
//! negative, so these conversions accept negative seconds where the host's own
//! clock types do not. What the proofs know of `chrono` is the contract of each of
//! its functions that the conversions call; those contracts are stated below and
//! are believed, not proved.

use vstd::prelude::*;

use crate::error::ConversionError;
use crate::time::{
    in_host_range, narrow_nanos, narrow_signed_secs, widen_nanos, Duration, Time, NANOS_PER_SEC,
};
use chrono::TimeDelta;
use vstd::std_specs::convert::TryFromSpecImpl;

verus! {

/// A `chrono::DateTime<chrono::Utc>`, opaque to the proofs.
#[verifier::external_body]
#[derive(Debug, PartialEq, Eq)]
pub struct UtcDateTime {
    pub inner: chrono::DateTime<chrono::Utc>,
}

/// `chrono::TimeDelta` (also named `chrono::Duration`), carried through as an
/// opaque value.
#[verifier::external_type_specification]
#[verifier::external_body]
pub struct ExTimeDelta(TimeDelta);

/// The whole non-leap seconds from the Unix epoch to a calendar time, negative
/// before the epoch, as `DateTime::timestamp` returns them.
pub uninterp spec fn utc_timestamp(dt: UtcDateTime) -> i64;

/// The nanoseconds of a calendar time since its last whole second, as
/// `DateTime::timestamp_subsec_nanos` returns them. Within a leap second they
/// reach a billion and more.
pub uninterp spec fn utc_subsec_nanos(dt: UtcDateTime) -> u32;

/// The length of a `chrono::TimeDelta` in nanoseconds, negative for a negative
/// span: `num_seconds()` billions plus `subsec_nanos()`.
pub uninterp spec fn timedelta_nanos(d: TimeDelta) -> int;

/// The whole seconds in `n` nanoseconds, rounded towards zero.
pub open spec fn whole_secs(n: int) -> int {
    if n >= 0 {
        n / (NANOS_PER_SEC as int)
    } else {
        -((-n) / (NANOS_PER_SEC as int))
    }
}

/// The longest `chrono::TimeDelta`, in nanoseconds: `i64::MAX` milliseconds. The
/// shortest is its negation.
pub open spec fn timedelta_limit() -> int {
    i64::MAX * 1_000_000
}

/// Whether `chrono` takes `nanos` as the sub-second part of the timestamp `secs`:
/// fewer than a billion always, and up to two billion within a second that may be
/// a leap second, the last of a minute.
pub open spec fn timestamp_accepted(secs: int, nanos: int) -> bool {
    nanos < NANOS_PER_SEC || (nanos < 2 * NANOS_PER_SEC && secs % 60 == 59)
}

/// `DateTime::timestamp` of the wrapped calendar time.
#[verifier::external_body]
fn timestamp(dt: &UtcDateTime) -> (secs: i64)
    ensures
        secs == utc_timestamp(*dt),
{
    dt.inner.timestamp()
}

/// `DateTime::timestamp_subsec_nanos` of the wrapped calendar time. `chrono` keeps
/// these nanoseconds below two billion: one second and one leap second.
#[verifier::external_body]
fn timestamp_subsec_nanos(dt: &UtcDateTime) -> (nanos: u32)
    ensures
        nanos == utc_subsec_nanos(*dt),
        nanos < 2 * NANOS_PER_SEC,
{
    dt.inner.timestamp_subsec_nanos()
}

/// `DateTime::from_timestamp`: the calendar time with the given timestamp and
/// sub-second nanoseconds, which it gives back unchanged; `None` for nanoseconds
/// that it does not take and for a date out of its range. A timestamp of 32
/// signed bits is always in that range.
#[verifier::external_body]
fn from_timestamp(secs: i64, nsecs: u32) -> (r: Option<UtcDateTime>)
    ensures
        r matches Some(dt) ==> utc_timestamp(dt) == secs && utc_subsec_nanos(dt) == nsecs
            && timestamp_accepted(secs as int, nsecs as int),
        i32::MIN <= secs <= i32::MAX && timestamp_accepted(secs as int, nsecs as int)
            ==> r is Some,
{
    match chrono::DateTime::from_timestamp(secs, nsecs) {
        Some(inner) => Some(UtcDateTime { inner }),
        None => None,
    }
}

/// `TimeDelta::num_seconds`: the whole seconds of the span, rounded towards zero.
pub assume_specification[ TimeDelta::num_seconds ](d: &TimeDelta) -> (secs: i64)
    ensures
        secs == whole_secs(timedelta_nanos(*d)),
;

/// `TimeDelta::subsec_nanos`: what the span holds beyond its whole seconds, with
/// the sign of the span.
pub assume_specification[ TimeDelta::subsec_nanos ](d: &TimeDelta) -> (nanos: i32)
    ensures
        nanos == timedelta_nanos(*d) - whole_secs(timedelta_nanos(*d)) * NANOS_PER_SEC,
;

/// `TimeDelta::try_seconds`: a span of that many seconds, or `None` beyond
/// `i64::MAX / 1000` seconds either way.
pub assume_specification[ TimeDelta::try_seconds ](seconds: i64) -> (r: Option<TimeDelta>)
    ensures
        r is Some <==> -(i64::MAX / 1000) <= seconds <= i64::MAX / 1000,
        r matches Some(d) ==> timedelta_nanos(d) == seconds * NANOS_PER_SEC,
;

/// `TimeDelta::nanoseconds`: a span of that many nanoseconds.
pub assume_specification[ TimeDelta::nanoseconds ](nanos: i64) -> (d: TimeDelta)
    ensures
        timedelta_nanos(d) == nanos,
;

/// `TimeDelta::checked_add`: the sum of two spans, or `None` where the sum is
/// longer than the longest span.
pub assume_specification[ TimeDelta::checked_add ](d: &TimeDelta, rhs: &TimeDelta) -> (r: Option<
    TimeDelta,
>)
    ensures
        r is Some <==> -timedelta_limit() <= timedelta_nanos(*d) + timedelta_nanos(*rhs)
            <= timedelta_limit(),
        r matches Some(sum) ==> timedelta_nanos(sum) == timedelta_nanos(*d) + timedelta_nanos(
            *rhs,
        ),
;

/// The bus time of a timestamp and its sub-second nanoseconds, each narrowed to 32
/// signed bits.
pub open spec fn time_of_timestamp(secs: i64, nanos: u32) -> Result<Time, ConversionError> {
    if secs < i32::MIN || secs > i32::MAX {
        Err(ConversionError::SecondsOverflow)
    } else if nanos > i32::MAX {
        Err(ConversionError::NanosecondsOverflow)
    } else {
        Ok(Time { secs: secs as i32, nsecs: nanos as i32 })
    }
}

/// The bus duration of a signed span of `n` nanoseconds: its whole seconds,
/// rounded towards zero and narrowed to 32 signed bits, and what is left, which
/// has the sign of the span.
pub open spec fn signed_duration_of(n: int) -> Result<Duration, ConversionError> {
    let sec = whole_secs(n);
    if sec < i32::MIN || sec > i32::MAX {
        Err(ConversionError::SecondsOverflow)
    } else {
        Ok(Duration { sec: sec as i32, nsec: (n - sec * NANOS_PER_SEC) as i32 })
    }
}

/// The conversion as a spec function, for callers that reach it through `TryInto`.
impl TryFromSpecImpl<UtcDateTime> for Time {
    open spec fn obeys_try_from_spec() -> bool {
        true
    }

    open spec fn try_from_spec(val: UtcDateTime) -> Result<Time, ConversionError> {
        time_of_timestamp(utc_timestamp(val), utc_subsec_nanos(val))
    }
}

/// From a calendar time to a bus time: its timestamp and sub-second nanoseconds,
/// each narrowed to 32 signed bits. Only the seconds can fail to fit.
impl TryFrom<UtcDateTime> for Time {
    type Error = ConversionError;

    fn try_from(val: UtcDateTime) -> (r: Result<Time, ConversionError>)
        ensures
            r == time_of_timestamp(utc_timestamp(val), utc_subsec_nanos(val)),
            r matches Err(e) ==> e == ConversionError::SecondsOverflow,
    {
        let seconds = timestamp(&val);
        let nanos = timestamp_subsec_nanos(&val);
        let secs = narrow_signed_secs(seconds)?;
        let nsecs = narrow_nanos(nanos)?;
        Ok(Time { secs, nsecs })
    }
}

/// What converting the bus time `v` to a calendar time returns: negative
/// nanoseconds are refused, and so are nanoseconds that `chrono` does not take;
/// otherwise the result is the calendar time with the two fields of `v` as its
/// timestamp and sub-second nanoseconds.
pub open spec fn utc_time_of(v: Time, r: Result<UtcDateTime, ConversionError>) -> bool {
    if v.nsecs < 0 {
        r == Err::<UtcDateTime, ConversionError>(ConversionError::NegativeNanoseconds)
    } else if !timestamp_accepted(v.secs as int, v.nsecs as int) {
        r == Err::<UtcDateTime, ConversionError>(ConversionError::HostRange)
    } else {
        r matches Ok(dt) && utc_timestamp(dt) == v.secs && utc_subsec_nanos(dt) == v.nsecs
    }
}

/// The result is an opaque host value, so no spec function gives it: what the
/// conversion returns is stated on `try_from` itself.
impl TryFromSpecImpl<Time> for UtcDateTime {
    open spec fn obeys_try_from_spec() -> bool {
        false
    }

    open spec fn try_from_spec(val: Time) -> Result<UtcDateTime, ConversionError> {
        arbitrary()
    }
}

/// From a bus time to a calendar time. Negative seconds give a time before the
/// epoch; negative nanoseconds are refused.
impl TryFrom<Time> for UtcDateTime {
    type Error = ConversionError;

    fn try_from(val: Time) -> (r: Result<UtcDateTime, ConversionError>)
        ensures
            utc_time_of(val, r),
    {
        let secs = i64::from(val.secs);
        let nsecs = widen_nanos(val.nsecs)?;
        in_host_range(from_timestamp(secs, nsecs))
    }
}

/// The conversion as a spec function, for callers that reach it through `TryInto`.
impl TryFromSpecImpl<TimeDelta> for Duration {
    open spec fn obeys_try_from_spec() -> bool {
        true
    }

    open spec fn try_from_spec(val: TimeDelta) -> Result<Duration, ConversionError> {
        signed_duration_of(timedelta_nanos(val))
    }
}

/// From a calendar duration to a bus duration: whole seconds, narrowed to 32
/// signed bits, and what is left in nanoseconds.
impl TryFrom<TimeDelta> for Duration {
    type Error = ConversionError;

    fn try_from(val: TimeDelta) -> (r: Result<Duration, ConversionError>)
        ensures
            r == signed_duration_of(timedelta_nanos(val)),
    {
        let sec = narrow_signed_secs(val.num_seconds())?;
        Ok(Duration { sec, nsec: val.subsec_nanos() })
    }
}

/// What converting the bus duration `v` to a calendar duration returns: always a
/// span as long as the nanoseconds of `v`.
pub open spec fn calendar_duration_of(v: Duration, r: Result<TimeDelta, ConversionError>) -> bool {
    r matches Ok(d) && timedelta_nanos(d) == v.nanos()
}

/// The result is an opaque host value, so no spec function gives it: what the
/// conversion returns is stated on `try_from` itself.
impl TryFromSpecImpl<Duration> for TimeDelta {
    open spec fn obeys_try_from_spec() -> bool {
        false
    }

    open spec fn try_from_spec(val: Duration) -> Result<TimeDelta, ConversionError> {
        arbitrary()
    }
}

/// From a bus duration to a calendar duration of the same length. Every bus
/// duration has one.
impl TryFrom<Duration> for TimeDelta {
    type Error = ConversionError;

    fn try_from(val: Duration) -> (r: Result<TimeDelta, ConversionError>)
        ensures
            calendar_duration_of(val, r),
    {
        let secs = in_host_range(TimeDelta::try_seconds(i64::from(val.sec)))?;
        let nsecs = TimeDelta::nanoseconds(i64::from(val.nsec));
        in_host_range(secs.checked_add(&nsecs))
    }
}

/// Round trip from the bus: a bus time that converts to a calendar time comes back
/// unchanged.
pub proof fn lemma_time_survives_calendar(v: Time, dt: UtcDateTime)
    requires
        utc_time_of(v, Ok(dt)),
    ensures
        time_of_timestamp(utc_timestamp(dt), utc_subsec_nanos(dt)) == Ok::<Time, ConversionError>(
            v,
        ),
{
}

/// Round trip from the calendar: a calendar time that converts to the bus time
/// `v`, and whose nanoseconds `chrono` takes for its timestamp, comes back with
/// the same timestamp and the same nanoseconds.
pub proof fn lemma_calendar_time_survives_bus(
    dt: UtcDateTime,
    v: Time,
    back: Result<UtcDateTime, ConversionError>,
)
    requires
        time_of_timestamp(utc_timestamp(dt), utc_subsec_nanos(dt)) == Ok::<Time, ConversionError>(
            v,
        ),
        timestamp_accepted(utc_timestamp(dt) as int, utc_subsec_nanos(dt) as int),
        utc_time_of(v, back),
    ensures
        back matches Ok(b) && utc_timestamp(b) == utc_timestamp(dt) && utc_subsec_nanos(b)
            == utc_subsec_nanos(dt),
{
}

/// Round trip from the bus: a bus duration whose nanoseconds are fewer than a
/// billion either way, and do not pull against its seconds, comes back unchanged
/// from the calendar duration that it converts to.
pub proof fn lemma_duration_survives_calendar(v: Duration, d: TimeDelta)
    requires
        -NANOS_PER_SEC < v.nsec < NANOS_PER_SEC,
        v.sec > 0 ==> v.nsec >= 0,
        v.sec < 0 ==> v.nsec <= 0,
        calendar_duration_of(v, Ok(d)),
    ensures
        signed_duration_of(timedelta_nanos(d)) == Ok::<Duration, ConversionError>(v),
{
}

/// Round trip from the calendar: a calendar duration that converts to the bus
/// duration `v`, negative or not, comes back with the same length.
pub proof fn lemma_calendar_duration_survives_bus(
    d: TimeDelta,
    v: Duration,
    back: Result<TimeDelta, ConversionError>,
)
    requires
        signed_duration_of(timedelta_nanos(d)) == Ok::<Duration, ConversionError>(v),
        calendar_duration_of(v, back),
    ensures
        back matches Ok(b) && timedelta_nanos(b) == timedelta_nanos(d),
{
}

} // verus!
