//! The clocks that time a query: a monotonic one for its duration and the
//! wall clock for the time at which it started.
use vstd::prelude::*;

use crate::policy::Elapsed;

verus! {

/// `std::time::Instant`, a reading of the monotonic clock, carried as an
/// opaque value.
#[verifier::external_type_specification]
#[verifier::external_body]
pub struct ExInstant(std::time::Instant);

/// Relies on `Instant::now`: a reading of the monotonic clock, of which
/// nothing can be promised.
pub assume_specification[ std::time::Instant::now ]() -> std::time::Instant;

/// Relies on `Instant::elapsed`: the time that passed since the reading.
pub assume_specification[ std::time::Instant::elapsed ](i: &std::time::Instant) -> std::time::Duration;

/// Relies on `Duration::as_secs`: the whole seconds of a duration.
pub assume_specification[ core::time::Duration::as_secs ](d: &core::time::Duration) -> u64;

/// Relies on `Duration::subsec_nanos`: the nanoseconds past the whole
/// seconds, which its documentation gives as less than one billion.
pub assume_specification[ core::time::Duration::subsec_nanos ](d: &core::time::Duration) -> (r:
    u32)
    ensures
        r < 1_000_000_000,
;

/// `std::time::SystemTime`, a reading of the wall clock, carried as an
/// opaque value.
#[verifier::external_type_specification]
#[verifier::external_body]
pub struct ExSystemTime(std::time::SystemTime);

/// Relies on `SystemTime::now`: a reading of the wall clock, of which nothing
/// can be promised.
pub assume_specification[ std::time::SystemTime::now ]() -> std::time::SystemTime;

/// Relies on `SystemTime::duration_since(UNIX_EPOCH)`: how far `t` lies after
/// the Unix epoch, or, as the error's `duration`, how far before it.
#[verifier::external_body]
fn since_unix_epoch(t: &std::time::SystemTime) -> Result<
    core::time::Duration,
    core::time::Duration,
> {
    t.duration_since(std::time::UNIX_EPOCH).map_err(|e| e.duration())
}

/// The text that `chrono::DateTime::<Utc>::from_timestamp(secs, nanos)`
/// writes out, where that gives a time.
pub uninterp spec fn utc_text_of(secs: int, nanos: nat) -> Seq<char>;

/// `s` ends with the name of the UTC offset, as chrono writes it.
pub open spec fn ends_with_utc(s: Seq<char>) -> bool {
    s.len() >= 4 && s.subrange(s.len() - 4, s.len() as int) == " UTC"@
}

/// Relies on `chrono::DateTime::<Utc>::from_timestamp`, which gives `None` for
/// a time outside chrono's range, and on the `Display` of the time it gives:
/// the date and time, a space, and the offset `UTC`.
#[verifier::external_body]
fn utc_text(secs: i64, nanos: u32) -> (r: Option<String>)
    ensures
        r matches Some(t) ==> t@ == utc_text_of(secs as int, nanos as nat) && ends_with_utc(t@),
{
    chrono::DateTime::<chrono::Utc>::from_timestamp(secs, nanos).map(|t| t.to_string())
}

/// Seconds and nanoseconds of a time relative to the Unix epoch, as a signed
/// count of seconds and a forward fraction of a second: a time `secs` seconds
/// and `nanos` nanoseconds before the epoch is `-secs` seconds when `nanos` is
/// zero, and `-secs - 1` seconds plus `1_000_000_000 - nanos` nanoseconds
/// otherwise.
pub open spec fn unix_timestamp_of(after: bool, secs: u64, nanos: u32) -> (int, nat)
    recommends
        nanos < 1_000_000_000,
{
    if after {
        (secs as int, nanos as nat)
    } else if nanos == 0 {
        (-secs, 0)
    } else {
        (-secs - 1, (1_000_000_000 - nanos) as nat)
    }
}

/// The signed timestamp of a time `secs` seconds and `nanos` nanoseconds
/// after the Unix epoch, or before it when `after` is false; `None` where the
/// seconds do not fit in an `i64`.
fn unix_timestamp(after: bool, secs: u64, nanos: u32) -> (r: Option<(i64, u32)>)
    requires
        nanos < 1_000_000_000,
    ensures
        r matches Some(t) ==> (t.0 as int, t.1 as nat) == unix_timestamp_of(after, secs, nanos),
        r is None <==> unix_timestamp_of(after, secs, nanos).0 < i64::MIN
            || unix_timestamp_of(after, secs, nanos).0 > i64::MAX,
{
    if secs > i64::MAX as u64 {
        if !after && nanos == 0 && secs == i64::MAX as u64 + 1 {
            Some((i64::MIN, 0))
        } else {
            None
        }
    } else if after {
        Some((secs as i64, nanos))
    } else if nanos == 0 {
        Some((-(secs as i64), 0))
    } else if secs == i64::MAX as u64 {
        Some((i64::MIN, 1_000_000_000 - nanos))
    } else {
        Some((-(secs as i64) - 1, 1_000_000_000 - nanos))
    }
}

/// The wall-clock time now, written out in UTC; `None` where chrono cannot
/// represent it.
pub(crate) fn wall_clock_now() -> (r: Option<String>)
    ensures
        r matches Some(t) ==> ends_with_utc(t@),
{
    let now = std::time::SystemTime::now();
    let (after, d) = match since_unix_epoch(&now) {
        Ok(d) => (true, d),
        Err(d) => (false, d),
    };
    match unix_timestamp(after, d.as_secs(), d.subsec_nanos()) {
        Some((secs, nanos)) => utc_text(secs, nanos),
        None => None,
    }
}

/// How long has passed since `start`, as seconds and nanoseconds.
pub(crate) fn elapsed_since(start: &std::time::Instant) -> (r: Elapsed)
    ensures
        r.wf(),
{
    let d = start.elapsed();
    Elapsed { secs: d.as_secs(), subsec_nanos: d.subsec_nanos() }
}

} // verus!
