use vstd::prelude::*;

verus! {

pub const SECS_PER_DAY: u64 = 86400;

pub const SECS_PER_HOUR: u64 = 3600;

/// Why the next wake-up time cannot be computed.
pub enum ScheduleError {
    /// The wake hour is not an hour of the day.
    HourOutOfRange,
    /// The wake-up time does not fit the clock's range.
    ClockOverflow,
}

/// Midnight (UTC) that starts the day after the one holding `now`, in seconds
/// since the Unix epoch.
pub open spec fn tomorrow_midnight(now: nat) -> nat {
    (now / SECS_PER_DAY as nat + 1) * SECS_PER_DAY as nat
}

/// `hour`:00:00 UTC on the day after the one holding `now`.
pub open spec fn next_wake_spec(now: nat, hour: nat) -> nat {
    tomorrow_midnight(now) + hour * SECS_PER_HOUR as nat
}

/// 9999-12-31T23:59:59Z, the last second of the years that RFC 3339 writes
/// with four digits; well inside chrono's range.
pub const LAST_TAGGED_SECS: i64 = 253_402_300_799;

/// The RFC 3339 text of the instant `secs` seconds after the Unix epoch, in UTC.
pub uninterp spec fn rfc3339_of(secs: int) -> Seq<char>;

/// Relies on chrono's `DateTime::<Utc>::from_timestamp` and `to_rfc3339`: the
/// text of an instant, or `None` where it lies outside chrono's range, which
/// holds every instant from the epoch to the end of year 9999.
#[verifier::external_body]
fn rfc3339_at(secs: i64) -> (r: Option<String>)
    ensures
        r matches Some(s) ==> s@ == rfc3339_of(secs as int),
        0 <= secs <= LAST_TAGGED_SECS ==> r is Some,
{
    match chrono::DateTime::<chrono::Utc>::from_timestamp(secs, 0) {
        Some(t) => Some(t.to_rfc3339()),
        None => None,
    }
}

/// Tomorrow's midnight lies after `now`, and at most one day later.
proof fn lemma_tomorrow_midnight_bounds(now: nat)
    ensures
        now < tomorrow_midnight(now) <= now + SECS_PER_DAY,
{
    let day = now / 86400;
    assert(day * 86400 <= now) by (nonlinear_arith)
        requires
            day == now / 86400,
    ;
    assert(now < (day + 1) * 86400) by (nonlinear_arith)
        requires
            day == now / 86400,
    ;
}

fn tomorrow_midnight_exec(now_secs: u64) -> (r: u128)
    ensures
        r == tomorrow_midnight(now_secs as nat),
        now_secs < r <= now_secs + SECS_PER_DAY,
{
    proof {
        lemma_tomorrow_midnight_bounds(now_secs as nat);
    }
    let day: u128 = (now_secs / SECS_PER_DAY) as u128;
    (day + 1) * (SECS_PER_DAY as u128)
}

/// The next wake-up time: `hour`:00:00 UTC on the day after `now_secs`, in
/// seconds since the Unix epoch. It lies always in the future, so one cycle
/// runs per calendar day.
pub fn next_wake_secs(now_secs: u64, hour: u32) -> (r: Result<u64, ScheduleError>)
    ensures
        hour >= 24 ==> r is Err && r->Err_0 is HourOutOfRange,
        hour < 24 && next_wake_spec(now_secs as nat, hour as nat) > u64::MAX ==> r is Err
            && r->Err_0 is ClockOverflow,
        hour < 24 && next_wake_spec(now_secs as nat, hour as nat) <= u64::MAX ==> r
            == Ok::<u64, ScheduleError>(next_wake_spec(now_secs as nat, hour as nat) as u64),
{
    if hour >= 24 {
        return Err(ScheduleError::HourOutOfRange);
    }
    let midnight = tomorrow_midnight_exec(now_secs);
    let wake: u128 = midnight + (hour as u128) * (SECS_PER_HOUR as u128);
    if wake > u64::MAX as u128 {
        Err(ScheduleError::ClockOverflow)
    } else {
        Ok(wake as u64)
    }
}

/// How long to sleep from `now_secs` until the next wake-up time.
pub fn wake_delay_secs(now_secs: u64, hour: u32) -> (r: Result<u64, ScheduleError>)
    ensures
        hour >= 24 ==> r is Err && r->Err_0 is HourOutOfRange,
        hour < 24 && next_wake_spec(now_secs as nat, hour as nat) > u64::MAX ==> r is Err
            && r->Err_0 is ClockOverflow,
        hour < 24 && next_wake_spec(now_secs as nat, hour as nat) <= u64::MAX ==> r
            == Ok::<u64, ScheduleError>(
            (next_wake_spec(now_secs as nat, hour as nat) - now_secs) as u64,
        ),
        r matches Ok(d) ==> 0 < d <= SECS_PER_DAY + 23 * SECS_PER_HOUR,
{
    match next_wake_secs(now_secs, hour) {
        Err(e) => Err(e),
        Ok(wake) => {
            proof {
                lemma_tomorrow_midnight_bounds(now_secs as nat);
            }
            Ok(wake - now_secs)
        },
    }
}

/// The date tag of the day after `now_secs`: the RFC 3339 text of its
/// midnight (UTC). It is given for every midnight up to the end of year 9999,
/// and never for one beyond what an `i64` of seconds holds.
pub fn tomorrow_tag(now_secs: u64) -> (r: Option<String>)
    ensures
        r matches Some(s) ==> s@ == rfc3339_of(tomorrow_midnight(now_secs as nat) as int),
        tomorrow_midnight(now_secs as nat) <= LAST_TAGGED_SECS ==> r is Some,
        tomorrow_midnight(now_secs as nat) > i64::MAX ==> r is None,
{
    let midnight = tomorrow_midnight_exec(now_secs);
    if midnight > i64::MAX as u128 {
        None
    } else {
        rfc3339_at(midnight as i64)
    }
}

/// Whatever the time of day `now` falls at, the next wake-up is `hour`:00:00
/// UTC on the following calendar day.
pub proof fn lemma_wake_next_day(day: nat, secs_into_day: nat, hour: nat)
    requires
        secs_into_day < SECS_PER_DAY,
        hour < 24,
    ensures
        next_wake_spec(day * SECS_PER_DAY as nat + secs_into_day, hour) == (day + 1)
            * SECS_PER_DAY as nat + hour * SECS_PER_HOUR as nat,
{
    let now = day * 86400 + secs_into_day;
    assert(now / 86400 == day) by (nonlinear_arith)
        requires
            now == day * 86400 + secs_into_day,
            secs_into_day < 86400,
    ;
}

} // verus!
