//! The health monitor of a router-to-querier connection: when the last
//! activity is too long ago, the connection counts as timed out.

use std::time::{Duration, SystemTime, UNIX_EPOCH};
use vstd::prelude::*;

verus! {

/// The length of a duration in nanoseconds, as `Duration::as_nanos` gives it.
pub uninterp spec fn duration_nanos(d: Duration) -> u128;

/// `Duration::as_nanos`: the whole length of `d` in nanoseconds.
#[verifier::external_body]
fn as_nanos(d: &Duration) -> (r: u128)
    ensures
        r == duration_nanos(*d),
{
    d.as_nanos()
}

/// `Duration::from_micros`: a duration of `micros` microseconds, that is of
/// `micros * 1000` nanoseconds.
#[verifier::external_body]
fn from_micros(micros: u64) -> (r: Duration)
    ensures
        duration_nanos(r) == micros * 1000,
{
    Duration::from_micros(micros)
}

#[verifier::external_type_specification]
#[verifier::external_body]
pub struct ExSystemTime(SystemTime);

/// `Duration::from_secs`: a duration of `secs` seconds, that is of
/// `secs * 1_000_000_000` nanoseconds.
#[verifier::external_body]
fn from_secs(secs: u64) -> (r: Duration)
    ensures
        duration_nanos(r) == secs * 1_000_000_000,
{
    Duration::from_secs(secs)
}

/// `SystemTime::now`: the wall clock. It depends on the time, so nothing is
/// claimed of it.
#[verifier::external_body]
fn system_now() -> SystemTime {
    SystemTime::now()
}

/// `SystemTime::duration_since(UNIX_EPOCH)`: how far `t` lies after the
/// epoch, or, as the error's `duration`, how far before it. Verus sees
/// nothing inside a `SystemTime`, so nothing more is claimed.
#[verifier::external_body]
fn offset_from_epoch(t: &SystemTime) -> Result<Duration, Duration> {
    t.duration_since(UNIX_EPOCH).map_err(|e| e.duration())
}

/// The signed offset from the epoch in whole microseconds, rounded towards
/// minus infinity, for a time `Ok(d)` after the epoch or `Err(d)` before it.
pub open spec fn signed_micros(offset: Result<Duration, Duration>) -> int {
    match offset {
        Ok(d) => duration_nanos(d) as int / 1000,
        Err(d) => -((duration_nanos(d) as int + 999) / 1000),
    }
}

/// `x` held to the range of an `i64`.
pub open spec fn clamp_i64(x: int) -> int {
    if x > i64::MAX {
        i64::MAX as int
    } else if x < i64::MIN {
        i64::MIN as int
    } else {
        x
    }
}

/// The microseconds since the epoch of a clock reading given as its offset
/// from the epoch: negative before the epoch, held to the range of an `i64`
/// (which the clock leaves only some 292,000 years away from the epoch).
pub fn micros_since_epoch(offset: Result<Duration, Duration>) -> (r: i64)
    ensures
        r == clamp_i64(signed_micros(offset)),
{
    match offset {
        Ok(d) => {
            let micros = as_nanos(&d) / 1000;
            if micros > 9223372036854775807u128 {
                i64::MAX
            } else {
                micros as i64
            }
        },
        Err(d) => {
            let nanos = as_nanos(&d);
            let micros = if nanos % 1000 == 0 { nanos / 1000 } else { nanos / 1000 + 1 };
            assert(micros == (nanos + 999) / 1000);
            if micros >= 9223372036854775808u128 {
                i64::MIN
            } else {
                -(micros as i64)
            }
        },
    }
}

/// The wall clock in microseconds since the epoch.
fn now_micros() -> i64 {
    let now = system_now();
    micros_since_epoch(offset_from_epoch(&now))
}

/// An elapsed time in microseconds read as a `u64`, as the cast `as u64`
/// does: a negative value wraps around.
pub open spec fn elapsed_as_u64(elapsed: int) -> int {
    if elapsed >= 0 {
        elapsed
    } else {
        elapsed + 0x1_0000_0000_0000_0000
    }
}

/// Whether `elapsed` microseconds since the last activity exceed a timeout
/// of `timeout_nanos` nanoseconds.
pub open spec fn exceeds_timeout(elapsed: int, timeout_nanos: int) -> bool {
    elapsed_as_u64(elapsed) * 1000 > timeout_nanos
}

/// What a health monitor holds, as mathematics.
pub struct HealthView {
    pub check_interval: Duration,
    pub connection_timeout: Duration,
    pub last_activity: int,
}

impl HealthView {
    /// The view after activity is recorded at `now` microseconds since the
    /// epoch.
    pub open spec fn with_activity(self, now: i64) -> HealthView {
        HealthView { last_activity: now as int, ..self }
    }
}

/// Watches the activity on a connection.
pub struct HealthMonitor {
    check_interval: Duration,
    connection_timeout: Duration,
    last_activity: i64,
}

impl View for HealthMonitor {
    type V = HealthView;

    closed spec fn view(&self) -> HealthView {
        HealthView {
            check_interval: self.check_interval,
            connection_timeout: self.connection_timeout,
            last_activity: self.last_activity as int,
        }
    }
}

impl HealthMonitor {
    /// A monitor that checks every `check_interval` and lets a connection be
    /// idle for `connection_timeout`; the last activity is now.
    pub fn new(check_interval: Duration, connection_timeout: Duration) -> (r: Self)
        ensures
            r@.check_interval == check_interval,
            r@.connection_timeout == connection_timeout,
    {
        HealthMonitor { check_interval, connection_timeout, last_activity: now_micros() }
    }

    /// The monitor of the router's connection to a querier: checked every
    /// 5 seconds, idle for at most 30 seconds.
    pub fn for_querier() -> (r: Self)
        ensures
            duration_nanos(r@.check_interval) == 5_000_000_000,
            duration_nanos(r@.connection_timeout) == 30_000_000_000,
    {
        HealthMonitor::new(from_secs(5), from_secs(30))
    }

    /// How often the connection is checked.
    pub fn check_interval(&self) -> (r: Duration)
        ensures
            r == self@.check_interval,
    {
        self.check_interval
    }

    /// How long the connection may stay idle.
    pub fn connection_timeout(&self) -> (r: Duration)
        ensures
            r == self@.connection_timeout,
    {
        self.connection_timeout
    }

    /// Records activity at `now` microseconds since the epoch.
    pub fn record_activity(&mut self, now: i64)
        ensures
            final(self)@ == (HealthView { last_activity: now as int, ..old(self)@ }),
            final(self)@.last_activity == now,
            final(self)@.check_interval == old(self)@.check_interval,
            final(self)@.connection_timeout == old(self)@.connection_timeout,
    {
        self.last_activity = now;
    }

    /// Records activity now.
    pub fn update_activity(&mut self)
        ensures
            final(self)@.check_interval == old(self)@.check_interval,
            final(self)@.connection_timeout == old(self)@.connection_timeout,
            exists|now: i64| final(self)@ == #[trigger] old(self)@.with_activity(now),
    {
        let now = now_micros();
        self.record_activity(now);
        assert(self@ == old(self)@.with_activity(now));
    }

    /// Whether the connection has been idle longer than the timeout at
    /// `now` microseconds since the epoch. A clock that went back before the
    /// last activity gives a negative idle time, which counts as a very long
    /// one.
    pub fn is_timed_out(&self, now: i64) -> (r: bool)
        requires
            i64::MIN <= now - self@.last_activity <= i64::MAX,
        ensures
            r == exceeds_timeout(now - self@.last_activity, duration_nanos(self@.connection_timeout) as int),
            now >= self@.last_activity ==> (r <==> (now - self@.last_activity) * 1000 > duration_nanos(
                self@.connection_timeout,
            )),
            now < self@.last_activity ==> (r <==> (now - self@.last_activity + 0x1_0000_0000_0000_0000)
                * 1000 > duration_nanos(self@.connection_timeout)),
    {
        let elapsed = now - self.last_activity;
        let idle = from_micros(elapsed as u64);
        assert(elapsed as u64 == elapsed_as_u64(elapsed as int)) by (bit_vector);
        as_nanos(&idle) > as_nanos(&self.connection_timeout)
    }

    /// Whether the connection has been idle longer than the timeout at
    /// `now`; `None` where the idle time does not fit an `i64`.
    pub fn timeout_at(&self, now: i64) -> (r: Option<bool>)
        ensures
            r == idle_check(now, self@),
            r is None <==> !(i64::MIN <= now - self@.last_activity <= i64::MAX),
            now >= self@.last_activity && r is Some ==> (r == Some((now - self@.last_activity) * 1000
                > duration_nanos(self@.connection_timeout))),
            now < self@.last_activity && r is Some ==> (r == Some((now - self@.last_activity
                + 0x1_0000_0000_0000_0000) * 1000 > duration_nanos(self@.connection_timeout))),
    {
        match now.checked_sub(self.last_activity) {
            Some(_) => Some(self.is_timed_out(now)),
            None => None,
        }
    }

    /// Whether the connection has been idle longer than the timeout now,
    /// read on the clock; `None` where the idle time does not fit an `i64`.
    pub fn check_timeout(&self) -> (r: Option<bool>)
        ensures
            exists|now: i64| #[trigger] idle_check(now, self@) == r,
    {
        let now = now_micros();
        self.timeout_at(now)
    }
}

/// The outcome of a timeout check at `now`: whether the connection timed
/// out, or `None` where the idle time does not fit an `i64`.
pub open spec fn idle_check(now: i64, v: HealthView) -> Option<bool> {
    if i64::MIN <= now - v.last_activity <= i64::MAX {
        Some(exceeds_timeout(now - v.last_activity, duration_nanos(v.connection_timeout) as int))
    } else {
        None
    }
}

/// The timeout check depends on the connection timeout and not on the check
/// interval: two monitors that differ only in their check interval agree at
/// every time; and a check at an idle time within the timeout says no.
pub proof fn timeout_ignores_check_interval(v: HealthView, other_interval: Duration, now: i64)
    ensures
        idle_check(now, v) == idle_check(now, HealthView { check_interval: other_interval, ..v }),
        0 <= now - v.last_activity <= i64::MAX && (now - v.last_activity) * 1000 <= duration_nanos(
            v.connection_timeout,
        ) ==> idle_check(now, v) == Some(false),
        0 <= now - v.last_activity <= i64::MAX && (now - v.last_activity) * 1000 > duration_nanos(
            v.connection_timeout,
        ) ==> idle_check(now, v) == Some(true),
{
}

/// Activity resets the monitor: right after activity is recorded at `now`,
/// the connection is not timed out at `now`.
pub proof fn activity_resets_timeout(v: HealthView, now: i64)
    ensures
        !exceeds_timeout(now - (HealthView { last_activity: now as int, ..v }).last_activity,
            duration_nanos(v.connection_timeout) as int),
{
}

/// Once timed out, a connection stays timed out as the clock moves on
/// without activity (for idle times that are not negative).
pub proof fn timeout_is_monotone(elapsed: int, later: int, timeout_nanos: int)
    requires
        0 <= elapsed <= later,
        exceeds_timeout(elapsed, timeout_nanos),
    ensures
        exceeds_timeout(later, timeout_nanos),
{
}

} // verus!
