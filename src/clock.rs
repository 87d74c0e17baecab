//! Wall-clock time and the idle watcher's timing.
use vstd::prelude::*;
use std::time::{Duration, SystemTime, SystemTimeError};

verus! {

/// `std::time::SystemTime`, carried through opaque.
#[verifier::external_type_specification]
#[verifier::external_body]
pub struct ExSystemTime(SystemTime);

/// `std::time::SystemTimeError`, carried through opaque.
#[verifier::external_type_specification]
#[verifier::external_body]
pub struct ExSystemTimeError(SystemTimeError);

/// Relies on `SystemTime::now`: the wall clock; nothing is known of its value.
pub assume_specification[ SystemTime::now ]() -> SystemTime;

/// Relies on `SystemTime::duration_since`: the time elapsed since `earlier`,
/// or an error when `earlier` is later.
pub assume_specification[ SystemTime::duration_since ](
    t: &SystemTime,
    earlier: SystemTime,
) -> Result<Duration, SystemTimeError>;

/// Relies on `Duration::as_millis`: the whole milliseconds of a duration.
pub assume_specification[ Duration::as_millis ](d: &Duration) -> u128;

/// Relies on `std::time::UNIX_EPOCH`: the start of Unix time.
#[verifier::external_body]
fn unix_epoch() -> SystemTime {
    std::time::UNIX_EPOCH
}

/// Milliseconds since the Unix epoch by the wall clock; zero when the clock
/// stands before the epoch.
pub fn now_unix_millis() -> u128 {
    let now = SystemTime::now();
    match now.duration_since(unix_epoch()) {
        Ok(d) => d.as_millis(),
        Err(_) => 0,
    }
}

/// What one wakeup of the idle watcher decides.
#[derive(Debug, Clone, Copy, PartialEq, Eq, Structural)]
pub struct IdleCheck {
    /// The idle interval has elapsed since the last backend contact.
    pub idle: bool,
    /// Milliseconds to sleep before the next wakeup.
    pub sleep_ms: u128,
}

/// No backend contact for at least `interval` milliseconds up to `now`.
pub open spec fn is_idle(last_seen: int, now: int, interval: int) -> bool {
    now - last_seen >= interval
}

/// How long the watcher sleeps: until the interval measured from the last
/// contact ends, never longer than one interval, and a whole interval once
/// the idle signal has been given.
pub open spec fn sleep_for(last_seen: int, now: int, interval: int) -> int {
    if is_idle(last_seen, now, interval) {
        interval
    } else if last_seen + interval - now > interval {
        interval
    } else {
        last_seen + interval - now
    }
}

/// Decides, on a wakeup at `now`, whether the idle interval has elapsed since
/// `last_seen`, and how long to sleep next.
pub fn idle_check(last_seen: u128, now: u128, interval: u128) -> (r: IdleCheck)
    ensures
        r.idle == is_idle(last_seen as int, now as int, interval as int),
        r.sleep_ms as int == sleep_for(last_seen as int, now as int, interval as int),
{
    if now >= last_seen && now - last_seen >= interval {
        IdleCheck { idle: true, sleep_ms: interval }
    } else if now < last_seen {
        IdleCheck { idle: false, sleep_ms: interval }
    } else {
        IdleCheck { idle: false, sleep_ms: interval - (now - last_seen) }
    }
}

/// With no contact since `start`, the watcher's first sleep is one whole
/// interval, and on waking exactly one interval after `start` it finds the
/// workload idle.
pub proof fn lemma_idle_without_traffic(start: int, interval: int)
    requires
        interval >= 0,
    ensures
        sleep_for(start, start, interval) == interval,
        is_idle(start, start + interval, interval),
{
}

/// A contact at `last_seen` that is not yet an interval old puts off the next
/// wakeup to exactly one interval after that contact, and that wakeup finds
/// the workload idle unless another contact came in between.
pub proof fn lemma_contact_defers_check(last_seen: int, now: int, interval: int)
    requires
        last_seen <= now < last_seen + interval,
    ensures
        !is_idle(last_seen, now, interval),
        now + sleep_for(last_seen, now, interval) == last_seen + interval,
        is_idle(last_seen, now + sleep_for(last_seen, now, interval), interval),
{
}

} // verus!
