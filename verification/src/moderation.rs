//! The rules behind the moderation commands: the bounds of a slowmode and of a purge, and
//! when a mute ends.

use vstd::prelude::*;

verus! {

/// The longest slowmode, in seconds.
pub const MAX_SLOWMODE: u16 = 21600;

/// The most messages one purge deletes.
pub const MAX_PURGE: u8 = 100;

/// `Utc::now` of chrono, read as seconds since the Unix epoch by `DateTime::timestamp`. The
/// clock decides what comes back.
#[verifier::external_body]
pub(crate) fn now_timestamp() -> (now: i64) {
    chrono::Utc::now().timestamp()
}

/// What a slowmode command does.
#[derive(Debug, Clone, Copy, PartialEq, Eq, Structural)]
pub enum Slowmode {
    /// The delay is beyond the longest slowmode.
    Refused,
    /// A delay of zero switches the slowmode off.
    Disabled,
    Limited { seconds: u16 },
}

/// Decides a slowmode of `seconds`.
pub fn plan_slowmode(seconds: u16) -> (plan: Slowmode)
    ensures
        plan == if seconds > MAX_SLOWMODE {
            Slowmode::Refused
        } else if seconds == 0 {
            Slowmode::Disabled
        } else {
            Slowmode::Limited { seconds }
        },
{
    if seconds > MAX_SLOWMODE {
        Slowmode::Refused
    } else if seconds == 0 {
        Slowmode::Disabled
    } else {
        Slowmode::Limited { seconds }
    }
}

/// Whether a purge of `amount` messages is allowed: one at least, a hundred at most.
pub fn purge_allowed(amount: u8) -> (allowed: bool)
    ensures
        allowed == (1 <= amount <= MAX_PURGE),
{
    amount != 0 && amount <= MAX_PURGE
}

/// The time `units` spans of `seconds_each` after `now`; none where it does not fit in 64
/// bits.
pub fn time_after(now: i64, units: i64, seconds_each: i64) -> (until: Option<i64>)
    ensures
        until == if i64::MIN <= units * seconds_each <= i64::MAX && i64::MIN <= now + units
            * seconds_each <= i64::MAX {
            Some((now + units * seconds_each) as i64)
        } else {
            None
        },
{
    match units.checked_mul(seconds_each) {
        Some(span) => now.checked_add(span),
        None => None,
    }
}

/// When a mute of `minutes` that begins at `now` ends.
pub fn mute_until(now: i64, minutes: i64) -> (until: Option<i64>)
    ensures
        until == if i64::MIN <= minutes * 60 <= i64::MAX && i64::MIN <= now + minutes * 60
            <= i64::MAX {
            Some((now + minutes * 60) as i64)
        } else {
            None
        },
{
    time_after(now, minutes, 60)
}

/// When a timeout of `hours` that begins at `now` ends.
pub fn timeout_until(now: i64, hours: i64) -> (until: Option<i64>)
    ensures
        until == if i64::MIN <= hours * 3600 <= i64::MAX && i64::MIN <= now + hours * 3600
            <= i64::MAX {
            Some((now + hours * 3600) as i64)
        } else {
            None
        },
{
    time_after(now, hours, 3600)
}

/// When a mute of `minutes` that begins now ends, by the clock.
pub fn mute_deadline(minutes: i64) -> (until: Option<i64>)
    ensures
        exists|now: i64| until == #[trigger] time_after_spec(now, minutes, 60),
{
    let now = now_timestamp();
    let until = mute_until(now, minutes);
    assert(until == time_after_spec(now, minutes, 60));
    until
}

/// When a timeout of `hours` that begins now ends, by the clock.
pub fn timeout_deadline(hours: i64) -> (until: Option<i64>)
    ensures
        exists|now: i64| until == #[trigger] time_after_spec(now, hours, 3600),
{
    let now = now_timestamp();
    let until = timeout_until(now, hours);
    assert(until == time_after_spec(now, hours, 3600));
    until
}

/// The time `units` spans of `seconds_each` after `now`, where it fits in 64 bits.
pub open spec fn time_after_spec(now: i64, units: i64, seconds_each: i64) -> Option<i64> {
    if i64::MIN <= units * seconds_each <= i64::MAX && i64::MIN <= now + units * seconds_each
        <= i64::MAX {
        Some((now + units * seconds_each) as i64)
    } else {
        None
    }
}

} // verus!
