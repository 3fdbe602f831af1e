//! Experience and levels: what a message earns, and how far a member is into a level.

use crate::chance::random_i32;
use vstd::prelude::*;

verus! {

/// The least and the most experience a message earns.
pub const LEAST_GAIN: i64 = 10;

pub const MOST_GAIN: i64 = 24;

/// The experience a message earns for a drawn number: ten, and the remainder of the number's
/// magnitude by fifteen.
pub open spec fn gain_of(sample: int) -> int {
    (if sample < 0 {
        -sample
    } else {
        sample
    }) % 15 + 10
}

/// The experience a message earns for a drawn number. The least 32-bit number has no
/// magnitude in 32 bits and is left out.
pub fn xp_gain(sample: i32) -> (gain: i64)
    requires
        sample != i32::MIN,
    ensures
        gain == gain_of(sample as int),
        LEAST_GAIN <= gain <= MOST_GAIN,
{
    let magnitude: i32 = if sample < 0 {
        -sample
    } else {
        sample
    };
    let gain: i32 = magnitude % 15 + 10;
    gain as i64
}

/// Draws a number and returns the experience a message earns for it; none where the draw
/// is the one number that [`xp_gain`] leaves out.
pub fn draw_xp_gain() -> (gain: Option<i64>)
    ensures
        exists|sample: i32| gain == #[trigger] gain_drawn(sample),
        gain matches Some(g) ==> LEAST_GAIN <= g <= MOST_GAIN,
{
    let sample = random_i32();
    gain_for(sample)
}

/// What a drawn number earns: nothing for the least 32-bit number, which has no magnitude
/// in 32 bits, and for every other number what [`gain_of`] says.
pub open spec fn gain_drawn(sample: i32) -> Option<i64> {
    if sample == i32::MIN {
        None
    } else {
        Some(gain_of(sample as int) as i64)
    }
}

/// The experience a message earns for a drawn number, whatever the number is.
pub fn gain_for(sample: i32) -> (gain: Option<i64>)
    ensures
        gain == gain_drawn(sample),
        gain matches Some(g) ==> LEAST_GAIN <= g <= MOST_GAIN,
{
    if sample == i32::MIN {
        None
    } else {
        Some(xp_gain(sample))
    }
}

/// A member's experience after a gain; none where it does not fit in 64 bits.
pub fn add_xp(xp: i64, gain: i64) -> (total: Option<i64>)
    ensures
        total == if i64::MIN <= xp + gain <= i64::MAX {
            Some((xp + gain) as i64)
        } else {
            None
        },
{
    xp.checked_add(gain)
}

/// The experience at which a level begins: a hundred times its square.
pub open spec fn level_floor(level: int) -> int {
    level * level * 100
}

/// How far a member is into a level.
#[derive(Debug, Clone, Copy, PartialEq, Eq, Structural)]
pub struct Progress {
    /// The experience at which the next level begins.
    pub xp_for_next: i64,
    /// The experience gained since the level began.
    pub xp_progress: i64,
    /// The experience between the level's beginning and the next one's.
    pub xp_needed: i64,
}

/// The progress of a member with `xp` at `level`, where every quantity fits in 64 bits.
pub open spec fn progress_of(xp: i64, level: i64) -> Option<Progress> {
    let floor = level_floor(level as int);
    let next = level_floor(level + 1);
    if next <= i64::MAX && floor <= i64::MAX && i64::MIN <= xp - floor <= i64::MAX {
        Some(
            Progress {
                xp_for_next: next as i64,
                xp_progress: (xp - floor) as i64,
                xp_needed: (next - floor) as i64,
            },
        )
    } else {
        None
    }
}

/// The progress of a member with `xp` at `level`; none where a quantity does not fit.
pub fn level_progress(xp: i64, level: i64) -> (progress: Option<Progress>)
    ensures
        progress == progress_of(xp, level),
{
    proof {
        lemma_floor_bounds(level as int);
        lemma_floor_bounds(level + 1);
    }
    let above = match level.checked_add(1) {
        Some(a) => a,
        None => {
            assert(level_floor(level + 1) > i64::MAX) by (nonlinear_arith)
                requires
                    level == i64::MAX,
            ;
            return None;
        },
    };
    let above_squared = match above.checked_mul(above) {
        Some(s) => s,
        None => {
            return None;
        },
    };
    let next = match above_squared.checked_mul(100) {
        Some(n) => n,
        None => {
            return None;
        },
    };
    let squared = match level.checked_mul(level) {
        Some(s) => s,
        None => {
            return None;
        },
    };
    let floor = match squared.checked_mul(100) {
        Some(f) => f,
        None => {
            return None;
        },
    };
    let xp_progress = match xp.checked_sub(floor) {
        Some(p) => p,
        None => {
            return None;
        },
    };
    Some(Progress { xp_for_next: next, xp_progress, xp_needed: next - floor })
}

/// A level's floor is no less than the level's square, which is not negative.
proof fn lemma_floor_bounds(level: int)
    ensures
        0 <= level * level <= level_floor(level),
{
    assert(0 <= level * level) by (nonlinear_arith);
    assert(level * level <= level * level * 100) by (nonlinear_arith)
        requires
            0 <= level * level,
    ;
}

/// Minutes as whole hours and the minutes left over, both of the sign of `minutes`.
pub fn hours_and_minutes(minutes: i64) -> (parts: (i64, i64))
    ensures
        parts.0 * 60 + parts.1 == minutes,
        minutes >= 0 ==> 0 <= parts.1 < 60,
        minutes < 0 ==> -60 < parts.1 <= 0,
{
    (minutes / 60, minutes % 60)
}

} // verus!
