//! The rules behind the utility commands: how a latency is graded and how the leaderboard is
//! paged.

use vstd::prelude::*;

verus! {

/// How good a latency is.
#[derive(Debug, Clone, Copy, PartialEq, Eq, Structural)]
pub enum LatencyGrade {
    /// Under a hundred milliseconds.
    Excellent,
    /// Under two hundred milliseconds.
    Good,
    Slow,
}

/// Grades a latency given in milliseconds.
pub fn grade_latency(millis: u128) -> (grade: LatencyGrade)
    ensures
        grade == if millis < 100 {
            LatencyGrade::Excellent
        } else if millis < 200 {
            LatencyGrade::Good
        } else {
            LatencyGrade::Slow
        },
{
    if millis < 100 {
        LatencyGrade::Excellent
    } else if millis < 200 {
        LatencyGrade::Good
    } else {
        LatencyGrade::Slow
    }
}

impl LatencyGrade {
    /// The word shown for the grade.
    pub fn word(self) -> (word: &'static str)
        ensures
            word@ == match self {
                LatencyGrade::Excellent => "Excellent"@,
                LatencyGrade::Good => "Good"@,
                LatencyGrade::Slow => "Slow"@,
            },
    {
        match self {
            LatencyGrade::Excellent => "Excellent",
            LatencyGrade::Good => "Good",
            LatencyGrade::Slow => "Slow",
        }
    }
}

/// The members shown on one page of the leaderboard.
pub const PER_PAGE: i32 = 10;

/// The page asked for: the first where none is named, and never one before the first.
pub fn page_number(asked: Option<i32>) -> (page: i32)
    ensures
        page == match asked {
            Some(p) => if p < 1 {
                1
            } else {
                p
            },
            None => 1,
        },
{
    match asked {
        Some(p) => if p < 1 {
            1
        } else {
            p
        },
        None => 1,
    }
}

/// The number of members that stand before a page; none where it does not fit in 32 bits.
pub fn page_offset(page: i32) -> (offset: Option<i32>)
    ensures
        offset == if i32::MIN <= (page - 1) * PER_PAGE <= i32::MAX {
            Some(((page - 1) * PER_PAGE) as i32)
        } else {
            None
        },
{
    match page.checked_sub(1) {
        Some(before) => before.checked_mul(PER_PAGE),
        None => {
            assert((page - 1) * PER_PAGE < i32::MIN);
            None
        },
    }
}

/// The rank of the member at `index` on a page that begins after `offset` members; none
/// where it does not fit in 32 bits.
pub fn rank_on_page(offset: i32, index: usize) -> (rank: Option<i32>)
    ensures
        rank == if offset + index + 1 <= i32::MAX {
            Some((offset + index + 1) as i32)
        } else {
            None
        },
{
    if index > 0xffff_fffe {
        return None;
    }
    let rank: i64 = offset as i64 + index as i64 + 1;
    if rank <= 0x7fff_ffff {
        Some(rank as i32)
    } else {
        None
    }
}

/// The medal of a rank.
#[derive(Debug, Clone, Copy, PartialEq, Eq, Structural)]
pub enum Medal {
    Gold,
    Silver,
    Bronze,
    /// Every rank but the first three.
    Plain,
}

/// The medal of a rank: gold, silver and bronze for the first three.
pub fn medal_of(rank: i32) -> (medal: Medal)
    ensures
        medal == if rank == 1 {
            Medal::Gold
        } else if rank == 2 {
            Medal::Silver
        } else if rank == 3 {
            Medal::Bronze
        } else {
            Medal::Plain
        },
{
    if rank == 1 {
        Medal::Gold
    } else if rank == 2 {
        Medal::Silver
    } else if rank == 3 {
        Medal::Bronze
    } else {
        Medal::Plain
    }
}

/// The pages that `total` members fill: a page for every ten, and one for what is left.
pub open spec fn pages_for(total: int) -> int {
    (total + PER_PAGE - 1) / (PER_PAGE as int)
}

/// The pages that `total` members fill; none where `total` is negative or the pages do not
/// fit in 32 bits.
pub fn total_pages(total: i64) -> (pages: Option<i32>)
    ensures
        pages == if 0 <= total && pages_for(total as int) <= i32::MAX {
            Some(pages_for(total as int) as i32)
        } else {
            None
        },
{
    if total < 0 || total > 0x7fff_ffff * 10 {
        return None;
    }
    let pages: i64 = (total + 9) / 10;
    Some(pages as i32)
}

} // verus!
