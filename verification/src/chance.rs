//! Random draws. What comes back is not known beforehand: the functions here state what holds
//! of every draw, and the rules that use a draw take it as an argument.

use rand::Rng;
use vstd::prelude::*;

verus! {

/// `rand::random::<i32>()`: a 32-bit number, of which nothing is known.
#[verifier::external_body]
pub(crate) fn random_i32() -> (sample: i32) {
    rand::random::<i32>()
}

/// `rand::random::<bool>()`: either truth value.
#[verifier::external_body]
pub(crate) fn random_bool() -> (sample: bool) {
    rand::random::<bool>()
}

/// `Rng::gen_range` of the thread's generator on `0..len`: a number below `len`. The range
/// must not be empty, or the call panics.
#[verifier::external_body]
pub(crate) fn random_below(len: usize) -> (sample: usize)
    requires
        len > 0,
    ensures
        sample < len,
{
    rand::thread_rng().gen_range(0..len)
}

/// `Rng::gen_range` of the thread's generator on `low..=high`: a number from `low` to `high`,
/// both included. The range must not be empty, or the call panics.
#[verifier::external_body]
pub(crate) fn random_between(low: i32, high: i32) -> (sample: i32)
    requires
        low <= high,
    ensures
        low <= sample <= high,
{
    rand::thread_rng().gen_range(low..=high)
}

/// Draws a position in a list of `len` entries; none where the list is empty.
pub fn pick_index(len: usize) -> (picked: Option<usize>)
    ensures
        len == 0 <==> picked is None,
        picked matches Some(i) ==> i < len,
{
    if len == 0 {
        None
    } else {
        Some(random_below(len))
    }
}

} // verus!
