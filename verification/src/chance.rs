//! A number drawn at random, for the lessons that show one.

use rand::Rng;
use vstd::prelude::*;

verus! {

/// Calls `rand::Rng::gen_range` on the generator of `rand::thread_rng` with the
/// range `low..=high`. `gen_range` panics on an empty range, so `low` may not
/// exceed `high`; what it hands back lies in the range, and nothing else is known
/// of it.
#[verifier::external_body]
fn draw(low: u8, high: u8) -> (n: u8)
    requires
        low <= high,
    ensures
        low <= n <= high,
{
    rand::thread_rng().gen_range(low..=high)
}

/// A number drawn at random from `low` to `high`, both included; `None` where
/// `low` exceeds `high`, since there is nothing to draw then.
pub fn pick_number(low: u8, high: u8) -> (picked: Option<u8>)
    ensures
        picked is Some <==> low <= high,
        picked is Some ==> low <= picked.unwrap() <= high,
{
    if low <= high {
        Some(draw(low, high))
    } else {
        None
    }
}

} // verus!
