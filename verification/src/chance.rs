//! Random numbers, drawn from the `rand` crate.
//!
//! Nothing in this file is proved: the function states what `rand` documents of the
//! method it calls.

use vstd::prelude::*;

verus! {

/// `rand::Rng::gen_range` on the generator of the current thread, with the inclusive
/// range from `low` to `high`: some number of that range. Which one is not known, and
/// two calls may give two numbers. The range must not be empty.
#[verifier::external_body]
pub(crate) fn random_between(low: i32, high: i32) -> (n: i32)
    requires
        low <= high,
    ensures
        low <= n <= high,
{
    rand::Rng::gen_range(&mut rand::thread_rng(), low..=high)
}

} // verus!
