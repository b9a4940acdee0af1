//! Random draws for spawning.
use vstd::prelude::*;

verus! {

/// Relies on `rand::Rng::random_range` over `0..n` with the thread-local generator
/// (`rand::rng`): a value below `n`; the range is never empty, so it does not panic.
#[verifier::external_body]
pub(crate) fn random_below(n: u64) -> (r: u64)
    requires
        n > 0,
    ensures
        r < n,
{
    rand::Rng::random_range(&mut rand::rng(), 0..n)
}

} // verus!
