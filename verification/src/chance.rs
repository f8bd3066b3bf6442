use vstd::prelude::*;
use rand::distributions::IndependentSample;
use rand::Rng;

verus! {

/// Draws a number with `rand::distributions::Range::new(0, n)` and
/// `IndependentSample::ind_sample` on the generator from
/// `rand::thread_rng()`. Claimed: the number lies in `0..n`, as the crate
/// documents for integer ranges (sampled in `[low, high)`); `Range::new`
/// asserts `low < high`, so `n` must be positive. Which number comes back
/// is chance. (`thread_rng` panics where the system has no entropy to seed
/// the generator with.)
#[verifier::external_body]
pub(crate) fn random_below(n: i32) -> (t: i32)
    requires
        n > 0,
    ensures
        0 <= t < n,
{
    rand::distributions::Range::new(0i32, n).ind_sample(&mut rand::thread_rng())
}

/// Draws `true` with a one in `n` chance: `rand::Rng::gen_weighted_bool(n)`
/// on the generator from `rand::thread_rng()`. Claimed: with `n == 1` the
/// result is `true` (the source answers `n <= 1 || ...`); otherwise either
/// value may come back. (`thread_rng` panics where the system has no
/// entropy to seed the generator with.)
#[verifier::external_body]
pub(crate) fn one_in(n: u32) -> (r: bool)
    requires
        n >= 1,
    ensures
        n == 1 ==> r,
{
    rand::thread_rng().gen_weighted_bool(n)
}

} // verus!
