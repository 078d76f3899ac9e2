//! The source of random targets: the thread-local generator of the `rand`
//! crate. Nothing in this file is proved; each item states what is taken on
//! trust from `rand`.

use vstd::prelude::*;
use rand::rngs::ThreadRng;
use rand::Rng;

verus! {

/// `rand::rngs::ThreadRng`, the handle to the generator of the current thread.
/// Nothing inside it is visible to the verifier.
#[verifier::external_type_specification]
#[verifier::external_body]
pub struct ExThreadRng(rand::rngs::ThreadRng);

/// `rand::thread_rng` hands out the handle to the generator of the current
/// thread. Nothing is claimed of the handle. The generator is seeded from the
/// operating system on its first use in a thread, and `rand` panics there if
/// the system supplies no seed: no precondition can rule that out.
pub assume_specification[ rand::thread_rng ]() -> (rng: rand::rngs::ThreadRng)
;

/// `rand::Rng::gen_range` on the inclusive range `min..=max` of `u32`.
///
/// It panics on an empty range, hence the precondition. Claimed of it: the
/// value drawn lies in the range, both ends included. Which value is drawn is
/// up to the generator, so two calls may differ and nothing more is promised;
/// that every value of the range is equally likely is `rand`'s word alone.
#[verifier::external_body]
pub(crate) fn random_in_range(rng: &mut ThreadRng, min: u32, max: u32) -> (value: u32)
    requires
        min <= max,
    ensures
        min <= value <= max,
{
    rng.gen_range(min..=max)
}

} // verus!
