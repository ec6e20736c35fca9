//! The random source. Nothing here is proved: the two functions hand the
//! work to the `rand` crate, and their contracts are taken on trust.

use rand::rngs::ThreadRng;
use rand::Rng;
use vstd::prelude::*;

verus! {

/// `rand::rngs::ThreadRng`, the handle to the thread-local generator. The
/// library only carries it from where it is made to where it is sampled.
#[verifier::external_type_specification]
#[verifier::external_body]
pub struct ExThreadRng(ThreadRng);

/// Calls `rand::thread_rng`, which hands out the calling thread's generator.
/// Nothing is claimed of the handle.
#[verifier::external_body]
pub(crate) fn thread_generator() -> ThreadRng {
    rand::thread_rng()
}

/// Calls `Rng::gen_range(0, bound)` on the generator. The range is half open,
/// so every outcome lies below `bound`; which one comes is left open. The
/// call panics on an empty range, hence the precondition.
#[verifier::external_body]
pub(crate) fn sample_below(rng: &mut ThreadRng, bound: u32) -> (r: u32)
    requires
        bound > 0,
    ensures
        r < bound,
{
    rng.gen_range(0, bound)
}

} // verus!
