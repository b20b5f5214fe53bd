//! The random source that fresh identifiers are drawn from.

use rand::rngs::ThreadRng;
use rand::Rng;
use vstd::prelude::*;

verus! {

/// The generator that `rand` keeps for each thread. Nothing inside it is
/// visible to the verifier.
#[verifier::external_type_specification]
#[verifier::external_body]
pub struct ExThreadRng(ThreadRng);

/// `rand::thread_rng`: a handle on the calling thread's generator, which the
/// operating system seeds on first use. Nothing is claimed of the handle. If
/// the system cannot provide a seed, the call panics: the runtime is broken and
/// the operation is lost.
pub assume_specification[ rand::thread_rng ]() -> (rng: ThreadRng);

/// `Rng::gen::<usize>` on the thread's generator: one uniformly distributed
/// machine word. The value depends on the generator's state, so nothing is
/// claimed of it.
#[verifier::external_body]
pub(crate) fn next_sample(rng: &mut ThreadRng) -> (sample: usize) {
    rng.gen::<usize>()
}

} // verus!
