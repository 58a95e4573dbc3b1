//! The random source of the emitters: the thread-local generator of `rand`.

use vstd::prelude::*;
use rand::rngs::ThreadRng;
use rand::Rng;

verus! {

#[verifier::external_type_specification]
#[verifier::external_body]
pub struct ExThreadRng(ThreadRng);

/// `rand::thread_rng` hands out the calling thread's generator. Nothing is
/// claimed of it. It takes no input; it panics where the operating system
/// cannot seed the generator on the thread's first use.
pub assume_specification[ rand::thread_rng ]() -> (rng: ThreadRng)
;

/// `Rng::gen_range` on a half-open range of `usize`: for a range that is not
/// empty the draw lies in it, lower bound included, upper bound excluded.
/// Which value comes is left open. On an empty range `gen_range` panics, so
/// the range must not be empty. Whatever the range, a draw also panics where
/// the generator is due to reseed itself and the operating system gives it
/// no seed.
#[verifier::external_body]
pub(crate) fn draw_below(rng: &mut ThreadRng, low: usize, high: usize) -> (n: usize)
    requires
        low < high,
    ensures
        low <= n < high,
{
    rng.gen_range(low..high)
}

} // verus!
