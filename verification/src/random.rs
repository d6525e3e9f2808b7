//! The random source that seeds a new universe: the thread-local generator
//! of the `rand` crate. Nothing here is proved; the contracts say what the
//! crate documents.

use rand::rngs::ThreadRng;
use rand::Rng;
use vstd::prelude::*;

verus! {

/// `rand::rngs::ThreadRng`, the handle to the generator of the calling
/// thread. Nothing is known of what it holds.
#[verifier::external_type_specification]
#[verifier::external_body]
pub struct ExThreadRng(ThreadRng);

/// `rand::thread_rng`: hands out the generator of the calling thread, which
/// the system seeds on first use. Nothing is claimed of the handle. The crate
/// panics where the system gives it no seed.
pub assume_specification[ rand::thread_rng ]() -> (rng: ThreadRng);

/// `rand::Rng::gen_range` on the thread-local generator, for `i32`: draws a
/// number from `low` up to, and not including, `high`. The crate documents a
/// uniform draw; the contract claims the range alone, which holds of every
/// draw, and two calls may differ. The crate panics unless `low < high`.
#[verifier::external_body]
pub(crate) fn gen_range(rng: &mut ThreadRng, low: i32, high: i32) -> (draw: i32)
    requires
        low < high,
    ensures
        low <= draw < high,
{
    rng.gen_range(low, high)
}

} // verus!
