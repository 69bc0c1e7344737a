use vstd::prelude::*;

use rand::Rng;
use rand::seq::SliceRandom;

use crate::naming::line_views;

verus! {

#[verifier::external_type_specification]
#[verifier::external_body]
pub struct ExThreadRng(rand::rngs::ThreadRng);

/// Relies on rand::thread_rng: a handle to the lazily-initialized
/// thread-local random number generator. Nothing is promised of it.
#[verifier::external_body]
pub(crate) fn fresh_rng() -> rand::rngs::ThreadRng {
    rand::thread_rng()
}

/// Relies on rand's Rng::gen_range: on a non-empty range it returns a value
/// within that range (and panics on an empty one, which `lo <= hi` rules
/// out). The value is random, so nothing more than membership is promised.
#[verifier::external_body]
pub(crate) fn range_u8(rng: &mut rand::rngs::ThreadRng, lo: u8, hi: u8) -> (r: u8)
    requires
        lo <= hi,
    ensures
        lo <= r <= hi,
{
    rng.gen_range(lo..=hi)
}

/// Relies on rand's SliceRandom::choose: on a non-empty slice it returns
/// `Some` of a uniformly chosen element (`None` only on an empty slice,
/// which the precondition rules out). The choice is random, so only
/// membership is promised; the clone keeps the characters.
#[verifier::external_body]
pub(crate) fn pick_from(rng: &mut rand::rngs::ThreadRng, names: &Vec<String>) -> (r: String)
    requires
        names@.len() > 0,
    ensures
        line_views(names@).contains(r@),
{
    names.choose(rng).unwrap().clone()
}

} // verus!
