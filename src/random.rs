use rand::distributions::{Distribution, Uniform};
use rand::rngs::SmallRng;
use vstd::prelude::*;

verus! {

#[verifier::external_type_specification]
#[verifier::external_body]
pub struct ExSmallRng(rand::rngs::SmallRng);

/// Relies on rand's `Uniform::new_inclusive(u32::MIN, u32::MAX)` sampled
/// from a `SmallRng`: one word drawn from the generator, any `u32`.
#[verifier::external_body]
pub(crate) fn random_word(rng: &mut SmallRng) -> (r: u32) {
    Uniform::new_inclusive(u32::MIN, u32::MAX).sample(rng)
}

/// `n` elements of four random words each, drawn from `rng` in order.
pub fn random_quads(rng: &mut SmallRng, n: usize) -> (r: Vec<[u32; 4]>)
    ensures
        r@.len() == n,
{
    let mut out: Vec<[u32; 4]> = Vec::new();
    let mut i: usize = 0;
    while i < n
        invariant
            i <= n,
            out@.len() == i,
        decreases n - i,
    {
        let a = random_word(rng);
        let b = random_word(rng);
        let c = random_word(rng);
        let d = random_word(rng);
        out.push([a, b, c, d]);
        i = i + 1;
    }
    out
}

} // verus!
