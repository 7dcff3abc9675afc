use vstd::prelude::*;

verus! {

/// Largest range that [`random_below`] draws from: 2^52.
pub const RANDOM_RANGE_MAX: u64 = 0x10_0000_0000_0000;

/// `macroquad::rand::gen_range(0, n)` (the `quad_rand` generator that macroquad
/// re-exports): a pseudo-random integer at least 0 and below `n`. Which one comes out
/// depends on the generator's hidden state, so nothing more is said of it. The bound on
/// `n` keeps `n` and its products with the generator's fraction (below one by at least
/// 2^-32) exact enough in `f64` that the result stays below `n`.
#[verifier::external_body]
pub(crate) fn random_below(n: usize) -> (r: usize)
    requires
        0 < n <= RANDOM_RANGE_MAX,
    ensures
        r < n,
{
    quad_rand::gen_range(0, n)
}

} // verus!
