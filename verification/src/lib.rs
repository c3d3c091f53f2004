//! Searches for a 32-byte salt whose CREATE2-derived contract address scores
//! highly under a nibble-pattern vanity heuristic.

use vstd::prelude::*;

pub mod create2;
pub mod encoding;
pub mod scoring;
pub mod search;

pub use create2::compute_address;
pub use encoding::SearchError;
pub use search::{loop_hash, try_loop_hash, AddressScore, RandomSource, ThreadRandom};

verus! {

/// Vanity score of a 20-byte address, as a `usize`.
///
/// Same heuristic as [`scoring::score`]; the score is small enough to fit.
pub fn score(input: &[u8; 20]) -> (r: usize)
    ensures
        r as int == scoring::vanity_score(input@),
{
    proof {
        scoring::lemma_score_bounds(input@);
    }
    scoring::score(input) as usize
}

} // verus!
