//! Pseudo-random draws from the process-wide generator of `macroquad`.
//!
//! What a draw returns depends on the state of that generator, so the
//! contract here states only the range that every outcome lies in.

use vstd::prelude::*;

verus! {

/// Calls `macroquad::rand::gen_range` at type `usize`. That function scales
/// a 32-bit draw into `[0, 1)`, maps it to `low + (high - low) * r` in
/// double precision and truncates; for bounds up to 2^20 that arithmetic is
/// exact, so the result is at least `low` and strictly less than `high`.
#[verifier::external_body]
pub(crate) fn random_usize(low: usize, high: usize) -> (r: usize)
    requires
        low < high <= 0x10_0000,
    ensures
        low <= r < high,
{
    macroquad::rand::gen_range(low, high)
}

} // verus!
