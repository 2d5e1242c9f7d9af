//! Seeded pseudo-random draws (`rand`'s `StdRng`) used by the city skyline.

use vstd::prelude::*;
use rand::{Rng, SeedableRng};

verus! {

#[verifier::external_type_specification]
#[verifier::external_body]
pub struct ExStdRng(rand::rngs::StdRng);

/// Whether the first `gen_ratio(numerator, denominator)` draw of a `StdRng`
/// seeded with `seed_from_u64(seed)` comes out true. `rand` documents the
/// generator as deterministic (in the version used here, ChaCha12 keyed from
/// the seed), so within that version this depends on the three arguments
/// alone; `rand` does not promise the same draws across its versions.
pub uninterp spec fn seeded_chance(seed: u64, numerator: u32, denominator: u32) -> bool;

/// Calls `rand::rngs::StdRng::seed_from_u64(seed)` and then `Rng::gen_ratio` once. The
/// contract names the result `seeded_chance(seed, numerator, denominator)`;
/// which seeds give true is not stated. `gen_ratio` panics unless
/// `numerator <= denominator` and `denominator > 0`, hence the `requires`.
#[verifier::external_body]
pub(crate) fn seeded_ratio(seed: u64, numerator: u32, denominator: u32) -> (b: bool)
    requires
        0 < denominator,
        numerator <= denominator,
    ensures
        b == seeded_chance(seed, numerator, denominator),
{
    rand::rngs::StdRng::seed_from_u64(seed).gen_ratio(numerator, denominator)
}

/// The value a `StdRng` seeded with `seed_from_u64(seed)` gives for
/// `gen_range(lo..hi)` after the draws `drawn` have been made from it. Each
/// draw is recorded as `(narrow, lo, hi)`: `narrow` is true for a `u16`
/// range and false for an `i32` range, since `rand` samples the two with
/// different rejection zones (`uniform_int_impl!` in
/// `distributions/uniform.rs`), so the same bounds need not consume the
/// generator alike. `rand` documents `StdRng` as deterministic (ChaCha12 in
/// the version used here), so within that version the value depends on
/// these arguments alone; which value it is is not stated beyond its range.
pub uninterp spec fn seeded_draw(seed: u64, drawn: Seq<(bool, int, int)>, narrow: bool, lo: int, hi: int) -> int;

/// A `StdRng` seeded from a `u64`, with the seed and the ranges drawn from
/// it so far.
pub struct SeededRng {
    rng: rand::rngs::StdRng,
    seed: Ghost<u64>,
    drawn: Ghost<Seq<(bool, int, int)>>,
}

impl SeededRng {
    /// The seed the generator was made from.
    pub closed spec fn seed(&self) -> u64 {
        self.seed@
    }

    /// The draws made so far, in order (see `seeded_draw`).
    pub closed spec fn drawn(&self) -> Seq<(bool, int, int)> {
        self.drawn@
    }

    /// A generator seeded with `seed`, nothing drawn yet.
    pub fn new(seed: u64) -> (r: SeededRng)
        ensures
            r.seed() == seed,
            r.drawn() == Seq::<(bool, int, int)>::empty(),
    {
        SeededRng { rng: seeded_rng(seed), seed: Ghost(seed), drawn: Ghost(Seq::empty()) }
    }
}

/// Calls `rand::rngs::StdRng::seed_from_u64`. Nothing is stated of the
/// generator's state; `SeededRng` records the seed beside it.
#[verifier::external_body]
fn seeded_rng(seed: u64) -> rand::rngs::StdRng {
    rand::rngs::StdRng::seed_from_u64(seed)
}

/// Calls `Rng::gen_range(lo..hi)` on `i32`. `rand` documents the result as
/// lying in `lo..hi`; it is named `seeded_draw` of the generator's seed and
/// the draws made before, and the draw is recorded. An empty range panics,
/// hence the `requires`.
#[verifier::external_body]
pub(crate) fn gen_range_i32(rng: &mut SeededRng, lo: i32, hi: i32) -> (r: i32)
    requires
        lo < hi,
    ensures
        lo <= r < hi,
        r == seeded_draw(old(rng).seed(), old(rng).drawn(), false, lo as int, hi as int),
        final(rng).seed() == old(rng).seed(),
        final(rng).drawn() == old(rng).drawn().push((false, lo as int, hi as int)),
{
    rng.rng.gen_range(lo..hi)
}

/// Calls `Rng::gen_range(lo..hi)` on `u16`. `rand` documents the result as
/// lying in `lo..hi`; it is named `seeded_draw` of the generator's seed and
/// the draws made before, and the draw is recorded. An empty range panics,
/// hence the `requires`.
#[verifier::external_body]
pub(crate) fn gen_range_u16(rng: &mut SeededRng, lo: u16, hi: u16) -> (r: u16)
    requires
        lo < hi,
    ensures
        lo <= r < hi,
        r == seeded_draw(old(rng).seed(), old(rng).drawn(), true, lo as int, hi as int),
        final(rng).seed() == old(rng).seed(),
        final(rng).drawn() == old(rng).drawn().push((true, lo as int, hi as int)),
{
    rng.rng.gen_range(lo..hi)
}

} // verus!
