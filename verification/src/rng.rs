//! Deterministic pseudo-random streams, wrapped so that every draw has a
//! name: the value of a draw is a fixed (if unspecified) function of the
//! seed and of the sequence of draws made before it. That the whole stream
//! is a function of the seed is the tool's reproducibility contract, so the
//! wrappers record the seed and the draw history beside the generator.

use vstd::prelude::*;
use rand::Rng;
use rand::SeedableRng;

verus! {

#[verifier::external_type_specification]
#[verifier::external_body]
pub struct ExChaCha20Rng(rand_chacha::ChaCha20Rng);

#[verifier::external_type_specification]
#[verifier::external_body]
pub struct ExStdRng(rand::rngs::StdRng);

/// The byte that a ChaCha20 stream seeded with `seed` yields for an
/// inclusive range `lo..=hi`, after the draws recorded in `prior`.
/// Each prior draw is recorded as (kind, low, high), where kind 0 is a byte
/// draw over an inclusive range and kind 1 an index draw over an exclusive one.
pub uninterp spec fn chacha_byte_draw(seed: u64, prior: Seq<(u64, u64, u64)>, lo: u8, hi: u8) -> u8;

/// The index below `bound` that a ChaCha20 stream seeded with `seed` yields
/// after the draws recorded in `prior`.
pub uninterp spec fn chacha_index_draw(seed: u64, prior: Seq<(u64, u64, u64)>, bound: usize) -> usize;

/// The byte that the standard generator seeded with `seed` yields for an
/// inclusive range `lo..=hi`, after the inclusive byte draws recorded in `prior`.
pub uninterp spec fn std_byte_draw(seed: u64, prior: Seq<(u8, u8)>, lo: u8, hi: u8) -> u8;

/// Relies on rand_core's `SeedableRng::seed_from_u64` for `ChaCha20Rng`:
/// building the generator is a pure function of the seed.
#[verifier::external_body]
fn chacha_from_seed(seed: u64) -> (r: rand_chacha::ChaCha20Rng) {
    rand_chacha::ChaCha20Rng::seed_from_u64(seed)
}

/// Relies on rand_core's `SeedableRng::seed_from_u64` for `StdRng`:
/// building the generator is a pure function of the seed.
#[verifier::external_body]
fn std_from_seed(seed: u64) -> (r: rand::rngs::StdRng) {
    rand::rngs::StdRng::seed_from_u64(seed)
}

/// A ChaCha20 stream: the fortune engine's source of deterministic variety.
pub struct FortuneRng {
    rng: rand_chacha::ChaCha20Rng,
    seed: u64,
    history: Vec<(u64, u64, u64)>,
}

impl FortuneRng {
    /// The seed this stream was created from.
    pub closed spec fn seed(&self) -> u64 {
        self.seed
    }

    /// Every draw made from this stream so far, in order.
    pub closed spec fn history(&self) -> Seq<(u64, u64, u64)> {
        self.history@
    }

    /// A fresh stream, with no draws made yet.
    pub fn from_seed(seed: u64) -> (r: Self)
        ensures
            r.seed() == seed,
            r.history() == Seq::<(u64, u64, u64)>::empty(),
    {
        FortuneRng { rng: chacha_from_seed(seed), seed, history: Vec::new() }
    }

    /// Relies on rand's `Rng::gen_range` over `lo..=hi` for `u8`: the result
    /// lies in the range and is a pure function of the generator's state,
    /// which the seed and the prior draws determine.
    #[verifier::external_body]
    pub fn gen_byte_range(&mut self, lo: u8, hi: u8) -> (r: u8)
        requires
            lo <= hi,
        ensures
            lo <= r <= hi,
            r == chacha_byte_draw(old(self).seed(), old(self).history(), lo, hi),
            final(self).seed() == old(self).seed(),
            final(self).history() == old(self).history().push(
                (0u64, lo as u64, hi as u64),
            ),
    {
        self.history.push((0, lo as u64, hi as u64));
        self.rng.gen_range(lo..=hi)
    }

    /// Relies on rand's `Rng::gen_range` over `0..bound` for `usize`: the
    /// result lies below `bound` and is a pure function of the generator's
    /// state, which the seed and the prior draws determine.
    #[verifier::external_body]
    pub fn gen_index(&mut self, bound: usize) -> (r: usize)
        requires
            bound >= 1,
        ensures
            r < bound,
            r == chacha_index_draw(old(self).seed(), old(self).history(), bound),
            final(self).seed() == old(self).seed(),
            final(self).history() == old(self).history().push((1u64, bound as u64, 0u64)),
    {
        self.history.push((1, bound as u64, 0));
        self.rng.gen_range(0..bound)
    }
}

/// The standard generator, seeded: the lucky-number source.
pub struct LuckyRng {
    rng: rand::rngs::StdRng,
    seed: u64,
    history: Vec<(u8, u8)>,
}

impl LuckyRng {
    /// The seed this stream was created from.
    pub closed spec fn seed(&self) -> u64 {
        self.seed
    }

    /// Every draw made from this stream so far, in order.
    pub closed spec fn history(&self) -> Seq<(u8, u8)> {
        self.history@
    }

    /// A fresh stream, with no draws made yet.
    pub fn from_seed(seed: u64) -> (r: Self)
        ensures
            r.seed() == seed,
            r.history() == Seq::<(u8, u8)>::empty(),
    {
        LuckyRng { rng: std_from_seed(seed), seed, history: Vec::new() }
    }

    /// Relies on rand's `Rng::gen_range` over `lo..=hi` for `u8`: the result
    /// lies in the range and is a pure function of the generator's state,
    /// which the seed and the prior draws determine.
    #[verifier::external_body]
    pub fn gen_byte_range(&mut self, lo: u8, hi: u8) -> (r: u8)
        requires
            lo <= hi,
        ensures
            lo <= r <= hi,
            r == std_byte_draw(old(self).seed(), old(self).history(), lo, hi),
            final(self).seed() == old(self).seed(),
            final(self).history() == old(self).history().push((lo, hi)),
    {
        self.history.push((lo, hi));
        self.rng.gen_range(lo..=hi)
    }
}

} // verus!
