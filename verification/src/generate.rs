//! Deterministic workload generation.
//!
//! The benchmark feeds every strategy the same pair of integer arrays. The
//! arrays are drawn from a seeded ChaCha20 generator, so that a given seed
//! reproduces bit-identical array contents on every run — reproducibility is
//! what makes measurements comparable across runs.

use vstd::prelude::*;

use rand::distributions::Distribution;
use rand::SeedableRng;
use rand_chacha::ChaCha20Rng;

verus! {

#[verifier::external_type_specification]
#[verifier::external_body]
pub struct ExChaCha20Rng(ChaCha20Rng);

/// The value of draw number `index` (counting from zero) taken from a ChaCha20
/// generator seeded with `seed`, when every draw samples the uniform integer
/// distribution on `[lo, hi)`. ChaCha20 is a portable, reproducible generator
/// and uniform integer sampling consumes its output deterministically, so for
/// a fixed draw discipline the value is a function of these arguments alone.
pub uninterp spec fn chacha_uniform(seed: u64, index: nat, lo: i64, hi: i64) -> i64;

/// The sequence of `n` values a standard workload generator seeded with
/// `seed` produces after it has already made `start` draws.
pub open spec fn workload(seed: u64, start: nat, n: nat) -> Seq<i64> {
    Seq::new(n, |i: int| chacha_uniform(seed, (start + i) as nat, 0, i64::MAX))
}

/// A deterministic source of uniformly distributed 64-bit integers, seeded
/// once and drawn from in order.
///
/// The fields are kept in step by this module alone: `rng` always holds the
/// ChaCha20 state reached from `seed` after `drawn` draws, every draw sampling
/// the uniform distribution on `[lo, hi)`.
pub struct Generator {
    rng: ChaCha20Rng,
    lo: i64,
    hi: i64,
    seed: Ghost<u64>,
    drawn: Ghost<nat>,
}

impl Generator {
    /// The seed this generator was built from.
    pub closed spec fn seed(self) -> u64 {
        self.seed@
    }

    /// How many values this generator has produced so far.
    pub closed spec fn drawn(self) -> nat {
        self.drawn@
    }

    /// A standard generator draws uniformly from `[0, i64::MAX)`.
    pub closed spec fn wf(self) -> bool {
        self.lo == 0 && self.hi == i64::MAX
    }

    /// Relies on `rand_core::SeedableRng::seed_from_u64` for
    /// `rand_chacha::ChaCha20Rng`: builds the generator state that belongs to
    /// `seed`, reproducibly across runs and platforms.
    #[verifier::external_body]
    fn chacha_from_seed(seed: u64) -> ChaCha20Rng {
        ChaCha20Rng::seed_from_u64(seed)
    }

    /// A fresh standard generator for `seed`: it has drawn nothing yet.
    pub fn new(seed: u64) -> (g: Generator)
        ensures
            g.wf(),
            g.seed() == seed,
            g.drawn() == 0,
    {
        Generator {
            rng: Self::chacha_from_seed(seed),
            lo: 0,
            hi: i64::MAX,
            seed: Ghost(seed),
            drawn: Ghost(0),
        }
    }

    /// Relies on `rand::distributions::Uniform::from` and
    /// `Distribution::sample`: one value drawn uniformly from `[lo, hi)`,
    /// determined by the generator's seed and by how many draws preceded it.
    #[verifier::external_body]
    fn draw(&mut self) -> (v: i64)
        requires
            old(self).lo < old(self).hi,
        ensures
            final(self).lo == old(self).lo,
            final(self).hi == old(self).hi,
            final(self).seed@ == old(self).seed@,
            final(self).drawn@ == old(self).drawn@ + 1,
            v == chacha_uniform(old(self).seed@, old(self).drawn@, old(self).lo, old(self).hi),
            old(self).lo <= v < old(self).hi,
    {
        rand::distributions::Uniform::from(self.lo..self.hi).sample(&mut self.rng)
    }

    /// Draws the next `n` values in order, each uniformly from
    /// `[0, i64::MAX)`. The contents are a function of the seed and of the
    /// number of draws already made, and of nothing else: invoking a
    /// generator with the same seed and the same history again yields
    /// bit-identical contents.
    pub fn fill(&mut self, n: u32) -> (out: Vec<i64>)
        requires
            old(self).wf(),
            n > 0,
        ensures
            final(self).wf(),
            final(self).seed() == old(self).seed(),
            final(self).drawn() == old(self).drawn() + n,
            out@.len() == n,
            out@ == workload(old(self).seed(), old(self).drawn(), n as nat),
            forall|i: int|
                0 <= i < n ==> out@[i] == chacha_uniform(
                    old(self).seed(),
                    (old(self).drawn() + i) as nat,
                    0,
                    i64::MAX,
                ),
            forall|i: int| 0 <= i < n ==> 0 <= #[trigger] out@[i] < i64::MAX,
    {
        let mut out: Vec<i64> = Vec::new();
        let mut i: u32 = 0;
        while i < n
            invariant
                i <= n,
                self.wf(),
                self.seed@ == old(self).seed@,
                self.drawn@ == old(self).drawn@ + i,
                out@.len() == i,
                forall|j: int|
                    0 <= j < i ==> out@[j] == chacha_uniform(
                        old(self).seed@,
                        (old(self).drawn@ + j) as nat,
                        0,
                        i64::MAX,
                    ),
                forall|j: int| 0 <= j < i ==> 0 <= #[trigger] out@[j] < i64::MAX,
            decreases n - i,
        {
            let v = self.draw();
            out.push(v);
            i = i + 1;
        }
        proof {
            assert(out@ =~= workload(old(self).seed(), old(self).drawn(), n as nat));
        }
        out
    }
}

/// Workload generation is deterministic: two generators with the same seed
/// and the same draw history, asked for the same positive row count, produce
/// bit-identical contents — `fill` returns exactly
/// `workload(seed, drawn, n)`, which depends on nothing but these arguments.
pub proof fn lemma_generation_deterministic(g1: Generator, g2: Generator, n: u32)
    requires
        n > 0,
        g1.seed() == g2.seed(),
        g1.drawn() == g2.drawn(),
    ensures
        workload(g1.seed(), g1.drawn(), n as nat) == workload(g2.seed(), g2.drawn(), n as nat),
{
}

} // verus!
