use vstd::prelude::*;
use vstd::pervasive::VecAdditionalExecFns;
use rand::rngs::SmallRng;
use rand::{Rng, SeedableRng};
use crate::cards::Card;

verus! {

broadcast use {
    vstd::seq_lib::group_to_multiset_ensures,
    vstd::multiset::group_multiset_axioms,
    vstd::multiset::group_multiset_properties,
};

/// The first two values that rand's `SmallRng` yields when seeded from a
/// given 64-bit value. Named so that contracts can speak of the stream.
pub uninterp spec fn small_rng_draws(seed: u64) -> (u64, u64);

/// Relies on rand's `SmallRng` (`SeedableRng::seed_from_u64` plus two
/// `Rng::gen::<u64>` calls): on one target the draws are a deterministic
/// function of the seed alone.
#[verifier::external_body]
fn small_rng_pair(seed: u64) -> (r: (u64, u64))
    ensures
        r == small_rng_draws(seed),
{
    let mut rng = SmallRng::seed_from_u64(seed);
    (rng.gen(), rng.gen())
}

/// How often uniform index sampling retries a rejected draw before it
/// settles for the last candidate. The rejection zone covers less than
/// one in a billion draws for any bound a game can reach, so the
/// fallback is unreachable in practice; the bound keeps every
/// specification a total function of the seed.
pub const SAMPLE_TRIES: u64 = 64;

/// A splittable deterministic random source. All state is a single
/// 64-bit seed: each draw reseeds the underlying generator, takes its
/// first value as the next seed and hands out the second.
#[derive(Debug)]
pub struct SRng {
    seed: u64,
}

impl Clone for SRng {
    fn clone(&self) -> (r: Self)
        ensures
            r == *self,
    {
        SRng { seed: self.seed }
    }
}

/// The seed left behind after one draw cycle.
pub open spec fn next_seed(seed: u64) -> u64 {
    small_rng_draws(seed).0
}

/// The value one draw cycle yields.
pub open spec fn drawn(seed: u64) -> u64 {
    small_rng_draws(seed).1
}

/// `range` shifted left until its top bit is set: the scaled range that
/// uniform sampling compares the low product word against.
pub open spec fn spec_norm(range: u32) -> u32
    recommends
        range >= 1,
    decreases u32::MAX - range,
    when range >= 1
{
    if range >= 0x8000_0000 {
        range
    } else {
        spec_norm((range * 2) as u32)
    }
}

/// One uniform draw of an index below `ubound`, with the seed it leaves
/// behind: multiply a 32-bit draw by the bound, keep the high word, and
/// retry (at most `tries` times) while the low word falls in the biased
/// zone.
pub open spec fn spec_gen_index(seed: u64, ubound: u32, tries: nat) -> (usize, u64)
    recommends
        ubound >= 2,
    decreases tries,
{
    let s2 = next_seed(seed);
    let v = drawn(seed) as u32;
    let m = (v as u64) * (ubound as u64);
    let hi = (m / 0x1_0000_0000) as usize;
    let lo = m % 0x1_0000_0000;
    let zone = spec_norm(ubound) - 1;
    if lo <= zone || tries == 0 {
        (hi, s2)
    } else {
        spec_gen_index(s2, ubound, (tries - 1) as nat)
    }
}

/// The sampled index is always below the bound.
pub proof fn lemma_gen_index_below(seed: u64, ubound: u32, tries: nat)
    requires
        ubound >= 2,
    ensures
        spec_gen_index(seed, ubound, tries).0 < ubound,
    decreases tries,
{
    let v = drawn(seed) as u32;
    let m = (v as u64) * (ubound as u64);
    assert(m <= (u32::MAX as u64) * (ubound as u64)) by (nonlinear_arith)
        requires
            v <= u32::MAX,
            m == (v as u64) * (ubound as u64),
    ;
    assert(m / 0x1_0000_0000 < ubound) by (nonlinear_arith)
        requires
            m <= (u32::MAX as u64) * (ubound as u64),
            ubound >= 2,
    ;
    if !(m % 0x1_0000_0000 <= spec_norm(ubound) - 1 || tries == 0) {
        lemma_gen_index_below(next_seed(seed), ubound, (tries - 1) as nat);
    }
}

/// The permutation that one in-place shuffle performs, together with the
/// seed it leaves behind: positions `i` down to `1` each swap with a
/// uniformly drawn position at or below them.
pub open spec fn spec_shuffle_rounds(cards: Seq<Card>, seed: u64, i: nat) -> (Seq<Card>, u64)
    recommends
        i < cards.len(),
    decreases i,
{
    if i == 0 {
        (cards, seed)
    } else {
        let g = spec_gen_index(seed, (i + 1) as u32, SAMPLE_TRIES as nat);
        let j = g.0;
        let swapped = cards.update(i as int, cards[j as int]).update(j as int, cards[i as int]);
        spec_shuffle_rounds(swapped, g.1, (i - 1) as nat)
    }
}

/// The result of shuffling a whole sequence from a given seed.
pub open spec fn spec_shuffle(cards: Seq<Card>, seed: u64) -> (Seq<Card>, u64) {
    if cards.len() == 0 {
        (cards, seed)
    } else {
        spec_shuffle_rounds(cards, seed, (cards.len() - 1) as nat)
    }
}

/// Shuffling only rearranges: the multiset of cards is unchanged.
pub proof fn lemma_shuffle_rounds_multiset(cards: Seq<Card>, seed: u64, i: nat)
    requires
        i < cards.len(),
        i + 1 <= u32::MAX,
    ensures
        spec_shuffle_rounds(cards, seed, i).0.to_multiset() == cards.to_multiset(),
        spec_shuffle_rounds(cards, seed, i).0.len() == cards.len(),
    decreases i,
{
    if i != 0 {
        let g = spec_gen_index(seed, (i + 1) as u32, SAMPLE_TRIES as nat);
        let j = g.0;
        lemma_gen_index_below(seed, (i + 1) as u32, SAMPLE_TRIES as nat);
        let swapped = cards.update(i as int, cards[j as int]).update(j as int, cards[i as int]);
        assert(swapped.to_multiset() =~= cards.to_multiset());
        lemma_shuffle_rounds_multiset(swapped, g.1, (i - 1) as nat);
    }
}

/// Shuffling preserves the multiset of cards and the length.
pub proof fn lemma_shuffle_multiset(cards: Seq<Card>, seed: u64)
    requires
        cards.len() <= u32::MAX,
    ensures
        spec_shuffle(cards, seed).0.to_multiset() == cards.to_multiset(),
        spec_shuffle(cards, seed).0.len() == cards.len(),
{
    if cards.len() > 0 {
        lemma_shuffle_rounds_multiset(cards, seed, (cards.len() - 1) as nat);
    }
}

impl SRng {
    /// The current seed, for specifications.
    pub closed spec fn spec_seed(&self) -> u64 {
        self.seed
    }

    /// A fresh source from an explicit seed.
    pub fn new(seed: u64) -> (r: SRng)
        ensures
            r.spec_seed() == seed,
    {
        SRng { seed }
    }

    /// One draw cycle: yields a 64-bit value and advances the seed.
    fn next_u64(&mut self) -> (r: u64)
        ensures
            final(self).spec_seed() == next_seed(old(self).spec_seed()),
            r == drawn(old(self).spec_seed()),
    {
        let (s, v) = small_rng_pair(self.seed);
        self.seed = s;
        v
    }

    /// An unconstrained machine-word draw, as used to pick the starting
    /// player.
    pub(crate) fn gen_usize(&mut self) -> (r: usize)
        ensures
            final(self).spec_seed() == next_seed(old(self).spec_seed()),
            r == drawn(old(self).spec_seed()) as usize,
    {
        self.next_u64() as usize
    }

    /// An independent source for a child stream: the parent advances one
    /// cycle and the drawn value seeds the child, so neither stream can
    /// be derived from the other's later output.
    pub fn fork(&mut self) -> (r: SRng)
        ensures
            final(self).spec_seed() == next_seed(old(self).spec_seed()),
            r.spec_seed() == drawn(old(self).spec_seed()),
    {
        let seed = self.next_u64();
        SRng { seed }
    }

    /// A uniform index below `ubound`, by rejection sampling on the high
    /// word of a 32-bit multiply.
    fn gen_index(&mut self, ubound: u32) -> (r: usize)
        requires
            ubound >= 2,
        ensures
            ({
                let g = spec_gen_index(old(self).spec_seed(), ubound, SAMPLE_TRIES as nat);
                r == g.0 && final(self).spec_seed() == g.1
            }),
            r < ubound,
    {
        proof {
            lemma_gen_index_below(self.spec_seed(), ubound, SAMPLE_TRIES as nat);
        }
        let ghost seed0 = self.spec_seed();
        let mut norm = ubound;
        while norm < 0x8000_0000
            invariant
                1 <= norm,
                spec_norm(norm) == spec_norm(ubound),
            decreases u32::MAX - norm,
        {
            norm = norm * 2;
        }
        let zone: u32 = norm - 1;
        let mut tries: u64 = SAMPLE_TRIES;
        loop
            invariant
                spec_gen_index(seed0, ubound, SAMPLE_TRIES as nat) == spec_gen_index(
                    self.spec_seed(),
                    ubound,
                    tries as nat,
                ),
                zone == spec_norm(ubound) - 1,
                ubound >= 2,
            decreases tries,
        {
            let ghost seed_here = self.spec_seed();
            let ghost tries_here = tries as nat;
            let v = #[verifier::truncate] (self.next_u64() as u32);
            proof {
                assert((v as u64) * (ubound as u64) <= (u32::MAX as u64) * (ubound as u64)
                    && (u32::MAX as u64) * (ubound as u64) <= (u32::MAX as u64) * (
                u32::MAX as u64)) by (nonlinear_arith)
                    requires
                        v <= u32::MAX,
                        ubound <= u32::MAX,
                ;
            }
            let m = (v as u64) * (ubound as u64);
            let hi = m / 0x1_0000_0000;
            let lo = m % 0x1_0000_0000;
            proof {
                assert(hi < ubound) by (nonlinear_arith)
                    requires
                        m <= (u32::MAX as u64) * (ubound as u64),
                        m == (v as u64) * (ubound as u64),
                        v <= u32::MAX,
                        hi == m / 0x1_0000_0000,
                        ubound >= 2,
                ;
            }
            if lo <= zone as u64 || tries == 0 {
                proof {
                    assert(spec_gen_index(seed_here, ubound, tries_here) == (
                    hi as usize,
                    self.spec_seed(),
                    ));
                }
                return hi as usize;
            }
            proof {
                assert(spec_gen_index(seed_here, ubound, tries_here) == spec_gen_index(
                    self.spec_seed(),
                    ubound,
                    (tries_here - 1) as nat,
                ));
            }
            tries = tries - 1;
        }
    }

    /// An unbiased in-place permutation of the cards, fully determined
    /// by the current seed.
    pub fn shuffle(&mut self, cards: &mut Vec<Card>)
        requires
            old(cards).len() <= u32::MAX as usize,
        ensures
            ({
                let s = spec_shuffle(old(cards)@, old(self).spec_seed());
                final(cards)@ == s.0 && final(self).spec_seed() == s.1
            }),
            final(cards)@.to_multiset() == old(cards)@.to_multiset(),
            final(cards)@.len() == old(cards)@.len(),
    {
        proof {
            lemma_shuffle_multiset(cards@, self.spec_seed());
        }
        let ghost c0 = cards@;
        let ghost s0 = self.spec_seed();
        let n = cards.len();
        if n == 0 {
            return ;
        }
        let mut i = n - 1;
        while i >= 1
            invariant
                i < n,
                n == cards.len(),
                cards.len() <= u32::MAX as usize,
                spec_shuffle(c0, s0) == spec_shuffle_rounds(cards@, self.spec_seed(), i as nat),
            decreases i,
        {
            let j = self.gen_index((i + 1) as u32);
            let a = cards[i];
            let b = cards[j];
            cards.set(i, b);
            cards.set(j, a);
            i = i - 1;
        }
    }
}

} // verus!
