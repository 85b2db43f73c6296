//! The deterministic sequence generator and the line draws: a ChaCha12
//! generator seeded from the 32-byte seed yields weighted coin flips, three
//! flips make a line, six lines make a hexagram.

use vstd::prelude::*;
use rand::Rng;
use rand::SeedableRng;
use crate::date::Date;
use crate::line::{Line, coin_of, line_of_sum, joined_glyphs};
use crate::seed::{derive_seed, seed_of};

verus! {

/// rand_chacha's ChaCha12 generator, declared so that a value of it can be
/// held in a field; Verus sees nothing inside it.
#[verifier::external_type_specification]
#[verifier::external_body]
pub struct ExChaCha12Rng(rand_chacha::ChaCha12Rng);

/// The outcome of the `idx`-th weighted flip (`rand::Rng::gen_ratio(1, 2)`)
/// drawn from a ChaCha12 generator seeded with `seed`: the generator is
/// deterministic, so the outcome is a function of the seed and of how many
/// flips were drawn before, in every process and on every machine.
pub uninterp spec fn coin_flip(seed: Seq<u8>, idx: nat) -> bool;

/// The value of the `idx`-th coin drawn from a generator seeded with `seed`.
pub open spec fn coin_value(seed: Seq<u8>, idx: nat) -> u8 {
    coin_of(coin_flip(seed, idx))
}

/// The line built from the three coins at `base`, `base + 1`, `base + 2`.
pub open spec fn line_from(seed: Seq<u8>, base: nat) -> Line {
    line_of_sum(
        coin_value(seed, base) + coin_value(seed, base + 1) + coin_value(seed, base + 2),
    )
}

/// The six lines a freshly seeded generator yields, oldest first.
pub open spec fn fresh_hexagram(seed: Seq<u8>) -> Seq<Line> {
    Seq::new(6, |i: int| line_from(seed, (3 * i) as nat))
}

/// Relies on rand::SeedableRng::from_seed for rand_chacha::ChaCha12Rng:
/// construction is deterministic in the 32-byte seed alone.
#[verifier::external_body]
fn chacha_from_seed(seed: &[u8; 32]) -> rand_chacha::ChaCha12Rng {
    rand_chacha::ChaCha12Rng::from_seed(*seed)
}

/// The generator with the ghost history of its construction: the seed it was
/// built from and the number of flips drawn so far.
///
/// Representation invariant, kept by this module (the `rng` field is private,
/// so every value comes from `Thrower::new`): `rng` is a ChaCha12 generator
/// built from `seed` and advanced by exactly `drawn` flips. The contract of
/// `flip` below is a statement about such values.
pub struct Thrower {
    rng: rand_chacha::ChaCha12Rng,
    seed: Ghost<Seq<u8>>,
    drawn: Ghost<nat>,
}

impl Thrower {
    /// The seed this generator was built from.
    pub closed spec fn seed_view(self) -> Seq<u8> {
        self.seed@
    }

    /// How many flips have been drawn so far.
    pub closed spec fn drawn_count(self) -> nat {
        self.drawn@
    }

    /// Relies on rand::Rng::gen_ratio(1, 2) on rand_chacha::ChaCha12Rng: one
    /// weighted flip with equal odds, consuming generator state irreversibly;
    /// the outcome is deterministic in the seed and the flips drawn before.
    #[verifier::external_body]
    fn flip(&mut self) -> (r: bool)
        ensures
            r == coin_flip(old(self).seed_view(), old(self).drawn_count()),
            final(self).seed_view() == old(self).seed_view(),
            final(self).drawn_count() == old(self).drawn_count() + 1,
    {
        self.rng.gen_ratio(1, 2)
    }

    /// A fresh generator for one result: seeded from (prompt, date), nothing
    /// drawn yet.
    pub fn new(prompt: &Vec<u8>, asof: &Date) -> (t: Thrower)
        requires
            asof.valid(),
        ensures
            t.seed_view() == seed_of(prompt@, *asof),
            t.drawn_count() == 0,
    {
        let s = derive_seed(prompt, asof);
        let rng = chacha_from_seed(&s);
        Thrower { rng, seed: Ghost(s@), drawn: Ghost(0) }
    }

    /// One weighted coin: 2 (tails) or 3 (heads), each with probability one
    /// half; consumes one flip of generator state.
    pub fn coin(&mut self) -> (r: u8)
        ensures
            r == coin_value(old(self).seed_view(), old(self).drawn_count()),
            final(self).seed_view() == old(self).seed_view(),
            final(self).drawn_count() == old(self).drawn_count() + 1,
    {
        if self.flip() {
            2
        } else {
            3
        }
    }

    /// One line: three coins summed (the sum lies in {6, 7, 8, 9} by
    /// construction) and mapped through the fixed table.
    pub fn throw(&mut self) -> (r: Line)
        ensures
            r == line_from(old(self).seed_view(), old(self).drawn_count()),
            final(self).seed_view() == old(self).seed_view(),
            final(self).drawn_count() == old(self).drawn_count() + 3,
    {
        let a = self.coin();
        let b = self.coin();
        let c = self.coin();
        let sum = a + b + c;
        if sum == 6 {
            Line::ChangingYin
        } else if sum == 7 {
            Line::StaticYang
        } else if sum == 8 {
            Line::StaticYin
        } else {
            // A sum outside {6, 7, 8, 9} is impossible: each coin is 2 or 3.
            assert(sum == 9);
            Line::ChangingYang
        }
    }

    /// One full result: six lines drawn in order from this generator, the
    /// first drawn at position 0. On a fresh generator the result is exactly
    /// `fresh_hexagram` of its seed.
    pub fn hexagram(&mut self) -> (r: [Line; 6])
        ensures
            final(self).seed_view() == old(self).seed_view(),
            final(self).drawn_count() == old(self).drawn_count() + 18,
            forall|i: int|
                0 <= i < 6 ==> r@[i] == line_from(
                    old(self).seed_view(),
                    (old(self).drawn_count() + 3 * i) as nat,
                ),
            old(self).drawn_count() == 0 ==> r@ == fresh_hexagram(old(self).seed_view()),
    {
        let l0 = self.throw();
        let l1 = self.throw();
        let l2 = self.throw();
        let l3 = self.throw();
        let l4 = self.throw();
        let l5 = self.throw();
        let r = [l0, l1, l2, l3, l4, l5];
        proof {
            assert(r@ =~= seq![l0, l1, l2, l3, l4, l5]);
            if old(self).drawn_count() == 0 {
                assert(r@ =~= fresh_hexagram(old(self).seed_view()));
            }
        }
        r
    }
}

/// The whole core as one function: derive the seed, seed a fresh generator,
/// draw six lines, and encode them as the canonical newline-joined text.
pub fn throw_text(prompt: &Vec<u8>, asof: &Date) -> (r: String)
    requires
        asof.valid(),
    ensures
        r@ == joined_glyphs(fresh_hexagram(seed_of(prompt@, *asof))),
{
    let mut t = Thrower::new(prompt, asof);
    let h = t.hexagram();
    crate::line::format_hexagram(h)
}

/// Law: the run is deterministic — two hexagrams drawn from fresh generators
/// with the same seed are the same six lines and encode to the same text.
pub proof fn lemma_determinism(seed: Seq<u8>, a: Seq<Line>, b: Seq<Line>)
    requires
        a == fresh_hexagram(seed),
        b == fresh_hexagram(seed),
    ensures
        a == b,
        joined_glyphs(a) == joined_glyphs(b),
{
}

/// Law: every line drawn from a generator has a code in {6, 7, 8, 9}, and
/// that code is exactly the sum of its three coins.
pub proof fn lemma_line_code_range(seed: Seq<u8>, base: nat)
    ensures
        line_from(seed, base).code_spec() == coin_value(seed, base) + coin_value(seed, base + 1)
            + coin_value(seed, base + 2),
        6 <= line_from(seed, base).code_spec() <= 9,
{
}

} // verus!
