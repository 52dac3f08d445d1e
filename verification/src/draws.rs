//! Values drawn from random generators, each kept together with where it came
//! from: the seed of the generator that gave a filler text, and the state of
//! the generator and the range of a uniform draw.
//!
//! The fields are private to this module, so a value of these types can only
//! come from the draws made here.
use vstd::prelude::*;
use rand::rngs::StdRng;
use crate::prompt::{lorem_after, lorem_sentence, MAX_SENTENCE_CHARS};
use crate::synthetic::{seeded_rng, uniform_inclusive};

verus! {

/// The text that a run of sentences gives: each sentence followed by a space.
pub open spec fn sentence_text(sentences: Seq<Seq<char>>) -> Seq<char>
    decreases sentences.len(),
{
    if sentences.len() == 0 {
        Seq::empty()
    } else {
        sentence_text(sentences.drop_last()) + sentences.last() + seq![' ']
    }
}

/// A generator seeded from a seed, with the sentences drawn from it so far.
pub struct SeededRng {
    rng: StdRng,
    seed: Ghost<u64>,
    sentences: Ghost<Seq<Seq<char>>>,
}

impl SeededRng {
    /// The seed that the generator was made from.
    pub closed spec fn seed(&self) -> u64 {
        self.seed@
    }

    /// The sentences drawn from the generator, in order.
    pub closed spec fn sentences(&self) -> Seq<Seq<char>> {
        self.sentences@
    }

    /// A generator seeded with `seed`, from which nothing is drawn yet.
    pub fn new(seed: u64) -> (r: Self)
        ensures
            r.seed() == seed,
            r.sentences() == Seq::<Seq<char>>::empty(),
    {
        SeededRng { rng: seeded_rng(seed), seed: Ghost(seed), sentences: Ghost(Seq::empty()) }
    }

    /// Draws the next lorem-ipsum sentence.
    pub fn sentence(&mut self) -> (r: String)
        ensures
            final(self).seed() == old(self).seed(),
            final(self).sentences() == old(self).sentences().push(r@),
            lorem_after(r@, 0),
            1 <= r@.len() <= MAX_SENTENCE_CHARS,
    {
        let s = lorem_sentence(&mut self.rng);
        self.sentences = Ghost(self.sentences@.push(s@));
        s
    }
}

/// Filler text: the start of the sentences that a seeded generator gave,
/// each followed by a space.
pub struct SeededFiller {
    text: String,
    seed: Ghost<u64>,
    sentences: Ghost<Seq<Seq<char>>>,
}

impl SeededFiller {
    /// The seed of the generator that the text was drawn from.
    pub closed spec fn seed(&self) -> u64 {
        self.seed@
    }

    /// The sentences that the generator gave.
    pub closed spec fn sentences(&self) -> Seq<Seq<char>> {
        self.sentences@
    }

    /// The characters of the filler.
    pub closed spec fn chars(&self) -> Seq<char> {
        self.text@
    }

    /// Takes `text`, the start of what `rng` gave, as filler.
    pub fn drawn(rng: SeededRng, text: String) -> (r: Self)
        requires
            text@.len() <= sentence_text(rng.sentences()).len(),
            text@ == sentence_text(rng.sentences()).take(text@.len() as int),
        ensures
            r.seed() == rng.seed(),
            r.sentences() == rng.sentences(),
            r.chars() == text@,
            r.chars() == sentence_text(r.sentences()).take(r.chars().len() as int),
    {
        SeededFiller { text, seed: rng.seed, sentences: rng.sentences }
    }

    /// The filler text.
    pub fn as_str(&self) -> (r: &str)
        ensures
            r@ == self.chars(),
    {
        self.text.as_str()
    }

    /// The filler text, taken out.
    pub fn into_text(self) -> (r: String)
        ensures
            r@ == self.chars(),
    {
        self.text
    }
}

/// A value drawn uniformly from `low..=high` by a generator, with the state
/// the generator was in before the draw.
pub struct UniformDraw {
    value: usize,
    low: Ghost<usize>,
    high: Ghost<usize>,
    source: Ghost<StdRng>,
}

impl UniformDraw {
    /// The value drawn.
    pub closed spec fn value(&self) -> usize {
        self.value
    }

    /// The lower end of the range drawn from.
    pub closed spec fn low(&self) -> usize {
        self.low@
    }

    /// The upper end of the range drawn from.
    pub closed spec fn high(&self) -> usize {
        self.high@
    }

    /// The generator's state before the draw.
    pub closed spec fn source(&self) -> StdRng {
        self.source@
    }

    /// Draws a value uniformly from `low..=high` with `rng`.
    pub fn take(rng: &mut StdRng, low: usize, high: usize) -> (r: Self)
        requires
            low <= high,
        ensures
            r.source() == *old(rng),
            r.low() == low,
            r.high() == high,
            low <= r.value() <= high,
    {
        let ghost before = *rng;
        let value = uniform_inclusive(rng, low, high);
        UniformDraw { value, low: Ghost(low), high: Ghost(high), source: Ghost(before) }
    }

    /// The value drawn.
    pub fn get(&self) -> (r: usize)
        ensures
            r == self.value(),
    {
        self.value
    }
}

} // verus!
