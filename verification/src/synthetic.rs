//! The distribution of synthetic prompt lengths: token counts drawn within
//! hard bounds, uniformly or around an average.
use vstd::prelude::*;
use rand::rngs::StdRng;
use crate::draws::UniformDraw;

verus! {

#[verifier::external_type_specification]
#[verifier::external_body]
pub struct ExStdRng(StdRng);

/// A generator seeded with `rand::SeedableRng::seed_from_u64`. The generator
/// is opaque here; nothing is stated of it.
#[verifier::external_body]
pub(crate) fn seeded_rng(seed: u64) -> (r: StdRng) {
    <StdRng as rand::SeedableRng>::seed_from_u64(seed)
}

/// A value drawn uniformly from `low..=high` with `rand::Rng::gen_range`,
/// which panics on an empty range. Stated: the value lies in the range; which
/// value it is depends on the generator's state.
#[verifier::external_body]
pub(crate) fn uniform_inclusive(rng: &mut StdRng, low: usize, high: usize) -> (r: usize)
    requires
        low <= high,
    ensures
        low <= r <= high,
{
    rand::Rng::gen_range(rng, low..=high)
}

/// `a - b`, or 0 when `b > a`.
pub open spec fn saturating_sub(a: int, b: int) -> int {
    if a >= b {
        a - b
    } else {
        0
    }
}

/// The lower bound that a distribution gets when none is given.
pub open spec fn implied_min(average: usize, stdev: Option<usize>) -> int {
    match stdev {
        Some(s) => saturating_sub(average as int, 5 * s),
        None => average as int,
    }
}

/// The upper bound that a distribution gets when none is given.
pub open spec fn implied_max(average: usize, stdev: Option<usize>) -> int {
    match stdev {
        Some(s) => average + 5 * s,
        None => average as int,
    }
}

/// `raw` moved into `[min, max]`.
pub open spec fn clamp(raw: int, min: int, max: int) -> int {
    if raw < min {
        min
    } else if raw > max {
        max
    } else {
        raw
    }
}

/// A sample `r` that took `before` to `after` is the value of a uniform draw
/// over `before`'s bounds, made from `before`'s generator state, and that draw
/// is kept as the last one.
pub open spec fn drew_uniformly(before: TokenDistribution, after: TokenDistribution, r: TokenDraw) -> bool {
    &&& after.last_draw matches Some(d)
    &&& d.source() == before.rng
    &&& d.low() == before.min
    &&& d.high() == before.max
    &&& d.low() <= d.value() <= d.high()
    &&& r == TokenDraw::Tokens(d.value())
}

/// What one draw from a token distribution yields.
#[derive(Clone, Copy, Debug, PartialEq, Eq, Structural)]
pub enum TokenDraw {
    /// The token count is decided.
    Tokens(usize),
    /// A Gaussian sample with this mean and standard deviation, rounded to the
    /// nearest integer, decides the count after `settle_gaussian`.
    Gaussian { mean: usize, stdev: usize },
}

/// Samples token counts from a Gaussian distribution with hard min/max bounds.
pub struct TokenDistribution {
    pub average: usize,
    pub stdev: Option<usize>,
    pub min: usize,
    pub max: usize,
    pub rng: StdRng,
    /// The last uniform draw that a sample was taken from, if any.
    pub last_draw: Option<UniformDraw>,
}

impl TokenDistribution {
    /// Create a new token distribution.
    ///
    /// `min` defaults to `max(0, average - 5 * stdev)` and `max` to
    /// `average + 5 * stdev`; without a standard deviation both default to
    /// `average`. `seed` seeds the random generator.
    pub fn new(
        average: usize,
        stdev: Option<usize>,
        min: Option<usize>,
        max: Option<usize>,
        seed: u64,
    ) -> (r: Self)
        requires
            min is None && stdev is Some ==> 5 * stdev->0 <= usize::MAX,
            max is None && stdev is Some ==> average + 5 * stdev->0 <= usize::MAX,
        ensures
            r.average == average,
            r.stdev == stdev,
            r.min == match min {
                Some(m) => m as int,
                None => implied_min(average, stdev),
            },
            r.max == match max {
                Some(m) => m as int,
                None => implied_max(average, stdev),
            },
            r.last_draw is None,
    {
        let calc_min = match min {
            Some(m) => m,
            None => match stdev {
                Some(s) => average.saturating_sub(5 * s),
                None => average,
            },
        };
        let calc_max = match max {
            Some(m) => m,
            None => match stdev {
                Some(s) => average + 5 * s,
                None => average,
            },
        };
        TokenDistribution { average, stdev, min: calc_min, max: calc_max, rng: seeded_rng(seed), last_draw: None }
    }

    /// Sample a token count. Equal bounds give the bound; without a standard
    /// deviation the count is uniform over the bounds; a zero deviation gives
    /// the average held to the bounds (the average itself when the bounds are
    /// inverted, since no count meets them); otherwise a Gaussian sample is called
    /// for. Only the uniform draw uses the generator.
    pub fn sample(&mut self) -> (r: TokenDraw)
        requires
            old(self).min != old(self).max && old(self).stdev is None ==> old(self).min
                <= old(self).max,
        ensures
            final(self).average == old(self).average,
            final(self).stdev == old(self).stdev,
            final(self).min == old(self).min,
            final(self).max == old(self).max,
            old(self).min == old(self).max ==> r == TokenDraw::Tokens(old(self).min),
            old(self).min != old(self).max && old(self).stdev is None ==> (r matches TokenDraw::Tokens(
                n,
            ) && old(self).min <= n <= old(self).max),
            old(self).min < old(self).max && old(self).stdev == Some(0usize) ==> r
                == TokenDraw::Tokens(
                clamp(old(self).average as int, old(self).min as int, old(self).max as int) as usize,
            ),
            old(self).min > old(self).max && old(self).stdev == Some(0usize) ==> r
                == TokenDraw::Tokens(old(self).average),
            old(self).min <= old(self).max ==> (r matches TokenDraw::Tokens(n) ==> old(self).min <= n
                <= old(self).max),
            !(old(self).min != old(self).max && old(self).stdev is None) ==> final(self).rng == old(
                self,
            ).rng,
            old(self).min != old(self).max && old(self).stdev is Some && old(self).stdev->0 > 0
                ==> r == (TokenDraw::Gaussian { mean: old(self).average, stdev: old(self).stdev->0 }),
            old(self).min != old(self).max && old(self).stdev is None ==> drew_uniformly(
                *old(self),
                *final(self),
                r,
            ),
            !(old(self).min != old(self).max && old(self).stdev is None) ==> final(self).last_draw
                == old(self).last_draw,
    {
        if self.min == self.max {
            return TokenDraw::Tokens(self.min);
        }
        match self.stdev {
            None => {
                let draw = UniformDraw::take(&mut self.rng, self.min, self.max);
                let value = draw.get();
                self.last_draw = Some(draw);
                TokenDraw::Tokens(value)
            },
            Some(0) => TokenDraw::Tokens(
                if self.min > self.max {
                    self.average
                } else if self.average < self.min {
                    self.min
                } else if self.average > self.max {
                    self.max
                } else {
                    self.average
                },
            ),
            Some(s) => TokenDraw::Gaussian { mean: self.average, stdev: s },
        }
    }

    /// The token count for a rounded Gaussian sample: the sample clamped to
    /// the bounds (`usize::clamp` panics when `min > max`).
    pub fn settle_gaussian(&self, raw: usize) -> (r: usize)
        requires
            self.min <= self.max,
        ensures
            r == clamp(raw as int, self.min as int, self.max as int),
            self.min <= r <= self.max,
    {
        if raw < self.min {
            self.min
        } else if raw > self.max {
            self.max
        } else {
            raw
        }
    }
}


/// A distribution without a spread (no standard deviation, or a zero one)
/// and without bounds has both bounds at the average, so every draw yields
/// the average.
pub proof fn unspread_distribution_is_constant(average: usize, stdev: Option<usize>)
    requires
        stdev is None || stdev == Some(0usize),
    ensures
        implied_min(average, stdev) == average,
        implied_max(average, stdev) == average,
{
}

/// The bounds that a distribution gets by default enclose its average, so
/// that a distribution made without bounds never has `min > max`.
pub proof fn implied_bounds_enclose_average(average: usize, stdev: Option<usize>)
    ensures
        implied_min(average, stdev) <= average <= implied_max(average, stdev),
{
}

/// Without a standard deviation, and with bounds that differ, a sample is
/// exactly the value that the generator gave for a uniform draw over
/// `min..=max` from the state it was in before the sample (not some other
/// value within the bounds), and that value lies within the bounds.
pub proof fn uniform_sample_is_generator_value(
    before: TokenDistribution,
    after: TokenDistribution,
    r: TokenDraw,
)
    requires
        before.stdev is None,
        before.min != before.max,
        drew_uniformly(before, after, r),
    ensures
        after.last_draw is Some,
        after.last_draw->0.source() == before.rng,
        after.last_draw->0.low() == before.min,
        after.last_draw->0.high() == before.max,
        r == TokenDraw::Tokens(after.last_draw->0.value()),
        before.min <= after.last_draw->0.value() <= before.max,
{
}

} // verus!
