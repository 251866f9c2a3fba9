//! The source of randomness behind the generators.
//!
//! A [`RandomSource`] owns a `rand` generator and keeps, as ghost state, the
//! list of draws made through it. What a draw returns is up to the generator;
//! the contracts here only bound it and record it.

use rand::distributions::{Distribution, Uniform, WeightedError, WeightedIndex};
use rand::rngs::StdRng;
use rand::Rng;
use vstd::prelude::*;

verus! {

/// `rand::rngs::StdRng`, carried as it is.
#[verifier::external_type_specification]
#[verifier::external_body]
pub struct ExStdRng(StdRng);

/// `rand::distributions::WeightedError`, carried as it is.
#[verifier::external_type_specification]
#[verifier::external_body]
pub struct ExWeightedError(WeightedError);

/// A choice among indices in proportion to a list of weights.
///
/// Holds `rand::distributions::WeightedIndex<i32>`, whose contents Verus does
/// not see; [`weights_of`] names the weights it was made from.
#[verifier::external_body]
pub struct WeightedChoice {
    inner: WeightedIndex<i32>,
}

/// The weights that a [`WeightedChoice`] was made from, in order.
pub uninterp spec fn weights_of(choice: WeightedChoice) -> Seq<i32>;

/// The sum of the positive weights.
pub open spec fn weight_mass(weights: Seq<i32>) -> int
    decreases weights.len(),
{
    if weights.len() == 0 {
        0
    } else if weights.last() > 0 {
        weight_mass(weights.drop_last()) + weights.last()
    } else {
        weight_mass(weights.drop_last())
    }
}

/// Whether a list of weights describes a distribution: it is not empty, no
/// weight is negative and some weight is positive.
pub open spec fn usable_weights(weights: Seq<i32>) -> bool {
    &&& weights.len() > 0
    &&& forall|i: int| 0 <= i < weights.len() ==> weights[i] >= 0
    &&& weight_mass(weights) > 0
}

impl WeightedChoice {
    /// Calls `WeightedIndex::new` on the weights.
    ///
    /// Trusted: `new` walks the weights once, adding them up, and fails when
    /// there is none, when it meets a negative one, or when the total is zero;
    /// otherwise it keeps the running totals, from which the weights can be
    /// read back. The sum is made in `i32`, so it must fit.
    #[verifier::external_body]
    pub(crate) fn new(weights: &Vec<i32>) -> (made: Result<WeightedChoice, WeightedError>)
        requires
            weight_mass(weights@) <= i32::MAX,
        ensures
            made is Ok <==> usable_weights(weights@),
            made is Ok ==> weights_of(made->Ok_0) == weights@,
    {
        match WeightedIndex::new(weights) {
            Ok(inner) => Ok(WeightedChoice { inner }),
            Err(error) => Err(error),
        }
    }
}

/// Calls `Distribution::sample` on a `WeightedIndex<i32>`.
///
/// Trusted: the index returned is that of one of the weights, and never of a
/// weight of zero, whatever the generator yields.
#[verifier::external_body]
fn sample_weighted(choice: &WeightedChoice, rng: &mut StdRng) -> (index: usize)
    ensures
        index < weights_of(*choice).len(),
        weights_of(*choice)[index as int] > 0,
{
    choice.inner.sample(rng)
}

/// Makes a `Uniform<usize>` over `low..high` with `Uniform::from` and calls
/// `Distribution::sample` on it once.
///
/// Trusted: the value lies in the half-open range. `Uniform::from` panics on
/// an empty range.
#[verifier::external_body]
fn sample_uniform(rng: &mut StdRng, low: usize, high: usize) -> (value: usize)
    requires
        low < high,
    ensures
        low <= value < high,
{
    Uniform::from(low..high).sample(rng)
}

/// Calls `Rng::gen_range` with `low..high`.
///
/// Trusted: the value lies in the half-open range. `gen_range` panics on an
/// empty range.
#[verifier::external_body]
fn sample_range(rng: &mut StdRng, low: usize, high: usize) -> (value: usize)
    requires
        low < high,
    ensures
        low <= value < high,
{
    rng.gen_range(low..high)
}

/// One value drawn from a [`RandomSource`], with what was asked for.
pub enum Draw {
    /// An index drawn in proportion to `weights`.
    Weighted { weights: Seq<i32>, index: int },
    /// A value drawn uniformly from `low..high`.
    Uniform { low: int, high: int, value: int },
}

impl Draw {
    /// The value that the source gave.
    pub open spec fn answer(self) -> int {
        match self {
            Draw::Weighted { index, .. } => index,
            Draw::Uniform { value, .. } => value,
        }
    }

    /// Whether the answer is one that the request allows.
    pub open spec fn in_bounds(self) -> bool {
        match self {
            Draw::Weighted { weights, index } => 0 <= index < weights.len() && weights[index] > 0,
            Draw::Uniform { low, high, value } => low <= value < high,
        }
    }
}

/// A random generator together with the record of what was drawn from it.
pub struct RandomSource {
    rng: StdRng,
    drawn: Ghost<Seq<Draw>>,
}

impl RandomSource {
    /// Every draw made through this source so far, oldest first.
    pub closed spec fn draws(&self) -> Seq<Draw> {
        self.drawn@
    }

    /// The draws made since the source was in the state `before`.
    pub open spec fn draws_since(&self, before: &RandomSource) -> Seq<Draw> {
        self.draws().skip(before.draws().len() as int)
    }

    /// Whether this source is `before` after some further draws.
    pub open spec fn continues(&self, before: &RandomSource) -> bool {
        before.draws().is_prefix_of(self.draws())
    }

    /// Wraps a generator; nothing has been drawn through the new source.
    pub fn new(rng: StdRng) -> (source: RandomSource)
        ensures
            source.draws() == Seq::<Draw>::empty(),
    {
        RandomSource { rng, drawn: Ghost(Seq::empty()) }
    }

    /// Draws an index in proportion to the weights of `choice`.
    pub(crate) fn weighted_index(&mut self, choice: &WeightedChoice) -> (index: usize)
        ensures
            index < weights_of(*choice).len(),
            weights_of(*choice)[index as int] > 0,
            final(self).draws() == old(self).draws().push(
                Draw::Weighted { weights: weights_of(*choice), index: index as int },
            ),
    {
        let index = sample_weighted(choice, &mut self.rng);
        proof {
            self.drawn@ = self.drawn@.push(
                Draw::Weighted { weights: weights_of(*choice), index: index as int },
            );
        }
        index
    }

    /// Draws a value uniformly from `low..high`, through a distribution made
    /// for that range.
    pub(crate) fn uniform(&mut self, low: usize, high: usize) -> (value: usize)
        requires
            low < high,
        ensures
            low <= value < high,
            final(self).draws() == old(self).draws().push(
                Draw::Uniform { low: low as int, high: high as int, value: value as int },
            ),
    {
        let value = sample_uniform(&mut self.rng, low, high);
        proof {
            self.drawn@ = self.drawn@.push(
                Draw::Uniform { low: low as int, high: high as int, value: value as int },
            );
        }
        value
    }

    /// Draws a single value uniformly from `low..high`.
    pub(crate) fn gen_range(&mut self, low: usize, high: usize) -> (value: usize)
        requires
            low < high,
        ensures
            low <= value < high,
            final(self).draws() == old(self).draws().push(
                Draw::Uniform { low: low as int, high: high as int, value: value as int },
            ),
    {
        let value = sample_range(&mut self.rng, low, high);
        proof {
            self.drawn@ = self.drawn@.push(
                Draw::Uniform { low: low as int, high: high as int, value: value as int },
            );
        }
        value
    }
}

} // verus!
