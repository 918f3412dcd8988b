//! Random draws: the only place where chance enters the library.

use rand::Rng;
use rand_distr::Distribution;
use vstd::prelude::*;

use crate::error::ConfigError;

verus! {

/// A table for drawing positions by weight: a
/// `rand_distr::WeightedAliasIndex` over `u32` weights, held as it is and never
/// looked into.
#[verifier::external_body]
#[derive(Debug)]
pub struct AliasTable {
    inner: rand_distr::WeightedAliasIndex<u32>,
}

/// The weights that a sampling table was built from, in their order.
pub uninterp spec fn alias_weights(table: AliasTable) -> Seq<u32>;

/// The largest weight that a sampling table of `count` weights takes.
pub open spec fn weight_limit(count: nat) -> int {
    u32::MAX as int / count as int
}

/// What is wrong with a list of weights, if anything: the faults are looked
/// for in the order of the variants of [`ConfigError`].
pub open spec fn weights_fault(weights: Seq<u32>) -> Option<ConfigError> {
    if weights.len() == 0 {
        Some(ConfigError::NoItem)
    } else if weights.len() > u32::MAX {
        Some(ConfigError::TooMany)
    } else if exists|i: int|
        0 <= i < weights.len() && #[trigger] weights[i] > weight_limit(weights.len()) {
        Some(ConfigError::InvalidWeight)
    } else if forall|i: int| 0 <= i < weights.len() ==> #[trigger] weights[i] == 0 {
        Some(ConfigError::AllWeightsZero)
    } else {
        None
    }
}

/// `rand_distr::WeightedAliasIndex::new` on `u32` weights. It refuses an empty
/// list, one longer than `u32::MAX`, a weight above `u32::MAX` divided by the
/// number of weights, and weights that are all zero, in this order; otherwise
/// it builds a table that remembers the weights.
#[verifier::external_body]
pub(crate) fn alias_new(weights: Vec<u32>) -> (r: Result<AliasTable, ConfigError>)
    ensures
        match r {
            Ok(table) => weights_fault(weights@) is None && alias_weights(table) == weights@,
            Err(fault) => weights_fault(weights@) == Some(fault),
        },
{
    match rand_distr::WeightedAliasIndex::new(weights) {
        Ok(inner) => Ok(AliasTable { inner }),
        Err(rand_distr::WeightedError::NoItem) => Err(ConfigError::NoItem),
        Err(rand_distr::WeightedError::InvalidWeight) => Err(ConfigError::InvalidWeight),
        Err(rand_distr::WeightedError::AllWeightsZero) => Err(ConfigError::AllWeightsZero),
        Err(rand_distr::WeightedError::TooMany) => Err(ConfigError::TooMany),
    }
}

/// `rand_distr::WeightedAliasIndex::sample` with the generator of
/// `rand::thread_rng`: the position of one of the weights, drawn with a chance
/// proportional to the weight, so never the position of a zero weight.
#[verifier::external_body]
pub(crate) fn alias_sample(table: &AliasTable) -> (index: usize)
    ensures
        index < alias_weights(*table).len(),
        alias_weights(*table)[index as int] > 0,
{
    table.inner.sample(&mut rand::thread_rng())
}

/// `rand::Rng::gen_range` over `0..bound` with the generator of
/// `rand::thread_rng`: some number below `bound`. An empty range would make
/// it panic, so `bound` is not zero.
#[verifier::external_body]
pub(crate) fn draw_below(bound: usize) -> (index: usize)
    requires
        bound > 0,
    ensures
        index < bound,
{
    rand::thread_rng().gen_range(0..bound)
}

} // verus!
