use vstd::prelude::*;
use rand::distributions::{Distribution, WeightedIndex};
use rand::seq::{IteratorRandom, SliceRandom};
use rand::Rng;
use rand::rngs::StdRng;

verus! {

/// The seedable generator that every random draw of the game goes through.
#[verifier::external_type_specification]
#[verifier::external_body]
pub struct ExStdRng(StdRng);

/// The sum of a sequence of weights.
pub open spec fn weight_sum(w: Seq<u32>) -> int
    decreases w.len(),
{
    if w.len() == 0 {
        0
    } else {
        weight_sum(w.drop_last()) + w.last()
    }
}

/// Relies on `WeightedIndex::new` and its `Distribution::sample`: for
/// non-negative weights whose total is positive and fits the weight type,
/// construction succeeds, and sampling returns the first index whose
/// cumulative weight exceeds a uniform draw below the total, which is always
/// an in-range index of positive weight.
#[verifier::external_body]
pub(crate) fn sample_weighted_index(rng: &mut StdRng, weights: &Vec<u32>) -> (r: usize)
    requires
        weight_sum(weights@) > 0,
        weight_sum(weights@) <= u32::MAX,
    ensures
        r < weights@.len(),
        weights@[r as int] > 0,
{
    WeightedIndex::new(weights.iter()).expect("weights are valid").sample(rng)
}

/// Relies on `IteratorRandom::choose_multiple`: it keeps a reservoir of at
/// most `amount` items, each taken from a distinct position of the input, and
/// returns `amount` items, or all of them when there are fewer.
#[verifier::external_body]
pub(crate) fn choose_multiple_of<T>(rng: &mut StdRng, items: Vec<T>, amount: usize) -> (r: Vec<T>)
    ensures
        r@.len() == if amount <= items@.len() { amount as int } else { items@.len() as int },
        forall|i: int| 0 <= i < r@.len() ==> items@.contains(#[trigger] r@[i]),
        items@.no_duplicates() ==> r@.no_duplicates(),
{
    items.into_iter().choose_multiple(rng, amount)
}

/// Relies on `SliceRandom::choose`: `None` for an empty slice, else one of
/// its elements.
#[verifier::external_body]
pub(crate) fn choose_one_of<T: Copy>(rng: &mut StdRng, items: &Vec<T>) -> (r: Option<T>)
    ensures
        r is None <==> items@.len() == 0,
        r matches Some(x) ==> items@.contains(x),
{
    items.as_slice().choose(rng).copied()
}

/// Relies on `Rng::gen_range` over an inclusive range, which panics only on
/// an empty range.
#[verifier::external_body]
pub(crate) fn gen_range_inclusive(rng: &mut StdRng, lo: i64, hi: i64) -> (r: i64)
    requires
        lo <= hi,
    ensures
        lo <= r <= hi,
{
    rng.gen_range(lo..=hi)
}

} // verus!
