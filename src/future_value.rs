//! Compounding a present value forward under a sequence of period rates.

use vstd::prelude::*;
use vstd::seq_lib::{commutative_foldl, lemma_fold_left_permutation};

verus! {

/// `trail` records compounding `present_value` under `rates` with `grow`:
/// it starts at the present value, and each next entry is what `grow`
/// returned for the entry before it and the period's rate.
pub open spec fn compounding<T, F: Fn(T, T) -> T>(
    grow: F,
    present_value: T,
    rates: Seq<T>,
    trail: Seq<T>,
) -> bool {
    &&& trail.len() == rates.len() + 1
    &&& trail[0] == present_value
    &&& forall|i: int|
        0 <= i < rates.len() ==> #[trigger] grow.ensures((trail[i], rates[i]), trail[i + 1])
}

/// Converts a present value and expected rates, one per period and in
/// order, into a future value.
///
/// `grow` carries a value over one period at a rate (for a floating-point
/// type, `value * (1 + rate)`). The result is the last entry of a trail of
/// such steps from the present value; with no rates it is the present value
/// itself.
pub fn from_pv_and_expected_rates<T: Copy, F: Fn(T, T) -> T>(
    present_value: &T,
    expected_rates: &[T],
    grow: F,
) -> (r: T)
    requires
        forall|value: T, rate: T| grow.requires((value, rate)),
    ensures
        exists|trail: Seq<T>|
            compounding(grow, *present_value, expected_rates@, trail) && trail.last() == r,
        expected_rates@.len() == 0 ==> r == *present_value,
{
    let mut value: T = *present_value;
    let ghost mut trail: Seq<T> = seq![value];
    let mut i: usize = 0;
    while i < expected_rates.len()
        invariant
            i <= expected_rates@.len(),
            forall|value: T, rate: T| grow.requires((value, rate)),
            trail.len() == i + 1,
            trail[0] == *present_value,
            trail.last() == value,
            forall|j: int|
                0 <= j < i ==> #[trigger] grow.ensures((trail[j], expected_rates@[j]), trail[j + 1]),
        decreases expected_rates@.len() - i,
    {
        let next: T = grow(value, expected_rates[i]);
        proof {
            let before = trail;
            trail = trail.push(next);
            assert forall|j: int| 0 <= j < i + 1 implies #[trigger] grow.ensures(
                (trail[j], expected_rates@[j]),
                trail[j + 1],
            ) by {
                if j < i {
                    assert(trail[j] == before[j] && trail[j + 1] == before[j + 1]);
                }
            }
        }
        value = next;
        i = i + 1;
    }
    proof {
        assert(compounding(grow, *present_value, expected_rates@, trail));
    }
    value
}

/// Where `grow` computes the function `step`, a trail of compounding under
/// `rates` reaches, after `i` periods, the left fold of `step` over the first
/// `i` rates.
proof fn lemma_trail_is_fold<T, F: Fn(T, T) -> T>(
    grow: F,
    step: spec_fn(T, T) -> T,
    present_value: T,
    rates: Seq<T>,
    trail: Seq<T>,
    i: int,
)
    requires
        forall|value: T, rate: T, grown: T| grow.ensures((value, rate), grown) ==> grown == step(
            value,
            rate,
        ),
        compounding(grow, present_value, rates, trail),
        0 <= i <= rates.len(),
    ensures
        trail[i] == rates.subrange(0, i).fold_left(present_value, step),
    decreases i,
{
    if i > 0 {
        lemma_trail_is_fold(grow, step, present_value, rates, trail, i - 1);
        assert(rates.subrange(0, i).drop_last() =~= rates.subrange(0, i - 1));
        let j = i - 1;
        assert(grow.ensures((trail[j], rates[j]), trail[j + 1]));
    }
}

/// The future value does not depend on the order of the rates.
///
/// This holds where one period's growth is exact: `grow` computes a function
/// `step` of the value and the rate, and growing by two rates in either order
/// gives the same value (as multiplying by `1 + rate` does on exact numbers,
/// though not always after floating-point rounding). Then any two
/// compoundings of one present value under rates that are a permutation of
/// each other end at the same value.
pub proof fn lemma_order_of_rates_is_immaterial<T, F: Fn(T, T) -> T>(
    grow: F,
    step: spec_fn(T, T) -> T,
    present_value: T,
    rates: Seq<T>,
    reordered: Seq<T>,
    trail: Seq<T>,
    reordered_trail: Seq<T>,
)
    requires
        forall|value: T, rate: T, grown: T| grow.ensures((value, rate), grown) ==> grown == step(
            value,
            rate,
        ),
        commutative_foldl(step),
        rates.to_multiset() == reordered.to_multiset(),
        compounding(grow, present_value, rates, trail),
        compounding(grow, present_value, reordered, reordered_trail),
    ensures
        trail.last() == reordered_trail.last(),
{
    lemma_trail_is_fold(grow, step, present_value, rates, trail, rates.len() as int);
    lemma_trail_is_fold(grow, step, present_value, reordered, reordered_trail, reordered.len() as int);
    assert(rates.subrange(0, rates.len() as int) =~= rates);
    assert(reordered.subrange(0, reordered.len() as int) =~= reordered);
    lemma_fold_left_permutation(rates, reordered, step, present_value);
}

} // verus!
