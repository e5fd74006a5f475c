//! Discounting a series of cash flows back to a net present value.

use vstd::prelude::*;

verus! {

/// `terms` and `sums` record discounting `cash_flows` with `present_value`
/// and adding up with `plus` from `zero`: each term is what `present_value`
/// returned for the cash flow and its period, the sums start at `zero`, and
/// each next sum is what `plus` returned for the sum before it and the term.
pub open spec fn discounting<T, D: Fn(T, usize) -> T, A: Fn(T, T) -> T>(
    present_value: D,
    plus: A,
    zero: T,
    cash_flows: Seq<T>,
    terms: Seq<T>,
    sums: Seq<T>,
) -> bool {
    &&& terms.len() == cash_flows.len()
    &&& sums.len() == cash_flows.len() + 1
    &&& sums[0] == zero
    &&& forall|i: int|
        0 <= i < cash_flows.len() ==> #[trigger] present_value.ensures(
            (cash_flows[i], i as usize),
            terms[i],
        )
    &&& forall|i: int|
        0 <= i < cash_flows.len() ==> #[trigger] plus.ensures((sums[i], terms[i]), sums[i + 1])
}

/// Converts a series of cash flows, indexed by period from 0 (now), into a
/// net present value.
///
/// `present_value` discounts one cash flow from its period at the chosen
/// rate (for a floating-point type, `cash_flow * (1 + rate)^(-period)`), and
/// `plus` and `zero` add the results up. The result is the last of the sums
/// of the terms in period order; with no cash flows it is `zero`.
pub fn from_cash_flows_and_discount_rate<T: Copy, D: Fn(T, usize) -> T, A: Fn(T, T) -> T>(
    cash_flows: &[T],
    present_value: D,
    plus: A,
    zero: T,
) -> (r: T)
    requires
        forall|cash_flow: T, period: usize| present_value.requires((cash_flow, period)),
        forall|sum: T, term: T| plus.requires((sum, term)),
    ensures
        exists|terms: Seq<T>, sums: Seq<T>|
            discounting(present_value, plus, zero, cash_flows@, terms, sums) && sums.last() == r,
        cash_flows@.len() == 0 ==> r == zero,
{
    let mut total: T = zero;
    let ghost mut terms: Seq<T> = Seq::empty();
    let ghost mut sums: Seq<T> = seq![zero];
    let mut period: usize = 0;
    while period < cash_flows.len()
        invariant
            period <= cash_flows@.len(),
            forall|cash_flow: T, period: usize| present_value.requires((cash_flow, period)),
            forall|sum: T, term: T| plus.requires((sum, term)),
            terms.len() == period,
            sums.len() == period + 1,
            sums[0] == zero,
            sums.last() == total,
            forall|i: int|
                0 <= i < period ==> #[trigger] present_value.ensures(
                    (cash_flows@[i], i as usize),
                    terms[i],
                ),
            forall|i: int|
                0 <= i < period ==> #[trigger] plus.ensures((sums[i], terms[i]), sums[i + 1]),
        decreases cash_flows@.len() - period,
    {
        let term: T = present_value(cash_flows[period], period);
        let next: T = plus(total, term);
        proof {
            let terms_before = terms;
            let sums_before = sums;
            terms = terms.push(term);
            sums = sums.push(next);
            assert forall|i: int| 0 <= i < period + 1 implies #[trigger] present_value.ensures(
                (cash_flows@[i], i as usize),
                terms[i],
            ) by {
                if i < period {
                    assert(terms[i] == terms_before[i]);
                }
            }
            assert forall|i: int| 0 <= i < period + 1 implies #[trigger] plus.ensures(
                (sums[i], terms[i]),
                sums[i + 1],
            ) by {
                if i < period {
                    assert(sums[i] == sums_before[i] && sums[i + 1] == sums_before[i + 1]);
                    assert(terms[i] == terms_before[i]);
                }
            }
        }
        total = next;
        period = period + 1;
    }
    proof {
        assert(discounting(present_value, plus, zero, cash_flows@, terms, sums));
    }
    total
}

/// Where the arithmetic is exact and passes through `scale`, the running sums
/// of the scaled series are the scaled running sums, period by period.
proof fn lemma_scaled_sums<T, D: Fn(T, usize) -> T, A: Fn(T, T) -> T>(
    present_value: D,
    plus: A,
    zero: T,
    discount: spec_fn(T, usize) -> T,
    sum: spec_fn(T, T) -> T,
    scale: spec_fn(T) -> T,
    cash_flows: Seq<T>,
    scaled: Seq<T>,
    terms: Seq<T>,
    sums: Seq<T>,
    scaled_terms: Seq<T>,
    scaled_sums: Seq<T>,
    i: int,
)
    requires
        forall|cash_flow: T, period: usize, term: T|
            present_value.ensures((cash_flow, period), term) ==> term == discount(cash_flow, period),
        forall|a: T, b: T, total: T| plus.ensures((a, b), total) ==> total == sum(a, b),
        forall|cash_flow: T, period: usize|
            #[trigger] discount(scale(cash_flow), period) == scale(discount(cash_flow, period)),
        forall|a: T, b: T| #[trigger] sum(scale(a), scale(b)) == scale(sum(a, b)),
        scale(zero) == zero,
        scaled.len() == cash_flows.len(),
        forall|k: int| 0 <= k < cash_flows.len() ==> scaled[k] == scale(cash_flows[k]),
        discounting(present_value, plus, zero, cash_flows, terms, sums),
        discounting(present_value, plus, zero, scaled, scaled_terms, scaled_sums),
        0 <= i <= cash_flows.len(),
    ensures
        scaled_sums[i] == scale(sums[i]),
    decreases i,
{
    if i > 0 {
        let j = i - 1;
        lemma_scaled_sums(
            present_value,
            plus,
            zero,
            discount,
            sum,
            scale,
            cash_flows,
            scaled,
            terms,
            sums,
            scaled_terms,
            scaled_sums,
            j,
        );
        assert(present_value.ensures((cash_flows[j], j as usize), terms[j]));
        assert(present_value.ensures((scaled[j], j as usize), scaled_terms[j]));
        assert(scaled_terms[j] == scale(terms[j]));
        assert(plus.ensures((sums[j], terms[j]), sums[j + 1]));
        assert(plus.ensures((scaled_sums[j], scaled_terms[j]), scaled_sums[j + 1]));
    }
}

/// Scaling every cash flow by one factor scales the net present value by it.
///
/// This holds where the arithmetic is exact: `present_value` and `plus`
/// compute functions `discount` and `sum`, scaling (`scale`, multiplying by
/// the factor) passes through both and leaves `zero` as it is, as on exact
/// numbers, though not always after floating-point rounding. Then the net
/// present value of the scaled series is the scaled net present value.
pub proof fn lemma_scaling_cash_flows_scales_npv<T, D: Fn(T, usize) -> T, A: Fn(T, T) -> T>(
    present_value: D,
    plus: A,
    zero: T,
    discount: spec_fn(T, usize) -> T,
    sum: spec_fn(T, T) -> T,
    scale: spec_fn(T) -> T,
    cash_flows: Seq<T>,
    scaled: Seq<T>,
    terms: Seq<T>,
    sums: Seq<T>,
    scaled_terms: Seq<T>,
    scaled_sums: Seq<T>,
)
    requires
        forall|cash_flow: T, period: usize, term: T|
            present_value.ensures((cash_flow, period), term) ==> term == discount(cash_flow, period),
        forall|a: T, b: T, total: T| plus.ensures((a, b), total) ==> total == sum(a, b),
        forall|cash_flow: T, period: usize|
            #[trigger] discount(scale(cash_flow), period) == scale(discount(cash_flow, period)),
        forall|a: T, b: T| #[trigger] sum(scale(a), scale(b)) == scale(sum(a, b)),
        scale(zero) == zero,
        scaled.len() == cash_flows.len(),
        forall|k: int| 0 <= k < cash_flows.len() ==> scaled[k] == scale(cash_flows[k]),
        discounting(present_value, plus, zero, cash_flows, terms, sums),
        discounting(present_value, plus, zero, scaled, scaled_terms, scaled_sums),
    ensures
        scaled_sums.last() == scale(sums.last()),
{
    lemma_scaled_sums(
        present_value,
        plus,
        zero,
        discount,
        sum,
        scale,
        cash_flows,
        scaled,
        terms,
        sums,
        scaled_terms,
        scaled_sums,
        cash_flows.len() as int,
    );
}

} // verus!
