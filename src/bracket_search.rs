//! The decisions of the search for an initial bracket.
//!
//! The search starts from one guessed rate. Where the guess is already close
//! enough to a root it is the answer ([`BoundsSearch::accept_guess`]).
//! Otherwise the caller places a narrow bracket around the guess and opens a
//! [`BoundsSearch`] on it, which fixes once, from which end is closer to zero,
//! the direction in which the bracket will move. Each round the caller tells
//! whether the current bracket straddles zero; [`BoundsSearch::decide`] either
//! settles the search or asks the caller to move the bracket one step further
//! ([`BoundsSearch::widen`]).

use vstd::prelude::*;

use crate::initial_bounds::{InitialBounds, InitialBoundsView};

verus! {

/// What a caller can know of a [`BoundsSearch`] in progress.
pub struct BoundsSearchView<T> {
    pub rate_low: T,
    pub npv_rate_low: T,
    pub rate_high: T,
    pub npv_rate_high: T,
    pub iteration_limit: int,
    pub iterations_run: int,
    pub toward_low: bool,
}

impl<T> BoundsSearchView<T> {
    /// No step is taken beyond the budget, and none at all without one.
    pub open spec fn within_budget(self) -> bool {
        &&& 0 <= self.iterations_run
        &&& self.iterations_run <= self.iteration_limit || self.iterations_run == 0
    }

    /// Whether the search ends on this round, given whether the current
    /// bracket straddles zero: it ends when the budget is spent, or when the
    /// bracket straddles zero.
    pub open spec fn settles(self, straddles: bool) -> bool {
        self.iterations_run >= self.iteration_limit || straddles
    }

    /// The record the search ends with: the current bracket, valid exactly
    /// when it straddles zero and the budget was not spent before.
    pub open spec fn settled(self, straddles: bool) -> InitialBoundsView<T> {
        InitialBoundsView {
            rate_low: self.rate_low,
            npv_rate_low: self.npv_rate_low,
            rate_high: self.rate_high,
            npv_rate_high: self.npv_rate_high,
            iteration_limit: self.iteration_limit,
            iterations_run: self.iterations_run,
            is_valid: self.iterations_run < self.iteration_limit && straddles,
        }
    }

    /// The state after one step: the bracket moves in the chosen direction,
    /// its inner end taking the place of its former outer end and its new
    /// outer end being `outer_rate`.
    pub open spec fn widened(self, outer_rate: T, npv_outer: T, npv_inner: T) -> BoundsSearchView<
        T,
    > {
        if self.toward_low {
            BoundsSearchView {
                rate_low: outer_rate,
                npv_rate_low: npv_outer,
                rate_high: self.rate_low,
                npv_rate_high: npv_inner,
                iteration_limit: self.iteration_limit,
                iterations_run: self.iterations_run + 1,
                toward_low: self.toward_low,
            }
        } else {
            BoundsSearchView {
                rate_low: self.rate_high,
                npv_rate_low: npv_inner,
                rate_high: outer_rate,
                npv_rate_high: npv_outer,
                iteration_limit: self.iteration_limit,
                iterations_run: self.iterations_run + 1,
                toward_low: self.toward_low,
            }
        }
    }
}

/// A search for a bracket whose net present values do not share a sign.
pub struct BoundsSearch<T> {
    rate_low: T,
    npv_rate_low: T,
    rate_high: T,
    npv_rate_high: T,
    iteration_limit: i16,
    iterations_run: i16,
    toward_low: bool,
}

impl<T> View for BoundsSearch<T> {
    type V = BoundsSearchView<T>;

    closed spec fn view(&self) -> BoundsSearchView<T> {
        BoundsSearchView {
            rate_low: self.rate_low,
            npv_rate_low: self.npv_rate_low,
            rate_high: self.rate_high,
            npv_rate_high: self.npv_rate_high,
            iteration_limit: self.iteration_limit as int,
            iterations_run: self.iterations_run as int,
            toward_low: self.toward_low,
        }
    }
}

impl<T> BoundsSearch<T> {
    #[verifier::type_invariant]
    spec fn budget_kept(self) -> bool {
        self@.within_budget()
    }
}

impl<T: Copy> BoundsSearch<T> {
    /// Ends the search before it starts where the guess is already close
    /// enough to a root: `within_precision` tells whether the magnitude of
    /// `npv_rate_guess` is below the precision constant. The record is then
    /// valid, with the guess at both ends and no step taken; otherwise there
    /// is none.
    pub fn accept_guess(
        rate_guess: T,
        npv_rate_guess: T,
        iteration_limit: i16,
        within_precision: bool,
    ) -> (r: Option<InitialBounds<T>>)
        ensures
            within_precision <==> r is Some,
            r matches Some(b) ==> b@ == (InitialBoundsView {
                rate_low: rate_guess,
                npv_rate_low: npv_rate_guess,
                rate_high: rate_guess,
                npv_rate_high: npv_rate_guess,
                iteration_limit: iteration_limit as int,
                iterations_run: 0,
                is_valid: true,
            }),
    {
        if within_precision {
            Some(
                InitialBounds::new(
                    rate_guess,
                    npv_rate_guess,
                    rate_guess,
                    npv_rate_guess,
                    iteration_limit,
                    0,
                    true,
                ),
            )
        } else {
            None
        }
    }

    /// Opens the search on the narrow bracket placed around the guess.
    ///
    /// `low_closer` tells whether the magnitude of `npv_rate_low` is below
    /// that of `npv_rate_high`; the bracket will then move toward lower
    /// rates, else toward higher ones, for the whole search.
    pub fn open(
        rate_low: T,
        npv_rate_low: T,
        rate_high: T,
        npv_rate_high: T,
        iteration_limit: i16,
        low_closer: bool,
    ) -> (r: BoundsSearch<T>)
        ensures
            r@ == (BoundsSearchView {
                rate_low,
                npv_rate_low,
                rate_high,
                npv_rate_high,
                iteration_limit: iteration_limit as int,
                iterations_run: 0,
                toward_low: low_closer,
            }),
    {
        BoundsSearch {
            rate_low,
            npv_rate_low,
            rate_high,
            npv_rate_high,
            iteration_limit,
            iterations_run: 0,
            toward_low: low_closer,
        }
    }

    /// Decides the round, given whether the current bracket straddles zero
    /// (the product of its two net present values is at most zero).
    ///
    /// With budget left, a straddling bracket ends the search as valid, and
    /// any other asks for one more step (`None`). With the budget spent, the
    /// search ends as invalid on the current bracket; so a search opened
    /// with no budget is never valid.
    pub fn decide(&self, straddles: bool) -> (r: Option<InitialBounds<T>>)
        ensures
            self@.settles(straddles) <==> r is Some,
            r matches Some(b) ==> b@ == self@.settled(straddles),
            r matches Some(b) ==> (b@.is_valid <==> self@.iterations_run < self@.iteration_limit
                && straddles),
            self@.iteration_limit <= 0 ==> (r matches Some(b) && !b@.is_valid),
    {
        proof {
            use_type_invariant(self);
        }
        if self.iterations_run < self.iteration_limit {
            if straddles {
                Some(
                    InitialBounds::new(
                        self.rate_low,
                        self.npv_rate_low,
                        self.rate_high,
                        self.npv_rate_high,
                        self.iteration_limit,
                        self.iterations_run,
                        true,
                    ),
                )
            } else {
                None
            }
        } else {
            Some(
                InitialBounds::new(
                    self.rate_low,
                    self.npv_rate_low,
                    self.rate_high,
                    self.npv_rate_high,
                    self.iteration_limit,
                    self.iterations_run,
                    false,
                ),
            )
        }
    }

    /// Moves the bracket one step in the chosen direction and counts the
    /// step: `outer_rate` is the new outer end, `npv_outer` its net present
    /// value, and `npv_inner` the value at the former outer end, which
    /// becomes the inner one. Allowed only while budget is left, that is
    /// after [`BoundsSearch::decide`] asked for a step.
    pub fn widen(&mut self, outer_rate: T, npv_outer: T, npv_inner: T)
        requires
            old(self)@.iterations_run < old(self)@.iteration_limit,
        ensures
            final(self)@ == old(self)@.widened(outer_rate, npv_outer, npv_inner),
    {
        proof {
            use_type_invariant(&*self);
        }
        if self.toward_low {
            self.rate_high = self.rate_low;
            self.npv_rate_high = npv_inner;
            self.rate_low = outer_rate;
            self.npv_rate_low = npv_outer;
        } else {
            self.rate_low = self.rate_high;
            self.npv_rate_low = npv_inner;
            self.rate_high = outer_rate;
            self.npv_rate_high = npv_outer;
        }
        self.iterations_run = self.iterations_run + 1;
    }

    /// The low end of the current bracket.
    pub fn rate_low(&self) -> (r: T)
        ensures
            r == self@.rate_low,
    {
        self.rate_low
    }

    /// The net present value at the low end of the current bracket.
    pub fn npv_rate_low(&self) -> (r: T)
        ensures
            r == self@.npv_rate_low,
    {
        self.npv_rate_low
    }

    /// The high end of the current bracket.
    pub fn rate_high(&self) -> (r: T)
        ensures
            r == self@.rate_high,
    {
        self.rate_high
    }

    /// The net present value at the high end of the current bracket.
    pub fn npv_rate_high(&self) -> (r: T)
        ensures
            r == self@.npv_rate_high,
    {
        self.npv_rate_high
    }

    /// Whether the bracket moves toward lower rates.
    pub fn toward_low(&self) -> (r: bool)
        ensures
            r == self@.toward_low,
    {
        self.toward_low
    }
}

} // verus!
