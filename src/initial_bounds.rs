//! The record that the bracket search produces.

use vstd::prelude::*;

verus! {

/// What a caller can know of an [`InitialBounds`] record.
pub struct InitialBoundsView<T> {
    pub rate_low: T,
    pub npv_rate_low: T,
    pub rate_high: T,
    pub npv_rate_high: T,
    pub iteration_limit: int,
    pub iterations_run: int,
    pub is_valid: bool,
}

/// A bracket of two rates to start the bisection solver from.
///
/// It keeps the two rates with their net present values, the iteration
/// budget of the search and how much of it was used, and whether the bracket
/// is valid: its values do not share a sign, or the guess itself was already
/// close enough to a root (both rates are then the guess).
#[derive(Debug)]
pub struct InitialBounds<T> {
    rate_low: T,
    npv_rate_low: T,
    rate_high: T,
    npv_rate_high: T,
    iteration_limit: i16,
    iterations_run: i16,
    is_valid: bool,
}

impl<T> View for InitialBounds<T> {
    type V = InitialBoundsView<T>;

    closed spec fn view(&self) -> InitialBoundsView<T> {
        InitialBoundsView {
            rate_low: self.rate_low,
            npv_rate_low: self.npv_rate_low,
            rate_high: self.rate_high,
            npv_rate_high: self.npv_rate_high,
            iteration_limit: self.iteration_limit as int,
            iterations_run: self.iterations_run as int,
            is_valid: self.is_valid,
        }
    }
}

impl<T: Copy> InitialBounds<T> {
    /// Builds a record from its parts.
    pub fn new(
        rate_low: T,
        npv_rate_low: T,
        rate_high: T,
        npv_rate_high: T,
        iteration_limit: i16,
        iterations_run: i16,
        is_valid: bool,
    ) -> (r: InitialBounds<T>)
        ensures
            r@ == (InitialBoundsView {
                rate_low,
                npv_rate_low,
                rate_high,
                npv_rate_high,
                iteration_limit: iteration_limit as int,
                iterations_run: iterations_run as int,
                is_valid,
            }),
    {
        InitialBounds {
            rate_low,
            npv_rate_low,
            rate_high,
            npv_rate_high,
            iteration_limit,
            iterations_run,
            is_valid,
        }
    }

    /// The low rate of the bracket.
    pub fn get_rate_low(&self) -> (r: T)
        ensures
            r == self@.rate_low,
    {
        self.rate_low
    }

    /// The net present value at the low rate.
    pub fn get_npv_rate_low(&self) -> (r: T)
        ensures
            r == self@.npv_rate_low,
    {
        self.npv_rate_low
    }

    /// The high rate of the bracket.
    pub fn get_rate_high(&self) -> (r: T)
        ensures
            r == self@.rate_high,
    {
        self.rate_high
    }

    /// The net present value at the high rate.
    pub fn get_npv_rate_high(&self) -> (r: T)
        ensures
            r == self@.npv_rate_high,
    {
        self.npv_rate_high
    }

    /// The most widening steps the search was allowed.
    pub fn get_iteration_limit(&self) -> (r: i16)
        ensures
            r as int == self@.iteration_limit,
    {
        self.iteration_limit
    }

    /// The widening steps the search took.
    pub fn get_iterations_run(&self) -> (r: i16)
        ensures
            r as int == self@.iterations_run,
    {
        self.iterations_run
    }

    /// Whether the bracket is fit to start the bisection solver from.
    pub fn is_valid(&self) -> (r: bool)
        ensures
            r == self@.is_valid,
    {
        self.is_valid
    }
}

} // verus!
