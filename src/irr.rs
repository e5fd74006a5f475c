//! The record that the bisection solver produces.

use vstd::prelude::*;

verus! {

/// What a caller can know of an [`Irr`] record.
pub struct IrrView<T> {
    pub rate_low: T,
    pub npv_rate_low: T,
    pub rate_high: T,
    pub npv_rate_high: T,
    pub iteration_limit: int,
    pub iterations_run: int,
    pub irr: T,
    pub npv: T,
    pub is_valid: bool,
}

/// An approximation of the internal rate of return of a cash-flow series.
///
/// It keeps the final bracket with the net present values at its ends, the
/// iteration budget and how much of it was used, the best rate found with
/// its net present value, and whether that value is within the required
/// precision of zero.
#[derive(Debug)]
pub struct Irr<T> {
    rate_low: T,
    npv_rate_low: T,
    rate_high: T,
    npv_rate_high: T,
    iteration_limit: i16,
    iterations_run: i16,
    irr: T,
    npv: T,
    is_valid: bool,
}

impl<T> View for Irr<T> {
    type V = IrrView<T>;

    closed spec fn view(&self) -> IrrView<T> {
        IrrView {
            rate_low: self.rate_low,
            npv_rate_low: self.npv_rate_low,
            rate_high: self.rate_high,
            npv_rate_high: self.npv_rate_high,
            iteration_limit: self.iteration_limit as int,
            iterations_run: self.iterations_run as int,
            irr: self.irr,
            npv: self.npv,
            is_valid: self.is_valid,
        }
    }
}

impl<T: Copy> Irr<T> {
    /// Builds a record from its parts.
    pub fn new(
        rate_low: T,
        npv_rate_low: T,
        rate_high: T,
        npv_rate_high: T,
        iteration_limit: i16,
        iterations_run: i16,
        irr: T,
        npv: T,
        is_valid: bool,
    ) -> (r: Irr<T>)
        ensures
            r@ == (IrrView {
                rate_low,
                npv_rate_low,
                rate_high,
                npv_rate_high,
                iteration_limit: iteration_limit as int,
                iterations_run: iterations_run as int,
                irr,
                npv,
                is_valid,
            }),
    {
        Irr {
            rate_low,
            npv_rate_low,
            rate_high,
            npv_rate_high,
            iteration_limit,
            iterations_run,
            irr,
            npv,
            is_valid,
        }
    }

    /// The low end of the final bracket.
    pub fn rate_low(&self) -> (r: T)
        ensures
            r == self@.rate_low,
    {
        self.rate_low
    }

    /// The net present value at the low end of the final bracket.
    pub fn get_npv_rate_low(&self) -> (r: T)
        ensures
            r == self@.npv_rate_low,
    {
        self.npv_rate_low
    }

    /// The high end of the final bracket.
    pub fn get_rate_high(&self) -> (r: T)
        ensures
            r == self@.rate_high,
    {
        self.rate_high
    }

    /// The net present value at the high end of the final bracket.
    pub fn get_npv_rate_high(&self) -> (r: T)
        ensures
            r == self@.npv_rate_high,
    {
        self.npv_rate_high
    }

    /// The most bisection steps the solver was allowed.
    pub fn get_iteration_limit(&self) -> (r: i16)
        ensures
            r as int == self@.iteration_limit,
    {
        self.iteration_limit
    }

    /// The bisection steps the solver took.
    pub fn get_iterations_run(&self) -> (r: i16)
        ensures
            r as int == self@.iterations_run,
    {
        self.iterations_run
    }

    /// The approximated internal rate of return.
    pub fn get_irr(&self) -> (r: T)
        ensures
            r == self@.irr,
    {
        self.irr
    }

    /// The net present value at the approximated rate.
    pub fn get_npv(&self) -> (r: T)
        ensures
            r == self@.npv,
    {
        self.npv
    }

    /// Whether the net present value at the approximated rate is within the
    /// required precision of zero.
    pub fn is_valid(&self) -> (r: bool)
        ensures
            r == self@.is_valid,
    {
        self.is_valid
    }
}

} // verus!
