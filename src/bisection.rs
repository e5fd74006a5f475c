//! The decisions of the bisection solver.
//!
//! The solver halves a bracket of two rates whose net present values do not
//! share a sign. The caller evaluates the midpoint of the current bracket and
//! reports what it found in a [`MidpointReading`]; [`Bisection::advance`]
//! decides whether the search goes on, and which end of the bracket the
//! midpoint replaces, or assembles the final [`Irr`] record.

use vstd::prelude::*;

use crate::irr::{Irr, IrrView};

verus! {

/// What the caller learned by evaluating the net present value at the
/// midpoint of the current bracket.
pub struct MidpointReading<T> {
    /// The midpoint of the current bracket.
    pub rate: T,
    /// The net present value at `rate`.
    pub npv: T,
    /// Whether `npv` equals the precision constant up to machine precision
    /// relative to their magnitudes: the test that ends the search.
    pub converged: bool,
    /// Whether the product of the net present value at the low end of the
    /// current bracket and `npv` is below zero, so that a root lies between
    /// the low end and the midpoint.
    pub in_lower_half: bool,
    /// Whether the magnitude of `npv` is at most the precision constant: the
    /// test that makes the result valid.
    pub within_precision: bool,
}

/// What a caller can know of a [`Bisection`] in progress.
pub struct BisectionView<T> {
    pub rate_low: T,
    pub npv_rate_low: T,
    pub rate_high: T,
    pub npv_rate_high: T,
    pub iteration_limit: int,
    pub iterations_run: int,
}

impl<T> BisectionView<T> {
    /// No step is taken beyond the budget, and none at all without one.
    pub open spec fn within_budget(self) -> bool {
        &&& 0 <= self.iterations_run
        &&& self.iterations_run <= self.iteration_limit || self.iterations_run == 0
    }

    /// Whether the search goes on after `reading`: budget is left and the
    /// midpoint has not converged.
    pub open spec fn continues(self, reading: MidpointReading<T>) -> bool {
        self.iterations_run < self.iteration_limit && !reading.converged
    }

    /// The state after one bisection step on `reading`: the midpoint replaces
    /// the high end where the root lies in the lower half, else the low end.
    pub open spec fn narrowed(self, reading: MidpointReading<T>) -> BisectionView<T> {
        if reading.in_lower_half {
            BisectionView {
                rate_low: self.rate_low,
                npv_rate_low: self.npv_rate_low,
                rate_high: reading.rate,
                npv_rate_high: reading.npv,
                iteration_limit: self.iteration_limit,
                iterations_run: self.iterations_run + 1,
            }
        } else {
            BisectionView {
                rate_low: reading.rate,
                npv_rate_low: reading.npv,
                rate_high: self.rate_high,
                npv_rate_high: self.npv_rate_high,
                iteration_limit: self.iteration_limit,
                iterations_run: self.iterations_run + 1,
            }
        }
    }

    /// The record the search ends with on `reading`: the current bracket,
    /// the midpoint as the approximation, valid exactly when the midpoint's
    /// net present value is within the precision.
    pub open spec fn finished(self, reading: MidpointReading<T>) -> IrrView<T> {
        IrrView {
            rate_low: self.rate_low,
            npv_rate_low: self.npv_rate_low,
            rate_high: self.rate_high,
            npv_rate_high: self.npv_rate_high,
            iteration_limit: self.iteration_limit,
            iterations_run: self.iterations_run,
            irr: reading.rate,
            npv: reading.npv,
            is_valid: reading.within_precision,
        }
    }
}

/// A bisection search in progress on a bracket whose net present values do
/// not share a sign.
pub struct Bisection<T> {
    rate_low: T,
    npv_rate_low: T,
    rate_high: T,
    npv_rate_high: T,
    iteration_limit: i16,
    iterations_run: i16,
}

impl<T> View for Bisection<T> {
    type V = BisectionView<T>;

    closed spec fn view(&self) -> BisectionView<T> {
        BisectionView {
            rate_low: self.rate_low,
            npv_rate_low: self.npv_rate_low,
            rate_high: self.rate_high,
            npv_rate_high: self.npv_rate_high,
            iteration_limit: self.iteration_limit as int,
            iterations_run: self.iterations_run as int,
        }
    }
}

impl<T> Bisection<T> {
    #[verifier::type_invariant]
    spec fn budget_kept(self) -> bool {
        self@.within_budget()
    }
}

impl<T: Copy> Bisection<T> {
    /// Opens a search on the bracket `rate_low`, `rate_high`, whose net
    /// present values are `npv_rate_low` and `npv_rate_high`.
    ///
    /// `same_sign` tells whether the product of the two values is above
    /// zero. Such a bracket holds no sign change: the search is refused, and
    /// the invalid record that reports it is returned instead, with the
    /// bracket as given, no step taken, and `undefined` (a NaN, for a
    /// floating-point type) as the rate and its value.
    pub fn start(
        rate_low: T,
        npv_rate_low: T,
        rate_high: T,
        npv_rate_high: T,
        iteration_limit: i16,
        same_sign: bool,
        undefined: T,
    ) -> (r: Result<Bisection<T>, Irr<T>>)
        ensures
            same_sign <==> r is Err,
            same_sign ==> (r matches Err(rec) && !rec@.is_valid && rec@.iterations_run == 0),
            r matches Err(rec) ==> rec@ == (IrrView {
                rate_low,
                npv_rate_low,
                rate_high,
                npv_rate_high,
                iteration_limit: iteration_limit as int,
                iterations_run: 0,
                irr: undefined,
                npv: undefined,
                is_valid: false,
            }),
            r matches Ok(search) ==> search@ == (BisectionView {
                rate_low,
                npv_rate_low,
                rate_high,
                npv_rate_high,
                iteration_limit: iteration_limit as int,
                iterations_run: 0,
            }),
    {
        if same_sign {
            Err(
                Irr::new(
                    rate_low,
                    npv_rate_low,
                    rate_high,
                    npv_rate_high,
                    iteration_limit,
                    0,
                    undefined,
                    undefined,
                    false,
                ),
            )
        } else {
            Ok(
                Bisection {
                    rate_low,
                    npv_rate_low,
                    rate_high,
                    npv_rate_high,
                    iteration_limit,
                    iterations_run: 0,
                },
            )
        }
    }

    /// Takes the reading at the midpoint of the current bracket.
    ///
    /// While budget is left and the midpoint has not converged, the
    /// midpoint replaces one end of the bracket, one step is counted and
    /// `None` asks for the reading at the new midpoint. Otherwise the search
    /// is over and the final record is returned: it is valid exactly when the
    /// reading's net present value is within the precision.
    pub fn advance(&mut self, reading: MidpointReading<T>) -> (r: Option<Irr<T>>)
        ensures
            old(self)@.continues(reading) <==> r is None,
            r is None ==> final(self)@ == old(self)@.narrowed(reading),
            r matches Some(rec) ==> rec@ == old(self)@.finished(reading) && final(self)@ == old(
                self,
            )@,
            r matches Some(rec) ==> (rec@.is_valid ==> reading.within_precision && rec@.irr
                == reading.rate && rec@.npv == reading.npv),
            r matches Some(rec) ==> rec@.iterations_run >= rec@.iteration_limit || reading.converged,
            final(self)@.within_budget(),
    {
        proof {
            use_type_invariant(&*self);
        }
        if self.iterations_run < self.iteration_limit && !reading.converged {
            self.iterations_run = self.iterations_run + 1;
            if reading.in_lower_half {
                self.rate_high = reading.rate;
                self.npv_rate_high = reading.npv;
            } else {
                self.rate_low = reading.rate;
                self.npv_rate_low = reading.npv;
            }
            None
        } else {
            Some(
                Irr::new(
                    self.rate_low,
                    self.npv_rate_low,
                    self.rate_high,
                    self.npv_rate_high,
                    self.iteration_limit,
                    self.iterations_run,
                    reading.rate,
                    reading.npv,
                    reading.within_precision,
                ),
            )
        }
    }
    /// The low end of the current bracket.
    pub fn rate_low(&self) -> (r: T)
        ensures
            r == self@.rate_low,
    {
        self.rate_low
    }

    /// The net present value at the low end of the current bracket.
    pub fn npv_rate_low(&self) -> (r: T)
        ensures
            r == self@.npv_rate_low,
    {
        self.npv_rate_low
    }

    /// The high end of the current bracket.
    pub fn rate_high(&self) -> (r: T)
        ensures
            r == self@.rate_high,
    {
        self.rate_high
    }

    /// The net present value at the high end of the current bracket.
    pub fn npv_rate_high(&self) -> (r: T)
        ensures
            r == self@.npv_rate_high,
    {
        self.npv_rate_high
    }

    /// The bisection steps taken so far.
    pub fn iterations_run(&self) -> (r: i16)
        ensures
            r as int == self@.iterations_run,
    {
        self.iterations_run
    }
}

} // verus!
