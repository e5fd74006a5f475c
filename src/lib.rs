//! Time-value analysis of cash-flow series: compounding a present value
//! forward, discounting a series to its net present value, and the search for
//! an internal rate of return (IRR) by bracketing and bisection.
//!
//! Everything here is independent of the number type. The arithmetic of one
//! period (growing a value by a rate, discounting one cash flow, adding) is
//! handed in by the caller; the library walks the series. For the IRR search
//! the caller evaluates net present values and compares them, and hands the
//! library the rates, the values and the outcomes of those comparisons; the
//! library decides what is evaluated next and assembles the result records.

pub mod bisection;
pub mod bracket_search;
pub mod future_value;
pub mod initial_bounds;
pub mod irr;
pub mod present_value;
