use time_value::bisection::{Bisection, MidpointReading};
use time_value::irr::Irr;

fn reading(rate: f64, npv: f64, converged: bool, in_lower_half: bool, within: bool) -> MidpointReading<f64> {
    MidpointReading { rate, npv, converged, in_lower_half, within_precision: within }
}

#[test]
fn bisection_refuses_a_bracket_of_one_sign() {
    let started = Bisection::start(0.01, 5.0, 0.02, 3.0, 100, true, f64::NAN);
    let rejected: Irr<f64> = match started {
        Ok(_) => panic!("a bracket of one sign was accepted"),
        Err(rejected) => rejected,
    };
    assert!(!rejected.is_valid());
    assert_eq!(rejected.get_iterations_run(), 0);
    assert_eq!(rejected.get_iteration_limit(), 100);
    assert!(rejected.get_irr().is_nan());
    assert!(rejected.get_npv().is_nan());
    assert_eq!(rejected.rate_low(), 0.01);
    assert_eq!(rejected.get_npv_rate_low(), 5.0);
    assert_eq!(rejected.get_rate_high(), 0.02);
    assert_eq!(rejected.get_npv_rate_high(), 3.0);
}

#[test]
fn bisection_opens_on_a_sign_change() {
    let search = match Bisection::start(0.05, 12.0, 0.18, -4.0, 100, false, f64::NAN) {
        Ok(search) => search,
        Err(_) => panic!("a bracket with a sign change was refused"),
    };
    assert_eq!(search.rate_low(), 0.05);
    assert_eq!(search.npv_rate_low(), 12.0);
    assert_eq!(search.rate_high(), 0.18);
    assert_eq!(search.npv_rate_high(), -4.0);
    assert_eq!(search.iterations_run(), 0);
}

#[test]
fn bisection_moves_the_high_end_for_a_root_in_the_lower_half() {
    let mut search = Bisection::start(0.0, 8.0, 1.0, -8.0, 10, false, f64::NAN).ok().unwrap();
    assert!(search.advance(reading(0.5, -2.0, false, true, false)).is_none());
    assert_eq!(search.rate_low(), 0.0);
    assert_eq!(search.npv_rate_low(), 8.0);
    assert_eq!(search.rate_high(), 0.5);
    assert_eq!(search.npv_rate_high(), -2.0);
    assert_eq!(search.iterations_run(), 1);
}

#[test]
fn bisection_moves_the_low_end_for_a_root_in_the_upper_half() {
    let mut search = Bisection::start(0.0, 8.0, 1.0, -8.0, 10, false, f64::NAN).ok().unwrap();
    assert!(search.advance(reading(0.5, 2.0, false, false, false)).is_none());
    assert_eq!(search.rate_low(), 0.5);
    assert_eq!(search.npv_rate_low(), 2.0);
    assert_eq!(search.rate_high(), 1.0);
    assert_eq!(search.npv_rate_high(), -8.0);
    assert_eq!(search.iterations_run(), 1);
}

#[test]
fn bisection_ends_on_convergence() {
    let mut search = Bisection::start(0.0, 8.0, 1.0, -8.0, 10, false, f64::NAN).ok().unwrap();
    assert!(search.advance(reading(0.5, 2.0, false, false, false)).is_none());
    let irr = search.advance(reading(0.75, 0.001, true, false, true)).unwrap();
    assert!(irr.is_valid());
    assert_eq!(irr.get_irr(), 0.75);
    assert_eq!(irr.get_npv(), 0.001);
    assert_eq!(irr.get_iterations_run(), 1);
    assert_eq!(irr.rate_low(), 0.5);
    assert_eq!(irr.get_rate_high(), 1.0);
}

#[test]
fn bisection_validity_follows_the_precision_test_only() {
    let mut search = Bisection::start(0.0, 8.0, 1.0, -8.0, 10, false, f64::NAN).ok().unwrap();
    let irr = search.advance(reading(0.5, 0.0011, true, false, false)).unwrap();
    assert!(!irr.is_valid());
    assert_eq!(irr.get_iterations_run(), 0);
}

#[test]
fn bisection_ends_when_the_budget_is_spent() {
    let mut search = Bisection::start(0.0, 8.0, 1.0, -8.0, 2, false, f64::NAN).ok().unwrap();
    assert!(search.advance(reading(0.5, 2.0, false, false, false)).is_none());
    assert!(search.advance(reading(0.75, -1.0, false, true, false)).is_none());
    let irr = search.advance(reading(0.625, 0.5, false, false, false)).unwrap();
    assert!(!irr.is_valid());
    assert_eq!(irr.get_iterations_run(), 2);
    assert_eq!(irr.get_iteration_limit(), 2);
    assert_eq!(irr.rate_low(), 0.5);
    assert_eq!(irr.get_rate_high(), 0.75);
    assert_eq!(irr.get_irr(), 0.625);
}

#[test]
fn bisection_with_no_budget_takes_no_step() {
    let mut zero = Bisection::start(0.0, 8.0, 1.0, -8.0, 0, false, f64::NAN).ok().unwrap();
    let irr = zero.advance(reading(0.5, 0.0, false, false, true)).unwrap();
    assert!(irr.is_valid());
    assert_eq!(irr.get_iterations_run(), 0);

    let mut negative = Bisection::start(0.0, 8.0, 1.0, -8.0, -5, false, f64::NAN).ok().unwrap();
    let irr = negative.advance(reading(0.5, 2.0, false, false, false)).unwrap();
    assert!(!irr.is_valid());
    assert_eq!(irr.get_iterations_run(), 0);
    assert_eq!(irr.get_iteration_limit(), -5);
}
