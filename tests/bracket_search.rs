use time_value::bracket_search::BoundsSearch;

#[test]
fn search_accepts_a_guess_within_precision() {
    let bounds = BoundsSearch::accept_guess(0.150984, 0.0004, 0, true).unwrap();
    assert!(bounds.is_valid());
    assert_eq!(bounds.get_rate_low(), 0.150984);
    assert_eq!(bounds.get_rate_high(), 0.150984);
    assert_eq!(bounds.get_npv_rate_low(), 0.0004);
    assert_eq!(bounds.get_npv_rate_high(), 0.0004);
    assert_eq!(bounds.get_iterations_run(), 0);
    assert_eq!(bounds.get_iteration_limit(), 0);
}

#[test]
fn search_goes_on_from_a_guess_outside_precision() {
    assert!(BoundsSearch::accept_guess(0.10, 22.89, 100, false).is_none());
}

#[test]
fn search_settles_on_a_straddling_bracket() {
    let search = BoundsSearch::open(0.1, 3.0, 0.2, -1.0, 100, false);
    let bounds = search.decide(true).unwrap();
    assert!(bounds.is_valid());
    assert_eq!(bounds.get_rate_low(), 0.1);
    assert_eq!(bounds.get_npv_rate_low(), 3.0);
    assert_eq!(bounds.get_rate_high(), 0.2);
    assert_eq!(bounds.get_npv_rate_high(), -1.0);
    assert_eq!(bounds.get_iterations_run(), 0);
}

#[test]
fn search_with_no_budget_is_never_valid() {
    let search = BoundsSearch::open(0.1, 3.0, 0.2, -1.0, 0, true);
    let bounds = search.decide(true).unwrap();
    assert!(!bounds.is_valid());
    assert_eq!(bounds.get_iterations_run(), 0);
    assert!(!search.decide(false).unwrap().is_valid());
}

#[test]
fn search_moves_toward_low_rates() {
    let mut search = BoundsSearch::open(10, 5, 20, 7, 3, true);
    assert!(search.toward_low());
    assert!(search.decide(false).is_none());
    search.widen(-10, 2, 5);
    assert_eq!(search.rate_low(), -10);
    assert_eq!(search.npv_rate_low(), 2);
    assert_eq!(search.rate_high(), 10);
    assert_eq!(search.npv_rate_high(), 5);
    assert!(search.decide(false).is_none());
    search.widen(-50, -1, 2);
    let bounds = search.decide(true).unwrap();
    assert!(bounds.is_valid());
    assert_eq!(bounds.get_rate_low(), -50);
    assert_eq!(bounds.get_rate_high(), -10);
    assert_eq!(bounds.get_iterations_run(), 2);
}

#[test]
fn search_moves_toward_high_rates() {
    let mut search = BoundsSearch::open(10, 7, 20, 5, 3, false);
    assert!(!search.toward_low());
    search.widen(40, 3, 5);
    assert_eq!(search.rate_low(), 20);
    assert_eq!(search.npv_rate_low(), 5);
    assert_eq!(search.rate_high(), 40);
    assert_eq!(search.npv_rate_high(), 3);
}

#[test]
fn search_ends_invalid_when_the_budget_is_spent() {
    let mut search = BoundsSearch::open(10, 7, 20, 5, 2, false);
    assert!(search.decide(false).is_none());
    search.widen(40, 3, 5);
    assert!(search.decide(false).is_none());
    search.widen(80, 1, 3);
    let bounds = search.decide(true).unwrap();
    assert!(!bounds.is_valid());
    assert_eq!(bounds.get_iterations_run(), 2);
    assert_eq!(bounds.get_iteration_limit(), 2);
    assert_eq!(bounds.get_rate_low(), 40);
    assert_eq!(bounds.get_rate_high(), 80);
}
