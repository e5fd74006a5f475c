use time_value::future_value::from_pv_and_expected_rates as fv;

fn grow_f32(value: f32, rate: f32) -> f32 {
    value * (1.0 + rate)
}

fn grow_f64(value: f64, rate: f64) -> f64 {
    value * (1.0 + rate)
}

#[test]
fn it_works_with_no_rates() {
    let present_value: f64 = 10.0;
    let expected_rates: Vec<f64> = vec![];
    let future_value: f64 = fv(&present_value, &expected_rates, grow_f64);
    assert_eq!(future_value, present_value);
    assert_eq!(expected_rates.len(), 0);
}

#[test]
fn it_works_with_positive_rates() {
    let present_value: f32 = 10.0;
    let rates: Vec<f32> = vec![0.1, 0.1, 0.1, 0.1, 0.1, 0.1, 0.1];
    let expected_value: f32 = 19.48;
    let value: f32 = fv(&present_value, &rates, grow_f32);
    assert!((value - expected_value).abs() < 0.01);
}

#[test]
fn it_works_with_negative_rates() {
    let present_value: f32 = 10.0;
    let rates: Vec<f32> = vec![-0.02, -0.02, -0.02, -0.02, -20.0, -0.02, -0.02, -0.02];
    let expected_value: f32 = -164.94;
    let value: f32 = fv(&present_value, &rates, grow_f32);
    assert!((value - expected_value).abs() < 0.01);
}

#[test]
fn it_works_with_mixed_rates() {
    let present_value: f64 = 10.0;
    let rates: Vec<f64> = vec![0.02, 0.04, -0.20, 0.00, -0.08, 0.20, 0.03, -0.02];
    let expected_value: f64 = 9.46;
    let value: f64 = fv(&present_value, &rates, grow_f64);
    assert!((value - expected_value).abs() < 0.01);
}

#[test]
fn future_value_of_ten_at_one_two_three_is_exact() {
    let rates: Vec<f32> = vec![1.0, 2.0, 3.0];
    assert_eq!(fv(&10.0, &rates, grow_f32), 240.0);
}

#[test]
fn future_value_ignores_the_order_of_rates() {
    let rates: Vec<f64> = vec![1.0, 2.0, 3.0];
    let reversed: Vec<f64> = vec![3.0, 2.0, 1.0];
    assert_eq!(fv(&10.0, &rates, grow_f64), fv(&10.0, &reversed, grow_f64));
}

#[test]
fn future_value_applies_rates_in_period_order() {
    let digits: Vec<u64> = vec![1, 2, 3];
    assert_eq!(fv(&7, &digits, |value: u64, digit: u64| value * 10 + digit), 7123);
}
