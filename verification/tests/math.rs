//! Tests of the batch helpers, with prices written as IEEE-754 bit patterns.

use chipa_ta::math::base::{mean, median, mode, most_frequent};

fn b(x: f64) -> u64 {
    x.to_bits()
}

fn f(x: u64) -> f64 {
    f64::from_bits(x)
}

#[test]
fn single_mode_round_up() {
    let prices = vec![b(100.2), b(100.46), b(100.53), b(101.08), b(101.19)];
    assert_eq!(Ok(101.0), mode(&prices).map(f));
}

#[test]
fn single_mode_round_down() {
    let prices = vec![b(100.2), b(100.46), b(100.35), b(101.08), b(101.19)];
    assert_eq!(Ok(100.0), mode(&prices).map(f));
}

#[test]
fn mode_rejects_empty_input() {
    let prices: Vec<u64> = Vec::new();
    assert!(mode(&prices).is_err());
}

#[test]
fn most_frequent_averages_ties_and_defaults_to_zero() {
    assert_eq!(f(most_frequent(vec![1, 2, 1, 2])), 1.5);
    assert_eq!(f(most_frequent(vec![7, 7, 3])), 7.0);
    assert_eq!(f(most_frequent(vec![-4, -4, 9])), -4.0);
    assert_eq!(f(most_frequent(Vec::new())), 0.0);
}

#[test]
fn mean_of_prices() {
    let prices = vec![b(2.0), b(4.0), b(6.0)];
    assert_eq!(Ok(4.0), mean(&prices).map(f));
    let empty: Vec<u64> = Vec::new();
    assert!(mean(&empty).is_err());
}

#[test]
fn median_odd_and_even_lengths() {
    let odd = vec![b(3.0), b(1.0), b(2.0)];
    assert_eq!(Ok(2.0), median(&odd).map(f));
    let even = vec![b(4.0), b(1.0), b(3.0), b(2.0)];
    assert_eq!(Ok(2.5), median(&even).map(f));
    let empty: Vec<u64> = Vec::new();
    assert!(median(&empty).is_err());
}

#[test]
fn median_rejects_nan_heavy_input() {
    // All entries are NaN, so the middle index has nothing to land on.
    let prices = vec![b(f64::NAN)];
    assert!(median(&prices).is_err());
}

#[test]
fn median_drops_nan_entries() {
    // The middle index is half the full length, taken in the NaN-free
    // ordering.
    let prices = vec![b(1.0), b(f64::NAN), b(3.0)];
    assert_eq!(Ok(3.0), median(&prices).map(f));
}
