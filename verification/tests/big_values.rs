//! Classification of arbitrary-precision values beyond the native word
//! size, and its independence from the sign.

use parity_map::{BigValue, CombinedError, Parity, ParityMap};

fn big(negative: bool, digits: Vec<u32>) -> BigValue {
    BigValue { negative, digits }
}

#[test]
fn two_to_the_128_is_even() {
    // Base 2^32 digits, least significant first: 2^128 = [0, 0, 0, 0, 1].
    let v = big(false, vec![0, 0, 0, 0, 1]);
    assert_eq!(v.classify(), Parity::Even);
}

#[test]
fn two_to_the_128_plus_one_is_odd() {
    let v = big(false, vec![1, 0, 0, 0, 1]);
    assert_eq!(v.classify(), Parity::Odd);
}

#[test]
fn big_zero_is_even_with_and_without_digits() {
    assert_eq!(big(false, vec![]).classify(), Parity::Even);
    assert_eq!(big(false, vec![0, 0, 0]).classify(), Parity::Even);
}

#[test]
fn big_small_values_match_the_machine_classification() {
    assert_eq!(big(false, vec![3]).classify(), 3i64.classify());
    assert_eq!(big(false, vec![4]).classify(), 4i64.classify());
}

#[test]
fn big_classification_ignores_the_sign() {
    let negative = big(true, vec![1, 0, 0, 0, 1]);
    let positive = big(false, vec![1, 0, 0, 0, 1]);
    assert_eq!(negative.classify(), positive.classify());
    assert_eq!(big(true, vec![3]).classify(), Parity::Odd);
    assert_eq!(big(true, vec![4]).classify(), Parity::Even);
}

#[test]
fn big_parity_depends_on_the_lowest_digit_alone() {
    // An odd high digit must not make the value odd.
    let v = big(false, vec![2, 7, 9]);
    assert_eq!(v.classify(), Parity::Even);
    let w = big(false, vec![5, 8, 4]);
    assert_eq!(w.classify(), Parity::Odd);
}

#[test]
fn big_values_map_by_parity() {
    let even = big(false, vec![0, 0, 0, 0, 1]);
    let r = even.map(|v| BigValue { negative: true, ..v }, |v| v);
    assert_eq!(r, big(false, vec![0, 0, 0, 0, 1]));

    let odd = big(false, vec![1, 0, 0, 0, 1]);
    let r = odd.map(|v| BigValue { negative: true, ..v }, |v| v);
    assert_eq!(r, big(true, vec![1, 0, 0, 0, 1]));
}

#[test]
fn big_values_take_the_fallible_paths_too() {
    let odd = big(false, vec![5]);
    let r: Result<BigValue, CombinedError<String, String>> = odd.parity_map(
        |v| Ok(v),
        |_| Err(String::from("odd failure")),
    );
    assert_eq!(
        r,
        Err(CombinedError::OddBranchFailed(String::from("odd failure")))
    );
}
