//! Credits, held against the currency's own imbalances.
use dap_satellite::Credit;
use frame_support::traits::{fungible, Imbalance};
use parity_scale_codec::{Decode, Encode};

fn imbalance_u64(amount: u64) -> fungible::Imbalance<u64, (), ()> {
    Decode::decode(&mut amount.encode().as_slice()).unwrap()
}

fn imbalance_u128(amount: u128) -> fungible::Imbalance<u128, (), ()> {
    Decode::decode(&mut amount.encode().as_slice()).unwrap()
}

const RATIOS: [(u32, u32); 10] = [
    (0, 0),
    (0, 100),
    (100, 0),
    (50, 50),
    (1, 2),
    (33, 67),
    (250, 0),
    (u32::MAX, 0),
    (u32::MAX, u32::MAX),
    (7, u32::MAX),
];

#[test]
fn ration_is_that_of_the_currency_in_u64() {
    for amount in [0u64, 1, 2, 99, 100, 101, 1_000_003, u64::MAX / 100, u64::MAX - 1, u64::MAX] {
        for (first, second) in RATIOS {
            let (a, b) = Credit { amount }.ration(first, second);
            let (x, y) = imbalance_u64(amount).ration(first, second);
            assert_eq!((a.peek(), b.peek()), (x.peek(), y.peek()), "{amount} {first}:{second}");
        }
    }
}

#[test]
fn ration_is_that_of_the_currency_in_u128() {
    for amount in [0u128, 1, 99, 101, u64::MAX as u128 + 5, u128::MAX / 7, u128::MAX] {
        for (first, second) in RATIOS {
            let (a, b) = Credit { amount }.ration(first, second);
            let (x, y) = imbalance_u128(amount).ration(first, second);
            assert_eq!((a.peek(), b.peek()), (x.peek(), y.peek()), "{amount} {first}:{second}");
        }
    }
}

#[test]
fn split_and_merge_are_those_of_the_currency() {
    for amount in [0u64, 1, 5, 100, u64::MAX] {
        for other in [0u64, 1, 7, 100, u64::MAX] {
            let (a, b) = Credit { amount }.split(other);
            let (x, y) = imbalance_u64(amount).split(other);
            assert_eq!((a.peek(), b.peek()), (x.peek(), y.peek()));

            let mut merged = Credit { amount };
            Credit { amount: other }.merge_into(&mut merged);
            let mut expected = imbalance_u64(amount);
            imbalance_u64(other).merge_into(&mut expected);
            assert_eq!(merged.peek(), expected.peek());
        }
    }
}

#[test]
fn ration_gives_the_remainder_to_the_second_part() {
    let (first, second) = Credit { amount: 10u64 }.ration(1, 2);
    assert_eq!((first.peek(), second.peek()), (3, 7));
}

#[test]
fn ration_without_parts_is_empty() {
    let (first, second) = Credit { amount: 10u64 }.ration(0, 0);
    assert_eq!((first.peek(), second.peek()), (0, 0));
}

#[test]
fn ration_saturates() {
    let (first, second) = Credit { amount: u64::MAX }.ration(3, 1);
    assert_eq!((first.peek(), second.peek()), (u64::MAX / 4, u64::MAX - u64::MAX / 4));
}

#[test]
fn only_an_empty_credit_is_let_go_of() {
    assert!(Credit { amount: 0u128 }.try_drop().is_ok());
    assert_eq!(Credit { amount: 3u128 }.try_drop().unwrap_err().peek(), 3);
}
