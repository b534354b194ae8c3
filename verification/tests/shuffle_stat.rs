//! The digit shuffle: always a permutation, and visibly random.

use std::collections::HashMap;

use pin_keyboard::shuffled_digits;

#[test]
fn every_shuffle_is_a_permutation_of_the_ten_digits() {
    for _ in 0..1000 {
        let digits = shuffled_digits();
        assert_eq!(digits.len(), 10);
        let mut sorted = digits.clone();
        sorted.sort();
        let sorted: String = sorted.into_iter().collect();
        assert_eq!(sorted, "0123456789", "no repeats and no omissions");
    }
}

#[test]
fn shuffles_do_not_repeat_one_fixed_ordering() {
    let mut seen: HashMap<String, u32> = HashMap::new();
    for _ in 0..1000 {
        let ordering: String = shuffled_digits().into_iter().collect();
        *seen.entry(ordering).or_insert(0) += 1;
    }
    // With 10! possible orderings, even a handful of repeats of one
    // ordering in a thousand draws would be wildly out of line.
    let max = seen.values().copied().max().unwrap();
    assert!(max <= 10, "one ordering appeared {max} times in 1000 draws");
    assert!(seen.len() > 900, "only {} distinct orderings in 1000 draws", seen.len());
}
