//! The one-time randomized placement of the digits `0` to `9` onto the
//! keypad grid.
//!
//! A fresh permutation is drawn once per keypad instance, so the visual
//! layout is stable for a session but unpredictable across sessions.
//! The permutation is produced by an in-place Fisher-Yates shuffle over
//! the ten digit labels, with each index drawn from the random source.

use vstd::prelude::*;
use vstd::seq_lib::group_to_multiset_ensures;
use vstd::multiset::group_multiset_axioms;

verus! {

/// The ten digit labels in their canonical order.
pub open spec fn digit_labels() -> Seq<char> {
    seq!['0', '1', '2', '3', '4', '5', '6', '7', '8', '9']
}

/// Relies on `rand::Rng::gen_range` over `rand::thread_rng()`: a
/// uniformly random value in `[0, bound)` from the process-wide
/// cryptographically secure generator. `gen_range` panics on an empty
/// range, so the bound must be positive.
#[verifier::external_body]
fn random_below(bound: usize) -> (r: usize)
    requires
        0 < bound,
    ensures
        r < bound,
{
    rand::Rng::gen_range(&mut rand::thread_rng(), 0..bound)
}

/// Draws a fresh permutation of the ten digit labels: same characters,
/// same count each, in a random order.
pub fn shuffled_digits() -> (r: Vec<char>)
    ensures
        r@.to_multiset() == digit_labels().to_multiset(),
        r@.len() == 10,
{
    broadcast use group_to_multiset_ensures;

    let mut digits: Vec<char> = vec!['0', '1', '2', '3', '4', '5', '6', '7', '8', '9'];
    proof {
        assert(digits@ =~= digit_labels());
    }
    let mut i: usize = digits.len();
    while i > 1
        invariant
            digits@.len() == 10,
            1 <= i <= 10,
            digits@.to_multiset() == digit_labels().to_multiset(),
        decreases i,
    {
        let j = random_below(i);
        i = i - 1;
        let ghost before = digits@;
        let a = digits[i];
        let b = digits[j];
        digits[i] = b;
        digits[j] = a;
        proof {
            broadcast use group_to_multiset_ensures;
            broadcast use group_multiset_axioms;

            assert(digits@ == before.update(i as int, b).update(j as int, a));
            assert(before.update(i as int, b)[j as int] == b || i == j);
            assert(digits@.to_multiset() =~= before.to_multiset());
        }
    }
    digits
}

/// A sequence whose multiset of elements matches the digit labels' is a
/// true permutation of them: ten entries, no repeats, and every digit
/// present.
pub proof fn lemma_digit_permutation(s: Seq<char>)
    requires
        s.to_multiset() == digit_labels().to_multiset(),
    ensures
        s.len() == 10,
        s.no_duplicates(),
        forall|d: char| digit_labels().contains(d) ==> s.contains(d),
        forall|d: char| s.contains(d) ==> digit_labels().contains(d),
{
    broadcast use group_to_multiset_ensures;
    broadcast use group_multiset_axioms;

    digit_labels().lemma_multiset_has_no_duplicates();
    s.lemma_multiset_has_no_duplicates_conv();
    assert(digit_labels().no_duplicates());
    assert(s.len() == s.to_multiset().len());
    assert(digit_labels().len() == digit_labels().to_multiset().len());
    assert forall|d: char| digit_labels().contains(d) implies s.contains(d) by {
        assert(digit_labels().to_multiset().count(d) > 0);
    }
    assert forall|d: char| s.contains(d) implies digit_labels().contains(d) by {
        assert(s.to_multiset().count(d) > 0);
    }
}

} // verus!
