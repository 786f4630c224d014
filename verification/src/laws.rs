//! General properties of the distance metrics, stated and proved over the
//! spec-level definitions in `model`.
use vstd::prelude::*;
use crate::model::{dam, ham, lev, max2};

verus! {

/// The Levenshtein distance never exceeds the length of the longer input:
/// substituting the overlapping positions and inserting or deleting the
/// rest always suffices.
pub proof fn lemma_lev_le_max(a: Seq<char>, b: Seq<char>)
    ensures
        lev(a, b) <= max2(a.len(), b.len()),
    decreases a.len() + b.len(),
{
    if a.len() == 0 {
    } else if b.len() == 0 {
    } else {
        lemma_lev_le_max(a.skip(1), b.skip(1));
    }
}

/// Damerau-Levenshtein never exceeds Levenshtein: every candidate of the
/// Levenshtein recurrence is also a candidate of the Damerau recurrence,
/// which can only add the transposition option.
pub proof fn lemma_dam_le_lev(a: Seq<char>, b: Seq<char>)
    ensures
        dam(a, b) <= lev(a, b),
    decreases a.len() + b.len(),
{
    if a.len() == 0 {
    } else if b.len() == 0 {
    } else if a[0] == b[0] {
        lemma_dam_le_lev(a.skip(1), b.skip(1));
    } else {
        lemma_dam_le_lev(a, b.skip(1));
        lemma_dam_le_lev(a.skip(1), b);
        lemma_dam_le_lev(a.skip(1), b.skip(1));
    }
}

/// The Levenshtein distance is at most the sum of the two lengths.
pub proof fn lemma_lev_le_sum(a: Seq<char>, b: Seq<char>)
    ensures
        lev(a, b) <= a.len() + b.len(),
{
    lemma_lev_le_max(a, b);
}

/// Hamming distance is symmetric on equal-length sequences.
pub proof fn lemma_ham_symmetric(a: Seq<char>, b: Seq<char>)
    requires
        a.len() == b.len(),
    ensures
        ham(a, b) == ham(b, a),
    decreases a.len(),
{
    if a.len() != 0 {
        lemma_ham_symmetric(a.skip(1), b.skip(1));
    }
}

/// Levenshtein distance is symmetric: every edit script from `a` to `b`
/// inverts into one from `b` to `a` of the same length.
pub proof fn lemma_lev_symmetric(a: Seq<char>, b: Seq<char>)
    ensures
        lev(a, b) == lev(b, a),
    decreases a.len() + b.len(),
{
    if a.len() == 0 || b.len() == 0 {
    } else if a[0] == b[0] {
        lemma_lev_symmetric(a.skip(1), b.skip(1));
    } else {
        lemma_lev_symmetric(a, b.skip(1));
        lemma_lev_symmetric(a.skip(1), b);
        lemma_lev_symmetric(a.skip(1), b.skip(1));
    }
}

/// Damerau-Levenshtein distance is symmetric; the transposition guard is
/// itself symmetric in the two sequences.
pub proof fn lemma_dam_symmetric(a: Seq<char>, b: Seq<char>)
    ensures
        dam(a, b) == dam(b, a),
    decreases a.len() + b.len(),
{
    if a.len() == 0 || b.len() == 0 {
    } else if a[0] == b[0] {
        lemma_dam_symmetric(a.skip(1), b.skip(1));
    } else {
        lemma_dam_symmetric(a, b.skip(1));
        lemma_dam_symmetric(a.skip(1), b);
        lemma_dam_symmetric(a.skip(1), b.skip(1));
        if a.len() >= 2 && b.len() >= 2 && a[0] == b[1] && a[1] == b[0] {
            lemma_dam_symmetric(a.skip(2), b.skip(2));
        }
    }
}

/// Every metric gives a string distance zero to itself.
pub proof fn lemma_self_distance_zero(a: Seq<char>)
    ensures
        ham(a, a) == 0,
        lev(a, a) == 0,
        dam(a, a) == 0,
    decreases a.len(),
{
    if a.len() != 0 {
        lemma_self_distance_zero(a.skip(1));
    }
}

/// The distance to or from the empty sequence is the other sequence's
/// length, for both Levenshtein and Damerau-Levenshtein.
pub proof fn lemma_empty_base_cases(s: Seq<char>)
    ensures
        lev(Seq::<char>::empty(), s) == s.len(),
        lev(s, Seq::<char>::empty()) == s.len(),
        dam(Seq::<char>::empty(), s) == s.len(),
        dam(s, Seq::<char>::empty()) == s.len(),
{
}

} // verus!
