//! Mathematical definitions of the three distance metrics, as recursive
//! spec functions over character sequences.
use vstd::prelude::*;

verus! {

/// Minimum of two naturals.
pub open spec fn min2(x: nat, y: nat) -> nat {
    if x <= y {
        x
    } else {
        y
    }
}

/// Maximum of two naturals.
pub open spec fn max2(x: nat, y: nat) -> nat {
    if x >= y {
        x
    } else {
        y
    }
}

/// Minimum of three naturals.
pub open spec fn min3(x: nat, y: nat, z: nat) -> nat {
    min2(x, min2(y, z))
}

/// Hamming distance: the number of positions at which two equal-length
/// sequences differ.
pub open spec fn ham(a: Seq<char>, b: Seq<char>) -> nat
    recommends
        a.len() == b.len(),
    decreases a.len(),
{
    if a.len() == 0 {
        0
    } else {
        (if a[0] == b[0] {
            0nat
        } else {
            1nat
        }) + ham(a.skip(1), b.skip(1))
    }
}

/// Levenshtein distance: the minimum number of single-character insertions,
/// deletions and substitutions that transform `a` into `b`, defined by the
/// standard recurrence over suffixes.
pub open spec fn lev(a: Seq<char>, b: Seq<char>) -> nat
    decreases a.len() + b.len(),
{
    if a.len() == 0 {
        b.len()
    } else if b.len() == 0 {
        a.len()
    } else if a[0] == b[0] {
        lev(a.skip(1), b.skip(1))
    } else {
        (1 + min3(lev(a, b.skip(1)), lev(a.skip(1), b), lev(a.skip(1), b.skip(1)))) as nat
    }
}

/// Restricted Damerau-Levenshtein distance: as Levenshtein, except that a
/// transposition of two adjacent characters counts as one operation. The
/// transposition branch applies only when both suffixes start with the same
/// two characters in swapped order; no arbitrary transposition history is
/// tracked.
pub open spec fn dam(a: Seq<char>, b: Seq<char>) -> nat
    decreases a.len() + b.len(),
{
    if a.len() == 0 {
        b.len()
    } else if b.len() == 0 {
        a.len()
    } else if a[0] == b[0] {
        dam(a.skip(1), b.skip(1))
    } else {
        let ins = dam(a, b.skip(1));
        let del = dam(a.skip(1), b);
        let edit = dam(a.skip(1), b.skip(1));
        if a.len() >= 2 && b.len() >= 2 && a[0] == b[1] && a[1] == b[0] {
            (1 + min2(min3(ins, del, edit), dam(a.skip(2), b.skip(2)))) as nat
        } else {
            (1 + min3(ins, del, edit)) as nat
        }
    }
}

} // verus!
