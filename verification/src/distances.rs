//! Executable distance functions, each proved to return exactly the value of
//! its spec-level definition in `model`.
use vstd::prelude::*;
use crate::laws::{lemma_dam_le_lev, lemma_lev_le_max};
use crate::model::{dam, ham, lev, min2};

verus! {

/// Minimum of two machine integers.
fn min_usize(x: usize, y: usize) -> (r: usize)
    ensures
        r == min2(x as nat, y as nat),
{
    if x <= y {
        x
    } else {
        y
    }
}

/// A vector of `m + 1` zeroes, used as the backing store of a table row
/// before its entries are computed.
fn zero_row(m: usize) -> (row: Vec<usize>)
    ensures
        row@.len() == m + 1,
{
    let mut row: Vec<usize> = Vec::new();
    let mut j: usize = 0;
    while j < m
        invariant
            j <= m,
            row@.len() == j as int,
        decreases m - j,
    {
        row.push(0);
        j = j + 1;
    }
    row.push(0);
    row
}

/// The last row of the suffix table: the distance from the empty sequence
/// to `b.skip(j)` is `m - j`, for both Levenshtein and Damerau-Levenshtein.
fn base_row(m: usize) -> (row: Vec<usize>)
    ensures
        row@.len() == m + 1,
        forall|j: int| 0 <= j <= m ==> row@[j] == m - j,
{
    let mut row: Vec<usize> = Vec::new();
    let mut j: usize = 0;
    while j < m
        invariant
            j <= m,
            row@.len() == j as int,
            forall|k: int| 0 <= k < j ==> row@[k] == m - k,
        decreases m - j,
    {
        row.push(m - j);
        j = j + 1;
    }
    row.push(0);
    row
}

/// Collects the characters of a string slice into a vector, so that the
/// distance computations can index characters in constant time.
fn chars_of(s: &str) -> (v: Vec<char>)
    ensures
        v@ == s@,
{
    let n: usize = s.unicode_len();
    let mut v: Vec<char> = Vec::new();
    let mut i: usize = 0;
    while i < n
        invariant
            i <= n,
            n == s@.len(),
            v@ == s@.take(i as int),
        decreases n - i,
    {
        let c = s.get_char(i);
        v.push(c);
        i = i + 1;
        proof {
            assert(s@.take(i as int) =~= s@.take(i as int - 1).push(s@[i as int - 1]));
        }
    }
    proof {
        assert(s@.take(n as int) =~= s@);
    }
    v
}

/// Hamming distance between two equal-length strings: the number of
/// positions at which they differ.
pub fn hamming(s1: String, s2: String) -> (r: usize)
    requires
        s1@.len() == s2@.len(),
    ensures
        r == ham(s1@, s2@),
{
    let a = chars_of(s1.as_str());
    let b = chars_of(s2.as_str());
    let n = a.len();
    let mut count: usize = 0;
    let mut i: usize = 0;
    proof {
        assert(a@.skip(0) =~= a@);
        assert(b@.skip(0) =~= b@);
    }
    while i < n
        invariant
            i <= n,
            n == a@.len(),
            a@.len() == b@.len(),
            count <= i,
            count + ham(a@.skip(i as int), b@.skip(i as int)) == ham(a@, b@),
        decreases n - i,
    {
        proof {
            assert(a@.skip(i as int)[0] == a@[i as int]);
            assert(b@.skip(i as int)[0] == b@[i as int]);
            assert(a@.skip(i as int).skip(1) =~= a@.skip(i as int + 1));
            assert(b@.skip(i as int).skip(1) =~= b@.skip(i as int + 1));
        }
        if a[i] != b[i] {
            count = count + 1;
        }
        i = i + 1;
    }
    proof {
        assert(a@.skip(n as int).len() == 0);
    }
    count
}

/// Given row `i + 1` of the Levenshtein suffix table, computes row `i`:
/// entry `j` is the distance between `a.skip(i)` and `b.skip(j)`.
fn lev_next_row(a: &Vec<char>, b: &Vec<char>, i: usize, prev: &Vec<usize>) -> (row: Vec<usize>)
    requires
        i < a@.len(),
        prev@.len() == b@.len() + 1,
        forall|j: int| 0 <= j <= b@.len() ==> prev@[j] == lev(a@.skip(i as int + 1), b@.skip(j)),
    ensures
        row@.len() == b@.len() + 1,
        forall|j: int| 0 <= j <= b@.len() ==> row@[j] == lev(a@.skip(i as int), b@.skip(j)),
{
    let n = a.len();
    let m = b.len();
    let mut row: Vec<usize> = zero_row(m);
    row.set(m, n - i);
    proof {
        assert(b@.skip(m as int).len() == 0);
        assert(a@.skip(i as int).len() == n - i);
    }
    let mut j: usize = m;
    while j > 0
        invariant
            j <= m,
            i < n,
            n == a@.len(),
            m == b@.len(),
            prev@.len() == m + 1,
            forall|k: int| 0 <= k <= m ==> prev@[k] == lev(a@.skip(i as int + 1), b@.skip(k)),
            row@.len() == m + 1,
            forall|k: int| j <= k <= m ==> row@[k] == lev(a@.skip(i as int), b@.skip(k)),
        decreases j,
    {
        j = j - 1;
        let ghost ai = i as int;
        let ghost aj = j as int;
        proof {
            assert(a@.skip(ai)[0] == a@[ai]);
            assert(b@.skip(aj)[0] == b@[aj]);
            assert(a@.skip(ai).skip(1) =~= a@.skip(ai + 1));
            assert(b@.skip(aj).skip(1) =~= b@.skip(aj + 1));
            assert(a@.skip(ai).len() == n - i);
            assert(b@.skip(aj).len() == m - j);
        }
        let v: usize;
        if a[i] == b[j] {
            v = prev[j + 1];
        } else {
            let ins = row[j + 1];
            let del = prev[j];
            let edit = prev[j + 1];
            proof {
                lemma_lev_le_max(a@.skip(ai + 1), b@.skip(aj + 1));
            }
            let mn = min_usize(ins, min_usize(del, edit));
            v = 1 + mn;
        }
        row.set(j, v);
    }
    row
}

/// Levenshtein distance between two strings: the minimum number of
/// single-character insertions, deletions and substitutions transforming
/// one into the other. The recurrence is evaluated with a two-row
/// dynamic-programming table over suffixes, so the running time is
/// proportional to the product of the lengths.
pub fn levinshtein(s1: String, s2: String) -> (r: usize)
    ensures
        r == lev(s1@, s2@),
{
    let a = chars_of(s1.as_str());
    let b = chars_of(s2.as_str());
    let n = a.len();
    let m = b.len();
    let mut prev = base_row(m);
    proof {
        assert(a@.skip(n as int).len() == 0);
        assert forall|j: int| 0 <= j <= m implies prev@[j] == lev(a@.skip(n as int), b@.skip(j)) by {
            assert(b@.skip(j).len() == m - j);
        }
    }
    let mut i: usize = n;
    while i > 0
        invariant
            i <= n,
            n == a@.len(),
            m == b@.len(),
            prev@.len() == m + 1,
            forall|j: int| 0 <= j <= m ==> prev@[j] == lev(a@.skip(i as int), b@.skip(j)),
        decreases i,
    {
        i = i - 1;
        let row = lev_next_row(&a, &b, i, &prev);
        prev = row;
    }
    proof {
        assert(a@.skip(0) =~= a@);
        assert(b@.skip(0) =~= b@);
    }
    prev[0]
}

/// Given rows `i + 1` and (when `i + 2` is still a row) `i + 2` of the
/// Damerau-Levenshtein suffix table, computes row `i`: entry `j` is the
/// distance between `a.skip(i)` and `b.skip(j)`.
fn dam_next_row(
    a: &Vec<char>,
    b: &Vec<char>,
    i: usize,
    prev: &Vec<usize>,
    prev2: &Vec<usize>,
) -> (row: Vec<usize>)
    requires
        i < a@.len(),
        prev@.len() == b@.len() + 1,
        forall|j: int| 0 <= j <= b@.len() ==> prev@[j] == dam(a@.skip(i as int + 1), b@.skip(j)),
        i + 2 <= a@.len() ==> prev2@.len() == b@.len() + 1,
        i + 2 <= a@.len() ==> forall|j: int|
            0 <= j <= b@.len() ==> prev2@[j] == dam(a@.skip(i as int + 2), b@.skip(j)),
    ensures
        row@.len() == b@.len() + 1,
        forall|j: int| 0 <= j <= b@.len() ==> row@[j] == dam(a@.skip(i as int), b@.skip(j)),
{
    let n = a.len();
    let m = b.len();
    let mut row: Vec<usize> = zero_row(m);
    row.set(m, n - i);
    proof {
        assert(b@.skip(m as int).len() == 0);
        assert(a@.skip(i as int).len() == n - i);
    }
    let mut j: usize = m;
    while j > 0
        invariant
            j <= m,
            i < n,
            n == a@.len(),
            m == b@.len(),
            prev@.len() == m + 1,
            forall|k: int| 0 <= k <= m ==> prev@[k] == dam(a@.skip(i as int + 1), b@.skip(k)),
            i + 2 <= n ==> prev2@.len() == m + 1,
            i + 2 <= n ==> forall|k: int|
                0 <= k <= m ==> prev2@[k] == dam(a@.skip(i as int + 2), b@.skip(k)),
            row@.len() == m + 1,
            forall|k: int| j <= k <= m ==> row@[k] == dam(a@.skip(i as int), b@.skip(k)),
        decreases j,
    {
        j = j - 1;
        let ghost ai = i as int;
        let ghost aj = j as int;
        proof {
            assert(a@.skip(ai)[0] == a@[ai]);
            assert(b@.skip(aj)[0] == b@[aj]);
            assert(a@.skip(ai).skip(1) =~= a@.skip(ai + 1));
            assert(b@.skip(aj).skip(1) =~= b@.skip(aj + 1));
            assert(a@.skip(ai).len() == n - i);
            assert(b@.skip(aj).len() == m - j);
            if n - i >= 2 {
                assert(a@.skip(ai)[1] == a@[ai + 1]);
            }
            if m - j >= 2 {
                assert(b@.skip(aj)[1] == b@[aj + 1]);
            }
        }
        let v: usize;
        if a[i] == b[j] {
            v = prev[j + 1];
        } else {
            let ins = row[j + 1];
            let del = prev[j];
            let edit = prev[j + 1];
            proof {
                lemma_dam_le_lev(a@.skip(ai + 1), b@.skip(aj + 1));
                lemma_lev_le_max(a@.skip(ai + 1), b@.skip(aj + 1));
            }
            let mn = min_usize(ins, min_usize(del, edit));
            if n - i >= 2 && m - j >= 2 && a[i] == b[j + 1] && a[i + 1] == b[j] {
                let trans = prev2[j + 2];
                proof {
                    assert(a@.skip(ai).skip(2) =~= a@.skip(ai + 2));
                    assert(b@.skip(aj).skip(2) =~= b@.skip(aj + 2));
                }
                v = 1 + min_usize(mn, trans);
            } else {
                v = 1 + mn;
            }
        }
        row.set(j, v);
    }
    row
}

/// Restricted Damerau-Levenshtein distance between two strings: as
/// Levenshtein, except that swapping two adjacent characters counts as a
/// single operation. Computed with a three-row dynamic-programming table
/// over suffixes, so the running time is proportional to the product of
/// the lengths.
pub fn damerau(s1: String, s2: String) -> (r: usize)
    ensures
        r == dam(s1@, s2@),
{
    let a = chars_of(s1.as_str());
    let b = chars_of(s2.as_str());
    let n = a.len();
    let m = b.len();
    let mut prev = base_row(m);
    let mut prev2: Vec<usize> = Vec::new();
    proof {
        assert(a@.skip(n as int).len() == 0);
        assert forall|j: int| 0 <= j <= m implies prev@[j] == dam(a@.skip(n as int), b@.skip(j)) by {
            assert(b@.skip(j).len() == m - j);
        }
    }
    let mut i: usize = n;
    while i > 0
        invariant
            i <= n,
            n == a@.len(),
            m == b@.len(),
            prev@.len() == m + 1,
            forall|j: int| 0 <= j <= m ==> prev@[j] == dam(a@.skip(i as int), b@.skip(j)),
            i + 1 <= n ==> prev2@.len() == m + 1,
            i + 1 <= n ==> forall|j: int|
                0 <= j <= m ==> prev2@[j] == dam(a@.skip(i as int + 1), b@.skip(j)),
        decreases i,
    {
        i = i - 1;
        let row = dam_next_row(&a, &b, i, &prev, &prev2);
        prev2 = prev;
        prev = row;
    }
    proof {
        assert(a@.skip(0) =~= a@);
        assert(b@.skip(0) =~= b@);
    }
    prev[0]
}

} // verus!
