use dist::distances::{damerau, hamming, levinshtein};

#[test]
fn ham_0() {
    assert_eq!(0, hamming("1".to_string(), "1".to_string()));
}
#[test]
fn ham_1() {
    assert_eq!(1, hamming("0".to_string(), "1".to_string()));
}
#[test]
fn ham_4() {
    assert_eq!(4, hamming("0000".to_string(), "1111".to_string()));
}
#[test]
fn lev_0() {
    assert_eq!(0, levinshtein("1".to_string(), "1".to_string()));
}
#[test]
fn lev_1_same_len() {
    assert_eq!(1, levinshtein("0".to_string(), "1".to_string()));
}
#[test]
fn lev_1_diff_len() {
    assert_eq!(1, levinshtein("0".to_string(), "01".to_string()));
}
#[test]
fn lev_4_diff_len() {
    assert_eq!(4, levinshtein("".to_string(), "1234".to_string()));
}
#[test]
fn dam_0() {
    assert_eq!(0, damerau("".to_string(), "".to_string()));
}
#[test]
fn dam_0_len_1() {
    assert_eq!(0, damerau("1".to_string(), "1".to_string()));
}
#[test]
fn dam_delete() {
    assert_eq!(2, damerau("192".to_string(), "1".to_string()));
}
#[test]
fn dam_insert() {
    assert_eq!(2, damerau("1".to_string(), "192".to_string()));
}
#[test]
fn dam_edit() {
    assert_eq!(1, damerau("122".to_string(), "192".to_string()));
}
#[test]
fn dam_transpose() {
    assert_eq!(1, damerau("129".to_string(), "192".to_string()));
}

#[test]
fn symmetry_concrete() {
    let pairs = [("kitten", "sitting"), ("abc", "ca"), ("192", "1"), ("", "xyz")];
    for (a, b) in pairs {
        assert_eq!(
            levinshtein(a.to_string(), b.to_string()),
            levinshtein(b.to_string(), a.to_string())
        );
        assert_eq!(
            damerau(a.to_string(), b.to_string()),
            damerau(b.to_string(), a.to_string())
        );
    }
    assert_eq!(
        hamming("abcd".to_string(), "badc".to_string()),
        hamming("badc".to_string(), "abcd".to_string())
    );
}

#[test]
fn identity_concrete() {
    for s in ["", "a", "kitten", "0101"] {
        assert_eq!(0, levinshtein(s.to_string(), s.to_string()));
        assert_eq!(0, damerau(s.to_string(), s.to_string()));
        assert_eq!(0, hamming(s.to_string(), s.to_string()));
    }
}

#[test]
fn empty_base_cases_concrete() {
    for s in ["a", "kitten", "0101"] {
        assert_eq!(s.len(), levinshtein("".to_string(), s.to_string()));
        assert_eq!(s.len(), levinshtein(s.to_string(), "".to_string()));
        assert_eq!(s.len(), damerau("".to_string(), s.to_string()));
        assert_eq!(s.len(), damerau(s.to_string(), "".to_string()));
    }
}

#[test]
fn lev_within_sum_of_lengths() {
    let pairs = [("kitten", "sitting"), ("abc", "xyzw"), ("", "q")];
    for (a, b) in pairs {
        assert!(levinshtein(a.to_string(), b.to_string()) <= a.len() + b.len());
    }
}

#[test]
fn dam_at_most_lev() {
    let pairs = [("129", "192"), ("abcd", "badc"), ("ca", "abc"), ("kitten", "sitting")];
    for (a, b) in pairs {
        assert!(
            damerau(a.to_string(), b.to_string()) <= levinshtein(a.to_string(), b.to_string())
        );
    }
}

#[test]
fn lev_kitten_sitting() {
    assert_eq!(3, levinshtein("kitten".to_string(), "sitting".to_string()));
}

#[test]
fn dam_swaps_count_once_each() {
    // Two independent adjacent swaps: two operations for Damerau, strictly
    // fewer than Levenshtein needs without transpositions.
    assert_eq!(2, damerau("abcd".to_string(), "badc".to_string()));
    assert_eq!(3, levinshtein("abcd".to_string(), "badc".to_string()));
}

#[test]
fn non_ascii_characters_count_as_one() {
    assert_eq!(1, levinshtein("héllo".to_string(), "hello".to_string()));
    assert_eq!(1, hamming("héllo".to_string(), "hello".to_string()));
    assert_eq!(1, damerau("éh".to_string(), "hé".to_string()));
}

#[test]
fn long_unrelated_strings_finish_quickly() {
    // Length-20 inputs with no common structure: feasible only because the
    // recurrences are evaluated through a dynamic-programming table.
    let a = "aaaaaaaaaaaaaaaaaaaa".to_string();
    let b = "bbbbbbbbbbbbbbbbbbbb".to_string();
    assert_eq!(20, levinshtein(a.clone(), b.clone()));
    assert_eq!(20, damerau(a.clone(), b.clone()));
    assert_eq!(20, hamming(a, b));
}
