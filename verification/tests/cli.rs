use dist::cli::{dispatch, metric_label, parse_metric, run_metric, usage, DistError, Metric};

const USAGE: &str = "usage: dist [ham|lev|dam] [string1] [string2]";
const MISMATCH: &str = "invalid arguments, must be same length for hamming";

fn argv(items: &[&str]) -> Vec<String> {
    items.iter().map(|s| s.to_string()).collect()
}

#[test]
fn usage_returns_the_usage_line() {
    assert_eq!(Err(USAGE), usage());
}

#[test]
fn error_messages() {
    assert_eq!(USAGE, DistError::Usage.message());
    assert_eq!(MISMATCH, DistError::LengthMismatch.message());
}

#[test]
fn parse_known_metrics() {
    assert_eq!(Some(Metric::Hamming), parse_metric(&"ham".to_string()));
    assert_eq!(Some(Metric::Levenshtein), parse_metric(&"lev".to_string()));
    assert_eq!(Some(Metric::DamerauLevenshtein), parse_metric(&"dam".to_string()));
}

#[test]
fn parse_unknown_metric() {
    assert_eq!(None, parse_metric(&"cosine".to_string()));
    assert_eq!(None, parse_metric(&"".to_string()));
    assert_eq!(None, parse_metric(&"HAM".to_string()));
}

#[test]
fn labels() {
    assert_eq!("Hamming", metric_label(Metric::Hamming));
    assert_eq!("Levenshtein", metric_label(Metric::Levenshtein));
    assert_eq!("Damerau", metric_label(Metric::DamerauLevenshtein));
}

#[test]
fn run_metric_success() {
    assert_eq!(Ok(4), run_metric(Metric::Hamming, "0000".to_string(), "1111".to_string()));
    assert_eq!(Ok(1), run_metric(Metric::Levenshtein, "0".to_string(), "01".to_string()));
    assert_eq!(
        Ok(1),
        run_metric(Metric::DamerauLevenshtein, "129".to_string(), "192".to_string())
    );
}

#[test]
fn run_metric_hamming_length_mismatch() {
    assert_eq!(
        Err(DistError::LengthMismatch),
        run_metric(Metric::Hamming, "12".to_string(), "1".to_string())
    );
}

#[test]
fn dispatch_success() {
    assert_eq!(Ok(1), dispatch(&argv(&["dist", "lev", "0", "1"])));
    assert_eq!(Ok(0), dispatch(&argv(&["dist", "ham", "1", "1"])));
    assert_eq!(Ok(2), dispatch(&argv(&["dist", "dam", "192", "1"])));
}

#[test]
fn dispatch_wrong_argument_count() {
    assert_eq!(Err(DistError::Usage), dispatch(&argv(&["dist"])));
    assert_eq!(Err(DistError::Usage), dispatch(&argv(&["dist", "lev", "a"])));
    assert_eq!(Err(DistError::Usage), dispatch(&argv(&["dist", "lev", "a", "b", "c"])));
}

#[test]
fn dispatch_unknown_metric() {
    assert_eq!(Err(DistError::Usage), dispatch(&argv(&["dist", "jaro", "a", "b"])));
}

#[test]
fn dispatch_hamming_length_mismatch() {
    assert_eq!(
        Err(DistError::LengthMismatch),
        dispatch(&argv(&["dist", "ham", "ab", "a"]))
    );
}
