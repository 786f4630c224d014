//! Metric selection and argument validation for a command-line front end:
//! everything the dispatcher decides, short of I/O.
use vstd::prelude::*;
use crate::distances::{damerau, hamming, levinshtein};
use crate::model::{dam, ham, lev};

verus! {

/// The metric selected on the command line.
#[derive(Clone, Copy, PartialEq, Eq, Structural, Debug)]
pub enum Metric {
    Hamming,
    Levenshtein,
    DamerauLevenshtein,
}

/// Why a request was rejected before any distance was computed.
#[derive(Clone, Copy, PartialEq, Eq, Structural, Debug)]
pub enum DistError {
    /// Wrong argument count, or unrecognized metric name.
    Usage,
    /// Hamming distance requested for strings of different lengths.
    LengthMismatch,
}

/// The usage line reported when the invocation is malformed.
pub open spec fn usage_message() -> Seq<char> {
    "usage: dist [ham|lev|dam] [string1] [string2]"@
}

/// The message reported when Hamming distance is requested for strings of
/// different lengths.
pub open spec fn length_mismatch_message() -> Seq<char> {
    "invalid arguments, must be same length for hamming"@
}

/// A usage error, as the dispatcher reports it.
pub fn usage() -> (r: Result<usize, &'static str>)
    ensures
        r matches Err(m) && m@ == usage_message(),
{
    Err("usage: dist [ham|lev|dam] [string1] [string2]")
}

impl DistError {
    /// The message a command-line front end prints for this error.
    pub fn message(&self) -> (r: &'static str)
        ensures
            *self == DistError::Usage ==> r@ == usage_message(),
            *self == DistError::LengthMismatch ==> r@ == length_mismatch_message(),
    {
        match self {
            DistError::Usage => "usage: dist [ham|lev|dam] [string1] [string2]",
            DistError::LengthMismatch => "invalid arguments, must be same length for hamming",
        }
    }
}

/// Which metric a command name selects, if any.
pub open spec fn spec_parse_metric(s: Seq<char>) -> Option<Metric> {
    if s == "ham"@ {
        Some(Metric::Hamming)
    } else if s == "lev"@ {
        Some(Metric::Levenshtein)
    } else if s == "dam"@ {
        Some(Metric::DamerauLevenshtein)
    } else {
        None
    }
}

/// Parses a command name into a metric selector.
pub fn parse_metric(cmd: &String) -> (r: Option<Metric>)
    ensures
        r == spec_parse_metric(cmd@),
{
    if *cmd == "ham".to_owned() {
        Some(Metric::Hamming)
    } else if *cmd == "lev".to_owned() {
        Some(Metric::Levenshtein)
    } else if *cmd == "dam".to_owned() {
        Some(Metric::DamerauLevenshtein)
    } else {
        None
    }
}

/// The label naming each metric in successful output.
pub fn metric_label(metric: Metric) -> (r: &'static str)
    ensures
        metric == Metric::Hamming ==> r@ == "Hamming"@,
        metric == Metric::Levenshtein ==> r@ == "Levenshtein"@,
        metric == Metric::DamerauLevenshtein ==> r@ == "Damerau"@,
{
    match metric {
        Metric::Hamming => "Hamming",
        Metric::Levenshtein => "Levenshtein",
        Metric::DamerauLevenshtein => "Damerau",
    }
}

/// The outcome owed for a metric and a pair of strings: Hamming demands
/// equal lengths and otherwise reports a length mismatch; the other two
/// metrics always succeed.
pub open spec fn spec_run_metric(metric: Metric, a: Seq<char>, b: Seq<char>) -> Result<
    nat,
    DistError,
> {
    match metric {
        Metric::Hamming => if a.len() == b.len() {
            Ok(ham(a, b))
        } else {
            Err(DistError::LengthMismatch)
        },
        Metric::Levenshtein => Ok(lev(a, b)),
        Metric::DamerauLevenshtein => Ok(dam(a, b)),
    }
}

/// Whether the machine-level result is exactly the specified outcome.
pub open spec fn result_is(r: Result<usize, DistError>, s: Result<nat, DistError>) -> bool {
    match (r, s) {
        (Ok(d), Ok(v)) => d == v,
        (Err(e), Err(f)) => e == f,
        _ => false,
    }
}

/// Runs the selected metric on the two strings.
pub fn run_metric(metric: Metric, s1: String, s2: String) -> (r: Result<usize, DistError>)
    ensures
        result_is(r, spec_run_metric(metric, s1@, s2@)),
{
    match metric {
        Metric::Hamming => {
            let n1 = s1.as_str().unicode_len();
            let n2 = s2.as_str().unicode_len();
            if n1 == n2 {
                Ok(hamming(s1, s2))
            } else {
                Err(DistError::LengthMismatch)
            }
        },
        Metric::Levenshtein => Ok(levinshtein(s1, s2)),
        Metric::DamerauLevenshtein => Ok(damerau(s1, s2)),
    }
}

/// The whole decision owed for an argument vector (program name first):
/// exactly four arguments, a known metric name, and then the outcome of
/// that metric on the last two arguments.
pub open spec fn spec_dispatch(args: Seq<Seq<char>>) -> Result<nat, DistError> {
    if args.len() != 4 {
        Err(DistError::Usage)
    } else {
        match spec_parse_metric(args[1]) {
            Some(m) => spec_run_metric(m, args[2], args[3]),
            None => Err(DistError::Usage),
        }
    }
}

/// Validates the argument vector (program name first), selects the metric,
/// and computes the distance. Everything a command-line front end decides,
/// short of reading the arguments and printing.
pub fn dispatch(args: &Vec<String>) -> (r: Result<usize, DistError>)
    ensures
        result_is(r, spec_dispatch(args@.map_values(|s: String| s@))),
{
    if args.len() != 4 {
        Err(DistError::Usage)
    } else {
        match parse_metric(&args[1]) {
            Some(m) => run_metric(m, args[2].clone(), args[3].clone()),
            None => Err(DistError::Usage),
        }
    }
}

} // verus!
