//! Distance metrics between strings: Hamming, Levenshtein, and restricted
//! Damerau-Levenshtein (adjacent transpositions only).
//!
//! `model` holds the mathematical definitions as spec functions, `distances`
//! the executable implementations proved against them, `laws` general
//! properties of the metrics, and `cli` the metric selection and validation
//! used by a command-line front end.
pub mod cli;
pub mod distances;
pub mod laws;
pub mod model;
