//! A brute-force nearest-within-threshold vector search.
//!
//! A challenge consists of a set of query vectors, a database of candidate
//! vectors, and a distance threshold. The solver assigns to every query the
//! first database index whose vector lies within the threshold, or reports
//! that no complete assignment exists. Coordinates are fixed-point integers,
//! and all distance comparisons are made on exact squared distances, so the
//! threshold test is free of rounding.

pub mod challenge;
pub mod distance;
pub mod laws;
pub mod solver;
