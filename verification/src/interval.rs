//! Intervals between pitches.

pub mod canonical;
