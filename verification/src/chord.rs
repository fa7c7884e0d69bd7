//! Chords.

pub mod quality;
