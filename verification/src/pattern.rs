//! What a chord quality and a scale have in common: a name and a sequence
//! of intervals.

use vstd::prelude::*;

use crate::interval::canonical::CanonicalInterval;

verus! {

/// A named sequence of intervals, as contracts speak of it.
pub struct Pattern {
    pub name: Seq<char>,
    pub steps: Seq<CanonicalInterval>,
}

} // verus!
