//! The triads of the standard catalogue: two intervals, three tones.

use vstd::prelude::*;

use crate::chord::quality::ChordQuality;
use crate::interval::canonical::{intervals_of_sizes, is_named_size, CanonicalInterval};
use crate::pattern::Pattern;

verus! {

/// A triad, its intervals given by their widths in semitones.
fn triad(name: &str, first: u8, second: u8) -> (quality: ChordQuality)
    requires
        is_named_size(first as int),
        is_named_size(second as int),
    ensures
        quality@ == (Pattern {
            name: name@,
            steps: seq![
                CanonicalInterval::of_size(first as int),
                CanonicalInterval::of_size(second as int),
            ],
        }),
{
    let sizes: [u8; 2] = [first, second];
    assert(intervals_of_sizes(sizes@) =~= seq![
        CanonicalInterval::of_size(first as int),
        CanonicalInterval::of_size(second as int),
    ]);
    ChordQuality::from_intervals(name, sizes.as_slice())
}

/// What the major triad is: its name and its intervals.
pub open spec fn major_pattern() -> Pattern {
    Pattern {
        name: "Maj"@,
        steps: seq![
            CanonicalInterval::MajorThird,
            CanonicalInterval::MinorThird,
        ],
    }
}

/// The major triad.
pub fn major() -> (quality: ChordQuality)
    ensures
        quality@ == major_pattern(),
{
    triad("Maj", 4, 3)
}

/// What the minor triad is: its name and its intervals.
pub open spec fn minor_pattern() -> Pattern {
    Pattern {
        name: "Min"@,
        steps: seq![
            CanonicalInterval::MinorThird,
            CanonicalInterval::MajorThird,
        ],
    }
}

/// The minor triad.
pub fn minor() -> (quality: ChordQuality)
    ensures
        quality@ == minor_pattern(),
{
    triad("Min", 3, 4)
}

/// What the diminished triad is: its name and its intervals.
pub open spec fn diminished_pattern() -> Pattern {
    Pattern {
        name: "Dim"@,
        steps: seq![
            CanonicalInterval::MinorThird,
            CanonicalInterval::MinorThird,
        ],
    }
}

/// The diminished triad.
pub fn diminished() -> (quality: ChordQuality)
    ensures
        quality@ == diminished_pattern(),
{
    triad("Dim", 3, 3)
}

/// What the augmented triad is: its name and its intervals.
pub open spec fn augmented_pattern() -> Pattern {
    Pattern {
        name: "Aug"@,
        steps: seq![
            CanonicalInterval::MajorThird,
            CanonicalInterval::MajorThird,
        ],
    }
}

/// The augmented triad.
pub fn augmented() -> (quality: ChordQuality)
    ensures
        quality@ == augmented_pattern(),
{
    triad("Aug", 4, 4)
}

/// What the triad with a suspended second is: its name and its intervals.
pub open spec fn suspended_2_pattern() -> Pattern {
    Pattern {
        name: "Sus2"@,
        steps: seq![
            CanonicalInterval::MajorSecond,
            CanonicalInterval::PerfectFourth,
        ],
    }
}

/// The triad with a suspended second.
pub fn suspended_2() -> (quality: ChordQuality)
    ensures
        quality@ == suspended_2_pattern(),
{
    triad("Sus2", 2, 5)
}

/// What the Phrygian triad is: its name and its intervals.
pub open spec fn phrygian_pattern() -> Pattern {
    Pattern {
        name: "Phr"@,
        steps: seq![
            CanonicalInterval::MinorSecond,
            CanonicalInterval::Tritone,
        ],
    }
}

/// The Phrygian triad.
pub fn phrygian() -> (quality: ChordQuality)
    ensures
        quality@ == phrygian_pattern(),
{
    triad("Phr", 1, 6)
}

/// What the triad with a suspended fourth is: its name and its intervals.
pub open spec fn suspended_4_pattern() -> Pattern {
    Pattern {
        name: "Sus4"@,
        steps: seq![
            CanonicalInterval::PerfectFourth,
            CanonicalInterval::MajorSecond,
        ],
    }
}

/// The triad with a suspended fourth.
pub fn suspended_4() -> (quality: ChordQuality)
    ensures
        quality@ == suspended_4_pattern(),
{
    triad("Sus4", 5, 2)
}

/// What the Lydian triad is: its name and its intervals.
pub open spec fn lydian_pattern() -> Pattern {
    Pattern {
        name: "Lyd"@,
        steps: seq![
            CanonicalInterval::Tritone,
            CanonicalInterval::MinorSecond,
        ],
    }
}

/// The Lydian triad.
pub fn lydian() -> (quality: ChordQuality)
    ensures
        quality@ == lydian_pattern(),
{
    triad("Lyd", 6, 1)
}

} // verus!
