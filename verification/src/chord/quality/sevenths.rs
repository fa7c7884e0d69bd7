//! The seventh chords of the standard catalogue: three intervals, four tones.

use vstd::prelude::*;

use crate::chord::quality::ChordQuality;
use crate::interval::canonical::{intervals_of_sizes, is_named_size, CanonicalInterval};
use crate::pattern::Pattern;

verus! {

/// A seventh chord, its intervals given by their widths in semitones.
fn seventh(name: &str, first: u8, second: u8, third: u8) -> (quality: ChordQuality)
    requires
        is_named_size(first as int),
        is_named_size(second as int),
        is_named_size(third as int),
    ensures
        quality@ == (Pattern {
            name: name@,
            steps: seq![
                CanonicalInterval::of_size(first as int),
                CanonicalInterval::of_size(second as int),
                CanonicalInterval::of_size(third as int),
            ],
        }),
{
    let sizes: [u8; 3] = [first, second, third];
    assert(intervals_of_sizes(sizes@) =~= seq![
        CanonicalInterval::of_size(first as int),
        CanonicalInterval::of_size(second as int),
        CanonicalInterval::of_size(third as int),
    ]);
    ChordQuality::from_intervals(name, sizes.as_slice())
}

/// What the dominant seventh chord is: its name and its intervals.
pub open spec fn dominant_pattern() -> Pattern {
    Pattern {
        name: "Dom7"@,
        steps: seq![
            CanonicalInterval::MajorThird,
            CanonicalInterval::MinorThird,
            CanonicalInterval::MinorThird,
        ],
    }
}

/// The dominant seventh chord.
pub fn dominant() -> (quality: ChordQuality)
    ensures
        quality@ == dominant_pattern(),
{
    seventh("Dom7", 4, 3, 3)
}

/// What the major seventh chord is: its name and its intervals.
pub open spec fn major_pattern() -> Pattern {
    Pattern {
        name: "Maj7"@,
        steps: seq![
            CanonicalInterval::MajorThird,
            CanonicalInterval::MinorThird,
            CanonicalInterval::MajorThird,
        ],
    }
}

/// The major seventh chord.
pub fn major() -> (quality: ChordQuality)
    ensures
        quality@ == major_pattern(),
{
    seventh("Maj7", 4, 3, 4)
}

/// What the minor seventh chord is: its name and its intervals.
pub open spec fn minor_pattern() -> Pattern {
    Pattern {
        name: "Min7"@,
        steps: seq![
            CanonicalInterval::MinorThird,
            CanonicalInterval::MajorThird,
            CanonicalInterval::MinorThird,
        ],
    }
}

/// The minor seventh chord.
pub fn minor() -> (quality: ChordQuality)
    ensures
        quality@ == minor_pattern(),
{
    seventh("Min7", 3, 4, 3)
}

/// What the diminished seventh chord is: its name and its intervals.
pub open spec fn diminished_pattern() -> Pattern {
    Pattern {
        name: "Dim7"@,
        steps: seq![
            CanonicalInterval::MinorThird,
            CanonicalInterval::MinorThird,
            CanonicalInterval::MinorThird,
        ],
    }
}

/// The diminished seventh chord.
pub fn diminished() -> (quality: ChordQuality)
    ensures
        quality@ == diminished_pattern(),
{
    seventh("Dim7", 3, 3, 3)
}

/// What the half-diminished seventh chord is: its name and its intervals.
pub open spec fn half_diminished_pattern() -> Pattern {
    Pattern {
        name: "Min7(b5)"@,
        steps: seq![
            CanonicalInterval::MinorThird,
            CanonicalInterval::MinorThird,
            CanonicalInterval::MajorThird,
        ],
    }
}

/// The half-diminished seventh chord.
pub fn half_diminished() -> (quality: ChordQuality)
    ensures
        quality@ == half_diminished_pattern(),
{
    seventh("Min7(b5)", 3, 3, 4)
}

/// What the dominant seventh chord with an augmented fifth is: its name and its intervals.
pub open spec fn augmented_dominant_pattern() -> Pattern {
    Pattern {
        name: "Dom7(#5)"@,
        steps: seq![
            CanonicalInterval::MajorThird,
            CanonicalInterval::MajorThird,
            CanonicalInterval::MajorSecond,
        ],
    }
}

/// The dominant seventh chord with an augmented fifth.
pub fn augmented_dominant() -> (quality: ChordQuality)
    ensures
        quality@ == augmented_dominant_pattern(),
{
    seventh("Dom7(#5)", 4, 4, 2)
}

/// What the major seventh chord with an augmented fifth is: its name and its intervals.
pub open spec fn augmented_major_pattern() -> Pattern {
    Pattern {
        name: "Maj7(#5)"@,
        steps: seq![
            CanonicalInterval::MajorThird,
            CanonicalInterval::MajorThird,
            CanonicalInterval::MinorThird,
        ],
    }
}

/// The major seventh chord with an augmented fifth.
pub fn augmented_major() -> (quality: ChordQuality)
    ensures
        quality@ == augmented_major_pattern(),
{
    seventh("Maj7(#5)", 4, 4, 3)
}

/// What the diminished triad under a major seventh is: its name and its intervals.
pub open spec fn diminished_major_pattern() -> Pattern {
    Pattern {
        name: "Dim(Maj7)"@,
        steps: seq![
            CanonicalInterval::MinorThird,
            CanonicalInterval::MinorThird,
            CanonicalInterval::PerfectFifth,
        ],
    }
}

/// The diminished triad under a major seventh.
pub fn diminished_major() -> (quality: ChordQuality)
    ensures
        quality@ == diminished_major_pattern(),
{
    seventh("Dim(Maj7)", 3, 3, 7)
}

} // verus!
