//! The catalogue of named intervals.

use vstd::prelude::*;

verus! {

/// A named distance between two pitches, from a unison up to a major
/// thirteenth. No interval of eighteen semitones has a name here.
#[derive(Debug, Copy, Clone, PartialEq, Eq, Structural)]
pub enum CanonicalInterval {
    Unison,
    MinorSecond,
    MajorSecond,
    MinorThird,
    MajorThird,
    PerfectFourth,
    Tritone,
    PerfectFifth,
    MinorSixth,
    MajorSixth,
    MinorSeventh,
    MajorSeventh,
    Octave,
    MinorNinth,
    MajorNinth,
    MinorTenth,
    MajorTenth,
    PerfectEleventh,
    PerfectTwelfth,
    MinorThirteenth,
    MajorThirteenth,
}

/// Whether an interval of `size` semitones has a name.
pub open spec fn is_named_size(size: int) -> bool {
    0 <= size <= 21 && size != 18
}

impl CanonicalInterval {
    /// The width of the interval in semitones.
    pub open spec fn semitones(self) -> int {
        match self {
            CanonicalInterval::Unison => 0,
            CanonicalInterval::MinorSecond => 1,
            CanonicalInterval::MajorSecond => 2,
            CanonicalInterval::MinorThird => 3,
            CanonicalInterval::MajorThird => 4,
            CanonicalInterval::PerfectFourth => 5,
            CanonicalInterval::Tritone => 6,
            CanonicalInterval::PerfectFifth => 7,
            CanonicalInterval::MinorSixth => 8,
            CanonicalInterval::MajorSixth => 9,
            CanonicalInterval::MinorSeventh => 10,
            CanonicalInterval::MajorSeventh => 11,
            CanonicalInterval::Octave => 12,
            CanonicalInterval::MinorNinth => 13,
            CanonicalInterval::MajorNinth => 14,
            CanonicalInterval::MinorTenth => 15,
            CanonicalInterval::MajorTenth => 16,
            CanonicalInterval::PerfectEleventh => 17,
            CanonicalInterval::PerfectTwelfth => 19,
            CanonicalInterval::MinorThirteenth => 20,
            CanonicalInterval::MajorThirteenth => 21,
        }
    }

    /// The interval that is `size` semitones wide, where that width has a
    /// name.
    pub open spec fn of_size(size: int) -> CanonicalInterval {
        if size == 0 {
            CanonicalInterval::Unison
        } else if size == 1 {
            CanonicalInterval::MinorSecond
        } else if size == 2 {
            CanonicalInterval::MajorSecond
        } else if size == 3 {
            CanonicalInterval::MinorThird
        } else if size == 4 {
            CanonicalInterval::MajorThird
        } else if size == 5 {
            CanonicalInterval::PerfectFourth
        } else if size == 6 {
            CanonicalInterval::Tritone
        } else if size == 7 {
            CanonicalInterval::PerfectFifth
        } else if size == 8 {
            CanonicalInterval::MinorSixth
        } else if size == 9 {
            CanonicalInterval::MajorSixth
        } else if size == 10 {
            CanonicalInterval::MinorSeventh
        } else if size == 11 {
            CanonicalInterval::MajorSeventh
        } else if size == 12 {
            CanonicalInterval::Octave
        } else if size == 13 {
            CanonicalInterval::MinorNinth
        } else if size == 14 {
            CanonicalInterval::MajorNinth
        } else if size == 15 {
            CanonicalInterval::MinorTenth
        } else if size == 16 {
            CanonicalInterval::MajorTenth
        } else if size == 17 {
            CanonicalInterval::PerfectEleventh
        } else if size == 19 {
            CanonicalInterval::PerfectTwelfth
        } else if size == 20 {
            CanonicalInterval::MinorThirteenth
        } else {
            CanonicalInterval::MajorThirteenth
        }
    }

    /// The conventional name of the interval.
    pub open spec fn label(self) -> Seq<char> {
        match self {
            CanonicalInterval::Unison => "Unison"@,
            CanonicalInterval::MinorSecond => "Minor 2"@,
            CanonicalInterval::MajorSecond => "Major 2"@,
            CanonicalInterval::MinorThird => "Minor 3"@,
            CanonicalInterval::MajorThird => "Major 3"@,
            CanonicalInterval::PerfectFourth => "Perfect 4"@,
            CanonicalInterval::Tritone => "Tritone"@,
            CanonicalInterval::PerfectFifth => "Perfect 5"@,
            CanonicalInterval::MinorSixth => "Minor 6"@,
            CanonicalInterval::MajorSixth => "Major 6"@,
            CanonicalInterval::MinorSeventh => "Minor 7"@,
            CanonicalInterval::MajorSeventh => "Major 7"@,
            CanonicalInterval::Octave => "Octave"@,
            CanonicalInterval::MinorNinth => "Minor 9"@,
            CanonicalInterval::MajorNinth => "Major 9"@,
            CanonicalInterval::MinorTenth => "Minor 10"@,
            CanonicalInterval::MajorTenth => "Major 10"@,
            CanonicalInterval::PerfectEleventh => "Perfect 11"@,
            CanonicalInterval::PerfectTwelfth => "Perfect 12"@,
            CanonicalInterval::MinorThirteenth => "Minor 13"@,
            CanonicalInterval::MajorThirteenth => "Major 13"@,
        }
    }

    /// The width of the interval in semitones.
    pub fn size(self) -> (size: u8)
        ensures
            size == self.semitones(),
            is_named_size(size as int),
    {
        match self {
            CanonicalInterval::Unison => 0,
            CanonicalInterval::MinorSecond => 1,
            CanonicalInterval::MajorSecond => 2,
            CanonicalInterval::MinorThird => 3,
            CanonicalInterval::MajorThird => 4,
            CanonicalInterval::PerfectFourth => 5,
            CanonicalInterval::Tritone => 6,
            CanonicalInterval::PerfectFifth => 7,
            CanonicalInterval::MinorSixth => 8,
            CanonicalInterval::MajorSixth => 9,
            CanonicalInterval::MinorSeventh => 10,
            CanonicalInterval::MajorSeventh => 11,
            CanonicalInterval::Octave => 12,
            CanonicalInterval::MinorNinth => 13,
            CanonicalInterval::MajorNinth => 14,
            CanonicalInterval::MinorTenth => 15,
            CanonicalInterval::MajorTenth => 16,
            CanonicalInterval::PerfectEleventh => 17,
            CanonicalInterval::PerfectTwelfth => 19,
            CanonicalInterval::MinorThirteenth => 20,
            CanonicalInterval::MajorThirteenth => 21,
        }
    }

    /// The interval of `size` semitones, if it has a name.
    pub fn try_from(size: u8) -> (found: Option<Self>)
        ensures
            is_named_size(size as int) ==> found == Some(CanonicalInterval::of_size(size as int)),
            !is_named_size(size as int) ==> found is None,
    {
        match size {
            0 => Some(CanonicalInterval::Unison),
            1 => Some(CanonicalInterval::MinorSecond),
            2 => Some(CanonicalInterval::MajorSecond),
            3 => Some(CanonicalInterval::MinorThird),
            4 => Some(CanonicalInterval::MajorThird),
            5 => Some(CanonicalInterval::PerfectFourth),
            6 => Some(CanonicalInterval::Tritone),
            7 => Some(CanonicalInterval::PerfectFifth),
            8 => Some(CanonicalInterval::MinorSixth),
            9 => Some(CanonicalInterval::MajorSixth),
            10 => Some(CanonicalInterval::MinorSeventh),
            11 => Some(CanonicalInterval::MajorSeventh),
            12 => Some(CanonicalInterval::Octave),
            13 => Some(CanonicalInterval::MinorNinth),
            14 => Some(CanonicalInterval::MajorNinth),
            15 => Some(CanonicalInterval::MinorTenth),
            16 => Some(CanonicalInterval::MajorTenth),
            17 => Some(CanonicalInterval::PerfectEleventh),
            19 => Some(CanonicalInterval::PerfectTwelfth),
            20 => Some(CanonicalInterval::MinorThirteenth),
            21 => Some(CanonicalInterval::MajorThirteenth),
            _ => None,
        }
    }

    /// The interval of `size` semitones. The catalogue is built from fixed
    /// tables, so a size without a name is a mistake of the caller.
    pub fn from(size: u8) -> (interval: Self)
        requires
            is_named_size(size as int),
        ensures
            interval == CanonicalInterval::of_size(size as int),
            interval.semitones() == size,
    {
        match Self::try_from(size) {
            Some(interval) => interval,
            None => unreached(),
        }
    }

    /// The conventional name of the interval as text.
    pub fn to_string(&self) -> (text: String)
        ensures
            text@ == self.label(),
    {
        let literal = match self {
            CanonicalInterval::Unison => "Unison",
            CanonicalInterval::MinorSecond => "Minor 2",
            CanonicalInterval::MajorSecond => "Major 2",
            CanonicalInterval::MinorThird => "Minor 3",
            CanonicalInterval::MajorThird => "Major 3",
            CanonicalInterval::PerfectFourth => "Perfect 4",
            CanonicalInterval::Tritone => "Tritone",
            CanonicalInterval::PerfectFifth => "Perfect 5",
            CanonicalInterval::MinorSixth => "Minor 6",
            CanonicalInterval::MajorSixth => "Major 6",
            CanonicalInterval::MinorSeventh => "Minor 7",
            CanonicalInterval::MajorSeventh => "Major 7",
            CanonicalInterval::Octave => "Octave",
            CanonicalInterval::MinorNinth => "Minor 9",
            CanonicalInterval::MajorNinth => "Major 9",
            CanonicalInterval::MinorTenth => "Minor 10",
            CanonicalInterval::MajorTenth => "Major 10",
            CanonicalInterval::PerfectEleventh => "Perfect 11",
            CanonicalInterval::PerfectTwelfth => "Perfect 12",
            CanonicalInterval::MinorThirteenth => "Minor 13",
            CanonicalInterval::MajorThirteenth => "Major 13",
        };
        String::from_str(literal)
    }
}

/// The intervals of the given widths, in order.
pub open spec fn intervals_of_sizes(sizes: Seq<u8>) -> Seq<CanonicalInterval> {
    Seq::new(sizes.len(), |i: int| CanonicalInterval::of_size(sizes[i] as int))
}

/// Whether every width in the sequence has a name.
pub open spec fn all_named_sizes(sizes: Seq<u8>) -> bool {
    forall|i: int| 0 <= i < sizes.len() ==> is_named_size(#[trigger] sizes[i] as int)
}

/// The width of the first `count` intervals of a sequence, stacked one on
/// another.
pub open spec fn span(steps: Seq<CanonicalInterval>, count: int) -> int
    decreases count,
{
    if count <= 0 {
        0
    } else {
        span(steps, count - 1) + steps[count - 1].semitones()
    }
}

/// Turns a table of widths into intervals.
pub(crate) fn intervals_from_sizes(sizes: &[u8]) -> (intervals: Vec<CanonicalInterval>)
    requires
        all_named_sizes(sizes@),
    ensures
        intervals@ == intervals_of_sizes(sizes@),
{
    let mut intervals: Vec<CanonicalInterval> = Vec::new();
    let mut i: usize = 0;
    while i < sizes.len()
        invariant
            i <= sizes@.len(),
            all_named_sizes(sizes@),
            intervals@ == intervals_of_sizes(sizes@).subrange(0, i as int),
        decreases sizes@.len() - i,
    {
        let interval = CanonicalInterval::from(sizes[i]);
        intervals.push(interval);
        i += 1;
        assert(intervals@ =~= intervals_of_sizes(sizes@).subrange(0, i as int));
    }
    assert(intervals@ =~= intervals_of_sizes(sizes@));
    intervals
}

/// An interval is the one named by its own width.
pub proof fn lemma_of_size_semitones(interval: CanonicalInterval)
    ensures
        CanonicalInterval::of_size(interval.semitones()) == interval,
{
}

} // verus!
