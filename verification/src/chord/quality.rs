//! Chord qualities: the pattern of intervals that makes a chord major,
//! minor, diminished and so on, whatever its root.

use vstd::prelude::*;
use vstd::slice::slice_to_vec;

use crate::interval::canonical::{
    all_named_sizes, intervals_from_sizes, intervals_of_sizes, span, CanonicalInterval,
};
use crate::note::{lemma_default_spelling_pitch_class, Note};
use crate::pattern::Pattern;

pub mod sevenths;
pub mod triads;

verus! {

/// A named chord pattern. Each interval is the distance from one chord tone
/// to the next, not from the root.
#[derive(Debug, PartialEq)]
pub struct ChordQuality {
    name: String,
    intervals: Vec<CanonicalInterval>,
}

/// The `index`th tone of the chord built on `root`: the root itself, then
/// for each further tone the default spelling of the pitch class that lies
/// above the root by all the intervals up to it.
pub open spec fn chord_tone(root: Note, steps: Seq<CanonicalInterval>, index: int) -> Note {
    if index <= 0 {
        root
    } else {
        Note::default_spelling((root.pitch_class() + span(steps, index)) % 12)
    }
}

/// The tones of the chord built on `root`, one more than there are
/// intervals.
pub open spec fn chord_tones(root: Note, steps: Seq<CanonicalInterval>) -> Seq<Note> {
    Seq::new(steps.len() + 1, |index: int| chord_tone(root, steps, index))
}

/// Each chord tone is the one before it, moved up by the interval between
/// them.
pub proof fn lemma_chord_tone_step(root: Note, steps: Seq<CanonicalInterval>, index: int)
    requires
        0 <= index < steps.len(),
    ensures
        chord_tone(root, steps, index + 1) == chord_tone(root, steps, index).transposed(
            steps[index].semitones(),
        ),
{
    let reached = root.pitch_class() + span(steps, index);
    let width = steps[index].semitones();
    assert(span(steps, index + 1) == span(steps, index) + width);
    if index > 0 {
        lemma_default_spelling_pitch_class(reached % 12);
    } else {
        assert(span(steps, 0) == 0);
    }
    assert((reached % 12 + width) % 12 == (reached + width) % 12);
}

impl View for ChordQuality {
    type V = Pattern;

    closed spec fn view(&self) -> Pattern {
        Pattern { name: self.name@, steps: self.intervals@ }
    }
}

impl Clone for ChordQuality {
    fn clone(&self) -> (copy: Self)
        ensures
            copy@ == self@,
    {
        proof {
            use_type_invariant(self);
        }
        ChordQuality { name: self.name.clone(), intervals: slice_to_vec(self.intervals.as_slice()) }
    }
}

impl ChordQuality {
    #[verifier::type_invariant]
    spec fn tones_can_be_counted(self) -> bool {
        self.intervals@.len() < usize::MAX
    }

    /// A chord quality with the given name and intervals.
    pub fn new(name: &str, intervals: &[CanonicalInterval]) -> (quality: Self)
        requires
            intervals@.len() < usize::MAX,
        ensures
            quality@ == (Pattern { name: name@, steps: intervals@ }),
    {
        ChordQuality { name: String::from_str(name), intervals: slice_to_vec(intervals) }
    }

    /// A chord quality with the given name, its intervals given by their
    /// widths in semitones. Every width must be one that has a name.
    pub fn from_intervals(name: &str, intervals: &[u8]) -> (quality: Self)
        requires
            intervals@.len() < usize::MAX,
            all_named_sizes(intervals@),
        ensures
            quality@ == (Pattern { name: name@, steps: intervals_of_sizes(intervals@) }),
    {
        ChordQuality { name: String::from_str(name), intervals: intervals_from_sizes(intervals) }
    }

    /// The intervals from each chord tone to the next.
    pub fn intervals(&self) -> (intervals: &[CanonicalInterval])
        ensures
            intervals@ == self@.steps,
    {
        self.intervals.as_slice()
    }

    /// The number of tones in the chord.
    pub fn note_count(&self) -> (count: usize)
        ensures
            count == self@.steps.len() + 1,
    {
        proof {
            use_type_invariant(self);
        }
        self.intervals.len() + 1
    }

    /// The name of the chord quality as text.
    pub fn to_string(&self) -> (text: String)
        ensures
            text@ == self@.name,
    {
        self.name.clone()
    }

    /// The tones of the chord built on `root`, from the root upwards. The
    /// root keeps its spelling; every other tone has the default spelling
    /// of its pitch class.
    pub fn spell(&self, root: Note) -> (notes: Vec<Note>)
        ensures
            notes@ == chord_tones(root, self@.steps),
    {
        let mut notes: Vec<Note> = Vec::new();
        notes.push(root);
        let mut note = root;
        let mut i: usize = 0;
        while i < self.intervals.len()
            invariant
                i <= self.intervals@.len(),
                note == chord_tone(root, self.intervals@, i as int),
                notes@ == chord_tones(root, self.intervals@).subrange(0, i + 1),
            decreases self.intervals@.len() - i,
        {
            proof {
                lemma_chord_tone_step(root, self.intervals@, i as int);
            }
            note = note + self.intervals[i];
            notes.push(note);
            i += 1;
            assert(notes@ =~= chord_tones(root, self.intervals@).subrange(0, i + 1));
        }
        assert(notes@ =~= chord_tones(root, self.intervals@));
        notes
    }
}

} // verus!
