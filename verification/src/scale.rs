//! Scales: a pattern of steps that is walked upwards from a root.

use vstd::prelude::*;
use vstd::slice::slice_to_vec;

use crate::accidental::Accidental;
use crate::interval::canonical::{
    all_named_sizes, intervals_from_sizes, intervals_of_sizes, span, CanonicalInterval,
};
use crate::note::{lemma_respelled_pitch_class, lemma_transposed_pitch_class, Note};
use crate::numeral::{decimal, decimal_string};
use crate::pattern::Pattern;

pub mod modal;
pub mod mode;

verus! {

/// A named scale. Each interval is the step from one degree of the scale to
/// the next; the last step closes the octave.
#[derive(Debug)]
pub struct Scale {
    pub name: String,
    pub intervals: Vec<CanonicalInterval>,
}

/// The `index`th degree of the scale walked from `root`. Each step moves the
/// degree before it to the default spelling of the next pitch class; where
/// that lands on the letter just used, the note is respelled.
pub open spec fn scale_degree(root: Note, steps: Seq<CanonicalInterval>, index: int) -> Note
    decreases index,
{
    if index <= 0 {
        root
    } else {
        let previous = scale_degree(root, steps, index - 1);
        let reached = previous.transposed(steps[index - 1].semitones());
        if reached.0 == previous.0 {
            reached.respelled()
        } else {
            reached
        }
    }
}

/// The degrees of the scale walked from `root`: as many as there are steps,
/// the root first. The note that the last step reaches is not among them.
pub open spec fn scale_degrees(root: Note, steps: Seq<CanonicalInterval>) -> Seq<Note> {
    Seq::new(steps.len(), |index: int| scale_degree(root, steps, index))
}

/// A sequence turned round to the left by `count` places.
pub open spec fn rotated<T>(items: Seq<T>, count: int) -> Seq<T> {
    items.subrange(count, items.len() as int) + items.subrange(0, count)
}

/// The name given to a scale that was turned by `count` steps.
pub open spec fn shifted_name(name: Seq<char>, count: int) -> Seq<char> {
    name + seq!['(', '+'] + decimal(count as nat) + seq![')']
}

/// The number of steps by which a scale of `length` steps is turned when it
/// is asked to turn by `steps`: counting goes round the scale.
pub open spec fn turn(steps: int, length: int) -> int {
    steps % length
}

impl View for Scale {
    type V = Pattern;

    open spec fn view(&self) -> Pattern {
        Pattern { name: self.name@, steps: self.intervals@ }
    }
}

impl Pattern {
    /// The pattern that begins `steps` steps further on and runs round to
    /// where this one begins, named after the number of steps it was turned
    /// by.
    pub open spec fn shifted(self, steps: int) -> Pattern {
        let count = turn(steps, self.steps.len() as int);
        Pattern { name: shifted_name(self.name, count), steps: rotated(self.steps, count) }
    }
}

impl Clone for Scale {
    fn clone(&self) -> (copy: Self)
        ensures
            copy@ == self@,
    {
        Scale { name: self.name.clone(), intervals: slice_to_vec(self.intervals.as_slice()) }
    }
}

impl Scale {
    /// A scale with the given name, its steps given by their widths in
    /// semitones. Every width must be one that has a name.
    pub fn from_intervals(name: &str, intervals: &[u8]) -> (scale: Self)
        requires
            all_named_sizes(intervals@),
        ensures
            scale@ == (Pattern { name: name@, steps: intervals_of_sizes(intervals@) }),
    {
        Scale { name: String::from_str(name), intervals: intervals_from_sizes(intervals) }
    }

    /// The scale that begins `steps` steps further on and runs round to
    /// where this one begins: the mode on that degree. Counting goes round
    /// the scale, so `steps` may be any number. The scale must have a step.
    pub fn shift(&self, steps: usize) -> (shifted: Self)
        requires
            self.intervals@.len() > 0,
        ensures
            shifted@ == self@.shifted(steps as int),
    {
        let length = self.intervals.len();
        let steps = steps % length;
        let mut name = self.name.clone();
        name.append("(+");
        let count = decimal_string(steps);
        name.append(count.as_str());
        name.append(")");
        proof {
            reveal_strlit("(+");
            reveal_strlit(")");
            assert(name@ =~= shifted_name(self.name@, steps as int));
        }
        let mut intervals: Vec<CanonicalInterval> = Vec::new();
        let mut i: usize = steps;
        while i < length
            invariant
                steps <= i <= length,
                length == self.intervals@.len(),
                intervals@ == self.intervals@.subrange(steps as int, i as int),
            decreases length - i,
        {
            intervals.push(self.intervals[i]);
            i += 1;
            assert(intervals@ =~= self.intervals@.subrange(steps as int, i as int));
        }
        let mut j: usize = 0;
        while j < steps
            invariant
                j <= steps <= length,
                length == self.intervals@.len(),
                intervals@ == self.intervals@.subrange(steps as int, length as int)
                    + self.intervals@.subrange(0, j as int),
            decreases steps - j,
        {
            intervals.push(self.intervals[j]);
            j += 1;
            assert(intervals@ =~= self.intervals@.subrange(steps as int, length as int)
                + self.intervals@.subrange(0, j as int));
        }
        Scale { name, intervals }
    }

    /// The notes of the scale walked from `root`, one for each step. No
    /// note is given the letter of the note before it, where another
    /// spelling can avoid that.
    pub fn spell(&self, root: Note) -> (notes: Vec<Note>)
        ensures
            notes@ == scale_degrees(root, self@.steps),
    {
        let mut notes: Vec<Note> = Vec::new();
        let mut note = root;
        let mut i: usize = 0;
        while i < self.intervals.len()
            invariant
                i <= self.intervals@.len(),
                note == scale_degree(root, self.intervals@, i as int),
                notes@ == scale_degrees(root, self.intervals@).subrange(0, i as int),
            decreases self.intervals@.len() - i,
        {
            notes.push(note);
            let previous = note;
            note = note + self.intervals[i];
            if note.note_name() == previous.note_name() {
                note = note.enharmonic();
            }
            i += 1;
            assert(notes@ =~= scale_degrees(root, self.intervals@).subrange(0, i as int));
        }
        assert(notes@ =~= scale_degrees(root, self.intervals@));
        notes
    }
}

/// Whether the step that reaches the `index`th degree lands on the natural
/// note of the letter that the degree before it bears. A natural has no
/// other spelling, so there the letter cannot be avoided.
pub open spec fn lands_on_natural_of_same_letter(
    root: Note,
    steps: Seq<CanonicalInterval>,
    index: int,
) -> bool {
    let previous = scale_degree(root, steps, index - 1);
    let reached = previous.transposed(steps[index - 1].semitones());
    reached.0 == previous.0 && reached.1 == Accidental::Natural
}

/// Respelling along the way never changes what sounds: each degree has the
/// pitch class that lies one step above that of the degree before it.
pub proof fn lemma_scale_degree_step(root: Note, steps: Seq<CanonicalInterval>, index: int)
    requires
        0 < index,
    ensures
        scale_degree(root, steps, index).pitch_class() == (scale_degree(
            root,
            steps,
            index - 1,
        ).pitch_class() + steps[index - 1].semitones()) % 12,
{
    let previous = scale_degree(root, steps, index - 1);
    let reached = previous.transposed(steps[index - 1].semitones());
    lemma_transposed_pitch_class(previous, steps[index - 1].semitones());
    lemma_respelled_pitch_class(reached);
}

/// Adding to a pitch class is the same as adding before the octave is taken
/// away.
proof fn lemma_add_to_pitch_class(distance: int, width: int)
    ensures
        (distance % 12 + width) % 12 == (distance + width) % 12,
{
}

/// Every degree has the pitch class that lies above the root by the steps
/// taken so far.
pub proof fn lemma_scale_degree_pitch_class(
    root: Note,
    steps: Seq<CanonicalInterval>,
    index: int,
)
    requires
        0 <= index,
    ensures
        scale_degree(root, steps, index).pitch_class() == (root.pitch_class() + span(steps, index))
            % 12,
    decreases index,
{
    if index > 0 {
        lemma_scale_degree_pitch_class(root, steps, index - 1);
        lemma_scale_degree_step(root, steps, index);
        lemma_add_to_pitch_class(
            root.pitch_class() + span(steps, index - 1),
            steps[index - 1].semitones(),
        );
        assert(span(steps, index) == span(steps, index - 1) + steps[index - 1].semitones());
    } else {
        assert(span(steps, 0) == 0);
        assert(0 <= root.pitch_class() < 12);
    }
}

/// A degree bears the letter of the degree before it exactly when its step
/// lands on the natural note of that letter.
pub proof fn lemma_scale_letter_repeats(root: Note, steps: Seq<CanonicalInterval>, index: int)
    requires
        0 < index,
    ensures
        scale_degree(root, steps, index).0 == scale_degree(root, steps, index - 1).0
            <==> lands_on_natural_of_same_letter(root, steps, index),
{
    let previous = scale_degree(root, steps, index - 1);
    let target = (previous.pitch_class() + steps[index - 1].semitones()) % 12;
    let reached = Note::default_spelling(target);
    assert(0 <= target < 12);
    assert(reached == previous.transposed(steps[index - 1].semitones()));
    assert(reached.1 == Accidental::Natural || reached.1 == Accidental::Sharp);
    if reached.0 == previous.0 && reached.1 == Accidental::Sharp {
        assert(reached.respelled().0 != reached.0);
    }
}

/// A scale is spelled with one note for each of its steps, and no note
/// bears the letter of the note before it, provided that no step lands on
/// the natural note of the letter just used.
pub proof fn lemma_scale_letters_differ(root: Note, steps: Seq<CanonicalInterval>)
    requires
        forall|index: int|
            0 < index < steps.len() ==> !#[trigger] lands_on_natural_of_same_letter(
                root,
                steps,
                index,
            ),
    ensures
        scale_degrees(root, steps).len() == steps.len(),
        forall|index: int|
            0 < index < steps.len() ==> (#[trigger] scale_degrees(root, steps)[index]).0
                != scale_degrees(root, steps)[index - 1].0,
{
    assert forall|index: int| 0 < index < steps.len() implies (#[trigger] scale_degrees(
        root,
        steps,
    )[index]).0 != scale_degrees(root, steps)[index - 1].0 by {
        assert(!lands_on_natural_of_same_letter(root, steps, index));
        lemma_scale_letter_repeats(root, steps, index);
    }
}

} // verus!
