//! The rounds of the quiz: each asks one question and grades the answer.

use rand::rngs::ThreadRng;
use vstd::prelude::*;

use crate::game::answer::{notes_from_input, read_words, trimmed, words};
use crate::game::chance::{draw, pick, toss};
use crate::game::feedback::{
    grade_note, grade_notes, is_grading, is_rejection, same_pitches, wrong_note_message,
    wrong_notes_message, Feedback,
};
use crate::game::scorekeeper::Scorekeeper;
use crate::game::{
    lemma_standard_note_pool, standard_chord_pool, standard_chord_qualities,
    standard_interval_pool, standard_intervals, standard_note_pool, standard_notes,
    standard_scale_pool, standard_scales,
};
use crate::chord::quality::{chord_tones, ChordQuality};
use crate::interval::canonical::CanonicalInterval;
use crate::note::Note;
use crate::pattern::Pattern;
use crate::scale::modal::ModalScale;
use crate::scale::mode::Mode;
use crate::scale::{scale_degrees, Scale};

verus! {

/// A round of the quiz.
pub trait Round {
    /// The kind of question, as it is shown before the question.
    fn label(&self) -> String;

    /// The question.
    fn prompt(&self) -> String;

    /// Grades the answer that was typed, enters it in the record unless it
    /// could not be read, and says what to tell the player.
    fn evaluate(&self, input: &str, scorekeeper: &mut Scorekeeper) -> Feedback;
}

/// A round that asks for the note an interval above or below another.
pub struct IntervalsRound {
    root_note: Note,
    descending: bool,
    interval: CanonicalInterval,
}

impl IntervalsRound {
    /// The note that the interval is taken from.
    pub closed spec fn root_note(&self) -> Note {
        self.root_note
    }

    /// Whether the interval is taken downwards.
    pub closed spec fn descending(&self) -> bool {
        self.descending
    }

    /// The interval that is asked for.
    pub closed spec fn interval(&self) -> CanonicalInterval {
        self.interval
    }

    /// The note that answers the question, in its default spelling.
    pub open spec fn expected(&self) -> Note {
        if self.descending() {
            self.root_note().transposed(-self.interval().semitones())
        } else {
            self.root_note().transposed(self.interval().semitones())
        }
    }

    /// The question as it is put to the player.
    pub open spec fn question(&self) -> Seq<char> {
        self.root_note().spelling() + (if self.descending() {
            " down a "@
        } else {
            " up a "@
        }) + self.interval().label()
    }

    /// The round that asks for the given interval from the given note.
    pub fn of(root_note: Note, descending: bool, interval: CanonicalInterval) -> (round: Self)
        ensures
            round.root_note() == root_note,
            round.descending() == descending,
            round.interval() == interval,
    {
        IntervalsRound { root_note, descending, interval }
    }

    /// A round drawn at random: a note of the standard pool, a direction,
    /// and an interval of the standard pool.
    pub fn new(rng: &mut ThreadRng) -> (round: Self)
        ensures
            standard_note_pool().contains(round.root_note()),
            standard_interval_pool().contains(round.interval()),
    {
        let notes = standard_notes();
        let intervals = standard_intervals();
        proof {
            lemma_standard_note_pool();
        }
        let root_note = match pick(notes.as_slice(), rng) {
            Some(note) => *note,
            None => unreached(),
        };
        let descending = toss(rng);
        let interval = match pick(intervals.as_slice(), rng) {
            Some(interval) => *interval,
            None => unreached(),
        };
        IntervalsRound::of(root_note, descending, interval)
    }

    /// The note that answers the question.
    pub fn answer(&self) -> (note: Note)
        ensures
            note == self.expected(),
    {
        if self.descending {
            self.root_note - self.interval
        } else {
            self.root_note + self.interval
        }
    }
}

impl Round for IntervalsRound {
    fn label(&self) -> (text: String)
        ensures
            text@ == "Interval"@,
    {
        String::from_str("Interval")
    }

    fn prompt(&self) -> (text: String)
        ensures
            text@ == self.question(),
    {
        let mut text = self.root_note.to_string();
        text.append(if self.descending { " down a " } else { " up a " });
        let interval = self.interval.to_string();
        text.append(interval.as_str());
        text
    }

    /// The answer is read as one note, with nothing before or after it.
    fn evaluate(&self, input: &str, scorekeeper: &mut Scorekeeper) -> (feedback: Feedback)
        ensures
            match Note::parsed(input@) {
                None => is_rejection(feedback, *old(scorekeeper), *final(scorekeeper), input@),
                Some(note) => is_grading(
                    feedback,
                    *old(scorekeeper),
                    *final(scorekeeper),
                    note.pitch_class() == self.expected().pitch_class(),
                    wrong_note_message(self.expected()),
                ),
            },
    {
        grade_note(Note::parse(input), self.answer(), scorekeeper)
    }
}

/// A round that asks for the notes of a chord.
pub struct ChordsRound {
    root_note: Note,
    chord: ChordQuality,
}

impl ChordsRound {
    /// The root of the chord.
    pub closed spec fn root_note(&self) -> Note {
        self.root_note
    }

    /// The quality of the chord.
    pub closed spec fn chord(&self) -> Pattern {
        self.chord@
    }

    /// The notes that answer the question.
    pub open spec fn expected(&self) -> Seq<Note> {
        chord_tones(self.root_note(), self.chord().steps)
    }

    /// The question as it is put to the player.
    pub open spec fn question(&self) -> Seq<char> {
        self.root_note().spelling() + seq![' '] + self.chord().name
    }

    /// The round that asks for the chord of the given quality on the given
    /// root.
    pub fn of(root_note: Note, chord: ChordQuality) -> (round: Self)
        ensures
            round.root_note() == root_note,
            round.chord() == chord@,
    {
        ChordsRound { root_note, chord }
    }

    /// A round drawn at random: a root and a chord quality of the standard
    /// pools.
    pub fn new(rng: &mut ThreadRng) -> (round: Self)
        ensures
            standard_note_pool().contains(round.root_note()),
            standard_chord_pool().contains(round.chord()),
    {
        let notes = standard_notes();
        let qualities = standard_chord_qualities();
        proof {
            lemma_standard_note_pool();
        }
        let root_note = match pick(notes.as_slice(), rng) {
            Some(note) => *note,
            None => unreached(),
        };
        assert(qualities@.len() == qualities@.map_values(|quality: ChordQuality| quality@).len());
        let chord = match pick(qualities.as_slice(), rng) {
            Some(quality) => {
                proof {
                    let i = choose|i: int| 0 <= i < qualities@.len() && qualities@[i] == *quality;
                    assert(standard_chord_pool()[i] == qualities@.map_values(
                        |quality: ChordQuality| quality@,
                    )[i]);
                }
                quality.clone()
            },
            None => unreached(),
        };
        ChordsRound::of(root_note, chord)
    }
}

impl Round for ChordsRound {
    fn label(&self) -> (text: String)
        ensures
            text@ == "Chord"@,
    {
        String::from_str("Chord")
    }

    fn prompt(&self) -> (text: String)
        ensures
            text@ == self.question(),
    {
        let mut text = self.root_note.to_string();
        text.append(" ");
        let chord = self.chord.to_string();
        text.append(chord.as_str());
        proof {
            reveal_strlit(" ");
            assert(text@ =~= self.question());
        }
        text
    }

    /// The answer is read as notes separated by blanks.
    fn evaluate(&self, input: &str, scorekeeper: &mut Scorekeeper) -> (feedback: Feedback)
        ensures
            match read_words(words(trimmed(input@))) {
                Err(word) => is_rejection(feedback, *old(scorekeeper), *final(scorekeeper), word),
                Ok(notes) => is_grading(
                    feedback,
                    *old(scorekeeper),
                    *final(scorekeeper),
                    same_pitches(notes, self.expected()),
                    wrong_notes_message(self.expected()),
                ),
            },
    {
        grade_notes(notes_from_input(input), self.chord.spell(self.root_note), scorekeeper)
    }
}

/// The scale of a round: a scale as it stands, or a scale in one of its
/// modes.
pub enum ScaleChoice {
    Plain(Scale),
    Modal(ModalScale),
}

impl ScaleChoice {
    /// The steps that the scale is walked by.
    pub open spec fn steps(&self) -> Seq<CanonicalInterval> {
        match self {
            ScaleChoice::Plain(scale) => scale@.steps,
            ScaleChoice::Modal(modal) => modal.steps(),
        }
    }

    /// What the scale is called in the question: a scale by its name, a
    /// mode by the name of the mode.
    pub open spec fn title(&self) -> Seq<char> {
        match self {
            ScaleChoice::Plain(scale) => scale@.name,
            ScaleChoice::Modal(modal) => modal.mode.label(),
        }
    }

    /// Whether the scale can be spelled: a mode needs a parent scale that
    /// has a step.
    pub open spec fn can_be_spelled(&self) -> bool {
        self matches ScaleChoice::Modal(modal) ==> modal.scale@.steps.len() > 0
    }
}

/// A round that asks for the notes of a scale.
pub struct ScalesRound {
    root_note: Note,
    scale: ScaleChoice,
}

impl ScalesRound {
    #[verifier::type_invariant]
    spec fn scale_can_be_spelled(self) -> bool {
        self.scale.can_be_spelled()
    }

    /// The note that the scale starts from.
    pub closed spec fn root_note(&self) -> Note {
        self.root_note
    }

    /// The scale that is asked for.
    pub closed spec fn scale(&self) -> ScaleChoice {
        self.scale
    }

    /// The notes that answer the question.
    pub open spec fn expected(&self) -> Seq<Note> {
        scale_degrees(self.root_note(), self.scale().steps())
    }

    /// The question as it is put to the player.
    pub open spec fn question(&self) -> Seq<char> {
        self.root_note().spelling() + seq![' '] + self.scale().title()
    }

    /// The round that asks for the given scale from the given note.
    pub fn of(root_note: Note, scale: ScaleChoice) -> (round: Self)
        requires
            scale.can_be_spelled(),
        ensures
            round.root_note() == root_note,
            round.scale() == scale,
    {
        ScalesRound { root_note, scale }
    }

    /// A round drawn at random: a root of the standard pool, and either a
    /// scale of the standard pool or the major scale in a mode.
    pub fn new(rng: &mut ThreadRng) -> (round: Self)
        ensures
            standard_note_pool().contains(round.root_note()),
            match round.scale() {
                ScaleChoice::Plain(scale) => standard_scale_pool().contains(scale@),
                ScaleChoice::Modal(modal) => modal.scale@ == standard_scale_pool()[0],
            },
    {
        let notes = standard_notes();
        let scales = standard_scales();
        proof {
            lemma_standard_note_pool();
        }
        let root_note = match pick(notes.as_slice(), rng) {
            Some(note) => *note,
            None => unreached(),
        };
        assert(scales@.len() == scales@.map_values(|scale: Scale| scale@).len());
        let scale = if toss(rng) {
            match pick(scales.as_slice(), rng) {
                Some(scale) => {
                    proof {
                        let i = choose|i: int| 0 <= i < scales@.len() && scales@[i] == *scale;
                        assert(standard_scale_pool()[i] == scales@.map_values(
                            |scale: Scale| scale@,
                        )[i]);
                    }
                    ScaleChoice::Plain(scale.clone())
                },
                None => unreached(),
            }
        } else {
            assert(standard_scale_pool()[0] == scales@.map_values(|scale: Scale| scale@)[0]);
            let major = scales[0].clone();
            let mode = Mode::from(draw(rng, 0, 7));
            ScaleChoice::Modal(ModalScale::new(major, mode))
        };
        ScalesRound::of(root_note, scale)
    }
}

impl Round for ScalesRound {
    fn label(&self) -> (text: String)
        ensures
            text@ == "Scale"@,
    {
        String::from_str("Scale")
    }

    fn prompt(&self) -> (text: String)
        ensures
            text@ == self.question(),
    {
        let mut text = self.root_note.to_string();
        text.append(" ");
        match &self.scale {
            ScaleChoice::Plain(scale) => {
                text.append(scale.name.as_str());
            },
            ScaleChoice::Modal(modal) => {
                let mode = modal.mode.to_string();
                text.append(mode.as_str());
            },
        }
        proof {
            reveal_strlit(" ");
            assert(text@ =~= self.question());
        }
        text
    }

    /// The answer is read as notes separated by blanks.
    fn evaluate(&self, input: &str, scorekeeper: &mut Scorekeeper) -> (feedback: Feedback)
        ensures
            match read_words(words(trimmed(input@))) {
                Err(word) => is_rejection(feedback, *old(scorekeeper), *final(scorekeeper), word),
                Ok(notes) => is_grading(
                    feedback,
                    *old(scorekeeper),
                    *final(scorekeeper),
                    same_pitches(notes, self.expected()),
                    wrong_notes_message(self.expected()),
                ),
            },
    {
        proof {
            use_type_invariant(self);
        }
        let expected = match &self.scale {
            ScaleChoice::Plain(scale) => scale.spell(self.root_note),
            ScaleChoice::Modal(modal) => modal.spell(self.root_note),
        };
        grade_notes(notes_from_input(input), expected, scorekeeper)
    }
}

} // verus!
