//! The quiz: the pools that questions are drawn from, the rounds that ask
//! them, and the score that is kept.

use vstd::prelude::*;

use crate::accidental::Accidental;
use crate::chord::quality::{sevenths, triads, ChordQuality};
use crate::interval::canonical::{intervals_of_sizes, CanonicalInterval};
use crate::note::Note;
use crate::note_name::NoteName;
use crate::pattern::Pattern;
use crate::scale::Scale;

pub mod answer;
pub mod chance;
pub mod feedback;
pub mod mode;
pub mod round;
pub mod scorekeeper;

verus! {

/// The spellings in which a pitch class is asked for: its default spelling
/// and, where that is a sharp, the flat of the letter above as well.
pub open spec fn common_spellings(pitch_class: int) -> Seq<Note> {
    let default = Note::default_spelling(pitch_class);
    if default.1 == Accidental::Sharp {
        seq![default, default.respelled()]
    } else {
        seq![default]
    }
}

/// The common spellings of all pitch classes below the given one, from A
/// upwards.
pub open spec fn common_spellings_below(pitch_class: int) -> Seq<Note>
    decreases pitch_class,
{
    if pitch_class <= 0 {
        Seq::<Note>::empty()
    } else {
        common_spellings_below(pitch_class - 1) + common_spellings(pitch_class - 1)
    }
}

/// The notes that a round may start from: the common spellings of the twelve
/// pitch classes.
pub open spec fn standard_note_pool() -> Seq<Note> {
    common_spellings_below(12)
}

/// The intervals that a round may ask for: those within the octave, from
/// the minor second to the major seventh.
pub open spec fn standard_interval_pool() -> Seq<CanonicalInterval> {
    Seq::new(11, |i: int| CanonicalInterval::of_size(i + 1))
}

/// The chord qualities that a round may ask for.
pub open spec fn standard_chord_pool() -> Seq<Pattern> {
    seq![
        triads::major_pattern(),
        triads::minor_pattern(),
        triads::diminished_pattern(),
        triads::augmented_pattern(),
        sevenths::major_pattern(),
        sevenths::minor_pattern(),
        sevenths::diminished_pattern(),
        sevenths::half_diminished_pattern(),
        sevenths::dominant_pattern(),
    ]
}

/// The scales that a round may ask for. The major scale comes first: it is
/// the parent of the modes.
pub open spec fn standard_scale_pool() -> Seq<Pattern> {
    seq![
        Pattern {
            name: "Major"@,
            steps: intervals_of_sizes(seq![2u8, 2u8, 1u8, 2u8, 2u8, 2u8, 1u8]),
        },
        Pattern {
            name: "Minor"@,
            steps: intervals_of_sizes(seq![2u8, 1u8, 2u8, 2u8, 1u8, 2u8, 2u8]),
        },
        Pattern {
            name: "Harmonic Minor"@,
            steps: intervals_of_sizes(seq![2u8, 1u8, 2u8, 2u8, 1u8, 3u8, 1u8]),
        },
    ]
}

/// The standard pool of notes holds seventeen spellings: the seven naturals,
/// the five sharps and the five flats.
pub proof fn lemma_standard_note_pool()
    ensures
        standard_note_pool() == seq![
            Note(NoteName::A, Accidental::Natural),
            Note(NoteName::A, Accidental::Sharp),
            Note(NoteName::B, Accidental::Flat),
            Note(NoteName::B, Accidental::Natural),
            Note(NoteName::C, Accidental::Natural),
            Note(NoteName::C, Accidental::Sharp),
            Note(NoteName::D, Accidental::Flat),
            Note(NoteName::D, Accidental::Natural),
            Note(NoteName::D, Accidental::Sharp),
            Note(NoteName::E, Accidental::Flat),
            Note(NoteName::E, Accidental::Natural),
            Note(NoteName::F, Accidental::Natural),
            Note(NoteName::F, Accidental::Sharp),
            Note(NoteName::G, Accidental::Flat),
            Note(NoteName::G, Accidental::Natural),
            Note(NoteName::G, Accidental::Sharp),
            Note(NoteName::A, Accidental::Flat),
        ],
{
    reveal_with_fuel(common_spellings_below, 13);
}

/// The notes that a round may start from.
pub fn standard_notes() -> (notes: Vec<Note>)
    ensures
        notes@ == standard_note_pool(),
{
    let mut notes: Vec<Note> = Vec::new();
    let mut pitch: u8 = 0;
    while pitch < 12
        invariant
            pitch <= 12,
            notes@ == common_spellings_below(pitch as int),
        decreases 12 - pitch,
    {
        let note = match Note::from_pitch(pitch) {
            Some(note) => note,
            None => unreached(),
        };
        notes.push(note);
        match note.accidental() {
            Accidental::Sharp => {
                notes.push(Note(note.note_name().step_up(), Accidental::Flat));
            },
            _ => {},
        }
        pitch += 1;
        assert(notes@ =~= common_spellings_below(pitch as int));
    }
    notes
}

/// The intervals that a round may ask for.
pub fn standard_intervals() -> (intervals: Vec<CanonicalInterval>)
    ensures
        intervals@ == standard_interval_pool(),
{
    let intervals = vec![
        CanonicalInterval::MinorSecond,
        CanonicalInterval::MajorSecond,
        CanonicalInterval::MinorThird,
        CanonicalInterval::MajorThird,
        CanonicalInterval::PerfectFourth,
        CanonicalInterval::Tritone,
        CanonicalInterval::PerfectFifth,
        CanonicalInterval::MinorSixth,
        CanonicalInterval::MajorSixth,
        CanonicalInterval::MinorSeventh,
        CanonicalInterval::MajorSeventh,
    ];
    assert(intervals@ =~= standard_interval_pool());
    intervals
}

/// The chord qualities that a round may ask for.
pub fn standard_chord_qualities() -> (qualities: Vec<ChordQuality>)
    ensures
        qualities@.map_values(|quality: ChordQuality| quality@) == standard_chord_pool(),
{
    let qualities = vec![
        triads::major(),
        triads::minor(),
        triads::diminished(),
        triads::augmented(),
        sevenths::major(),
        sevenths::minor(),
        sevenths::diminished(),
        sevenths::half_diminished(),
        sevenths::dominant(),
    ];
    assert(qualities@.map_values(|quality: ChordQuality| quality@) =~= standard_chord_pool());
    qualities
}

/// The scales that a round may ask for.
pub fn standard_scales() -> (scales: Vec<Scale>)
    ensures
        scales@.map_values(|scale: Scale| scale@) == standard_scale_pool(),
{
    let major: [u8; 7] = [2, 2, 1, 2, 2, 2, 1];
    let minor: [u8; 7] = [2, 1, 2, 2, 1, 2, 2];
    let harmonic_minor: [u8; 7] = [2, 1, 2, 2, 1, 3, 1];
    assert(major@ =~= seq![2u8, 2u8, 1u8, 2u8, 2u8, 2u8, 1u8]);
    assert(minor@ =~= seq![2u8, 1u8, 2u8, 2u8, 1u8, 2u8, 2u8]);
    assert(harmonic_minor@ =~= seq![2u8, 1u8, 2u8, 2u8, 1u8, 3u8, 1u8]);
    let scales = vec![
        Scale::from_intervals("Major", major.as_slice()),
        Scale::from_intervals("Minor", minor.as_slice()),
        Scale::from_intervals("Harmonic Minor", harmonic_minor.as_slice()),
    ];
    assert(scales@.map_values(|scale: Scale| scale@) =~= standard_scale_pool());
    scales
}

} // verus!
