use music_exercises::accidental::Accidental;
use music_exercises::accidental::Accidental::{DoubleFlat, DoubleSharp, Flat, Natural, Sharp};
use music_exercises::interval::canonical::CanonicalInterval;
use music_exercises::note::Note;
use music_exercises::note_name::NoteName;
use music_exercises::note_name::NoteName::{A, B, C, D, E, F, G};

fn spelled(note: Note) -> (NoteName, Accidental) {
    (note.note_name(), note.accidental())
}

fn every_note() -> Vec<Note> {
    let mut notes = vec![];
    for name in [A, B, C, D, E, F, G] {
        for accidental in [DoubleFlat, Flat, Natural, Sharp, DoubleSharp] {
            notes.push(Note(name, accidental));
        }
    }
    notes
}

fn every_interval() -> Vec<CanonicalInterval> {
    let mut intervals = vec![];
    for size in 0..=21u8 {
        if size != 18 {
            intervals.push(CanonicalInterval::from(size));
        }
    }
    intervals
}

#[test]
fn test_note_equality() {
    assert_eq!(Note(D, Sharp), Note(E, Flat));
}

#[test]
fn notes_of_different_pitch_classes_differ() {
    assert_ne!(Note(D, Sharp), Note(E, Natural));
    assert!(Note(D, Sharp) != Note(E, Natural));
    assert!(!(Note(D, Sharp) != Note(E, Flat)));
}

#[test]
fn equality_is_equality_of_pitch_classes() {
    for left in every_note() {
        for right in every_note() {
            assert_eq!(left == right, left.pitch() == right.pitch());
        }
    }
}

#[test]
fn natural_notes_have_their_letter_pitch() {
    let expected = [(A, 0), (B, 2), (C, 3), (D, 5), (E, 7), (F, 8), (G, 10)];
    for (name, pitch) in expected {
        assert_eq!(name.pitch(), pitch);
        assert_eq!(Note(name, Natural).pitch(), pitch);
    }
}

#[test]
fn accidentals_move_the_pitch() {
    assert_eq!(Note(C, DoubleFlat).pitch(), 1);
    assert_eq!(Note(C, Flat).pitch(), 2);
    assert_eq!(Note(C, Sharp).pitch(), 4);
    assert_eq!(Note(C, DoubleSharp).pitch(), 5);
}

#[test]
fn pitch_wraps_round_the_octave() {
    assert_eq!(Note(A, Flat).pitch(), 11);
    assert_eq!(Note(A, DoubleFlat).pitch(), 10);
    assert_eq!(Note(G, DoubleSharp).pitch(), 0);
    assert_eq!(Note(G, Sharp).pitch(), 11);
}

#[test]
fn accidental_offsets() {
    assert_eq!(DoubleFlat.interval(), -2);
    assert_eq!(Flat.interval(), -1);
    assert_eq!(Natural.interval(), 0);
    assert_eq!(Sharp.interval(), 1);
    assert_eq!(DoubleSharp.interval(), 2);
}

#[test]
fn accidental_symbols() {
    assert_eq!(DoubleFlat.to_string(), "bb");
    assert_eq!(Flat.to_string(), "b");
    assert_eq!(Natural.to_string(), "");
    assert_eq!(Sharp.to_string(), "#");
    assert_eq!(DoubleSharp.to_string(), "##");
}

#[test]
fn letters_step_round_the_cycle() {
    let cycle = [A, B, C, D, E, F, G];
    for i in 0..7 {
        assert_eq!(cycle[i].step_up(), cycle[(i + 1) % 7]);
        assert_eq!(cycle[(i + 1) % 7].step_down(), cycle[i]);
        assert_eq!(cycle[i].step_up().step_down(), cycle[i]);
    }
    assert_eq!(G.step_up(), A);
    assert_eq!(A.step_down(), G);
}

#[test]
fn letters_as_text() {
    let letters = [(A, "A"), (B, "B"), (C, "C"), (D, "D"), (E, "E"), (F, "F"), (G, "G")];
    for (name, text) in letters {
        assert_eq!(name.to_string(), text);
    }
}

#[test]
fn default_spellings() {
    let expected = [
        (A, Natural),
        (A, Sharp),
        (B, Natural),
        (C, Natural),
        (C, Sharp),
        (D, Natural),
        (D, Sharp),
        (E, Natural),
        (F, Natural),
        (F, Sharp),
        (G, Natural),
        (G, Sharp),
    ];
    for pitch in 0..12u8 {
        let note = Note::from_pitch(pitch).unwrap();
        assert_eq!(spelled(note), expected[pitch as usize]);
        assert_eq!(note.pitch(), pitch);
    }
}

#[test]
fn no_default_spelling_beyond_the_octave() {
    assert!(Note::from_pitch(12).is_none());
    assert!(Note::from_pitch(13).is_none());
    assert!(Note::from_pitch(255).is_none());
}

#[test]
fn enharmonic_of_sharps_and_flats() {
    assert_eq!(spelled(Note(D, Sharp).enharmonic()), (E, Flat));
    assert_eq!(spelled(Note(E, Flat).enharmonic()), (D, Sharp));
    assert_eq!(spelled(Note(G, Sharp).enharmonic()), (A, Flat));
    assert_eq!(spelled(Note(A, Flat).enharmonic()), (G, Sharp));
    assert_eq!(spelled(Note(A, Sharp).enharmonic()), (B, Flat));
}

#[test]
fn enharmonic_across_the_half_steps() {
    assert_eq!(spelled(Note(C, Flat).enharmonic()), (B, Natural));
    assert_eq!(spelled(Note(F, Flat).enharmonic()), (E, Natural));
    assert_eq!(spelled(Note(B, Sharp).enharmonic()), (C, Natural));
    assert_eq!(spelled(Note(E, Sharp).enharmonic()), (F, Natural));
}

#[test]
fn enharmonic_of_naturals_is_the_note_itself() {
    for name in [A, B, C, D, E, F, G] {
        assert_eq!(spelled(Note(name, Natural).enharmonic()), (name, Natural));
    }
}

#[test]
fn enharmonic_of_double_accidentals_is_the_default_spelling() {
    assert_eq!(spelled(Note(C, DoubleFlat).enharmonic()), (A, Sharp));
    assert_eq!(spelled(Note(G, DoubleSharp).enharmonic()), (A, Natural));
    assert_eq!(spelled(Note(D, DoubleSharp).enharmonic()), (E, Natural));
    assert_eq!(spelled(Note(A, DoubleFlat).enharmonic()), (G, Natural));
}

#[test]
fn enharmonic_keeps_the_pitch_class() {
    for note in every_note() {
        assert_eq!(note.enharmonic().pitch(), note.pitch());
        assert_eq!(note.enharmonic(), note);
    }
}

#[test]
fn enharmonic_twice_keeps_the_pitch_class() {
    for note in every_note() {
        assert_eq!(note.enharmonic().enharmonic().pitch(), note.pitch());
    }
    assert_eq!(spelled(Note(D, Sharp).enharmonic().enharmonic()), (D, Sharp));
    assert_eq!(spelled(Note(C, Flat).enharmonic().enharmonic()), (B, Natural));
    assert_eq!(spelled(Note(C, DoubleFlat).enharmonic().enharmonic()), (B, Flat));
}

#[test]
fn adding_semitones() {
    assert_eq!(spelled(Note(C, Natural) + 4i8), (E, Natural));
    assert_eq!(spelled(Note(C, Natural) + 1i8), (C, Sharp));
    assert_eq!(spelled(Note(C, Natural) + 0i8), (C, Natural));
    assert_eq!(spelled(Note(C, Natural) + 12i8), (C, Natural));
    assert_eq!(spelled(Note(C, Natural) + (-1i8)), (B, Natural));
    assert_eq!(spelled(Note(A, Natural) + (-1i8)), (G, Sharp));
    assert_eq!(spelled(Note(E, Flat) + 0i8), (D, Sharp));
}

#[test]
fn adding_semitones_at_the_ends_of_the_range() {
    assert_eq!(spelled(Note(C, Natural) + 127i8), (G, Natural));
    assert_eq!(spelled(Note(C, Natural) + i8::MIN), (E, Natural));
}

#[test]
fn subtracting_semitones() {
    assert_eq!(spelled(Note(C, Natural) - 3i8), (A, Natural));
    assert_eq!(spelled(Note(C, Natural) - (-4i8)), (E, Natural));
    assert_eq!(spelled(Note(A, Natural) - 1i8), (G, Sharp));
    assert_eq!(spelled(Note(C, Natural) - 127i8), (F, Natural));
}

#[test]
fn subtracting_the_least_number_of_semitones() {
    assert_eq!(spelled(Note(C, Natural) - i8::MIN), (G, Sharp));
}

#[test]
fn adding_and_subtracting_semitones_agree() {
    for note in every_note() {
        for delta in i8::MIN..=i8::MAX {
            let up = (note.pitch() as i32 + delta as i32).rem_euclid(12) as u8;
            let down = (note.pitch() as i32 - delta as i32).rem_euclid(12) as u8;
            assert_eq!(spelled(note + delta), spelled(Note::from_pitch(up).unwrap()));
            assert_eq!(spelled(note - delta), spelled(Note::from_pitch(down).unwrap()));
        }
    }
}

#[test]
fn adding_an_interval() {
    assert_eq!(spelled(Note(C, Natural) + CanonicalInterval::MajorThird), (E, Natural));
    assert_eq!(spelled(Note(C, Natural) + CanonicalInterval::PerfectFifth), (G, Natural));
    assert_eq!(spelled(Note(C, Natural) + CanonicalInterval::Octave), (C, Natural));
    assert_eq!(spelled(Note(C, Natural) + CanonicalInterval::MajorThirteenth), (A, Natural));
    assert_eq!(spelled(Note(F, Sharp) + CanonicalInterval::MajorSecond), (G, Sharp));
    assert_eq!(spelled(Note(G, Flat) + CanonicalInterval::Unison), (F, Sharp));
}

#[test]
fn subtracting_an_interval() {
    assert_eq!(spelled(Note(C, Natural) - CanonicalInterval::MinorThird), (A, Natural));
    assert_eq!(spelled(Note(A, Natural) - CanonicalInterval::MinorSecond), (G, Sharp));
    assert_eq!(spelled(Note(C, Natural) - CanonicalInterval::PerfectTwelfth), (F, Natural));
}

#[test]
fn up_and_down_by_an_interval_keeps_the_pitch_class() {
    for note in every_note() {
        for interval in every_interval() {
            assert_eq!(((note + interval) - interval).pitch(), note.pitch());
            assert_eq!((note + interval) - interval, note);
            assert_eq!(((note - interval) + interval).pitch(), note.pitch());
        }
    }
}

#[test]
fn up_and_down_by_an_interval_may_change_the_spelling() {
    let back = (Note(E, Flat) + CanonicalInterval::MajorThird) - CanonicalInterval::MajorThird;
    assert_eq!(spelled(back), (D, Sharp));
}

#[test]
fn notes_as_text() {
    assert_eq!(Note(C, Natural).to_string(), "C");
    assert_eq!(Note(C, Sharp).to_string(), "C#");
    assert_eq!(Note(D, DoubleFlat).to_string(), "Dbb");
    assert_eq!(Note(B, Flat).to_string(), "Bb");
    assert_eq!(Note(G, DoubleSharp).to_string(), "G##");
}

#[test]
fn parsing_accepts_notes() {
    assert_eq!(spelled(Note::parse("C").unwrap()), (C, Natural));
    assert_eq!(spelled(Note::parse("C#").unwrap()), (C, Sharp));
    assert_eq!(spelled(Note::parse("Dbb").unwrap()), (D, DoubleFlat));
    assert_eq!(spelled(Note::parse("Bb").unwrap()), (B, Flat));
    assert_eq!(spelled(Note::parse("G##").unwrap()), (G, DoubleSharp));
}

#[test]
fn parsing_accepts_small_letters() {
    assert_eq!(spelled(Note::parse("a").unwrap()), (A, Natural));
    assert_eq!(spelled(Note::parse("bb").unwrap()), (B, Flat));
    assert_eq!(spelled(Note::parse("bbb").unwrap()), (B, DoubleFlat));
    assert_eq!(spelled(Note::parse("g#").unwrap()), (G, Sharp));
}

#[test]
fn parsing_rejects_what_is_no_note() {
    for text in ["H", "", "Cbbb"] {
        let error = Note::parse(text).unwrap_err();
        assert_eq!(error.text(), text);
    }
}

#[test]
fn parsing_rejects_bad_letters_and_bad_signs() {
    let texts = [
        " C", "C ", "C #", "C#b", "Cb#", "C###", "Cx", "CB", "C♯", "é", "éb", "#", "#b", "1",
        "C\n", "CC",
    ];
    for text in texts {
        let error = Note::parse(text).unwrap_err();
        assert_eq!(error.text(), text);
    }
}

#[test]
fn parsing_reads_back_what_was_written() {
    for note in every_note() {
        let read = Note::parse(&note.to_string()).unwrap();
        assert_eq!(spelled(read), spelled(note));
    }
}

#[test]
fn parsing_through_from_str() {
    let note: Note = "F#".parse().unwrap();
    assert_eq!(spelled(note), (F, Sharp));
    let error = "Fis".parse::<Note>().unwrap_err();
    assert_eq!(error.text(), "Fis");
    assert_eq!(error, Note::parse("Fis").unwrap_err());
}

#[test]
fn unrecognized_note_prints_its_text() {
    let error = Note::parse("H").unwrap_err();
    assert_eq!(format!("{:?}", error), "UnrecognizedNote(\"H\")");
    assert_eq!(error.clone(), error);
}
