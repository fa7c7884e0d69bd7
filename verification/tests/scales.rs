use music_exercises::accidental::Accidental;
use music_exercises::accidental::Accidental::{DoubleFlat, DoubleSharp, Flat, Natural, Sharp};
use music_exercises::interval::canonical::CanonicalInterval;
use music_exercises::interval::canonical::CanonicalInterval::{
    MajorSecond, MinorSecond, MinorThird,
};
use music_exercises::note::Note;
use music_exercises::note_name::NoteName;
use music_exercises::note_name::NoteName::{A, B, C, D, E, F, G};
use music_exercises::scale::modal::ModalScale;
use music_exercises::scale::mode::Mode;
use music_exercises::scale::Scale;

const MAJOR: [u8; 7] = [2, 2, 1, 2, 2, 2, 1];
const MINOR: [u8; 7] = [2, 1, 2, 2, 1, 2, 2];
const HARMONIC_MINOR: [u8; 7] = [2, 1, 2, 2, 1, 3, 1];

fn scale_spellings(notes: &[Note]) -> Vec<(NoteName, Accidental)> {
    notes.iter().map(|note| (note.note_name(), note.accidental())).collect()
}

fn sizes(scale: &Scale) -> Vec<u8> {
    scale.intervals.iter().map(|interval| interval.size()).collect()
}

#[test]
fn test_spell() {
    let minor_scale = ModalScale::new(
        Scale::from_intervals("Major", &[2, 2, 1, 2, 2, 2, 1]),
        Mode::Aeolian,
    );

    let notes = minor_scale.spell(Note(F, Sharp));
    let expected_notes = vec![
        Note(F, Sharp),
        Note(G, Sharp),
        Note(A, Natural),
        Note(B, Natural),
        Note(C, Sharp),
        Note(D, Natural),
        Note(E, Natural),
    ];

    assert_eq!(notes.len(), expected_notes.len());

    for i in 0..notes.len() {
        assert_eq!(
            (notes[i].note_name(), notes[i].accidental()),
            (
                expected_notes[i].note_name(),
                expected_notes[i].accidental()
            )
        );
    }
}

#[test]
fn aeolian_mode_is_the_minor_scale() {
    let modal = ModalScale::new(Scale::from_intervals("Major", &MAJOR), Mode::Aeolian);
    let minor = Scale::from_intervals("Minor", &MINOR);
    assert_eq!(
        scale_spellings(&modal.spell(Note(F, Sharp))),
        scale_spellings(&minor.spell(Note(F, Sharp)))
    );
}

#[test]
fn scales_from_sizes() {
    let scale = Scale::from_intervals("Major", &MAJOR);
    assert_eq!(scale.name, "Major");
    assert_eq!(
        scale.intervals,
        vec![
            MajorSecond,
            MajorSecond,
            MinorSecond,
            MajorSecond,
            MajorSecond,
            MajorSecond,
            MinorSecond
        ]
    );
    assert_eq!(Scale::from_intervals("", &[3]).intervals, vec![MinorThird]);
}

#[test]
fn scale_clones() {
    let scale = Scale::from_intervals("Harmonic Minor", &HARMONIC_MINOR);
    let copy = scale.clone();
    assert_eq!(copy.name, scale.name);
    assert_eq!(copy.intervals, scale.intervals);
}

#[test]
fn major_scale_from_c() {
    let notes = Scale::from_intervals("Major", &MAJOR).spell(Note(C, Natural));
    assert_eq!(
        scale_spellings(&notes),
        vec![
            (C, Natural),
            (D, Natural),
            (E, Natural),
            (F, Natural),
            (G, Natural),
            (A, Natural),
            (B, Natural)
        ]
    );
}

#[test]
fn harmonic_minor_scale_from_a() {
    let notes = Scale::from_intervals("Harmonic Minor", &HARMONIC_MINOR).spell(Note(A, Natural));
    assert_eq!(
        scale_spellings(&notes),
        vec![
            (A, Natural),
            (B, Natural),
            (C, Natural),
            (D, Natural),
            (E, Natural),
            (F, Natural),
            (G, Sharp)
        ]
    );
}

#[test]
fn sharps_on_the_letter_just_used_become_flats() {
    let notes = Scale::from_intervals("Major", &MAJOR).spell(Note(D, Flat));
    assert_eq!(
        scale_spellings(&notes),
        vec![
            (D, Flat),
            (E, Flat),
            (F, Natural),
            (G, Flat),
            (A, Flat),
            (B, Flat),
            (C, Natural)
        ]
    );
}

#[test]
fn a_natural_on_the_letter_just_used_stays() {
    let notes = Scale::from_intervals("Major", &MAJOR).spell(Note(G, Flat));
    assert_eq!(
        scale_spellings(&notes),
        vec![
            (G, Flat),
            (A, Flat),
            (B, Flat),
            (B, Natural),
            (C, Sharp),
            (D, Sharp),
            (F, Natural)
        ]
    );
}

#[test]
fn a_scale_has_one_note_for_each_step() {
    let roots = [Note(C, Natural), Note(F, Sharp), Note(B, Flat), Note(E, DoubleFlat)];
    for root in roots {
        for steps in [&MAJOR[..], &MINOR[..], &HARMONIC_MINOR[..], &[1, 1, 1][..], &[12][..]] {
            let scale = Scale::from_intervals("Scale", steps);
            assert_eq!(scale.spell(root).len(), steps.len());
        }
    }
    assert_eq!(Scale::from_intervals("Major", &MAJOR).spell(Note(C, Natural)).len(), 7);
}

#[test]
fn seven_step_scales_from_natural_roots_use_each_letter_once() {
    for root in [A, B, C, D, E, F, G] {
        for steps in [MAJOR, MINOR] {
            let notes = Scale::from_intervals("Scale", &steps).spell(Note(root, Natural));
            assert_eq!(notes.len(), 7);
            for i in 1..notes.len() {
                assert_ne!(notes[i].note_name(), notes[i - 1].note_name());
            }
        }
    }
}

#[test]
fn a_scale_without_steps_has_no_notes() {
    let scale = Scale::from_intervals("Nothing", &[]);
    assert!(scale.spell(Note(C, Natural)).is_empty());
}

#[test]
fn the_first_note_of_a_scale_is_its_root_as_spelled() {
    let scale = Scale::from_intervals("Major", &MAJOR);
    for root in [Note(E, DoubleFlat), Note(B, Sharp), Note(C, Flat), Note(G, DoubleSharp)] {
        let notes = scale.spell(root);
        assert_eq!(
            (notes[0].note_name(), notes[0].accidental()),
            (root.note_name(), root.accidental())
        );
    }
}

#[test]
fn scale_notes_sound_the_steps_from_the_root() {
    let roots = [Note(C, Natural), Note(G, Flat), Note(A, Sharp), Note(F, DoubleSharp)];
    for root in roots {
        for steps in [MAJOR, MINOR, HARMONIC_MINOR] {
            let notes = Scale::from_intervals("Scale", &steps).spell(root);
            let mut pitch = root.pitch();
            for i in 0..notes.len() {
                assert_eq!(notes[i].pitch(), pitch);
                pitch = (pitch + steps[i]) % 12;
            }
        }
    }
}

#[test]
fn shifting_turns_the_steps() {
    let major = Scale::from_intervals("Major", &MAJOR);
    assert_eq!(sizes(&major.shift(5)), vec![2, 1, 2, 2, 1, 2, 2]);
    assert_eq!(sizes(&major.shift(5)), MINOR.to_vec());
    assert_eq!(sizes(&major.shift(1)), vec![2, 1, 2, 2, 2, 1, 2]);
    assert_eq!(sizes(&major.shift(6)), vec![1, 2, 2, 1, 2, 2, 2]);
    assert_eq!(sizes(&major.shift(0)), MAJOR.to_vec());
}

#[test]
fn shifting_goes_round_the_scale() {
    let major = Scale::from_intervals("Major", &MAJOR);
    assert_eq!(sizes(&major.shift(7)), MAJOR.to_vec());
    assert_eq!(sizes(&major.shift(12)), MINOR.to_vec());
    assert_eq!(sizes(&major.shift(usize::MAX)), sizes(&major.shift(usize::MAX % 7)));
    assert_eq!(major.shift(7).name, "Major(+0)");
    assert_eq!(major.shift(12).name, "Major(+5)");
}

#[test]
fn shifting_names_the_scale_after_the_steps() {
    let major = Scale::from_intervals("Major", &MAJOR);
    assert_eq!(major.shift(0).name, "Major(+0)");
    assert_eq!(major.shift(5).name, "Major(+5)");
    assert_eq!(major.shift(5).shift(2).name, "Major(+5)(+2)");
    let chromatic = Scale::from_intervals("Chromatic", &[1; 12]);
    assert_eq!(chromatic.shift(11).name, "Chromatic(+11)");
    assert_eq!(chromatic.shift(10).name, "Chromatic(+10)");
    let long = Scale::from_intervals("Long", &[2; 130]);
    assert_eq!(long.shift(129).name, "Long(+129)");
    assert_eq!(long.shift(100).name, "Long(+100)");
}

#[test]
fn shifting_a_scale_of_one_step() {
    let scale = Scale::from_intervals("Octaves", &[12]);
    let shifted = scale.shift(3);
    assert_eq!(shifted.name, "Octaves(+0)");
    assert_eq!(shifted.intervals, vec![CanonicalInterval::Octave]);
}

#[test]
fn modes_from_numbers() {
    let modes = [
        Mode::Ionian,
        Mode::Dorian,
        Mode::Phrygian,
        Mode::Lydian,
        Mode::Mixolydian,
        Mode::Aeolian,
        Mode::Locrian,
    ];
    for number in 0..7u8 {
        assert_eq!(Mode::from(number), modes[number as usize]);
        assert_eq!(Mode::from(number).index(), number as usize);
    }
}

#[test]
fn modes_from_numbers_go_round() {
    assert_eq!(Mode::from(7), Mode::Ionian);
    assert_eq!(Mode::from(8), Mode::Dorian);
    assert_eq!(Mode::from(13), Mode::Locrian);
    assert_eq!(Mode::from(250), Mode::Aeolian);
    assert_eq!(Mode::from(255), Mode::Lydian);
    for number in 0..=255u8 {
        assert_eq!(Mode::from(number).index(), (number % 7) as usize);
    }
    let mode: Mode = 12u8.into();
    assert_eq!(mode, Mode::Aeolian);
}

#[test]
fn mode_names() {
    assert_eq!(Mode::Ionian.to_string(), "Ionian");
    assert_eq!(Mode::Dorian.to_string(), "Dorian");
    assert_eq!(Mode::Phrygian.to_string(), "Phrygian");
    assert_eq!(Mode::Lydian.to_string(), "Lydian");
    assert_eq!(Mode::Mixolydian.to_string(), "Mixolydian");
    assert_eq!(Mode::Aeolian.to_string(), "Aeolian");
    assert_eq!(Mode::Locrian.to_string(), "Locrian");
    for number in 0..7u8 {
        let mode = Mode::from(number);
        assert_eq!(mode.to_string(), format!("{:?}", mode));
    }
}

#[test]
fn a_modal_scale_is_the_parent_scale_shifted() {
    let major = Scale::from_intervals("Major", &MAJOR);
    for number in 0..7u8 {
        let mode = Mode::from(number);
        let modal = ModalScale::new(major.clone(), mode);
        assert_eq!(modal.mode, mode);
        assert_eq!(modal.scale.name, "Major");
        for root in [Note(C, Natural), Note(F, Sharp), Note(B, Flat)] {
            assert_eq!(
                scale_spellings(&modal.spell(root)),
                scale_spellings(&major.shift(number as usize).spell(root))
            );
        }
    }
}

#[test]
fn dorian_mode_from_d() {
    let modal = ModalScale::new(Scale::from_intervals("Major", &MAJOR), Mode::Dorian);
    assert_eq!(
        scale_spellings(&modal.spell(Note(D, Natural))),
        vec![
            (D, Natural),
            (E, Natural),
            (F, Natural),
            (G, Natural),
            (A, Natural),
            (B, Natural),
            (C, Natural)
        ]
    );
}

#[test]
fn a_mode_beyond_the_steps_of_a_short_scale_goes_round() {
    let scale = Scale::from_intervals("Thirds", &[4, 4, 4]);
    let modal = ModalScale::new(scale, Mode::Aeolian);
    assert_eq!(
        scale_spellings(&modal.spell(Note(C, Natural))),
        vec![(C, Natural), (E, Natural), (G, Sharp)]
    );
}

#[test]
fn double_sharp_roots_are_kept() {
    let notes = Scale::from_intervals("Major", &MAJOR).spell(Note(F, DoubleSharp));
    assert_eq!((notes[0].note_name(), notes[0].accidental()), (F, DoubleSharp));
    assert_eq!((notes[1].note_name(), notes[1].accidental()), (A, Natural));
}
