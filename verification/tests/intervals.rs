use music_exercises::interval::canonical::CanonicalInterval;
use music_exercises::interval::canonical::CanonicalInterval::{
    MajorNinth, MajorSecond, MajorSeventh, MajorSixth, MajorTenth, MajorThird, MajorThirteenth,
    MinorNinth, MinorSecond, MinorSeventh, MinorSixth, MinorTenth, MinorThird, MinorThirteenth,
    Octave, PerfectEleventh, PerfectFifth, PerfectFourth, PerfectTwelfth, Tritone, Unison,
};

fn catalogue() -> Vec<(CanonicalInterval, u8, &'static str)> {
    vec![
        (Unison, 0, "Unison"),
        (MinorSecond, 1, "Minor 2"),
        (MajorSecond, 2, "Major 2"),
        (MinorThird, 3, "Minor 3"),
        (MajorThird, 4, "Major 3"),
        (PerfectFourth, 5, "Perfect 4"),
        (Tritone, 6, "Tritone"),
        (PerfectFifth, 7, "Perfect 5"),
        (MinorSixth, 8, "Minor 6"),
        (MajorSixth, 9, "Major 6"),
        (MinorSeventh, 10, "Minor 7"),
        (MajorSeventh, 11, "Major 7"),
        (Octave, 12, "Octave"),
        (MinorNinth, 13, "Minor 9"),
        (MajorNinth, 14, "Major 9"),
        (MinorTenth, 15, "Minor 10"),
        (MajorTenth, 16, "Major 10"),
        (PerfectEleventh, 17, "Perfect 11"),
        (PerfectTwelfth, 19, "Perfect 12"),
        (MinorThirteenth, 20, "Minor 13"),
        (MajorThirteenth, 21, "Major 13"),
    ]
}

#[test]
fn interval_sizes() {
    for (interval, size, _) in catalogue() {
        assert_eq!(interval.size(), size);
    }
}

#[test]
fn interval_names() {
    for (interval, _, name) in catalogue() {
        assert_eq!(interval.to_string(), name);
    }
}

#[test]
fn intervals_from_their_sizes() {
    for (interval, size, _) in catalogue() {
        assert_eq!(CanonicalInterval::from(size), interval);
        assert_eq!(CanonicalInterval::try_from(size), Some(interval));
    }
}

#[test]
fn no_interval_of_eighteen_semitones() {
    assert_eq!(CanonicalInterval::try_from(18), None);
}

#[test]
fn no_interval_beyond_the_major_thirteenth() {
    assert_eq!(CanonicalInterval::try_from(22), None);
    assert_eq!(CanonicalInterval::try_from(100), None);
    assert_eq!(CanonicalInterval::try_from(255), None);
}
