//! Notes: a letter name with an accidental, and the pitch class it sounds.

use vstd::prelude::*;

use crate::accidental::Accidental;
use crate::interval::canonical::CanonicalInterval;
use crate::note_name::NoteName;

verus! {

/// A spelled note. Two spellings of one sound, such as D sharp and E flat,
/// are different values that compare equal with `==`.
#[derive(Debug, Copy, Clone)]
pub struct Note(pub NoteName, pub Accidental);

impl Note {
    /// The pitch class of the note: its distance in semitones above A,
    /// taken within one octave.
    pub open spec fn pitch_class(self) -> int {
        (self.0.offset() + self.1.semitones()) % 12
    }

    /// The spelling that stands for a pitch class by default: the natural
    /// note where there is one, else the sharp of the letter below.
    pub open spec fn default_spelling(pitch_class: int) -> Note {
        if pitch_class == 0 {
            Note(NoteName::A, Accidental::Natural)
        } else if pitch_class == 1 {
            Note(NoteName::A, Accidental::Sharp)
        } else if pitch_class == 2 {
            Note(NoteName::B, Accidental::Natural)
        } else if pitch_class == 3 {
            Note(NoteName::C, Accidental::Natural)
        } else if pitch_class == 4 {
            Note(NoteName::C, Accidental::Sharp)
        } else if pitch_class == 5 {
            Note(NoteName::D, Accidental::Natural)
        } else if pitch_class == 6 {
            Note(NoteName::D, Accidental::Sharp)
        } else if pitch_class == 7 {
            Note(NoteName::E, Accidental::Natural)
        } else if pitch_class == 8 {
            Note(NoteName::F, Accidental::Natural)
        } else if pitch_class == 9 {
            Note(NoteName::F, Accidental::Sharp)
        } else if pitch_class == 10 {
            Note(NoteName::G, Accidental::Natural)
        } else {
            Note(NoteName::G, Accidental::Sharp)
        }
    }

    /// The note `delta` semitones away, in its default spelling.
    pub open spec fn transposed(self, delta: int) -> Note {
        Note::default_spelling((self.pitch_class() + delta) % 12)
    }

    /// The default spelling of a pitch class; nothing for a number that is
    /// no pitch class.
    pub fn from_pitch(pitch: u8) -> (found: Option<Self>)
        ensures
            pitch < 12 ==> found == Some(Note::default_spelling(pitch as int)),
            pitch >= 12 ==> found is None,
    {
        match pitch {
            0 => Some(Note(NoteName::A, Accidental::Natural)),
            1 => Some(Note(NoteName::A, Accidental::Sharp)),
            2 => Some(Note(NoteName::B, Accidental::Natural)),
            3 => Some(Note(NoteName::C, Accidental::Natural)),
            4 => Some(Note(NoteName::C, Accidental::Sharp)),
            5 => Some(Note(NoteName::D, Accidental::Natural)),
            6 => Some(Note(NoteName::D, Accidental::Sharp)),
            7 => Some(Note(NoteName::E, Accidental::Natural)),
            8 => Some(Note(NoteName::F, Accidental::Natural)),
            9 => Some(Note(NoteName::F, Accidental::Sharp)),
            10 => Some(Note(NoteName::G, Accidental::Natural)),
            11 => Some(Note(NoteName::G, Accidental::Sharp)),
            _ => None,
        }
    }

    /// The letter name of the note.
    pub fn note_name(self) -> (name: NoteName)
        ensures
            name == self.0,
    {
        self.0
    }

    /// The accidental of the note.
    pub fn accidental(self) -> (accidental: Accidental)
        ensures
            accidental == self.1,
    {
        self.1
    }

    /// The pitch class of the note.
    pub fn pitch(self) -> (pitch: u8)
        ensures
            pitch == self.pitch_class(),
            pitch < 12,
    {
        let raised: i8 = 12 + (self.note_name().pitch() as i8) + self.accidental().interval();
        (raised as u8) % 12
    }

    /// The other common spelling of the same sound. A natural is its own
    /// respelling; a flat becomes the letter below, with a sharp unless the
    /// flatted letter is C or F; a sharp becomes the letter above, with a
    /// flat unless the sharpened letter is B or E; a double accidental
    /// becomes the default spelling of its pitch class.
    pub open spec fn respelled(self) -> Note {
        match self.1 {
            Accidental::Natural => self,
            Accidental::DoubleFlat | Accidental::DoubleSharp => Note::default_spelling(
                self.pitch_class(),
            ),
            Accidental::Flat => Note(
                NoteName::from_degree((self.0.degree() + 6) % 7),
                if self.0 == NoteName::C || self.0 == NoteName::F {
                    Accidental::Natural
                } else {
                    Accidental::Sharp
                },
            ),
            Accidental::Sharp => Note(
                NoteName::from_degree((self.0.degree() + 1) % 7),
                if self.0 == NoteName::B || self.0 == NoteName::E {
                    Accidental::Natural
                } else {
                    Accidental::Flat
                },
            ),
        }
    }

    /// The other common spelling of the same sound.
    pub fn enharmonic(self) -> (other: Self)
        ensures
            other == self.respelled(),
            other.pitch_class() == self.pitch_class(),
    {
        match self.accidental() {
            Accidental::Natural => self,
            Accidental::DoubleFlat | Accidental::DoubleSharp => {
                match Note::from_pitch(self.pitch()) {
                    Some(note) => note,
                    None => unreached(),
                }
            },
            Accidental::Flat => {
                let name = self.note_name();
                let accidental = match name {
                    NoteName::C | NoteName::F => Accidental::Natural,
                    _ => Accidental::Sharp,
                };
                Note(name.step_down(), accidental)
            },
            Accidental::Sharp => {
                let name = self.note_name();
                let accidental = match name {
                    NoteName::B | NoteName::E => Accidental::Natural,
                    _ => Accidental::Flat,
                };
                Note(name.step_up(), accidental)
            },
        }
    }
}

/// The text that was offered as a note and is none.
#[derive(Debug, PartialEq, Eq)]
pub struct UnrecognizedNote(String);

impl Clone for UnrecognizedNote {
    fn clone(&self) -> (copy: Self)
        ensures
            copy@ == self@,
    {
        UnrecognizedNote(self.0.clone())
    }
}

impl View for UnrecognizedNote {
    type V = Seq<char>;

    /// The offending text.
    closed spec fn view(&self) -> Seq<char> {
        self.0@
    }
}

impl UnrecognizedNote {
    fn new(text: &str) -> (error: Self)
        ensures
            error@ == text@,
    {
        UnrecognizedNote(String::from_str(text))
    }

    /// The offending text.
    pub fn text(&self) -> (text: &str)
        ensures
            text@ == self@,
    {
        self.0.as_str()
    }
}

/// The letter name that a character stands for, in either case.
pub open spec fn letter_name(c: char) -> Option<NoteName> {
    if c == 'A' || c == 'a' {
        Some(NoteName::A)
    } else if c == 'B' || c == 'b' {
        Some(NoteName::B)
    } else if c == 'C' || c == 'c' {
        Some(NoteName::C)
    } else if c == 'D' || c == 'd' {
        Some(NoteName::D)
    } else if c == 'E' || c == 'e' {
        Some(NoteName::E)
    } else if c == 'F' || c == 'f' {
        Some(NoteName::F)
    } else if c == 'G' || c == 'g' {
        Some(NoteName::G)
    } else {
        None
    }
}

/// The accidental that a suffix stands for: one of the five signs, exactly.
pub open spec fn accidental_sign(suffix: Seq<char>) -> Option<Accidental> {
    if suffix == Accidental::DoubleFlat.symbol() {
        Some(Accidental::DoubleFlat)
    } else if suffix == Accidental::Flat.symbol() {
        Some(Accidental::Flat)
    } else if suffix == Accidental::Natural.symbol() {
        Some(Accidental::Natural)
    } else if suffix == Accidental::Sharp.symbol() {
        Some(Accidental::Sharp)
    } else if suffix == Accidental::DoubleSharp.symbol() {
        Some(Accidental::DoubleSharp)
    } else {
        None
    }
}

/// What `accidental_sign` is, told by the length of the suffix and by its
/// characters.
proof fn lemma_accidental_sign_by_characters(suffix: Seq<char>)
    ensures
        suffix.len() == 0 ==> accidental_sign(suffix) == Some(Accidental::Natural),
        suffix.len() == 1 ==> accidental_sign(suffix) == if suffix[0] == 'b' {
            Some(Accidental::Flat)
        } else if suffix[0] == '#' {
            Some(Accidental::Sharp)
        } else {
            None
        },
        suffix.len() == 2 ==> accidental_sign(suffix) == if suffix[0] == 'b' && suffix[1] == 'b' {
            Some(Accidental::DoubleFlat)
        } else if suffix[0] == '#' && suffix[1] == '#' {
            Some(Accidental::DoubleSharp)
        } else {
            None
        },
        suffix.len() > 2 ==> accidental_sign(suffix) is None,
{
    let double_flat = Accidental::DoubleFlat.symbol();
    let flat = Accidental::Flat.symbol();
    let natural = Accidental::Natural.symbol();
    let sharp = Accidental::Sharp.symbol();
    let double_sharp = Accidental::DoubleSharp.symbol();
    assert(double_flat.len() == 2 && double_flat[0] == 'b' && double_flat[1] == 'b');
    assert(flat.len() == 1 && flat[0] == 'b');
    assert(natural.len() == 0);
    assert(sharp.len() == 1 && sharp[0] == '#');
    assert(double_sharp.len() == 2 && double_sharp[0] == '#' && double_sharp[1] == '#');
    if suffix.len() == 0 {
        assert(suffix =~= natural);
    } else if suffix.len() == 1 {
        if suffix[0] == 'b' {
            assert(suffix =~= flat);
        } else if suffix[0] == '#' {
            assert(suffix =~= sharp);
        }
    } else if suffix.len() == 2 {
        if suffix[0] == 'b' && suffix[1] == 'b' {
            assert(suffix =~= double_flat);
        } else if suffix[0] == '#' && suffix[1] == '#' {
            assert(suffix =~= double_sharp);
        }
    }
}

impl Note {
    /// The note as it is written: the letter, then the sign of the accidental.
    pub open spec fn spelling(self) -> Seq<char> {
        seq![self.0.letter()] + self.1.symbol()
    }

    /// The note that a text spells, if it spells one: a letter from A to G
    /// in either case, followed by nothing else than one of the five signs.
    pub open spec fn parsed(text: Seq<char>) -> Option<Note> {
        if text.len() == 0 {
            None
        } else {
            match (letter_name(text[0]), accidental_sign(text.subrange(1, text.len() as int))) {
                (Some(name), Some(accidental)) => Some(Note(name, accidental)),
                _ => None,
            }
        }
    }

    /// The note as text.
    pub fn to_string(&self) -> (text: String)
        ensures
            text@ == self.spelling(),
    {
        let mut text = self.0.to_string();
        let sign = self.1.to_string();
        text.append(sign.as_str());
        text
    }

    /// The note as it is shown to the player.
    pub fn to_display_string(&self) -> (text: String)
        ensures
            text@ == self.spelling(),
    {
        self.to_string()
    }

    /// Reads a note. The text is accepted exactly when it spells a note;
    /// otherwise the error carries the text as it was given.
    pub fn parse(text: &str) -> (result: Result<Note, UnrecognizedNote>)
        ensures
            match Note::parsed(text@) {
                Some(note) => result == Ok::<Note, UnrecognizedNote>(note),
                None => result is Err && result->Err_0@ == text@,
            },
    {
        let length = text.unicode_len();
        if length == 0 {
            return Err(UnrecognizedNote::new(text));
        }
        let name = match text.get_char(0) {
            'A' | 'a' => NoteName::A,
            'B' | 'b' => NoteName::B,
            'C' | 'c' => NoteName::C,
            'D' | 'd' => NoteName::D,
            'E' | 'e' => NoteName::E,
            'F' | 'f' => NoteName::F,
            'G' | 'g' => NoteName::G,
            _ => {
                return Err(UnrecognizedNote::new(text));
            },
        };
        proof {
            lemma_accidental_sign_by_characters(text@.subrange(1, text@.len() as int));
        }
        let accidental = if length == 1 {
            Accidental::Natural
        } else if length == 2 {
            let sign = text.get_char(1);
            if sign == 'b' {
                Accidental::Flat
            } else if sign == '#' {
                Accidental::Sharp
            } else {
                return Err(UnrecognizedNote::new(text));
            }
        } else if length == 3 {
            let first = text.get_char(1);
            let second = text.get_char(2);
            if first == 'b' && second == 'b' {
                Accidental::DoubleFlat
            } else if first == '#' && second == '#' {
                Accidental::DoubleSharp
            } else {
                return Err(UnrecognizedNote::new(text));
            }
        } else {
            return Err(UnrecognizedNote::new(text));
        };
        Ok(Note(name, accidental))
    }
}

impl std::str::FromStr for Note {
    type Err = UnrecognizedNote;

    fn from_str(text: &str) -> (result: Result<Self, Self::Err>)
        ensures
            match Note::parsed(text@) {
                Some(note) => result == Ok::<Note, UnrecognizedNote>(note),
                None => result is Err && result->Err_0@ == text@,
            },
    {
        Note::parse(text)
    }
}

/// Notes are equal when they sound the same pitch class, however they are
/// spelled.
impl PartialEq for Note {
    fn eq(&self, other: &Self) -> (equal: bool) {
        self.pitch() == other.pitch()
    }
}

impl vstd::std_specs::cmp::PartialEqSpecImpl for Note {
    open spec fn obeys_eq_spec() -> bool {
        true
    }

    open spec fn eq_spec(&self, other: &Self) -> bool {
        self.pitch_class() == other.pitch_class()
    }
}

impl Note {
    /// The note `delta` semitones away, for any distance that an `i8` or a
    /// named interval can give, in either direction.
    fn moved_by(self, delta: i16) -> (moved: Note)
        requires
            -252 <= delta <= 252,
        ensures
            moved == self.transposed(delta as int),
    {
        // 252 is a multiple of twelve, so adding it keeps the pitch class.
        let lifted: i16 = delta + 252;
        let step: u16 = (lifted as u16) % 12;
        let pitch: u8 = (((self.pitch() as u16) + step) % 12) as u8;
        match Note::from_pitch(pitch) {
            Some(note) => note,
            None => unreached(),
        }
    }
}

/// A note moved up by a signed number of semitones; a negative number moves
/// it down.
impl std::ops::Add<i8> for Note {
    type Output = Note;

    fn add(self, interval: i8) -> (moved: Note) {
        self.moved_by(interval as i16)
    }
}

impl vstd::std_specs::ops::AddSpecImpl<i8> for Note {
    open spec fn obeys_add_spec() -> bool {
        true
    }

    open spec fn add_req(self, interval: i8) -> bool {
        true
    }

    open spec fn add_spec(self, interval: i8) -> Note {
        self.transposed(interval as int)
    }
}

/// A note moved down by a signed number of semitones; a negative number
/// moves it up.
impl std::ops::Sub<i8> for Note {
    type Output = Note;

    fn sub(self, interval: i8) -> (moved: Note) {
        self.moved_by(-(interval as i16))
    }
}

impl vstd::std_specs::ops::SubSpecImpl<i8> for Note {
    open spec fn obeys_sub_spec() -> bool {
        true
    }

    open spec fn sub_req(self, interval: i8) -> bool {
        true
    }

    open spec fn sub_spec(self, interval: i8) -> Note {
        self.transposed(-(interval as int))
    }
}

/// A note moved up by a named interval.
impl std::ops::Add<CanonicalInterval> for Note {
    type Output = Note;

    fn add(self, interval: CanonicalInterval) -> (moved: Note) {
        self.moved_by(interval.size() as i16)
    }
}

impl vstd::std_specs::ops::AddSpecImpl<CanonicalInterval> for Note {
    open spec fn obeys_add_spec() -> bool {
        true
    }

    open spec fn add_req(self, interval: CanonicalInterval) -> bool {
        true
    }

    open spec fn add_spec(self, interval: CanonicalInterval) -> Note {
        self.transposed(interval.semitones())
    }
}

/// A note moved down by a named interval.
impl std::ops::Sub<CanonicalInterval> for Note {
    type Output = Note;

    fn sub(self, interval: CanonicalInterval) -> (moved: Note) {
        self.moved_by(-(interval.size() as i16))
    }
}

impl vstd::std_specs::ops::SubSpecImpl<CanonicalInterval> for Note {
    open spec fn obeys_sub_spec() -> bool {
        true
    }

    open spec fn sub_req(self, interval: CanonicalInterval) -> bool {
        true
    }

    open spec fn sub_spec(self, interval: CanonicalInterval) -> Note {
        self.transposed(-interval.semitones())
    }
}

/// The default spelling of a pitch class sounds that pitch class.
pub proof fn lemma_default_spelling_pitch_class(pitch_class: int)
    requires
        0 <= pitch_class < 12,
    ensures
        Note::default_spelling(pitch_class).pitch_class() == pitch_class,
{
}

/// Going `delta` semitones round the circle of twelve pitch classes and
/// back again ends where it began.
proof fn lemma_there_and_back(pitch_class: int, delta: int)
    requires
        0 <= pitch_class < 12,
    ensures
        (((pitch_class + delta) % 12) - delta) % 12 == pitch_class,
{
}

/// A transposed note sounds the pitch class that lies `delta` semitones from
/// the one it started on.
pub proof fn lemma_transposed_pitch_class(note: Note, delta: int)
    ensures
        note.transposed(delta).pitch_class() == (note.pitch_class() + delta) % 12,
{
    lemma_default_spelling_pitch_class((note.pitch_class() + delta) % 12);
}

/// Moving a note up by an interval and down again by the same interval
/// gives back its pitch class, though not always its spelling.
pub proof fn lemma_add_sub_round_trip(note: Note, interval: CanonicalInterval)
    ensures
        note.transposed(interval.semitones()).transposed(-interval.semitones()).pitch_class()
            == note.pitch_class(),
{
    let delta = interval.semitones();
    let up = note.transposed(delta);
    lemma_transposed_pitch_class(note, delta);
    lemma_transposed_pitch_class(up, -delta);
    lemma_there_and_back(note.pitch_class(), delta);
}

/// Respelling a note keeps its pitch class.
pub proof fn lemma_respelled_pitch_class(note: Note)
    ensures
        note.respelled().pitch_class() == note.pitch_class(),
{
    lemma_default_spelling_pitch_class(note.pitch_class());
}

/// Respelling a note twice gives a spelling of the pitch class it began
/// with.
pub proof fn lemma_respelled_twice_pitch_class(note: Note)
    ensures
        note.respelled().respelled().pitch_class() == note.pitch_class(),
{
    lemma_respelled_pitch_class(note);
    lemma_respelled_pitch_class(note.respelled());
}

/// Respelling a note twice gives back the note itself exactly where the
/// note has another common spelling or is a natural: not for a double
/// accidental, nor for C flat, F flat, B sharp and E sharp, whose other
/// spelling is a natural.
pub proof fn lemma_respelled_twice_spelling(note: Note)
    ensures
        note.respelled().respelled() == note <==> match note.1 {
            Accidental::Natural => true,
            Accidental::Flat => note.0 != NoteName::C && note.0 != NoteName::F,
            Accidental::Sharp => note.0 != NoteName::B && note.0 != NoteName::E,
            Accidental::DoubleFlat | Accidental::DoubleSharp => false,
        },
{
    let pitch_class = note.pitch_class();
    let default = Note::default_spelling(pitch_class);
    assert(default.1 == Accidental::Natural || default.1 == Accidental::Sharp);
}

} // verus!
