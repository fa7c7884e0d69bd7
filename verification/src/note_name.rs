//! The seven letter names of the diatonic notes.

use vstd::prelude::*;

verus! {

/// A letter name. Letters are spaced as on the keyboard: a whole step apart,
/// except for the half steps between B and C and between E and F.
#[derive(Debug, Copy, Clone, PartialEq, Eq, Structural)]
pub enum NoteName {
    A,
    B,
    C,
    D,
    E,
    F,
    G,
}

impl NoteName {
    /// The position of the letter in the cycle A, B, ..., G, counted from zero.
    pub open spec fn degree(self) -> int {
        match self {
            NoteName::A => 0,
            NoteName::B => 1,
            NoteName::C => 2,
            NoteName::D => 3,
            NoteName::E => 4,
            NoteName::F => 5,
            NoteName::G => 6,
        }
    }

    /// The letter at a position of the cycle A, B, ..., G.
    pub open spec fn from_degree(degree: int) -> NoteName {
        if degree == 0 {
            NoteName::A
        } else if degree == 1 {
            NoteName::B
        } else if degree == 2 {
            NoteName::C
        } else if degree == 3 {
            NoteName::D
        } else if degree == 4 {
            NoteName::E
        } else if degree == 5 {
            NoteName::F
        } else {
            NoteName::G
        }
    }

    /// The number of semitones from A up to the natural note of this letter.
    pub open spec fn offset(self) -> int {
        match self {
            NoteName::A => 0,
            NoteName::B => 2,
            NoteName::C => 3,
            NoteName::D => 5,
            NoteName::E => 7,
            NoteName::F => 8,
            NoteName::G => 10,
        }
    }

    /// The letter as it is written.
    pub open spec fn letter(self) -> char {
        match self {
            NoteName::A => 'A',
            NoteName::B => 'B',
            NoteName::C => 'C',
            NoteName::D => 'D',
            NoteName::E => 'E',
            NoteName::F => 'F',
            NoteName::G => 'G',
        }
    }

    /// The pitch class of the natural note of this letter.
    pub fn pitch(self) -> (p: u8)
        ensures
            p == self.offset(),
            p < 12,
    {
        match self {
            NoteName::A => 0,
            NoteName::B => 2,
            NoteName::C => 3,
            NoteName::D => 5,
            NoteName::E => 7,
            NoteName::F => 8,
            NoteName::G => 10,
        }
    }

    /// The next letter; G is followed by A.
    pub fn step_up(self) -> (next: Self)
        ensures
            next == NoteName::from_degree((self.degree() + 1) % 7),
    {
        match self {
            NoteName::A => NoteName::B,
            NoteName::B => NoteName::C,
            NoteName::C => NoteName::D,
            NoteName::D => NoteName::E,
            NoteName::E => NoteName::F,
            NoteName::F => NoteName::G,
            NoteName::G => NoteName::A,
        }
    }

    /// The previous letter; A is preceded by G.
    pub fn step_down(self) -> (previous: Self)
        ensures
            previous == NoteName::from_degree((self.degree() + 6) % 7),
    {
        match self {
            NoteName::A => NoteName::G,
            NoteName::B => NoteName::A,
            NoteName::C => NoteName::B,
            NoteName::D => NoteName::C,
            NoteName::E => NoteName::D,
            NoteName::F => NoteName::E,
            NoteName::G => NoteName::F,
        }
    }

    /// The letter as text.
    pub fn to_string(&self) -> (text: String)
        ensures
            text@ == seq![self.letter()],
    {
        let literal = match self {
            NoteName::A => "A",
            NoteName::B => "B",
            NoteName::C => "C",
            NoteName::D => "D",
            NoteName::E => "E",
            NoteName::F => "F",
            NoteName::G => "G",
        };
        proof {
            reveal_strlit("A");
            reveal_strlit("B");
            reveal_strlit("C");
            reveal_strlit("D");
            reveal_strlit("E");
            reveal_strlit("F");
            reveal_strlit("G");
            assert(literal@ =~= seq![self.letter()]);
        }
        String::from_str(literal)
    }
}

/// Stepping up and stepping down undo each other.
pub proof fn lemma_steps_undo_each_other(name: NoteName)
    ensures
        NoteName::from_degree((NoteName::from_degree((name.degree() + 1) % 7).degree() + 6) % 7)
            == name,
        NoteName::from_degree((NoteName::from_degree((name.degree() + 6) % 7).degree() + 1) % 7)
            == name,
{
}

} // verus!
