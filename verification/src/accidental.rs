//! Accidentals: the signs that raise or lower a letter name.

use vstd::prelude::*;

verus! {

/// An accidental moves a letter name by up to two semitones either way.
#[derive(Debug, Copy, Clone, PartialEq, Eq, Structural)]
pub enum Accidental {
    DoubleFlat,
    Flat,
    Natural,
    Sharp,
    DoubleSharp,
}

impl Accidental {
    /// The number of semitones by which the accidental raises a note;
    /// negative where it lowers it.
    pub open spec fn semitones(self) -> int {
        match self {
            Accidental::DoubleFlat => -2,
            Accidental::Flat => -1,
            Accidental::Natural => 0,
            Accidental::Sharp => 1,
            Accidental::DoubleSharp => 2,
        }
    }

    /// The sign as it is written after a letter: `b` for each flat, `#` for
    /// each sharp, nothing for a natural.
    pub open spec fn symbol(self) -> Seq<char> {
        match self {
            Accidental::DoubleFlat => seq!['b', 'b'],
            Accidental::Flat => seq!['b'],
            Accidental::Natural => Seq::<char>::empty(),
            Accidental::Sharp => seq!['#'],
            Accidental::DoubleSharp => seq!['#', '#'],
        }
    }

    /// The signed semitone offset of the accidental.
    pub fn interval(self) -> (offset: i8)
        ensures
            offset == self.semitones(),
    {
        match self {
            Accidental::DoubleFlat => -2,
            Accidental::Flat => -1,
            Accidental::Natural => 0,
            Accidental::Sharp => 1,
            Accidental::DoubleSharp => 2,
        }
    }

    /// The sign as text.
    pub fn to_string(&self) -> (text: String)
        ensures
            text@ == self.symbol(),
    {
        let literal = match self {
            Accidental::DoubleFlat => "bb",
            Accidental::Flat => "b",
            Accidental::Natural => "",
            Accidental::Sharp => "#",
            Accidental::DoubleSharp => "##",
        };
        proof {
            reveal_strlit("bb");
            reveal_strlit("b");
            reveal_strlit("");
            reveal_strlit("#");
            reveal_strlit("##");
            assert(literal@ =~= self.symbol());
        }
        String::from_str(literal)
    }
}

} // verus!
