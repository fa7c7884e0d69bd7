//! The seven modes of a seven-step scale.

use vstd::prelude::*;

verus! {

/// A mode: the degree of the parent scale on which the scale begins.
#[derive(Debug, Copy, Clone, PartialEq, Eq, Structural)]
pub enum Mode {
    Ionian,
    Dorian,
    Phrygian,
    Lydian,
    Mixolydian,
    Aeolian,
    Locrian,
}

impl Mode {
    /// The number of steps by which the mode turns its parent scale.
    pub open spec fn rank(self) -> int {
        match self {
            Mode::Ionian => 0,
            Mode::Dorian => 1,
            Mode::Phrygian => 2,
            Mode::Lydian => 3,
            Mode::Mixolydian => 4,
            Mode::Aeolian => 5,
            Mode::Locrian => 6,
        }
    }

    /// The mode that turns its parent scale by `rank` steps.
    pub open spec fn of_rank(rank: int) -> Mode {
        if rank == 0 {
            Mode::Ionian
        } else if rank == 1 {
            Mode::Dorian
        } else if rank == 2 {
            Mode::Phrygian
        } else if rank == 3 {
            Mode::Lydian
        } else if rank == 4 {
            Mode::Mixolydian
        } else if rank == 5 {
            Mode::Aeolian
        } else {
            Mode::Locrian
        }
    }

    /// The name of the mode.
    pub open spec fn label(self) -> Seq<char> {
        match self {
            Mode::Ionian => "Ionian"@,
            Mode::Dorian => "Dorian"@,
            Mode::Phrygian => "Phrygian"@,
            Mode::Lydian => "Lydian"@,
            Mode::Mixolydian => "Mixolydian"@,
            Mode::Aeolian => "Aeolian"@,
            Mode::Locrian => "Locrian"@,
        }
    }

    /// The number of steps by which the mode turns its parent scale.
    pub fn index(self) -> (index: usize)
        ensures
            index == self.rank(),
            index < 7,
    {
        match self {
            Mode::Ionian => 0,
            Mode::Dorian => 1,
            Mode::Phrygian => 2,
            Mode::Lydian => 3,
            Mode::Mixolydian => 4,
            Mode::Aeolian => 5,
            Mode::Locrian => 6,
        }
    }

    /// The name of the mode as text.
    pub fn to_string(&self) -> (text: String)
        ensures
            text@ == self.label(),
    {
        let literal = match self {
            Mode::Ionian => "Ionian",
            Mode::Dorian => "Dorian",
            Mode::Phrygian => "Phrygian",
            Mode::Lydian => "Lydian",
            Mode::Mixolydian => "Mixolydian",
            Mode::Aeolian => "Aeolian",
            Mode::Locrian => "Locrian",
        };
        String::from_str(literal)
    }
}

/// The mode of a number: numbers from seven upwards go round the seven
/// modes again.
impl From<u8> for Mode {
    fn from(value: u8) -> (mode: Mode) {
        match value % 7 {
            0 => Mode::Ionian,
            1 => Mode::Dorian,
            2 => Mode::Phrygian,
            3 => Mode::Lydian,
            4 => Mode::Mixolydian,
            5 => Mode::Aeolian,
            _ => Mode::Locrian,
        }
    }
}

impl vstd::std_specs::convert::FromSpecImpl<u8> for Mode {
    open spec fn obeys_from_spec() -> bool {
        true
    }

    open spec fn from_spec(value: u8) -> Mode {
        Mode::of_rank(value as int % 7)
    }
}

/// A mode is the mode of its own rank.
pub proof fn lemma_of_rank_rank(mode: Mode)
    ensures
        Mode::of_rank(mode.rank()) == mode,
        0 <= mode.rank() < 7,
{
}

} // verus!
