//! What a session asks about.

use rand::rngs::ThreadRng;
use vstd::prelude::*;

use crate::game::chance::pick;
use crate::text::same_text;

verus! {

/// The kind of question that a session asks. A mixed session draws the kind
/// anew for each round.
#[derive(Debug, Copy, Clone, PartialEq, Eq, Structural)]
pub enum GameMode {
    Mixed,
    Intervals,
    Chords,
    Scales,
}

impl Default for GameMode {
    fn default() -> (mode: Self)
        ensures
            mode == GameMode::Mixed,
    {
        GameMode::Mixed
    }
}

impl GameMode {
    /// The mode that a word names, if it names one.
    pub open spec fn named(word: Seq<char>) -> Option<GameMode> {
        if word == "mixed"@ {
            Some(GameMode::Mixed)
        } else if word == "intervals"@ {
            Some(GameMode::Intervals)
        } else if word == "chords"@ {
            Some(GameMode::Chords)
        } else if word == "scales"@ {
            Some(GameMode::Scales)
        } else {
            None
        }
    }

    /// The mode that a session is started in: the one that the argument
    /// names, a mixed session where no argument is given, and none where
    /// the argument names no mode.
    pub fn from_argument(argument: Option<&str>) -> (mode: Option<GameMode>)
        ensures
            mode == match argument {
                None => Some(GameMode::Mixed),
                Some(word) => GameMode::named(word@),
            },
    {
        match argument {
            None => Some(GameMode::Mixed),
            Some(word) => {
                if same_text(word, "mixed") {
                    Some(GameMode::Mixed)
                } else if same_text(word, "intervals") {
                    Some(GameMode::Intervals)
                } else if same_text(word, "chords") {
                    Some(GameMode::Chords)
                } else if same_text(word, "scales") {
                    Some(GameMode::Scales)
                } else {
                    None
                }
            },
        }
    }

    /// The kind of question of the next round. In a mixed session it is
    /// drawn at random; it is never `Mixed`.
    pub fn round_mode(&self, rng: &mut ThreadRng) -> (mode: GameMode)
        ensures
            mode != GameMode::Mixed,
            *self != GameMode::Mixed ==> mode == *self,
    {
        match *self {
            GameMode::Mixed => {
                let kinds = [GameMode::Intervals, GameMode::Chords, GameMode::Scales];
                match pick(kinds.as_slice(), rng) {
                    Some(kind) => *kind,
                    None => unreached(),
                }
            },
            kind => kind,
        }
    }
}

} // verus!
