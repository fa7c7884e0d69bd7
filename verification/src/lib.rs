//! A music-theory engine for ear and theory training: pitch classes, note
//! spelling, intervals, chords, scales and modes, together with the rules of
//! the quiz that is played over them.

pub mod accidental;
pub mod chord;
pub mod game;
pub mod interval;
pub mod note;
pub mod note_name;
pub mod numeral;
pub mod pattern;
pub mod scale;
pub mod text;
