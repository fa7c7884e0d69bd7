//! Grading an answer and telling the player how it went.

use std::time::Duration;
use vstd::prelude::*;

use crate::game::scorekeeper::Scorekeeper;
use crate::note::{Note, UnrecognizedNote};
use crate::text::{quote, quoted};

verus! {

/// What the player is told after an answer.
#[derive(Debug)]
pub enum Feedback {
    /// The answer was right, and took this long.
    Correct(Duration),
    /// The answer was wrong, or could not be read: the text says which, and
    /// what was expected.
    Message(String),
}

/// Whether two sequences of notes sound the same: as many notes, and each
/// of the pitch class of the note in its place, however it is spelled.
pub open spec fn same_pitches(left: Seq<Note>, right: Seq<Note>) -> bool {
    &&& left.len() == right.len()
    &&& forall|i: int| 0 <= i < left.len() ==> left[i].pitch_class() == right[i].pitch_class()
}

/// The notes written one after another, each after a space.
pub open spec fn listed(notes: Seq<Note>) -> Seq<char>
    decreases notes.len(),
{
    if notes.len() == 0 {
        Seq::<char>::empty()
    } else {
        listed(notes.drop_last()) + seq![' '] + notes.last().spelling()
    }
}

/// What the player is told when one note was expected and another given.
pub open spec fn wrong_note_message(expected: Note) -> Seq<char> {
    "Incorrect! (Expected "@ + expected.spelling() + ".)"@
}

/// What the player is told when several notes were expected and others
/// given.
pub open spec fn wrong_notes_message(expected: Seq<Note>) -> Seq<char> {
    "Incorrect! (Expected"@ + listed(expected) + ")"@
}

/// What the player is told when a word of the answer spells no note, given
/// the word as it is printed for debugging.
pub open spec fn unrecognized_message_of(printed: Seq<char>) -> Seq<char> {
    "Error: UnrecognizedNote("@ + printed + ")."@
}

/// What the player is told when a word of the answer spells no note.
pub open spec fn unrecognized_message(word: Seq<char>) -> Seq<char> {
    unrecognized_message_of(quoted(word))
}

/// Whether the feedback and the record are those of an answer that could
/// not be read: the record is as it was, and the feedback names the word.
pub open spec fn is_rejection(
    feedback: Feedback,
    before: Scorekeeper,
    after: Scorekeeper,
    word: Seq<char>,
) -> bool {
    &&& after == before
    &&& feedback matches Feedback::Message(text)
    &&& text@ == unrecognized_message(word)
}

/// Whether the feedback and the record are those of an answer that was
/// graded: the record has one more entry, which says whether the answer was
/// right and how long it took; a right answer is told that time, a wrong
/// one the given message.
pub open spec fn is_grading(
    feedback: Feedback,
    before: Scorekeeper,
    after: Scorekeeper,
    correct: bool,
    message: Seq<char>,
) -> bool {
    &&& after@.len() == before@.len() + 1
    &&& after@ == before@.push((correct, after@.last().1))
    &&& if correct {
        feedback == Feedback::Correct(after@.last().1)
    } else {
        feedback matches Feedback::Message(text) && text@ == message
    }
}

/// Tells the player that a word of the answer spells no note, given the
/// word as it is printed for debugging.
pub fn reject_printed(printed: &str) -> (feedback: Feedback)
    ensures
        feedback matches Feedback::Message(text) && text@ == unrecognized_message_of(printed@),
{
    let mut text = String::from_str("Error: UnrecognizedNote(");
    text.append(printed);
    text.append(").");
    Feedback::Message(text)
}

/// Tells the player that a word of the answer spells no note.
pub fn reject(error: &UnrecognizedNote) -> (feedback: Feedback)
    ensures
        feedback matches Feedback::Message(text) && text@ == unrecognized_message(error@),
{
    let printed = quote(error.text());
    reject_printed(printed.as_str())
}

/// Whether two answers sound the same.
pub fn notes_match(left: &Vec<Note>, right: &Vec<Note>) -> (same: bool)
    ensures
        same == same_pitches(left@, right@),
{
    left == right
}

/// The message for a wrong answer where one note was expected.
fn wrong_note_text(expected: Note) -> (text: String)
    ensures
        text@ == wrong_note_message(expected),
{
    let mut text = String::from_str("Incorrect! (Expected ");
    let note = expected.to_string();
    text.append(note.as_str());
    text.append(".)");
    text
}

/// The message for a wrong answer where several notes were expected.
fn wrong_notes_text(expected: &Vec<Note>) -> (text: String)
    ensures
        text@ == wrong_notes_message(expected@),
{
    let mut text = String::from_str("Incorrect! (Expected");
    let mut i: usize = 0;
    assert(expected@.take(0) =~= Seq::<Note>::empty());
    while i < expected.len()
        invariant
            i <= expected@.len(),
            text@ == "Incorrect! (Expected"@ + listed(expected@.take(i as int)),
        decreases expected@.len() - i,
    {
        let note = expected[i].to_string();
        text.append(" ");
        text.append(note.as_str());
        proof {
            reveal_strlit(" ");
            assert(" "@ =~= seq![' ']);
            assert(expected@.take(i + 1).drop_last() =~= expected@.take(i as int));
            assert(text@ =~= "Incorrect! (Expected"@ + listed(expected@.take(i + 1)));
        }
        i += 1;
    }
    assert(expected@.take(i as int) =~= expected@);
    text.append(")");
    text
}

/// Grades an answer of one note, as it was read. An answer that could not
/// be read is not entered in the record.
pub fn grade_note(
    read: Result<Note, UnrecognizedNote>,
    expected: Note,
    scorekeeper: &mut Scorekeeper,
) -> (feedback: Feedback)
    ensures
        match read {
            Err(error) => is_rejection(feedback, *old(scorekeeper), *final(scorekeeper), error@),
            Ok(note) => is_grading(
                feedback,
                *old(scorekeeper),
                *final(scorekeeper),
                note.pitch_class() == expected.pitch_class(),
                wrong_note_message(expected),
            ),
        },
{
    match read {
        Err(error) => reject(&error),
        Ok(note) => {
            let correct = note == expected;
            let duration = scorekeeper.add_result(correct);
            if correct {
                Feedback::Correct(duration)
            } else {
                Feedback::Message(wrong_note_text(expected))
            }
        },
    }
}

/// Grades an answer of several notes, as it was read. An answer that could
/// not be read is not entered in the record.
pub fn grade_notes(
    read: Result<Vec<Note>, UnrecognizedNote>,
    expected: Vec<Note>,
    scorekeeper: &mut Scorekeeper,
) -> (feedback: Feedback)
    ensures
        match read {
            Err(error) => is_rejection(feedback, *old(scorekeeper), *final(scorekeeper), error@),
            Ok(notes) => is_grading(
                feedback,
                *old(scorekeeper),
                *final(scorekeeper),
                same_pitches(notes@, expected@),
                wrong_notes_message(expected@),
            ),
        },
{
    match read {
        Err(error) => reject(&error),
        Ok(notes) => {
            let correct = notes_match(&notes, &expected);
            let duration = scorekeeper.add_result(correct);
            if correct {
                Feedback::Correct(duration)
            } else {
                Feedback::Message(wrong_notes_text(&expected))
            }
        },
    }
}

} // verus!
