//! Reading what the player typed.

use vstd::prelude::*;

use crate::note::{Note, UnrecognizedNote};
use crate::text::same_text;

verus! {

/// Whether a character separates the words of an answer: a space, a tab, a
/// line feed, a form feed or a carriage return.
pub open spec fn is_blank(c: char) -> bool {
    c == ' ' || c == '\t' || c == '\n' || c == '\x0C' || c == '\r'
}

/// Where the run of characters that are not blank, entered at `from`, ends.
pub open spec fn word_end(text: Seq<char>, from: int) -> int
    decreases text.len() - from,
{
    if 0 <= from < text.len() && !is_blank(text[from]) {
        word_end(text, from + 1)
    } else {
        from
    }
}

/// The words of the text from `from` on, in order: the longest runs of
/// characters that are not blank.
pub open spec fn words_from(text: Seq<char>, from: int) -> Seq<Seq<char>>
    decreases text.len() - from,
    via words_from_decreases
{
    if from < 0 || from >= text.len() {
        Seq::<Seq<char>>::empty()
    } else if is_blank(text[from]) {
        words_from(text, from + 1)
    } else {
        seq![text.subrange(from, word_end(text, from))] + words_from(text, word_end(text, from))
    }
}

#[via_fn]
proof fn words_from_decreases(text: Seq<char>, from: int) {
    if 0 <= from < text.len() && !is_blank(text[from]) {
        lemma_word_end_bounds(text, from);
    }
}

/// A word ends after it begins and within the text.
pub proof fn lemma_word_end_bounds(text: Seq<char>, from: int)
    requires
        0 <= from <= text.len(),
    ensures
        from <= word_end(text, from) <= text.len(),
        from < text.len() && !is_blank(text[from]) ==> from < word_end(text, from),
    decreases text.len() - from,
{
    if from < text.len() && !is_blank(text[from]) {
        lemma_word_end_bounds(text, from + 1);
    }
}

/// The words of a text.
pub open spec fn words(text: Seq<char>) -> Seq<Seq<char>> {
    words_from(text, 0)
}

/// The notes that the words spell, read in order; or the first word that
/// spells no note.
pub open spec fn read_words(words: Seq<Seq<char>>) -> Result<Seq<Note>, Seq<char>>
    decreases words.len(),
{
    if words.len() == 0 {
        Ok(Seq::<Note>::empty())
    } else {
        match read_words(words.drop_last()) {
            Err(word) => Err(word),
            Ok(notes) => match Note::parsed(words.last()) {
                Some(note) => Ok(notes.push(note)),
                None => Err(words.last()),
            },
        }
    }
}

/// Whether a result of reading is the one that was specified.
pub open spec fn is_reading(
    result: Result<Vec<Note>, UnrecognizedNote>,
    specified: Result<Seq<Note>, Seq<char>>,
) -> bool {
    match specified {
        Ok(notes) => result matches Ok(read) && read@ == notes,
        Err(word) => result matches Err(error) && error@ == word,
    }
}

/// Reads an answer: notes, separated by blanks, with any number of blanks
/// before, between and after them. Where a word spells no note, the first
/// such word is the error.
pub fn read_notes(text: &str) -> (result: Result<Vec<Note>, UnrecognizedNote>)
    ensures
        is_reading(result, read_words(words(text@))),
{
    let length = text.unicode_len();
    let mut notes: Vec<Note> = Vec::new();
    let ghost mut read: Seq<Seq<char>> = Seq::empty();
    let mut i: usize = 0;
    assert(read + words_from(text@, 0) =~= words(text@));
    while i < length
        invariant
            i <= length,
            length == text@.len(),
            words(text@) == read + words_from(text@, i as int),
            read_words(read) == Ok::<Seq<Note>, Seq<char>>(notes@),
        decreases length - i,
    {
        if is_blank_char(text.get_char(i)) {
            i += 1;
        } else {
            let start = i;
            while i < length && !is_blank_char(text.get_char(i))
                invariant
                    start <= i <= length,
                    length == text@.len(),
                    word_end(text@, start as int) == word_end(text@, i as int),
                decreases length - i,
            {
                i += 1;
            }
            proof {
                lemma_word_end_bounds(text@, start as int);
            }
            let word = text.substring_char(start, i);
            proof {
                assert(read.push(word@).drop_last() =~= read);
                assert(read.push(word@) + words_from(text@, i as int) =~= read + words_from(
                    text@,
                    start as int,
                ));
                read = read.push(word@);
            }
            match Note::parse(word) {
                Ok(note) => {
                    notes.push(note);
                },
                Err(error) => {
                    proof {
                        lemma_read_words_stops(read, words_from(text@, i as int));
                    }
                    return Err(error);
                },
            }
        }
    }
    assert(read + words_from(text@, length as int) =~= read);
    Ok(notes)
}

/// Once a word spells no note, the words after it are not read.
proof fn lemma_read_words_stops(read: Seq<Seq<char>>, rest: Seq<Seq<char>>)
    requires
        read_words(read) is Err,
    ensures
        read_words(read + rest) == read_words(read),
    decreases rest.len(),
{
    if rest.len() == 0 {
        assert(read + rest =~= read);
    } else {
        lemma_read_words_stops(read, rest.drop_last());
        assert((read + rest).drop_last() =~= read + rest.drop_last());
    }
}

/// Whether a character is blank.
fn is_blank_char(c: char) -> (blank: bool)
    ensures
        blank == is_blank(c),
{
    c == ' ' || c == '\t' || c == '\n' || c == '\x0C' || c == '\r'
}

/// The text without the whitespace at its two ends, as `str::trim` leaves
/// it.
pub uninterp spec fn trimmed(text: Seq<char>) -> Seq<char>;

/// The text without the whitespace at its end, as `str::trim_end` leaves it.
pub uninterp spec fn trimmed_end(text: Seq<char>) -> Seq<char>;

/// Calls `str::trim`, which takes away the whitespace at both ends of the
/// text, whitespace being what Unicode calls so.
#[verifier::external_body]
fn trim(text: &str) -> (inner: &str)
    ensures
        inner@ == trimmed(text@),
{
    text.trim()
}

/// Calls `str::trim_end`, which takes away the whitespace at the end of the
/// text, whitespace being what Unicode calls so.
#[verifier::external_body]
fn trim_end(text: &str) -> (inner: &str)
    ensures
        inner@ == trimmed_end(text@),
{
    text.trim_end()
}

/// Reads the answer that was typed: the notes of the line without the
/// whitespace at its ends.
pub fn notes_from_input(input: &str) -> (result: Result<Vec<Note>, UnrecognizedNote>)
    ensures
        is_reading(result, read_words(words(trimmed(input@)))),
{
    read_notes(trim(input))
}

/// What an entry asks for: nothing, if it is empty or the word `exit`, which
/// ends the session; else the entry itself, as an answer.
pub open spec fn answer_of_entry(entry: Seq<char>) -> Option<Seq<char>> {
    if entry.len() == 0 || entry == "exit"@ {
        None
    } else {
        Some(entry)
    }
}

/// Whether an answer is the one that was specified.
pub open spec fn is_answer(answer: Option<String>, specified: Option<Seq<char>>) -> bool {
    match specified {
        Some(text) => answer matches Some(given) && given@ == text,
        None => answer is None,
    }
}

/// Tells an answer from the wish to end the session.
pub fn answer_from_entry(entry: &str) -> (answer: Option<String>)
    ensures
        is_answer(answer, answer_of_entry(entry@)),
{
    if entry.unicode_len() == 0 || same_text(entry, "exit") {
        None
    } else {
        Some(String::from_str(entry))
    }
}

/// The answer in a line as it was read from the player, the end of the line
/// included; nothing where the player wishes to end the session.
pub fn next_input(line: &str) -> (answer: Option<String>)
    ensures
        is_answer(answer, answer_of_entry(trimmed_end(line@))),
{
    answer_from_entry(trim_end(line))
}

} // verus!
