//! Small operations on text.

use vstd::prelude::*;

verus! {

/// Whether two texts are the same, character for character.
pub fn same_text(left: &str, right: &str) -> (same: bool)
    ensures
        same == (left@ == right@),
{
    let length = left.unicode_len();
    if right.unicode_len() != length {
        return false;
    }
    let mut i: usize = 0;
    while i < length
        invariant
            i <= length,
            length == left@.len(),
            length == right@.len(),
            left@.subrange(0, i as int) == right@.subrange(0, i as int),
        decreases length - i,
    {
        if left.get_char(i) != right.get_char(i) {
            return false;
        }
        i += 1;
        assert(left@.subrange(0, i as int) =~= left@.subrange(0, i - 1).push(left@[i - 1]));
        assert(right@.subrange(0, i as int) =~= right@.subrange(0, i - 1).push(right@[i - 1]));
    }
    assert(left@ =~= left@.subrange(0, length as int));
    assert(right@ =~= right@.subrange(0, length as int));
    true
}

/// The text as Rust prints a string for debugging: between double quotes,
/// with the characters escaped that cannot stand there as they are.
pub uninterp spec fn quoted(text: Seq<char>) -> Seq<char>;

/// Formats the text with `{:?}`, that is with `<str as Debug>::fmt`.
#[verifier::external_body]
pub(crate) fn quote(text: &str) -> (printed: String)
    ensures
        printed@ == quoted(text@),
{
    format!("{:?}", text)
}

} // verus!
