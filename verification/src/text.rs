//! Operations on strings, stated over their sequences of characters.

use vstd::prelude::*;
use vstd::string::*;

verus! {

/// Whether `c` is a letter or a digit of any script, as the standard
/// library classifies characters.
pub uninterp spec fn is_alphanumeric(c: char) -> bool;

/// `char::is_alphanumeric` of the standard library. The classification is a
/// fixed table of the Unicode standard, so the result is named rather than
/// written out.
#[verifier::external_body]
fn char_is_alphanumeric(c: char) -> (b: bool)
    ensures
        b == is_alphanumeric(c),
{
    c.is_alphanumeric()
}

/// `String::push` of the standard library appends one character at the end.
pub assume_specification[ String::push ](s: &mut String, c: char)
    ensures
        final(s)@ == old(s)@.push(c),
;

/// `str::starts_with` of the standard library, called with a string as the
/// pattern: true exactly when the characters of `prefix` are the leading
/// characters of `s`.
#[verifier::external_body]
pub(crate) fn str_starts_with(s: &str, prefix: &str) -> (b: bool)
    ensures
        b == prefix@.is_prefix_of(s@),
{
    s.starts_with(prefix)
}

/// Whether two strings hold the same characters.
pub(crate) fn str_eq(a: &str, b: &str) -> (same: bool)
    ensures
        same == (a@ == b@),
{
    String::from_str(a) == String::from_str(b)
}

/// The characters of `s` that follow its first `pos` characters; nothing is
/// left when `s` has no more than `pos` of them.
pub open spec fn cropped(s: Seq<char>, pos: nat) -> Seq<char> {
    if pos <= s.len() {
        s.skip(pos as int)
    } else {
        Seq::empty()
    }
}

/// Removes the first `pos` characters of `s`. Positions count characters, not
/// bytes, so a character of several bytes is never cut in two.
pub fn crop_letters(s: &str, pos: usize) -> (rest: &str)
    ensures
        rest@ == cropped(s@, pos as nat),
{
    let n: usize = s.unicode_len();
    if pos < n {
        s.substring_char(pos, n)
    } else {
        proof {
            reveal_strlit("");
        }
        assert(""@ =~= cropped(s@, pos as nat));
        ""
    }
}

/// The characters of `text` whose mark is set, in their order. A character
/// beyond the end of `marks` counts as unmarked.
pub open spec fn marked(text: Seq<char>, marks: Seq<bool>) -> Seq<char>
    decreases text.len(),
{
    if text.len() == 0 {
        text
    } else {
        let rest = marked(text.drop_last(), marks);
        let last = text.len() - 1;
        if last < marks.len() && marks[last] {
            rest.push(text.last())
        } else {
            rest
        }
    }
}

/// Marks that follow a predicate select what the predicate filters.
pub proof fn lemma_marked_is_filter(text: Seq<char>, marks: Seq<bool>, keep: spec_fn(char) -> bool)
    requires
        marks.len() >= text.len(),
        forall|i: int| 0 <= i < text.len() ==> marks[i] == keep(#[trigger] text[i]),
    ensures
        marked(text, marks) == text.filter(keep),
    decreases text.len(),
{
    reveal(Seq::filter);
    if text.len() > 0 {
        lemma_marked_is_filter(text.drop_last(), marks, keep);
    }
}

/// Copies the marked characters of `text`, dropping the others.
pub fn keep_marked(text: &str, marks: &Vec<bool>) -> (kept: String)
    ensures
        kept@ == marked(text@, marks@),
{
    let mut kept = String::new();
    let n: usize = text.unicode_len();
    let mut i: usize = 0;
    for c in it: text.chars()
        invariant
            it.seq() == text@,
            n == text@.len(),
            i == it.index(),
            kept@ == marked(text@.take(i as int), marks@),
    {
        proof {
            assert(text@.take(i + 1).drop_last() =~= text@.take(i as int));
            assert(text@.take(i + 1).last() == c);
        }
        if i < marks.len() && marks[i] {
            kept.push(c);
        }
        i = i + 1;
    }
    assert(text@.take(text@.len() as int) =~= text@);
    kept
}

/// For each character of `text`, whether it is a letter or a digit.
pub fn alphanumeric_marks(text: &str) -> (marks: Vec<bool>)
    ensures
        marks@.len() == text@.len(),
        forall|i: int| 0 <= i < text@.len() ==> marks@[i] == is_alphanumeric(#[trigger] text@[i]),
{
    let mut marks: Vec<bool> = Vec::new();
    for c in it: text.chars()
        invariant
            it.seq() == text@,
            marks@.len() == it.index(),
            forall|i: int| 0 <= i < it.index() ==> marks@[i] == is_alphanumeric(#[trigger] text@[i]),
    {
        marks.push(char_is_alphanumeric(c));
    }
    marks
}

} // verus!
