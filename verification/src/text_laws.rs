//! What holds of searching, replacing and splitting, for all texts.

use vstd::prelude::*;

use crate::text::{contains_char, contains_text, replace, split_first, to_chars};

verus! {

/// The text that `pieces` make up with `separator` between each two of them.
pub open spec fn joined(pieces: Seq<Seq<char>>, separator: char) -> Seq<char>
    decreases pieces.len(),
{
    if pieces.len() == 0 {
        Seq::empty()
    } else if pieces.len() == 1 {
        pieces[0]
    } else {
        pieces[0] + seq![separator] + joined(pieces.skip(1), separator)
    }
}

/// Whether `separator` stands in none of `pieces`.
pub open spec fn are_free_of(pieces: Seq<Seq<char>>, separator: char) -> bool {
    forall|i: int| 0 <= i < pieces.len() ==> !(#[trigger] pieces[i]).contains(separator)
}

/// A text is split without loss: its pieces, with separators between them, make up the text again,
/// there is at least one, and no separator is left in any of them.
pub proof fn law_split_loses_nothing(text: Seq<char>, separator: char)
    ensures
        joined(crate::text::split_on(text, separator), separator) == text,
        crate::text::split_on(text, separator).len() > 0,
        are_free_of(crate::text::split_on(text, separator), separator),
    decreases text.len(),
{
    let pieces = crate::text::split_on(text, separator);
    lemma_first_index_bounds(text, separator);
    let at = crate::text::first_index(text, separator);
    if at < text.len() {
        let rest = text.skip(at + 1);
        law_split_loses_nothing(rest, separator);
        assert(pieces.skip(1) =~= crate::text::split_on(rest, separator));
        assert(pieces[0] + seq![separator] + rest =~= text);
        assert forall|i: int| 0 <= i < pieces.len() implies !(#[trigger] pieces[i]).contains(
            separator,
        ) by {
            if i > 0 {
                assert(pieces[i] == pieces.skip(1)[i - 1]);
            }
        }
    }
}

/// The first index of a character is in the text or at its end, and the character stands there and
/// nowhere before.
proof fn lemma_first_index_bounds(text: Seq<char>, c: char)
    ensures
        0 <= crate::text::first_index(text, c) <= text.len(),
        forall|j: int| 0 <= j < crate::text::first_index(text, c) ==> text[j] != c,
        crate::text::first_index(text, c) < text.len() ==> text[crate::text::first_index(text, c)]
            == c,
    decreases text.len(),
{
    if text.len() > 0 && text[0] != c {
        lemma_first_index_bounds(text.skip(1), c);
        assert forall|j: int| 0 <= j < crate::text::first_index(text, c) implies text[j] != c by {
            if j > 0 {
                assert(text.skip(1)[j - 1] == text[j]);
            }
        }
    }
}

/// Pieces that hold no separator are found again, all of them and in order, once they were put
/// together.
pub proof fn law_split_undoes_joining(pieces: Seq<Seq<char>>, separator: char)
    requires
        pieces.len() > 0,
        are_free_of(pieces, separator),
    ensures
        crate::text::split_on(joined(pieces, separator), separator) == pieces,
    decreases pieces.len(),
{
    let first = pieces[0];
    if pieces.len() == 1 {
        crate::login_laws::law_split_leaves_one_piece(first, separator);
        assert(seq![first] =~= pieces);
    } else {
        let rest = pieces.skip(1);
        assert forall|i: int| 0 <= i < rest.len() implies !(#[trigger] rest[i]).contains(
            separator,
        ) by {
            assert(rest[i] == pieces[i + 1]);
        }
        law_split_undoes_joining(rest, separator);
        crate::login_laws::law_split_takes_off_a_piece(first, separator, joined(rest, separator));
        assert(seq![first] + rest =~= pieces);
    }
}

/// A pattern occurs in a text if and only if the text is made up of something, the pattern, and
/// something.
pub proof fn law_pattern_occurs_between_two_texts(text: Seq<char>, pattern: Seq<char>)
    ensures
        crate::text::occurs(text, pattern) <==> exists|front: Seq<char>, back: Seq<char>|
            text == #[trigger] (front + pattern + back),
{
    if crate::text::occurs(text, pattern) {
        let at = choose|at: int| #[trigger] crate::text::occurs_at(text, pattern, at);
        let front = text.take(at);
        let back = text.skip(at + pattern.len());
        assert(text =~= front + pattern + back);
    }
    if exists|front: Seq<char>, back: Seq<char>| text == #[trigger] (front + pattern + back) {
        let (front, back) = choose|front: Seq<char>, back: Seq<char>|
            text == #[trigger] (front + pattern + back);
        let at = front.len() as int;
        assert(text.subrange(at, at + pattern.len()) =~= pattern);
        assert(crate::text::occurs_at(text, pattern, at));
    }
}

/// A text in which the pattern does not occur is not changed by replacing it.
pub proof fn law_replace_needs_an_occurrence(text: Seq<char>, pattern: Seq<char>, with: Seq<char>)
    requires
        pattern.len() > 0,
        !crate::text::occurs(text, pattern),
    ensures
        crate::text::replaced(text, pattern, with) == text,
    decreases text.len(),
{
    if text.len() > 0 {
        let rest = text.skip(1);
        assert forall|at: int| !crate::text::occurs_at(rest, pattern, at) by {
            if crate::text::occurs_at(rest, pattern, at) {
                assert(text.subrange(at + 1, at + 1 + pattern.len()) =~= rest.subrange(
                    at,
                    at + pattern.len(),
                ));
                assert(crate::text::occurs_at(text, pattern, at + 1));
            }
        }
        law_replace_needs_an_occurrence(rest, pattern, with);
        assert(!crate::text::occurs_at(text, pattern, 0));
        assert(seq![text[0]] + rest =~= text);
    }
}

/// A pattern that is replaced by itself changes nothing.
pub proof fn law_replace_by_itself_changes_nothing(text: Seq<char>, pattern: Seq<char>)
    requires
        pattern.len() > 0,
    ensures
        crate::text::replaced(text, pattern, pattern) == text,
    decreases text.len(),
{
    if text.len() > 0 {
        if crate::text::occurs_at(text, pattern, 0) {
            let rest = text.skip(pattern.len() as int);
            law_replace_by_itself_changes_nothing(rest, pattern);
            assert(pattern + rest =~= text) by {
                assert(text.subrange(0, pattern.len() as int) == pattern);
            }
        } else {
            law_replace_by_itself_changes_nothing(text.skip(1), pattern);
            assert(seq![text[0]] + text.skip(1) =~= text);
        }
    }
}

/// Splitting a text gives the first of its pieces, in order, as many as there are up to the limit.
pub proof fn law_split_first_gives_the_first_pieces(
    text: &str,
    separator: char,
    limit: usize,
    pieces: Seq<Seq<char>>,
    result: Vec<String>,
)
    requires
        pieces.len() > 0,
        are_free_of(pieces, separator),
        text@ == joined(pieces, separator),
        call_ensures(split_first, (text, separator, limit), result),
    ensures
        result@.len() == (if limit < pieces.len() {
            limit as int
        } else {
            pieces.len() as int
        }),
        forall|i: int| 0 <= i < result@.len() ==> (#[trigger] result@[i])@ == pieces[i],
{
    law_split_undoes_joining(pieces, separator);
}

/// Searching a text for a pattern tells whether it is made up of something, the pattern, and
/// something; searching it for a character, whether one of its characters is that one.
pub proof fn law_searching_finds_what_is_there(
    text: &str,
    pattern: &str,
    c: char,
    found: bool,
    found_char: bool,
)
    requires
        call_ensures(contains_text, (text, pattern), found),
        call_ensures(contains_char, (text, c), found_char),
    ensures
        found <==> exists|front: Seq<char>, back: Seq<char>|
            text@ == #[trigger] (front + pattern@ + back),
        found_char <==> exists|i: int| 0 <= i < text@.len() && text@[i] == c,
{
    law_pattern_occurs_between_two_texts(text@, pattern@);
}

/// Replacing the only occurrence of a pattern keeps what stands before and after it, and puts the
/// replacement in its place.
pub proof fn law_only_occurrence_is_replaced(
    text: &str,
    pattern: &str,
    with: &str,
    front: Seq<char>,
    back: Seq<char>,
    result: String,
)
    requires
        pattern@.len() > 0,
        text@ == front + pattern@ + back,
        forall|j: int|
            0 <= j < front.len() ==> !crate::text::occurs_at(
                front + (pattern@ + back),
                pattern@,
                j,
            ),
        !crate::text::occurs(back, pattern@),
        call_ensures(replace, (text, pattern, with), result),
    ensures
        result@ == front + with@ + back,
{
    crate::login_laws::law_placeholder_is_filled_in(front, pattern@, back, with@);
    law_replace_needs_an_occurrence(back, pattern@, with@);
}

/// The characters of a text are all there, in order.
pub proof fn law_characters_are_kept(text: &str, chars: Vec<char>)
    requires
        call_ensures(to_chars, (text,), chars),
    ensures
        chars@.len() == text@.len(),
        forall|i: int| 0 <= i < text@.len() ==> chars@[i] == text@[i],
{
}

} // verus!
