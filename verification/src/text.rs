//! Searching, replacing and splitting in text.

use vstd::prelude::*;
use vstd::string::*;

verus! {

/// Whether `pattern` stands in `text` at `at`.
pub open spec fn occurs_at(text: Seq<char>, pattern: Seq<char>, at: int) -> bool {
    0 <= at && at + pattern.len() <= text.len() && text.subrange(at, at + pattern.len()) == pattern
}

/// Whether `pattern` stands somewhere in `text`.
pub open spec fn occurs(text: Seq<char>, pattern: Seq<char>) -> bool {
    exists|at: int| #[trigger] occurs_at(text, pattern, at)
}

/// `text` with each occurrence of `pattern` replaced by `with`, from the front on, where no two
/// occurrences overlap.
pub open spec fn replaced(text: Seq<char>, pattern: Seq<char>, with: Seq<char>) -> Seq<char>
    decreases text.len(),
{
    if pattern.len() == 0 || text.len() == 0 {
        text
    } else if occurs_at(text, pattern, 0) {
        with + replaced(text.skip(pattern.len() as int), pattern, with)
    } else {
        seq![text[0]] + replaced(text.skip(1), pattern, with)
    }
}

/// The pieces of `text` between occurrences of `separator`.
pub open spec fn split_on(text: Seq<char>, separator: char) -> Seq<Seq<char>>
    decreases text.len(),
{
    let at = first_index(text, separator);
    if 0 <= at < text.len() {
        seq![text.take(at)] + split_on(text.skip(at + 1), separator)
    } else {
        seq![text]
    }
}

/// Where `c` first stands in `text`, and the length of `text` where it does not.
pub open spec fn first_index(text: Seq<char>, c: char) -> int
    decreases text.len(),
{
    if text.len() == 0 || text[0] == c {
        0
    } else {
        1 + first_index(text.skip(1), c)
    }
}

/// The characters of `text`.
pub fn to_chars(text: &str) -> (chars: Vec<char>)
    ensures
        chars@ == text@,
{
    let mut chars: Vec<char> = Vec::new();
    for c in it: text.chars()
        invariant
            chars@ == it.seq().take(it.index() as int),
            it.seq() == text@,
    {
        chars.push(c);
    }
    chars
}

/// Whether `pattern` stands in `text` at `at`.
fn pattern_at(text: &Vec<char>, pattern: &Vec<char>, at: usize) -> (found: bool)
    requires
        at <= text@.len(),
    ensures
        found == occurs_at(text@, pattern@, at as int),
{
    if text.len() - at < pattern.len() {
        return false;
    }
    let text_len: usize = text.len();
    for i in 0..pattern.len()
        invariant
            at + pattern@.len() <= text_len == text@.len(),
            forall|j: int| 0 <= j < i ==> text@[at + j] == pattern@[j],
    {
        if text[at + i] != pattern[i] {
            assert(text@.subrange(at as int, at + pattern@.len())[i as int] != pattern@[i as int]);
            return false;
        }
    }
    assert(text@.subrange(at as int, at + pattern@.len()) =~= pattern@);
    true
}

/// Whether `pattern` stands somewhere in `text`.
pub fn contains_text(text: &str, pattern: &str) -> (found: bool)
    ensures
        found == occurs(text@, pattern@),
{
    let chars = to_chars(text);
    let wanted = to_chars(pattern);
    let mut at: usize = 0;
    while at < chars.len()
        invariant
            at <= chars@.len(),
            chars@ == text@,
            wanted@ == pattern@,
            forall|j: int| 0 <= j < at ==> !occurs_at(text@, pattern@, j),
        decreases chars@.len() - at,
    {
        if pattern_at(&chars, &wanted, at) {
            return true;
        }
        at = at + 1;
    }
    pattern_at(&chars, &wanted, at)
}

/// Whether `c` stands somewhere in `text`.
pub fn contains_char(text: &str, c: char) -> (found: bool)
    ensures
        found == text@.contains(c),
{
    let chars = to_chars(text);
    for i in 0..chars.len()
        invariant
            chars@ == text@,
            forall|j: int| 0 <= j < i ==> text@[j] != c,
    {
        if chars[i] == c {
            assert(text@[i as int] == c);
            return true;
        }
    }
    false
}

/// `text` with each occurrence of `pattern` replaced by `with`.
pub fn replace(text: &str, pattern: &str, with: &str) -> (result: String)
    requires
        pattern@.len() > 0,
    ensures
        result@ == replaced(text@, pattern@, with@),
{
    let chars = to_chars(text);
    let wanted = to_chars(pattern);
    let mut result = String::new();
    let mut copied: usize = 0;
    let mut at: usize = 0;
    assert(text@.skip(0) =~= text@);
    while at < chars.len()
        invariant
            copied <= at <= chars@.len(),
            chars@ == text@,
            wanted@ == pattern@,
            pattern@.len() > 0,
            replaced(text@, pattern@, with@) == result@ + text@.subrange(copied as int, at as int)
                + replaced(text@.skip(at as int), pattern@, with@),
        decreases chars@.len() - at,
    {
        let ghost rest = text@.skip(at as int);
        let ghost before = result@ + text@.subrange(copied as int, at as int);
        if pattern_at(&chars, &wanted, at) {
            result.append(text.substring_char(copied, at));
            result.append(with);
            proof {
                assert(rest.subrange(0, pattern@.len() as int) =~= text@.subrange(
                    at as int,
                    at + pattern@.len(),
                ));
                assert(rest.skip(pattern@.len() as int) =~= text@.skip(at + pattern@.len()));
            }
            at = at + wanted.len();
            copied = at;
            assert(text@.subrange(copied as int, at as int) =~= Seq::<char>::empty());
            assert(before + (with@ + replaced(text@.skip(at as int), pattern@, with@)) =~= result@
                + text@.subrange(copied as int, at as int) + replaced(
                text@.skip(at as int),
                pattern@,
                with@,
            ));
        } else {
            proof {
                if occurs_at(rest, pattern@, 0) {
                    assert(rest.subrange(0, pattern@.len() as int) =~= text@.subrange(
                        at as int,
                        at + pattern@.len(),
                    ));
                }
                assert(rest.skip(1) =~= text@.skip(at + 1));
                assert(text@.subrange(copied as int, at + 1) =~= text@.subrange(
                    copied as int,
                    at as int,
                ) + seq![rest[0]]);
                let tail = replaced(text@.skip(at + 1), pattern@, with@);
                assert(before + (seq![rest[0]] + tail) =~= result@ + text@.subrange(
                    copied as int,
                    at + 1,
                ) + tail);
            }
            at = at + 1;
        }
    }
    result.append(text.substring_char(copied, at));
    proof {
        assert(text@.skip(at as int) =~= Seq::<char>::empty());
        assert(result@ =~= replaced(text@, pattern@, with@));
    }
    result
}

/// `first_index` is where the character first stands.
pub proof fn lemma_first_index(text: Seq<char>, c: char, at: int)
    requires
        0 <= at <= text.len(),
        forall|j: int| 0 <= j < at ==> text[j] != c,
        at < text.len() ==> text[at] == c,
    ensures
        first_index(text, c) == at,
    decreases text.len(),
{
    if at > 0 {
        assert forall|j: int| 0 <= j < at - 1 implies text.skip(1)[j] != c by {
            assert(text.skip(1)[j] == text[j + 1]);
        }
        lemma_first_index(text.skip(1), c, at - 1);
    }
}

/// The first pieces of `text` between occurrences of `separator`, at most `limit` of them.
pub fn split_first(text: &str, separator: char, limit: usize) -> (pieces: Vec<String>)
    ensures
        pieces@.len() == (if limit < split_on(text@, separator).len() {
            limit as nat
        } else {
            split_on(text@, separator).len()
        }),
        forall|i: int|
            0 <= i < pieces@.len() ==> (#[trigger] pieces@[i])@ == split_on(text@, separator)[i],
{
    let chars = to_chars(text);
    let mut pieces: Vec<String> = Vec::new();
    let mut start: usize = 0;
    let mut done = false;
    let ghost all = split_on(text@, separator);
    assert(text@.skip(0) =~= text@);
    while pieces.len() < limit && !done
        invariant
            chars@ == text@,
            all == split_on(text@, separator),
            pieces@.len() <= limit,
            start <= chars@.len(),
            done ==> pieces@.len() == all.len(),
            !done ==> pieces@.len() < all.len() && all.skip(pieces@.len() as int) == split_on(
                text@.skip(start as int),
                separator,
            ),
            forall|i: int| 0 <= i < pieces@.len() ==> (#[trigger] pieces@[i])@ == all[i],
        decreases limit - pieces@.len(),
    {
        let mut end: usize = start;
        while end < chars.len() && chars[end] != separator
            invariant
                start <= end <= chars@.len(),
                forall|j: int| start <= j < end ==> chars@[j] != separator,
            decreases chars@.len() - end,
        {
            end = end + 1;
        }
        let ghost rest = text@.skip(start as int);
        let ghost known = pieces@.len() as int;
        proof {
            lemma_first_index(rest, separator, end - start);
            assert(rest.take(end - start) =~= text@.subrange(start as int, end as int));
            assert(all.skip(known)[0] == all[known]);
            if end < chars@.len() {
                let tail = split_on(text@.skip(end + 1), separator);
                assert(rest.skip(end - start + 1) =~= text@.skip(end + 1));
                assert(tail.len() > 0);
                assert(all.skip(known + 1) =~= all.skip(known).skip(1));
                assert(all.skip(known).skip(1) =~= tail);
            } else {
                assert(split_on(rest, separator) =~= seq![rest]);
                assert(all.skip(known).len() == 1);
            }
        }
        pieces.push(text.substring_char(start, end).to_owned());
        if end < chars.len() {
            start = end + 1;
        } else {
            done = true;
        }
    }
    pieces
}

} // verus!
