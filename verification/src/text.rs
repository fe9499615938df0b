//! Strings as sequences of characters: comparing them, cutting them at a
//! separator, joining them again, and taking the white space around them away.

use vstd::prelude::*;
use vstd::string::StringExecFns;
use vstd::utf8::{encode_utf8, encode_utf8_decode_utf8};

verus! {

/// Whether two strings hold the same characters.
pub fn str_eq(a: &str, b: &str) -> (same: bool)
    ensures
        same == (a@ == b@),
{
    let left = a.as_bytes();
    let right = b.as_bytes();
    proof {
        encode_utf8_decode_utf8(a@);
        encode_utf8_decode_utf8(b@);
    }
    if left.len() != right.len() {
        return false;
    }
    let mut i: usize = 0;
    while i < left.len()
        invariant
            i <= left.len(),
            left.len() == right.len(),
            left@ == encode_utf8(a@),
            right@ == encode_utf8(b@),
            forall|j: int| 0 <= j < i ==> left@[j] == right@[j],
        decreases left.len() - i,
    {
        if left[i] != right[i] {
            return false;
        }
        i += 1;
    }
    assert(left@ =~= right@);
    true
}

/// The pieces of `text` between the occurrences of `separator`, in order.
/// There is always one piece more than there are separators, so a text
/// without separator is its own single piece, and a piece is empty where two
/// separators meet or the text starts or ends with one.
pub open spec fn split_spec(text: Seq<char>, separator: char) -> Seq<Seq<char>>
    decreases text.len(),
{
    if text.len() == 0 {
        seq![Seq::empty()]
    } else {
        let before = split_spec(text.drop_last(), separator);
        if text.last() == separator {
            before.push(Seq::empty())
        } else {
            before.drop_last().push(before.last().push(text.last()))
        }
    }
}

/// The characters of each string of a sequence.
pub open spec fn views(pieces: Seq<&str>) -> Seq<Seq<char>> {
    pieces.map_values(|piece: &str| piece@)
}

/// A text has at least one piece.
pub proof fn lemma_split_is_not_empty(text: Seq<char>, separator: char)
    ensures
        split_spec(text, separator).len() >= 1,
    decreases text.len(),
{
    if text.len() > 0 {
        lemma_split_is_not_empty(text.drop_last(), separator);
    }
}

/// Cuts `text` at every occurrence of `separator`.
pub fn split<'a>(text: &'a str, separator: char) -> (pieces: Vec<&'a str>)
    ensures
        views(pieces@) == split_spec(text@, separator),
{
    let length = text.unicode_len();
    let mut pieces: Vec<&'a str> = Vec::new();
    let mut start: usize = 0;
    let mut i: usize = 0;
    assert(text@.subrange(0, 0) == Seq::<char>::empty());
    for c in it: text.chars()
        invariant
            it.seq() == text@,
            length == text@.len(),
            i == it.index(),
            start <= i,
            split_spec(text@.take(i as int), separator) == views(pieces@).push(
                text@.subrange(start as int, i as int),
            ),
    {
        proof {
            assert(text@.take(i + 1).drop_last() == text@.take(i as int));
            assert(text@.subrange(start as int, i as int).push(c) == text@.subrange(
                start as int,
                i + 1,
            ));
            assert(text@.subrange(i + 1, i + 1) == Seq::<char>::empty());
        }
        if c == separator {
            pieces.push(text.substring_char(start, i));
            start = i + 1;
        }
        i += 1;
    }
    assert(text@.take(i as int) == text@);
    pieces.push(text.substring_char(start, i));
    pieces
}

/// The pieces written one after the other with `separator` between each two.
pub open spec fn join_spec(pieces: Seq<Seq<char>>, separator: Seq<char>) -> Seq<char>
    decreases pieces.len(),
{
    if pieces.len() == 0 {
        Seq::empty()
    } else if pieces.len() == 1 {
        pieces[0]
    } else {
        join_spec(pieces.drop_last(), separator) + separator + pieces.last()
    }
}

/// Writes the pieces one after the other with `separator` between each two.
pub fn join(pieces: &Vec<&str>, separator: &str) -> (joined: String)
    ensures
        joined@ == join_spec(views(pieces@), separator@),
{
    let mut joined = String::new();
    let mut i: usize = 0;
    while i < pieces.len()
        invariant
            i <= pieces.len(),
            joined@ == join_spec(views(pieces@).take(i as int), separator@),
        decreases pieces.len() - i,
    {
        assert(views(pieces@).take(i + 1).drop_last() == views(pieces@).take(i as int));
        if i > 0 {
            joined.append(separator);
        }
        joined.append(pieces[i]);
        i += 1;
    }
    assert(views(pieces@).take(pieces.len() as int) == views(pieces@));
    joined
}

/// Cutting a text at a separator loses nothing: the pieces, joined with the
/// separator again, are the text, and no piece holds the separator.
pub proof fn lemma_join_of_split(text: Seq<char>, separator: char)
    ensures
        join_spec(split_spec(text, separator), seq![separator]) == text,
        forall|i: int|
            0 <= i < split_spec(text, separator).len() ==> !(#[trigger] split_spec(
                text,
                separator,
            )[i]).contains(separator),
    decreases text.len(),
{
    let pieces = split_spec(text, separator);
    if text.len() > 0 {
        let shorter = text.drop_last();
        let before = split_spec(shorter, separator);
        lemma_join_of_split(shorter, separator);
        lemma_split_is_not_empty(shorter, separator);
        if text.last() == separator {
            assert(pieces.drop_last() == before);
        } else {
            let last = before.last().push(text.last());
            assert(pieces.drop_last() == before.drop_last());
            if before.len() > 1 {
                let start = join_spec(before.drop_last(), seq![separator]) + seq![separator];
                assert(start + last == (start + before.last()).push(text.last()));
            }
        }
    }
}

/// Whether a character is white space: the characters with the Unicode
/// property `White_Space`.
pub open spec fn is_whitespace_spec(c: char) -> bool {
    ||| '\u{9}' <= c <= '\u{d}'
    ||| c == ' '
    ||| c == '\u{85}'
    ||| c == '\u{a0}'
    ||| c == '\u{1680}'
    ||| '\u{2000}' <= c <= '\u{200a}'
    ||| c == '\u{2028}'
    ||| c == '\u{2029}'
    ||| c == '\u{202f}'
    ||| c == '\u{205f}'
    ||| c == '\u{3000}'
}

/// A text without the white space that it starts with.
pub open spec fn trim_start_spec(text: Seq<char>) -> Seq<char>
    decreases text.len(),
{
    if text.len() > 0 && is_whitespace_spec(text[0]) {
        trim_start_spec(text.drop_first())
    } else {
        text
    }
}

/// A text without the white space that it ends with.
pub open spec fn trim_end_spec(text: Seq<char>) -> Seq<char>
    decreases text.len(),
{
    if text.len() > 0 && is_whitespace_spec(text.last()) {
        trim_end_spec(text.drop_last())
    } else {
        text
    }
}

/// A text without the white space around it.
pub open spec fn trim_spec(text: Seq<char>) -> Seq<char> {
    trim_end_spec(trim_start_spec(text))
}

/// Whether a character is white space.
pub fn is_whitespace(c: char) -> (white: bool)
    ensures
        white == is_whitespace_spec(c),
{
    (c >= '\u{9}' && c <= '\u{d}') || c == ' ' || c == '\u{85}' || c == '\u{a0}' || c
        == '\u{1680}' || (c >= '\u{2000}' && c <= '\u{200a}') || c == '\u{2028}' || c
        == '\u{2029}' || c == '\u{202f}' || c == '\u{205f}' || c == '\u{3000}'
}

proof fn lemma_trim_start(text: Seq<char>, from: int)
    requires
        0 <= from <= text.len(),
        forall|i: int| 0 <= i < from ==> is_whitespace_spec(text[i]),
        from < text.len() ==> !is_whitespace_spec(text[from]),
    ensures
        trim_start_spec(text) == text.skip(from),
    decreases from,
{
    if from > 0 {
        lemma_trim_start(text.drop_first(), from - 1);
    }
}

proof fn lemma_trim_end(text: Seq<char>, to: int)
    requires
        0 <= to <= text.len(),
        forall|i: int| to <= i < text.len() ==> is_whitespace_spec(text[i]),
        0 < to ==> !is_whitespace_spec(text[to - 1]),
    ensures
        trim_end_spec(text) == text.take(to),
    decreases text.len() - to,
{
    if to < text.len() {
        lemma_trim_end(text.drop_last(), to);
    }
}

/// Takes the white space at both ends of a text away.
pub fn trim<'a>(text: &'a str) -> (trimmed: &'a str)
    ensures
        trimmed@ == trim_spec(text@),
{
    let length = text.unicode_len();
    let mut from: usize = 0;
    let mut to: usize = 0;
    let mut i: usize = 0;
    for c in it: text.chars()
        invariant
            it.seq() == text@,
            length == text@.len(),
            i == it.index(),
            from <= to <= i,
            from == to ==> from == 0 && forall|j: int| 0 <= j < i ==> is_whitespace_spec(text@[j]),
            from < to ==> !is_whitespace_spec(text@[from as int]) && !is_whitespace_spec(
                text@[to - 1],
            ),
            forall|j: int| 0 <= j < from ==> is_whitespace_spec(text@[j]),
            forall|j: int| to <= j < i ==> is_whitespace_spec(text@[j]),
    {
        if !is_whitespace(c) {
            if from == to {
                from = i;
            }
            to = i + 1;
        }
        i += 1;
    }
    proof {
        if from == to {
            lemma_trim_start(text@, text@.len() as int);
        } else {
            lemma_trim_start(text@, from as int);
            lemma_trim_end(text@.skip(from as int), to - from);
        }
    }
    text.substring_char(from, to)
}

} // verus!
