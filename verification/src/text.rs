//! Character sequences: the text operations the resolvers are built from.

use vstd::prelude::*;

verus! {

/// Trusted: `String::push` of the standard library, which appends one
/// character to the end of a text and leaves the rest as it was.
pub assume_specification[ String::push ](s: &mut String, c: char)
    ensures
        final(s)@ == old(s)@.push(c),
;

/// An optional text as an optional sequence of characters.
pub open spec fn opt_view(text: Option<String>) -> Option<Seq<char>> {
    match text {
        Some(s) => Some(s@),
        None => None,
    }
}

/// A list of texts as a sequence of sequences of characters.
pub open spec fn texts(list: Seq<String>) -> Seq<Seq<char>> {
    Seq::new(list.len(), |i: int| list[i]@)
}

/// The characters of `s`, one element each.
pub fn chars_of(s: &str) -> (r: Vec<char>)
    ensures
        r@ == s@,
{
    let mut r: Vec<char> = Vec::new();
    for c in it: s.chars()
        invariant
            r@ == it.seq().take(it.index() as int),
            it.seq() == s@,
    {
        r.push(c);
    }
    r
}

/// The text made of `chars`.
pub fn string_of(chars: &Vec<char>) -> (r: String)
    ensures
        r@ == chars@,
{
    let mut r = String::new();
    let mut i: usize = 0;
    while i < chars.len()
        invariant
            i <= chars@.len(),
            r@ == chars@.take(i as int),
        decreases chars@.len() - i,
    {
        r.push(chars[i]);
        i += 1;
    }
    assert(chars@.take(i as int) == chars@);
    r
}

/// A list of rows of characters as a sequence of sequences.
pub open spec fn rows(list: Seq<Vec<char>>) -> Seq<Seq<char>> {
    Seq::new(list.len(), |i: int| list[i]@)
}

/// Whether `needle` stands in `text` at position `at`.
pub open spec fn occurs_at(text: Seq<char>, needle: Seq<char>, at: int) -> bool {
    0 <= at && at + needle.len() <= text.len() && text.subrange(at, at + needle.len()) == needle
}

/// Whether `needle` stands somewhere in `text`.
pub open spec fn occurs_in(text: Seq<char>, needle: Seq<char>) -> bool {
    exists|at: int| occurs_at(text, needle, at)
}

/// The lines of a text: a line feed ends one line and begins the next, so a
/// text with `n` line feeds has `n + 1` lines, and none of them holds a line
/// feed.
pub open spec fn lines_of(text: Seq<char>) -> Seq<Seq<char>>
    decreases text.len(),
{
    if text.len() == 0 {
        seq![Seq::empty()]
    } else {
        let before = lines_of(text.drop_last());
        if text.last() == '\n' {
            before.push(Seq::empty())
        } else {
            before.drop_last().push(before.last().push(text.last()))
        }
    }
}

/// The lines put together again, with a line feed between each two.
pub open spec fn joined(lines: Seq<Seq<char>>) -> Seq<char>
    decreases lines.len(),
{
    if lines.len() == 0 {
        Seq::empty()
    } else if lines.len() == 1 {
        lines[0]
    } else {
        joined(lines.drop_last()).push('\n') + lines.last()
    }
}

/// What the lines of a text are: there is at least one, none of them holds a
/// line feed, and put together again they are the text.
pub proof fn lines_partition_the_text(text: Seq<char>)
    ensures
        lines_of(text).len() >= 1,
        forall|i: int, k: int|
            0 <= i < lines_of(text).len() && 0 <= k < lines_of(text)[i].len() ==> (
            #[trigger] lines_of(text)[i][k]) != '\n',
        joined(lines_of(text)) == text,
    decreases text.len(),
{
    if text.len() > 0 {
        let front = text.drop_last();
        let before = lines_of(front);
        lines_partition_the_text(front);
        let lines = lines_of(text);
        if text.last() == '\n' {
            assert(lines.drop_last() == before);
            assert(joined(lines) =~= joined(before).push('\n'));
        } else {
            let grown = before.last().push(text.last());
            assert(lines.last() == grown);
            assert(lines.drop_last() == before.drop_last());
            assert(joined(lines) =~= joined(before).push(text.last()));
        }
        assert(front.push(text.last()) =~= text);
    }
}

/// Whether `needle` stands in `text` at position `at`.
pub fn matches_at(text: &Vec<char>, needle: &Vec<char>, at: usize) -> (r: bool)
    ensures
        r == occurs_at(text@, needle@, at as int),
{
    if needle.len() > text.len() || at > text.len() - needle.len() {
        return false;
    }
    let mut k: usize = 0;
    while k < needle.len()
        invariant
            k <= needle@.len(),
            at + needle@.len() <= text@.len() <= usize::MAX,
            forall|j: int| 0 <= j < k ==> text@[at + j] == needle@[j],
        decreases needle@.len() - k,
    {
        if text[at + k] != needle[k] {
            assert(text@.subrange(at as int, at + needle@.len())[k as int] == text@[at + k]);
            return false;
        }
        k += 1;
    }
    assert(text@.subrange(at as int, at + needle@.len()) =~= needle@);
    true
}

/// Whether `text` begins with `prefix`.
pub fn starts_with(text: &Vec<char>, prefix: &str) -> (r: bool)
    ensures
        r == prefix@.is_prefix_of(text@),
{
    let needle = chars_of(prefix);
    let r = matches_at(text, &needle, 0);
    assert(r == prefix@.is_prefix_of(text@)) by {
        if prefix@.len() <= text@.len() {
            assert(text@.subrange(0int, 0int + prefix@.len()) == text@.subrange(0, prefix@.len() as int));
        }
    }
    r
}

/// Whether `needle` stands somewhere in `text`.
pub fn contains(text: &Vec<char>, needle: &str) -> (r: bool)
    ensures
        r == occurs_in(text@, needle@),
{
    let sought = chars_of(needle);
    if sought.len() > text.len() {
        return false;
    }
    let last: usize = text.len() - sought.len();
    let mut at: usize = 0;
    while at < last
        invariant
            sought@ == needle@,
            last == text@.len() - sought@.len(),
            at <= last,
            forall|j: int| 0 <= j < at ==> !occurs_at(text@, sought@, j),
        decreases last - at,
    {
        if matches_at(text, &sought, at) {
            return true;
        }
        at += 1;
    }
    matches_at(text, &sought, last)
}

/// Splits a text into its lines.
pub fn split_lines(text: &str) -> (r: Vec<Vec<char>>)
    ensures
        rows(r@) == lines_of(text@),
{
    let chars = chars_of(text);
    let mut lines: Vec<Vec<char>> = Vec::new();
    let mut current: Vec<char> = Vec::new();
    let mut i: usize = 0;
    while i < chars.len()
        invariant
            i <= chars@.len(),
            rows(lines@).push(current@) == lines_of(chars@.take(i as int)),
        decreases chars@.len() - i,
    {
        proof {
            assert(chars@.take(i + 1).drop_last() == chars@.take(i as int));
        }
        let ghost before = rows(lines@).push(current@);
        if chars[i] == '\n' {
            lines.push(current);
            current = Vec::new();
            assert(rows(lines@).push(current@) =~= before.push(Seq::empty()));
        } else {
            current.push(chars[i]);
            assert(rows(lines@).push(current@) =~= before.drop_last().push(
                before.last().push(chars@[i as int]),
            ));
        }
        i += 1;
    }
    proof {
        assert(chars@.take(i as int) == chars@);
    }
    let ghost before = rows(lines@).push(current@);
    lines.push(current);
    assert(rows(lines@) =~= before);
    lines
}

/// The characters of which the path segments of a storage location are
/// made: lower-case letters, digits and the underscore.
pub open spec fn is_key_char(c: char) -> bool {
    ('a' <= c && c <= 'z') || ('0' <= c && c <= '9') || c == '_'
}

/// A path segment of a storage location: one such character or more, and no
/// other.
pub open spec fn is_key(segment: Seq<char>) -> bool {
    segment.len() > 0 && forall|i: int| 0 <= i < segment.len() ==> is_key_char(#[trigger] segment[i])
}

/// Whether `segment` is a path segment of a storage location.
pub fn is_key_text(segment: &Vec<char>) -> (r: bool)
    ensures
        r == is_key(segment@),
{
    if segment.len() == 0 {
        return false;
    }
    let mut i: usize = 0;
    while i < segment.len()
        invariant
            i <= segment@.len(),
            forall|k: int| 0 <= k < i ==> is_key_char(#[trigger] segment@[k]),
        decreases segment@.len() - i,
    {
        let c = segment[i];
        if !(('a' <= c && c <= 'z') || ('0' <= c && c <= '9') || c == '_') {
            return false;
        }
        i += 1;
    }
    true
}

/// Where a longer text stands, its beginning stands too.
pub proof fn beginning_occurs(text: Seq<char>, head: Seq<char>, tail: Seq<char>)
    requires
        occurs_in(text, head + tail),
    ensures
        occurs_in(text, head),
{
    let at = choose|at: int| occurs_at(text, head + tail, at);
    let whole = head + tail;
    assert(text.subrange(at, at + head.len()) =~= text.subrange(at, at + whole.len()).subrange(
        0,
        head.len() as int,
    ));
    assert(whole.subrange(0, head.len() as int) =~= head);
    assert(occurs_at(text, head, at));
}

} // verus!
