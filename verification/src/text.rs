//! Strings as sequences of characters: comparing, searching, splitting and joining.

use vstd::prelude::*;

verus! {

/// `String::push` appends one character to the string.
pub assume_specification[ String::push ](s: &mut String, c: char)
    ensures
        final(s)@ == old(s)@.push(c),
;

/// The characters of an optional text.
pub open spec fn text_view(text: Option<String>) -> Option<Seq<char>> {
    match text {
        Some(t) => Some(t@),
        None => None,
    }
}

/// The characters of `text`, in order.
pub fn chars_of(text: &str) -> (r: Vec<char>)
    ensures
        r@ == text@,
{
    let mut out: Vec<char> = Vec::new();
    for c in it: text.chars()
        invariant
            it.seq() == text@,
            out@ == text@.take(it.index() as int),
    {
        out.push(c);
        assert(text@.take(it.index() + 1) == text@.take(it.index() as int).push(c));
    }
    assert(text@.take(text@.len() as int) == text@);
    out
}

/// The string made of `chars[from..to]`.
pub fn text_of(chars: &Vec<char>, from: usize, to: usize) -> (r: String)
    requires
        from <= to <= chars.len(),
    ensures
        r@ == chars@.subrange(from as int, to as int),
{
    let mut out = String::new();
    let mut i = from;
    while i < to
        invariant
            from <= i <= to <= chars.len(),
            out@ == chars@.subrange(from as int, i as int),
        decreases to - i,
    {
        out.push(chars[i]);
        i += 1;
        assert(chars@.subrange(from as int, i as int) == chars@.subrange(from as int, i - 1).push(
            chars@[i - 1],
        ));
    }
    out
}

/// Whether `part` stands in `whole` at position `at`.
pub open spec fn occurs_at(whole: Seq<char>, part: Seq<char>, at: int) -> bool {
    &&& 0 <= at
    &&& at + part.len() <= whole.len()
    &&& whole.subrange(at, at + part.len()) == part
}

/// Whether `part` stands anywhere in `whole`.
pub open spec fn occurs(whole: Seq<char>, part: Seq<char>) -> bool {
    exists|at: int| occurs_at(whole, part, at)
}

/// Whether `whole` begins with `part`.
pub open spec fn begins_with(whole: Seq<char>, part: Seq<char>) -> bool {
    occurs_at(whole, part, 0)
}

/// Whether `part` stands in `whole` at position `at`.
pub fn matches_at(whole: &Vec<char>, part: &Vec<char>, at: usize) -> (r: bool)
    requires
        at <= whole.len(),
    ensures
        r == occurs_at(whole@, part@, at as int),
{
    if part.len() > whole.len() - at {
        return false;
    }
    let mut i: usize = 0;
    while i < part.len()
        invariant
            i <= part.len(),
            at + part.len() <= whole.len(),
            forall|j: int| 0 <= j < i ==> whole@[at + j] == part@[j],
        decreases part.len() - i,
    {
        if whole[at + i] != part[i] {
            assert(whole@.subrange(at as int, at + part@.len())[i as int] != part@[i as int]);
            return false;
        }
        i += 1;
    }
    assert(whole@.subrange(at as int, at + part@.len()) =~= part@);
    true
}

/// The first position at which `part` stands in `whole`.
pub fn find(whole: &Vec<char>, part: &Vec<char>) -> (r: Option<usize>)
    ensures
        match r {
            Some(at) => {
                &&& occurs_at(whole@, part@, at as int)
                &&& forall|j: int| 0 <= j < at ==> !occurs_at(whole@, part@, j)
            },
            None => !occurs(whole@, part@),
        },
{
    let mut at: usize = 0;
    while at < whole.len()
        invariant
            at <= whole.len(),
            forall|j: int| 0 <= j < at ==> !occurs_at(whole@, part@, j),
        decreases whole.len() - at,
    {
        if matches_at(whole, part, at) {
            return Some(at);
        }
        at += 1;
    }
    if matches_at(whole, part, at) {
        Some(at)
    } else {
        None
    }
}

/// The first position, from `at` on, at which `part` stands in `whole`.
pub open spec fn position_from(whole: Seq<char>, part: Seq<char>, at: nat) -> Option<nat>
    decreases whole.len() + 1 - at,
{
    if at > whole.len() {
        None
    } else if occurs_at(whole, part, at as int) {
        Some(at)
    } else {
        position_from(whole, part, at + 1)
    }
}

/// The first position is the one before which there is none.
pub proof fn lemma_position_from(whole: Seq<char>, part: Seq<char>, at: nat, found: Option<nat>)
    requires
        match found {
            Some(i) => at <= i && occurs_at(whole, part, i as int) && forall|j: int|
                at <= j < i ==> !occurs_at(whole, part, j),
            None => forall|j: int| at <= j ==> !occurs_at(whole, part, j),
        },
    ensures
        position_from(whole, part, at) == found,
    decreases whole.len() + 1 - at,
{
    if at <= whole.len() && !occurs_at(whole, part, at as int) {
        lemma_position_from(whole, part, at + 1, found);
    }
}

/// Whether `part` stands anywhere in `whole`.
pub fn contains(whole: &str, part: &str) -> (r: bool)
    ensures
        r == occurs(whole@, part@),
{
    find(&chars_of(whole), &chars_of(part)).is_some()
}

/// Whether `whole` begins with `part`.
pub fn starts_with(whole: &str, part: &str) -> (r: bool)
    ensures
        r == begins_with(whole@, part@),
{
    matches_at(&chars_of(whole), &chars_of(part), 0)
}

/// Whether two strings hold the same characters.
pub fn same(a: &str, b: &str) -> (r: bool)
    ensures
        r == (a@ == b@),
{
    let left = chars_of(a);
    let right = chars_of(b);
    if left.len() != right.len() {
        return false;
    }
    let r = matches_at(&left, &right, 0);
    assert(left@.subrange(0, left@.len() as int) =~= left@);
    r
}

/// What follows `prefix` in `whole`, if `whole` begins with it.
pub fn strip_prefix(whole: &str, prefix: &str) -> (r: Option<String>)
    ensures
        match r {
            Some(rest) => begins_with(whole@, prefix@) && rest@ == whole@.skip(
                prefix@.len() as int,
            ),
            None => !begins_with(whole@, prefix@),
        },
{
    let chars = chars_of(whole);
    let start = chars_of(prefix);
    if matches_at(&chars, &start, 0) {
        let rest = text_of(&chars, start.len(), chars.len());
        assert(rest@ =~= whole@.skip(prefix@.len() as int));
        Some(rest)
    } else {
        None
    }
}

/// The pieces of `text` between the occurrences of `mark`, in order: one more than there are
/// occurrences.
pub open spec fn pieces(text: Seq<char>, mark: char) -> Seq<Seq<char>>
    decreases text.len(),
{
    if text.len() == 0 {
        seq![Seq::empty()]
    } else {
        let before = pieces(text.drop_last(), mark);
        if text.last() == mark {
            before.push(Seq::empty())
        } else {
            before.drop_last().push(before.last().push(text.last()))
        }
    }
}

/// The pieces of a text, put together again with `mark` between them.
pub open spec fn joined(parts: Seq<Seq<char>>, mark: char) -> Seq<char>
    decreases parts.len(),
{
    if parts.len() == 0 {
        Seq::empty()
    } else if parts.len() == 1 {
        parts[0]
    } else {
        joined(parts.drop_last(), mark).push(mark) + parts.last()
    }
}

/// A text has at least one piece, and no piece holds the mark.
pub proof fn lemma_pieces(text: Seq<char>, mark: char)
    ensures
        pieces(text, mark).len() >= 1,
        forall|i: int|
            0 <= i < pieces(text, mark).len() ==> !(#[trigger] pieces(text, mark)[i]).contains(
                mark,
            ),
    decreases text.len(),
{
    if text.len() > 0 {
        lemma_pieces(text.drop_last(), mark);
        let before = pieces(text.drop_last(), mark);
        assert forall|i: int| 0 <= i < pieces(text, mark).len() implies !(
        #[trigger] pieces(text, mark)[i]).contains(mark) by {
            let piece = pieces(text, mark)[i];
            if i < before.len() - 1 {
                assert(piece == before[i]);
            } else if text.last() != mark {
                assert(piece == before[before.len() - 1].push(text.last()));
                assert(!before[before.len() - 1].contains(mark));
                if piece.contains(mark) {
                    let k = choose|k: int| 0 <= k < piece.len() && piece[k] == mark;
                    assert(before[before.len() - 1][k] == mark);
                }
            } else if i < before.len() {
                assert(piece == before[i]);
            }
        }
    }
}

/// Every piece of a text stands in it, the last one at its end.
pub proof fn lemma_pieces_occur(text: Seq<char>, mark: char)
    ensures
        forall|i: int|
            0 <= i < pieces(text, mark).len() ==> occurs(text, #[trigger] pieces(text, mark)[i]),
        occurs_at(text, pieces(text, mark).last(), text.len() - pieces(text, mark).last().len()),
    decreases text.len(),
{
    let parts = pieces(text, mark);
    if text.len() == 0 {
        assert(text.subrange(0, 0) =~= parts[0]);
        assert(occurs_at(text, parts[0], 0));
    } else {
        let shorter = text.drop_last();
        let before = pieces(shorter, mark);
        lemma_pieces(shorter, mark);
        lemma_pieces_occur(shorter, mark);
        let end = text.len() - parts.last().len();
        if text.last() == mark {
            assert(text.subrange(end, end) =~= parts.last());
        } else {
            assert(text.subrange(end, text.len() as int) =~= shorter.subrange(
                end,
                shorter.len() as int,
            ).push(text.last()));
        }
        assert forall|i: int| 0 <= i < parts.len() implies occurs(text, #[trigger] parts[i]) by {
            if i < parts.len() - 1 {
                assert(parts[i] == before[i]);
                let at = choose|at: int| occurs_at(shorter, before[i], at);
                assert(text.subrange(at, at + before[i].len()) =~= shorter.subrange(
                    at,
                    at + before[i].len(),
                ));
                assert(occurs_at(text, parts[i], at));
            } else {
                assert(occurs_at(text, parts[i], end));
            }
        }
    }
}

/// What stands in a part of a text stands in the text.
pub proof fn lemma_occurs_within(whole: Seq<char>, middle: Seq<char>, part: Seq<char>)
    requires
        occurs(whole, middle),
        occurs(middle, part),
    ensures
        occurs(whole, part),
{
    let outer = choose|at: int| occurs_at(whole, middle, at);
    let inner = choose|at: int| occurs_at(middle, part, at);
    assert(whole.subrange(outer + inner, outer + inner + part.len()) =~= middle.subrange(
        inner,
        inner + part.len(),
    ));
    assert(occurs_at(whole, part, outer + inner));
}

/// Joining the pieces of a text gives the text back.
pub proof fn pieces_joined(text: Seq<char>, mark: char)
    ensures
        joined(pieces(text, mark), mark) == text,
    decreases text.len(),
{
    reveal_with_fuel(joined, 2);
    if text.len() > 0 {
        pieces_joined(text.drop_last(), mark);
        lemma_pieces(text.drop_last(), mark);
        let before = pieces(text.drop_last(), mark);
        let after = pieces(text, mark);
        assert(text =~= text.drop_last().push(text.last()));
        if text.last() == mark {
            assert(after.drop_last() =~= before);
            assert(joined(after, mark) =~= text);
        } else {
            assert(after.drop_last() =~= before.drop_last());
            assert(joined(after, mark) =~= text);
        }
    }
}

/// Text without a mark lengthens the last piece only.
proof fn lemma_pieces_extended(text: Seq<char>, tail: Seq<char>, mark: char)
    requires
        !tail.contains(mark),
    ensures
        pieces(text + tail, mark) == pieces(text, mark).drop_last().push(
            pieces(text, mark).last() + tail,
        ),
    decreases tail.len(),
{
    lemma_pieces(text, mark);
    let before = pieces(text, mark);
    if tail.len() == 0 {
        assert(text + tail =~= text);
        assert(before.last() + tail =~= before.last());
        assert(before.drop_last().push(before.last()) =~= before);
    } else {
        let shorter = tail.drop_last();
        assert(tail.contains(tail.last()));
        assert forall|k: int| 0 <= k < shorter.len() implies shorter[k] != mark by {
            assert(tail.contains(tail[k]));
        }
        lemma_pieces_extended(text, shorter, mark);
        assert((text + tail).drop_last() =~= text + shorter);
        assert((before.last() + shorter).push(tail.last()) =~= before.last() + tail);
        let inner = before.drop_last().push(before.last() + shorter);
        assert(inner.drop_last() =~= before.drop_last());
    }
}

/// Joined texts that do not hold the mark are the pieces of what they are joined to.
pub proof fn joined_pieces(parts: Seq<Seq<char>>, mark: char)
    requires
        parts.len() >= 1,
        forall|i: int| 0 <= i < parts.len() ==> !(#[trigger] parts[i]).contains(mark),
    ensures
        pieces(joined(parts, mark), mark) == parts,
    decreases parts.len(),
{
    if parts.len() == 1 {
        lemma_pieces_extended(Seq::empty(), parts[0], mark);
        assert(Seq::<char>::empty() + parts[0] =~= parts[0]);
        assert(pieces(parts[0], mark) =~= parts);
    } else {
        let shorter = parts.drop_last();
        assert forall|i: int| 0 <= i < shorter.len() implies !(
        #[trigger] shorter[i]).contains(mark) by {
            assert(shorter[i] == parts[i]);
        }
        joined_pieces(shorter, mark);
        let start = joined(shorter, mark).push(mark);
        assert(start.drop_last() =~= joined(shorter, mark));
        assert(pieces(start, mark) == shorter.push(Seq::empty()));
        lemma_pieces_extended(start, parts.last(), mark);
        assert(shorter.push(Seq::empty()).drop_last() =~= shorter);
        assert(Seq::<char>::empty() + parts.last() =~= parts.last());
        assert(shorter.push(parts.last()) =~= parts);
    }
}

/// What none of the parts holds, and is not the mark, does not stand in what they are joined to.
pub proof fn lemma_joined_without(parts: Seq<Seq<char>>, mark: char, c: char)
    requires
        mark != c,
        forall|i: int| 0 <= i < parts.len() ==> !(#[trigger] parts[i]).contains(c),
    ensures
        !joined(parts, mark).contains(c),
    decreases parts.len(),
{
    let whole = joined(parts, mark);
    if parts.len() == 1 {
        assert(!parts[0].contains(c));
    } else if parts.len() > 1 {
        let shorter = parts.drop_last();
        assert forall|i: int| 0 <= i < shorter.len() implies !(#[trigger] shorter[i]).contains(
            c,
        ) by {
            assert(shorter[i] == parts[i]);
        }
        lemma_joined_without(shorter, mark, c);
        let start = joined(shorter, mark);
        let end = parts[parts.len() - 1];
        assert(!end.contains(c));
        assert forall|k: int| 0 <= k < whole.len() implies whole[k] != c by {
            if k < start.len() {
                assert(start.contains(start[k]));
            } else if k > start.len() {
                assert(end.contains(end[k - start.len() - 1]));
            }
        }
    }
}

/// The pieces of `text` between the occurrences of `mark`.
pub fn split(text: &str, mark: char) -> (r: Vec<String>)
    ensures
        r@.map_values(|p: String| p@) == pieces(text@, mark),
{
    let chars = chars_of(text);
    let mut out: Vec<String> = Vec::new();
    let mut piece = String::new();
    let mut i: usize = 0;
    assert(chars@.take(0) =~= Seq::<char>::empty());
    assert(out@.map_values(|p: String| p@).push(piece@) =~= pieces(chars@.take(0), mark));
    while i < chars.len()
        invariant
            i <= chars.len(),
            out@.map_values(|p: String| p@).push(piece@) == pieces(chars@.take(i as int), mark),
        decreases chars.len() - i,
    {
        let c = chars[i];
        let ghost before = pieces(chars@.take(i as int), mark);
        i += 1;
        assert(chars@.take(i as int).drop_last() =~= chars@.take(i - 1));
        assert(before.drop_last() =~= out@.map_values(|p: String| p@));
        assert(before.last() == piece@);
        if c == mark {
            out.push(piece);
            piece = String::new();
            assert(out@.map_values(|p: String| p@) =~= before);
        } else {
            piece.push(c);
        }
        assert(out@.map_values(|p: String| p@).push(piece@) =~= pieces(
            chars@.take(i as int),
            mark,
        ));
    }
    assert(chars@.take(i as int) =~= text@);
    out.push(piece);
    assert(out@.map_values(|p: String| p@) =~= pieces(text@, mark));
    out
}

/// The strings of `parts` with `mark` between them.
pub fn join(parts: &Vec<String>, mark: char) -> (r: String)
    ensures
        r@ == joined(parts@.map_values(|p: String| p@), mark),
{
    let ghost views = parts@.map_values(|p: String| p@);
    let mut out = String::new();
    let mut i: usize = 0;
    while i < parts.len()
        invariant
            i <= parts.len(),
            views == parts@.map_values(|p: String| p@),
            out@ == joined(views.take(i as int), mark),
        decreases parts.len() - i,
    {
        if i > 0 {
            out.push(mark);
        }
        out.append(parts[i].as_str());
        i += 1;
        assert(views.take(i as int).drop_last() =~= views.take(i - 1));
        assert(out@ =~= joined(views.take(i as int), mark));
    }
    assert(views.take(i as int) =~= views);
    out
}

/// The position of the first `mark` in `text`, or the length of `text` if it holds none.
pub open spec fn first_mark(text: Seq<char>, mark: char) -> nat
    decreases text.len(),
{
    if text.len() == 0 || text[0] == mark {
        0
    } else {
        1 + first_mark(text.skip(1), mark)
    }
}

/// `first_mark` is at most the length of the text, it is the position of a mark if it is less,
/// and no mark stands before it.
pub proof fn lemma_first_mark(text: Seq<char>, mark: char)
    ensures
        first_mark(text, mark) <= text.len(),
        first_mark(text, mark) < text.len() ==> text[first_mark(text, mark) as int] == mark,
        forall|j: int| 0 <= j < first_mark(text, mark) ==> text[j] != mark,
    decreases text.len(),
{
    if text.len() > 0 && text[0] != mark {
        let rest = text.skip(1);
        lemma_first_mark(rest, mark);
        assert forall|j: int| 0 <= j < first_mark(text, mark) implies text[j] != mark by {
            if j > 0 {
                assert(rest[j - 1] == text[j]);
            }
        }
    }
}

/// What stands before and after the first `mark` of `text`.
pub open spec fn cut(text: Seq<char>, mark: char) -> Option<(Seq<char>, Seq<char>)> {
    let at = first_mark(text, mark) as int;
    if at < text.len() {
        Some((text.take(at), text.skip(at + 1)))
    } else {
        None
    }
}

/// What stands before and after the first `mark` of `text`.
pub fn split_once(text: &str, mark: char) -> (r: Option<(String, String)>)
    ensures
        match r {
            Some((before, after)) => cut(text@, mark) == Some((before@, after@)),
            None => cut(text@, mark) is None,
        },
{
    let chars = chars_of(text);
    proof {
        lemma_first_mark(chars@, mark);
    }
    let mut i: usize = 0;
    while i < chars.len() && chars[i] != mark
        invariant
            i <= chars.len(),
            forall|j: int| 0 <= j < i ==> chars@[j] != mark,
        decreases chars.len() - i,
    {
        i += 1;
    }
    assert(i == first_mark(chars@, mark));
    if i == chars.len() {
        return None;
    }
    let before = text_of(&chars, 0, i);
    let after = text_of(&chars, i + 1, chars.len());
    assert(before@ =~= text@.take(i as int));
    assert(after@ =~= text@.skip(i + 1));
    Some((before, after))
}

/// A line without the carriage return that belongs to its line ending.
pub open spec fn without_return(line: Seq<char>) -> Seq<char> {
    if line.len() > 0 && line.last() == '\r' {
        line.drop_last()
    } else {
        line
    }
}

/// The lines of `text`: each ends with a line feed, or with a carriage return and a line feed,
/// which are not part of it; the ending of the last line is optional.
pub open spec fn text_lines(text: Seq<char>) -> Seq<Seq<char>> {
    let parts = pieces(text, '\n');
    let last = parts.len() - 1;
    Seq::new(
        if parts[last].len() == 0 {
            last as nat
        } else {
            parts.len()
        },
        |i: int|
            if i < last {
                without_return(parts[i])
            } else {
                parts[i]
            },
    )
}

/// The lines of `text`.
pub fn lines(text: &str) -> (r: Vec<String>)
    ensures
        r@.map_values(|l: String| l@) == text_lines(text@),
{
    let parts = split(text, '\n');
    proof {
        lemma_pieces(text@, '\n');
    }
    let ghost views = parts@.map_values(|p: String| p@);
    let last: usize = parts.len() - 1;
    let mut out: Vec<String> = Vec::new();
    let mut i: usize = 0;
    while i < last
        invariant
            i <= last,
            last == parts.len() - 1,
            views == parts@.map_values(|p: String| p@),
            out.len() == i,
            forall|j: int| 0 <= j < i ==> (#[trigger] out@[j])@ == without_return(views[j]),
        decreases last - i,
    {
        let chars = chars_of(parts[i].as_str());
        let mut end: usize = chars.len();
        if end > 0 && chars[end - 1] == '\r' {
            end -= 1;
        }
        let line = text_of(&chars, 0, end);
        assert(line@ =~= without_return(views[i as int]));
        out.push(line);
        i += 1;
    }
    if parts[last].as_str().unicode_len() > 0 {
        out.push(parts[last].clone());
    }
    assert(out@.map_values(|l: String| l@) =~= text_lines(text@));
    out
}

/// Whether a character is white space.
pub open spec fn white(c: char) -> bool {
    ||| '\u{9}' <= c <= '\u{d}'
    ||| c == '\u{20}' || c == '\u{85}' || c == '\u{a0}' || c == '\u{1680}'
    ||| '\u{2000}' <= c <= '\u{200a}'
    ||| c == '\u{2028}' || c == '\u{2029}' || c == '\u{202f}' || c == '\u{205f}' || c == '\u{3000}'
}

/// Whether a character is white space.
pub fn is_white(c: char) -> (r: bool)
    ensures
        r == white(c),
{
    ('\u{9}' <= c && c <= '\u{d}') || c == '\u{20}' || c == '\u{85}' || c == '\u{a0}' || c
        == '\u{1680}' || ('\u{2000}' <= c && c <= '\u{200a}') || c == '\u{2028}' || c == '\u{2029}'
        || c == '\u{202f}' || c == '\u{205f}' || c == '\u{3000}'
}

/// `text` without the white space it begins with.
pub open spec fn trimmed_start(text: Seq<char>) -> Seq<char>
    decreases text.len(),
{
    if text.len() > 0 && white(text[0]) {
        trimmed_start(text.skip(1))
    } else {
        text
    }
}

/// `text` without the white space it ends with.
pub open spec fn trimmed_end(text: Seq<char>) -> Seq<char>
    decreases text.len(),
{
    if text.len() > 0 && white(text.last()) {
        trimmed_end(text.drop_last())
    } else {
        text
    }
}

/// `text` without the white space around it.
pub open spec fn trimmed(text: Seq<char>) -> Seq<char> {
    trimmed_end(trimmed_start(text))
}

/// Whether `text` holds white space only.
pub open spec fn blank(text: Seq<char>) -> bool {
    trimmed(text).len() == 0
}

/// `text` without the white space around it.
pub fn trim(text: &str) -> (r: String)
    ensures
        r@ == trimmed(text@),
{
    let chars = chars_of(text);
    let mut from: usize = 0;
    assert(text@.skip(0) =~= text@);
    while from < chars.len() && is_white(chars[from])
        invariant
            chars@ == text@,
            from <= chars.len(),
            trimmed_start(text@) == trimmed_start(text@.skip(from as int)),
        decreases chars.len() - from,
    {
        assert(text@.skip(from as int).skip(1) =~= text@.skip(from + 1));
        from += 1;
    }
    let ghost rest = text@.skip(from as int);
    let mut to: usize = chars.len();
    assert(rest.take(rest.len() as int) =~= rest);
    while to > from && is_white(chars[to - 1])
        invariant
            chars@ == text@,
            from <= to <= chars.len(),
            rest == text@.skip(from as int),
            trimmed_end(rest) == trimmed_end(rest.take(to - from)),
        decreases to - from,
    {
        assert(rest.take(to - from).drop_last() =~= rest.take(to - from - 1));
        to -= 1;
    }
    assert(rest.take(to - from) =~= chars@.subrange(from as int, to as int));
    text_of(&chars, from, to)
}

/// What `String::from_utf8_lossy` makes of bytes: the characters they encode, with the replacement
/// character where they encode none.
pub uninterp spec fn utf8_lossy(bytes: Seq<u8>) -> Seq<char>;

/// `String::from_utf8_lossy` decodes bytes as UTF-8. Valid UTF-8 is decoded as it stands. Which
/// bytes are replaced otherwise is left to the name `utf8_lossy`.
#[verifier::external_body]
pub(crate) fn from_utf8_lossy(bytes: &[u8]) -> (r: String)
    ensures
        r@ == utf8_lossy(bytes@),
        vstd::utf8::valid_utf8(bytes@) ==> r@ == vstd::utf8::decode_utf8(bytes@),
{
    String::from_utf8_lossy(bytes).into_owned()
}

/// What `String::from_utf8` says of bytes that are not UTF-8.
pub uninterp spec fn utf8_error(bytes: Seq<u8>) -> Seq<char>;

/// `String::from_utf8` decodes bytes if they are UTF-8, and fails otherwise. The message of its
/// error is left to the name `utf8_error`.
#[verifier::external_body]
pub(crate) fn from_utf8(bytes: &[u8]) -> (r: Result<String, String>)
    ensures
        match r {
            Ok(text) => vstd::utf8::valid_utf8(bytes@) && text@ == vstd::utf8::decode_utf8(bytes@),
            Err(message) => !vstd::utf8::valid_utf8(bytes@) && message@ == utf8_error(bytes@),
        },
{
    String::from_utf8(bytes.to_vec()).map_err(|e| e.to_string())
}

/// The characters of each of a number of strings.
pub open spec fn texts_view(texts: Seq<String>) -> Seq<Seq<char>> {
    texts.map_values(|t: String| t@)
}

/// Owned copies of a number of strings.
pub fn owned(parts: &[&str]) -> (r: Vec<String>)
    ensures
        texts_view(r@) == parts@.map_values(|p: &str| p@),
{
    let mut out: Vec<String> = Vec::new();
    let mut i: usize = 0;
    while i < parts.len()
        invariant
            i <= parts.len(),
            out.len() == i,
            forall|j: int| 0 <= j < i ==> (#[trigger] out@[j])@ == parts@[j]@,
        decreases parts.len() - i,
    {
        out.push(parts[i].to_string());
        i += 1;
    }
    assert(texts_view(out@) =~= parts@.map_values(|p: &str| p@));
    out
}

/// What stands between other text is found there, and what is found somewhere stands there character
/// by character.
pub proof fn parts_are_found_where_they_stand(
    before: Seq<char>,
    part: Seq<char>,
    after: Seq<char>,
    whole: Seq<char>,
    at: int,
)
    ensures
        occurs_at(before + part + after, part, before.len() as int),
        occurs(before + part + after, part),
        begins_with(part + after, part),
        occurs_at(whole, part, at) ==> 0 <= at && at + part.len() <= whole.len() && forall|i: int|
            0 <= i < part.len() ==> whole[at + i] == #[trigger] part[i],
{
    let text = before + part + after;
    assert(text.subrange(before.len() as int, (before.len() + part.len()) as int) =~= part);
    assert(occurs_at(text, part, before.len() as int));
    assert((part + after).subrange(0, part.len() as int) =~= part);
    if occurs_at(whole, part, at) {
        let found = whole.subrange(at, at + part.len());
        assert forall|i: int| 0 <= i < part.len() implies whole[at + i] == #[trigger] part[i] by {
            assert(found[i] == whole[at + i]);
        }
    }
}

/// Joined texts stand in their order, with the mark between them.
pub proof fn joined_in_order(parts: Seq<Seq<char>>, mark: char, last: Seq<char>)
    ensures
        joined(Seq::<Seq<char>>::empty(), mark) == Seq::<char>::empty(),
        joined(seq![last], mark) == last,
        parts.len() > 0 ==> joined(parts.push(last), mark) == joined(parts, mark) + seq![mark] + last,
{
    let longer = parts.push(last);
    if parts.len() > 0 {
        assert(longer.drop_last() =~= parts);
        assert(joined(longer, mark) =~= joined(parts, mark) + seq![mark] + last);
    }
}

/// A text is cut at its first mark, and not at all if it holds none.
pub proof fn cut_at_the_first_mark(before: Seq<char>, mark: char, after: Seq<char>)
    requires
        !before.contains(mark),
    ensures
        cut(before + seq![mark] + after, mark) == Some((before, after)),
        cut(before, mark) is None,
{
    let text = before + seq![mark] + after;
    lemma_first_mark(text, mark);
    lemma_first_mark(before, mark);
    let at = first_mark(text, mark) as int;
    if at < before.len() {
        assert(text[at] == before[at]);
        assert(before.contains(before[at]));
    }
    if at > before.len() {
        assert(text[before.len() as int] == mark);
    }
    assert(text.take(at) =~= before);
    assert(text.skip(at + 1) =~= after);
    let none = first_mark(before, mark) as int;
    if none < before.len() {
        assert(before.contains(before[none]));
    }
}

/// Lines are read back from the text in which each of them is ended, by a line feed or by a carriage
/// return and a line feed; the last line that says something needs no ending.
pub proof fn lines_read_back(lines: Seq<Seq<char>>)
    requires
        lines.len() > 0,
        forall|i: int|
            0 <= i < lines.len() ==> !(#[trigger] lines[i]).contains('\n') && (lines[i].len() > 0
                ==> lines[i].last() != '\r'),
    ensures
        text_lines(joined(lines, '\n').push('\n')) == lines,
        text_lines(joined(lines.map_values(|line: Seq<char>| line.push('\r')), '\n').push('\n'))
            == lines,
        lines.last().len() > 0 ==> text_lines(joined(lines, '\n')) == lines,
        text_lines(Seq::<char>::empty()) == Seq::<Seq<char>>::empty(),
{
    assert(text_lines(Seq::<char>::empty()) =~= Seq::<Seq<char>>::empty());
    joined_pieces(lines, '\n');
    let text = joined(lines, '\n');
    assert(text.push('\n').drop_last() =~= text);
    assert(pieces(text.push('\n'), '\n') =~= lines.push(Seq::empty()));
    assert(text_lines(text.push('\n')) =~= lines);
    if lines.last().len() > 0 {
        assert(text_lines(text) =~= lines);
    }
    let returned = lines.map_values(|line: Seq<char>| line.push('\r'));
    assert forall|i: int| 0 <= i < returned.len() implies !(#[trigger] returned[i]).contains(
        '\n',
    ) by {
        assert(!lines[i].contains('\n'));
        assert forall|k: int| 0 <= k < returned[i].len() implies returned[i][k] != '\n' by {
            if k < lines[i].len() {
                assert(lines[i].contains(lines[i][k]));
            }
        }
    }
    joined_pieces(returned, '\n');
    let other = joined(returned, '\n');
    assert(other.push('\n').drop_last() =~= other);
    assert(pieces(other.push('\n'), '\n') =~= returned.push(Seq::empty()));
    let read = text_lines(other.push('\n'));
    assert forall|i: int| 0 <= i < lines.len() implies #[trigger] read[i] == lines[i] by {
        assert(returned[i].drop_last() =~= lines[i]);
    }
    assert(read =~= lines);
}

/// The ends of what is left of a text without the white space around it are not white, and all that
/// was taken off is.
pub proof fn only_white_space_is_trimmed(text: Seq<char>)
    ensures
        exists|from: int, to: int|
            {
                &&& 0 <= from <= to <= text.len()
                &&& trimmed(text) == #[trigger] text.subrange(from, to)
                &&& forall|i: int| 0 <= i < text.len() && !(from <= i < to) ==> white(text[i])
                &&& from < to ==> !white(text[from]) && !white(text[to - 1])
            },
{
    lemma_trimmed_start(text);
    let rest = trimmed_start(text);
    lemma_trimmed_end(rest);
    let from = text.len() - rest.len();
    let to = from + trimmed_end(rest).len();
    assert(trimmed(text) =~= text.subrange(from, to));
    assert forall|i: int| 0 <= i < text.len() && !(from <= i < to) implies white(text[i]) by {
        if i >= to {
            assert(rest[i - from] == text[i]);
        }
    }
    if from < to {
        assert(rest[0] == text[from]);
        assert(trimmed_end(rest).last() == text[to - 1]);
    }
}

proof fn lemma_trimmed_start(text: Seq<char>)
    ensures
        trimmed_start(text).len() <= text.len(),
        trimmed_start(text) == text.skip(text.len() - trimmed_start(text).len()),
        forall|i: int| 0 <= i < text.len() - trimmed_start(text).len() ==> white(text[i]),
        trimmed_start(text).len() > 0 ==> !white(trimmed_start(text)[0]),
    decreases text.len(),
{
    if text.len() > 0 && white(text[0]) {
        let rest = text.skip(1);
        lemma_trimmed_start(rest);
        let n = trimmed_start(text).len();
        assert(text.skip(text.len() - n) =~= rest.skip(rest.len() - n));
        assert forall|i: int| 0 <= i < text.len() - n implies white(text[i]) by {
            if i > 0 {
                assert(rest[i - 1] == text[i]);
            }
        }
    } else {
        assert(text.skip(0) =~= text);
    }
}

proof fn lemma_trimmed_end(text: Seq<char>)
    ensures
        trimmed_end(text).len() <= text.len(),
        trimmed_end(text) == text.take(trimmed_end(text).len() as int),
        forall|i: int| trimmed_end(text).len() <= i < text.len() ==> white(text[i]),
        trimmed_end(text).len() > 0 ==> !white(trimmed_end(text).last()),
    decreases text.len(),
{
    if text.len() > 0 && white(text.last()) {
        let rest = text.drop_last();
        lemma_trimmed_end(rest);
        let n = trimmed_end(text).len() as int;
        assert(text.take(n) =~= rest.take(n));
        assert forall|i: int| n <= i < text.len() implies white(text[i]) by {
            if i < rest.len() {
                assert(rest[i] == text[i]);
            }
        }
    } else {
        assert(text.take(text.len() as int) =~= text);
    }
}

/// A text is blank exactly if it holds white space only. Letters, digits and the signs between them
/// are not white space; spaces, tabs and the ends of lines are.
pub proof fn blank_means_white_space_only(text: Seq<char>, c: char)
    ensures
        blank(text) <==> forall|i: int| 0 <= i < text.len() ==> white(text[i]),
        '!' <= c <= '~' ==> !white(c),
        c == ' ' || c == '\t' || c == '\n' || c == '\r' ==> white(c),
        blank(seq![c]) <==> white(c),
{
    lemma_blank(text);
    lemma_blank(seq![c]);
    assert(seq![c][0] == c);
}

proof fn lemma_blank(text: Seq<char>)
    ensures
        blank(text) <==> forall|i: int| 0 <= i < text.len() ==> white(text[i]),
{
    only_white_space_is_trimmed(text);
    let (from, to) = choose|from: int, to: int|
        {
            &&& 0 <= from <= to <= text.len()
            &&& trimmed(text) == #[trigger] text.subrange(from, to)
            &&& forall|i: int| 0 <= i < text.len() && !(from <= i < to) ==> white(text[i])
            &&& from < to ==> !white(text[from]) && !white(text[to - 1])
        };
    assert(trimmed(text).len() == to - from);
}

} // verus!
