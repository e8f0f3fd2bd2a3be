//! Searching and replacing of substrings.

use vstd::prelude::*;
use crate::text::{copy_range, views};

verus! {

/// `needle` stands in `hay` at index `i`.
pub open spec fn occurs_at(hay: Seq<char>, needle: Seq<char>, i: int) -> bool {
    0 <= i && i + needle.len() <= hay.len() && hay.subrange(i, i + needle.len()) == needle
}

/// The first index at or after `from` where `needle` stands in `hay`.
pub open spec fn first_index_from(hay: Seq<char>, needle: Seq<char>, from: int) -> Option<int>
    decreases hay.len() - from,
{
    if from < 0 || from + needle.len() > hay.len() {
        None
    } else if occurs_at(hay, needle, from) {
        Some(from)
    } else if from >= hay.len() {
        None
    } else {
        first_index_from(hay, needle, from + 1)
    }
}

/// The first index where `needle` stands in `hay`.
pub open spec fn find_sub(hay: Seq<char>, needle: Seq<char>) -> Option<int> {
    first_index_from(hay, needle, 0)
}

/// `needle` stands somewhere in `hay`.
pub open spec fn contains_sub(hay: Seq<char>, needle: Seq<char>) -> bool {
    find_sub(hay, needle) is Some
}

/// `hay` begins with `prefix`.
pub open spec fn starts_with(hay: Seq<char>, prefix: Seq<char>) -> bool {
    occurs_at(hay, prefix, 0)
}

/// The first index where the character `c` stands in `s`.
pub open spec fn find_char(s: Seq<char>, c: char) -> Option<int> {
    find_sub(s, seq![c])
}

/// The last index where the character `c` stands in `s`.
pub open spec fn rfind_char(s: Seq<char>, c: char) -> Option<int>
    decreases s.len(),
{
    if s.len() == 0 {
        None
    } else if s.last() == c {
        Some(s.len() - 1)
    } else {
        rfind_char(s.drop_last(), c)
    }
}

/// `hay` with every occurrence of `from` replaced by `to`, scanning from the
/// left; occurrences do not overlap. An empty `from` replaces nothing.
pub open spec fn replace_sub(hay: Seq<char>, from: Seq<char>, to: Seq<char>) -> Seq<char>
    decreases hay.len(),
{
    if from.len() == 0 || hay.len() < from.len() {
        hay
    } else if hay.take(from.len() as int) == from {
        to + replace_sub(hay.skip(from.len() as int), from, to)
    } else {
        seq![hay.first()] + replace_sub(hay.drop_first(), from, to)
    }
}

/// The pieces of `s` between the occurrences of `c`; there is always at
/// least one piece, and a piece may be empty.
pub open spec fn split_char(s: Seq<char>, c: char) -> Seq<Seq<char>>
    decreases s.len(),
{
    if s.len() == 0 {
        seq![Seq::<char>::empty()]
    } else {
        let before = split_char(s.drop_last(), c);
        if s.last() == c {
            before.push(Seq::<char>::empty())
        } else {
            before.drop_last().push(before.last().push(s.last()))
        }
    }
}

/// A split always gives at least one piece.
pub proof fn lemma_split_char_len(s: Seq<char>, c: char)
    ensures
        split_char(s, c).len() >= 1,
    decreases s.len(),
{
    if s.len() > 0 {
        lemma_split_char_len(s.drop_last(), c);
    }
}

/// A line without the carriage return that ends it, if one does.
pub open spec fn strip_cr(line: Seq<char>) -> Seq<char> {
    if line.len() > 0 && line.last() == '\r' {
        line.drop_last()
    } else {
        line
    }
}

/// The first `count` pieces, each without its final carriage return.
pub open spec fn closed_lines(pieces: Seq<Seq<char>>, count: int) -> Seq<Seq<char>> {
    Seq::new(count as nat, |i: int| strip_cr(pieces[i]))
}

/// The lines of a text: it is split at every line feed; a carriage return
/// before a line feed belongs to the line ending; what follows the last
/// line feed is a line only if it is not empty.
pub open spec fn lines_of(s: Seq<char>) -> Seq<Seq<char>> {
    let pieces = split_char(s, '\n');
    let closed = closed_lines(pieces, pieces.len() - 1);
    if pieces.last().len() == 0 {
        closed
    } else {
        closed.push(pieces.last())
    }
}

/// The ASCII lower-case form of `c`; other characters stay.
pub open spec fn ascii_lower(c: char) -> char {
    if 'A' <= c <= 'Z' {
        ((c as u8) + 32u8) as char
    } else {
        c
    }
}

/// Equality up to ASCII case.
pub open spec fn eq_ignore_ascii_case(a: Seq<char>, b: Seq<char>) -> bool {
    a.len() == b.len() && forall|i: int|
        0 <= i < a.len() ==> ascii_lower(#[trigger] a[i]) == ascii_lower(b[i])
}

/// What `first_index_from` finds is the least index at which `needle` stands.
pub proof fn lemma_first_index_from(hay: Seq<char>, needle: Seq<char>, from: int)
    requires
        0 <= from,
    ensures
        match first_index_from(hay, needle, from) {
            Some(i) => from <= i && occurs_at(hay, needle, i) && forall|j: int|
                from <= j < i ==> !occurs_at(hay, needle, j),
            None => forall|j: int| from <= j ==> !occurs_at(hay, needle, j),
        },
    decreases hay.len() - from,
{
    if from + needle.len() > hay.len() {
    } else if occurs_at(hay, needle, from) {
    } else if from >= hay.len() {
    } else {
        lemma_first_index_from(hay, needle, from + 1);
    }
}

/// Decides whether `needle` stands in `hay` at `i`.
pub fn matches_at(hay: &[char], needle: &[char], i: usize) -> (r: bool)
    ensures
        r == occurs_at(hay@, needle@, i as int),
{
    let n: usize = needle.len();
    if i > hay.len() || n > hay.len() - i {
        return false;
    }
    let mut k: usize = 0;
    while k < n
        invariant
            k <= n == needle@.len(),
            i + n <= hay@.len() <= usize::MAX,
            forall|j: int| 0 <= j < k ==> hay@[i + j] == needle@[j],
        decreases n - k,
    {
        if hay[i + k] != needle[k] {
            proof {
                assert(hay@.subrange(i as int, i + n)[k as int] == hay@[i + k]);
            }
            return false;
        }
        k = k + 1;
    }
    proof {
        assert(hay@.subrange(i as int, i + n) =~= needle@);
    }
    true
}

/// Finds the first occurrence of `needle` in `hay`.
pub fn find_in(hay: &[char], needle: &[char]) -> (r: Option<usize>)
    ensures
        match r {
            Some(i) => find_sub(hay@, needle@) == Some(i as int) && i + needle@.len() <= hay@.len(),
            None => find_sub(hay@, needle@) is None,
        },
{
    let len: usize = hay.len();
    let n: usize = needle.len();
    if n > len {
        return None;
    }
    let last: usize = len - n;
    let mut i: usize = 0;
    loop
        invariant
            n <= len == hay@.len(),
            n == needle@.len(),
            last == len - n,
            i <= last,
            find_sub(hay@, needle@) == first_index_from(hay@, needle@, i as int),
        decreases last - i,
    {
        if matches_at(hay, needle, i) {
            return Some(i);
        }
        if i == last {
            proof {
                assert(first_index_from(hay@, needle@, i + 1) is None);
            }
            return None;
        }
        i = i + 1;
    }
}

/// Decides whether `needle` stands somewhere in `hay`.
pub fn contains_in(hay: &[char], needle: &[char]) -> (r: bool)
    ensures
        r == contains_sub(hay@, needle@),
{
    find_in(hay, needle).is_some()
}

/// Decides whether `hay` begins with `prefix`.
pub fn starts_with_chars(hay: &[char], prefix: &[char]) -> (r: bool)
    ensures
        r == starts_with(hay@, prefix@),
{
    matches_at(hay, prefix, 0)
}

/// Finds the last occurrence of the character `c`.
pub fn rfind_char_in(chars: &[char], c: char) -> (r: Option<usize>)
    ensures
        match r {
            Some(i) => rfind_char(chars@, c) == Some(i as int) && i < chars@.len(),
            None => rfind_char(chars@, c) is None,
        },
{
    let mut n: usize = chars.len();
    proof {
        assert(chars@.take(n as int) =~= chars@);
    }
    while n > 0
        invariant
            n <= chars@.len(),
            rfind_char(chars@, c) == rfind_char(chars@.take(n as int), c),
        decreases n,
    {
        if chars[n - 1] == c {
            return Some(n - 1);
        }
        proof {
            assert(chars@.take(n as int).drop_last() =~= chars@.take(n - 1));
        }
        n = n - 1;
    }
    None
}

/// Replaces every occurrence of `from` by `to`.
pub fn replace_in(hay: &[char], from: &[char], to: &[char]) -> (r: Vec<char>)
    ensures
        r@ == replace_sub(hay@, from@, to@),
{
    let len: usize = hay.len();
    let n: usize = from.len();
    let mut out: Vec<char> = Vec::new();
    let mut i: usize = 0;
    proof {
        assert(hay@.skip(0) =~= hay@);
        assert(out@ + replace_sub(hay@, from@, to@) =~= replace_sub(hay@, from@, to@));
    }
    while i < len
        invariant
            i <= len == hay@.len(),
            n == from@.len(),
            replace_sub(hay@, from@, to@) == out@ + replace_sub(hay@.skip(i as int), from@, to@),
        decreases len - i,
    {
        let ghost rest = hay@.skip(i as int);
        if n > 0 && matches_at(hay, from, i) {
            proof {
                assert(rest.take(n as int) =~= hay@.subrange(i as int, i + n));
                assert(rest.skip(n as int) =~= hay@.skip(i + n));
                assert(out@ + (to@ + replace_sub(rest.skip(n as int), from@, to@)) =~= (out@ + to@)
                    + replace_sub(rest.skip(n as int), from@, to@));
            }
            out.extend_from_slice(to);
            i = i + n;
        } else {
            proof {
                assert(rest.drop_first() =~= hay@.skip(i + 1));
                if n > 0 && rest.len() >= n {
                    assert(rest.take(n as int) =~= hay@.subrange(i as int, i + n));
                }
                if n == 0 || rest.len() < n {
                    // nothing more is replaced: the rest is copied as it stands
                    lemma_replace_sub_short(rest, from@, to@);
                    lemma_replace_sub_short(rest.drop_first(), from@, to@);
                    assert(rest =~= seq![rest.first()] + rest.drop_first());
                }
                assert(out@ + (seq![rest.first()] + replace_sub(rest.drop_first(), from@, to@))
                    =~= out@.push(hay@[i as int]) + replace_sub(rest.drop_first(), from@, to@));
            }
            out.push(hay[i]);
            i = i + 1;
        }
    }
    proof {
        assert(out@ + Seq::<char>::empty() =~= out@);
    }
    out
}

/// Where `from` is empty or longer than `hay`, nothing is replaced.
pub proof fn lemma_replace_sub_short(hay: Seq<char>, from: Seq<char>, to: Seq<char>)
    requires
        from.len() == 0 || hay.len() < from.len(),
    ensures
        replace_sub(hay, from, to) == hay,
{
}

/// Lower-cases an ASCII letter.
pub fn char_ascii_lower(c: char) -> (r: char)
    ensures
        r == ascii_lower(c),
{
    if 'A' <= c && c <= 'Z' {
        ((c as u8) + 32u8) as char
    } else {
        c
    }
}

/// Decides equality up to ASCII case.
pub fn eq_ignoring_ascii_case(a: &[char], b: &[char]) -> (r: bool)
    ensures
        r == eq_ignore_ascii_case(a@, b@),
{
    if a.len() != b.len() {
        return false;
    }
    let mut i: usize = 0;
    while i < a.len()
        invariant
            i <= a@.len() == b@.len(),
            forall|j: int| 0 <= j < i ==> ascii_lower(#[trigger] a@[j]) == ascii_lower(b@[j]),
        decreases a@.len() - i,
    {
        if char_ascii_lower(a[i]) != char_ascii_lower(b[i]) {
            return false;
        }
        i = i + 1;
    }
    true
}

/// Splits at every occurrence of `c`.
pub fn split_at_char(chars: &[char], c: char) -> (r: Vec<Vec<char>>)
    ensures
        views(r@) == split_char(chars@, c),
{
    let mut done: Vec<Vec<char>> = Vec::new();
    let mut current: Vec<char> = Vec::new();
    let mut i: usize = 0;
    proof {
        assert(chars@.take(0) =~= Seq::<char>::empty());
        assert(views(done@).push(current@) =~= seq![Seq::<char>::empty()]);
    }
    while i < chars.len()
        invariant
            i <= chars@.len(),
            split_char(chars@.take(i as int), c) == views(done@).push(current@),
        decreases chars@.len() - i,
    {
        let x: char = chars[i];
        proof {
            assert(chars@.take(i + 1).drop_last() =~= chars@.take(i as int));
            assert(chars@.take(i + 1).last() == x);
            let before = views(done@).push(current@);
            assert(before.last() == current@);
            assert(before.drop_last() =~= views(done@));
        }
        if x == c {
            proof {
                assert(views(done@.push(current)) =~= views(done@).push(current@));
            }
            done.push(current);
            current = Vec::new();
        } else {
            current.push(x);
        }
        i = i + 1;
    }
    proof {
        assert(chars@.take(i as int) =~= chars@);
        assert(views(done@.push(current)) =~= views(done@).push(current@));
    }
    done.push(current);
    done
}

/// Splits a text into its lines.
pub fn split_lines(chars: &[char]) -> (r: Vec<Vec<char>>)
    ensures
        views(r@) == lines_of(chars@),
{
    let pieces = split_at_char(chars, '\n');
    proof {
        lemma_split_char_len(chars@, '\n');
    }
    let count: usize = pieces.len();
    let mut out: Vec<Vec<char>> = Vec::new();
    let mut i: usize = 0;
    while i + 1 < count
        invariant
            1 <= count == pieces@.len(),
            i + 1 <= count,
            views(out@) == closed_lines(views(pieces@), i as int),
        decreases count - i,
    {
        let piece = &pieces[i];
        let n: usize = piece.len();
        let line: Vec<char> = if n > 0 && piece[n - 1] == '\r' {
            copy_range(piece.as_slice(), 0, n - 1)
        } else {
            copy_range(piece.as_slice(), 0, n)
        };
        proof {
            assert(piece@.subrange(0, n as int) =~= piece@);
            if n > 0 {
                assert(piece@.subrange(0, n - 1) =~= piece@.drop_last());
            }
            assert(views(pieces@)[i as int] == piece@);
            assert(line@ == strip_cr(piece@));
            assert(views(out@.push(line)) =~= views(out@).push(line@));
            assert(views(out@).push(line@) =~= closed_lines(views(pieces@), i + 1));
        }
        out.push(line);
        i = i + 1;
    }
    let last = &pieces[count - 1];
    proof {
        assert(views(pieces@).last() == last@);
    }
    if last.len() > 0 {
        let line = copy_range(last.as_slice(), 0, last.len());
        proof {
            assert(last@.subrange(0, last@.len() as int) =~= last@);
            assert(views(out@.push(line)) =~= views(out@).push(last@));
        }
        out.push(line);
    }
    out
}

} // verus!
