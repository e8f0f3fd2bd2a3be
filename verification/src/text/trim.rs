//! Trimming, splitting at whitespace and joining.

use vstd::prelude::*;
use crate::text::{char_is_space, copy_range, is_space, views};

verus! {

/// A class of characters that can be trimmed away.
#[derive(Clone, Copy, Debug)]
pub enum CharClass {
    /// The NUL character.
    Nul,
    /// A space or a NUL: what pads fixed-width fields.
    Padding,
    /// Unicode whitespace.
    Space,
    /// A full stop.
    Dot,
}

/// Membership of `c` in `class`.
pub open spec fn in_class(class: CharClass, c: char) -> bool {
    match class {
        CharClass::Nul => c == '\0',
        CharClass::Padding => c == ' ' || c == '\0',
        CharClass::Space => is_space(c),
        CharClass::Dot => c == '.',
    }
}

/// `s` without its longest suffix of characters in `class`.
pub open spec fn trim_end(s: Seq<char>, class: CharClass) -> Seq<char>
    decreases s.len(),
{
    if s.len() > 0 && in_class(class, s.last()) {
        trim_end(s.drop_last(), class)
    } else {
        s
    }
}

/// `s` without its longest prefix of characters in `class`.
pub open spec fn trim_start(s: Seq<char>, class: CharClass) -> Seq<char>
    decreases s.len(),
{
    if s.len() > 0 && in_class(class, s.first()) {
        trim_start(s.drop_first(), class)
    } else {
        s
    }
}

/// `s` without leading and trailing whitespace.
pub open spec fn trim(s: Seq<char>) -> Seq<char> {
    trim_start(trim_end(s, CharClass::Space), CharClass::Space)
}

/// Length of the longest prefix of `s` that holds no whitespace.
pub open spec fn word_len(s: Seq<char>) -> nat
    decreases s.len(),
{
    if s.len() > 0 && !is_space(s.first()) {
        1 + word_len(s.drop_first())
    } else {
        0
    }
}

/// The maximal runs of non-whitespace characters of `s`, in order.
pub open spec fn words(s: Seq<char>) -> Seq<Seq<char>>
    decreases s.len(),
{
    if s.len() == 0 {
        Seq::empty()
    } else if is_space(s.first()) {
        words(s.drop_first())
    } else {
        let n = word_len(s);
        if 0 < n <= s.len() {
            seq![s.take(n as int)] + words(s.skip(n as int))
        } else {
            Seq::empty()
        }
    }
}

/// The parts, with `sep` between each two neighbours.
pub open spec fn join(parts: Seq<Seq<char>>, sep: Seq<char>) -> Seq<char>
    decreases parts.len(),
{
    if parts.len() == 0 {
        Seq::empty()
    } else if parts.len() == 1 {
        parts[0]
    } else {
        join(parts.drop_last(), sep) + sep + parts.last()
    }
}

/// The words of `s` joined by single spaces.
pub open spec fn collapse_spaces(s: Seq<char>) -> Seq<char> {
    join(words(s), seq![' '])
}

/// `s` with every `from` turned into `to`.
pub open spec fn replace_char(s: Seq<char>, from: char, to: char) -> Seq<char> {
    Seq::new(
        s.len(),
        |i: int|
            if s[i] == from {
                to
            } else {
                s[i]
            },
    )
}

/// A prefix without whitespace is never longer than the sequence.
pub proof fn lemma_word_len_bound(s: Seq<char>)
    ensures
        word_len(s) <= s.len(),
        s.len() > 0 && !is_space(s.first()) ==> word_len(s) >= 1,
    decreases s.len(),
{
    if s.len() > 0 && !is_space(s.first()) {
        lemma_word_len_bound(s.drop_first());
    }
}

/// Decides membership of `c` in `class`.
pub fn class_holds(class: CharClass, c: char) -> (r: bool)
    ensures
        r == in_class(class, c),
{
    match class {
        CharClass::Nul => c == '\0',
        CharClass::Padding => c == ' ' || c == '\0',
        CharClass::Space => char_is_space(c),
        CharClass::Dot => c == '.',
    }
}

/// Removes the trailing characters that lie in `class`.
pub fn trim_end_chars(chars: &[char], class: CharClass) -> (r: Vec<char>)
    ensures
        r@ == trim_end(chars@, class),
{
    let mut n: usize = chars.len();
    proof {
        assert(chars@.take(n as int) =~= chars@);
    }
    while n > 0 && class_holds(class, chars[n - 1])
        invariant
            n <= chars@.len(),
            trim_end(chars@, class) == trim_end(chars@.take(n as int), class),
        decreases n,
    {
        proof {
            assert(chars@.take(n as int).drop_last() =~= chars@.take(n - 1));
        }
        n = n - 1;
    }
    proof {
        assert(chars@.take(n as int) =~= chars@.subrange(0, n as int));
    }
    copy_range(chars, 0, n)
}

/// Removes the leading characters that lie in `class`.
pub fn trim_start_chars(chars: &[char], class: CharClass) -> (r: Vec<char>)
    ensures
        r@ == trim_start(chars@, class),
{
    let len: usize = chars.len();
    let mut i: usize = 0;
    proof {
        assert(chars@.skip(0) =~= chars@);
    }
    while i < len && class_holds(class, chars[i])
        invariant
            i <= len == chars@.len(),
            trim_start(chars@, class) == trim_start(chars@.skip(i as int), class),
        decreases len - i,
    {
        proof {
            assert(chars@.skip(i as int).drop_first() =~= chars@.skip(i + 1));
        }
        i = i + 1;
    }
    proof {
        assert(chars@.skip(i as int) =~= chars@.subrange(i as int, len as int));
    }
    copy_range(chars, i, len)
}

/// Removes leading and trailing whitespace.
pub fn trim_chars(chars: &[char]) -> (r: Vec<char>)
    ensures
        r@ == trim(chars@),
{
    let t = trim_end_chars(chars, CharClass::Space);
    trim_start_chars(t.as_slice(), CharClass::Space)
}

/// Splits at whitespace, dropping empty parts.
pub fn split_words(chars: &[char]) -> (r: Vec<Vec<char>>)
    ensures
        views(r@) == words(chars@),
{
    let len: usize = chars.len();
    let mut out: Vec<Vec<char>> = Vec::new();
    let mut i: usize = 0;
    proof {
        assert(chars@.skip(0) =~= chars@);
        assert(views(out@) + words(chars@) =~= words(chars@));
    }
    while i < len
        invariant
            i <= len == chars@.len(),
            words(chars@) == views(out@) + words(chars@.skip(i as int)),
        decreases len - i,
    {
        if char_is_space(chars[i]) {
            proof {
                assert(chars@.skip(i as int).drop_first() =~= chars@.skip(i + 1));
            }
            i = i + 1;
        } else {
            let start: usize = i;
            let mut j: usize = i;
            while j < len && !char_is_space(chars[j])
                invariant
                    start <= j <= len == chars@.len(),
                    word_len(chars@.skip(start as int)) == (j - start) + word_len(
                        chars@.skip(j as int),
                    ),
                decreases len - j,
            {
                proof {
                    assert(chars@.skip(j as int).drop_first() =~= chars@.skip(j + 1));
                }
                j = j + 1;
            }
            let word = copy_range(chars, start, j);
            proof {
                let s = chars@.skip(start as int);
                let n = word_len(s);
                assert(n == j - start);
                assert(s.take(n as int) =~= word@);
                assert(s.skip(n as int) =~= chars@.skip(j as int));
                assert(words(s) == seq![word@] + words(chars@.skip(j as int)));
                assert(views(out@.push(word)) =~= views(out@) + seq![word@]);
                assert(views(out@) + (seq![word@] + words(chars@.skip(j as int))) =~= (views(out@)
                    + seq![word@]) + words(chars@.skip(j as int)));
            }
            out.push(word);
            i = j;
        }
    }
    proof {
        assert(views(out@) + Seq::<Seq<char>>::empty() =~= views(out@));
    }
    out
}

/// Joins the parts with `sep` between neighbours.
pub fn join_chars(parts: &Vec<Vec<char>>, sep: &[char]) -> (r: Vec<char>)
    ensures
        r@ == join(views(parts@), sep@),
{
    let mut out: Vec<char> = Vec::new();
    let mut k: usize = 0;
    while k < parts.len()
        invariant
            k <= parts@.len(),
            out@ == join(views(parts@).take(k as int), sep@),
        decreases parts@.len() - k,
    {
        proof {
            let next = views(parts@).take(k + 1);
            assert(next.drop_last() =~= views(parts@).take(k as int));
            assert(next.last() == parts@[k as int]@);
            if k == 0 {
                assert(join(next, sep@) == parts@[0]@);
                assert(out@ + parts@[0]@ =~= parts@[0]@);
            } else {
                assert(join(next, sep@) == out@ + sep@ + parts@[k as int]@);
            }
        }
        if k > 0 {
            out.extend_from_slice(sep);
        }
        out.extend_from_slice(parts[k].as_slice());
        k = k + 1;
    }
    proof {
        assert(views(parts@).take(k as int) =~= views(parts@));
    }
    out
}

/// Collapses every run of whitespace to one space and trims both ends.
pub fn collapse_space_chars(chars: &[char]) -> (r: Vec<char>)
    ensures
        r@ == collapse_spaces(chars@),
{
    let parts = split_words(chars);
    let sep: Vec<char> = vec![' '];
    proof {
        assert(sep@ =~= seq![' ']);
    }
    join_chars(&parts, sep.as_slice())
}

/// Turns every `from` into `to`.
pub fn replace_char_in(chars: &[char], from: char, to: char) -> (r: Vec<char>)
    ensures
        r@ == replace_char(chars@, from, to),
{
    let mut out: Vec<char> = Vec::new();
    let mut i: usize = 0;
    while i < chars.len()
        invariant
            i <= chars@.len(),
            out@ == replace_char(chars@.take(i as int), from, to),
        decreases chars@.len() - i,
    {
        let c: char = chars[i];
        proof {
            assert(replace_char(chars@.take(i + 1), from, to) =~= replace_char(
                chars@.take(i as int),
                from,
                to,
            ).push(
                if c == from {
                    to
                } else {
                    c
                },
            ));
        }
        out.push(if c == from { to } else { c });
        i = i + 1;
    }
    proof {
        assert(chars@.take(i as int) =~= chars@);
    }
    out
}

} // verus!
