//! Regular expressions, by way of the `regex` crate.
//!
//! What a pattern matches is not restated here: each result is named, and
//! the functions that use a result say what they do with it.

use vstd::prelude::*;

verus! {

/// The text of capture group `group` in the leftmost match of `pattern` in
/// `text`: what `Regex::captures` and `Captures::get` yield. `None` where
/// the pattern is invalid, nothing matches, or the group took no part.
pub uninterp spec fn regex_capture(pattern: Seq<char>, text: Seq<char>, group: int) -> Option<
    Seq<char>,
>;

/// `text` with the leftmost match of `pattern` replaced: what
/// `Regex::replace` yields. Where the pattern is invalid, `text`.
pub uninterp spec fn regex_replaced(
    pattern: Seq<char>,
    text: Seq<char>,
    replacement: Seq<char>,
) -> Seq<char>;

/// `text` with every match of `pattern` replaced: what `Regex::replace_all`
/// yields. Where the pattern is invalid, `text`.
pub uninterp spec fn regex_replaced_all(
    pattern: Seq<char>,
    text: Seq<char>,
    replacement: Seq<char>,
) -> Seq<char>;

/// The capture groups of every match of `pattern` in `text`, one entry for
/// each match in the order of `Regex::captures_iter`, and in it one entry
/// for each group in the order of `Captures::iter`, group 0 first: the
/// text of the group, or `None` where it took no part. `None` as a whole
/// where the pattern is invalid.
pub uninterp spec fn regex_all_captures(pattern: Seq<char>, text: Seq<char>) -> Option<
    Seq<Seq<Option<Seq<char>>>>,
>;

/// The texts of the groups of a list of matches.
pub open spec fn capture_views(found: Seq<Vec<Option<String>>>) -> Seq<Seq<Option<Seq<char>>>> {
    Seq::new(
        found.len(),
        |i: int| Seq::new(found[i]@.len(), |j: int| crate::text::optional_view(found[i]@[j])),
    )
}

/// `Regex::captures_iter`, and `Captures::iter` on each match: the texts of
/// the capture groups of every match.
#[verifier::external_body]
pub(crate) fn all_captures(pattern: &str, text: &str) -> (r: Option<Vec<Vec<Option<String>>>>)
    ensures
        match r {
            Some(found) => regex_all_captures(pattern@, text@) == Some(capture_views(found@)),
            None => regex_all_captures(pattern@, text@) is None,
        },
{
    match regex::Regex::new(pattern) {
        Ok(re) => Some(
            re.captures_iter(text).map(
                |c| c.iter().map(|g| g.map(|m| m.as_str().to_string())).collect(),
            ).collect(),
        ),
        Err(_) => None,
    }
}

/// `Regex::captures`, then `Captures::get`: the text of one capture group
/// of the leftmost match.
#[verifier::external_body]
pub(crate) fn capture_group(pattern: &str, text: &str, group: usize) -> (r: Option<String>)
    ensures
        r is Some <==> regex_capture(pattern@, text@, group as int) is Some,
        r matches Some(s) ==> Some(s@) == regex_capture(pattern@, text@, group as int),
{
    match regex::Regex::new(pattern) {
        Ok(re) => re.captures(text).and_then(|c| c.get(group)).map(|m| m.as_str().to_string()),
        Err(_) => None,
    }
}

/// `Regex::replace`: the leftmost match is replaced; `$n` in the
/// replacement stands for capture group `n`.
#[verifier::external_body]
pub(crate) fn replace_first(pattern: &str, text: &str, replacement: &str) -> (r: String)
    ensures
        r@ == regex_replaced(pattern@, text@, replacement@),
{
    match regex::Regex::new(pattern) {
        Ok(re) => re.replace(text, replacement).into_owned(),
        Err(_) => text.to_string(),
    }
}

/// `Regex::replace_all`: every match is replaced; `$n` in the replacement
/// stands for capture group `n`.
#[verifier::external_body]
pub(crate) fn replace_every(pattern: &str, text: &str, replacement: &str) -> (r: String)
    ensures
        r@ == regex_replaced_all(pattern@, text@, replacement@),
{
    match regex::Regex::new(pattern) {
        Ok(re) => re.replace_all(text, replacement).into_owned(),
        Err(_) => text.to_string(),
    }
}

} // verus!
