//! Character-sequence utilities.
//!
//! Strings are modelled by their view, a `Seq<char>`. The few std string
//! functions that have no specification in vstd are reached through small
//! trusted wrappers; everything else is computed on `Vec<char>` and proved.

pub mod number;
pub mod search;
pub mod trim;

use vstd::prelude::*;
use vstd::slice::*;
use vstd::string::StringExecFns;
use vstd::utf8::*;

verus! {

/// What `String::from_utf8_lossy` yields for bytes that are not valid UTF-8.
pub uninterp spec fn utf8_replaced(bytes: Seq<u8>) -> Seq<char>;

/// Lossy UTF-8 decoding: valid input decodes as it stands, anything else is
/// decoded with replacement characters.
pub open spec fn lossy_text(bytes: Seq<u8>) -> Seq<char> {
    if valid_utf8(bytes) {
        decode_utf8(bytes)
    } else {
        utf8_replaced(bytes)
    }
}

/// What `String::from_utf16` yields for units that hold a surrogate.
pub uninterp spec fn utf16_paired(units: Seq<u16>) -> Option<Seq<char>>;

/// True if no unit lies in the surrogate range.
pub open spec fn no_surrogates(units: Seq<u16>) -> bool {
    forall|i: int| 0 <= i < units.len() ==> !(0xD800 <= #[trigger] units[i] <= 0xDFFF)
}

/// Strict UTF-16 decoding: units outside the surrogate range are the
/// characters themselves.
pub open spec fn utf16_text(units: Seq<u16>) -> Option<Seq<char>> {
    if no_surrogates(units) {
        Some(Seq::new(units.len(), |i: int| units[i] as char))
    } else {
        utf16_paired(units)
    }
}

/// What `String::from_utf16_lossy` yields for units that hold a surrogate.
pub uninterp spec fn utf16_replaced(units: Seq<u16>) -> Seq<char>;

/// Lossy UTF-16 decoding: units outside the surrogate range are the
/// characters themselves; units with a surrogate among them are decoded
/// with replacement characters for what is not well-formed.
pub open spec fn utf16_lossy_text(units: Seq<u16>) -> Seq<char> {
    if no_surrogates(units) {
        Seq::new(units.len(), |i: int| units[i] as char)
    } else {
        utf16_replaced(units)
    }
}

/// What `str::to_lowercase` yields.
pub uninterp spec fn lowercase_text(s: Seq<char>) -> Seq<char>;

/// What `str::to_uppercase` yields.
pub uninterp spec fn uppercase_text(s: Seq<char>) -> Seq<char>;

/// What `char::is_whitespace` yields.
pub uninterp spec fn is_space(c: char) -> bool;

/// What `char::is_alphanumeric` yields.
pub uninterp spec fn is_alnum(c: char) -> bool;

/// What `char::is_uppercase` yields.
pub uninterp spec fn is_upper(c: char) -> bool;

/// `str::chars`, collected: the characters of `s` in order.
#[verifier::external_body]
pub(crate) fn chars_of(s: &str) -> (r: Vec<char>)
    ensures
        r@ == s@,
{
    s.chars().collect()
}

/// `String::from_iter` over characters: the string made of `chars` in order.
#[verifier::external_body]
pub(crate) fn string_of(chars: &[char]) -> (r: String)
    ensures
        r@ == chars@,
{
    chars.iter().collect()
}

/// `str::from_utf8`, asked only whether it succeeds: it does exactly on
/// valid UTF-8.
#[verifier::external_body]
pub(crate) fn is_utf8(bytes: &[u8]) -> (r: bool)
    ensures
        r == valid_utf8(bytes@),
{
    std::str::from_utf8(bytes).is_ok()
}

/// `String::from_utf8_lossy`: never fails; valid UTF-8 is decoded unchanged.
#[verifier::external_body]
pub(crate) fn decode_utf8_lossy(bytes: &[u8]) -> (r: String)
    ensures
        r@ == lossy_text(bytes@),
        !valid_utf8(bytes@) ==> r@ == utf8_replaced(bytes@),
{
    String::from_utf8_lossy(bytes).into_owned()
}

/// `String::from_utf16`: `None` where the units are not well-formed UTF-16.
#[verifier::external_body]
pub(crate) fn decode_utf16(units: &[u16]) -> (r: Option<String>)
    ensures
        r is Some <==> utf16_text(units@) is Some,
        r matches Some(s) ==> Some(s@) == utf16_text(units@),
        !no_surrogates(units@) ==> (r is Some <==> utf16_paired(units@) is Some),
{
    String::from_utf16(units).ok()
}

/// `String::from_utf16_lossy`: never fails; only data that are not
/// well-formed are replaced, so units without a surrogate decode as they
/// stand.
#[verifier::external_body]
pub(crate) fn decode_utf16_lossy(units: &[u16]) -> (r: String)
    ensures
        r@ == utf16_lossy_text(units@),
        !no_surrogates(units@) ==> r@ == utf16_replaced(units@),
{
    String::from_utf16_lossy(units)
}

/// `str::to_lowercase`.
#[verifier::external_body]
pub(crate) fn to_lowercase(s: &str) -> (r: String)
    ensures
        r@ == lowercase_text(s@),
{
    s.to_lowercase()
}

/// `str::to_uppercase`.
#[verifier::external_body]
pub(crate) fn to_uppercase(s: &str) -> (r: String)
    ensures
        r@ == uppercase_text(s@),
{
    s.to_uppercase()
}

/// `char::is_whitespace`.
#[verifier::external_body]
pub(crate) fn char_is_space(c: char) -> (r: bool)
    ensures
        r == is_space(c),
{
    c.is_whitespace()
}

/// `char::is_alphanumeric`.
#[verifier::external_body]
pub(crate) fn char_is_alnum(c: char) -> (r: bool)
    ensures
        r == is_alnum(c),
{
    c.is_alphanumeric()
}

/// `char::is_uppercase`.
#[verifier::external_body]
pub(crate) fn char_is_upper(c: char) -> (r: bool)
    ensures
        r == is_upper(c),
{
    c.is_uppercase()
}

/// `str::eq`: two strings are equal exactly when their characters are.
#[verifier::external_body]
pub(crate) fn str_eq(a: &str, b: &str) -> (r: bool)
    ensures
        r == (a@ == b@),
{
    a == b
}

/// The characters `chars[from..to]`.
pub fn copy_range(chars: &[char], from: usize, to: usize) -> (r: Vec<char>)
    requires
        from <= to <= chars@.len(),
    ensures
        r@ == chars@.subrange(from as int, to as int),
{
    slice_to_vec(slice_subrange(chars, from, to))
}

/// The bytes `bytes[from..to]`.
pub fn copy_bytes(bytes: &[u8], from: usize, to: usize) -> (r: Vec<u8>)
    requires
        from <= to <= bytes@.len(),
    ensures
        r@ == bytes@.subrange(from as int, to as int),
{
    slice_to_vec(slice_subrange(bytes, from, to))
}

/// `a` followed by `b`.
pub fn concat2(a: &str, b: &str) -> (r: String)
    ensures
        r@ == a@ + b@,
{
    let mut out: String = a.to_owned();
    out.append(b);
    out
}

/// `a` followed by `b` and `c`.
pub fn concat3(a: &str, b: &str, c: &str) -> (r: String)
    ensures
        r@ == a@ + b@ + c@,
{
    let mut out: String = a.to_owned();
    out.append(b);
    out.append(c);
    out
}

/// A message that ends in a 16-bit value, written as `0x` and four
/// hexadecimal digits.
pub fn message_with_hex(prefix: &str, value: u16) -> (r: String)
    ensures
        r@ == prefix@ + "0x"@ + number::upper_hex_text(value as nat, 4),
{
    let digits = number::upper_hex_chars(value as u64, 4);
    let tail = string_of(digits.as_slice());
    concat3(prefix, "0x", tail.as_str())
}

/// A message that ends in a number, written in decimal.
pub fn message_with_number(prefix: &str, value: u64) -> (r: String)
    ensures
        r@ == prefix@ + number::decimal_text(value as nat),
{
    let digits = number::decimal_chars(value);
    let tail = string_of(digits.as_slice());
    concat2(prefix, tail.as_str())
}

/// Each item between a prefix and a suffix.
pub open spec fn wrapped(items: Seq<Seq<char>>, prefix: Seq<char>, suffix: Seq<char>) -> Seq<Seq<char>> {
    Seq::new(items.len(), |i: int| prefix + items[i] + suffix)
}

/// Puts each item between a prefix and a suffix.
pub fn wrap_each(items: &Vec<String>, prefix: &str, suffix: &str) -> (r: Vec<Vec<char>>)
    ensures
        views(r@) == wrapped(string_views(items@), prefix@, suffix@),
{
    let head = chars_of(prefix);
    let tail = chars_of(suffix);
    let mut out: Vec<Vec<char>> = Vec::new();
    let mut i: usize = 0;
    while i < items.len()
        invariant
            i <= items@.len(),
            head@ == prefix@,
            tail@ == suffix@,
            views(out@) == wrapped(string_views(items@), prefix@, suffix@).take(i as int),
        decreases items@.len() - i,
    {
        let body = chars_of(items[i].as_str());
        let mut term: Vec<char> = Vec::new();
        term.extend_from_slice(head.as_slice());
        term.extend_from_slice(body.as_slice());
        term.extend_from_slice(tail.as_slice());
        proof {
            let all = wrapped(string_views(items@), prefix@, suffix@);
            assert(term@ =~= prefix@ + items@[i as int]@ + suffix@);
            assert(all[i as int] == term@);
            assert(views(out@.push(term)) =~= views(out@).push(term@));
            assert(all.take(i + 1) =~= all.take(i as int).push(all[i as int]));
        }
        out.push(term);
        i = i + 1;
    }
    proof {
        let all = wrapped(string_views(items@), prefix@, suffix@);
        assert(all.take(i as int) =~= all);
    }
    out
}

/// Appends the parts of `more` to `parts`.
pub fn append_parts(parts: &mut Vec<Vec<char>>, more: Vec<Vec<char>>)
    ensures
        views(final(parts)@) == views(old(parts)@) + views(more@),
{
    let mut more = more;
    let ghost start = views(parts@);
    let ghost added = views(more@);
    parts.append(&mut more);
    proof {
        assert(views(parts@) =~= start + added);
    }
}

/// Appends one part, given as text.
pub fn push_part(parts: &mut Vec<Vec<char>>, text: &str)
    ensures
        views(final(parts)@) == views(old(parts)@).push(text@),
{
    let ghost start = views(parts@);
    let part = chars_of(text);
    parts.push(part);
    proof {
        assert(views(parts@) =~= start.push(text@));
    }
}

/// The view of an optional string.
pub open spec fn optional_view(s: Option<String>) -> Option<Seq<char>> {
    match s {
        Some(t) => Some(t@),
        None => None,
    }
}

/// The views of a sequence of character vectors.
pub open spec fn views(parts: Seq<Vec<char>>) -> Seq<Seq<char>> {
    Seq::new(parts.len(), |i: int| parts[i]@)
}

/// The views of a sequence of strings.
pub open spec fn string_views(parts: Seq<String>) -> Seq<Seq<char>> {
    Seq::new(parts.len(), |i: int| parts[i]@)
}

/// All bytes are below 128.
pub open spec fn all_ascii(bytes: Seq<u8>) -> bool {
    forall|i: int| 0 <= i < bytes.len() ==> #[trigger] bytes[i] < 128
}

/// The characters whose code points are the given bytes.
pub open spec fn latin1_text(bytes: Seq<u8>) -> Seq<char> {
    Seq::new(bytes.len(), |i: int| bytes[i] as char)
}

/// ASCII bytes decode, lossily or not, to the characters with the same codes.
pub proof fn lemma_lossy_text_ascii(bytes: Seq<u8>)
    requires
        all_ascii(bytes),
    ensures
        lossy_text(bytes) == latin1_text(bytes),
{
    let chars = latin1_text(bytes);
    assert(is_ascii_chars(chars)) by {
        assert forall|i: int| 0 <= i < chars.len() implies (0 <= #[trigger] (chars[i] as nat) < 128) by {
            assert(bytes[i] < 128);
        }
    }
    is_ascii_chars_encode_utf8(chars);
    assert(encode_utf8(chars) =~= bytes) by {
        assert forall|i: int| 0 <= i < bytes.len() implies encode_utf8(chars)[i] == bytes[i] by {
            assert(bytes[i] < 128);
            assert(chars[i] == bytes[i] as char);
        }
    }
    encode_utf8_valid_utf8(chars);
    encode_utf8_decode_utf8(chars);
}

} // verus!
