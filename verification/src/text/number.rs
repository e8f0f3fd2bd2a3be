//! Decimal and hexadecimal text of numbers.

use vstd::prelude::*;

verus! {

/// The character of a digit below sixteen, letters in lower case.
pub open spec fn digit_char(d: int) -> char {
    if d == 0 {
        '0'
    } else if d == 1 {
        '1'
    } else if d == 2 {
        '2'
    } else if d == 3 {
        '3'
    } else if d == 4 {
        '4'
    } else if d == 5 {
        '5'
    } else if d == 6 {
        '6'
    } else if d == 7 {
        '7'
    } else if d == 8 {
        '8'
    } else if d == 9 {
        '9'
    } else if d == 10 {
        'a'
    } else if d == 11 {
        'b'
    } else if d == 12 {
        'c'
    } else if d == 13 {
        'd'
    } else if d == 14 {
        'e'
    } else {
        'f'
    }
}

/// The decimal digits of `n`, most significant first, without leading zeros.
pub open spec fn decimal_text(n: nat) -> Seq<char>
    decreases n,
{
    if n < 10 {
        seq![digit_char(n as int)]
    } else {
        decimal_text(n / 10).push(digit_char((n % 10) as int))
    }
}

/// The last `width` digits of `n` to the given base, padded with zeros.
pub open spec fn fixed_text(n: nat, base: nat, width: nat) -> Seq<char>
    decreases width,
{
    if width == 0 || base == 0 {
        Seq::empty()
    } else {
        fixed_text(n / base, base, (width - 1) as nat).push(digit_char((n % base) as int))
    }
}

/// The decimal digits of `n`, padded with zeros to at least two characters.
pub open spec fn two_digit_text(n: nat) -> Seq<char> {
    if n < 10 {
        seq!['0', digit_char(n as int)]
    } else {
        decimal_text(n)
    }
}

/// The character of a digit below sixteen, letters in upper case.
pub open spec fn upper_digit_char(d: int) -> char {
    if d == 10 {
        'A'
    } else if d == 11 {
        'B'
    } else if d == 12 {
        'C'
    } else if d == 13 {
        'D'
    } else if d == 14 {
        'E'
    } else if d == 15 {
        'F'
    } else {
        digit_char(d)
    }
}

/// The last `width` hexadecimal digits of `n`, letters in upper case.
pub open spec fn upper_hex_text(n: nat, width: nat) -> Seq<char>
    decreases width,
{
    if width == 0 {
        Seq::empty()
    } else {
        upper_hex_text(n / 16, (width - 1) as nat).push(upper_digit_char((n % 16) as int))
    }
}

/// An ASCII decimal digit.
pub open spec fn is_digit(c: char) -> bool {
    '0' <= c <= '9'
}

/// The value of an ASCII decimal digit.
pub open spec fn digit_value(c: char) -> int {
    c as int - '0' as int
}

/// Every character is an ASCII decimal digit.
pub open spec fn all_digits(s: Seq<char>) -> bool {
    forall|i: int| 0 <= i < s.len() ==> is_digit(#[trigger] s[i])
}

/// The number that a sequence of decimal digits denotes.
pub open spec fn decimal_value(s: Seq<char>) -> nat
    decreases s.len(),
{
    if s.len() == 0 {
        0
    } else {
        (decimal_value(s.drop_last()) * 10 + digit_value(s.last())) as nat
    }
}

/// The digits of a number in text: an optional `+`, then at least one digit.
pub open spec fn unsigned_body(s: Seq<char>) -> Seq<char> {
    if s.len() > 0 && s[0] == '+' {
        s.drop_first()
    } else {
        s
    }
}

/// The `u32` that `s` denotes in decimal, if it denotes one.
pub open spec fn parse_u32_text(s: Seq<char>) -> Option<u32> {
    let body = unsigned_body(s);
    if body.len() > 0 && all_digits(body) && decimal_value(body) <= u32::MAX {
        Some(decimal_value(body) as u32)
    } else {
        None
    }
}

/// The `u64` that `s` denotes in decimal, if it denotes one.
pub open spec fn parse_u64_text(s: Seq<char>) -> Option<u64> {
    let body = unsigned_body(s);
    if body.len() > 0 && all_digits(body) && decimal_value(body) <= u64::MAX {
        Some(decimal_value(body) as u64)
    } else {
        None
    }
}

/// The value of a prefix of digits never exceeds the value of the whole.
pub proof fn lemma_decimal_value_prefix(s: Seq<char>, k: int)
    requires
        0 <= k <= s.len(),
        all_digits(s),
    ensures
        decimal_value(s.take(k)) <= decimal_value(s),
    decreases s.len() - k,
{
    if k == s.len() {
        assert(s.take(k) =~= s);
    } else {
        lemma_decimal_value_prefix(s, k + 1);
        assert(s.take(k + 1).drop_last() =~= s.take(k));
        assert(is_digit(s[k]));
        assert(s.take(k + 1).last() == s[k]);
    }
}

/// The character of a digit below sixteen.
pub fn digit_to_char(d: u8) -> (r: char)
    requires
        d < 16,
    ensures
        r == digit_char(d as int),
{
    if d == 0 {
        '0'
    } else if d == 1 {
        '1'
    } else if d == 2 {
        '2'
    } else if d == 3 {
        '3'
    } else if d == 4 {
        '4'
    } else if d == 5 {
        '5'
    } else if d == 6 {
        '6'
    } else if d == 7 {
        '7'
    } else if d == 8 {
        '8'
    } else if d == 9 {
        '9'
    } else if d == 10 {
        'a'
    } else if d == 11 {
        'b'
    } else if d == 12 {
        'c'
    } else if d == 13 {
        'd'
    } else if d == 14 {
        'e'
    } else {
        'f'
    }
}

/// Writes `n` in decimal.
pub fn decimal_chars(n: u64) -> (r: Vec<char>)
    ensures
        r@ == decimal_text(n as nat),
    decreases n,
{
    if n < 10 {
        let mut out: Vec<char> = Vec::new();
        out.push(digit_to_char(n as u8));
        proof {
            assert(out@ =~= seq![digit_char(n as int)]);
        }
        out
    } else {
        let mut out: Vec<char> = decimal_chars(n / 10);
        out.push(digit_to_char((n % 10) as u8));
        out
    }
}

/// Writes the last `width` digits of `n` to base ten or sixteen.
pub fn fixed_chars(n: u64, base: u8, width: usize) -> (r: Vec<char>)
    requires
        base == 10 || base == 16,
    ensures
        r@ == fixed_text(n as nat, base as nat, width as nat),
    decreases width,
{
    if width == 0 {
        Vec::new()
    } else {
        let b: u64 = base as u64;
        let mut out: Vec<char> = fixed_chars(n / b, base, width - 1);
        out.push(digit_to_char((n % b) as u8));
        out
    }
}

/// Writes the last `width` hexadecimal digits of `n` in upper case.
pub fn upper_hex_chars(n: u64, width: usize) -> (r: Vec<char>)
    ensures
        r@ == upper_hex_text(n as nat, width as nat),
    decreases width,
{
    if width == 0 {
        Vec::new()
    } else {
        let mut out: Vec<char> = upper_hex_chars(n / 16, width - 1);
        let d: u8 = (n % 16) as u8;
        let c: char = if d == 10 {
            'A'
        } else if d == 11 {
            'B'
        } else if d == 12 {
            'C'
        } else if d == 13 {
            'D'
        } else if d == 14 {
            'E'
        } else if d == 15 {
            'F'
        } else {
            digit_to_char(d)
        };
        out.push(c);
        out
    }
}

/// The hexadecimal digits of `n`, letters in upper case, padded with
/// zeros to at least `width` characters.
pub open spec fn padded_hex_text(n: nat, width: nat) -> Seq<char>
    decreases n, width,
{
    if n < 16 && width <= 1 {
        seq![upper_digit_char(n as int)]
    } else {
        padded_hex_text(n / 16, if width == 0 {
            0
        } else {
            (width - 1) as nat
        }).push(upper_digit_char((n % 16) as int))
    }
}

/// The character of a digit below sixteen, letters in upper case.
pub fn upper_digit(d: u8) -> (r: char)
    requires
        d < 16,
    ensures
        r == upper_digit_char(d as int),
{
    if d == 10 {
        'A'
    } else if d == 11 {
        'B'
    } else if d == 12 {
        'C'
    } else if d == 13 {
        'D'
    } else if d == 14 {
        'E'
    } else if d == 15 {
        'F'
    } else {
        digit_to_char(d)
    }
}

/// Writes `n` in hexadecimal, letters in upper case, with at least
/// `width` digits.
pub fn padded_hex_chars(n: u64, width: usize) -> (r: Vec<char>)
    ensures
        r@ == padded_hex_text(n as nat, width as nat),
    decreases n, width,
{
    if n < 16 && width <= 1 {
        let mut out: Vec<char> = Vec::new();
        out.push(upper_digit(n as u8));
        proof {
            assert(out@ =~= seq![upper_digit_char(n as int)]);
        }
        out
    } else {
        let rest: usize = if width == 0 {
            0
        } else {
            width - 1
        };
        let mut out: Vec<char> = padded_hex_chars(n / 16, rest);
        out.push(upper_digit((n % 16) as u8));
        out
    }
}

/// Writes `n` in decimal with at least two digits.
pub fn two_digit_chars(n: u64) -> (r: Vec<char>)
    ensures
        r@ == two_digit_text(n as nat),
{
    if n < 10 {
        let mut out: Vec<char> = Vec::new();
        out.push('0');
        out.push(digit_to_char(n as u8));
        proof {
            assert(out@ =~= seq!['0', digit_char(n as int)]);
        }
        out
    } else {
        decimal_chars(n)
    }
}

/// Reads a run of decimal digits as a number no larger than `max`.
pub fn parse_digits(chars: &[char], max: u64) -> (r: Option<u64>)
    requires
        9 <= max,
    ensures
        r == if chars@.len() > 0 && all_digits(chars@) && decimal_value(chars@) <= max {
            Some(decimal_value(chars@) as u64)
        } else {
            None::<u64>
        },
{
    let len: usize = chars.len();
    if len == 0 {
        return None;
    }
    let mut acc: u64 = 0;
    let mut i: usize = 0;
    while i < len
        invariant
            i <= len == chars@.len(),
            all_digits(chars@.take(i as int)),
            acc == decimal_value(chars@.take(i as int)),
            acc <= max,
            9 <= max,
        decreases len - i,
    {
        let c: char = chars[i];
        if !('0' <= c && c <= '9') {
            proof {
                assert(!is_digit(chars@[i as int]));
            }
            return None;
        }
        let d: u64 = (c as u64) - ('0' as u64);
        proof {
            assert(chars@.take(i + 1).drop_last() =~= chars@.take(i as int));
            assert(chars@.take(i + 1).last() == c);
            assert(all_digits(chars@.take(i + 1))) by {
                assert forall|j: int| 0 <= j < i + 1 implies is_digit(
                    #[trigger] chars@.take(i + 1)[j],
                ) by {
                    if j < i {
                        assert(chars@.take(i as int)[j] == chars@[j]);
                    }
                }
            }
            assert(decimal_value(chars@.take(i + 1)) == acc * 10 + d);
        }
        if acc > (max - d) / 10 {
            proof {
                assert(acc * 10 + d > max);
                if all_digits(chars@) {
                    lemma_decimal_value_prefix(chars@, i + 1);
                }
            }
            return None;
        }
        acc = acc * 10 + d;
        i = i + 1;
    }
    proof {
        assert(chars@.take(i as int) =~= chars@);
    }
    Some(acc)
}

/// Reads a decimal `u32`: an optional `+`, then digits.
pub fn parse_u32_chars(chars: &[char]) -> (r: Option<u32>)
    ensures
        r == parse_u32_text(chars@),
{
    let len: usize = chars.len();
    let from: usize = if len > 0 && chars[0] == '+' { 1 } else { 0 };
    let body = vstd::slice::slice_subrange(chars, from, len);
    proof {
        assert(body@ =~= unsigned_body(chars@));
    }
    match parse_digits(body, 0xffff_ffff) {
        Some(v) => Some(v as u32),
        None => None,
    }
}

/// Reads a decimal `u64`: an optional `+`, then digits.
pub fn parse_u64_chars(chars: &[char]) -> (r: Option<u64>)
    ensures
        r == parse_u64_text(chars@),
{
    let len: usize = chars.len();
    let from: usize = if len > 0 && chars[0] == '+' { 1 } else { 0 };
    let body = vstd::slice::slice_subrange(chars, from, len);
    proof {
        assert(body@ =~= unsigned_body(chars@));
    }
    parse_digits(body, 0xffff_ffff_ffff_ffff)
}

} // verus!
