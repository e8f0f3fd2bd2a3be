//! The text view: encodings and their decoding.

use vstd::prelude::*;
use crate::bytes::{be16, le16, read_be16, read_le16};
use crate::text::{
    decode_utf16_lossy, decode_utf8_lossy, is_utf8, latin1_text, lossy_text, string_of,
    utf16_lossy_text,
};
use vstd::slice::slice_subrange;

verus! {

/// State of the text view.
#[derive(Debug, Clone, Copy)]
pub struct TextView {
    wrap_lines: bool,
}

/// The encoding of a text.
#[derive(Debug, Clone, Copy, PartialEq, Eq, Structural)]
pub enum TextEncoding {
    /// ASCII.
    Ascii,
    /// UTF-8.
    Utf8,
    /// UTF-8 with a byte order mark.
    Utf8Bom,
    /// UTF-16, big-endian.
    Utf16Be,
    /// UTF-16, little-endian.
    Utf16Le,
    /// ISO 8859-1.
    Latin1,
}

/// The whole 16-bit units of `data` from `from` on, big- or little-endian.
pub open spec fn units_of(data: Seq<u8>, from: int, big: bool) -> Seq<u16> {
    Seq::new(
        ((data.len() - from) / 2) as nat,
        |k: int|
            if big {
                be16(data, from + 2 * k) as u16
            } else {
                le16(data, from + 2 * k) as u16
            },
    )
}

/// The length of the byte order mark with which UTF-16 data begin.
pub open spec fn mark_length(data: Seq<u8>, big: bool) -> int {
    if data.len() >= 2 && (if big {
        data[0] == 0xFE && data[1] == 0xFF
    } else {
        data[0] == 0xFF && data[1] == 0xFE
    }) {
        2
    } else {
        0
    }
}

/// The text that bytes are in an encoding.
pub open spec fn decoded(encoding: TextEncoding, data: Seq<u8>) -> Seq<char> {
    match encoding {
        TextEncoding::Ascii => lossy_text(data),
        TextEncoding::Utf8 => lossy_text(data),
        TextEncoding::Utf8Bom => if data.len() >= 3 {
            lossy_text(data.skip(3))
        } else {
            Seq::empty()
        },
        TextEncoding::Utf16Be => utf16_lossy_text(units_of(data, mark_length(data, true), true)),
        TextEncoding::Utf16Le => utf16_lossy_text(units_of(data, mark_length(data, false), false)),
        TextEncoding::Latin1 => latin1_text(data),
    }
}

impl TextView {
    /// Whether long lines are wrapped.
    pub closed spec fn wrapping(&self) -> bool {
        self.wrap_lines
    }

    /// A view that wraps long lines.
    pub fn new() -> (r: Self)
        ensures
            r.wrapping(),
    {
        TextView { wrap_lines: true }
    }

    /// Turns the wrapping of long lines on or off.
    pub fn toggle_wrap(&mut self)
        ensures
            final(self).wrapping() == !old(self).wrapping(),
    {
        self.wrap_lines = !self.wrap_lines;
    }

    /// Whether long lines are wrapped.
    pub fn is_wrapping(&self) -> (r: bool)
        ensures
            r == self.wrapping(),
    {
        self.wrap_lines
    }
}

/// Collects the whole 16-bit units of `data` from `from` on.
pub fn collect_units(data: &[u8], from: usize, big: bool) -> (r: Vec<u16>)
    requires
        from <= data@.len(),
    ensures
        r@ == units_of(data@, from as int, big),
{
    let len: usize = data.len();
    let count: usize = (len - from) / 2;
    let mut out: Vec<u16> = Vec::new();
    let mut k: usize = 0;
    while k < count
        invariant
            k <= count,
            from <= len == data@.len(),
            count == (len - from) / 2,
            out@ == units_of(data@, from as int, big).take(k as int),
        decreases count - k,
    {
        let unit: u16 = if big {
            read_be16(data, from + 2 * k)
        } else {
            read_le16(data, from + 2 * k)
        };
        proof {
            let all = units_of(data@, from as int, big);
            assert(all.take(k + 1) =~= all.take(k as int).push(unit));
        }
        out.push(unit);
        k = k + 1;
    }
    proof {
        let all = units_of(data@, from as int, big);
        assert(all.take(k as int) =~= all);
    }
    out
}

impl TextEncoding {
    /// Decodes bytes to text. Bytes that cannot be decoded become
    /// replacement characters; an odd byte at the end of UTF-16 data is
    /// dropped.
    pub fn decode(&self, data: &[u8]) -> (r: String)
        ensures
            r@ == decoded(*self, data@),
    {
        match self {
            TextEncoding::Ascii => decode_utf8_lossy(data),
            TextEncoding::Utf8 => decode_utf8_lossy(data),
            TextEncoding::Utf8Bom => {
                if data.len() >= 3 {
                    proof {
                        assert(data@.skip(3) =~= data@.subrange(3, data@.len() as int));
                    }
                    decode_utf8_lossy(slice_subrange(data, 3, data.len()))
                } else {
                    String::new()
                }
            },
            TextEncoding::Utf16Be => {
                let skip: usize = if data.len() >= 2 && data[0] == 0xFE && data[1] == 0xFF {
                    2
                } else {
                    0
                };
                let units = collect_units(data, skip, true);
                decode_utf16_lossy(units.as_slice())
            },
            TextEncoding::Utf16Le => {
                let skip: usize = if data.len() >= 2 && data[0] == 0xFF && data[1] == 0xFE {
                    2
                } else {
                    0
                };
                let units = collect_units(data, skip, false);
                decode_utf16_lossy(units.as_slice())
            },
            TextEncoding::Latin1 => {
                let mut chars: Vec<char> = Vec::new();
                let mut i: usize = 0;
                while i < data.len()
                    invariant
                        i <= data@.len(),
                        chars@ == latin1_text(data@).take(i as int),
                    decreases data@.len() - i,
                {
                    proof {
                        assert(latin1_text(data@).take(i + 1) =~= latin1_text(data@).take(
                            i as int,
                        ).push(data@[i as int] as char));
                    }
                    chars.push(data[i] as char);
                    i = i + 1;
                }
                proof {
                    assert(latin1_text(data@).take(i as int) =~= latin1_text(data@));
                }
                string_of(chars.as_slice())
            },
        }
    }

    /// The display name of the encoding.
    pub fn display_name(&self) -> (r: &'static str)
        ensures
            r@ == match *self {
                TextEncoding::Ascii => "ASCII"@,
                TextEncoding::Utf8 => "UTF-8"@,
                TextEncoding::Utf8Bom => "UTF-8 (BOM)"@,
                TextEncoding::Utf16Be => "UTF-16 BE"@,
                TextEncoding::Utf16Le => "UTF-16 LE"@,
                TextEncoding::Latin1 => "Latin-1"@,
            },
    {
        match self {
            TextEncoding::Ascii => "ASCII",
            TextEncoding::Utf8 => "UTF-8",
            TextEncoding::Utf8Bom => "UTF-8 (BOM)",
            TextEncoding::Utf16Be => "UTF-16 BE",
            TextEncoding::Utf16Le => "UTF-16 LE",
            TextEncoding::Latin1 => "Latin-1",
        }
    }
}

/// What the detection of an encoding reads off the data, before it
/// weighs the counts against the length.
#[derive(Debug, Clone, Copy, PartialEq, Eq, Structural)]
pub struct TextProfile {
    /// The encoding that a byte order mark names.
    pub mark: Option<TextEncoding>,
    /// Whether the data are valid UTF-8.
    pub valid_utf8: bool,
    /// The number of graphic ASCII bytes and ASCII white space.
    pub printable: usize,
    /// The number of bytes that ISO 8859-1 prints.
    pub latin1: usize,
    /// The number of bytes.
    pub length: usize,
}

/// The encoding that a byte order mark at the start of the data names.
pub open spec fn marked_encoding(data: Seq<u8>) -> Option<TextEncoding> {
    if data.len() >= 3 && data[0] == 0xEF && data[1] == 0xBB && data[2] == 0xBF {
        Some(TextEncoding::Utf8Bom)
    } else if data.len() >= 2 && data[0] == 0xFE && data[1] == 0xFF {
        Some(TextEncoding::Utf16Be)
    } else if data.len() >= 2 && data[0] == 0xFF && data[1] == 0xFE {
        Some(TextEncoding::Utf16Le)
    } else {
        None
    }
}

/// A graphic ASCII byte, a space, a tab, a line feed, a form feed or a
/// carriage return.
pub open spec fn is_printable(b: u8) -> bool {
    (0x21 <= b <= 0x7E) || b == 0x20 || b == 0x09 || b == 0x0A || b == 0x0C || b == 0x0D
}

/// A byte that ISO 8859-1 prints: printable ASCII, the upper half, a tab,
/// a line feed or a carriage return.
pub open spec fn is_latin1_printable(b: u8) -> bool {
    (0x20 <= b <= 0x7E) || b >= 0x80 || b == 0x09 || b == 0x0A || b == 0x0D
}

/// The number of bytes of which `wanted` holds.
pub open spec fn count_of(data: Seq<u8>, wanted: spec_fn(u8) -> bool) -> nat
    decreases data.len(),
{
    if data.len() == 0 {
        0
    } else {
        count_of(data.drop_last(), wanted) + (if wanted(data.last()) {
            1nat
        } else {
            0nat
        })
    }
}

/// What the detection of an encoding reads off the data.
pub fn profile_of(data: &[u8]) -> (r: TextProfile)
    ensures
        r.mark == marked_encoding(data@),
        r.valid_utf8 == vstd::utf8::valid_utf8(data@),
        r.printable == count_of(data@, |b: u8| is_printable(b)),
        r.latin1 == count_of(data@, |b: u8| is_latin1_printable(b)),
        r.length == data@.len(),
{
    let mark: Option<TextEncoding> = if data.len() >= 3 && data[0] == 0xEF && data[1] == 0xBB
        && data[2] == 0xBF {
        Some(TextEncoding::Utf8Bom)
    } else if data.len() >= 2 && data[0] == 0xFE && data[1] == 0xFF {
        Some(TextEncoding::Utf16Be)
    } else if data.len() >= 2 && data[0] == 0xFF && data[1] == 0xFE {
        Some(TextEncoding::Utf16Le)
    } else {
        None
    };
    let mut printable: usize = 0;
    let mut latin1: usize = 0;
    let mut i: usize = 0;
    while i < data.len()
        invariant
            i <= data@.len(),
            printable <= i,
            latin1 <= i,
            printable == count_of(data@.take(i as int), |b: u8| is_printable(b)),
            latin1 == count_of(data@.take(i as int), |b: u8| is_latin1_printable(b)),
        decreases data@.len() - i,
    {
        proof {
            assert(data@.take(i + 1).drop_last() =~= data@.take(i as int));
        }
        let b: u8 = data[i];
        if (0x21 <= b && b <= 0x7E) || b == 0x20 || b == 0x09 || b == 0x0A || b == 0x0C || b == 0x0D {
            printable = printable + 1;
        }
        if (0x20 <= b && b <= 0x7E) || b >= 0x80 || b == 0x09 || b == 0x0A || b == 0x0D {
            latin1 = latin1 + 1;
        }
        i = i + 1;
    }
    assert(data@.take(i as int) =~= data@);
    TextProfile { mark, valid_utf8: is_utf8(data), printable, latin1, length: data.len() }
}

} // verus!
