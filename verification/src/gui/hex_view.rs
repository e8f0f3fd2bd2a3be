//! The hexadecimal view of binary data.

use vstd::prelude::*;
use crate::text::number::{
    decimal_text, padded_hex_chars, padded_hex_text, upper_hex_chars, upper_hex_text,
};
use crate::text::{concat3, copy_bytes, message_with_number, string_of};

verus! {

/// State of the hexadecimal view.
#[derive(Debug, Clone, Copy)]
pub struct HexView {
    bytes_per_line: usize,
}

/// `count` within 8 and 32.
pub open spec fn clamped_width(count: usize) -> usize {
    if count < 8 {
        8
    } else if count > 32 {
        32
    } else {
        count
    }
}

/// The number of lines that are shown at most.
pub const MAX_LINES: usize = 10000;

/// One line of the view.
#[derive(Debug, Clone)]
pub struct HexLine {
    /// Where the line begins, in hexadecimal.
    pub offset: String,
    /// The bytes in hexadecimal.
    pub hex: String,
    /// The bytes as characters.
    pub ascii: String,
}

/// The number of lines that `len` bytes take with `width` bytes a line.
pub open spec fn lines_needed(len: int, width: int) -> int {
    if width <= 0 {
        0
    } else {
        len / width + (if len % width == 0 {
            0int
        } else {
            1int
        })
    }
}

/// The cell of position `at` of a line: the byte in two hexadecimal
/// digits and a space, or three spaces where the line has ended; before
/// position 8 stands one more space.
pub open spec fn hex_cell(line: Seq<u8>, at: int) -> Seq<char> {
    (if at == 8 {
        seq![' ']
    } else {
        Seq::<char>::empty()
    }) + (if 0 <= at < line.len() {
        upper_hex_text(line[at] as nat, 2).push(' ')
    } else {
        seq![' ', ' ', ' ']
    })
}

/// The first `upto` cells of a line.
pub open spec fn hex_cells(line: Seq<u8>, upto: nat) -> Seq<char>
    decreases upto,
{
    if upto == 0 {
        Seq::empty()
    } else {
        hex_cells(line, (upto - 1) as nat) + hex_cell(line, upto - 1)
    }
}

/// A byte as a character: itself where it is graphic ASCII or a space,
/// else a dot.
pub open spec fn shown_char(b: u8) -> char {
    if 0x20 <= b <= 0x7E {
        b as char
    } else {
        '.'
    }
}

/// The bytes of a line as characters.
pub open spec fn shown_text(line: Seq<u8>) -> Seq<char> {
    Seq::new(line.len(), |i: int| shown_char(line[i]))
}

/// The bytes of line `line` of the data.
pub open spec fn line_bytes(data: Seq<u8>, width: int, line: int) -> Seq<u8> {
    data.subrange(
        line * width,
        if line * width + width <= data.len() {
            line * width + width
        } else {
            data.len() as int
        },
    )
}

impl HexView {
    /// The number of bytes that a line shows.
    pub closed spec fn width(&self) -> usize {
        self.bytes_per_line
    }

    /// A line shows between 8 and 32 bytes.
    pub open spec fn wf(&self) -> bool {
        8 <= self.width() <= 32
    }

    /// A view that shows 16 bytes per line.
    pub fn new() -> (r: Self)
        ensures
            r.width() == 16,
            r.wf(),
    {
        HexView { bytes_per_line: 16 }
    }

    /// The number of bytes that a line shows.
    pub fn bytes_per_line(&self) -> (r: usize)
        ensures
            r == self.width(),
    {
        self.bytes_per_line
    }

    /// Sets the number of bytes that a line shows, within 8 and 32.
    pub fn set_bytes_per_line(&mut self, count: usize)
        ensures
            final(self).width() == clamped_width(count),
            final(self).wf(),
    {
        self.bytes_per_line = if count < 8 {
            8
        } else if count > 32 {
            32
        } else {
            count
        };
    }

    /// The number of lines that `len` bytes take.
    pub fn line_count(&self, len: usize) -> (r: usize)
        requires
            self.wf(),
        ensures
            r == lines_needed(len as int, self.width() as int),
    {
        let whole: usize = len / self.bytes_per_line;
        proof {
            let w = self.bytes_per_line as int;
            assert(len as int / w < usize::MAX) by (nonlinear_arith)
                requires
                    8 <= w,
                    0 <= len as int <= usize::MAX,
            ;
        }
        if len % self.bytes_per_line == 0 {
            whole
        } else {
            whole + 1
        }
    }

    /// The note below the lines where not all of them are shown: how many
    /// more there are, and how many KiB the lines that are shown hold.
    pub open spec fn note_text(&self, len: int) -> Option<Seq<char>> {
        let lines = lines_needed(len, self.width() as int);
        if lines > MAX_LINES {
            Some(
                "... "@ + decimal_text((lines - MAX_LINES) as nat) + " more lines (showing first "@
                    + decimal_text((MAX_LINES * self.width() / 1024) as nat) + " KB)"@,
            )
        } else {
            None
        }
    }

    /// The note below the lines, where `len` bytes take more lines than
    /// are shown.
    pub fn overflow_note(&self, len: usize) -> (r: Option<String>)
        requires
            self.wf(),
        ensures
            crate::text::optional_view(r) == self.note_text(len as int),
    {
        let lines: usize = self.line_count(len);
        if lines <= MAX_LINES {
            return None;
        }
        let width: usize = self.bytes_per_line;
        assert(MAX_LINES * width <= 320000) by (nonlinear_arith)
            requires
                width <= 32,
        ;
        let head = message_with_number("... ", (lines - MAX_LINES) as u64);
        let middle = message_with_number(" more lines (showing first ", (MAX_LINES * width / 1024) as u64);
        let r = concat3(head.as_str(), middle.as_str(), " KB)");
        proof {
            assert(r@ =~= "... "@ + decimal_text((lines - MAX_LINES) as nat)
                + " more lines (showing first "@ + decimal_text((MAX_LINES * width / 1024) as nat)
                + " KB)"@);
        }
        Some(r)
    }

    /// Line `line` of the view of `data`, which begin at `offset`; none
    /// where the data end before the line or the line is beyond those
    /// that are shown.
    pub fn format_line(&self, data: &[u8], line: usize, offset: u64) -> (r: Option<HexLine>)
        requires
            self.wf(),
            offset + data@.len() <= u64::MAX,
        ensures
            r is Some <==> line < MAX_LINES && line * self.width() < data@.len(),
            r matches Some(l) ==> {
                let bytes = line_bytes(data@, self.width() as int, line as int);
                &&& l.offset@ == padded_hex_text((offset + line * self.width()) as nat, 8)
                &&& l.hex@ == hex_cells(bytes, self.width() as nat)
                &&& l.ascii@ == shown_text(bytes)
            },
    {
        if line >= MAX_LINES {
            return None;
        }
        let width: usize = self.bytes_per_line;
        assert(line * width <= 320000) by (nonlinear_arith)
            requires
                line < 10000,
                width <= 32,
        ;
        let start: usize = line * width;
        if start >= data.len() {
            return None;
        }
        let end: usize = if data.len() - start >= width {
            start + width
        } else {
            data.len()
        };
        let bytes = copy_bytes(data, start, end);
        let mut hex: Vec<char> = Vec::new();
        let mut at: usize = 0;
        while at < width
            invariant
                at <= width <= 32,
                hex@ == hex_cells(bytes@, at as nat),
            decreases width - at,
        {
            let ghost before = hex@;
            if at == 8 {
                hex.push(' ');
            }
            if at < bytes.len() {
                let digits = upper_hex_chars(bytes[at] as u64, 2);
                let mut k: usize = 0;
                let ghost head = hex@;
                while k < digits.len()
                    invariant
                        k <= digits@.len(),
                        hex@ == head + digits@.take(k as int),
                    decreases digits@.len() - k,
                {
                    hex.push(digits[k]);
                    assert(digits@.take(k + 1) =~= digits@.take(k as int).push(digits@[k as int]));
                    assert(hex@ =~= head + digits@.take(k + 1));
                    k = k + 1;
                }
                assert(digits@.take(k as int) =~= digits@);
                hex.push(' ');
            } else {
                hex.push(' ');
                hex.push(' ');
                hex.push(' ');
            }
            assert(hex@ =~= before + hex_cell(bytes@, at as int));
            at = at + 1;
        }
        let mut ascii: Vec<char> = Vec::new();
        let mut i: usize = 0;
        while i < bytes.len()
            invariant
                i <= bytes@.len(),
                ascii@ == shown_text(bytes@).take(i as int),
            decreases bytes@.len() - i,
        {
            let b: u8 = bytes[i];
            let c: char = if 0x20 <= b && b <= 0x7E {
                b as char
            } else {
                '.'
            };
            ascii.push(c);
            assert(ascii@ =~= shown_text(bytes@).take(i + 1));
            i = i + 1;
        }
        assert(shown_text(bytes@).take(i as int) =~= shown_text(bytes@));
        let place = padded_hex_chars(offset + start as u64, 8);
        Some(
            HexLine {
                offset: string_of(place.as_slice()),
                hex: string_of(hex.as_slice()),
                ascii: string_of(ascii.as_slice()),
            },
        )
    }
}

} // verus!
