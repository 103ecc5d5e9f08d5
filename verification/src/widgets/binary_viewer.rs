//! A hex and ASCII view of a packet's bytes, eight to a row.
use vstd::prelude::*;

use crate::text::string_push;

verus! {

/// The upper-case hexadecimal digit of `d` (`d < 16`).
pub open spec fn hex_digit(d: nat) -> char {
    if d < 10 {
        (d + 48) as char
    } else {
        (d + 55) as char
    }
}

/// `b` in two upper-case hexadecimal digits.
pub open spec fn hex_cell(b: u8) -> Seq<char> {
    seq![hex_digit(b as nat / 16), hex_digit(b as nat % 16)]
}

/// An ASCII byte as its character; any other byte as `.`.
pub open spec fn ascii_cell(b: u8) -> Seq<char> {
    if b < 128 {
        seq![b as char]
    } else {
        seq!['.']
    }
}

fn hex_char(d: u8) -> (c: char)
    requires
        d < 16,
    ensures
        c == hex_digit(d as nat),
{
    if d < 10 {
        (d + 48) as char
    } else {
        (d + 55) as char
    }
}

/// A view of `data` as rows of `width` bytes.
pub struct BinaryViewer {
    pub id: String,
    pub data: Vec<u8>,
    pub width: usize,
}

impl BinaryViewer {
    /// A view of `data`, eight bytes to a row.
    pub fn new(id: String, data: Vec<u8>) -> (r: BinaryViewer)
        ensures
            r.id == id,
            r.data == data,
            r.width == 8,
    {
        BinaryViewer { id, data, width: 8 }
    }

    /// The cell of byte `i` in the hex grid.
    pub fn hex_text(&self, i: usize) -> (r: String)
        requires
            i < self.data@.len(),
        ensures
            r@ == hex_cell(self.data@[i as int]),
    {
        let b = self.data[i];
        let mut r = String::new();
        string_push(&mut r, hex_char(b / 16));
        string_push(&mut r, hex_char(b % 16));
        r
    }

    /// The cell of byte `i` in the ASCII grid.
    pub fn ascii_text(&self, i: usize) -> (r: String)
        requires
            i < self.data@.len(),
        ensures
            r@ == ascii_cell(self.data@[i as int]),
    {
        let b = self.data[i];
        let mut r = String::new();
        if b < 128 {
            string_push(&mut r, b as char);
        } else {
            string_push(&mut r, '.');
        }
        r
    }

    /// Whether byte `i` ends a row.
    pub fn ends_row(&self, i: usize) -> (r: bool)
        requires
            self.width > 0,
            i < usize::MAX,
        ensures
            r == ((i + 1) % (self.width as int) == 0),
    {
        (i + 1) % self.width == 0
    }
}

} // verus!
