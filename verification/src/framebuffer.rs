//! Legacy direct text-cell writer.
//!
//! The older text mode displays characters from a memory region of 16-bit
//! cells: the low byte selects the character, the high byte its colors.
//! This module holds the cell composition and the writer state; the single
//! volatile store of a composed cell into display memory happens at the
//! system boundary, which reads the last composed cell from here.

use vstd::prelude::*;
use vstd::string::StringSliceAdditionalSpecFns;

verus! {

/// One text cell: a character byte and a color byte.
pub struct ScreenChar {
    ascii_character: u8,
    color_code: u8,
}

impl ScreenChar {
    /// The character byte of the cell.
    pub closed spec fn spec_character(self) -> u8 {
        self.ascii_character
    }

    /// The color byte of the cell.
    pub closed spec fn spec_color(self) -> u8 {
        self.color_code
    }

    /// Compose a cell from a character and a color byte. Characters above
    /// the one-byte range are truncated to their low byte, as the text cell
    /// has no room for more.
    pub fn new(ascii_character: char, color_code: u8) -> (s: ScreenChar)
        ensures
            s.spec_character() == ascii_character as u8,
            s.spec_color() == color_code,
    {
        ScreenChar { ascii_character: ascii_character as u8, color_code }
    }

    /// The 16-bit cell value: the color byte in the high half, the
    /// character byte in the low half.
    pub fn to_u16(&self) -> (v: u16)
        ensures
            v == self.spec_color() * 256 + self.spec_character(),
    {
        let color = self.color_code as u16;
        let character = self.ascii_character as u16;
        proof {
            assert((color << 8u16) | character == color * 256 + character) by (bit_vector)
                requires
                    color <= 255,
                    character <= 255,
            ;
        }
        (color << 8u16) | character
    }
}

/// A text color byte: foreground in the low four bits, background in the
/// high four.
pub struct ColorCode(u8);

impl ColorCode {
    /// The packed color byte.
    pub closed spec fn spec_code(self) -> u8 {
        self.0
    }

    /// The packed color byte, queryable for testing.
    pub fn code(&self) -> (v: u8)
        ensures
            v == self.spec_code(),
    {
        self.0
    }

    /// Pack a foreground and a background color. Each color has four bits;
    /// higher bits of the background are cut off, and a foreground wider
    /// than four bits spills into the background half, as the underlying
    /// byte arithmetic has it.
    pub fn new(fg: u8, bg: u8) -> (c: ColorCode)
        ensures
            c.spec_code() == (fg | (bg << 4u8)),
            fg < 16 && bg < 16 ==> c.spec_code() == bg * 16 + fg,
    {
        proof {
            assert(fg < 16 && bg < 16 ==> (fg | (bg << 4u8)) == bg * 16 + fg) by (bit_vector);
        }
        ColorCode(fg | (bg << 4u8))
    }
}

/// The legacy writer: the active color, a column position, and the last
/// composed cell, which the system boundary stores into display memory.
pub struct FrameBufferWriter {
    color_code: ColorCode,
    column_position: usize,
    cell: u16,
}

impl FrameBufferWriter {
    /// The active color byte.
    pub closed spec fn spec_color(self) -> u8 {
        self.color_code.spec_code()
    }

    /// The last composed cell value.
    pub closed spec fn spec_cell(self) -> u16 {
        self.cell
    }

    /// The column position.
    pub closed spec fn spec_column(self) -> int {
        self.column_position as int
    }

    /// The last composed cell value, queryable for testing.
    pub fn cell(&self) -> (v: u16)
        ensures
            v == self.spec_cell(),
    {
        self.cell
    }

    /// A writer with the given color, at column zero, no cell composed yet.
    pub fn new(color_code: ColorCode) -> (w: FrameBufferWriter)
        ensures
            w.spec_color() == color_code.spec_code(),
            w.spec_column() == 0,
            w.spec_cell() == 0,
    {
        FrameBufferWriter { color_code, column_position: 0, cell: 0 }
    }

    /// Compose the cell for one byte in the active color.
    pub fn write_byte(&mut self, byte: u8)
        ensures
            final(self).spec_cell() == old(self).spec_color() * 256 + byte,
            final(self).spec_color() == old(self).spec_color(),
            final(self).spec_column() == old(self).spec_column(),
    {
        let screen_char = ScreenChar::new(byte as char, self.color_code.0);
        self.cell = screen_char.to_u16();
    }

    /// Compose the cells for every byte of a text, in order; the last byte's
    /// cell remains composed.
    pub fn write_string(&mut self, s: &str)
        ensures
            final(self).spec_color() == old(self).spec_color(),
            final(self).spec_column() == old(self).spec_column(),
            s.spec_bytes().len() == 0 ==> final(self).spec_cell() == old(self).spec_cell(),
            s.spec_bytes().len() > 0 ==> final(self).spec_cell() == old(self).spec_color() * 256
                + s.spec_bytes().last(),
    {
        let bytes = s.as_bytes();
        let n = bytes.len();
        let mut i: usize = 0;
        while i < n
            invariant
                i <= n,
                n == bytes@.len(),
                bytes@ == s.spec_bytes(),
                self.color_code == old(self).color_code,
                self.column_position == old(self).column_position,
                i == 0 ==> self.cell == old(self).cell,
                i > 0 ==> self.cell == self.color_code.spec_code() * 256 + bytes@[i - 1],
            decreases n - i,
        {
            let b = bytes[i];
            self.write_byte(b);
            i += 1;
        }
    }

    /// Switch the active color.
    pub fn set_color(&mut self, color: ColorCode)
        ensures
            final(self).spec_color() == color.spec_code(),
            final(self).spec_cell() == old(self).spec_cell(),
            final(self).spec_column() == old(self).spec_column(),
    {
        self.color_code = color;
    }
}

} // verus!
