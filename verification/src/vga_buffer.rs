//! The text console driver: a writer over the memory-mapped grid.
//!
//! [`Writer`] owns the device surface and exposes the byte- and
//! string-level write operations. Every cell it touches goes through the
//! ordered seam in [`crate::ordered`], one cell at a time, so the hardware
//! observes a consistent, monotonically-updating surface. What each
//! operation does to the abstract state is defined once, in
//! [`crate::model`], and promised exactly here.

use vstd::prelude::*;
use volatile::Volatile;
use crate::color::{Color, ColorCode, ScreenChar};
use crate::model::{
    blank_cell, blank_row, line_transition, place_byte, wf_grid, with_attribute, write_byte_spec,
    write_bytes_spec, ConsoleState, BLANK, BUFFER_HEIGHT, BUFFER_WIDTH, NEWLINE, UNPRINTABLE,
};
use crate::ordered::{contents, ordered_cell, ordered_read, ordered_write};
use vstd::string::StringSliceAdditionalSpecFns;

verus! {

/// The two-byte value a cell occupies on the device: the character byte
/// first, the attribute byte beside it. Packed little-endian into one
/// 16-bit store, the character is the low byte.
pub open spec fn pack_cell(sc: ScreenChar) -> u16 {
    (sc.color_code.0 * 256 + sc.ascii_character) as u16
}

/// The cell a two-byte device value shows: low byte the character, high
/// byte the attribute.
pub open spec fn unpack_cell(w: u16) -> ScreenChar {
    ScreenChar { ascii_character: (w % 256) as u8, color_code: ColorCode((w / 256) as u8) }
}

/// Packing a cell and reading it back yields the cell: the two bytes do
/// not interfere.
pub proof fn lemma_unpack_pack(sc: ScreenChar)
    ensures
        unpack_cell(pack_cell(sc)) == sc,
{
    let a = sc.ascii_character as int;
    let c = sc.color_code.0 as int;
    assert((c * 256 + a) % 256 == a && (c * 256 + a) / 256 == c) by (nonlinear_arith)
        requires
            0 <= a < 256,
            0 <= c < 256,
    ;
}

/// Pack a cell into the value stored on the device.
fn pack_screen_char(sc: ScreenChar) -> (w: u16)
    ensures
        w == pack_cell(sc),
{
    (sc.color_code.0 as u16) * 256 + (sc.ascii_character as u16)
}

/// Unpack a value read from the device into the cell it shows.
fn unpack_screen_char(w: u16) -> (sc: ScreenChar)
    ensures
        sc == unpack_cell(w),
{
    ScreenChar { ascii_character: (w % 256) as u8, color_code: ColorCode((w / 256) as u8) }
}

/// The device surface: the fixed grid of volatile cells. Held by value,
/// the surface is correct by construction; no handle to a wrongly-sized
/// region can exist.
struct Buffer {
    chars: Vec<Vec<Volatile<u16>>>,
}

impl View for Buffer {
    type V = Seq<Seq<ScreenChar>>;

    /// The grid the surface shows, cell values unpacked.
    closed spec fn view(&self) -> Seq<Seq<ScreenChar>> {
        self.chars@.map(
            |r: int, row: Vec<Volatile<u16>>|
                row@.map(|c: int, cell: Volatile<u16>| unpack_cell(contents(cell))),
        )
    }
}

impl Buffer {
    /// Validity: the grid has the device's fixed dimensions.
    pub open spec fn wf(&self) -> bool {
        wf_grid(self@)
    }

    /// A fresh surface, every cell blank in the given attribute.
    fn new(attr: ColorCode) -> (buffer: Buffer)
        ensures
            buffer.wf(),
            buffer@ == Seq::new(BUFFER_HEIGHT as nat, |r: int| blank_row(attr)),
    {
        let blank = pack_screen_char(ScreenChar { ascii_character: BLANK, color_code: attr });
        let mut chars: Vec<Vec<Volatile<u16>>> = Vec::new();
        let mut row: usize = 0;
        while row < BUFFER_HEIGHT
            invariant
                row <= BUFFER_HEIGHT,
                chars@.len() == row,
                blank == pack_cell(blank_cell(attr)),
                forall|r: int| 0 <= r < row ==> (#[trigger] chars@[r])@.len() == BUFFER_WIDTH,
                forall|r: int, c: int|
                    0 <= r < row && 0 <= c < BUFFER_WIDTH
                        ==> contents(#[trigger] chars@[r]@[c]) == blank,
            decreases BUFFER_HEIGHT - row,
        {
            let mut line: Vec<Volatile<u16>> = Vec::new();
            let mut col: usize = 0;
            while col < BUFFER_WIDTH
                invariant
                    col <= BUFFER_WIDTH,
                    line@.len() == col,
                    forall|c: int| 0 <= c < col ==> contents(#[trigger] line@[c]) == blank,
                decreases BUFFER_WIDTH - col,
            {
                line.push(ordered_cell(blank));
                col += 1;
            }
            chars.push(line);
            row += 1;
        }
        let buffer = Buffer { chars };
        proof {
            lemma_unpack_pack(blank_cell(attr));
            assert(buffer@ =~~= Seq::new(BUFFER_HEIGHT as nat, |r: int| blank_row(attr)));
        }
        buffer
    }

    /// Read one cell through the ordered seam.
    fn read_cell(&self, row: usize, col: usize) -> (sc: ScreenChar)
        requires
            self.wf(),
            row < BUFFER_HEIGHT,
            col < BUFFER_WIDTH,
        ensures
            sc == self@[row as int][col as int],
    {
        proof {
            assert(self.chars@.len() == self@.len());
            assert(self.chars@[row as int]@.len() == self@[row as int].len());
        }
        let w = ordered_read(&self.chars[row][col]);
        unpack_screen_char(w)
    }

    /// Write one cell through the ordered seam. Exactly one ordered store;
    /// every other cell keeps its value.
    fn write_cell(&mut self, row: usize, col: usize, sc: ScreenChar)
        requires
            old(self).wf(),
            row < BUFFER_HEIGHT,
            col < BUFFER_WIDTH,
        ensures
            final(self).wf(),
            final(self)@ == old(self)@.update(
                row as int,
                old(self)@[row as int].update(col as int, sc),
            ),
    {
        let w = pack_screen_char(sc);
        proof {
            assert(self.chars@.len() == self@.len());
            assert(self.chars@[row as int]@.len() == self@[row as int].len());
        }
        ordered_write(&mut self.chars[row][col], w);
        proof {
            lemma_unpack_pack(sc);
            let target = old(self)@.update(row as int, old(self)@[row as int].update(col as int, sc));
            assert forall|r: int| 0 <= r < old(self)@.len() implies self@[r] =~= target[r] by {
            }
            assert(self@ =~= target);
        }
    }
}

/// The console driver: the write column, the current attribute, and sole
/// ownership of the device surface. No other handle to the surface exists,
/// so within the program all access is race-free; the hardware side only
/// observes.
pub struct Writer {
    column_position: usize,
    color_code: ColorCode,
    buffer: Buffer,
}

impl View for Writer {
    type V = ConsoleState;

    /// The abstract state this driver is in.
    closed spec fn view(&self) -> ConsoleState {
        ConsoleState {
            grid: self.buffer@,
            col: self.column_position as nat,
            attr: self.color_code,
        }
    }
}

impl Writer {
    /// Validity of the driver state; established by [`Writer::new`] and
    /// preserved by every operation.
    pub open spec fn wf(&self) -> bool {
        self@.wf()
    }

    /// A driver over a fresh, all-blank surface, writing at column 0 in
    /// the attribute packed from the two given colours.
    pub fn new(foreground: Color, background: Color) -> (writer: Writer)
        ensures
            writer.wf(),
            writer@.col == 0,
            writer@.attr == ColorCode::spec_new(foreground, background),
            writer@.grid == Seq::new(
                BUFFER_HEIGHT as nat,
                |r: int| blank_row(ColorCode::spec_new(foreground, background)),
            ),
    {
        let color_code = ColorCode::new(foreground, background);
        Writer { column_position: 0, color_code, buffer: Buffer::new(color_code) }
    }

    /// Writes one byte to the buffer.
    ///
    /// A newline byte performs the line transition and places nothing; any
    /// other byte is placed at the write column of the bottom row, after a
    /// line transition if the row is already full. Exactly one ordered
    /// store per placed byte; the byte itself is accepted unconditionally
    /// (callers that need the printable-range guarantee go through
    /// [`Writer::write_string`] or [`Writer::write_bytes`]).
    pub fn write_byte(&mut self, byte: u8)
        requires
            old(self).wf(),
        ensures
            final(self).wf(),
            final(self)@ == write_byte_spec(old(self)@, byte),
    {
        if byte == NEWLINE {
            self.new_line();
        } else {
            if self.column_position >= BUFFER_WIDTH {
                self.new_line();
            }
            let row = BUFFER_HEIGHT - 1;
            let col = self.column_position;
            let color_code = self.color_code;
            self.buffer.write_cell(row, col, ScreenChar { ascii_character: byte, color_code });
            self.column_position += 1;
            proof {
                assert(self@ =~~= place_byte(old(self)@, byte));
            }
        }
    }

    /// Writes a whole string of bytes, one by one.
    ///
    /// Printable bytes and newlines are forwarded unchanged; every other
    /// byte degrades to the fixed placeholder glyph, so no input can
    /// corrupt the grid. The operation never fails.
    pub fn write_bytes(&mut self, bytes: &[u8])
        requires
            old(self).wf(),
        ensures
            final(self).wf(),
            final(self)@ == write_bytes_spec(old(self)@, bytes@),
    {
        let ghost s0 = self@;
        let mut i: usize = 0;
        while i < bytes.len()
            invariant
                i <= bytes@.len(),
                self@.wf(),
                self@ == write_bytes_spec(s0, bytes@.take(i as int)),
            decreases bytes@.len() - i,
        {
            let byte = bytes[i];
            if (0x20 <= byte && byte <= 0x7e) || byte == NEWLINE {
                self.write_byte(byte);
            } else {
                self.write_byte(UNPRINTABLE);
            }
            proof {
                assert(bytes@.take(i + 1).drop_last() =~= bytes@.take(i as int));
                assert(bytes@.take(i + 1).last() == bytes@[i as int]);
            }
            i += 1;
        }
        proof {
            assert(bytes@.take(bytes@.len() as int) =~= bytes@);
        }
    }

    /// Writes a string: its UTF-8 bytes, one by one, each normalized to
    /// the device's character set as in [`Writer::write_bytes`]. Code
    /// units of a multi-byte character are substituted byte-wise; the
    /// driver never decodes them.
    pub fn write_string(&mut self, s: &str)
        requires
            old(self).wf(),
        ensures
            final(self).wf(),
            final(self)@ == write_bytes_spec(old(self)@, s.spec_bytes()),
    {
        self.write_bytes(s.as_bytes());
    }

    /// The line transition: shift every row up by one, ordered read before
    /// ordered write, cell by cell in increasing row order, so an observer
    /// always sees a consistent surface; then blank the bottom row in the
    /// current attribute and reset the write column. The old top row is
    /// gone for good.
    pub fn new_line(&mut self)
        requires
            old(self).wf(),
        ensures
            final(self).wf(),
            final(self)@ == line_transition(old(self)@),
    {
        let ghost s0 = self@;
        let mut row: usize = 1;
        while row < BUFFER_HEIGHT
            invariant
                1 <= row <= BUFFER_HEIGHT,
                self@.wf(),
                s0.wf(),
                self@.col == s0.col,
                self@.attr == s0.attr,
                forall|r: int| 0 <= r < row - 1 ==> self@.grid[r] == s0.grid[r + 1],
                forall|r: int| row - 1 <= r < BUFFER_HEIGHT ==> self@.grid[r] == s0.grid[r],
            decreases BUFFER_HEIGHT - row,
        {
            let mut col: usize = 0;
            while col < BUFFER_WIDTH
                invariant
                    1 <= row < BUFFER_HEIGHT,
                    col <= BUFFER_WIDTH,
                    self@.wf(),
                    s0.wf(),
                    self@.col == s0.col,
                    self@.attr == s0.attr,
                    forall|r: int| 0 <= r < row - 1 ==> self@.grid[r] == s0.grid[r + 1],
                    forall|r: int| row <= r < BUFFER_HEIGHT ==> self@.grid[r] == s0.grid[r],
                    ({
                        let dst = self@.grid[row - 1];
                        let src = s0.grid[row as int];
                        let orig = s0.grid[row - 1];
                        &&& forall|c: int| 0 <= c < col ==> #[trigger] dst[c] == src[c]
                        &&& forall|c: int| col <= c < BUFFER_WIDTH ==> #[trigger] dst[c] == orig[c]
                    }),
                decreases BUFFER_WIDTH - col,
            {
                let character = self.buffer.read_cell(row, col);
                self.buffer.write_cell(row - 1, col, character);
                col += 1;
            }
            proof {
                assert(self@.grid[row - 1] =~= s0.grid[row as int]);
            }
            row += 1;
        }
        self.clear_row(BUFFER_HEIGHT - 1);
        self.column_position = 0;
        proof {
            assert(self@.grid =~= line_transition(s0).grid);
            assert(self@ =~~= line_transition(s0));
        }
    }

    /// Clears a row by overwriting every one of its cells with a blank in
    /// the current attribute.
    fn clear_row(&mut self, row: usize)
        requires
            old(self).wf(),
            row < BUFFER_HEIGHT,
        ensures
            final(self).wf(),
            final(self)@.grid == old(self)@.grid.update(row as int, blank_row(old(self)@.attr)),
            final(self)@.col == old(self)@.col,
            final(self)@.attr == old(self)@.attr,
    {
        let ghost s0 = self@;
        let blank = ScreenChar { ascii_character: BLANK, color_code: self.color_code };
        let mut col: usize = 0;
        while col < BUFFER_WIDTH
            invariant
                col <= BUFFER_WIDTH,
                row < BUFFER_HEIGHT,
                self@.wf(),
                s0.wf(),
                self@.col == s0.col,
                self@.attr == s0.attr,
                blank == blank_cell(s0.attr),
                forall|r: int| 0 <= r < BUFFER_HEIGHT && r != row ==> self@.grid[r] == s0.grid[r],
                forall|c: int| 0 <= c < col ==> self@.grid[row as int][c] == blank_cell(s0.attr),
                forall|c: int|
                    col <= c < BUFFER_WIDTH ==> self@.grid[row as int][c] == s0.grid[row as int][c],
            decreases BUFFER_WIDTH - col,
        {
            self.buffer.write_cell(row, col, blank);
            col += 1;
        }
        proof {
            assert(self@.grid[row as int] =~= blank_row(s0.attr));
            assert(self@.grid =~= s0.grid.update(row as int, blank_row(s0.attr)));
        }
    }

    /// Changes the attribute used for cells written from now on. Cells
    /// already on the surface keep the attribute they were written with.
    pub fn set_color_code(&mut self, foreground: Color, background: Color)
        requires
            old(self).wf(),
        ensures
            final(self).wf(),
            final(self)@ == with_attribute(
                old(self)@,
                ColorCode::spec_new(foreground, background),
            ),
    {
        self.color_code = ColorCode::new(foreground, background);
        proof {
            assert(self@ =~~= with_attribute(
                old(self)@,
                ColorCode::spec_new(foreground, background),
            ));
        }
    }

    /// The write column the next placed byte lands in.
    pub fn column_position(&self) -> (col: usize)
        ensures
            col == self@.col,
    {
        self.column_position
    }

    /// The attribute cells are currently written in.
    pub fn color_code(&self) -> (code: ColorCode)
        ensures
            code == self@.attr,
    {
        self.color_code
    }

    /// The cell currently shown at the given row and column, read through
    /// the ordered seam.
    pub fn cell(&self, row: usize, col: usize) -> (sc: ScreenChar)
        requires
            self.wf(),
            row < BUFFER_HEIGHT,
            col < BUFFER_WIDTH,
        ensures
            sc == self@.grid[row as int][col as int],
    {
        self.buffer.read_cell(row, col)
    }
}

/// The library half of the formatted-output entry point. The hosting layer
/// formats its arguments and takes the lock; the finished text is handed
/// here and written through the driver, so device writes appear in the
/// text's left-to-right, top-to-bottom order.
pub fn _print(writer: &mut Writer, s: &str)
    requires
        old(writer).wf(),
    ensures
        final(writer).wf(),
        final(writer)@ == write_bytes_spec(old(writer)@, s.spec_bytes()),
{
    writer.write_string(s);
}

} // verus!
