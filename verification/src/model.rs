//! The abstract state of the console and the exact effect of every
//! operation on it.
//!
//! A [`ConsoleState`] is a mathematical snapshot of the driver: the grid of
//! cells, the write column, and the current attribute. The spec functions
//! here are the single definition of what each driver operation does;
//! [`crate::vga_buffer::Writer`]'s contracts promise nothing weaker and
//! nothing stronger. The proof functions at the end state the laws the
//! driver obeys.

use vstd::prelude::*;
use crate::color::{ColorCode, ScreenChar};

verus! {

/// Rows on the display surface.
pub const BUFFER_HEIGHT: usize = 25;

/// Columns on the display surface.
pub const BUFFER_WIDTH: usize = 80;

/// The newline control byte: the one byte that is never placed in a cell.
pub const NEWLINE: u8 = 0x0a;

/// The glyph stored in place of a byte the device cannot show.
pub const UNPRINTABLE: u8 = 0xfe;

/// The character byte of a blank cell.
pub const BLANK: u8 = 0x20;

/// A byte the device can show as itself: printable ASCII.
pub open spec fn is_printable(b: u8) -> bool {
    0x20 <= b <= 0x7e
}

/// What the string-level write hands to the byte-level write: printable
/// bytes and newlines pass through, everything else degrades to the fixed
/// placeholder glyph.
pub open spec fn normalize(b: u8) -> u8 {
    if is_printable(b) || b == NEWLINE {
        b
    } else {
        UNPRINTABLE
    }
}

/// A blank cell: a space shown in the given attribute.
pub open spec fn blank_cell(attr: ColorCode) -> ScreenChar {
    ScreenChar { ascii_character: BLANK, color_code: attr }
}

/// A whole row of blank cells in the given attribute.
pub open spec fn blank_row(attr: ColorCode) -> Seq<ScreenChar> {
    Seq::new(BUFFER_WIDTH as nat, |c: int| blank_cell(attr))
}

/// A grid of the device's fixed dimensions.
pub open spec fn wf_grid(grid: Seq<Seq<ScreenChar>>) -> bool {
    &&& grid.len() == BUFFER_HEIGHT
    &&& forall|r: int| 0 <= r < grid.len() ==> (#[trigger] grid[r]).len() == BUFFER_WIDTH
}

/// The abstract state of the console driver.
#[verifier::ext_equal]
pub struct ConsoleState {
    /// The cells on the surface, row-major, row 0 on top. The bottom row is
    /// the active write row; the rows above it hold historical output.
    pub grid: Seq<Seq<ScreenChar>>,
    /// The column the next placed byte lands in. Runs from 0 up to and
    /// including the width; at the width, placing a byte first scrolls.
    pub col: nat,
    /// The attribute given to every cell written from now on.
    pub attr: ColorCode,
}

impl ConsoleState {
    /// Validity: the grid has the device's dimensions and the write column
    /// has not run past the width.
    pub open spec fn wf(self) -> bool {
        &&& wf_grid(self.grid)
        &&& self.col <= BUFFER_WIDTH
    }
}

/// The grid after one upward scroll: each row takes the contents of the row
/// below it, and the bottom row comes back blank in the given attribute.
/// The old top row is discarded.
pub open spec fn scrolled(grid: Seq<Seq<ScreenChar>>, attr: ColorCode) -> Seq<Seq<ScreenChar>> {
    Seq::new(
        BUFFER_HEIGHT as nat,
        |r: int| if r < BUFFER_HEIGHT - 1 {
            grid[r + 1]
        } else {
            blank_row(attr)
        },
    )
}

/// The line transition: scroll the grid up by one row and reset the write
/// column. The attribute is untouched.
pub open spec fn line_transition(s: ConsoleState) -> ConsoleState {
    ConsoleState { grid: scrolled(s.grid, s.attr), col: 0, attr: s.attr }
}

/// Placing one non-newline byte: if the write column has reached the width,
/// one line transition happens first; then the byte lands at the write
/// column of the bottom row, in the current attribute, and the column
/// advances by one.
pub open spec fn place_byte(s: ConsoleState, b: u8) -> ConsoleState {
    let t = if s.col == BUFFER_WIDTH {
        line_transition(s)
    } else {
        s
    };
    let cell = ScreenChar { ascii_character: b, color_code: s.attr };
    ConsoleState {
        grid: t.grid.update(
            BUFFER_HEIGHT - 1,
            t.grid[BUFFER_HEIGHT - 1].update(t.col as int, cell),
        ),
        col: (t.col + 1) as nat,
        attr: s.attr,
    }
}

/// The effect of the byte-level write: a newline is a line transition and
/// nothing else; every other byte is placed as it is.
pub open spec fn write_byte_spec(s: ConsoleState, b: u8) -> ConsoleState {
    if b == NEWLINE {
        line_transition(s)
    } else {
        place_byte(s, b)
    }
}

/// The effect of the string-level write: each byte in turn is normalized
/// and handed to the byte-level write.
pub open spec fn write_bytes_spec(s: ConsoleState, bytes: Seq<u8>) -> ConsoleState
    decreases bytes.len(),
{
    if bytes.len() == 0 {
        s
    } else {
        write_byte_spec(write_bytes_spec(s, bytes.drop_last()), normalize(bytes.last()))
    }
}

/// The effect of changing the current attribute: the grid and the write
/// column stay exactly as they are. Cells already on the surface are never
/// recoloured.
pub open spec fn with_attribute(s: ConsoleState, attr: ColorCode) -> ConsoleState {
    ConsoleState { grid: s.grid, col: s.col, attr }
}

/// The grid after a line transition keeps the device's dimensions.
pub proof fn lemma_line_transition_wf(s: ConsoleState)
    requires
        s.wf(),
    ensures
        line_transition(s).wf(),
{
}

/// The byte-level write preserves validity.
pub proof fn lemma_write_byte_spec_wf(s: ConsoleState, b: u8)
    requires
        s.wf(),
    ensures
        write_byte_spec(s, b).wf(),
{
}

/// Writing a run of printable bytes that fits in the remainder of the
/// bottom row advances the write column by exactly the run's length, lays
/// the bytes down left to right in the current attribute, and touches no
/// other cell. In particular, a run that fills the row exactly leaves the
/// column equal to the width: the boundary itself triggers nothing.
pub proof fn lemma_printable_run(s: ConsoleState, bytes: Seq<u8>)
    requires
        s.wf(),
        s.col + bytes.len() <= BUFFER_WIDTH,
        forall|i: int| 0 <= i < bytes.len() ==> is_printable(#[trigger] bytes[i]),
    ensures
        ({
            let t = write_bytes_spec(s, bytes);
            let bottom = t.grid[BUFFER_HEIGHT - 1];
            let old_bottom = s.grid[BUFFER_HEIGHT - 1];
            &&& t.wf()
            &&& t.col == s.col + bytes.len()
            &&& t.attr == s.attr
            &&& forall|r: int|
                0 <= r < BUFFER_HEIGHT && r != BUFFER_HEIGHT - 1 ==> t.grid[r] == s.grid[r]
            &&& forall|c: int| 0 <= c < s.col ==> #[trigger] bottom[c] == old_bottom[c]
            &&& forall|c: int|
                s.col <= c < s.col + bytes.len() ==> #[trigger] bottom[c] == ScreenChar {
                    ascii_character: bytes[c - s.col],
                    color_code: s.attr,
                }
            &&& forall|c: int|
                s.col + bytes.len() <= c < BUFFER_WIDTH ==> #[trigger] bottom[c] == old_bottom[c]
        }),
    decreases bytes.len(),
{
    if bytes.len() > 0 {
        lemma_printable_run(s, bytes.drop_last());
        let pre = write_bytes_spec(s, bytes.drop_last());
        let b = normalize(bytes.last());
        assert(is_printable(bytes.last()));
        assert(b == bytes.last());
        assert(pre.col < BUFFER_WIDTH);
        lemma_write_byte_spec_wf(pre, b);
    }
}

/// The wrap boundary: from column 0, writing exactly one row's width of
/// printable bytes leaves the write column equal to the width, with no
/// line transition yet; the very next printable byte performs exactly one
/// line transition and is then placed at column 0 of the bottom row.
pub proof fn lemma_wrap_boundary(s: ConsoleState, bytes: Seq<u8>, b: u8)
    requires
        s.wf(),
        s.col == 0,
        bytes.len() == BUFFER_WIDTH,
        forall|i: int| 0 <= i < bytes.len() ==> is_printable(#[trigger] bytes[i]),
        is_printable(b),
    ensures
        ({
            let full = write_bytes_spec(s, bytes);
            let after = write_byte_spec(full, b);
            let once = line_transition(full);
            &&& full.col == BUFFER_WIDTH
            &&& forall|r: int|
                0 <= r < BUFFER_HEIGHT && r != BUFFER_HEIGHT - 1 ==> full.grid[r] == s.grid[r]
            &&& after.grid == once.grid.update(
                BUFFER_HEIGHT - 1,
                once.grid[BUFFER_HEIGHT - 1].update(
                    0,
                    ScreenChar { ascii_character: b, color_code: full.attr },
                ),
            )
            &&& after.col == 1
            &&& after.attr == s.attr
        }),
{
    lemma_printable_run(s, bytes);
}

/// The substitution law: a byte outside the printable range that is not a
/// newline is never stored as itself. The string-level write stores the
/// fixed placeholder glyph in the cell instead, under the current
/// attribute.
pub proof fn lemma_substitution(s: ConsoleState, b: u8)
    requires
        s.wf(),
        !is_printable(b),
        b != NEWLINE,
    ensures
        normalize(b) == UNPRINTABLE,
        write_bytes_spec(s, seq![b]) == write_byte_spec(s, UNPRINTABLE),
        ({
            let t = write_bytes_spec(s, seq![b]);
            let landing = if s.col == BUFFER_WIDTH {
                0int
            } else {
                s.col as int
            };
            t.grid[BUFFER_HEIGHT - 1][landing] == ScreenChar {
                ascii_character: UNPRINTABLE,
                color_code: s.attr,
            }
        }),
{
    assert(seq![b].drop_last() =~= Seq::<u8>::empty());
    assert(seq![b].last() == b);
    assert(write_bytes_spec(s, seq![b].drop_last()) == s);
    assert(write_bytes_spec(s, seq![b]) == write_byte_spec(s, normalize(b)));
    if s.col == BUFFER_WIDTH {
        lemma_line_transition_wf(s);
    }
}

/// The scroll law: after a line transition, each row holds what the row
/// below it held before, the bottom row is entirely blank in the writer's
/// current attribute, and the write column is 0.
pub proof fn lemma_scroll(s: ConsoleState)
    requires
        s.wf(),
    ensures
        line_transition(s).wf(),
        line_transition(s).col == 0,
        line_transition(s).attr == s.attr,
        forall|r: int|
            0 <= r < BUFFER_HEIGHT - 1 ==> #[trigger] line_transition(s).grid[r] == s.grid[r + 1],
        line_transition(s).grid[BUFFER_HEIGHT - 1] == blank_row(s.attr),
        forall|c: int|
            0 <= c < BUFFER_WIDTH
                ==> #[trigger] line_transition(s).grid[BUFFER_HEIGHT - 1][c] == blank_cell(s.attr),
{
    lemma_line_transition_wf(s);
}

/// Attribute persistence: the cell a byte lands in carries the attribute
/// the writer held at the moment of that write; changing the attribute
/// afterwards recolours nothing already on the surface.
pub proof fn lemma_attribute_persistence(s: ConsoleState, b: u8, later: ColorCode)
    requires
        s.wf(),
        b != NEWLINE,
    ensures
        ({
            let t = write_byte_spec(s, b);
            let landing = if s.col == BUFFER_WIDTH {
                0int
            } else {
                s.col as int
            };
            &&& t.grid[BUFFER_HEIGHT - 1][landing] == ScreenChar {
                ascii_character: b,
                color_code: s.attr,
            }
            &&& with_attribute(t, later).grid == t.grid
            &&& with_attribute(t, later).grid[BUFFER_HEIGHT - 1][landing] == ScreenChar {
                ascii_character: b,
                color_code: s.attr,
            }
        }),
{
    if s.col == BUFFER_WIDTH {
        lemma_line_transition_wf(s);
    }
}

/// Newline equivalence: writing the newline byte is the line transition,
/// nothing more. No cell is written for the newline byte itself.
pub proof fn lemma_newline_equivalence(s: ConsoleState)
    ensures
        write_byte_spec(s, NEWLINE) == line_transition(s),
{
}

} // verus!
