use vga_console::color::{Color, ColorCode, ScreenChar};
use vga_console::model::{BUFFER_HEIGHT, BUFFER_WIDTH};
use vga_console::vga_buffer::{Writer, _print};

fn fresh() -> Writer {
    Writer::new(Color::Yellow, Color::Black)
}

fn initial_attr() -> ColorCode {
    ColorCode::new(Color::Yellow, Color::Black)
}

fn assert_blank(w: &Writer, row: usize, col: usize, attr: ColorCode) {
    let sc = w.cell(row, col);
    assert_eq!(sc.ascii_character, b' ');
    assert_eq!(sc.color_code, attr);
}

#[test]
fn fresh_grid_is_blank() {
    let w = fresh();
    assert_eq!(w.column_position(), 0);
    assert_eq!(w.color_code(), initial_attr());
    for row in 0..BUFFER_HEIGHT {
        for col in 0..BUFFER_WIDTH {
            assert_blank(&w, row, col, initial_attr());
        }
    }
}

#[test]
fn hello_lands_on_bottom_row() {
    let mut w = fresh();
    w.write_string("Hello");
    let expected = b"Hello";
    for (i, &b) in expected.iter().enumerate() {
        let sc = w.cell(BUFFER_HEIGHT - 1, i);
        assert_eq!(sc.ascii_character, b);
        assert_eq!(sc.color_code, initial_attr());
    }
    assert_eq!(w.column_position(), 5);
    for row in 0..BUFFER_HEIGHT - 1 {
        for col in 0..BUFFER_WIDTH {
            assert_blank(&w, row, col, initial_attr());
        }
    }
    for col in 5..BUFFER_WIDTH {
        assert_blank(&w, BUFFER_HEIGHT - 1, col, initial_attr());
    }
}

#[test]
fn full_row_leaves_column_at_width() {
    let mut w = fresh();
    for _ in 0..BUFFER_WIDTH {
        w.write_byte(b'x');
    }
    // Exactly one row's width: the column sits at the boundary and no
    // line transition has happened yet.
    assert_eq!(w.column_position(), BUFFER_WIDTH);
    for col in 0..BUFFER_WIDTH {
        assert_blank(&w, BUFFER_HEIGHT - 2, col, initial_attr());
        assert_eq!(w.cell(BUFFER_HEIGHT - 1, col).ascii_character, b'x');
    }
}

#[test]
fn byte_past_full_row_wraps_once() {
    let mut w = fresh();
    for _ in 0..BUFFER_WIDTH {
        w.write_byte(b'x');
    }
    w.write_byte(b'y');
    // The row of x's scrolled up by one; the new bottom row is blank but
    // for the y at column 0.
    for col in 0..BUFFER_WIDTH {
        assert_eq!(w.cell(BUFFER_HEIGHT - 2, col).ascii_character, b'x');
    }
    assert_eq!(w.cell(BUFFER_HEIGHT - 1, 0).ascii_character, b'y');
    for col in 1..BUFFER_WIDTH {
        assert_blank(&w, BUFFER_HEIGHT - 1, col, initial_attr());
    }
    assert_eq!(w.column_position(), 1);
}

#[test]
fn control_byte_stores_placeholder() {
    let mut w = fresh();
    w.write_bytes(&[0x01]);
    let sc = w.cell(BUFFER_HEIGHT - 1, 0);
    assert_eq!(sc.ascii_character, 0xfe);
    assert_eq!(sc.color_code, initial_attr());
    assert_eq!(w.column_position(), 1);
}

#[test]
fn out_of_range_bytes_store_placeholder() {
    let mut w = fresh();
    w.write_bytes(&[0x1f, 0x7f, 0x80, 0xff]);
    for col in 0..4 {
        assert_eq!(w.cell(BUFFER_HEIGHT - 1, col).ascii_character, 0xfe);
    }
    assert_eq!(w.column_position(), 4);
}

#[test]
fn printable_range_bounds_pass_through() {
    let mut w = fresh();
    w.write_bytes(&[0x20, 0x7e]);
    assert_eq!(w.cell(BUFFER_HEIGHT - 1, 0).ascii_character, 0x20);
    assert_eq!(w.cell(BUFFER_HEIGHT - 1, 1).ascii_character, 0x7e);
}

#[test]
fn multibyte_characters_degrade_byte_wise() {
    let mut w = fresh();
    // The o-umlaut encodes as two bytes, neither printable ASCII: the
    // driver substitutes each code unit, never decoding the pair.
    w.write_string("W\u{f6}rld");
    let expected: [u8; 6] = [b'W', 0xfe, 0xfe, b'r', b'l', b'd'];
    for (i, &b) in expected.iter().enumerate() {
        assert_eq!(w.cell(BUFFER_HEIGHT - 1, i).ascii_character, b);
    }
    assert_eq!(w.column_position(), 6);
}

#[test]
fn scroll_shifts_rows_and_blanks_bottom() {
    let mut w = fresh();
    w.write_string("one\ntwo\nthree");
    let before: Vec<Vec<ScreenChar>> = (0..BUFFER_HEIGHT)
        .map(|r| (0..BUFFER_WIDTH).map(|c| w.cell(r, c)).collect())
        .collect();
    w.new_line();
    for r in 1..BUFFER_HEIGHT {
        for c in 0..BUFFER_WIDTH {
            assert_eq!(w.cell(r - 1, c), before[r][c]);
        }
    }
    for c in 0..BUFFER_WIDTH {
        assert_blank(&w, BUFFER_HEIGHT - 1, c, initial_attr());
    }
    assert_eq!(w.column_position(), 0);
}

#[test]
fn newline_byte_equals_line_transition() {
    let mut a = fresh();
    let mut b = fresh();
    a.write_string("abc");
    b.write_string("abc");
    a.write_byte(b'\n');
    b.new_line();
    for r in 0..BUFFER_HEIGHT {
        for c in 0..BUFFER_WIDTH {
            assert_eq!(a.cell(r, c), b.cell(r, c));
        }
    }
    assert_eq!(a.column_position(), b.column_position());
    assert_eq!(a.color_code(), b.color_code());
}

#[test]
fn newline_writes_no_cell() {
    let mut w = fresh();
    w.write_string("hi");
    w.write_byte(b'\n');
    // The two characters moved up one row; nothing else appeared.
    assert_eq!(w.cell(BUFFER_HEIGHT - 2, 0).ascii_character, b'h');
    assert_eq!(w.cell(BUFFER_HEIGHT - 2, 1).ascii_character, b'i');
    for c in 0..BUFFER_WIDTH {
        assert_blank(&w, BUFFER_HEIGHT - 1, c, initial_attr());
    }
}

#[test]
fn attribute_sticks_to_written_cell() {
    let mut w = fresh();
    w.write_byte(b'A');
    w.set_color_code(Color::Red, Color::White);
    w.write_byte(b'B');
    let a = w.cell(BUFFER_HEIGHT - 1, 0);
    let b = w.cell(BUFFER_HEIGHT - 1, 1);
    assert_eq!(a.ascii_character, b'A');
    assert_eq!(a.color_code, initial_attr());
    assert_eq!(b.ascii_character, b'B');
    assert_eq!(b.color_code, ColorCode::new(Color::Red, Color::White));
    assert_eq!(w.color_code(), ColorCode::new(Color::Red, Color::White));
}

#[test]
fn blank_fill_uses_current_attribute() {
    let mut w = fresh();
    w.set_color_code(Color::Green, Color::Blue);
    w.new_line();
    for c in 0..BUFFER_WIDTH {
        assert_blank(&w, BUFFER_HEIGHT - 1, c, ColorCode::new(Color::Green, Color::Blue));
    }
}

#[test]
fn empty_string_changes_nothing() {
    let mut w = fresh();
    w.write_string("ab");
    w.write_string("");
    assert_eq!(w.column_position(), 2);
    assert_eq!(w.cell(BUFFER_HEIGHT - 1, 0).ascii_character, b'a');
    assert_eq!(w.cell(BUFFER_HEIGHT - 1, 1).ascii_character, b'b');
}

#[test]
fn print_reduces_to_write_string() {
    let mut w = fresh();
    _print(&mut w, "42");
    assert_eq!(w.cell(BUFFER_HEIGHT - 1, 0).ascii_character, b'4');
    assert_eq!(w.cell(BUFFER_HEIGHT - 1, 1).ascii_character, b'2');
    assert_eq!(w.column_position(), 2);
}

#[test]
fn newline_at_boundary_scrolls_once() {
    let mut w = fresh();
    for _ in 0..BUFFER_WIDTH {
        w.write_byte(b'x');
    }
    w.write_byte(b'\n');
    assert_eq!(w.column_position(), 0);
    for c in 0..BUFFER_WIDTH {
        assert_eq!(w.cell(BUFFER_HEIGHT - 2, c).ascii_character, b'x');
        assert_blank(&w, BUFFER_HEIGHT - 1, c, initial_attr());
    }
}
