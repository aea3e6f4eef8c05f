use rondos::io::vga::{Color, ColorCode, ScreenChar, VgaBuffer, BUFFER_HEIGHT, BUFFER_WIDTH};

#[test]
fn fresh_screen_blank() {
    let screen = VgaBuffer::new();
    assert_eq!(screen.col_pos(), 0);
    for row in 0..BUFFER_HEIGHT {
        for col in 0..BUFFER_WIDTH {
            let c = screen.char_at(row, col);
            assert_eq!(c.ascii_character, b' ');
            assert_eq!(c.color_code, ColorCode(0x0f));
        }
    }
}

#[test]
fn color_code_packs() {
    assert_eq!(ColorCode::new(Color::White, Color::Black).0, 0x0f);
    assert_eq!(ColorCode::new(Color::Yellow, Color::Blue).0, 0x1e);
    let cell = ScreenChar::new(b'x', ColorCode(0x1e));
    assert_eq!(cell.ascii_character, b'x');
    assert_eq!(cell.color_code.0, 0x1e);
}

#[test]
fn putc_writes_on_bottom_row() {
    let mut screen = VgaBuffer::new();
    screen.putc(b'h');
    screen.putc(b'i');
    assert_eq!(screen.col_pos(), 2);
    assert_eq!(screen.char_at(24, 0).ascii_character, b'h');
    assert_eq!(screen.char_at(24, 1).ascii_character, b'i');
}

#[test]
fn carriage_return_rewinds() {
    let mut screen = VgaBuffer::new();
    screen.write_bytes(b"abc\rz");
    assert_eq!(screen.char_at(24, 0).ascii_character, b'z');
    assert_eq!(screen.char_at(24, 1).ascii_character, b'b');
    assert_eq!(screen.col_pos(), 1);
}

#[test]
fn newline_scrolls() {
    let mut screen = VgaBuffer::new();
    screen.write_bytes(b"abc\n");
    assert_eq!(screen.col_pos(), 0);
    // The line moved up one row; the bottom row is blank again.
    assert_eq!(screen.char_at(23, 0).ascii_character, b'a');
    assert_eq!(screen.char_at(23, 2).ascii_character, b'c');
    assert_eq!(screen.char_at(24, 0).ascii_character, b' ');
}

#[test]
fn backspace_blanks_cell() {
    let mut screen = VgaBuffer::new();
    screen.write_bytes(b"ab");
    screen.putc(0x08);
    assert_eq!(screen.col_pos(), 1);
    assert_eq!(screen.char_at(24, 1).ascii_character, b' ');
    assert_eq!(screen.char_at(24, 0).ascii_character, b'a');
    // At the left edge a backspace does nothing.
    let mut fresh = VgaBuffer::new();
    fresh.putc(0x08);
    assert_eq!(fresh.col_pos(), 0);
}

#[test]
fn delete_pulls_row_left() {
    let mut screen = VgaBuffer::new();
    screen.write_bytes(b"abcd\r");
    screen.putc(0x7f);
    // The cursor stays; the tail shifts left over it.
    assert_eq!(screen.col_pos(), 0);
    assert_eq!(screen.char_at(24, 0).ascii_character, b'b');
    assert_eq!(screen.char_at(24, 2).ascii_character, b'd');
    assert_eq!(screen.char_at(24, 79).ascii_character, b' ');
}

#[test]
fn full_row_wraps() {
    let mut screen = VgaBuffer::new();
    for _ in 0..80 {
        screen.putc(b'x');
    }
    // The row filled and scrolled away; the cursor is back at the edge.
    assert_eq!(screen.col_pos(), 0);
    assert_eq!(screen.char_at(23, 0).ascii_character, b'x');
    assert_eq!(screen.char_at(23, 79).ascii_character, b'x');
    assert_eq!(screen.char_at(24, 0).ascii_character, b' ');
}

#[test]
fn clear_fills_blanks_and_keeps_cursor() {
    let mut screen = VgaBuffer::new();
    screen.write_bytes(b"some text");
    let col = screen.col_pos();
    screen.clear();
    assert_eq!(screen.col_pos(), col);
    for col2 in 0..BUFFER_WIDTH {
        assert_eq!(screen.char_at(24, col2).ascii_character, b' ');
    }
}
