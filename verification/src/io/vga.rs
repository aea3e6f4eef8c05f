//! The text-mode screen: a 25 by 80 grid of colored characters.
//!
//! The buffer is held by value and every write to it is verified; the
//! caller copies the cells to video memory and performs the cursor port
//! writes that the plan functions return.

use vstd::prelude::*;

verus! {

use crate::port::PortWrite;

/// Number of character rows on the screen.
pub const BUFFER_HEIGHT: usize = 25;

/// Number of character columns on the screen.
pub const BUFFER_WIDTH: usize = 80;

/// The sixteen text-mode colors.
#[derive(Debug, Clone, Copy, PartialEq, Eq, Structural)]
pub enum Color {
    Black,
    Blue,
    Green,
    Cyan,
    Red,
    Magenta,
    Brown,
    LightGray,
    DarkGray,
    LightBlue,
    LightGreen,
    LightCyan,
    LightRed,
    Pink,
    Yellow,
    White,
}

impl Color {
    /// The color's 4-bit hardware code.
    pub open spec fn as_u8(self) -> u8 {
        match self {
            Color::Black => 0,
            Color::Blue => 1,
            Color::Green => 2,
            Color::Cyan => 3,
            Color::Red => 4,
            Color::Magenta => 5,
            Color::Brown => 6,
            Color::LightGray => 7,
            Color::DarkGray => 8,
            Color::LightBlue => 9,
            Color::LightGreen => 10,
            Color::LightCyan => 11,
            Color::LightRed => 12,
            Color::Pink => 13,
            Color::Yellow => 14,
            Color::White => 15,
        }
    }

    /// The color's 4-bit hardware code.
    pub fn to_u8(self) -> (r: u8)
        ensures
            r == self.as_u8(),
    {
        match self {
            Color::Black => 0,
            Color::Blue => 1,
            Color::Green => 2,
            Color::Cyan => 3,
            Color::Red => 4,
            Color::Magenta => 5,
            Color::Brown => 6,
            Color::LightGray => 7,
            Color::DarkGray => 8,
            Color::LightBlue => 9,
            Color::LightGreen => 10,
            Color::LightCyan => 11,
            Color::LightRed => 12,
            Color::Pink => 13,
            Color::Yellow => 14,
            Color::White => 15,
        }
    }
}

/// A packed attribute byte: background color high, foreground color low.
#[derive(Debug, Clone, Copy, PartialEq, Eq, Structural)]
pub struct ColorCode(pub u8);

impl ColorCode {
    /// Packs a foreground and a background color into one attribute byte.
    pub fn new(foreground: Color, background: Color) -> (r: ColorCode)
        ensures
            r.0 == (background.as_u8() << 4) | foreground.as_u8(),
    {
        ColorCode((background.to_u8() << 4) | foreground.to_u8())
    }
}

/// One screen cell: a character byte and its attribute byte.
#[derive(Debug, Clone, Copy, PartialEq, Eq, Structural)]
pub struct ScreenChar {
    /// The character shown, as its code-page byte.
    pub ascii_character: u8,
    /// The cell's color attribute.
    pub color_code: ColorCode,
}

impl ScreenChar {
    /// A cell showing `ch` with attribute `color`.
    pub fn new(ch: u8, color: ColorCode) -> (r: ScreenChar)
        ensures
            r == (ScreenChar { ascii_character: ch, color_code: color }),
    {
        ScreenChar { ascii_character: ch, color_code: color }
    }
}

/// The blank cell that clearing writes: a space in the given color.
pub open spec fn blank(color: ColorCode) -> ScreenChar {
    ScreenChar { ascii_character: 32, color_code: color }
}

/// The ghost shape of the screen: the cells row-major, the cursor column
/// on the bottom row, and the current color.
pub struct VgaView {
    /// The 2000 cells, row-major.
    pub chars: Seq<ScreenChar>,
    /// Column the next character lands in, on the bottom row.
    pub col_pos: int,
    /// Attribute byte given to newly written cells.
    pub cur_color: ColorCode,
}

/// The screen after scrolling one line: every row moves up one place and
/// the bottom row becomes blank.
pub open spec fn vga_scroll(chars: Seq<ScreenChar>, color: ColorCode) -> Seq<ScreenChar> {
    Seq::new(chars.len(), |i: int| if i < 1920 { chars[i + 80] } else { blank(color) })
}

/// The screen after one byte is written at the cursor.  Newline scrolls,
/// carriage return rewinds the column, backspace blanks the cell to the
/// left, delete pulls the rest of the bottom row left, and every other
/// byte lands at the cursor, scrolling once the row fills up.
pub open spec fn vga_putc(v: VgaView, c: u8) -> VgaView {
    if c == 10 {
        VgaView { chars: vga_scroll(v.chars, v.cur_color), col_pos: 0, ..v }
    } else if c == 13 {
        VgaView { col_pos: 0, ..v }
    } else if c == 8 {
        if v.col_pos > 0 {
            VgaView {
                chars: v.chars.update(1920 + v.col_pos - 1, blank(v.cur_color)),
                col_pos: v.col_pos - 1,
                ..v
            }
        } else {
            v
        }
    } else if c == 127 {
        VgaView {
            chars: Seq::new(
                v.chars.len(),
                |i: int|
                    if 1920 + v.col_pos <= i < 1999 {
                        v.chars[i + 1]
                    } else if i == 1999 {
                        blank(v.cur_color)
                    } else {
                        v.chars[i]
                    },
            ),
            ..v
        }
    } else {
        let written = v.chars.update(
            1920 + v.col_pos,
            ScreenChar { ascii_character: c, color_code: v.cur_color },
        );
        if v.col_pos == 79 {
            VgaView { chars: vga_scroll(written, v.cur_color), col_pos: 0, ..v }
        } else {
            VgaView { chars: written, col_pos: v.col_pos + 1, ..v }
        }
    }
}

/// The screen after a whole byte string is written, one byte at a time.
pub open spec fn vga_write(v: VgaView, s: Seq<u8>) -> VgaView
    decreases s.len(),
{
    if s.len() == 0 {
        v
    } else {
        vga_write(vga_putc(v, s[0]), s.drop_first())
    }
}

/// Writing one more byte after a string is one more step of the fold.
pub proof fn lemma_vga_write_snoc(v: VgaView, s: Seq<u8>, c: u8)
    ensures
        vga_write(v, s.push(c)) == vga_putc(vga_write(v, s), c),
    decreases s.len(),
{
    if s.len() == 0 {
        assert(s.push(c)[0] == c);
        assert(s.push(c).drop_first() =~= Seq::<u8>::empty());
        assert(vga_write(v, s.push(c)) == vga_write(vga_putc(v, c), Seq::<u8>::empty()));
        assert(vga_write(vga_putc(v, c), Seq::<u8>::empty()) == vga_putc(v, c));
        assert(vga_write(v, s) == v);
    } else {
        assert(s.push(c)[0] == s[0]);
        assert(s.push(c).drop_first() =~= s.drop_first().push(c));
        lemma_vga_write_snoc(vga_putc(v, s[0]), s.drop_first(), c);
        assert(vga_write(v, s.push(c)) == vga_write(vga_putc(v, s[0]), s.drop_first().push(c)));
        assert(vga_write(v, s) == vga_write(vga_putc(v, s[0]), s.drop_first()));
    }
}

/// The text-mode screen state: the cell grid, the cursor column on the
/// bottom row, and the color new characters are written with.
pub struct VgaBuffer {
    chars: Vec<ScreenChar>,
    col_pos: usize,
    cur_color: ColorCode,
}

impl View for VgaBuffer {
    type V = VgaView;

    closed spec fn view(&self) -> VgaView {
        VgaView { chars: self.chars@, col_pos: self.col_pos as int, cur_color: self.cur_color }
    }
}

impl VgaBuffer {
    /// The screen holds its full grid and the cursor is on it.
    pub open spec fn wf(self) -> bool {
        self@.chars.len() == 2000 && 0 <= self@.col_pos < 80
    }

    /// A blank white-on-black screen with the cursor at the left edge.
    pub fn new() -> (r: VgaBuffer)
        ensures
            r.wf(),
            r@.col_pos == 0,
            r@.cur_color == ColorCode(0x0f),
            forall|i: int| 0 <= i < 2000 ==> r@.chars[i] == blank(ColorCode(0x0f)),
    {
        let color = ColorCode::new(Color::White, Color::Black);
        proof {
            assert((0u8 << 4) | 15u8 == 0x0f) by (bit_vector);
        }
        let mut chars: Vec<ScreenChar> = Vec::new();
        let mut i: usize = 0;
        while i < 2000
            invariant
                i <= 2000,
                chars@.len() == i,
                forall|j: int| 0 <= j < i ==> chars@[j] == blank(ColorCode(0x0f)),
            decreases 2000 - i,
        {
            chars.push(ScreenChar::new(32u8, ColorCode(0x0f)));
            i = i + 1;
        }
        VgaBuffer { chars, col_pos: 0, cur_color: color }
    }

    /// The current cursor column on the bottom row.
    pub fn col_pos(&self) -> (r: usize)
        ensures
            r == self@.col_pos,
    {
        self.col_pos
    }

    /// The cell at `row`, `col`.
    pub fn char_at(&self, row: usize, col: usize) -> (r: ScreenChar)
        requires
            self.wf(),
            row < 25,
            col < 80,
        ensures
            r == self@.chars[row * 80 + col],
    {
        self.chars[row * 80 + col]
    }

    /// Overwrites one row with blanks in the current color.
    fn clear_row(&mut self, row: usize)
        requires
            old(self).wf(),
            row < 25,
        ensures
            final(self).wf(),
            final(self)@.col_pos == old(self)@.col_pos,
            final(self)@.cur_color == old(self)@.cur_color,
            forall|i: int|
                0 <= i < 2000 ==> final(self)@.chars[i] == if row * 80 <= i < row * 80 + 80 {
                    blank(old(self)@.cur_color)
                } else {
                    old(self)@.chars[i]
                },
    {
        let color = self.cur_color;
        let mut col: usize = 0;
        while col < 80
            invariant
                col <= 80,
                row < 25,
                self.chars@.len() == 2000,
                self.col_pos == old(self).col_pos,
                self.cur_color == old(self).cur_color,
                color == old(self).cur_color,
                forall|i: int|
                    0 <= i < 2000 ==> self.chars@[i] == if row * 80 <= i < row * 80 + col {
                        blank(old(self)@.cur_color)
                    } else {
                        old(self)@.chars[i]
                    },
            decreases 80 - col,
        {
            self.chars[row * 80 + col] = ScreenChar::new(32u8, color);
            col = col + 1;
        }
    }

    /// Scrolls the screen one line: every row moves up, the bottom row is
    /// blanked, and the cursor returns to the left edge.
    fn new_line(&mut self)
        requires
            old(self).wf(),
        ensures
            final(self).wf(),
            final(self)@ == (VgaView {
                chars: vga_scroll(old(self)@.chars, old(self)@.cur_color),
                col_pos: 0,
                cur_color: old(self)@.cur_color,
            }),
    {
        let mut idx: usize = 0;
        while idx < 1920
            invariant
                idx <= 1920,
                self.chars@.len() == 2000,
                self.col_pos == old(self).col_pos,
                self.cur_color == old(self).cur_color,
                old(self).wf(),
                forall|j: int| 0 <= j < idx ==> self.chars@[j] == old(self)@.chars[j + 80],
                forall|j: int| idx <= j < 2000 ==> self.chars@[j] == old(self)@.chars[j],
            decreases 1920 - idx,
        {
            let ch = self.chars[idx + 80];
            self.chars[idx] = ch;
            idx = idx + 1;
        }
        self.clear_row(24);
        self.col_pos = 0;
        proof {
            assert(self@.chars =~= vga_scroll(old(self)@.chars, old(self)@.cur_color));
        }
    }

    /// Writes one byte at the cursor, with the meaning `vga_putc` gives
    /// each byte.
    pub fn putc(&mut self, c: u8)
        requires
            old(self).wf(),
        ensures
            final(self).wf(),
            final(self)@ == vga_putc(old(self)@, c),
    {
        match c {
            // Newline scrolls; carriage return rewinds the column.
            10 => self.new_line(),
            13 => {
                self.col_pos = 0;
            },
            // Backspace blanks the cell to the left.
            0x08 => {
                if self.col_pos > 0 {
                    let color = self.cur_color;
                    self.chars[1920 + self.col_pos - 1] = ScreenChar::new(32u8, color);
                    self.col_pos = self.col_pos - 1;
                }
            },
            // Delete pulls the rest of the bottom row left.
            0x7f => {
                let mut idx: usize = 1920 + self.col_pos;
                while idx < 1999
                    invariant
                        1920 <= 1920 + old(self).col_pos <= idx <= 1999,
                        self.chars@.len() == 2000,
                        self.col_pos == old(self).col_pos,
                        self.cur_color == old(self).cur_color,
                        old(self).wf(),
                        forall|j: int|
                            1920 + old(self)@.col_pos <= j < idx ==> self.chars@[j] == old(
                                self,
                            )@.chars[j + 1],
                        forall|j: int|
                            (0 <= j < 1920 + old(self)@.col_pos || idx <= j < 2000)
                                ==> self.chars@[j] == old(self)@.chars[j],
                    decreases 1999 - idx,
                {
                    let ch = self.chars[idx + 1];
                    self.chars[idx] = ch;
                    idx = idx + 1;
                }
                let color = self.cur_color;
                self.chars[1999] = ScreenChar::new(32u8, color);
                proof {
                    assert(self@.chars =~= vga_putc(old(self)@, c).chars);
                }
            },
            _ => {
                let color = self.cur_color;
                self.chars[1920 + self.col_pos] = ScreenChar::new(c, color);
                if self.col_pos == 79 {
                    self.new_line();
                } else {
                    self.col_pos = self.col_pos + 1;
                }
            },
        }
    }

    /// Writes a byte string at the cursor, one byte at a time.
    pub fn write_bytes(&mut self, s: &[u8])
        requires
            old(self).wf(),
        ensures
            final(self).wf(),
            final(self)@ == vga_write(old(self)@, s@),
    {
        let mut i: usize = 0;
        while i < s.len()
            invariant
                i <= s@.len(),
                self.wf(),
                self@ == vga_write(old(self)@, s@.subrange(0, i as int)),
            decreases s@.len() - i,
        {
            let ghost prefix = s@.subrange(0, i as int);
            self.putc(s[i]);
            proof {
                lemma_vga_write_snoc(old(self)@, prefix, s@[i as int]);
                assert(s@.subrange(0, i + 1 as int) =~= prefix.push(s@[i as int]));
            }
            i = i + 1;
        }
        proof {
            assert(s@.subrange(0, s@.len() as int) =~= s@);
        }
    }

    /// Overwrites the whole screen with blanks in the current color; the
    /// cursor column stays where it was.
    pub fn clear(&mut self)
        requires
            old(self).wf(),
        ensures
            final(self).wf(),
            final(self)@.col_pos == old(self)@.col_pos,
            final(self)@.cur_color == old(self)@.cur_color,
            forall|i: int| 0 <= i < 2000 ==> final(self)@.chars[i] == blank(old(self)@.cur_color),
    {
        let mut row: usize = 0;
        while row < 25
            invariant
                row <= 25,
                self.wf(),
                self.col_pos == old(self).col_pos,
                self.cur_color == old(self).cur_color,
                forall|i: int|
                    0 <= i < row * 80 ==> self.chars@[i] == blank(old(self)@.cur_color),
                forall|i: int| row * 80 <= i < 2000 ==> self.chars@[i] == old(self)@.chars[i],
            decreases 25 - row,
        {
            self.clear_row(row);
            row = row + 1;
        }
    }
}

/// The port writes that switch the hardware cursor on with the given
/// scan-line shape.  The current values of the two cursor-shape
/// registers, which the caller reads back between the writes, keep their
/// high bits.
pub fn enable_cursor(cursor_start: u8, cursor_end: u8, reg_start: u8, reg_end: u8) -> (r: Vec<
    PortWrite,
>)
    ensures
        r@.len() == 4,
        r@[0] == (PortWrite { port: 0x3d4, data: 0x0a }),
        r@[1] == (PortWrite { port: 0x3d5, data: (reg_start & 0xc0) | cursor_start }),
        r@[2] == (PortWrite { port: 0x3d4, data: 0x0b }),
        r@[3] == (PortWrite { port: 0x3d5, data: (reg_end & 0xe0) | cursor_end }),
{
    let mut r: Vec<PortWrite> = Vec::new();
    r.push(PortWrite::new(0x3d4, 0x0a));
    r.push(PortWrite::new(0x3d5, (reg_start & 0xc0) | cursor_start));
    r.push(PortWrite::new(0x3d4, 0x0b));
    r.push(PortWrite::new(0x3d5, (reg_end & 0xe0) | cursor_end));
    r
}

/// The port writes that move the hardware cursor to the given row and
/// column: the cell number split over the two cursor-location registers.
pub fn update_cursor(height: usize, width: usize) -> (r: Vec<PortWrite>)
    requires
        height < 25,
        width <= 80,
    ensures
        r@.len() == 4,
        r@[0] == (PortWrite { port: 0x3d4, data: 0x0f }),
        r@[1] == (PortWrite { port: 0x3d5, data: ((height * 80 + width) as usize & 0xff) as u8 }),
        r@[2] == (PortWrite { port: 0x3d4, data: 0x0e }),
        r@[3] == (PortWrite { port: 0x3d5, data: (((height * 80 + width) as usize >> 8) & 0xff) as u8 }),
{
    let pos: usize = height * 80 + width;
    let mut r: Vec<PortWrite> = Vec::new();
    r.push(PortWrite::new(0x3d4, 0x0f));
    r.push(PortWrite::new(0x3d5, (pos & 0xff) as u8));
    r.push(PortWrite::new(0x3d4, 0x0e));
    r.push(PortWrite::new(0x3d5, ((pos >> 8) & 0xff) as u8));
    r
}

/// The port writes that switch the hardware cursor off.
pub fn disable_cursor() -> (r: Vec<PortWrite>)
    ensures
        r@.len() == 2,
        r@[0] == (PortWrite { port: 0x3d4, data: 0x0a }),
        r@[1] == (PortWrite { port: 0x3d5, data: 0x20 }),
{
    let mut r: Vec<PortWrite> = Vec::new();
    r.push(PortWrite::new(0x3d4, 0x0a));
    r.push(PortWrite::new(0x3d5, 0x20));
    r
}

} // verus!
