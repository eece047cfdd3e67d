//! The text console: a cursor over a grid of 2x2-pixel cells, drawing 8x8 glyphs.
use font8x8::legacy::BASIC_LEGACY;
use vstd::prelude::*;
use vstd::string::is_ascii_spec_bytes;

verus! {

/// The 8x8 bitmap of ASCII code `code`, one byte per glyph row, bit `c` of a
/// row being column `c`.
pub uninterp spec fn legacy_glyph(code: u8) -> Seq<u8>;

/// Relies on font8x8's `legacy::BASIC_LEGACY`, a table of 128 glyphs: the
/// bitmap of ASCII code `code`.
#[verifier::external_body]
fn glyph_of(code: u8) -> (r: [u8; 8])
    requires
        code < 128,
    ensures
        r@ == legacy_glyph(code),
{
    BASIC_LEGACY[code as usize]
}

/// Glyph row `r` of `g` has column `c` set.
pub open spec fn glyph_bit(g: Seq<u8>, r: int, c: int) -> bool {
    (g[r] >> (c as u8)) & 1u8 != 0u8
}

/// A framebuffer pixel to paint.
#[derive(PartialEq, Eq, Structural, Debug, Clone, Copy)]
pub struct PixelPaint {
    pub x: u64,
    pub y: u64,
    pub color: u32,
}

/// One effect of writing text on the display.
#[derive(PartialEq, Eq, Structural, Debug, Clone, Copy)]
pub enum ConsoleOp {
    /// Paint console cell (`row`, `col`), a 2x2 block of pixels.
    Cell { row: u64, col: u64, color: u32 },
    /// Scroll the display up by one text line.
    Scroll,
}

/// Cells painted for the first `k` of the 64 positions of glyph `g` drawn with
/// its top-left cell at (`ox`, `oy`), in row-major order.
pub open spec fn glyph_cells(g: Seq<u8>, ox: u64, oy: u64, color: u32, k: nat) -> Seq<ConsoleOp>
    decreases k,
{
    if k == 0 {
        Seq::empty()
    } else {
        let p = (k - 1) as nat;
        glyph_cells(g, ox, oy, color, p) + if glyph_bit(g, (p / 8) as int, (p % 8) as int) {
            seq![ConsoleOp::Cell { row: (ox + p / 8) as u64, col: (oy + p % 8) as u64, color }]
        } else {
            Seq::empty()
        }
    }
}

/// The pixels of console cell (`row`, `col`): rows `2 row` and `2 row + 1`,
/// columns `2 col` and `2 col + 1`, row by row.
pub fn cell_pixels(row: u64, col: u64, color: u32) -> (r: Vec<PixelPaint>)
    requires
        row < 0x4000_0000_0000_0000,
        col < 0x4000_0000_0000_0000,
    ensures
        r@ == seq![
            PixelPaint { x: (2 * row) as u64, y: (2 * col) as u64, color },
            PixelPaint { x: (2 * row) as u64, y: (2 * col + 1) as u64, color },
            PixelPaint { x: (2 * row + 1) as u64, y: (2 * col) as u64, color },
            PixelPaint { x: (2 * row + 1) as u64, y: (2 * col + 1) as u64, color },
        ],
{
    let mut r: Vec<PixelPaint> = Vec::new();
    let rs = 2 * row;
    let cs = 2 * col;
    r.push(PixelPaint { x: rs, y: cs, color });
    r.push(PixelPaint { x: rs, y: cs + 1, color });
    r.push(PixelPaint { x: rs + 1, y: cs, color });
    r.push(PixelPaint { x: rs + 1, y: cs + 1, color });
    assert(r@ =~= seq![
        PixelPaint { x: (2 * row) as u64, y: (2 * col) as u64, color },
        PixelPaint { x: (2 * row) as u64, y: (2 * col + 1) as u64, color },
        PixelPaint { x: (2 * row + 1) as u64, y: (2 * col) as u64, color },
        PixelPaint { x: (2 * row + 1) as u64, y: (2 * col + 1) as u64, color },
    ]);
    r
}

/// Console cursor and color over a grid of `height` x `width` cells.
#[derive(PartialEq, Eq, Structural, Debug, Clone, Copy)]
pub struct Writer {
    pub color: u32,
    pub row: u64,
    pub col: u64,
    pub height: u64,
    pub width: u64,
}

/// Largest console dimension, in cells.
pub const MAX_CONSOLE_CELLS: u64 = 0x1_0000_0000;

impl Writer {
    /// The grid is at least one text line high, the cursor lies on it, and the
    /// grid is small enough that glyph cells and their pixels have addresses.
    pub open spec fn wf(&self) -> bool {
        &&& self.rows_wf()
        &&& self.col < self.width
    }

    /// The grid is at least one text line high and one cell wide, the cursor
    /// row lies on it, and both dimensions are within `MAX_CONSOLE_CELLS`.
    pub open spec fn rows_wf(&self) -> bool {
        &&& 8 <= self.height
        &&& self.row < self.height <= MAX_CONSOLE_CELLS
        &&& 0 < self.width <= MAX_CONSOLE_CELLS
    }

    /// State and effects of moving to the start of the next text line: down 8
    /// cells, scrolling instead when that leaves the grid.
    pub open spec fn after_new_line(self) -> (Writer, Seq<ConsoleOp>) {
        let moved = Writer { col: 0, row: (self.row + 8) as u64, ..self };
        if moved.row >= self.height {
            (Writer { row: self.row, ..moved }, seq![ConsoleOp::Scroll])
        } else {
            (moved, Seq::empty())
        }
    }

    /// State and effects of writing `ch`: a newline moves to the next line;
    /// any other character paints its glyph at the cursor and moves the cursor
    /// 8 cells right, to the next line when it reaches the right edge.
    pub open spec fn after_char(self, ch: char) -> (Writer, Seq<ConsoleOp>) {
        if ch == '\n' {
            self.after_new_line()
        } else {
            let cells = glyph_cells(legacy_glyph(ch as u8), self.row, self.col, self.color, 64);
            let moved = Writer { col: (self.col + 8) as u64, ..self };
            if moved.col >= self.width {
                (moved.after_new_line().0, cells + moved.after_new_line().1)
            } else {
                (moved, cells)
            }
        }
    }

    /// State and effects of writing the characters of `s` in order.
    pub open spec fn after_str(self, s: Seq<char>) -> (Writer, Seq<ConsoleOp>)
        decreases s.len(),
    {
        if s.len() == 0 {
            (self, Seq::empty())
        } else {
            let (w, ops) = self.after_str(s.drop_last());
            (w.after_char(s.last()).0, ops + w.after_char(s.last()).1)
        }
    }

    /// A console of 536 x 160 cells drawing in `color`, the cursor at the top left.
    pub fn new(color: u32) -> (r: Self)
        ensures
            r.wf(),
            r == (Writer { color, row: 0, col: 0, height: 536, width: 160 }),
    {
        let height: u64 = 1080 / 2 - 4;
        let width: u64 = (1920 - 1600) / 2;
        Writer { color, row: 0, col: 0, height, width }
    }

    /// Width of the console in framebuffer pixels.
    pub fn get_width(&self) -> (r: u64)
        requires
            self.wf(),
        ensures
            r == 2 * self.width,
    {
        self.width * 2
    }

    /// Draws from now on in `color`.
    pub fn change_color(&mut self, color: u32)
        ensures
            *final(self) == (Writer { color, ..*old(self) }),
    {
        self.color = color;
    }

    /// The pixels of the cell under the cursor, in the current color.
    pub fn write_pixel(&self) -> (r: Vec<PixelPaint>)
        requires
            self.wf(),
        ensures
            r@ == seq![
                PixelPaint { x: (2 * self.row) as u64, y: (2 * self.col) as u64, color: self.color },
                PixelPaint { x: (2 * self.row) as u64, y: (2 * self.col + 1) as u64, color: self.color },
                PixelPaint { x: (2 * self.row + 1) as u64, y: (2 * self.col) as u64, color: self.color },
                PixelPaint { x: (2 * self.row + 1) as u64, y: (2 * self.col + 1) as u64, color: self.color },
            ],
    {
        cell_pixels(self.row, self.col, self.color)
    }

    /// Rows of framebuffer pixels that one text line takes on a display
    /// `fb_height` pixels high.
    pub fn scroll(&self, fb_height: u64) -> (r: u64)
        requires
            self.wf(),
        ensures
            r == (fb_height / self.height) * 8,
    {
        assert(fb_height / self.height <= fb_height) by {
            vstd::arithmetic::div_mod::lemma_div_is_ordered_by_denominator(fb_height as int, 1, self.height as int);
        }
        assert((fb_height / self.height) * 8 <= u64::MAX) by (nonlinear_arith)
            requires fb_height / self.height <= fb_height, self.height >= 8, fb_height <= u64::MAX;
        (fb_height / self.height) * 8
    }
}

impl Writer {
    /// Moves to the start of the next text line, scrolling when the cursor
    /// would leave the grid; the effects go to `ops`.
    pub fn new_line(&mut self, ops: &mut Vec<ConsoleOp>)
        requires
            old(self).rows_wf(),
        ensures
            final(self).wf(),
            *final(self) == old(self).after_new_line().0,
            final(ops)@ == old(ops)@ + old(self).after_new_line().1,
    {
        self.col = 0;
        self.row = self.row + 8;
        if self.row >= self.height {
            ops.push(ConsoleOp::Scroll);
            self.row = self.row - 8;
        }
        assert(final(ops)@ =~= old(ops)@ + old(self).after_new_line().1);
    }

    /// Writes the ASCII character `ch`; the effects go to `ops`.
    pub fn write_char(&mut self, ch: char, ops: &mut Vec<ConsoleOp>)
        requires
            old(self).wf(),
            (ch as u32) < 128,
        ensures
            final(self).wf(),
            *final(self) == old(self).after_char(ch).0,
            final(ops)@ == old(ops)@ + old(self).after_char(ch).1,
    {
        if ch == '\n' {
            self.new_line(ops);
            return;
        }
        let code = ch as u8;
        let bitmap = glyph_of(code);
        let ghost g = legacy_glyph(code);
        let ox = self.row;
        let oy = self.col;
        let color = self.color;
        let ghost start = ops@;
        let mut r: u64 = 0;
        while r < 8
            invariant
                r <= 8,
                bitmap@ == g,
                ops@ == start + glyph_cells(g, ox, oy, color, (8 * r) as nat),
                ox < MAX_CONSOLE_CELLS,
                oy < MAX_CONSOLE_CELLS,
            decreases 8 - r,
        {
            let mut c: u64 = 0;
            while c < 8
                invariant
                    r < 8,
                    c <= 8,
                    bitmap@ == g,
                    ops@ == start + glyph_cells(g, ox, oy, color, (8 * r + c) as nat),
                    ox < MAX_CONSOLE_CELLS,
                    oy < MAX_CONSOLE_CELLS,
                decreases 8 - c,
            {
                let p = 8 * r + c;
                assert(p / 8 == r && p % 8 == c) by {
                    vstd::arithmetic::div_mod::lemma_fundamental_div_mod_converse(
                        p as int,
                        8,
                        r as int,
                        c as int,
                    );
                }
                if (bitmap[r as usize] >> (c as u8)) & 1 != 0 {
                    ops.push(ConsoleOp::Cell { row: ox + r, col: oy + c, color });
                }
                assert(ops@ =~= start + glyph_cells(g, ox, oy, color, (p + 1) as nat));
                c = c + 1;
            }
            r = r + 1;
        }
        let ghost cells = glyph_cells(g, ox, oy, color, 64);
        assert(ops@ == start + cells);
        self.col = oy + 8;
        if self.col >= self.width {
            self.new_line(ops);
            assert(ops@ =~= start + (cells + old(self).after_char(ch).1.subrange(cells.len() as int, old(self).after_char(ch).1.len() as int)));
        }
        assert(ops@ =~= old(ops)@ + old(self).after_char(ch).1);
    }

    /// Writes the ASCII text `s`, character by character, and returns the effects.
    pub fn write_str(&mut self, s: &str) -> (ops: Vec<ConsoleOp>)
        requires
            old(self).wf(),
            s.is_ascii(),
        ensures
            final(self).wf(),
            *final(self) == old(self).after_str(s@).0,
            ops@ == old(self).after_str(s@).1,
    {
        broadcast use is_ascii_spec_bytes;

        let bytes = s.as_bytes();
        let mut ops: Vec<ConsoleOp> = Vec::new();
        let mut i: usize = 0;
        proof {
            assert(s@.take(0) =~= Seq::<char>::empty());
        }
        while i < bytes.len()
            invariant
                self.wf(),
                s.is_ascii(),
                bytes@ == Seq::new(s@.len(), |j: int| s@[j] as u8),
                i <= bytes@.len(),
                *self == old(self).after_str(s@.take(i as int)).0,
                ops@ == old(self).after_str(s@.take(i as int)).1,
            decreases bytes@.len() - i,
        {
            let ch = bytes[i] as char;
            assert(s@[i as int] <= '\u{7f}');
            assert(ch == s@[i as int]);
            assert(s@.take(i + 1).drop_last() =~= s@.take(i as int));
            self.write_char(ch, &mut ops);
            i = i + 1;
        }
        assert(s@.take(i as int) =~= s@);
        ops
    }
}

} // verus!
