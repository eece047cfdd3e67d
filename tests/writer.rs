use font8x8::legacy::BASIC_LEGACY;
use kernel_core::writer::{cell_pixels, ConsoleOp, PixelPaint, Writer};

fn glyph_cells(ch: u8, row: u64, col: u64, color: u32) -> Vec<ConsoleOp> {
    let mut v = Vec::new();
    for r in 0..8u64 {
        for c in 0..8u64 {
            if (BASIC_LEGACY[ch as usize][r as usize] >> c) & 1 != 0 {
                v.push(ConsoleOp::Cell { row: row + r, col: col + c, color });
            }
        }
    }
    v
}

#[test]
fn new_writer_geometry() {
    let w = Writer::new(0xFFFF_FFFF);
    assert_eq!((w.row, w.col, w.height, w.width), (0, 0, 536, 160));
    assert_eq!(w.get_width(), 320);
}

#[test]
fn writing_a_letter_paints_its_glyph() {
    let mut w = Writer::new(0x00AB_CDEF);
    let ops = w.write_str("A");
    let want = glyph_cells(b'A', 0, 0, 0x00AB_CDEF);
    assert!(!want.is_empty());
    assert_eq!(ops, want);
    assert_eq!((w.row, w.col), (0, 8));
}

#[test]
fn space_paints_nothing_and_newline_moves_down() {
    let mut w = Writer::new(1);
    let mut ops = Vec::new();
    w.write_char(' ', &mut ops);
    assert!(ops.is_empty());
    assert_eq!(w.col, 8);
    w.write_char('\n', &mut ops);
    assert!(ops.is_empty());
    assert_eq!((w.row, w.col), (8, 0));
}

#[test]
fn line_wraps_at_right_edge() {
    let mut w = Writer::new(1);
    let text: String = std::iter::repeat('x').take(20).collect();
    let ops = w.write_str(&text);
    assert_eq!((w.row, w.col), (8, 0));
    assert!(!ops.contains(&ConsoleOp::Scroll));
}

#[test]
fn bottom_line_scrolls() {
    let mut w = Writer::new(1);
    let ops = w.write_str(&"\n".repeat(66));
    assert!(ops.is_empty());
    assert_eq!(w.row, 528);
    let ops = w.write_str("\n");
    assert_eq!(ops, vec![ConsoleOp::Scroll]);
    assert_eq!((w.row, w.col), (528, 0));
    // one text line on a 1080-pixel display is 2 * 8 pixel rows
    assert_eq!(w.scroll(1080), 16);
}

#[test]
fn color_change_and_cell_pixels() {
    let mut w = Writer::new(1);
    w.change_color(0x00FF_0000);
    assert_eq!(w.color, 0x00FF_0000);
    let mut ops = Vec::new();
    w.write_char('\n', &mut ops);
    w.write_char('\n', &mut ops);
    w.write_char(' ', &mut ops);
    assert_eq!(
        w.write_pixel(),
        vec![
            PixelPaint { x: 32, y: 16, color: 0x00FF_0000 },
            PixelPaint { x: 32, y: 17, color: 0x00FF_0000 },
            PixelPaint { x: 33, y: 16, color: 0x00FF_0000 },
            PixelPaint { x: 33, y: 17, color: 0x00FF_0000 },
        ]
    );
    assert_eq!(cell_pixels(0, 0, 5)[3], PixelPaint { x: 1, y: 1, color: 5 });
}
